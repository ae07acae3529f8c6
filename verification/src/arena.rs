//! The per-invocation arena that backs request proxies. A proxy carries
//! an index into the arena instead of a raw pointer; every dereference is
//! a checked lookup, so a stale proxy is a rejected operation rather than
//! undefined behavior. The arena is drained as soon as the invocation it
//! served returns.

use vstd::prelude::*;

verus! {

/// A script-visible proxy for one wrapped request: the index it carries
/// stands in for the object's single reserved internal slot.
#[derive(Clone, Copy, Debug, PartialEq, Eq, Structural)]
pub struct RequestProxy {
    pub slot: usize,
}

/// Owns the requests wrapped for the current invocation.
#[derive(Debug)]
pub struct RequestArena<R> {
    slots: Vec<Option<R>>,
}

impl<R> View for RequestArena<R> {
    type V = Seq<Option<R>>;

    closed spec fn view(&self) -> Seq<Option<R>> {
        self.slots@
    }
}

impl<R> RequestArena<R> {
    /// The proxy points at a slot that still holds its request.
    pub open spec fn live(self, p: RequestProxy) -> bool {
        p.slot < self@.len() && self@[p.slot as int] is Some
    }

    pub fn new() -> (a: Self)
        ensures
            a@.len() == 0,
    {
        RequestArena { slots: Vec::new() }
    }

    /// Moves the request into a fresh slot; the returned proxy resolves to
    /// it until the slot is released or the arena is drained.
    pub fn install(&mut self, r: R) -> (p: RequestProxy)
        ensures
            final(self)@ == old(self)@.push(Some(r)),
            p.slot == old(self)@.len(),
            final(self).live(p),
    {
        let p = RequestProxy { slot: self.slots.len() };
        self.slots.push(Some(r));
        p
    }

    /// Checked dereference: the request behind the proxy, if its slot is
    /// still live.
    pub fn resolve(&self, p: RequestProxy) -> (r: Option<&R>)
        ensures
            match r {
                Some(x) => self.live(p) && self@[p.slot as int] == Some(*x),
                None => !self.live(p),
            },
    {
        if p.slot < self.slots.len() {
            match &self.slots[p.slot] {
                Some(x) => Some(x),
                None => None,
            }
        } else {
            None
        }
    }

    /// Releases one slot; a released proxy no longer resolves.
    pub fn release(&mut self, p: RequestProxy)
        ensures
            p.slot < old(self)@.len() ==> final(self)@ == old(self)@.update(
                p.slot as int,
                None::<R>,
            ),
            p.slot >= old(self)@.len() ==> final(self)@ == old(self)@,
            !final(self).live(p),
    {
        if p.slot < self.slots.len() {
            self.slots[p.slot] = None;
        }
    }

    /// Empties the arena at the end of an invocation.
    pub fn drain(&mut self)
        ensures
            final(self)@.len() == 0,
    {
        self.slots.clear();
    }
}

} // verus!
