//! The capability interface a native request must offer to be wrappable
//! for script, and the simple string-backed request built from four fields.

use vstd::prelude::*;
use crate::string_map::StringMap;

verus! {

/// A trait representing HTTP request information needed for server-side
/// rendering. Any native type offering these four read-only string views
/// can be wrapped into a script-visible proxy.
pub trait SimpleHttpRequest {
    /// The request path.
    spec fn path_spec(&self) -> Seq<char>;

    /// The user agent header.
    spec fn user_agent_spec(&self) -> Seq<char>;

    /// The referrer header.
    spec fn referrer_spec(&self) -> Seq<char>;

    /// The host header.
    spec fn host_spec(&self) -> Seq<char>;

    /// Returns the request path.
    fn path(&self) -> (r: &str)
        ensures
            r@ == self.path_spec(),
    ;

    /// Returns the user agent header.
    fn user_agent(&self) -> (r: &str)
        ensures
            r@ == self.user_agent_spec(),
    ;

    /// Returns the referrer header.
    fn referrer(&self) -> (r: &str)
        ensures
            r@ == self.referrer_spec(),
    ;

    /// Returns the host header.
    fn host(&self) -> (r: &str)
        ensures
            r@ == self.host_spec(),
    ;
}

/// A request backed by plain strings: a path, a header record and a body.
#[derive(Clone, Debug)]
pub struct StringHttpRequest {
    pub path: String,
    pub headers: StringMap,
    pub body: String,
}

impl StringHttpRequest {
    /// The headers hold pairwise-distinct keys.
    pub open spec fn wf(self) -> bool {
        self.headers.wf()
    }

    /// Builds a request from its four capability fields; the host, user
    /// agent and referrer land in the header record under their usual
    /// header names, and the body starts empty.
    pub fn new(path: &str, host: &str, user_agent: &str, referer: &str) -> (r: Self)
        ensures
            r.wf(),
            r.path_spec() == path@,
            r.host_spec() == host@,
            r.user_agent_spec() == user_agent@,
            r.referrer_spec() == referer@,
            r.body@ == Seq::<char>::empty(),
    {
        let mut headers = StringMap::new();
        headers.insert("host".to_owned(), host.to_owned());
        headers.insert("user-agent".to_owned(), user_agent.to_owned());
        headers.insert("referer".to_owned(), referer.to_owned());
        let r = StringHttpRequest { path: path.to_owned(), headers, body: String::new() };
        proof {
            reveal_strlit("host");
            reveal_strlit("user-agent");
            reveal_strlit("referer");
            assert("host"@.len() == 4 && "user-agent"@.len() == 10 && "referer"@.len() == 7);
            assert("host"@ != "user-agent"@ && "host"@ != "referer"@ && "user-agent"@
                != "referer"@);
            assert(r.headers@["host"@] == host@);
            assert(r.headers@["user-agent"@] == user_agent@);
            assert(r.headers@["referer"@] == referer@);
        }
        r
    }
}

impl SimpleHttpRequest for StringHttpRequest {
    open spec fn path_spec(&self) -> Seq<char> {
        self.path@
    }

    open spec fn user_agent_spec(&self) -> Seq<char> {
        if self.headers@.contains_key("user-agent"@) {
            self.headers@["user-agent"@]
        } else {
            Seq::<char>::empty()
        }
    }

    open spec fn referrer_spec(&self) -> Seq<char> {
        if self.headers@.contains_key("referer"@) {
            self.headers@["referer"@]
        } else {
            Seq::<char>::empty()
        }
    }

    open spec fn host_spec(&self) -> Seq<char> {
        if self.headers@.contains_key("host"@) {
            self.headers@["host"@]
        } else {
            Seq::<char>::empty()
        }
    }

    fn path(&self) -> (r: &str) {
        self.path.as_str()
    }

    fn user_agent(&self) -> (r: &str) {
        match self.headers.get("user-agent") {
            Some(v) => v.as_str(),
            None => {
                proof {
                    assert(""@ =~= Seq::<char>::empty()) by {
                        reveal_strlit("");
                    }
                }
                ""
            },
        }
    }

    fn referrer(&self) -> (r: &str) {
        match self.headers.get("referer") {
            Some(v) => v.as_str(),
            None => {
                proof {
                    assert(""@ =~= Seq::<char>::empty()) by {
                        reveal_strlit("");
                    }
                }
                ""
            },
        }
    }

    fn host(&self) -> (r: &str) {
        match self.headers.get("host") {
            Some(v) => v.as_str(),
            None => {
                proof {
                    assert(""@ =~= Seq::<char>::empty()) by {
                        reveal_strlit("");
                    }
                }
                ""
            },
        }
    }
}

} // verus!
