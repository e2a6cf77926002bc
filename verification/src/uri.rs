//! Request targets.
use crate::syntax::{accepts_uri, uri_accepted};
use vstd::prelude::*;

verus! {

/// The target of a request, kept as the text it is written as.
#[derive(Debug, PartialEq, Eq)]
pub struct Uri {
    text: String,
}

impl View for Uri {
    type V = Seq<char>;

    closed spec fn view(&self) -> Seq<char> {
        self.text@
    }
}

impl Clone for Uri {
    fn clone(&self) -> (copy: Self)
        ensures
            copy@ == self@,
    {
        proof {
            use_type_invariant(self);
        }
        Uri { text: self.text.clone() }
    }
}

/// Whether `text` is well formed as a target: it is `/`, or the `http`
/// crate parses it.
pub open spec fn is_uri(text: Seq<char>) -> bool {
    text == "/"@ || uri_accepted(text)
}

impl Uri {
    #[verifier::type_invariant]
    spec fn well_formed(&self) -> bool {
        is_uri(self.text@)
    }

    /// The target `/`, which a request has until it is given another.
    pub fn root() -> (uri: Uri)
        ensures
            uri@ == "/"@,
    {
        Uri { text: "/".to_owned() }
    }

    /// The target written as `text`, where the `http` crate takes `text`
    /// for one.
    pub fn parse(text: &str) -> (out: Option<Uri>)
        ensures
            out is Some <==> uri_accepted(text@),
            out is Some ==> out->Some_0@ == text@,
    {
        if accepts_uri(text) {
            Some(Uri { text: text.to_owned() })
        } else {
            None
        }
    }

    /// The text of the target, which is well formed.
    pub fn as_str(&self) -> (text: &str)
        ensures
            text@ == self@,
            is_uri(text@),
    {
        proof {
            use_type_invariant(self);
        }
        self.text.as_str()
    }
}

} // verus!
