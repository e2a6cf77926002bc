//! Request methods.
use crate::compare::same_bytes;
use crate::syntax::{accepts_method, method_accepted};
use vstd::prelude::*;
use vstd::slice::slice_to_vec;

verus! {

/// A request method: one of the nine standard ones, or an extension.
#[derive(Clone, Debug, PartialEq, Eq)]
pub enum Method {
    Options,
    Get,
    Post,
    Put,
    Delete,
    Head,
    Trace,
    Connect,
    Patch,
    Extension(ExtensionMethod),
}

/// The name of a method that is none of the standard ones.
#[derive(Debug, PartialEq, Eq)]
pub struct ExtensionMethod {
    name: Vec<u8>,
}

impl View for ExtensionMethod {
    type V = Seq<u8>;

    closed spec fn view(&self) -> Seq<u8> {
        self.name@
    }
}

/// The standard method that goes by `name`, if there is one. The names are
/// written as their ASCII codes.
pub open spec fn standard_method(name: Seq<u8>) -> Option<Method> {
    if name == seq![71u8, 69, 84] {
        // GET
        Some(Method::Get)
    } else if name == seq![80u8, 85, 84] {
        // PUT
        Some(Method::Put)
    } else if name == seq![80u8, 79, 83, 84] {
        // POST
        Some(Method::Post)
    } else if name == seq![72u8, 69, 65, 68] {
        // HEAD
        Some(Method::Head)
    } else if name == seq![80u8, 65, 84, 67, 72] {
        // PATCH
        Some(Method::Patch)
    } else if name == seq![84u8, 82, 65, 67, 69] {
        // TRACE
        Some(Method::Trace)
    } else if name == seq![68u8, 69, 76, 69, 84, 69] {
        // DELETE
        Some(Method::Delete)
    } else if name == seq![79u8, 80, 84, 73, 79, 78, 83] {
        // OPTIONS
        Some(Method::Options)
    } else if name == seq![67u8, 79, 78, 78, 69, 67, 84] {
        // CONNECT
        Some(Method::Connect)
    } else {
        None
    }
}

/// Whether `name` is the name of an extension: the `http` crate accepts it
/// as a method, and it is none of the standard names.
pub open spec fn is_extension(name: Seq<u8>) -> bool {
    method_accepted(name) && standard_method(name) is None
}

impl ExtensionMethod {
    #[verifier::type_invariant]
    spec fn named(&self) -> bool {
        is_extension(self.name@)
    }

    /// The bytes of the name, which is the name of an extension.
    pub fn as_bytes(&self) -> (name: &[u8])
        ensures
            name@ == self@,
            is_extension(name@),
    {
        proof {
            use_type_invariant(self);
        }
        self.name.as_slice()
    }
}

impl Clone for ExtensionMethod {
    fn clone(&self) -> (copy: Self)
        ensures
            copy@ == self@,
    {
        proof {
            use_type_invariant(self);
        }
        let name = self.name.clone();
        assert(name@ =~= self.name@);
        ExtensionMethod { name }
    }
}

/// What `Method::from_bytes` makes of `name`: the standard method of that
/// name; else an extension, where the `http` crate accepts the name as a
/// method; else nothing.
pub open spec fn method_of(name: Seq<u8>, out: Option<Method>) -> bool {
    match standard_method(name) {
        Some(method) => out == Some(method),
        None => if method_accepted(name) {
            out matches Some(Method::Extension(extension)) && extension@ == name
        } else {
            out is None
        },
    }
}

impl Method {
    /// The method that goes by the given name.
    pub fn from_bytes(src: &[u8]) -> (out: Option<Method>)
        ensures
            method_of(src@, out),
    {
        let get: [u8; 3] = [71, 69, 84];
        let put: [u8; 3] = [80, 85, 84];
        let post: [u8; 4] = [80, 79, 83, 84];
        let head: [u8; 4] = [72, 69, 65, 68];
        let patch: [u8; 5] = [80, 65, 84, 67, 72];
        let trace: [u8; 5] = [84, 82, 65, 67, 69];
        let delete: [u8; 6] = [68, 69, 76, 69, 84, 69];
        let options: [u8; 7] = [79, 80, 84, 73, 79, 78, 83];
        let connect: [u8; 7] = [67, 79, 78, 78, 69, 67, 84];
        if same_bytes(src, &get) {
            Some(Method::Get)
        } else if same_bytes(src, &put) {
            Some(Method::Put)
        } else if same_bytes(src, &post) {
            Some(Method::Post)
        } else if same_bytes(src, &head) {
            Some(Method::Head)
        } else if same_bytes(src, &patch) {
            Some(Method::Patch)
        } else if same_bytes(src, &trace) {
            Some(Method::Trace)
        } else if same_bytes(src, &delete) {
            Some(Method::Delete)
        } else if same_bytes(src, &options) {
            Some(Method::Options)
        } else if same_bytes(src, &connect) {
            Some(Method::Connect)
        } else if accepts_method(src) {
            Some(Method::Extension(ExtensionMethod { name: slice_to_vec(src) }))
        } else {
            None
        }
    }
}

} // verus!
