use vstd::prelude::*;

verus! {

/// The method of a request: one of the standard methods, or an extension
/// method under its name.
#[derive(Clone, Debug)]
pub enum Method {
    Get,
    Post,
    Put,
    Delete,
    Patch,
    Head,
    Options,
    Connect,
    Trace,
    Extension(String),
}

impl Method {
    /// Whether `self` and `other` are the same method: the same standard
    /// method, or extension methods of the same name.
    pub open spec fn same(self, other: Method) -> bool {
        match (self, other) {
            (Method::Extension(a), Method::Extension(b)) => a@ == b@,
            (Method::Extension(_), _) => false,
            (_, Method::Extension(_)) => false,
            _ => self == other,
        }
    }
}

impl PartialEq for Method {
    fn eq(&self, other: &Method) -> (r: bool) {
        match (self, other) {
            (Method::Get, Method::Get) => true,
            (Method::Post, Method::Post) => true,
            (Method::Put, Method::Put) => true,
            (Method::Delete, Method::Delete) => true,
            (Method::Patch, Method::Patch) => true,
            (Method::Head, Method::Head) => true,
            (Method::Options, Method::Options) => true,
            (Method::Connect, Method::Connect) => true,
            (Method::Trace, Method::Trace) => true,
            (Method::Extension(a), Method::Extension(b)) => a.eq(b),
            _ => false,
        }
    }
}

impl vstd::std_specs::cmp::PartialEqSpecImpl for Method {
    open spec fn obeys_eq_spec() -> bool {
        true
    }

    open spec fn eq_spec(&self, other: &Method) -> bool {
        self.same(*other)
    }
}

} // verus!
