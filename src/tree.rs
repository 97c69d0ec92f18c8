//! Routing trees: a declaration function wrapped as a reusable, shareable
//! value, recognized at the top level or mounted inside another tree.
use vstd::prelude::*;

use crate::recognizer::Recognizer;
use crate::request::{HttpRequest, RouteResult};

verus! {

/// The recognition that a declaration's signal stands for: a terminal
/// `Err(o)` is the recognized outcome `o`; running to the end (`Ok`) means
/// that no route matched.
pub open spec fn recognition_of<Res>(s: Result<(), Res>) -> Result<Res, ()> {
    match s {
        Ok(()) => Err(()),
        Err(o) => Ok(o),
    }
}

/// A tree of routes that can recognize a request.
pub trait RoutingTreeTrait<Req: HttpRequest, Res: RouteResult> {
    /// Whether the declaration may be run on any cursor.
    spec fn ready(&self) -> bool;

    /// Whether running the declaration on the cursor `rec` may signal `s`
    /// (and leave the cursor at `*final(rec)`).
    spec fn declares(&self, rec: &mut Recognizer<Req>, s: Result<(), Res>) -> bool;

    fn recognize(&self, request: &Req) -> (r: Result<Res, ()>)
        requires
            self.ready(),
        ensures
            exists|x: &mut Recognizer<Req>, s: Result<(), Res>|
                x.starts_at(request) && self.declares(x, s) && r == recognition_of(s),
    ;

    fn traverse_with(&self, rec: &mut Recognizer<Req>) -> (r: Result<Res, ()>)
        requires
            self.ready(),
        ensures
            exists|x: &mut Recognizer<Req>, s: Result<(), Res>|
                *x == *old(rec) && *final(x) == *final(rec) && self.declares(x, s) && r
                    == recognition_of(s),
    ;
}

/// A routing tree built from a declaration function.
pub struct RoutingTree<F> {
    fun: F,
}

impl<F> RoutingTree<F> {
    /// The declaration function.
    pub closed spec fn declaration(&self) -> F {
        self.fun
    }

    pub fn route<Req, Res>(route_fn: F) -> (r: Self) where
        F: Fn(&mut Recognizer<Req>) -> Result<(), Res>,
        Req: HttpRequest,

        ensures
            r.declaration() == route_fn,
    {
        RoutingTree { fun: route_fn }
    }
}

impl<
    Req: HttpRequest,
    Res: RouteResult,
    F: Fn(&mut Recognizer<Req>) -> Result<(), Res>,
> RoutingTreeTrait<Req, Res> for RoutingTree<F> {
    open spec fn ready(&self) -> bool {
        forall|x: &mut Recognizer<Req>| self.declaration().requires((x,))
    }

    open spec fn declares(&self, rec: &mut Recognizer<Req>, s: Result<(), Res>) -> bool {
        self.declaration().ensures((rec,), s)
    }

    fn recognize(&self, request: &Req) -> (r: Result<Res, ()>) {
        let mut rec = Recognizer::new(request);
        self.traverse_with(&mut rec)
    }

    fn traverse_with(&self, rec: &mut Recognizer<Req>) -> (r: Result<Res, ()>) {
        assert(self.declaration() == self.fun);
        assert(self.fun.requires((rec,)));
        let signal = (self.fun)(rec);
        assert forall|x: &mut Recognizer<Req>| #[trigger]
            self.fun.ensures((x,), signal) implies self.declares(x, signal) by {}
        match signal {
            Ok(()) => Err(()),
            Err(recognition) => Ok(recognition),
        }
    }
}

} // verus!
