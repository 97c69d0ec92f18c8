//! Match rules that test and consume the front of what is left of a path.
use vstd::prelude::*;

use crate::method::Method;
use crate::path::literal_rest;
use crate::recognizer::{PathCursor, Recognizer};
use crate::request::HttpRequest;

verus! {

/// A rule that matches the front of what is left of the path, and moves the
/// cursor past what it matched.
pub trait Pattern {
    /// What is left of `unmatched` once the pattern has matched it, for a
    /// request with `method`; `None` when the pattern does not match.
    spec fn spec_match(&self, method: Method, unmatched: Seq<char>) -> Option<Seq<char>>;

    fn match_recognizer<R: HttpRequest>(&self, recognizer: &mut Recognizer<R>) -> (r: bool)
        ensures
            final(recognizer).walks_same_request(old(recognizer)),
            r == self.spec_match(old(recognizer).method(), old(recognizer).unmatched()) is Some,
            r ==> final(recognizer).unmatched() == self.spec_match(
                old(recognizer).method(),
                old(recognizer).unmatched(),
            )->Some_0,
            !r ==> *final(recognizer) == *old(recognizer),
    ;
}

/// A bare segment literal, whatever the method.
impl<'a> Pattern for &'a str {
    open spec fn spec_match(&self, method: Method, unmatched: Seq<char>) -> Option<Seq<char>> {
        literal_rest(self@, unmatched)
    }

    fn match_recognizer<R: HttpRequest>(&self, recognizer: &mut Recognizer<R>) -> (r: bool) {
        recognizer.match_literal(self)
    }
}

/// A segment literal that matches only under the given method.
impl<'a> Pattern for (&'a str, Method) {
    open spec fn spec_match(&self, method: Method, unmatched: Seq<char>) -> Option<Seq<char>> {
        if self.1.same(method) {
            literal_rest(self.0@, unmatched)
        } else {
            None
        }
    }

    fn match_recognizer<R: HttpRequest>(&self, recognizer: &mut Recognizer<R>) -> (r: bool) {
        if self.1 != *recognizer.request_method() {
            return false;
        }
        recognizer.match_literal(self.0)
    }
}

} // verus!
