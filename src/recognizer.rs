//! The traversal cursor and its combinators.
use vstd::prelude::*;

use crate::method::Method;
use crate::param::{Param, ParseToParam};
use crate::path::{literal_rest, skip_separator, starts_with, strip_separator, SEPARATOR};
use crate::pattern::Pattern;
use crate::request::{HttpRequest, RouteResult};
use crate::tree::{recognition_of, RoutingTreeTrait};

verus! {

/// Whether a cursor with `method` and `unmatched` left stands at a root: only
/// the separator is left, and the method is GET.
pub open spec fn root_matches(method: Method, unmatched: Seq<char>) -> bool {
    unmatched == seq![SEPARATOR] && method is Get
}

/// The cursor of one recognition: the request, its method, and the part of
/// its path that is still to be matched.
pub struct Recognizer<'a, R: HttpRequest + 'a> {
    request: &'a R,
    method: Method,
    unmatched_path: &'a str,
    path: Ghost<Seq<char>>,
}

impl<'a, R: HttpRequest + 'a> Recognizer<'a, R> {
    /// What is still to be matched is always an end of the request's path.
    #[verifier::type_invariant]
    closed spec fn inv(self) -> bool {
        self.unmatched_path@.is_suffix_of(self.path@)
    }

    /// The request being recognized.
    pub closed spec fn request(&self) -> &'a R {
        self.request
    }

    /// The request's method, as read when the cursor was made.
    pub closed spec fn method(&self) -> Method {
        self.method
    }

    /// The request's whole path, as read when the cursor was made.
    pub closed spec fn path(&self) -> Seq<char> {
        self.path@
    }

    /// The part of the request's path that is still to be matched.
    pub closed spec fn unmatched(&self) -> Seq<char> {
        self.unmatched_path@
    }

    /// Whether the cursor stands at the start of `request`: it holds the
    /// method and the path that `request` gives, and nothing of the path has
    /// been matched yet.
    pub open spec fn starts_at(&self, request: &'a R) -> bool {
        &&& self.request() == request
        &&& call_ensures(R::method, (request,), self.method())
        &&& exists|p: &str| call_ensures(R::path, (request,), p) && p@ == self.path()
        &&& self.unmatched() == self.path()
    }

    /// A cursor at the start of `request`'s path.
    pub fn new(request: &'a R) -> (r: Self)
        ensures
            r.starts_at(request),
    {
        let method = request.method();
        let p = request.path();
        assert(p@.is_suffix_of(p@)) by {
            assert(p@.subrange(0, p@.len() as int) =~= p@);
        }
        Recognizer { request, method, unmatched_path: p, path: Ghost(p@) }
    }

    /// The method of the request being recognized.
    pub fn request_method(&self) -> (r: &Method)
        ensures
            *r == self.method(),
    {
        &self.method
    }

    /// Matches the literal `lit` after an optional leading separator; on a
    /// match the cursor moves past the literal, otherwise it stays where it
    /// was.
    pub fn match_literal(&mut self, lit: &str) -> (r: bool)
        ensures
            final(self).request() == old(self).request(),
            final(self).method() == old(self).method(),
            final(self).path() == old(self).path(),
            r == literal_rest(lit@, old(self).unmatched()) is Some,
            r ==> final(self).unmatched() == literal_rest(lit@, old(self).unmatched())->Some_0,
            !r ==> *final(self) == *old(self),
    {
        proof {
            use_type_invariant(&*self);
        }
        let q = skip_separator(self.unmatched_path);
        if starts_with(q, lit) {
            let n = lit.unicode_len();
            let m = q.unicode_len();
            let rest = q.substring_char(n, m);
            proof {
                lemma_strip_suffix(self.unmatched_path@, self.path@);
                lemma_skip_suffix(q@, n as int, self.path@);
                assert(rest@ =~= q@.skip(n as int));
            }
            self.unmatched_path = rest;
            true
        } else {
            false
        }
    }

    /// Drops a leading separator from what is left to match.
    pub fn skip_separator(&mut self)
        ensures
            final(self).request() == old(self).request(),
            final(self).method() == old(self).method(),
            final(self).path() == old(self).path(),
            final(self).unmatched() == strip_separator(old(self).unmatched()),
    {
        proof {
            use_type_invariant(&*self);
        }
        let rest = skip_separator(self.unmatched_path);
        proof {
            lemma_strip_suffix(self.unmatched_path@, self.path@);
        }
        self.unmatched_path = rest;
    }
}

/// The model of a traversal cursor.
pub trait PathCursor {
    /// The part of the request's path that is still to be matched.
    spec fn remaining(&self) -> Seq<char>;

    /// Whether `self` and `other` walk the same request.
    spec fn walks_same_request(&self, other: &Self) -> bool;
}

impl<'a, R: HttpRequest + 'a> PathCursor for Recognizer<'a, R> {
    open spec fn remaining(&self) -> Seq<char> {
        self.unmatched()
    }

    open spec fn walks_same_request(&self, other: &Self) -> bool {
        self.request() == other.request() && self.method() == other.method() && self.path()
            == other.path()
    }
}

/// The combinators of a route declaration. Each returns `Ok(())` to go on
/// with the next declaration, or `Err(outcome)` to stop with a terminal
/// outcome.
pub trait Recognize<R: RouteResult>: PathCursor + Sized {
    /// Stops with `f()` when only the separator is left and the method is GET.
    fn root<F: Fn() -> R>(&self, f: F) -> Result<(), R>
        requires
            f.requires(()),
    ;

    /// Runs `recognizer_fun` on the cursor moved past `pattern`, if it
    /// matches.
    fn on<P: Pattern, F: Fn(&mut Self) -> Result<(), R>>(
        &mut self,
        pattern: P,
        recognizer_fun: F,
    ) -> Result<(), R>
        requires
            forall|x: &mut Self| recognizer_fun.requires((x,)),
    ;

    /// Stops with the outcome of `recognizer_fun` when the method is GET.
    fn get<F: Fn(&mut Self) -> R>(&mut self, recognizer_fun: F) -> Result<(), R>
        requires
            forall|x: &mut Self| recognizer_fun.requires((x,)),
    ;

    /// Stops with the outcome of `recognizer_fun` when the method is POST.
    fn post<F: Fn(&mut Self) -> R>(&mut self, recognizer_fun: F) -> Result<(), R>
        requires
            forall|x: &mut Self| recognizer_fun.requires((x,)),
    ;

    /// Stops with the outcome of `recognizer_fun` when the method is PUT.
    fn put<F: Fn(&mut Self) -> R>(&mut self, recognizer_fun: F) -> Result<(), R>
        requires
            forall|x: &mut Self| recognizer_fun.requires((x,)),
    ;

    /// Stops with the outcome of `recognizer_fun` when the method is DELETE.
    fn delete<F: Fn(&mut Self) -> R>(&mut self, recognizer_fun: F) -> Result<(), R>
        requires
            forall|x: &mut Self| recognizer_fun.requires((x,)),
    ;

    /// Stops with the outcome of `recognizer_fun` when the method is PATCH.
    fn patch<F: Fn(&mut Self) -> R>(&mut self, recognizer_fun: F) -> Result<(), R>
        requires
            forall|x: &mut Self| recognizer_fun.requires((x,)),
    ;

    /// Reads the next segment as a `P` after an optional leading separator,
    /// and moves past it; stops with "not found" when the segment is not a
    /// valid `P`.
    fn param<P: ParseToParam>(&mut self, name: &'static str) -> (r: Result<Param<P::Output>, R>)
        ensures
            final(self).walks_same_request(old(self)),
            match P::spec_parse(strip_separator(old(self).remaining())) {
                Some((v, rest)) => r is Ok && r->Ok_0.value() == v && r->Ok_0.label() == name
                    && final(self).remaining() == rest,
                None => r is Err && call_ensures(R::not_found, (), r->Err_0)
                    && final(self).remaining() == strip_separator(old(self).remaining()),
            },
    ;
}

/// Running another routing tree from where the cursor stands.
pub trait Mount<Req: HttpRequest, Rec: RouteResult> {
    fn mount<T: RoutingTreeTrait<Req, Rec>>(&mut self, subtree: &T) -> Result<(), Rec>
        requires
            subtree.ready(),
    ;
}

/// A guard in a route declaration.
pub trait Condition<Req: HttpRequest, Rec: RouteResult>: Sized {
    /// Goes on when `predicate` holds of the cursor, and stops with "access
    /// denied" when it does not.
    fn condition<F: Fn(&Self) -> bool>(&mut self, predicate: F) -> (r: Result<(), Rec>)
        requires
            forall|x: &Self| predicate.requires((x,)),
        ensures
            *final(self) == *old(self),
            exists|b: bool|
                predicate.ensures((old(self),), b) && (b ==> r == Ok::<(), Rec>(())) && (!b ==> (r
                    is Err && call_ensures(Rec::access_denied, (), r->Err_0))),
    ;
}

impl<'a, Req: HttpRequest> Recognizer<'a, Req> {
    /// Stops with the outcome of `f` when the request's method is `verb`.
    fn on_method<Rec, F: Fn(&mut Self) -> Rec>(&mut self, verb: Method, f: F) -> (r: Result<
        (),
        Rec,
    >)
        requires
            forall|x: &mut Self| f.requires((x,)),
        ensures
            old(self).method().same(verb) ==> exists|x: &mut Self|
                *x == *old(self) && *final(x) == *final(self) && r is Err && f.ensures(
                    (x,),
                    r->Err_0,
                ),
            !old(self).method().same(verb) ==> r == Ok::<(), Rec>(()) && *final(self) == *old(self),
    {
        if self.method == verb {
            Err(f(self))
        } else {
            Ok(())
        }
    }
}

impl<'a, Req: HttpRequest, Rec: RouteResult> Recognize<Rec> for Recognizer<'a, Req> {
    fn root<F: Fn() -> Rec>(&self, f: F) -> (r: Result<(), Rec>)
        ensures
            root_matches(self.method(), self.unmatched()) ==> r is Err && f.ensures((), r->Err_0),
            !root_matches(self.method(), self.unmatched()) ==> r == Ok::<(), Rec>(()),
    {
        let n = self.unmatched_path.unicode_len();
        if n == 1 && self.unmatched_path.get_char(0) == SEPARATOR && self.method == Method::Get {
            assert(self.unmatched() =~= seq![SEPARATOR]);
            Err(f())
        } else {
            Ok(())
        }
    }

    fn on<P: Pattern, F: Fn(&mut Self) -> Result<(), Rec>>(
        &mut self,
        pattern: P,
        recognizer_fun: F,
    ) -> (r: Result<(), Rec>)
        ensures
            match pattern.spec_match(old(self).method(), old(self).unmatched()) {
                None => r == Ok::<(), Rec>(()) && *final(self) == *old(self),
                Some(rest) => exists|x: &mut Self|
                    x.walks_same_request(old(self)) && x.unmatched() == rest && *final(x)
                        == *final(self) && recognizer_fun.ensures((x,), r),
            },
    {
        if pattern.match_recognizer(self) {
            recognizer_fun(self)
        } else {
            Ok(())
        }
    }

    fn get<F: Fn(&mut Self) -> Rec>(&mut self, recognizer_fun: F) -> (r: Result<(), Rec>)
        ensures
            old(self).method() is Get ==> exists|x: &mut Self|
                *x == *old(self) && *final(x) == *final(self) && r is Err
                    && recognizer_fun.ensures((x,), r->Err_0),
            !(old(self).method() is Get) ==> r == Ok::<(), Rec>(()) && *final(self)
                == *old(self),
    {
        self.on_method(Method::Get, recognizer_fun)
    }

    fn post<F: Fn(&mut Self) -> Rec>(&mut self, recognizer_fun: F) -> (r: Result<(), Rec>)
        ensures
            old(self).method() is Post ==> exists|x: &mut Self|
                *x == *old(self) && *final(x) == *final(self) && r is Err
                    && recognizer_fun.ensures((x,), r->Err_0),
            !(old(self).method() is Post) ==> r == Ok::<(), Rec>(()) && *final(self)
                == *old(self),
    {
        self.on_method(Method::Post, recognizer_fun)
    }

    fn put<F: Fn(&mut Self) -> Rec>(&mut self, recognizer_fun: F) -> (r: Result<(), Rec>)
        ensures
            old(self).method() is Put ==> exists|x: &mut Self|
                *x == *old(self) && *final(x) == *final(self) && r is Err
                    && recognizer_fun.ensures((x,), r->Err_0),
            !(old(self).method() is Put) ==> r == Ok::<(), Rec>(()) && *final(self)
                == *old(self),
    {
        self.on_method(Method::Put, recognizer_fun)
    }

    fn delete<F: Fn(&mut Self) -> Rec>(&mut self, recognizer_fun: F) -> (r: Result<(), Rec>)
        ensures
            old(self).method() is Delete ==> exists|x: &mut Self|
                *x == *old(self) && *final(x) == *final(self) && r is Err
                    && recognizer_fun.ensures((x,), r->Err_0),
            !(old(self).method() is Delete) ==> r == Ok::<(), Rec>(()) && *final(self)
                == *old(self),
    {
        self.on_method(Method::Delete, recognizer_fun)
    }

    fn patch<F: Fn(&mut Self) -> Rec>(&mut self, recognizer_fun: F) -> (r: Result<(), Rec>)
        ensures
            old(self).method() is Patch ==> exists|x: &mut Self|
                *x == *old(self) && *final(x) == *final(self) && r is Err
                    && recognizer_fun.ensures((x,), r->Err_0),
            !(old(self).method() is Patch) ==> r == Ok::<(), Rec>(()) && *final(self)
                == *old(self),
    {
        self.on_method(Method::Patch, recognizer_fun)
    }

    fn param<P: ParseToParam>(&mut self, name: &'static str) -> (r: Result<Param<P::Output>, Rec>)
    {
        self.skip_separator();
        proof {
            use_type_invariant(&*self);
        }
        match P::parse(self.unmatched_path) {
            Ok((value, rest)) => {
                proof {
                    lemma_skip_suffix(
                        self.unmatched_path@,
                        self.unmatched_path@.len() - rest@.len(),
                        self.path@,
                    );
                    assert(self.unmatched_path@.skip(
                        self.unmatched_path@.len() - rest@.len(),
                    ) =~= rest@);
                }
                self.unmatched_path = rest;
                Ok(Param::new(value, name))
            },
            Err(_) => Err(Rec::not_found()),
        }
    }
}

impl<'a, Req: HttpRequest, Rec: RouteResult> Mount<Req, Rec> for Recognizer<'a, Req> {
    fn mount<T: RoutingTreeTrait<Req, Rec>>(&mut self, subtree: &T) -> (r: Result<(), Rec>)
        ensures
            exists|x: &mut Recognizer<Req>|
                *x == *old(self) && *final(x) == *final(self) && subtree.declares(x, r),
    {
        let found = subtree.traverse_with(self);
        let r = match found {
            Ok(recognition) => Err(recognition),
            Err(()) => Ok(()),
        };
        assert forall|s: Result<(), Rec>| #[trigger] recognition_of(s) == found implies s == r by {
            if s is Ok {
                assert(found is Err);
                assert(s->Ok_0 == ());
                assert(s == Ok::<(), Rec>(()));
            } else {
                assert(found == Ok::<Rec, ()>(s->Err_0));
            }
        }
        r
    }
}

impl<'a, Req: HttpRequest, Rec: RouteResult> Condition<Req, Rec> for Recognizer<'a, Req> {
    fn condition<F: Fn(&Self) -> bool>(&mut self, predicate: F) -> (r: Result<(), Rec>)
    {
        if predicate(self) {
            Ok(())
        } else {
            Err(Rec::access_denied())
        }
    }
}

/// Dropping a front part of an end of `c` leaves an end of `c`.
proof fn lemma_skip_suffix(b: Seq<char>, k: int, c: Seq<char>)
    requires
        0 <= k <= b.len(),
        b.is_suffix_of(c),
    ensures
        b.skip(k).is_suffix_of(c),
{
    assert(b.skip(k) =~= c.subrange(c.len() - (b.len() - k), c.len() as int));
}

/// Stripping the separator from an end of `c` leaves an end of `c`.
proof fn lemma_strip_suffix(p: Seq<char>, c: Seq<char>)
    requires
        p.is_suffix_of(c),
    ensures
        strip_separator(p).is_suffix_of(c),
{
    if p.len() > 0 && p[0] == SEPARATOR {
        assert(strip_separator(p) == p.skip(1));
        lemma_skip_suffix(p, 1, c);
    } else {
        assert(strip_separator(p) =~= p.skip(0));
        lemma_skip_suffix(p, 0, c);
    }
}

} // verus!
