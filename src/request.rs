//! What the recognizer needs of a request, and of the outcomes it produces.
use vstd::prelude::*;

use crate::method::Method;

verus! {

/// A request as the recognizer sees it: a method and a path.
pub trait HttpRequest {
    fn method(&self) -> Method;

    fn path(&self) -> &str;
}

/// An outcome type: any type of route results that can say "access denied"
/// and "not found".
pub trait RouteResult: Sized {
    fn access_denied() -> Self;

    fn not_found() -> Self;
}

} // verus!
