//! A declarative route recognizer: a request's method and path are walked
//! through a tree of path and method patterns, and the first terminal outcome
//! that a branch produces is the recognized route.
//!
//! Every combinator returns `Ok(())` to go on with the next declaration, or
//! `Err(outcome)` to stop the whole traversal with a terminal outcome.
pub mod laws;
pub mod method;
pub mod param;
pub mod path;
pub mod pattern;
pub mod recognizer;
pub mod request;
pub mod tree;

pub use method::Method;
pub use param::{Param, ParseToParam, Slug};
pub use pattern::Pattern;
pub use recognizer::{Condition, Mount, PathCursor, Recognize, Recognizer};
pub use request::{HttpRequest, RouteResult};
pub use tree::{RoutingTree, RoutingTreeTrait};
