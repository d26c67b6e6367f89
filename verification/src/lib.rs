//! Text embedding sessions over a fixed catalog of models.

use vstd::prelude::*;

pub mod catalog;
pub mod failure;
pub mod options;
pub mod session;

pub use catalog::JSEmbeddingModel;
pub use failure::{EmbedError, HubFault, IoKind, LoadFault, Setting};
pub use options::{JsInitOptions, SessionConfig};
pub use session::{EmbedAttempt, EmbedPlan, JsTextEmbedding, LoadAttempt};

verus! {

/// The sum of two integers, for pairs whose sum is representable.
pub fn sum(a: i32, b: i32) -> (total: i32)
    requires
        i32::MIN <= a + b <= i32::MAX,
    ensures
        total == a + b,
{
    a + b
}

} // verus!
