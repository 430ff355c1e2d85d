//! Shapes of the API shared by several resources.

pub mod common;

pub use common::{Deleted, List, StringOrVec};
