//! The string-backed model identifier.

use vstd::prelude::*;

verus! {

/// String-backed model identifier.
///
/// `ModelId` accepts arbitrary strings so callers can use new model IDs
/// without waiting for a crate release.
#[derive(Clone, Debug, PartialEq, Eq, Hash, PartialOrd, Ord)]
pub struct ModelId(pub String);

impl View for ModelId {
    type V = Seq<char>;

    open spec fn view(&self) -> Seq<char> {
        self.0@
    }
}

impl ModelId {
    /// Creates a model ID from any string.
    pub fn new(model: &str) -> (id: Self)
        ensures
            id@ == model@,
    {
        ModelId(String::from_str(model))
    }

    /// Returns the model ID as `&str`.
    pub fn as_str(&self) -> (s: &str)
        ensures
            s@ == self@,
    {
        self.0.as_str()
    }

    /// Consumes the model ID and returns the underlying string.
    pub fn into_string(self) -> (s: String)
        ensures
            s@ == self@,
    {
        self.0
    }
}

impl From<&str> for ModelId {
    fn from(value: &str) -> (id: Self)
        ensures
            id@ == value@,
    {
        ModelId::new(value)
    }
}

impl vstd::std_specs::convert::FromSpecImpl<&str> for ModelId {
    open spec fn obeys_from_spec() -> bool {
        false
    }

    open spec fn from_spec(v: &str) -> Self {
        ModelId(arbitrary())
    }
}

impl From<String> for ModelId {
    fn from(value: String) -> (id: Self) {
        ModelId(value)
    }
}

impl vstd::std_specs::convert::FromSpecImpl<String> for ModelId {
    open spec fn obeys_from_spec() -> bool {
        true
    }

    open spec fn from_spec(v: String) -> Self {
        ModelId(v)
    }
}

impl From<&String> for ModelId {
    fn from(value: &String) -> (id: Self) {
        ModelId(value.clone())
    }
}

impl vstd::std_specs::convert::FromSpecImpl<&String> for ModelId {
    open spec fn obeys_from_spec() -> bool {
        true
    }

    open spec fn from_spec(v: &String) -> Self {
        ModelId(*v)
    }
}

impl AsRef<str> for ModelId {
    fn as_ref(&self) -> (s: &str)
        ensures
            s@ == self@,
    {
        self.as_str()
    }
}

/// The characters of a string slice.
pub open spec fn str_view(s: &str) -> Seq<char> {
    s@
}

impl std::borrow::Borrow<str> for ModelId {
    fn borrow(&self) -> (s: &str)
        ensures
            str_view(s) == self@,
    {
        self.as_str()
    }
}

impl std::ops::Deref for ModelId {
    type Target = str;

    fn deref(&self) -> (s: &str)
        ensures
            s@ == self@,
    {
        self.as_str()
    }
}

} // verus!
