//! What chains exchange with the relayer.
use crate::ibc::any::Any;
use vstd::prelude::*;

verus! {

/// A client update in one message or in several.
#[derive(Debug)]
pub enum UpdateMessage {
    Single(Any),
    Batch(Vec<Any>),
}

/// Whether a client update has to be delivered.
#[derive(Clone, Copy, Debug, PartialEq, Eq, Structural)]
pub enum UpdateType {
    /// The update contains an authority set change.
    Mandatory,
    /// The update does not contain an authority set change.
    Optional,
}

impl UpdateType {
    /// Whether the update may be left out.
    pub fn is_optional(&self) -> (optional: bool)
        ensures
            optional == (self is Optional),
    {
        match self {
            UpdateType::Mandatory => false,
            UpdateType::Optional => true,
        }
    }
}

} // verus!
