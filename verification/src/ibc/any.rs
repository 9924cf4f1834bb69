//! Messages with their type.
use vstd::prelude::*;

verus! {

/// An encoded message with the URL of its type.
#[derive(Debug)]
pub struct Any {
    /// The URL of the message's type.
    pub type_url: String,
    /// The encoded message.
    pub value: Vec<u8>,
}

/// What an encoded message holds.
#[verifier::ext_equal]
pub struct AnyView {
    pub type_url: Seq<char>,
    pub value: Seq<u8>,
}

impl View for Any {
    type V = AnyView;

    open spec fn view(&self) -> AnyView {
        AnyView { type_url: self.type_url@, value: self.value@ }
    }
}

impl Clone for Any {
    fn clone(&self) -> (copy: Self)
        ensures
            copy@ == self@,
    {
        Any { type_url: self.type_url.clone(), value: self.value.clone() }
    }
}

/// A message is known by the URL of its type and its bytes.
pub proof fn law_message_is_its_type_and_bytes(any: Any)
    ensures
        any@.type_url == any.type_url@,
        any@.value == any.value@,
{
}

} // verus!
