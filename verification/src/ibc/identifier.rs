//! Identifiers of ports, channels, clients and connections, as the host requirements define them.
use crate::error::Error;
use std::str::FromStr;
use vstd::prelude::*;
use vstd::utf8::is_ascii_chars;

verus! {

/// Whether an ASCII character may stand in an identifier: a letter, a digit or one of
/// `.`, `_`, `+`, `-`, `#`, `[`, `]`, `<` and `>`.
pub open spec fn is_identifier_char(c: char) -> bool {
    ||| 'a' <= c <= 'z'
    ||| 'A' <= c <= 'Z'
    ||| '0' <= c <= '9'
    ||| c == '.' || c == '_' || c == '+' || c == '-' || c == '#'
    ||| c == '[' || c == ']' || c == '<' || c == '>'
}

/// Whether an ASCII text is an identifier of `min` to `max` characters.
pub open spec fn ascii_identifier(s: Seq<char>, min: nat, max: nat) -> bool {
    &&& min <= s.len() <= max
    &&& forall|i: int| 0 <= i < s.len() ==> is_identifier_char(#[trigger] s[i])
}

/// Whether a text is free of the path separator.
pub open spec fn no_separator(s: Seq<char>) -> bool {
    forall|i: int| 0 <= i < s.len() ==> #[trigger] s[i] != '/'
}

/// The texts that `ibc_relayer_types`' `PortId` accepts.
pub uninterp spec fn is_port_id(s: Seq<char>) -> bool;

/// The texts that `ibc_relayer_types`' `ChannelId` accepts.
pub uninterp spec fn is_channel_id(s: Seq<char>) -> bool;

/// The texts that `ibc_relayer_types`' `ClientId` accepts.
pub uninterp spec fn is_client_id(s: Seq<char>) -> bool;

/// The texts that `ibc_relayer_types`' `ConnectionId` accepts.
pub uninterp spec fn is_connection_id(s: Seq<char>) -> bool;

/// `PortId::from_str` of `ibc_relayer_types`: whether it accepts a text. Of ASCII texts it accepts
/// the identifiers of 2 to 128 characters; it accepts no text with a path separator. Which other
/// Unicode letters it accepts is left to the Unicode tables.
#[verifier::external_body]
fn port_id_accepted(s: &str) -> (accepted: bool)
    ensures
        accepted == is_port_id(s@),
        is_ascii_chars(s@) ==> accepted == ascii_identifier(s@, 2, 128),
        accepted ==> no_separator(s@),
{
    ibc_relayer_types::core::ics24_host::identifier::PortId::from_str(s).is_ok()
}

/// `ChannelId::from_str` of `ibc_relayer_types`: whether it accepts a text. Of ASCII texts it
/// accepts the identifiers of 8 to 64 characters; it accepts no text with a path separator. Which
/// other Unicode letters it accepts is left to the Unicode tables.
#[verifier::external_body]
fn channel_id_accepted(s: &str) -> (accepted: bool)
    ensures
        accepted == is_channel_id(s@),
        is_ascii_chars(s@) ==> accepted == ascii_identifier(s@, 8, 64),
        accepted ==> no_separator(s@),
{
    ibc_relayer_types::core::ics24_host::identifier::ChannelId::from_str(s).is_ok()
}

/// `ClientId::from_str` of `ibc_relayer_types`: whether it accepts a text. Of ASCII texts it
/// accepts the identifiers of 9 to 64 characters; it accepts no text with a path separator. Which
/// other Unicode letters it accepts is left to the Unicode tables.
#[verifier::external_body]
fn client_id_accepted(s: &str) -> (accepted: bool)
    ensures
        accepted == is_client_id(s@),
        is_ascii_chars(s@) ==> accepted == ascii_identifier(s@, 9, 64),
        accepted ==> no_separator(s@),
{
    ibc_relayer_types::core::ics24_host::identifier::ClientId::from_str(s).is_ok()
}

/// `ConnectionId::from_str` of `ibc_relayer_types`: whether it accepts a text. Of ASCII texts it
/// accepts the identifiers of 10 to 64 characters; it accepts no text with a path separator. Which
/// other Unicode letters it accepts is left to the Unicode tables.
#[verifier::external_body]
fn connection_id_accepted(s: &str) -> (accepted: bool)
    ensures
        accepted == is_connection_id(s@),
        is_ascii_chars(s@) ==> accepted == ascii_identifier(s@, 10, 64),
        accepted ==> no_separator(s@),
{
    ibc_relayer_types::core::ics24_host::identifier::ConnectionId::from_str(s).is_ok()
}

/// The identifier of a port.
#[derive(Debug)]
pub struct PortId {
    text: String,
}

/// The identifier of a channel.
#[derive(Debug)]
pub struct ChannelId {
    text: String,
}

/// The identifier of a light client.
#[derive(Debug)]
pub struct ClientId {
    text: String,
}

/// The identifier of a connection.
#[derive(Debug)]
pub struct ConnectionId {
    text: String,
}

impl View for PortId {
    type V = Seq<char>;

    closed spec fn view(&self) -> Seq<char> {
        self.text@
    }
}

impl View for ChannelId {
    type V = Seq<char>;

    closed spec fn view(&self) -> Seq<char> {
        self.text@
    }
}

impl View for ClientId {
    type V = Seq<char>;

    closed spec fn view(&self) -> Seq<char> {
        self.text@
    }
}

impl View for ConnectionId {
    type V = Seq<char>;

    closed spec fn view(&self) -> Seq<char> {
        self.text@
    }
}

impl PortId {
    #[verifier::type_invariant]
    spec fn accepted(self) -> bool {
        is_port_id(self.text@) && no_separator(self.text@)
    }

    /// Takes a text as a port identifier where it is one.
    pub fn from_str(s: &str) -> (id: Result<PortId, Error>)
        ensures
            id is Ok <==> is_port_id(s@),
            id is Err ==> id->Err_0 == Error::InvalidIdentifier,
            id is Ok ==> id->Ok_0@ == s@ && no_separator(s@),
            is_ascii_chars(s@) ==> is_port_id(s@) == ascii_identifier(s@, 2, 128),
    {
        if port_id_accepted(s) {
            Ok(PortId { text: s.to_string() })
        } else {
            Err(Error::InvalidIdentifier)
        }
    }

    /// The port of the token transfer application.
    pub fn transfer() -> (id: PortId)
        ensures
            id@ == "transfer"@,
    {
        proof {
            reveal_strlit("transfer");
        }
        match PortId::from_str("transfer") {
            Ok(id) => id,
            Err(_) => vstd::pervasive::unreached(),
        }
    }

    /// The text of the identifier.
    pub fn as_str(&self) -> (s: &str)
        ensures
            s@ == self@,
            is_port_id(s@),
            no_separator(s@),
    {
        proof {
            use_type_invariant(self);
        }
        self.text.as_str()
    }
}

impl Clone for PortId {
    fn clone(&self) -> (copy: Self)
        ensures
            copy == *self,
    {
        proof {
            use_type_invariant(self);
        }
        PortId { text: self.text.clone() }
    }
}

impl ChannelId {
    #[verifier::type_invariant]
    spec fn accepted(self) -> bool {
        is_channel_id(self.text@) && no_separator(self.text@)
    }

    /// Takes a text as a channel identifier where it is one.
    pub fn from_str(s: &str) -> (id: Result<ChannelId, Error>)
        ensures
            id is Ok <==> is_channel_id(s@),
            id is Err ==> id->Err_0 == Error::InvalidIdentifier,
            id is Ok ==> id->Ok_0@ == s@ && no_separator(s@),
            is_ascii_chars(s@) ==> is_channel_id(s@) == ascii_identifier(s@, 8, 64),
    {
        if channel_id_accepted(s) {
            Ok(ChannelId { text: s.to_string() })
        } else {
            Err(Error::InvalidIdentifier)
        }
    }

    /// The text of the identifier.
    pub fn as_str(&self) -> (s: &str)
        ensures
            s@ == self@,
            is_channel_id(s@),
            no_separator(s@),
    {
        proof {
            use_type_invariant(self);
        }
        self.text.as_str()
    }
}

impl Clone for ChannelId {
    fn clone(&self) -> (copy: Self)
        ensures
            copy == *self,
    {
        proof {
            use_type_invariant(self);
        }
        ChannelId { text: self.text.clone() }
    }
}

impl ClientId {
    #[verifier::type_invariant]
    spec fn accepted(self) -> bool {
        is_client_id(self.text@) && no_separator(self.text@)
    }

    /// Takes a text as a client identifier where it is one.
    pub fn from_str(s: &str) -> (id: Result<ClientId, Error>)
        ensures
            id is Ok <==> is_client_id(s@),
            id is Err ==> id->Err_0 == Error::InvalidIdentifier,
            id is Ok ==> id->Ok_0@ == s@ && no_separator(s@),
            is_ascii_chars(s@) ==> is_client_id(s@) == ascii_identifier(s@, 9, 64),
    {
        if client_id_accepted(s) {
            Ok(ClientId { text: s.to_string() })
        } else {
            Err(Error::InvalidIdentifier)
        }
    }

    /// The text of the identifier.
    pub fn as_str(&self) -> (s: &str)
        ensures
            s@ == self@,
            is_client_id(s@),
            no_separator(s@),
    {
        proof {
            use_type_invariant(self);
        }
        self.text.as_str()
    }
}

impl Clone for ClientId {
    fn clone(&self) -> (copy: Self)
        ensures
            copy == *self,
    {
        proof {
            use_type_invariant(self);
        }
        ClientId { text: self.text.clone() }
    }
}

impl ConnectionId {
    #[verifier::type_invariant]
    spec fn accepted(self) -> bool {
        is_connection_id(self.text@) && no_separator(self.text@)
    }

    /// Takes a text as a connection identifier where it is one.
    pub fn from_str(s: &str) -> (id: Result<ConnectionId, Error>)
        ensures
            id is Ok <==> is_connection_id(s@),
            id is Err ==> id->Err_0 == Error::InvalidIdentifier,
            id is Ok ==> id->Ok_0@ == s@ && no_separator(s@),
            is_ascii_chars(s@) ==> is_connection_id(s@) == ascii_identifier(s@, 10, 64),
    {
        if connection_id_accepted(s) {
            Ok(ConnectionId { text: s.to_string() })
        } else {
            Err(Error::InvalidIdentifier)
        }
    }

    /// The text of the identifier.
    pub fn as_str(&self) -> (s: &str)
        ensures
            s@ == self@,
            is_connection_id(s@),
            no_separator(s@),
    {
        proof {
            use_type_invariant(self);
        }
        self.text.as_str()
    }
}

impl Clone for ConnectionId {
    fn clone(&self) -> (copy: Self)
        ensures
            copy == *self,
    {
        proof {
            use_type_invariant(self);
        }
        ConnectionId { text: self.text.clone() }
    }
}

} // verus!
