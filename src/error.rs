//! Errors the library reports about what peers send.
use vstd::prelude::*;

verus! {

/// A field of a wire record whose absence or content makes the record unusable.
#[derive(Clone, Copy, Debug, PartialEq, Eq, Structural, Hash)]
pub enum Field {
    Type,
    Payload,
    From,
    Target,
    Member,
    Id,
    Address,
    SwimPort,
    GossipPort,
    FromId,
    MemberId,
    ServiceGroup,
    Pkg,
    Sys,
    Filename,
}

impl Field {
    /// Name of the field as it appears in messages.
    pub open spec fn spec_name(self) -> Seq<char> {
        match self {
            Field::Type => "type"@,
            Field::Payload => "payload"@,
            Field::From => "from"@,
            Field::Target => "target"@,
            Field::Member => "member"@,
            Field::Id => "id"@,
            Field::Address => "address"@,
            Field::SwimPort => "swim-port"@,
            Field::GossipPort => "gossip-port"@,
            Field::FromId => "from-id"@,
            Field::MemberId => "member-id"@,
            Field::ServiceGroup => "service-group"@,
            Field::Pkg => "pkg"@,
            Field::Sys => "sys"@,
            Field::Filename => "filename"@,
        }
    }

    /// Name of the field as it appears in messages.
    pub fn name(&self) -> (r: &'static str)
        ensures
            r@ == self.spec_name(),
    {
        match self {
            Field::Type => "type",
            Field::Payload => "payload",
            Field::From => "from",
            Field::Target => "target",
            Field::Member => "member",
            Field::Id => "id",
            Field::Address => "address",
            Field::SwimPort => "swim-port",
            Field::GossipPort => "gossip-port",
            Field::FromId => "from-id",
            Field::MemberId => "member-id",
            Field::ServiceGroup => "service-group",
            Field::Pkg => "pkg",
            Field::Sys => "sys",
            Field::Filename => "filename",
        }
    }
}

/// What can go wrong with a record received from a peer.
#[derive(Clone, Copy, Debug, PartialEq, Eq, Structural, Hash)]
pub enum Error {
    /// A required field is absent, or the type tag does not fit the payload.
    ProtocolMismatch(Field),
    /// A service configuration is not valid UTF-8.
    ServiceConfigNotUtf8,
    /// A service configuration is not a valid TOML table.
    ServiceConfigDecode,
    /// The content is sealed for the service and must be opened with its key first.
    Encrypted,
}

} // verus!
