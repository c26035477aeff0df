//! Type tags and payloads of gossiped rumors.
use vstd::prelude::*;

verus! {

/// The type tag of a rumor.
#[derive(Clone, Copy, Debug, PartialEq, Eq, Structural, Hash)]
pub enum Type {
    Member,
    Service,
    Election,
    ServiceConfig,
    ServiceFile,
    Fake,
    Fake2,
    ElectionUpdate,
    Departure,
}

impl Type {
    /// Wire number of the tag.
    pub open spec fn spec_number(self) -> i32 {
        match self {
            Type::Member => 1,
            Type::Service => 2,
            Type::Election => 3,
            Type::ServiceConfig => 4,
            Type::ServiceFile => 5,
            Type::Fake => 6,
            Type::Fake2 => 7,
            Type::ElectionUpdate => 8,
            Type::Departure => 9,
        }
    }

    pub fn to_i32(&self) -> (r: i32)
        ensures
            r == self.spec_number(),
    {
        match self {
            Type::Member => 1,
            Type::Service => 2,
            Type::Election => 3,
            Type::ServiceConfig => 4,
            Type::ServiceFile => 5,
            Type::Fake => 6,
            Type::Fake2 => 7,
            Type::ElectionUpdate => 8,
            Type::Departure => 9,
        }
    }

    /// The tag whose wire number is `n`, if any.
    pub open spec fn spec_from_i32(n: i32) -> Option<Type> {
        match n {
            1 => Some(Type::Member),
            2 => Some(Type::Service),
            3 => Some(Type::Election),
            4 => Some(Type::ServiceConfig),
            5 => Some(Type::ServiceFile),
            6 => Some(Type::Fake),
            7 => Some(Type::Fake2),
            8 => Some(Type::ElectionUpdate),
            9 => Some(Type::Departure),
            _ => None,
        }
    }

    /// The value whose wire number is `n`, if any.
    pub fn from_i32(n: i32) -> (r: Option<Type>)
        ensures
            r == Self::spec_from_i32(n),
    {
        match n {
            1 => Some(Type::Member),
            2 => Some(Type::Service),
            3 => Some(Type::Election),
            4 => Some(Type::ServiceConfig),
            5 => Some(Type::ServiceFile),
            6 => Some(Type::Fake),
            7 => Some(Type::Fake2),
            8 => Some(Type::ElectionUpdate),
            9 => Some(Type::Departure),
            _ => None,
        }
    }
}

#[derive(Clone, Debug, PartialEq)]
pub enum Payload {
    Member(super::Membership),
    Service(super::Service),
    ServiceConfig(super::ServiceConfig),
    ServiceFile(super::ServiceFile),
    Election(super::Election),
    Departure(super::Departure),
}

} // verus!
