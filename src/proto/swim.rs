//! Kinds and payloads of SWIM datagrams.
use vstd::prelude::*;

verus! {

/// Which payload a SWIM datagram carries.
#[derive(Clone, Copy, Debug, PartialEq, Eq, Structural, Hash)]
pub enum Type {
    Ping,
    Ack,
    Pingreq,
}

impl Type {
    /// Wire number of the kind.
    pub open spec fn spec_number(self) -> i32 {
        match self {
            Type::Ping => 1,
            Type::Ack => 2,
            Type::Pingreq => 3,
        }
    }

    pub fn to_i32(&self) -> (r: i32)
        ensures
            r == self.spec_number(),
    {
        match self {
            Type::Ping => 1,
            Type::Ack => 2,
            Type::Pingreq => 3,
        }
    }

    /// The kind whose wire number is `n`, if any.
    pub open spec fn spec_from_i32(n: i32) -> Option<Type> {
        match n {
            1 => Some(Type::Ping),
            2 => Some(Type::Ack),
            3 => Some(Type::Pingreq),
            _ => None,
        }
    }

    /// The value whose wire number is `n`, if any.
    pub fn from_i32(n: i32) -> (r: Option<Type>)
        ensures
            r == Self::spec_from_i32(n),
    {
        match n {
            1 => Some(Type::Ping),
            2 => Some(Type::Ack),
            3 => Some(Type::Pingreq),
            _ => None,
        }
    }
}

#[derive(Clone, Debug, PartialEq)]
pub enum Payload {
    Ping(super::Ping),
    Ack(super::Ack),
    Pingreq(super::PingReq),
}

} // verus!
