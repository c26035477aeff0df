//! Records of the wire format.
//!
//! Each record mirrors one protocol-buffer message field for field: an optional
//! field is an `Option`, an enumeration is carried as its `i32` number. The
//! byte coding itself happens outside the library; the library turns these
//! records into its own checked types and back.
use vstd::prelude::*;

pub mod rumor;
pub mod swim;

use crate::ids::text_eq;
use crate::text::{lower_of, lowercase};

verus! {

/// Health of a member, ordered from best to worst: Alive < Suspect < Confirmed < Departed.
#[derive(Clone, Copy, Debug, PartialEq, Eq, Structural, Hash)]
pub enum Health {
    Alive,
    Suspect,
    Confirmed,
    Departed,
}

impl Health {
    /// Position of the health in the order Alive < Suspect < Confirmed < Departed.
    pub open spec fn spec_rank(self) -> u8 {
        match self {
            Health::Alive => 0,
            Health::Suspect => 1,
            Health::Confirmed => 2,
            Health::Departed => 3,
        }
    }

    /// Wire number of the health.
    pub open spec fn spec_number(self) -> i32 {
        (self.spec_rank() + 1) as i32
    }

    pub fn rank(&self) -> (r: u8)
        ensures
            r == self.spec_rank(),
    {
        match self {
            Health::Alive => 0,
            Health::Suspect => 1,
            Health::Confirmed => 2,
            Health::Departed => 3,
        }
    }

    /// The name of the health, in lower case.
    pub open spec fn spec_name(self) -> Seq<char> {
        match self {
            Health::Alive => "alive"@,
            Health::Suspect => "suspect"@,
            Health::Confirmed => "confirmed"@,
            Health::Departed => "departed"@,
        }
    }

    /// The name of the health, in lower case.
    pub fn as_str(&self) -> (r: &'static str)
        ensures
            r@ == self.spec_name(),
    {
        match self {
            Health::Alive => "alive",
            Health::Suspect => "suspect",
            Health::Confirmed => "confirmed",
            Health::Departed => "departed",
        }
    }

    /// The health named `s`, in lower case.
    pub fn from_name(s: &str) -> (r: Option<Health>)
        ensures
            r matches Some(h) ==> h.spec_name() == s@,
            r is None ==> forall|h: Health| h.spec_name() != s@,
    {
        let name = s.to_owned();
        if text_eq(&name, &"alive".to_owned()) {
            Some(Health::Alive)
        } else if text_eq(&name, &"suspect".to_owned()) {
            Some(Health::Suspect)
        } else if text_eq(&name, &"confirmed".to_owned()) {
            Some(Health::Confirmed)
        } else if text_eq(&name, &"departed".to_owned()) {
            Some(Health::Departed)
        } else {
            None
        }
    }

    /// The health named `s`, in any case.
    pub fn parse(s: &str) -> (r: Option<Health>)
        ensures
            r matches Some(h) ==> h.spec_name() == lower_of(s@),
            r is None ==> forall|h: Health| h.spec_name() != lower_of(s@),
    {
        let lower = lowercase(s);
        Health::from_name(lower.as_str())
    }

    pub fn to_i32(&self) -> (r: i32)
        ensures
            r == self.spec_number(),
    {
        match self {
            Health::Alive => 1,
            Health::Suspect => 2,
            Health::Confirmed => 3,
            Health::Departed => 4,
        }
    }

    /// The health whose wire number is `n`, if any.
    pub open spec fn spec_from_i32(n: i32) -> Option<Health> {
        match n {
            1 => Some(Health::Alive),
            2 => Some(Health::Suspect),
            3 => Some(Health::Confirmed),
            4 => Some(Health::Departed),
            _ => None,
        }
    }

    /// The value whose wire number is `n`, if any.
    pub fn from_i32(n: i32) -> (r: Option<Health>)
        ensures
            r == Self::spec_from_i32(n),
    {
        match n {
            1 => Some(Health::Alive),
            2 => Some(Health::Suspect),
            3 => Some(Health::Confirmed),
            4 => Some(Health::Departed),
            _ => None,
        }
    }
}

/// Status of an election.
#[derive(Clone, Copy, Debug, PartialEq, Eq, Structural, Hash)]
pub enum Status {
    Running,
    NoQuorum,
    Finished,
}

impl Status {
    /// Wire number of the status.
    pub open spec fn spec_number(self) -> i32 {
        match self {
            Status::Running => 1,
            Status::NoQuorum => 2,
            Status::Finished => 3,
        }
    }

    pub fn to_i32(&self) -> (r: i32)
        ensures
            r == self.spec_number(),
    {
        match self {
            Status::Running => 1,
            Status::NoQuorum => 2,
            Status::Finished => 3,
        }
    }

    /// The status whose wire number is `n`, if any.
    pub open spec fn spec_from_i32(n: i32) -> Option<Status> {
        match n {
            1 => Some(Status::Running),
            2 => Some(Status::NoQuorum),
            3 => Some(Status::Finished),
            _ => None,
        }
    }

    /// The value whose wire number is `n`, if any.
    pub fn from_i32(n: i32) -> (r: Option<Status>)
        ensures
            r == Self::spec_from_i32(n),
    {
        match n {
            1 => Some(Status::Running),
            2 => Some(Status::NoQuorum),
            3 => Some(Status::Finished),
            _ => None,
        }
    }
}

#[derive(Clone, Debug, PartialEq)]
pub struct Member {
    pub id: Option<String>,
    pub incarnation: Option<u64>,
    pub address: Option<String>,
    pub swim_port: Option<i32>,
    pub gossip_port: Option<i32>,
    pub persistent: Option<bool>,
    pub departed: Option<bool>,
}

#[derive(Clone, Debug, PartialEq)]
pub struct Ping {
    pub from: Option<Member>,
    pub forward_to: Option<Member>,
}

#[derive(Clone, Debug, PartialEq)]
pub struct Ack {
    pub from: Option<Member>,
    pub forward_to: Option<Member>,
}

#[derive(Clone, Debug, PartialEq)]
pub struct PingReq {
    pub from: Option<Member>,
    pub target: Option<Member>,
}

#[derive(Clone, Debug, PartialEq)]
pub struct Membership {
    pub member: Option<Member>,
    pub health: Option<i32>,
}

#[derive(Clone, Debug, PartialEq)]
pub struct Election {
    pub member_id: Option<String>,
    pub service_group: Option<String>,
    pub term: Option<u64>,
    pub suitability: Option<u64>,
    pub status: Option<i32>,
    pub votes: Vec<String>,
}

#[derive(Clone, Debug, PartialEq)]
pub struct Service {
    pub member_id: Option<String>,
    pub service_group: Option<String>,
    pub incarnation: Option<u64>,
    pub initialized: Option<bool>,
    pub pkg: Option<String>,
    pub cfg: Option<Vec<u8>>,
    pub sys: Option<SysInfo>,
}

#[derive(Clone, Debug, PartialEq)]
pub struct ServiceConfig {
    pub service_group: Option<String>,
    pub incarnation: Option<u64>,
    pub encrypted: Option<bool>,
    pub config: Option<Vec<u8>>,
}

#[derive(Clone, Debug, PartialEq)]
pub struct ServiceFile {
    pub service_group: Option<String>,
    pub incarnation: Option<u64>,
    pub encrypted: Option<bool>,
    pub filename: Option<String>,
    pub body: Option<Vec<u8>>,
}

/// Addresses a service publishes about the host it runs on.
#[derive(Clone, Debug, PartialEq)]
pub struct SysInfo {
    pub ip: Option<String>,
    pub hostname: Option<String>,
    pub gossip_ip: Option<String>,
    pub gossip_port: Option<u32>,
    pub http_gateway_ip: Option<String>,
    pub http_gateway_port: Option<u32>,
    pub ctl_gateway_ip: Option<String>,
    pub ctl_gateway_port: Option<u32>,
}

impl SysInfo {
    /// A copy of these addresses.
    pub fn duplicate(&self) -> (r: SysInfo)
        ensures
            r == *self,
    {
        SysInfo {
            ip: crate::ids::copy_opt_text(&self.ip),
            hostname: crate::ids::copy_opt_text(&self.hostname),
            gossip_ip: crate::ids::copy_opt_text(&self.gossip_ip),
            gossip_port: self.gossip_port,
            http_gateway_ip: crate::ids::copy_opt_text(&self.http_gateway_ip),
            http_gateway_port: self.http_gateway_port,
            ctl_gateway_ip: crate::ids::copy_opt_text(&self.ctl_gateway_ip),
            ctl_gateway_port: self.ctl_gateway_port,
        }
    }
}

#[derive(Clone, Debug, PartialEq)]
pub struct Departure {
    pub member_id: Option<String>,
}

/// A SWIM datagram: its kind, the piggybacked membership and the payload.
#[derive(Clone, Debug, PartialEq)]
pub struct Swim {
    pub type_: i32,
    pub membership: Vec<Membership>,
    pub payload: Option<swim::Payload>,
}

/// A gossiped rumor: its type tag, tags, sender and payload.
#[derive(Clone, Debug, PartialEq)]
pub struct Rumor {
    pub type_: i32,
    pub tag: Vec<String>,
    pub from_id: Option<String>,
    pub payload: Option<rumor::Payload>,
}

/// The envelope around every message on the wire.
#[derive(Clone, Debug, PartialEq)]
pub struct Wire {
    pub encrypted: Option<bool>,
    pub nonce: Option<Vec<u8>>,
    pub payload: Option<Vec<u8>>,
}

} // verus!
