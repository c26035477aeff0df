//! Rumors: application state spread by gossip, each kind with its own merge rule.
use vstd::prelude::*;

pub mod departure;
pub mod election;
pub mod service;
pub mod service_config;
pub mod service_file;

use crate::error::{Error, Field};
use crate::proto;
use crate::swim::{membership_from_proto, Membership};
use departure::{departure_from_proto, Departure};
use election::{election_from_proto, Election, ElectionUpdate};
use service::{service_decoded, service_proto_error, Service};
use service_config::{service_config_decoded, service_config_proto_error, ServiceConfig};
use service_file::{service_file_decoded, service_file_proto_error, ServiceFile};

verus! {

/// The kind of a rumor, which is also the first part of its key in the store.
#[derive(Clone, Copy, Debug, PartialEq, Eq, Structural, Hash)]
pub enum RumorType {
    Member,
    Service,
    Election,
    ServiceConfig,
    ServiceFile,
    ElectionUpdate,
    Departure,
}

/// Where a rumor is filed: its kind, its coarse key and its identity within the key.
#[derive(Clone, Debug, PartialEq)]
pub struct RumorKey {
    pub kind: RumorType,
    pub key: String,
    pub id: String,
}

/// A rumor of any kind, checked.
#[derive(Clone, Debug)]
pub enum RumorKind {
    Membership(Membership),
    Service(Service),
    ServiceConfig(ServiceConfig),
    ServiceFile(ServiceFile),
    Election(Election),
    ElectionUpdate(ElectionUpdate),
    Departure(Departure),
}

impl RumorKind {
    /// The kind tag that belongs to this rumor.
    pub open spec fn spec_type(self) -> RumorType {
        match self {
            RumorKind::Membership(_) => RumorType::Member,
            RumorKind::Service(_) => RumorType::Service,
            RumorKind::ServiceConfig(_) => RumorType::ServiceConfig,
            RumorKind::ServiceFile(_) => RumorType::ServiceFile,
            RumorKind::Election(_) => RumorType::Election,
            RumorKind::ElectionUpdate(_) => RumorType::ElectionUpdate,
            RumorKind::Departure(_) => RumorType::Departure,
        }
    }
}

/// A checked rumor with the sender named in its record.
#[derive(Clone, Debug)]
pub struct RumorEnvelope {
    pub type_: RumorType,
    pub from_id: Option<String>,
    pub kind: RumorKind,
}

/// The kind a rumor record declares, when its tag is known and fits its payload.
pub open spec fn envelope_type(r: proto::Rumor) -> Result<RumorType, Error> {
    match proto::rumor::Type::spec_from_i32(r.type_) {
        None => Err(Error::ProtocolMismatch(Field::Type)),
        Some(t) => match r.payload {
            None => Err(Error::ProtocolMismatch(Field::Payload)),
            Some(p) => match (t, p) {
                (proto::rumor::Type::Member, proto::rumor::Payload::Member(_)) => Ok(
                    RumorType::Member,
                ),
                (proto::rumor::Type::Service, proto::rumor::Payload::Service(_)) => Ok(
                    RumorType::Service,
                ),
                (proto::rumor::Type::ServiceConfig, proto::rumor::Payload::ServiceConfig(_)) => Ok(
                    RumorType::ServiceConfig,
                ),
                (proto::rumor::Type::ServiceFile, proto::rumor::Payload::ServiceFile(_)) => Ok(
                    RumorType::ServiceFile,
                ),
                (proto::rumor::Type::Election, proto::rumor::Payload::Election(_)) => Ok(
                    RumorType::Election,
                ),
                (proto::rumor::Type::ElectionUpdate, proto::rumor::Payload::Election(_)) => Ok(
                    RumorType::ElectionUpdate,
                ),
                (proto::rumor::Type::Departure, proto::rumor::Payload::Departure(_)) => Ok(
                    RumorType::Departure,
                ),
                _ => Err(Error::ProtocolMismatch(Field::Type)),
            },
        },
    }
}

/// Why a rumor record cannot be used, if it cannot.
pub open spec fn rumor_decode_error(r: proto::Rumor) -> Option<Error> {
    match envelope_type(r) {
        Err(e) => Some(e),
        Ok(t) => match t {
            RumorType::Member => match r.payload {
                Some(proto::rumor::Payload::Member(m)) => match membership_from_proto(m) {
                    Ok(_) => None,
                    Err(e) => Some(e),
                },
                _ => None,
            },
            RumorType::Service => service_proto_error(r),
            RumorType::ServiceConfig => service_config_proto_error(r),
            RumorType::ServiceFile => service_file_proto_error(r),
            RumorType::Election | RumorType::ElectionUpdate => match election_from_proto(r) {
                Ok(_) => None,
                Err(e) => Some(e),
            },
            RumorType::Departure => match departure_from_proto(r) {
                Ok(_) => None,
                Err(e) => Some(e),
            },
        },
    }
}

/// `k` is what rumor record `r` carries.
pub open spec fn kind_decoded(r: proto::Rumor, k: RumorKind) -> bool {
    match k {
        RumorKind::Membership(m) => match r.payload {
            Some(proto::rumor::Payload::Member(p)) => membership_from_proto(p) == Ok::<
                Membership,
                Error,
            >(m),
            _ => false,
        },
        RumorKind::Service(s) => service_decoded(r, s),
        RumorKind::ServiceConfig(s) => service_config_decoded(r, s),
        RumorKind::ServiceFile(s) => service_file_decoded(r, s),
        RumorKind::Election(e) => election_from_proto(r) == Ok::<election::ElectionView, Error>(e@),
        RumorKind::ElectionUpdate(e) => election_from_proto(r) == Ok::<
            election::ElectionView,
            Error,
        >(e@),
        RumorKind::Departure(d) => departure_from_proto(r) == Ok::<Seq<char>, Error>(
            d.member_id@,
        ),
    }
}

impl RumorKind {
    /// The rumor record of this rumor. Memberships and departures are sent in
    /// the name of `from_id`; the other kinds carry their own sender.
    pub fn to_proto(self, from_id: String) -> (r: proto::Rumor)
        ensures
            rumor_decode_error(r) is None,
            envelope_type(r) == Ok::<RumorType, Error>(self.spec_type()),
            kind_decoded(r, self),
    {
        match self {
            RumorKind::Membership(m) => {
                let ghost g = m;
                let record = m.to_proto();
                proof {
                    crate::swim::lemma_membership_round_trip(g);
                }
                proto::Rumor {
                    type_: proto::rumor::Type::Member.to_i32(),
                    tag: Vec::new(),
                    from_id: Some(from_id),
                    payload: Some(proto::rumor::Payload::Member(record)),
                }
            },
            RumorKind::Service(s) => s.to_proto(),
            RumorKind::ServiceConfig(c) => c.to_proto(),
            RumorKind::ServiceFile(f) => f.to_proto(),
            RumorKind::Election(e) => e.to_proto(),
            RumorKind::ElectionUpdate(e) => e.to_proto(),
            RumorKind::Departure(d) => d.to_proto(from_id),
        }
    }
}

impl RumorEnvelope {
    /// Checks a rumor record: its tag must be known and fit its payload, and the
    /// payload must carry what its kind requires.
    pub fn decode(rumor: proto::Rumor) -> (r: Result<RumorEnvelope, Error>)
        ensures
            match r {
                Ok(env) => {
                    &&& rumor_decode_error(rumor) is None
                    &&& envelope_type(rumor) == Ok::<RumorType, Error>(env.type_)
                    &&& env.type_ == env.kind.spec_type()
                    &&& kind_decoded(rumor, env.kind)
                    &&& env.from_id == rumor.from_id
                },
                Err(e) => rumor_decode_error(rumor) == Some(e),
            },
    {
        let t = match proto::rumor::Type::from_i32(rumor.type_) {
            Some(t) => t,
            None => return Err(Error::ProtocolMismatch(Field::Type)),
        };
        let from_id = match &rumor.from_id {
            Some(f) => Some(f.clone()),
            None => None,
        };
        let type_ = match (&t, &rumor.payload) {
            (_, None) => return Err(Error::ProtocolMismatch(Field::Payload)),
            (proto::rumor::Type::Member, Some(proto::rumor::Payload::Member(_))) => RumorType::Member,
            (proto::rumor::Type::Service, Some(proto::rumor::Payload::Service(_))) => RumorType::Service,
            (
                proto::rumor::Type::ServiceConfig,
                Some(proto::rumor::Payload::ServiceConfig(_)),
            ) => RumorType::ServiceConfig,
            (
                proto::rumor::Type::ServiceFile,
                Some(proto::rumor::Payload::ServiceFile(_)),
            ) => RumorType::ServiceFile,
            (proto::rumor::Type::Election, Some(proto::rumor::Payload::Election(_))) => RumorType::Election,
            (
                proto::rumor::Type::ElectionUpdate,
                Some(proto::rumor::Payload::Election(_)),
            ) => RumorType::ElectionUpdate,
            (proto::rumor::Type::Departure, Some(proto::rumor::Payload::Departure(_))) => RumorType::Departure,
            _ => return Err(Error::ProtocolMismatch(Field::Type)),
        };
        let kind = match type_ {
            RumorType::Member => match rumor.payload {
                Some(proto::rumor::Payload::Member(m)) => RumorKind::Membership(
                    Membership::from_proto(m)?,
                ),
                _ => return Err(Error::ProtocolMismatch(Field::Type)),
            },
            RumorType::Service => RumorKind::Service(Service::from_proto(rumor)?),
            RumorType::ServiceConfig => RumorKind::ServiceConfig(ServiceConfig::from_proto(rumor)?),
            RumorType::ServiceFile => RumorKind::ServiceFile(ServiceFile::from_proto(rumor)?),
            RumorType::Election => RumorKind::Election(Election::from_proto(rumor)?),
            RumorType::ElectionUpdate => RumorKind::ElectionUpdate(
                ElectionUpdate::from_proto(rumor)?,
            ),
            RumorType::Departure => RumorKind::Departure(Departure::from_proto(rumor)?),
        };
        Ok(RumorEnvelope { type_, from_id, kind })
    }
}

} // verus!
