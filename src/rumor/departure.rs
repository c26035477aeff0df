//! The Departure rumor.
//!
//! A departure declares that a member has left the ring for good: once a
//! member has departed it cannot come back on its own.
use vstd::prelude::*;

use crate::error::{Error, Field};
use crate::ids::text_eq;
use crate::proto;
use crate::rumor::RumorType;
use core::cmp::Ordering;

verus! {

/// The departure of one member.
#[derive(Clone, Debug)]
pub struct Departure {
    pub member_id: String,
}

impl PartialEq for Departure {
    fn eq(&self, other: &Departure) -> (r: bool) {
        text_eq(&self.member_id, &other.member_id)
    }
}

impl vstd::std_specs::cmp::PartialEqSpecImpl for Departure {
    open spec fn obeys_eq_spec() -> bool {
        true
    }

    open spec fn eq_spec(&self, other: &Departure) -> bool {
        self.member_id@ == other.member_id@
    }
}

impl PartialOrd for Departure {
    fn partial_cmp(&self, other: &Departure) -> (r: Option<Ordering>) {
        if text_eq(&self.member_id, &other.member_id) {
            Some(Ordering::Equal)
        } else {
            None
        }
    }
}

impl vstd::std_specs::cmp::PartialOrdSpecImpl for Departure {
    open spec fn obeys_partial_cmp_spec() -> bool {
        true
    }

    open spec fn partial_cmp_spec(&self, other: &Departure) -> Option<Ordering> {
        if self.member_id@ == other.member_id@ {
            Some(Ordering::Equal)
        } else {
            None
        }
    }
}

/// The departure record a rumor carries, or the first field it lacks.
pub open spec fn departure_from_proto(r: proto::Rumor) -> Result<Seq<char>, Error> {
    match r.payload {
        Some(proto::rumor::Payload::Departure(p)) => match p.member_id {
            Some(m) => Ok(m@),
            None => Err(Error::ProtocolMismatch(Field::MemberId)),
        },
        _ => Err(Error::ProtocolMismatch(Field::Payload)),
    }
}

/// What departure `l` becomes on receiving `i`, and whether that is news: it
/// stays as it is, and only a departure of another member is news.
pub open spec fn departure_merge(l: Departure, i: Departure) -> (Departure, bool) {
    (l, l.member_id@ != i.member_id@)
}

/// Merging two departures into a third gives the same result in either order.
pub proof fn lemma_departure_merge_commutes(a: Departure, b: Departure, c: Departure)
    ensures
        departure_merge(departure_merge(a, b).0, c).0 == departure_merge(
            departure_merge(a, c).0,
            b,
        ).0,
{
}

impl Departure {
    /// A copy of this rumor.
    pub fn duplicate(&self) -> (r: Departure)
        ensures
            r == *self,
    {
        Departure { member_id: self.member_id.clone() }
    }

    /// The departure of `member_id`.
    pub fn new(member_id: &str) -> (r: Departure)
        ensures
            r.member_id@ == member_id@,
    {
        Departure { member_id: member_id.to_owned() }
    }

    /// A departure changes nothing that holds it already; a departure of
    /// another member cannot be compared and is reported as news.
    pub fn merge(&mut self, other: Departure) -> (r: bool)
        ensures
            (*final(self), r) == departure_merge(*old(self), other),
    {
        !text_eq(&self.member_id, &other.member_id)
    }

    /// Checks a rumor record that must carry a departure.
    pub fn from_proto(rumor: proto::Rumor) -> (r: Result<Departure, Error>)
        ensures
            match r {
                Ok(d) => departure_from_proto(rumor) == Ok::<Seq<char>, Error>(d.member_id@),
                Err(e) => departure_from_proto(rumor) == Err::<Seq<char>, Error>(e),
            },
    {
        match rumor.payload {
            Some(proto::rumor::Payload::Departure(p)) => match p.member_id {
                Some(m) => Ok(Departure { member_id: m }),
                None => Err(Error::ProtocolMismatch(Field::MemberId)),
            },
            _ => Err(Error::ProtocolMismatch(Field::Payload)),
        }
    }

    /// The rumor record of this departure, sent in the name of `from_id`.
    pub fn to_proto(self, from_id: String) -> (r: proto::Rumor)
        ensures
            r.type_ == proto::rumor::Type::Departure.spec_number(),
            r.tag@.len() == 0,
            r.from_id == Some(from_id),
            r.payload == Some(
                proto::rumor::Payload::Departure(proto::Departure { member_id: Some(self.member_id) }),
            ),
    {
        proto::Rumor {
            type_: proto::rumor::Type::Departure.to_i32(),
            tag: Vec::new(),
            from_id: Some(from_id),
            payload: Some(
                proto::rumor::Payload::Departure(proto::Departure { member_id: Some(self.member_id) }),
            ),
        }
    }

    /// The kind of rumor a departure is.
    pub fn kind(&self) -> (r: RumorType)
        ensures
            r == RumorType::Departure,
    {
        RumorType::Departure
    }

    /// Departures are told apart by the member that left.
    pub fn id(&self) -> (r: &str)
        ensures
            r@ == self.member_id@,
    {
        self.member_id.as_str()
    }

    /// All departures are filed under one key.
    pub fn key(&self) -> (r: &'static str)
        ensures
            r@ == "departure"@,
    {
        "departure"
    }
}

} // verus!
