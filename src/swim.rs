//! Members, membership records and SWIM messages, checked against their wire records.
use vstd::prelude::*;

use crate::error::{Error, Field};
use crate::proto;
pub use crate::proto::swim::Type as SwimType;
pub use crate::proto::Health;

verus! {

/// A member of the gossip ring.
#[derive(Clone, Debug, PartialEq)]
pub struct Member {
    pub id: String,
    pub incarnation: u64,
    pub address: String,
    pub swim_port: i32,
    pub gossip_port: i32,
    pub persistent: bool,
    pub departed: bool,
}

/// A member together with the health an observer gives it.
#[derive(Clone, Debug, PartialEq)]
pub struct Membership {
    pub member: Member,
    pub health: Health,
}

/// The member that a wire record describes, or the first required field it lacks.
pub open spec fn member_from_proto(p: proto::Member) -> Result<Member, Error> {
    if p.id is None {
        Err(Error::ProtocolMismatch(Field::Id))
    } else if p.address is None {
        Err(Error::ProtocolMismatch(Field::Address))
    } else if p.swim_port is None {
        Err(Error::ProtocolMismatch(Field::SwimPort))
    } else if p.gossip_port is None {
        Err(Error::ProtocolMismatch(Field::GossipPort))
    } else {
        Ok(
            Member {
                id: p.id->Some_0,
                incarnation: match p.incarnation {
                    Some(i) => i,
                    None => 0,
                },
                address: p.address->Some_0,
                swim_port: p.swim_port->Some_0,
                gossip_port: p.gossip_port->Some_0,
                persistent: p.persistent == Some(true),
                departed: p.departed == Some(true),
            },
        )
    }
}

/// An optional member record, checked when present.
pub open spec fn opt_member_from_proto(p: Option<proto::Member>) -> Result<Option<Member>, Error> {
    match p {
        None => Ok(None),
        Some(m) => match member_from_proto(m) {
            Ok(v) => Ok(Some(v)),
            Err(e) => Err(e),
        },
    }
}

/// The health a wire number stands for; a record without a known number means Alive.
pub open spec fn health_or_alive(n: Option<i32>) -> Health {
    match n {
        Some(k) => match Health::spec_from_i32(k) {
            Some(h) => h,
            None => Health::Alive,
        },
        None => Health::Alive,
    }
}

/// The membership that a wire record describes, or the first required field it lacks.
pub open spec fn membership_from_proto(p: proto::Membership) -> Result<Membership, Error> {
    match p.member {
        None => Err(Error::ProtocolMismatch(Field::Member)),
        Some(m) => match member_from_proto(m) {
            Err(e) => Err(e),
            Ok(member) => Ok(Membership { member, health: health_or_alive(p.health) }),
        },
    }
}

/// All memberships of a list of records, or the error of the first bad one.
pub open spec fn memberships_from_proto(s: Seq<proto::Membership>) -> Result<
    Seq<Membership>,
    Error,
>
    decreases s.len(),
{
    if s.len() == 0 {
        Ok(Seq::empty())
    } else {
        match memberships_from_proto(s.drop_last()) {
            Err(e) => Err(e),
            Ok(v) => match membership_from_proto(s.last()) {
                Err(e) => Err(e),
                Ok(m) => Ok(v.push(m)),
            },
        }
    }
}

/// The wire record of a member.
pub open spec fn member_to_proto(m: Member) -> proto::Member {
    proto::Member {
        id: Some(m.id),
        incarnation: Some(m.incarnation),
        address: Some(m.address),
        swim_port: Some(m.swim_port),
        gossip_port: Some(m.gossip_port),
        persistent: Some(m.persistent),
        departed: Some(m.departed),
    }
}

/// The wire record of a membership.
pub open spec fn membership_to_proto(m: Membership) -> proto::Membership {
    proto::Membership {
        member: Some(member_to_proto(m.member)),
        health: Some(m.health.spec_number()),
    }
}

/// A membership read back from its own wire record is the same membership.
pub proof fn lemma_membership_round_trip(m: Membership)
    ensures
        membership_from_proto(membership_to_proto(m)) == Ok::<Membership, Error>(m),
{
    assert(Health::spec_from_i32(m.health.spec_number()) == Some(m.health));
}

/// The memberships read back from their own wire records are the same.
pub proof fn lemma_memberships_round_trip(ms: Seq<Membership>)
    ensures
        memberships_from_proto(ms.map_values(|m: Membership| membership_to_proto(m))) == Ok::<
            Seq<Membership>,
            Error,
        >(ms),
    decreases ms.len(),
{
    let ps = ms.map_values(|m: Membership| membership_to_proto(m));
    if ms.len() > 0 {
        lemma_memberships_round_trip(ms.drop_last());
        assert(ps.drop_last() =~= ms.drop_last().map_values(|m: Membership| membership_to_proto(m)));
        lemma_membership_round_trip(ms.last());
        assert(ps.last() == membership_to_proto(ms.last()));
        assert(ms.drop_last().push(ms.last()) =~= ms);
        assert(memberships_from_proto(ps) == Ok::<Seq<Membership>, Error>(
            ms.drop_last().push(ms.last()),
        ));
    } else {
        assert(ps.len() == 0);
        assert(ms =~= Seq::<Membership>::empty());
    }
}

/// A datagram read back from its own wire record is the same datagram: same
/// kind, sender, second member and memberships.
pub proof fn lemma_swim_round_trip(s: Swim, r: proto::Swim)
    requires
        s.type_ == s.kind.spec_type(),
        r.type_ == s.type_.spec_number(),
        r.membership@ == s.kind.parts().2.map_values(|m: Membership| membership_to_proto(m)),
        r.payload == Some(
            match s.kind {
                SwimKind::Ping(p) => proto::swim::Payload::Ping(
                    proto::Ping {
                        from: Some(member_to_proto(p.from)),
                        forward_to: match p.forward_to {
                            Some(v) => Some(member_to_proto(v)),
                            None => None,
                        },
                    },
                ),
                SwimKind::Ack(a) => proto::swim::Payload::Ack(
                    proto::Ack {
                        from: Some(member_to_proto(a.from)),
                        forward_to: match a.forward_to {
                            Some(v) => Some(member_to_proto(v)),
                            None => None,
                        },
                    },
                ),
                SwimKind::PingReq(q) => proto::swim::Payload::Pingreq(
                    proto::PingReq {
                        from: Some(member_to_proto(q.from)),
                        target: Some(member_to_proto(q.target)),
                    },
                ),
            },
        ),
    ensures
        swim_decode(r) == Ok::<(SwimType, (Member, Option<Member>, Seq<Membership>)), Error>(
            (s.type_, s.kind.parts()),
        ),
{
    lemma_memberships_round_trip(s.kind.parts().2);
    assert(SwimType::spec_from_i32(s.type_.spec_number()) == Some(s.type_));
}

impl Member {
    /// A new member in its first incarnation, with no address yet, whose
    /// identity is `random` written as 32 hexadecimal digits. The caller draws
    /// `random` from a random source.
    pub fn fresh(random: u128) -> (r: Member)
        ensures
            r.id@ == crate::text::hex_text(random as nat, 32),
            r.incarnation == 0,
            r.address@.len() == 0,
            r.swim_port == 0,
            r.gossip_port == 0,
            !r.persistent,
            !r.departed,
    {
        Member {
            id: crate::text::hex_id(random),
            incarnation: 0,
            address: String::new(),
            swim_port: 0,
            gossip_port: 0,
            persistent: false,
            departed: false,
        }
    }

    /// A copy of this member.
    pub fn duplicate(&self) -> (r: Member)
        ensures
            r == *self,
    {
        Member {
            id: self.id.clone(),
            incarnation: self.incarnation,
            address: self.address.clone(),
            swim_port: self.swim_port,
            gossip_port: self.gossip_port,
            persistent: self.persistent,
            departed: self.departed,
        }
    }

    /// Checks a wire record and builds the member it describes.
    pub fn from_proto(p: proto::Member) -> (r: Result<Member, Error>)
        ensures
            r == member_from_proto(p),
    {
        let id = match p.id {
            Some(id) => id,
            None => return Err(Error::ProtocolMismatch(Field::Id)),
        };
        let address = match p.address {
            Some(a) => a,
            None => return Err(Error::ProtocolMismatch(Field::Address)),
        };
        let swim_port = match p.swim_port {
            Some(port) => port,
            None => return Err(Error::ProtocolMismatch(Field::SwimPort)),
        };
        let gossip_port = match p.gossip_port {
            Some(port) => port,
            None => return Err(Error::ProtocolMismatch(Field::GossipPort)),
        };
        let incarnation = match p.incarnation {
            Some(i) => i,
            None => 0,
        };
        Ok(
            Member {
                id,
                incarnation,
                address,
                swim_port,
                gossip_port,
                persistent: p.persistent == Some(true),
                departed: p.departed == Some(true),
            },
        )
    }

    /// The wire record of this member, every field present.
    pub fn to_proto(self) -> (r: proto::Member)
        ensures
            r == member_to_proto(self),
    {
        proto::Member {
            id: Some(self.id),
            incarnation: Some(self.incarnation),
            address: Some(self.address),
            swim_port: Some(self.swim_port),
            gossip_port: Some(self.gossip_port),
            persistent: Some(self.persistent),
            departed: Some(self.departed),
        }
    }
}

fn opt_member_from(p: Option<proto::Member>) -> (r: Result<Option<Member>, Error>)
    ensures
        r == opt_member_from_proto(p),
{
    match p {
        None => Ok(None),
        Some(m) => match Member::from_proto(m) {
            Ok(v) => Ok(Some(v)),
            Err(e) => Err(e),
        },
    }
}

fn opt_member_to(m: Option<Member>) -> (r: Option<proto::Member>)
    ensures
        r == match m {
            Some(v) => Some(member_to_proto(v)),
            None => None::<proto::Member>,
        },
{
    match m {
        Some(v) => Some(v.to_proto()),
        None => None,
    }
}

impl Membership {
    /// Checks a wire record and builds the membership it describes.
    pub fn from_proto(p: proto::Membership) -> (r: Result<Membership, Error>)
        ensures
            r == membership_from_proto(p),
    {
        let member = match p.member {
            None => return Err(Error::ProtocolMismatch(Field::Member)),
            Some(m) => Member::from_proto(m)?,
        };
        let health = match p.health {
            Some(k) => match Health::from_i32(k) {
                Some(h) => h,
                None => Health::Alive,
            },
            None => Health::Alive,
        };
        Ok(Membership { member, health })
    }

    /// The wire record of this membership.
    pub fn to_proto(self) -> (r: proto::Membership)
        ensures
            r == membership_to_proto(self),
    {
        let health = self.health.to_i32();
        proto::Membership { member: Some(self.member.to_proto()), health: Some(health) }
    }
}

/// Once a prefix of the records holds a bad one, so does every longer prefix.
proof fn lemma_memberships_error_stays(s: Seq<proto::Membership>, k: int)
    requires
        0 <= k <= s.len(),
        memberships_from_proto(s.take(k)) is Err,
    ensures
        memberships_from_proto(s) == memberships_from_proto(s.take(k)),
    decreases s.len() - k,
{
    if k < s.len() {
        assert(s.take(k + 1).drop_last() == s.take(k));
        lemma_memberships_error_stays(s, k + 1);
    } else {
        assert(s.take(k) == s);
    }
}

/// A copy of a list of memberships.
pub fn copy_memberships(v: &Vec<Membership>) -> (r: Vec<Membership>)
    ensures
        r@ == v@,
{
    let mut out: Vec<Membership> = Vec::new();
    let mut i: usize = 0;
    while i < v.len()
        invariant
            i <= v.len(),
            out@ == v@.take(i as int),
        decreases v.len() - i,
    {
        out.push(Membership { member: v[i].member.duplicate(), health: v[i].health });
        i = i + 1;
        assert(out@ =~= v@.take(i as int));
    }
    assert(out@ =~= v@);
    out
}

/// Checks a list of membership records, keeping their order.
pub fn memberships_from(ps: Vec<proto::Membership>) -> (r: Result<Vec<Membership>, Error>)
    ensures
        match r {
            Ok(v) => memberships_from_proto(ps@) == Ok::<Seq<Membership>, Error>(v@),
            Err(e) => memberships_from_proto(ps@) == Err::<Seq<Membership>, Error>(e),
        },
{
    let ghost all = ps@;
    let mut rest = ps;
    let mut out: Vec<Membership> = Vec::new();
    while rest.len() > 0
        invariant
            all == ps@,
            out@.len() <= all.len(),
            rest@ == all.skip(out@.len() as int),
            memberships_from_proto(all.take(out@.len() as int)) == Ok::<Seq<Membership>, Error>(
                out@,
            ),
        decreases rest.len(),
    {
        let ghost n = out@.len() as int;
        let p = rest.remove(0);
        assert(all.take(n + 1).drop_last() == all.take(n));
        assert(all.take(n + 1).last() == p);
        let m = Membership::from_proto(p);
        match m {
            Ok(m) => {
                out.push(m);
                assert(rest@ == all.skip(n + 1));
            },
            Err(e) => {
                proof {
                    assert(memberships_from_proto(all.take(n + 1)) == Err::<
                        Seq<Membership>,
                        Error,
                    >(e));
                    lemma_memberships_error_stays(all, n + 1);
                }
                return Err(e);
            },
        }
    }
    assert(all.take(out@.len() as int) == all);
    Ok(out)
}

/// The wire records of a list of memberships, in order.
pub fn memberships_to(ms: Vec<Membership>) -> (r: Vec<proto::Membership>)
    ensures
        r@ == ms@.map_values(|m: Membership| membership_to_proto(m)),
{
    let ghost all = ms@;
    let mut rest = ms;
    let mut out: Vec<proto::Membership> = Vec::new();
    while rest.len() > 0
        invariant
            all == ms@,
            out@.len() <= all.len(),
            rest@ == all.skip(out@.len() as int),
            out@ == all.take(out@.len() as int).map_values(|m: Membership| membership_to_proto(m)),
        decreases rest.len(),
    {
        let ghost n = out@.len() as int;
        let m = rest.remove(0);
        out.push(m.to_proto());
        assert(rest@ == all.skip(n + 1));
        assert(out@ == all.take(n + 1).map_values(|m: Membership| membership_to_proto(m)));
    }
    assert(all.take(out@.len() as int) == all);
    out
}

/// A probe: the sender asks for an Ack, to itself or to `forward_to`.
#[derive(Clone, Debug)]
pub struct Ping {
    pub membership: Vec<Membership>,
    pub from: Member,
    pub forward_to: Option<Member>,
}

/// The answer to a probe, routed back through `forward_to` when it is set.
#[derive(Clone, Debug)]
pub struct Ack {
    pub membership: Vec<Membership>,
    pub from: Member,
    pub forward_to: Option<Member>,
}

/// A request to probe `target` on behalf of `from`.
#[derive(Clone, Debug)]
pub struct PingReq {
    pub membership: Vec<Membership>,
    pub from: Member,
    pub target: Member,
}

/// The payload of a SWIM datagram.
#[derive(Clone, Debug)]
pub enum SwimKind {
    Ping(Ping),
    Ack(Ack),
    PingReq(PingReq),
}

/// A checked SWIM datagram.
#[derive(Clone, Debug)]
pub struct Swim {
    pub type_: SwimType,
    pub kind: SwimKind,
}

/// The sender, the second member and the memberships of a message, or the first error.
pub open spec fn message_parts(
    from: Option<proto::Member>,
    second: Result<Option<Member>, Error>,
    ms: Seq<proto::Membership>,
) -> Result<(Member, Option<Member>, Seq<Membership>), Error> {
    match from {
        None => Err(Error::ProtocolMismatch(Field::From)),
        Some(f) => match member_from_proto(f) {
            Err(e) => Err(e),
            Ok(sender) => match second {
                Err(e) => Err(e),
                Ok(other) => match memberships_from_proto(ms) {
                    Err(e) => Err(e),
                    Ok(v) => Ok((sender, other, v)),
                },
            },
        },
    }
}

/// The target of a PingReq record, which must be present.
pub open spec fn target_from_proto(t: Option<proto::Member>) -> Result<Option<Member>, Error> {
    match t {
        None => Err(Error::ProtocolMismatch(Field::Target)),
        Some(m) => opt_member_from_proto(Some(m)),
    }
}

/// What a datagram record of kind `t` decodes to: the sender, the member to
/// forward to (or the probe target) and the memberships; or the first error.
pub open spec fn swim_parts(value: proto::Swim, t: SwimType) -> Result<
    (Member, Option<Member>, Seq<Membership>),
    Error,
> {
    match (t, value.payload) {
        (SwimType::Ping, Some(proto::swim::Payload::Ping(p))) => message_parts(
            p.from,
            opt_member_from_proto(p.forward_to),
            value.membership@,
        ),
        (SwimType::Ack, Some(proto::swim::Payload::Ack(p))) => message_parts(
            p.from,
            opt_member_from_proto(p.forward_to),
            value.membership@,
        ),
        (SwimType::Pingreq, Some(proto::swim::Payload::Pingreq(p))) => message_parts(
            p.from,
            target_from_proto(p.target),
            value.membership@,
        ),
        _ => Err(Error::ProtocolMismatch(Field::Payload)),
    }
}

/// What a datagram record decodes to: its kind and parts, or the first error.
pub open spec fn swim_decode(value: proto::Swim) -> Result<
    (SwimType, (Member, Option<Member>, Seq<Membership>)),
    Error,
> {
    match SwimType::spec_from_i32(value.type_) {
        None => Err(Error::ProtocolMismatch(Field::Type)),
        Some(t) => match swim_parts(value, t) {
            Err(e) => Err(e),
            Ok(parts) => Ok((t, parts)),
        },
    }
}

impl SwimKind {
    /// The kind of datagram this payload belongs to.
    pub open spec fn spec_type(self) -> SwimType {
        match self {
            SwimKind::Ping(_) => SwimType::Ping,
            SwimKind::Ack(_) => SwimType::Ack,
            SwimKind::PingReq(_) => SwimType::Pingreq,
        }
    }

    /// The sender, the second member and the memberships of this payload.
    pub open spec fn parts(self) -> (Member, Option<Member>, Seq<Membership>) {
        match self {
            SwimKind::Ping(p) => (p.from, p.forward_to, p.membership@),
            SwimKind::Ack(a) => (a.from, a.forward_to, a.membership@),
            SwimKind::PingReq(q) => (q.from, Some(q.target), q.membership@),
        }
    }
}

fn parts_from(
    from: Option<proto::Member>,
    second: Result<Option<Member>, Error>,
    ms: Vec<proto::Membership>,
) -> (r: Result<(Member, Option<Member>, Vec<Membership>), Error>)
    ensures
        match r {
            Ok((f, o, v)) => message_parts(from, second, ms@) == Ok::<
                (Member, Option<Member>, Seq<Membership>),
                Error,
            >((f, o, v@)),
            Err(e) => message_parts(from, second, ms@) == Err::<
                (Member, Option<Member>, Seq<Membership>),
                Error,
            >(e),
        },
{
    let sender = match from {
        None => return Err(Error::ProtocolMismatch(Field::From)),
        Some(f) => Member::from_proto(f)?,
    };
    let other = second?;
    let v = memberships_from(ms)?;
    Ok((sender, other, v))
}

impl Ping {
    /// Checks a datagram record that must carry a Ping.
    pub fn from_proto(value: proto::Swim) -> (r: Result<Ping, Error>)
        ensures
            match r {
                Ok(p) => swim_parts(value, SwimType::Ping) == Ok::<
                    (Member, Option<Member>, Seq<Membership>),
                    Error,
                >((p.from, p.forward_to, p.membership@)),
                Err(e) => swim_parts(value, SwimType::Ping) == Err::<
                    (Member, Option<Member>, Seq<Membership>),
                    Error,
                >(e),
            },
    {
        match value.payload {
            Some(proto::swim::Payload::Ping(p)) => {
                let (from, forward_to, membership) = parts_from(
                    p.from,
                    opt_member_from(p.forward_to),
                    value.membership,
                )?;
                Ok(Ping { membership, from, forward_to })
            },
            _ => Err(Error::ProtocolMismatch(Field::Payload)),
        }
    }
}

impl Ack {
    /// Checks a datagram record that must carry an Ack.
    pub fn from_proto(value: proto::Swim) -> (r: Result<Ack, Error>)
        ensures
            match r {
                Ok(a) => swim_parts(value, SwimType::Ack) == Ok::<
                    (Member, Option<Member>, Seq<Membership>),
                    Error,
                >((a.from, a.forward_to, a.membership@)),
                Err(e) => swim_parts(value, SwimType::Ack) == Err::<
                    (Member, Option<Member>, Seq<Membership>),
                    Error,
                >(e),
            },
    {
        match value.payload {
            Some(proto::swim::Payload::Ack(p)) => {
                let (from, forward_to, membership) = parts_from(
                    p.from,
                    opt_member_from(p.forward_to),
                    value.membership,
                )?;
                Ok(Ack { membership, from, forward_to })
            },
            _ => Err(Error::ProtocolMismatch(Field::Payload)),
        }
    }
}

impl PingReq {
    /// Checks a datagram record that must carry a PingReq.
    pub fn from_proto(value: proto::Swim) -> (r: Result<PingReq, Error>)
        ensures
            match r {
                Ok(q) => swim_parts(value, SwimType::Pingreq) == Ok::<
                    (Member, Option<Member>, Seq<Membership>),
                    Error,
                >((q.from, Some(q.target), q.membership@)),
                Err(e) => swim_parts(value, SwimType::Pingreq) == Err::<
                    (Member, Option<Member>, Seq<Membership>),
                    Error,
                >(e),
            },
    {
        match value.payload {
            Some(proto::swim::Payload::Pingreq(p)) => {
                let target = match p.target {
                    None => Err(Error::ProtocolMismatch(Field::Target)),
                    Some(t) => opt_member_from(Some(t)),
                };
                let (from, target, membership) = parts_from(p.from, target, value.membership)?;
                match target {
                    Some(target) => Ok(PingReq { membership, from, target }),
                    None => Err(Error::ProtocolMismatch(Field::Target)),
                }
            },
            _ => Err(Error::ProtocolMismatch(Field::Payload)),
        }
    }
}

impl Swim {
    /// Checks a datagram record: its kind must be known and match its payload,
    /// and every member in it must carry the required fields.
    pub fn decode(value: proto::Swim) -> (r: Result<Swim, Error>)
        ensures
            match r {
                Ok(s) => s.type_ == s.kind.spec_type() && swim_decode(value) == Ok::<
                    (SwimType, (Member, Option<Member>, Seq<Membership>)),
                    Error,
                >((s.type_, s.kind.parts())),
                Err(e) => swim_decode(value) == Err::<
                    (SwimType, (Member, Option<Member>, Seq<Membership>)),
                    Error,
                >(e),
            },
    {
        let type_ = match SwimType::from_i32(value.type_) {
            Some(t) => t,
            None => return Err(Error::ProtocolMismatch(Field::Type)),
        };
        let kind = match type_ {
            SwimType::Ack => SwimKind::Ack(Ack::from_proto(value)?),
            SwimType::Ping => SwimKind::Ping(Ping::from_proto(value)?),
            SwimType::Pingreq => SwimKind::PingReq(PingReq::from_proto(value)?),
        };
        Ok(Swim { type_, kind })
    }

    /// The wire record of this datagram.
    pub fn encode(self) -> (r: proto::Swim)
        ensures
            r.type_ == self.type_.spec_number(),
            r.membership@ == self.kind.parts().2.map_values(
                |m: Membership| membership_to_proto(m),
            ),
            r.payload == Some(
                match self.kind {
                    SwimKind::Ping(p) => proto::swim::Payload::Ping(
                        proto::Ping {
                            from: Some(member_to_proto(p.from)),
                            forward_to: match p.forward_to {
                                Some(v) => Some(member_to_proto(v)),
                                None => None,
                            },
                        },
                    ),
                    SwimKind::Ack(a) => proto::swim::Payload::Ack(
                        proto::Ack {
                            from: Some(member_to_proto(a.from)),
                            forward_to: match a.forward_to {
                                Some(v) => Some(member_to_proto(v)),
                                None => None,
                            },
                        },
                    ),
                    SwimKind::PingReq(q) => proto::swim::Payload::Pingreq(
                        proto::PingReq {
                            from: Some(member_to_proto(q.from)),
                            target: Some(member_to_proto(q.target)),
                        },
                    ),
                },
            ),
    {
        let type_ = self.type_.to_i32();
        match self.kind {
            SwimKind::Ping(p) => proto::Swim {
                type_,
                membership: memberships_to(p.membership),
                payload: Some(
                    proto::swim::Payload::Ping(
                        proto::Ping {
                            from: Some(p.from.to_proto()),
                            forward_to: opt_member_to(p.forward_to),
                        },
                    ),
                ),
            },
            SwimKind::Ack(a) => proto::Swim {
                type_,
                membership: memberships_to(a.membership),
                payload: Some(
                    proto::swim::Payload::Ack(
                        proto::Ack {
                            from: Some(a.from.to_proto()),
                            forward_to: opt_member_to(a.forward_to),
                        },
                    ),
                ),
            },
            SwimKind::PingReq(q) => proto::Swim {
                type_,
                membership: memberships_to(q.membership),
                payload: Some(
                    proto::swim::Payload::Pingreq(
                        proto::PingReq {
                            from: Some(q.from.to_proto()),
                            target: Some(q.target.to_proto()),
                        },
                    ),
                ),
            },
        }
    }
}

} // verus!
