//! What this member does with each SWIM datagram it receives.
//!
//! The receiving loop reads a datagram, decodes it and hands it here together
//! with the address it came from; this module updates the member list and
//! says what to send back. The loop then performs that action.
use vstd::prelude::*;

use crate::ids::{text_eq, texts_contain};
use crate::member_list::{insert_all, insert_into, MemberList};
use crate::swim::{copy_memberships, Ack, Health, Member, Membership, Swim, SwimKind};

verus! {

/// What the receiving loop does after a datagram was taken in.
#[derive(Clone, Debug)]
pub enum SwimAction {
    /// Nothing to send.
    Ignore,
    /// Answer the Ping with an Ack from this member to the address the datagram
    /// came from, routed on to `forward_to` when that is set.
    ReplyAck { forward_to: Option<Member> },
    /// Hand the Ack to the probe that waits for it.
    DeliverAck { from: Member, forward_to: Option<Member> },
    /// Pass the Ack on to `to`, the member that asked for the probe.
    ForwardAck { to: Member, ack: Ack },
    /// Probe `target` on behalf of `requester`.
    PingFor { target: Member, requester: Member },
}

/// `id` is on the blacklist.
pub open spec fn blocked(blacklist: Seq<String>, id: Seq<char>) -> bool {
    blacklist.map_values(|s: String| s@).contains(id)
}

/// `m` as seen from the address its datagram came from.
pub open spec fn observed(m: Member, ip: String) -> Member {
    Member { address: ip, ..m }
}

/// The health a pinging member reports of itself.
pub open spec fn sender_health(m: Member) -> Health {
    if m.departed {
        Health::Departed
    } else {
        Health::Alive
    }
}

/// The member map and the action after taking in datagram `msg` from `ip`.
pub open spec fn swim_step(
    m: Map<Seq<char>, Membership>,
    local: Seq<char>,
    blacklist: Seq<String>,
    ip: String,
    msg: Swim,
) -> (Map<Seq<char>, Membership>, SwimAction) {
    match msg.kind {
        SwimKind::Ping(p) => if blocked(blacklist, p.from.id@) {
            (m, SwimAction::Ignore)
        } else {
            let with_sender = insert_into(
                m,
                local,
                observed(p.from, ip),
                sender_health(p.from),
            ).0;
            (
                insert_all(with_sender, local, p.membership@),
                SwimAction::ReplyAck { forward_to: p.forward_to },
            )
        },
        SwimKind::Ack(a) => if blocked(blacklist, a.from.id@) && a.forward_to is None {
            (m, SwimAction::Ignore)
        } else if a.forward_to is Some && (a.forward_to->Some_0).id@ != local {
            (
                insert_all(m, local, a.membership@),
                SwimAction::ForwardAck {
                    to: a.forward_to->Some_0,
                    ack: Ack { from: observed(a.from, ip), ..a },
                },
            )
        } else {
            (
                insert_all(m, local, a.membership@),
                SwimAction::DeliverAck { from: a.from, forward_to: a.forward_to },
            )
        },
        SwimKind::PingReq(q) => if blocked(blacklist, q.from.id@) {
            (m, SwimAction::Ignore)
        } else {
            (
                insert_all(m, local, q.membership@),
                if m.contains_key(q.target.id@) {
                    SwimAction::PingFor {
                        target: m[q.target.id@].member,
                        requester: observed(q.from, ip),
                    }
                } else {
                    SwimAction::Ignore
                },
            )
        },
    }
}

/// Takes in a decoded datagram that came from `ip`: records what it says of
/// its sender and of the piggybacked members, and says what to send. Every
/// datagram that is not dropped has its piggybacked memberships taken in.
/// Datagrams from blacklisted members are dropped, except Acks that still
/// have to be routed on.
pub fn process_swim(list: &mut MemberList, blacklist: &Vec<String>, ip: String, msg: Swim) -> (r:
    SwimAction)
    requires
        old(list).wf(),
    ensures
        final(list).wf(),
        final(list).local() == old(list).local(),
        (final(list)@, r) == swim_step(old(list)@, old(list).local(), blacklist@, ip, msg),
{
    match msg.kind {
        SwimKind::Ping(p) => {
            if texts_contain(blacklist, &p.from.id) {
                return SwimAction::Ignore;
            }
            let health = if p.from.departed {
                Health::Departed
            } else {
                Health::Alive
            };
            let sender = Member { address: ip, ..p.from };
            list.insert(sender, health);
            list.insert_memberships(p.membership);
            SwimAction::ReplyAck { forward_to: p.forward_to }
        },
        SwimKind::Ack(a) => {
            if texts_contain(blacklist, &a.from.id) && a.forward_to.is_none() {
                return SwimAction::Ignore;
            }
            let forward_elsewhere = match &a.forward_to {
                Some(f) => !text_eq(&f.id, list.local_id()),
                None => false,
            };
            if forward_elsewhere {
                let to = match a.forward_to {
                    Some(f) => f,
                    None => {
                        return SwimAction::Ignore;
                    },
                };
                let forward_to = Some(to.duplicate());
                list.insert_memberships(copy_memberships(&a.membership));
                SwimAction::ForwardAck {
                    to,
                    ack: Ack { membership: a.membership, from: Member { address: ip, ..a.from }, forward_to },
                }
            } else {
                list.insert_memberships(a.membership);
                SwimAction::DeliverAck { from: a.from, forward_to: a.forward_to }
            }
        },
        SwimKind::PingReq(q) => {
            if texts_contain(blacklist, &q.from.id) {
                return SwimAction::Ignore;
            }
            let target = list.member(&q.target.id);
            list.insert_memberships(q.membership);
            match target {
                Some(t) => SwimAction::PingFor { target: t, requester: Member { address: ip, ..q.from } },
                None => SwimAction::Ignore,
            }
        },
    }
}

} // verus!
