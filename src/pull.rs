//! What this member does with each rumor pushed to it.
//!
//! The receiving loop reads a message, decodes it and hands the rumor here;
//! this module files it in the rumor store and, where it speaks of
//! membership, in the member list.
use vstd::prelude::*;

use crate::ids::texts_contain;
use crate::inbound::blocked;
use crate::member_list::{insert_into, MemberList};
use crate::rumor::{RumorEnvelope, RumorKind};
use crate::rumor_store::{store_inserted, RumorStore};
use crate::swim::{Health, Membership};

verus! {

/// Takes in a rumor from a peer: unless its sender is blacklisted, it is filed
/// in the store with `heat` rounds of gossip ahead of it; a membership rumor
/// is also taken into the member list, and a departure marks its member
/// departed there. Returns whether the store changed.
pub fn process_rumor(
    list: &mut MemberList,
    store: &mut RumorStore,
    blacklist: &Vec<String>,
    env: RumorEnvelope,
    heat: u64,
) -> (r: bool)
    requires
        old(list).wf(),
        old(store).wf(),
    ensures
        final(list).wf(),
        final(store).wf(),
        final(list).local() == old(list).local(),
        env.from_id matches Some(f) && blocked(blacklist@, f@) ==> {
            &&& !r
            &&& final(list)@ == old(list)@
            &&& final(store).entries() == old(store).entries()
        },
        !(env.from_id matches Some(f) && blocked(blacklist@, f@)) ==> {
            &&& store_inserted(old(store).entries(), final(store).entries(), env.kind, heat, r)
            &&& match env.kind {
                RumorKind::Membership(m) => final(list)@ == insert_into(
                    old(list)@,
                    old(list).local(),
                    m.member,
                    m.health,
                ).0,
                RumorKind::Departure(d) => final(list)@ == if old(list)@.contains_key(d.member_id@)
                    && old(list)@[d.member_id@].health != Health::Departed {
                    old(list)@.insert(
                        d.member_id@,
                        Membership { health: Health::Departed, ..old(list)@[d.member_id@] },
                    )
                } else {
                    old(list)@
                },
                _ => final(list)@ == old(list)@,
            }
        },
{
    let is_blocked = match &env.from_id {
        Some(f) => texts_contain(blacklist, f),
        None => false,
    };
    if is_blocked {
        return false;
    }
    match &env.kind {
        RumorKind::Membership(m) => {
            list.insert(m.member.duplicate(), m.health);
        },
        RumorKind::Departure(d) => {
            let id = d.member_id.clone();
            list.set_health(&id, Health::Departed);
        },
        _ => {},
    }
    store.insert(env.kind, heat)
}

} // verus!
