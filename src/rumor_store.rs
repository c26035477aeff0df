//! The rumor store: the latest version of every rumor, and how many more
//! gossip rounds should carry each.
use vstd::prelude::*;

use crate::ids::{text_eq, texts_contain};
use crate::member_list::supersedes;
use crate::rumor::departure::Departure;
use crate::rumor::election::election_merge;
use crate::rumor::service::service_merge;
use crate::rumor::service_config::service_config_merge;
use crate::rumor::service_file::service_file_merge;
use crate::rumor::{RumorKey, RumorKind, RumorType};
use crate::swim::Membership;

verus! {

/// A rumor with its dissemination counter and the peers it went to since it
/// last changed.
#[derive(Clone, Debug)]
pub struct StoredRumor {
    pub rumor: RumorKind,
    pub heat: u64,
    pub sent_to: Vec<String>,
}

/// Where a rumor is filed: its kind, its coarse key and its identity within the key.
pub open spec fn rumor_key(k: RumorKind) -> (RumorType, Seq<char>, Seq<char>) {
    match k {
        RumorKind::Membership(m) => (RumorType::Member, m.member.id@, Seq::empty()),
        RumorKind::Service(s) => (RumorType::Service, s.service_group@, s.member_id@),
        RumorKind::ServiceConfig(c) => (
            RumorType::ServiceConfig,
            c.service_group@,
            "service_config"@,
        ),
        RumorKind::ServiceFile(f) => (RumorType::ServiceFile, f.service_group@, f.filename@),
        RumorKind::Election(e) => (RumorType::Election, e.service_group@, "election"@),
        RumorKind::ElectionUpdate(e) => (
            RumorType::ElectionUpdate,
            e.0.service_group@,
            "election"@,
        ),
        RumorKind::Departure(d) => (RumorType::Departure, "departure"@, d.member_id@),
    }
}

/// `a` and `b` are the same rumor, field for field.
pub open spec fn same_rumor(a: RumorKind, b: RumorKind) -> bool {
    match (a, b) {
        (RumorKind::Membership(x), RumorKind::Membership(y)) => x == y,
        (RumorKind::Service(x), RumorKind::Service(y)) => {
            &&& x.member_id == y.member_id
            &&& x.service_group == y.service_group
            &&& x.incarnation == y.incarnation
            &&& x.initialized == y.initialized
            &&& x.pkg == y.pkg
            &&& x.cfg@ == y.cfg@
            &&& x.sys == y.sys
        },
        (RumorKind::ServiceConfig(x), RumorKind::ServiceConfig(y)) => {
            &&& x.from_id == y.from_id
            &&& x.service_group == y.service_group
            &&& x.incarnation == y.incarnation
            &&& x.encrypted == y.encrypted
            &&& x.config@ == y.config@
        },
        (RumorKind::ServiceFile(x), RumorKind::ServiceFile(y)) => {
            &&& x.from_id == y.from_id
            &&& x.service_group == y.service_group
            &&& x.incarnation == y.incarnation
            &&& x.encrypted == y.encrypted
            &&& x.filename == y.filename
            &&& x.body@ == y.body@
        },
        (RumorKind::Election(x), RumorKind::Election(y)) => x@ == y@,
        (RumorKind::ElectionUpdate(x), RumorKind::ElectionUpdate(y)) => x@ == y@,
        (RumorKind::Departure(x), RumorKind::Departure(y)) => x == y,
        _ => false,
    }
}

/// `new` is what the stored rumor `cur` becomes on receiving `inc`, by the
/// merge rule of its kind, and `changed` says whether it changed.
pub open spec fn rumor_merged(cur: RumorKind, inc: RumorKind, new: RumorKind, changed: bool) -> bool {
    match (cur, inc) {
        (RumorKind::Membership(c), RumorKind::Membership(i)) => if supersedes(i, c) {
            new == inc && changed
        } else {
            new == cur && !changed
        },
        (RumorKind::Service(c), RumorKind::Service(i)) => new == RumorKind::Service(
            service_merge(c, i).0,
        ) && changed == service_merge(c, i).1,
        (RumorKind::ServiceConfig(c), RumorKind::ServiceConfig(i)) => new
            == RumorKind::ServiceConfig(service_config_merge(c, i).0) && changed
            == service_config_merge(c, i).1,
        (RumorKind::ServiceFile(c), RumorKind::ServiceFile(i)) => new == RumorKind::ServiceFile(
            service_file_merge(c, i).0,
        ) && changed == service_file_merge(c, i).1,
        (RumorKind::Election(c), RumorKind::Election(i)) => match new {
            RumorKind::Election(n) => (n@, changed) == election_merge(c@, i@),
            _ => false,
        },
        (RumorKind::ElectionUpdate(c), RumorKind::ElectionUpdate(i)) => match new {
            RumorKind::ElectionUpdate(n) => (n@, changed) == election_merge(c@, i@),
            _ => false,
        },
        (RumorKind::Departure(c), RumorKind::Departure(i)) => new == cur && changed == (
        c.member_id@ != i.member_id@),
        _ => new == cur && !changed,
    }
}

/// A stored rumor is due for `peer` while it is warm and has not gone to that peer.
pub open spec fn due(e: StoredRumor, peer: Seq<char>) -> bool {
    e.heat > 0 && !e.sent_to@.map_values(|s: String| s@).contains(peer)
}

/// The rumors of `s` due for `peer`, in order.
pub open spec fn due_rumors(s: Seq<StoredRumor>, peer: Seq<char>) -> Seq<RumorKind>
    decreases s.len(),
{
    if s.len() == 0 {
        Seq::empty()
    } else if due(s.last(), peer) {
        due_rumors(s.drop_last(), peer).push(s.last().rumor)
    } else {
        due_rumors(s.drop_last(), peer)
    }
}

/// `e` after it went to `peer`, when it was due.
pub open spec fn after_gossip(e: StoredRumor, n: StoredRumor, peer: Seq<char>) -> bool {
    if due(e, peer) {
        &&& n.rumor == e.rumor
        &&& n.heat == e.heat - 1
        &&& n.sent_to@.map_values(|s: String| s@) == e.sent_to@.map_values(|s: String| s@).push(
            peer,
        )
    } else {
        n == e
    }
}

/// No two stored rumors share a key.
pub open spec fn keys_unique(s: Seq<StoredRumor>) -> bool {
    forall|i: int, j: int|
        0 <= i < s.len() && 0 <= j < s.len() && i != j ==> rumor_key(s[i].rumor) != rumor_key(
            s[j].rumor,
        )
}

impl RumorKind {
    /// A copy of this rumor.
    pub fn duplicate(&self) -> (r: RumorKind)
        ensures
            same_rumor(r, *self),
    {
        match self {
            RumorKind::Membership(m) => RumorKind::Membership(
                Membership { member: m.member.duplicate(), health: m.health },
            ),
            RumorKind::Service(s) => RumorKind::Service(s.duplicate()),
            RumorKind::ServiceConfig(c) => RumorKind::ServiceConfig(c.duplicate()),
            RumorKind::ServiceFile(f) => RumorKind::ServiceFile(f.duplicate()),
            RumorKind::Election(e) => RumorKind::Election(e.duplicate()),
            RumorKind::ElectionUpdate(e) => RumorKind::ElectionUpdate(
                crate::rumor::election::ElectionUpdate(e.0.duplicate()),
            ),
            RumorKind::Departure(d) => RumorKind::Departure(d.duplicate()),
        }
    }

    /// Where this rumor is filed.
    pub fn key(&self) -> (r: RumorKey)
        ensures
            (r.kind, r.key@, r.id@) == rumor_key(*self),
    {
        match self {
            RumorKind::Membership(m) => RumorKey {
                kind: RumorType::Member,
                key: m.member.id.clone(),
                id: String::new(),
            },
            RumorKind::Service(s) => RumorKey {
                kind: RumorType::Service,
                key: s.service_group.clone(),
                id: s.member_id.clone(),
            },
            RumorKind::ServiceConfig(c) => RumorKey {
                kind: RumorType::ServiceConfig,
                key: c.service_group.clone(),
                id: "service_config".to_owned(),
            },
            RumorKind::ServiceFile(f) => RumorKey {
                kind: RumorType::ServiceFile,
                key: f.service_group.clone(),
                id: f.filename.clone(),
            },
            RumorKind::Election(e) => RumorKey {
                kind: RumorType::Election,
                key: e.service_group.clone(),
                id: "election".to_owned(),
            },
            RumorKind::ElectionUpdate(e) => RumorKey {
                kind: RumorType::ElectionUpdate,
                key: e.0.service_group.clone(),
                id: "election".to_owned(),
            },
            RumorKind::Departure(d) => RumorKey {
                kind: RumorType::Departure,
                key: "departure".to_owned(),
                id: d.member_id.clone(),
            },
        }
    }

    /// Whether this rumor is filed under the same key as `other`.
    pub fn same_key(&self, other: &RumorKind) -> (r: bool)
        ensures
            r == (rumor_key(*self) == rumor_key(*other)),
    {
        match (self, other) {
            (RumorKind::Membership(a), RumorKind::Membership(b)) => {
                let r = text_eq(&a.member.id, &b.member.id);
                r
            },
            (RumorKind::Service(a), RumorKind::Service(b)) => text_eq(
                &a.service_group,
                &b.service_group,
            ) && text_eq(&a.member_id, &b.member_id),
            (RumorKind::ServiceConfig(a), RumorKind::ServiceConfig(b)) => text_eq(
                &a.service_group,
                &b.service_group,
            ),
            (RumorKind::ServiceFile(a), RumorKind::ServiceFile(b)) => text_eq(
                &a.service_group,
                &b.service_group,
            ) && text_eq(&a.filename, &b.filename),
            (RumorKind::Election(a), RumorKind::Election(b)) => text_eq(
                &a.service_group,
                &b.service_group,
            ),
            (RumorKind::ElectionUpdate(a), RumorKind::ElectionUpdate(b)) => text_eq(
                &a.0.service_group,
                &b.0.service_group,
            ),
            (RumorKind::Departure(a), RumorKind::Departure(b)) => text_eq(
                &a.member_id,
                &b.member_id,
            ),
            _ => false,
        }
    }

    /// Takes in `inc` by the merge rule of this rumor's kind; returns whether it changed.
    pub fn merge(&mut self, inc: RumorKind) -> (r: bool)
        ensures
            rumor_merged(*old(self), inc, *final(self), r),
    {
        match self {
            RumorKind::Membership(c) => match inc {
                RumorKind::Membership(i) => {
                    if c.health != crate::swim::Health::Departed && (i.member.incarnation
                        > c.member.incarnation || (i.member.incarnation == c.member.incarnation
                        && i.health.rank() > c.health.rank())) {
                        *c = i;
                        true
                    } else {
                        false
                    }
                },
                _ => false,
            },
            RumorKind::Service(c) => match inc {
                RumorKind::Service(i) => c.merge(i),
                _ => false,
            },
            RumorKind::ServiceConfig(c) => match inc {
                RumorKind::ServiceConfig(i) => c.merge(i),
                _ => false,
            },
            RumorKind::ServiceFile(c) => match inc {
                RumorKind::ServiceFile(i) => c.merge(i),
                _ => false,
            },
            RumorKind::Election(c) => match inc {
                RumorKind::Election(i) => c.merge(i),
                _ => false,
            },
            RumorKind::ElectionUpdate(c) => match inc {
                RumorKind::ElectionUpdate(i) => c.merge(i),
                _ => false,
            },
            RumorKind::Departure(c) => match inc {
                RumorKind::Departure(i) => c.merge(i),
                _ => false,
            },
        }
    }
}

/// `t` is store `s` after taking in `rumor` with `heat`, and `r` says
/// whether that changed it.
pub open spec fn store_inserted(
    s: Seq<StoredRumor>,
    t: Seq<StoredRumor>,
    rumor: RumorKind,
    heat: u64,
    r: bool,
) -> bool {
    if exists|i: int| 0 <= i < s.len() && rumor_key(s[i].rumor) == rumor_key(rumor) {
        let i = choose|i: int| 0 <= i < s.len() && rumor_key(s[i].rumor) == rumor_key(rumor);
        &&& t.len() == s.len()
        &&& forall|j: int| 0 <= j < s.len() && j != i ==> t[j] == s[j]
        &&& rumor_merged(s[i].rumor, rumor, t[i].rumor, r)
        &&& r ==> t[i].heat == heat && t[i].sent_to@.len() == 0
        &&& !r ==> t[i].heat == s[i].heat && t[i].sent_to == s[i].sent_to
    } else {
        &&& r
        &&& t.len() == s.len() + 1
        &&& forall|j: int| 0 <= j < s.len() ==> t[j] == s[j]
        &&& t[s.len() as int].rumor == rumor
        &&& t[s.len() as int].heat == heat
        &&& t[s.len() as int].sent_to@.len() == 0
    }
}

/// Merging keeps a rumor under its key.
pub proof fn lemma_merge_keeps_key(cur: RumorKind, inc: RumorKind, new: RumorKind, changed: bool)
    requires
        rumor_key(cur) == rumor_key(inc),
        rumor_merged(cur, inc, new, changed),
    ensures
        rumor_key(new) == rumor_key(cur),
{
}

/// Every rumor this member holds, one per key.
pub struct RumorStore {
    entries: Vec<StoredRumor>,
}

impl RumorStore {
    /// The stored rumors, in the order they were first heard.
    pub closed spec fn entries(&self) -> Seq<StoredRumor> {
        self.entries@
    }

    /// The store holds one rumor per key.
    pub open spec fn wf(&self) -> bool {
        keys_unique(self.entries())
    }

    /// An empty store.
    pub fn new() -> (r: RumorStore)
        ensures
            r.wf(),
            r.entries().len() == 0,
    {
        RumorStore { entries: Vec::new() }
    }

    /// The number of rumors held.
    pub fn len(&self) -> (r: usize)
        ensures
            r == self.entries().len(),
    {
        self.entries.len()
    }

    /// Takes in a rumor. A rumor of a new key is stored with `heat` rounds of
    /// gossip ahead of it; one of a known key is merged into what is held, and
    /// when that changes it, the counter starts again at `heat` and every peer
    /// is due it again. Returns whether the store changed.
    pub fn insert(&mut self, rumor: RumorKind, heat: u64) -> (r: bool)
        requires
            old(self).wf(),
        ensures
            final(self).wf(),
            store_inserted(old(self).entries(), final(self).entries(), rumor, heat, r),
    {
        let mut i: usize = 0;
        let mut found = false;
        while i < self.entries.len() && !found
            invariant
                i <= self.entries@.len(),
                found ==> i < self.entries@.len() && rumor_key(self.entries@[i as int].rumor)
                    == rumor_key(rumor),
                forall|j: int| 0 <= j < i ==> rumor_key(self.entries@[j].rumor) != rumor_key(rumor),
            decreases self.entries.len() - i + if found {
                0int
            } else {
                1int
            },
        {
            if self.entries[i].rumor.same_key(&rumor) {
                found = true;
            } else {
                i = i + 1;
            }
        }
        if !found {
            let ghost s = self.entries@;
            self.entries.push(StoredRumor { rumor, heat, sent_to: Vec::new() });
            assert forall|a: int, b: int|
                0 <= a < self.entries@.len() && 0 <= b < self.entries@.len() && a != b implies rumor_key(
                self.entries@[a].rumor,
            ) != rumor_key(self.entries@[b].rumor) by {
                if a < s.len() && b < s.len() {
                    assert(self.entries@[a] == s[a] && self.entries@[b] == s[b]);
                }
            }
            true
        } else {
            let ghost s = self.entries@;
            assert(rumor_key(s[i as int].rumor) == rumor_key(rumor));
            assert(forall|j: int|
                0 <= j < s.len() && rumor_key(s[j].rumor) == rumor_key(rumor) ==> j == i);
            let mut e = self.entries.remove(i);
            let changed = e.rumor.merge(rumor);
            proof {
                lemma_merge_keeps_key(s[i as int].rumor, rumor, e.rumor, changed);
            }
            if changed {
                e.heat = heat;
                e.sent_to = Vec::new();
            }
            self.entries.insert(i, e);
            assert(self.entries@ =~= s.update(i as int, e));
            assert forall|a: int, b: int|
                0 <= a < self.entries@.len() && 0 <= b < self.entries@.len() && a != b implies rumor_key(
                self.entries@[a].rumor,
            ) != rumor_key(self.entries@[b].rumor) by {
                if a != i && b != i {
                    assert(self.entries@[a] == s[a] && self.entries@[b] == s[b]);
                }
            }
            changed
        }
    }

    /// The stored rumor at position `i`.
    pub fn entry(&self, i: usize) -> (r: &StoredRumor)
        requires
            i < self.entries().len(),
        ensures
            *r == self.entries()[i as int],
    {
        &self.entries[i]
    }

    /// The rumors to send to `peer` this round: those still warm that have
    /// not gone to it since they last changed. Each one sent has its counter
    /// lowered by one and `peer` recorded. A cold rumor stays stored.
    pub fn for_gossip(&mut self, peer: &String) -> (r: Vec<RumorKind>)
        requires
            old(self).wf(),
        ensures
            final(self).wf(),
            final(self).entries().len() == old(self).entries().len(),
            forall|i: int|
                0 <= i < old(self).entries().len() ==> after_gossip(
                    #[trigger] old(self).entries()[i],
                    final(self).entries()[i],
                    peer@,
                ),
            r@.len() == due_rumors(old(self).entries(), peer@).len(),
            forall|j: int|
                0 <= j < r@.len() ==> same_rumor(
                    #[trigger] r@[j],
                    due_rumors(old(self).entries(), peer@)[j],
                ),
    {
        let ghost s = self.entries@;
        let mut out: Vec<RumorKind> = Vec::new();
        let mut i: usize = 0;
        while i < self.entries.len()
            invariant
                s == old(self).entries(),
                self.entries@.len() == s.len(),
                i <= s.len(),
                forall|j: int| 0 <= j < i ==> after_gossip(#[trigger] s[j], self.entries@[j], peer@),
                forall|j: int| i <= j < s.len() ==> #[trigger] self.entries@[j] == s[j],
                forall|j: int| 0 <= j < s.len() ==> #[trigger] self.entries@[j].rumor == s[j].rumor,
                out@.len() == due_rumors(s.take(i as int), peer@).len(),
                forall|k: int|
                    0 <= k < out@.len() ==> same_rumor(
                        #[trigger] out@[k],
                        due_rumors(s.take(i as int), peer@)[k],
                    ),
            decreases s.len() - i,
        {
            assert(s.take(i + 1).drop_last() =~= s.take(i as int));
            assert(s.take(i + 1).last() == s[i as int]);
            let is_due = self.entries[i].heat > 0 && !texts_contain(&self.entries[i].sent_to, peer);
            if is_due {
                out.push(self.entries[i].rumor.duplicate());
                let ghost before = self.entries@;
                let mut e = self.entries.remove(i);
                e.heat = e.heat - 1;
                let ghost sent = e.sent_to@;
                e.sent_to.push(peer.clone());
                assert(e.sent_to@.map_values(|x: String| x@) =~= sent.map_values(|x: String| x@).push(
                    peer@,
                ));
                self.entries.insert(i, e);
                assert(self.entries@ =~= before.update(i as int, e));
            }
            i = i + 1;
        }
        assert(s.take(s.len() as int) =~= s);
        assert forall|a: int, b: int|
            0 <= a < self.entries@.len() && 0 <= b < self.entries@.len() && a != b implies rumor_key(
            self.entries@[a].rumor,
        ) != rumor_key(self.entries@[b].rumor) by {
            assert(self.entries@[a].rumor == s[a].rumor);
            assert(self.entries@[b].rumor == s[b].rumor);
        }
        out
    }
}

} // verus!
