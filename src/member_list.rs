//! The member list: what this member knows of every member of the ring.
use vstd::prelude::*;

use crate::ids::{text_eq, texts_contain};
use crate::swim::{Health, Member, Membership};

verus! {

/// No two entries of `s` are for the same member.
pub open spec fn ids_unique(s: Seq<Membership>) -> bool {
    forall|i: int, j: int|
        0 <= i < s.len() && 0 <= j < s.len() && i != j ==> s[i].member.id@ != s[j].member.id@
}

/// `s` has an entry for `id`.
pub open spec fn has_id(s: Seq<Membership>, id: Seq<char>) -> bool {
    exists|i: int| 0 <= i < s.len() && s[i].member.id@ == id
}

/// The entries of `s` by member id.
pub open spec fn entries_map(s: Seq<Membership>) -> Map<Seq<char>, Membership> {
    Map::new(
        |id: Seq<char>| has_id(s, id),
        |id: Seq<char>| s[choose|i: int| 0 <= i < s.len() && s[i].member.id@ == id],
    )
}

/// Whether `incoming` tells something newer than `current`: a greater
/// incarnation, or the same incarnation with a worse health. Nothing is newer
/// than a departure.
pub open spec fn supersedes(incoming: Membership, current: Membership) -> bool {
    &&& current.health != Health::Departed
    &&& (incoming.member.incarnation > current.member.incarnation || (
    incoming.member.incarnation == current.member.incarnation
        && incoming.health.spec_rank() > current.health.spec_rank()))
}

/// Whether `incoming` speaks ill of this member, `current`, in a way that it
/// answers by raising its incarnation above both.
pub open spec fn refutes(incoming: Membership, current: Membership) -> bool {
    &&& incoming.health != Health::Alive
    &&& current.health != Health::Departed
    &&& incoming.member.incarnation < u64::MAX
    &&& current.member.incarnation < u64::MAX
}

/// The entry of this member after refuting `incoming`.
pub open spec fn refuted(incoming: Membership, current: Membership) -> Membership {
    Membership {
        member: Member {
            incarnation: (if incoming.member.incarnation > current.member.incarnation {
                incoming.member.incarnation
            } else {
                current.member.incarnation
            } + 1) as u64,
            ..current.member
        },
        health: Health::Alive,
    }
}

/// What the member list holds for `id` after an insert of `incoming`, given
/// what it held before, and whether that changed. `local` says whether `id`
/// is this member's own.
pub open spec fn insert_outcome(
    before: Option<Membership>,
    incoming: Membership,
    local: bool,
) -> (Option<Membership>, bool) {
    match before {
        None => (Some(incoming), true),
        Some(current) => if local {
            if refutes(incoming, current) {
                (Some(refuted(incoming, current)), true)
            } else {
                (Some(current), false)
            }
        } else if supersedes(incoming, current) {
            (Some(incoming), true)
        } else {
            (Some(current), false)
        },
    }
}

/// The member map after an insert of `member` with `health`, where `local` is
/// this member's own id, and whether anything changed.
pub open spec fn insert_into(
    m: Map<Seq<char>, Membership>,
    local: Seq<char>,
    member: Member,
    health: Health,
) -> (Map<Seq<char>, Membership>, bool) {
    let id = member.id@;
    let before = if m.contains_key(id) {
        Some(m[id])
    } else {
        None
    };
    let (after, changed) = insert_outcome(before, Membership { member, health }, id == local);
    (m.insert(id, after->Some_0), changed)
}

/// Incarnations never go down: after any insert, every member known before is
/// still known, with an incarnation at least as high as before.
pub proof fn lemma_insert_keeps_incarnations(
    m: Map<Seq<char>, Membership>,
    local: Seq<char>,
    member: Member,
    health: Health,
)
    ensures
        forall|k: Seq<char>|
            #![trigger m.contains_key(k)]
            m.contains_key(k) ==> insert_into(m, local, member, health).0.contains_key(k)
                && insert_into(m, local, member, health).0[k].member.incarnation
                >= m[k].member.incarnation,
{
}

/// Departed is absorbing: after any insert, a member that had departed is
/// still departed, and its entry is unchanged.
pub proof fn lemma_departed_is_absorbing(
    m: Map<Seq<char>, Membership>,
    local: Seq<char>,
    member: Member,
    health: Health,
)
    ensures
        forall|k: Seq<char>|
            #![trigger m.contains_key(k)]
            m.contains_key(k) && m[k].health == Health::Departed ==> insert_into(
                m,
                local,
                member,
                health,
            ).0[k] == m[k],
{
}

/// Refutation: when this member hears that it is suspect, confirmed or
/// departed, and it has not departed, its own entry becomes alive with an
/// incarnation strictly above both the one heard and its own.
pub proof fn lemma_refutation(
    m: Map<Seq<char>, Membership>,
    local: Seq<char>,
    member: Member,
    health: Health,
)
    requires
        member.id@ == local,
        m.contains_key(local),
        health != Health::Alive,
        m[local].health != Health::Departed,
        member.incarnation < u64::MAX,
        m[local].member.incarnation < u64::MAX,
    ensures
        ({
            let (after, changed) = insert_into(m, local, member, health);
            &&& changed
            &&& after[local].health == Health::Alive
            &&& after[local].member.incarnation > member.incarnation
            &&& after[local].member.incarnation > m[local].member.incarnation
            &&& after[local].member.id == m[local].member.id
        }),
{
}

/// The member map after inserting each of `s` in turn.
pub open spec fn insert_all(m: Map<Seq<char>, Membership>, local: Seq<char>, s: Seq<Membership>) -> Map<
    Seq<char>,
    Membership,
>
    decreases s.len(),
{
    if s.len() == 0 {
        m
    } else {
        insert_into(insert_all(m, local, s.drop_last()), local, s.last().member, s.last().health).0
    }
}

proof fn lemma_refutation_bounded(
    m: Map<Seq<char>, Membership>,
    local: Seq<char>,
    s: Seq<Membership>,
    bound: int,
)
    requires
        m.contains_key(local),
        m[local].health == Health::Alive,
        m[local].member.incarnation <= bound,
        forall|i: int| 0 <= i < s.len() ==> (#[trigger] s[i]).member.incarnation <= bound,
        bound + s.len() < u64::MAX,
    ensures
        insert_all(m, local, s).contains_key(local),
        insert_all(m, local, s)[local].health == Health::Alive,
        insert_all(m, local, s)[local].member.incarnation <= bound + s.len(),
        insert_all(m, local, s)[local].member.incarnation >= m[local].member.incarnation,
        forall|i: int|
            0 <= i < s.len() && (#[trigger] s[i]).member.id@ == local && s[i].health
                != Health::Alive ==> insert_all(m, local, s)[local].member.incarnation
                > s[i].member.incarnation && insert_all(m, local, s)[local].member.incarnation
                > m[local].member.incarnation,
    decreases s.len(),
{
    if s.len() > 0 {
        let pre = s.drop_last();
        assert(forall|i: int| 0 <= i < pre.len() ==> pre[i] == s[i]);
        lemma_refutation_bounded(m, local, pre, bound);
        let x = s.last();
        assert(x == s[s.len() - 1]);
    }
}

/// Refutation over a whole list of memberships, as a datagram or a rumor
/// brings them: when this member is alive and the list says it is suspect,
/// confirmed or departed, after taking the list in it is still alive, with an
/// incarnation above every such claim and above its own before.
pub proof fn lemma_refutation_over_list(
    m: Map<Seq<char>, Membership>,
    local: Seq<char>,
    s: Seq<Membership>,
)
    requires
        m.contains_key(local),
        m[local].health == Health::Alive,
        m[local].member.incarnation < u64::MAX - s.len(),
        forall|i: int| 0 <= i < s.len() ==> (#[trigger] s[i]).member.incarnation < u64::MAX - s.len(),
    ensures
        insert_all(m, local, s).contains_key(local),
        insert_all(m, local, s)[local].health == Health::Alive,
        insert_all(m, local, s)[local].member.incarnation >= m[local].member.incarnation,
        forall|i: int|
            0 <= i < s.len() && (#[trigger] s[i]).member.id@ == local && s[i].health
                != Health::Alive ==> insert_all(m, local, s)[local].member.incarnation
                > s[i].member.incarnation && insert_all(m, local, s)[local].member.incarnation
                > m[local].member.incarnation,
{
    lemma_refutation_bounded(m, local, s, u64::MAX - s.len() - 1);
}

/// Taking in two lists one after the other is taking in the two together.
pub proof fn lemma_insert_all_concat(
    m: Map<Seq<char>, Membership>,
    local: Seq<char>,
    s1: Seq<Membership>,
    s2: Seq<Membership>,
)
    ensures
        insert_all(m, local, s1 + s2) == insert_all(insert_all(m, local, s1), local, s2),
    decreases s2.len(),
{
    if s2.len() == 0 {
        assert(s1 + s2 =~= s1);
    } else {
        lemma_insert_all_concat(m, local, s1, s2.drop_last());
        assert((s1 + s2).drop_last() =~= s1 + s2.drop_last());
        assert((s1 + s2).last() == s2.last());
    }
}

/// Memberships of other members leave the entry of `key` as it is.
pub proof fn lemma_insert_all_other_keys(
    m: Map<Seq<char>, Membership>,
    local: Seq<char>,
    s: Seq<Membership>,
    key: Seq<char>,
)
    requires
        forall|i: int| 0 <= i < s.len() ==> (#[trigger] s[i]).member.id@ != key,
    ensures
        insert_all(m, local, s).contains_key(key) == m.contains_key(key),
        m.contains_key(key) ==> insert_all(m, local, s)[key] == m[key],
    decreases s.len(),
{
    if s.len() > 0 {
        assert(forall|i: int| 0 <= i < s.len() - 1 ==> s.drop_last()[i] == s[i]);
        lemma_insert_all_other_keys(m, local, s.drop_last(), key);
        assert(s.last() == s[s.len() - 1]);
    }
}

/// A suspicion spreads: when a list of memberships says that another member,
/// alive here at the same incarnation, is suspect, and nothing else in the
/// list speaks of that member, after taking the list in it is suspect here,
/// at that incarnation.
pub proof fn lemma_suspicion_spreads(
    m: Map<Seq<char>, Membership>,
    local: Seq<char>,
    s: Seq<Membership>,
    k: int,
)
    requires
        0 <= k < s.len(),
        s[k].health == Health::Suspect,
        s[k].member.id@ != local,
        m.contains_key(s[k].member.id@),
        m[s[k].member.id@].health == Health::Alive,
        m[s[k].member.id@].member.incarnation == s[k].member.incarnation,
        forall|i: int| 0 <= i < s.len() && i != k ==> (#[trigger] s[i]).member.id@ != s[k].member.id@,
    ensures
        insert_all(m, local, s).contains_key(s[k].member.id@),
        insert_all(m, local, s)[s[k].member.id@] == s[k],
{
    let key = s[k].member.id@;
    let before = s.take(k);
    let after = s.skip(k + 1);
    assert(s =~= before.push(s[k]) + after);
    assert(forall|i: int| 0 <= i < before.len() ==> before[i] == s[i]);
    assert(forall|i: int| 0 <= i < after.len() ==> after[i] == s[k + 1 + i]);
    lemma_insert_all_concat(m, local, before.push(s[k]), after);
    lemma_insert_all_other_keys(m, local, before, key);
    let p = insert_all(m, local, before);
    assert(before.push(s[k]).drop_last() =~= before);
    let q = insert_all(m, local, before.push(s[k]));
    assert(q == insert_into(p, local, s[k].member, s[k].health).0);
    lemma_insert_all_other_keys(q, local, after, key);
}

/// Alive and suspect members count as live.
pub open spec fn is_live(h: Health) -> bool {
    h == Health::Alive || h == Health::Suspect
}

/// Every member this member knows of, with the health it gives each.
pub struct MemberList {
    local_id: String,
    entries: Vec<Membership>,
}

/// An entry at a known position answers the lookup of its id.
proof fn lemma_entry_at(s: Seq<Membership>, i: int)
    requires
        ids_unique(s),
        0 <= i < s.len(),
    ensures
        entries_map(s).contains_key(s[i].member.id@),
        entries_map(s)[s[i].member.id@] == s[i],
{
    let id = s[i].member.id@;
    assert(has_id(s, id));
    let j = choose|j: int| 0 <= j < s.len() && s[j].member.id@ == id;
    assert(j == i);
}

/// Replacing an entry by one with the same id replaces it in the map.
proof fn lemma_update(s: Seq<Membership>, k: int, m: Membership)
    requires
        ids_unique(s),
        0 <= k < s.len(),
        m.member.id@ == s[k].member.id@,
    ensures
        ids_unique(s.update(k, m)),
        entries_map(s.update(k, m)) == entries_map(s).insert(m.member.id@, m),
{
    let t = s.update(k, m);
    assert(ids_unique(t));
    let a = entries_map(t);
    let b = entries_map(s).insert(m.member.id@, m);
    assert forall|id: Seq<char>| a.contains_key(id) <==> b.contains_key(id) by {
        if has_id(s, id) {
            let j = choose|j: int| 0 <= j < s.len() && s[j].member.id@ == id;
            assert(t[j].member.id@ == id);
        }
        if has_id(t, id) {
            let j = choose|j: int| 0 <= j < t.len() && t[j].member.id@ == id;
            assert(s[j].member.id@ == id);
        }
    }
    assert forall|id: Seq<char>| a.contains_key(id) implies a[id] == b[id] by {
        let j = choose|j: int| 0 <= j < t.len() && t[j].member.id@ == id;
        lemma_entry_at(t, j);
        if j != k {
            lemma_entry_at(s, j);
        }
    }
    assert(a =~= b);
}

/// Appending an entry for a new id adds it to the map.
proof fn lemma_push(s: Seq<Membership>, m: Membership)
    requires
        ids_unique(s),
        !has_id(s, m.member.id@),
    ensures
        ids_unique(s.push(m)),
        entries_map(s.push(m)) == entries_map(s).insert(m.member.id@, m),
{
    let t = s.push(m);
    assert forall|i: int, j: int|
        0 <= i < t.len() && 0 <= j < t.len() && i != j implies t[i].member.id@
        != t[j].member.id@ by {
        if i == s.len() as int {
            assert(s[j].member.id@ != m.member.id@);
        } else if j == s.len() as int {
            assert(s[i].member.id@ != m.member.id@);
        }
    }
    let a = entries_map(t);
    let b = entries_map(s).insert(m.member.id@, m);
    assert forall|id: Seq<char>| a.contains_key(id) <==> b.contains_key(id) by {
        if has_id(s, id) {
            let j = choose|j: int| 0 <= j < s.len() && s[j].member.id@ == id;
            assert(t[j].member.id@ == id);
        }
        if id == m.member.id@ {
            assert(t[s.len() as int].member.id@ == id);
        }
        if has_id(t, id) && id != m.member.id@ {
            let j = choose|j: int| 0 <= j < t.len() && t[j].member.id@ == id;
            assert(s[j].member.id@ == id);
        }
    }
    assert forall|id: Seq<char>| a.contains_key(id) implies a[id] == b[id] by {
        let j = choose|j: int| 0 <= j < t.len() && t[j].member.id@ == id;
        lemma_entry_at(t, j);
        if j < s.len() {
            lemma_entry_at(s, j);
        }
    }
    assert(a =~= b);
}

impl View for MemberList {
    type V = Map<Seq<char>, Membership>;

    closed spec fn view(&self) -> Map<Seq<char>, Membership> {
        entries_map(self.entries@)
    }
}

impl MemberList {
    /// The list holds one entry per member, this member's own among them.
    pub closed spec fn wf(&self) -> bool {
        &&& ids_unique(self.entries@)
        &&& self@.contains_key(self.local_id@)
    }

    /// The id of this member.
    pub closed spec fn local(&self) -> Seq<char> {
        self.local_id@
    }

    /// The id of this member.
    pub fn local_id(&self) -> (r: &String)
        ensures
            r@ == self.local(),
    {
        &self.local_id
    }

    /// A well-formed list knows this member itself.
    pub proof fn lemma_knows_local(&self)
        requires
            self.wf(),
        ensures
            self@.contains_key(self.local()),
    {
    }

    /// A list that knows only `local`, alive.
    pub fn new(local: Member) -> (r: MemberList)
        ensures
            r.wf(),
            r.local() == local.id@,
            r@ == Map::<Seq<char>, Membership>::empty().insert(
                local.id@,
                Membership { member: local, health: Health::Alive },
            ),
    {
        let local_id = local.id.clone();
        let mut entries: Vec<Membership> = Vec::new();
        let m = Membership { member: local, health: Health::Alive };
        proof {
            lemma_push(entries@, m);
        }
        entries.push(m);
        proof {
            assert(entries_map(Seq::<Membership>::empty()) =~= Map::empty());
        }
        MemberList { local_id, entries }
    }

    /// Position of the entry for `id`, if there is one.
    fn position(&self, id: &String) -> (r: Option<usize>)
        ensures
            match r {
                Some(i) => i < self.entries@.len() && self.entries@[i as int].member.id@ == id@,
                None => !has_id(self.entries@, id@),
            },
    {
        let mut i: usize = 0;
        while i < self.entries.len()
            invariant
                i <= self.entries@.len(),
                forall|j: int| 0 <= j < i ==> self.entries@[j].member.id@ != id@,
            decreases self.entries.len() - i,
        {
            if text_eq(&self.entries[i].member.id, id) {
                return Some(i);
            }
            i = i + 1;
        }
        None
    }

    /// The number of members known.
    pub fn len(&self) -> (r: usize)
        requires
            self.wf(),
        ensures
            r == self@.len(),
    {
        proof {
            self.lemma_len();
        }
        self.entries.len()
    }

    proof fn lemma_len(&self)
        requires
            self.wf(),
        ensures
            self@.len() == self.entries@.len(),
            self@.dom().finite(),
        decreases self.entries@.len(),
    {
        let s = self.entries@;
        let f = |i: int| s[i].member.id@;
        let dom = vstd::set_lib::set_int_range(0, s.len() as int);
        assert forall|id: Seq<char>| self@.dom().contains(id) <==> dom.map(f).contains(id) by {
            if self@.dom().contains(id) {
                let j = choose|j: int| 0 <= j < s.len() && s[j].member.id@ == id;
                assert(dom.contains(j) && f(j) == id);
            }
        }
        assert(self@.dom() =~= dom.map(f));
        vstd::set_lib::lemma_int_range(0, s.len() as int);
        assert(vstd::relations::injective_on(f, dom));
        vstd::set_lib::lemma_map_size(dom, self@.dom(), f);
    }

    /// A copy of this member's own entry, which is what it says of itself.
    pub fn local_membership(&self) -> (r: Membership)
        requires
            self.wf(),
        ensures
            r == self@[self.local()],
    {
        let i = match self.position(&self.local_id) {
            Some(i) => i,
            None => {
                proof {
                    let j = choose|j: int|
                        0 <= j < self.entries@.len() && self.entries@[j].member.id@
                            == self.local_id@;
                    assert(self.entries@[j].member.id@ == self.local_id@);
                }
                0
            },
        };
        proof {
            lemma_entry_at(self.entries@, i as int);
        }
        Membership { member: self.entries[i].member.duplicate(), health: self.entries[i].health }
    }

    /// The member known by `id`, if any.
    pub fn member(&self, id: &String) -> (r: Option<Member>)
        requires
            self.wf(),
        ensures
            r == (if self@.contains_key(id@) {
                Some(self@[id@].member)
            } else {
                None::<Member>
            }),
    {
        match self.position(id) {
            Some(i) => {
                proof {
                    lemma_entry_at(self.entries@, i as int);
                }
                Some(self.entries[i].member.duplicate())
            },
            None => None,
        }
    }

    /// Inserts each membership in turn.
    pub fn insert_memberships(&mut self, ms: Vec<Membership>)
        requires
            old(self).wf(),
        ensures
            final(self).wf(),
            final(self).local() == old(self).local(),
            final(self)@ == insert_all(old(self)@, old(self).local(), ms@),
    {
        let ghost all = ms@;
        let ghost start = self@;
        let mut rest = ms;
        let ghost mut done: int = 0;
        while rest.len() > 0
            invariant
                self.wf(),
                self.local() == old(self).local(),
                start == old(self)@,
                all == ms@,
                0 <= done <= all.len(),
                rest@ == all.skip(done),
                self@ == insert_all(start, self.local(), all.take(done)),
            decreases rest.len(),
        {
            let m = rest.remove(0);
            assert(all.take(done + 1).drop_last() == all.take(done));
            assert(all.take(done + 1).last() == m);
            self.insert(m.member, m.health);
            proof {
                done = done + 1;
            }
            assert(rest@ == all.skip(done));
        }
        assert(all.take(done) == all);
    }

    /// The members that count as live (alive or suspect) and are not named
    /// in `exclude`: the candidates for gossip targets and probe relays.
    pub fn live_except(&self, exclude: &Vec<String>) -> (r: Vec<Member>)
        requires
            self.wf(),
        ensures
            forall|j: int|
                #![trigger r@[j]]
                0 <= j < r@.len() ==> {
                    let id = r@[j].id@;
                    &&& self@.contains_key(id)
                    &&& self@[id].member == r@[j]
                    &&& is_live(self@[id].health)
                    &&& !exclude@.map_values(|s: String| s@).contains(id)
                },
            forall|k: Seq<char>|
                #![trigger self@.contains_key(k)]
                self@.contains_key(k) && is_live(self@[k].health) && !exclude@.map_values(
                    |s: String| s@,
                ).contains(k) ==> exists|j: int| 0 <= j < r@.len() && r@[j].id@ == k,
    {
        let mut out: Vec<Member> = Vec::new();
        let mut i: usize = 0;
        while i < self.entries.len()
            invariant
                self.wf(),
                i <= self.entries@.len(),
                forall|j: int|
                    #![trigger out@[j]]
                    0 <= j < out@.len() ==> {
                        let id = out@[j].id@;
                        &&& self@.contains_key(id)
                        &&& self@[id].member == out@[j]
                        &&& is_live(self@[id].health)
                        &&& !exclude@.map_values(|s: String| s@).contains(id)
                    },
                forall|p: int|
                    0 <= p < i && is_live(self.entries@[p].health) && !exclude@.map_values(
                        |s: String| s@,
                    ).contains(#[trigger] self.entries@[p].member.id@) ==> exists|j: int|
                        0 <= j < out@.len() && out@[j].id@ == self.entries@[p].member.id@,
            decreases self.entries.len() - i,
        {
            proof {
                lemma_entry_at(self.entries@, i as int);
            }
            let h = self.entries[i].health;
            let ghost before = out@;
            if (h == Health::Alive || h == Health::Suspect) && !texts_contain(
                exclude,
                &self.entries[i].member.id,
            ) {
                let m = self.entries[i].member.duplicate();
                out.push(m);
                assert(out@[out@.len() - 1] == m);
            }
            assert forall|p: int|
                0 <= p < i + 1 && is_live(self.entries@[p].health) && !exclude@.map_values(
                    |s: String| s@,
                ).contains(#[trigger] self.entries@[p].member.id@) implies exists|j: int|
                0 <= j < out@.len() && out@[j].id@ == self.entries@[p].member.id@ by {
                if p < i {
                    let j = choose|j: int|
                        0 <= j < before.len() && before[j].id@ == self.entries@[p].member.id@;
                    assert(out@[j] == before[j]);
                } else {
                    assert(out@[out@.len() - 1].id@ == self.entries@[p].member.id@);
                }
            }
            i = i + 1;
        }
        assert forall|k: Seq<char>|
            #![trigger self@.contains_key(k)]
            self@.contains_key(k) && is_live(self@[k].health) && !exclude@.map_values(
                |s: String| s@,
            ).contains(k) implies exists|j: int| 0 <= j < out@.len() && out@[j].id@ == k by {
            let p = choose|p: int|
                0 <= p < self.entries@.len() && self.entries@[p].member.id@ == k;
            lemma_entry_at(self.entries@, p);
        }
        out
    }

    /// The health this member gives `id`, if it knows it.
    pub fn health_of(&self, id: &String) -> (r: Option<Health>)
        requires
            self.wf(),
        ensures
            r == (if self@.contains_key(id@) {
                Some(self@[id@].health)
            } else {
                None::<Health>
            }),
    {
        match self.position(id) {
            Some(i) => {
                proof {
                    lemma_entry_at(self.entries@, i as int);
                }
                Some(self.entries[i].health)
            },
            None => None,
        }
    }

    /// Takes in what is said of a member. A member not yet known is added; a
    /// known one takes the news when it supersedes what is held; a departed
    /// member stays departed. News that this member itself is not alive is
    /// refuted: its own entry stays alive with an incarnation above both.
    /// Returns whether anything changed.
    pub fn insert(&mut self, member: Member, health: Health) -> (r: bool)
        requires
            old(self).wf(),
        ensures
            final(self).wf(),
            final(self).local() == old(self).local(),
            (final(self)@, r) == insert_into(old(self)@, old(self).local(), member, health),
    {
        let ghost old_entries = self.entries@;
        let incoming = Membership { member, health };
        match self.position(&incoming.member.id) {
            None => {
                proof {
                    lemma_push(self.entries@, incoming);
                    assert(!self@.contains_key(incoming.member.id@));
                }
                self.entries.push(incoming);
                proof {
                    lemma_entry_at(old_entries, 0);
                }
                assert(self@.contains_key(self.local_id@));
                true
            },
            Some(i) => {
                proof {
                    lemma_entry_at(self.entries@, i as int);
                }
                let current_health = self.entries[i].health;
                let current_inc = self.entries[i].member.incarnation;
                let is_local = text_eq(&incoming.member.id, &self.local_id);
                if is_local {
                    if incoming.health != Health::Alive && current_health != Health::Departed
                        && incoming.member.incarnation < u64::MAX && current_inc < u64::MAX {
                        let top = if incoming.member.incarnation > current_inc {
                            incoming.member.incarnation
                        } else {
                            current_inc
                        };
                        let mut own = self.entries[i].member.duplicate();
                        own.incarnation = top + 1;
                        let m = Membership { member: own, health: Health::Alive };
                        proof {
                            lemma_update(self.entries@, i as int, m);
                        }
                        self.entries.set(i, m);
                        true
                    } else {
                        proof {
                            assert(self@.insert(incoming.member.id@, old_entries[i as int])
                                =~= self@);
                        }
                        false
                    }
                } else {
                    let newer = current_health != Health::Departed && (incoming.member.incarnation
                        > current_inc || (incoming.member.incarnation == current_inc
                        && incoming.health.rank() > current_health.rank()));
                    if newer {
                        proof {
                            lemma_update(self.entries@, i as int, incoming);
                        }
                        self.entries.set(i, incoming);
                        proof {
                            if self.local_id@ != incoming.member.id@ {
                                let j = choose|j: int|
                                    0 <= j < old_entries.len() && old_entries[j].member.id@
                                        == self.local_id@;
                                lemma_entry_at(old_entries, j);
                            }
                        }
                        true
                    } else {
                        proof {
                            assert(self@.insert(incoming.member.id@, old_entries[i as int])
                                =~= self@);
                        }
                        false
                    }
                }
            },
        }
    }

    /// Sets the health of a known member, unless it has departed. Returns
    /// whether it changed.
    pub fn set_health(&mut self, id: &String, health: Health) -> (r: bool)
        requires
            old(self).wf(),
        ensures
            final(self).wf(),
            final(self).local() == old(self).local(),
            r == (old(self)@.contains_key(id@) && old(self)@[id@].health != Health::Departed
                && old(self)@[id@].health != health),
            r ==> final(self)@ == old(self)@.insert(
                id@,
                Membership { health, ..old(self)@[id@] },
            ),
            !r ==> final(self)@ == old(self)@,
    {
        match self.position(id) {
            None => false,
            Some(i) => {
                proof {
                    lemma_entry_at(self.entries@, i as int);
                }
                let current = self.entries[i].health;
                if current == Health::Departed || current == health {
                    false
                } else {
                    let m = Membership { member: self.entries[i].member.duplicate(), health };
                    proof {
                        lemma_update(self.entries@, i as int, m);
                    }
                    self.entries.set(i, m);
                    true
                }
            },
        }
    }
}

} // verus!
