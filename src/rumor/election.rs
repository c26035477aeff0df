//! Leader election.
//!
//! An election is a rumor per service group that converges on a single
//! candidate: the more suitable candidate takes the votes of the other, ties
//! going to the member id that sorts last, and a finished election of the
//! current term absorbs every other.
use vstd::prelude::*;

use crate::error::{Error, Field};
use crate::ids::{
    lemma_text_lt_irreflexive, lemma_text_lt_total, lemma_text_lt_transitive, text_eq, text_less, text_lt, texts_contain,
    texts_eq,
};
use crate::proto;
pub use crate::proto::Status as ElectionStatus;
use crate::rumor::RumorType;

verus! {

/// An election for the leader of a service group.
#[derive(Clone, Debug)]
pub struct Election {
    pub from_id: String,
    pub member_id: String,
    pub service_group: String,
    pub term: u64,
    pub suitability: u64,
    pub status: ElectionStatus,
    pub votes: Vec<String>,
}

impl PartialEq for Election {
    /// Elections are equal when they agree on everything but the sender.
    fn eq(&self, other: &Election) -> (r: bool) {
        self.same_as(other)
    }
}

impl vstd::std_specs::cmp::PartialEqSpecImpl for Election {
    open spec fn obeys_eq_spec() -> bool {
        true
    }

    open spec fn eq_spec(&self, other: &Election) -> bool {
        same_election(self@, other@)
    }
}

/// The content of an election as plain values.
pub struct ElectionView {
    pub from_id: Seq<char>,
    pub member_id: Seq<char>,
    pub service_group: Seq<char>,
    pub term: u64,
    pub suitability: u64,
    pub status: ElectionStatus,
    pub votes: Seq<Seq<char>>,
}

impl View for Election {
    type V = ElectionView;

    open spec fn view(&self) -> ElectionView {
        ElectionView {
            from_id: self.from_id@,
            member_id: self.member_id@,
            service_group: self.service_group@,
            term: self.term,
            suitability: self.suitability,
            status: self.status,
            votes: self.votes@.map_values(|s: String| s@),
        }
    }
}

/// `votes` with `id` appended, unless it already holds it.
pub open spec fn with_vote(votes: Seq<Seq<char>>, id: Seq<char>) -> Seq<Seq<char>> {
    if votes.contains(id) {
        votes
    } else {
        votes.push(id)
    }
}

/// `votes` followed by those of `other` that it lacks, in the order of `other`.
pub open spec fn steal(votes: Seq<Seq<char>>, other: Seq<Seq<char>>) -> Seq<Seq<char>>
    decreases other.len(),
{
    if other.len() == 0 {
        votes
    } else {
        with_vote(steal(votes, other.drop_last()), other.last())
    }
}

/// Two elections are the same when they agree on everything but the sender.
pub open spec fn same_election(a: ElectionView, b: ElectionView) -> bool {
    &&& a.service_group == b.service_group
    &&& a.member_id == b.member_id
    &&& a.suitability == b.suitability
    &&& a.votes == b.votes
    &&& a.status == b.status
    &&& a.term == b.term
}

/// `e` with the votes of `other` added to its own.
pub open spec fn stealing(e: ElectionView, other: ElectionView) -> ElectionView {
    ElectionView { votes: steal(e.votes, other.votes), ..e }
}

/// The election `l` becomes on receiving `i`, and whether it is worth spreading.
pub open spec fn election_merge(l: ElectionView, i: ElectionView) -> (ElectionView, bool) {
    if same_election(l, i) {
        (l, false)
    } else if i.term >= l.term && i.status == ElectionStatus::Finished {
        (i, true)
    } else if i.term == l.term && l.status == ElectionStatus::Finished {
        (l, false)
    } else if l.term > i.term {
        (l, true)
    } else if l.suitability > i.suitability {
        (stealing(l, i), true)
    } else if i.suitability > l.suitability {
        (stealing(i, l), true)
    } else if !text_lt(l.member_id, i.member_id) {
        (stealing(l, i), true)
    } else {
        (stealing(i, l), true)
    }
}

/// The election `l` becomes after taking in each of `es` in turn.
pub open spec fn merge_all(l: ElectionView, es: Seq<ElectionView>) -> ElectionView
    decreases es.len(),
{
    if es.len() == 0 {
        l
    } else {
        election_merge(merge_all(l, es.drop_last()), es.last()).0
    }
}

/// `a` ranks above `b`: it is more suitable, or as suitable with a member id
/// that sorts after that of `b`.
pub open spec fn ranks_above(a: ElectionView, b: ElectionView) -> bool {
    a.suitability > b.suitability || (a.suitability == b.suitability && text_lt(
        b.member_id,
        a.member_id,
    ))
}

/// An election as every member opens it: first term, running.
pub open spec fn is_opening(e: ElectionView) -> bool {
    e.term == 0 && e.status == ElectionStatus::Running
}

proof fn lemma_ranks_above_transitive(a: ElectionView, b: ElectionView, c: ElectionView)
    requires
        ranks_above(a, b),
        ranks_above(b, c),
    ensures
        ranks_above(a, c),
{
    if a.suitability == b.suitability && b.suitability == c.suitability {
        lemma_text_lt_transitive(c.member_id, b.member_id, a.member_id);
    }
}

/// Stealing keeps every vote of both sides.
pub proof fn lemma_steal_keeps_votes(v: Seq<Seq<char>>, w: Seq<Seq<char>>)
    ensures
        forall|x: Seq<char>| v.contains(x) ==> #[trigger] steal(v, w).contains(x),
        forall|x: Seq<char>| w.contains(x) ==> #[trigger] steal(v, w).contains(x),
    decreases w.len(),
{
    if w.len() > 0 {
        lemma_steal_keeps_votes(v, w.drop_last());
        let s = steal(v, w.drop_last());
        assert forall|x: Seq<char>| s.contains(x) implies #[trigger] with_vote(s, w.last()).contains(x) by {
            if !s.contains(w.last()) {
                let i = choose|i: int| 0 <= i < s.len() && s[i] == x;
                assert(s.push(w.last())[i] == x);
            }
        }
        assert(with_vote(s, w.last()).contains(w.last())) by {
            if !s.contains(w.last()) {
                assert(s.push(w.last())[s.len() as int] == w.last());
            }
        }
        assert forall|x: Seq<char>| w.contains(x) implies #[trigger] steal(v, w).contains(x) by {
            let i = choose|i: int| 0 <= i < w.len() && w[i] == x;
            if i < w.len() - 1 {
                assert(w.drop_last()[i] == x);
            }
        }
    }
}

/// Stealing adds no vote that neither side held.
pub proof fn lemma_steal_adds_nothing(v: Seq<Seq<char>>, w: Seq<Seq<char>>)
    ensures
        forall|x: Seq<char>| #[trigger] steal(v, w).contains(x) ==> v.contains(x) || w.contains(x),
    decreases w.len(),
{
    if w.len() > 0 {
        lemma_steal_adds_nothing(v, w.drop_last());
        let s = steal(v, w.drop_last());
        assert forall|x: Seq<char>| #[trigger] steal(v, w).contains(x) implies v.contains(x)
            || w.contains(x) by {
            let t = steal(v, w);
            if x == w.last() {
                assert(w[w.len() - 1] == x);
            } else {
                assert(s.contains(x)) by {
                    if !s.contains(w.last()) {
                        let i = choose|i: int| 0 <= i < t.len() && t[i] == x;
                        assert(t[s.len() as int] == w.last());
                        assert(s[i] == x);
                    }
                }
                if !v.contains(x) {
                    assert(w.drop_last().contains(x));
                    let j = choose|j: int| 0 <= j < w.drop_last().len() && w.drop_last()[j] == x;
                    assert(w[j] == x);
                }
            }
        }
    }
}

/// Elections converge: whatever order the opening elections of distinct
/// members arrive in, the result is still an opening election for the
/// candidate that ranks highest (most suitable, ties going to the member id
/// that sorts last), and it holds every vote any of them cast.
pub proof fn lemma_elections_converge(l: ElectionView, es: Seq<ElectionView>)
    requires
        is_opening(l),
        forall|i: int| 0 <= i < es.len() ==> is_opening(#[trigger] es[i]),
        forall|i: int| 0 <= i < es.len() ==> (#[trigger] es[i]).member_id != l.member_id,
        forall|i: int, j: int|
            0 <= i < es.len() && 0 <= j < es.len() && i != j ==> (#[trigger] es[i]).member_id
                != (#[trigger] es[j]).member_id,
    ensures
        is_opening(merge_all(l, es)),
        (merge_all(l, es).member_id == l.member_id && merge_all(l, es).suitability
            == l.suitability) || exists|i: int|
            0 <= i < es.len() && merge_all(l, es).member_id == (#[trigger] es[i]).member_id
                && merge_all(l, es).suitability == es[i].suitability,
        !ranks_above(l, merge_all(l, es)),
        forall|i: int| 0 <= i < es.len() ==> !ranks_above(#[trigger] es[i], merge_all(l, es)),
        forall|x: Seq<char>| l.votes.contains(x) ==> #[trigger] merge_all(l, es).votes.contains(x),
        forall|i: int, x: Seq<char>|
            0 <= i < es.len() && (#[trigger] es[i]).votes.contains(x) ==> #[trigger] merge_all(
                l,
                es,
            ).votes.contains(x),
        forall|x: Seq<char>|
            #[trigger] merge_all(l, es).votes.contains(x) ==> l.votes.contains(x) || exists|i: int|
                0 <= i < es.len() && (#[trigger] es[i]).votes.contains(x),
    decreases es.len(),
{
    lemma_text_lt_irreflexive(l.member_id);
    if es.len() > 0 {
        let n = es.len() - 1;
        let pre = es.drop_last();
        let e = es[n];
        assert(forall|i: int| 0 <= i < pre.len() ==> pre[i] == es[i]);
        lemma_elections_converge(l, pre);
        let p = merge_all(l, pre);
        let r = merge_all(l, es);
        assert(r == election_merge(p, e).0);
        if p.member_id != l.member_id || p.suitability != l.suitability {
            let i = choose|i: int|
                0 <= i < pre.len() && p.member_id == (#[trigger] pre[i]).member_id
                    && p.suitability == pre[i].suitability;
            assert(es[i].member_id != es[n].member_id);
        }
        assert(p.member_id != e.member_id);
        lemma_text_lt_total(p.member_id, e.member_id);
        lemma_text_lt_irreflexive(e.member_id);
        lemma_steal_keeps_votes(p.votes, e.votes);
        lemma_steal_keeps_votes(e.votes, p.votes);
        lemma_steal_adds_nothing(p.votes, e.votes);
        lemma_steal_adds_nothing(e.votes, p.votes);
        let from_e = ranks_above(e, p);
        if from_e {
            assert(r.member_id == e.member_id && r.suitability == e.suitability);
        } else {
            assert(r.member_id == p.member_id && r.suitability == p.suitability);
        }
        assert forall|x: Seq<char>| #[trigger] p.votes.contains(x) implies r.votes.contains(x) by {}
        assert forall|x: Seq<char>| #[trigger] e.votes.contains(x) implies r.votes.contains(x) by {}
        assert(!ranks_above(l, r)) by {
            if from_e && ranks_above(l, r) {
                lemma_ranks_above_transitive(l, e, p);
            }
        }
        assert forall|i: int| 0 <= i < es.len() implies !ranks_above(#[trigger] es[i], r) by {
            if i < n {
                assert(pre[i] == es[i]);
                assert(!ranks_above(pre[i], p));
                if from_e && ranks_above(es[i], r) {
                    lemma_ranks_above_transitive(es[i], e, p);
                }
            }
        }
        assert forall|i: int, x: Seq<char>|
            0 <= i < es.len() && (#[trigger] es[i]).votes.contains(x) implies #[trigger] r.votes.contains(
            x,
        ) by {
            if i < n {
                assert(pre[i] == es[i]);
                assert(p.votes.contains(x));
            }
        }
        assert forall|x: Seq<char>| #[trigger] r.votes.contains(x) implies l.votes.contains(x)
            || exists|i: int| 0 <= i < es.len() && (#[trigger] es[i]).votes.contains(x) by {
            if p.votes.contains(x) && !l.votes.contains(x) {
                let i = choose|i: int| 0 <= i < pre.len() && (#[trigger] pre[i]).votes.contains(x);
                assert(es[i] == pre[i]);
            }
            if e.votes.contains(x) {
                assert(es[n].votes.contains(x));
            }
        }
        if from_e {
            assert(r.member_id == es[n].member_id && r.suitability == es[n].suitability);
        } else if p.member_id != l.member_id || p.suitability != l.suitability {
            let i = choose|i: int|
                0 <= i < pre.len() && p.member_id == (#[trigger] pre[i]).member_id
                    && p.suitability == pre[i].suitability;
            assert(r.member_id == es[i].member_id && r.suitability == es[i].suitability);
        }
    }
}

/// `e` is `l` or one of `es`, as far as candidate and suitability go.
pub open spec fn among(e: ElectionView, l: ElectionView, es: Seq<ElectionView>) -> bool {
    (e.member_id == l.member_id && e.suitability == l.suitability) || exists|i: int|
        0 <= i < es.len() && e.member_id == (#[trigger] es[i]).member_id && e.suitability
            == es[i].suitability
}

/// The opening elections meet the conditions under which elections converge.
pub open spec fn distinct_openings(l: ElectionView, es: Seq<ElectionView>) -> bool {
    &&& is_opening(l)
    &&& forall|i: int| 0 <= i < es.len() ==> is_opening(#[trigger] es[i])
    &&& forall|i: int| 0 <= i < es.len() ==> (#[trigger] es[i]).member_id != l.member_id
    &&& forall|i: int, j: int|
        0 <= i < es.len() && 0 <= j < es.len() && i != j ==> (#[trigger] es[i]).member_id
            != (#[trigger] es[j]).member_id
}

/// The outcome of an election depends on its candidates alone: two members
/// that start from any of the same opening elections and take in the others
/// in any order end on the same candidate with the same suitability.
pub proof fn lemma_election_outcome_independent_of_order(
    l1: ElectionView,
    es1: Seq<ElectionView>,
    l2: ElectionView,
    es2: Seq<ElectionView>,
)
    requires
        distinct_openings(l1, es1),
        distinct_openings(l2, es2),
        among(l2, l1, es1),
        forall|i: int| 0 <= i < es2.len() ==> among(#[trigger] es2[i], l1, es1),
        among(l1, l2, es2),
        forall|i: int| 0 <= i < es1.len() ==> among(#[trigger] es1[i], l2, es2),
    ensures
        merge_all(l1, es1).member_id == merge_all(l2, es2).member_id,
        merge_all(l1, es1).suitability == merge_all(l2, es2).suitability,
{
    lemma_elections_converge(l1, es1);
    lemma_elections_converge(l2, es2);
    let r1 = merge_all(l1, es1);
    let r2 = merge_all(l2, es2);
    // r1 matches an input of the second run, which no input of the second run outranks
    assert(!ranks_above(r1, r2)) by {
        assert(among(r1, l1, es1));
        if r1.member_id == l1.member_id && r1.suitability == l1.suitability {
            if !(l1.member_id == l2.member_id && l1.suitability == l2.suitability) {
                let k = choose|k: int|
                    0 <= k < es2.len() && l1.member_id == (#[trigger] es2[k]).member_id
                        && l1.suitability == es2[k].suitability;
                assert(!ranks_above(es2[k], r2));
            }
        } else {
            let i = choose|i: int|
                0 <= i < es1.len() && r1.member_id == (#[trigger] es1[i]).member_id
                    && r1.suitability == es1[i].suitability;
            assert(among(es1[i], l2, es2));
            if !(es1[i].member_id == l2.member_id && es1[i].suitability == l2.suitability) {
                let k = choose|k: int|
                    0 <= k < es2.len() && es1[i].member_id == (#[trigger] es2[k]).member_id
                        && es1[i].suitability == es2[k].suitability;
                assert(!ranks_above(es2[k], r2));
            }
        }
    }
    assert(!ranks_above(r2, r1)) by {
        if r2.member_id == l2.member_id && r2.suitability == l2.suitability {
            if !(l2.member_id == l1.member_id && l2.suitability == l1.suitability) {
                let k = choose|k: int|
                    0 <= k < es1.len() && l2.member_id == (#[trigger] es1[k]).member_id
                        && l2.suitability == es1[k].suitability;
                assert(!ranks_above(es1[k], r1));
            }
        } else {
            let i = choose|i: int|
                0 <= i < es2.len() && r2.member_id == (#[trigger] es2[i]).member_id
                    && r2.suitability == es2[i].suitability;
            assert(among(es2[i], l1, es1));
            if !(es2[i].member_id == l1.member_id && es2[i].suitability == l1.suitability) {
                let k = choose|k: int|
                    0 <= k < es1.len() && es2[i].member_id == (#[trigger] es1[k]).member_id
                        && es2[i].suitability == es1[k].suitability;
                assert(!ranks_above(es1[k], r1));
            }
        }
    }
    if r1.member_id != r2.member_id {
        lemma_text_lt_total(r1.member_id, r2.member_id);
    }
}

impl Election {
    /// A copy of this rumor.
    pub fn duplicate(&self) -> (r: Election)
        ensures
            r@ == self@,
    {
        Election {
            from_id: self.from_id.clone(),
            member_id: self.member_id.clone(),
            service_group: self.service_group.clone(),
            term: self.term,
            suitability: self.suitability,
            status: self.status,
            votes: crate::ids::copy_texts(&self.votes),
        }
    }

    /// A new election in its first term, voting for `member_id` alone.
    pub fn new(member_id: String, service_group: String, suitability: u64) -> (r: Election)
        ensures
            r@ == (ElectionView {
                from_id: member_id@,
                member_id: member_id@,
                service_group: service_group@,
                term: 0,
                suitability,
                status: ElectionStatus::Running,
                votes: seq![member_id@],
            }),
    {
        let from_id = member_id.clone();
        let candidate = member_id.clone();
        let mut votes: Vec<String> = Vec::new();
        votes.push(member_id);
        let r = Election {
            from_id,
            member_id: candidate,
            service_group,
            term: 0,
            suitability,
            status: ElectionStatus::Running,
            votes,
        };
        assert(r@.votes =~= seq![member_id@]);
        r
    }

    /// Adds a vote for `member_id`, unless it already has one.
    pub fn insert_vote(&mut self, member_id: &str)
        ensures
            final(self)@ == (ElectionView {
                votes: with_vote(old(self)@.votes, member_id@),
                ..old(self)@
            }),
    {
        let id = member_id.to_owned();
        if !texts_contain(&self.votes, &id) {
            let ghost before = self.votes@;
            self.votes.push(id);
            assert(self.votes@.map_values(|s: String| s@) =~= before.map_values(
                |s: String| s@,
            ).push(member_id@));
        }
    }

    /// Adds the votes of `other` that this election lacks, in their order.
    pub fn steal_votes(&mut self, other: &mut Election)
        ensures
            *final(other) == *old(other),
            final(self)@ == stealing(old(self)@, old(other)@),
    {
        let mut i: usize = 0;
        while i < other.votes.len()
            invariant
                i <= other.votes.len(),
                self@ == (ElectionView {
                    votes: steal(old(self)@.votes, other@.votes.take(i as int)),
                    ..old(self)@
                }),
            decreases other.votes.len() - i,
        {
            assert(other@.votes.take(i + 1).drop_last() =~= other@.votes.take(i as int));
            self.insert_vote(other.votes[i].as_str());
            i = i + 1;
        }
        assert(other@.votes.take(i as int) =~= other@.votes);
    }

    /// Sets the status to running.
    pub fn running(&mut self)
        ensures
            final(self)@ == (ElectionView { status: ElectionStatus::Running, ..old(self)@ }),
    {
        self.status = ElectionStatus::Running;
    }

    /// Sets the status to finished.
    pub fn finish(&mut self)
        ensures
            final(self)@ == (ElectionView { status: ElectionStatus::Finished, ..old(self)@ }),
    {
        self.status = ElectionStatus::Finished;
    }

    /// Sets the status to lacking a quorum.
    pub fn no_quorum(&mut self)
        ensures
            final(self)@ == (ElectionView { status: ElectionStatus::NoQuorum, ..old(self)@ }),
    {
        self.status = ElectionStatus::NoQuorum;
    }

    /// Whether the election is finished.
    pub fn is_finished(&self) -> (r: bool)
        ensures
            r == (self.status == ElectionStatus::Finished),
    {
        self.status == ElectionStatus::Finished
    }

    /// Whether the votes cover a strict majority of `live` members.
    pub fn has_quorum(&self, live: usize) -> (r: bool)
        ensures
            r == (2 * self.votes@.len() > live),
    {
        self.votes.len() as u128 * 2 > live as u128
    }

    /// The member holding the election finishes it once it is the candidate
    /// and the votes cover a strict majority of the `live` members of the
    /// group. Returns whether it finished the election now.
    pub fn finish_if_won(&mut self, local_id: &String, live: usize) -> (r: bool)
        ensures
            r == (old(self).status != ElectionStatus::Finished && old(self).member_id@
                == local_id@ && 2 * old(self).votes@.len() > live),
            r ==> final(self)@ == (ElectionView {
                status: ElectionStatus::Finished,
                ..old(self)@
            }),
            !r ==> final(self)@ == old(self)@,
    {
        if self.status != ElectionStatus::Finished && text_eq(&self.member_id, local_id)
            && self.has_quorum(live) {
            self.finish();
            true
        } else {
            false
        }
    }

    /// Whether the two elections agree on everything but the sender.
    pub fn same_as(&self, other: &Election) -> (r: bool)
        ensures
            r == same_election(self@, other@),
    {
        text_eq(&self.service_group, &other.service_group) && text_eq(
            &self.member_id,
            &other.member_id,
        ) && self.suitability == other.suitability && texts_eq(&self.votes, &other.votes)
            && self.status == other.status && self.term == other.term
    }

    /// Takes in what another member says of this election; returns whether the
    /// result is worth spreading further.
    pub fn merge(&mut self, other: Election) -> (r: bool)
        ensures
            (final(self)@, r) == election_merge(old(self)@, other@),
    {
        let mut other = other;
        if self.same_as(&other) {
            false
        } else if other.term >= self.term && other.status == ElectionStatus::Finished {
            *self = other;
            true
        } else if other.term == self.term && self.status == ElectionStatus::Finished {
            false
        } else if self.term > other.term {
            true
        } else if self.suitability > other.suitability {
            self.steal_votes(&mut other);
            true
        } else if other.suitability > self.suitability {
            other.steal_votes(self);
            *self = other;
            true
        } else if !text_less(self.member_id.as_str(), other.member_id.as_str()) {
            self.steal_votes(&mut other);
            true
        } else {
            other.steal_votes(self);
            *self = other;
            true
        }
    }

    /// The kind of rumor an election is.
    pub fn kind(&self) -> (r: RumorType)
        ensures
            r == RumorType::Election,
    {
        RumorType::Election
    }

    /// There is one election per service group.
    pub fn id(&self) -> (r: &'static str)
        ensures
            r@ == "election"@,
    {
        "election"
    }

    /// Elections are filed under their service group.
    pub fn key(&self) -> (r: &str)
        ensures
            r@ == self.service_group@,
    {
        self.service_group.as_str()
    }
}

/// The election a rumor record carries, or the first field it lacks. The
/// candidate defaults to the sender, the numbers to zero and the status to running.
pub open spec fn election_from_proto(r: proto::Rumor) -> Result<ElectionView, Error> {
    match r.payload {
        Some(proto::rumor::Payload::Election(p)) => {
            if r.from_id is None {
                Err(Error::ProtocolMismatch(Field::FromId))
            } else if p.service_group is None {
                Err(Error::ProtocolMismatch(Field::ServiceGroup))
            } else {
                Ok(
                    ElectionView {
                        from_id: (r.from_id->Some_0)@,
                        member_id: match p.member_id {
                            Some(m) => m@,
                            None => (r.from_id->Some_0)@,
                        },
                        service_group: (p.service_group->Some_0)@,
                        term: match p.term {
                            Some(t) => t,
                            None => 0,
                        },
                        suitability: match p.suitability {
                            Some(s) => s,
                            None => 0,
                        },
                        status: match p.status {
                            Some(n) => match ElectionStatus::spec_from_i32(n) {
                                Some(st) => st,
                                None => ElectionStatus::Running,
                            },
                            None => ElectionStatus::Running,
                        },
                        votes: p.votes@.map_values(|s: String| s@),
                    },
                )
            }
        },
        _ => Err(Error::ProtocolMismatch(Field::Payload)),
    }
}

/// `r` is the rumor record of election `e`, tagged with `kind`.
pub open spec fn is_election_record(r: proto::Rumor, e: Election, kind: proto::rumor::Type) -> bool {
    &&& r.type_ == kind.spec_number()
    &&& r.tag@.len() == 0
    &&& r.from_id == Some(e.from_id)
    &&& r.payload == Some(
        proto::rumor::Payload::Election(
            proto::Election {
                member_id: Some(e.member_id),
                service_group: Some(e.service_group),
                term: Some(e.term),
                suitability: Some(e.suitability),
                status: Some(e.status.spec_number()),
                votes: e.votes,
            },
        ),
    )
}

impl Election {
    /// Checks a rumor record that must carry an election.
    pub fn from_proto(rumor: proto::Rumor) -> (r: Result<Election, Error>)
        ensures
            match r {
                Ok(e) => election_from_proto(rumor) == Ok::<ElectionView, Error>(e@),
                Err(err) => election_from_proto(rumor) == Err::<ElectionView, Error>(err),
            },
    {
        let p = match rumor.payload {
            Some(proto::rumor::Payload::Election(p)) => p,
            _ => return Err(Error::ProtocolMismatch(Field::Payload)),
        };
        let from_id = match rumor.from_id {
            Some(f) => f,
            None => return Err(Error::ProtocolMismatch(Field::FromId)),
        };
        let service_group = match p.service_group {
            Some(sg) => sg,
            None => return Err(Error::ProtocolMismatch(Field::ServiceGroup)),
        };
        let member_id = match p.member_id {
            Some(m) => m,
            None => from_id.clone(),
        };
        let status = match p.status {
            Some(n) => match ElectionStatus::from_i32(n) {
                Some(st) => st,
                None => ElectionStatus::Running,
            },
            None => ElectionStatus::Running,
        };
        Ok(
            Election {
                from_id,
                member_id,
                service_group,
                term: match p.term {
                    Some(t) => t,
                    None => 0,
                },
                suitability: match p.suitability {
                    Some(s) => s,
                    None => 0,
                },
                status,
                votes: p.votes,
            },
        )
    }

    /// The rumor record of this election, tagged as an election.
    pub fn to_proto(self) -> (r: proto::Rumor)
        ensures
            is_election_record(r, self, proto::rumor::Type::Election),
    {
        election_record(self, proto::rumor::Type::Election)
    }
}

fn election_record(e: Election, kind: proto::rumor::Type) -> (r: proto::Rumor)
    ensures
        is_election_record(r, e, kind),
{
    let status = e.status.to_i32();
    proto::Rumor {
        type_: kind.to_i32(),
        tag: Vec::new(),
        from_id: Some(e.from_id),
        payload: Some(
            proto::rumor::Payload::Election(
                proto::Election {
                    member_id: Some(e.member_id),
                    service_group: Some(e.service_group),
                    term: Some(e.term),
                    suitability: Some(e.suitability),
                    status: Some(status),
                    votes: e.votes,
                },
            ),
        ),
    }
}

/// A re-election after a leader left: the same rules as an election, spread
/// as a rumor of its own kind so that it does not meet the finished one.
#[derive(Clone, Debug)]
pub struct ElectionUpdate(pub Election);

impl View for ElectionUpdate {
    type V = ElectionView;

    open spec fn view(&self) -> ElectionView {
        self.0@
    }
}

impl ElectionUpdate {
    /// A new re-election in its first term, voting for `member_id` alone.
    pub fn new(member_id: String, service_group: String, suitability: u64) -> (r: ElectionUpdate)
        ensures
            r@ == (ElectionView {
                from_id: member_id@,
                member_id: member_id@,
                service_group: service_group@,
                term: 0,
                suitability,
                status: ElectionStatus::Running,
                votes: seq![member_id@],
            }),
    {
        ElectionUpdate(Election::new(member_id, service_group, suitability))
    }

    /// Wraps an election as a re-election.
    pub fn from_election(e: Election) -> (r: ElectionUpdate)
        ensures
            r.0 == e,
    {
        ElectionUpdate(e)
    }

    /// Takes in another re-election, by the rules of elections.
    pub fn merge(&mut self, other: ElectionUpdate) -> (r: bool)
        ensures
            (final(self)@, r) == election_merge(old(self)@, other@),
    {
        self.0.merge(other.0)
    }

    /// Checks a rumor record that must carry an election.
    pub fn from_proto(rumor: proto::Rumor) -> (r: Result<ElectionUpdate, Error>)
        ensures
            match r {
                Ok(e) => election_from_proto(rumor) == Ok::<ElectionView, Error>(e@),
                Err(err) => election_from_proto(rumor) == Err::<ElectionView, Error>(err),
            },
    {
        let e = Election::from_proto(rumor)?;
        Ok(ElectionUpdate(e))
    }

    /// The rumor record of this re-election, tagged as an update.
    pub fn to_proto(self) -> (r: proto::Rumor)
        ensures
            is_election_record(r, self.0, proto::rumor::Type::ElectionUpdate),
    {
        election_record(self.0, proto::rumor::Type::ElectionUpdate)
    }

    /// The kind of rumor a re-election is.
    pub fn kind(&self) -> (r: RumorType)
        ensures
            r == RumorType::ElectionUpdate,
    {
        RumorType::ElectionUpdate
    }

    /// There is one re-election per service group.
    pub fn id(&self) -> (r: &'static str)
        ensures
            r@ == "election"@,
    {
        "election"
    }

    /// Re-elections are filed under their service group.
    pub fn key(&self) -> (r: &str)
        ensures
            r@ == self.0.service_group@,
    {
        self.0.service_group.as_str()
    }
}

} // verus!
