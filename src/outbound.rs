//! The failure detector: the decisions of each probe cycle.
//!
//! The probing loop owns the clock and the socket. It starts a probe of one
//! target per cycle, feeds each probe the ticks of the clock and the Acks that
//! arrive, and performs the action the probe returns. Members left suspect
//! for too long are confirmed dead.
use vstd::prelude::*;

use crate::ids::text_eq;
use crate::member_list::MemberList;
use crate::swim::{Health, Member};

verus! {

/// How many members are asked to probe a target that did not answer.
pub const PINGREQ_TARGETS: usize = 5;

/// How many probe periods a member stays suspect before it is confirmed dead.
pub const SUSPICION_PERIODS: u64 = 9;

/// How far a probe has got.
#[derive(Clone, Copy, Debug, PartialEq, Eq, Structural)]
pub enum ProbePhase {
    /// A Ping went to the target; waiting for its Ack.
    Direct,
    /// Other members were asked to probe the target; waiting for a forwarded Ack.
    Indirect,
    /// The probe has reached its verdict.
    Done,
}

/// What happens to a probe.
#[derive(Clone, Debug)]
pub enum ProbeEvent {
    /// The clock reads `now_ms`.
    Tick { now_ms: u64 },
    /// An Ack came from the member with this id.
    Ack { from_id: String },
}

/// What the probing loop does next.
#[derive(Clone, Copy, Debug, PartialEq, Eq, Structural)]
pub enum ProbeAction {
    /// Nothing yet.
    Wait,
    /// Ask up to `PINGREQ_TARGETS` other live members to probe the target.
    SendPingReqs,
    /// The target answered: it is alive.
    MarkAlive,
    /// The target did not answer within the period: it is suspect.
    MarkSuspect,
}

/// The probe of one target in one cycle.
#[derive(Clone, Debug)]
pub struct Probe {
    pub target: Member,
    pub phase: ProbePhase,
    pub started_ms: u64,
    pub period_ms: u64,
}

/// Milliseconds from `start` to `now`; none when the clock reads earlier.
pub open spec fn elapsed(start: u64, now: u64) -> int {
    if now >= start {
        now - start
    } else {
        0
    }
}

/// The phase and action after `event`, in phase `phase` of a probe of
/// `target` that started at `start` and lasts `period` milliseconds.
pub open spec fn probe_step(
    target: Seq<char>,
    phase: ProbePhase,
    start: u64,
    period: u64,
    event: ProbeEvent,
) -> (ProbePhase, ProbeAction) {
    match phase {
        ProbePhase::Done => (ProbePhase::Done, ProbeAction::Wait),
        _ => match event {
            ProbeEvent::Ack { from_id } => if from_id@ == target {
                (ProbePhase::Done, ProbeAction::MarkAlive)
            } else {
                (phase, ProbeAction::Wait)
            },
            ProbeEvent::Tick { now_ms } => if elapsed(start, now_ms) >= period {
                (ProbePhase::Done, ProbeAction::MarkSuspect)
            } else if phase == ProbePhase::Direct && 3 * elapsed(start, now_ms) >= period {
                (ProbePhase::Indirect, ProbeAction::SendPingReqs)
            } else {
                (phase, ProbeAction::Wait)
            },
        },
    }
}

impl Probe {
    /// A probe of `target` whose Ping went out at `now_ms`.
    pub fn start(target: Member, now_ms: u64, period_ms: u64) -> (r: Probe)
        ensures
            r.target == target,
            r.phase == ProbePhase::Direct,
            r.started_ms == now_ms,
            r.period_ms == period_ms,
    {
        Probe { target, phase: ProbePhase::Direct, started_ms: now_ms, period_ms }
    }

    /// Advances the probe by one event. The target has a third of the period
    /// to answer the Ping; then other members are asked to probe it; if no
    /// Ack has come by the end of the period, the target is suspect.
    pub fn step(&mut self, event: ProbeEvent) -> (r: ProbeAction)
        ensures
            final(self).target == old(self).target,
            final(self).started_ms == old(self).started_ms,
            final(self).period_ms == old(self).period_ms,
            (final(self).phase, r) == probe_step(
                old(self).target.id@,
                old(self).phase,
                old(self).started_ms,
                old(self).period_ms,
                event,
            ),
    {
        if self.phase == ProbePhase::Done {
            return ProbeAction::Wait;
        }
        match event {
            ProbeEvent::Ack { from_id } => {
                if text_eq(&from_id, &self.target.id) {
                    self.phase = ProbePhase::Done;
                    ProbeAction::MarkAlive
                } else {
                    ProbeAction::Wait
                }
            },
            ProbeEvent::Tick { now_ms } => {
                let waited: u64 = if now_ms >= self.started_ms {
                    now_ms - self.started_ms
                } else {
                    0
                };
                if waited >= self.period_ms {
                    self.phase = ProbePhase::Done;
                    ProbeAction::MarkSuspect
                } else if self.phase == ProbePhase::Direct && 3 * (waited as u128)
                    >= self.period_ms as u128 {
                    self.phase = ProbePhase::Indirect;
                    ProbeAction::SendPingReqs
                } else {
                    ProbeAction::Wait
                }
            },
        }
    }
}

/// Picks probe targets round-robin over the live members.
#[derive(Clone, Copy, Debug)]
pub struct ProbeCursor {
    pub next: usize,
}

impl ProbeCursor {
    pub fn new() -> (r: ProbeCursor)
        ensures
            r.next == 0,
    {
        ProbeCursor { next: 0 }
    }

    /// The position of the next target among `count` live members, if any,
    /// moving on by one.
    pub fn advance(&mut self, count: usize) -> (r: Option<usize>)
        ensures
            count == 0 ==> r is None && final(self).next == old(self).next,
            count > 0 ==> r == Some((old(self).next % count) as usize) && final(self).next == (
            (old(self).next % count) + 1) % (count as int),
    {
        if count == 0 {
            return None;
        }
        let i = self.next % count;
        self.next = (i + 1) % count;
        Some(i)
    }
}

/// Members under suspicion and when the suspicion began.
#[derive(Clone, Debug)]
pub struct Suspicions {
    pub since: Vec<(String, u64)>,
}

impl Suspicions {
    pub fn new() -> (r: Suspicions)
        ensures
            r.since@.len() == 0,
    {
        Suspicions { since: Vec::new() }
    }

    /// Records that `id` became suspect at `now_ms`, unless it already was.
    pub fn add(&mut self, id: String, now_ms: u64)
        ensures
            (exists|i: int| 0 <= i < old(self).since@.len() && old(self).since@[i].0@ == id@)
                ==> final(self).since@ == old(self).since@,
            !(exists|i: int| 0 <= i < old(self).since@.len() && old(self).since@[i].0@ == id@)
                ==> final(self).since@ == old(self).since@.push((id, now_ms)),
    {
        let mut i: usize = 0;
        while i < self.since.len()
            invariant
                i <= self.since@.len(),
                self.since@ == old(self).since@,
                forall|j: int| 0 <= j < i ==> self.since@[j].0@ != id@,
            decreases self.since.len() - i,
        {
            if text_eq(&self.since[i].0, &id) {
                return;
            }
            i = i + 1;
        }
        self.since.push((id, now_ms));
    }

    /// Takes out and returns the members suspect for at least `timeout_ms`
    /// at `now_ms`, in the order they became suspect.
    pub fn take_expired(&mut self, now_ms: u64, timeout_ms: u64) -> (r: Vec<String>)
        ensures
            r@ == old(self).since@.filter(
                |e: (String, u64)| elapsed(e.1, now_ms) >= timeout_ms,
            ).map_values(|e: (String, u64)| e.0),
            final(self).since@ == old(self).since@.filter(
                |e: (String, u64)| elapsed(e.1, now_ms) < timeout_ms,
            ),
    {
        let ghost all = self.since@;
        let mut rest = Vec::new();
        std::mem::swap(&mut rest, &mut self.since);
        let mut expired: Vec<String> = Vec::new();
        let mut kept: Vec<(String, u64)> = Vec::new();
        let ghost mut done: int = 0;
        while rest.len() > 0
            invariant
                0 <= done <= all.len(),
                all == old(self).since@,
                rest@ == all.skip(done),
                expired@ == all.take(done).filter(
                    |e: (String, u64)| elapsed(e.1, now_ms) >= timeout_ms,
                ).map_values(|e: (String, u64)| e.0),
                kept@ == all.take(done).filter(|e: (String, u64)| elapsed(e.1, now_ms) < timeout_ms),
            decreases rest.len(),
        {
            let e = rest.remove(0);
            assert(all.take(done + 1).drop_last() =~= all.take(done));
            assert(all.take(done + 1).last() == e);
            reveal(Seq::filter);
            let waited: u64 = if now_ms >= e.1 {
                now_ms - e.1
            } else {
                0
            };
            if waited >= timeout_ms {
                expired.push(e.0);
            } else {
                kept.push(e);
            }
            proof {
                done = done + 1;
            }
            assert(rest@ =~= all.skip(done));
        }
        assert(all.take(done) =~= all);
        self.since = kept;
        expired
    }
}

/// Marks the target of a failed probe suspect, when it is alive. Returns the
/// membership to spread about it, when the member list changed.
pub fn mark_suspect(list: &mut MemberList, id: &String) -> (r: Option<(Member, Health)>)
    requires
        old(list).wf(),
    ensures
        final(list).wf(),
        final(list).local() == old(list).local(),
        r is Some <==> old(list)@.contains_key(id@) && old(list)@[id@].health == Health::Alive,
        r is Some ==> r == Some((old(list)@[id@].member, Health::Suspect)) && final(list)@
            == old(list)@.insert(
            id@,
            crate::swim::Membership { health: Health::Suspect, ..old(list)@[id@] },
        ),
        r is None ==> final(list)@ == old(list)@,
{
    mark(list, id, Health::Alive, Health::Suspect)
}

/// Marks a member whose suspicion expired confirmed dead, when it is still
/// suspect: one that refuted the suspicion in the meantime stays as it is.
/// Returns the membership to spread about it, when the member list changed.
pub fn mark_confirmed(list: &mut MemberList, id: &String) -> (r: Option<(Member, Health)>)
    requires
        old(list).wf(),
    ensures
        final(list).wf(),
        final(list).local() == old(list).local(),
        r is Some <==> old(list)@.contains_key(id@) && old(list)@[id@].health == Health::Suspect,
        r is Some ==> r == Some((old(list)@[id@].member, Health::Confirmed)) && final(list)@
            == old(list)@.insert(
            id@,
            crate::swim::Membership { health: Health::Confirmed, ..old(list)@[id@] },
        ),
        r is None ==> final(list)@ == old(list)@,
{
    mark(list, id, Health::Suspect, Health::Confirmed)
}

fn mark(list: &mut MemberList, id: &String, from: Health, to: Health) -> (r: Option<(Member, Health)>)
    requires
        old(list).wf(),
        from != Health::Departed,
        from != to,
    ensures
        final(list).wf(),
        final(list).local() == old(list).local(),
        r is Some <==> old(list)@.contains_key(id@) && old(list)@[id@].health == from,
        r is Some ==> r == Some((old(list)@[id@].member, to)) && final(list)@
            == old(list)@.insert(id@, crate::swim::Membership { health: to, ..old(list)@[id@] }),
        r is None ==> final(list)@ == old(list)@,
{
    if list.health_of(id) != Some(from) {
        return None;
    }
    let member = list.member(id);
    list.set_health(id, to);
    match member {
        Some(m) => Some((m, to)),
        None => None,
    }
}

} // verus!
