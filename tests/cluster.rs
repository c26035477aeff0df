use butterfly::error::Error;
use butterfly::inbound::{process_swim, SwimAction};
use butterfly::member_list::MemberList;
use butterfly::outbound::{
    mark_confirmed, mark_suspect, Probe, ProbeAction, ProbeCursor, ProbeEvent, ProbePhase,
    Suspicions, SUSPICION_PERIODS,
};
use butterfly::proto::Status;
use butterfly::pull::process_rumor;
use butterfly::rumor::departure::Departure;
use butterfly::rumor::election::Election;
use butterfly::rumor::service_config::ServiceConfig;
use butterfly::rumor::service_file::ServiceFile;
use butterfly::rumor::{RumorEnvelope, RumorKind, RumorType};
use butterfly::rumor_store::RumorStore;
use butterfly::swim::{Ack, Health, Member, Membership, Ping, PingReq, Swim, SwimKind, SwimType};

fn member(id: &str, incarnation: u64) -> Member {
    Member {
        id: id.to_string(),
        incarnation,
        address: "127.0.0.1".to_string(),
        swim_port: 9638,
        gossip_port: 9639,
        persistent: false,
        departed: false,
    }
}

fn list_of(local: &str) -> MemberList {
    MemberList::new(member(local, 5))
}

#[test]
fn new_members_are_added_and_newer_news_wins() {
    let mut list = list_of("aaaa");
    assert!(list.insert(member("bbbb", 1), Health::Alive));
    assert_eq!(list.len(), 2);
    assert!(!list.insert(member("bbbb", 1), Health::Alive));
    assert!(list.insert(member("bbbb", 1), Health::Confirmed));
    assert_eq!(list.health_of(&"bbbb".to_string()), Some(Health::Confirmed));
    assert!(!list.insert(member("bbbb", 1), Health::Suspect));
    assert!(list.insert(member("bbbb", 2), Health::Alive));
    assert_eq!(list.health_of(&"bbbb".to_string()), Some(Health::Alive));
    assert!(!list.insert(member("bbbb", 1), Health::Departed));
    assert_eq!(list.member(&"bbbb".to_string()).unwrap().incarnation, 2);
    assert_eq!(list.health_of(&"zzzz".to_string()), None);
}

#[test]
fn departed_members_stay_departed() {
    let mut list = list_of("aaaa");
    list.insert(member("xxxx", 3), Health::Departed);
    assert!(!list.insert(member("xxxx", 9), Health::Alive));
    assert!(!list.set_health(&"xxxx".to_string(), Health::Alive));
    assert_eq!(list.health_of(&"xxxx".to_string()), Some(Health::Departed));
    assert_eq!(list.member(&"xxxx".to_string()).unwrap().incarnation, 3);
}

#[test]
fn suspicion_of_self_is_refuted_with_a_higher_incarnation() {
    let mut list = list_of("aaaa");
    assert!(list.insert(member("aaaa", 5), Health::Suspect));
    let own = list.local_membership();
    assert_eq!(own.health, Health::Alive);
    assert_eq!(own.member.incarnation, 6);
    assert!(list.insert(member("aaaa", 9), Health::Confirmed));
    assert_eq!(list.local_membership().member.incarnation, 10);
    assert!(!list.insert(member("aaaa", 20), Health::Alive));
    assert_eq!(list.local_membership().member.incarnation, 10);
}

#[test]
fn incarnations_never_go_down() {
    let mut list = list_of("aaaa");
    list.insert(member("bbbb", 7), Health::Alive);
    for (inc, health) in [(3, Health::Confirmed), (6, Health::Departed), (7, Health::Alive)] {
        list.insert(member("bbbb", inc), health);
        assert!(list.member(&"bbbb".to_string()).unwrap().incarnation >= 7);
    }
}

#[test]
fn live_members_leave_out_the_dead_and_the_excluded() {
    let mut list = list_of("aaaa");
    list.insert(member("bbbb", 1), Health::Alive);
    list.insert(member("cccc", 1), Health::Suspect);
    list.insert(member("dddd", 1), Health::Confirmed);
    list.insert(member("eeee", 1), Health::Departed);
    let live = list.live_except(&vec!["aaaa".to_string()]);
    let mut ids: Vec<String> = live.into_iter().map(|m| m.id).collect();
    ids.sort();
    assert_eq!(ids, vec!["bbbb".to_string(), "cccc".to_string()]);
}

#[test]
fn ping_from_a_new_member_is_answered_and_recorded() {
    let mut a = list_of("aaaa");
    let ping = Ping { membership: vec![], from: member("bbbb", 0), forward_to: None };
    let action = process_swim(
        &mut a,
        &vec![],
        "10.1.1.2".to_string(),
        Swim { type_: SwimType::Ping, kind: SwimKind::Ping(ping) },
    );
    match action {
        SwimAction::ReplyAck { forward_to } => assert!(forward_to.is_none()),
        _ => panic!("expected an ack"),
    }
    assert_eq!(a.health_of(&"bbbb".to_string()), Some(Health::Alive));
    assert_eq!(a.member(&"bbbb".to_string()).unwrap().address, "10.1.1.2");
}

#[test]
fn ping_from_a_departed_member_records_it_departed() {
    let mut a = list_of("aaaa");
    let mut from = member("bbbb", 0);
    from.departed = true;
    let ping = Ping { membership: vec![], from, forward_to: None };
    process_swim(
        &mut a,
        &vec![],
        "10.1.1.2".to_string(),
        Swim { type_: SwimType::Ping, kind: SwimKind::Ping(ping) },
    );
    assert_eq!(a.health_of(&"bbbb".to_string()), Some(Health::Departed));
}

#[test]
fn blacklisted_senders_are_ignored() {
    let mut a = list_of("aaaa");
    let ping = Ping {
        membership: vec![Membership { member: member("cccc", 1), health: Health::Alive }],
        from: member("bbbb", 0),
        forward_to: None,
    };
    let action = process_swim(
        &mut a,
        &vec!["bbbb".to_string()],
        "10.1.1.2".to_string(),
        Swim { type_: SwimType::Ping, kind: SwimKind::Ping(ping) },
    );
    assert!(matches!(action, SwimAction::Ignore));
    assert_eq!(a.len(), 1);
}

#[test]
fn indirect_probe_is_relayed_and_its_ack_forwarded() {
    let mut c = list_of("cccc");
    c.insert(member("bbbb", 0), Health::Alive);
    let req = PingReq { membership: vec![], from: member("aaaa", 0), target: member("bbbb", 0) };
    let action = process_swim(
        &mut c,
        &vec![],
        "10.0.0.1".to_string(),
        Swim { type_: SwimType::Pingreq, kind: SwimKind::PingReq(req) },
    );
    match action {
        SwimAction::PingFor { target, requester } => {
            assert_eq!(target.id, "bbbb");
            assert_eq!(requester.id, "aaaa");
            assert_eq!(requester.address, "10.0.0.1");
        }
        _ => panic!("expected a relayed ping"),
    }
    let ack = Ack {
        membership: vec![],
        from: member("bbbb", 0),
        forward_to: Some(member("aaaa", 0)),
    };
    let action = process_swim(
        &mut c,
        &vec![],
        "10.0.0.2".to_string(),
        Swim { type_: SwimType::Ack, kind: SwimKind::Ack(ack) },
    );
    match action {
        SwimAction::ForwardAck { to, ack } => {
            assert_eq!(to.id, "aaaa");
            assert_eq!(ack.from.id, "bbbb");
            assert_eq!(ack.from.address, "10.0.0.2");
        }
        _ => panic!("expected a forwarded ack"),
    }
    let mut a = list_of("aaaa");
    let ack = Ack {
        membership: vec![Membership { member: member("bbbb", 0), health: Health::Alive }],
        from: member("bbbb", 0),
        forward_to: Some(member("aaaa", 0)),
    };
    let action = process_swim(
        &mut a,
        &vec![],
        "10.0.0.3".to_string(),
        Swim { type_: SwimType::Ack, kind: SwimKind::Ack(ack) },
    );
    match action {
        SwimAction::DeliverAck { from, .. } => assert_eq!(from.id, "bbbb"),
        _ => panic!("expected the ack delivered"),
    }
    assert_eq!(a.health_of(&"bbbb".to_string()), Some(Health::Alive));
}

#[test]
fn pingreq_for_an_unknown_target_is_ignored() {
    let mut c = list_of("cccc");
    let req = PingReq { membership: vec![], from: member("aaaa", 0), target: member("qqqq", 0) };
    let action = process_swim(
        &mut c,
        &vec![],
        "10.0.0.1".to_string(),
        Swim { type_: SwimType::Pingreq, kind: SwimKind::PingReq(req) },
    );
    assert!(matches!(action, SwimAction::Ignore));
}

#[test]
fn unanswered_probe_goes_indirect_then_suspect_then_confirmed() {
    let period = 900;
    let mut probe = Probe::start(member("bbbb", 4), 1000, period);
    assert_eq!(probe.step(ProbeEvent::Tick { now_ms: 1100 }), ProbeAction::Wait);
    assert_eq!(probe.step(ProbeEvent::Tick { now_ms: 1300 }), ProbeAction::SendPingReqs);
    assert_eq!(probe.phase, ProbePhase::Indirect);
    assert_eq!(probe.step(ProbeEvent::Tick { now_ms: 1500 }), ProbeAction::Wait);
    assert_eq!(probe.step(ProbeEvent::Tick { now_ms: 1900 }), ProbeAction::MarkSuspect);
    assert_eq!(probe.step(ProbeEvent::Tick { now_ms: 2500 }), ProbeAction::Wait);

    let mut a = list_of("aaaa");
    a.insert(member("bbbb", 4), Health::Alive);
    let (m, h) = mark_suspect(&mut a, &"bbbb".to_string()).unwrap();
    assert_eq!((m.incarnation, h), (4, Health::Suspect));
    assert!(mark_suspect(&mut a, &"bbbb".to_string()).is_none());
    let mut suspicions = Suspicions::new();
    suspicions.add("bbbb".to_string(), 1900);
    suspicions.add("bbbb".to_string(), 2000);
    assert!(suspicions.take_expired(1900 + 8 * period, SUSPICION_PERIODS * period).is_empty());
    let expired = suspicions.take_expired(1900 + 9 * period, SUSPICION_PERIODS * period);
    assert_eq!(expired, vec!["bbbb".to_string()]);
    assert!(suspicions.since.is_empty());
    let (m, h) = mark_confirmed(&mut a, &"bbbb".to_string()).unwrap();
    assert_eq!((m.incarnation, h), (4, Health::Confirmed));
    assert_eq!(a.health_of(&"bbbb".to_string()), Some(Health::Confirmed));
}

#[test]
fn answered_probe_marks_alive() {
    let mut probe = Probe::start(member("bbbb", 4), 1000, 900);
    assert_eq!(probe.step(ProbeEvent::Ack { from_id: "cccc".to_string() }), ProbeAction::Wait);
    assert_eq!(probe.step(ProbeEvent::Ack { from_id: "bbbb".to_string() }), ProbeAction::MarkAlive);
    assert_eq!(probe.phase, ProbePhase::Done);
}

#[test]
fn probe_cursor_goes_round() {
    let mut cursor = ProbeCursor::new();
    assert_eq!(cursor.advance(0), None);
    let picks: Vec<usize> = (0..5).map(|_| cursor.advance(3).unwrap()).collect();
    assert_eq!(picks, vec![0, 1, 2, 0, 1]);
}

fn election(id: &str, suitability: u64) -> Election {
    Election::new(id.to_string(), "web.prod".to_string(), suitability)
}

#[test]
fn election_of_four_finishes_on_the_most_suitable() {
    let ids = ["a", "b", "c", "d"];
    let suits = [0, 0, 1, 0];
    let mut views: Vec<Election> = Vec::new();
    for k in 0..4 {
        let mut e = election(ids[k], suits[k]);
        for j in 0..4 {
            if j != k {
                e.merge(election(ids[j], suits[j]));
            }
        }
        views.push(e);
    }
    for e in &views {
        assert_eq!(e.member_id, "c");
    }
    let mut winner = views[2].clone();
    assert!(!winner.finish_if_won(&"a".to_string(), 4));
    assert!(winner.finish_if_won(&"c".to_string(), 4));
    assert_eq!(winner.status, Status::Finished);
    let mut votes = winner.votes.clone();
    votes.sort();
    assert_eq!(votes, vec!["a", "b", "c", "d"]);
    let mut other = views[0].clone();
    assert!(other.merge(winner.clone()));
    assert!(other.is_finished());
    assert!(!other.merge(election("z", 99)));
    assert_eq!(other.member_id, "c");
}

#[test]
fn elections_converge_whatever_the_order() {
    let orders = [[0, 1, 2, 3], [3, 2, 1, 0], [2, 0, 3, 1], [1, 3, 0, 2]];
    let ids = ["m1", "m2", "m3", "m4"];
    let suits = [5, 9, 2, 7];
    for order in orders.iter() {
        let mut e = election("m0", 1);
        for &k in order.iter() {
            e.merge(election(ids[k], suits[k]));
        }
        assert_eq!(e.member_id, "m2");
        assert_eq!(e.suitability, 9);
        assert_eq!(e.votes.len(), 5);
    }
}

#[test]
fn quorum_needs_a_strict_majority() {
    let mut e = election("a", 0);
    e.insert_vote("b");
    e.insert_vote("b");
    assert_eq!(e.votes.len(), 2);
    assert!(!e.has_quorum(4));
    assert!(e.has_quorum(3));
}

#[test]
fn finished_election_of_a_later_term_wins() {
    let mut e = election("a", 10);
    let mut other = election("b", 0);
    other.term = 1;
    other.finish();
    assert!(e.merge(other));
    assert_eq!(e.member_id, "b");
    assert_eq!(e.term, 1);
    let mut older = election("c", 50);
    older.term = 0;
    assert!(e.merge(older));
    assert_eq!(e.member_id, "b");
}

fn envelope(kind: RumorKind, type_: RumorType) -> RumorEnvelope {
    RumorEnvelope { type_, from_id: Some("cccc".to_string()), kind }
}

#[test]
fn departure_spreads_and_cannot_be_undone_by_gossip() {
    let mut list = list_of("aaaa");
    list.insert(member("xxxx", 2), Health::Alive);
    let mut store = RumorStore::new();
    let dep = envelope(RumorKind::Departure(Departure::new("xxxx")), RumorType::Departure);
    assert!(process_rumor(&mut list, &mut store, &vec![], dep, 3));
    assert_eq!(list.health_of(&"xxxx".to_string()), Some(Health::Departed));
    let back = envelope(
        RumorKind::Membership(Membership { member: member("xxxx", 50), health: Health::Alive }),
        RumorType::Member,
    );
    process_rumor(&mut list, &mut store, &vec![], back, 3);
    assert_eq!(list.health_of(&"xxxx".to_string()), Some(Health::Departed));
    let again = envelope(RumorKind::Departure(Departure::new("xxxx")), RumorType::Departure);
    assert!(!process_rumor(&mut list, &mut store, &vec![], again, 3));
}

#[test]
fn gossip_from_blacklisted_members_is_dropped() {
    let mut list = list_of("aaaa");
    let mut store = RumorStore::new();
    let m = envelope(
        RumorKind::Membership(Membership { member: member("bbbb", 1), health: Health::Alive }),
        RumorType::Member,
    );
    assert!(!process_rumor(&mut list, &mut store, &vec!["cccc".to_string()], m, 3));
    assert_eq!(store.len(), 0);
    assert_eq!(list.len(), 1);
}

#[test]
fn rumor_store_counts_down_and_skips_peers_already_served() {
    let mut store = RumorStore::new();
    let cfg = ServiceConfig::new("aaaa".to_string(), "web.prod".to_string(), Vec::from("x=1"));
    assert!(store.insert(RumorKind::ServiceConfig(cfg.clone()), 2));
    let file = ServiceFile::new(
        "aaaa".to_string(),
        "web.prod".to_string(),
        "f".to_string(),
        Vec::from("y"),
    );
    assert!(store.insert(RumorKind::ServiceFile(file), 1));
    assert_eq!(store.len(), 2);
    let p = "pppp".to_string();
    let q = "qqqq".to_string();
    assert_eq!(store.for_gossip(&p).len(), 2);
    assert_eq!(store.for_gossip(&p).len(), 0);
    let to_q = store.for_gossip(&q);
    assert_eq!(to_q.len(), 1);
    assert!(matches!(to_q[0], RumorKind::ServiceConfig(_)));
    assert_eq!(store.entry(0).heat, 0);
    assert_eq!(store.len(), 2);
    assert!(!store.insert(RumorKind::ServiceConfig(cfg.clone()), 2));
    let mut newer = cfg.clone();
    newer.incarnation = 1;
    assert!(store.insert(RumorKind::ServiceConfig(newer), 2));
    assert_eq!(store.entry(0).heat, 2);
    assert_eq!(store.for_gossip(&p).len(), 1);
}

#[test]
fn service_merges_commute_on_distinct_incarnations() {
    let base = ServiceConfig::new("aaaa".to_string(), "web.prod".to_string(), Vec::from("a"));
    let mut b = base.clone();
    b.incarnation = 2;
    let mut c = base.clone();
    c.incarnation = 5;
    let mut one = base.clone();
    one.merge(b.clone());
    one.merge(c.clone());
    let mut two = base.clone();
    two.merge(c.clone());
    two.merge(b.clone());
    assert_eq!(one, two);
    assert_eq!(one.incarnation, 5);
}

#[test]
fn sealed_or_bad_configurations_are_reported() {
    let mut sealed = ServiceConfig::new("aaaa".to_string(), "web.prod".to_string(), vec![1, 2]);
    sealed.encrypted = true;
    assert_eq!(sealed.config().unwrap_err(), Error::Encrypted);
    let bad_utf8 = ServiceConfig::new("aaaa".to_string(), "web.prod".to_string(), vec![0xff, 0xfe]);
    assert_eq!(bad_utf8.config().unwrap_err(), Error::ServiceConfigNotUtf8);
    let bad_toml = ServiceConfig::new("aaaa".to_string(), "web.prod".to_string(), Vec::from("= ="));
    assert_eq!(bad_toml.config().unwrap_err(), Error::ServiceConfigDecode);
    let good = ServiceConfig::new("aaaa".to_string(), "web.prod".to_string(), Vec::from("port = 80"));
    let table = good.config().unwrap();
    assert_eq!(table.get("port").and_then(|v| v.as_integer()), Some(80));
    let mut file = ServiceFile::new(
        "aaaa".to_string(),
        "web.prod".to_string(),
        "f".to_string(),
        vec![1],
    );
    file.encrypted = true;
    assert_eq!(file.body().unwrap_err(), Error::Encrypted);
}

#[test]
fn configuration_beyond_the_last_code_point_is_not_utf8() {
    let beyond = ServiceConfig::new(
        "aaaa".to_string(),
        "web.prod".to_string(),
        vec![0xf4, 0x90, 0x80, 0x80],
    );
    assert_eq!(beyond.config().unwrap_err(), Error::ServiceConfigNotUtf8);
    let last = ServiceConfig::new(
        "aaaa".to_string(),
        "web.prod".to_string(),
        vec![b'k', b'=', b'"', 0xf4, 0x8f, 0xbf, 0xbf, b'"'],
    );
    assert!(last.config().is_ok());
}

#[test]
fn rumors_are_filed_by_kind_key_and_id() {
    let k = RumorKind::Election(election("a", 0)).key();
    assert_eq!((k.kind, k.key.as_str(), k.id.as_str()), (RumorType::Election, "web.prod", "election"));
    let k = RumorKind::Departure(Departure::new("xxxx")).key();
    assert_eq!((k.kind, k.key.as_str(), k.id.as_str()), (RumorType::Departure, "departure", "xxxx"));
    let f = ServiceFile::new("a".to_string(), "web.prod".to_string(), "f.conf".to_string(), vec![]);
    let k = RumorKind::ServiceFile(f).key();
    assert_eq!((k.kind, k.key.as_str(), k.id.as_str()), (RumorType::ServiceFile, "web.prod", "f.conf"));
}

#[test]
fn rumors_survive_their_own_records() {
    let e = election("a", 3);
    let record = RumorKind::Election(e.clone()).to_proto("zzzz".to_string());
    match RumorEnvelope::decode(record).unwrap().kind {
        RumorKind::Election(back) => {
            assert_eq!(back.member_id, "a");
            assert_eq!(back.suitability, 3);
            assert_eq!(back.votes, vec!["a".to_string()]);
        }
        _ => panic!("expected an election"),
    }
    let m = Membership { member: member("bbbb", 7), health: Health::Suspect };
    let env = RumorEnvelope::decode(RumorKind::Membership(m).to_proto("zzzz".to_string())).unwrap();
    assert_eq!(env.from_id, Some("zzzz".to_string()));
    match env.kind {
        RumorKind::Membership(back) => {
            assert_eq!(back.member, member("bbbb", 7));
            assert_eq!(back.health, Health::Suspect);
        }
        _ => panic!("expected a membership"),
    }
}

#[test]
fn a_member_that_refuted_is_not_confirmed() {
    let mut a = list_of("aaaa");
    a.insert(member("bbbb", 4), Health::Alive);
    assert!(mark_suspect(&mut a, &"bbbb".to_string()).is_some());
    assert!(a.insert(member("bbbb", 5), Health::Alive));
    assert!(mark_confirmed(&mut a, &"bbbb".to_string()).is_none());
    assert_eq!(a.health_of(&"bbbb".to_string()), Some(Health::Alive));
    a.insert(member("cccc", 1), Health::Confirmed);
    assert!(mark_suspect(&mut a, &"cccc".to_string()).is_none());
    assert_eq!(a.health_of(&"cccc".to_string()), Some(Health::Confirmed));
}

#[test]
fn forwarded_acks_still_bring_their_memberships() {
    let mut c = list_of("cccc");
    let ack = Ack {
        membership: vec![Membership { member: member("dddd", 2), health: Health::Suspect }],
        from: member("bbbb", 0),
        forward_to: Some(member("aaaa", 0)),
    };
    let action = process_swim(
        &mut c,
        &vec![],
        "10.0.0.2".to_string(),
        Swim { type_: SwimType::Ack, kind: SwimKind::Ack(ack) },
    );
    match action {
        SwimAction::ForwardAck { ack, .. } => assert_eq!(ack.membership.len(), 1),
        _ => panic!("expected a forwarded ack"),
    }
    assert_eq!(c.health_of(&"dddd".to_string()), Some(Health::Suspect));
}

#[test]
fn tied_elections_end_on_the_same_candidate_whatever_the_order() {
    let ids = ["m1", "m4", "m2", "m3"];
    let mut winners = Vec::new();
    for start in 0..4 {
        for reverse in [false, true] {
            let mut e = election(ids[start], 7);
            let mut others: Vec<usize> = (0..4).filter(|&k| k != start).collect();
            if reverse {
                others.reverse();
            }
            for k in others {
                e.merge(election(ids[k], 7));
            }
            let mut votes = e.votes.clone();
            votes.sort();
            assert_eq!(votes, vec!["m1", "m2", "m3", "m4"]);
            winners.push(e.member_id.clone());
        }
    }
    assert!(winners.iter().all(|w| w == "m4"));
}

#[test]
fn refutation_among_several_piggybacked_memberships() {
    let mut a = list_of("aaaa");
    let ping = Ping {
        membership: vec![
            Membership { member: member("cccc", 1), health: Health::Alive },
            Membership { member: member("aaaa", 5), health: Health::Suspect },
            Membership { member: member("dddd", 2), health: Health::Suspect },
            Membership { member: member("aaaa", 7), health: Health::Confirmed },
        ],
        from: member("bbbb", 0),
        forward_to: None,
    };
    process_swim(
        &mut a,
        &vec![],
        "10.1.1.2".to_string(),
        Swim { type_: SwimType::Ping, kind: SwimKind::Ping(ping) },
    );
    let own = a.local_membership();
    assert_eq!(own.health, Health::Alive);
    assert_eq!(own.member.incarnation, 8);
    assert_eq!(a.health_of(&"dddd".to_string()), Some(Health::Suspect));
}
