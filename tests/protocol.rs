use butterfly::error::{Error, Field};
use butterfly::ids::text_less;
use butterfly::proto;
use butterfly::rumor::{RumorEnvelope, RumorKind, RumorType};
use butterfly::swim::{
    memberships_from, Health, Member, Membership, Ping, Swim, SwimKind, SwimType,
};

fn proto_member(id: &str) -> proto::Member {
    proto::Member {
        id: Some(id.to_string()),
        incarnation: Some(3),
        address: Some("10.0.0.1".to_string()),
        swim_port: Some(9638),
        gossip_port: Some(9639),
        persistent: None,
        departed: Some(true),
    }
}

fn member(id: &str) -> Member {
    Member {
        id: id.to_string(),
        incarnation: 0,
        address: "127.0.0.1".to_string(),
        swim_port: 9638,
        gossip_port: 9639,
        persistent: false,
        departed: false,
    }
}

fn ping_record(from: Option<proto::Member>) -> proto::Swim {
    proto::Swim {
        type_: 1,
        membership: vec![proto::Membership { member: Some(proto_member("cccc")), health: Some(2) }],
        payload: Some(proto::swim::Payload::Ping(proto::Ping { from, forward_to: None })),
    }
}

#[test]
fn member_record_with_defaults_decodes() {
    let mut p = proto_member("aaaa");
    p.incarnation = None;
    let m = Member::from_proto(p).unwrap();
    assert_eq!(m.id, "aaaa");
    assert_eq!(m.incarnation, 0);
    assert_eq!(m.swim_port, 9638);
    assert_eq!(m.persistent, false);
    assert_eq!(m.departed, true);
}

#[test]
fn member_record_errors_name_the_missing_field() {
    let mut p = proto_member("aaaa");
    p.id = None;
    assert_eq!(Member::from_proto(p).unwrap_err(), Error::ProtocolMismatch(Field::Id));
    let mut p = proto_member("aaaa");
    p.address = None;
    assert_eq!(Member::from_proto(p).unwrap_err(), Error::ProtocolMismatch(Field::Address));
    let mut p = proto_member("aaaa");
    p.swim_port = None;
    assert_eq!(Member::from_proto(p).unwrap_err(), Error::ProtocolMismatch(Field::SwimPort));
    let mut p = proto_member("aaaa");
    p.gossip_port = None;
    assert_eq!(Member::from_proto(p).unwrap_err(), Error::ProtocolMismatch(Field::GossipPort));
}

#[test]
fn membership_without_known_health_is_alive() {
    let m = Membership::from_proto(proto::Membership {
        member: Some(proto_member("aaaa")),
        health: Some(17),
    })
    .unwrap();
    assert_eq!(m.health, Health::Alive);
    let m = Membership::from_proto(proto::Membership {
        member: Some(proto_member("aaaa")),
        health: Some(3),
    })
    .unwrap();
    assert_eq!(m.health, Health::Confirmed);
    let e = Membership::from_proto(proto::Membership { member: None, health: Some(1) });
    assert_eq!(e.unwrap_err(), Error::ProtocolMismatch(Field::Member));
}

#[test]
fn membership_list_reports_the_first_bad_record() {
    let mut bad = proto_member("bbbb");
    bad.address = None;
    let mut worse = proto_member("cccc");
    worse.id = None;
    let list = vec![
        proto::Membership { member: Some(proto_member("aaaa")), health: None },
        proto::Membership { member: Some(bad), health: None },
        proto::Membership { member: Some(worse), health: None },
    ];
    assert_eq!(memberships_from(list).unwrap_err(), Error::ProtocolMismatch(Field::Address));
}

#[test]
fn ping_decodes_with_its_memberships() {
    let s = Swim::decode(ping_record(Some(proto_member("bbbb")))).unwrap();
    assert_eq!(s.type_, SwimType::Ping);
    match s.kind {
        SwimKind::Ping(p) => {
            assert_eq!(p.from.id, "bbbb");
            assert!(p.forward_to.is_none());
            assert_eq!(p.membership.len(), 1);
            assert_eq!(p.membership[0].member.id, "cccc");
            assert_eq!(p.membership[0].health, Health::Suspect);
        }
        _ => panic!("expected a ping"),
    }
}

#[test]
fn swim_decode_errors() {
    assert_eq!(
        Swim::decode(ping_record(None)).unwrap_err(),
        Error::ProtocolMismatch(Field::From)
    );
    let mut unknown = ping_record(Some(proto_member("bbbb")));
    unknown.type_ = 9;
    assert_eq!(Swim::decode(unknown).unwrap_err(), Error::ProtocolMismatch(Field::Type));
    let mut mismatched = ping_record(Some(proto_member("bbbb")));
    mismatched.type_ = 2;
    assert_eq!(Swim::decode(mismatched).unwrap_err(), Error::ProtocolMismatch(Field::Payload));
    let mut empty = ping_record(Some(proto_member("bbbb")));
    empty.payload = None;
    assert_eq!(Swim::decode(empty).unwrap_err(), Error::ProtocolMismatch(Field::Payload));
    let pingreq = proto::Swim {
        type_: 3,
        membership: vec![],
        payload: Some(proto::swim::Payload::Pingreq(proto::PingReq {
            from: Some(proto_member("aaaa")),
            target: None,
        })),
    };
    assert_eq!(Swim::decode(pingreq).unwrap_err(), Error::ProtocolMismatch(Field::Target));
}

#[test]
fn swim_encode_then_decode_gives_the_message_back() {
    let ping = Ping {
        membership: vec![Membership { member: member("cccc"), health: Health::Confirmed }],
        from: member("aaaa"),
        forward_to: Some(member("bbbb")),
    };
    let record = Swim { type_: SwimType::Ping, kind: SwimKind::Ping(ping) }.encode();
    assert_eq!(record.type_, 1);
    assert_eq!(record.membership[0].health, Some(3));
    match Swim::decode(record).unwrap().kind {
        SwimKind::Ping(p) => {
            assert_eq!(p.from, member("aaaa"));
            assert_eq!(p.forward_to, Some(member("bbbb")));
            assert_eq!(p.membership[0].member, member("cccc"));
            assert_eq!(p.membership[0].health, Health::Confirmed);
        }
        _ => panic!("expected a ping"),
    }
}

#[test]
fn health_numbers_and_names() {
    assert_eq!(Health::from_i32(4), Some(Health::Departed));
    assert_eq!(Health::from_i32(0), None);
    assert_eq!(Health::Suspect.to_i32(), 2);
    assert_eq!(Health::Confirmed.as_str(), "confirmed");
    assert_eq!(Health::from_name("suspect"), Some(Health::Suspect));
    assert_eq!(Health::from_name("Suspect"), None);
    assert_eq!(Health::parse("DePaRtEd"), Some(Health::Departed));
    assert_eq!(Health::parse("zombie"), None);
    assert!(Health::Alive.rank() < Health::Suspect.rank());
    assert!(Health::Confirmed.rank() < Health::Departed.rank());
}

#[test]
fn member_ids_sort_character_by_character() {
    assert!(text_less("a", "b"));
    assert!(!text_less("b", "a"));
    assert!(text_less("ab", "abc"));
    assert!(!text_less("abc", "abc"));
    assert!(text_less("Z", "a"));
}

#[test]
fn fresh_member_id_is_its_number_in_hex() {
    let a = Member::fresh(0x0123_4567_89ab_cdef_fedc_ba98_7654_3210);
    assert_eq!(a.id, "0123456789abcdeffedcba9876543210");
    assert_eq!(Member::fresh(255).id, "000000000000000000000000000000ff");
    assert_eq!(a.incarnation, 0);
    assert_eq!(a.address, "");
}

fn rumor_record(type_: i32, payload: Option<proto::rumor::Payload>) -> proto::Rumor {
    proto::Rumor { type_, tag: vec![], from_id: Some("aaaa".to_string()), payload }
}

fn election_payload() -> proto::rumor::Payload {
    proto::rumor::Payload::Election(proto::Election {
        member_id: Some("cccc".to_string()),
        service_group: Some("web.prod".to_string()),
        term: Some(2),
        suitability: None,
        status: Some(3),
        votes: vec!["aaaa".to_string(), "cccc".to_string()],
    })
}

#[test]
fn rumor_envelope_routes_by_type() {
    let env = RumorEnvelope::decode(rumor_record(8, Some(election_payload()))).unwrap();
    assert_eq!(env.type_, RumorType::ElectionUpdate);
    assert_eq!(env.from_id, Some("aaaa".to_string()));
    match env.kind {
        RumorKind::ElectionUpdate(e) => {
            assert_eq!(e.0.member_id, "cccc");
            assert_eq!(e.0.term, 2);
            assert_eq!(e.0.suitability, 0);
            assert!(e.0.is_finished());
            assert_eq!(e.0.votes.len(), 2);
        }
        _ => panic!("expected an election update"),
    }
    let env = RumorEnvelope::decode(rumor_record(
        9,
        Some(proto::rumor::Payload::Departure(proto::Departure {
            member_id: Some("dddd".to_string()),
        })),
    ))
    .unwrap();
    match env.kind {
        RumorKind::Departure(d) => assert_eq!(d.member_id, "dddd"),
        _ => panic!("expected a departure"),
    }
}

#[test]
fn rumor_envelope_errors() {
    assert_eq!(
        RumorEnvelope::decode(rumor_record(6, Some(election_payload()))).unwrap_err(),
        Error::ProtocolMismatch(Field::Type)
    );
    assert_eq!(
        RumorEnvelope::decode(rumor_record(2, Some(election_payload()))).unwrap_err(),
        Error::ProtocolMismatch(Field::Type)
    );
    assert_eq!(
        RumorEnvelope::decode(rumor_record(3, None)).unwrap_err(),
        Error::ProtocolMismatch(Field::Payload)
    );
    assert_eq!(
        RumorEnvelope::decode(rumor_record(42, Some(election_payload()))).unwrap_err(),
        Error::ProtocolMismatch(Field::Type)
    );
    let mut no_sender = rumor_record(3, Some(election_payload()));
    no_sender.from_id = None;
    assert_eq!(
        RumorEnvelope::decode(no_sender).unwrap_err(),
        Error::ProtocolMismatch(Field::FromId)
    );
    let no_group = rumor_record(
        4,
        Some(proto::rumor::Payload::ServiceConfig(proto::ServiceConfig {
            service_group: None,
            incarnation: None,
            encrypted: None,
            config: None,
        })),
    );
    assert_eq!(
        RumorEnvelope::decode(no_group).unwrap_err(),
        Error::ProtocolMismatch(Field::ServiceGroup)
    );
    let no_file = rumor_record(
        5,
        Some(proto::rumor::Payload::ServiceFile(proto::ServiceFile {
            service_group: Some("web.prod".to_string()),
            incarnation: None,
            encrypted: None,
            filename: None,
            body: None,
        })),
    );
    assert_eq!(
        RumorEnvelope::decode(no_file).unwrap_err(),
        Error::ProtocolMismatch(Field::Filename)
    );
    let no_member = rumor_record(
        9,
        Some(proto::rumor::Payload::Departure(proto::Departure { member_id: None })),
    );
    assert_eq!(
        RumorEnvelope::decode(no_member).unwrap_err(),
        Error::ProtocolMismatch(Field::MemberId)
    );
}
