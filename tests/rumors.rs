use std::cmp::Ordering;

use butterfly::proto::SysInfo;
use butterfly::rumor::departure::Departure;
use butterfly::rumor::election::Election;
use butterfly::rumor::service::Service;
use butterfly::rumor::service_config::ServiceConfig;
use butterfly::rumor::service_file::ServiceFile;

fn create_departure(member_id: &str) -> Departure {
    Departure::new(member_id)
}

fn create_election(member_id: &str, suitability: u64) -> Election {
    Election::new(member_id.to_string(), "tdep.prod".to_string(), suitability)
}

fn empty_sys_info() -> SysInfo {
    SysInfo {
        ip: None,
        hostname: None,
        gossip_ip: None,
        gossip_port: None,
        http_gateway_ip: None,
        http_gateway_port: None,
        ctl_gateway_ip: None,
        ctl_gateway_port: None,
    }
}

fn create_service(member_id: &str) -> Service {
    Service::new(
        member_id.to_string(),
        "core/neurosis/1.2.3/20161208121212".to_string(),
        "neurosis.production".to_string(),
        empty_sys_info(),
        None,
    )
}

fn create_service_config(member_id: &str, config: &str) -> ServiceConfig {
    ServiceConfig::new(
        member_id.to_string(),
        "neurosis.production".to_string(),
        Vec::from(config),
    )
}

fn create_service_file(member_id: &str, filename: &str, body: &str) -> ServiceFile {
    ServiceFile::new(
        member_id.to_string(),
        "neurosis.production".to_string(),
        filename.to_string(),
        Vec::from(body),
    )
}

#[test]
fn identical_departures_are_equal() {
    let s1 = create_departure("mastodon");
    let s2 = create_departure("mastodon");
    assert_eq!(s1, s2);
}

#[test]
#[should_panic(expected = "assertion")]
fn departures_with_different_member_ids_are_not_equal() {
    let s1 = create_departure("mastodon");
    let s2 = create_departure("limpbizkit");
    assert_eq!(s1, s2);
}

#[test]
fn departures_that_are_identical_are_equal_via_cmp() {
    let s1 = create_departure("adam");
    let s2 = create_departure("adam");
    assert_eq!(s1.partial_cmp(&s2), Some(Ordering::Equal));
}

#[test]
fn departure_merge_returns_false_if_nothing_changed() {
    let mut s1 = create_departure("mastodon");
    let s1_check = s1.clone();
    let s2 = create_departure("mastodon");
    assert_eq!(s1.merge(s2), false);
    assert_eq!(s1, s1_check);
}

#[test]
fn merge_two_identical_elections_returns_false() {
    let mut e1 = create_election("a", 0);
    let e2 = e1.clone();
    assert_eq!(e1.merge(e2), false);
}

#[test]
fn merge_four_one_higher_suitability() {
    let mut e1 = create_election("a", 0);
    let e2 = create_election("b", 0);
    let e3 = create_election("c", 1);
    let e4 = create_election("d", 0);
    assert_eq!(e1.merge(e2), true);
    assert_eq!(e1.merge(e3), true);
    assert_eq!(e1.merge(e4), true);
    assert_eq!(e1.member_id, "c");
    assert_eq!(e1.votes.len(), 4);
}

#[test]
fn merge_four() {
    let mut e1 = create_election("a", 0);
    let e2 = create_election("b", 0);
    let e3 = create_election("c", 0);
    let e4 = create_election("d", 0);
    assert_eq!(e1.merge(e2), true);
    assert_eq!(e1.merge(e3), true);
    assert_eq!(e1.merge(e4), true);
    assert_eq!(e1.member_id, "d");
    assert_eq!(e1.votes.len(), 4);
}

#[test]
fn identical_services_are_equal() {
    let s1 = create_service("adam");
    let s2 = create_service("adam");
    assert_eq!(s1, s2);
}

#[test]
#[should_panic(expected = "assertion")]
fn services_with_different_member_ids_are_not_equal() {
    let s1 = create_service("adam");
    let s2 = create_service("shanku");
    assert_eq!(s1, s2);
}

#[test]
#[should_panic(expected = "assertion")]
fn services_with_different_incarnations_are_not_equal() {
    let s1 = create_service("adam");
    let mut s2 = create_service("adam");
    s2.set_incarnation(1);
    assert_eq!(s1, s2);
}

#[test]
#[should_panic(expected = "assertion")]
fn services_with_different_service_groups_are_not_equal() {
    let s1 = create_service("adam");
    let mut s2 = create_service("adam");
    s2.set_service_group(String::from("adam.fragile"));
    assert_eq!(s1, s2);
}

#[test]
fn services_that_are_identical_are_equal_via_cmp() {
    let s1 = create_service("adam");
    let s2 = create_service("adam");
    assert_eq!(s1.partial_cmp(&s2), Some(Ordering::Equal));
}

#[test]
fn services_with_different_incarnations_are_not_equal_via_cmp() {
    let s1 = create_service("adam");
    let mut s2 = create_service("adam");
    s2.set_incarnation(1);
    assert_eq!(s1.partial_cmp(&s2), Some(Ordering::Less));
    assert_eq!(s2.partial_cmp(&s1), Some(Ordering::Greater));
}

#[test]
fn services_of_different_members_and_groups_cannot_be_compared() {
    let s1 = create_service("adam");
    let s2 = create_service("neurosis");
    assert_eq!(s1.partial_cmp(&s2), None);
}

#[test]
fn service_merge_chooses_the_higher_incarnation() {
    let mut s1 = create_service("adam");
    let mut s2 = create_service("adam");
    s2.set_incarnation(1);
    let s2_check = s2.clone();
    assert_eq!(s1.merge(s2), true);
    assert_eq!(s1, s2_check);
}

#[test]
fn service_merge_returns_false_if_nothing_changed() {
    let mut s1 = create_service("adam");
    s1.set_incarnation(1);
    let s1_check = s1.clone();
    let s2 = create_service("adam");
    assert_eq!(s1.merge(s2), false);
    assert_eq!(s1, s1_check);
}

#[test]
fn identical_service_config_are_equal() {
    let s1 = create_service_config("adam", "yep");
    let s2 = create_service_config("adam", "yep");
    assert_eq!(s1, s2);
}

#[test]
#[should_panic(expected = "assertion")]
fn service_configs_with_different_incarnations_are_not_equal() {
    let s1 = create_service_config("adam", "yep");
    let mut s2 = create_service_config("adam", "yep");
    s2.incarnation = 1;
    assert_eq!(s1, s2);
}

#[test]
#[should_panic(expected = "assertion")]
fn service_configs_with_different_service_groups_are_not_equal() {
    let s1 = create_service_config("adam", "yep");
    let mut s2 = create_service_config("adam", "yep");
    s2.service_group = String::from("adam.fragile");
    assert_eq!(s1, s2);
}

#[test]
fn service_configs_that_are_identical_are_equal_via_cmp() {
    let s1 = create_service_config("adam", "yep");
    let s2 = create_service_config("adam", "yep");
    assert_eq!(s1.partial_cmp(&s2), Some(Ordering::Equal));
}

#[test]
fn service_configs_with_different_incarnations_are_not_equal_via_cmp() {
    let s1 = create_service_config("adam", "yep");
    let mut s2 = create_service_config("adam", "yep");
    s2.incarnation = 1;
    assert_eq!(s1.partial_cmp(&s2), Some(Ordering::Less));
    assert_eq!(s2.partial_cmp(&s1), Some(Ordering::Greater));
}

#[test]
fn service_config_merge_chooses_the_higher_incarnation() {
    let mut s1 = create_service_config("adam", "yep");
    let mut s2 = create_service_config("adam", "yep");
    s2.incarnation = 1;
    let s2_check = s2.clone();
    assert_eq!(s1.merge(s2), true);
    assert_eq!(s1, s2_check);
}

#[test]
fn service_config_merge_returns_false_if_nothing_changed() {
    let mut s1 = create_service_config("adam", "yep");
    s1.incarnation = 1;
    let s1_check = s1.clone();
    let s2 = create_service_config("adam", "yep");
    assert_eq!(s1.merge(s2), false);
    assert_eq!(s1, s1_check);
}

#[test]
fn config_comes_back_as_a_toml_value() {
    let s1 = create_service_config("adam", "yep=1");
    assert_eq!(
        s1.config().unwrap(),
        toml::from_str::<toml::Table>("yep=1").unwrap()
    );
}

#[test]
fn identical_service_file_are_equal() {
    let s1 = create_service_file("adam", "yep", "tcp-backlog = 128");
    let s2 = create_service_file("adam", "yep", "tcp-backlog = 128");
    assert_eq!(s1, s2);
}

#[test]
#[should_panic(expected = "assertion")]
fn service_files_with_different_incarnations_are_not_equal() {
    let s1 = create_service_file("adam", "yep", "tcp-backlog = 128");
    let mut s2 = create_service_file("adam", "yep", "tcp-backlog = 128");
    s2.set_incarnation(1);
    assert_eq!(s1, s2);
}

#[test]
#[should_panic(expected = "assertion")]
fn service_files_with_different_service_groups_are_not_equal() {
    let s1 = create_service_file("adam", "yep", "tcp-backlog = 128");
    let mut s2 = create_service_file("adam", "yep", "tcp-backlog = 128");
    s2.set_service_group(String::from("adam.fragile"));
    assert_eq!(s1, s2);
}

#[test]
fn service_files_that_are_identical_are_equal_via_cmp() {
    let s1 = create_service_file("adam", "yep", "tcp-backlog = 128");
    let s2 = create_service_file("adam", "yep", "tcp-backlog = 128");
    assert_eq!(s1.partial_cmp(&s2), Some(Ordering::Equal));
}

#[test]
fn service_files_with_different_incarnations_are_not_equal_via_cmp() {
    let s1 = create_service_file("adam", "yep", "tcp-backlog = 128");
    let mut s2 = create_service_file("adam", "yep", "tcp-backlog = 128");
    s2.set_incarnation(1);
    assert_eq!(s1.partial_cmp(&s2), Some(Ordering::Less));
    assert_eq!(s2.partial_cmp(&s1), Some(Ordering::Greater));
}

#[test]
fn service_file_merge_chooses_the_higher_incarnation() {
    let mut s1 = create_service_file("adam", "yep", "tcp-backlog = 128");
    let mut s2 = create_service_file("adam", "yep", "tcp-backlog = 128");
    s2.set_incarnation(1);
    let s2_check = s2.clone();
    assert_eq!(s1.merge(s2), true);
    assert_eq!(s1, s2_check);
}

#[test]
fn service_file_merge_returns_false_if_nothing_changed() {
    let mut s1 = create_service_file("adam", "yep", "tcp-backlog = 128");
    s1.set_incarnation(1);
    let s1_check = s1.clone();
    let s2 = create_service_file("adam", "yep", "tcp-backlog = 128");
    assert_eq!(s1.merge(s2), false);
    assert_eq!(s1, s1_check);
}

#[test]
fn config_comes_back_as_a_string() {
    let s1 = create_service_file("adam", "yep", "tcp-backlog = 128");
    assert_eq!(
        String::from_utf8(s1.body().unwrap()).expect("cannot get a utf-8 string for the body"),
        String::from("tcp-backlog = 128")
    );
}

#[test]
fn service_keeps_its_configuration_as_toml_text() {
    let table = toml::from_str::<toml::Table>("yep = 1").unwrap();
    let s = Service::new(
        "adam".to_string(),
        "core/neurosis/1.2.3/20161208121212".to_string(),
        "neurosis.production".to_string(),
        empty_sys_info(),
        Some(&table),
    );
    let text = String::from_utf8(s.cfg.clone()).unwrap();
    assert_eq!(toml::from_str::<toml::Table>(&text).unwrap(), table);
    assert_eq!(s.incarnation, 0);
    assert!(!s.initialized);
}

#[test]
fn elections_are_equal_whoever_sent_them() {
    let e1 = create_election("a", 0);
    let mut e2 = create_election("a", 0);
    e2.from_id = "someone-else".to_string();
    assert_eq!(e1, e2);
    let e3 = create_election("a", 1);
    assert_ne!(e1, e3);
}
