use ceph_cmd::cmd::{
    cluster_health_reply, mgr_count_metadata_reply, mgr_dump_reply, mgr_list_services_reply,
    mgr_metadata_reply, mgr_versions_reply, mon_dump_reply, mon_status_reply, osd_tree_reply,
};
use ceph_cmd::command::Operation;
use ceph_cmd::json::{field, Decode, Json};
use ceph_cmd::model::{
    CephMon, ClusterId, Counts, CrushNode, Mon, MonDump, Real, StoreStats,
};
use ceph_cmd::reply::{CmdError, Reply};
use ceph_cmd::token::{HealthStatus, MonState, RoundStatus};

fn reply(primary: &str) -> Result<Reply, String> {
    Ok(Reply { primary: Some(primary.to_string()), diagnostic: None })
}

fn num(literal: &str) -> Json {
    Json::Number(literal.to_string())
}

fn text(s: &str) -> Json {
    Json::Text(s.to_string())
}

fn object(members: Vec<(&str, Json)>) -> Json {
    Json::Object(members.into_iter().map(|(k, v)| (k.to_string(), v)).collect())
}

#[test]
fn a_monitor_map_decodes() {
    let line = "{\"epoch\":1,\"fsid\":\"a7f64266-0894-4f1e-a635-d0aeaca0e993\",\"modified\":\"2017-01-01 00:00:00.000000\",\"created\":\"2016-12-31 23:59:59.000000\",\"mons\":[{\"rank\":0,\"name\":\"a\",\"addr\":\"10.0.0.1:6789/0\"},{\"rank\":1,\"name\":\"b\",\"addr\":\"10.0.0.2:6789/0\"}],\"quorum\":[1,0],\"extra\":{\"ignored\":true}}";
    let dump = mon_dump_reply(reply(line)).unwrap();
    assert_eq!(
        dump,
        MonDump {
            epoch: 1,
            fsid: "a7f64266-0894-4f1e-a635-d0aeaca0e993".to_string(),
            modified: "2017-01-01 00:00:00.000000".to_string(),
            created: "2016-12-31 23:59:59.000000".to_string(),
            mons: vec![
                CephMon { rank: 0, name: "a".to_string(), addr: "10.0.0.1:6789/0".to_string() },
                CephMon { rank: 1, name: "b".to_string(), addr: "10.0.0.2:6789/0".to_string() },
            ],
            quorum: vec![1, 0],
        }
    );
}

#[test]
fn a_monitor_status_decodes_with_its_cluster_identifier() {
    let line = "{\"name\":\"a\",\"rank\":0,\"state\":\"leader\",\"election_epoch\":6,\"quorum\":[0,2,1],\"outside_quorum\":[],\"extra_probe_peers\":[],\"sync_provider\":[],\"monmap\":{\"epoch\":2,\"fsid\":\"a1a2a3a4-b1b2-c1c2-d1d2-d3d4d5d6d7d8\",\"modified\":\"m\",\"created\":\"c\",\"mons\":[{\"rank\":0,\"name\":\"a\",\"addr\":\"x\"}]}}";
    let status = mon_status_reply(reply(line)).unwrap();
    assert_eq!(status.name, "a");
    assert_eq!(status.state, MonState::Leader);
    assert_eq!(status.election_epoch, 6);
    assert_eq!(status.quorum, vec![0, 2, 1]);
    assert!(status.outside_quorum.is_empty());
    assert_eq!(status.monmap.epoch, 2);
    assert_eq!(status.monmap.fsid, ClusterId { bits: 0xa1a2a3a4b1b2c1c2d1d2d3d4d5d6d7d8 });
    assert_eq!(status.monmap.mons, vec![Mon { rank: 0, name: "a".to_string(), addr: "x".to_string() }]);

    let simple = line.replace("a1a2a3a4-b1b2-c1c2-d1d2-d3d4d5d6d7d8", "a1a2a3a4b1b2c1c2d1d2d3d4d5d6d7d8");
    assert_eq!(mon_status_reply(reply(&simple)).unwrap().monmap.fsid, status.monmap.fsid);

    let shifted = line.replace("a1a2a3a4-b1b2-c1c2-d1d2-d3d4d5d6d7d8", "00000000-0000-0000-0000-000000000001");
    assert_eq!(mon_status_reply(reply(&shifted)).unwrap().monmap.fsid, ClusterId { bits: 1 });

    let broken = line.replace("a1a2a3a4-b1b2-c1c2-d1d2-d3d4d5d6d7d8", "not-an-identifier");
    assert_eq!(
        mon_status_reply(reply(&broken)),
        Err(CmdError::Malformed { operation: Operation::MonStatus, text: broken.clone() })
    );
    let unknown_state = line.replace("leader", "Leader");
    assert!(mon_status_reply(reply(&unknown_state)).is_err());
}

#[test]
fn a_health_report_decodes() {
    let line = "{\"health\":{\"health_services\":[{\"mons\":[{\"name\":\"a\",\"kb_total\":100,\"kb_used\":40,\"kb_avail\":60,\"avail_percent\":60,\"last_updated\":\"t\",\"store_stats\":{\"bytes_total\":5,\"bytes_sst\":1,\"bytes_log\":2,\"bytes_misc\":2,\"last_updated\":\"0.000000\"},\"health\":\"HEALTH_OK\"}]}]},\"timechecks\":{\"epoch\":4,\"round\":2,\"round_status\":\"on-going\",\"mons\":[{\"name\":\"a\",\"skew\":0.0,\"latency\":-1.5e-3,\"health\":\"HEALTH_WARN\"},{\"name\":\"b\",\"skew\":2,\"latency\":0.25,\"health\":\"HEALTH_ERR\"}]},\"summary\":[\"s\"],\"overall_status\":\"HEALTH_WARN\",\"detail\":[]}";
    let health = cluster_health_reply(reply(line)).unwrap();
    assert_eq!(health.overall_status, HealthStatus::Warn);
    assert_eq!(health.summary, vec!["s".to_string()]);
    assert!(health.detail.is_empty());
    let mon = &health.health.health_services[0].mons[0];
    assert_eq!(mon.name, "a");
    assert_eq!((mon.kb_total, mon.kb_used, mon.kb_avail, mon.avail_percent), (100, 40, 60, 60));
    assert_eq!(mon.health, HealthStatus::Okay);
    assert_eq!(
        mon.store_stats,
        StoreStats { bytes_total: 5, bytes_sst: 1, bytes_log: 2, bytes_misc: 2, last_updated: "0.000000".to_string() }
    );
    assert_eq!(health.timechecks.epoch, 4);
    assert_eq!(health.timechecks.round, 2);
    assert_eq!(health.timechecks.round_status, RoundStatus::OnGoing);
    let checks = &health.timechecks.mons;
    assert_eq!(checks.len(), 2);
    assert_eq!(checks[0].skew, Real { literal: "0.0".to_string() });
    assert_eq!(checks[0].latency.literal.parse::<f64>().unwrap(), -0.0015);
    assert_eq!(checks[0].health, HealthStatus::Warn);
    assert_eq!(checks[1].skew, Real { literal: "2".to_string() });
    assert_eq!(checks[1].latency, Real { literal: "0.25".to_string() });
    assert_eq!(checks[1].health, HealthStatus::Error);

    let too_full = line.replace("\"avail_percent\":60", "\"avail_percent\":256");
    assert!(cluster_health_reply(reply(&too_full)).is_err());
    let wrong_token = line.replace("on-going", "on_going");
    assert!(cluster_health_reply(reply(&wrong_token)).is_err());
}

#[test]
fn a_placement_tree_decodes_with_optional_members() {
    let line = "{\"nodes\":[{\"id\":-1,\"name\":\"default\",\"type\":\"root\",\"type_id\":10,\"children\":[-2]},{\"id\":0,\"name\":\"osd.0\",\"type\":\"osd\",\"type_id\":0,\"crush_weight\":0.0097,\"depth\":2,\"exists\":1,\"status\":\"up\",\"reweight\":1.0,\"primary_affinity\":1,\"children\":null}],\"stray\":[\"osd.9\"]}";
    let tree = osd_tree_reply(reply(line)).unwrap();
    assert_eq!(tree.stray, vec!["osd.9".to_string()]);
    assert_eq!(
        tree.nodes[0],
        CrushNode {
            id: -1,
            name: "default".to_string(),
            crush_type: "root".to_string(),
            type_id: 10,
            children: Some(vec![-2]),
            crush_weight: None,
            depth: None,
            exists: None,
            status: None,
            reweight: None,
            primary_affinity: None,
        }
    );
    assert_eq!(
        tree.nodes[1],
        CrushNode {
            id: 0,
            name: "osd.0".to_string(),
            crush_type: "osd".to_string(),
            type_id: 0,
            children: None,
            crush_weight: Some(Real { literal: "0.0097".to_string() }),
            depth: Some(2),
            exists: Some(1),
            status: Some("up".to_string()),
            reweight: Some(Real { literal: "1.0".to_string() }),
            primary_affinity: Some(Real { literal: "1".to_string() }),
        }
    );
    let missing = "{\"nodes\":[{\"id\":-1,\"name\":\"default\",\"type_id\":10}],\"stray\":[]}";
    assert!(osd_tree_reply(reply(missing)).is_err());
    let fraction = "{\"nodes\":[{\"id\":1.5,\"name\":\"default\",\"type\":\"root\",\"type_id\":10}],\"stray\":[]}";
    assert!(osd_tree_reply(reply(fraction)).is_err());
}

#[test]
fn a_manager_map_decodes() {
    let line = "{\"epoch\":9,\"active_gid\":4107,\"active_name\":\"a\",\"active_addr\":\"10.0.0.1:6800/1\",\"available\":true,\"standbys\":[{\"gid\":4109,\"name\":\"b\",\"available_modules\":[\"restful\",\"status\"]}],\"modules\":[\"restful\"],\"available_modules\":[\"dashboard\",\"restful\",\"status\"]}";
    let map = mgr_dump_reply(reply(line)).unwrap();
    assert_eq!(map.epoch, 9);
    assert_eq!(map.active_gid, 4107);
    assert_eq!(map.active_name, "a");
    assert_eq!(map.active_addr, "10.0.0.1:6800/1");
    assert!(map.available);
    assert_eq!(map.standbys.len(), 1);
    assert_eq!(map.standbys[0].gid, 4109);
    assert_eq!(map.standbys[0].name, "b");
    assert_eq!(map.standbys[0].available_modules, vec!["restful".to_string(), "status".to_string()]);
    assert_eq!(map.modules, vec!["restful".to_string()]);
    assert_eq!(map.available_modules.len(), 3);
    let not_a_flag = line.replace("\"available\":true", "\"available\":1");
    assert!(mgr_dump_reply(reply(&not_a_flag)).is_err());
    let negative = line.replace("\"epoch\":9", "\"epoch\":-9");
    assert!(mgr_dump_reply(reply(&negative)).is_err());
}

#[test]
fn manager_metadata_decodes() {
    let line = "{\"id\":\"a\",\"arch\":\"x86_64\",\"ceph_version\":\"12.2.0\",\"cpu\":\"c\",\"distro\":\"ubuntu\",\"distro_description\":\"Ubuntu 16.04\",\"distro_version\":\"16.04\",\"hostname\":\"h\",\"kernel_description\":\"k\",\"kernel_version\":\"4.4\",\"mem_swap_kb\":0,\"mem_total_kb\":18446744073709551615,\"os\":\"Linux\"}";
    let meta = mgr_metadata_reply(reply(line)).unwrap();
    assert_eq!(meta.id, "a");
    assert_eq!(meta.arch, "x86_64");
    assert_eq!(meta.ceph_version, "12.2.0");
    assert_eq!(meta.distro_description, "Ubuntu 16.04");
    assert_eq!(meta.mem_swap_kb, 0);
    assert_eq!(meta.mem_total_kb, u64::MAX);
    assert_eq!(meta.os, "Linux");
    let too_large = line.replace("18446744073709551615", "18446744073709551616");
    assert!(mgr_metadata_reply(reply(&too_large)).is_err());
    assert!(mgr_metadata_reply(reply("[]")).is_err());
}

#[test]
fn counts_decode_by_name() {
    let counts = mgr_versions_reply(reply("{\"ceph version 12.2.0\":2,\"ceph version 12.2.1\":1}")).unwrap();
    assert_eq!(counts.entries().len(), 2);
    assert_eq!(counts.get("ceph version 12.2.0"), Some(2));
    assert_eq!(counts.get("ceph version 12.2.1"), Some(1));
    assert_eq!(counts.get("ceph version 13"), None);
    let counts = mgr_count_metadata_reply(reply("{}")).unwrap();
    assert!(counts.entries().is_empty());
    assert_eq!(counts.get(""), None);
    assert!(mgr_count_metadata_reply(reply("{\"x\":\"1\"}")).is_err());
    assert!(mgr_count_metadata_reply(reply("{\"x\":-1}")).is_err());
    assert!(mgr_count_metadata_reply(reply("[]")).is_err());
    assert_eq!(
        mgr_list_services_reply(reply("[\"http://a:7000/\",\"http://b:8003/\"]")),
        Ok(vec!["http://a:7000/".to_string(), "http://b:8003/".to_string()])
    );
}

#[test]
fn counts_refuse_a_name_that_occurs_twice() {
    let twice = object(vec![("x", num("1")), ("y", num("2")), ("x", num("3"))]);
    assert_eq!(Counts::decode(&twice), None);
    let once = object(vec![("x", num("1")), ("y", num("2"))]);
    let counts = Counts::decode(&once).unwrap();
    assert_eq!(counts.entries(), &vec![("x".to_string(), 1), ("y".to_string(), 2)]);
}

#[test]
fn members_are_found_by_name() {
    let doc = object(vec![("a", num("1")), ("b", text("two")), ("a", num("3")), ("n", Json::Null)]);
    assert_eq!(doc.get("a"), Some(&num("1")));
    assert_eq!(doc.get("b"), Some(&text("two")));
    assert_eq!(doc.get("n"), Some(&Json::Null));
    assert_eq!(doc.get("c"), None);
    assert_eq!(doc.get("A"), None);
    assert_eq!(text("a").get("a"), None);
    assert_eq!(field::<u64>(&doc, "a"), Some(1));
    assert_eq!(field::<String>(&doc, "b"), Some("two".to_string()));
    assert_eq!(field::<u64>(&doc, "b"), None);
    assert_eq!(field::<u64>(&doc, "c"), None);
    assert_eq!(field::<Option<u64>>(&doc, "c"), Some(None));
    assert_eq!(field::<Option<u64>>(&doc, "n"), Some(None));
    assert_eq!(field::<Option<u64>>(&doc, "a"), Some(Some(1)));
    assert_eq!(field::<Option<u64>>(&doc, "b"), None);
}

#[test]
fn plain_values_decode_by_their_rules() {
    assert_eq!(u64::decode(&num("42")), Some(42));
    assert_eq!(u64::decode(&num("-42")), None);
    assert_eq!(u64::decode(&num("4.2")), None);
    assert_eq!(u64::decode(&text("42")), None);
    assert_eq!(u8::decode(&num("255")), Some(255));
    assert_eq!(u8::decode(&num("256")), None);
    assert_eq!(i64::decode(&num("-42")), Some(-42));
    assert_eq!(i64::decode(&num("-9223372036854775808")), Some(i64::MIN));
    assert_eq!(i64::decode(&num("9223372036854775808")), None);
    assert_eq!(bool::decode(&Json::Bool(false)), Some(false));
    assert_eq!(bool::decode(&num("0")), None);
    assert_eq!(String::decode(&text("")), Some(String::new()));
    assert_eq!(String::decode(&Json::Null), None);
    assert_eq!(Real::decode(&num("1e-7")), Some(Real { literal: "1e-7".to_string() }));
    assert_eq!(Real::decode(&text("1.0")), None);
    assert_eq!(Vec::<u64>::decode(&Json::List(vec![num("3"), num("1"), num("2")])), Some(vec![3, 1, 2]));
    assert_eq!(Vec::<u64>::decode(&Json::List(vec![num("3"), text("1")])), None);
    assert_eq!(Vec::<u64>::decode(&Json::List(vec![])), Some(vec![]));
    assert_eq!(Vec::<u64>::decode(&object(vec![])), None);
    assert_eq!(HealthStatus::decode(&text("HEALTH_OK")), Some(HealthStatus::Okay));
    assert_eq!(HealthStatus::decode(&text("OK")), None);
    assert_eq!(RoundStatus::decode(&text("finished")), Some(RoundStatus::Finished));
    assert_eq!(MonState::decode(&text("peon")), Some(MonState::Peon));
    assert_eq!(MonState::decode(&num("1")), None);
    assert_eq!(
        ClusterId::decode(&text("urn:uuid:00000000-0000-0000-0000-0000000000ff")),
        Some(ClusterId { bits: 255 })
    );
    assert_eq!(ClusterId::decode(&text("")), None);
}

#[test]
fn a_record_decodes_from_an_object_only() {
    let mon = object(vec![("rank", num("2")), ("name", text("c")), ("addr", text("z")), ("more", Json::Bool(true))]);
    assert_eq!(CephMon::decode(&mon), Some(CephMon { rank: 2, name: "c".to_string(), addr: "z".to_string() }));
    assert_eq!(CephMon::decode(&Json::List(vec![num("2"), text("c"), text("z")])), None);
    assert_eq!(CephMon::decode(&object(vec![("rank", num("2")), ("name", text("c"))])), None);
    assert_eq!(CephMon::decode(&object(vec![("rank", Json::Null), ("name", text("c")), ("addr", text("z"))])), None);
    assert_eq!(CephMon::decode(&Json::Null), None);
}
