use std::cell::Cell;

use ceph_cmd::cmd::{
    auth_del, auth_get_key_reply, cluster_health_reply, mgr_auth_add, mgr_disable_module,
    mgr_enable_module, mgr_fail, mgr_list_modules_reply, mon_dump_reply, mon_quorum_reply,
    osd_auth_add, osd_create, osd_create_reply, osd_crush_add, osd_crush_remove, osd_out,
    osd_pool_get_reply, osd_pool_quota_get_reply, osd_pool_set, osd_rm, osd_set, osd_unset,
    status_reply, version_reply,
};
use ceph_cmd::command::{Command, FieldName, Operation};
use ceph_cmd::gate::{gate, Step};
use ceph_cmd::reply::{
    document_reply, number_reply, take_primary, text_reply, unit_reply, CmdError, Outcome, Reply,
};
use ceph_cmd::token::{OsdOption, PoolOption};

fn reply(primary: Option<&str>, diagnostic: Option<&str>) -> Result<Reply, String> {
    Ok(Reply {
        primary: primary.map(|s| s.to_string()),
        diagnostic: diagnostic.map(|s| s.to_string()),
    })
}

fn malformed<T>(operation: Operation, text: &str) -> Result<T, CmdError<String>> {
    Err(CmdError::Malformed { operation, text: text.to_string() })
}

/// A transport double: counts its calls and answers each with `answer`.
struct Double {
    calls: Cell<usize>,
    answer: Result<Reply, String>,
}

impl Double {
    fn new(answer: Result<Reply, String>) -> Double {
        Double { calls: Cell::new(0), answer }
    }

    fn send(&self, _command: &Command) -> Result<Reply, String> {
        self.calls.set(self.calls.get() + 1);
        self.answer.clone()
    }

    /// Runs a mutation as a caller of the library does.
    fn run<T>(&self, step: Step<T>, finish: fn(Result<Reply, String>) -> Result<T, CmdError<String>>) -> Result<T, CmdError<String>> {
        match step {
            Step::Simulated(_, placeholder) => Ok(placeholder),
            Step::Dispatch(command) => finish(self.send(&command)),
        }
    }
}

fn every_mutation(simulate: bool) -> Vec<Step<()>> {
    vec![
        osd_out(1, simulate),
        osd_crush_remove(1, simulate),
        osd_pool_set("rbd", &PoolOption::Size, "3", simulate),
        osd_set(&OsdOption::NoOut, false, simulate),
        osd_set(&OsdOption::NoOut, true, simulate),
        osd_unset(&OsdOption::NoOut, simulate),
        auth_del(1, simulate),
        osd_rm(1, simulate),
        mgr_auth_add("a", simulate),
        osd_auth_add(1, simulate),
        osd_crush_add::<String>(1, "1.0", "host", simulate).unwrap(),
        mgr_fail("a", simulate),
        mgr_enable_module("m", false, simulate),
        mgr_enable_module("m", true, simulate),
        mgr_disable_module("m", simulate),
    ]
}

#[test]
fn a_simulated_mutation_is_never_sent() {
    let double = Double::new(Err("the transport must not be reached".to_string()));
    for step in every_mutation(true) {
        assert!(matches!(step, Step::Simulated(_, ())));
        assert_eq!(double.run(step, unit_reply), Ok(()));
    }
    assert_eq!(double.run(osd_create(None, true), osd_create_reply), Ok(0));
    assert_eq!(double.run(osd_create(Some(5), true), osd_create_reply), Ok(0));
    assert_eq!(double.calls.get(), 0);
}

#[test]
fn a_mutation_that_is_not_simulated_is_sent_once() {
    let double = Double::new(reply(Some("42"), None));
    let mut sent = 0;
    for step in every_mutation(false) {
        assert!(matches!(step, Step::Dispatch(_)));
        assert_eq!(double.run(step, unit_reply), Ok(()));
        sent += 1;
        assert_eq!(double.calls.get(), sent);
    }
    assert_eq!(double.run(osd_create(None, false), osd_create_reply), Ok(42));
    assert_eq!(double.calls.get(), sent + 1);
}

#[test]
fn a_simulated_mutation_still_builds_its_command() {
    for (dry, real) in every_mutation(true).into_iter().zip(every_mutation(false)) {
        assert_eq!(dry.command(), real.command());
    }
    assert_eq!(osd_create(Some(5), true).command(), osd_create(Some(5), false).command());
}

#[test]
fn the_gate_sends_or_ends() {
    assert!(matches!(gate(ceph_cmd::cmd::version(), true, 7u8), Step::Simulated(_, 7)));
    assert!(matches!(gate(ceph_cmd::cmd::version(), false, 7u8), Step::Dispatch(_)));
}

#[test]
fn a_number_is_read_from_the_first_line() {
    assert_eq!(osd_create_reply(reply(Some("42"), None)), Ok(42));
    assert_eq!(osd_pool_quota_get_reply(reply(Some("42"), None)), Ok(42));
    assert_eq!(osd_create_reply(reply(Some("42\n"), None)), Ok(42));
    assert_eq!(osd_create_reply(reply(Some("42\r\nmore"), None)), Ok(42));
    assert_eq!(osd_create_reply(reply(Some("0"), Some("created"))), Ok(0));
    assert_eq!(osd_create_reply(reply(Some("18446744073709551615"), None)), Ok(u64::MAX));
}

#[test]
fn an_empty_primary_text_is_malformed() {
    assert_eq!(osd_create_reply(reply(Some(""), None)), malformed(Operation::OsdCreate, ""));
    assert_eq!(osd_pool_quota_get_reply(reply(Some(""), None)), malformed(Operation::OsdPoolGetQuota, ""));
    assert_eq!(version_reply(reply(Some(""), None)), malformed(Operation::Version, ""));
    assert_eq!(mon_dump_reply(reply(Some(""), Some("ignored"))), malformed(Operation::MonDump, ""));
}

#[test]
fn no_text_at_all_is_no_response() {
    assert_eq!(osd_create_reply(reply(None, None)), Err(CmdError::NoResponse(Operation::OsdCreate)));
    assert_eq!(version_reply(reply(None, None)), Err(CmdError::NoResponse(Operation::Version)));
    assert_eq!(cluster_health_reply(reply(None, None)), Err(CmdError::NoResponse(Operation::Health)));
    assert_eq!(
        CmdError::<String>::NoResponse(Operation::OsdCreate).reason(),
        Some("no response from cluster for osd create".to_string())
    );
}

#[test]
fn a_diagnostic_alone_is_the_failure_word_for_word() {
    let denied: Result<u64, CmdError<String>> = Err(CmdError::Failure("permission denied".to_string()));
    assert_eq!(osd_create_reply(reply(None, Some("permission denied"))), denied);
    assert_eq!(
        status_reply(reply(None, Some("permission denied"))),
        Err(CmdError::Failure("permission denied".to_string()))
    );
    assert_eq!(
        mon_dump_reply(reply(None, Some(""))),
        Err(CmdError::Failure(String::new()))
    );
    assert_eq!(
        CmdError::<String>::Failure("permission denied".to_string()).reason(),
        Some("permission denied".to_string())
    );
}

#[test]
fn a_transport_failure_is_handed_on_as_it_came() {
    let down: Result<Reply, String> = Err("connection lost".to_string());
    assert_eq!(osd_create_reply(down.clone()), Err(CmdError::Transport("connection lost".to_string())));
    assert_eq!(version_reply(down.clone()), Err(CmdError::Transport("connection lost".to_string())));
    assert_eq!(mon_dump_reply(down.clone()), Err(CmdError::Transport("connection lost".to_string())));
    assert_eq!(unit_reply(down.clone()), Err(CmdError::Transport("connection lost".to_string())));
    assert_eq!(CmdError::Transport("connection lost".to_string()).reason(), None);
}

#[test]
fn a_mutation_is_done_whatever_the_cluster_says() {
    assert_eq!(unit_reply(reply(None, None)), Ok(()));
    assert_eq!(unit_reply(reply(Some(""), None)), Ok(()));
    assert_eq!(unit_reply(reply(None, Some("marked out osd.1"))), Ok(()));
    assert_eq!(unit_reply(reply(Some("x"), Some("y"))), Ok(()));
}

#[test]
fn a_line_that_is_no_number_is_malformed() {
    assert_eq!(osd_create_reply(reply(Some("forty-two"), None)), malformed(Operation::OsdCreate, "forty-two"));
    assert_eq!(osd_create_reply(reply(Some("\n42"), None)), malformed(Operation::OsdCreate, "\n42"));
    assert_eq!(osd_create_reply(reply(Some(" 42"), None)), malformed(Operation::OsdCreate, " 42"));
    assert_eq!(osd_create_reply(reply(Some("-1"), None)), malformed(Operation::OsdCreate, "-1"));
    assert_eq!(
        osd_pool_quota_get_reply(reply(Some("no quota\n"), None)),
        malformed(Operation::OsdPoolGetQuota, "no quota\n")
    );
    assert_eq!(
        osd_create_reply(reply(Some("18446744073709551616"), None)),
        malformed(Operation::OsdCreate, "18446744073709551616")
    );
    assert_eq!(
        CmdError::<String>::Malformed { operation: Operation::OsdCreate, text: "x y".to_string() }.reason(),
        Some("malformed response for osd create: x y".to_string())
    );
}

#[test]
fn a_text_is_passed_through_as_its_first_line() {
    assert_eq!(version_reply(reply(Some("ceph version 12.2.0"), None)), Ok("ceph version 12.2.0".to_string()));
    assert_eq!(status_reply(reply(Some("{\"health\":1}\nsecond"), None)), Ok("{\"health\":1}".to_string()));
    assert_eq!(auth_get_key_reply(reply(Some("AQBkey==\n"), None)), Ok("AQBkey==".to_string()));
    assert_eq!(osd_pool_get_reply(reply(Some("size: 3\r\n"), None)), Ok("size: 3".to_string()));
    assert_eq!(osd_pool_get_reply(reply(Some("\n"), None)), Ok(String::new()));
    assert_eq!(version_reply(reply(Some("not json at all {"), None)), Ok("not json at all {".to_string()));
}

#[test]
fn later_lines_are_ignored() {
    let two_lines = "{\"epoch\":3,\"fsid\":\"f\",\"modified\":\"m\",\"created\":\"c\",\"mons\":[],\"quorum\":[0,1]}\nthis is } not [ a document";
    let dump = mon_dump_reply(reply(Some(two_lines), None)).unwrap();
    assert_eq!(dump.epoch, 3);
    assert_eq!(dump.quorum, vec![0, 1]);
    let one_line = two_lines.lines().next().unwrap();
    assert_eq!(mon_dump_reply(reply(Some(one_line), None)), Ok(dump));
    assert_eq!(
        mgr_list_modules_reply(reply(Some("[\"restful\",\"status\"]\ngarbage"), None)),
        Ok(vec!["restful".to_string(), "status".to_string()])
    );
}

#[test]
fn a_line_that_does_not_decode_is_malformed_and_keeps_the_text() {
    let garbage = "this is } not [ a document\n{\"epoch\":3}";
    assert_eq!(mon_dump_reply(reply(Some(garbage), None)), malformed(Operation::MonDump, garbage));
    let wrong_shape = "{\"epoch\":\"three\"}";
    assert_eq!(mon_dump_reply(reply(Some(wrong_shape), None)), malformed(Operation::MonDump, wrong_shape));
    assert_eq!(mgr_list_modules_reply(reply(Some("{}"), None)), malformed(Operation::MgrModuleLs, "{}"));
    assert_eq!(mgr_list_modules_reply(reply(Some("[1]"), None)), malformed(Operation::MgrModuleLs, "[1]"));
    assert_eq!(mon_quorum_reply(reply(Some("{\"quorum\":[0]}"), None)), malformed(Operation::QuorumStatus, "{\"quorum\":[0]}"));
}

#[test]
fn the_quorum_decodes_as_one_text() {
    assert_eq!(mon_quorum_reply(reply(Some("\"a,b\\nc\""), None)), Ok("a,b\nc".to_string()));
}

#[test]
fn the_engine_serves_every_operation() {
    assert_eq!(text_reply(Operation::Status, reply(Some("a\nb"), None)), Ok("a".to_string()));
    assert_eq!(number_reply(Operation::OsdCreate, reply(Some("+7"), None)), Ok(7));
    assert_eq!(document_reply::<Vec<u64>, String>(Operation::Status, reply(Some("[1,2]"), None)), Ok(vec![1, 2]));
    assert_eq!(take_primary(Operation::Status, reply(Some("a\nb"), Some("d"))), Ok("a\nb".to_string()));
    assert_eq!(take_primary(Operation::Status, reply(None, Some("d"))), Err(CmdError::Failure("d".to_string())));
}

#[test]
fn a_reply_amounts_to_one_of_three_outcomes() {
    let r = |p: Option<&str>, d: Option<&str>| reply(p, d).unwrap().outcome();
    assert_eq!(r(None, None), Outcome::NoData);
    assert_eq!(r(None, Some("why")), Outcome::Diagnostic("why".to_string()));
    assert_eq!(r(Some("data"), None), Outcome::Data("data".to_string()));
    assert_eq!(r(Some("data"), Some("why")), Outcome::Data("data".to_string()));
}

#[test]
fn an_invalid_parameter_says_which() {
    assert_eq!(
        CmdError::<String>::InvalidParameter { operation: Operation::OsdCrushAdd, name: FieldName::Weight }.reason(),
        Some("invalid parameter weight for osd crush add".to_string())
    );
}
