//! The operations of the control channel. Each builds the command that asks
//! for it; a mutation then passes the simulation gate; and each operation
//! that answers with more than nothing has a function that interprets the
//! reply.
use crate::command::{
    lookup, Command, FieldName, FieldValue, FieldValueView, Operation, texts,
};
use crate::gate::{gate, Step};
use crate::model::{
    ClusterHealth, Counts, CrushTree, MgrDump, MgrMetadata, MonDump, MonStatus,
};
use crate::reply::{
    answer_line, answer_number, document_reply, is_answer, is_result, is_text_result, number_reply,
    text_reply, CmdError, Reply,
};
use crate::text::{decimal, decimal_text, is_number_literal, number_literal};
use crate::token::{OsdOption, PoolOption};
use vstd::prelude::*;

verus! {

/// The field that selects `operation`.
pub open spec fn prefix_of(operation: Operation) -> (FieldName, FieldValueView) {
    (FieldName::Prefix, FieldValueView::Text(operation.prefix()))
}

/// A field that holds one text.
pub open spec fn text_of(name: FieldName, text: Seq<char>) -> (FieldName, FieldValueView) {
    (name, FieldValueView::Text(text))
}

/// A field that holds a list of texts.
pub open spec fn list_of(name: FieldName, items: Seq<Seq<char>>) -> (FieldName, FieldValueView) {
    (name, FieldValueView::List(items))
}

/// An entity name: the role, a dot and the id.
pub open spec fn entity(role: Seq<char>, id: Seq<char>) -> Seq<char> {
    role + seq!['.'] + id
}

/// A location in the placement map: the type of the bucket, `=` and its name.
pub open spec fn location(bucket: Seq<char>, name: Seq<char>) -> Seq<char> {
    bucket + seq!['='] + name
}

/// What a manager daemon may do: pairs of a service and what it allows.
pub open spec fn manager_caps() -> Seq<Seq<char>> {
    seq!["mon"@, "allow profile mgr"@, "osd"@, "allow *"@, "mds"@, "allow *"@]
}

/// What a storage daemon may do: pairs of a service and what it allows.
pub open spec fn storage_caps() -> Seq<Seq<char>> {
    seq!["mon"@, "allow rwx"@, "osd"@, "allow *"@]
}

/// The first field named `name` is absent where no field has that name.
pub proof fn lemma_lookup_absent(fields: Seq<(FieldName, FieldValueView)>, name: FieldName)
    requires
        forall|i: int| 0 <= i < fields.len() ==> (#[trigger] fields[i]).0 != name,
    ensures
        lookup(fields, name) is None,
    decreases fields.len(),
{
    if fields.len() > 0 {
        lemma_lookup_absent(fields.skip(1), name);
    }
}

/// The first field named `name` is the one at `at` where no earlier field
/// has that name.
pub proof fn lemma_lookup_at(fields: Seq<(FieldName, FieldValueView)>, name: FieldName, at: int)
    requires
        0 <= at < fields.len(),
        fields[at].0 == name,
        forall|i: int| 0 <= i < at ==> (#[trigger] fields[i]).0 != name,
    ensures
        lookup(fields, name) == Some(fields[at].1),
    decreases at,
{
    if at > 0 {
        lemma_lookup_at(fields.skip(1), name, at - 1);
    }
}

fn text(s: &str) -> (r: FieldValue)
    ensures
        r@ == FieldValueView::Text(s@),
{
    FieldValue::Text(s.to_owned())
}

fn joined(head: &str, mark: &str, tail: &str) -> (r: String)
    ensures
        r@ == head@ + mark@ + tail@,
{
    let mut out = head.to_owned();
    out.append(mark);
    out.append(tail);
    out
}

fn entity_name(role: &str, id: &str) -> (r: String)
    ensures
        r@ == entity(role@, id@),
{
    proof {
        reveal_strlit(".");
    }
    assert("."@ =~= seq!['.']);
    joined(role, ".", id)
}

fn one(item: String) -> (r: FieldValue)
    ensures
        r@ == FieldValueView::List(seq![item@]),
{
    let mut items: Vec<String> = Vec::new();
    items.push(item);
    assert(texts(items@) =~= seq![item@]);
    FieldValue::List(items)
}

/// Asks for the health report of the cluster.
pub fn cluster_health() -> (c: Command)
    ensures
        c@ == seq![prefix_of(Operation::Health)],
{
    Command::new(Operation::Health)
}

/// Marks a storage daemon out of the cluster. The id travels as its decimal
/// spelling, alone in a list.
pub fn osd_out(osd_id: u64, simulate: bool) -> (s: Step<()>)
    ensures
        s.command_view() == seq![
            prefix_of(Operation::OsdOut),
            list_of(FieldName::Ids, seq![decimal_text(osd_id as nat)]),
        ],
        lookup(s.command_view(), FieldName::Ids) == Some(
            FieldValueView::List(seq![decimal_text(osd_id as nat)]),
        ),
        s.placeholder() == if simulate {
            Some(())
        } else {
            None
        },
{
    let c = Command::new(Operation::OsdOut).with(FieldName::Ids, one(decimal(osd_id)));
    proof {
        lemma_lookup_at(c@, FieldName::Ids, 1);
    }
    gate(c, simulate, ())
}

/// Removes a storage daemon from the placement map.
pub fn osd_crush_remove(osd_id: u64, simulate: bool) -> (s: Step<()>)
    ensures
        s.command_view() == seq![
            prefix_of(Operation::OsdCrushRemove),
            text_of(FieldName::Name, entity("osd"@, decimal_text(osd_id as nat))),
        ],
        s.placeholder() == if simulate {
            Some(())
        } else {
            None
        },
{
    let name = entity_name("osd", decimal(osd_id).as_str());
    let c = Command::new(Operation::OsdCrushRemove).with(FieldName::Name, FieldValue::Text(name));
    gate(c, simulate, ())
}

/// Asks for the value of a tunable of a pool.
pub fn osd_pool_get(pool: &str, choice: &PoolOption) -> (c: Command)
    ensures
        c@ == seq![
            prefix_of(Operation::OsdPoolGet),
            text_of(FieldName::Pool, pool@),
            text_of(FieldName::Var, choice.token()),
        ],
{
    Command::new(Operation::OsdPoolGet).with(FieldName::Pool, text(pool)).with(
        FieldName::Var,
        text(choice.as_ref()),
    )
}

/// Sets a tunable of a pool.
pub fn osd_pool_set(pool: &str, key: &PoolOption, value: &str, simulate: bool) -> (s: Step<()>)
    ensures
        s.command_view() == seq![
            prefix_of(Operation::OsdPoolSet),
            text_of(FieldName::Pool, pool@),
            text_of(FieldName::Var, key.token()),
            text_of(FieldName::Val, value@),
        ],
        s.placeholder() == if simulate {
            Some(())
        } else {
            None
        },
{
    let c = Command::new(Operation::OsdPoolSet).with(FieldName::Pool, text(pool)).with(
        FieldName::Var,
        text(key.as_ref()),
    ).with(FieldName::Val, text(value));
    gate(c, simulate, ())
}

/// Sets a cluster-wide flag. Only where `force` is asked for does the
/// command hold the field that forces; otherwise it holds no such field.
pub fn osd_set(key: &OsdOption, force: bool, simulate: bool) -> (s: Step<()>)
    ensures
        s.command_view() == if force {
            seq![
                prefix_of(Operation::OsdSet),
                text_of(FieldName::Key, key.token()),
                text_of(FieldName::Sure, "--yes-i-really-mean-it"@),
            ]
        } else {
            seq![prefix_of(Operation::OsdSet), text_of(FieldName::Key, key.token())]
        },
        !force ==> lookup(s.command_view(), FieldName::Sure) is None,
        s.placeholder() == if simulate {
            Some(())
        } else {
            None
        },
{
    let c = Command::new(Operation::OsdSet).with(FieldName::Key, text(key.as_ref()));
    let c = if force {
        c.with(FieldName::Sure, text("--yes-i-really-mean-it"))
    } else {
        proof {
            lemma_lookup_absent(c@, FieldName::Sure);
        }
        c
    };
    gate(c, simulate, ())
}

/// Unsets a cluster-wide flag.
pub fn osd_unset(key: &OsdOption, simulate: bool) -> (s: Step<()>)
    ensures
        s.command_view() == seq![
            prefix_of(Operation::OsdUnset),
            text_of(FieldName::Key, key.token()),
        ],
        s.placeholder() == if simulate {
            Some(())
        } else {
            None
        },
{
    let c = Command::new(Operation::OsdUnset).with(FieldName::Key, text(key.as_ref()));
    gate(c, simulate, ())
}

/// Asks for the placement tree.
pub fn osd_tree() -> (c: Command)
    ensures
        c@ == seq![prefix_of(Operation::OsdTree), text_of(FieldName::Format, "json"@)],
{
    Command::new(Operation::OsdTree).with(FieldName::Format, text("json"))
}

/// Asks for the status of the cluster.
pub fn status() -> (c: Command)
    ensures
        c@ == seq![prefix_of(Operation::Status), text_of(FieldName::Format, "json"@)],
{
    Command::new(Operation::Status).with(FieldName::Format, text("json"))
}

/// Asks for the monitor map: the monitors and their ranks.
pub fn mon_dump() -> (c: Command)
    ensures
        c@ == seq![prefix_of(Operation::MonDump), text_of(FieldName::Format, "json"@)],
{
    Command::new(Operation::MonDump).with(FieldName::Format, text("json"))
}

/// Asks for the quorum of the monitors.
pub fn mon_quorum() -> (c: Command)
    ensures
        c@ == seq![prefix_of(Operation::QuorumStatus), text_of(FieldName::Format, "json"@)],
{
    Command::new(Operation::QuorumStatus).with(FieldName::Format, text("json"))
}

/// Asks a monitor for its own status.
pub fn mon_status() -> (c: Command)
    ensures
        c@ == seq![prefix_of(Operation::MonStatus)],
{
    Command::new(Operation::MonStatus)
}

/// Asks for the version of the monitor.
pub fn version() -> (c: Command)
    ensures
        c@ == seq![prefix_of(Operation::Version)],
{
    Command::new(Operation::Version)
}

/// Asks for the quota of a pool.
pub fn osd_pool_quota_get(pool: &str) -> (c: Command)
    ensures
        c@ == seq![prefix_of(Operation::OsdPoolGetQuota), text_of(FieldName::Pool, pool@)],
{
    Command::new(Operation::OsdPoolGetQuota).with(FieldName::Pool, text(pool))
}

/// Deletes the key of a storage daemon.
pub fn auth_del(osd_id: u64, simulate: bool) -> (s: Step<()>)
    ensures
        s.command_view() == seq![
            prefix_of(Operation::AuthDel),
            text_of(FieldName::Entity, entity("osd"@, decimal_text(osd_id as nat))),
        ],
        s.placeholder() == if simulate {
            Some(())
        } else {
            None
        },
{
    let name = entity_name("osd", decimal(osd_id).as_str());
    let c = Command::new(Operation::AuthDel).with(FieldName::Entity, FieldValue::Text(name));
    gate(c, simulate, ())
}

/// Removes a storage daemon from the cluster. The id travels as its decimal
/// spelling, alone in a list.
pub fn osd_rm(osd_id: u64, simulate: bool) -> (s: Step<()>)
    ensures
        s.command_view() == seq![
            prefix_of(Operation::OsdRm),
            list_of(FieldName::Ids, seq![decimal_text(osd_id as nat)]),
        ],
        lookup(s.command_view(), FieldName::Ids) == Some(
            FieldValueView::List(seq![decimal_text(osd_id as nat)]),
        ),
        s.placeholder() == if simulate {
            Some(())
        } else {
            None
        },
{
    let c = Command::new(Operation::OsdRm).with(FieldName::Ids, one(decimal(osd_id)));
    proof {
        lemma_lookup_at(c@, FieldName::Ids, 1);
    }
    gate(c, simulate, ())
}

/// Creates a storage daemon, with the id asked for where one is given. A
/// dry run ends with the id zero, which stands for no daemon.
pub fn osd_create(id: Option<u64>, simulate: bool) -> (s: Step<u64>)
    ensures
        s.command_view() == match id {
            Some(osd_id) => seq![
                prefix_of(Operation::OsdCreate),
                text_of(FieldName::Id, entity("osd"@, decimal_text(osd_id as nat))),
            ],
            None => seq![prefix_of(Operation::OsdCreate)],
        },
        s.placeholder() == if simulate {
            Some(0u64)
        } else {
            None
        },
{
    let c = Command::new(Operation::OsdCreate);
    let c = match id {
        Some(osd_id) => {
            let name = entity_name("osd", decimal(osd_id).as_str());
            c.with(FieldName::Id, FieldValue::Text(name))
        },
        None => c,
    };
    gate(c, simulate, 0)
}

/// Adds the key of a manager daemon, with what a manager may do.
pub fn mgr_auth_add(mgr_id: &str, simulate: bool) -> (s: Step<()>)
    ensures
        s.command_view() == seq![
            prefix_of(Operation::AuthAdd),
            text_of(FieldName::Entity, entity("mgr"@, mgr_id@)),
            list_of(FieldName::Caps, manager_caps()),
        ],
        s.placeholder() == if simulate {
            Some(())
        } else {
            None
        },
{
    let mut caps: Vec<String> = Vec::new();
    caps.push("mon".to_owned());
    caps.push("allow profile mgr".to_owned());
    caps.push("osd".to_owned());
    caps.push("allow *".to_owned());
    caps.push("mds".to_owned());
    caps.push("allow *".to_owned());
    assert(texts(caps@) =~= manager_caps());
    let c = Command::new(Operation::AuthAdd).with(
        FieldName::Entity,
        FieldValue::Text(entity_name("mgr", mgr_id)),
    ).with(FieldName::Caps, FieldValue::List(caps));
    gate(c, simulate, ())
}

/// Adds the key of a storage daemon, with what a storage daemon may do.
pub fn osd_auth_add(osd_id: u64, simulate: bool) -> (s: Step<()>)
    ensures
        s.command_view() == seq![
            prefix_of(Operation::AuthAdd),
            text_of(FieldName::Entity, entity("osd"@, decimal_text(osd_id as nat))),
            list_of(FieldName::Caps, storage_caps()),
        ],
        s.placeholder() == if simulate {
            Some(())
        } else {
            None
        },
{
    let mut caps: Vec<String> = Vec::new();
    caps.push("mon".to_owned());
    caps.push("allow rwx".to_owned());
    caps.push("osd".to_owned());
    caps.push("allow *".to_owned());
    assert(texts(caps@) =~= storage_caps());
    let c = Command::new(Operation::AuthAdd).with(
        FieldName::Entity,
        FieldValue::Text(entity_name("osd", decimal(osd_id).as_str())),
    ).with(FieldName::Caps, FieldValue::List(caps));
    gate(c, simulate, ())
}

/// Asks for the key of a client. The id is a text: some kinds of client go
/// by a number and some by a name.
pub fn auth_get_key(client_type: &str, id: &str) -> (c: Command)
    ensures
        c@ == seq![
            prefix_of(Operation::AuthGetKey),
            text_of(FieldName::Entity, entity(client_type@, id@)),
        ],
{
    Command::new(Operation::AuthGetKey).with(
        FieldName::Entity,
        FieldValue::Text(entity_name(client_type, id)),
    )
}

/// The command that places a storage daemon on a host with a weight.
pub open spec fn osd_crush_add_fields(osd_id: u64, weight: Seq<char>, host: Seq<char>) -> Seq<
    (FieldName, FieldValueView),
> {
    seq![
        prefix_of(Operation::OsdCrushAdd),
        (FieldName::Id, FieldValueView::Number(osd_id)),
        (FieldName::Weight, FieldValueView::Decimal(weight)),
        list_of(FieldName::Args, seq![location("host"@, host)]),
    ]
}

/// Places a storage daemon on a host, or updates its place, with a weight.
/// The weight is given as a number literal; a text that is none is refused,
/// and no command is built from it.
pub fn osd_crush_add<E>(osd_id: u64, weight: &str, host: &str, simulate: bool) -> (r: Result<
    Step<()>,
    CmdError<E>,
>)
    ensures
        is_number_literal(weight@) ==> r is Ok && r->Ok_0.command_view() == osd_crush_add_fields(
            osd_id,
            weight@,
            host@,
        ) && r->Ok_0.placeholder() == if simulate {
            Some(())
        } else {
            None
        },
        !is_number_literal(weight@) ==> r == Err::<Step<()>, CmdError<E>>(
            CmdError::InvalidParameter {
                operation: Operation::OsdCrushAdd,
                name: FieldName::Weight,
            },
        ),
{
    if !number_literal(weight) {
        return Err(
            CmdError::InvalidParameter {
                operation: Operation::OsdCrushAdd,
                name: FieldName::Weight,
            },
        );
    }
    proof {
        reveal_strlit("=");
    }
    assert("="@ =~= seq!['=']);
    let place = joined("host", "=", host);
    let c = Command::new(Operation::OsdCrushAdd).with(FieldName::Id, FieldValue::Number(osd_id)).with(
        FieldName::Weight,
        FieldValue::Decimal(weight.to_owned()),
    ).with(FieldName::Args, one(place));
    Ok(gate(c, simulate, ()))
}

/// Asks for the manager map.
pub fn mgr_dump() -> (c: Command)
    ensures
        c@ == seq![prefix_of(Operation::MgrDump)],
{
    Command::new(Operation::MgrDump)
}

/// Treats the manager daemon of that name as failed.
pub fn mgr_fail(mgr_id: &str, simulate: bool) -> (s: Step<()>)
    ensures
        s.command_view() == seq![prefix_of(Operation::MgrFail), text_of(FieldName::Name, mgr_id@)],
        s.placeholder() == if simulate {
            Some(())
        } else {
            None
        },
{
    let c = Command::new(Operation::MgrFail).with(FieldName::Name, text(mgr_id));
    gate(c, simulate, ())
}

/// Asks for the manager modules that are active.
pub fn mgr_list_modules() -> (c: Command)
    ensures
        c@ == seq![prefix_of(Operation::MgrModuleLs)],
{
    Command::new(Operation::MgrModuleLs)
}

/// Asks for the service endpoints that manager modules provide.
pub fn mgr_list_services() -> (c: Command)
    ensures
        c@ == seq![prefix_of(Operation::MgrServices)],
{
    Command::new(Operation::MgrServices)
}

/// Enables a manager module. Only where `force` is asked for does the
/// command hold the field that forces; otherwise it holds no such field.
pub fn mgr_enable_module(module: &str, force: bool, simulate: bool) -> (s: Step<()>)
    ensures
        s.command_view() == if force {
            seq![
                prefix_of(Operation::MgrModuleEnable),
                text_of(FieldName::Module, module@),
                text_of(FieldName::Force, "--force"@),
            ]
        } else {
            seq![prefix_of(Operation::MgrModuleEnable), text_of(FieldName::Module, module@)]
        },
        !force ==> lookup(s.command_view(), FieldName::Force) is None,
        s.placeholder() == if simulate {
            Some(())
        } else {
            None
        },
{
    let c = Command::new(Operation::MgrModuleEnable).with(FieldName::Module, text(module));
    let c = if force {
        c.with(FieldName::Force, text("--force"))
    } else {
        proof {
            lemma_lookup_absent(c@, FieldName::Force);
        }
        c
    };
    gate(c, simulate, ())
}

/// Disables a manager module.
pub fn mgr_disable_module(module: &str, simulate: bool) -> (s: Step<()>)
    ensures
        s.command_view() == seq![
            prefix_of(Operation::MgrModuleDisable),
            text_of(FieldName::Module, module@),
        ],
        s.placeholder() == if simulate {
            Some(())
        } else {
            None
        },
{
    let c = Command::new(Operation::MgrModuleDisable).with(FieldName::Module, text(module));
    gate(c, simulate, ())
}

/// Asks for what the manager daemons report of their hosts.
pub fn mgr_metadata() -> (c: Command)
    ensures
        c@ == seq![prefix_of(Operation::MgrMetadata)],
{
    Command::new(Operation::MgrMetadata)
}

/// Asks for the count of manager daemons by the value of a property of
/// their metadata.
pub fn mgr_count_metadata(property: &str) -> (c: Command)
    ensures
        c@ == seq![
            prefix_of(Operation::MgrCountMetadata),
            text_of(FieldName::Name, property@),
        ],
{
    Command::new(Operation::MgrCountMetadata).with(FieldName::Name, text(property))
}

/// Asks for the count of manager daemons by the version they run.
pub fn mgr_versions() -> (c: Command)
    ensures
        c@ == seq![prefix_of(Operation::MgrVersions)],
{
    Command::new(Operation::MgrVersions)
}


/// Interprets the reply to `cluster_health`: the health report of the cluster.
pub fn cluster_health_reply<E>(reply: Result<Reply, E>) -> (r: Result<ClusterHealth, CmdError<E>>)
    ensures
        is_answer(r, Operation::Health, reply),
{
    document_reply(Operation::Health, reply)
}

/// Interprets the reply to `osd_pool_get`: the value of the tunable, as the cluster words it.
pub fn osd_pool_get_reply<E>(reply: Result<Reply, E>) -> (r: Result<String, CmdError<E>>)
    ensures
        is_text_result(r, answer_line(Operation::OsdPoolGet, reply)),
{
    text_reply(Operation::OsdPoolGet, reply)
}

/// Interprets the reply to `osd_tree`: the placement tree.
pub fn osd_tree_reply<E>(reply: Result<Reply, E>) -> (r: Result<CrushTree, CmdError<E>>)
    ensures
        is_answer(r, Operation::OsdTree, reply),
{
    document_reply(Operation::OsdTree, reply)
}

/// Interprets the reply to `status`: the status of the cluster, as the cluster words it.
pub fn status_reply<E>(reply: Result<Reply, E>) -> (r: Result<String, CmdError<E>>)
    ensures
        is_text_result(r, answer_line(Operation::Status, reply)),
{
    text_reply(Operation::Status, reply)
}

/// Interprets the reply to `mon_dump`: the monitor map.
pub fn mon_dump_reply<E>(reply: Result<Reply, E>) -> (r: Result<MonDump, CmdError<E>>)
    ensures
        is_answer(r, Operation::MonDump, reply),
{
    document_reply(Operation::MonDump, reply)
}

/// Interprets the reply to `mon_quorum`: the quorum, decoded as one text.
pub fn mon_quorum_reply<E>(reply: Result<Reply, E>) -> (r: Result<String, CmdError<E>>)
    ensures
        is_answer(r, Operation::QuorumStatus, reply),
{
    document_reply(Operation::QuorumStatus, reply)
}

/// Interprets the reply to `mon_status`: the status of the monitor.
pub fn mon_status_reply<E>(reply: Result<Reply, E>) -> (r: Result<MonStatus, CmdError<E>>)
    ensures
        is_answer(r, Operation::MonStatus, reply),
{
    document_reply(Operation::MonStatus, reply)
}

/// Interprets the reply to `version`: the version of the monitor, as the cluster words it.
pub fn version_reply<E>(reply: Result<Reply, E>) -> (r: Result<String, CmdError<E>>)
    ensures
        is_text_result(r, answer_line(Operation::Version, reply)),
{
    text_reply(Operation::Version, reply)
}

/// Interprets the reply to `osd_pool_quota_get`: the quota of the pool.
pub fn osd_pool_quota_get_reply<E>(reply: Result<Reply, E>) -> (r: Result<u64, CmdError<E>>)
    ensures
        is_result(r, answer_number(Operation::OsdPoolGetQuota, reply)),
{
    number_reply(Operation::OsdPoolGetQuota, reply)
}

/// Interprets the reply to `osd_create`: the id that the cluster gave the new daemon.
pub fn osd_create_reply<E>(reply: Result<Reply, E>) -> (r: Result<u64, CmdError<E>>)
    ensures
        is_result(r, answer_number(Operation::OsdCreate, reply)),
{
    number_reply(Operation::OsdCreate, reply)
}

/// Interprets the reply to `auth_get_key`: the key, as the cluster words it.
pub fn auth_get_key_reply<E>(reply: Result<Reply, E>) -> (r: Result<String, CmdError<E>>)
    ensures
        is_text_result(r, answer_line(Operation::AuthGetKey, reply)),
{
    text_reply(Operation::AuthGetKey, reply)
}

/// Interprets the reply to `mgr_dump`: the manager map.
pub fn mgr_dump_reply<E>(reply: Result<Reply, E>) -> (r: Result<MgrDump, CmdError<E>>)
    ensures
        is_answer(r, Operation::MgrDump, reply),
{
    document_reply(Operation::MgrDump, reply)
}

/// Interprets the reply to `mgr_list_modules`: the names of the modules.
pub fn mgr_list_modules_reply<E>(reply: Result<Reply, E>) -> (r: Result<Vec<String>, CmdError<E>>)
    ensures
        is_answer(r, Operation::MgrModuleLs, reply),
{
    document_reply(Operation::MgrModuleLs, reply)
}

/// Interprets the reply to `mgr_list_services`: the service endpoints.
pub fn mgr_list_services_reply<E>(reply: Result<Reply, E>) -> (r: Result<Vec<String>, CmdError<E>>)
    ensures
        is_answer(r, Operation::MgrServices, reply),
{
    document_reply(Operation::MgrServices, reply)
}

/// Interprets the reply to `mgr_metadata`: what the manager reports of its host.
pub fn mgr_metadata_reply<E>(reply: Result<Reply, E>) -> (r: Result<MgrMetadata, CmdError<E>>)
    ensures
        is_answer(r, Operation::MgrMetadata, reply),
{
    document_reply(Operation::MgrMetadata, reply)
}

/// Interprets the reply to `mgr_count_metadata`: the counts, by value of the property.
pub fn mgr_count_metadata_reply<E>(reply: Result<Reply, E>) -> (r: Result<Counts, CmdError<E>>)
    ensures
        is_answer(r, Operation::MgrCountMetadata, reply),
{
    document_reply(Operation::MgrCountMetadata, reply)
}

/// Interprets the reply to `mgr_versions`: the counts, by version.
pub fn mgr_versions_reply<E>(reply: Result<Reply, E>) -> (r: Result<Counts, CmdError<E>>)
    ensures
        is_answer(r, Operation::MgrVersions, reply),
{
    document_reply(Operation::MgrVersions, reply)
}

} // verus!
