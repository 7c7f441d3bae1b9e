//! Command descriptors: the structured requests that select a remote
//! operation and carry its parameters, and their text on the wire.
use crate::text::{decimal, decimal_text, is_number_literal};
use vstd::prelude::*;

verus! {

/// The name of a field of a command descriptor.
#[derive(Debug, Clone, Copy, PartialEq, Eq, Structural)]
pub enum FieldName {
    /// Selects the remote operation.
    Prefix,
    /// A list of daemon ids, each spelled in decimal.
    Ids,
    /// The name of a daemon, a bucket or a property.
    Name,
    /// The name of a pool.
    Pool,
    /// The tunable that is read or set.
    Var,
    /// The value that a tunable is set to.
    Val,
    /// The flag that is set or unset.
    Key,
    /// Present only when a flag is forced.
    Sure,
    /// The format asked of the reply.
    Format,
    /// An entity name: a role, a dot and an id.
    Entity,
    /// The id of a daemon.
    Id,
    /// Capabilities, as pairs of a service and what it allows.
    Caps,
    /// A weight in the placement map.
    Weight,
    /// Locations in the placement map, each as `type=name`.
    Args,
    /// The name of a manager module.
    Module,
    /// Present only when enabling is forced.
    Force,
}

impl FieldName {
    /// The name as the remote side expects it.
    pub open spec fn token(self) -> Seq<char> {
        match self {
            FieldName::Prefix => "prefix"@,
            FieldName::Ids => "ids"@,
            FieldName::Name => "name"@,
            FieldName::Pool => "pool"@,
            FieldName::Var => "var"@,
            FieldName::Val => "val"@,
            FieldName::Key => "key"@,
            FieldName::Sure => "sure"@,
            FieldName::Format => "format"@,
            FieldName::Entity => "entity"@,
            FieldName::Id => "id"@,
            FieldName::Caps => "caps"@,
            FieldName::Weight => "weight"@,
            FieldName::Args => "args"@,
            FieldName::Module => "module"@,
            FieldName::Force => "force"@,
        }
    }

    /// No two names are spelled alike.
    pub proof fn lemma_token_injective(a: FieldName, b: FieldName)
        requires
            a.token() == b.token(),
        ensures
            a == b,
    {
        reveal_strlit("prefix");
        reveal_strlit("ids");
        reveal_strlit("name");
        reveal_strlit("pool");
        reveal_strlit("var");
        reveal_strlit("val");
        reveal_strlit("key");
        reveal_strlit("sure");
        reveal_strlit("format");
        reveal_strlit("entity");
        reveal_strlit("id");
        reveal_strlit("caps");
        reveal_strlit("weight");
        reveal_strlit("args");
        reveal_strlit("module");
        reveal_strlit("force");
        assert("prefix"@.len() == 6 && "prefix"@[0] == 'p');
        assert("ids"@.len() == 3 && "ids"@[2] == 's');
        assert("name"@.len() == 4 && "name"@[0] == 'n');
        assert("pool"@.len() == 4 && "pool"@[0] == 'p');
        assert("var"@.len() == 3 && "var"@[2] == 'r');
        assert("val"@.len() == 3 && "val"@[2] == 'l');
        assert("key"@.len() == 3 && "key"@[2] == 'y');
        assert("sure"@.len() == 4 && "sure"@[0] == 's');
        assert("format"@.len() == 6 && "format"@[0] == 'f');
        assert("entity"@.len() == 6 && "entity"@[0] == 'e');
        assert("id"@.len() == 2);
        assert("caps"@.len() == 4 && "caps"@[0] == 'c');
        assert("weight"@.len() == 6 && "weight"@[0] == 'w');
        assert("args"@.len() == 4 && "args"@[0] == 'a');
        assert("module"@.len() == 6 && "module"@[0] == 'm');
        assert("force"@.len() == 5);
    }

    /// The name as the remote side expects it.
    pub fn as_ref(&self) -> (r: &'static str)
        ensures
            r@ == self.token(),
    {
        match self {
            FieldName::Prefix => "prefix",
            FieldName::Ids => "ids",
            FieldName::Name => "name",
            FieldName::Pool => "pool",
            FieldName::Var => "var",
            FieldName::Val => "val",
            FieldName::Key => "key",
            FieldName::Sure => "sure",
            FieldName::Format => "format",
            FieldName::Entity => "entity",
            FieldName::Id => "id",
            FieldName::Caps => "caps",
            FieldName::Weight => "weight",
            FieldName::Args => "args",
            FieldName::Module => "module",
            FieldName::Force => "force",
        }
    }
}

/// A remote operation, known to the cluster by its prefix.
#[derive(Debug, Clone, Copy, PartialEq, Eq, Structural)]
pub enum Operation {
    /// `health`
    Health,
    /// `osd out`
    OsdOut,
    /// `osd crush remove`
    OsdCrushRemove,
    /// `osd pool get`
    OsdPoolGet,
    /// `osd pool set`
    OsdPoolSet,
    /// `osd set`
    OsdSet,
    /// `osd unset`
    OsdUnset,
    /// `osd tree`
    OsdTree,
    /// `status`
    Status,
    /// `mon dump`
    MonDump,
    /// `quorum_status`
    QuorumStatus,
    /// `mon_status`
    MonStatus,
    /// `version`
    Version,
    /// `osd pool get-quota`
    OsdPoolGetQuota,
    /// `auth del`
    AuthDel,
    /// `osd rm`
    OsdRm,
    /// `osd create`
    OsdCreate,
    /// `auth add`
    AuthAdd,
    /// `auth get-key`
    AuthGetKey,
    /// `osd crush add`
    OsdCrushAdd,
    /// `mgr dump`
    MgrDump,
    /// `mgr fail`
    MgrFail,
    /// `mgr module ls`
    MgrModuleLs,
    /// `mgr services`
    MgrServices,
    /// `mgr module enable`
    MgrModuleEnable,
    /// `mgr module disable`
    MgrModuleDisable,
    /// `mgr metadata`
    MgrMetadata,
    /// `mgr count-metadata`
    MgrCountMetadata,
    /// `mgr versions`
    MgrVersions,
}

impl Operation {
    /// The exact name by which the remote side selects the operation.
    pub open spec fn prefix(self) -> Seq<char> {
        match self {
            Operation::Health => "health"@,
            Operation::OsdOut => "osd out"@,
            Operation::OsdCrushRemove => "osd crush remove"@,
            Operation::OsdPoolGet => "osd pool get"@,
            Operation::OsdPoolSet => "osd pool set"@,
            Operation::OsdSet => "osd set"@,
            Operation::OsdUnset => "osd unset"@,
            Operation::OsdTree => "osd tree"@,
            Operation::Status => "status"@,
            Operation::MonDump => "mon dump"@,
            Operation::QuorumStatus => "quorum_status"@,
            Operation::MonStatus => "mon_status"@,
            Operation::Version => "version"@,
            Operation::OsdPoolGetQuota => "osd pool get-quota"@,
            Operation::AuthDel => "auth del"@,
            Operation::OsdRm => "osd rm"@,
            Operation::OsdCreate => "osd create"@,
            Operation::AuthAdd => "auth add"@,
            Operation::AuthGetKey => "auth get-key"@,
            Operation::OsdCrushAdd => "osd crush add"@,
            Operation::MgrDump => "mgr dump"@,
            Operation::MgrFail => "mgr fail"@,
            Operation::MgrModuleLs => "mgr module ls"@,
            Operation::MgrServices => "mgr services"@,
            Operation::MgrModuleEnable => "mgr module enable"@,
            Operation::MgrModuleDisable => "mgr module disable"@,
            Operation::MgrMetadata => "mgr metadata"@,
            Operation::MgrCountMetadata => "mgr count-metadata"@,
            Operation::MgrVersions => "mgr versions"@,
        }
    }

    /// The exact name by which the remote side selects the operation.
    pub fn as_ref(&self) -> (r: &'static str)
        ensures
            r@ == self.prefix(),
    {
        match self {
            Operation::Health => "health",
            Operation::OsdOut => "osd out",
            Operation::OsdCrushRemove => "osd crush remove",
            Operation::OsdPoolGet => "osd pool get",
            Operation::OsdPoolSet => "osd pool set",
            Operation::OsdSet => "osd set",
            Operation::OsdUnset => "osd unset",
            Operation::OsdTree => "osd tree",
            Operation::Status => "status",
            Operation::MonDump => "mon dump",
            Operation::QuorumStatus => "quorum_status",
            Operation::MonStatus => "mon_status",
            Operation::Version => "version",
            Operation::OsdPoolGetQuota => "osd pool get-quota",
            Operation::AuthDel => "auth del",
            Operation::OsdRm => "osd rm",
            Operation::OsdCreate => "osd create",
            Operation::AuthAdd => "auth add",
            Operation::AuthGetKey => "auth get-key",
            Operation::OsdCrushAdd => "osd crush add",
            Operation::MgrDump => "mgr dump",
            Operation::MgrFail => "mgr fail",
            Operation::MgrModuleLs => "mgr module ls",
            Operation::MgrServices => "mgr services",
            Operation::MgrModuleEnable => "mgr module enable",
            Operation::MgrModuleDisable => "mgr module disable",
            Operation::MgrMetadata => "mgr metadata",
            Operation::MgrCountMetadata => "mgr count-metadata",
            Operation::MgrVersions => "mgr versions",
        }
    }
}

/// The value of a field of a command descriptor.
#[derive(Debug, Clone, PartialEq, Eq)]
pub enum FieldValue {
    /// A text; an enumerated token travels as its text.
    Text(String),
    /// A whole number.
    Number(u64),
    /// A number with a fraction or an exponent, kept as its literal.
    Decimal(String),
    /// A list of texts, in the order the caller gave.
    List(Vec<String>),
}

/// What a `FieldValue` holds.
pub ghost enum FieldValueView {
    Text(Seq<char>),
    Number(u64),
    Decimal(Seq<char>),
    List(Seq<Seq<char>>),
}

/// The characters of each text of a list.
pub open spec fn texts(items: Seq<String>) -> Seq<Seq<char>> {
    items.map_values(|s: String| s@)
}

impl View for FieldValue {
    type V = FieldValueView;

    open spec fn view(&self) -> FieldValueView {
        match self {
            FieldValue::Text(t) => FieldValueView::Text(t@),
            FieldValue::Number(n) => FieldValueView::Number(*n),
            FieldValue::Decimal(t) => FieldValueView::Decimal(t@),
            FieldValue::List(items) => FieldValueView::List(texts(items@)),
        }
    }
}

/// One field of a command descriptor.
#[derive(Debug, Clone, PartialEq, Eq)]
pub struct Field {
    pub name: FieldName,
    pub value: FieldValue,
}

impl View for Field {
    type V = (FieldName, FieldValueView);

    open spec fn view(&self) -> (FieldName, FieldValueView) {
        (self.name, self.value@)
    }
}

/// The value of the first field called `name`, if there is one.
pub open spec fn lookup(fields: Seq<(FieldName, FieldValueView)>, name: FieldName) -> Option<FieldValueView>
    decreases fields.len(),
{
    if fields.len() == 0 {
        None
    } else if fields[0].0 == name {
        Some(fields[0].1)
    } else {
        lookup(fields.skip(1), name)
    }
}

/// What every command descriptor is: its first field is the prefix, a text;
/// no name occurs twice; and each decimal is a number literal.
pub open spec fn well_formed(fields: Seq<(FieldName, FieldValueView)>) -> bool {
    &&& fields.len() > 0
    &&& fields[0].0 == FieldName::Prefix
    &&& fields[0].1 is Text
    &&& forall|i: int, j: int| 0 <= i < j < fields.len() ==> fields[i].0 != fields[j].0
    &&& forall|i: int|
        0 <= i < fields.len() && fields[i].1 is Decimal ==> is_number_literal(
            #[trigger] fields[i].1->Decimal_0,
        )
}

/// The fields of a well-formed descriptor all differ in the name that they
/// go by on the wire: the descriptor is a mapping.
pub proof fn lemma_wire_names_distinct(fields: Seq<(FieldName, FieldValueView)>, i: int, j: int)
    requires
        well_formed(fields),
        0 <= i < j < fields.len(),
    ensures
        fields[i].0.token() != fields[j].0.token(),
{
    if fields[i].0.token() == fields[j].0.token() {
        FieldName::lemma_token_injective(fields[i].0, fields[j].0);
    }
}

/// A command descriptor: an ordered mapping of field names to values that
/// begins with the prefix. It is built once and not changed afterwards.
#[derive(Debug, PartialEq, Eq)]
pub struct Command {
    fields: Vec<Field>,
}

impl View for Command {
    type V = Seq<(FieldName, FieldValueView)>;

    closed spec fn view(&self) -> Seq<(FieldName, FieldValueView)> {
        self.fields@.map_values(|f: Field| f@)
    }
}

/// A text as a structured document writes it: between double quotes, with
/// the characters escaped that need it.
pub uninterp spec fn json_quoted(text: Seq<char>) -> Seq<char>;

/// `serde_json`'s `Display` of `Value::String`: the text as a string of a
/// structured document, which is what `json_quoted` names.
#[verifier::external_body]
fn quote(text: &str) -> (r: String)
    ensures
        r@ == json_quoted(text@),
{
    serde_json::Value::String(text.to_owned()).to_string()
}

/// The texts of a list on the wire: each quoted, with commas between them.
pub open spec fn list_text(items: Seq<Seq<char>>) -> Seq<char>
    decreases items.len(),
{
    if items.len() == 0 {
        Seq::empty()
    } else if items.len() == 1 {
        json_quoted(items[0])
    } else {
        list_text(items.drop_last()) + seq![','] + json_quoted(items.last())
    }
}

/// A value on the wire.
pub open spec fn value_text(value: FieldValueView) -> Seq<char> {
    match value {
        FieldValueView::Text(t) => json_quoted(t),
        FieldValueView::Number(n) => decimal_text(n as nat),
        FieldValueView::Decimal(t) => t,
        FieldValueView::List(items) => seq!['['] + list_text(items) + seq![']'],
    }
}

/// A field on the wire: its quoted name, a colon and its value.
pub open spec fn field_text(field: (FieldName, FieldValueView)) -> Seq<char> {
    json_quoted(field.0.token()) + seq![':'] + value_text(field.1)
}

/// Fields on the wire, in their order, with commas between them.
pub open spec fn fields_text(fields: Seq<(FieldName, FieldValueView)>) -> Seq<char>
    decreases fields.len(),
{
    if fields.len() == 0 {
        Seq::empty()
    } else if fields.len() == 1 {
        field_text(fields[0])
    } else {
        fields_text(fields.drop_last()) + seq![','] + field_text(fields.last())
    }
}

/// A command descriptor on the wire: one object of a structured document.
pub open spec fn command_text(fields: Seq<(FieldName, FieldValueView)>) -> Seq<char> {
    seq!['{'] + fields_text(fields) + seq!['}']
}

fn write_list(out: &mut String, items: &Vec<String>)
    ensures
        final(out)@ == old(out)@ + list_text(texts(items@)),
{
    let ghost start = out@;
    let ghost all = texts(items@);
    let mut i: usize = 0;
    while i < items.len()
        invariant
            i <= items.len(),
            all == texts(items@),
            out@ == start + list_text(all.take(i as int)),
        decreases items.len() - i,
    {
        proof {
            assert(all.take(i + 1).drop_last() =~= all.take(i as int));
            assert(all.take(i + 1).last() == items@[i as int]@);
        }
        if i > 0 {
            out.append(",");
            proof {
                reveal_strlit(",");
            }
            assert(","@ =~= seq![',']);
        }
        let quoted = quote(items[i].as_str());
        out.append(quoted.as_str());
        i = i + 1;
        assert(out@ =~= start + list_text(all.take(i as int)));
    }
    assert(all.take(i as int) =~= all);
}

fn write_value(out: &mut String, value: &FieldValue)
    ensures
        final(out)@ == old(out)@ + value_text(value@),
{
    proof {
        reveal_strlit("[");
        reveal_strlit("]");
    }
    let ghost start = out@;
    match value {
        FieldValue::Text(t) => {
            let quoted = quote(t.as_str());
            out.append(quoted.as_str());
        },
        FieldValue::Number(n) => {
            let digits = decimal(*n);
            out.append(digits.as_str());
        },
        FieldValue::Decimal(t) => {
            out.append(t.as_str());
        },
        FieldValue::List(items) => {
            out.append("[");
            write_list(out, items);
            out.append("]");
            assert("["@ =~= seq!['[']);
            assert("]"@ =~= seq![']']);
            assert(out@ =~= start + (seq!['['] + list_text(texts(items@)) + seq![']']));
        },
    }
}

impl Command {
    #[verifier::type_invariant]
    closed spec fn wf(self) -> bool {
        well_formed(self@)
    }

    /// The descriptor that selects `operation` and says nothing more.
    pub(crate) fn new(operation: Operation) -> (c: Command)
        ensures
            c@ == seq![(FieldName::Prefix, FieldValueView::Text(operation.prefix()))],
    {
        let mut fields: Vec<Field> = Vec::new();
        fields.push(
            Field { name: FieldName::Prefix, value: FieldValue::Text(operation.as_ref().to_owned()) },
        );
        let ghost view = fields@.map_values(|f: Field| f@);
        assert(view =~= seq![(FieldName::Prefix, FieldValueView::Text(operation.prefix()))]);
        Command { fields }
    }

    /// This descriptor with one more field at its end.
    pub(crate) fn with(self, name: FieldName, value: FieldValue) -> (c: Command)
        requires
            forall|i: int| 0 <= i < self@.len() ==> (#[trigger] self@[i]).0 != name,
            value is Decimal ==> is_number_literal(value->Decimal_0@),
        ensures
            c@ == self@.push((name, value@)),
    {
        proof {
            use_type_invariant(&self);
        }
        let ghost before = self@;
        let mut fields = self.fields;
        fields.push(Field { name, value });
        let ghost view = fields@.map_values(|f: Field| f@);
        assert(view =~= before.push((name, value@)));
        Command { fields }
    }

    /// The fields, in their order.
    pub fn fields(&self) -> (r: &Vec<Field>)
        ensures
            r@.map_values(|f: Field| f@) == self@,
            well_formed(self@),
    {
        proof {
            use_type_invariant(self);
        }
        &self.fields
    }

    /// The prefix: the name that selects the remote operation.
    pub fn prefix(&self) -> (r: &str)
        ensures
            self@[0].1 == FieldValueView::Text(r@),
    {
        proof {
            use_type_invariant(self);
        }
        match &self.fields[0].value {
            FieldValue::Text(t) => t.as_str(),
            _ => "",
        }
    }

    /// The value of the field called `name`, if the descriptor has one.
    pub fn get(&self, name: FieldName) -> (r: Option<&FieldValue>)
        ensures
            match r {
                Some(value) => lookup(self@, name) == Some(value@),
                None => lookup(self@, name) is None,
            },
    {
        let ghost all = self@;
        let mut i: usize = 0;
        assert(all.skip(0) =~= all);
        while i < self.fields.len()
            invariant
                i <= self.fields.len(),
                all == self@,
                lookup(all, name) == lookup(all.skip(i as int), name),
            decreases self.fields.len() - i,
        {
            if self.fields[i].name == name {
                assert(all.skip(i as int)[0] == self.fields@[i as int]@);
                return Some(&self.fields[i].value);
            }
            assert(all.skip(i as int).skip(1) =~= all.skip(i + 1));
            i = i + 1;
        }
        assert(all.skip(i as int).len() == 0);
        None
    }

    /// The descriptor as it is sent: one object of a structured document,
    /// fields in their order.
    pub fn to_json(&self) -> (r: String)
        ensures
            r@ == command_text(self@),
    {
        proof {
            reveal_strlit("{");
            reveal_strlit("}");
        }
        let ghost all = self@;
        let mut out = String::new();
        out.append("{");
        assert(out@ =~= seq!['{']);
        let mut i: usize = 0;
        while i < self.fields.len()
            invariant
                i <= self.fields.len(),
                all == self@,
                out@ == seq!['{'] + fields_text(all.take(i as int)),
            decreases self.fields.len() - i,
        {
            proof {
                reveal_strlit(",");
                reveal_strlit(":");
                assert(all.take(i + 1).drop_last() =~= all.take(i as int));
                assert(all.take(i + 1).last() == self.fields@[i as int]@);
            }
            if i > 0 {
                out.append(",");
                assert(","@ =~= seq![',']);
            }
            let name = quote(self.fields[i].name.as_ref());
            out.append(name.as_str());
            out.append(":");
            assert(":"@ =~= seq![':']);
            write_value(&mut out, &self.fields[i].value);
            i = i + 1;
            assert(out@ =~= seq!['{'] + fields_text(all.take(i as int)));
        }
        assert(all.take(i as int) =~= all);
        out.append("}");
        assert(out@ =~= command_text(all));
        out
    }
}

} // verus!
