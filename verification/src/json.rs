//! Structured documents: the tree that a line of a reply parses to, and the
//! rules by which typed values are decoded from it.
use crate::text::{parse_i64, parse_signed, parse_u64, parse_unsigned, same_text};
use vstd::prelude::*;

verus! {

/// A structured document.
#[derive(Debug, PartialEq, Eq)]
pub enum Json {
    Null,
    Bool(bool),
    /// A number, kept as its literal.
    Number(String),
    Text(String),
    /// A list, in the order of the document.
    List(Vec<Json>),
    /// An object: its members, each a name and a value, in the order in
    /// which the object was handed over.
    Object(Vec<(String, Json)>),
}

/// What a member of an object holds.
pub ghost struct MemberView {
    pub name: Seq<char>,
    pub value: JsonView,
}

/// What a `Json` holds.
pub ghost enum JsonView {
    Null,
    Bool(bool),
    Number(Seq<char>),
    Text(Seq<char>),
    List(Seq<JsonView>),
    Object(Seq<MemberView>),
}

impl View for Json {
    type V = JsonView;

    open spec fn view(&self) -> JsonView
        decreases self,
    {
        match self {
            Json::Null => JsonView::Null,
            Json::Bool(b) => JsonView::Bool(*b),
            Json::Number(literal) => JsonView::Number(literal@),
            Json::Text(text) => JsonView::Text(text@),
            Json::List(items) => JsonView::List(
                Seq::new(
                    items@.len(),
                    |i: int|
                        if 0 <= i < items@.len() {
                            items@[i]@
                        } else {
                            JsonView::Null
                        },
                ),
            ),
            Json::Object(members) => JsonView::Object(
                Seq::new(
                    members@.len(),
                    |i: int|
                        if 0 <= i < members@.len() {
                            MemberView { name: members@[i].0@, value: members@[i].1@ }
                        } else {
                            MemberView { name: Seq::empty(), value: JsonView::Null }
                        },
                ),
            ),
        }
    }
}

/// `serde_json::Value`: a parsed document as `serde_json` holds it. Nothing
/// is known of what is inside one.
#[verifier::external_type_specification]
#[verifier::external_body]
pub struct ExValue(serde_json::Value);

/// The document that a line of text parses to, where it parses.
pub uninterp spec fn json_document(line: Seq<char>) -> Option<JsonView>;

/// Turns a `serde_json::Value` into a `Json`, variant for variant and member
/// for member. A number becomes its literal, as `Display` of
/// `serde_json::Number` writes it. Nothing is claimed of the result.
#[verifier::external_body]
fn lift(value: serde_json::Value) -> Json {
    match value {
        serde_json::Value::Null => Json::Null,
        serde_json::Value::Bool(b) => Json::Bool(b),
        serde_json::Value::Number(n) => Json::Number(n.to_string()),
        serde_json::Value::String(s) => Json::Text(s),
        serde_json::Value::Array(items) => Json::List(items.into_iter().map(lift).collect()),
        serde_json::Value::Object(members) => Json::Object(
            members.into_iter().map(|(k, v)| (k, lift(v))).collect(),
        ),
    }
}

/// `serde_json::from_str` at `serde_json::Value`: parses `line` as one
/// structured document. The result depends on the line alone, and
/// `json_document` names it; nothing is claimed of which lines parse.
#[verifier::external_body]
pub(crate) fn parse_document(line: &str) -> (r: Option<Json>)
    ensures
        match r {
            Some(doc) => json_document(line@) == Some(doc@),
            None => json_document(line@) is None,
        },
{
    match serde_json::from_str::<serde_json::Value>(line) {
        Ok(value) => Some(lift(value)),
        Err(_) => None,
    }
}

/// The value of the first of `members` called `name`; null where there is
/// none.
pub open spec fn find(members: Seq<MemberView>, name: Seq<char>) -> JsonView
    decreases members.len(),
{
    if members.len() == 0 {
        JsonView::Null
    } else if members[0].name == name {
        members[0].value
    } else {
        find(members.skip(1), name)
    }
}

/// The member of `doc` called `name`; null where `doc` has none or is no
/// object: a member that is absent reads as one that is null.
pub open spec fn member(doc: JsonView, name: Seq<char>) -> JsonView {
    match doc {
        JsonView::Object(members) => find(members, name),
        _ => JsonView::Null,
    }
}

/// What an object holds, member by member.
pub proof fn lemma_object_view(members: Vec<(String, Json)>)
    ensures
        Json::Object(members)@ is Object,
        Json::Object(members)@->Object_0.len() == members@.len(),
        forall|k: int|
            0 <= k < members@.len() ==> (#[trigger] Json::Object(members)@->Object_0[k])
                == (MemberView { name: members@[k].0@, value: members@[k].1@ }),
{
}

/// What a list holds, item by item.
pub proof fn lemma_list_view(items: Vec<Json>)
    ensures
        Json::List(items)@ is List,
        Json::List(items)@->List_0.len() == items@.len(),
        forall|k: int|
            0 <= k < items@.len() ==> (#[trigger] Json::List(items)@->List_0[k]) == items@[k]@,
{
}

impl Json {
    /// The member called `name`; `None` where `member` is null because
    /// there is no such member.
    pub fn get(&self, name: &str) -> (r: Option<&Json>)
        ensures
            match r {
                Some(value) => value@ == member(self@, name@),
                None => member(self@, name@) == JsonView::Null,
            },
    {
        match self {
            Json::Object(members) => {
                let ghost all = self@->Object_0;
                let mut i: usize = 0;
                assert(all.skip(0) =~= all);
                proof {
                    lemma_object_view(*members);
                }
                while i < members.len()
                    invariant
                        i <= members.len(),
                        self@ == JsonView::Object(all),
                        all.len() == members@.len(),
                        forall|k: int|
                            0 <= k < members@.len() ==> (#[trigger] all[k]) == (MemberView {
                                name: members@[k].0@,
                                value: members@[k].1@,
                            }),
                        find(all, name@) == find(all.skip(i as int), name@),
                    decreases members.len() - i,
                {
                    assert(all.skip(i as int)[0] == all[i as int]);
                    if same_text(members[i].0.as_str(), name) {
                        return Some(&members[i].1);
                    }
                    assert(all.skip(i as int).skip(1) =~= all.skip(i + 1));
                    i = i + 1;
                }
                assert(all.skip(i as int).len() == 0);
                None
            },
            _ => None,
        }
    }
}

/// A type whose values are decoded from structured documents.
pub trait Decode: Sized {
    /// Whether `doc` decodes to a value of this type.
    spec fn decodable(doc: JsonView) -> bool;

    /// Whether `self` is the value that `doc` decodes to.
    spec fn decoded_from(&self, doc: JsonView) -> bool;

    /// Decodes `doc`.
    fn decode(doc: &Json) -> (r: Option<Self>)
        ensures
            r is Some <==> Self::decodable(doc@),
            r is Some ==> r->0.decoded_from(doc@),
    ;
}

/// Decodes the member of `doc` called `name`.
pub fn field<T: Decode>(doc: &Json, name: &str) -> (r: Option<T>)
    ensures
        r is Some <==> T::decodable(member(doc@, name@)),
        r is Some ==> r->0.decoded_from(member(doc@, name@)),
{
    match doc.get(name) {
        Some(value) => T::decode(value),
        None => T::decode(&Json::Null),
    }
}

/// A text decodes from a text.
impl Decode for String {
    open spec fn decodable(doc: JsonView) -> bool {
        doc is Text
    }

    open spec fn decoded_from(&self, doc: JsonView) -> bool {
        doc == JsonView::Text(self@)
    }

    fn decode(doc: &Json) -> (r: Option<String>) {
        match doc {
            Json::Text(text) => Some(text.clone()),
            _ => None,
        }
    }
}

/// A truth value decodes from a truth value.
impl Decode for bool {
    open spec fn decodable(doc: JsonView) -> bool {
        doc is Bool
    }

    open spec fn decoded_from(&self, doc: JsonView) -> bool {
        doc == JsonView::Bool(*self)
    }

    fn decode(doc: &Json) -> (r: Option<bool>) {
        match doc {
            Json::Bool(b) => Some(*b),
            _ => None,
        }
    }
}

/// An unsigned number decodes from a number whose literal is a run of digits
/// with a value that fits.
impl Decode for u64 {
    open spec fn decodable(doc: JsonView) -> bool {
        doc is Number && parse_unsigned(doc->Number_0) is Some
    }

    open spec fn decoded_from(&self, doc: JsonView) -> bool {
        doc is Number && parse_unsigned(doc->Number_0) == Some(*self)
    }

    fn decode(doc: &Json) -> (r: Option<u64>) {
        match doc {
            Json::Number(literal) => parse_u64(literal.as_str()),
            _ => None,
        }
    }
}

/// A small unsigned number decodes as an unsigned number below 256.
impl Decode for u8 {
    open spec fn decodable(doc: JsonView) -> bool {
        doc is Number && parse_unsigned(doc->Number_0) is Some && parse_unsigned(doc->Number_0)->0
            <= u8::MAX
    }

    open spec fn decoded_from(&self, doc: JsonView) -> bool {
        doc is Number && parse_unsigned(doc->Number_0) == Some(*self as u64)
    }

    fn decode(doc: &Json) -> (r: Option<u8>) {
        match doc {
            Json::Number(literal) => match parse_u64(literal.as_str()) {
                Some(n) => if n <= 255 {
                    Some(n as u8)
                } else {
                    None
                },
                None => None,
            },
            _ => None,
        }
    }
}

/// A signed number decodes from a number whose literal is a run of digits,
/// which `-` may precede, with a value that fits.
impl Decode for i64 {
    open spec fn decodable(doc: JsonView) -> bool {
        doc is Number && parse_signed(doc->Number_0) is Some
    }

    open spec fn decoded_from(&self, doc: JsonView) -> bool {
        doc is Number && parse_signed(doc->Number_0) == Some(*self)
    }

    fn decode(doc: &Json) -> (r: Option<i64>) {
        match doc {
            Json::Number(literal) => parse_i64(literal.as_str()),
            _ => None,
        }
    }
}

/// An optional value is absent where the document is null, and decodes as
/// the value does where it is not.
impl<T: Decode> Decode for Option<T> {
    open spec fn decodable(doc: JsonView) -> bool {
        doc is Null || T::decodable(doc)
    }

    open spec fn decoded_from(&self, doc: JsonView) -> bool {
        match self {
            None => doc is Null,
            Some(value) => !(doc is Null) && value.decoded_from(doc),
        }
    }

    fn decode(doc: &Json) -> (r: Option<Option<T>>) {
        match doc {
            Json::Null => Some(None),
            _ => match T::decode(doc) {
                Some(value) => Some(Some(value)),
                None => None,
            },
        }
    }
}

/// A list decodes from a list whose items all decode, in their order.
impl<T: Decode> Decode for Vec<T> {
    open spec fn decodable(doc: JsonView) -> bool {
        doc is List && forall|i: int|
            0 <= i < doc->List_0.len() ==> T::decodable(#[trigger] doc->List_0[i])
    }

    open spec fn decoded_from(&self, doc: JsonView) -> bool {
        &&& doc is List
        &&& self@.len() == doc->List_0.len()
        &&& forall|i: int|
            0 <= i < self@.len() ==> (#[trigger] self@[i]).decoded_from(doc->List_0[i])
    }

    fn decode(doc: &Json) -> (r: Option<Vec<T>>) {
        match doc {
            Json::List(items) => {
                let ghost all = doc@->List_0;
                proof {
                    lemma_list_view(*items);
                }
                let mut out: Vec<T> = Vec::new();
                let mut i: usize = 0;
                while i < items.len()
                    invariant
                        i <= items.len(),
                        doc@ == JsonView::List(all),
                        all.len() == items@.len(),
                        forall|k: int| 0 <= k < items@.len() ==> (#[trigger] all[k]) == items@[k]@,
                        out@.len() == i,
                        forall|k: int| 0 <= k < i ==> T::decodable(#[trigger] all[k]),
                        forall|k: int| 0 <= k < i ==> (#[trigger] out@[k]).decoded_from(all[k]),
                    decreases items.len() - i,
                {
                    match T::decode(&items[i]) {
                        Some(value) => {
                            out.push(value);
                        },
                        None => {
                            assert(!T::decodable(all[i as int]));
                            assert(doc@->List_0[i as int] == all[i as int]);
                            assert(!Self::decodable(doc@));
                            return None;
                        },
                    }
                    i = i + 1;
                }
                Some(out)
            },
            _ => None,
        }
    }
}

} // verus!
