//! Replies of the cluster and what they amount to: the first line of the
//! primary text, or the failure that the reply stands for.
use crate::command::{FieldName, Operation};
use crate::json::{json_document, parse_document, Decode, Json, JsonView};
use crate::text::{first_line, first_line_of, parse_scalar, parse_scalar_u64};
use vstd::prelude::*;

verus! {

/// What the transport hands back for one command: a primary text and a
/// diagnostic text, each of which may be absent.
#[derive(Debug, Clone, PartialEq, Eq)]
pub struct Reply {
    pub primary: Option<String>,
    pub diagnostic: Option<String>,
}

/// What a reply amounts to, whatever the operation.
#[derive(Debug, Clone, PartialEq, Eq)]
pub enum Outcome {
    /// Neither text is there.
    NoData,
    /// Only the diagnostic text is there: the cluster says why it failed.
    Diagnostic(String),
    /// The primary text is there; a diagnostic text beside it does not count.
    Data(String),
}

/// What an `Outcome` holds.
pub ghost enum OutcomeView {
    NoData,
    Diagnostic(Seq<char>),
    Data(Seq<char>),
}

impl View for Outcome {
    type V = OutcomeView;

    open spec fn view(&self) -> OutcomeView {
        match self {
            Outcome::NoData => OutcomeView::NoData,
            Outcome::Diagnostic(text) => OutcomeView::Diagnostic(text@),
            Outcome::Data(text) => OutcomeView::Data(text@),
        }
    }
}

impl Reply {
    /// What this reply amounts to.
    pub open spec fn outcome_view(self) -> OutcomeView {
        match self.primary {
            Some(text) => OutcomeView::Data(text@),
            None => match self.diagnostic {
                Some(text) => OutcomeView::Diagnostic(text@),
                None => OutcomeView::NoData,
            },
        }
    }

    /// What this reply amounts to.
    pub fn outcome(self) -> (r: Outcome)
        ensures
            r@ == self.outcome_view(),
    {
        match self.primary {
            Some(text) => Outcome::Data(text),
            None => match self.diagnostic {
                Some(text) => Outcome::Diagnostic(text),
                None => Outcome::NoData,
            },
        }
    }
}

/// Why a call failed. `E` is the transport's own error, which is handed on
/// as it came.
#[derive(Debug, Clone, PartialEq, Eq)]
pub enum CmdError<E> {
    /// The transport could not complete the call.
    Transport(E),
    /// The transport succeeded and the cluster sent neither text.
    NoResponse(Operation),
    /// The cluster sent no primary text and said why: the diagnostic text,
    /// word for word.
    Failure(String),
    /// The primary text is there and is not what the operation answers
    /// with: it has no line, or its first line does not decode. `text` is
    /// the primary text as it came.
    Malformed { operation: Operation, text: String },
    /// The caller handed in a parameter from which no command can be built.
    InvalidParameter { operation: Operation, name: FieldName },
}

/// What a `CmdError` holds.
pub ghost enum CmdErrorView<E> {
    Transport(E),
    NoResponse(Operation),
    Failure(Seq<char>),
    Malformed { operation: Operation, text: Seq<char> },
    InvalidParameter { operation: Operation, name: FieldName },
}

impl<E> View for CmdError<E> {
    type V = CmdErrorView<E>;

    open spec fn view(&self) -> CmdErrorView<E> {
        match self {
            CmdError::Transport(e) => CmdErrorView::Transport(*e),
            CmdError::NoResponse(operation) => CmdErrorView::NoResponse(*operation),
            CmdError::Failure(text) => CmdErrorView::Failure(text@),
            CmdError::Malformed { operation, text } => CmdErrorView::Malformed {
                operation: *operation,
                text: text@,
            },
            CmdError::InvalidParameter { operation, name } => CmdErrorView::InvalidParameter {
                operation: *operation,
                name: *name,
            },
        }
    }
}

impl<E> CmdErrorView<E> {
    /// The failure in words; a transport failure has only the transport's.
    pub open spec fn reason(self) -> Option<Seq<char>> {
        match self {
            CmdErrorView::Transport(_) => None,
            CmdErrorView::NoResponse(operation) => Some(
                "no response from cluster for "@ + operation.prefix(),
            ),
            CmdErrorView::Failure(text) => Some(text),
            CmdErrorView::Malformed { operation, text } => Some(
                "malformed response for "@ + operation.prefix() + ": "@ + text,
            ),
            CmdErrorView::InvalidParameter { operation, name } => Some(
                "invalid parameter "@ + name.token() + " for "@ + operation.prefix(),
            ),
        }
    }
}

impl<E> CmdError<E> {
    /// The failure in words; a transport failure has only the transport's.
    pub fn reason(&self) -> (r: Option<String>)
        ensures
            match r {
                Some(text) => self@.reason() == Some(text@),
                None => self@.reason() is None,
            },
    {
        match self {
            CmdError::Transport(_) => None,
            CmdError::NoResponse(operation) => {
                let mut out = "no response from cluster for ".to_owned();
                out.append(operation.as_ref());
                Some(out)
            },
            CmdError::Failure(text) => Some(text.clone()),
            CmdError::Malformed { operation, text } => {
                let mut out = "malformed response for ".to_owned();
                out.append(operation.as_ref());
                out.append(": ");
                out.append(text.as_str());
                Some(out)
            },
            CmdError::InvalidParameter { operation, name } => {
                let mut out = "invalid parameter ".to_owned();
                out.append(name.as_ref());
                out.append(" for ");
                out.append(operation.as_ref());
                Some(out)
            },
        }
    }
}

/// Whether `r` is the result that `expected` describes, texts taken by their
/// characters.
pub open spec fn is_text_result<E>(
    r: Result<String, CmdError<E>>,
    expected: Result<Seq<char>, CmdErrorView<E>>,
) -> bool {
    match expected {
        Ok(text) => r is Ok && r->Ok_0@ == text,
        Err(e) => r is Err && r->Err_0@ == e,
    }
}

/// Whether `r` is the result that `expected` describes.
pub open spec fn is_result<T, E>(r: Result<T, CmdError<E>>, expected: Result<T, CmdErrorView<E>>) -> bool {
    match expected {
        Ok(value) => r == Ok::<T, CmdError<E>>(value),
        Err(e) => r is Err && r->Err_0@ == e,
    }
}

/// The primary text of a reply to `operation`, or the failure that its
/// absence stands for: the transport's failure; else the diagnostic text,
/// where the cluster sent one; else that there was no response.
pub open spec fn primary_text<E>(operation: Operation, reply: Result<Reply, E>) -> Result<
    Seq<char>,
    CmdErrorView<E>,
> {
    match reply {
        Err(e) => Err(CmdErrorView::Transport(e)),
        Ok(reply) => match reply.outcome_view() {
            OutcomeView::NoData => Err(CmdErrorView::NoResponse(operation)),
            OutcomeView::Diagnostic(text) => Err(CmdErrorView::Failure(text)),
            OutcomeView::Data(text) => Ok(text),
        },
    }
}

/// The line that answers `operation`: the first line of the primary text.
/// Later lines do not count. A primary text without a line is malformed.
pub open spec fn answer_line<E>(operation: Operation, reply: Result<Reply, E>) -> Result<
    Seq<char>,
    CmdErrorView<E>,
> {
    match primary_text(operation, reply) {
        Err(e) => Err(e),
        Ok(text) => match first_line(text) {
            Some(line) => Ok(line),
            None => Err(CmdErrorView::Malformed { operation, text }),
        },
    }
}

/// The number that answers `operation`: its answer line read as a scalar.
/// A line that is no such number is malformed.
pub open spec fn answer_number<E>(operation: Operation, reply: Result<Reply, E>) -> Result<
    u64,
    CmdErrorView<E>,
> {
    match answer_line(operation, reply) {
        Err(e) => Err(e),
        Ok(line) => match parse_scalar(line) {
            Some(n) => Ok(n),
            None => Err(CmdErrorView::Malformed { operation, text: primary_text(operation, reply)->Ok_0 }),
        },
    }
}

/// What a mutation answers with: nothing. What the cluster says in reply to
/// a mutation is no answer, so only a failure of the transport fails it.
pub open spec fn answer_unit<E>(reply: Result<Reply, E>) -> Result<(), CmdErrorView<E>> {
    match reply {
        Err(e) => Err(CmdErrorView::Transport(e)),
        Ok(_) => Ok(()),
    }
}

/// Takes the primary text out of a reply to `operation`.
pub fn take_primary<E>(operation: Operation, reply: Result<Reply, E>) -> (r: Result<
    String,
    CmdError<E>,
>)
    ensures
        is_text_result(r, primary_text(operation, reply)),
{
    match reply {
        Err(e) => Err(CmdError::Transport(e)),
        Ok(reply) => match reply.outcome() {
            Outcome::NoData => Err(CmdError::NoResponse(operation)),
            Outcome::Diagnostic(text) => Err(CmdError::Failure(text)),
            Outcome::Data(text) => Ok(text),
        },
    }
}

/// Interprets a reply to an operation that answers with a text: the answer
/// line, as it is.
pub fn text_reply<E>(operation: Operation, reply: Result<Reply, E>) -> (r: Result<
    String,
    CmdError<E>,
>)
    ensures
        is_text_result(r, answer_line(operation, reply)),
{
    match take_primary(operation, reply) {
        Err(e) => Err(e),
        Ok(text) => match first_line_of(text.as_str()) {
            Some(line) => Ok(line),
            None => Err(CmdError::Malformed { operation, text }),
        },
    }
}

/// Interprets a reply to an operation that answers with a number.
pub fn number_reply<E>(operation: Operation, reply: Result<Reply, E>) -> (r: Result<
    u64,
    CmdError<E>,
>)
    ensures
        is_result(r, answer_number(operation, reply)),
{
    match take_primary(operation, reply) {
        Err(e) => Err(e),
        Ok(text) => match first_line_of(text.as_str()) {
            Some(line) => match parse_scalar_u64(line.as_str()) {
                Some(n) => Ok(n),
                None => Err(CmdError::Malformed { operation, text }),
            },
            None => Err(CmdError::Malformed { operation, text }),
        },
    }
}

/// Interprets a reply to a mutation: only a failure of the transport counts.
pub fn unit_reply<E>(reply: Result<Reply, E>) -> (r: Result<(), CmdError<E>>)
    ensures
        is_result(r, answer_unit(reply)),
{
    match reply {
        Err(e) => Err(CmdError::Transport(e)),
        Ok(_) => Ok(()),
    }
}

/// The document that answers `operation`: its answer line parsed. A line
/// that does not parse is malformed.
pub open spec fn answer_document<E>(operation: Operation, reply: Result<Reply, E>) -> Result<
    JsonView,
    CmdErrorView<E>,
> {
    match answer_line(operation, reply) {
        Err(e) => Err(e),
        Ok(line) => match json_document(line) {
            Some(doc) => Ok(doc),
            None => Err(
                CmdErrorView::Malformed { operation, text: primary_text(operation, reply)->Ok_0 },
            ),
        },
    }
}

/// Whether `r` is what a parsed answer line decodes to: the value, where
/// `doc` is there and decodes to one; else that `text` is malformed.
pub open spec fn is_decoded<T: Decode, E>(
    r: Result<T, CmdError<E>>,
    operation: Operation,
    text: Seq<char>,
    doc: Option<JsonView>,
) -> bool {
    if doc is Some && T::decodable(doc->0) {
        r is Ok && r->Ok_0.decoded_from(doc->0)
    } else {
        r is Err && r->Err_0@ == (CmdErrorView::<E>::Malformed { operation, text })
    }
}

/// Whether `r` is the value that answers `operation`: its answer document
/// decoded. A document that does not decode is malformed.
pub open spec fn is_answer<T: Decode, E>(
    r: Result<T, CmdError<E>>,
    operation: Operation,
    reply: Result<Reply, E>,
) -> bool {
    match answer_line(operation, reply) {
        Err(e) => r is Err && r->Err_0@ == e,
        Ok(line) => is_decoded(
            r,
            operation,
            primary_text(operation, reply)->Ok_0,
            json_document(line),
        ),
    }
}

/// Decodes the parsed answer line of a reply to `operation`, whose primary
/// text was `text`.
pub fn decoded<T: Decode, E>(operation: Operation, text: String, doc: Option<Json>) -> (r: Result<
    T,
    CmdError<E>,
>)
    ensures
        is_decoded(
            r,
            operation,
            text@,
            match doc {
                Some(d) => Some(d@),
                None => None,
            },
        ),
{
    match doc {
        Some(d) => match T::decode(&d) {
            Some(value) => Ok(value),
            None => Err(CmdError::Malformed { operation, text }),
        },
        None => Err(CmdError::Malformed { operation, text }),
    }
}

/// Interprets a reply to an operation that answers with a structured
/// document.
pub fn document_reply<T: Decode, E>(operation: Operation, reply: Result<Reply, E>) -> (r: Result<
    T,
    CmdError<E>,
>)
    ensures
        is_answer(r, operation, reply),
{
    match take_primary(operation, reply) {
        Err(e) => Err(e),
        Ok(text) => match first_line_of(text.as_str()) {
            Some(line) => {
                let doc = parse_document(line.as_str());
                decoded(operation, text, doc)
            },
            None => Err(CmdError::Malformed { operation, text }),
        },
    }
}

/// Only the first line of the primary text decides what an operation
/// answers with, where it answers: two replies whose primary texts begin
/// with the same line are answered alike.
pub proof fn lemma_first_line_decides<E>(operation: Operation, a: Reply, b: Reply)
    requires
        a.primary is Some,
        b.primary is Some,
        first_line(a.primary->0@) is Some,
        first_line(a.primary->0@) == first_line(b.primary->0@),
    ensures
        answer_line(operation, Ok::<Reply, E>(a)) == answer_line(operation, Ok::<Reply, E>(b)),
        answer_number(operation, Ok::<Reply, E>(a)) is Ok ==> answer_number(
            operation,
            Ok::<Reply, E>(a),
        ) == answer_number(operation, Ok::<Reply, E>(b)),
        answer_document(operation, Ok::<Reply, E>(a)) is Ok ==> answer_document(
            operation,
            Ok::<Reply, E>(a),
        ) == answer_document(operation, Ok::<Reply, E>(b)),
{
}

/// The four ways in which the two texts of a reply can be there or not, and
/// what each amounts to for an operation that answers with a text.
pub proof fn lemma_reply_presence<E>(operation: Operation, reply: Reply)
    ensures
        reply.primary is None && reply.diagnostic is None ==> answer_line(
            operation,
            Ok::<Reply, E>(reply),
        ) == Err::<Seq<char>, CmdErrorView<E>>(CmdErrorView::NoResponse(operation)),
        reply.primary is None && reply.diagnostic is Some ==> answer_line(
            operation,
            Ok::<Reply, E>(reply),
        ) == Err::<Seq<char>, CmdErrorView<E>>(CmdErrorView::Failure(reply.diagnostic->0@)),
        reply.primary is Some && reply.primary->0@.len() == 0 ==> answer_line(
            operation,
            Ok::<Reply, E>(reply),
        ) == Err::<Seq<char>, CmdErrorView<E>>(
            CmdErrorView::Malformed { operation, text: Seq::empty() },
        ),
        reply.primary is Some && reply.primary->0@.len() > 0 ==> answer_line(
            operation,
            Ok::<Reply, E>(reply),
        ) is Ok,
{
    if reply.primary is Some && reply.primary->0@.len() == 0 {
        assert(reply.primary->0@ =~= Seq::<char>::empty());
    }
}

} // verus!
