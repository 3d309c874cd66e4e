//! One probe of a node's status endpoint: where to ask, and what the answer
//! means.
//!
//! A node answers a `GET` of its head block with a JSON document; the level
//! that it has reached is the member `level` of the member `header`.

use vstd::prelude::*;
use vstd::string::StringExecFns;
use crate::decimal::chars_of;
use crate::decimal::i32_of;
use crate::decimal::parse_i32_chars;

verus! {

/// The path of a node's head block, relative to the node's address.
pub const STATUS_PATH: &'static str = "chains/main/blocks/head";

/// The lowest and the highest HTTP status that count as success.
pub const STATUS_OK_FIRST: u16 = 200;

pub const STATUS_OK_LAST: u16 = 299;

/// The outcome of one probe of a node.
#[derive(Debug, Clone, PartialEq, Eq)]
pub enum ProbeOutcome {
    /// The node answers, but has not published a level yet.
    NotStarted,
    /// The node answers and reports the level it has reached.
    Progress(i32),
    /// The request failed, or the node answered with an error status; the
    /// text says why.
    Unreachable(String),
}

/// A `ProbeOutcome` as contracts see it.
pub enum ProbeOutcomeView {
    NotStarted,
    Progress(i32),
    Unreachable(Seq<char>),
}

impl View for ProbeOutcome {
    type V = ProbeOutcomeView;

    open spec fn view(&self) -> ProbeOutcomeView {
        match self {
            ProbeOutcome::NotStarted => ProbeOutcomeView::NotStarted,
            ProbeOutcome::Progress(level) => ProbeOutcomeView::Progress(*level),
            ProbeOutcome::Unreachable(cause) => ProbeOutcomeView::Unreachable(cause@),
        }
    }
}

/// The views of recorded outcomes, in order.
pub open spec fn views(outcomes: Seq<ProbeOutcome>) -> Seq<ProbeOutcomeView> {
    outcomes.map_values(|outcome: ProbeOutcome| outcome@)
}

impl ProbeOutcomeView {
    /// The node answered: it is up, whatever it reports.
    pub open spec fn shows_life(self) -> bool {
        !(self is Unreachable)
    }

    /// The node reports a level at or above `threshold`.
    pub open spec fn reaches(self, threshold: i32) -> bool {
        self matches ProbeOutcomeView::Progress(level) && level >= threshold
    }
}

/// A node published, where its level belongs, something that is no number.
/// This is a defect of the node, and no reason to probe again.
#[derive(Debug, Clone, PartialEq, Eq)]
pub struct MalformedLevel {
    /// The member as the node published it, in JSON.
    pub field: String,
}

impl View for MalformedLevel {
    type V = Seq<char>;

    open spec fn view(&self) -> Seq<char> {
        self.field@
    }
}

/// What came back from one request to a node.
#[derive(Debug, Clone, PartialEq, Eq)]
pub enum Reply {
    /// The request could not be completed; `cause` is the transport's error.
    Failed { cause: String },
    /// The node answered with `status`; `reason` is the status spelled out,
    /// `body` the text that came with it.
    Answered { status: u16, reason: String, body: String },
}

/// A `Reply` as contracts see it.
pub enum ReplyView {
    Failed { cause: Seq<char> },
    Answered { status: u16, reason: Seq<char>, body: Seq<char> },
}

impl View for Reply {
    type V = ReplyView;

    open spec fn view(&self) -> ReplyView {
        match self {
            Reply::Failed { cause } => ReplyView::Failed { cause: cause@ },
            Reply::Answered { status, reason, body } => ReplyView::Answered {
                status: *status,
                reason: reason@,
                body: body@,
            },
        }
    }
}

/// What a probe reports: an outcome to act on, or a defect of the node.
pub open spec fn report_view(report: Result<ProbeOutcome, MalformedLevel>) -> Result<
    ProbeOutcomeView,
    Seq<char>,
> {
    match report {
        Ok(outcome) => Ok(outcome@),
        Err(defect) => Err(defect@),
    }
}

/// The text that `serde_json` gives for member `inner` of member `outer` of
/// the JSON document `body`; `None` where `body` is no JSON document.
pub uninterp spec fn json_member_text(
    body: Seq<char>,
    outer: Seq<char>,
    inner: Seq<char>,
) -> Option<Seq<char>>;

/// Calls `serde_json::from_str` to read `body` as a `serde_json::Value`,
/// indexes the value by `outer` and then by `inner`, and renders what it
/// finds with `to_string`, as compact JSON. Indexing never fails: a member
/// that is missing, or asked of a value that is no object, is JSON's `null`.
/// The contract only names the result: it claims that the text depends on
/// the three arguments alone.
#[verifier::external_body]
fn member_text(body: &str, outer: &str, inner: &str) -> (text: Option<String>)
    ensures
        match text {
            Some(found) => json_member_text(body@, outer@, inner@) == Some(found@),
            None => json_member_text(body@, outer@, inner@) is None,
        },
{
    match serde_json::from_str::<serde_json::Value>(body) {
        Ok(document) => Some(document[outer][inner].to_string()),
        Err(_) => None,
    }
}

/// How JSON writes a member that is missing or empty.
pub open spec fn null_text() -> Seq<char> {
    seq!['n', 'u', 'l', 'l']
}

pub open spec fn is_quote(c: char) -> bool {
    c == '"'
}

/// `text` without its quotation marks.
pub open spec fn without_quotes(text: Seq<char>) -> Seq<char> {
    text.filter(|c: char| !is_quote(c))
}

/// What the member that holds the level says of the node; `field` is the
/// member in JSON, or `None` where the node's answer held no JSON at all.
///
/// No JSON, no such member, or a member that is empty once its quotation
/// marks are gone: the node has not started. A numeral that fits an `i32`,
/// quoted or not: that is the node's level. Anything else is a defect.
pub open spec fn field_outcome(field: Option<Seq<char>>) -> Result<ProbeOutcomeView, Seq<char>> {
    match field {
        None => Ok(ProbeOutcomeView::NotStarted),
        Some(text) => if text == null_text() || without_quotes(text).len() == 0 {
            Ok(ProbeOutcomeView::NotStarted)
        } else {
            match i32_of(without_quotes(text)) {
                Some(level) => Ok(ProbeOutcomeView::Progress(level)),
                None => Err(text),
            }
        },
    }
}

pub open spec fn is_success(status: u16) -> bool {
    STATUS_OK_FIRST <= status <= STATUS_OK_LAST
}

impl ReplyView {
    /// What the reply says of the node. A request that failed and an answer
    /// with a status outside the success range both mean that the node is
    /// unreachable; the body of any other answer is read as JSON.
    pub open spec fn report(self) -> Result<ProbeOutcomeView, Seq<char>> {
        match self {
            ReplyView::Failed { cause } => Ok(ProbeOutcomeView::Unreachable(cause)),
            ReplyView::Answered { status, reason, body } => if is_success(status) {
                field_outcome(json_member_text(body, "header"@, "level"@))
            } else {
                Ok(ProbeOutcomeView::Unreachable(reason))
            },
        }
    }
}

/// The address to probe for the node at `endpoint`.
pub fn status_url(endpoint: &str) -> (url: String)
    ensures
        url@ == endpoint@ + STATUS_PATH@,
{
    let mut url = endpoint.to_owned();
    url.append(STATUS_PATH);
    url
}

/// Quotation marks are dropped one character at a time.
pub proof fn lemma_without_quotes_push(text: Seq<char>, c: char)
    ensures
        without_quotes(text.push(c)) == if is_quote(c) {
            without_quotes(text)
        } else {
            without_quotes(text).push(c)
        },
{
    let longer = text.push(c);
    assert(longer.drop_last() =~= text);
    assert(longer.last() == c);
    reveal_with_fuel(Seq::filter, 2);
}

/// Drops the quotation marks from `chars`.
pub fn strip_quotes(chars: &Vec<char>) -> (bare: Vec<char>)
    ensures
        bare@ == without_quotes(chars@),
{
    let mut bare: Vec<char> = Vec::new();
    let mut i: usize = 0;
    assert(chars@.take(0) =~= Seq::<char>::empty());
    while i < chars.len()
        invariant
            i <= chars.len(),
            bare@ == without_quotes(chars@.take(i as int)),
        decreases chars.len() - i,
    {
        let c: char = chars[i];
        proof {
            assert(chars@.take(i + 1) =~= chars@.take(i as int).push(c));
            lemma_without_quotes_push(chars@.take(i as int), c);
        }
        if c != '"' {
            bare.push(c);
        }
        i += 1;
    }
    assert(chars@.take(i as int) =~= chars@);
    bare
}

/// `chars` spell `null`.
pub fn is_null_text(chars: &Vec<char>) -> (null: bool)
    ensures
        null == (chars@ == null_text()),
{
    let null = chars.len() == 4 && chars[0] == 'n' && chars[1] == 'u' && chars[2] == 'l'
        && chars[3] == 'l';
    assert(null ==> chars@ =~= null_text());
    null
}

/// Reads the member that holds the level; see `field_outcome`.
pub fn outcome_of_field(field: Option<String>) -> (report: Result<ProbeOutcome, MalformedLevel>)
    ensures
        report_view(report) == field_outcome(
            match field {
                Some(text) => Some(text@),
                None => None,
            },
        ),
{
    match field {
        None => Ok(ProbeOutcome::NotStarted),
        Some(text) => {
            let chars = chars_of(text.as_str());
            let bare = strip_quotes(&chars);
            if is_null_text(&chars) || bare.len() == 0 {
                Ok(ProbeOutcome::NotStarted)
            } else {
                match parse_i32_chars(&bare) {
                    Some(level) => Ok(ProbeOutcome::Progress(level)),
                    None => Err(MalformedLevel { field: text }),
                }
            }
        },
    }
}

/// Says what a reply means for the node that sent it.
pub fn classify(reply: Reply) -> (report: Result<ProbeOutcome, MalformedLevel>)
    ensures
        report_view(report) == reply@.report(),
{
    match reply {
        Reply::Failed { cause } => Ok(ProbeOutcome::Unreachable(cause)),
        Reply::Answered { status, reason, body } => {
            if STATUS_OK_FIRST <= status && status <= STATUS_OK_LAST {
                outcome_of_field(member_text(body.as_str(), "header", "level"))
            } else {
                Ok(ProbeOutcome::Unreachable(reason))
            }
        },
    }
}

} // verus!
