//! What a request ends in: the reply sent to the caller and the line
//! written to the log.

use crate::text::{after_last, after_last_start, chars_of, push_chars};
use crate::trusted::{status_display, status_line};
use vstd::prelude::*;
use vstd::string::*;

verus! {

/// The statuses that the relay replies with.
#[derive(Clone, Copy, Debug, PartialEq, Eq, Structural)]
pub enum Status {
    /// 200: the page is served.
    Success,
    /// 400: the request is malformed.
    BadRequest,
    /// 404: the request names no page.
    NotFound,
    /// 500: the page could not be fetched.
    InternalServerError,
}

impl Status {
    /// The numeric code of the status.
    pub open spec fn code_spec(self) -> u16 {
        match self {
            Status::Success => 200,
            Status::BadRequest => 400,
            Status::NotFound => 404,
            Status::InternalServerError => 500,
        }
    }

    /// The numeric code of the status.
    #[verifier::when_used_as_spec(code_spec)]
    pub fn code(self) -> (code: u16)
        ensures
            code == self.code_spec(),
    {
        match self {
            Status::Success => 200,
            Status::BadRequest => 400,
            Status::NotFound => 404,
            Status::InternalServerError => 500,
        }
    }
}

/// Why a request failed.
#[derive(Clone, Copy, Debug, PartialEq, Eq, Structural)]
pub enum Failure {
    /// The request carried no `Host` header.
    MissingHost,
    /// The `Host` header does not read as text.
    InvalidHost,
    /// The lookup call did not come back.
    LookupFailed,
    /// The lookup's answer is not a record.
    RecordUnparsable,
    /// The record has no value.
    ValueMissing,
    /// The record's value has no `href`.
    HrefMissing,
    /// The fetch call did not come back.
    FetchFailed,
    /// The fetched body could not be read as text.
    PageUnreadable,
}

impl Failure {
    /// The status that the failure is answered with: a malformed request
    /// with 400, a failed resolution with 404, a failed fetch with 500.
    pub open spec fn status_spec(self) -> Status {
        match self {
            Failure::MissingHost | Failure::InvalidHost => Status::BadRequest,
            Failure::LookupFailed
            | Failure::RecordUnparsable
            | Failure::ValueMissing
            | Failure::HrefMissing => Status::NotFound,
            Failure::FetchFailed | Failure::PageUnreadable => Status::InternalServerError,
        }
    }

    /// How the logged message of the failure begins. What follows is the
    /// key or the `href` that the failure is about.
    pub open spec fn lead_spec(self) -> Seq<char> {
        match self {
            Failure::MissingHost => "Missing Host header"@,
            Failure::InvalidHost => "Invalid Host header"@,
            Failure::LookupFailed => "Failed to fetch record for rkey: "@,
            Failure::RecordUnparsable => "Failed to parse JSON for rkey: "@,
            Failure::ValueMissing | Failure::HrefMissing => "No href found for rkey: "@,
            Failure::FetchFailed => "Failed to fetch page from href: "@,
            Failure::PageUnreadable => "Failed to read page text from href: "@,
        }
    }

    /// The status that the failure is answered with.
    #[verifier::when_used_as_spec(status_spec)]
    pub fn status(self) -> (status: Status)
        ensures
            status == self.status_spec(),
    {
        match self {
            Failure::MissingHost | Failure::InvalidHost => Status::BadRequest,
            Failure::LookupFailed
            | Failure::RecordUnparsable
            | Failure::ValueMissing
            | Failure::HrefMissing => Status::NotFound,
            Failure::FetchFailed | Failure::PageUnreadable => Status::InternalServerError,
        }
    }

    /// The logged message of the failure about `subject`.
    pub fn message(self, subject: &str) -> (msg: String)
        ensures
            msg@ == self.lead_spec() + subject@,
    {
        let lead = match self {
            Failure::MissingHost => "Missing Host header",
            Failure::InvalidHost => "Invalid Host header",
            Failure::LookupFailed => "Failed to fetch record for rkey: ",
            Failure::RecordUnparsable => "Failed to parse JSON for rkey: ",
            Failure::ValueMissing | Failure::HrefMissing => "No href found for rkey: ",
            Failure::FetchFailed => "Failed to fetch page from href: ",
            Failure::PageUnreadable => "Failed to read page text from href: ",
        };
        let mut msg = String::from_str(lead);
        msg.append(subject);
        msg
    }
}

/// The reply sent to the caller.
#[derive(Clone, Debug, PartialEq, Eq)]
pub struct Reply {
    pub status: Status,
    pub body: String,
    /// The value of the `Content-Type` header, where one is set.
    pub content_type: Option<String>,
}

/// A reply as plain values.
pub struct ReplyView {
    pub status: Status,
    pub body: Seq<char>,
    pub content_type: Option<Seq<char>>,
}

impl View for Reply {
    type V = ReplyView;

    open spec fn view(&self) -> ReplyView {
        ReplyView {
            status: self.status,
            body: self.body@,
            content_type: self.content_type.deep_view(),
        }
    }
}

/// Where a log line goes.
#[derive(Clone, Copy, Debug, PartialEq, Eq, Structural)]
pub enum Stream {
    /// Standard output, for requests that were served.
    Stdout,
    /// Standard error, for requests that failed.
    Stderr,
}

/// One line of the log.
#[derive(Clone, Debug, PartialEq, Eq)]
pub struct LogLine {
    pub stream: Stream,
    pub text: String,
}

/// A log line as plain values.
pub struct LogLineView {
    pub stream: Stream,
    pub text: Seq<char>,
}

impl View for LogLine {
    type V = LogLineView;

    open spec fn view(&self) -> LogLineView {
        LogLineView { stream: self.stream, text: self.text@ }
    }
}

/// How a request ended.
#[derive(Clone, Debug, PartialEq, Eq)]
pub struct Outcome {
    pub reply: Reply,
    pub log: LogLine,
    /// Why the request failed; `None` when the page was served.
    pub failure: Option<Failure>,
}

/// An outcome as plain values.
pub struct OutcomeView {
    pub reply: ReplyView,
    pub log: LogLineView,
    pub failure: Option<Failure>,
}

impl View for Outcome {
    type V = OutcomeView;

    open spec fn view(&self) -> OutcomeView {
        OutcomeView { reply: self.reply@, log: self.log@, failure: self.failure }
    }
}

/// The body of every reply but the successful one.
pub open spec fn error_body() -> Seq<char> {
    "Not found"@
}

/// The content type under which a page is served.
pub open spec fn page_content_type() -> Seq<char> {
    "text/html; charset=utf-8"@
}

/// The host whose name is left out of a logged `href`.
pub open spec fn content_host() -> Seq<char> {
    "https://gist.githubusercontent.com/"@
}

/// Host and file stem logged for a request whose host is not known.
pub open spec fn unknown() -> Seq<char> {
    "unknown"@
}

/// The reply to a failed request: the status, the fixed body, no content
/// type.
pub open spec fn error_reply(status: Status) -> ReplyView {
    ReplyView { status, body: error_body(), content_type: None }
}

/// The log line of a failed request.
pub open spec fn error_line(
    host: Seq<char>,
    file_name: Seq<char>,
    status: Status,
    msg: Seq<char>,
) -> Seq<char> {
    host + "/"@ + file_name + " ["@ + status_line(status.code()) + "]: "@ + msg
}

/// The reply that serves a page: status 200, the body as fetched, the page
/// content type.
pub open spec fn page_reply(body: Seq<char>) -> ReplyView {
    ReplyView { status: Status::Success, body, content_type: Some(page_content_type()) }
}

/// The log line of a served request. Of the `href`, what follows the last
/// occurrence of the content host is logged, all of it where that host does
/// not occur.
pub open spec fn served_line(host: Seq<char>, file_name: Seq<char>, href: Seq<char>) -> Seq<
    char,
> {
    "["@ + status_line(Status::Success.code()) + "] "@ + host + "/"@ + file_name
        + ": Served page from href: "@ + after_last(href, content_host())
}

/// How a request ends that failed with `failure` about `subject`.
pub open spec fn failed_spec(
    host: Seq<char>,
    file_name: Seq<char>,
    failure: Failure,
    subject: Seq<char>,
) -> OutcomeView {
    OutcomeView {
        reply: error_reply(failure.status()),
        log: LogLineView {
            stream: Stream::Stderr,
            text: error_line(host, file_name, failure.status(), failure.lead_spec() + subject),
        },
        failure: Some(failure),
    }
}

/// How a request ends whose page was fetched.
pub open spec fn served_spec(
    host: Seq<char>,
    file_name: Seq<char>,
    href: Seq<char>,
    body: Seq<char>,
) -> OutcomeView {
    OutcomeView {
        reply: page_reply(body),
        log: LogLineView { stream: Stream::Stdout, text: served_line(host, file_name, href) },
        failure: None,
    }
}

/// The reply to a failed request and its log line.
pub fn error(host: &str, file_name: &str, status: Status, msg: String) -> (out: (Reply, LogLine))
    ensures
        out.0@ == error_reply(status),
        out.1@ == (LogLineView {
            stream: Stream::Stderr,
            text: error_line(host@, file_name@, status, msg@),
        }),
{
    let mut text = String::from_str(host);
    text.append("/");
    text.append(file_name);
    text.append(" [");
    text.append(status_display(status.code()).as_str());
    text.append("]: ");
    text.append(msg.as_str());
    let reply = Reply { status, body: String::from_str("Not found"), content_type: None };
    (reply, LogLine { stream: Stream::Stderr, text })
}

/// How a request ends that failed with `failure` about `subject`: the key
/// for a failed resolution, the `href` for a failed fetch, nothing for a
/// malformed request.
pub fn failed(host: &str, file_name: &str, failure: Failure, subject: &str) -> (out: Outcome)
    ensures
        out@ == failed_spec(host@, file_name@, failure, subject@),
        out@.reply.status == failure.status(),
        out@.reply.body == error_body(),
        out@.reply.content_type is None,
{
    let (reply, log) = error(host, file_name, failure.status(), failure.message(subject));
    Outcome { reply, log, failure: Some(failure) }
}

/// How a request ends whose page was fetched from `href` with `body`.
pub fn served(host: &str, file_name: &str, href: &str, body: String) -> (out: Outcome)
    ensures
        out@ == served_spec(host@, file_name@, href@, body@),
        out@.reply.status == Status::Success,
        out@.reply.body == body@,
        out@.reply.content_type == Some(page_content_type()),
{
    let mut text = String::from_str("[");
    text.append(status_display(Status::Success.code()).as_str());
    text.append("] ");
    text.append(host);
    text.append("/");
    text.append(file_name);
    text.append(": Served page from href: ");
    let chars = chars_of(href);
    let pattern = chars_of("https://gist.githubusercontent.com/");
    let start = after_last_start(chars.as_slice(), pattern.as_slice());
    proof {
        assert(chars@.skip(start as int) =~= chars@.subrange(start as int, chars@.len() as int));
    }
    push_chars(&mut text, chars.as_slice(), start, chars.len());
    let reply = Reply {
        status: Status::Success,
        body,
        content_type: Some(String::from_str("text/html; charset=utf-8")),
    };
    Outcome { reply, log: LogLine { stream: Stream::Stdout, text }, failure: None }
}

} // verus!
