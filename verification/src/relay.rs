//! The relay's decisions, one step at a time. A request is taken through
//! `begin`, `after_lookup` and `after_fetch`; between the steps the caller
//! performs the lookup and the fetch and hands back what came of them.
//! Nothing is kept from one request to the next.

use crate::atproto::{AtProtoResponse, AtProtoResponseView, Resolution, ResolutionView};
use crate::config::{Config, ConfigView};
use crate::key::{file_stem, file_stem_spec, key_for, lookup_key_spec};
use crate::query::{lookup_url, lookup_url_spec};
use crate::reply::{
    error_body, error_reply, failed, failed_spec, page_content_type, page_reply, served,
    served_spec, unknown, Failure, Outcome, OutcomeView, ReplyView, Status, Stream,
};
use crate::trusted::{header_is_text, header_text, header_text_spec};
use vstd::prelude::*;

verus! {

/// A request whose record is being looked up.
#[derive(Clone, Debug, PartialEq, Eq)]
pub struct PendingLookup {
    pub host: String,
    pub file_name: String,
    /// The key of the record.
    pub key: String,
    /// The URL to get the record from.
    pub url: String,
}

/// A request whose page is being fetched.
#[derive(Clone, Debug, PartialEq, Eq)]
pub struct PendingFetch {
    pub host: String,
    pub file_name: String,
    /// The URL to get the page from, as the record gave it.
    pub href: String,
}

/// Where a request stands after `begin`.
#[derive(Clone, Debug, PartialEq, Eq)]
pub enum Started {
    /// The request was turned down.
    Done(Outcome),
    /// The record is to be looked up.
    Lookup(PendingLookup),
}

/// Where a request stands after `after_lookup`.
#[derive(Clone, Debug, PartialEq, Eq)]
pub enum Resolved {
    /// The request failed.
    Done(Outcome),
    /// The page is to be fetched.
    Fetch(PendingFetch),
}

/// What came of the lookup call.
#[derive(Clone, Debug, PartialEq, Eq)]
pub enum LookupOutcome {
    /// The call did not come back.
    Failed,
    /// The answer is not a record.
    Unparsable,
    /// The record.
    Record(AtProtoResponse),
}

/// What came of the fetch call.
#[derive(Clone, Debug, PartialEq, Eq)]
pub enum FetchOutcome {
    /// The call did not come back.
    Failed,
    /// The body could not be read as text.
    Unreadable,
    /// The page.
    Page(String),
}

/// A pending lookup as plain values.
pub struct PendingLookupView {
    pub host: Seq<char>,
    pub file_name: Seq<char>,
    pub key: Seq<char>,
    pub url: Seq<char>,
}

/// A pending fetch as plain values.
pub struct PendingFetchView {
    pub host: Seq<char>,
    pub file_name: Seq<char>,
    pub href: Seq<char>,
}

/// Where a request stands after the first step, as plain values.
pub enum StartedView {
    Done(OutcomeView),
    Lookup(PendingLookupView),
}

/// Where a request stands after the second step, as plain values.
pub enum ResolvedView {
    Done(OutcomeView),
    Fetch(PendingFetchView),
}

/// What came of the lookup call, as plain values.
pub enum LookupOutcomeView {
    Failed,
    Unparsable,
    Record(AtProtoResponseView),
}

/// What came of the fetch call, as plain values.
pub enum FetchOutcomeView {
    Failed,
    Unreadable,
    Page(Seq<char>),
}

impl View for PendingLookup {
    type V = PendingLookupView;

    open spec fn view(&self) -> PendingLookupView {
        PendingLookupView {
            host: self.host@,
            file_name: self.file_name@,
            key: self.key@,
            url: self.url@,
        }
    }
}

impl View for PendingFetch {
    type V = PendingFetchView;

    open spec fn view(&self) -> PendingFetchView {
        PendingFetchView { host: self.host@, file_name: self.file_name@, href: self.href@ }
    }
}

impl View for Started {
    type V = StartedView;

    open spec fn view(&self) -> StartedView {
        match self {
            Started::Done(out) => StartedView::Done(out@),
            Started::Lookup(pending) => StartedView::Lookup(pending@),
        }
    }
}

impl View for Resolved {
    type V = ResolvedView;

    open spec fn view(&self) -> ResolvedView {
        match self {
            Resolved::Done(out) => ResolvedView::Done(out@),
            Resolved::Fetch(pending) => ResolvedView::Fetch(pending@),
        }
    }
}

impl View for LookupOutcome {
    type V = LookupOutcomeView;

    open spec fn view(&self) -> LookupOutcomeView {
        match self {
            LookupOutcome::Failed => LookupOutcomeView::Failed,
            LookupOutcome::Unparsable => LookupOutcomeView::Unparsable,
            LookupOutcome::Record(record) => LookupOutcomeView::Record(record@),
        }
    }
}

impl View for FetchOutcome {
    type V = FetchOutcomeView;

    open spec fn view(&self) -> FetchOutcomeView {
        match self {
            FetchOutcome::Failed => FetchOutcomeView::Failed,
            FetchOutcome::Unreadable => FetchOutcomeView::Unreadable,
            FetchOutcome::Page(body) => FetchOutcomeView::Page(body@),
        }
    }
}

/// The bytes of a header value that may be missing.
pub open spec fn header_bytes(value: Option<&[u8]>) -> Option<Seq<u8>> {
    match value {
        Some(bytes) => Some(bytes@),
        None => None,
    }
}

/// The first step. `host` is the value of the `Host` header, if the request
/// has one. Without it, or where it does not read as text, the request is
/// turned down; else the key is derived from host and path, and the record
/// is to be looked up.
pub open spec fn begin_spec(
    config: ConfigView,
    host: Option<Seq<u8>>,
    path: Seq<char>,
) -> StartedView {
    match host {
        None => StartedView::Done(
            failed_spec(unknown(), unknown(), Failure::MissingHost, Seq::empty()),
        ),
        Some(bytes) => if header_is_text(bytes) {
            let host = header_text_spec(bytes);
            let key = lookup_key_spec(host, path);
            StartedView::Lookup(
                PendingLookupView {
                    host,
                    file_name: file_stem_spec(path),
                    key,
                    url: lookup_url_spec(config, key),
                },
            )
        } else {
            StartedView::Done(
                failed_spec(unknown(), unknown(), Failure::InvalidHost, Seq::empty()),
            )
        },
    }
}

/// The second step. A lookup that failed, an answer that is no record, a
/// record without a value and a value without an `href` all end the
/// request; an `href` is to be fetched, whatever it holds.
pub open spec fn after_lookup_spec(
    pending: PendingLookupView,
    outcome: LookupOutcomeView,
) -> ResolvedView {
    match outcome {
        LookupOutcomeView::Failed => ResolvedView::Done(
            failed_spec(pending.host, pending.file_name, Failure::LookupFailed, pending.key),
        ),
        LookupOutcomeView::Unparsable => ResolvedView::Done(
            failed_spec(pending.host, pending.file_name, Failure::RecordUnparsable, pending.key),
        ),
        LookupOutcomeView::Record(record) => match record.resolution() {
            ResolutionView::NoValue => ResolvedView::Done(
                failed_spec(pending.host, pending.file_name, Failure::ValueMissing, pending.key),
            ),
            ResolutionView::NoHref => ResolvedView::Done(
                failed_spec(pending.host, pending.file_name, Failure::HrefMissing, pending.key),
            ),
            ResolutionView::Href(href) => ResolvedView::Fetch(
                PendingFetchView { host: pending.host, file_name: pending.file_name, href },
            ),
        },
    }
}

/// The last step. A fetch that failed and a body that cannot be read end
/// the request with a failure; a page is served as it was fetched.
pub open spec fn after_fetch_spec(
    pending: PendingFetchView,
    outcome: FetchOutcomeView,
) -> OutcomeView {
    match outcome {
        FetchOutcomeView::Failed => failed_spec(
            pending.host,
            pending.file_name,
            Failure::FetchFailed,
            pending.href,
        ),
        FetchOutcomeView::Unreadable => failed_spec(
            pending.host,
            pending.file_name,
            Failure::PageUnreadable,
            pending.href,
        ),
        FetchOutcomeView::Page(body) => served_spec(
            pending.host,
            pending.file_name,
            pending.href,
            body,
        ),
    }
}

/// How a request ends, given what the lookup and the fetch would come to.
/// An outcome is only looked at where the request gets that far.
pub open spec fn handle_spec(
    config: ConfigView,
    host: Option<Seq<u8>>,
    path: Seq<char>,
    lookup: LookupOutcomeView,
    fetch: FetchOutcomeView,
) -> OutcomeView {
    match begin_spec(config, host, path) {
        StartedView::Done(out) => out,
        StartedView::Lookup(pending) => match after_lookup_spec(pending, lookup) {
            ResolvedView::Done(out) => out,
            ResolvedView::Fetch(pending) => after_fetch_spec(pending, fetch),
        },
    }
}

/// Takes a request in: `host` is the value of its `Host` header, `path` the
/// path of its URL. The record is looked up exactly when the header is there
/// and reads as text; any other request is answered with status 400.
pub fn begin(config: &Config, host: Option<&[u8]>, path: &str) -> (next: Started)
    ensures
        next@ == begin_spec(config@, header_bytes(host), path@),
        next is Lookup <==> (host matches Some(bytes) && header_is_text(bytes@)),
        next@ matches StartedView::Done(out) ==> out.reply == error_reply(Status::BadRequest),
{
    proof {
        reveal_strlit("");
        assert(""@ =~= Seq::<char>::empty());
    }
    let bytes = match host {
        Some(bytes) => bytes,
        None => {
            return Started::Done(failed("unknown", "unknown", Failure::MissingHost, ""));
        },
    };
    let host = match header_text(bytes) {
        Some(host) => host,
        None => {
            return Started::Done(failed("unknown", "unknown", Failure::InvalidHost, ""));
        },
    };
    let file_name = file_stem(path);
    let key = key_for(host.as_str(), file_name.as_str());
    let url = lookup_url(config, key.as_str());
    Started::Lookup(PendingLookup { host, file_name, key, url })
}

/// Takes in what came of the lookup. The page is fetched exactly when a
/// record came that names a place, and from that place; any other outcome is
/// answered with status 404.
pub fn after_lookup(pending: PendingLookup, outcome: LookupOutcome) -> (next: Resolved)
    ensures
        next@ == after_lookup_spec(pending@, outcome@),
        next is Fetch <==> (outcome@ matches LookupOutcomeView::Record(record)
            && record.href() is Some),
        next@ matches ResolvedView::Fetch(fetch) ==> outcome@ matches LookupOutcomeView::Record(
            record,
        ) && record.href() == Some(fetch.href),
        next@ matches ResolvedView::Done(out) ==> out.reply == error_reply(Status::NotFound),
{
    let failure = match outcome {
        LookupOutcome::Failed => Failure::LookupFailed,
        LookupOutcome::Unparsable => Failure::RecordUnparsable,
        LookupOutcome::Record(record) => match record.resolve() {
            Resolution::NoValue => Failure::ValueMissing,
            Resolution::NoHref => Failure::HrefMissing,
            Resolution::Href(href) => {
                return Resolved::Fetch(
                    PendingFetch { host: pending.host, file_name: pending.file_name, href },
                );
            },
        },
    };
    Resolved::Done(
        failed(pending.host.as_str(), pending.file_name.as_str(), failure, pending.key.as_str()),
    )
}

/// Takes in what came of the fetch. A page is served with status 200, the
/// body as it was fetched and the page content type; any other outcome is
/// answered with status 500.
pub fn after_fetch(pending: PendingFetch, outcome: FetchOutcome) -> (out: Outcome)
    ensures
        out@ == after_fetch_spec(pending@, outcome@),
        out@.failure is None <==> outcome is Page,
        outcome@ matches FetchOutcomeView::Page(body) ==> out@.reply == page_reply(body),
        !(outcome is Page) ==> out@.reply == error_reply(Status::InternalServerError),
{
    let failure = match outcome {
        FetchOutcome::Failed => Failure::FetchFailed,
        FetchOutcome::Unreadable => Failure::PageUnreadable,
        FetchOutcome::Page(body) => {
            return served(
                pending.host.as_str(),
                pending.file_name.as_str(),
                pending.href.as_str(),
                body,
            );
        },
    };
    failed(pending.host.as_str(), pending.file_name.as_str(), failure, pending.href.as_str())
}

/// The key that is looked up for a request is the lookup key of its hostname
/// and path: neither the configuration nor anything else has a part in it.
pub proof fn lemma_key_depends_on_host_and_path_alone(
    config: ConfigView,
    other_config: ConfigView,
    host: Seq<u8>,
    path: Seq<char>,
)
    requires
        header_is_text(host),
    ensures
        begin_spec(config, Some(host), path) matches StartedView::Lookup(pending)
            && pending.key == lookup_key_spec(header_text_spec(host), path),
        begin_spec(other_config, Some(host), path) matches StartedView::Lookup(pending)
            && pending.key == lookup_key_spec(header_text_spec(host), path),
{
}

/// A request without a `Host` header is answered with status 400 and the
/// fixed body, whatever its path.
pub proof fn lemma_missing_host_is_bad_request(
    config: ConfigView,
    path: Seq<char>,
    lookup: LookupOutcomeView,
    fetch: FetchOutcomeView,
)
    ensures
        handle_spec(config, None, path, lookup, fetch).reply == error_reply(Status::BadRequest),
        handle_spec(config, None, path, lookup, fetch).reply.status.code() == 400,
        handle_spec(config, None, path, lookup, fetch).reply.body == error_body(),
{
}

/// A request whose `Host` header does not read as text is answered with
/// status 400 and the fixed body.
pub proof fn lemma_invalid_host_is_bad_request(
    config: ConfigView,
    host: Seq<u8>,
    path: Seq<char>,
    lookup: LookupOutcomeView,
    fetch: FetchOutcomeView,
)
    requires
        !header_is_text(host),
    ensures
        handle_spec(config, Some(host), path, lookup, fetch).reply == error_reply(
            Status::BadRequest,
        ),
{
}

/// A lookup that fails, or whose answer is no record, is answered with status
/// 404 and the fixed body.
pub proof fn lemma_failed_lookup_is_not_found(
    config: ConfigView,
    host: Seq<u8>,
    path: Seq<char>,
    lookup: LookupOutcomeView,
    fetch: FetchOutcomeView,
)
    requires
        header_is_text(host),
        !(lookup is Record),
    ensures
        handle_spec(config, Some(host), path, lookup, fetch).reply == error_reply(
            Status::NotFound,
        ),
{
}

/// A record that names no place, for want of a value or of an `href` in the
/// value, is answered with status 404 and the fixed body.
pub proof fn lemma_no_href_is_not_found(
    config: ConfigView,
    host: Seq<u8>,
    path: Seq<char>,
    record: AtProtoResponseView,
    fetch: FetchOutcomeView,
)
    requires
        header_is_text(host),
        record.href() is None,
    ensures
        handle_spec(config, Some(host), path, LookupOutcomeView::Record(record), fetch).reply
            == error_reply(Status::NotFound),
        handle_spec(
            config,
            Some(host),
            path,
            LookupOutcomeView::Record(record),
            fetch,
        ).reply.status.code() == 404,
{
}

/// A page that was fetched from the place that the record names is served
/// with status 200, the body exactly as fetched, and the page content type.
pub proof fn lemma_page_is_served_as_fetched(
    config: ConfigView,
    host: Seq<u8>,
    path: Seq<char>,
    record: AtProtoResponseView,
    body: Seq<char>,
)
    requires
        header_is_text(host),
        record.href() is Some,
    ensures
        handle_spec(
            config,
            Some(host),
            path,
            LookupOutcomeView::Record(record),
            FetchOutcomeView::Page(body),
        ).reply == (ReplyView {
            status: Status::Success,
            body,
            content_type: Some(page_content_type()),
        }),
        Status::Success.code() == 200,
{
}

/// A fetch that fails, or whose body cannot be read, is answered with status
/// 500 and the fixed body.
pub proof fn lemma_failed_fetch_is_server_error(
    config: ConfigView,
    host: Seq<u8>,
    path: Seq<char>,
    record: AtProtoResponseView,
    fetch: FetchOutcomeView,
)
    requires
        header_is_text(host),
        record.href() is Some,
        !(fetch is Page),
    ensures
        handle_spec(config, Some(host), path, LookupOutcomeView::Record(record), fetch).reply
            == error_reply(Status::InternalServerError),
        handle_spec(
            config,
            Some(host),
            path,
            LookupOutcomeView::Record(record),
            fetch,
        ).reply.status.code() == 500,
{
}

/// Every request is answered and logged once: with the page and a line on
/// standard output where there is no failure, else with the status of the
/// failure, the fixed body, no content type and a line on standard error.
pub proof fn lemma_every_request_is_answered(
    config: ConfigView,
    host: Option<Seq<u8>>,
    path: Seq<char>,
    lookup: LookupOutcomeView,
    fetch: FetchOutcomeView,
)
    ensures
        match handle_spec(config, host, path, lookup, fetch).failure {
            Some(failure) => {
                &&& handle_spec(config, host, path, lookup, fetch).reply == error_reply(
                    failure.status(),
                )
                &&& handle_spec(config, host, path, lookup, fetch).log.stream == Stream::Stderr
            },
            None => {
                &&& fetch matches FetchOutcomeView::Page(body)
                &&& handle_spec(config, host, path, lookup, fetch).reply == page_reply(body)
                &&& handle_spec(config, host, path, lookup, fetch).log.stream == Stream::Stdout
            },
        },
{
}

} // verus!
