use handles_web::config::Config;
use handles_web::atproto::{AtProtoResponse, AtProtoValue};
use handles_web::relay::{
    after_fetch, after_lookup, begin, FetchOutcome, LookupOutcome, PendingFetch, PendingLookup,
    Resolved, Started,
};
use handles_web::reply::{Failure, Outcome, Reply, Status, Stream};

const LOOKUP: &str = "https://at.queerlil.tools/xrpc/com.atproto.repo.getRecord?repo=did%3Aplc%3A4vrriezpgc4t6y5sf7lcilhv&collection=tools.queerlil.handles.page&rkey=";

fn record(href: Option<&str>) -> AtProtoResponse {
    AtProtoResponse { value: Some(AtProtoValue { href: href.map(|h| h.to_string()) }) }
}

fn pending_lookup() -> PendingLookup {
    PendingLookup {
        host: "blog.example.com".to_string(),
        file_name: "post".to_string(),
        key: "com.example.blog.post".to_string(),
        url: format!("{}com.example.blog.post", LOOKUP),
    }
}

fn pending_fetch(href: &str) -> PendingFetch {
    PendingFetch {
        host: "blog.example.com".to_string(),
        file_name: "post".to_string(),
        href: href.to_string(),
    }
}

fn done(next: Resolved) -> Outcome {
    match next {
        Resolved::Done(out) => out,
        Resolved::Fetch(pending) => panic!("a fetch is pending: {:?}", pending),
    }
}

fn not_found() -> Reply {
    Reply { status: Status::NotFound, body: "Not found".to_string(), content_type: None }
}

#[test]
fn missing_host_is_a_bad_request() {
    let out = match begin(&Config::default(), None, "/post.html") {
        Started::Done(out) => out,
        Started::Lookup(pending) => panic!("a lookup is pending: {:?}", pending),
    };
    assert_eq!(out.reply.status.code(), 400);
    assert_eq!(out.reply.body, "Not found");
    assert_eq!(out.reply.content_type, None);
    assert_eq!(out.failure, Some(Failure::MissingHost));
    assert_eq!(out.log.stream, Stream::Stderr);
    assert_eq!(out.log.text, "unknown/unknown [400 Bad Request]: Missing Host header");
}

#[test]
fn host_that_is_not_text_is_a_bad_request() {
    for host in [&b"caf\xc3\xa9.example"[..], &b"\xff"[..], &b"a\nb"[..], &b"a\x7fb"[..]] {
        let out = match begin(&Config::default(), Some(host), "/") {
            Started::Done(out) => out,
            Started::Lookup(pending) => panic!("a lookup is pending: {:?}", pending),
        };
        assert_eq!(out.reply.status.code(), 400);
        assert_eq!(out.reply.body, "Not found");
        assert_eq!(out.reply.content_type, None);
        assert_eq!(out.failure, Some(Failure::InvalidHost));
        assert_eq!(out.log.text, "unknown/unknown [400 Bad Request]: Invalid Host header");
    }
}

#[test]
fn host_and_path_give_the_lookup() {
    let next = begin(&Config::default(), Some(b"blog.example.com"), "/post.html");
    assert_eq!(next, Started::Lookup(pending_lookup()));
}

#[test]
fn host_may_hold_spaces_and_tabs() {
    let next = begin(&Config::default(), Some(b"a b.c\td"), "");
    assert_eq!(
        next,
        Started::Lookup(PendingLookup {
            host: "a b.c\td".to_string(),
            file_name: "index".to_string(),
            key: "c\td.a b.index".to_string(),
            url: format!("{}c%09d.a%20b.index", LOOKUP),
        })
    );
}

#[test]
fn empty_host_is_looked_up_too() {
    let next = begin(&Config::default(), Some(b""), "/x.y");
    assert_eq!(
        next,
        Started::Lookup(PendingLookup {
            host: String::new(),
            file_name: "x".to_string(),
            key: ".x".to_string(),
            url: format!("{}.x", LOOKUP),
        })
    );
}

#[test]
fn failed_lookup_is_not_found() {
    let out = done(after_lookup(pending_lookup(), LookupOutcome::Failed));
    assert_eq!(out.reply, not_found());
    assert_eq!(out.failure, Some(Failure::LookupFailed));
    assert_eq!(
        out.log.text,
        "blog.example.com/post [404 Not Found]: Failed to fetch record for rkey: com.example.blog.post"
    );
}

#[test]
fn unparsable_record_is_not_found() {
    let out = done(after_lookup(pending_lookup(), LookupOutcome::Unparsable));
    assert_eq!(out.reply, not_found());
    assert_eq!(out.failure, Some(Failure::RecordUnparsable));
    assert_eq!(
        out.log.text,
        "blog.example.com/post [404 Not Found]: Failed to parse JSON for rkey: com.example.blog.post"
    );
}

#[test]
fn record_without_value_is_not_found() {
    let outcome = LookupOutcome::Record(AtProtoResponse { value: None });
    let out = done(after_lookup(pending_lookup(), outcome));
    assert_eq!(out.reply.status.code(), 404);
    assert_eq!(out.reply, not_found());
    assert_eq!(out.failure, Some(Failure::ValueMissing));
    assert_eq!(
        out.log.text,
        "blog.example.com/post [404 Not Found]: No href found for rkey: com.example.blog.post"
    );
}

#[test]
fn value_without_href_is_not_found() {
    let out = done(after_lookup(pending_lookup(), LookupOutcome::Record(record(None))));
    assert_eq!(out.reply.status.code(), 404);
    assert_eq!(out.reply, not_found());
    assert_eq!(out.failure, Some(Failure::HrefMissing));
    assert_eq!(
        out.log.text,
        "blog.example.com/post [404 Not Found]: No href found for rkey: com.example.blog.post"
    );
}

#[test]
fn href_is_fetched_next() {
    let next = after_lookup(pending_lookup(), LookupOutcome::Record(record(Some("https://x/y"))));
    assert_eq!(next, Resolved::Fetch(pending_fetch("https://x/y")));
}

#[test]
fn fetched_page_is_served_as_it_is() {
    let page = "<html>\u{0}\r\n  caf\u{e9} \u{1f47e}</html>";
    let out = after_fetch(pending_fetch("https://x/y"), FetchOutcome::Page(page.to_string()));
    assert_eq!(out.reply.status.code(), 200);
    assert_eq!(out.reply.body.as_bytes(), page.as_bytes());
    assert_eq!(out.reply.content_type.as_deref(), Some("text/html; charset=utf-8"));
    assert_eq!(out.failure, None);
    assert_eq!(out.log.stream, Stream::Stdout);
    assert_eq!(out.log.text, "[200 OK] blog.example.com/post: Served page from href: https://x/y");
}

#[test]
fn failed_fetch_is_a_server_error() {
    let out = after_fetch(pending_fetch("https://unreachable.invalid/"), FetchOutcome::Failed);
    assert_eq!(out.reply.status.code(), 500);
    assert_eq!(out.reply.body, "Not found");
    assert_eq!(out.reply.content_type, None);
    assert_eq!(out.failure, Some(Failure::FetchFailed));
    assert_eq!(out.log.stream, Stream::Stderr);
    assert_eq!(
        out.log.text,
        "blog.example.com/post [500 Internal Server Error]: Failed to fetch page from href: https://unreachable.invalid/"
    );
}

#[test]
fn unreadable_page_is_a_server_error() {
    let out = after_fetch(pending_fetch("https://x/y"), FetchOutcome::Unreadable);
    assert_eq!(out.reply.status.code(), 500);
    assert_eq!(out.reply.body, "Not found");
    assert_eq!(out.reply.content_type, None);
    assert_eq!(out.failure, Some(Failure::PageUnreadable));
    assert_eq!(
        out.log.text,
        "blog.example.com/post [500 Internal Server Error]: Failed to read page text from href: https://x/y"
    );
}

#[test]
fn blog_post_end_to_end() {
    let pending = match begin(&Config::default(), Some(b"blog.example.com"), "/post.html") {
        Started::Lookup(pending) => pending,
        Started::Done(out) => panic!("turned down: {:?}", out),
    };
    assert_eq!(pending.key, "com.example.blog.post");
    assert_eq!(pending.url, format!("{}com.example.blog.post", LOOKUP));
    let found = record(Some("https://gist.githubusercontent.com/u/id/raw/page.html"));
    let pending = match after_lookup(pending, LookupOutcome::Record(found)) {
        Resolved::Fetch(pending) => pending,
        Resolved::Done(out) => panic!("failed: {:?}", out),
    };
    assert_eq!(pending.href, "https://gist.githubusercontent.com/u/id/raw/page.html");
    let out = after_fetch(pending, FetchOutcome::Page("<html>hi</html>".to_string()));
    assert_eq!(
        out.reply,
        Reply {
            status: Status::Success,
            body: "<html>hi</html>".to_string(),
            content_type: Some("text/html; charset=utf-8".to_string()),
        }
    );
    assert_eq!(
        out.log.text,
        "[200 OK] blog.example.com/post: Served page from href: u/id/raw/page.html"
    );
}

#[test]
fn requests_in_flight_do_not_mix() {
    let config = Config::default();
    let first = begin(&config, Some(b"one.example.com"), "/a.html");
    let second = begin(&config, Some(b"two.example.org"), "/b/");
    let (first, second) = match (first, second) {
        (Started::Lookup(first), Started::Lookup(second)) => (first, second),
        other => panic!("turned down: {:?}", other),
    };
    assert_eq!(first.key, "com.example.one.a");
    assert_eq!(second.key, "org.example.two.index");
    let second = after_lookup(second, LookupOutcome::Record(record(Some("https://two/page"))));
    let first = after_lookup(first, LookupOutcome::Record(record(Some("https://one/page"))));
    let (first, second) = match (first, second) {
        (Resolved::Fetch(first), Resolved::Fetch(second)) => (first, second),
        other => panic!("failed: {:?}", other),
    };
    let first = after_fetch(first, FetchOutcome::Page("one".to_string()));
    let second = after_fetch(second, FetchOutcome::Failed);
    assert_eq!(first.reply.status, Status::Success);
    assert_eq!(first.reply.body, "one");
    assert_eq!(first.log.text, "[200 OK] one.example.com/a: Served page from href: https://one/page");
    assert_eq!(second.reply.status, Status::InternalServerError);
    assert_eq!(
        second.log.text,
        "two.example.org/index [500 Internal Server Error]: Failed to fetch page from href: https://two/page"
    );
}
