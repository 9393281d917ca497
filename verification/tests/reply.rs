use handles_web::reply::{error, failed, served, Failure, LogLine, Reply, Status, Stream};

#[test]
fn status_codes() {
    assert_eq!(Status::Success.code(), 200);
    assert_eq!(Status::BadRequest.code(), 400);
    assert_eq!(Status::NotFound.code(), 404);
    assert_eq!(Status::InternalServerError.code(), 500);
}

#[test]
fn failures_map_to_their_statuses() {
    assert_eq!(Failure::MissingHost.status(), Status::BadRequest);
    assert_eq!(Failure::InvalidHost.status(), Status::BadRequest);
    assert_eq!(Failure::LookupFailed.status(), Status::NotFound);
    assert_eq!(Failure::RecordUnparsable.status(), Status::NotFound);
    assert_eq!(Failure::ValueMissing.status(), Status::NotFound);
    assert_eq!(Failure::HrefMissing.status(), Status::NotFound);
    assert_eq!(Failure::FetchFailed.status(), Status::InternalServerError);
    assert_eq!(Failure::PageUnreadable.status(), Status::InternalServerError);
}

#[test]
fn failure_messages() {
    assert_eq!(Failure::MissingHost.message(""), "Missing Host header");
    assert_eq!(Failure::InvalidHost.message(""), "Invalid Host header");
    assert_eq!(Failure::LookupFailed.message("k"), "Failed to fetch record for rkey: k");
    assert_eq!(Failure::RecordUnparsable.message("k"), "Failed to parse JSON for rkey: k");
    assert_eq!(Failure::ValueMissing.message("k"), "No href found for rkey: k");
    assert_eq!(Failure::HrefMissing.message("k"), "No href found for rkey: k");
    assert_eq!(Failure::FetchFailed.message("h"), "Failed to fetch page from href: h");
    assert_eq!(Failure::PageUnreadable.message("h"), "Failed to read page text from href: h");
}

#[test]
fn error_reply_has_the_fixed_body_and_no_content_type() {
    let (reply, _) = error("h", "f", Status::NotFound, "m".to_string());
    assert_eq!(
        reply,
        Reply { status: Status::NotFound, body: "Not found".to_string(), content_type: None }
    );
}

#[test]
fn error_line_for_each_status() {
    let (_, log) = error("example.com", "post", Status::BadRequest, "why".to_string());
    assert_eq!(
        log,
        LogLine {
            stream: Stream::Stderr,
            text: "example.com/post [400 Bad Request]: why".to_string()
        }
    );
    let (_, log) = error("example.com", "post", Status::NotFound, "why".to_string());
    assert_eq!(log.text, "example.com/post [404 Not Found]: why");
    let (_, log) = error("example.com", "post", Status::InternalServerError, "why".to_string());
    assert_eq!(log.text, "example.com/post [500 Internal Server Error]: why");
    let (_, log) = error("example.com", "post", Status::Success, "why".to_string());
    assert_eq!(log.text, "example.com/post [200 OK]: why");
}

#[test]
fn failed_outcome_carries_reply_line_and_cause() {
    let out = failed("example.com", "post", Failure::LookupFailed, "com.example.post");
    assert_eq!(out.reply.status, Status::NotFound);
    assert_eq!(out.reply.body, "Not found");
    assert_eq!(out.reply.content_type, None);
    assert_eq!(out.log.stream, Stream::Stderr);
    assert_eq!(
        out.log.text,
        "example.com/post [404 Not Found]: Failed to fetch record for rkey: com.example.post"
    );
    assert_eq!(out.failure, Some(Failure::LookupFailed));
}

#[test]
fn served_outcome_passes_the_body_through() {
    let out = served("example.com", "post", "https://x/y", "<p>é</p>\n".to_string());
    assert_eq!(
        out.reply,
        Reply {
            status: Status::Success,
            body: "<p>é</p>\n".to_string(),
            content_type: Some("text/html; charset=utf-8".to_string()),
        }
    );
    assert_eq!(out.failure, None);
    assert_eq!(out.log.stream, Stream::Stdout);
}

#[test]
fn served_line_leaves_out_the_content_host() {
    let out = served(
        "blog.example.com",
        "post",
        "https://gist.githubusercontent.com/u/id/raw/page.html",
        String::new(),
    );
    assert_eq!(
        out.log.text,
        "[200 OK] blog.example.com/post: Served page from href: u/id/raw/page.html"
    );
}

#[test]
fn served_line_keeps_an_href_from_elsewhere() {
    let out = served("example.com", "index", "https://x/y", String::new());
    assert_eq!(out.log.text, "[200 OK] example.com/index: Served page from href: https://x/y");
}

#[test]
fn served_line_cuts_after_the_last_occurrence() {
    let out = served(
        "h",
        "f",
        "https://proxy/?u=https://gist.githubusercontent.com/a/https://gist.githubusercontent.com/b",
        String::new(),
    );
    assert_eq!(out.log.text, "[200 OK] h/f: Served page from href: b");
}

#[test]
fn served_line_of_the_bare_content_host_ends_empty() {
    let out = served("h", "f", "https://gist.githubusercontent.com/", String::new());
    assert_eq!(out.log.text, "[200 OK] h/f: Served page from href: ");
}
