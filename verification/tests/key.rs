use handles_web::key::{file_stem, key_for, lookup_key, reversed_host};

#[test]
fn three_labels_are_reversed() {
    assert_eq!(reversed_host("a.b.c"), "c.b.a");
    assert_eq!(reversed_host("blog.example.com"), "com.example.blog");
}

#[test]
fn two_labels_are_swapped() {
    assert_eq!(reversed_host("example.com"), "com.example");
}

#[test]
fn single_label_is_unchanged() {
    assert_eq!(reversed_host("localhost"), "localhost");
}

#[test]
fn empty_host_stays_empty() {
    assert_eq!(reversed_host(""), "");
}

#[test]
fn empty_labels_are_kept() {
    assert_eq!(reversed_host("a..b"), "b..a");
    assert_eq!(reversed_host("a."), ".a");
    assert_eq!(reversed_host(".a"), "a.");
    assert_eq!(reversed_host("."), ".");
}

#[test]
fn host_with_port_is_split_on_dots_only() {
    assert_eq!(reversed_host("blog.example.com:9090"), "com:9090.example.blog");
}

#[test]
fn labels_may_hold_any_character() {
    assert_eq!(reversed_host("bücher.example"), "example.bücher");
}

#[test]
fn reversing_twice_gives_the_host_back() {
    let once = reversed_host("one.two.three.four");
    assert_eq!(once, "four.three.two.one");
    assert_eq!(reversed_host(&once), "one.two.three.four");
}

#[test]
fn empty_path_gives_index() {
    assert_eq!(file_stem(""), "index");
}

#[test]
fn root_path_gives_index() {
    assert_eq!(file_stem("/"), "index");
    assert_eq!(file_stem("///"), "index");
}

#[test]
fn extension_is_stripped() {
    assert_eq!(file_stem("foo/bar.html"), "bar");
    assert_eq!(file_stem("/post.html"), "post");
}

#[test]
fn segment_without_dot_is_kept_whole() {
    assert_eq!(file_stem("foo/bar"), "bar");
    assert_eq!(file_stem("/about"), "about");
}

#[test]
fn stem_ends_at_the_first_dot() {
    assert_eq!(file_stem("/archive.tar.gz"), "archive");
}

#[test]
fn trailing_slash_gives_index() {
    assert_eq!(file_stem("foo/"), "index");
    assert_eq!(file_stem("/foo/bar/"), "index");
}

#[test]
fn only_the_last_segment_counts() {
    assert_eq!(file_stem("/v1.2/notes"), "notes");
    assert_eq!(file_stem("/a/b/c/d.txt"), "d");
}

#[test]
fn segment_that_starts_with_a_dot_has_an_empty_stem() {
    assert_eq!(file_stem("/.html"), "");
    assert_eq!(file_stem("/dir/.hidden"), "");
}

#[test]
fn leading_slashes_do_not_matter() {
    assert_eq!(file_stem("page.html"), "page");
    assert_eq!(file_stem("//page.html"), "page");
}

#[test]
fn key_joins_reversed_host_and_stem() {
    assert_eq!(lookup_key("blog.example.com", "/post.html"), "com.example.blog.post");
    assert_eq!(lookup_key("example.com", ""), "com.example.index");
    assert_eq!(lookup_key("example.com", "/docs/"), "com.example.index");
    assert_eq!(lookup_key("localhost", "/a/b"), "localhost.b");
}

#[test]
fn key_for_takes_the_stem_as_given() {
    assert_eq!(key_for("a.b", "stem"), "b.a.stem");
    assert_eq!(key_for("a.b", ""), "b.a.");
}

#[test]
fn key_depends_on_host_and_path_alone() {
    let first = lookup_key("blog.example.com", "/post.html");
    let other = lookup_key("shop.example.org", "/cart");
    let again = lookup_key("blog.example.com", "/post.html");
    assert_eq!(first, again);
    assert_eq!(other, "org.example.shop.cart");
    assert_eq!(lookup_key("shop.example.org", "/cart"), other);
}

#[test]
fn different_hosts_have_different_keys() {
    let hosts = ["a.b", "b.a", "a", "b", "a.b.c", "c.b.a", "ab", "a.", ".a", ""];
    for (i, first) in hosts.iter().enumerate() {
        for (j, second) in hosts.iter().enumerate() {
            let same = lookup_key(first, "/x.html") == lookup_key(second, "/x.txt");
            assert_eq!(same, i == j);
        }
    }
}

#[test]
fn stem_holds_neither_dot_nor_slash() {
    for path in ["", "/", "/a.b/c.d.e", "x/.y", "/a/b/", "..", "./", "/.", "a//b..c"] {
        let stem = file_stem(path);
        assert!(!stem.contains('.'));
        assert!(!stem.contains('/'));
    }
}
