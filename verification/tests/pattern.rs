use theater::framework::pattern::matches_path;
use theater::framework::pattern::segment_accepts;
use theater::framework::pattern::segments_accept;
use theater::framework::pattern::split_segments;

fn chars(s: &str) -> Vec<char> {
    s.chars().collect()
}

fn segments(parts: &[&str]) -> Vec<Vec<char>> {
    parts.iter().map(|p| chars(p)).collect()
}

#[test]
fn split_keeps_every_segment() {
    assert_eq!(split_segments(""), segments(&[""]));
    assert_eq!(split_segments("/"), segments(&["", ""]));
    assert_eq!(split_segments("ping"), segments(&["ping"]));
    assert_eq!(split_segments("/ping"), segments(&["", "ping"]));
    assert_eq!(split_segments("/ping/"), segments(&["", "ping", ""]));
    assert_eq!(split_segments("/a//b"), segments(&["", "a", "", "b"]));
    assert_eq!(split_segments("/users/{id}/posts"), segments(&["", "users", "{id}", "posts"]));
}

#[test]
fn split_counts_characters_not_bytes() {
    assert_eq!(split_segments("/caf\u{e9}/\u{4e16}\u{754c}"), segments(&["", "caf\u{e9}", "\u{4e16}\u{754c}"]));
}

#[test]
fn literal_patterns_match_themselves_only() {
    assert!(matches_path("/ping", "/ping"));
    assert!(!matches_path("/ping", "/pong"));
    assert!(!matches_path("/ping", "/ping/"));
    assert!(!matches_path("/ping/", "/ping"));
    assert!(!matches_path("/ping", "/ping/extra"));
    assert!(!matches_path("/ping", "ping"));
    assert!(!matches_path("/ping", "/PING"));
    assert!(matches_path("", ""));
    assert!(matches_path("/", "/"));
    assert!(!matches_path("/", ""));
}

#[test]
fn parameters_stand_for_one_non_empty_segment() {
    assert!(matches_path("/users/{id}", "/users/42"));
    assert!(matches_path("/users/{id}", "/users/alice"));
    assert!(!matches_path("/users/{id}", "/users/"));
    assert!(!matches_path("/users/{id}", "/users"));
    assert!(!matches_path("/users/{id}", "/users/42/posts"));
    assert!(matches_path("/users/{id}/posts/{post}", "/users/42/posts/7"));
    assert!(!matches_path("/users/{id}/posts/{post}", "/users/42/comments/7"));
    assert!(matches_path("/{}", "/x"));
    assert!(matches_path("/{a}", "/{a}"));
}

#[test]
fn half_open_braces_are_literal() {
    assert!(!matches_path("/{id", "/42"));
    assert!(matches_path("/{id", "/{id"));
    assert!(!matches_path("/id}", "/42"));
    assert!(!matches_path("/{", "/x"));
    assert!(matches_path("/{", "/{"));
}

#[test]
fn final_wildcard_takes_the_rest() {
    assert!(matches_path("/static/*", "/static/app.js"));
    assert!(matches_path("/static/*", "/static/css/site.css"));
    assert!(matches_path("/static/*", "/static/"));
    assert!(!matches_path("/static/*", "/static"));
    assert!(!matches_path("/static/*", "/other/app.js"));
    assert!(matches_path("/*", "/"));
    assert!(matches_path("/*", "/anything/at/all"));
    assert!(!matches_path("/*", "no-slash"));
    assert!(matches_path("*", "no-slash"));
    assert!(matches_path("*", ""));
    assert!(matches_path("*", "/a/b"));
}

#[test]
fn wildcard_before_the_end_is_literal() {
    assert!(!matches_path("/*/edit", "/page/edit"));
    assert!(matches_path("/*/edit", "/*/edit"));
    assert!(matches_path("/{x}/*", "/a/b/c"));
}

#[test]
fn segment_rules() {
    assert!(segment_accepts(&chars("ping"), &chars("ping")));
    assert!(!segment_accepts(&chars("ping"), &chars("pin")));
    assert!(!segment_accepts(&chars("ping"), &chars("")));
    assert!(segment_accepts(&chars(""), &chars("")));
    assert!(segment_accepts(&chars("{id}"), &chars("7")));
    assert!(!segment_accepts(&chars("{id}"), &chars("")));
    assert!(segment_accepts(&chars("{}"), &chars("7")));
    assert!(!segment_accepts(&chars("*"), &chars("7")));
    assert!(segment_accepts(&chars("*"), &chars("*")));
}

#[test]
fn segment_lists_rule() {
    assert!(segments_accept(&segments(&[]), &segments(&[])));
    assert!(!segments_accept(&segments(&[]), &segments(&["a"])));
    assert!(segments_accept(&segments(&["a", "{b}"]), &segments(&["a", "x"])));
    assert!(!segments_accept(&segments(&["a", "{b}"]), &segments(&["a"])));
    assert!(segments_accept(&segments(&["a", "*"]), &segments(&["a", "x", "y"])));
    assert!(!segments_accept(&segments(&["a", "*"]), &segments(&["a"])));
    assert!(!segments_accept(&segments(&["a", "*"]), &segments(&["b", "x"])));
}
