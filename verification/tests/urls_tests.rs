use lightwave::urls::format_base_url;
use lightwave::urls::resolve_base_url;

#[test]
fn trailing_slash_is_trimmed_and_segment_appended() {
    assert_eq!(format_base_url("http://h:8000/"), "http://h:8000/api");
}

#[test]
fn url_already_ending_in_segment_is_unchanged() {
    assert_eq!(format_base_url("http://h:8000/api"), "http://h:8000/api");
}

#[test]
fn url_with_segment_and_trailing_slash_is_trimmed() {
    assert_eq!(format_base_url("http://h:8000/api/"), "http://h:8000/api");
}

#[test]
fn many_trailing_slashes_are_all_trimmed() {
    assert_eq!(format_base_url("http://h:8000///"), "http://h:8000/api");
}

#[test]
fn plain_host_gets_segment_appended() {
    assert_eq!(format_base_url("https://example.org"), "https://example.org/api");
}

#[test]
fn empty_url_becomes_bare_segment() {
    assert_eq!(format_base_url(""), "/api");
}

#[test]
fn result_never_ends_in_slash() {
    let inputs = ["", "/", "a/", "http://h/", "http://h/api/", "http://h//api//"];
    for input in inputs {
        let out = format_base_url(input);
        assert!(!out.ends_with('/'), "{out:?} ends in a slash");
    }
}

#[test]
fn explicit_argument_wins_over_environment() {
    let url = resolve_base_url(Some("http://arg:1/"), Some("http://env:2/"));
    assert_eq!(url, "http://arg:1/api");
}

#[test]
fn environment_wins_over_default() {
    let url = resolve_base_url(None, Some("http://env:2/"));
    assert_eq!(url, "http://env:2/api");
}

#[test]
fn default_is_used_when_nothing_is_set() {
    let url = resolve_base_url(None, None);
    assert_eq!(url, "http://localhost:8000/api");
}
