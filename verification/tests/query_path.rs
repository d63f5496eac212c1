use safe_url::path::normalize_path;
use safe_url::query::{query_pairs_of, set_pair, values_for_key, version_of_text};
use safe_url::safe_url::{check_alias_hash, version_in_query};
use safe_url::foreign::ParsedUrl;
use safe_url::{Error, SafeUrl, SafeUrlParts, XorName};

fn parsed(scheme: &str, host: Option<&str>, path: &str) -> ParsedUrl {
    ParsedUrl {
        scheme: scheme.to_string(),
        host: host.map(String::from),
        path: path.to_string(),
        query: None,
        fragment: Some("f".to_string()),
    }
}

fn pairs(list: &[(&str, &str)]) -> Vec<(String, String)> {
    list.iter().map(|(k, v)| (k.to_string(), v.to_string())).collect()
}

#[test]
fn set_collapses_a_name_to_its_first_place() {
    let before = pairs(&[("a", "1"), ("name", "John Doe"), ("b", "2"), ("name", "Jane Doe"), ("c", "3")]);
    let after = set_pair(&before, "name", Some("Peggy Sue"));
    assert_eq!(after, pairs(&[("a", "1"), ("name", "Peggy Sue"), ("b", "2"), ("c", "3")]));
}

#[test]
fn set_appends_a_new_name() {
    let before = pairs(&[("a", "1"), ("b", "2")]);
    assert_eq!(
        set_pair(&before, "age", Some("25")),
        pairs(&[("a", "1"), ("b", "2"), ("age", "25")])
    );
    assert_eq!(set_pair(&pairs(&[]), "age", Some("")), pairs(&[("age", "")]));
}

#[test]
fn unset_removes_every_occurrence() {
    let before = pairs(&[("v", "1"), ("a", "1"), ("v", "2"), ("v", "3")]);
    assert_eq!(set_pair(&before, "v", None), pairs(&[("a", "1")]));
    assert_eq!(set_pair(&before, "absent", None), before);
    assert_eq!(set_pair(&pairs(&[]), "v", None), pairs(&[]));
}

#[test]
fn values_come_in_their_order() {
    let list = pairs(&[("color", "red"), ("age", "5"), ("color", "green"), ("color", "blue")]);
    assert_eq!(values_for_key(&list, "color"), vec!["red", "green", "blue"]);
    assert_eq!(values_for_key(&list, "age"), vec!["5"]);
    assert_eq!(values_for_key(&list, "size"), Vec::<String>::new());
}

#[test]
fn version_is_read_from_a_value() {
    assert_eq!(version_of_text(None).unwrap(), None);
    assert_eq!(version_of_text(Some("5")).unwrap(), Some(5));
    assert_eq!(version_of_text(Some("18446744073709551615")).unwrap(), Some(u64::MAX));
    match version_of_text(Some("non-integer")) {
        Err(Error::InvalidInput(m)) => {
            assert_eq!(m, "v param could not be parsed as u64. invalid: 'non-integer'")
        }
        other => panic!("{:?}", other),
    }
    assert!(version_of_text(Some("")).is_err());
    assert!(version_of_text(Some("-1")).is_err());
}

#[test]
fn last_version_of_a_query_wins() {
    assert_eq!(version_in_query("").unwrap(), None);
    assert_eq!(version_in_query("a=1").unwrap(), None);
    assert_eq!(version_in_query("v=1&a=2&v=7").unwrap(), Some(7));
    assert!(version_in_query("v=7&v=x").is_err());
    assert_eq!(version_in_query("v=x&v=7").unwrap(), Some(7));
}

#[test]
fn query_is_read_into_decoded_pairs() {
    assert_eq!(
        query_pairs_of("name=John+Doe&name=Jane%20Doe").unwrap(),
        pairs(&[("name", "John Doe"), ("name", "Jane Doe")])
    );
    assert_eq!(query_pairs_of("").unwrap(), pairs(&[]));
    assert_eq!(query_pairs_of("a&b=&=c").unwrap(), pairs(&[("a", ""), ("b", ""), ("", "c")]));
}

#[test]
fn path_gets_its_leading_slash() {
    assert_eq!(normalize_path("no-leading-slash", true), "/no-leading-slash");
    assert_eq!(normalize_path("no-leading-slash", false), "/no-leading-slash");
    assert_eq!(normalize_path("a/b", false), "/a/b");
}

#[test]
fn empty_path_stays_empty() {
    assert_eq!(normalize_path("", true), "");
    assert_eq!(normalize_path("", false), "");
    assert_eq!(normalize_path("/", true), "");
    assert_eq!(normalize_path("/", false), "");
}

#[test]
fn segments_are_encoded_one_by_one() {
    assert_eq!(normalize_path("/path/to/my new file.txt", true), "/path/to/my%20new%20file.txt");
    assert_eq!(normalize_path("/path/to/my new file.txt", false), "/path/to/my new file.txt");
    assert_eq!(normalize_path("/a%20b", true), "/a%2520b");
    assert_eq!(normalize_path("/a%20b", false), "/a%20b");
    assert_eq!(normalize_path("/trailing/slash/", true), "/trailing/slash/");
    assert_eq!(normalize_path("/ü", true), "/%C3%BC");
}

#[test]
fn inner_empty_segments_are_kept() {
    assert_eq!(normalize_path("//", false), "//");
    assert_eq!(normalize_path("a//b", false), "/a//b");
    assert_eq!(normalize_path("/a//b", true), "/a//b");
}

#[test]
fn stored_path_is_kept_when_given_again() {
    for p in ["", "/a", "/a/b/", "/my%20file.txt", "//"] {
        assert_eq!(normalize_path(p, false), p);
    }
}

#[test]
fn percent_encoding_leaves_only_unreserved_bytes() {
    assert_eq!(SafeUrl::url_percent_encode(""), "");
    assert_eq!(SafeUrl::url_percent_encode("azAZ09-._~"), "azAZ09-._~");
    assert_eq!(SafeUrl::url_percent_encode("a b"), "a%20b");
    assert_eq!(SafeUrl::url_percent_encode("a/b?c#d"), "a%2Fb%3Fc%23d");
    assert_eq!(SafeUrl::url_percent_encode("ü"), "%C3%BC");
    assert_eq!(SafeUrl::url_percent_encode("%"), "%25");
}

#[test]
fn percent_decoding_reads_escapes() {
    assert_eq!(SafeUrl::url_percent_decode("a%20b").unwrap(), "a b");
    assert_eq!(SafeUrl::url_percent_decode("a+b").unwrap(), "a+b");
    assert_eq!(SafeUrl::url_percent_decode("%C3%BC").unwrap(), "ü");
    assert_eq!(SafeUrl::url_percent_decode("").unwrap(), "");
    match SafeUrl::url_percent_decode("%FF") {
        Err(Error::InvalidInput(_)) => {}
        other => panic!("{:?}", other),
    }
}

#[test]
fn url_is_split_into_its_parts() {
    let parts = SafeUrlParts::parse("safe://my.sub.domain/path/file?k=v&v=5#frag").unwrap();
    assert_eq!(parts.scheme, "safe");
    assert_eq!(parts.host, "my.sub.domain");
    assert_eq!(parts.sub_names, vec!["my", "sub"]);
    assert_eq!(parts.tld, "domain");
    assert_eq!(parts.path, "/path/file");
    assert_eq!(parts.query_string, "k=v&v=5");
    assert_eq!(parts.fragment, "frag");

    let parts = SafeUrlParts::parse("safe://domain").unwrap();
    assert_eq!(parts.host, "domain");
    assert_eq!(parts.sub_names, Vec::<String>::new());
    assert_eq!(parts.tld, "domain");
    assert_eq!(parts.path, "");
    assert_eq!(parts.query_string, "");
    assert_eq!(parts.fragment, "");
}

#[test]
fn malformed_urls_are_told_apart() {
    let message = |url: &str| match SafeUrlParts::parse(url) {
        Err(Error::InvalidXorUrl(m)) => m,
        other => panic!("{:?}", other),
    };
    assert_eq!(
        message("withoutscheme"),
        "Problem parsing the URL \"withoutscheme\": relative URL without a base"
    );
    assert_eq!(message("http://badscheme"), "invalid scheme: 'http'. expected: 'safe'");
    assert_eq!(
        message("safe:///emptyhost"),
        "Problem parsing the URL \"safe:///emptyhost\": missing host"
    );
    assert_eq!(message("safe://my.sub..name"), "host contains empty subname");
    assert_eq!(message("safe://hostname//"), "path contains empty component");
    assert_eq!(message("safe://a..b//"), "host contains empty subname");
}

#[test]
fn parsed_components_are_checked_in_order() {
    let message = |p: ParsedUrl| match SafeUrlParts::from_parsed("the url", p) {
        Err(Error::InvalidXorUrl(m)) => m,
        other => panic!("{:?}", other),
    };
    assert_eq!(
        message(parsed("file", None, "//")),
        "invalid scheme: 'file'. expected: 'safe'"
    );
    assert_eq!(
        message(parsed("safe", None, "//")),
        "Problem parsing the URL \"the url\": missing host"
    );
    assert_eq!(message(parsed("safe", Some("a..b"), "//")), "host contains empty subname");
    assert_eq!(message(parsed("safe", Some("a.b"), "/x//y")), "path contains empty component");

    let parts = SafeUrlParts::from_parsed("the url", parsed("safe", Some("a.b."), "/x")).unwrap();
    assert_eq!(parts.host, "a.b.");
    assert_eq!(parts.sub_names, vec!["a", "b"]);
    assert_eq!(parts.tld, "");
    assert_eq!(parts.path, "/x");
    assert_eq!(parts.query_string, "");
    assert_eq!(parts.fragment, "f");

    let parts = SafeUrlParts::from_parsed("the url", parsed("safe", Some(""), "")).unwrap();
    assert_eq!(parts.sub_names, Vec::<String>::new());
    assert_eq!(parts.tld, "");
}

#[test]
fn alias_hash_is_held_against_the_name() {
    let a = XorName(*b"12345678901234567890123456789012");
    let b = XorName([0xab; 32]);
    assert!(check_alias_hash("label", &a, &a).is_ok());
    match check_alias_hash("label", &a, &b) {
        Err(Error::InvalidInput(m)) => {
            assert!(m.starts_with("input mis-match. nrs_host `label` hashes to `"));
            assert!(m.contains("`: it does not hash to xorname `"));
            assert!(m.ends_with("`"));
            assert!(m.contains("313233"));
            assert!(m.contains("ababab"));
            println!("{}", m);
        }
        other => panic!("{:?}", other),
    }
}
