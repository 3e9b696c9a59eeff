use openworkers_runtime::compression::{Codec, CompressionState, Format, ALREADY_CLOSED};
use openworkers_runtime::fetch::{default_method, FetchRequest, HttpMethod};
use openworkers_runtime::pattern_host::brackets_pair;
use openworkers_runtime::text::{
    contains_text, decimal_text, find_after_last, find_from, parse_u16, str_eq, strip_prefix,
};
use openworkers_runtime::text_encoding::{
    decode_result, text_decode, text_encode, DecodeError, DecodeInput, INVALID_SEQUENCE,
};
use openworkers_runtime::url_parts::{url_parse, url_update, UrlParts};
use openworkers_runtime::url_pattern::{
    texts_fit, url_pattern_parse, url_pattern_process_input, PatternTexts,
};
use urlpattern::quirks::StringOrInit;

fn label(s: &str) -> Option<String> {
    Some(s.to_string())
}

fn decode(bytes: &[u8], name: &str, fatal: bool) -> Result<String, DecodeError> {
    text_decode(DecodeInput::Bytes(bytes.to_vec()), label(name), fatal)
}

fn parse(s: &str) -> UrlParts {
    url_parse(s.to_string(), None).unwrap()
}

fn update(href: &str, part: &str, value: &str) -> UrlParts {
    url_update(href.to_string(), part.to_string(), value.to_string()).unwrap()
}

fn streamed(format: &str, decompress: bool, chunks: &[&[u8]]) -> Result<Vec<u8>, String> {
    let mut state = CompressionState::default();
    let id = state.compression_start(label(format), decompress)?;
    let mut out = Vec::new();
    for chunk in chunks {
        out.extend(state.compression_push(Some(id), Some(chunk.to_vec()))?);
    }
    out.extend(state.compression_finish(Some(id))?);
    Ok(out)
}

#[test]
fn numbers_are_written_in_decimal() {
    assert_eq!(decimal_text(0), "0");
    assert_eq!(decimal_text(1_020_304), "1020304");
    assert_eq!(decimal_text(u64::MAX), "18446744073709551615");
    assert_eq!(parse_u16("65535"), Some(65535));
    assert_eq!(parse_u16("65536"), None);
    assert_eq!(parse_u16(""), None);
    assert_eq!(parse_u16("8a"), None);
}

#[test]
fn texts_are_searched() {
    assert!(str_eq("é", "é"));
    assert!(!str_eq("a", "b"));
    assert!(contains_text("hit the Max event loop", "Max"));
    assert!(!contains_text("max", "Max"));
    assert!(contains_text("x", ""));
    assert_eq!(strip_prefix("?a", "?"), Some("a"));
    assert_eq!(strip_prefix("a?", "?"), None);
    let chars: Vec<char> = "a:b:c".chars().collect();
    assert_eq!(find_from(&chars, ':', 0), 1);
    assert_eq!(find_from(&chars, ':', 2), 3);
    assert_eq!(find_from(&chars, '/', 0), 5);
    assert_eq!(find_after_last(&chars, ':'), 4);
}

#[test]
fn methods_are_known_by_name() {
    assert_eq!(HttpMethod::from_str("get"), Some(HttpMethod::Get));
    assert_eq!(HttpMethod::from_str("PATCH"), Some(HttpMethod::Patch));
    assert_eq!(HttpMethod::from_str("TRACE"), None);
    assert_eq!(HttpMethod::from_uppercase("get"), None);
    for m in [
        HttpMethod::Get,
        HttpMethod::Post,
        HttpMethod::Put,
        HttpMethod::Delete,
        HttpMethod::Patch,
        HttpMethod::Head,
        HttpMethod::Options,
    ] {
        assert_eq!(HttpMethod::from_str(m.as_str()), Some(m));
    }
    assert_eq!(HttpMethod::Options.as_str(), "OPTIONS");
    assert_eq!(default_method(), "GET");
    let request = FetchRequest::default();
    assert_eq!(request.method, HttpMethod::Get);
    assert_eq!(request.url, "");
}

#[test]
fn decoding_gives_back_what_was_encoded() {
    let text = "h\u{e9}llo \u{1f600}";
    let bytes = text_encode(label(text));
    assert_eq!(bytes, text.as_bytes());
    assert_eq!(decode(&bytes, "utf-8", true).ok().unwrap(), text);
    assert!(text_encode(None).is_empty());
}

#[test]
fn other_encodings_are_known() {
    assert_eq!(decode(&[0xe9], "latin1", true).ok().unwrap(), "\u{e9}");
    assert_eq!(decode(&[0x41, 0x00], "utf-16le", true).ok().unwrap(), "A");
    match decode(b"x", "no-such-encoding", false) {
        Err(DecodeError::Range(_)) => {}
        _ => panic!("Expected a range error"),
    }
}

#[test]
fn what_is_no_text_is_replaced_or_refused() {
    assert_eq!(decode(&[0x61, 0xff], "utf-8", false).ok().unwrap(), "a\u{fffd}");
    match decode(&[0xff], "utf-8", true) {
        Err(DecodeError::Type(m)) => assert_eq!(m, INVALID_SEQUENCE),
        _ => panic!("Expected a type error"),
    }
    assert_eq!(text_decode(DecodeInput::Nothing, None, true).ok().unwrap(), "");
    assert!(matches!(
        text_decode(DecodeInput::Other, None, false),
        Err(DecodeError::Type(_))
    ));
    assert_eq!(decode_result("x".to_string(), true, false).ok().unwrap(), "x");
    assert!(decode_result("x".to_string(), true, true).is_err());
}

#[test]
fn a_url_is_split_into_its_parts() {
    let u = parse("https://user:pw@example.com:8080/a/b?q=1#frag");
    assert_eq!(u.href, "https://user:pw@example.com:8080/a/b?q=1#frag");
    assert_eq!(u.origin, "https://example.com:8080");
    assert_eq!(u.protocol, "https:");
    assert_eq!((u.username.as_str(), u.password.as_str()), ("user", "pw"));
    assert_eq!(u.host, "example.com:8080");
    assert_eq!(u.hostname, "example.com");
    assert_eq!(u.port, "8080");
    assert_eq!(u.pathname, "/a/b");
    assert_eq!(u.search, "?q=1");
    assert_eq!(u.hash, "#frag");
}

#[test]
fn empty_parts_are_left_out() {
    let u = parse("https://example.com:443/?#");
    assert_eq!(u.host, "example.com");
    assert_eq!(u.port, "");
    assert_eq!(u.search, "");
    assert_eq!(u.hash, "");
    assert!(url_parse("not a url".to_string(), None).is_none());
    let joined = url_parse("../c".to_string(), label("https://x/a/b/")).unwrap();
    assert_eq!(joined.href, "https://x/a/c");
    assert!(url_parse("c".to_string(), label("nope")).is_none());
}

#[test]
fn the_parts_of_a_url_are_changed() {
    let href = "https://example.com/a";
    assert_eq!(update(href, "protocol", "http:").href, "http://example.com/a");
    assert_eq!(update(href, "username", "me").href, "https://me@example.com/a");
    assert_eq!(update(href, "password", "pw").href, "https://:pw@example.com/a");
    assert_eq!(update(href, "hostname", "b.org").href, "https://b.org/a");
    assert_eq!(update(href, "port", "81").href, "https://example.com:81/a");
    assert_eq!(update(href, "pathname", "/z").href, "https://example.com/z");
    assert_eq!(update(href, "search", "?x=y").href, "https://example.com/a?x=y");
    assert_eq!(update(href, "hash", "#h").href, "https://example.com/a#h");
    assert_eq!(update(href, "host", "b.org:99").href, "https://b.org:99/a");
    assert_eq!(update("https://example.com/a?x=y", "search", "").href, href);
    assert_eq!(update("https://example.com/a#h", "hash", "").href, href);
    assert_eq!(update("https://example.com:81/a", "port", "").href, href);
}

#[test]
fn a_change_that_cannot_be_made_is_ignored() {
    let href = "https://example.com/a";
    assert_eq!(update(href, "port", "no").href, href);
    assert_eq!(update(href, "nothing", "x").href, href);
    assert!(url_update("nope".to_string(), "port".to_string(), "1".to_string()).is_none());
}

#[test]
fn a_url_pattern_is_taken_apart() {
    let pattern = url_pattern_parse(
        StringOrInit::String("https://example.com/books/:id".into()),
        None,
    )
    .unwrap();
    assert_eq!(pattern.pathname.pattern_string, "/books/:id");
    assert!(url_pattern_parse(StringOrInit::String("/a(".into()), None).is_none());
    let input = url_pattern_process_input(
        StringOrInit::String("https://example.com/books/7".into()),
        None,
    )
    .unwrap();
    assert_eq!(input.pathname, "/books/7");
    assert!(url_pattern_process_input(StringOrInit::String("/x".into()), None).is_none());
}

#[test]
fn decompressing_gives_back_what_was_compressed() {
    let text = b"abcabcabcabcabcabcabcabcabcabcabcabcabcabcabc";
    for format in ["gzip", "deflate", "deflate-raw"] {
        let packed = streamed(format, false, &[&text[..10], &text[10..]]).unwrap();
        assert_ne!(packed, text.to_vec());
        assert!(packed.len() < text.len());
        let half = packed.len() / 2;
        assert_eq!(
            streamed(format, true, &[&packed[..half], &packed[half..]]).unwrap(),
            text.to_vec()
        );
    }
}

#[test]
fn compressed_data_has_the_mark_of_its_format() {
    let gz = streamed("gzip", false, &[b"x"]).unwrap();
    assert_eq!(&gz[..2], &[0x1f, 0x8b]);
    let zlib = streamed("deflate", false, &[b"x"]).unwrap();
    assert_eq!(zlib[0], 0x78);
    assert!(streamed("gzip", true, &[b"this is no gzip data at all"]).is_err());
    assert!(streamed("deflate", true, &[b"nor is this any zlib data"]).is_err());
}

#[test]
fn a_compression_stream_is_used_until_it_is_closed() {
    let mut state = CompressionState::default();
    assert!(state.compression_start(label("brotli"), false).is_err());
    let a = state.compression_start(label("gzip"), false).unwrap();
    let b = state.compression_start(label("gzip"), false).unwrap();
    assert_ne!(a, b);
    assert!(state.compression_push(Some(a), None).is_err());
    state.compression_finish(Some(a)).unwrap();
    assert_eq!(state.compression_push(Some(a), Some(vec![1])), Err(ALREADY_CLOSED.to_string()));
    assert_eq!(state.compression_finish(Some(a)), Err(ALREADY_CLOSED.to_string()));
    state.compression_drop(Some(b));
    assert_eq!(state.compression_finish(Some(b)), Err(ALREADY_CLOSED.to_string()));
    assert_eq!(Format::from_name("deflate-raw"), Some(Format::DeflateRaw));
    assert!(Codec::new("zip", true).is_none());
}

#[test]
fn a_blob_has_the_origin_of_the_url_in_it() {
    assert_eq!(parse("blob:https://example.com:8080/id").origin, "https://example.com:8080");
    assert_eq!(parse("blob:no url").origin, "null");
    assert_eq!(parse("blob:/path").origin, "null");
    assert_eq!(parse("BLOB:Blob:https://example.com/id").origin, "https://example.com");
    assert_eq!(parse("mailto:a@b").origin, "null");
    let nested = "blob:".repeat(3000) + "https://example.com/id";
    assert_eq!(parse(&nested).origin, "https://example.com");
    assert_eq!(parse(&"blob:".repeat(3000)).origin, "null");
}

#[test]
fn a_value_that_cannot_be_applied_is_ignored() {
    let href = "https://u:p@example.com:8080/p?q#h";
    for (part, value) in [
        ("nothing", "x"),
        ("port", "no number"),
        ("port", "65536"),
        ("protocol", "mailto"),
        ("hostname", ""),
    ] {
        assert_eq!(update(href, part, value).href, href);
    }
    let mail = "mailto:a@b";
    for (part, value) in [("pathname", "/x"), ("host", "h:1"), ("port", "1"), ("username", "u")] {
        assert_eq!(update(mail, part, value).href, mail);
    }
}

#[test]
fn texts_that_do_not_fit_into_a_url_are_found() {
    let texts = |hostname: Option<&str>, base_url: Option<&str>| PatternTexts {
        username: None,
        password: Some("p".to_string()),
        hostname: hostname.map(str::to_string),
        pathname: Some("/x".to_string()),
        base_url: base_url.map(str::to_string),
    };
    assert!(texts_fit(&texts(None, None)));
    assert!(texts_fit(&texts(Some("example.com"), Some("https://example.com"))));
    assert!(!texts_fit(&texts(Some(&"x".repeat(1 << 28)), None)));
    assert!(!texts_fit(&texts(None, Some(&"x".repeat(1 << 27)))));
}

#[test]
fn brackets_in_the_host_of_a_pattern_pair() {
    for text in [
        "",
        "]",
        "/a]",
        "?a]",
        "https://a",
        "https://a/b]",
        "https://a?b]",
        "https://a#b]",
        r"https://a\/b]",
        "https://a:80/]",
        "https://a:8]",
        "https://[::1]/]",
        r"https://[\:\:1]:80/",
        "https://u:p]@a/",
        "https://u]@[a]/",
        "https://([a-z]+).example.com/",
        r"https://([^\]]+).example.com/",
        "https://{a]}b/",
        "https://*?/]",
        "{a:]}",
        "foo:1]",
        ":name]",
        "http:a b]",
    ] {
        assert!(brackets_pair(text), "{}", text);
    }
    for text in [
        "https://a]",
        r"https://a\]",
        "https://a]/b",
        "https://[a]]/",
        "https://{[}]",
        "https://([)]",
        "https://(]",
        "https://u@a]",
        "https://*?]",
        "https://:name?]",
        "http:1]",
        "ht{t}p:1]",
        "https://{a]",
        "https://:é]",
    ] {
        assert!(!brackets_pair(text), "{}", text);
    }
}

#[test]
fn a_pattern_with_a_stray_bracket_does_not_parse() {
    let parse = |text: &str| url_pattern_parse(StringOrInit::String(text.to_string().into()), None);
    assert!(parse("https://a]").is_none());
    assert!(parse("https://{[}]").is_none());
    assert_eq!(parse("https://a/b]").unwrap().pathname.pattern_string, "/b]");
    assert_eq!(parse("https://a?b]").unwrap().search.pattern_string, "b]");
    assert_eq!(parse("https://a#b]").unwrap().hash.pattern_string, "b]");
    assert_eq!(parse(r"https://[\:\:1]/").unwrap().hostname.pattern_string, r"[\:\:1]");
    assert_eq!(
        parse("https://([a-z]+).example.com/").unwrap().hostname.pattern_string,
        "([a-z]+).example.com"
    );
}

#[test]
fn every_short_pattern_has_an_answer() {
    let marks = [']', '[', ':', '/', '{', '}', '(', ')', '\\', '?', '@', 'a', '*'];
    for start in ["http://", "http:", "a:", ""] {
        for a in marks {
            for b in marks {
                for c in marks {
                    let text: String = start.chars().chain([a, b, c]).collect();
                    let _ = url_pattern_parse(StringOrInit::String(text.into()), None);
                }
            }
        }
    }
}
