//! The grammar of `URLPattern`, as the `urlpattern` crate has it.
//!
//! A pattern comes back as its components, each with a matcher and the source of a regular
//! expression; the script engine matches with its own.

use urlpattern::quirks;
use urlpattern::quirks::StringOrInit;
use urlpattern::{UrlPatternInit, UrlPatternMatchInput};
use vstd::prelude::*;

use crate::pattern_host::{brackets_pair, host_brackets_pair};
use crate::url_parts::{or_empty, size, str_view, text_view};

verus! {

/// What a script says about a pattern or about what it is matched against, in the `urlpattern`
/// crate. It is only handed on.
#[verifier::external_type_specification]
#[verifier::external_body]
pub struct ExStringOrInit<'a>(StringOrInit<'a>);

/// A pattern before it is parsed, in the `urlpattern` crate. It is only handed on.
#[verifier::external_type_specification]
#[verifier::external_body]
pub struct ExUrlPatternInit(UrlPatternInit);

/// A pattern as its components, in the `urlpattern` crate. It is only handed on.
#[verifier::external_type_specification]
#[verifier::external_body]
pub struct ExUrlPattern(quirks::UrlPattern);

/// What a pattern is matched against, in the `urlpattern` crate. It is only handed on.
#[verifier::external_type_specification]
#[verifier::external_body]
pub struct ExUrlPatternMatchInput(UrlPatternMatchInput);

/// What a pattern is matched against as its components, in the `urlpattern` crate. It is only
/// handed on.
#[verifier::external_type_specification]
#[verifier::external_body]
pub struct ExMatchInput(quirks::MatchInput);

/// The text of a pattern, where it was given as one.
pub uninterp spec fn pattern_string(input: StringOrInit<'static>) -> Option<Seq<char>>;

/// Whether the brackets in the host of a pattern pair, where it was given as a text.
pub open spec fn input_pairs(text: Option<Seq<char>>) -> bool {
    match text {
        Some(t) => host_brackets_pair(t),
        None => true,
    }
}

/// The pattern that a script means, where it makes sense.
pub uninterp spec fn pattern_meant(
    input: StringOrInit<'static>,
    base: Option<Seq<char>>,
) -> Option<UrlPatternInit>;

/// The texts of a pattern, or of what it is matched against, that are brought into a canonical
/// form in a URL.
pub struct PatternTexts {
    pub username: Option<String>,
    pub password: Option<String>,
    pub hostname: Option<String>,
    pub pathname: Option<String>,
    /// The URL that stands in for what is missing.
    pub base_url: Option<String>,
}

/// The texts of a pattern, or of what it is matched against, that are brought into a canonical
/// form in a URL.
pub struct PatternTextsView {
    pub username: Option<Seq<char>>,
    pub password: Option<Seq<char>>,
    pub hostname: Option<Seq<char>>,
    pub pathname: Option<Seq<char>>,
    pub base_url: Option<Seq<char>>,
}

impl View for PatternTexts {
    type V = PatternTextsView;

    open spec fn view(&self) -> PatternTextsView {
        PatternTextsView {
            username: text_view(self.username),
            password: text_view(self.password),
            hostname: text_view(self.hostname),
            pathname: text_view(self.pathname),
            base_url: text_view(self.base_url),
        }
    }
}

/// The texts of a pattern.
pub uninterp spec fn pattern_texts(init: UrlPatternInit) -> PatternTextsView;

/// The texts of what a pattern is matched against, where that is not a URL.
pub uninterp spec fn match_texts(input: UrlPatternMatchInput) -> Option<PatternTextsView>;

/// How many bytes a text has, where there is one.
pub open spec fn text_size(s: Option<Seq<char>>) -> int {
    size(or_empty(s))
}

/// Whether the canonical form of each text fits into a URL. The `url` crate counts the bytes of a
/// URL in thirty-two bits, and the setters that write a text into one panic where they do not
/// suffice. A byte that is escaped becomes three, and a byte of a host becomes sixteen at the
/// most; a host and a path may come from the base URL, with a backslash before some characters.
pub open spec fn fits_url(t: PatternTextsView) -> bool {
    &&& 3 * text_size(t.username) + 64 <= u32::MAX
    &&& 3 * text_size(t.password) + 64 <= u32::MAX
    &&& 16 * (text_size(t.hostname) + 2 * text_size(t.base_url)) + 128 <= u32::MAX
    &&& 3 * (text_size(t.pathname) + 2 * text_size(t.base_url)) + 64 <= u32::MAX
}

/// The components of a pattern, where it can be parsed.
pub uninterp spec fn pattern_components(init: UrlPatternInit) -> Option<quirks::UrlPattern>;

/// What a script means to match against, where it makes sense.
pub uninterp spec fn match_meant(
    input: StringOrInit<'static>,
    base: Option<Seq<char>>,
) -> Option<UrlPatternMatchInput>;

/// The components of what a pattern is matched against, where it has any.
pub uninterp spec fn match_components(input: UrlPatternMatchInput) -> Option<quirks::MatchInput>;

/// Reads the text in a `StringOrInit`, where it holds one; it is named [`pattern_string`].
#[verifier::external_body]
fn read_input(input: &StringOrInit<'static>) -> (r: Option<String>)
    ensures
        text_view(r) == pattern_string(*input),
{
    match input {
        StringOrInit::String(text) => Some(text.to_string()),
        StringOrInit::Init(_) => None,
    }
}

/// Calls `quirks::process_construct_pattern_input`; the result is named [`pattern_meant`]. It
/// counts the brackets in the host of a text, and panics where one is closed that was not opened.
#[verifier::external_body]
fn crate_pattern_input(input: StringOrInit<'static>, base: Option<&str>) -> (r: Option<
    UrlPatternInit,
>)
    requires
        input_pairs(pattern_string(input)),
    ensures
        r == pattern_meant(input, str_view(base)),
{
    quirks::process_construct_pattern_input(input, base).ok()
}

/// Reads the fields of a `UrlPatternInit`; what they hold is named [`pattern_texts`].
#[verifier::external_body]
fn read_pattern(init: &UrlPatternInit) -> (r: PatternTexts)
    ensures
        r@ == pattern_texts(*init),
{
    PatternTexts {
        username: init.username.clone(),
        password: init.password.clone(),
        hostname: init.hostname.clone(),
        pathname: init.pathname.clone(),
        base_url: init.base_url.as_ref().map(|u| u.to_string()),
    }
}

/// Calls `quirks::parse_pattern` for regular expressions of ECMAScript with the default options;
/// the result is named [`pattern_components`]. It panics on a text that does not fit into a URL.
#[verifier::external_body]
fn crate_parse_pattern(init: UrlPatternInit) -> (r: Option<quirks::UrlPattern>)
    requires
        fits_url(pattern_texts(init)),
    ensures
        r == pattern_components(init),
{
    quirks::parse_pattern::<quirks::EcmaRegexp>(init, Default::default()).ok()
}

/// Calls `quirks::process_match_input` and keeps what is to be matched; the result is named
/// [`match_meant`].
#[verifier::external_body]
fn crate_match_input(input: StringOrInit<'static>, base: Option<&str>) -> (r: Option<UrlPatternMatchInput>)
    ensures
        r == match_meant(input, str_view(base)),
{
    quirks::process_match_input(input, base).ok()?.map(|pair| pair.0)
}

/// The texts in an option.
pub open spec fn texts_view(t: Option<PatternTexts>) -> Option<PatternTextsView> {
    match t {
        Some(texts) => Some(texts@),
        None => None,
    }
}

/// Reads the fields of the `UrlPatternInit` in a `UrlPatternMatchInput`, where that holds one and
/// not a URL; what they hold is named [`match_texts`].
#[verifier::external_body]
fn read_match(input: &UrlPatternMatchInput) -> (r: Option<PatternTexts>)
    ensures
        texts_view(r) == match_texts(*input),
{
    match input {
        UrlPatternMatchInput::Init(init) => Some(PatternTexts {
            username: init.username.clone(),
            password: init.password.clone(),
            hostname: init.hostname.clone(),
            pathname: init.pathname.clone(),
            base_url: init.base_url.as_ref().map(|u| u.to_string()),
        }),
        UrlPatternMatchInput::Url(_) => None,
    }
}

/// Calls `quirks::parse_match_input`; the result is named [`match_components`]. It panics on a
/// text that does not fit into a URL.
#[verifier::external_body]
fn crate_parse_match(input: UrlPatternMatchInput) -> (r: Option<quirks::MatchInput>)
    requires
        match_fits(match_texts(input)),
    ensures
        r == match_components(input),
{
    quirks::parse_match_input(input)
}

/// How many bytes a text has, where there is one.
fn bytes_in(s: &Option<String>) -> (r: u128)
    ensures
        r == text_size(text_view(*s)),
        r <= usize::MAX,
{
    match s {
        Some(t) => t.as_str().as_bytes().len() as u128,
        None => {
            assert(size(Seq::empty()) == 0);
            0
        },
    }
}

/// Whether the canonical form of each text fits into a URL.
pub fn texts_fit(t: &PatternTexts) -> (r: bool)
    ensures
        r == fits_url(t@),
{
    let limit: u128 = u32::MAX as u128;
    let base: u128 = 2 * bytes_in(&t.base_url);
    3 * bytes_in(&t.username) + 64 <= limit && 3 * bytes_in(&t.password) + 64 <= limit && 16 * (
    bytes_in(&t.hostname) + base) + 128 <= limit && 3 * (bytes_in(&t.pathname) + base) + 64
        <= limit
}

/// A script parses a pattern. Gives nothing where it does not parse, where the brackets in its host
/// do not pair, or where it does not fit into a URL.
pub fn url_pattern_parse(input: StringOrInit<'static>, base: Option<String>) -> (r: Option<
    quirks::UrlPattern,
>)
    ensures
        r == (match pattern_meant(input, text_view(base)) {
            Some(init) if input_pairs(pattern_string(input)) && fits_url(pattern_texts(init)) =>
                pattern_components(init),
            _ => None,
        }),
{
    let pairs = match read_input(&input) {
        Some(text) => brackets_pair(text.as_str()),
        None => true,
    };
    if !pairs {
        return None;
    }
    let init = match &base {
        Some(b) => crate_pattern_input(input, Some(b.as_str())),
        None => crate_pattern_input(input, None),
    };
    match init {
        Some(init) => if texts_fit(&read_pattern(&init)) {
            crate_parse_pattern(init)
        } else {
            None
        },
        None => None,
    }
}

/// Whether what a pattern is matched against fits into a URL; a URL does.
pub open spec fn match_fits(texts: Option<PatternTextsView>) -> bool {
    match texts {
        Some(t) => fits_url(t),
        None => true,
    }
}

/// A script brings what a pattern is matched against into its canonical form. Gives nothing where
/// no pattern could match it, or where it does not fit into a URL.
pub fn url_pattern_process_input(input: StringOrInit<'static>, base: Option<String>) -> (r: Option<
    quirks::MatchInput,
>)
    ensures
        r == (match match_meant(input, text_view(base)) {
            Some(meant) if match_fits(match_texts(meant)) => match_components(meant),
            _ => None,
        }),
{
    let meant = match &base {
        Some(b) => crate_match_input(input, Some(b.as_str())),
        None => crate_match_input(input, None),
    };
    match meant {
        Some(meant) => {
            let fits = match read_match(&meant) {
                Some(t) => texts_fit(&t),
                None => true,
            };
            if fits {
                crate_parse_match(meant)
            } else {
                None
            }
        },
        None => None,
    }
}

/// A pattern that was not given as a text has no host to look at, and a text without a closing
/// bracket pairs.
pub proof fn texts_without_brackets_pair(text: Seq<char>)
    requires
        !text.contains(']'),
    ensures
        input_pairs(Some(text)),
        input_pairs(None),
{
}

/// Whatever is well below four thousand million bytes fits into a URL, even if every byte of it
/// became sixteen; what is matched against a pattern as a URL fits at any length.
pub proof fn ordinary_patterns_fit(t: PatternTextsView, n: int)
    requires
        64 * n + 128 <= u32::MAX,
        t.username matches Some(s) ==> size(s) <= n,
        t.password matches Some(s) ==> size(s) <= n,
        t.hostname matches Some(s) ==> size(s) <= n,
        t.pathname matches Some(s) ==> size(s) <= n,
        t.base_url matches Some(s) ==> size(s) <= n,
        0 <= n,
    ensures
        fits_url(t),
        match_fits(Some(t)),
        match_fits(None),
{
    assert(size(Seq::empty()) == 0);
}

} // verus!
