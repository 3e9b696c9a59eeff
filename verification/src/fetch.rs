//! Requests that a script makes: methods, request data and response metadata.

use vstd::prelude::*;
use vstd::utf8::*;

use crate::text::str_eq;

verus! {

/// An HTTP method.
#[derive(Debug, Clone, Copy, PartialEq, Eq, Structural)]
pub enum HttpMethod {
    Get,
    Post,
    Put,
    Delete,
    Patch,
    Head,
    Options,
}

/// What `str::to_uppercase` makes of a text.
pub uninterp spec fn unicode_uppercase(s: Seq<char>) -> Seq<char>;

/// `s` with the letters `a` to `z` in upper case.
pub open spec fn ascii_uppercase(s: Seq<char>) -> Seq<char> {
    s.map_values(
        |c: char|
            if 'a' <= c && c <= 'z' {
                (c as u32 - 32) as char
            } else {
                c
            },
    )
}

/// Calls `str::to_uppercase`, whose result is named [`unicode_uppercase`]. Of an ASCII text it
/// changes the letters `a` to `z` and nothing else.
#[verifier::external_body]
pub(crate) fn uppercase(s: &str) -> (r: String)
    ensures
        r@ == unicode_uppercase(s@),
        is_ascii_chars(s@) ==> r@ == ascii_uppercase(s@),
{
    s.to_uppercase()
}

impl HttpMethod {
    /// The name of the method.
    pub open spec fn name(self) -> Seq<char> {
        match self {
            HttpMethod::Get => "GET"@,
            HttpMethod::Post => "POST"@,
            HttpMethod::Put => "PUT"@,
            HttpMethod::Delete => "DELETE"@,
            HttpMethod::Patch => "PATCH"@,
            HttpMethod::Head => "HEAD"@,
            HttpMethod::Options => "OPTIONS"@,
        }
    }

    /// The method with the name `s`, in upper case.
    pub open spec fn named(s: Seq<char>) -> Option<HttpMethod> {
        if s == HttpMethod::Get.name() {
            Some(HttpMethod::Get)
        } else if s == HttpMethod::Post.name() {
            Some(HttpMethod::Post)
        } else if s == HttpMethod::Put.name() {
            Some(HttpMethod::Put)
        } else if s == HttpMethod::Delete.name() {
            Some(HttpMethod::Delete)
        } else if s == HttpMethod::Patch.name() {
            Some(HttpMethod::Patch)
        } else if s == HttpMethod::Head.name() {
            Some(HttpMethod::Head)
        } else if s == HttpMethod::Options.name() {
            Some(HttpMethod::Options)
        } else {
            None
        }
    }

    /// The method with the name `s`, in upper case.
    pub fn from_uppercase(s: &str) -> (r: Option<HttpMethod>)
        ensures
            r == HttpMethod::named(s@),
    {
        if str_eq(s, "GET") {
            Some(HttpMethod::Get)
        } else if str_eq(s, "POST") {
            Some(HttpMethod::Post)
        } else if str_eq(s, "PUT") {
            Some(HttpMethod::Put)
        } else if str_eq(s, "DELETE") {
            Some(HttpMethod::Delete)
        } else if str_eq(s, "PATCH") {
            Some(HttpMethod::Patch)
        } else if str_eq(s, "HEAD") {
            Some(HttpMethod::Head)
        } else if str_eq(s, "OPTIONS") {
            Some(HttpMethod::Options)
        } else {
            None
        }
    }

    /// The method with the name `s`, in whatever case.
    pub fn from_str(s: &str) -> (r: Option<HttpMethod>)
        ensures
            r == HttpMethod::named(unicode_uppercase(s@)),
            is_ascii_chars(s@) ==> r == HttpMethod::named(ascii_uppercase(s@)),
    {
        HttpMethod::from_uppercase(uppercase(s).as_str())
    }

    /// The name of the method.
    pub fn as_str(&self) -> (r: &'static str)
        ensures
            r@ == self.name(),
    {
        match self {
            HttpMethod::Get => "GET",
            HttpMethod::Post => "POST",
            HttpMethod::Put => "PUT",
            HttpMethod::Delete => "DELETE",
            HttpMethod::Patch => "PATCH",
            HttpMethod::Head => "HEAD",
            HttpMethod::Options => "OPTIONS",
        }
    }
}

/// A method is found by its name, in upper case or in lower case.
pub proof fn method_found_by_name(m: HttpMethod, s: Seq<char>)
    requires
        ascii_uppercase(s) == m.name(),
    ensures
        HttpMethod::named(ascii_uppercase(s)) == Some(m),
        is_ascii_chars(m.name()),
        ascii_uppercase(m.name()) == m.name(),
{
    method_names_differ();
    reveal_strlit("GET");
    reveal_strlit("POST");
    reveal_strlit("PUT");
    reveal_strlit("DELETE");
    reveal_strlit("PATCH");
    reveal_strlit("HEAD");
    reveal_strlit("OPTIONS");
    assert(ascii_uppercase(m.name()) =~= m.name());
}

/// No two methods share a name.
proof fn method_names_differ()
    ensures
        forall|a: HttpMethod, b: HttpMethod| a != b ==> #[trigger] a.name() != #[trigger] b.name(),
{
    reveal_strlit("GET");
    reveal_strlit("POST");
    reveal_strlit("PUT");
    reveal_strlit("DELETE");
    reveal_strlit("PATCH");
    reveal_strlit("HEAD");
    reveal_strlit("OPTIONS");
    assert("GET"@[0] != "POST"@[0] && "GET"@[0] != "PUT"@[0] && "GET"@[0] != "DELETE"@[0]);
    assert("GET"@[0] != "PATCH"@[0] && "GET"@[0] != "HEAD"@[0] && "GET"@[0] != "OPTIONS"@[0]);
    assert("POST"@[1] != "PATCH"@[1] && "HEAD"@[0] != "POST"@[0]);
    assert("POST"@.len() == 4 && "PUT"@.len() == 3 && "DELETE"@.len() == 6 && "PATCH"@.len() == 5
        && "HEAD"@.len() == 4 && "OPTIONS"@.len() == 7);
}

/// What a request to fetch consists of.
#[derive(Debug)]
pub struct FetchRequest {
    pub url: String,
    pub method: HttpMethod,
    pub headers: Vec<(String, String)>,
    pub body: Option<String>,
}

impl Default for FetchRequest {
    fn default() -> (r: Self)
        ensures
            r.url@ == Seq::<char>::empty(),
            r.method == HttpMethod::Get,
            r.headers@ == Seq::<(String, String)>::empty(),
            r.body is None,
    {
        FetchRequest {
            url: String::new(),
            method: HttpMethod::Get,
            headers: Vec::new(),
            body: None,
        }
    }
}

/// What is known of a response before its body arrives.
#[derive(Debug)]
pub struct FetchResponseMeta {
    pub status: u16,
    pub status_text: String,
    pub headers: Vec<(String, String)>,
}

/// The method of a request that names none.
pub fn default_method() -> (r: String)
    ensures
        r@ == "GET"@,
{
    "GET".to_string()
}

/// A text is the name of a method exactly where it is one of the seven names in upper case, and it
/// leads to that method.
pub proof fn methods_have_their_names(s: Seq<char>)
    ensures
        HttpMethod::named(s) == Some(HttpMethod::Get) <==> s == "GET"@,
        HttpMethod::named(s) == Some(HttpMethod::Post) <==> s == "POST"@,
        HttpMethod::named(s) == Some(HttpMethod::Put) <==> s == "PUT"@,
        HttpMethod::named(s) == Some(HttpMethod::Delete) <==> s == "DELETE"@,
        HttpMethod::named(s) == Some(HttpMethod::Patch) <==> s == "PATCH"@,
        HttpMethod::named(s) == Some(HttpMethod::Head) <==> s == "HEAD"@,
        HttpMethod::named(s) == Some(HttpMethod::Options) <==> s == "OPTIONS"@,
        HttpMethod::named(s) is Some ==> HttpMethod::named(s)->0.name() == s,
{
    method_names_differ();
    assert(HttpMethod::Get.name() == "GET"@ && HttpMethod::Post.name() == "POST"@);
    assert(HttpMethod::Put.name() == "PUT"@ && HttpMethod::Delete.name() == "DELETE"@);
    assert(HttpMethod::Patch.name() == "PATCH"@ && HttpMethod::Head.name() == "HEAD"@);
    assert(HttpMethod::Options.name() == "OPTIONS"@);
}

/// The name of a method leads back to the method.
pub proof fn names_lead_to_methods(m: HttpMethod)
    ensures
        HttpMethod::named(m.name()) == Some(m),
{
    method_names_differ();
}

/// Upper case keeps what is no small letter and the length, and two texts that differ in the case
/// of their letters only have one upper case.
pub proof fn upper_case_changes_small_letters_only(s: Seq<char>, i: int)
    requires
        0 <= i < s.len(),
    ensures
        ascii_uppercase(s).len() == s.len(),
        !('a' <= s[i] && s[i] <= 'z') ==> ascii_uppercase(s)[i] == s[i],
        'a' <= s[i] && s[i] <= 'z' ==> ascii_uppercase(s)[i] as int == s[i] as int - 'a' as int
            + 'A' as int,
        ascii_uppercase(ascii_uppercase(s)) == ascii_uppercase(s),
{
    assert(ascii_uppercase(ascii_uppercase(s)) =~= ascii_uppercase(s));
}

} // verus!
