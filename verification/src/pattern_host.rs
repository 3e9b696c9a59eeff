//! Where the host stands in the text of a URL pattern, and whether its brackets pair.
//!
//! The `urlpattern` crate counts the brackets around an IPv6 address in the host of a pattern, and
//! its count must not fall below zero. What is a bracket of the host is seen from the marks of the
//! grammar alone: escapes, groups in braces, names behind a colon and regular expressions in
//! parentheses. A text without a closing bracket is never a danger, and neither is a closing
//! bracket before or behind the host.

use vstd::prelude::*;

use crate::text::chars_of;

verus! {

/// A mark of the grammar of patterns.
#[derive(Debug, Clone, Copy, PartialEq, Eq, Structural)]
pub enum Mark {
    /// A character that stands for itself, escaped or not.
    Plain(char),
    /// The beginning of a group.
    Open,
    /// The end of a group.
    Close,
    /// A question mark that is not escaped.
    Question,
    /// An asterisk, a name or a regular expression: a question mark behind it makes it optional.
    Matcher,
    /// A colon that may begin a name: that depends on a letter beyond ASCII.
    Unclear,
    /// A plus sign.
    Plus,
}

pub open spec fn is_ascii(c: char) -> bool {
    c <= '\x7f'
}

/// Whether a name can begin with a character of ASCII.
pub open spec fn starts_name(c: char) -> bool {
    ('a' <= c && c <= 'z') || ('A' <= c && c <= 'Z') || c == '_' || c == '$'
}

/// Whether a name can go on with a character of ASCII.
pub open spec fn continues_name(c: char) -> bool {
    starts_name(c) || ('0' <= c && c <= '9')
}

/// Where the characters of ASCII end with which a name goes on.
pub open spec fn name_end(t: Seq<char>, i: int) -> int
    decreases t.len() - i,
{
    if 0 <= i < t.len() && continues_name(t[i]) {
        name_end(t, i + 1)
    } else {
        i
    }
}

/// Where a regular expression ends that begins at `from`, behind its closing parenthesis: it is of
/// ASCII, not empty, does not begin with a question mark, and what is nested in it does. `depth`
/// parentheses are open at `i`.
pub open spec fn regexp_end(t: Seq<char>, from: int, i: int, depth: int) -> Option<int>
    decreases t.len() - i,
{
    if i < 0 || i >= t.len() || !is_ascii(t[i]) || (i == from && t[i] == '?') {
        None
    } else if t[i] == '\\' {
        if i + 1 < t.len() && is_ascii(t[i + 1]) {
            regexp_end(t, from, i + 2, depth)
        } else {
            None
        }
    } else if t[i] == ')' {
        if depth > 1 {
            regexp_end(t, from, i + 1, depth - 1)
        } else if i == from {
            None
        } else {
            Some(i + 1)
        }
    } else if t[i] == '(' {
        if i + 1 < t.len() && t[i + 1] == '?' {
            regexp_end(t, from, i + 1, depth + 1)
        } else {
            None
        }
    } else {
        regexp_end(t, from, i + 1, depth)
    }
}

/// The mark at `i`, and where the next one begins. Tabs and line breaks are no marks.
pub open spec fn mark_at(t: Seq<char>, i: int) -> (Option<Mark>, int) {
    let c = t[i];
    if c == '\t' || c == '\n' || c == '\r' {
        (None, i + 1)
    } else if c == '*' {
        (Some(Mark::Matcher), i + 1)
    } else if c == '?' {
        (Some(Mark::Question), i + 1)
    } else if c == '+' {
        (Some(Mark::Plus), i + 1)
    } else if c == '{' {
        (Some(Mark::Open), i + 1)
    } else if c == '}' {
        (Some(Mark::Close), i + 1)
    } else if c == '\\' && i + 1 < t.len() {
        (Some(Mark::Plain(t[i + 1])), i + 2)
    } else if c == ':' && i + 1 < t.len() && !is_ascii(t[i + 1]) {
        (Some(Mark::Unclear), i + 1)
    } else if c == ':' && i + 1 < t.len() && starts_name(t[i + 1]) {
        let end = name_end(t, i + 1);
        if end < t.len() && !is_ascii(t[end]) {
            (Some(Mark::Unclear), i + 1)
        } else {
            (Some(Mark::Matcher), end)
        }
    } else if c == '(' {
        match regexp_end(t, i + 1, i + 1, 1) {
            Some(end) => (Some(Mark::Matcher), end),
            None => (Some(Mark::Plain('(')), i + 1),
        }
    } else {
        (Some(Mark::Plain(c)), i + 1)
    }
}

/// A name ends no earlier than it begins.
proof fn name_goes_on(t: Seq<char>, i: int)
    ensures
        i <= name_end(t, i),
        i <= t.len() ==> name_end(t, i) <= t.len(),
    decreases t.len() - i,
{
    if 0 <= i < t.len() && continues_name(t[i]) {
        name_goes_on(t, i + 1);
    }
}

/// A regular expression ends behind where it begins.
proof fn regexp_goes_on(t: Seq<char>, from: int, i: int, depth: int)
    ensures
        regexp_end(t, from, i, depth) matches Some(end) ==> i < end <= t.len(),
    decreases t.len() - i,
{
    if 0 <= i < t.len() {
        if i + 1 < t.len() {
            regexp_goes_on(t, from, i + 2, depth);
        }
        regexp_goes_on(t, from, i + 1, depth - 1);
        regexp_goes_on(t, from, i + 1, depth + 1);
        regexp_goes_on(t, from, i + 1, depth);
    }
}

/// The next mark begins behind a mark.
proof fn marks_go_on(t: Seq<char>, i: int)
    requires
        0 <= i < t.len(),
    ensures
        i < mark_at(t, i).1 <= t.len(),
{
    name_goes_on(t, i + 1);
    if i + 1 < t.len() && starts_name(t[i + 1]) {
        name_goes_on(t, i + 2);
    }
    regexp_goes_on(t, i + 1, i + 1, 1);
}

/// The marks from `i` on.
pub open spec fn marks_from(t: Seq<char>, i: int) -> Seq<Mark>
    decreases t.len() - i,
    via marks_run_out
{
    if i < 0 || i >= t.len() {
        Seq::empty()
    } else {
        let (mark, next) = mark_at(t, i);
        match mark {
            Some(m) => seq![m] + marks_from(t, next),
            None => marks_from(t, next),
        }
    }
}

#[via_fn]
proof fn marks_run_out(t: Seq<char>, i: int) {
    if 0 <= i < t.len() {
        marks_go_on(t, i);
    }
}

/// Whether a query begins at `i`.
pub open spec fn begins_query(m: Seq<Mark>, i: int) -> bool {
    m[i] is Question && (i == 0 || !(m[i - 1] is Matcher || m[i - 1] is Close))
}

/// Whether the path, the query or the fragment begins at `i`.
pub open spec fn ends_host(m: Seq<Mark>, i: int) -> bool {
    m[i] == Mark::Plain('/') || m[i] == Mark::Plain('#') || m[i] == Mark::Plain('?')
        || begins_query(m, i)
}

/// Whether no closing bracket of the host from `i` on comes without its opening one; `brackets`
/// are open there. What stands in a group is passed over, and `groups` are open. The host ends
/// where the port, the path, the query or the fragment begins.
pub open spec fn host_pairs(m: Seq<Mark>, i: int, groups: nat, brackets: nat) -> bool
    decreases m.len() - i,
{
    if i < 0 || i >= m.len() {
        true
    } else if m[i] is Open {
        host_pairs(m, i + 1, groups + 1, brackets)
    } else if groups > 0 {
        host_pairs(
            m,
            i + 1,
            if m[i] is Close {
                (groups - 1) as nat
            } else {
                groups
            },
            brackets,
        )
    } else if m[i] is Unclear {
        false
    } else if m[i] == Mark::Plain('[') {
        host_pairs(m, i + 1, groups, brackets + 1)
    } else if m[i] == Mark::Plain(']') {
        brackets > 0 && host_pairs(m, i + 1, groups, (brackets - 1) as nat)
    } else if (m[i] == Mark::Plain(':') && brackets == 0) || ends_host(m, i) {
        true
    } else {
        host_pairs(m, i + 1, groups, brackets)
    }
}

/// The same of what stands behind the scheme, which begins at `start` and was seen up to `i`: the
/// host begins behind an `@` where there is one before the path, the query and the fragment.
pub open spec fn authority_pairs(m: Seq<Mark>, start: int, i: int, groups: nat) -> bool
    decreases m.len() - i,
{
    if i < 0 || i >= m.len() {
        groups == 0 && host_pairs(m, start, 0, 0)
    } else if m[i] is Open {
        authority_pairs(m, start, i + 1, groups + 1)
    } else if groups > 0 {
        authority_pairs(
            m,
            start,
            i + 1,
            if m[i] is Close {
                (groups - 1) as nat
            } else {
                groups
            },
        )
    } else if m[i] is Unclear {
        false
    } else if m[i] == Mark::Plain('@') {
        host_pairs(m, i + 1, 0, 0)
    } else if ends_host(m, i) {
        host_pairs(m, start, 0, 0)
    } else {
        authority_pairs(m, start, i + 1, groups)
    }
}

/// Whether a character is a small letter or a digit.
pub open spec fn is_small(m: Mark) -> bool {
    m matches Mark::Plain(c) && (('a' <= c && c <= 'z') || ('0' <= c && c <= '9'))
}

/// The first `n` marks, for a word of `n` letters.
pub open spec fn is_word(m: Seq<Mark>, n: int, word: Seq<char>) -> bool {
    n == word.len() && forall|j: int| 0 <= j < n ==> #[trigger] m[j] == Mark::Plain(word[j])
}

/// Whether the first `n` marks are a scheme whose URLs need no host.
pub open spec fn is_other_scheme(m: Seq<Mark>, n: int) -> bool {
    &&& n > 0
    &&& forall|j: int| 0 <= j < n ==> is_small(#[trigger] m[j])
    &&& !is_word(m, n, "ftp"@)
    &&& !is_word(m, n, "file"@)
    &&& !is_word(m, n, "http"@)
    &&& !is_word(m, n, "https"@)
    &&& !is_word(m, n, "ws"@)
    &&& !is_word(m, n, "wss"@)
}

/// Whether two slashes stand at `i`.
pub open spec fn slashes_at(m: Seq<Mark>, i: int) -> bool {
    i + 1 < m.len() && m[i] == Mark::Plain('/') && m[i + 1] == Mark::Plain('/')
}

/// The same of a text whose marks were seen up to `i`. A scheme ends with the first colon that
/// begins no name. Behind it there is a host where two slashes follow, and there may be one where
/// the scheme is not known to need none.
pub open spec fn text_pairs(m: Seq<Mark>, i: int, groups: nat) -> bool
    decreases m.len() - i,
{
    if i < 0 || i >= m.len() {
        true
    } else if m[i] is Open {
        text_pairs(m, i + 1, groups + 1)
    } else if groups > 0 {
        text_pairs(
            m,
            i + 1,
            if m[i] is Close {
                (groups - 1) as nat
            } else {
                groups
            },
        )
    } else if m[i] is Unclear {
        false
    } else if m[i] == Mark::Plain(':') {
        if slashes_at(m, i + 1) {
            authority_pairs(m, i + 3, i + 3, 0)
        } else {
            is_other_scheme(m, i) || authority_pairs(m, i + 1, i + 1, 0)
        }
    } else {
        text_pairs(m, i + 1, groups)
    }
}

/// Whether no closing bracket in the host of a pattern comes without its opening one.
pub open spec fn host_brackets_pair(t: Seq<char>) -> bool {
    !t.contains(']') || text_pairs(marks_from(t, 0), 0, 0)
}

/// Where the characters of ASCII end with which a name goes on.
fn find_name_end(t: &Vec<char>, from: usize) -> (r: usize)
    requires
        from <= t.len(),
    ensures
        r == name_end(t@, from as int),
        from <= r <= t.len(),
{
    let mut i: usize = from;
    while i < t.len() && (('a' <= t[i] && t[i] <= 'z') || ('A' <= t[i] && t[i] <= 'Z') || t[i] == '_'
        || t[i] == '$' || ('0' <= t[i] && t[i] <= '9'))
        invariant
            from <= i <= t.len(),
            name_end(t@, i as int) == name_end(t@, from as int),
        decreases t.len() - i,
    {
        i = i + 1;
    }
    i
}

/// Where a regular expression ends that begins at `from`.
fn find_regexp_end(t: &Vec<char>, from: usize) -> (r: Option<usize>)
    requires
        1 <= from <= t.len(),
    ensures
        match r {
            Some(end) => regexp_end(t@, from as int, from as int, 1) == Some(end as int),
            None => regexp_end(t@, from as int, from as int, 1) is None,
        },
{
    let mut i: usize = from;
    let mut depth: usize = 1;
    while i < t.len()
        invariant
            1 <= from <= i <= t.len(),
            1 <= depth <= 1 + (i - from),
            regexp_end(t@, from as int, i as int, depth as int) == regexp_end(
                t@,
                from as int,
                from as int,
                1,
            ),
        decreases t.len() - i,
    {
        let c = t[i];
        if c > '\x7f' || (i == from && c == '?') {
            return None;
        }
        if c == '\\' {
            if i + 1 >= t.len() || t[i + 1] > '\x7f' {
                return None;
            }
            i = i + 2;
        } else if c == ')' {
            if depth == 1 {
                return if i == from {
                    None
                } else {
                    Some(i + 1)
                };
            }
            depth = depth - 1;
            i = i + 1;
        } else if c == '(' {
            if i + 1 >= t.len() || t[i + 1] != '?' {
                return None;
            }
            depth = depth + 1;
            i = i + 1;
        } else {
            i = i + 1;
        }
    }
    None
}

/// The mark at `i`, and where the next one begins.
fn read_mark(t: &Vec<char>, i: usize) -> (r: (Option<Mark>, usize))
    requires
        i < t.len(),
    ensures
        (r.0, r.1 as int) == mark_at(t@, i as int),
        i < r.1 <= t.len(),
{
    proof {
        marks_go_on(t@, i as int);
    }
    let c = t[i];
    if c == '\t' || c == '\n' || c == '\r' {
        (None, i + 1)
    } else if c == '*' {
        (Some(Mark::Matcher), i + 1)
    } else if c == '?' {
        (Some(Mark::Question), i + 1)
    } else if c == '+' {
        (Some(Mark::Plus), i + 1)
    } else if c == '{' {
        (Some(Mark::Open), i + 1)
    } else if c == '}' {
        (Some(Mark::Close), i + 1)
    } else if c == '\\' && i + 1 < t.len() {
        (Some(Mark::Plain(t[i + 1])), i + 2)
    } else if c == ':' && i + 1 < t.len() && t[i + 1] > '\x7f' {
        (Some(Mark::Unclear), i + 1)
    } else if c == ':' && i + 1 < t.len() && (('a' <= t[i + 1] && t[i + 1] <= 'z') || ('A' <= t[i
        + 1] && t[i + 1] <= 'Z') || t[i + 1] == '_' || t[i + 1] == '$') {
        let end: usize = find_name_end(t, i + 1);
        if end < t.len() && t[end] > '\x7f' {
            (Some(Mark::Unclear), i + 1)
        } else {
            (Some(Mark::Matcher), end)
        }
    } else if c == '(' {
        match find_regexp_end(t, i + 1) {
            Some(end) => (Some(Mark::Matcher), end),
            None => (Some(Mark::Plain('(')), i + 1),
        }
    } else {
        (Some(Mark::Plain(c)), i + 1)
    }
}

/// The marks of a text.
fn read_marks(t: &Vec<char>) -> (r: Vec<Mark>)
    ensures
        r@ == marks_from(t@, 0),
{
    let mut out: Vec<Mark> = Vec::new();
    let mut i: usize = 0;
    assert(out@ + marks_from(t@, 0) =~= marks_from(t@, 0));
    while i < t.len()
        invariant
            i <= t.len(),
            out@ + marks_from(t@, i as int) == marks_from(t@, 0),
        decreases t.len() - i,
    {
        let (mark, next) = read_mark(t, i);
        let ghost before = out@;
        if let Some(m) = mark {
            out.push(m);
            assert(before.push(m) + marks_from(t@, next as int) =~= before + (seq![m] + marks_from(
                t@,
                next as int,
            )));
        }
        i = next;
    }
    assert(out@ + marks_from(t@, i as int) =~= out@);
    out
}

/// Whether the path, the query or the fragment begins at `i`.
fn host_ends(m: &Vec<Mark>, i: usize) -> (r: bool)
    requires
        i < m.len(),
    ensures
        r == ends_host(m@, i as int),
{
    match m[i] {
        Mark::Plain(c) => c == '/' || c == '#' || c == '?',
        Mark::Question => i == 0 || !matches!(m[i - 1], Mark::Matcher | Mark::Close),
        _ => false,
    }
}

/// Whether no closing bracket of the host from `start` on comes without its opening one.
fn check_host(m: &Vec<Mark>, start: usize) -> (r: bool)
    requires
        start <= m.len(),
    ensures
        r == host_pairs(m@, start as int, 0, 0),
{
    let mut i: usize = start;
    let mut groups: usize = 0;
    let mut brackets: usize = 0;
    while i < m.len()
        invariant
            start <= i <= m.len(),
            groups <= i - start,
            brackets <= i - start,
            host_pairs(m@, i as int, groups as nat, brackets as nat) == host_pairs(
                m@,
                start as int,
                0,
                0,
            ),
        decreases m.len() - i,
    {
        match m[i] {
            Mark::Open => {
                groups = groups + 1;
            },
            mark => if groups > 0 {
                if mark == Mark::Close {
                    groups = groups - 1;
                }
            } else if mark == Mark::Unclear {
                return false;
            } else if mark == Mark::Plain('[') {
                brackets = brackets + 1;
            } else if mark == Mark::Plain(']') {
                if brackets == 0 {
                    return false;
                }
                brackets = brackets - 1;
            } else if (mark == Mark::Plain(':') && brackets == 0) || host_ends(m, i) {
                return true;
            },
        }
        i = i + 1;
    }
    true
}

/// The same of what stands behind the scheme.
fn check_authority(m: &Vec<Mark>, start: usize) -> (r: bool)
    requires
        start <= m.len(),
    ensures
        r == authority_pairs(m@, start as int, start as int, 0),
{
    let mut i: usize = start;
    let mut groups: usize = 0;
    while i < m.len()
        invariant
            start <= i <= m.len(),
            groups <= i - start,
            authority_pairs(m@, start as int, i as int, groups as nat) == authority_pairs(
                m@,
                start as int,
                start as int,
                0,
            ),
        decreases m.len() - i,
    {
        match m[i] {
            Mark::Open => {
                groups = groups + 1;
            },
            mark => if groups > 0 {
                if mark == Mark::Close {
                    groups = groups - 1;
                }
            } else if mark == Mark::Unclear {
                return false;
            } else if mark == Mark::Plain('@') {
                return check_host(m, i + 1);
            } else if host_ends(m, i) {
                return check_host(m, start);
            },
        }
        i = i + 1;
    }
    groups == 0 && check_host(m, start)
}

/// Whether the first `n` marks are a word.
fn check_word(m: &Vec<Mark>, n: usize, word: &str) -> (r: bool)
    requires
        n <= m.len(),
    ensures
        r == is_word(m@, n as int, word@),
{
    let w = chars_of(word);
    if n != w.len() {
        return false;
    }
    let mut j: usize = 0;
    while j < n
        invariant
            j <= n <= m.len(),
            n == w.len(),
            w@ == word@,
            forall|k: int| 0 <= k < j ==> #[trigger] m@[k] == Mark::Plain(word@[k]),
        decreases n - j,
    {
        if m[j] != Mark::Plain(w[j]) {
            assert(m@[j as int] != Mark::Plain(word@[j as int]));
            return false;
        }
        j = j + 1;
    }
    true
}

/// Whether the first `n` marks are a scheme whose URLs need no host.
fn check_other_scheme(m: &Vec<Mark>, n: usize) -> (r: bool)
    requires
        n <= m.len(),
    ensures
        r == is_other_scheme(m@, n as int),
{
    if n == 0 {
        return false;
    }
    let mut j: usize = 0;
    while j < n
        invariant
            j <= n <= m.len(),
            forall|k: int| 0 <= k < j ==> is_small(#[trigger] m@[k]),
        decreases n - j,
    {
        let small = match m[j] {
            Mark::Plain(c) => ('a' <= c && c <= 'z') || ('0' <= c && c <= '9'),
            _ => false,
        };
        if !small {
            assert(!is_small(m@[j as int]));
            return false;
        }
        j = j + 1;
    }
    !check_word(m, n, "ftp") && !check_word(m, n, "file") && !check_word(m, n, "http")
        && !check_word(m, n, "https") && !check_word(m, n, "ws") && !check_word(m, n, "wss")
}

/// The same of a text from its beginning.
fn check_text(m: &Vec<Mark>) -> (r: bool)
    ensures
        r == text_pairs(m@, 0, 0),
{
    let mut i: usize = 0;
    let mut groups: usize = 0;
    while i < m.len()
        invariant
            i <= m.len(),
            groups <= i,
            text_pairs(m@, i as int, groups as nat) == text_pairs(m@, 0, 0),
        decreases m.len() - i,
    {
        match m[i] {
            Mark::Open => {
                groups = groups + 1;
            },
            mark => if groups > 0 {
                if mark == Mark::Close {
                    groups = groups - 1;
                }
            } else if mark == Mark::Unclear {
                return false;
            } else if mark == Mark::Plain(':') {
                if m.len() - i > 2 && m[i + 1] == Mark::Plain('/') && m[i + 2] == Mark::Plain('/') {
                    return check_authority(m, i + 3);
                }
                return check_other_scheme(m, i) || check_authority(m, i + 1);
            },
        }
        i = i + 1;
    }
    true
}

/// Whether a character occurs in a text.
fn occurs(t: &Vec<char>, c: char) -> (r: bool)
    ensures
        r == t@.contains(c),
{
    let mut i: usize = 0;
    while i < t.len()
        invariant
            i <= t.len(),
            forall|j: int| 0 <= j < i ==> t@[j] != c,
        decreases t.len() - i,
    {
        if t[i] == c {
            return true;
        }
        i = i + 1;
    }
    false
}

/// Whether no closing bracket in the host of a pattern comes without its opening one. A text with
/// a closing bracket counts as one where some does if that depends on whether a letter beyond
/// ASCII belongs to a name, or if a group before the end of the host is not closed.
pub fn brackets_pair(text: &str) -> (r: bool)
    ensures
        r == host_brackets_pair(text@),
{
    let t = chars_of(text);
    !occurs(&t, ']') || check_text(&read_marks(&t))
}

/// Whether a character is none of those with which the marks of the grammar begin.
spec fn is_plain(c: char) -> bool {
    c != '\t' && c != '\n' && c != '\r' && c != '*' && c != '?' && c != '+' && c != '{' && c != '}'
        && c != '\\' && c != ':' && c != '('
}

/// Plain characters are marks of their own.
proof fn plain_text_is_its_marks(t: Seq<char>, i: int, n: int)
    requires
        0 <= i <= n <= t.len(),
        forall|j: int| i <= j < n ==> is_plain(#[trigger] t[j]),
    ensures
        marks_from(t, i).len() == n - i + marks_from(t, n).len(),
        forall|j: int| 0 <= j < n - i ==> #[trigger] marks_from(t, i)[j] == Mark::Plain(t[i + j]),
        marks_from(t, i).skip(n - i) == marks_from(t, n),
    decreases n - i,
{
    let m = marks_from(t, i);
    if i < n {
        plain_text_is_its_marks(t, i + 1, n);
        assert(is_plain(t[i]));
        let rest = marks_from(t, i + 1);
        assert(m == seq![Mark::Plain(t[i])] + rest);
        assert forall|j: int| 0 <= j < n - i implies #[trigger] m[j] == Mark::Plain(t[i + j]) by {
            if j > 0 {
                assert(rest[j - 1] == Mark::Plain(t[i + 1 + (j - 1)]));
            }
        }
        assert(m.skip(n - i) =~= rest.skip(n - i - 1));
    } else {
        assert(m.skip(0) =~= m);
    }
}

/// How many more opening than closing brackets are among the first `n` characters.
spec fn balance(h: Seq<char>, n: int) -> int {
    h.take(n).filter(|c: char| c == '[').len() - h.take(n).filter(|c: char| c == ']').len()
}

/// One more character changes the balance by what it is.
proof fn balance_goes_on(h: Seq<char>, n: int)
    requires
        0 <= n < h.len(),
    ensures
        balance(h, 0) == 0,
        balance(h, n + 1) == balance(h, n) + (if h[n] == '[' {
            1int
        } else if h[n] == ']' {
            -1
        } else {
            0
        }),
{
    reveal(Seq::filter);
    assert(h.take(n + 1).drop_last() =~= h.take(n));
    assert(h.take(0) =~= Seq::empty());
}

/// Whether a character can stand in a host and ends none.
spec fn is_host_char(c: char) -> bool {
    is_plain(c) && c != '/' && c != '#' && c != '@'
}

/// The host is seen up to its end, bracket by bracket.
proof fn host_is_seen(m: Seq<Mark>, start: int, h: Seq<char>, n: int)
    requires
        0 <= start,
        start + h.len() <= m.len(),
        0 <= n <= h.len(),
        forall|j: int| 0 <= j < h.len() ==> #[trigger] m[start + j] == Mark::Plain(h[j]),
        forall|j: int| 0 <= j < h.len() ==> is_host_char(#[trigger] h[j]),
        start + h.len() < m.len() ==> m[start + h.len()] == Mark::Plain('/'),
        balance(h, n) >= 0,
    ensures
        host_pairs(m, start + n, 0, balance(h, n) as nat) <==> forall|k: int|
            n <= k <= h.len() ==> #[trigger] balance(h, k) >= 0,
    decreases h.len() - n,
{
    if n < h.len() {
        balance_goes_on(h, n);
        assert(m[start + n] == Mark::Plain(h[n]));
        assert(is_host_char(h[n]));
        if balance(h, n + 1) >= 0 {
            host_is_seen(m, start, h, n + 1);
            assert((forall|k: int| n <= k <= h.len() ==> #[trigger] balance(h, k) >= 0) <==> (forall|
                k: int,
            | n + 1 <= k <= h.len() ==> #[trigger] balance(h, k) >= 0));
            assert(start + n + 1 == start + (n + 1));
        }
    }
}

/// What stands between the scheme and the path has no other marks.
proof fn authority_is_seen(m: Seq<Mark>, start: int, h: Seq<char>, n: int)
    requires
        0 <= start,
        start + h.len() <= m.len(),
        0 <= n <= h.len(),
        forall|j: int| 0 <= j < h.len() ==> #[trigger] m[start + j] == Mark::Plain(h[j]),
        forall|j: int| 0 <= j < h.len() ==> is_host_char(#[trigger] h[j]),
        start + h.len() < m.len() ==> m[start + h.len()] == Mark::Plain('/'),
    ensures
        authority_pairs(m, start, start + n, 0) == host_pairs(m, start, 0, 0),
    decreases h.len() - n,
{
    if n < h.len() {
        assert(m[start + n] == Mark::Plain(h[n]));
        assert(is_host_char(h[n]));
        authority_is_seen(m, start, h, n + 1);
        assert(start + n + 1 == start + (n + 1));
    }
}

/// A user name and a password stand before an `@`, and the host behind it.
proof fn user_is_passed_over(m: Seq<Mark>, start: int, user: Seq<char>, n: int)
    requires
        0 <= start,
        start + user.len() < m.len(),
        0 <= n <= user.len(),
        forall|j: int| 0 <= j < user.len() ==> #[trigger] m[start + j] == Mark::Plain(user[j]),
        forall|j: int| 0 <= j < user.len() ==> is_host_char(#[trigger] user[j]),
        m[start + user.len()] == Mark::Plain('@'),
    ensures
        authority_pairs(m, start, start + n, 0) == host_pairs(m, start + user.len() + 1, 0, 0),
    decreases user.len() - n,
{
    if n < user.len() {
        assert(m[start + n] == Mark::Plain(user[n]));
        assert(is_host_char(user[n]));
        user_is_passed_over(m, start, user, n + 1);
        assert(start + n + 1 == start + (n + 1));
    }
}

/// The scheme has no other marks than its characters.
proof fn scheme_is_seen(m: Seq<Mark>, end: int, i: int)
    requires
        0 <= i <= end < m.len(),
        forall|j: int|
            0 <= j < end ==> (#[trigger] m[j]) is Plain && m[j] != Mark::Plain(':'),
        m[end] == Mark::Plain(':'),
    ensures
        text_pairs(m, i, 0) == text_pairs(m, end, 0),
    decreases end - i,
{
    if i < end {
        assert(m[i] is Plain);
        scheme_is_seen(m, end, i + 1);
    }
}

/// The marks of a text with a scheme, two slashes, and what stands before the path.
proof fn url_text_is_its_marks(scheme: Seq<char>, authority: Seq<char>, path: Seq<char>)
    requires
        forall|j: int| 0 <= j < scheme.len() ==> is_plain(#[trigger] scheme[j]),
        forall|j: int| 0 <= j < authority.len() ==> is_plain(#[trigger] authority[j]),
        path.len() > 0 ==> path[0] == '/',
    ensures
        ({
            let head = scheme + seq![':', '/', '/'] + authority;
            let m = marks_from(head + path, 0);
            &&& m.len() >= head.len()
            &&& forall|j: int| 0 <= j < head.len() ==> #[trigger] m[j] == Mark::Plain(head[j])
            &&& m.len() > head.len() ==> m[head.len() as int] == Mark::Plain('/')
        }),
{
    let head = scheme + seq![':', '/', '/'] + authority;
    let t = head + path;
    let m = marks_from(t, 0);
    let a = scheme.len() as int;
    let e = head.len() as int;
    assert forall|j: int| 0 <= j < a implies is_plain(#[trigger] t[j]) by {
        assert(t[j] == scheme[j]);
    }
    plain_text_is_its_marks(t, 0, a);
    assert(t[a] == ':' && t[a + 1] == '/' && t[a + 2] == '/');
    assert forall|j: int| a + 1 <= j < e implies is_plain(#[trigger] t[j]) by {
        if j >= a + 3 {
            assert(t[j] == authority[j - a - 3]);
        }
    }
    plain_text_is_its_marks(t, a + 1, e);
    let behind = marks_from(t, a + 1);
    let last = marks_from(t, e);
    assert(marks_from(t, a) == seq![Mark::Plain(':')] + behind);
    assert(m.skip(a)[0] == Mark::Plain(':') && m[a] == Mark::Plain(':'));
    assert forall|j: int| 0 <= j < e implies #[trigger] m[j] == Mark::Plain(head[j]) by {
        if j > a {
            assert(m.skip(a)[j - a] == behind[j - a - 1]);
            assert(behind[j - a - 1] == Mark::Plain(t[a + 1 + (j - a - 1)]));
        }
    }
    if m.len() > e {
        assert(last.len() > 0);
        assert(t[e] == '/');
        assert(last[0] == Mark::Plain('/'));
        assert(behind.skip(e - a - 1)[0] == last[0]);
        assert(m.skip(a)[e - a] == behind[e - a - 1]);
    }
}

/// What does not occur is not counted.
proof fn absent_is_not_counted(h: Seq<char>)
    requires
        !h.contains(']'),
    ensures
        h.filter(|c: char| c == ']').len() == 0,
    decreases h.len(),
{
    reveal(Seq::filter);
    if h.len() > 0 {
        let front = h.drop_last();
        assert(h[h.len() - 1] != ']');
        assert(!front.contains(']')) by {
            if front.contains(']') {
                let j = choose|j: int| 0 <= j < front.len() && front[j] == ']';
                assert(h[j] == ']');
            }
        }
        absent_is_not_counted(front);
    }
}

/// Whether the brackets of a host pair, read from its beginning.
spec fn pairs(h: Seq<char>) -> bool {
    forall|n: int|
        #![trigger h.take(n)]
        0 <= n <= h.len() ==> h.take(n).filter(|c: char| c == ']').len() <= h.take(n).filter(
            |c: char| c == '[',
        ).len()
}

/// A host without closing brackets pairs.
proof fn host_without_closing_brackets_pairs(h: Seq<char>)
    requires
        !h.contains(']'),
    ensures
        pairs(h),
{
    assert forall|n: int| #![trigger h.take(n)] 0 <= n <= h.len() implies h.take(n).filter(
        |c: char| c == ']',
    ).len() <= h.take(n).filter(|c: char| c == '[').len() by {
        assert(!h.take(n).contains(']')) by {
            if h.take(n).contains(']') {
                let j = choose|j: int| 0 <= j < n && h.take(n)[j] == ']';
                assert(h[j] == ']');
            }
        }
        absent_is_not_counted(h.take(n));
    }
}

/// The marks of the host decide.
proof fn host_marks_decide(m: Seq<Mark>, start: int, h: Seq<char>)
    requires
        0 <= start,
        start + h.len() <= m.len(),
        forall|j: int| 0 <= j < h.len() ==> #[trigger] m[start + j] == Mark::Plain(h[j]),
        forall|j: int| 0 <= j < h.len() ==> is_host_char(#[trigger] h[j]),
        start + h.len() < m.len() ==> m[start + h.len()] == Mark::Plain('/'),
    ensures
        host_pairs(m, start, 0, 0) <==> pairs(h),
{
    assert(balance(h, 0) == 0) by {
        reveal(Seq::filter);
        assert(h.take(0) =~= Seq::empty());
    }
    host_is_seen(m, start, h, 0);
    if pairs(h) {
        assert forall|k: int| 0 <= k <= h.len() implies #[trigger] balance(h, k) >= 0 by {
            assert(h.take(k).filter(|c: char| c == ']').len() <= h.take(k).filter(
                |c: char| c == '[',
            ).len());
        }
    }
    if forall|k: int| 0 <= k <= h.len() ==> #[trigger] balance(h, k) >= 0 {
        assert forall|n: int| #![trigger h.take(n)] 0 <= n <= h.len() implies h.take(n).filter(
            |c: char| c == ']',
        ).len() <= h.take(n).filter(|c: char| c == '[').len() by {
            assert(balance(h, n) >= 0);
        }
    }
}

/// A pattern with a host is accepted exactly where, read from its beginning, the host never has
/// more closing than opening brackets; what the path, the query and the fragment hold does not
/// count.
pub proof fn brackets_of_the_host_pair(scheme: Seq<char>, host: Seq<char>, path: Seq<char>)
    requires
        forall|j: int|
            0 <= j < scheme.len() ==> (#[trigger] scheme[j]) >= 'a' && scheme[j] <= 'z',
        forall|j: int|
            0 <= j < host.len() ==> ('a' <= #[trigger] host[j] && host[j] <= 'z') || ('0' <= host[j]
                && host[j] <= '9') || host[j] == '.' || host[j] == '-' || host[j] == '[' || host[j]
                == ']',
        path.len() > 0 ==> path[0] == '/',
    ensures
        host_brackets_pair(scheme + seq![':', '/', '/'] + host + path) <==> forall|n: int|
            #![trigger host.take(n)]
            0 <= n <= host.len() ==> host.take(n).filter(|c: char| c == ']').len() <= host.take(
                n,
            ).filter(|c: char| c == '[').len(),
{
    let t = scheme + seq![':', '/', '/'] + host + path;
    let a = scheme.len() as int;
    let start = a + 3;
    url_text_is_its_marks(scheme, host, path);
    let m = marks_from(t, 0);
    let head = scheme + seq![':', '/', '/'] + host;
    assert forall|j: int| 0 <= j < host.len() implies #[trigger] m[start + j] == Mark::Plain(
        host[j],
    ) by {
        assert(head[start + j] == host[j]);
    }
    assert(head[a] == ':' && head[a + 1] == '/' && head[a + 2] == '/');
    assert(m[a] == Mark::Plain(':') && slashes_at(m, a + 1));
    assert forall|j: int| 0 <= j < a implies (#[trigger] m[j]) is Plain && m[j] != Mark::Plain(
        ':',
    ) by {
        assert(head[j] == scheme[j]);
    }
    scheme_is_seen(m, a, 0);
    authority_is_seen(m, start, host, 0);
    host_marks_decide(m, start, host);
    assert(pairs(host) <==> forall|n: int|
        #![trigger host.take(n)]
        0 <= n <= host.len() ==> host.take(n).filter(|c: char| c == ']').len() <= host.take(
            n,
        ).filter(|c: char| c == '[').len());
    if !t.contains(']') {
        assert(!host.contains(']')) by {
            if host.contains(']') {
                let j = choose|j: int| 0 <= j < host.len() && host[j] == ']';
                assert(t[start + j] == ']');
            }
        }
        host_without_closing_brackets_pairs(host);
    }
}

/// Where a user stands before the host, the brackets of the host decide all the same, and those of
/// the user do not count.
pub proof fn brackets_of_the_user_do_not_count(
    scheme: Seq<char>,
    user: Seq<char>,
    host: Seq<char>,
    path: Seq<char>,
)
    requires
        forall|j: int|
            0 <= j < scheme.len() ==> (#[trigger] scheme[j]) >= 'a' && scheme[j] <= 'z',
        forall|j: int|
            0 <= j < user.len() ==> ('a' <= #[trigger] user[j] && user[j] <= 'z') || ('0' <= user[j]
                && user[j] <= '9') || user[j] == '[' || user[j] == ']',
        forall|j: int|
            0 <= j < host.len() ==> ('a' <= #[trigger] host[j] && host[j] <= 'z') || ('0' <= host[j]
                && host[j] <= '9') || host[j] == '.' || host[j] == '-' || host[j] == '[' || host[j]
                == ']',
        path.len() > 0 ==> path[0] == '/',
    ensures
        host_brackets_pair(scheme + seq![':', '/', '/'] + (user + seq!['@'] + host) + path)
            <==> forall|n: int|
            #![trigger host.take(n)]
            0 <= n <= host.len() ==> host.take(n).filter(|c: char| c == ']').len() <= host.take(
                n,
            ).filter(|c: char| c == '[').len(),
{
    let authority = user + seq!['@'] + host;
    let t = scheme + seq![':', '/', '/'] + authority + path;
    let a = scheme.len() as int;
    let start = a + 3;
    let begin = start + user.len() + 1;
    assert forall|j: int| 0 <= j < authority.len() implies is_plain(#[trigger] authority[j]) by {
        if j < user.len() {
            assert(authority[j] == user[j]);
        } else if j > user.len() {
            assert(authority[j] == host[j - user.len() - 1]);
        }
    }
    url_text_is_its_marks(scheme, authority, path);
    let m = marks_from(t, 0);
    let head = scheme + seq![':', '/', '/'] + authority;
    assert forall|j: int| 0 <= j < user.len() implies #[trigger] m[start + j] == Mark::Plain(
        user[j],
    ) by {
        assert(head[start + j] == authority[j]);
    }
    assert forall|j: int| 0 <= j < host.len() implies #[trigger] m[begin + j] == Mark::Plain(
        host[j],
    ) by {
        assert(head[begin + j] == authority[user.len() + 1 + j]);
    }
    assert(authority[user.len() as int] == '@' && head[start + user.len()] == '@');
    assert(head[a] == ':' && head[a + 1] == '/' && head[a + 2] == '/');
    assert(m[a] == Mark::Plain(':') && slashes_at(m, a + 1));
    assert forall|j: int| 0 <= j < a implies (#[trigger] m[j]) is Plain && m[j] != Mark::Plain(
        ':',
    ) by {
        assert(head[j] == scheme[j]);
    }
    scheme_is_seen(m, a, 0);
    user_is_passed_over(m, start, user, 0);
    host_marks_decide(m, begin, host);
    assert(pairs(host) <==> forall|n: int|
        #![trigger host.take(n)]
        0 <= n <= host.len() ==> host.take(n).filter(|c: char| c == ']').len() <= host.take(
            n,
        ).filter(|c: char| c == '[').len());
    if !t.contains(']') {
        assert(!host.contains(']')) by {
            if host.contains(']') {
                let j = choose|j: int| 0 <= j < host.len() && host[j] == ']';
                assert(authority[user.len() + 1 + j] == ']');
                assert(t[begin + j] == ']');
            }
        }
        host_without_closing_brackets_pairs(host);
    }
}

/// A scheme whose URLs need no host is no word of another.
proof fn scheme_is_no_word(m: Seq<Mark>, scheme: Seq<char>, word: Seq<char>)
    requires
        scheme.len() <= m.len(),
        forall|j: int| 0 <= j < scheme.len() ==> #[trigger] m[j] == Mark::Plain(scheme[j]),
        scheme != word,
    ensures
        !is_word(m, scheme.len() as int, word),
{
    if is_word(m, scheme.len() as int, word) {
        assert forall|j: int| 0 <= j < scheme.len() implies scheme[j] == word[j] by {
            assert(m[j] == Mark::Plain(scheme[j]));
        }
        assert(scheme =~= word);
    }
}

/// Brackets behind the colon of a scheme that needs no host do not count, for there is no host; it
/// needs one where two slashes follow, and `ftp`, `file`, `http`, `https`, `ws` and `wss` do.
pub proof fn schemes_without_a_host_are_accepted(scheme: Seq<char>, rest: Seq<char>)
    requires
        scheme.len() > 0,
        forall|j: int|
            0 <= j < scheme.len() ==> (#[trigger] scheme[j]) >= 'a' && scheme[j] <= 'z',
        scheme != "ftp"@ && scheme != "file"@ && scheme != "http"@ && scheme != "https"@ && scheme
            != "ws"@ && scheme != "wss"@,
        rest.len() > 0 ==> rest[0] == '[' || rest[0] == ']' || ('0' <= rest[0] && rest[0] <= '9'),
    ensures
        host_brackets_pair(scheme + seq![':'] + rest),
{
    let t = scheme + seq![':'] + rest;
    let a = scheme.len() as int;
    let m = marks_from(t, 0);
    assert forall|j: int| 0 <= j < a implies is_plain(#[trigger] t[j]) by {
        assert(t[j] == scheme[j]);
    }
    plain_text_is_its_marks(t, 0, a);
    let behind = marks_from(t, a + 1);
    assert(t[a] == ':');
    assert(rest.len() > 0 ==> t[a + 1] == rest[0]);
    assert(marks_from(t, a) == seq![Mark::Plain(':')] + behind);
    assert(m.skip(a)[0] == Mark::Plain(':') && m[a] == Mark::Plain(':'));
    assert forall|j: int| 0 <= j < a implies #[trigger] m[j] == Mark::Plain(scheme[j]) by {
        assert(m[j] == Mark::Plain(t[0 + j]));
    }
    if rest.len() > 0 {
        assert(behind == seq![Mark::Plain(rest[0])] + marks_from(t, a + 2));
        assert(marks_from(t, a)[1] == behind[0]);
        assert(m.skip(a)[1] == m[1 + a]);
    } else {
        assert(m.skip(a).len() == 1);
    }
    assert(!slashes_at(m, a + 1));
    scheme_is_no_word(m, scheme, "ftp"@);
    scheme_is_no_word(m, scheme, "file"@);
    scheme_is_no_word(m, scheme, "http"@);
    scheme_is_no_word(m, scheme, "https"@);
    scheme_is_no_word(m, scheme, "ws"@);
    scheme_is_no_word(m, scheme, "wss"@);
    assert forall|j: int| 0 <= j < a implies is_small(#[trigger] m[j]) by {
        assert(m[j] == Mark::Plain(scheme[j]));
    }
    scheme_is_seen(m, a, 0);
}

/// A text without a colon, and without other marks of the grammar, has no host.
pub proof fn texts_without_a_scheme_are_accepted(text: Seq<char>)
    requires
        forall|j: int|
            0 <= j < text.len() ==> ('a' <= #[trigger] text[j] && text[j] <= 'z') || ('0' <= text[j]
                && text[j] <= '9') || text[j] == '/' || text[j] == '[' || text[j] == ']',
    ensures
        host_brackets_pair(text),
{
    plain_text_is_its_marks(text, 0, text.len() as int);
    let m = marks_from(text, 0);
    assert forall|j: int| 0 <= j < m.len() implies (#[trigger] m[j]) is Plain && m[j]
        != Mark::Plain(':') by {
        assert(m[j] == Mark::Plain(text[0 + j]));
    }
    no_scheme_is_seen(m, 0);
}

/// Without a colon there is no scheme.
proof fn no_scheme_is_seen(m: Seq<Mark>, i: int)
    requires
        0 <= i <= m.len(),
        forall|j: int|
            0 <= j < m.len() ==> (#[trigger] m[j]) is Plain && m[j] != Mark::Plain(':'),
    ensures
        text_pairs(m, i, 0),
    decreases m.len() - i,
{
    if i < m.len() {
        assert(m[i] is Plain);
        no_scheme_is_seen(m, i + 1);
    }
}

} // verus!
