//! Character-level text helpers: whitespace trimming, ASCII case folding,
//! quote escaping, identifier sanitisation and lexicographic ordering.
//!
//! Every helper has an exact specification over `Seq<char>`, so contracts in
//! the rest of the crate can speak about the emitted SQL text precisely.

use vstd::prelude::*;

verus! {

/// The Unicode `White_Space` code points, as `char::is_whitespace` recognises
/// them.
pub open spec fn spec_is_ws(c: char) -> bool {
    c == ' ' || c == '\t' || c == '\n' || c == '\u{b}' || c == '\u{c}' || c == '\r'
        || c == '\u{85}' || c == '\u{a0}' || c == '\u{1680}'
        || ('\u{2000}' <= c && c <= '\u{200a}')
        || c == '\u{2028}' || c == '\u{2029}' || c == '\u{202f}' || c == '\u{205f}'
        || c == '\u{3000}'
}

pub fn is_ws(c: char) -> (r: bool)
    ensures
        r == spec_is_ws(c),
{
    c == ' ' || c == '\t' || c == '\n' || c == '\u{b}' || c == '\u{c}' || c == '\r'
        || c == '\u{85}' || c == '\u{a0}' || c == '\u{1680}'
        || ('\u{2000}' <= c && c <= '\u{200a}')
        || c == '\u{2028}' || c == '\u{2029}' || c == '\u{202f}' || c == '\u{205f}'
        || c == '\u{3000}'
}

pub open spec fn spec_is_ascii_alnum(c: char) -> bool {
    ('0' <= c && c <= '9') || ('A' <= c && c <= 'Z') || ('a' <= c && c <= 'z')
}

pub fn is_ascii_alnum(c: char) -> (r: bool)
    ensures
        r == spec_is_ascii_alnum(c),
{
    ('0' <= c && c <= '9') || ('A' <= c && c <= 'Z') || ('a' <= c && c <= 'z')
}

/// ASCII lower-casing of a single character; other characters are unchanged.
pub open spec fn spec_lower(c: char) -> char {
    if 'A' <= c && c <= 'Z' {
        (((c as u8) + 32) as char)
    } else {
        c
    }
}

pub fn lower_char(c: char) -> (r: char)
    ensures
        r == spec_lower(c),
{
    if 'A' <= c && c <= 'Z' {
        (((c as u8) + 32) as char)
    } else {
        c
    }
}

pub open spec fn spec_lower_seq(s: Seq<char>) -> Seq<char> {
    s.map(|i: int, c: char| spec_lower(c))
}

/// Case-insensitive ASCII equality of two character sequences.
pub open spec fn spec_eq_ignore_case(a: Seq<char>, b: Seq<char>) -> bool {
    spec_lower_seq(a) == spec_lower_seq(b)
}

/// Relies on `String::push`: appends exactly the given character.
#[verifier::external_body]
fn push_char(s: &mut String, c: char)
    ensures
        final(s)@ == old(s)@.push(c),
{
    s.push(c);
}

/// Collects the characters of a string slice into a vector.
pub fn to_chars(s: &str) -> (v: Vec<char>)
    ensures
        v@ == s@,
{
    let n = s.unicode_len();
    let mut v: Vec<char> = Vec::new();
    let mut i: usize = 0;
    while i < n
        invariant
            n == s@.len(),
            i <= n,
            v@ == s@.subrange(0, i as int),
        decreases n - i,
    {
        v.push(s.get_char(i));
        i += 1;
        proof {
            assert(v@ =~= s@.subrange(0, i as int));
        }
    }
    proof {
        assert(v@ =~= s@);
    }
    v
}

/// Builds a string from a vector of characters.
pub fn chars_string(v: &Vec<char>) -> (r: String)
    ensures
        r@ == v@,
{
    let mut r = String::new();
    let mut i: usize = 0;
    while i < v.len()
        invariant
            i <= v@.len(),
            r@ == v@.subrange(0, i as int),
        decreases v@.len() - i,
    {
        push_char(&mut r, v[i]);
        i += 1;
        proof {
            assert(r@ =~= v@.subrange(0, i as int));
        }
    }
    proof {
        assert(r@ =~= v@);
    }
    r
}

/// Exact string equality at the character level.
pub fn str_eq(a: &str, b: &str) -> (r: bool)
    ensures
        r == (a@ == b@),
{
    let na = a.unicode_len();
    let nb = b.unicode_len();
    if na != nb {
        return false;
    }
    let mut i: usize = 0;
    while i < na
        invariant
            na == a@.len(),
            na == b@.len(),
            i <= na,
            forall|j: int| 0 <= j < i ==> a@[j] == b@[j],
        decreases na - i,
    {
        if a.get_char(i) != b.get_char(i) {
            return false;
        }
        i += 1;
    }
    proof {
        assert(a@ =~= b@);
    }
    true
}

/// ASCII-case-insensitive string equality.
pub fn eq_ignore_case(a: &str, b: &str) -> (r: bool)
    ensures
        r == spec_eq_ignore_case(a@, b@),
{
    let na = a.unicode_len();
    let nb = b.unicode_len();
    if na != nb {
        proof {
            assert(spec_lower_seq(a@).len() != spec_lower_seq(b@).len());
        }
        return false;
    }
    let mut i: usize = 0;
    while i < na
        invariant
            na == a@.len(),
            na == b@.len(),
            i <= na,
            forall|j: int| 0 <= j < i ==> spec_lower(a@[j]) == spec_lower(b@[j]),
        decreases na - i,
    {
        if lower_char(a.get_char(i)) != lower_char(b.get_char(i)) {
            proof {
                assert(spec_lower_seq(a@)[i as int] != spec_lower_seq(b@)[i as int]);
            }
            return false;
        }
        i += 1;
    }
    proof {
        assert(spec_lower_seq(a@) =~= spec_lower_seq(b@));
    }
    true
}

/// ASCII lower-casing of a whole string.
pub fn lower_str(s: &str) -> (r: String)
    ensures
        r@ == spec_lower_seq(s@),
{
    let n = s.unicode_len();
    let mut r = String::new();
    let mut i: usize = 0;
    while i < n
        invariant
            n == s@.len(),
            i <= n,
            r@ == spec_lower_seq(s@).subrange(0, i as int),
        decreases n - i,
    {
        push_char(&mut r, lower_char(s.get_char(i)));
        i += 1;
        proof {
            assert(r@ =~= spec_lower_seq(s@).subrange(0, i as int));
        }
    }
    proof {
        assert(r@ =~= spec_lower_seq(s@));
    }
    r
}

pub open spec fn spec_trim_start(s: Seq<char>) -> Seq<char>
    decreases s.len(),
{
    if s.len() > 0 && spec_is_ws(s[0]) {
        spec_trim_start(s.drop_first())
    } else {
        s
    }
}

pub open spec fn spec_trim_end(s: Seq<char>) -> Seq<char>
    decreases s.len(),
{
    if s.len() > 0 && spec_is_ws(s.last()) {
        spec_trim_end(s.drop_last())
    } else {
        s
    }
}

/// What `str::trim` returns: the string without leading and trailing
/// whitespace.
pub open spec fn spec_trim(s: Seq<char>) -> Seq<char> {
    spec_trim_end(spec_trim_start(s))
}

proof fn lemma_trim_start_skip(s: Seq<char>, i: int)
    requires
        0 <= i <= s.len(),
        forall|j: int| 0 <= j < i ==> spec_is_ws(s[j]),
    ensures
        spec_trim_start(s) == spec_trim_start(s.subrange(i, s.len() as int)),
    decreases i,
{
    if i > 0 {
        assert(spec_is_ws(s[0]));
        assert(spec_trim_start(s) == spec_trim_start(s.drop_first()));
        lemma_trim_start_skip(s.drop_first(), i - 1);
        assert(s.drop_first().subrange(i - 1, s.drop_first().len() as int)
            =~= s.subrange(i, s.len() as int));
    } else {
        assert(s.subrange(0, s.len() as int) =~= s);
    }
}

proof fn lemma_trim_end_skip(s: Seq<char>, j: int)
    requires
        0 <= j <= s.len(),
        forall|k: int| j <= k < s.len() ==> spec_is_ws(s[k]),
    ensures
        spec_trim_end(s) == spec_trim_end(s.subrange(0, j)),
    decreases s.len() - j,
{
    if j < s.len() {
        assert(spec_is_ws(s.last()));
        assert(spec_trim_end(s) == spec_trim_end(s.drop_last()));
        lemma_trim_end_skip(s.drop_last(), j);
        assert(s.drop_last().subrange(0, j) =~= s.subrange(0, j));
    } else {
        assert(s.subrange(0, s.len() as int) =~= s);
    }
}

/// Trims whitespace from both ends of a character vector.
pub fn trim_chars(v: &Vec<char>) -> (r: Vec<char>)
    ensures
        r@ == spec_trim(v@),
{
    let n = v.len();
    let mut i: usize = 0;
    while i < n && is_ws(v[i])
        invariant
            n == v@.len(),
            i <= n,
            forall|j: int| 0 <= j < i ==> spec_is_ws(v@[j]),
        decreases n - i,
    {
        i += 1;
    }
    proof {
        lemma_trim_start_skip(v@, i as int);
    }
    let ghost mid = v@.subrange(i as int, n as int);
    proof {
        if i < n {
            assert(mid[0] == v@[i as int]);
            assert(spec_trim_start(mid) == mid);
        } else {
            assert(mid.len() == 0);
            assert(spec_trim_start(mid) == mid);
        }
        assert(spec_trim(v@) == spec_trim_end(mid));
    }
    let mut j: usize = n;
    while j > i && is_ws(v[j - 1])
        invariant
            n == v@.len(),
            i <= j <= n,
            forall|k: int| j <= k < n ==> spec_is_ws(v@[k]),
        decreases j,
    {
        j -= 1;
    }
    proof {
        lemma_trim_end_skip(mid, j - i);
        assert(mid.subrange(0, j - i) =~= v@.subrange(i as int, j as int));
        if j > i {
            let cut = v@.subrange(i as int, j as int);
            assert(cut.last() == v@[j - 1]);
            assert(spec_trim_end(cut) == cut);
        } else {
            assert(v@.subrange(i as int, j as int).len() == 0);
        }
    }
    let mut r: Vec<char> = Vec::new();
    let mut k: usize = i;
    while k < j
        invariant
            i <= k <= j <= n,
            n == v@.len(),
            r@ == v@.subrange(i as int, k as int),
        decreases j - k,
    {
        r.push(v[k]);
        k += 1;
        proof {
            assert(r@ =~= v@.subrange(i as int, k as int));
        }
    }
    proof {
        assert(r@ =~= v@.subrange(i as int, j as int));
    }
    r
}

/// Trims a string slice, as `str::trim` does.
pub fn trimmed(s: &str) -> (r: String)
    ensures
        r@ == spec_trim(s@),
{
    let v = to_chars(s);
    let t = trim_chars(&v);
    chars_string(&t)
}

/// Trims trailing whitespace only, as `str::trim_end` does.
pub fn trim_end_str(s: &str) -> (r: String)
    ensures
        r@ == spec_trim_end(s@),
{
    let v = to_chars(s);
    let n = v.len();
    let mut j: usize = n;
    while j > 0 && is_ws(v[j - 1])
        invariant
            n == v@.len(),
            j <= n,
            forall|k: int| j <= k < n ==> spec_is_ws(v@[k]),
        decreases j,
    {
        j -= 1;
    }
    proof {
        lemma_trim_end_skip(v@, j as int);
        if j > 0 {
            let cut = v@.subrange(0, j as int);
            assert(cut.last() == v@[j - 1]);
            assert(spec_trim_end(cut) == cut);
        } else {
            assert(v@.subrange(0, 0).len() == 0);
        }
    }
    let mut r: Vec<char> = Vec::new();
    let mut k: usize = 0;
    while k < j
        invariant
            k <= j <= n,
            n == v@.len(),
            r@ == v@.subrange(0, k as int),
        decreases j - k,
    {
        r.push(v[k]);
        k += 1;
        proof {
            assert(r@ =~= v@.subrange(0, k as int));
        }
    }
    proof {
        assert(r@ =~= v@.subrange(0, j as int));
    }
    chars_string(&r)
}

pub open spec fn spec_strip_semis_end(s: Seq<char>) -> Seq<char>
    decreases s.len(),
{
    if s.len() > 0 && s.last() == ';' {
        spec_strip_semis_end(s.drop_last())
    } else {
        s
    }
}

proof fn lemma_strip_semis_skip(s: Seq<char>, j: int)
    requires
        0 <= j <= s.len(),
        forall|k: int| j <= k < s.len() ==> s[k] == ';',
    ensures
        spec_strip_semis_end(s) == spec_strip_semis_end(s.subrange(0, j)),
    decreases s.len() - j,
{
    if j < s.len() {
        lemma_strip_semis_skip(s.drop_last(), j);
        assert(s.drop_last().subrange(0, j) =~= s.subrange(0, j));
    } else {
        assert(s.subrange(0, s.len() as int) =~= s);
    }
}

/// Drops every trailing `;`, as `str::trim_end_matches(';')` does.
pub fn strip_semis_end(v: &Vec<char>) -> (r: Vec<char>)
    ensures
        r@ == spec_strip_semis_end(v@),
{
    let n = v.len();
    let mut j: usize = n;
    while j > 0 && v[j - 1] == ';'
        invariant
            n == v@.len(),
            j <= n,
            forall|k: int| j <= k < n ==> v@[k] == ';',
        decreases j,
    {
        j -= 1;
    }
    proof {
        lemma_strip_semis_skip(v@, j as int);
        if j > 0 {
            let cut = v@.subrange(0, j as int);
            assert(cut.last() == v@[j - 1]);
            assert(spec_strip_semis_end(cut) == cut);
        } else {
            assert(v@.subrange(0, 0).len() == 0);
        }
    }
    let mut r: Vec<char> = Vec::new();
    let mut k: usize = 0;
    while k < j
        invariant
            k <= j <= n,
            n == v@.len(),
            r@ == v@.subrange(0, k as int),
        decreases j - k,
    {
        r.push(v[k]);
        k += 1;
        proof {
            assert(r@ =~= v@.subrange(0, k as int));
        }
    }
    proof {
        assert(r@ =~= v@.subrange(0, j as int));
    }
    r
}

/// Doubling of single quotes, the SQL string-literal escape.
pub open spec fn spec_escape_quotes(s: Seq<char>) -> Seq<char>
    decreases s.len(),
{
    if s.len() == 0 {
        Seq::empty()
    } else {
        let rest = spec_escape_quotes(s.drop_first());
        if s[0] == '\'' {
            seq!['\'', '\''] + rest
        } else {
            seq![s[0]] + rest
        }
    }
}

proof fn lemma_escape_append(s: Seq<char>, c: char)
    ensures
        spec_escape_quotes(s.push(c)) == spec_escape_quotes(s) + (if c == '\'' {
            seq!['\'', '\'']
        } else {
            seq![c]
        }),
    decreases s.len(),
{
    let tail: Seq<char> = if c == '\'' { seq!['\'', '\''] } else { seq![c] };
    if s.len() == 0 {
        assert(s.push(c).drop_first() =~= s);
        assert(spec_escape_quotes(s.push(c)) =~= spec_escape_quotes(s) + tail);
    } else {
        assert(s.push(c).drop_first() =~= s.drop_first().push(c));
        lemma_escape_append(s.drop_first(), c);
        assert(spec_escape_quotes(s.push(c)) =~= spec_escape_quotes(s) + tail);
    }
}

/// Escapes a string for inclusion in a single-quoted SQL literal.
pub fn escape_quotes(s: &str) -> (r: String)
    ensures
        r@ == spec_escape_quotes(s@),
{
    let v = to_chars(s);
    let mut r = String::new();
    let mut i: usize = 0;
    while i < v.len()
        invariant
            v@ == s@,
            i <= v@.len(),
            r@ == spec_escape_quotes(v@.subrange(0, i as int)),
        decreases v@.len() - i,
    {
        let c = v[i];
        if c == '\'' {
            push_char(&mut r, '\'');
            push_char(&mut r, '\'');
        } else {
            push_char(&mut r, c);
        }
        i += 1;
        proof {
            let pre = v@.subrange(0, i - 1);
            lemma_escape_append(pre, c);
            assert(pre.push(c) =~= v@.subrange(0, i as int));
        }
    }
    proof {
        assert(v@.subrange(0, v@.len() as int) =~= v@);
    }
    r
}

/// Doubling of double quotes, the SQL quoted-identifier escape.
pub open spec fn spec_escape_dquotes(s: Seq<char>) -> Seq<char>
    decreases s.len(),
{
    if s.len() == 0 {
        Seq::empty()
    } else {
        let rest = spec_escape_dquotes(s.drop_first());
        if s[0] == '"' {
            seq!['"', '"'] + rest
        } else {
            seq![s[0]] + rest
        }
    }
}

proof fn lemma_escape_dquotes_append(s: Seq<char>, c: char)
    ensures
        spec_escape_dquotes(s.push(c)) == spec_escape_dquotes(s) + (if c == '"' {
            seq!['"', '"']
        } else {
            seq![c]
        }),
    decreases s.len(),
{
    let tail: Seq<char> = if c == '"' { seq!['"', '"'] } else { seq![c] };
    if s.len() == 0 {
        assert(s.push(c).drop_first() =~= s);
        assert(spec_escape_dquotes(s.push(c)) =~= spec_escape_dquotes(s) + tail);
    } else {
        assert(s.push(c).drop_first() =~= s.drop_first().push(c));
        lemma_escape_dquotes_append(s.drop_first(), c);
        assert(spec_escape_dquotes(s.push(c)) =~= spec_escape_dquotes(s) + tail);
    }
}

/// Escapes a name for inclusion in a double-quoted SQL identifier.
pub fn escape_dquotes(s: &str) -> (r: String)
    ensures
        r@ == spec_escape_dquotes(s@),
{
    let v = to_chars(s);
    let mut r = String::new();
    let mut i: usize = 0;
    while i < v.len()
        invariant
            v@ == s@,
            i <= v@.len(),
            r@ == spec_escape_dquotes(v@.subrange(0, i as int)),
        decreases v@.len() - i,
    {
        let c = v[i];
        if c == '"' {
            push_char(&mut r, '"');
            push_char(&mut r, '"');
        } else {
            push_char(&mut r, c);
        }
        i += 1;
        proof {
            let pre = v@.subrange(0, i - 1);
            lemma_escape_dquotes_append(pre, c);
            assert(pre.push(c) =~= v@.subrange(0, i as int));
        }
    }
    proof {
        assert(v@.subrange(0, v@.len() as int) =~= v@);
    }
    r
}

/// Shard-name sanitisation: every character that is not ASCII alphanumeric
/// becomes an underscore.
pub open spec fn spec_sanitize(s: Seq<char>) -> Seq<char> {
    s.map(|i: int, c: char| if spec_is_ascii_alnum(c) { c } else { '_' })
}

pub fn sanitize_chars(s: &str) -> (r: String)
    ensures
        r@ == spec_sanitize(s@),
{
    let v = to_chars(s);
    let mut r = String::new();
    let mut i: usize = 0;
    while i < v.len()
        invariant
            v@ == s@,
            i <= v@.len(),
            r@ == spec_sanitize(v@).subrange(0, i as int),
        decreases v@.len() - i,
    {
        let c = v[i];
        if is_ascii_alnum(c) {
            push_char(&mut r, c);
        } else {
            push_char(&mut r, '_');
        }
        i += 1;
        proof {
            assert(r@ =~= spec_sanitize(v@).subrange(0, i as int));
        }
    }
    proof {
        assert(r@ =~= spec_sanitize(v@));
    }
    r
}

pub open spec fn spec_is_simple_ident_char(c: char) -> bool {
    spec_is_ascii_alnum(c) || c == '_' || c == '$'
}

/// A name that can stand unquoted in emitted SQL.
pub open spec fn spec_is_simple_ident(s: Seq<char>) -> bool {
    forall|i: int| 0 <= i < s.len() ==> spec_is_simple_ident_char(s[i])
}

pub fn is_simple_ident(s: &str) -> (r: bool)
    ensures
        r == spec_is_simple_ident(s@),
{
    let v = to_chars(s);
    let mut i: usize = 0;
    while i < v.len()
        invariant
            v@ == s@,
            i <= v@.len(),
            forall|j: int| 0 <= j < i ==> spec_is_simple_ident_char(v@[j]),
        decreases v@.len() - i,
    {
        let c = v[i];
        if !(is_ascii_alnum(c) || c == '_' || c == '$') {
            return false;
        }
        i += 1;
    }
    true
}

/// Lexicographic order on character sequences, by code point, matching the
/// order `str`'s `Ord` gives over the same characters.
pub open spec fn spec_str_le(a: Seq<char>, b: Seq<char>) -> bool
    decreases a.len(),
{
    if a.len() == 0 {
        true
    } else if b.len() == 0 {
        false
    } else if a[0] != b[0] {
        a[0] < b[0]
    } else {
        spec_str_le(a.drop_first(), b.drop_first())
    }
}

proof fn lemma_str_le_common(a: Seq<char>, b: Seq<char>, i: int)
    requires
        0 <= i <= a.len(),
        i <= b.len(),
        forall|j: int| 0 <= j < i ==> a[j] == b[j],
    ensures
        spec_str_le(a, b) == spec_str_le(
            a.subrange(i, a.len() as int),
            b.subrange(i, b.len() as int),
        ),
    decreases i,
{
    if i > 0 {
        if a.len() > 0 && b.len() > 0 {
            lemma_str_le_common(a.drop_first(), b.drop_first(), i - 1);
            assert(a.drop_first().subrange(i - 1, a.drop_first().len() as int)
                =~= a.subrange(i, a.len() as int));
            assert(b.drop_first().subrange(i - 1, b.drop_first().len() as int)
                =~= b.subrange(i, b.len() as int));
        }
    } else {
        assert(a.subrange(0, a.len() as int) =~= a);
        assert(b.subrange(0, b.len() as int) =~= b);
    }
}

/// Decides `spec_str_le` on two strings.
pub fn str_le(a: &str, b: &str) -> (r: bool)
    ensures
        r == spec_str_le(a@, b@),
{
    let na = a.unicode_len();
    let nb = b.unicode_len();
    let mut i: usize = 0;
    loop
        invariant
            na == a@.len(),
            nb == b@.len(),
            i <= na,
            i <= nb,
            forall|j: int| 0 <= j < i ==> a@[j] == b@[j],
        decreases na - i,
    {
        proof {
            lemma_str_le_common(a@, b@, i as int);
        }
        if i == na {
            proof {
                assert(a@.subrange(i as int, na as int).len() == 0);
            }
            return true;
        }
        if i == nb {
            proof {
                assert(b@.subrange(i as int, nb as int).len() == 0);
                assert(a@.subrange(i as int, na as int).len() > 0);
            }
            return false;
        }
        let ca = a.get_char(i);
        let cb = b.get_char(i);
        if ca != cb {
            proof {
                let sa = a@.subrange(i as int, na as int);
                let sb = b@.subrange(i as int, nb as int);
                assert(sa[0] == ca && sb[0] == cb);
            }
            return ca < cb;
        }
        i += 1;
    }
}

/// Strict lexicographic order on character sequences.
pub open spec fn spec_str_lt(a: Seq<char>, b: Seq<char>) -> bool {
    spec_str_le(a, b) && a != b
}

/// A strictly sorted (ascending, duplicate-free) sequence of strings.
pub open spec fn spec_sorted_unique(s: Seq<Seq<char>>) -> bool {
    forall|i: int, j: int|
        0 <= i < j < s.len() ==> #[trigger] spec_str_lt(s[i], s[j])
}

proof fn lemma_str_le_total(a: Seq<char>, b: Seq<char>)
    ensures
        spec_str_le(a, b) || spec_str_le(b, a),
        spec_str_le(a, b) && spec_str_le(b, a) ==> a == b,
    decreases a.len(),
{
    if a.len() == 0 {
        if b.len() == 0 {
            assert(a =~= b);
        }
    } else if b.len() == 0 {
    } else if a[0] != b[0] {
        assert(a[0] < b[0] || b[0] < a[0]);
    } else {
        lemma_str_le_total(a.drop_first(), b.drop_first());
        if spec_str_le(a, b) && spec_str_le(b, a) {
            assert(a.drop_first() == b.drop_first());
            assert forall|i: int| 0 <= i < a.len() implies a[i] == b[i] by {
                if i > 0 {
                    assert(a[i] == a.drop_first()[i - 1]);
                    assert(b[i] == b.drop_first()[i - 1]);
                }
            }
            assert(a =~= b);
        }
    }
}

proof fn lemma_str_le_trans(a: Seq<char>, b: Seq<char>, c: Seq<char>)
    requires
        spec_str_le(a, b),
        spec_str_le(b, c),
    ensures
        spec_str_le(a, c),
    decreases a.len(),
{
    if a.len() == 0 {
    } else if b.len() == 0 {
    } else if c.len() == 0 {
    } else if a[0] == b[0] && b[0] == c[0] {
        lemma_str_le_trans(a.drop_first(), b.drop_first(), c.drop_first());
    }
}

/// Whether some element of `s` is the string `x`.
pub open spec fn spec_contains_str(s: Seq<Seq<char>>, x: Seq<char>) -> bool {
    exists|i: int| 0 <= i < s.len() && s[i] == x
}

/// Membership test for a string in a vector of strings.
pub fn contains_str(v: &Vec<String>, x: &str) -> (r: bool)
    ensures
        r == spec_contains_str(v.deep_view(), x@),
{
    let mut i: usize = 0;
    while i < v.len()
        invariant
            i <= v@.len(),
            v.deep_view().len() == v@.len(),
            forall|j: int| 0 <= j < v@.len() ==> v.deep_view()[j] == v@[j]@,
            forall|j: int| 0 <= j < i ==> v@[j]@ != x@,
        decreases v@.len() - i,
    {
        if str_eq(v[i].as_str(), x) {
            proof {
                assert(v.deep_view()[i as int] == x@);
            }
            return true;
        }
        i += 1;
    }
    false
}

proof fn lemma_sorted_insert(s: Seq<Seq<char>>, x: Seq<char>, i: int)
    requires
        spec_sorted_unique(s),
        0 <= i <= s.len(),
        forall|j: int| 0 <= j < i ==> spec_str_le(s[j], x) && s[j] != x,
        i < s.len() ==> spec_str_le(x, s[i]) && s[i] != x,
    ensures
        spec_sorted_unique(s.insert(i, x)),
        s.insert(i, x).to_set() == s.to_set().insert(x),
{
    let t = s.insert(i, x);
    s.insert_ensures(i, x);
    assert forall|p: int, q: int| 0 <= p < q < t.len() implies
        #[trigger] spec_str_lt(t[p], t[q]) by {
        if q < i {
            assert(t[p] == s[p] && t[q] == s[q]);
            assert(spec_str_lt(s[p], s[q]));
        } else if p < i && q == i {
            assert(t[p] == s[p] && t[q] == x);
        } else if p < i && q > i {
            assert(t[p] == s[p] && t[q] == s[q - 1]);
            if q - 1 == i {
                if i < s.len() {
                    lemma_str_le_trans(s[p], x, s[i]);
                }
            } else {
                assert(spec_str_lt(s[p], s[q - 1]));
            }
        } else if p == i && q > i {
            assert(t[p] == x && t[q] == s[q - 1]);
            if q - 1 == i {
                assert(t[q] == s[i]);
            } else {
                assert(spec_str_lt(s[i], s[q - 1]));
                lemma_str_le_trans(x, s[i], s[q - 1]);
                if x == s[q - 1] {
                    lemma_str_le_total(x, s[i]);
                }
            }
        } else {
            assert(p > i && q > i);
            assert(t[p] == s[p - 1] && t[q] == s[q - 1]);
            assert(spec_str_lt(s[p - 1], s[q - 1]));
        }
    }
    assert forall|y: Seq<char>| t.to_set().contains(y) implies
        s.to_set().insert(x).contains(y) by {
        let k = choose|k: int| 0 <= k < t.len() && t[k] == y;
        if k < i {
            assert(s[k] == y);
        } else if k > i {
            assert(s[k - 1] == y);
        }
    }
    assert forall|y: Seq<char>| s.to_set().insert(x).contains(y) implies
        t.to_set().contains(y) by {
        if y == x {
            assert(t[i] == y);
        } else {
            let k = choose|k: int| 0 <= k < s.len() && s[k] == y;
            if k < i {
                assert(t[k] == y);
            } else {
                assert(t[k + 1] == y);
            }
        }
    }
    assert(t.to_set() =~= s.to_set().insert(x));
}

/// Inserts a string into a strictly sorted vector, keeping it strictly
/// sorted; a string already present is not inserted again.
pub fn insert_sorted_unique(v: &mut Vec<String>, x: String)
    requires
        spec_sorted_unique(old(v).deep_view()),
    ensures
        spec_sorted_unique(final(v).deep_view()),
        final(v).deep_view().to_set() == old(v).deep_view().to_set().insert(x@),
        final(v).deep_view() == spec_insert_sorted(old(v).deep_view(), x@),
{
    let ghost dv0 = old(v).deep_view();
    let mut i: usize = 0;
    while i < v.len()
        invariant
            v == old(v),
            v.deep_view() == dv0,
            spec_sorted_unique(dv0),
            i <= dv0.len(),
            v.deep_view().len() == v@.len(),
            forall|j: int| 0 <= j < v@.len() ==> v.deep_view()[j] == v@[j]@,
            forall|j: int| 0 <= j < i ==> spec_str_le(dv0[j], x@) && dv0[j] != x@,
        decreases v@.len() - i,
    {
        if str_eq(v[i].as_str(), x.as_str()) {
            proof {
                assert(dv0[i as int] == x@);
                assert(dv0.to_set().contains(x@));
                assert(dv0.to_set().insert(x@) =~= dv0.to_set());
                lemma_spec_insert_found(dv0, x@, i as int);
            }
            return;
        }
        if !str_le(v[i].as_str(), x.as_str()) {
            proof {
                lemma_str_le_total(dv0[i as int], x@);
                lemma_sorted_insert(dv0, x@, i as int);
                lemma_spec_insert_at(dv0, x@, i as int);
            }
            v.insert(i, x);
            proof {
                assert(v.deep_view() =~= dv0.insert(i as int, x@));
            }
            return;
        }
        i += 1;
    }
    proof {
        lemma_sorted_insert(dv0, x@, i as int);
        lemma_spec_insert_at(dv0, x@, i as int);
    }
    v.insert(i, x);
    proof {
        assert(v.deep_view() =~= dv0.insert(i as int, x@));
    }
}

/// Sorted-set insertion at the specification level: the unique strictly
/// sorted sequence holding the old elements and `x`.
pub open spec fn spec_insert_sorted(s: Seq<Seq<char>>, x: Seq<char>) -> Seq<Seq<char>>
    decreases s.len(),
{
    if s.len() == 0 {
        seq![x]
    } else if s[0] == x {
        s
    } else if spec_str_le(x, s[0]) {
        seq![x] + s
    } else {
        seq![s[0]] + spec_insert_sorted(s.drop_first(), x)
    }
}

proof fn lemma_spec_insert_found(s: Seq<Seq<char>>, x: Seq<char>, i: int)
    requires
        0 <= i < s.len(),
        forall|j: int| 0 <= j < i ==> spec_str_le(s[j], x) && s[j] != x,
        s[i] == x,
    ensures
        spec_insert_sorted(s, x) == s,
    decreases i,
{
    if i == 0 {
    } else {
        lemma_str_le_total(s[0], x);
        assert(!spec_str_le(x, s[0]));
        lemma_spec_insert_found(s.drop_first(), x, i - 1);
        assert(seq![s[0]] + s.drop_first() =~= s);
    }
}

proof fn lemma_spec_insert_at(s: Seq<Seq<char>>, x: Seq<char>, i: int)
    requires
        0 <= i <= s.len(),
        forall|j: int| 0 <= j < i ==> spec_str_le(s[j], x) && s[j] != x,
        i < s.len() ==> spec_str_le(x, s[i]) && s[i] != x,
    ensures
        spec_insert_sorted(s, x) == s.insert(i, x),
    decreases i,
{
    s.insert_ensures(i, x);
    if i == 0 {
        if s.len() == 0 {
            assert(spec_insert_sorted(s, x) =~= s.insert(0, x));
        } else {
            assert(s[0] != x);
            assert(spec_str_le(x, s[0]));
            assert(seq![x] + s =~= s.insert(0, x));
        }
    } else {
        assert(spec_str_le(s[0], x) && s[0] != x);
        lemma_str_le_total(s[0], x);
        assert(!spec_str_le(x, s[0]));
        lemma_spec_insert_at(s.drop_first(), x, i - 1);
        s.drop_first().insert_ensures(i - 1, x);
        assert(seq![s[0]] + s.drop_first().insert(i - 1, x) =~= s.insert(i, x));
    }
}

proof fn lemma_sorted_find_pos(s: Seq<Seq<char>>, x: Seq<char>) -> (i: int)
    requires
        spec_sorted_unique(s),
    ensures
        0 <= i <= s.len(),
        forall|j: int| 0 <= j < i ==> spec_str_le(s[j], x) && s[j] != x,
        i < s.len() ==> (s[i] == x || (spec_str_le(x, s[i]) && s[i] != x)),
    decreases s.len(),
{
    if s.len() == 0 {
        0
    } else {
        lemma_str_le_total(s[0], x);
        if s[0] == x {
            0
        } else if spec_str_le(x, s[0]) {
            0
        } else {
            assert(spec_str_le(s[0], x));
            assert forall|p: int, q: int| 0 <= p < q < s.drop_first().len() implies
                #[trigger] spec_str_lt(s.drop_first()[p], s.drop_first()[q]) by {
                assert(s.drop_first()[p] == s[p + 1]);
                assert(s.drop_first()[q] == s[q + 1]);
                assert(spec_str_lt(s[p + 1], s[q + 1]));
            }
            let t = lemma_sorted_find_pos(s.drop_first(), x);
            assert forall|j: int| 0 <= j < t + 1 implies spec_str_le(s[j], x) && s[j] != x by {
                if j > 0 {
                    assert(s.drop_first()[j - 1] == s[j]);
                }
            }
            if t + 1 < s.len() {
                assert(s.drop_first()[t] == s[t + 1]);
            }
            t + 1
        }
    }
}

/// Sorted-set insertion keeps the sequence strictly sorted and adds exactly
/// the new element to its set of members.
pub proof fn lemma_insert_sorted_props(s: Seq<Seq<char>>, x: Seq<char>)
    requires
        spec_sorted_unique(s),
    ensures
        spec_sorted_unique(spec_insert_sorted(s, x)),
        spec_insert_sorted(s, x).to_set() == s.to_set().insert(x),
{
    let i = lemma_sorted_find_pos(s, x);
    if i < s.len() && s[i] == x {
        lemma_spec_insert_found(s, x, i);
        assert(s.to_set().contains(x));
        assert(s.to_set() =~= s.to_set().insert(x));
    } else {
        lemma_spec_insert_at(s, x, i);
        lemma_sorted_insert(s, x, i);
    }
}

/// Whether every character is an ASCII digit.
pub open spec fn spec_all_digits(s: Seq<char>) -> bool {
    forall|i: int| 0 <= i < s.len() ==> '0' <= #[trigger] s[i] && s[i] <= '9'
}

/// The integer a digit string denotes (left to right, base ten).
pub open spec fn spec_digits_val(s: Seq<char>) -> int
    decreases s.len(),
{
    if s.len() == 0 {
        0
    } else {
        spec_digits_val(s.drop_last()) * 10 + (s.last() as int - '0' as int)
    }
}

/// Whether a numeric token's text is a plain digit string whose value is at
/// most the bound: exactly when an unsigned read within that bound succeeds.
pub open spec fn spec_fits_digits(s: Seq<char>, max: int) -> bool {
    spec_all_digits(s) && s.len() > 0 && spec_digits_val(s) <= max
}

proof fn lemma_digits_val_nonneg(s: Seq<char>)
    requires
        spec_all_digits(s),
    ensures
        spec_digits_val(s) >= 0,
    decreases s.len(),
{
    if s.len() > 0 {
        assert forall|i: int| 0 <= i < s.drop_last().len() implies '0' <= #[trigger] s.drop_last()[i]
            && s.drop_last()[i] <= '9' by {
            assert(s.drop_last()[i] == s[i]);
        }
        lemma_digits_val_nonneg(s.drop_last());
    }
}

proof fn lemma_digits_val_prefix(s: Seq<char>, k: int)
    requires
        spec_all_digits(s),
        0 <= k <= s.len(),
    ensures
        spec_digits_val(s.subrange(0, k)) <= spec_digits_val(s),
    decreases s.len(),
{
    if k == s.len() {
        assert(s.subrange(0, k) =~= s);
    } else {
        assert forall|i: int| 0 <= i < s.drop_last().len() implies '0' <= #[trigger] s.drop_last()[i]
            && s.drop_last()[i] <= '9' by {
            assert(s.drop_last()[i] == s[i]);
        }
        lemma_digits_val_prefix(s.drop_last(), k);
        assert(s.drop_last().subrange(0, k) =~= s.subrange(0, k));
        lemma_digits_val_nonneg(s.drop_last());
        assert(s.last() as int - '0' as int >= 0);
    }
}

/// Decides `spec_fits_digits`: whether the text is a digit string denoting
/// a value at most `max`.
pub fn digits_fit(s: &str, max: u64) -> (r: bool)
    requires
        max >= 9,
    ensures
        r == spec_fits_digits(s@, max as int),
{
    let v = to_chars(s);
    if v.len() == 0 {
        return false;
    }
    let mut acc: u64 = 0;
    let mut i: usize = 0;
    while i < v.len()
        invariant
            v@ == s@,
            max >= 9,
            i <= v@.len(),
            spec_all_digits(v@.subrange(0, i as int)),
            acc as int == spec_digits_val(v@.subrange(0, i as int)),
            acc <= max,
        decreases v@.len() - i,
    {
        let c = v[i];
        if !('0' <= c && c <= '9') {
            proof {
                assert(!spec_all_digits(v@));
            }
            return false;
        }
        let d: u64 = ((c as u32) - 48) as u64;
        proof {
            assert(d <= 9);
        }
        if acc > (max - d) / 10 {
            proof {
                assert(acc * 10 + d > max) by (nonlinear_arith)
                    requires
                        acc > (max - d) / 10,
                        d <= 9,
                        d <= max,
                ;
                let pre1 = v@.subrange(0, i + 1);
                assert(pre1.drop_last() =~= v@.subrange(0, i as int));
                assert(pre1.last() == c);
                assert(spec_digits_val(pre1) == acc * 10 + d);
                if spec_all_digits(v@) {
                    lemma_digits_val_prefix(v@, i + 1);
                }
            }
            return false;
        }
        proof {
            assert(acc * 10 + d <= max) by (nonlinear_arith)
                requires
                    acc <= (max - d) / 10,
                    d <= 9,
                    d <= max,
            ;
            let pre1 = v@.subrange(0, i + 1);
            assert(pre1.drop_last() =~= v@.subrange(0, i as int));
            assert(pre1.last() == c);
            assert(spec_all_digits(pre1));
        }
        acc = acc * 10 + d;
        i += 1;
    }
    proof {
        assert(v@.subrange(0, v@.len() as int) =~= v@);
    }
    true
}

} // verus!
