use vstd::prelude::*;

verus! {

/// The character that callers may use in place of a single quote.
pub open spec fn unescape_char(c: char) -> char {
    if c == '`' { '\'' } else { c }
}

/// The query text with every backtick replaced by a single quote.
pub open spec fn unescaped(q: Seq<char>) -> Seq<char> {
    q.map_values(|c: char| unescape_char(c))
}

/// Relies on `String::push`: the character is appended at the end.
pub assume_specification[ std::string::String::push ](s: &mut std::string::String, ch: char)
    ensures
        final(s)@ == old(s)@.push(ch),
;

/// Replaces backticks with single quotes, so that a query can carry quoted
/// literals where real single quotes are awkward to pass (a shell command line):
/// ```text
///  select * from foo where date >= `20240214` limit 3
/// ```
pub fn unescape_query(query: &str) -> (r: String)
    ensures
        r@ == unescaped(query@),
        forall|i: int| 0 <= i < r@.len() ==> r@[i] != '`',
{
    let n = query.unicode_len();
    let mut out = String::new();
    let mut i: usize = 0;
    while i < n
        invariant
            n == query@.len(),
            i <= n,
            out@ == unescaped(query@.subrange(0, i as int)),
        decreases n - i,
    {
        let c = query.get_char(i);
        let d = if c == '`' { '\'' } else { c };
        out.push(d);
        proof {
            assert(query@.subrange(0, i + 1) == query@.subrange(0, i as int).push(c));
        }
        i = i + 1;
    }
    proof {
        assert(query@.subrange(0, n as int) == query@);
    }
    out
}

/// Whether two texts hold the same characters.
pub fn text_eq(a: &str, b: &str) -> (r: bool)
    ensures
        r == (a@ == b@),
{
    let n = a.unicode_len();
    if n != b.unicode_len() {
        return false;
    }
    let mut i: usize = 0;
    while i < n
        invariant
            n == a@.len(),
            n == b@.len(),
            i <= n,
            a@.subrange(0, i as int) == b@.subrange(0, i as int),
        decreases n - i,
    {
        if a.get_char(i) != b.get_char(i) {
            return false;
        }
        proof {
            assert(a@.subrange(0, i + 1) == a@.subrange(0, i as int).push(a@[i as int]));
            assert(b@.subrange(0, i + 1) == b@.subrange(0, i as int).push(b@[i as int]));
        }
        i = i + 1;
    }
    proof {
        assert(a@.subrange(0, n as int) == a@);
        assert(b@.subrange(0, n as int) == b@);
    }
    true
}

/// Whether `s` ends with the characters of `suffix`.
pub open spec fn has_suffix(s: Seq<char>, suffix: Seq<char>) -> bool {
    suffix.len() <= s.len() && s.subrange(s.len() - suffix.len(), s.len() as int) == suffix
}

/// Whether `s` ends with `suffix`.
pub fn ends_with_text(s: &str, suffix: &str) -> (r: bool)
    ensures
        r == has_suffix(s@, suffix@),
{
    let n = s.unicode_len();
    let m = suffix.unicode_len();
    if m > n {
        return false;
    }
    let tail = s.substring_char(n - m, n);
    text_eq(tail, suffix)
}

/// Appends the characters of `t` to `out`.
pub fn push_text(out: &mut String, t: &str)
    ensures
        final(out)@ == old(out)@ + t@,
{
    let n = t.unicode_len();
    let mut i: usize = 0;
    while i < n
        invariant
            n == t@.len(),
            i <= n,
            out@ == old(out)@ + t@.subrange(0, i as int),
        decreases n - i,
    {
        let c = t.get_char(i);
        out.push(c);
        proof {
            assert(t@.subrange(0, i + 1) == t@.subrange(0, i as int).push(c));
        }
        i = i + 1;
    }
    proof {
        assert(t@.subrange(0, n as int) == t@);
    }
}

/// No backtick is left after one pass, so a second pass changes nothing.
pub proof fn lemma_unescape_idempotent(q: Seq<char>)
    ensures
        forall|i: int| 0 <= i < unescaped(q).len() ==> unescaped(q)[i] != '`',
        unescaped(unescaped(q)) == unescaped(q),
{
    assert(unescaped(unescaped(q)) =~= unescaped(q));
}

} // verus!
