use vstd::prelude::*;
use vstd::slice::slice_subrange;

verus! {

/// The decimal digit for `d < 10`.
pub open spec fn digit_char(d: nat) -> char {
    if d == 0 { '0' }
    else if d == 1 { '1' }
    else if d == 2 { '2' }
    else if d == 3 { '3' }
    else if d == 4 { '4' }
    else if d == 5 { '5' }
    else if d == 6 { '6' }
    else if d == 7 { '7' }
    else if d == 8 { '8' }
    else { '9' }
}

/// The decimal notation of `n`, without leading zeros.
pub open spec fn decimal(n: nat) -> Seq<char>
    decreases n,
{
    if n < 10 {
        seq![digit_char(n)]
    } else {
        decimal(n / 10).push(digit_char(n % 10))
    }
}

/// The byte values of `b` in decimal, separated by `", "`.
pub open spec fn byte_list(b: Seq<u8>) -> Seq<char>
    decreases b.len(),
{
    if b.len() == 0 {
        seq![]
    } else if b.len() == 1 {
        decimal(b[0] as nat)
    } else {
        byte_list(b.drop_last()) + seq![',', ' '] + decimal(b.last() as nat)
    }
}

/// What `String::from_utf8_lossy` makes of `b`: valid UTF-8 decoded, each
/// invalid sequence replaced by U+FFFD.
pub uninterp spec fn lossy_utf8_of(b: Seq<u8>) -> Seq<char>;

/// The bytes that a preview of `b` renders: all of them when there are at
/// most ten, else the first twelve (or all, when there are fewer).
pub open spec fn preview_shown(b: Seq<u8>) -> Seq<u8> {
    if b.len() <= 12 {
        b
    } else {
        b.subrange(0, 12)
    }
}

/// The layout of a preview: total length `n`, the rendered bytes, and
/// whether both renderings carry a truncation mark.
pub open spec fn preview_layout(n: nat, shown: Seq<u8>, truncated: bool) -> Seq<char> {
    seq!['('] + decimal(n) + seq![')', ' ', '['] + byte_list(shown)
        + (if truncated { seq![',', ' ', '.', '.', '.'] } else { seq![] })
        + seq![']', ' ', '-', '>', ' ', 'a', 's', 'c', 'i', 'i', '=', '\'']
        + lossy_utf8_of(shown)
        + (if truncated { seq!['.', '.', '.'] } else { seq![] })
        + seq!['\'']
}

/// The human-readable preview of a binary value.
pub open spec fn binary_preview(b: Seq<u8>) -> Seq<char> {
    preview_layout(b.len(), preview_shown(b), b.len() > 10)
}

/// Relies on `String::from_utf8_lossy`: its result depends on the bytes alone,
/// and no bytes give no characters.
#[verifier::external_body]
fn lossy_utf8(b: &[u8]) -> (r: String)
    ensures
        r@ == lossy_utf8_of(b@),
        b@.len() == 0 ==> r@.len() == 0,
{
    String::from_utf8_lossy(b).into_owned()
}

/// The digit character of `d`.
fn digit(d: u64) -> (c: char)
    requires
        d < 10,
    ensures
        c == digit_char(d as nat),
{
    if d == 0 { '0' }
    else if d == 1 { '1' }
    else if d == 2 { '2' }
    else if d == 3 { '3' }
    else if d == 4 { '4' }
    else if d == 5 { '5' }
    else if d == 6 { '6' }
    else if d == 7 { '7' }
    else if d == 8 { '8' }
    else { '9' }
}

/// Appends the decimal notation of `n` to `out`.
pub fn push_decimal(out: &mut String, n: u64)
    ensures
        final(out)@ == old(out)@ + decimal(n as nat),
    decreases n,
{
    if n >= 10 {
        push_decimal(out, n / 10);
    }
    out.push(digit(n % 10));
    proof {
        if n >= 10 {
            assert(old(out)@ + decimal(n as nat) == (old(out)@ + decimal((n / 10) as nat)).push(
                digit_char((n % 10) as nat),
            ));
        } else {
            assert(old(out)@ + decimal(n as nat) == old(out)@.push(digit_char(n as nat)));
        }
    }
}


/// Appends the byte values of `b` in decimal, separated by `", "`.
fn push_byte_list(out: &mut String, b: &[u8])
    ensures
        final(out)@ == old(out)@ + byte_list(b@),
{
    let n = b.len();
    let mut i: usize = 0;
    while i < n
        invariant
            n == b@.len(),
            i <= n,
            out@ == old(out)@ + byte_list(b@.subrange(0, i as int)),
        decreases n - i,
    {
        let ghost before = out@;
        if i > 0 {
            out.push(',');
            out.push(' ');
        }
        push_decimal(out, b[i] as u64);
        proof {
            let p = b@.subrange(0, i + 1);
            assert(p.drop_last() == b@.subrange(0, i as int));
            assert(p.last() == b@[i as int]);
            if i == 0 {
                assert(byte_list(b@.subrange(0, 0)) == Seq::<char>::empty());
                assert(out@ == before + decimal(b@[0] as nat));
            } else {
                assert(out@ == before + seq![',', ' '] + decimal(b@[i as int] as nat));
            }
            assert(out@ == old(out)@ + byte_list(p));
        }
        i = i + 1;
    }
    proof {
        assert(b@.subrange(0, n as int) == b@);
    }
}

/// Renders a binary value for reading: its length, its byte values and their
/// lossy UTF-8 decoding, cut after twelve bytes when there are more than ten:
/// `(13) [72, 101, ..., 100, ...] -> ascii='Hello, World...'`.
pub fn bytea_as_string(val: &[u8]) -> (r: String)
    ensures
        r@ == binary_preview(val@),
{
    let len = val.len();
    let truncated = len > 10;
    let shown_len: usize = if len > 12 { 12 } else { len };
    let shown = slice_subrange(val, 0, shown_len);
    assert(shown@ == preview_shown(val@));
    let mut out = String::new();
    out.push('(');
    push_decimal(&mut out, len as u64);
    crate::common::push_text(&mut out, ") [");
    let ghost s1 = out@;
    push_byte_list(&mut out, shown);
    let ghost s2 = out@;
    if truncated {
        crate::common::push_text(&mut out, ", ...");
    }
    let ghost s3 = out@;
    crate::common::push_text(&mut out, "] -> ascii='");
    let ascii = lossy_utf8(shown);
    crate::common::push_text(&mut out, ascii.as_str());
    let ghost s4 = out@;
    if truncated {
        crate::common::push_text(&mut out, "...");
    }
    let ghost s5 = out@;
    crate::common::push_text(&mut out, "'");
    proof {
        reveal_strlit(") [");
        reveal_strlit(", ...");
        reveal_strlit("] -> ascii='");
        reveal_strlit("...");
        reveal_strlit("'");
        let t1: Seq<char> = if truncated { seq![',', ' ', '.', '.', '.'] } else { seq![] };
        let t2: Seq<char> = if truncated { seq!['.', '.', '.'] } else { seq![] };
        assert(s1 =~= seq!['('] + decimal(len as nat) + seq![')', ' ', '[']);
        assert(s2 == s1 + byte_list(shown@));
        assert(s3 =~= s2 + t1);
        assert(s4 =~= s3 + seq![']', ' ', '-', '>', ' ', 'a', 's', 'c', 'i', 'i', '=', '\'']
            + lossy_utf8_of(shown@));
        assert(s5 =~= s4 + t2);
        assert(out@ =~= s5 + seq!['\'']);
    }
    out
}

/// A binary value of at most ten bytes is rendered whole and without
/// truncation marks; one of twelve bytes or more is rendered by its first
/// twelve bytes, with both truncation marks.
pub proof fn lemma_preview_bounds(b: Seq<u8>)
    ensures
        b.len() <= 10 ==> binary_preview(b) == preview_layout(b.len(), b, false),
        b.len() >= 12 ==> binary_preview(b) == preview_layout(b.len(), b.subrange(0, 12), true),
{
    if b.len() == 12 {
        assert(b.subrange(0, 12) =~= b);
    }
}

} // verus!
