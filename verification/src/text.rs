//! Byte-level text primitives shared by the VCD reader and writer: splitting
//! an input into whitespace-separated tokens, reading and printing unsigned
//! decimal numbers, and printing compact VCD identifier codes.

use vstd::prelude::*;
use vstd::string::StringSliceAdditionalSpecFns;

verus! {

/// Whether a byte is VCD whitespace: space, tab, line feed or carriage
/// return.
pub open spec fn is_ws(b: u8) -> bool {
    b == 32 || b == 9 || b == 10 || b == 13
}

/// The end of the run of non-whitespace bytes that starts at `i`.
pub open spec fn token_end(s: Seq<u8>, i: int) -> int
    decreases s.len() - i,
{
    if i < 0 || i >= s.len() || is_ws(s[i]) {
        i
    } else {
        token_end(s, i + 1)
    }
}

/// The run found by [`token_end`] stays inside the input, moves forward over
/// a non-whitespace byte, covers only non-whitespace bytes, and stops at the
/// input's end or at a whitespace byte.
pub proof fn lemma_token_end(s: Seq<u8>, i: int)
    requires
        0 <= i <= s.len(),
    ensures
        i <= token_end(s, i) <= s.len(),
        i < s.len() && !is_ws(s[i]) ==> token_end(s, i) > i,
        forall|j: int| i <= j < token_end(s, i) ==> !is_ws(s[j]),
        token_end(s, i) < s.len() ==> is_ws(s[token_end(s, i)]),
    decreases s.len() - i,
{
    if i < s.len() && !is_ws(s[i]) {
        lemma_token_end(s, i + 1);
    }
}

/// The whitespace-separated tokens of `s` from position `i` on: each maximal
/// run of non-whitespace bytes, in order.
pub open spec fn tokens_from(s: Seq<u8>, i: int) -> Seq<Seq<u8>>
    decreases s.len() - i,
    via tokens_from_decreases
{
    if i < 0 || i >= s.len() {
        Seq::empty()
    } else if is_ws(s[i]) {
        tokens_from(s, i + 1)
    } else {
        seq![s.subrange(i, token_end(s, i))] + tokens_from(s, token_end(s, i))
    }
}

#[via_fn]
proof fn tokens_from_decreases(s: Seq<u8>, i: int) {
    if 0 <= i < s.len() && !is_ws(s[i]) {
        lemma_token_end(s, i);
    }
}

/// The tokens of a whole input.
pub open spec fn spec_tokens(s: Seq<u8>) -> Seq<Seq<u8>> {
    tokens_from(s, 0)
}

/// The byte sequences behind a vector of byte vectors.
pub open spec fn tok_views(toks: Vec<Vec<u8>>) -> Seq<Seq<u8>> {
    toks@.map_values(|t: Vec<u8>| t@)
}

/// Appending one byte vector appends its bytes to the sequence of views.
pub proof fn lemma_tok_views_push(toks: Seq<Vec<u8>>, t: Vec<u8>)
    ensures
        toks.push(t).map_values(|x: Vec<u8>| x@) =~= toks.map_values(|x: Vec<u8>| x@).push(t@),
{
}

/// Copies the bytes of a byte vector.
pub fn copy_bytes(v: &Vec<u8>) -> (r: Vec<u8>)
    ensures
        r@ == v@,
{
    vstd::slice::slice_to_vec(v.as_slice())
}

fn exec_is_ws(b: u8) -> (r: bool)
    ensures
        r == is_ws(b),
{
    b == 32 || b == 9 || b == 10 || b == 13
}

/// Splits an input into its whitespace-separated tokens.
pub fn tokenize(bytes: &[u8]) -> (toks: Vec<Vec<u8>>)
    ensures
        tok_views(toks) == spec_tokens(bytes@),
{
    let mut toks: Vec<Vec<u8>> = Vec::new();
    let mut i: usize = 0;
    while i < bytes.len()
        invariant
            i <= bytes.len(),
            spec_tokens(bytes@) == tok_views(toks) + tokens_from(bytes@, i as int),
        decreases bytes.len() - i,
    {
        if exec_is_ws(bytes[i]) {
            i += 1;
        } else {
            let start: usize = i;
            let mut tok: Vec<u8> = Vec::new();
            proof {
                lemma_token_end(bytes@, start as int);
            }
            while i < bytes.len() && !exec_is_ws(bytes[i])
                invariant
                    start <= i <= bytes.len(),
                    i <= token_end(bytes@, start as int),
                    tok@ == bytes@.subrange(start as int, i as int),
                    forall|j: int| start <= j < i ==> !is_ws(bytes@[j]),
                decreases bytes.len() - i,
            {
                proof {
                    lemma_token_end(bytes@, start as int);
                    assert(bytes@.subrange(start as int, i + 1) == bytes@.subrange(
                        start as int,
                        i as int,
                    ).push(bytes@[i as int]));
                }
                tok.push(bytes[i]);
                i += 1;
            }
            proof {
                lemma_token_end(bytes@, start as int);
                assert(i == token_end(bytes@, start as int));
                lemma_tok_views_push(toks@, tok);
            }
            toks.push(tok);
        }
    }
    toks
}

/// Whether a byte is an ASCII decimal digit.
pub open spec fn is_digit(b: u8) -> bool {
    48 <= b && b <= 57
}

/// Whether a token is a non-empty run of decimal digits.
pub open spec fn is_dec(s: Seq<u8>) -> bool {
    s.len() > 0 && forall|i: int| 0 <= i < s.len() ==> is_digit(#[trigger] s[i])
}

/// The end of the run of decimal digits that starts at `i`.
pub open spec fn digits_end(s: Seq<u8>, i: int) -> int
    decreases s.len() - i,
{
    if i < 0 || i >= s.len() || !is_digit(s[i]) {
        i
    } else {
        digits_end(s, i + 1)
    }
}

/// The run found by [`digits_end`] stays inside the input, covers only
/// digits, and stops at the input's end or at a non-digit byte.
pub proof fn lemma_digits_end(s: Seq<u8>, i: int)
    requires
        0 <= i <= s.len(),
    ensures
        i <= digits_end(s, i) <= s.len(),
        forall|j: int| i <= j < digits_end(s, i) ==> is_digit(s[j]),
        digits_end(s, i) < s.len() ==> !is_digit(s[digits_end(s, i)]),
    decreases s.len() - i,
{
    if i < s.len() && is_digit(s[i]) {
        lemma_digits_end(s, i + 1);
    }
}

/// Finds where the leading run of decimal digits of a token ends.
pub fn scan_digits(tok: &[u8]) -> (r: usize)
    ensures
        r == digits_end(tok@, 0),
{
    let mut i: usize = 0;
    while i < tok.len() && 48 <= tok[i] && tok[i] <= 57
        invariant
            i <= tok@.len(),
            digits_end(tok@, 0) == digits_end(tok@, i as int),
            forall|j: int| 0 <= j < i ==> is_digit(tok@[j]),
        decreases tok.len() - i,
    {
        i += 1;
    }
    i
}

/// The number a run of decimal digits denotes.
pub open spec fn dec_value(s: Seq<u8>) -> nat
    decreases s.len(),
{
    if s.len() == 0 {
        0
    } else {
        (dec_value(s.drop_last()) * 10 + (s.last() - 48)) as nat
    }
}

proof fn lemma_dec_value_extend(s: Seq<u8>, i: int)
    requires
        0 <= i < s.len(),
        is_digit(s[i]),
    ensures
        dec_value(s.take(i + 1)) == dec_value(s.take(i)) * 10 + (s[i] - 48),
{
    assert(s.take(i + 1).drop_last() =~= s.take(i));
    assert(s.take(i + 1).last() == s[i]);
}

proof fn lemma_dec_value_prefix_le(s: Seq<u8>, i: int)
    requires
        0 <= i <= s.len(),
        forall|j: int| 0 <= j < s.len() ==> is_digit(#[trigger] s[j]),
    ensures
        dec_value(s.take(i)) <= dec_value(s),
    decreases s.len() - i,
{
    if i == s.len() {
        assert(s.take(i) == s);
    } else {
        lemma_dec_value_extend(s, i);
        lemma_dec_value_prefix_le(s, i + 1);
    }
}

/// Reads a token as an unsigned decimal number.  Returns the denoted value
/// exactly when the token is a digit run whose value fits in a `u64`.
pub fn parse_u64(tok: &[u8]) -> (r: Option<u64>)
    ensures
        r == if is_dec(tok@) && dec_value(tok@) <= u64::MAX {
            Some(dec_value(tok@) as u64)
        } else {
            None::<u64>
        },
{
    if tok.len() == 0 {
        return None;
    }
    let mut acc: u64 = 0;
    let mut i: usize = 0;
    while i < tok.len()
        invariant
            i <= tok.len(),
            forall|j: int| 0 <= j < i ==> is_digit(#[trigger] tok@[j]),
            acc == dec_value(tok@.take(i as int)),
        decreases tok.len() - i,
    {
        let b = tok[i];
        if b < 48 || b > 57 {
            return None;
        }
        let d: u64 = (b - 48) as u64;
        proof {
            lemma_dec_value_extend(tok@, i as int);
        }
        if acc > u64::MAX / 10 || (acc == u64::MAX / 10 && d > u64::MAX % 10) {
            proof {
                assert(dec_value(tok@.take(i + 1)) > u64::MAX);
                if is_dec(tok@) {
                    lemma_dec_value_prefix_le(tok@, i + 1);
                }
            }
            return None;
        }
        acc = acc * 10 + d;
        i += 1;
    }
    proof {
        assert(tok@.take(tok@.len() as int) == tok@);
    }
    Some(acc)
}

/// Whether two byte slices hold the same bytes.
pub fn bytes_eq(a: &[u8], b: &[u8]) -> (r: bool)
    ensures
        r == (a@ == b@),
{
    if a.len() != b.len() {
        return false;
    }
    let mut i: usize = 0;
    while i < a.len()
        invariant
            i <= a.len(),
            a@.len() == b@.len(),
            forall|j: int| 0 <= j < i ==> a@[j] == b@[j],
        decreases a.len() - i,
    {
        if a[i] != b[i] {
            return false;
        }
        i += 1;
    }
    proof {
        assert(a@ =~= b@);
    }
    true
}

/// The decimal digits of `n`, most significant first.
pub open spec fn dec_bytes(n: nat) -> Seq<u8>
    decreases n,
{
    if n < 10 {
        seq![(48 + n) as u8]
    } else {
        dec_bytes(n / 10) + seq![(48 + n % 10) as u8]
    }
}

/// Appends the decimal digits of `n`.
pub fn append_dec(out: &mut Vec<u8>, n: u64)
    ensures
        final(out)@ == old(out)@ + dec_bytes(n as nat),
    decreases n,
{
    if n < 10 {
        out.push((48 + n) as u8);
    } else {
        append_dec(out, n / 10);
        out.push((48 + n % 10) as u8);
    }
}

/// The bytes of the compact identifier code `n`: base-94 digits drawn from
/// the printable ASCII range `!` to `~`, least significant first, so code 0
/// is `!`.
pub open spec fn id_bytes(n: nat) -> Seq<u8>
    decreases n,
{
    if n < 94 {
        seq![(33 + n) as u8]
    } else {
        seq![(33 + n % 94) as u8] + id_bytes((n / 94 - 1) as nat)
    }
}

/// Appends the identifier code `n`.
pub fn append_id(out: &mut Vec<u8>, n: u64)
    ensures
        final(out)@ == old(out)@ + id_bytes(n as nat),
    decreases n,
{
    if n < 94 {
        out.push((33 + n) as u8);
    } else {
        out.push((33 + n % 94) as u8);
        append_id(out, n / 94 - 1);
    }
}

/// Appends the bytes of a string.
pub fn append_str(out: &mut Vec<u8>, s: &str)
    ensures
        final(out)@ == old(out)@ + s.spec_bytes(),
{
    out.extend_from_slice(s.as_bytes());
}

} // verus!
