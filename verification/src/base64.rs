//! The standard base64 encoding (RFC 4648, with `=` padding), which the
//! `Basic` authorization scheme uses for `user:password`.

use vstd::prelude::*;

verus! {

/// The character of the base64 alphabet for the six-bit number `n`.
pub open spec fn b64_digit(n: int) -> char {
    if n < 26 {
        (65 + n) as char
    } else if n < 52 {
        (97 + (n - 26)) as char
    } else if n < 62 {
        (48 + (n - 52)) as char
    } else if n == 62 {
        '+'
    } else {
        '/'
    }
}

/// The base64 encoding of `s`: each group of three bytes becomes four
/// characters; a final group of one or two bytes is padded with `=`.
pub open spec fn base64_encode(s: Seq<u8>) -> Seq<char>
    decreases s.len(),
{
    if s.len() == 0 {
        Seq::empty()
    } else {
        let b0 = s[0] as int;
        let b1 = if s.len() > 1 { s[1] as int } else { 0 };
        let b2 = if s.len() > 2 { s[2] as int } else { 0 };
        if s.len() == 1 {
            seq![b64_digit(b0 / 4), b64_digit((b0 % 4) * 16), '=', '=']
        } else if s.len() == 2 {
            seq![b64_digit(b0 / 4), b64_digit((b0 % 4) * 16 + b1 / 16), b64_digit((b1 % 16) * 4), '=']
        } else {
            seq![
                b64_digit(b0 / 4),
                b64_digit((b0 % 4) * 16 + b1 / 16),
                b64_digit((b1 % 16) * 4 + b2 / 64),
                b64_digit(b2 % 64),
            ] + base64_encode(s.subrange(3, s.len() as int))
        }
    }
}

/// Every character of a base64 encoding is visible ASCII.
pub proof fn lemma_base64_visible(s: Seq<u8>)
    ensures
        crate::text::visible_text(base64_encode(s)),
    decreases s.len(),
{
    let e = base64_encode(s);
    if s.len() >= 3 {
        lemma_base64_visible(s.subrange(3, s.len() as int));
    }
    assert forall|i: int| 0 <= i < e.len() implies crate::text::visible_char(#[trigger] e[i]) by {
        if s.len() >= 3 && i >= 4 {
            assert(e[i] == base64_encode(s.subrange(3, s.len() as int))[i - 4]);
        }
    }
}

/// The character of the base64 alphabet for `n`.
fn digit(n: u8) -> (r: char)
    requires
        n < 64,
    ensures
        r == b64_digit(n as int),
{
    if n < 26 {
        (65 + n) as char
    } else if n < 52 {
        (97 + (n - 26)) as char
    } else if n < 62 {
        (48 + (n - 52)) as char
    } else if n == 62 {
        '+'
    } else {
        '/'
    }
}

/// The base64 encoding of `s`, as characters.
pub fn encode(s: &[u8]) -> (r: Vec<char>)
    ensures
        r@ == base64_encode(s@),
{
    let n = s.len();
    let mut out: Vec<char> = Vec::new();
    let mut i: usize = 0;
    assert(s@.subrange(0, n as int) =~= s@);
    while i < n
        invariant
            n == s@.len(),
            i <= n,
            out@ + base64_encode(s@.subrange(i as int, n as int)) == base64_encode(s@),
        decreases n - i,
    {
        let rest = n - i;
        let ghost t = s@.subrange(i as int, n as int);
        let ghost old_out = out@;
        let b0 = s[i];
        if rest == 1 {
            out.push(digit(b0 / 4));
            out.push(digit((b0 % 4) * 16));
            out.push('=');
            out.push('=');
            proof {
                assert(s@.subrange(n as int, n as int) =~= Seq::<u8>::empty());
                assert(out@ =~= old_out + base64_encode(t));
            }
            i = n;
        } else if rest == 2 {
            let b1 = s[i + 1];
            out.push(digit(b0 / 4));
            out.push(digit((b0 % 4) * 16 + b1 / 16));
            out.push(digit((b1 % 16) * 4));
            out.push('=');
            proof {
                assert(s@.subrange(n as int, n as int) =~= Seq::<u8>::empty());
                assert(out@ =~= old_out + base64_encode(t));
            }
            i = n;
        } else {
            let b1 = s[i + 1];
            let b2 = s[i + 2];
            out.push(digit(b0 / 4));
            out.push(digit((b0 % 4) * 16 + b1 / 16));
            out.push(digit((b1 % 16) * 4 + b2 / 64));
            out.push(digit(b2 % 64));
            proof {
                assert(t.subrange(3, t.len() as int) =~= s@.subrange(i + 3, n as int));
                assert(out@ =~= old_out + base64_encode(t).subrange(0, 4));
                assert(base64_encode(t) =~= base64_encode(t).subrange(0, 4) + base64_encode(
                    s@.subrange(i + 3, n as int),
                ));
            }
            i = i + 3;
        }
    }
    assert(s@.subrange(n as int, n as int) =~= Seq::<u8>::empty());
    out
}

} // verus!
