use vstd::arithmetic::div_mod::{lemma_fundamental_div_mod, lemma_mod_bound};
use vstd::prelude::*;

verus! {

/// The decimal digits of `n` as ASCII bytes, most significant first,
/// without leading zeros (`0` itself is the single byte `48`).
pub open spec fn dec_digits(n: nat) -> Seq<u8>
    decreases n,
{
    if n < 10 {
        seq![(48 + n) as u8]
    } else {
        dec_digits(n / 10).push((48 + n % 10) as u8)
    }
}

/// The number a run of ASCII digits denotes, most significant first.
pub open spec fn dec_value(s: Seq<u8>) -> int
    decreases s.len(),
{
    if s.len() == 0 {
        0
    } else {
        10 * dec_value(s.drop_last()) + (s.last() - 48)
    }
}

/// Reading the digits of `n` back yields `n`: the decimal rendering is
/// faithful.
pub proof fn lemma_dec_digits_value(n: nat)
    ensures
        dec_value(dec_digits(n)) == n,
    decreases n,
{
    if n < 10 {
        let s = dec_digits(n);
        assert(s == seq![(48 + n) as u8]);
        assert(s.drop_last() =~= Seq::<u8>::empty());
        assert(dec_value(s) == 10 * dec_value(s.drop_last()) + ((48 + n) as u8 - 48));
    } else {
        lemma_dec_digits_value(n / 10);
        lemma_fundamental_div_mod(n as int, 10);
        lemma_mod_bound(n as int, 10);
        let s = dec_digits(n);
        assert(s == dec_digits(n / 10).push((48 + n % 10) as u8));
        assert(s.drop_last() =~= dec_digits(n / 10));
        assert(s.last() == (48 + n % 10) as u8);
    }
}

/// Every byte of a decimal rendering is an ASCII digit, so a receiver can
/// find where the declared length ends.
pub proof fn lemma_dec_digits_ascii(n: nat)
    ensures
        forall|i: int| 0 <= i < dec_digits(n).len() ==> 48 <= #[trigger] dec_digits(n)[i] <= 57,
    decreases n,
{
    if n < 10 {
    } else {
        lemma_dec_digits_ascii(n / 10);
        lemma_mod_bound(n as int, 10);
        assert(dec_digits(n) == dec_digits(n / 10).push((48 + n % 10) as u8));
    }
}

/// Render `n` in decimal ASCII, most significant digit first.
pub fn dec_bytes(n: usize) -> (r: Vec<u8>)
    ensures
        r@ == dec_digits(n as nat),
{
    let mut digits: Vec<u8> = Vec::new();
    digits.push((n % 10) as u8 + 48);
    let mut m: usize = n / 10;
    proof {
        lemma_fundamental_div_mod(n as int, 10);
        lemma_mod_bound(n as int, 10);
        if n < 10 {
            assert(n % 10 == n) by {
                vstd::arithmetic::div_mod::lemma_small_mod(n as nat, 10);
            };
            assert(digits@ =~= dec_digits(n as nat));
        } else {
            assert(dec_digits(n as nat) =~= dec_digits((n / 10) as nat) + digits@);
        }
    }
    while m > 0
        invariant
            if m > 0 {
                dec_digits(n as nat) == dec_digits(m as nat) + digits@
            } else {
                dec_digits(n as nat) == digits@
            },
        decreases m,
    {
        let ghost m_pre: nat = m as nat;
        let ghost digits_pre = digits@;
        let d: u8 = (m % 10) as u8 + 48;
        digits.insert(0, d);
        m = m / 10;
        proof {
            lemma_fundamental_div_mod(m_pre as int, 10);
            lemma_mod_bound(m_pre as int, 10);
            assert(digits@ =~= seq![d] + digits_pre);
            if m_pre < 10 {
                vstd::arithmetic::div_mod::lemma_small_mod(m_pre, 10);
                assert(dec_digits(m_pre) =~= seq![d]);
                assert(dec_digits(n as nat) =~= digits@);
            } else {
                assert(dec_digits(m_pre) == dec_digits(m_pre / 10).push(d));
                assert(dec_digits(m_pre) =~= dec_digits(m_pre / 10) + seq![d]);
                assert(dec_digits(n as nat) =~= dec_digits(m as nat) + digits@);
            }
        }
    }
    digits
}

/// The ASCII bytes of `"Content-Length: "`, the fixed start of every header.
pub open spec fn header_prefix() -> Seq<u8> {
    seq![
        67u8, 111u8, 110u8, 116u8, 101u8, 110u8, 116u8, 45u8,
        76u8, 101u8, 110u8, 103u8, 116u8, 104u8, 58u8, 32u8,
    ]
}

/// A carriage return followed by a line feed.
pub open spec fn crlf() -> Seq<u8> {
    seq![13u8, 10u8]
}

/// The header announcing a body of `n` bytes, ending with the CRLF pair and
/// the blank line that separates it from the body.
pub open spec fn header_of(n: nat) -> Seq<u8> {
    header_prefix() + dec_digits(n) + crlf() + crlf()
}

/// One complete wire frame: the header for the body's byte length, the body
/// itself, and a trailing CRLF.
pub open spec fn frame_of(body: Seq<u8>) -> Seq<u8> {
    header_of(body.len()) + body + crlf()
}

/// The length a frame's header declares is exactly the byte length of the
/// body that follows it: the digit run between the fixed prefix and the
/// CRLF pairs reads back as the body's length.
pub proof fn lemma_declared_length(body: Seq<u8>)
    ensures
        frame_of(body) == header_prefix() + dec_digits(body.len()) + crlf() + crlf() + body
            + crlf(),
        dec_value(dec_digits(body.len())) == body.len(),
{
    lemma_dec_digits_value(body.len());
    assert(frame_of(body) =~= header_prefix() + dec_digits(body.len()) + crlf() + crlf() + body
        + crlf());
}

/// Encode one complete frame around `body`.
pub fn encode_frame(body: &Vec<u8>) -> (r: Vec<u8>)
    ensures
        r@ == frame_of(body@),
{
    let mut out: Vec<u8> = Vec::new();
    // the bytes of "Content-Length: ", as header_prefix lists them
    out.push(67);
    out.push(111);
    out.push(110);
    out.push(116);
    out.push(101);
    out.push(110);
    out.push(116);
    out.push(45);
    out.push(76);
    out.push(101);
    out.push(110);
    out.push(103);
    out.push(116);
    out.push(104);
    out.push(58);
    out.push(32);
    proof {
        assert(out@ =~= header_prefix());
    }
    let mut digits = dec_bytes(body.len());
    out.append(&mut digits);
    out.push(13);
    out.push(10);
    out.push(13);
    out.push(10);
    proof {
        assert(out@ =~= header_of(body@.len()));
    }
    let ghost header = out@;
    let mut i: usize = 0;
    while i < body.len()
        invariant
            i <= body@.len(),
            out@ == header + body@.subrange(0, i as int),
            header == header_of(body@.len()),
        decreases body@.len() - i,
    {
        out.push(body[i]);
        i = i + 1;
        proof {
            assert(out@ =~= header + body@.subrange(0, i as int));
        }
    }
    proof {
        assert(body@.subrange(0, body@.len() as int) =~= body@);
    }
    out.push(13);
    out.push(10);
    proof {
        assert(out@ =~= frame_of(body@));
    }
    out
}

} // verus!
