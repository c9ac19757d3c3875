use vstd::prelude::*;
use vstd::string::StringSliceAdditionalSpecFns;

verus! {

/// Bytes that may stand in a path segment as they are: ASCII letters, digits and `-`, `.`, `_`, `~`.
pub open spec fn is_unreserved(b: u8) -> bool {
    (0x41 <= b && b <= 0x5A) || (0x61 <= b && b <= 0x7A) || (0x30 <= b && b <= 0x39) || b == 0x2D
        || b == 0x2E || b == 0x5F || b == 0x7E
}

/// The upper-case hexadecimal digit for a value below sixteen.
pub open spec fn hex_digit(n: u8) -> u8
    recommends
        n < 16,
{
    if n < 10 {
        (0x30 + n) as u8
    } else {
        (0x37 + n) as u8
    }
}

/// One byte of an identifier as it stands in a path: itself, or `%` and two hex digits.
pub open spec fn encode_byte(b: u8) -> Seq<u8> {
    if is_unreserved(b) {
        seq![b]
    } else {
        seq![0x25u8, hex_digit(b / 16), hex_digit(b % 16)]
    }
}

/// The percent-encoded form of a byte sequence, byte by byte.
pub open spec fn percent_encoded(s: Seq<u8>) -> Seq<u8>
    decreases s.len(),
{
    if s.len() == 0 {
        Seq::empty()
    } else {
        percent_encoded(s.drop_last()) + encode_byte(s.last())
    }
}

/// The decimal digits of a natural number, most significant first.
pub open spec fn digits(n: nat) -> Seq<u8>
    decreases n,
{
    if n < 10 {
        seq![(0x30 + n) as u8]
    } else {
        digits(n / 10) + seq![(0x30 + n % 10) as u8]
    }
}

/// The canonical decimal form of an integer: digits with no separators, `-` before a negative one.
pub open spec fn decimal(n: int) -> Seq<u8> {
    if n < 0 {
        seq![0x2Du8] + digits((-n) as nat)
    } else {
        digits(n as nat)
    }
}

/// Whether `b` may stand unencoded in a path segment.
pub fn unreserved(b: u8) -> (r: bool)
    ensures
        r == is_unreserved(b),
{
    (0x41 <= b && b <= 0x5A) || (0x61 <= b && b <= 0x7A) || (0x30 <= b && b <= 0x39) || b == 0x2D
        || b == 0x2E || b == 0x5F || b == 0x7E
}

fn hex(n: u8) -> (r: u8)
    requires
        n < 16,
    ensures
        r == hex_digit(n),
{
    if n < 10 {
        0x30 + n
    } else {
        0x37 + n
    }
}

/// Appends the bytes of `s` to `out`.
pub fn push_bytes(out: &mut Vec<u8>, s: &[u8])
    ensures
        final(out)@ == old(out)@ + s@,
{
    let mut i: usize = 0;
    while i < s.len()
        invariant
            i <= s@.len(),
            out@ == old(out)@ + s@.subrange(0, i as int),
        decreases s@.len() - i,
    {
        out.push(s[i]);
        proof {
            assert(s@.subrange(0, i + 1) =~= s@.subrange(0, i as int).push(s@[i as int]));
        }
        i = i + 1;
    }
    proof {
        assert(s@.subrange(0, s@.len() as int) =~= s@);
    }
}

/// Appends the UTF-8 bytes of `s` to `out`.
pub fn push_str(out: &mut Vec<u8>, s: &str)
    ensures
        final(out)@ == old(out)@ + s.spec_bytes(),
{
    push_bytes(out, s.as_bytes());
}

/// Appends the percent-encoded form of `s` to `out`.
pub fn push_encoded(out: &mut Vec<u8>, s: &[u8])
    ensures
        final(out)@ == old(out)@ + percent_encoded(s@),
{
    let mut i: usize = 0;
    while i < s.len()
        invariant
            i <= s@.len(),
            out@ == old(out)@ + percent_encoded(s@.subrange(0, i as int)),
        decreases s@.len() - i,
    {
        let b = s[i];
        let ghost before = out@;
        if unreserved(b) {
            out.push(b);
        } else {
            out.push(0x25);
            out.push(hex(b / 16));
            out.push(hex(b % 16));
        }
        proof {
            let next = s@.subrange(0, i + 1);
            assert(next.drop_last() =~= s@.subrange(0, i as int));
            assert(next.last() == b);
            assert(out@ =~= before + encode_byte(b));
            assert(out@ =~= old(out)@ + percent_encoded(next));
        }
        i = i + 1;
    }
    proof {
        assert(s@.subrange(0, s@.len() as int) =~= s@);
    }
}

/// The percent-encoded form of an identifier, ready to stand as one path segment.
pub fn encode_path(segment: &str) -> (r: Vec<u8>)
    ensures
        r@ == percent_encoded(segment.spec_bytes()),
{
    let mut out: Vec<u8> = Vec::new();
    push_encoded(&mut out, segment.as_bytes());
    proof {
        assert(out@ =~= Seq::<u8>::empty() + percent_encoded(segment.spec_bytes()));
    }
    out
}

/// Appends the decimal digits of `n` to `out`.
pub fn push_digits(out: &mut Vec<u8>, n: u64)
    ensures
        final(out)@ == old(out)@ + digits(n as nat),
    decreases n,
{
    if n >= 10 {
        push_digits(out, n / 10);
    }
    out.push((0x30 + n % 10) as u8);
    proof {
        assert(out@ =~= old(out)@ + digits(n as nat));
    }
}

/// Appends the canonical decimal form of `n` to `out`.
pub fn push_decimal(out: &mut Vec<u8>, n: i64)
    ensures
        final(out)@ == old(out)@ + decimal(n as int),
{
    if n < 0 {
        out.push(0x2D);
        let m: u64 = (0 - (n as i128)) as u64;
        push_digits(out, m);
        proof {
            assert(out@ =~= old(out)@ + decimal(n as int));
        }
    } else {
        push_digits(out, n as u64);
    }
}

/// The canonical decimal form of `n`.
pub fn to_decimal(n: i64) -> (r: Vec<u8>)
    ensures
        r@ == decimal(n as int),
{
    let mut out: Vec<u8> = Vec::new();
    push_decimal(&mut out, n);
    proof {
        assert(out@ =~= Seq::<u8>::empty() + decimal(n as int));
    }
    out
}

/// An encoded identifier holds only unreserved bytes and `%`: no `/`, `?`, `#` or space of
/// the identifier reaches the path raw.
pub proof fn lemma_encoded_has_no_delimiters(s: Seq<u8>)
    ensures
        forall|i: int|
            0 <= i < percent_encoded(s).len() ==> {
                let b = #[trigger] percent_encoded(s)[i];
                (is_unreserved(b) || b == 0x25) && b != 0x2F && b != 0x3F && b != 0x23 && b != 0x20
            },
    decreases s.len(),
{
    if s.len() > 0 {
        lemma_encoded_has_no_delimiters(s.drop_last());
        let p = percent_encoded(s.drop_last());
        let e = encode_byte(s.last());
        assert forall|i: int| 0 <= i < percent_encoded(s).len() implies {
            let b = #[trigger] percent_encoded(s)[i];
            (is_unreserved(b) || b == 0x25) && b != 0x2F && b != 0x3F && b != 0x23 && b != 0x20
        } by {
            if i < p.len() {
                assert(percent_encoded(s)[i] == p[i]);
            } else {
                let x = s.last();
                assert(percent_encoded(s)[i] == e[i - p.len()]);
                if !is_unreserved(x) {
                    assert(x / 16 < 16);
                    assert(x % 16 < 16);
                }
            }
        }
    }
}

} // verus!
