//! Text forms of IP addresses, as ASCII bytes: dotted decimal for IPv4, and
//! for IPv6 lowercase hexadecimal groups with the first longest run of two
//! or more zero groups written `::` (an IPv4-mapped address ends in dotted
//! decimal).
use vstd::prelude::*;

verus! {

pub const COLON: u8 = 58;
pub const DOT: u8 = 46;

/// The ASCII digit for `d` (below 16), lowercase.
pub open spec fn digit_char(d: nat) -> u8 {
    if d < 10 {
        (48 + d) as u8
    } else {
        (87 + d) as u8
    }
}

/// `n` in decimal, without leading zeros.
pub open spec fn decimal(n: nat) -> Seq<u8>
    decreases n,
{
    if n < 10 {
        seq![digit_char(n)]
    } else {
        decimal(n / 10).push(digit_char(n % 10))
    }
}

/// `n` in lowercase hexadecimal, without leading zeros.
pub open spec fn hexadecimal(n: nat) -> Seq<u8>
    decreases n,
{
    if n < 16 {
        seq![digit_char(n)]
    } else {
        hexadecimal(n / 16).push(digit_char(n % 16))
    }
}

/// Four octets in dotted decimal.
pub open spec fn ipv4_text(o: Seq<u8>) -> Seq<u8> {
    decimal(o[0] as nat) + seq![DOT] + decimal(o[1] as nat) + seq![DOT] + decimal(o[2] as nat)
        + seq![DOT] + decimal(o[3] as nat)
}

/// Groups in hexadecimal, separated by colons.
pub open spec fn hex_groups(s: Seq<u16>) -> Seq<u8>
    decreases s.len(),
{
    if s.len() == 0 {
        Seq::empty()
    } else if s.len() == 1 {
        hexadecimal(s[0] as nat)
    } else {
        hex_groups(s.drop_last()) + seq![COLON] + hexadecimal(s.last() as nat)
    }
}

/// The number of zero groups in the run that starts at `i`.
pub open spec fn zero_run(s: Seq<u16>, i: int) -> nat
    decreases s.len() - i,
{
    if 0 <= i < s.len() && s[i] == 0 {
        1 + zero_run(s, i + 1)
    } else {
        0
    }
}

/// Among the positions before `k`, the first at which the longest run of
/// zero groups starts (0 when `k` is 0).
pub open spec fn longest_zero_run(s: Seq<u16>, k: int) -> int
    decreases k,
{
    if k <= 0 {
        0
    } else {
        let b = longest_zero_run(s, k - 1);
        if zero_run(s, k - 1) > zero_run(s, b) {
            k - 1
        } else {
            b
        }
    }
}

/// Whether eight groups form an IPv4-mapped address, `::ffff:a.b.c.d`.
pub open spec fn is_ipv4_mapped(s: Seq<u16>) -> bool {
    &&& s[0] == 0 && s[1] == 0 && s[2] == 0 && s[3] == 0 && s[4] == 0
    &&& s[5] == 0xffff
}

/// Eight groups as text.
pub open spec fn ipv6_text(s: Seq<u16>) -> Seq<u8> {
    if is_ipv4_mapped(s) {
        seq![COLON, COLON, 102u8, 102u8, 102u8, 102u8, COLON] + ipv4_text(
            seq![(s[6] / 256) as u8, (s[6] % 256) as u8, (s[7] / 256) as u8, (s[7] % 256) as u8],
        )
    } else {
        let b = longest_zero_run(s, 8);
        let n = zero_run(s, b) as int;
        if n > 1 {
            hex_groups(s.take(b)) + seq![COLON, COLON] + hex_groups(s.skip(b + n))
        } else {
            hex_groups(s)
        }
    }
}

/// Appends `n` in decimal.
pub fn push_decimal(out: &mut Vec<u8>, n: u32)
    ensures
        final(out)@ == old(out)@ + decimal(n as nat),
    decreases n,
{
    if n >= 10 {
        push_decimal(out, n / 10);
    }
    out.push(48 + (n % 10) as u8);
    assert(final(out)@ =~= old(out)@ + decimal(n as nat));
}

/// Appends `n` in lowercase hexadecimal.
pub fn push_hex(out: &mut Vec<u8>, n: u32)
    ensures
        final(out)@ == old(out)@ + hexadecimal(n as nat),
    decreases n,
{
    if n >= 16 {
        push_hex(out, n / 16);
    }
    let d = (n % 16) as u8;
    if d < 10 {
        out.push(48 + d);
    } else {
        out.push(87 + d);
    }
    assert(final(out)@ =~= old(out)@ + hexadecimal(n as nat));
}

/// Appends four octets in dotted decimal.
pub fn push_ipv4(out: &mut Vec<u8>, o: [u8; 4])
    ensures
        final(out)@ == old(out)@ + ipv4_text(o@),
{
    push_decimal(out, o[0] as u32);
    out.push(DOT);
    push_decimal(out, o[1] as u32);
    out.push(DOT);
    push_decimal(out, o[2] as u32);
    out.push(DOT);
    push_decimal(out, o[3] as u32);
    assert(final(out)@ =~= old(out)@ + ipv4_text(o@));
}

/// Appends the groups `s[lo..hi]` separated by colons.
fn push_hex_groups(out: &mut Vec<u8>, s: [u16; 8], lo: usize, hi: usize)
    requires
        lo <= hi <= 8,
    ensures
        final(out)@ == old(out)@ + hex_groups(s@.subrange(lo as int, hi as int)),
{
    let mut i: usize = lo;
    while i < hi
        invariant
            lo <= i <= hi <= 8,
            out@ == old(out)@ + hex_groups(s@.subrange(lo as int, i as int)),
        decreases hi - i,
    {
        let ghost before = out@;
        if i > lo {
            out.push(COLON);
        }
        push_hex(out, s[i] as u32);
        let ghost t = s@.subrange(lo as int, i as int + 1);
        assert(t.drop_last() =~= s@.subrange(lo as int, i as int));
        assert(out@ =~= old(out)@ + hex_groups(t));
        i = i + 1;
    }
}

/// The length of the run of zero groups that starts at `i`.
fn zero_run_at(s: [u16; 8], i: usize) -> (r: usize)
    requires
        i <= 8,
    ensures
        r == zero_run(s@, i as int),
        i + r <= 8,
{
    let mut j: usize = i;
    while j < 8 && s[j] == 0
        invariant
            i <= j <= 8,
            zero_run(s@, i as int) == (j - i) + zero_run(s@, j as int),
        decreases 8 - j,
    {
        j = j + 1;
    }
    j - i
}

proof fn lemma_zero_run_fits(s: Seq<u16>, i: int)
    requires
        0 <= i <= s.len(),
    ensures
        i + zero_run(s, i) <= s.len(),
    decreases s.len() - i,
{
    if i < s.len() {
        lemma_zero_run_fits(s, i + 1);
    }
}

/// Appends the text of eight groups.
pub fn push_ipv6(out: &mut Vec<u8>, s: [u16; 8])
    ensures
        final(out)@ == old(out)@ + ipv6_text(s@),
{
    if s[0] == 0 && s[1] == 0 && s[2] == 0 && s[3] == 0 && s[4] == 0 && s[5] == 0xffff {
        out.push(COLON);
        out.push(COLON);
        out.push(102);
        out.push(102);
        out.push(102);
        out.push(102);
        out.push(COLON);
        let o = [(s[6] / 256) as u8, (s[6] % 256) as u8, (s[7] / 256) as u8, (s[7] % 256) as u8];
        let ghost mid = out@;
        push_ipv4(out, o);
        assert(o@ =~= seq![(s@[6] / 256) as u8, (s@[6] % 256) as u8, (s@[7] / 256) as u8, (s@[7] % 256) as u8]);
        assert(final(out)@ =~= old(out)@ + ipv6_text(s@));
        return;
    }
    let mut best: usize = 0;
    let mut best_len: usize = zero_run_at(s, 0);
    let mut k: usize = 1;
    assert(longest_zero_run(s@, 0) == 0);
    assert(longest_zero_run(s@, 1) == 0);
    while k < 8
        invariant
            1 <= k <= 8,
            best < 8,
            best as int == longest_zero_run(s@, k as int),
            best_len == zero_run(s@, best as int),
        decreases 8 - k,
    {
        let r = zero_run_at(s, k);
        if r > best_len {
            best = k;
            best_len = r;
        }
        k = k + 1;
    }
    proof {
        lemma_zero_run_fits(s@, best as int);
    }
    if best_len > 1 {
        push_hex_groups(out, s, 0, best);
        out.push(COLON);
        out.push(COLON);
        push_hex_groups(out, s, best + best_len, 8);
        assert(s@.subrange(0, best as int) =~= s@.take(best as int));
        assert(s@.subrange((best + best_len) as int, 8) =~= s@.skip((best + best_len) as int));
    } else {
        push_hex_groups(out, s, 0, 8);
        assert(s@.subrange(0, 8) =~= s@);
    }
    assert(final(out)@ =~= old(out)@ + ipv6_text(s@));
}

/// What `String::from_utf8_lossy` makes of some bytes.
pub uninterp spec fn utf8_lossy(b: Seq<u8>) -> Seq<char>;

/// Relies on `String::from_utf8_lossy`: the text of `b`, each invalid UTF-8
/// sequence replaced; it depends on the bytes alone.
#[verifier::external_body]
pub(crate) fn lossy_string(b: &[u8]) -> (r: String)
    ensures
        r@ == utf8_lossy(b@),
{
    String::from_utf8_lossy(b).into_owned()
}

} // verus!
