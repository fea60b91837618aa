//! Base-128 variable-length integers, the primitive of the wire format.
//!
//! A varint is a little-endian run of seven-bit groups; the high bit of each
//! byte marks a continuation.  The wire admits runs of at most ten bytes and
//! values below 2^64; the encoder always emits the canonical, shortest run.

use vstd::prelude::*;

verus! {

/// One more than the largest value a varint may carry.
pub open spec fn varint_limit() -> nat {
    0x1_0000_0000_0000_0000
}

/// The canonical varint encoding of a number.
pub open spec fn spec_varint(n: nat) -> Seq<u8>
    decreases n,
{
    if n < 128 {
        seq![n as u8]
    } else {
        seq![(n % 128 + 128) as u8] + spec_varint(n / 128)
    }
}

/// Parses one varint from the front of a byte sequence, giving its value and
/// the number of bytes consumed.  `fuel` caps the accepted run length, so
/// parsing fails on an empty input, a truncated run, or a run longer than the
/// cap.  The value is unbounded here; the wire-level cap is applied on top.
pub open spec fn spec_parse_varint_rec(s: Seq<u8>, fuel: nat) -> Option<(nat, int)>
    decreases fuel,
{
    if fuel == 0 || s.len() == 0 {
        None
    } else if s[0] < 128 {
        Some((s[0] as nat, 1))
    } else {
        match spec_parse_varint_rec(s.drop_first(), (fuel - 1) as nat) {
            None => None,
            Some((v, k)) => Some(((s[0] - 128) as nat + 128 * v, k + 1)),
        }
    }
}

/// Parses one varint as the wire admits it: at most ten bytes, value below
/// 2^64.
pub open spec fn spec_parse_varint(s: Seq<u8>) -> Option<(nat, int)> {
    match spec_parse_varint_rec(s, 10) {
        None => None,
        Some((v, k)) => if v < varint_limit() {
            Some((v, k))
        } else {
            None
        },
    }
}

/// A parsed varint consumed between one byte and the whole input, and no
/// more than the fuel allowed.
pub proof fn lemma_parse_varint_rec_len(s: Seq<u8>, fuel: nat)
    ensures
        spec_parse_varint_rec(s, fuel) matches Some(r) ==> 1 <= r.1 <= s.len() && r.1 <= fuel,
    decreases fuel,
{
    if fuel > 0 && s.len() > 0 && s[0] >= 128 {
        lemma_parse_varint_rec_len(s.drop_first(), (fuel - 1) as nat);
    }
}

/// Powers of 128, used to bound encoding lengths.
pub open spec fn pow128(k: nat) -> nat
    decreases k,
{
    if k == 0 {
        1
    } else {
        128 * pow128((k - 1) as nat)
    }
}

/// A number below `128^k` encodes in at most `k` bytes.
pub proof fn lemma_varint_len_bound(n: nat, k: nat)
    requires
        k >= 1,
        n < pow128(k),
    ensures
        spec_varint(n).len() <= k,
    decreases k,
{
    if n >= 128 {
        assert(n / 128 < pow128((k - 1) as nat)) by {
            assert(pow128(k) == 128 * pow128((k - 1) as nat));
        };
        lemma_varint_len_bound(n / 128, (k - 1) as nat);
    }
}

/// Every wire-admissible value encodes in at most ten bytes.
pub proof fn lemma_varint_len_ten(n: nat)
    requires
        n < varint_limit(),
    ensures
        spec_varint(n).len() <= 10,
{
    reveal_with_fuel(pow128, 11);
    assert(pow128(10) > varint_limit());
    lemma_varint_len_bound(n, 10);
}

/// Parsing inverts encoding: a canonical varint at the front of a sequence
/// parses back to its value, consuming exactly its own bytes.
pub proof fn lemma_parse_varint_rec_enc(n: nat, rest: Seq<u8>, fuel: nat)
    requires
        spec_varint(n).len() <= fuel,
    ensures
        spec_parse_varint_rec(spec_varint(n) + rest, fuel) == Some(
            (n, spec_varint(n).len() as int),
        ),
    decreases n,
{
    let s = spec_varint(n) + rest;
    if n < 128 {
        assert(s[0] == n as u8);
    } else {
        let head = (n % 128 + 128) as u8;
        assert(s[0] == head);
        assert(s.drop_first() =~= spec_varint(n / 128) + rest);
        lemma_parse_varint_rec_enc(n / 128, rest, (fuel - 1) as nat);
        assert((head - 128) as nat + 128 * (n / 128) == n);
    }
}

/// Parsing inverts encoding under the wire-level caps.
pub proof fn lemma_parse_varint_enc(n: nat, rest: Seq<u8>)
    requires
        n < varint_limit(),
    ensures
        spec_parse_varint(spec_varint(n) + rest) == Some((n, spec_varint(n).len() as int)),
{
    lemma_varint_len_ten(n);
    lemma_parse_varint_rec_enc(n, rest, 10);
}

/// Outcome of one low-level varint read.
enum VarintRead {
    /// A value within the wire's range, and the bytes consumed.
    Value(u64, usize),
    /// A syntactically complete varint whose value does not fit the wire.
    Overflow,
    /// No complete varint within the admitted run length.
    Fail,
}

/// Reads one varint from `s` at `pos`, mirroring `spec_parse_varint_rec`.
fn read_varint_rec(s: &[u8], pos: usize, fuel: u8) -> (r: VarintRead)
    requires
        pos <= s@.len(),
    ensures
        match spec_parse_varint_rec(s@.skip(pos as int), fuel as nat) {
            Some(vk) => if vk.0 < varint_limit() {
                r matches VarintRead::Value(v, k) && v == vk.0 && k == vk.1
            } else {
                r is Overflow
            },
            None => r is Fail,
        },
    decreases fuel,
{
    if fuel == 0 || pos == s.len() {
        return VarintRead::Fail;
    }
    let b = *vstd::slice::slice_index_get(s, pos);
    if b < 128 {
        return VarintRead::Value(b as u64, 1);
    }
    proof {
        assert(s@.skip(pos as int).drop_first() =~= s@.skip(pos as int + 1));
    }
    match read_varint_rec(s, pos + 1, fuel - 1) {
        VarintRead::Fail => VarintRead::Fail,
        VarintRead::Overflow => {
            proof {
                let sub = spec_parse_varint_rec(s@.skip(pos as int + 1), (fuel - 1) as nat);
                match sub {
                    Some(vk) => {
                        assert(vk.0 <= 128 * vk.0) by (nonlinear_arith)
                            requires vk.0 >= 0;
                    },
                    None => {},
                }
            }
            VarintRead::Overflow
        },
        VarintRead::Value(v, k) => {
            proof {
                lemma_parse_varint_rec_len(s@.skip(pos as int + 1), (fuel - 1) as nat);
            }
            let low = (b - 128) as u64;
            match v.checked_mul(128) {
                None => VarintRead::Overflow,
                Some(m) => match m.checked_add(low) {
                    None => VarintRead::Overflow,
                    Some(total) => VarintRead::Value(total, k + 1),
                },
            }
        },
    }
}

/// Reads one varint from `s` at `pos` as the wire admits it: the value and
/// the bytes consumed, or nothing when no admissible varint starts there.
pub fn read_varint(s: &[u8], pos: usize) -> (r: Option<(u64, usize)>)
    requires
        pos <= s@.len(),
    ensures
        match spec_parse_varint(s@.skip(pos as int)) {
            Some(vk) => r matches Some(p) && p.0 == vk.0 && p.1 == vk.1 && 1 <= vk.1 && pos
                + vk.1 <= s@.len(),
            None => r is None,
        },
{
    proof {
        lemma_parse_varint_rec_len(s@.skip(pos as int), 10);
    }
    match read_varint_rec(s, pos, 10) {
        VarintRead::Value(v, k) => Some((v, k)),
        VarintRead::Overflow => None,
        VarintRead::Fail => None,
    }
}

/// Appends the canonical varint encoding of `n` to `out`.
pub fn write_varint(out: &mut Vec<u8>, n: u64)
    ensures
        final(out)@ == old(out)@ + spec_varint(n as nat),
    decreases n,
{
    if n < 128 {
        out.push(n as u8);
        proof {
            assert(out@ =~= old(out)@ + spec_varint(n as nat));
        }
    } else {
        out.push((n % 128 + 128) as u8);
        write_varint(out, n / 128);
        proof {
            assert(out@ =~= old(out)@ + spec_varint(n as nat));
        }
    }
}

} // verus!
