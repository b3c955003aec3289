//! ASN.1 DER length encoding: the primitive used to build the signature
//! container's tag/length/value triples.
use vstd::prelude::*;

verus! {

/// Minimal-width big-endian bytes of `n` (empty for zero).
pub open spec fn spec_be_bytes(n: nat) -> Seq<u8>
    decreases n,
{
    if n == 0 {
        Seq::empty()
    } else {
        spec_be_bytes(n / 256).push((n % 256) as u8)
    }
}

/// The natural number a big-endian byte sequence stands for.
pub open spec fn spec_from_be(s: Seq<u8>) -> nat
    decreases s.len(),
{
    if s.len() == 0 {
        0
    } else {
        (spec_from_be(s.drop_last()) * 256 + s.last()) as nat
    }
}

/// DER encoding of a length: one byte below 128, otherwise
/// `0x80 | k` followed by the `k` minimal big-endian bytes.
pub open spec fn spec_der_length(n: nat) -> Seq<u8> {
    if n < 128 {
        seq![n as u8]
    } else {
        seq![(128 + spec_be_bytes(n).len()) as u8] + spec_be_bytes(n)
    }
}

/// Reading a DER length encoding back; `None` on a malformed sequence.
pub open spec fn spec_decode_der_length(s: Seq<u8>) -> Option<nat> {
    if s.len() == 0 {
        None
    } else if s[0] < 128 {
        if s.len() == 1 {
            Some(s[0] as nat)
        } else {
            None
        }
    } else if s.len() == 1 + (s[0] - 128) {
        Some(spec_from_be(s.skip(1)))
    } else {
        None
    }
}

/// 256 to the power `k`.
pub open spec fn pow256(k: nat) -> nat
    decreases k,
{
    if k == 0 {
        1
    } else {
        256 * pow256((k - 1) as nat)
    }
}

proof fn lemma_be_bytes_len(n: nat, k: nat)
    requires
        n < pow256(k),
    ensures
        spec_be_bytes(n).len() <= k,
    decreases k,
{
    if n > 0 {
        assert(k > 0);
        assert(n / 256 < pow256((k - 1) as nat)) by {
            assert(pow256(k) == 256 * pow256((k - 1) as nat));
        }
        lemma_be_bytes_len(n / 256, (k - 1) as nat);
    }
}

proof fn lemma_usize_fits_8_bytes(n: usize)
    ensures
        spec_be_bytes(n as nat).len() <= 8,
{
    assert(pow256(8) == 0x1_0000_0000_0000_0000) by {
        reveal_with_fuel(pow256, 9);
    }
    assert(usize::MAX <= u64::MAX);
    lemma_be_bytes_len(n as nat, 8);
}

/// Encodes a length in DER form: `[n]` when `n < 128`, otherwise
/// `0x80 | k` followed by the `k` minimal big-endian bytes of `n`.
pub fn encode_der_length(len: usize) -> (r: Vec<u8>)
    ensures
        r@ == spec_der_length(len as nat),
{
    if len < 128 {
        let mut v: Vec<u8> = Vec::new();
        v.push(len as u8);
        assert(v@ =~= spec_der_length(len as nat));
        v
    } else {
        let mut bytes: Vec<u8> = Vec::new();
        let mut l: usize = len;
        while l > 0
            invariant
                spec_be_bytes(len as nat) =~= spec_be_bytes(l as nat) + bytes@,
            decreases l,
        {
            let b: u8 = (l % 256) as u8;
            let ghost prev = bytes@;
            bytes.insert(0, b);
            assert(bytes@ =~= seq![b] + prev);
            l = l / 256;
        }
        assert(bytes@ =~= spec_be_bytes(len as nat));
        proof {
            lemma_usize_fits_8_bytes(len);
        }
        let tag: u8 = 128 + (bytes.len() as u8);
        let mut r: Vec<u8> = Vec::new();
        r.push(tag);
        r.append(&mut bytes);
        assert(r@ =~= spec_der_length(len as nat));
        r
    }
}

/// Decoding a DER length encoding reproduces the length exactly:
/// for every `n` that fits the machine's word, reading
/// `spec_der_length(n)` back gives `n`.
pub proof fn lemma_der_length_round_trip(n: nat)
    requires
        n <= usize::MAX,
    ensures
        spec_decode_der_length(spec_der_length(n)) == Some(n),
{
    if n < 128 {
        assert(spec_der_length(n) == seq![n as u8]);
    } else {
        let be = spec_be_bytes(n);
        assert(pow256(8) == 0x1_0000_0000_0000_0000) by {
            reveal_with_fuel(pow256, 9);
        }
        assert(usize::MAX <= u64::MAX);
        lemma_be_bytes_len(n, 8);
        assert(be.len() >= 1);
        let r = spec_der_length(n);
        assert(r[0] == 128 + be.len());
        assert(r.skip(1) =~= be);
        lemma_from_be_of_be_bytes(n);
    }
}

proof fn lemma_from_be_of_be_bytes(n: nat)
    ensures
        spec_from_be(spec_be_bytes(n)) == n,
    decreases n,
{
    if n > 0 {
        lemma_from_be_of_be_bytes(n / 256);
        let s = spec_be_bytes(n);
        assert(s.drop_last() =~= spec_be_bytes(n / 256));
        assert(s.last() == n % 256);
    }
}

} // verus!
