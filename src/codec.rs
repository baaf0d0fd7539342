//! Byte-level encoding used by storage keys and calls.
use parity_scale_codec::{Compact, Encode};
use vstd::prelude::*;

verus! {

/// The `n` lowest bytes of `v`, least significant first.
pub open spec fn le_bytes(v: nat, n: nat) -> Seq<u8>
    decreases n,
{
    if n == 0 {
        Seq::empty()
    } else {
        seq![(v % 256) as u8] + le_bytes(v / 256, (n - 1) as nat)
    }
}

/// How many bytes `v` takes without leading zero bytes.
pub open spec fn byte_len(v: nat) -> nat
    decreases v,
{
    if v == 0 {
        0
    } else {
        1 + byte_len(v / 256)
    }
}

/// The SCALE compact encoding of an unsigned integer: the two low bits of
/// the first byte give the mode; one, two or four bytes hold `v` shifted
/// left by two, and larger values follow a length byte.
pub open spec fn compact_of(v: u128) -> Seq<u8> {
    if v < 0x40 {
        seq![(v * 4) as u8]
    } else if v < 0x4000 {
        le_bytes((v * 4 + 1) as nat, 2)
    } else if v < 0x4000_0000 {
        le_bytes((v * 4 + 2) as nat, 4)
    } else {
        let n = byte_len(v as nat);
        seq![((n - 4) * 4 + 3) as u8] + le_bytes(v as nat, n)
    }
}

/// Relies on `parity_scale_codec::Compact::<u128>::encode`, which writes the
/// compact encoding of `v`.
#[verifier::external_body]
pub(crate) fn encode_compact(v: u128) -> (r: Vec<u8>)
    ensures
        r@ == compact_of(v),
{
    Compact(v).encode()
}

/// The value of a little-endian byte sequence.
pub open spec fn le_value(s: Seq<u8>) -> nat
    decreases s.len(),
{
    if s.len() == 0 {
        0
    } else {
        s[0] as nat + 256 * le_value(s.drop_first())
    }
}

pub open spec fn pow256(n: nat) -> nat
    decreases n,
{
    if n == 0 {
        1
    } else {
        256 * pow256((n - 1) as nat)
    }
}

proof fn lemma_le_value_bound(s: Seq<u8>)
    ensures
        le_value(s) < pow256(s.len()),
    decreases s.len(),
{
    if s.len() > 0 {
        lemma_le_value_bound(s.drop_first());
        let a = s[0] as nat;
        let b = le_value(s.drop_first());
        let p = pow256(s.drop_first().len());
        assert(a + 256 * b < 256 * p) by (nonlinear_arith)
            requires
                a < 256,
                b < p,
        ;
    }
}

proof fn lemma_pow256_mono(m: nat, n: nat)
    requires
        m <= n,
    ensures
        pow256(m) <= pow256(n),
    decreases n,
{
    if m < n {
        lemma_pow256_mono(m, (n - 1) as nat);
    }
}

/// Reads an unsigned integer of `width` bytes, least significant first, from
/// the front of `b`. Bytes past `width` are left unread.
pub fn decode_le(b: &Vec<u8>, width: usize) -> (r: Option<u128>)
    requires
        width <= 16,
    ensures
        match r {
            Some(v) => b@.len() >= width && v as nat == le_value(b@.subrange(0, width as int)),
            None => b@.len() < width,
        },
{
    if b.len() < width {
        return None;
    }
    let mut v: u128 = 0;
    let mut i: usize = width;
    proof {
        reveal_with_fuel(pow256, 17);
        assert(pow256(16) == 0x1_0000_0000_0000_0000_0000_0000_0000_0000nat);
    }
    while i > 0
        invariant
            i <= width <= 16,
            width <= b@.len(),
            pow256(16) == 0x1_0000_0000_0000_0000_0000_0000_0000_0000nat,
            v as nat == le_value(b@.subrange(i as int, width as int)),
        decreases i,
    {
        let ghost tail = b@.subrange(i as int, width as int);
        let ghost next = b@.subrange(i - 1, width as int);
        proof {
            assert(next.drop_first() =~= tail);
            lemma_le_value_bound(next);
            lemma_pow256_mono(next.len(), 16);
        }
        v = (b[i - 1] as u128) + 256 * v;
        i = i - 1;
    }
    Some(v)
}

/// Appends `src` to `dst`.
pub(crate) fn append_bytes(dst: &mut Vec<u8>, src: &[u8])
    ensures
        final(dst)@ == old(dst)@ + src@,
{
    let mut i: usize = 0;
    while i < src.len()
        invariant
            i <= src@.len(),
            dst@ == old(dst)@ + src@.subrange(0, i as int),
        decreases src@.len() - i,
    {
        dst.push(src[i]);
        i = i + 1;
        proof {
            assert(src@.subrange(0, i as int) =~= src@.subrange(0, i - 1) + seq![src@[i - 1]]);
        }
    }
    proof {
        assert(src@.subrange(0, src@.len() as int) =~= src@);
    }
}

/// An encoded call: the module's index, the operation's index and the
/// encoded arguments. It is never empty.
pub struct Encoded {
    bytes: Vec<u8>,
}

impl View for Encoded {
    type V = Seq<u8>;

    closed spec fn view(&self) -> Seq<u8> {
        self.bytes@
    }
}

impl Encoded {
    /// A call's payload holds at least the two indices.
    #[verifier::type_invariant]
    pub(crate) open spec fn inv(&self) -> bool {
        self@.len() >= 2
    }

    pub(crate) fn from_parts(module: u8, op: u8, args: &Vec<u8>) -> (r: Encoded)
        ensures
            r@ == seq![module, op] + args@,
    {
        let mut bytes: Vec<u8> = Vec::new();
        bytes.push(module);
        bytes.push(op);
        append_bytes(&mut bytes, args.as_slice());
        proof {
            assert(seq![module, op] =~= Seq::<u8>::empty().push(module).push(op));
        }
        Encoded { bytes }
    }

    /// The payload, ready to be signed and sent.
    pub fn as_bytes(&self) -> (r: &Vec<u8>)
        ensures
            r@ == self@,
    {
        &self.bytes
    }

    pub fn len(&self) -> (r: usize)
        ensures
            r == self@.len(),
            r >= 2,
    {
        proof {
            use_type_invariant(self);
        }
        self.bytes.len()
    }
}

} // verus!
