//! 256-bit unsigned integers, held as 32 big-endian bytes.
use vstd::prelude::*;

use crate::types::bytes_equal;

verus! {

/// The value of a big-endian byte string.
pub open spec fn be_nat(s: Seq<u8>) -> nat
    decreases s.len(),
{
    if s.len() == 0 {
        0
    } else {
        be_nat(s.drop_last()) * 256 + s.last() as nat
    }
}

pub open spec fn pow256(n: nat) -> nat
    decreases n,
{
    if n == 0 {
        1
    } else {
        256 * pow256((n - 1) as nat)
    }
}

/// A 256-bit unsigned integer; `bytes` is its big-endian encoding.
#[derive(Clone, Copy, Debug)]
pub struct U256 {
    pub bytes: [u8; 32],
}

impl View for U256 {
    type V = nat;

    open spec fn view(&self) -> nat {
        be_nat(self.bytes@)
    }
}

impl PartialEq for U256 {
    fn eq(&self, o: &U256) -> (r: bool) {
        bytes_equal(&self.bytes, &o.bytes)
    }
}

impl vstd::std_specs::cmp::PartialEqSpecImpl for U256 {
    open spec fn obeys_eq_spec() -> bool {
        true
    }

    open spec fn eq_spec(&self, o: &U256) -> bool {
        self.bytes@ == o.bytes@
    }
}

/// Splitting a big-endian string: the high part counts `pow256(|b|)` times.
pub proof fn lemma_be_nat_concat(a: Seq<u8>, b: Seq<u8>)
    ensures
        be_nat(a + b) == be_nat(a) * pow256(b.len()) + be_nat(b),
    decreases b.len(),
{
    if b.len() == 0 {
        assert(a + b =~= a);
        assert(pow256(0) == 1);
        assert(be_nat(b) == 0);
        assert(be_nat(a) * 1 == be_nat(a));
    } else {
        let b0 = b.drop_last();
        assert((a + b).drop_last() =~= a + b0);
        assert((a + b).last() == b.last());
        lemma_be_nat_concat(a, b0);
        let x = be_nat(a);
        let p = pow256(b0.len());
        assert(pow256(b.len()) == 256 * p);
        assert(be_nat(a + b) == be_nat(a + b0) * 256 + b.last() as nat);
        assert(be_nat(b) == be_nat(b0) * 256 + b.last() as nat);
        let y = be_nat(b0);
        let l = b.last() as nat;
        assert((x * p + y) * 256 + l == x * (256 * p) + (y * 256 + l)) by (nonlinear_arith);
    }
}

/// A big-endian string of n bytes is below 256^n.
pub proof fn lemma_be_nat_bound(s: Seq<u8>)
    ensures
        be_nat(s) < pow256(s.len()),
    decreases s.len(),
{
    if s.len() > 0 {
        lemma_be_nat_bound(s.drop_last());
        let x = be_nat(s.drop_last());
        let p = pow256((s.len() - 1) as nat);
        assert(x * 256 + s.last() < 256 * p) by (nonlinear_arith)
            requires
                x < p,
                s.last() < 256,
        ;
    }
}

/// Two big-endian strings of one length with one value are the same string.
pub proof fn lemma_be_nat_injective(a: Seq<u8>, b: Seq<u8>)
    requires
        a.len() == b.len(),
        be_nat(a) == be_nat(b),
    ensures
        a == b,
    decreases a.len(),
{
    if a.len() > 0 {
        let x = be_nat(a.drop_last());
        let y = be_nat(b.drop_last());
        let u = a.last() as int;
        let v = b.last() as int;
        assert(u == v && x == y) by (nonlinear_arith)
            requires
                x * 256 + u == y * 256 + v,
                0 <= u < 256,
                0 <= v < 256,
                x >= 0,
                y >= 0,
        ;
        lemma_be_nat_injective(a.drop_last(), b.drop_last());
        assert(a =~= a.drop_last().push(a.last()));
        assert(b =~= b.drop_last().push(b.last()));
    }
}

proof fn lemma_be_nat_zeros(n: nat)
    ensures
        be_nat(Seq::new(n, |i: int| 0u8)) == 0,
    decreases n,
{
    if n > 0 {
        assert(Seq::new(n, |i: int| 0u8).drop_last() =~= Seq::new((n - 1) as nat, |i: int| 0u8));
        lemma_be_nat_zeros((n - 1) as nat);
    }
}

/// Decoding a 32-byte big-endian string gives back the integer it encodes:
/// any 32 bytes whose value is that of `x` are the bytes of `x`.
pub proof fn lemma_amount_round_trip(x: U256, data: Seq<u8>)
    requires
        data.len() == 32,
        be_nat(data) == x@,
    ensures
        data == x.bytes@,
{
    lemma_be_nat_injective(data, x.bytes@);
}

impl U256 {
    /// Reads the first 32 bytes of `data` as a big-endian integer.
    pub fn from_big_endian(data: &[u8]) -> (r: U256)
        requires
            data@.len() >= 32,
        ensures
            r.bytes@ == data@.subrange(0, 32),
            r@ == be_nat(data@.subrange(0, 32)),
    {
        let mut out = [0u8; 32];
        let mut i: usize = 0;
        while i < 32
            invariant
                0 <= i <= 32,
                data@.len() >= 32,
                out@.len() == 32,
                forall|j: int| 0 <= j < i ==> out@[j] == data@[j],
            decreases 32 - i,
        {
            out[i] = data[i];
            i = i + 1;
        }
        proof {
            assert(out@ =~= data@.subrange(0, 32));
        }
        U256 { bytes: out }
    }

    /// The 32-byte big-endian encoding.
    pub fn to_big_endian(&self) -> (r: [u8; 32])
        ensures
            r@ == self.bytes@,
            be_nat(r@) == self@,
    {
        self.bytes
    }

    pub fn from_u64(n: u64) -> (r: U256)
        ensures
            r@ == n as nat,
    {
        let mut out = [0u8; 32];
        let mut m: u64 = n;
        let mut i: usize = 0;
        proof {
            assert(out@.subrange(32, 32) =~= Seq::<u8>::empty());
            assert(pow256(0) == 1);
        }
        while i < 8
            invariant
                0 <= i <= 8,
                out@.len() == 32,
                forall|j: int| 0 <= j < 32 - i ==> out@[j] == 0u8,
                n as nat == m as nat * pow256(i as nat) + be_nat(out@.subrange(32 - i, 32)),
            decreases 8 - i,
        {
            let ghost old_out = out@;
            let ghost old_m = m as int;
            let d: u8 = (m % 256) as u8;
            out[31 - i] = d;
            m = m / 256;
            proof {
                let tail = old_out.subrange(32 - i as int, 32);
                assert(out@.subrange(32 - i as int, 32) =~= tail);
                assert(out@.subrange(31 - i as int, 32) =~= seq![d] + tail);
                lemma_be_nat_concat(seq![d], tail);
                assert(seq![d].drop_last() =~= Seq::<u8>::empty());
                assert(seq![d].last() == d);
                assert(be_nat(Seq::<u8>::empty()) == 0);
                assert(be_nat(seq![d]) == be_nat(seq![d].drop_last()) * 256 + d as nat);
                let p = pow256(i as nat);
                assert(pow256((i + 1) as nat) == 256 * p);
                assert(old_m == 256 * (m as int) + d as int);
                assert(old_m * p == (m as int) * (256 * p) + (d as int) * p) by (nonlinear_arith)
                    requires
                        old_m == 256 * (m as int) + d as int,
                ;
            }
            i = i + 1;
        }
        proof {
            let tail = out@.subrange(24, 32);
            reveal_with_fuel(pow256, 9);
            assert(pow256(8) == 0x1_0000_0000_0000_0000);
            lemma_be_nat_bound(tail);
            assert(m == 0) by (nonlinear_arith)
                requires
                    n as nat == m as nat * 0x1_0000_0000_0000_0000nat + be_nat(tail),
                    n < 0x1_0000_0000_0000_0000nat,
            ;
            let zeros = out@.subrange(0, 24);
            assert(zeros =~= Seq::new(24, |i: int| 0u8));
            lemma_be_nat_zeros(24);
            assert(out@ =~= zeros + tail);
            lemma_be_nat_concat(zeros, tail);
        }
        U256 { bytes: out }
    }
}

} // verus!
