use vstd::prelude::*;

verus! {

/// A 32-byte digest.
pub type Bytes32 = [u8; 32];

/// A 20-byte account address.
pub type Address = [u8; 20];

/// One more than the largest value a `U256` can hold.
pub open spec fn u256_modulus() -> nat {
    0x1_0000_0000_0000_0000_0000_0000_0000_0000_0000_0000_0000_0000_0000_0000_0000_0000nat
}

/// The base of one limb.
pub open spec fn limb_base() -> nat {
    0x1_0000_0000_0000_0000nat
}

/// The big-endian encoding of `v` on `n` bytes (the top bytes of a larger value are dropped).
pub open spec fn be_bytes(v: nat, n: nat) -> Seq<u8>
    decreases n,
{
    if n == 0 {
        Seq::empty()
    } else {
        be_bytes(v / 256, (n - 1) as nat).push((v % 256) as u8)
    }
}

/// An unsigned 256-bit integer, held as four 64-bit limbs, least significant first.
#[derive(Clone, Copy, Debug)]
pub struct U256 {
    pub limbs: [u64; 4],
}

impl U256 {
    /// The number this value stands for.
    pub open spec fn value(&self) -> nat {
        self.limbs[0] as nat + limb_base() * (self.limbs[1] as nat + limb_base() * (
        self.limbs[2] as nat + limb_base() * (self.limbs[3] as nat)))
    }

    pub fn from_limbs(limbs: [u64; 4]) -> (r: U256)
        ensures
            r.limbs == limbs,
    {
        U256 { limbs }
    }

    pub fn from_u64(v: u64) -> (r: U256)
        ensures
            r.value() == v,
    {
        U256 { limbs: [v, 0, 0, 0] }
    }

    pub fn is_zero(&self) -> (r: bool)
        ensures
            r == (self.value() == 0),
    {
        let r = self.limbs[0] == 0 && self.limbs[1] == 0 && self.limbs[2] == 0 && self.limbs[3]
            == 0;
        proof {
            let a = self.limbs[0] as nat;
            let b = self.limbs[1] as nat;
            let c = self.limbs[2] as nat;
            let d = self.limbs[3] as nat;
            let base = limb_base();
            assert(base * d >= 0) by (nonlinear_arith)
                requires
                    base > 0,
                    d >= 0,
            ;
            assert(base * (c + base * d) >= 0) by (nonlinear_arith)
                requires
                    base > 0,
                    c + base * d >= 0,
            ;
            assert(base * (b + base * (c + base * d)) >= 0) by (nonlinear_arith)
                requires
                    base > 0,
                    b + base * (c + base * d) >= 0,
            ;
            if self.value() == 0 {
                assert(a == 0);
                assert(base * (b + base * (c + base * d)) == 0);
                assert(b + base * (c + base * d) == 0) by (nonlinear_arith)
                    requires
                        base > 0,
                        base * (b + base * (c + base * d)) == 0,
                ;
                assert(b == 0);
                assert(c + base * d == 0) by (nonlinear_arith)
                    requires
                        base > 0,
                        base * (c + base * d) == 0,
                ;
                assert(c == 0);
                assert(d == 0) by (nonlinear_arith)
                    requires
                        base > 0,
                        base * d == 0,
                ;
            }
        }
        r
    }
}

/// Zero values of the fixed-width types.
pub trait Zero: Sized {
    spec fn spec_is_zero(&self) -> bool;

    fn zero() -> (r: Self)
        ensures
            r.spec_is_zero(),
    ;
}

impl Zero for U256 {
    open spec fn spec_is_zero(&self) -> bool {
        self.value() == 0
    }

    fn zero() -> (r: Self) {
        U256::from_u64(0)
    }
}

impl Zero for Bytes32 {
    open spec fn spec_is_zero(&self) -> bool {
        self@ == Seq::new(32, |i: int| 0u8)
    }

    fn zero() -> (r: Self) {
        let r = [0u8; 32];
        assert(r@ =~= Seq::new(32, |i: int| 0u8));
        r
    }
}

/// Relies on ruint's `Uint::from_limbs`, which for 256 bits with four limbs takes every limb
/// array, least significant limb first, and `Uint::checked_mul`, `None` exactly on overflow.
#[verifier::external_body]
pub(crate) fn checked_mul(a: &U256, b: &U256) -> (r: Option<U256>)
    ensures
        r is Some <==> a.value() * b.value() < u256_modulus(),
        r matches Some(p) ==> p.value() == a.value() * b.value(),
{
    let x = alloy_primitives::U256::from_limbs(a.limbs);
    let y = alloy_primitives::U256::from_limbs(b.limbs);
    x.checked_mul(y).map(|p| U256::from_limbs(p.into_limbs()))
}

/// Relies on ruint's `Uint::checked_add`: `None` exactly on overflow.
#[verifier::external_body]
pub(crate) fn checked_add(a: &U256, b: &U256) -> (r: Option<U256>)
    ensures
        r is Some <==> a.value() + b.value() < u256_modulus(),
        r matches Some(p) ==> p.value() == a.value() + b.value(),
{
    let x = alloy_primitives::U256::from_limbs(a.limbs);
    let y = alloy_primitives::U256::from_limbs(b.limbs);
    x.checked_add(y).map(|p| U256::from_limbs(p.into_limbs()))
}

/// Relies on ruint's `Div` for `Uint` (with `Uint::from_limbs`): truncating unsigned division,
/// which panics on a zero divisor.
#[verifier::external_body]
pub(crate) fn div(a: &U256, b: &U256) -> (r: U256)
    requires
        b.value() != 0,
    ensures
        r.value() == a.value() / b.value(),
{
    let x = alloy_primitives::U256::from_limbs(a.limbs);
    let y = alloy_primitives::U256::from_limbs(b.limbs);
    U256::from_limbs((x / y).into_limbs())
}

/// Relies on ruint's `PartialOrd::lt` for `Uint`, which compares the limbs as one number.
#[verifier::external_body]
pub(crate) fn lt(a: &U256, b: &U256) -> (r: bool)
    ensures
        r == (a.value() < b.value()),
{
    alloy_primitives::U256::from_limbs(a.limbs) < alloy_primitives::U256::from_limbs(b.limbs)
}

/// Relies on ruint's `Uint::to_be_bytes::<32>`: the value as 32 big-endian bytes.
#[verifier::external_body]
pub(crate) fn to_be_bytes(a: &U256) -> (r: Bytes32)
    ensures
        r@ == be_bytes(a.value(), 32),
{
    alloy_primitives::U256::from_limbs(a.limbs).to_be_bytes::<32>()
}

/// The Keccak-256 digest of a byte string.
pub uninterp spec fn keccak_of(data: Seq<u8>) -> Seq<u8>;

/// Relies on `alloy_primitives::keccak256`: the Keccak-256 digest of the bytes, which depends
/// on them alone.
#[verifier::external_body]
pub(crate) fn keccak256(data: &Vec<u8>) -> (r: Bytes32)
    ensures
        r@ == keccak_of(data@),
{
    alloy_primitives::keccak256(data.as_slice()).0
}

/// Appends the bytes of `b` to `out`.
pub(crate) fn append_bytes<const N: usize>(out: &mut Vec<u8>, b: &[u8; N])
    ensures
        final(out)@ == old(out)@ + b@,
{
    let ghost start = out@;
    let mut i: usize = 0;
    while i < N
        invariant
            i <= N,
            b@.len() == N,
            out@ == start + b@.subrange(0, i as int),
        decreases N - i,
    {
        out.push(b[i]);
        i = i + 1;
        assert(out@ =~= start + b@.subrange(0, i as int));
    }
    assert(b@.subrange(0, N as int) =~= b@);
}

/// Whether two byte arrays of one length hold the same bytes.
pub fn bytes_eq<const N: usize>(a: &[u8; N], b: &[u8; N]) -> (r: bool)
    ensures
        r == (a@ == b@),
{
    let mut i: usize = 0;
    while i < N
        invariant
            i <= N,
            a@.len() == N,
            b@.len() == N,
            forall|k: int| 0 <= k < i ==> a@[k] == b@[k],
        decreases N - i,
    {
        if a[i] != b[i] {
            return false;
        }
        i = i + 1;
    }
    assert(a@ =~= b@);
    true
}

} // verus!
