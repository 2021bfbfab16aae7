//! Fixed-size byte values and chain identifiers.

use vstd::prelude::*;
use vstd::std_specs::cmp::PartialEqSpecImpl;

verus! {

/// Whether two byte arrays of the same length hold the same bytes.
fn same_bytes<const N: usize>(a: &[u8; N], b: &[u8; N]) -> (res: bool)
    ensures
        res == (a@ == b@),
{
    let mut i: usize = 0;
    while i < N
        invariant
            i <= N,
            forall|j: int| 0 <= j < i ==> a@[j] == b@[j],
        decreases N - i,
    {
        if a[i] != b[i] {
            return false;
        }
        i += 1;
    }
    assert(a@ =~= b@);
    true
}

/// Copies `N` bytes out of a slice of that length.
fn to_array<const N: usize>(bytes: &[u8]) -> (res: [u8; N])
    requires
        bytes@.len() == N,
    ensures
        res@ == bytes@,
{
    let mut out = [0u8; N];
    let mut i: usize = 0;
    while i < N
        invariant
            i <= N,
            bytes@.len() == N,
            forall|j: int| 0 <= j < i ==> out@[j] == bytes@[j],
        decreases N - i,
    {
        out[i] = bytes[i];
        i += 1;
    }
    assert(out@ =~= bytes@);
    out
}

/// Copies the bytes of an array into a vector.
fn to_vec<const N: usize>(bytes: &[u8; N]) -> (res: Vec<u8>)
    ensures
        res@ == bytes@,
{
    let mut out: Vec<u8> = Vec::new();
    let mut i: usize = 0;
    while i < N
        invariant
            i <= N,
            out@.len() == i,
            forall|j: int| 0 <= j < i ==> out@[j] == bytes@[j],
        decreases N - i,
    {
        out.push(bytes[i]);
        i += 1;
    }
    assert(out@ =~= bytes@);
    out
}

/// A 20-byte account identifier.
#[derive(Clone, Copy, Debug)]
pub struct H160(pub [u8; 20]);

/// A 32-byte value: a hash, or the secret scalar of a key.
#[derive(Clone, Copy, Debug)]
pub struct H256(pub [u8; 32]);

/// The address of an account.
pub type Address = H160;

impl View for H160 {
    type V = Seq<u8>;

    open spec fn view(&self) -> Seq<u8> {
        self.0@
    }
}

impl View for H256 {
    type V = Seq<u8>;

    open spec fn view(&self) -> Seq<u8> {
        self.0@
    }
}

impl PartialEq for H160 {
    fn eq(&self, other: &Self) -> (res: bool) {
        let res = same_bytes(&self.0, &other.0);
        proof {
            if res {
                assert(self.0 =~= other.0);
            }
        }
        res
    }
}

impl PartialEqSpecImpl for H160 {
    open spec fn obeys_eq_spec() -> bool {
        true
    }

    open spec fn eq_spec(&self, other: &Self) -> bool {
        *self == *other
    }
}

impl Eq for H160 {

}

impl PartialEq for H256 {
    fn eq(&self, other: &Self) -> (res: bool) {
        let res = same_bytes(&self.0, &other.0);
        proof {
            if res {
                assert(self.0 =~= other.0);
            }
        }
        res
    }
}

impl PartialEqSpecImpl for H256 {
    open spec fn obeys_eq_spec() -> bool {
        true
    }

    open spec fn eq_spec(&self, other: &Self) -> bool {
        *self == *other
    }
}

impl Eq for H256 {

}

impl H160 {
    /// The value that holds the given bytes; none unless there are 20 of
    /// them.
    pub fn from_slice(bytes: &[u8]) -> (res: Option<H160>)
        ensures
            res is Some <==> bytes@.len() == 20,
            res matches Some(value) ==> value@ == bytes@,
    {
        if bytes.len() == 20 {
            Some(H160(to_array(bytes)))
        } else {
            None
        }
    }

    /// The bytes of the value.
    pub fn as_bytes(&self) -> (res: &[u8; 20])
        ensures
            res@ == self@,
    {
        &self.0
    }

    /// The bytes of the value, in a vector of their own.
    pub fn to_vec(&self) -> (res: Vec<u8>)
        ensures
            res@ == self@,
    {
        to_vec(&self.0)
    }
}

impl H256 {
    /// The value that holds the given bytes; none unless there are 32 of
    /// them.
    pub fn from_slice(bytes: &[u8]) -> (res: Option<H256>)
        ensures
            res is Some <==> bytes@.len() == 32,
            res matches Some(value) ==> value@ == bytes@,
    {
        if bytes.len() == 32 {
            Some(H256(to_array(bytes)))
        } else {
            None
        }
    }

    /// The bytes of the value.
    pub fn as_bytes(&self) -> (res: &[u8; 32])
        ensures
            res@ == self@,
    {
        &self.0
    }

    /// The bytes of the value, in a vector of their own.
    pub fn to_vec(&self) -> (res: Vec<u8>)
        ensures
            res@ == self@,
    {
        to_vec(&self.0)
    }
}

/// Two values with the same bytes are the same value.
pub proof fn lemma_h160_ext(a: H160, b: H160)
    requires
        a@ == b@,
    ensures
        a == b,
{
    assert(a.0 =~= b.0);
}

/// Two values with the same bytes are the same value.
pub proof fn lemma_h256_ext(a: H256, b: H256)
    requires
        a@ == b@,
    ensures
        a == b,
{
    assert(a.0 =~= b.0);
}

/// The identifier of a base-layer chain.
#[derive(Clone, Copy, Debug, PartialEq, Eq, Structural)]
pub struct L1ChainId(pub u64);

/// The largest identifier that a chain of the second layer can have.
pub const L2_CHAIN_ID_MAX: u64 = 4503599627370477;

/// The identifier of a chain of the second layer: a number that is not above
/// [`L2_CHAIN_ID_MAX`].
#[derive(Clone, Copy, Debug, PartialEq, Eq, Structural)]
pub struct L2ChainId(u64);

/// `zksync_basic_types::L2ChainId::try_from`, with `as_u64` on what it
/// accepts.
///
/// Trusted: a number is accepted exactly when it is not above the largest
/// identifier, and the identifier made of it is that number.
#[verifier::external_body]
fn checked_l2_chain_id(number: u64) -> (res: Option<u64>)
    ensures
        res == if number <= L2_CHAIN_ID_MAX {
            Some(number)
        } else {
            None
        },
{
    match zksync_basic_types::L2ChainId::try_from(number) {
        Ok(id) => Some(id.as_u64()),
        Err(_) => None,
    }
}

impl L2ChainId {
    #[verifier::type_invariant]
    spec fn in_range(self) -> bool {
        self.0 <= L2_CHAIN_ID_MAX
    }

    /// The number of the identifier.
    pub closed spec fn spec_as_u64(&self) -> u64 {
        self.0
    }

    /// The identifier with the given number; none where the number is above
    /// [`L2_CHAIN_ID_MAX`].
    pub fn new(number: u64) -> (res: Option<L2ChainId>)
        ensures
            res is Some <==> number <= L2_CHAIN_ID_MAX,
            res matches Some(id) ==> id.as_u64() == number,
    {
        match checked_l2_chain_id(number) {
            Some(accepted) => Some(L2ChainId(accepted)),
            None => None,
        }
    }

    /// The number of the identifier.
    #[verifier::when_used_as_spec(spec_as_u64)]
    pub fn as_u64(&self) -> (res: u64)
        ensures
            res == self.as_u64(),
            res <= L2_CHAIN_ID_MAX,
    {
        proof {
            use_type_invariant(self);
        }
        self.0
    }
}

/// An identifier is its number: two identifiers with the same number are the
/// same identifier.
pub proof fn lemma_l2_chain_id_ext(a: L2ChainId, b: L2ChainId)
    requires
        a.as_u64() == b.as_u64(),
    ensures
        a == b,
{
}

} // verus!
