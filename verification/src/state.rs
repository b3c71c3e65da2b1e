//! The escrow record and the identities it names.

use vstd::prelude::*;

verus! {

/// The domain tag under which records and their authority are derived: the
/// ASCII bytes of `escrow`.
pub const ESCROW_SEED: [u8; 6] = [101, 115, 99, 114, 111, 119];

/// The domain tag as a sequence of bytes.
pub open spec fn escrow_seed() -> Seq<u8> {
    seq![101u8, 115u8, 99u8, 114u8, 111u8, 119u8]
}

/// A 32-byte identity on the ledger: a party, an asset type or an account.
#[derive(Clone, Copy, Debug, Eq)]
pub struct Identity {
    pub bytes: [u8; 32],
}

impl PartialEq for Identity {
    fn eq(&self, other: &Identity) -> (same: bool) {
        let mut i: usize = 0;
        while i < 32
            invariant
                i <= 32,
                forall|j: int| 0 <= j < i ==> self.bytes@[j] == other.bytes@[j],
            decreases 32 - i,
        {
            if self.bytes[i] != other.bytes[i] {
                return false;
            }
            i += 1;
        }
        proof {
            assert(self.bytes@ =~= other.bytes@);
            assert(self.bytes == other.bytes);
        }
        true
    }
}

impl vstd::std_specs::cmp::PartialEqSpecImpl for Identity {
    open spec fn obeys_eq_spec() -> bool {
        true
    }

    open spec fn eq_spec(&self, other: &Identity) -> bool {
        *self == *other
    }
}

impl View for Identity {
    type V = Seq<u8>;

    open spec fn view(&self) -> Seq<u8> {
        self.bytes@
    }
}

impl Identity {
    /// The identity with the given bytes.
    pub fn new(bytes: [u8; 32]) -> (id: Identity)
        ensures
            id.bytes == bytes,
            id@ == bytes@,
    {
        Identity { bytes }
    }

    /// The bytes of the identity, in order.
    pub fn to_vec(&self) -> (out: Vec<u8>)
        ensures
            out@ == self@,
            out@.len() == 32,
    {
        let mut out: Vec<u8> = Vec::new();
        let mut i: usize = 0;
        while i < 32
            invariant
                i <= 32,
                out@ == self@.take(i as int),
            decreases 32 - i,
        {
            out.push(self.bytes[i]);
            proof {
                assert(out@ =~= self@.take(i as int + 1));
            }
            i += 1;
        }
        proof {
            assert(self@.take(32) =~= self@);
        }
        out
    }
}

/// An identity has 32 bytes, and two identities with the same bytes are the
/// same identity.
pub proof fn identity_by_bytes(a: Identity, b: Identity)
    ensures
        a@.len() == 32,
        a@ == b@ <==> a == b,
{
    vstd::array::array_len_matches_n(&a.bytes);
    if a@ == b@ {
        assert(a.bytes@ =~= b.bytes@);
        assert(a.bytes == b.bytes);
    }
}

/// One escrow: what the maker locked, for how long, and how far the escrow has
/// come.
#[derive(Clone, Copy, Debug, PartialEq, Eq)]
pub struct Escrow {
    /// Tells apart the escrows of one maker.
    pub seed: u64,
    /// The depositor: the only party that may confirm, and the receiver of a
    /// refund.
    pub maker: Identity,
    /// The asset type held in custody.
    pub mint_a: Identity,
    /// An asset type asked for in exchange. Stored only: no operation reads
    /// it.
    pub mint_b: Identity,
    /// A quantity asked for in exchange. Stored only: no operation reads it.
    pub receive: u64,
    /// The quantity held in custody.
    pub deposit: u64,
    /// Whether the maker has confirmed delivery.
    pub buyer_confirmed: bool,
    /// After this time, in seconds, an unconfirmed escrow can be refunded.
    pub deadline: i64,
    /// Whether the funds have left custody.
    pub executed: bool,
    /// The parameter that completes the derivation of the authority.
    pub bump: u8,
}

} // verus!
