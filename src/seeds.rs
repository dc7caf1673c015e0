use vstd::bytes::{spec_u64_to_le_bytes, u64_to_le_bytes};
use vstd::prelude::*;

verus! {

/// The fixed tag that, with the market's seed, derives one listing-owned
/// address.
#[derive(Clone, Copy, Debug, PartialEq, Eq, Structural)]
pub enum SeedTag {
    /// The asset definition: `b"mint"`.
    Mint,
    /// The listing record, which is also the mint and vault authority:
    /// `b"listing"`.
    Listing,
    /// The collateral vault: `b"vault"`.
    Vault,
}

impl SeedTag {
    /// The ASCII bytes of the tag.
    pub open spec fn spec_bytes(self) -> Seq<u8> {
        match self {
            SeedTag::Mint => seq![109u8, 105, 110, 116],
            SeedTag::Listing => seq![108u8, 105, 115, 116, 105, 110, 103],
            SeedTag::Vault => seq![118u8, 97, 117, 108, 116],
        }
    }

    pub fn bytes(&self) -> (r: Vec<u8>)
        ensures
            r@ == self.spec_bytes(),
    {
        let r = match self {
            SeedTag::Mint => vec![109u8, 105, 110, 116],
            SeedTag::Listing => vec![108u8, 105, 115, 116, 105, 110, 103],
            SeedTag::Vault => vec![118u8, 97, 117, 108, 116],
        };
        assert(r@ =~= self.spec_bytes());
        r
    }
}

/// The seeds that derive the address of `tag` for market `seed`: the tag, the
/// seed in little-endian order, and the bump salt. Every derivation and every
/// signature on behalf of a derived address uses this one layout.
pub open spec fn spec_signer_seeds(tag: SeedTag, seed: u64, bump: u8) -> Seq<Seq<u8>> {
    seq![tag.spec_bytes(), spec_u64_to_le_bytes(seed), seq![bump]]
}

pub fn signer_seeds(tag: SeedTag, seed: u64, bump: u8) -> (r: Vec<Vec<u8>>)
    ensures
        r@.len() == 3,
        forall|i: int| 0 <= i < 3 ==> #[trigger] r@[i]@ == spec_signer_seeds(tag, seed, bump)[i],
{
    let mut r: Vec<Vec<u8>> = Vec::new();
    r.push(tag.bytes());
    r.push(u64_to_le_bytes(seed));
    r.push(vec![bump]);
    assert(r@[2]@ =~= seq![bump]);
    r
}

} // verus!
