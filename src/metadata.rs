use vstd::prelude::*;

verus! {

/// Descriptive metadata of a fungible token.
pub struct TokenMetadata {
    pub spec: String,
    pub name: String,
    pub symbol: String,
    pub icon: Option<String>,
    pub reference: Option<String>,
    pub reference_hash: Option<Vec<u8>>,
    pub decimals: u8,
}

/// The arguments a token is created with.
pub struct TokenArgs {
    pub owner_id: String,
    pub total_supply: u128,
    pub metadata: TokenMetadata,
}

/// The metadata standard a token must declare.
pub open spec fn ft_metadata_spec() -> Seq<char> {
    seq!['f', 't', '-', '1', '.', '0', '.', '0']
}

/// Metadata is well formed: it declares the standard, carries a reference and
/// its hash together or neither, and a hash is 32 bytes long.
pub open spec fn metadata_valid(m: TokenMetadata) -> bool {
    &&& m.spec@ == ft_metadata_spec()
    &&& m.reference.is_some() == m.reference_hash.is_some()
    &&& (m.reference_hash matches Some(h) ==> h@.len() == 32)
}

impl TokenMetadata {
    /// Whether the metadata is well formed.
    pub fn is_valid(&self) -> (r: bool)
        ensures
            r == metadata_valid(*self),
    {
        let standard = "ft-1.0.0".to_owned();
        proof {
            reveal_strlit("ft-1.0.0");
            assert(standard@ =~= ft_metadata_spec());
        }
        if !(self.spec == standard) {
            return false;
        }
        if self.reference.is_some() != self.reference_hash.is_some() {
            return false;
        }
        match &self.reference_hash {
            Some(h) => h.len() == 32,
            None => true,
        }
    }
}

} // verus!
