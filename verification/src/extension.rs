use vstd::prelude::*;

verus! {

/// The Token-2022 extensions that this program sets up or looks for.
#[derive(Clone, Copy, Debug, PartialEq, Eq, Structural)]
pub enum ExtensionKind {
    TransferFeeConfig,
    MintCloseAuthority,
    ConfidentialTransferMint,
    ConfidentialTransferAccount,
    DefaultAccountState,
    PermanentDelegate,
    ConfidentialTransferFeeConfig,
    ConfidentialTransferFeeAmount,
    MetadataPointer,
    TokenMetadata,
}

impl ExtensionKind {
    /// The number that Token-2022 gives this extension type.
    pub open spec fn spec_code(self) -> u16 {
        match self {
            ExtensionKind::TransferFeeConfig => 1,
            ExtensionKind::MintCloseAuthority => 3,
            ExtensionKind::ConfidentialTransferMint => 4,
            ExtensionKind::ConfidentialTransferAccount => 5,
            ExtensionKind::DefaultAccountState => 6,
            ExtensionKind::PermanentDelegate => 12,
            ExtensionKind::ConfidentialTransferFeeConfig => 16,
            ExtensionKind::ConfidentialTransferFeeAmount => 17,
            ExtensionKind::MetadataPointer => 18,
            ExtensionKind::TokenMetadata => 19,
        }
    }

    /// The number that Token-2022 gives this extension type.
    pub fn code(&self) -> (r: u16)
        ensures
            r == self.spec_code(),
    {
        match self {
            ExtensionKind::TransferFeeConfig => 1,
            ExtensionKind::MintCloseAuthority => 3,
            ExtensionKind::ConfidentialTransferMint => 4,
            ExtensionKind::ConfidentialTransferAccount => 5,
            ExtensionKind::DefaultAccountState => 6,
            ExtensionKind::PermanentDelegate => 12,
            ExtensionKind::ConfidentialTransferFeeConfig => 16,
            ExtensionKind::ConfidentialTransferFeeAmount => 17,
            ExtensionKind::MetadataPointer => 18,
            ExtensionKind::TokenMetadata => 19,
        }
    }
}

/// The numbers of a list of extension types, in order.
pub open spec fn spec_codes(kinds: Seq<ExtensionKind>) -> Seq<u16> {
    kinds.map_values(|k: ExtensionKind| k.spec_code())
}

/// The numbers of a list of extension types, in order.
pub fn codes(kinds: &[ExtensionKind]) -> (r: Vec<u16>)
    ensures
        r@ == spec_codes(kinds@),
{
    let mut r: Vec<u16> = Vec::new();
    let mut i: usize = 0;
    while i < kinds.len()
        invariant
            i <= kinds.len(),
            r@ == spec_codes(kinds@.take(i as int)),
        decreases kinds.len() - i,
    {
        r.push(kinds[i].code());
        assert(kinds@.take(i + 1) == kinds@.take(i as int).push(kinds@[i as int]));
        i = i + 1;
    }
    assert(kinds@.take(kinds.len() as int) == kinds@);
    r
}

/// Whether `code` occurs in `list`.
pub fn contains_code(list: &[u16], code: u16) -> (r: bool)
    ensures
        r == list@.contains(code),
{
    let mut i: usize = 0;
    while i < list.len()
        invariant
            i <= list.len(),
            forall|j: int| 0 <= j < i ==> list@[j] != code,
        decreases list.len() - i,
    {
        if list[i] == code {
            assert(list@[i as int] == code);
            return true;
        }
        i = i + 1;
    }
    false
}

} // verus!
