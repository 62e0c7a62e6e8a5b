//! Program addresses: 32 raw bytes, shown in the framework's text form.

use vstd::prelude::*;

verus! {

/// The text that the framework's address type prints for the address made of
/// these bytes (its `Debug` form, a base58 string).
pub uninterp spec fn address_text(bytes: Seq<u8>) -> Seq<char>;

/// Relies on `anchor_lang::prelude::Pubkey` (built by `new_from_array`) and
/// its `Debug` impl: the text depends on the 32 bytes alone.
#[verifier::external_body]
pub(crate) fn format_address(bytes: &[u8; 32]) -> (r: String)
    ensures
        r@ == address_text(bytes@),
{
    format!("{:?}", anchor_lang::prelude::Pubkey::new_from_array(*bytes))
}

} // verus!
