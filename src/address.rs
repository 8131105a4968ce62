use vstd::prelude::*;

verus! {

/// A ledger address: the 32 bytes of a public key.
pub type Address = [u8; 32];

/// Why an address text was not accepted by `Pubkey::from_str`.
#[verifier::external_type_specification]
#[verifier::external_body]
pub struct ExParsePubkeyError(solana_program::pubkey::ParsePubkeyError);

/// The key that a base58 address text decodes to, or `None` where the text is
/// no valid key.
pub uninterp spec fn base58_key(text: Seq<char>) -> Option<Seq<u8>>;

/// Relies on solana_program's `Pubkey::from_str`: it decodes base58 text into a
/// 32-byte key and fails where the text is not one; the outcome depends on the
/// text alone.
#[verifier::external_body]
fn pubkey_from_str(text: &String) -> (r: Result<Address, solana_program::pubkey::ParsePubkeyError>)
    ensures
        match r {
            Ok(key) => base58_key(text@) == Some(key@),
            Err(_) => base58_key(text@) is None,
        },
{
    <solana_program::pubkey::Pubkey as std::str::FromStr>::from_str(text.as_str()).map(|k| k.to_bytes())
}

/// Decodes a base58 address text into its 32 key bytes.
pub fn parse_address(text: &String) -> (r: Option<Address>)
    ensures
        match r {
            Some(key) => base58_key(text@) == Some(key@),
            None => base58_key(text@) is None,
        },
{
    match pubkey_from_str(text) {
        Ok(key) => Some(key),
        Err(_) => None,
    }
}

} // verus!
