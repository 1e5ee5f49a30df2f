use vstd::prelude::*;
use solana_program::program_pack::Pack;

verus! {

/// Size of a token account's data.
pub const TOKEN_ACCOUNT_LEN: usize = 165;

/// The unsigned number that `b` encodes, least significant byte first.
pub open spec fn le_value(b: Seq<u8>) -> nat
    decreases b.len(),
{
    if b.len() == 0 {
        0
    } else {
        b[0] as nat + 256 * le_value(b.drop_first())
    }
}

/// A four-byte option tag at `off`: zero for absent, one for present.
pub open spec fn option_tag_valid(data: Seq<u8>, off: int) -> bool {
    &&& (data[off] == 0 || data[off] == 1)
    &&& data[off + 1] == 0
    &&& data[off + 2] == 0
    &&& data[off + 3] == 0
}

/// The balance a token account's data records, if the data is an
/// initialized or frozen token account with well-formed option fields.
pub open spec fn token_account_amount(data: Seq<u8>) -> Option<u64> {
    if data.len() == TOKEN_ACCOUNT_LEN && option_tag_valid(data, 72) && (data[108] == 1
        || data[108] == 2) && option_tag_valid(data, 109) && option_tag_valid(data, 129) {
        Some(le_value(data.subrange(64, 72)) as u64)
    } else {
        None
    }
}

/// Relies on `spl_token::state::Account::unpack`: it accepts exactly 165 bytes
/// whose delegate, native and close-authority option tags are valid and whose
/// state byte is initialized or frozen, and reads the balance little-endian
/// from bytes 64 to 72.
#[verifier::external_body]
pub(crate) fn unpack_token_amount(data: &[u8]) -> (r: Option<u64>)
    ensures
        r == token_account_amount(data@),
{
    spl_token::state::Account::unpack(data).ok().map(|a| a.amount)
}

} // verus!
