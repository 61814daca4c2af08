use vstd::prelude::*;

verus! {

/// The unsigned integer that eight bytes encode, least significant first.
pub open spec fn le_u64(b: Seq<u8>) -> int {
    b[0] + 0x100 * b[1] + 0x1_0000 * b[2] + 0x100_0000 * b[3] + 0x1_0000_0000 * b[4]
        + 0x100_0000_0000 * b[5] + 0x1_0000_0000_0000 * b[6] + 0x100_0000_0000_0000 * b[7]
}

/// Offset of the balance in a token account's data.
pub open spec fn balance_offset() -> int {
    64
}

/// A four-byte option tag at `i`: none (`0`) or some (`1`), little-endian.
pub open spec fn option_tag_ok(d: Seq<u8>, i: int) -> bool {
    (d[i] == 0 || d[i] == 1) && d[i + 1] == 0 && d[i + 2] == 0 && d[i + 3] == 0
}

/// The bytes decode as a token account, with or without extensions: at
/// least the 165-byte base and not the length of a multisig account, valid
/// option tags for the delegate, the native amount and the close authority,
/// a state of initialized (`1`) or frozen (`2`), and, where extension data
/// follows the base, the account-type byte of a token account (`2`).
pub open spec fn token_account_decodes(d: Seq<u8>) -> bool {
    &&& d.len() >= 165
    &&& d.len() != 355
    &&& option_tag_ok(d, 72)
    &&& option_tag_ok(d, 109)
    &&& option_tag_ok(d, 129)
    &&& (d[108] == 1 || d[108] == 2)
    &&& d.len() > 165 ==> d[165] == 2
}

/// Relies on spl_token_2022's `StateWithExtensions::<Account>::unpack`: it
/// accepts exactly the bytes that `token_account_decodes` describes, and on
/// success the balance is the little-endian `u64` at bytes 64..72.
#[verifier::external_body]
pub(crate) fn unpack_token_account_amount(data: &[u8]) -> (r: Option<u64>)
    ensures
        r is Some <==> token_account_decodes(data@),
        r matches Some(a) ==> data@.len() >= 72 && a == le_u64(
            data@.subrange(balance_offset(), balance_offset() + 8),
        ),
{
    spl_token_2022::extension::StateWithExtensions::<spl_token_2022::state::Account>::unpack(data)
        .ok()
        .map(|s| s.base.amount)
}

} // verus!
