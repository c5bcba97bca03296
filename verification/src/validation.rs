//! Order-validation arithmetic: the pure computations around gas
//! simulation. The simulation itself (an EVM run) is an external
//! collaborator; this module orders the token pair canonically and
//! converts a simulated gas amount into token-0 units.

use vstd::prelude::*;

verus! {

/// Orders a pair of token identifiers canonically: token 0 is the
/// smaller of the two.
pub fn order_token_pair(asset_in: u128, asset_out: u128) -> (r: (u128, u128))
    ensures
        r.0 <= r.1,
        (r.0 == asset_in && r.1 == asset_out) || (r.0 == asset_out && r.1 == asset_in),
{
    if asset_in < asset_out {
        (asset_in, asset_out)
    } else {
        (asset_out, asset_in)
    }
}

/// Converts a simulated gas amount into token-0 units by the conversion
/// factor; `None` exactly when the product does not fit the result
/// type.
pub fn gas_in_token_zero(gas_used: u64, conversion_factor: u128) -> (r: Option<u128>)
    ensures
        match r {
            Some(v) => v == gas_used * conversion_factor,
            None => gas_used * conversion_factor > u128::MAX,
        },
{
    (gas_used as u128).checked_mul(conversion_factor)
}

} // verus!
