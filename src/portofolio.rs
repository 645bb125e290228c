//! The holdings of an account or an organisation.
use vstd::prelude::*;

verus! {

#[derive(Debug)]
pub struct ActivatingStakes {
    pub amount: u64,
    pub amount_usd: u64,
    pub total: u64,
}

} // verus!
