//! How a password is split among the members of a vault.
use vstd::prelude::*;

verus! {

/// The number of shares a password is split into, and how many of them recover it.
#[derive(Debug, Clone, Copy, PartialEq, Eq, Structural)]
pub struct SharedSecretConfig {
    pub number_of_shares: usize,
    pub threshold: usize,
}

/// One share per member; a vault of up to two members needs one share to recover,
/// a larger one a strict majority of the shares.
pub open spec fn threshold_for(members: nat) -> nat {
    if members <= 2 {
        1
    } else {
        members / 2 + 1
    }
}

impl SharedSecretConfig {
    pub fn calculate(members_num: usize) -> (r: Self)
        ensures
            r.number_of_shares == members_num,
            r.threshold == threshold_for(members_num as nat),
    {
        let threshold: usize = if members_num <= 2 {
            1
        } else {
            members_num / 2 + 1
        };
        SharedSecretConfig { number_of_shares: members_num, threshold }
    }
}

} // verus!
