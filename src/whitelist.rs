use vstd::prelude::*;

use crate::msg::Coin;

verus! {

/// A point after which something has expired: a block height, a time in
/// nanoseconds since the epoch, or never.
#[derive(Clone, Copy, Debug, PartialEq, Eq, Structural)]
pub enum Expiration {
    AtHeight(u64),
    AtTime(u64),
    Never,
}

/// The configuration of a whitelist sale.
#[derive(Clone, Debug, PartialEq, Eq)]
pub struct Config {
    pub admin: String,
    pub start_time: Expiration,
    pub end_time: Expiration,
    pub num_members: u32,
    pub unit_price: Coin,
    pub per_address_limit: u32,
    pub member_limit: u32,
}

/// `a` comes strictly before `b`, where the two are of the same kind.
pub open spec fn precedes(a: Expiration, b: Expiration) -> bool {
    match (a, b) {
        (Expiration::AtHeight(x), Expiration::AtHeight(y)) => x < y,
        (Expiration::AtTime(x), Expiration::AtTime(y)) => x < y,
        (Expiration::AtHeight(_), Expiration::Never) => true,
        (Expiration::AtTime(_), Expiration::Never) => true,
        _ => false,
    }
}

impl Config {
    /// The sale starts before it ends, and the member count stays within
    /// the member limit.
    pub open spec fn wf(&self) -> bool {
        &&& precedes(self.start_time, self.end_time)
        &&& self.num_members <= self.member_limit
    }
}

} // verus!
