//! The chain registry: the closed set of supported networks, their canonical
//! order, and case-insensitive alias resolution.

use vstd::prelude::*;
use crate::text::{eq_str, upper_all, upper_all_vec, str_to_chars};

verus! {

/// A supported blockchain network.
#[derive(Clone, Copy, Debug, PartialEq, Eq, Structural)]
pub enum Chain {
    Polygon,
    Base,
    Eth,
    Arb,
}

/// The canonical registry order: the declaration order used everywhere
/// balances are merged or displayed. Stable across calls.
pub open spec fn registry_order() -> Seq<Chain> {
    seq![Chain::Polygon, Chain::Base, Chain::Eth, Chain::Arb]
}

/// Alias resolution: case-insensitive, exact match only.
pub open spec fn resolve_spec(alias: Seq<char>) -> Option<Chain> {
    let a = upper_all(alias);
    if a == "POLYGON"@ {
        Some(Chain::Polygon)
    } else if a == "BASE"@ {
        Some(Chain::Base)
    } else if a == "ETH"@ {
        Some(Chain::Eth)
    } else if a == "ARB"@ {
        Some(Chain::Arb)
    } else {
        None
    }
}

pub open spec fn name_spec(c: Chain) -> Seq<char> {
    match c {
        Chain::Polygon => "Polygon Amoy"@,
        Chain::Base => "Base"@,
        Chain::Eth => "Ethereum"@,
        Chain::Arb => "Arbitrum"@,
    }
}

pub open spec fn chain_id_spec(c: Chain) -> u64 {
    match c {
        Chain::Polygon => 80002,
        Chain::Base => 8453,
        Chain::Eth => 1,
        Chain::Arb => 42161,
    }
}

pub open spec fn native_token_spec(c: Chain) -> Seq<char> {
    match c {
        Chain::Polygon => "MATIC"@,
        Chain::Base => "ETH"@,
        Chain::Eth => "ETH"@,
        Chain::Arb => "ETH"@,
    }
}

impl Chain {
    /// Resolve a user-typed alias, case-insensitively, exact match only.
    pub fn from_input(alias: &str) -> (r: Option<Chain>)
        ensures
            r == resolve_spec(alias@),
    {
        let chars = str_to_chars(alias);
        let up = upper_all_vec(&chars);
        if eq_str(&up, "POLYGON") {
            Some(Chain::Polygon)
        } else if eq_str(&up, "BASE") {
            Some(Chain::Base)
        } else if eq_str(&up, "ETH") {
            Some(Chain::Eth)
        } else if eq_str(&up, "ARB") {
            Some(Chain::Arb)
        } else {
            None
        }
    }

    /// The chain's canonical display name.
    pub fn name(&self) -> (r: String)
        ensures
            r@ == name_spec(*self),
    {
        match self {
            Chain::Polygon => String::from_str("Polygon Amoy"),
            Chain::Base => String::from_str("Base"),
            Chain::Eth => String::from_str("Ethereum"),
            Chain::Arb => String::from_str("Arbitrum"),
        }
    }

    /// The chain's numeric identifier.
    pub fn chain_id(&self) -> (r: u64)
        ensures
            r == chain_id_spec(*self),
    {
        match self {
            Chain::Polygon => 80002,
            Chain::Base => 8453,
            Chain::Eth => 1,
            Chain::Arb => 42161,
        }
    }

    /// The chain's native-token symbol.
    pub fn native_token(&self) -> (r: String)
        ensures
            r@ == native_token_spec(*self),
    {
        match self {
            Chain::Polygon => String::from_str("MATIC"),
            Chain::Base => String::from_str("ETH"),
            Chain::Eth => String::from_str("ETH"),
            Chain::Arb => String::from_str("ETH"),
        }
    }

    /// All registered chains in their canonical order.
    pub fn list_all() -> (r: Vec<Chain>)
        ensures
            r@ == registry_order(),
    {
        let mut r: Vec<Chain> = Vec::new();
        r.push(Chain::Polygon);
        r.push(Chain::Base);
        r.push(Chain::Eth);
        r.push(Chain::Arb);
        proof {
            assert(r@ =~= registry_order());
        }
        r
    }
}

} // verus!
