//! The fixed set of network names a connect attempt may carry.

use vstd::prelude::*;

verus! {

/// The networks the wallet backend can be asked to join.  The engine hands
/// the choice over as a string; everything past [`parse_network`] works with
/// this enum.
#[derive(Clone, Copy, Debug, PartialEq, Eq, Structural)]
pub enum Network {
    Mainnet,
    Regtest,
}

/// True exactly for the strings [`parse_network`] accepts.
pub open spec fn is_network_name(s: Seq<char>) -> bool {
    s == "mainnet"@ || s == "regtest"@
}

/// The network a valid name denotes.
pub open spec fn spec_network_of(s: Seq<char>) -> Network {
    if s == "mainnet"@ {
        Network::Mainnet
    } else {
        Network::Regtest
    }
}

/// Turns the engine-side network name into a [`Network`], rejecting every
/// string outside the fixed set.  No connection is attempted for a rejected
/// name.
pub fn parse_network(name: &str) -> (r: Option<Network>)
    ensures
        r is Some <==> is_network_name(name@),
        r matches Some(n) ==> n == spec_network_of(name@),
{
    proof {
        reveal_strlit("mainnet");
        reveal_strlit("regtest");
        // The two accepted names differ in their first character, so the
        // two branches below can never both match.
        assert("mainnet"@[0] == 'm');
        assert("regtest"@[0] == 'r');
        assert("mainnet"@ != "regtest"@);
    }
    let owned: String = name.to_owned();
    if owned == "mainnet".to_owned() {
        Some(Network::Mainnet)
    } else if owned == "regtest".to_owned() {
        Some(Network::Regtest)
    } else {
        None
    }
}

} // verus!
