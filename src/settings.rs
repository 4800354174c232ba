//! Relay settings and the rules they must meet.
use vstd::prelude::*;

use crate::errors::Error;

verus! {

/// Confirmation depth used when none is configured.
pub const DEFAULT_CONFIRMATIONS: u64 = 12;

/// Anchor frequency used when none is configured.
pub const DEFAULT_ANCHOR_FREQUENCY: u64 = 100;

/// Settings for the application.
#[derive(Clone, Debug)]
pub struct Settings {
    pub relay: Relay,
}

/// Relay settings.
#[derive(Clone, Debug)]
pub struct Relay {
    /// The account to send transactions from.
    pub account: String,
    /// The password to unlock the account.
    pub password: String,
    /// Number of blocks to wait for confirmation.
    pub confirmations: u64,
    /// Frequency of sidechain anchor blocks.
    pub anchor_frequency: u64,
    /// Network to use as the homechain.
    pub homechain: Network,
    /// Network to use as the sidechain.
    pub sidechain: Network,
}

/// Per-network settings.
#[derive(Clone, Debug)]
pub struct Network {
    /// URI of the WebSocket RPC endpoint of an Ethereum client.
    pub ws_uri: String,
    /// Address of the ERC20 token contract.
    pub token: String,
    /// Address of the relay contract.
    pub relay: String,
}

/// The confirmation depth and anchor frequency fit together:
/// the frequency is positive and the depth lies below it.
pub open spec fn valid_cadence(confirmations: u64, anchor_frequency: u64) -> bool {
    anchor_frequency != 0 && confirmations < anchor_frequency
}

impl Settings {
    /// Builds settings from loaded values, filling in the default depth and
    /// frequency where they are absent, and validates them.
    pub fn new(
        account: String,
        password: String,
        confirmations: Option<u64>,
        anchor_frequency: Option<u64>,
        homechain: Network,
        sidechain: Network,
    ) -> (r: Result<Settings, Error>)
        ensures
            ({
                let c = match confirmations {
                    Some(c) => c,
                    None => DEFAULT_CONFIRMATIONS,
                };
                let f = match anchor_frequency {
                    Some(f) => f,
                    None => DEFAULT_ANCHOR_FREQUENCY,
                };
                &&& r is Ok <==> valid_cadence(c, f)
                &&& (r is Err && r->Err_0 is InvalidAnchorFrequency) <==> f == 0
                &&& (r is Err && r->Err_0 is InvalidConfirmations) <==> (f != 0 && c >= f)
                &&& r matches Ok(s) ==> (s.relay == Relay {
                    account,
                    password,
                    confirmations: c,
                    anchor_frequency: f,
                    homechain,
                    sidechain,
                })
            }),
    {
        let c = match confirmations {
            Some(c) => c,
            None => DEFAULT_CONFIRMATIONS,
        };
        let f = match anchor_frequency {
            Some(f) => f,
            None => DEFAULT_ANCHOR_FREQUENCY,
        };
        let s = Settings {
            relay: Relay {
                account,
                password,
                confirmations: c,
                anchor_frequency: f,
                homechain,
                sidechain,
            },
        };
        s.validated()
    }

    /// Accepts the settings when the anchor frequency is positive and the
    /// confirmation depth lies below it.
    pub fn validated(self) -> (r: Result<Settings, Error>)
        ensures
            r is Ok <==> valid_cadence(self.relay.confirmations, self.relay.anchor_frequency),
            (r is Err && r->Err_0 is InvalidAnchorFrequency) <==> self.relay.anchor_frequency == 0,
            (r is Err && r->Err_0 is InvalidConfirmations) <==> (self.relay.anchor_frequency != 0
                && self.relay.confirmations >= self.relay.anchor_frequency),
            r matches Ok(s) ==> s == self,
    {
        if self.relay.anchor_frequency == 0 {
            Err(Error::InvalidAnchorFrequency)
        } else if self.relay.confirmations >= self.relay.anchor_frequency {
            Err(Error::InvalidConfirmations)
        } else {
            Ok(self)
        }
    }
}

} // verus!
