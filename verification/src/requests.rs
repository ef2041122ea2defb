//! Models of the request payloads the adapter hands the wallet SDK, and the
//! builders that fill them in.
//!
//! Every builder that serves a session-dependent operation is a method on
//! [`BreezNode`] and answers `None` exactly when no session is live: the
//! unverified glue then makes no SDK call at all and falls back to the
//! operation's sentinel.  The builders also own the adapter's sentinel
//! convention for optional numbers: an engine-side value `<= 0` means
//! "unset", and a positive value is narrowed to the SDK's unsigned width.

use vstd::prelude::*;

use crate::network::Network;
use crate::network::is_network_name;
use crate::network::parse_network;
use crate::network::spec_network_of;
use crate::session::BreezNode;

verus! {

/// Seed material for a connect attempt: the mnemonic phrase as the engine
/// gave it, never a passphrase.
#[derive(Clone, Debug, PartialEq, Eq)]
pub struct Seed {
    pub mnemonic: String,
    pub passphrase: Option<String>,
}

/// Everything a connect attempt hands the SDK: the parsed network, the API
/// key attached to the network's default configuration, the seed, and the
/// storage directory.
#[derive(Clone, Debug, PartialEq, Eq)]
pub struct ConnectRequest {
    pub network: Network,
    pub api_key: Option<String>,
    pub seed: Seed,
    pub storage_dir: String,
}

/// Request for wallet info; the adapter always asks the SDK to sync first.
#[derive(Clone, Copy, Debug, PartialEq, Eq, Structural)]
pub struct GetInfoRequest {
    pub ensure_synced: Option<bool>,
}

/// The three ways the wallet can be asked to receive funds.
#[derive(Clone, Debug, PartialEq, Eq)]
pub enum ReceivePaymentMethod {
    /// An on-chain Bitcoin address.
    BitcoinAddress,
    /// A Lightning invoice; `amount_sats` absent means an amountless invoice.
    Bolt11Invoice { description: String, amount_sats: Option<u64> },
    /// An address on the alternate (Spark) rail.
    SparkAddress,
}

/// Request for a payment-request string of one of the three kinds.
#[derive(Clone, Debug, PartialEq, Eq)]
pub struct ReceivePaymentRequest {
    pub payment_method: ReceivePaymentMethod,
}

/// First phase of paying an invoice: the invoice string as given, with no
/// amount override (the amount comes from the invoice itself).
#[derive(Clone, Debug, PartialEq, Eq)]
pub struct PrepareSendPaymentRequest {
    pub payment_request: String,
    pub amount_sats: Option<u64>,
}

/// Options attached to the second phase of paying an invoice.
#[derive(Clone, Copy, Debug, PartialEq, Eq, Structural)]
pub enum SendPaymentOptions {
    Bolt11Invoice { prefer_spark: bool, completion_timeout_secs: Option<u32> },
}

/// Request to sync the wallet; it carries nothing.
#[derive(Clone, Copy, Debug, PartialEq, Eq, Structural)]
pub struct SyncWalletRequest {}

/// Paging for the payment history; an absent bound leaves the SDK's own
/// default paging in force.
#[derive(Clone, Copy, Debug, PartialEq, Eq, Structural)]
pub struct ListPaymentsRequest {
    pub offset: Option<u32>,
    pub limit: Option<u32>,
}

/// Request for the unclaimed deposits; it carries nothing.
#[derive(Clone, Copy, Debug, PartialEq, Eq, Structural)]
pub struct ListUnclaimedDepositsRequest {}

/// A fee cap for claiming a deposit.
#[derive(Clone, Copy, Debug, PartialEq, Eq, Structural)]
pub enum Fee {
    Fixed { amount: u64 },
}

/// Request to claim one on-chain deposit, identified by its outpoint, with
/// an optional cap on the claim fee.
#[derive(Clone, Debug, PartialEq, Eq)]
pub struct ClaimDepositRequest {
    pub txid: String,
    pub vout: u32,
    pub max_fee: Option<Fee>,
}

/// Narrows a positive engine-side value to the SDK's 32-bit width the way a
/// plain narrowing conversion would: by keeping the low 32 bits.
fn narrow_positive_u32(v: i64) -> (r: u32)
    requires
        0 < v,
    ensures
        r as int == (v as int) % 0x1_0000_0000,
{
    ((v as u64) % 0x1_0000_0000u64) as u32
}

/// Builds the connect request, or nothing for a network name outside the
/// fixed set — in that case the attempt fails fast, with no call made and no
/// session stored.
pub fn connect_request(mnemonic: String, api_key: String, network: &str, storage_dir: String) -> (r:
    Option<ConnectRequest>)
    ensures
        r is Some <==> is_network_name(network@),
        r matches Some(req) ==> req == (ConnectRequest {
            network: spec_network_of(network@),
            api_key: Some(api_key),
            seed: Seed { mnemonic: mnemonic, passphrase: None },
            storage_dir: storage_dir,
        }),
{
    match parse_network(network) {
        Some(n) => Some(
            ConnectRequest {
                network: n,
                api_key: Some(api_key),
                seed: Seed { mnemonic, passphrase: None },
                storage_dir,
            },
        ),
        None => None,
    }
}

/// Attaches completion options to the send phase of paying an invoice: a
/// timeout `<= 0` attaches nothing, a positive timeout is carried in whole
/// seconds together with an explicit non-preference for the alternate rail.
pub fn send_options(timeout_secs: i64) -> (r: Option<SendPaymentOptions>)
    ensures
        timeout_secs <= 0 ==> r is None,
        timeout_secs > 0 ==> (r matches Some(
            SendPaymentOptions::Bolt11Invoice { prefer_spark, completion_timeout_secs },
        ) && prefer_spark == false && (completion_timeout_secs matches Some(t) && t as int == (
        timeout_secs as int) % 0x1_0000_0000)),
{
    if timeout_secs > 0 {
        Some(
            SendPaymentOptions::Bolt11Invoice {
                prefer_spark: false,
                completion_timeout_secs: Some(narrow_positive_u32(timeout_secs)),
            },
        )
    } else {
        None
    }
}

impl BreezNode {
    /// Request behind the balance query: ask for wallet info, synced first.
    /// Answers nothing while disconnected; the balance then reads 0.
    pub fn get_balance_request(&self) -> (r: Option<GetInfoRequest>)
        ensures
            r is Some <==> self.connected(),
            self.connected() ==> r == Some((GetInfoRequest { ensure_synced: Some(true) })),
    {
        if self.is_sdk_connected() {
            Some(GetInfoRequest { ensure_synced: Some(true) })
        } else {
            None
        }
    }

    /// Request behind the on-chain address query.  Answers nothing while
    /// disconnected; the address then reads empty.
    pub fn get_bitcoin_address_request(&self) -> (r: Option<ReceivePaymentRequest>)
        ensures
            r is Some <==> self.connected(),
            self.connected() ==> r == Some(
                (ReceivePaymentRequest { payment_method: ReceivePaymentMethod::BitcoinAddress }),
            ),
    {
        if self.is_sdk_connected() {
            Some(ReceivePaymentRequest { payment_method: ReceivePaymentMethod::BitcoinAddress })
        } else {
            None
        }
    }

    /// Request behind the alternate-rail address query.  Answers nothing
    /// while disconnected; the address then reads empty.
    pub fn get_spark_address_request(&self) -> (r: Option<ReceivePaymentRequest>)
        ensures
            r is Some <==> self.connected(),
            self.connected() ==> r == Some(
                (ReceivePaymentRequest { payment_method: ReceivePaymentMethod::SparkAddress }),
            ),
    {
        if self.is_sdk_connected() {
            Some(ReceivePaymentRequest { payment_method: ReceivePaymentMethod::SparkAddress })
        } else {
            None
        }
    }

    /// Request behind invoice creation.  An amount `<= 0` asks for an
    /// amountless invoice; a positive amount is carried through unchanged.
    /// Answers nothing while disconnected; the invoice then reads empty.
    pub fn create_invoice_request(&self, amount_sats: i64, description: String) -> (r: Option<
        ReceivePaymentRequest>)
        ensures
            r is Some <==> self.connected(),
            self.connected() && amount_sats <= 0 ==> r == Some(
                (ReceivePaymentRequest {
                    payment_method: ReceivePaymentMethod::Bolt11Invoice {
                        description: description,
                        amount_sats: None,
                    },
                }),
            ),
            self.connected() && amount_sats > 0 ==> r == Some(
                (ReceivePaymentRequest {
                    payment_method: ReceivePaymentMethod::Bolt11Invoice {
                        description: description,
                        amount_sats: Some(amount_sats as u64),
                    },
                }),
            ),
    {
        if self.is_sdk_connected() {
            let amount: Option<u64> = if amount_sats > 0 {
                Some(amount_sats as u64)
            } else {
                None
            };
            Some(
                ReceivePaymentRequest {
                    payment_method: ReceivePaymentMethod::Bolt11Invoice {
                        description,
                        amount_sats: amount,
                    },
                },
            )
        } else {
            None
        }
    }

    /// Request behind the first phase of paying an invoice: the invoice
    /// string as given, never an amount override.  Answers nothing while
    /// disconnected; the payment then reports failure without any call.
    pub fn pay_invoice_prepare(&self, bolt11: String) -> (r: Option<PrepareSendPaymentRequest>)
        ensures
            r is Some <==> self.connected(),
            self.connected() ==> r == Some(
                (PrepareSendPaymentRequest { payment_request: bolt11, amount_sats: None }),
            ),
    {
        if self.is_sdk_connected() {
            Some(PrepareSendPaymentRequest { payment_request: bolt11, amount_sats: None })
        } else {
            None
        }
    }

    /// Request behind the manual sync.  Answers nothing while disconnected;
    /// the sync then reports failure.
    pub fn sync_wallet_request(&self) -> (r: Option<SyncWalletRequest>)
        ensures
            r is Some <==> self.connected(),
            self.connected() ==> r == Some((SyncWalletRequest {  })),
    {
        if self.is_sdk_connected() {
            Some(SyncWalletRequest {  })
        } else {
            None
        }
    }

    /// Request behind the payment history.  An offset or limit `<= 0` leaves
    /// that bound unset, so the SDK pages by its own default; positive values
    /// are narrowed to the SDK's 32-bit width.  Answers nothing while
    /// disconnected; the history then reads empty.
    pub fn list_payments_request(&self, offset: i64, limit: i64) -> (r: Option<ListPaymentsRequest>)
        ensures
            r is Some <==> self.connected(),
            r matches Some(req) ==> {
                &&& offset <= 0 ==> req.offset is None
                &&& limit <= 0 ==> req.limit is None
                &&& offset > 0 ==> (req.offset matches Some(b) && b as int == (offset as int)
                    % 0x1_0000_0000)
                &&& limit > 0 ==> (req.limit matches Some(b) && b as int == (limit as int)
                    % 0x1_0000_0000)
            },
    {
        if self.is_sdk_connected() {
            Some(
                ListPaymentsRequest {
                    offset: if offset > 0 {
                        Some(narrow_positive_u32(offset))
                    } else {
                        None
                    },
                    limit: if limit > 0 {
                        Some(narrow_positive_u32(limit))
                    } else {
                        None
                    },
                },
            )
        } else {
            None
        }
    }

    /// Request behind the unclaimed-deposit listing.  Answers nothing while
    /// disconnected; the listing then reads empty.
    pub fn list_unclaimed_deposits_request(&self) -> (r: Option<ListUnclaimedDepositsRequest>)
        ensures
            r is Some <==> self.connected(),
            self.connected() ==> r == Some((ListUnclaimedDepositsRequest {  })),
    {
        if self.is_sdk_connected() {
            Some(ListUnclaimedDepositsRequest {  })
        } else {
            None
        }
    }

    /// Request behind claiming one deposit.  A fee cap `<= 0` leaves the fee
    /// unconstrained; a positive cap is carried through as a fixed amount.
    /// Answers nothing while disconnected; the claim then reports failure.
    pub fn claim_deposit_request(&self, txid: String, vout: u32, max_fee_sats: i64) -> (r: Option<
        ClaimDepositRequest>)
        ensures
            r is Some <==> self.connected(),
            self.connected() && max_fee_sats <= 0 ==> r == Some(
                (ClaimDepositRequest { txid: txid, vout: vout, max_fee: None }),
            ),
            self.connected() && max_fee_sats > 0 ==> r == Some(
                (ClaimDepositRequest {
                    txid: txid,
                    vout: vout,
                    max_fee: Some(Fee::Fixed { amount: max_fee_sats as u64 }),
                }),
            ),
    {
        if self.is_sdk_connected() {
            let max_fee: Option<Fee> = if max_fee_sats > 0 {
                Some(Fee::Fixed { amount: max_fee_sats as u64 })
            } else {
                None
            };
            Some(ClaimDepositRequest { txid, vout, max_fee })
        } else {
            None
        }
    }
}

} // verus!
