use vstd::prelude::*;

use crate::errors::EscrowError;
use crate::keys::Key;
use crate::keys::capability_of;
use crate::keys::derive_capability;
use crate::record::EscrowAccount;
use crate::record::RecordState;
use crate::splitter::spec_fee;
use crate::splitter::spec_net;
use crate::splitter::split;
use crate::splitter::split_fits;
use crate::vault::AssetAccount;
use crate::vault::PaymentAccount;
use crate::vault::Vault;
use crate::vault::VaultStatus;

verus! {

/// What a caller submits to open an escrow.
#[derive(Clone, Copy, Debug, PartialEq, Eq, Structural)]
pub struct Initialize {
    /// Whether the seller signed the request.
    pub seller_signed: bool,
    /// The seller opening the escrow.
    pub seller_identity: Key,
    /// The custodian's own identity, from which the vault's controlling
    /// capability is derived.
    pub custodian_identity: Key,
    /// The asking price, in the smallest payment unit.
    pub price: u64,
    /// The marketplace fee rate, in parts per thousand.
    pub fee_rate: u8,
}

/// What a caller submits to settle an escrow against a payment.
#[derive(Clone, Copy, Debug, PartialEq, Eq, Structural)]
pub struct Exchange {
    /// Whether the buyer signed the request.
    pub buyer_signed: bool,
    /// The buyer paying for the asset.
    pub buyer_identity: Key,
    /// The seller account the caller presents; it must be the seller who
    /// opened the escrow.
    pub seller_identity: Key,
    /// The custodian's own identity.
    pub custodian_identity: Key,
    /// The payment offered; it must equal the asking price exactly.
    pub payment_amount: u64,
}

/// What a caller submits to cancel an escrow and recover the asset.
#[derive(Clone, Copy, Debug, PartialEq, Eq, Structural)]
pub struct Cancel {
    /// Whether the caller signed the request.
    pub caller_signed: bool,
    /// The identity asking to cancel; only the seller who opened the
    /// escrow may.
    pub caller_identity: Key,
    /// The custodian's own identity.
    pub custodian_identity: Key,
}

/// While an escrow is open, the vault its record references is active,
/// holds exactly the one unit in custody, and answers only to the
/// custodian's derived capability.  Callers own this invariant between
/// operations; every operation that closes the escrow re-establishes it
/// vacuously by decommissioning both sides.
pub open spec fn open_escrow_bound(record: RecordState, vault: Vault, custodian: Key) -> bool {
    (record.is_open() && record.record().asset_holder_reference == vault.id
        && record.record().quantity == 1) ==> (vault.is_active() && vault.quantity == 1
        && capability_of(custodian, record.record().seller_identity) == Some(vault.authority))
}

/// The exact result an opening attempt must report, in the order the
/// checks are made: an already-used record, then a missing signature,
/// then a wrong asset quantity, then an underivable capability; when
/// every check passes, success.
pub open spec fn initialize_outcome(
    b: Initialize,
    record: RecordState,
    seller_asset: AssetAccount,
) -> Result<(), EscrowError> {
    if !(record matches RecordState::Stored(r) && !r.initialized) {
        Err(EscrowError::AlreadyInitialized)
    } else if !b.seller_signed {
        Err(EscrowError::MissingSignature)
    } else if seller_asset.quantity != 1 {
        Err(EscrowError::InvalidAssetQuantity)
    } else if capability_of(b.custodian_identity, b.seller_identity) is None {
        Err(EscrowError::InvalidAccountBinding)
    } else {
        Ok(())
    }
}

/// Opens an escrow: fills the record with the trade's terms, hands the
/// vault over to the custodian's derived capability, and moves the asset
/// from the seller into the vault — all together, or not at all.
pub fn initialize(
    b: &Initialize,
    record: &mut RecordState,
    vault: &mut Vault,
    seller_asset: &mut AssetAccount,
) -> (r: Result<(), EscrowError>)
    requires
        b.price > 0,
        old(vault).is_active(),
        old(vault).quantity == 0,
        old(vault).authority == b.seller_identity,
    ensures
        r == initialize_outcome(*b, *old(record), *old(seller_asset)),
        r is Err ==> *final(record) == *old(record) && *final(vault) == *old(vault)
            && *final(seller_asset) == *old(seller_asset),
        r is Ok ==> {
            &&& *final(record) == RecordState::Stored(
                EscrowAccount {
                    initialized: true,
                    seller_identity: b.seller_identity,
                    asset_holder_reference: old(vault).id,
                    quantity: 1,
                    fee_rate: b.fee_rate,
                    price: b.price,
                },
            )
            &&& final(vault).id == old(vault).id
            &&& final(vault).is_active()
            &&& final(vault).quantity == 1
            &&& Some(final(vault).authority) == capability_of(
                b.custodian_identity,
                b.seller_identity,
            )
            &&& *final(seller_asset) == (AssetAccount { quantity: 0 })
            &&& open_escrow_bound(*final(record), *final(vault), b.custodian_identity)
        },
{
    let fresh = match *record {
        RecordState::Stored(r) => !r.initialized,
        RecordState::Decommissioned => false,
    };
    if !fresh {
        return Err(EscrowError::AlreadyInitialized);
    }
    if !b.seller_signed {
        return Err(EscrowError::MissingSignature);
    }
    if seller_asset.quantity != 1 {
        return Err(EscrowError::InvalidAssetQuantity);
    }
    let capability = match derive_capability(&b.custodian_identity, &b.seller_identity) {
        Some(c) => c,
        None => {
            return Err(EscrowError::InvalidAccountBinding);
        },
    };
    // Every check has passed: commit the record, the custody transfer
    // and the asset movement as one unit.
    *record = RecordState::Stored(
        EscrowAccount {
            initialized: true,
            seller_identity: b.seller_identity,
            asset_holder_reference: vault.id,
            quantity: 1,
            fee_rate: b.fee_rate,
            price: b.price,
        },
    );
    vault.take_custody(seller_asset, b.seller_identity, capability);
    Ok(())
}

/// The exact result a settlement attempt must report, in the order the
/// checks are made: a missing signature, then insufficient funds, then a
/// record that is not open, then an inexact payment, then each account
/// binding, then arithmetic that will not fit; when every check passes,
/// success.
pub open spec fn exchange_outcome(
    b: Exchange,
    record: RecordState,
    vault: Vault,
    buyer_asset: AssetAccount,
    buyer_funds: PaymentAccount,
    seller_funds: PaymentAccount,
    market_funds: PaymentAccount,
) -> Result<(), EscrowError> {
    if !b.buyer_signed {
        Err(EscrowError::MissingSignature)
    } else if buyer_funds.balance < b.payment_amount {
        Err(EscrowError::InsufficientFunds)
    } else if !record.is_open() {
        Err(EscrowError::InvalidAccountBinding)
    } else if b.payment_amount != record.record().price {
        Err(EscrowError::PriceMismatch)
    } else if record.record().quantity != 1 {
        Err(EscrowError::InvalidAccountBinding)
    } else if record.record().asset_holder_reference != vault.id {
        Err(EscrowError::InvalidAccountBinding)
    } else if record.record().seller_identity != b.seller_identity {
        Err(EscrowError::InvalidAccountBinding)
    } else if !split_fits(record.record().price, record.record().fee_rate) {
        Err(EscrowError::ArithmeticOverflow)
    } else if seller_funds.balance + spec_net(record.record().price, record.record().fee_rate)
        > u64::MAX || market_funds.balance + spec_fee(
        record.record().price,
        record.record().fee_rate,
    ) > u64::MAX || buyer_asset.quantity + 1 > u64::MAX {
        Err(EscrowError::ArithmeticOverflow)
    } else {
        Ok(())
    }
}

/// Settles an escrow: collects the exact asking price from the buyer,
/// pays the seller the net proceeds and the market wallet the fee,
/// hands the vault and the asset to the buyer, and decommissions the
/// vault and the record — all together, or not at all.
pub fn exchange(
    b: &Exchange,
    record: &mut RecordState,
    vault: &mut Vault,
    buyer_asset: &mut AssetAccount,
    buyer_funds: &mut PaymentAccount,
    seller_funds: &mut PaymentAccount,
    market_funds: &mut PaymentAccount,
) -> (r: Result<(), EscrowError>)
    requires
        open_escrow_bound(*old(record), *old(vault), b.custodian_identity),
    ensures
        r == exchange_outcome(
            *b,
            *old(record),
            *old(vault),
            *old(buyer_asset),
            *old(buyer_funds),
            *old(seller_funds),
            *old(market_funds),
        ),
        r is Err ==> *final(record) == *old(record) && *final(vault) == *old(vault)
            && *final(buyer_asset) == *old(buyer_asset) && *final(buyer_funds) == *old(buyer_funds)
            && *final(seller_funds) == *old(seller_funds)
            && *final(market_funds) == *old(market_funds),
        r is Ok ==> {
            let price = old(record).record().price;
            let fee_rate = old(record).record().fee_rate;
            &&& final(buyer_funds).balance == old(buyer_funds).balance - b.payment_amount
            &&& final(seller_funds).balance == old(seller_funds).balance + spec_net(price, fee_rate)
            &&& final(market_funds).balance == old(market_funds).balance + spec_fee(price, fee_rate)
            &&& final(buyer_asset).quantity == old(buyer_asset).quantity + 1
            &&& *final(record) == RecordState::Decommissioned
            &&& *final(vault) == (Vault {
                id: old(vault).id,
                authority: b.buyer_identity,
                quantity: 0,
                status: VaultStatus::Decommissioned,
            })
        },
{
    if !b.buyer_signed {
        return Err(EscrowError::MissingSignature);
    }
    if buyer_funds.balance < b.payment_amount {
        return Err(EscrowError::InsufficientFunds);
    }
    let rec = match *record {
        RecordState::Stored(r) => r,
        RecordState::Decommissioned => {
            return Err(EscrowError::InvalidAccountBinding);
        },
    };
    if !rec.initialized {
        return Err(EscrowError::InvalidAccountBinding);
    }
    if b.payment_amount != rec.price {
        return Err(EscrowError::PriceMismatch);
    }
    if rec.quantity != 1 {
        return Err(EscrowError::InvalidAccountBinding);
    }
    if rec.asset_holder_reference != vault.id {
        return Err(EscrowError::InvalidAccountBinding);
    }
    if rec.seller_identity != b.seller_identity {
        return Err(EscrowError::InvalidAccountBinding);
    }
    let (fee, net) = match split(rec.price, rec.fee_rate) {
        Ok(parts) => parts,
        Err(e) => {
            return Err(e);
        },
    };
    let new_seller_balance = match seller_funds.balance.checked_add(net) {
        Some(v) => v,
        None => {
            return Err(EscrowError::ArithmeticOverflow);
        },
    };
    let new_market_balance = match market_funds.balance.checked_add(fee) {
        Some(v) => v,
        None => {
            return Err(EscrowError::ArithmeticOverflow);
        },
    };
    if buyer_asset.quantity.checked_add(1).is_none() {
        return Err(EscrowError::ArithmeticOverflow);
    }
    let capability = match derive_capability(&b.custodian_identity, &rec.seller_identity) {
        Some(c) => c,
        None => {
            return Err(EscrowError::InvalidAccountBinding);
        },
    };
    // Every check has passed: commit the payments, the custody handover
    // and both decommissions as one unit.
    buyer_funds.balance = buyer_funds.balance - b.payment_amount;
    seller_funds.balance = new_seller_balance;
    market_funds.balance = new_market_balance;
    *record = RecordState::Decommissioned;
    vault.release(b.buyer_identity, capability);
    vault.transfer_out(buyer_asset, 1, b.buyer_identity);
    vault.decommission(b.buyer_identity);
    Ok(())
}

/// The exact result a cancel attempt must report, in the order the
/// checks are made: a missing signature, then a caller who is not the
/// seller of an open escrow, then an asset count that will not fit;
/// when every check passes, success.
pub open spec fn cancel_outcome(
    b: Cancel,
    record: RecordState,
    seller_asset: AssetAccount,
) -> Result<(), EscrowError> {
    if !b.caller_signed {
        Err(EscrowError::MissingSignature)
    } else if !record.is_open() {
        Err(EscrowError::Unauthorized)
    } else if record.record().seller_identity != b.caller_identity {
        Err(EscrowError::Unauthorized)
    } else if seller_asset.quantity + 1 > u64::MAX {
        Err(EscrowError::ArithmeticOverflow)
    } else {
        Ok(())
    }
}

/// Cancels an escrow: hands the vault back to the seller, returns the
/// asset to the seller's asset account, and decommissions the vault and
/// the record — all together, or not at all.  No funds move.
pub fn cancel(
    b: &Cancel,
    record: &mut RecordState,
    vault: &mut Vault,
    seller_asset: &mut AssetAccount,
) -> (r: Result<(), EscrowError>)
    requires
        old(record).is_open() ==> old(record).record().asset_holder_reference == old(vault).id
            && old(record).record().quantity == 1,
        open_escrow_bound(*old(record), *old(vault), b.custodian_identity),
    ensures
        r == cancel_outcome(*b, *old(record), *old(seller_asset)),
        r is Err ==> *final(record) == *old(record) && *final(vault) == *old(vault)
            && *final(seller_asset) == *old(seller_asset),
        r is Ok ==> {
            &&& final(seller_asset).quantity == old(seller_asset).quantity + 1
            &&& *final(record) == RecordState::Decommissioned
            &&& *final(vault) == (Vault {
                id: old(vault).id,
                authority: b.caller_identity,
                quantity: 0,
                status: VaultStatus::Decommissioned,
            })
        },
{
    if !b.caller_signed {
        return Err(EscrowError::MissingSignature);
    }
    let rec = match *record {
        RecordState::Stored(r) => r,
        RecordState::Decommissioned => {
            return Err(EscrowError::Unauthorized);
        },
    };
    if !rec.initialized {
        return Err(EscrowError::Unauthorized);
    }
    if rec.seller_identity != b.caller_identity {
        return Err(EscrowError::Unauthorized);
    }
    if seller_asset.quantity.checked_add(1).is_none() {
        return Err(EscrowError::ArithmeticOverflow);
    }
    let capability = match derive_capability(&b.custodian_identity, &rec.seller_identity) {
        Some(c) => c,
        None => {
            return Err(EscrowError::Unauthorized);
        },
    };
    // Every check has passed: commit the custody handback, the asset
    // return and both decommissions as one unit.
    *record = RecordState::Decommissioned;
    vault.release(b.caller_identity, capability);
    vault.transfer_out(seller_asset, 1, b.caller_identity);
    vault.decommission(b.caller_identity);
    Ok(())
}

/// An opening attempt on a record that is already initialized — or whose
/// storage was already reclaimed — always reports `AlreadyInitialized`,
/// whatever else the caller submits; `initialize`'s contract adds that
/// the record, the vault and the seller's asset account are then left
/// unchanged.
pub proof fn lemma_initialize_already_initialized(
    b: Initialize,
    record: RecordState,
    seller_asset: AssetAccount,
)
    requires
        record.is_open() || record is Decommissioned,
    ensures
        initialize_outcome(b, record, seller_asset) == Err::<(), EscrowError>(
            EscrowError::AlreadyInitialized,
        ),
{
}

/// A settlement attempt that offers anything but the exact asking price
/// reports `PriceMismatch` whenever it gets as far as the price check —
/// the buyer signed, can cover the offer, and the record is open;
/// `exchange`'s contract adds that no funds then move.
pub proof fn lemma_exchange_price_mismatch(
    b: Exchange,
    record: RecordState,
    vault: Vault,
    buyer_asset: AssetAccount,
    buyer_funds: PaymentAccount,
    seller_funds: PaymentAccount,
    market_funds: PaymentAccount,
)
    requires
        b.buyer_signed,
        buyer_funds.balance >= b.payment_amount,
        record.is_open(),
        b.payment_amount != record.record().price,
    ensures
        exchange_outcome(b, record, vault, buyer_asset, buyer_funds, seller_funds, market_funds)
            == Err::<(), EscrowError>(EscrowError::PriceMismatch),
{
}

/// A cancel request from anyone but the seller who opened the escrow
/// reports `Unauthorized` whenever the caller signed and the record is
/// open; `cancel`'s contract adds that the record, the vault and the
/// asset account are then left unchanged.
pub proof fn lemma_cancel_unauthorized(b: Cancel, record: RecordState, seller_asset: AssetAccount)
    requires
        b.caller_signed,
        record.is_open(),
        record.record().seller_identity != b.caller_identity,
    ensures
        cancel_outcome(b, record, seller_asset) == Err::<(), EscrowError>(EscrowError::Unauthorized),
{
}

/// Once a record's storage has been reclaimed, every lifecycle operation
/// on it fails: a terminated escrow can never be reopened, settled or
/// cancelled.
pub proof fn lemma_decommissioned_record_is_inert(
    bi: Initialize,
    bx: Exchange,
    bc: Cancel,
    vault: Vault,
    asset: AssetAccount,
    buyer_funds: PaymentAccount,
    seller_funds: PaymentAccount,
    market_funds: PaymentAccount,
)
    ensures
        initialize_outcome(bi, RecordState::Decommissioned, asset) == Err::<(), EscrowError>(
            EscrowError::AlreadyInitialized,
        ),
        exchange_outcome(
            bx,
            RecordState::Decommissioned,
            vault,
            asset,
            buyer_funds,
            seller_funds,
            market_funds,
        ) is Err,
        cancel_outcome(bc, RecordState::Decommissioned, asset) is Err,
{
}

} // verus!
