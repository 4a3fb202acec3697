use nft_trade::errors::EscrowError;
use nft_trade::keys::Key;
use nft_trade::lifecycle::Cancel;
use nft_trade::lifecycle::Exchange;
use nft_trade::lifecycle::Initialize;
use nft_trade::lifecycle::cancel;
use nft_trade::lifecycle::exchange;
use nft_trade::lifecycle::initialize;
use nft_trade::record::EscrowAccount;
use nft_trade::record::RecordState;
use nft_trade::vault::AssetAccount;
use nft_trade::vault::PaymentAccount;
use nft_trade::vault::Vault;
use nft_trade::vault::VaultStatus;

fn key(n: u64) -> Key {
    Key { w0: n, w1: 0, w2: 0, w3: 0 }
}

fn zeroed_record() -> RecordState {
    RecordState::Stored(EscrowAccount {
        initialized: false,
        seller_identity: key(0),
        asset_holder_reference: key(0),
        quantity: 0,
        fee_rate: 0,
        price: 0,
    })
}

const SELLER: u64 = 11;
const BUYER: u64 = 22;
const CUSTODIAN: u64 = 33;
const VAULT_ID: u64 = 44;

fn fresh_vault() -> Vault {
    Vault { id: key(VAULT_ID), authority: key(SELLER), quantity: 0, status: VaultStatus::Active }
}

fn open_bundle(price: u64, fee_rate: u8) -> Initialize {
    Initialize {
        seller_signed: true,
        seller_identity: key(SELLER),
        custodian_identity: key(CUSTODIAN),
        price,
        fee_rate,
    }
}

/// Opens a standard escrow and returns its record and vault.
fn opened_escrow(price: u64, fee_rate: u8) -> (RecordState, Vault) {
    let mut record = zeroed_record();
    let mut vault = fresh_vault();
    let mut seller_asset = AssetAccount { quantity: 1 };
    let r = initialize(&open_bundle(price, fee_rate), &mut record, &mut vault, &mut seller_asset);
    assert_eq!(r, Ok(()));
    assert_eq!(seller_asset.quantity, 0);
    (record, vault)
}

fn settle_bundle(payment_amount: u64) -> Exchange {
    Exchange {
        buyer_signed: true,
        buyer_identity: key(BUYER),
        seller_identity: key(SELLER),
        custodian_identity: key(CUSTODIAN),
        payment_amount,
    }
}

fn cancel_bundle(caller: u64) -> Cancel {
    Cancel { caller_signed: true, caller_identity: key(caller), custodian_identity: key(CUSTODIAN) }
}

#[test]
fn initialize_happy_path() {
    let (record, vault) = opened_escrow(1_500_000_000, 35);
    assert_eq!(
        record,
        RecordState::Stored(EscrowAccount {
            initialized: true,
            seller_identity: key(SELLER),
            asset_holder_reference: key(VAULT_ID),
            quantity: 1,
            fee_rate: 35,
            price: 1_500_000_000,
        })
    );
    assert_eq!(vault.status, VaultStatus::Active);
    assert_eq!(vault.quantity, 1);
    // The vault now answers to the custodian's derived capability,
    // which is neither party's own identity.
    assert_ne!(vault.authority, key(SELLER));
    assert_ne!(vault.authority, key(CUSTODIAN));
}

#[test]
fn capability_is_deterministic() {
    let (_, vault_a) = opened_escrow(10, 0);
    let (_, vault_b) = opened_escrow(999, 250);
    // The same custodian and seller always derive the same capability.
    assert_eq!(vault_a.authority, vault_b.authority);
}

#[test]
fn initialize_rejects_wrong_asset_quantity() {
    let mut record = zeroed_record();
    let mut vault = fresh_vault();
    let mut seller_asset = AssetAccount { quantity: 2 };
    let r = initialize(&open_bundle(1_000, 35), &mut record, &mut vault, &mut seller_asset);
    assert_eq!(r, Err(EscrowError::InvalidAssetQuantity));
    // No vault authority change, no asset movement, no record change.
    assert_eq!(vault, fresh_vault());
    assert_eq!(seller_asset.quantity, 2);
    assert_eq!(record, zeroed_record());
}

#[test]
fn initialize_rejects_missing_signature() {
    let mut record = zeroed_record();
    let mut vault = fresh_vault();
    let mut seller_asset = AssetAccount { quantity: 1 };
    let mut bundle = open_bundle(1_000, 35);
    bundle.seller_signed = false;
    let r = initialize(&bundle, &mut record, &mut vault, &mut seller_asset);
    assert_eq!(r, Err(EscrowError::MissingSignature));
    assert_eq!(record, zeroed_record());
    assert_eq!(vault, fresh_vault());
}

#[test]
fn initialize_is_mutually_exclusive() {
    // Two opening attempts race for the same zeroed record: whichever
    // runs first flips it to initialized, so the other must fail.
    let mut record = zeroed_record();
    let mut vault = fresh_vault();
    let mut seller_asset = AssetAccount { quantity: 1 };
    let first = initialize(&open_bundle(500, 10), &mut record, &mut vault, &mut seller_asset);
    assert_eq!(first, Ok(()));

    let mut other_vault = fresh_vault();
    let mut other_asset = AssetAccount { quantity: 1 };
    let second = initialize(&open_bundle(500, 10), &mut record, &mut other_vault, &mut other_asset);
    assert_eq!(second, Err(EscrowError::AlreadyInitialized));
    // The loser changed nothing.
    assert_eq!(other_vault, fresh_vault());
    assert_eq!(other_asset.quantity, 1);
}

#[test]
fn exchange_happy_path() {
    let (mut record, mut vault) = opened_escrow(1_500_000_000, 35);
    let mut buyer_asset = AssetAccount { quantity: 0 };
    let mut buyer_funds = PaymentAccount { balance: 2_000_000_000 };
    let mut seller_funds = PaymentAccount { balance: 5 };
    let mut market_funds = PaymentAccount { balance: 7 };
    let r = exchange(
        &settle_bundle(1_500_000_000),
        &mut record,
        &mut vault,
        &mut buyer_asset,
        &mut buyer_funds,
        &mut seller_funds,
        &mut market_funds,
    );
    assert_eq!(r, Ok(()));
    // The buyer holds the asset; the vault and the record are gone.
    assert_eq!(buyer_asset.quantity, 1);
    assert_eq!(vault.status, VaultStatus::Decommissioned);
    assert_eq!(vault.quantity, 0);
    assert_eq!(record, RecordState::Decommissioned);
    // The price moved as net to the seller and fee to the market wallet.
    assert_eq!(buyer_funds.balance, 500_000_000);
    assert_eq!(seller_funds.balance, 5 + 1_447_500_000);
    assert_eq!(market_funds.balance, 7 + 52_500_000);
}

#[test]
fn settled_record_is_inert() {
    let (mut record, mut vault) = opened_escrow(1_000, 35);
    let mut buyer_asset = AssetAccount { quantity: 0 };
    let mut buyer_funds = PaymentAccount { balance: 10_000 };
    let mut seller_funds = PaymentAccount { balance: 0 };
    let mut market_funds = PaymentAccount { balance: 0 };
    let r = exchange(
        &settle_bundle(1_000),
        &mut record,
        &mut vault,
        &mut buyer_asset,
        &mut buyer_funds,
        &mut seller_funds,
        &mut market_funds,
    );
    assert_eq!(r, Ok(()));
    // Every further operation on the settled escrow fails.
    let mut seller_asset = AssetAccount { quantity: 0 };
    let rc = cancel(&cancel_bundle(SELLER), &mut record, &mut vault, &mut seller_asset);
    assert_eq!(rc, Err(EscrowError::Unauthorized));
    let rx = exchange(
        &settle_bundle(1_000),
        &mut record,
        &mut vault,
        &mut buyer_asset,
        &mut buyer_funds,
        &mut seller_funds,
        &mut market_funds,
    );
    assert_eq!(rx, Err(EscrowError::InvalidAccountBinding));
    let mut fresh_asset = AssetAccount { quantity: 1 };
    let mut new_vault = fresh_vault();
    let ri = initialize(&open_bundle(1_000, 35), &mut record, &mut new_vault, &mut fresh_asset);
    assert_eq!(ri, Err(EscrowError::AlreadyInitialized));
}

#[test]
fn exchange_rejects_price_mismatch() {
    let (mut record, mut vault) = opened_escrow(1_500_000_000, 35);
    let record_before = record;
    let vault_before = vault;
    let mut buyer_asset = AssetAccount { quantity: 0 };
    let mut buyer_funds = PaymentAccount { balance: 2_000_000_000 };
    let mut seller_funds = PaymentAccount { balance: 0 };
    let mut market_funds = PaymentAccount { balance: 0 };
    for offer in [0u64, 1_499_999_999, 1_500_000_001, 2_000_000_000] {
        let r = exchange(
            &settle_bundle(offer),
            &mut record,
            &mut vault,
            &mut buyer_asset,
            &mut buyer_funds,
            &mut seller_funds,
            &mut market_funds,
        );
        assert_eq!(r, Err(EscrowError::PriceMismatch));
        // No funds moved, nothing changed.
        assert_eq!(buyer_funds.balance, 2_000_000_000);
        assert_eq!(seller_funds.balance, 0);
        assert_eq!(market_funds.balance, 0);
        assert_eq!(record, record_before);
        assert_eq!(vault, vault_before);
    }
}

#[test]
fn exchange_rejects_missing_signature() {
    let (mut record, mut vault) = opened_escrow(1_000, 35);
    let mut buyer_asset = AssetAccount { quantity: 0 };
    let mut buyer_funds = PaymentAccount { balance: 1_000 };
    let mut seller_funds = PaymentAccount { balance: 0 };
    let mut market_funds = PaymentAccount { balance: 0 };
    let mut bundle = settle_bundle(1_000);
    bundle.buyer_signed = false;
    let r = exchange(
        &bundle,
        &mut record,
        &mut vault,
        &mut buyer_asset,
        &mut buyer_funds,
        &mut seller_funds,
        &mut market_funds,
    );
    assert_eq!(r, Err(EscrowError::MissingSignature));
    assert_eq!(buyer_funds.balance, 1_000);
}

#[test]
fn exchange_rejects_insufficient_funds() {
    let (mut record, mut vault) = opened_escrow(1_000, 35);
    let mut buyer_asset = AssetAccount { quantity: 0 };
    let mut buyer_funds = PaymentAccount { balance: 999 };
    let mut seller_funds = PaymentAccount { balance: 0 };
    let mut market_funds = PaymentAccount { balance: 0 };
    let r = exchange(
        &settle_bundle(1_000),
        &mut record,
        &mut vault,
        &mut buyer_asset,
        &mut buyer_funds,
        &mut seller_funds,
        &mut market_funds,
    );
    assert_eq!(r, Err(EscrowError::InsufficientFunds));
    assert_eq!(buyer_funds.balance, 999);
    assert_eq!(vault.quantity, 1);
}

#[test]
fn exchange_rejects_wrong_seller_account() {
    let (mut record, mut vault) = opened_escrow(1_000, 35);
    let mut buyer_asset = AssetAccount { quantity: 0 };
    let mut buyer_funds = PaymentAccount { balance: 1_000 };
    let mut seller_funds = PaymentAccount { balance: 0 };
    let mut market_funds = PaymentAccount { balance: 0 };
    let mut bundle = settle_bundle(1_000);
    bundle.seller_identity = key(99);
    let r = exchange(
        &bundle,
        &mut record,
        &mut vault,
        &mut buyer_asset,
        &mut buyer_funds,
        &mut seller_funds,
        &mut market_funds,
    );
    assert_eq!(r, Err(EscrowError::InvalidAccountBinding));
    assert_eq!(seller_funds.balance, 0);
}

#[test]
fn exchange_reports_fee_overflow() {
    // A record whose scaled price cannot fit in 64 bits: the settlement
    // must fail explicitly rather than wrap.
    let mut record = RecordState::Stored(EscrowAccount {
        initialized: true,
        seller_identity: key(SELLER),
        asset_holder_reference: key(VAULT_ID),
        quantity: 1,
        fee_rate: 35,
        price: u64::MAX,
    });
    let mut vault = Vault {
        id: key(VAULT_ID),
        authority: key(77),
        quantity: 1,
        status: VaultStatus::Active,
    };
    let mut buyer_asset = AssetAccount { quantity: 0 };
    let mut buyer_funds = PaymentAccount { balance: u64::MAX };
    let mut seller_funds = PaymentAccount { balance: 0 };
    let mut market_funds = PaymentAccount { balance: 0 };
    let r = exchange(
        &settle_bundle(u64::MAX),
        &mut record,
        &mut vault,
        &mut buyer_asset,
        &mut buyer_funds,
        &mut seller_funds,
        &mut market_funds,
    );
    assert_eq!(r, Err(EscrowError::ArithmeticOverflow));
    assert_eq!(buyer_funds.balance, u64::MAX);
    assert_eq!(vault.quantity, 1);
}

#[test]
fn cancel_happy_path() {
    let (mut record, mut vault) = opened_escrow(1_500_000_000, 35);
    let mut seller_asset = AssetAccount { quantity: 0 };
    let r = cancel(&cancel_bundle(SELLER), &mut record, &mut vault, &mut seller_asset);
    assert_eq!(r, Ok(()));
    // The seller holds the asset again; the vault and the record are gone.
    assert_eq!(seller_asset.quantity, 1);
    assert_eq!(vault.status, VaultStatus::Decommissioned);
    assert_eq!(vault.quantity, 0);
    assert_eq!(vault.authority, key(SELLER));
    assert_eq!(record, RecordState::Decommissioned);
}

#[test]
fn cancel_rejects_other_identities() {
    let (mut record, mut vault) = opened_escrow(1_000, 35);
    let record_before = record;
    let vault_before = vault;
    let mut seller_asset = AssetAccount { quantity: 0 };
    for imposter in [BUYER, CUSTODIAN, 0, 12345] {
        let r = cancel(&cancel_bundle(imposter), &mut record, &mut vault, &mut seller_asset);
        assert_eq!(r, Err(EscrowError::Unauthorized));
        // The vault and the record are unchanged.
        assert_eq!(record, record_before);
        assert_eq!(vault, vault_before);
        assert_eq!(seller_asset.quantity, 0);
    }
}

#[test]
fn cancel_rejects_missing_signature() {
    let (mut record, mut vault) = opened_escrow(1_000, 35);
    let mut seller_asset = AssetAccount { quantity: 0 };
    let mut bundle = cancel_bundle(SELLER);
    bundle.caller_signed = false;
    let r = cancel(&bundle, &mut record, &mut vault, &mut seller_asset);
    assert_eq!(r, Err(EscrowError::MissingSignature));
    assert_eq!(seller_asset.quantity, 0);
    assert_eq!(vault.quantity, 1);
}
