//! A trustless escrow for trading one indivisible digital asset.
//!
//! A seller opens an escrow by placing the asset in a vault whose control
//! passes to a capability derived from the custodian's identity; a buyer
//! settles the escrow by paying the exact asking price, which is split
//! between the seller and a marketplace fee wallet; or the seller cancels
//! and takes the asset back.  Every operation either performs all of its
//! effects or reports a specific error and changes nothing.

pub mod errors;
pub mod keys;
pub mod lifecycle;
pub mod record;
pub mod splitter;
pub mod vault;
