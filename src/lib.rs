//! Typed records for an exchange's private account API: accounts, ledger
//! entries, holds and orders, decoded from and encoded to a JSON value model.

pub mod ident;
pub mod json;
pub mod kinds;
pub mod numeric;
pub mod records;

pub use ident::Uuid;
pub use json::{DecodeError, ErrorKind, Json};
pub use kinds::{
    AccountHistoryDetailsTransferType, AccountHistoryType, AccountHoldsType, OrderSide, OrderStatus,
    OrderTimeInForceCancelAfter,
};
pub use numeric::{Decimal, parse_usize};
pub use records::{
    Account, AccountHistory, AccountHistoryDetails, AccountHolds, Order, OrderTimeInForce, OrderType,
};
