//! Closed enumerations and the words that stand for them on the wire.

use vstd::prelude::*;
use crate::json::same_text;

verus! {

/// How funds moved in a transfer.
#[derive(Clone, Copy, Debug, PartialEq, Eq, Structural)]
pub enum AccountHistoryDetailsTransferType {
    Deposit,
    Withdraw,
}

impl View for AccountHistoryDetailsTransferType {
    type V = AccountHistoryDetailsTransferType;

    open spec fn view(&self) -> AccountHistoryDetailsTransferType {
        *self
    }
}

impl AccountHistoryDetailsTransferType {
    /// The word that stands for this value on the wire.
    pub open spec fn wire_name(self) -> Seq<char> {
        match self {
            AccountHistoryDetailsTransferType::Deposit => "deposit"@,
            AccountHistoryDetailsTransferType::Withdraw => "withdraw"@,
        }
    }

    /// The value a wire word stands for, if any.
    pub open spec fn from_wire_name(s: Seq<char>) -> Option<Self> {
        if s == "deposit"@ {
            Some(AccountHistoryDetailsTransferType::Deposit)
        } else if s == "withdraw"@ {
            Some(AccountHistoryDetailsTransferType::Withdraw)
        } else {
            None
        }
    }

    /// Reads a wire word; `None` for a word outside the set.
    pub fn from_wire(s: &str) -> (r: Option<Self>)
        ensures
            r == Self::from_wire_name(s@),
    {
        if same_text(s, "deposit") {
            return Some(AccountHistoryDetailsTransferType::Deposit);
        }
        if same_text(s, "withdraw") {
            return Some(AccountHistoryDetailsTransferType::Withdraw);
        }
        None
    }

    /// The wire word of this value.
    pub fn to_wire(&self) -> (r: &'static str)
        ensures
            r@ == self.wire_name(),
    {
        match self {
            AccountHistoryDetailsTransferType::Deposit => "deposit",
            AccountHistoryDetailsTransferType::Withdraw => "withdraw",
        }
    }

    /// Reading a value's wire word gives the value back.
    pub proof fn lemma_wire_round_trip(self)
        ensures
            Self::from_wire_name(self.wire_name()) == Some(self),
    {
        reveal_strlit("deposit");
        reveal_strlit("withdraw");
        assert("deposit"@[0] != "withdraw"@[0]);
    }
}

/// What created a hold.
#[derive(Clone, Copy, Debug, PartialEq, Eq, Structural)]
pub enum AccountHoldsType {
    Order,
    Transfer,
}

impl View for AccountHoldsType {
    type V = AccountHoldsType;

    open spec fn view(&self) -> AccountHoldsType {
        *self
    }
}

impl AccountHoldsType {
    /// The word that stands for this value on the wire.
    pub open spec fn wire_name(self) -> Seq<char> {
        match self {
            AccountHoldsType::Order => "order"@,
            AccountHoldsType::Transfer => "transfer"@,
        }
    }

    /// The value a wire word stands for, if any.
    pub open spec fn from_wire_name(s: Seq<char>) -> Option<Self> {
        if s == "order"@ {
            Some(AccountHoldsType::Order)
        } else if s == "transfer"@ {
            Some(AccountHoldsType::Transfer)
        } else {
            None
        }
    }

    /// Reads a wire word; `None` for a word outside the set.
    pub fn from_wire(s: &str) -> (r: Option<Self>)
        ensures
            r == Self::from_wire_name(s@),
    {
        if same_text(s, "order") {
            return Some(AccountHoldsType::Order);
        }
        if same_text(s, "transfer") {
            return Some(AccountHoldsType::Transfer);
        }
        None
    }

    /// The wire word of this value.
    pub fn to_wire(&self) -> (r: &'static str)
        ensures
            r@ == self.wire_name(),
    {
        match self {
            AccountHoldsType::Order => "order",
            AccountHoldsType::Transfer => "transfer",
        }
    }

    /// Reading a value's wire word gives the value back.
    pub proof fn lemma_wire_round_trip(self)
        ensures
            Self::from_wire_name(self.wire_name()) == Some(self),
    {
        reveal_strlit("order");
        reveal_strlit("transfer");
        assert("order"@[0] != "transfer"@[0]);
    }
}

/// Where an order is in its life.
#[derive(Clone, Copy, Debug, PartialEq, Eq, Structural)]
pub enum OrderStatus {
    Open,
    Done,
    Pending,
}

impl View for OrderStatus {
    type V = OrderStatus;

    open spec fn view(&self) -> OrderStatus {
        *self
    }
}

impl OrderStatus {
    /// The word that stands for this value on the wire.
    pub open spec fn wire_name(self) -> Seq<char> {
        match self {
            OrderStatus::Open => "open"@,
            OrderStatus::Done => "done"@,
            OrderStatus::Pending => "pending"@,
        }
    }

    /// The value a wire word stands for, if any.
    pub open spec fn from_wire_name(s: Seq<char>) -> Option<Self> {
        if s == "open"@ {
            Some(OrderStatus::Open)
        } else if s == "done"@ {
            Some(OrderStatus::Done)
        } else if s == "pending"@ {
            Some(OrderStatus::Pending)
        } else {
            None
        }
    }

    /// Reads a wire word; `None` for a word outside the set.
    pub fn from_wire(s: &str) -> (r: Option<Self>)
        ensures
            r == Self::from_wire_name(s@),
    {
        if same_text(s, "open") {
            return Some(OrderStatus::Open);
        }
        if same_text(s, "done") {
            return Some(OrderStatus::Done);
        }
        if same_text(s, "pending") {
            return Some(OrderStatus::Pending);
        }
        None
    }

    /// The wire word of this value.
    pub fn to_wire(&self) -> (r: &'static str)
        ensures
            r@ == self.wire_name(),
    {
        match self {
            OrderStatus::Open => "open",
            OrderStatus::Done => "done",
            OrderStatus::Pending => "pending",
        }
    }

    /// Reading a value's wire word gives the value back.
    pub proof fn lemma_wire_round_trip(self)
        ensures
            Self::from_wire_name(self.wire_name()) == Some(self),
    {
        reveal_strlit("open");
        reveal_strlit("done");
        reveal_strlit("pending");
        assert("open"@[0] != "done"@[0]);
        assert("open"@[0] != "pending"@[0]);
        assert("done"@[0] != "pending"@[0]);
    }
}

/// Whether an order buys or sells.
#[derive(Clone, Copy, Debug, PartialEq, Eq, Structural)]
pub enum OrderSide {
    Buy,
    Sell,
}

impl View for OrderSide {
    type V = OrderSide;

    open spec fn view(&self) -> OrderSide {
        *self
    }
}

impl OrderSide {
    /// The word that stands for this value on the wire.
    pub open spec fn wire_name(self) -> Seq<char> {
        match self {
            OrderSide::Buy => "buy"@,
            OrderSide::Sell => "sell"@,
        }
    }

    /// The value a wire word stands for, if any.
    pub open spec fn from_wire_name(s: Seq<char>) -> Option<Self> {
        if s == "buy"@ {
            Some(OrderSide::Buy)
        } else if s == "sell"@ {
            Some(OrderSide::Sell)
        } else {
            None
        }
    }

    /// Reads a wire word; `None` for a word outside the set.
    pub fn from_wire(s: &str) -> (r: Option<Self>)
        ensures
            r == Self::from_wire_name(s@),
    {
        if same_text(s, "buy") {
            return Some(OrderSide::Buy);
        }
        if same_text(s, "sell") {
            return Some(OrderSide::Sell);
        }
        None
    }

    /// The wire word of this value.
    pub fn to_wire(&self) -> (r: &'static str)
        ensures
            r@ == self.wire_name(),
    {
        match self {
            OrderSide::Buy => "buy",
            OrderSide::Sell => "sell",
        }
    }

    /// Reading a value's wire word gives the value back.
    pub proof fn lemma_wire_round_trip(self)
        ensures
            Self::from_wire_name(self.wire_name()) == Some(self),
    {
        reveal_strlit("buy");
        reveal_strlit("sell");
        assert("buy"@[0] != "sell"@[0]);
    }
}

/// After how long a good-till-time order is cancelled.
#[derive(Clone, Copy, Debug, PartialEq, Eq, Structural)]
pub enum OrderTimeInForceCancelAfter {
    Min,
    Hour,
    Day,
}

impl View for OrderTimeInForceCancelAfter {
    type V = OrderTimeInForceCancelAfter;

    open spec fn view(&self) -> OrderTimeInForceCancelAfter {
        *self
    }
}

impl OrderTimeInForceCancelAfter {
    /// The word that stands for this value on the wire.
    pub open spec fn wire_name(self) -> Seq<char> {
        match self {
            OrderTimeInForceCancelAfter::Min => "min"@,
            OrderTimeInForceCancelAfter::Hour => "hour"@,
            OrderTimeInForceCancelAfter::Day => "day"@,
        }
    }

    /// The value a wire word stands for, if any.
    pub open spec fn from_wire_name(s: Seq<char>) -> Option<Self> {
        if s == "min"@ {
            Some(OrderTimeInForceCancelAfter::Min)
        } else if s == "hour"@ {
            Some(OrderTimeInForceCancelAfter::Hour)
        } else if s == "day"@ {
            Some(OrderTimeInForceCancelAfter::Day)
        } else {
            None
        }
    }

    /// Reads a wire word; `None` for a word outside the set.
    pub fn from_wire(s: &str) -> (r: Option<Self>)
        ensures
            r == Self::from_wire_name(s@),
    {
        if same_text(s, "min") {
            return Some(OrderTimeInForceCancelAfter::Min);
        }
        if same_text(s, "hour") {
            return Some(OrderTimeInForceCancelAfter::Hour);
        }
        if same_text(s, "day") {
            return Some(OrderTimeInForceCancelAfter::Day);
        }
        None
    }

    /// The wire word of this value.
    pub fn to_wire(&self) -> (r: &'static str)
        ensures
            r@ == self.wire_name(),
    {
        match self {
            OrderTimeInForceCancelAfter::Min => "min",
            OrderTimeInForceCancelAfter::Hour => "hour",
            OrderTimeInForceCancelAfter::Day => "day",
        }
    }

    /// Reading a value's wire word gives the value back.
    pub proof fn lemma_wire_round_trip(self)
        ensures
            Self::from_wire_name(self.wire_name()) == Some(self),
    {
        reveal_strlit("min");
        reveal_strlit("hour");
        reveal_strlit("day");
        assert("min"@[0] != "hour"@[0]);
        assert("min"@[0] != "day"@[0]);
        assert("hour"@[0] != "day"@[0]);
    }
}

/// The kind of a ledger entry. `NotSet` only stands in a record that has
/// not been decoded.
#[derive(Clone, Copy, Debug, PartialEq, Eq, Structural)]
pub enum AccountHistoryType {
    Fee,
    Match,
    Rebate,
    Transfer,
    NotSet,
}

impl View for AccountHistoryType {
    type V = AccountHistoryType;

    open spec fn view(&self) -> AccountHistoryType {
        *self
    }
}

impl Default for AccountHistoryType {
    fn default() -> (r: Self)
        ensures
            r == AccountHistoryType::NotSet,
    {
        AccountHistoryType::NotSet
    }
}

} // verus!
