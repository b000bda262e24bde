//! The four records, their decoding from and encoding to JSON objects, and
//! the laws that tie the two together.

use vstd::prelude::*;
use crate::ident::Uuid;
use crate::json::{
    DecodeError, Decoded, ErrorKind, Json, agrees, bool_at, decimal_at, fail_at, has_bool,
    has_number, has_text, has_usize, has_uuid, lookup, number_at, object_at, push_field,
    read_bool, read_decimal, read_number, read_object, read_text, read_usize, read_uuid,
    same_text, text_at, usize_at, uuid_at,
};
use crate::kinds::{
    AccountHistoryDetailsTransferType, AccountHistoryType, AccountHoldsType, OrderSide, OrderStatus,
    OrderTimeInForceCancelAfter,
};
use crate::numeric::usize_text;
use crate::numeric::{Decimal, is_decimal_text};

verus! {

/// The object's fields, or a type mismatch for anything that is not an object.
pub open spec fn object_fields(j: Json) -> Decoded<Seq<(String, Json)>> {
    match j {
        Json::Object(fs) => Ok(fs@),
        _ => Err((ErrorKind::TypeMismatch, ""@)),
    }
}

/// A funds account: balances are decimals in their wire form.
#[derive(Debug)]
pub struct Account {
    pub id: Uuid,
    pub currency: String,
    pub balance: Decimal,
    pub available: Decimal,
    pub hold: Decimal,
    pub profile_id: Uuid,
}

pub ghost struct AccountView {
    pub id: Uuid,
    pub currency: Seq<char>,
    pub balance: Seq<char>,
    pub available: Seq<char>,
    pub hold: Seq<char>,
    pub profile_id: Uuid,
}

impl View for Account {
    type V = AccountView;

    open spec fn view(&self) -> AccountView {
        AccountView {
            id: self.id,
            currency: self.currency@,
            balance: self.balance@,
            available: self.available@,
            hold: self.hold@,
            profile_id: self.profile_id,
        }
    }
}

impl AccountView {
    pub open spec fn wf(self) -> bool {
        is_decimal_text(self.balance) && is_decimal_text(self.available) && is_decimal_text(
            self.hold,
        )
    }
}

/// Decoding an account's fields, in order; the first failure is reported.
pub open spec fn account_of(fs: Seq<(String, Json)>) -> Decoded<AccountView> {
    match uuid_at(fs, "id"@) {
        Err(k) => Err((k, "id"@)),
        Ok(id) => match text_at(fs, "currency"@) {
            Err(k) => Err((k, "currency"@)),
            Ok(currency) => match decimal_at(fs, "balance"@) {
                Err(k) => Err((k, "balance"@)),
                Ok(balance) => match decimal_at(fs, "available"@) {
                    Err(k) => Err((k, "available"@)),
                    Ok(available) => match decimal_at(fs, "hold"@) {
                        Err(k) => Err((k, "hold"@)),
                        Ok(hold) => match uuid_at(fs, "profile_id"@) {
                            Err(k) => Err((k, "profile_id"@)),
                            Ok(profile_id) => Ok(
                                AccountView { id, currency, balance, available, hold, profile_id },
                            ),
                        },
                    },
                },
            },
        },
    }
}

/// Decoding an account from a JSON value.
pub open spec fn account_decoding(j: Json) -> Decoded<AccountView> {
    match object_fields(j) {
        Ok(fs) => account_of(fs),
        Err(e) => Err(e),
    }
}

/// The fields that encode an account.
pub open spec fn encodes_account(v: AccountView, fs: Seq<(String, Json)>) -> bool {
    has_uuid(fs, "id"@, v.id) && has_text(fs, "currency"@, v.currency) && has_text(
        fs,
        "balance"@,
        v.balance,
    ) && has_text(fs, "available"@, v.available) && has_text(fs, "hold"@, v.hold) && has_uuid(
        fs,
        "profile_id"@,
        v.profile_id,
    )
}

/// An account read back from its encoding is the account that was encoded.
pub proof fn lemma_account_round_trip(v: AccountView, fs: Seq<(String, Json)>)
    requires
        v.wf(),
        encodes_account(v, fs),
    ensures
        account_of(fs) == Ok::<AccountView, (ErrorKind, Seq<char>)>(v),
{
}

proof fn lemma_account_keys()
    ensures
        "id"@ != "currency"@,
        "id"@ != "balance"@,
        "id"@ != "available"@,
        "id"@ != "hold"@,
        "id"@ != "profile_id"@,
        "currency"@ != "balance"@,
        "currency"@ != "available"@,
        "currency"@ != "hold"@,
        "currency"@ != "profile_id"@,
        "balance"@ != "available"@,
        "balance"@ != "hold"@,
        "balance"@ != "profile_id"@,
        "available"@ != "hold"@,
        "available"@ != "profile_id"@,
        "hold"@ != "profile_id"@,
{
    reveal_strlit("id");
    reveal_strlit("currency");
    reveal_strlit("balance");
    reveal_strlit("available");
    reveal_strlit("hold");
    reveal_strlit("profile_id");
    assert("id"@.len() != "currency"@.len());
    assert("id"@.len() != "balance"@.len());
    assert("id"@.len() != "available"@.len());
    assert("id"@.len() != "hold"@.len());
    assert("id"@.len() != "profile_id"@.len());
    assert("currency"@.len() != "balance"@.len());
    assert("currency"@.len() != "available"@.len());
    assert("currency"@.len() != "hold"@.len());
    assert("currency"@.len() != "profile_id"@.len());
    assert("balance"@.len() != "available"@.len());
    assert("balance"@.len() != "hold"@.len());
    assert("balance"@.len() != "profile_id"@.len());
    assert("available"@.len() != "hold"@.len());
    assert("available"@.len() != "profile_id"@.len());
    assert("hold"@.len() != "profile_id"@.len());
}

impl Account {
    /// Decodes an account from a JSON object.
    pub fn decode(j: &Json) -> (r: Result<Account, DecodeError>)
        ensures
            agrees(r, account_decoding(*j)),
    {
        let fs = match j {
            Json::Object(fs) => fs,
            _ => {
                return fail_at(ErrorKind::TypeMismatch, "");
            },
        };
        let id = match read_uuid(fs, "id") {
            Ok(v) => v,
            Err(k) => return fail_at(k, "id"),
        };
        let currency = match read_text(fs, "currency") {
            Ok(v) => v,
            Err(k) => return fail_at(k, "currency"),
        };
        let balance = match read_decimal(fs, "balance") {
            Ok(v) => v,
            Err(k) => return fail_at(k, "balance"),
        };
        let available = match read_decimal(fs, "available") {
            Ok(v) => v,
            Err(k) => return fail_at(k, "available"),
        };
        let hold = match read_decimal(fs, "hold") {
            Ok(v) => v,
            Err(k) => return fail_at(k, "hold"),
        };
        let profile_id = match read_uuid(fs, "profile_id") {
            Ok(v) => v,
            Err(k) => return fail_at(k, "profile_id"),
        };
        Ok(Account { id, currency, balance, available, hold, profile_id })
    }

    /// Encodes the account as a JSON object.
    pub fn encode(&self) -> (r: Json)
        ensures
            self@.wf(),
            r matches Json::Object(fs) && encodes_account(self@, fs@),
    {
        let mut fs: Vec<(String, Json)> = Vec::new();
        push_field(&mut fs, "id", Json::Str(self.id.to_text()));
        push_field(&mut fs, "currency", Json::Str(self.currency.clone()));
        push_field(&mut fs, "balance", Json::Str(self.balance.as_str().to_owned()));
        push_field(&mut fs, "available", Json::Str(self.available.as_str().to_owned()));
        push_field(&mut fs, "hold", Json::Str(self.hold.as_str().to_owned()));
        push_field(&mut fs, "profile_id", Json::Str(self.profile_id.to_text()));
        proof {
            lemma_account_keys();
        }
        Json::Object(fs)
    }
}

/// A reservation of funds against an account, made by an order or a transfer.
#[derive(Debug)]
pub struct AccountHolds {
    pub id: Uuid,
    pub account_id: Uuid,
    pub created_at: String,
    pub updated_at: String,
    pub amount: Decimal,
    pub hold_type: AccountHoldsType,
    pub reference: Uuid,
}

pub ghost struct AccountHoldsView {
    pub id: Uuid,
    pub account_id: Uuid,
    pub created_at: Seq<char>,
    pub updated_at: Seq<char>,
    pub amount: Seq<char>,
    pub hold_type: AccountHoldsType,
    pub reference: Uuid,
}

impl View for AccountHolds {
    type V = AccountHoldsView;

    open spec fn view(&self) -> AccountHoldsView {
        AccountHoldsView {
            id: self.id,
            account_id: self.account_id,
            created_at: self.created_at@,
            updated_at: self.updated_at@,
            amount: self.amount@,
            hold_type: self.hold_type,
            reference: self.reference,
        }
    }
}

impl AccountHoldsView {
    pub open spec fn wf(self) -> bool {
        is_decimal_text(self.amount)
    }
}

/// A hold type given by its wire word.
pub open spec fn holds_type_at(fs: Seq<(String, Json)>, key: Seq<char>) -> Result<AccountHoldsType, ErrorKind> {
    match text_at(fs, key) {
        Err(k) => Err(k),
        Ok(t) => match AccountHoldsType::from_wire_name(t) {
            Some(v) => Ok(v),
            None => Err(ErrorKind::UnknownVariant),
        },
    }
}

/// Decoding a hold's fields, in order; the first failure is reported. The
/// amount is a JSON number.
pub open spec fn account_holds_of(fs: Seq<(String, Json)>) -> Decoded<AccountHoldsView> {
    match uuid_at(fs, "id"@) {
        Err(k) => Err((k, "id"@)),
        Ok(id) => match uuid_at(fs, "account_id"@) {
            Err(k) => Err((k, "account_id"@)),
            Ok(account_id) => match text_at(fs, "created_at"@) {
                Err(k) => Err((k, "created_at"@)),
                Ok(created_at) => match text_at(fs, "updated_at"@) {
                    Err(k) => Err((k, "updated_at"@)),
                    Ok(updated_at) => match number_at(fs, "amount"@) {
                        Err(k) => Err((k, "amount"@)),
                        Ok(amount) => match holds_type_at(fs, "type"@) {
                            Err(k) => Err((k, "type"@)),
                            Ok(hold_type) => match uuid_at(fs, "ref"@) {
                                Err(k) => Err((k, "ref"@)),
                                Ok(reference) => Ok(
                                    AccountHoldsView {
                                        id,
                                        account_id,
                                        created_at,
                                        updated_at,
                                        amount,
                                        hold_type,
                                        reference,
                                    },
                                ),
                            },
                        },
                    },
                },
            },
        },
    }
}

pub open spec fn account_holds_decoding(j: Json) -> Decoded<AccountHoldsView> {
    match object_fields(j) {
        Ok(fs) => account_holds_of(fs),
        Err(e) => Err(e),
    }
}

pub open spec fn encodes_account_holds(v: AccountHoldsView, fs: Seq<(String, Json)>) -> bool {
    &&& has_uuid(fs, "id"@, v.id)
    &&& has_uuid(fs, "account_id"@, v.account_id)
    &&& has_text(fs, "created_at"@, v.created_at)
    &&& has_text(fs, "updated_at"@, v.updated_at)
    &&& has_number(fs, "amount"@, v.amount)
    &&& has_text(fs, "type"@, v.hold_type.wire_name())
    &&& has_uuid(fs, "ref"@, v.reference)
}

/// A hold read back from its encoding is the hold that was encoded.
pub proof fn lemma_account_holds_round_trip(v: AccountHoldsView, fs: Seq<(String, Json)>)
    requires
        v.wf(),
        encodes_account_holds(v, fs),
    ensures
        account_holds_of(fs) == Ok::<AccountHoldsView, (ErrorKind, Seq<char>)>(v),
{
    v.hold_type.lemma_wire_round_trip();
}

proof fn lemma_account_holds_keys()
    ensures
        "id"@ != "account_id"@,
        "id"@ != "created_at"@,
        "id"@ != "updated_at"@,
        "id"@ != "amount"@,
        "id"@ != "type"@,
        "id"@ != "ref"@,
        "account_id"@ != "created_at"@,
        "account_id"@ != "updated_at"@,
        "account_id"@ != "amount"@,
        "account_id"@ != "type"@,
        "account_id"@ != "ref"@,
        "created_at"@ != "updated_at"@,
        "created_at"@ != "amount"@,
        "created_at"@ != "type"@,
        "created_at"@ != "ref"@,
        "updated_at"@ != "amount"@,
        "updated_at"@ != "type"@,
        "updated_at"@ != "ref"@,
        "amount"@ != "type"@,
        "amount"@ != "ref"@,
        "type"@ != "ref"@,
{
    reveal_strlit("id");
    reveal_strlit("account_id");
    reveal_strlit("created_at");
    reveal_strlit("updated_at");
    reveal_strlit("amount");
    reveal_strlit("type");
    reveal_strlit("ref");
    assert("id"@.len() != "account_id"@.len());
    assert("id"@.len() != "created_at"@.len());
    assert("id"@.len() != "updated_at"@.len());
    assert("id"@.len() != "amount"@.len());
    assert("id"@.len() != "type"@.len());
    assert("id"@.len() != "ref"@.len());
    assert("account_id"@[0] != "created_at"@[0]);
    assert("account_id"@[0] != "updated_at"@[0]);
    assert("account_id"@.len() != "amount"@.len());
    assert("account_id"@.len() != "type"@.len());
    assert("account_id"@.len() != "ref"@.len());
    assert("created_at"@[0] != "updated_at"@[0]);
    assert("created_at"@.len() != "amount"@.len());
    assert("created_at"@.len() != "type"@.len());
    assert("created_at"@.len() != "ref"@.len());
    assert("updated_at"@.len() != "amount"@.len());
    assert("updated_at"@.len() != "type"@.len());
    assert("updated_at"@.len() != "ref"@.len());
    assert("amount"@.len() != "type"@.len());
    assert("amount"@.len() != "ref"@.len());
    assert("type"@.len() != "ref"@.len());
}

impl AccountHolds {
    /// Decodes a hold from a JSON object.
    pub fn decode(j: &Json) -> (r: Result<AccountHolds, DecodeError>)
        ensures
            agrees(r, account_holds_decoding(*j)),
    {
        let fs = match j {
            Json::Object(fs) => fs,
            _ => return fail_at(ErrorKind::TypeMismatch, ""),
        };
        let id = match read_uuid(fs, "id") {
            Ok(v) => v,
            Err(k) => return fail_at(k, "id"),
        };
        let account_id = match read_uuid(fs, "account_id") {
            Ok(v) => v,
            Err(k) => return fail_at(k, "account_id"),
        };
        let created_at = match read_text(fs, "created_at") {
            Ok(v) => v,
            Err(k) => return fail_at(k, "created_at"),
        };
        let updated_at = match read_text(fs, "updated_at") {
            Ok(v) => v,
            Err(k) => return fail_at(k, "updated_at"),
        };
        let amount = match read_number(fs, "amount") {
            Ok(v) => v,
            Err(k) => return fail_at(k, "amount"),
        };
        let hold_type = match read_text(fs, "type") {
            Ok(t) => match AccountHoldsType::from_wire(t.as_str()) {
                Some(v) => v,
                None => return fail_at(ErrorKind::UnknownVariant, "type"),
            },
            Err(k) => return fail_at(k, "type"),
        };
        let reference = match read_uuid(fs, "ref") {
            Ok(v) => v,
            Err(k) => return fail_at(k, "ref"),
        };
        Ok(AccountHolds { id, account_id, created_at, updated_at, amount, hold_type, reference })
    }

    /// Encodes the hold as a JSON object.
    pub fn encode(&self) -> (r: Json)
        ensures
            self@.wf(),
            r matches Json::Object(fs) && encodes_account_holds(self@, fs@),
    {
        let mut fs: Vec<(String, Json)> = Vec::new();
        push_field(&mut fs, "id", Json::Str(self.id.to_text()));
        push_field(&mut fs, "account_id", Json::Str(self.account_id.to_text()));
        push_field(&mut fs, "created_at", Json::Str(self.created_at.clone()));
        push_field(&mut fs, "updated_at", Json::Str(self.updated_at.clone()));
        push_field(&mut fs, "amount", Json::Number(self.amount.as_str().to_owned()));
        push_field(&mut fs, "type", Json::Str(self.hold_type.to_wire().to_owned()));
        push_field(&mut fs, "ref", Json::Str(self.reference.to_text()));
        proof {
            lemma_account_holds_keys();
        }
        Json::Object(fs)
    }
}

/// What a ledger entry records, with the fields of its kind.
#[derive(Debug)]
pub enum AccountHistoryDetails {
    Fee { order_id: Uuid, product_id: String, trade_id: usize },
    Match { order_id: Uuid, product_id: String, trade_id: usize },
    Rebate { order_id: Uuid, product_id: String, trade_id: usize },
    Transfer { transfer_id: Uuid, transfer_type: AccountHistoryDetailsTransferType },
}

pub ghost enum AccountHistoryDetailsView {
    Fee { order_id: Uuid, product_id: Seq<char>, trade_id: usize },
    Match { order_id: Uuid, product_id: Seq<char>, trade_id: usize },
    Rebate { order_id: Uuid, product_id: Seq<char>, trade_id: usize },
    Transfer { transfer_id: Uuid, transfer_type: AccountHistoryDetailsTransferType },
}

impl View for AccountHistoryDetails {
    type V = AccountHistoryDetailsView;

    open spec fn view(&self) -> AccountHistoryDetailsView {
        match self {
            AccountHistoryDetails::Fee { order_id, product_id, trade_id } => {
                AccountHistoryDetailsView::Fee {
                    order_id: *order_id,
                    product_id: product_id@,
                    trade_id: *trade_id,
                }
            },
            AccountHistoryDetails::Match { order_id, product_id, trade_id } => {
                AccountHistoryDetailsView::Match {
                    order_id: *order_id,
                    product_id: product_id@,
                    trade_id: *trade_id,
                }
            },
            AccountHistoryDetails::Rebate { order_id, product_id, trade_id } => {
                AccountHistoryDetailsView::Rebate {
                    order_id: *order_id,
                    product_id: product_id@,
                    trade_id: *trade_id,
                }
            },
            AccountHistoryDetails::Transfer { transfer_id, transfer_type } => {
                AccountHistoryDetailsView::Transfer {
                    transfer_id: *transfer_id,
                    transfer_type: *transfer_type,
                }
            },
        }
    }
}

/// The kind of a ledger entry is the variant of its details.
pub open spec fn kind_of(d: AccountHistoryDetailsView) -> AccountHistoryType {
    match d {
        AccountHistoryDetailsView::Fee { .. } => AccountHistoryType::Fee,
        AccountHistoryDetailsView::Match { .. } => AccountHistoryType::Match,
        AccountHistoryDetailsView::Rebate { .. } => AccountHistoryType::Rebate,
        AccountHistoryDetailsView::Transfer { .. } => AccountHistoryType::Transfer,
    }
}

/// The discriminator word of each kind of details.
pub open spec fn details_tag(d: AccountHistoryDetailsView) -> Seq<char> {
    match d {
        AccountHistoryDetailsView::Fee { .. } => "fee"@,
        AccountHistoryDetailsView::Match { .. } => "match"@,
        AccountHistoryDetailsView::Rebate { .. } => "rebate"@,
        AccountHistoryDetailsView::Transfer { .. } => "transfer"@,
    }
}

impl<'a> From<&'a AccountHistoryDetails> for AccountHistoryType {
    /// The kind of the given details.
    fn from(item: &'a AccountHistoryDetails) -> (r: AccountHistoryType) {
        match item {
            AccountHistoryDetails::Fee { .. } => AccountHistoryType::Fee,
            AccountHistoryDetails::Match { .. } => AccountHistoryType::Match,
            AccountHistoryDetails::Transfer { .. } => AccountHistoryType::Transfer,
            AccountHistoryDetails::Rebate { .. } => AccountHistoryType::Rebate,
        }
    }
}

impl<'a> vstd::std_specs::convert::FromSpecImpl<&'a AccountHistoryDetails> for AccountHistoryType {
    open spec fn obeys_from_spec() -> bool {
        true
    }

    open spec fn from_spec(v: &'a AccountHistoryDetails) -> AccountHistoryType {
        kind_of(v@)
    }
}

/// The fields of a fee, match or rebate, under the discriminator word `tag`.
pub open spec fn trade_details_of(o: Seq<(String, Json)>, tag: Seq<char>) -> Decoded<AccountHistoryDetailsView> {
    match uuid_at(o, "order_id"@) {
        Err(k) => Err((k, "order_id"@)),
        Ok(order_id) => match text_at(o, "product_id"@) {
            Err(k) => Err((k, "product_id"@)),
            Ok(product_id) => match usize_at(o, "trade_id"@, false) {
                Err(k) => Err((k, "trade_id"@)),
                Ok(trade_id) => Ok(
                    if tag == "fee"@ {
                        AccountHistoryDetailsView::Fee { order_id, product_id, trade_id }
                    } else if tag == "match"@ {
                        AccountHistoryDetailsView::Match { order_id, product_id, trade_id }
                    } else {
                        AccountHistoryDetailsView::Rebate { order_id, product_id, trade_id }
                    },
                ),
            },
        },
    }
}

/// The fields of a transfer.
pub open spec fn transfer_details_of(o: Seq<(String, Json)>) -> Decoded<AccountHistoryDetailsView> {
    match uuid_at(o, "transfer_id"@) {
        Err(k) => Err((k, "transfer_id"@)),
        Ok(transfer_id) => match text_at(o, "transferType"@) {
            Err(k) => Err((k, "transferType"@)),
            Ok(t) => match AccountHistoryDetailsTransferType::from_wire_name(t) {
                None => Err((ErrorKind::UnknownVariant, "transferType"@)),
                Some(transfer_type) => Ok(
                    AccountHistoryDetailsView::Transfer { transfer_id, transfer_type },
                ),
            },
        },
    }
}

pub open spec fn is_details_tag(t: Seq<char>) -> bool {
    t == "fee"@ || t == "match"@ || t == "rebate"@ || t == "transfer"@
}

/// Details are selected by the string under `type`, and their fields are
/// the object under `details`. A missing or unknown discriminator is an
/// unknown variant.
pub open spec fn details_of(fs: Seq<(String, Json)>) -> Decoded<AccountHistoryDetailsView> {
    match lookup(fs, "type"@) {
        Some(Json::Str(t)) => if is_details_tag(t@) {
            match object_at(fs, "details"@) {
                Err(k) => Err((k, "details"@)),
                Ok(o) => if t@ == "transfer"@ {
                    transfer_details_of(o)
                } else {
                    trade_details_of(o, t@)
                },
            }
        } else {
            Err((ErrorKind::UnknownVariant, "type"@))
        },
        _ => Err((ErrorKind::UnknownVariant, "type"@)),
    }
}

/// An entry of an account's ledger. Its kind is derived from its details.
#[derive(Debug)]
pub struct AccountHistory {
    pub id: usize,
    pub created_at: String,
    pub amount: Decimal,
    pub balance: Decimal,
    pub kind: AccountHistoryType,
    pub details: AccountHistoryDetails,
}

pub ghost struct AccountHistoryView {
    pub id: usize,
    pub created_at: Seq<char>,
    pub amount: Seq<char>,
    pub balance: Seq<char>,
    pub kind: AccountHistoryType,
    pub details: AccountHistoryDetailsView,
}

impl View for AccountHistory {
    type V = AccountHistoryView;

    open spec fn view(&self) -> AccountHistoryView {
        AccountHistoryView {
            id: self.id,
            created_at: self.created_at@,
            amount: self.amount@,
            balance: self.balance@,
            kind: self.kind,
            details: self.details@,
        }
    }
}

impl AccountHistoryView {
    /// Decimals in wire form, and the kind that the details give.
    pub open spec fn wf(self) -> bool {
        is_decimal_text(self.amount) && is_decimal_text(self.balance) && self.kind == kind_of(
            self.details,
        )
    }
}

/// Decoding a ledger entry's fields, in order; the first failure is
/// reported. Any `kind` on the wire is ignored: the kind is derived.
pub open spec fn account_history_of(fs: Seq<(String, Json)>) -> Decoded<AccountHistoryView> {
    match usize_at(fs, "id"@, true) {
        Err(k) => Err((k, "id"@)),
        Ok(id) => match text_at(fs, "created_at"@) {
            Err(k) => Err((k, "created_at"@)),
            Ok(created_at) => match decimal_at(fs, "amount"@) {
                Err(k) => Err((k, "amount"@)),
                Ok(amount) => match decimal_at(fs, "balance"@) {
                    Err(k) => Err((k, "balance"@)),
                    Ok(balance) => match details_of(fs) {
                        Err(e) => Err(e),
                        Ok(details) => Ok(
                            AccountHistoryView {
                                id,
                                created_at,
                                amount,
                                balance,
                                kind: kind_of(details),
                                details,
                            },
                        ),
                    },
                },
            },
        },
    }
}

pub open spec fn account_history_decoding(j: Json) -> Decoded<AccountHistoryView> {
    match object_fields(j) {
        Ok(fs) => account_history_of(fs),
        Err(e) => Err(e),
    }
}

/// The inner object that encodes details.
pub open spec fn encodes_details_body(d: AccountHistoryDetailsView, o: Seq<(String, Json)>) -> bool {
    match d {
        AccountHistoryDetailsView::Transfer { transfer_id, transfer_type } => {
            has_uuid(o, "transfer_id"@, transfer_id) && has_text(
                o,
                "transferType"@,
                transfer_type.wire_name(),
            )
        },
        AccountHistoryDetailsView::Fee { order_id, product_id, trade_id }
        | AccountHistoryDetailsView::Match { order_id, product_id, trade_id }
        | AccountHistoryDetailsView::Rebate { order_id, product_id, trade_id } => {
            has_uuid(o, "order_id"@, order_id) && has_text(o, "product_id"@, product_id)
                && has_usize(o, "trade_id"@, trade_id, false)
        },
    }
}

pub open spec fn encodes_account_history(v: AccountHistoryView, fs: Seq<(String, Json)>) -> bool {
    &&& has_usize(fs, "id"@, v.id, true)
    &&& has_text(fs, "created_at"@, v.created_at)
    &&& has_text(fs, "amount"@, v.amount)
    &&& has_text(fs, "balance"@, v.balance)
    &&& has_text(fs, "type"@, details_tag(v.details))
    &&& lookup(fs, "details"@) matches Some(Json::Object(o)) && encodes_details_body(v.details, o@)
}

proof fn lemma_details_tags()
    ensures
        "fee"@ != "match"@,
        "fee"@ != "rebate"@,
        "fee"@ != "transfer"@,
        "match"@ != "rebate"@,
        "match"@ != "transfer"@,
        "rebate"@ != "transfer"@,
{
    reveal_strlit("fee");
    reveal_strlit("match");
    reveal_strlit("rebate");
    reveal_strlit("transfer");
    assert("fee"@.len() != "match"@.len());
    assert("fee"@.len() != "rebate"@.len());
    assert("fee"@.len() != "transfer"@.len());
    assert("match"@.len() != "rebate"@.len());
    assert("match"@.len() != "transfer"@.len());
    assert("rebate"@.len() != "transfer"@.len());
}

/// Ledger entries read back from their encoding are the entries that were
/// encoded, but for the kind: it is not written, and comes back as the
/// details give it.
pub proof fn lemma_account_history_round_trip(v: AccountHistoryView, fs: Seq<(String, Json)>)
    requires
        is_decimal_text(v.amount),
        is_decimal_text(v.balance),
        encodes_account_history(v, fs),
    ensures
        account_history_of(fs) == Ok::<AccountHistoryView, (ErrorKind, Seq<char>)>(
            AccountHistoryView { kind: kind_of(v.details), ..v },
        ),
{
    lemma_details_tags();
    match v.details {
        AccountHistoryDetailsView::Transfer { transfer_type, .. } => {
            transfer_type.lemma_wire_round_trip();
        },
        _ => {},
    }
}

/// A decoded ledger entry is well formed: its kind is always the variant of
/// its details, never the sentinel, whatever else the payload holds, and
/// each discriminator word gives its own kind.
pub proof fn lemma_account_history_kind(fs: Seq<(String, Json)>)
    ensures
        account_history_of(fs) matches Ok(v) ==> {
            &&& v.wf()
            &&& v.kind != AccountHistoryType::NotSet
            &&& lookup(fs, "type"@) matches Some(Json::Str(t)) && (t@ == "fee"@ ==> v.kind
                == AccountHistoryType::Fee) && (t@ == "match"@ ==> v.kind
                == AccountHistoryType::Match) && (t@ == "rebate"@ ==> v.kind
                == AccountHistoryType::Rebate) && (t@ == "transfer"@ ==> v.kind
                == AccountHistoryType::Transfer)
        },
{
    lemma_details_tags();
}

/// A discriminator that is missing or outside the four kinds gives no
/// ledger entry: the details fail on `type` as an unknown variant.
pub proof fn lemma_account_history_unknown_tag(fs: Seq<(String, Json)>)
    requires
        !(lookup(fs, "type"@) matches Some(Json::Str(t)) && is_details_tag(t@)),
    ensures
        account_history_of(fs) is Err,
        details_of(fs) == Err::<AccountHistoryDetailsView, (ErrorKind, Seq<char>)>(
            (ErrorKind::UnknownVariant, "type"@),
        ),
{
}

proof fn lemma_details_inner_keys()
    ensures
        "transfer_id"@ != "transferType"@,
        "transfer_id"@ != "order_id"@,
        "transfer_id"@ != "product_id"@,
        "transfer_id"@ != "trade_id"@,
        "transferType"@ != "order_id"@,
        "transferType"@ != "product_id"@,
        "transferType"@ != "trade_id"@,
        "order_id"@ != "product_id"@,
        "order_id"@ != "trade_id"@,
        "product_id"@ != "trade_id"@,
{
    reveal_strlit("transfer_id");
    reveal_strlit("transferType");
    reveal_strlit("order_id");
    reveal_strlit("product_id");
    reveal_strlit("trade_id");
    assert("transfer_id"@.len() != "transferType"@.len());
    assert("transfer_id"@.len() != "order_id"@.len());
    assert("transfer_id"@.len() != "product_id"@.len());
    assert("transfer_id"@.len() != "trade_id"@.len());
    assert("transferType"@.len() != "order_id"@.len());
    assert("transferType"@.len() != "product_id"@.len());
    assert("transferType"@.len() != "trade_id"@.len());
    assert("order_id"@.len() != "product_id"@.len());
    assert("order_id"@[0] != "trade_id"@[0]);
    assert("product_id"@.len() != "trade_id"@.len());
}

proof fn lemma_account_history_keys()
    ensures
        "id"@ != "created_at"@,
        "id"@ != "amount"@,
        "id"@ != "balance"@,
        "id"@ != "type"@,
        "id"@ != "details"@,
        "created_at"@ != "amount"@,
        "created_at"@ != "balance"@,
        "created_at"@ != "type"@,
        "created_at"@ != "details"@,
        "amount"@ != "balance"@,
        "amount"@ != "type"@,
        "amount"@ != "details"@,
        "balance"@ != "type"@,
        "balance"@ != "details"@,
        "type"@ != "details"@,
{
    reveal_strlit("id");
    reveal_strlit("created_at");
    reveal_strlit("amount");
    reveal_strlit("balance");
    reveal_strlit("type");
    reveal_strlit("details");
    assert("id"@.len() != "created_at"@.len());
    assert("id"@.len() != "amount"@.len());
    assert("id"@.len() != "balance"@.len());
    assert("id"@.len() != "type"@.len());
    assert("id"@.len() != "details"@.len());
    assert("created_at"@.len() != "amount"@.len());
    assert("created_at"@.len() != "balance"@.len());
    assert("created_at"@.len() != "type"@.len());
    assert("created_at"@.len() != "details"@.len());
    assert("amount"@.len() != "balance"@.len());
    assert("amount"@.len() != "type"@.len());
    assert("amount"@.len() != "details"@.len());
    assert("balance"@.len() != "type"@.len());
    assert("balance"@[0] != "details"@[0]);
    assert("type"@.len() != "details"@.len());
}

impl AccountHistoryDetails {
    /// Decodes details from the discriminator and `details` object among the
    /// given fields.
    pub fn decode_from(fs: &Vec<(String, Json)>) -> (r: Result<AccountHistoryDetails, DecodeError>)
        ensures
            agrees(r, details_of(fs@)),
    {
        proof {
            lemma_details_tags();
        }
        let t = match crate::json::get(fs, "type") {
            Some(Json::Str(t)) => t,
            _ => return fail_at(ErrorKind::UnknownVariant, "type"),
        };
        let is_fee = same_text(t.as_str(), "fee");
        let is_match = same_text(t.as_str(), "match");
        let is_rebate = same_text(t.as_str(), "rebate");
        let is_transfer = same_text(t.as_str(), "transfer");
        if !(is_fee || is_match || is_rebate || is_transfer) {
            return fail_at(ErrorKind::UnknownVariant, "type");
        }
        let o = match read_object(fs, "details") {
            Ok(o) => o,
            Err(k) => return fail_at(k, "details"),
        };
        if is_transfer {
            let transfer_id = match read_uuid(o, "transfer_id") {
                Ok(v) => v,
                Err(k) => return fail_at(k, "transfer_id"),
            };
            let transfer_type = match read_text(o, "transferType") {
                Ok(t) => match AccountHistoryDetailsTransferType::from_wire(t.as_str()) {
                    Some(v) => v,
                    None => return fail_at(ErrorKind::UnknownVariant, "transferType"),
                },
                Err(k) => return fail_at(k, "transferType"),
            };
            return Ok(AccountHistoryDetails::Transfer { transfer_id, transfer_type });
        }
        let order_id = match read_uuid(o, "order_id") {
            Ok(v) => v,
            Err(k) => return fail_at(k, "order_id"),
        };
        let product_id = match read_text(o, "product_id") {
            Ok(v) => v,
            Err(k) => return fail_at(k, "product_id"),
        };
        let trade_id = match read_usize(o, "trade_id", false) {
            Ok(v) => v,
            Err(k) => return fail_at(k, "trade_id"),
        };
        if is_fee {
            Ok(AccountHistoryDetails::Fee { order_id, product_id, trade_id })
        } else if is_match {
            Ok(AccountHistoryDetails::Match { order_id, product_id, trade_id })
        } else {
            Ok(AccountHistoryDetails::Rebate { order_id, product_id, trade_id })
        }
    }

    /// Appends the discriminator and the `details` object to `fs`.
    pub fn encode_into(&self, fs: &mut Vec<(String, Json)>)
        requires
            lookup(old(fs)@, "type"@) is None,
            lookup(old(fs)@, "details"@) is None,
        ensures
            has_text(final(fs)@, "type"@, details_tag(self@)),
            lookup(final(fs)@, "details"@) matches Some(Json::Object(o)) && encodes_details_body(
                self@,
                o@,
            ),
            forall|q: Seq<char>|
                q != "type"@ && q != "details"@ ==> #[trigger] lookup(final(fs)@, q) == lookup(
                    old(fs)@,
                    q,
                ),
    {
        proof {
            lemma_details_tags();
            lemma_details_inner_keys();
            lemma_account_history_keys();
        }
        let mut o: Vec<(String, Json)> = Vec::new();
        let tag = match self {
            AccountHistoryDetails::Transfer { transfer_id, transfer_type } => {
                push_field(&mut o, "transfer_id", Json::Str(transfer_id.to_text()));
                push_field(&mut o, "transferType", Json::Str(transfer_type.to_wire().to_owned()));
                assert(encodes_details_body(self@, o@));
                "transfer"
            },
            AccountHistoryDetails::Fee { order_id, product_id, trade_id } => {
                push_field(&mut o, "order_id", Json::Str(order_id.to_text()));
                push_field(&mut o, "product_id", Json::Str(product_id.clone()));
                push_field(&mut o, "trade_id", Json::Str(usize_text(*trade_id)));
                assert(encodes_details_body(self@, o@));
                "fee"
            },
            AccountHistoryDetails::Match { order_id, product_id, trade_id } => {
                push_field(&mut o, "order_id", Json::Str(order_id.to_text()));
                push_field(&mut o, "product_id", Json::Str(product_id.clone()));
                push_field(&mut o, "trade_id", Json::Str(usize_text(*trade_id)));
                assert(encodes_details_body(self@, o@));
                "match"
            },
            AccountHistoryDetails::Rebate { order_id, product_id, trade_id } => {
                push_field(&mut o, "order_id", Json::Str(order_id.to_text()));
                push_field(&mut o, "product_id", Json::Str(product_id.clone()));
                push_field(&mut o, "trade_id", Json::Str(usize_text(*trade_id)));
                assert(encodes_details_body(self@, o@));
                "rebate"
            },
        };
        push_field(fs, "type", Json::Str(tag.to_owned()));
        push_field(fs, "details", Json::Object(o));
    }
}

impl AccountHistory {
    /// Decodes a ledger entry from a JSON object; its kind is derived from
    /// the details that were decoded.
    pub fn decode(j: &Json) -> (r: Result<AccountHistory, DecodeError>)
        ensures
            agrees(r, account_history_decoding(*j)),
    {
        let fs = match j {
            Json::Object(fs) => fs,
            _ => return fail_at(ErrorKind::TypeMismatch, ""),
        };
        let id = match read_usize(fs, "id", true) {
            Ok(v) => v,
            Err(k) => return fail_at(k, "id"),
        };
        let created_at = match read_text(fs, "created_at") {
            Ok(v) => v,
            Err(k) => return fail_at(k, "created_at"),
        };
        let amount = match read_decimal(fs, "amount") {
            Ok(v) => v,
            Err(k) => return fail_at(k, "amount"),
        };
        let balance = match read_decimal(fs, "balance") {
            Ok(v) => v,
            Err(k) => return fail_at(k, "balance"),
        };
        let details = match AccountHistoryDetails::decode_from(fs) {
            Ok(d) => d,
            Err(e) => return Err(e),
        };
        let kind = AccountHistoryType::from(&details);
        Ok(AccountHistory { id, created_at, amount, balance, kind, details })
    }

    /// Encodes the entry as a JSON object. The kind is not written: the
    /// details carry it.
    pub fn encode(&self) -> (r: Json)
        ensures
            is_decimal_text(self.amount@) && is_decimal_text(self.balance@),
            r matches Json::Object(fs) && encodes_account_history(self@, fs@),
    {
        let mut fs: Vec<(String, Json)> = Vec::new();
        proof {
            lemma_account_history_keys();
        }
        push_field(&mut fs, "id", Json::Number(usize_text(self.id)));
        push_field(&mut fs, "created_at", Json::Str(self.created_at.clone()));
        push_field(&mut fs, "amount", Json::Str(self.amount.as_str().to_owned()));
        push_field(&mut fs, "balance", Json::Str(self.balance.as_str().to_owned()));
        self.details.encode_into(&mut fs);
        Json::Object(fs)
    }
}

/// How long an order stays on the book.
#[derive(Clone, Copy, Debug, PartialEq, Eq, Structural)]
pub enum OrderTimeInForce {
    GTC,
    GTT { cancel_after: OrderTimeInForceCancelAfter },
    IOC,
    FOK,
}

impl View for OrderTimeInForce {
    type V = OrderTimeInForce;

    open spec fn view(&self) -> OrderTimeInForce {
        *self
    }
}

impl OrderTimeInForce {
    pub open spec fn wire_name(self) -> Seq<char> {
        match self {
            OrderTimeInForce::GTC => "GTC"@,
            OrderTimeInForce::GTT { .. } => "GTT"@,
            OrderTimeInForce::IOC => "IOC"@,
            OrderTimeInForce::FOK => "FOK"@,
        }
    }

    pub fn to_wire(&self) -> (r: &'static str)
        ensures
            r@ == self.wire_name(),
    {
        match self {
            OrderTimeInForce::GTC => "GTC",
            OrderTimeInForce::GTT { .. } => "GTT",
            OrderTimeInForce::IOC => "IOC",
            OrderTimeInForce::FOK => "FOK",
        }
    }
}

/// The time in force, selected by the string under `time_in_force`, at the
/// order's own level; a good-till-time order adds `cancel_after`.
pub open spec fn time_in_force_of(fs: Seq<(String, Json)>) -> Decoded<OrderTimeInForce> {
    match lookup(fs, "time_in_force"@) {
        Some(Json::Str(t)) => if t@ == "GTC"@ {
            Ok(OrderTimeInForce::GTC)
        } else if t@ == "IOC"@ {
            Ok(OrderTimeInForce::IOC)
        } else if t@ == "FOK"@ {
            Ok(OrderTimeInForce::FOK)
        } else if t@ == "GTT"@ {
            match text_at(fs, "cancel_after"@) {
                Err(k) => Err((k, "cancel_after"@)),
                Ok(c) => match OrderTimeInForceCancelAfter::from_wire_name(c) {
                    Some(cancel_after) => Ok(OrderTimeInForce::GTT { cancel_after }),
                    None => Err((ErrorKind::UnknownVariant, "cancel_after"@)),
                },
            }
        } else {
            Err((ErrorKind::UnknownVariant, "time_in_force"@))
        },
        _ => Err((ErrorKind::UnknownVariant, "time_in_force"@)),
    }
}

/// A limit order with its price and time in force, or a market order with
/// the funds it may spend.
#[derive(Debug)]
pub enum OrderType {
    Limit { price: Decimal, time_in_force: OrderTimeInForce },
    Market { funds: Decimal },
}

pub ghost enum OrderTypeView {
    Limit { price: Seq<char>, time_in_force: OrderTimeInForce },
    Market { funds: Seq<char> },
}

impl View for OrderType {
    type V = OrderTypeView;

    open spec fn view(&self) -> OrderTypeView {
        match self {
            OrderType::Limit { price, time_in_force } => OrderTypeView::Limit {
                price: price@,
                time_in_force: *time_in_force,
            },
            OrderType::Market { funds } => OrderTypeView::Market { funds: funds@ },
        }
    }
}

impl OrderTypeView {
    pub open spec fn wf(self) -> bool {
        match self {
            OrderTypeView::Limit { price, .. } => is_decimal_text(price),
            OrderTypeView::Market { funds } => is_decimal_text(funds),
        }
    }
}

/// The order type, selected by the string under `type` at the order's own
/// level, with its fields beside it. A missing or unknown discriminator is
/// an unknown variant; a market order without `funds` lacks a field.
pub open spec fn order_type_of(fs: Seq<(String, Json)>) -> Decoded<OrderTypeView> {
    match lookup(fs, "type"@) {
        Some(Json::Str(t)) => if t@ == "limit"@ {
            match decimal_at(fs, "price"@) {
                Err(k) => Err((k, "price"@)),
                Ok(price) => match time_in_force_of(fs) {
                    Err(e) => Err(e),
                    Ok(time_in_force) => Ok(OrderTypeView::Limit { price, time_in_force }),
                },
            }
        } else if t@ == "market"@ {
            match decimal_at(fs, "funds"@) {
                Err(k) => Err((k, "funds"@)),
                Ok(funds) => Ok(OrderTypeView::Market { funds }),
            }
        } else {
            Err((ErrorKind::UnknownVariant, "type"@))
        },
        _ => Err((ErrorKind::UnknownVariant, "type"@)),
    }
}

pub open spec fn encodes_order_type(v: OrderTypeView, fs: Seq<(String, Json)>) -> bool {
    match v {
        OrderTypeView::Limit { price, time_in_force } => {
            &&& has_text(fs, "type"@, "limit"@)
            &&& has_text(fs, "price"@, price)
            &&& has_text(fs, "time_in_force"@, time_in_force.wire_name())
            &&& time_in_force matches OrderTimeInForce::GTT { cancel_after } ==> has_text(
                fs,
                "cancel_after"@,
                cancel_after.wire_name(),
            )
        },
        OrderTypeView::Market { funds } => {
            has_text(fs, "type"@, "market"@) && has_text(fs, "funds"@, funds)
        },
    }
}

/// An order on the book.
#[derive(Debug)]
pub struct Order {
    pub id: Uuid,
    pub size: Decimal,
    pub product_id: String,
    pub side: OrderSide,
    pub stp: String,
    pub order_type: OrderType,
    pub post_only: bool,
    pub created_at: String,
    pub fill_fees: Decimal,
    pub filled_size: Decimal,
    pub executed_value: Decimal,
    pub status: OrderStatus,
    pub settled: bool,
}

pub ghost struct OrderView {
    pub id: Uuid,
    pub size: Seq<char>,
    pub product_id: Seq<char>,
    pub side: OrderSide,
    pub stp: Seq<char>,
    pub order_type: OrderTypeView,
    pub post_only: bool,
    pub created_at: Seq<char>,
    pub fill_fees: Seq<char>,
    pub filled_size: Seq<char>,
    pub executed_value: Seq<char>,
    pub status: OrderStatus,
    pub settled: bool,
}

impl View for Order {
    type V = OrderView;

    open spec fn view(&self) -> OrderView {
        OrderView {
            id: self.id,
            size: self.size@,
            product_id: self.product_id@,
            side: self.side,
            stp: self.stp@,
            order_type: self.order_type@,
            post_only: self.post_only,
            created_at: self.created_at@,
            fill_fees: self.fill_fees@,
            filled_size: self.filled_size@,
            executed_value: self.executed_value@,
            status: self.status,
            settled: self.settled,
        }
    }
}

impl OrderView {
    pub open spec fn wf(self) -> bool {
        &&& is_decimal_text(self.size)
        &&& self.order_type.wf()
        &&& is_decimal_text(self.fill_fees)
        &&& is_decimal_text(self.filled_size)
        &&& is_decimal_text(self.executed_value)
    }
}

pub open spec fn order_side_at(fs: Seq<(String, Json)>, key: Seq<char>) -> Result<OrderSide, ErrorKind> {
    match text_at(fs, key) {
        Err(k) => Err(k),
        Ok(t) => match OrderSide::from_wire_name(t) {
            Some(v) => Ok(v),
            None => Err(ErrorKind::UnknownVariant),
        },
    }
}

pub open spec fn order_status_at(fs: Seq<(String, Json)>, key: Seq<char>) -> Result<OrderStatus, ErrorKind> {
    match text_at(fs, key) {
        Err(k) => Err(k),
        Ok(t) => match OrderStatus::from_wire_name(t) {
            Some(v) => Ok(v),
            None => Err(ErrorKind::UnknownVariant),
        },
    }
}

/// Decoding an order's fields, in order; the first failure is reported.
pub open spec fn order_of(fs: Seq<(String, Json)>) -> Decoded<OrderView> {
    match uuid_at(fs, "id"@) {
        Err(k) => Err((k, "id"@)),
        Ok(id) => match decimal_at(fs, "size"@) {
            Err(k) => Err((k, "size"@)),
            Ok(size) => match text_at(fs, "product_id"@) {
                Err(k) => Err((k, "product_id"@)),
                Ok(product_id) => match order_side_at(fs, "side"@) {
                    Err(k) => Err((k, "side"@)),
                    Ok(side) => match text_at(fs, "stp"@) {
                        Err(k) => Err((k, "stp"@)),
                        Ok(stp) => match order_type_of(fs) {
                            Err(e) => Err(e),
                            Ok(order_type) => order_rest_of(
                                fs,
                                id,
                                size,
                                product_id,
                                side,
                                stp,
                                order_type,
                            ),
                        },
                    },
                },
            },
        },
    }
}

/// The fields of an order after its type.
pub open spec fn order_rest_of(
    fs: Seq<(String, Json)>,
    id: Uuid,
    size: Seq<char>,
    product_id: Seq<char>,
    side: OrderSide,
    stp: Seq<char>,
    order_type: OrderTypeView,
) -> Decoded<OrderView> {
    match bool_at(fs, "post_only"@) {
        Err(k) => Err((k, "post_only"@)),
        Ok(post_only) => match text_at(fs, "created_at"@) {
            Err(k) => Err((k, "created_at"@)),
            Ok(created_at) => match decimal_at(fs, "fill_fees"@) {
                Err(k) => Err((k, "fill_fees"@)),
                Ok(fill_fees) => match decimal_at(fs, "filled_size"@) {
                    Err(k) => Err((k, "filled_size"@)),
                    Ok(filled_size) => match decimal_at(fs, "executed_value"@) {
                        Err(k) => Err((k, "executed_value"@)),
                        Ok(executed_value) => match order_status_at(fs, "status"@) {
                            Err(k) => Err((k, "status"@)),
                            Ok(status) => match bool_at(fs, "settled"@) {
                                Err(k) => Err((k, "settled"@)),
                                Ok(settled) => Ok(
                                    OrderView {
                                        id,
                                        size,
                                        product_id,
                                        side,
                                        stp,
                                        order_type,
                                        post_only,
                                        created_at,
                                        fill_fees,
                                        filled_size,
                                        executed_value,
                                        status,
                                        settled,
                                    },
                                ),
                            },
                        },
                    },
                },
            },
        },
    }
}

pub open spec fn order_decoding(j: Json) -> Decoded<OrderView> {
    match object_fields(j) {
        Ok(fs) => order_of(fs),
        Err(e) => Err(e),
    }
}

pub open spec fn encodes_order(v: OrderView, fs: Seq<(String, Json)>) -> bool {
    &&& has_uuid(fs, "id"@, v.id)
    &&& has_text(fs, "size"@, v.size)
    &&& has_text(fs, "product_id"@, v.product_id)
    &&& has_text(fs, "side"@, v.side.wire_name())
    &&& has_text(fs, "stp"@, v.stp)
    &&& encodes_order_type(v.order_type, fs)
    &&& has_bool(fs, "post_only"@, v.post_only)
    &&& has_text(fs, "created_at"@, v.created_at)
    &&& has_text(fs, "fill_fees"@, v.fill_fees)
    &&& has_text(fs, "filled_size"@, v.filled_size)
    &&& has_text(fs, "executed_value"@, v.executed_value)
    &&& has_text(fs, "status"@, v.status.wire_name())
    &&& has_bool(fs, "settled"@, v.settled)
}

proof fn lemma_order_keys()
    ensures
        "id"@ != "size"@,
        "id"@ != "product_id"@,
        "id"@ != "side"@,
        "id"@ != "stp"@,
        "id"@ != "type"@,
        "id"@ != "price"@,
        "id"@ != "time_in_force"@,
        "id"@ != "cancel_after"@,
        "id"@ != "funds"@,
        "id"@ != "post_only"@,
        "id"@ != "created_at"@,
        "id"@ != "fill_fees"@,
        "id"@ != "filled_size"@,
        "id"@ != "executed_value"@,
        "id"@ != "status"@,
        "id"@ != "settled"@,
        "size"@ != "product_id"@,
        "size"@ != "side"@,
        "size"@ != "stp"@,
        "size"@ != "type"@,
        "size"@ != "price"@,
        "size"@ != "time_in_force"@,
        "size"@ != "cancel_after"@,
        "size"@ != "funds"@,
        "size"@ != "post_only"@,
        "size"@ != "created_at"@,
        "size"@ != "fill_fees"@,
        "size"@ != "filled_size"@,
        "size"@ != "executed_value"@,
        "size"@ != "status"@,
        "size"@ != "settled"@,
        "product_id"@ != "side"@,
        "product_id"@ != "stp"@,
        "product_id"@ != "type"@,
        "product_id"@ != "price"@,
        "product_id"@ != "time_in_force"@,
        "product_id"@ != "cancel_after"@,
        "product_id"@ != "funds"@,
        "product_id"@ != "post_only"@,
        "product_id"@ != "created_at"@,
        "product_id"@ != "fill_fees"@,
        "product_id"@ != "filled_size"@,
        "product_id"@ != "executed_value"@,
        "product_id"@ != "status"@,
        "product_id"@ != "settled"@,
        "side"@ != "stp"@,
        "side"@ != "type"@,
        "side"@ != "price"@,
        "side"@ != "time_in_force"@,
        "side"@ != "cancel_after"@,
        "side"@ != "funds"@,
        "side"@ != "post_only"@,
        "side"@ != "created_at"@,
        "side"@ != "fill_fees"@,
        "side"@ != "filled_size"@,
        "side"@ != "executed_value"@,
        "side"@ != "status"@,
        "side"@ != "settled"@,
        "stp"@ != "type"@,
        "stp"@ != "price"@,
        "stp"@ != "time_in_force"@,
        "stp"@ != "cancel_after"@,
        "stp"@ != "funds"@,
        "stp"@ != "post_only"@,
        "stp"@ != "created_at"@,
        "stp"@ != "fill_fees"@,
        "stp"@ != "filled_size"@,
        "stp"@ != "executed_value"@,
        "stp"@ != "status"@,
        "stp"@ != "settled"@,
        "type"@ != "price"@,
        "type"@ != "time_in_force"@,
        "type"@ != "cancel_after"@,
        "type"@ != "funds"@,
        "type"@ != "post_only"@,
        "type"@ != "created_at"@,
        "type"@ != "fill_fees"@,
        "type"@ != "filled_size"@,
        "type"@ != "executed_value"@,
        "type"@ != "status"@,
        "type"@ != "settled"@,
        "price"@ != "time_in_force"@,
        "price"@ != "cancel_after"@,
        "price"@ != "funds"@,
        "price"@ != "post_only"@,
        "price"@ != "created_at"@,
        "price"@ != "fill_fees"@,
        "price"@ != "filled_size"@,
        "price"@ != "executed_value"@,
        "price"@ != "status"@,
        "price"@ != "settled"@,
        "time_in_force"@ != "cancel_after"@,
        "time_in_force"@ != "funds"@,
        "time_in_force"@ != "post_only"@,
        "time_in_force"@ != "created_at"@,
        "time_in_force"@ != "fill_fees"@,
        "time_in_force"@ != "filled_size"@,
        "time_in_force"@ != "executed_value"@,
        "time_in_force"@ != "status"@,
        "time_in_force"@ != "settled"@,
        "cancel_after"@ != "funds"@,
        "cancel_after"@ != "post_only"@,
        "cancel_after"@ != "created_at"@,
        "cancel_after"@ != "fill_fees"@,
        "cancel_after"@ != "filled_size"@,
        "cancel_after"@ != "executed_value"@,
        "cancel_after"@ != "status"@,
        "cancel_after"@ != "settled"@,
        "funds"@ != "post_only"@,
        "funds"@ != "created_at"@,
        "funds"@ != "fill_fees"@,
        "funds"@ != "filled_size"@,
        "funds"@ != "executed_value"@,
        "funds"@ != "status"@,
        "funds"@ != "settled"@,
        "post_only"@ != "created_at"@,
        "post_only"@ != "fill_fees"@,
        "post_only"@ != "filled_size"@,
        "post_only"@ != "executed_value"@,
        "post_only"@ != "status"@,
        "post_only"@ != "settled"@,
        "created_at"@ != "fill_fees"@,
        "created_at"@ != "filled_size"@,
        "created_at"@ != "executed_value"@,
        "created_at"@ != "status"@,
        "created_at"@ != "settled"@,
        "fill_fees"@ != "filled_size"@,
        "fill_fees"@ != "executed_value"@,
        "fill_fees"@ != "status"@,
        "fill_fees"@ != "settled"@,
        "filled_size"@ != "executed_value"@,
        "filled_size"@ != "status"@,
        "filled_size"@ != "settled"@,
        "executed_value"@ != "status"@,
        "executed_value"@ != "settled"@,
        "status"@ != "settled"@,
{
    reveal_strlit("id");
    reveal_strlit("size");
    reveal_strlit("product_id");
    reveal_strlit("side");
    reveal_strlit("stp");
    reveal_strlit("type");
    reveal_strlit("price");
    reveal_strlit("time_in_force");
    reveal_strlit("cancel_after");
    reveal_strlit("funds");
    reveal_strlit("post_only");
    reveal_strlit("created_at");
    reveal_strlit("fill_fees");
    reveal_strlit("filled_size");
    reveal_strlit("executed_value");
    reveal_strlit("status");
    reveal_strlit("settled");
    assert("id"@.len() != "size"@.len());
    assert("id"@.len() != "product_id"@.len());
    assert("id"@.len() != "side"@.len());
    assert("id"@.len() != "stp"@.len());
    assert("id"@.len() != "type"@.len());
    assert("id"@.len() != "price"@.len());
    assert("id"@.len() != "time_in_force"@.len());
    assert("id"@.len() != "cancel_after"@.len());
    assert("id"@.len() != "funds"@.len());
    assert("id"@.len() != "post_only"@.len());
    assert("id"@.len() != "created_at"@.len());
    assert("id"@.len() != "fill_fees"@.len());
    assert("id"@.len() != "filled_size"@.len());
    assert("id"@.len() != "executed_value"@.len());
    assert("id"@.len() != "status"@.len());
    assert("id"@.len() != "settled"@.len());
    assert("size"@.len() != "product_id"@.len());
    assert("size"@[2] != "side"@[2]);
    assert("size"@.len() != "stp"@.len());
    assert("size"@[0] != "type"@[0]);
    assert("size"@.len() != "price"@.len());
    assert("size"@.len() != "time_in_force"@.len());
    assert("size"@.len() != "cancel_after"@.len());
    assert("size"@.len() != "funds"@.len());
    assert("size"@.len() != "post_only"@.len());
    assert("size"@.len() != "created_at"@.len());
    assert("size"@.len() != "fill_fees"@.len());
    assert("size"@.len() != "filled_size"@.len());
    assert("size"@.len() != "executed_value"@.len());
    assert("size"@.len() != "status"@.len());
    assert("size"@.len() != "settled"@.len());
    assert("product_id"@.len() != "side"@.len());
    assert("product_id"@.len() != "stp"@.len());
    assert("product_id"@.len() != "type"@.len());
    assert("product_id"@.len() != "price"@.len());
    assert("product_id"@.len() != "time_in_force"@.len());
    assert("product_id"@.len() != "cancel_after"@.len());
    assert("product_id"@.len() != "funds"@.len());
    assert("product_id"@.len() != "post_only"@.len());
    assert("product_id"@[0] != "created_at"@[0]);
    assert("product_id"@.len() != "fill_fees"@.len());
    assert("product_id"@.len() != "filled_size"@.len());
    assert("product_id"@.len() != "executed_value"@.len());
    assert("product_id"@.len() != "status"@.len());
    assert("product_id"@.len() != "settled"@.len());
    assert("side"@.len() != "stp"@.len());
    assert("side"@[0] != "type"@[0]);
    assert("side"@.len() != "price"@.len());
    assert("side"@.len() != "time_in_force"@.len());
    assert("side"@.len() != "cancel_after"@.len());
    assert("side"@.len() != "funds"@.len());
    assert("side"@.len() != "post_only"@.len());
    assert("side"@.len() != "created_at"@.len());
    assert("side"@.len() != "fill_fees"@.len());
    assert("side"@.len() != "filled_size"@.len());
    assert("side"@.len() != "executed_value"@.len());
    assert("side"@.len() != "status"@.len());
    assert("side"@.len() != "settled"@.len());
    assert("stp"@.len() != "type"@.len());
    assert("stp"@.len() != "price"@.len());
    assert("stp"@.len() != "time_in_force"@.len());
    assert("stp"@.len() != "cancel_after"@.len());
    assert("stp"@.len() != "funds"@.len());
    assert("stp"@.len() != "post_only"@.len());
    assert("stp"@.len() != "created_at"@.len());
    assert("stp"@.len() != "fill_fees"@.len());
    assert("stp"@.len() != "filled_size"@.len());
    assert("stp"@.len() != "executed_value"@.len());
    assert("stp"@.len() != "status"@.len());
    assert("stp"@.len() != "settled"@.len());
    assert("type"@.len() != "price"@.len());
    assert("type"@.len() != "time_in_force"@.len());
    assert("type"@.len() != "cancel_after"@.len());
    assert("type"@.len() != "funds"@.len());
    assert("type"@.len() != "post_only"@.len());
    assert("type"@.len() != "created_at"@.len());
    assert("type"@.len() != "fill_fees"@.len());
    assert("type"@.len() != "filled_size"@.len());
    assert("type"@.len() != "executed_value"@.len());
    assert("type"@.len() != "status"@.len());
    assert("type"@.len() != "settled"@.len());
    assert("price"@.len() != "time_in_force"@.len());
    assert("price"@.len() != "cancel_after"@.len());
    assert("price"@[0] != "funds"@[0]);
    assert("price"@.len() != "post_only"@.len());
    assert("price"@.len() != "created_at"@.len());
    assert("price"@.len() != "fill_fees"@.len());
    assert("price"@.len() != "filled_size"@.len());
    assert("price"@.len() != "executed_value"@.len());
    assert("price"@.len() != "status"@.len());
    assert("price"@.len() != "settled"@.len());
    assert("time_in_force"@.len() != "cancel_after"@.len());
    assert("time_in_force"@.len() != "funds"@.len());
    assert("time_in_force"@.len() != "post_only"@.len());
    assert("time_in_force"@.len() != "created_at"@.len());
    assert("time_in_force"@.len() != "fill_fees"@.len());
    assert("time_in_force"@.len() != "filled_size"@.len());
    assert("time_in_force"@.len() != "executed_value"@.len());
    assert("time_in_force"@.len() != "status"@.len());
    assert("time_in_force"@.len() != "settled"@.len());
    assert("cancel_after"@.len() != "funds"@.len());
    assert("cancel_after"@.len() != "post_only"@.len());
    assert("cancel_after"@.len() != "created_at"@.len());
    assert("cancel_after"@.len() != "fill_fees"@.len());
    assert("cancel_after"@.len() != "filled_size"@.len());
    assert("cancel_after"@.len() != "executed_value"@.len());
    assert("cancel_after"@.len() != "status"@.len());
    assert("cancel_after"@.len() != "settled"@.len());
    assert("funds"@.len() != "post_only"@.len());
    assert("funds"@.len() != "created_at"@.len());
    assert("funds"@.len() != "fill_fees"@.len());
    assert("funds"@.len() != "filled_size"@.len());
    assert("funds"@.len() != "executed_value"@.len());
    assert("funds"@.len() != "status"@.len());
    assert("funds"@.len() != "settled"@.len());
    assert("post_only"@.len() != "created_at"@.len());
    assert("post_only"@[0] != "fill_fees"@[0]);
    assert("post_only"@.len() != "filled_size"@.len());
    assert("post_only"@.len() != "executed_value"@.len());
    assert("post_only"@.len() != "status"@.len());
    assert("post_only"@.len() != "settled"@.len());
    assert("created_at"@.len() != "fill_fees"@.len());
    assert("created_at"@.len() != "filled_size"@.len());
    assert("created_at"@.len() != "executed_value"@.len());
    assert("created_at"@.len() != "status"@.len());
    assert("created_at"@.len() != "settled"@.len());
    assert("fill_fees"@.len() != "filled_size"@.len());
    assert("fill_fees"@.len() != "executed_value"@.len());
    assert("fill_fees"@.len() != "status"@.len());
    assert("fill_fees"@.len() != "settled"@.len());
    assert("filled_size"@.len() != "executed_value"@.len());
    assert("filled_size"@.len() != "status"@.len());
    assert("filled_size"@.len() != "settled"@.len());
    assert("executed_value"@.len() != "status"@.len());
    assert("executed_value"@.len() != "settled"@.len());
    assert("status"@.len() != "settled"@.len());
}

proof fn lemma_order_type_words()
    ensures
        "limit"@ != "market"@,
{
    reveal_strlit("limit");
    reveal_strlit("market");
    assert("limit"@.len() != "market"@.len());
}

proof fn lemma_time_in_force_words()
    ensures
        "GTC"@ != "GTT"@,
        "GTC"@ != "IOC"@,
        "GTC"@ != "FOK"@,
        "GTT"@ != "IOC"@,
        "GTT"@ != "FOK"@,
        "IOC"@ != "FOK"@,
{
    reveal_strlit("GTC");
    reveal_strlit("GTT");
    reveal_strlit("IOC");
    reveal_strlit("FOK");
    assert("GTC"@[2] != "GTT"@[2]);
    assert("GTC"@[0] != "IOC"@[0]);
    assert("GTC"@[0] != "FOK"@[0]);
    assert("GTT"@[0] != "IOC"@[0]);
    assert("GTT"@[0] != "FOK"@[0]);
    assert("IOC"@[0] != "FOK"@[0]);
}

/// An order read back from its encoding is the order that was encoded.
pub proof fn lemma_order_round_trip(v: OrderView, fs: Seq<(String, Json)>)
    requires
        v.wf(),
        encodes_order(v, fs),
    ensures
        order_of(fs) == Ok::<OrderView, (ErrorKind, Seq<char>)>(v),
{
    lemma_order_keys();
    lemma_order_type_words();
    lemma_time_in_force_words();
    v.side.lemma_wire_round_trip();
    v.status.lemma_wire_round_trip();
    match v.order_type {
        OrderTypeView::Limit { time_in_force, .. } => {
            match time_in_force {
                OrderTimeInForce::GTT { cancel_after } => {
                    cancel_after.lemma_wire_round_trip();
                },
                _ => {},
            }
        },
        _ => {},
    }
}

/// An order whose `type` is missing or neither `limit` nor `market` is no
/// order: its type fails as an unknown variant.
pub proof fn lemma_order_unknown_type(fs: Seq<(String, Json)>)
    requires
        !(lookup(fs, "type"@) matches Some(Json::Str(t)) && (t@ == "limit"@ || t@ == "market"@)),
    ensures
        order_of(fs) is Err,
        order_type_of(fs) == Err::<OrderTypeView, (ErrorKind, Seq<char>)>(
            (ErrorKind::UnknownVariant, "type"@),
        ),
{
}

impl OrderType {
    /// Decodes the order type from the order's own fields.
    pub fn decode_from(fs: &Vec<(String, Json)>) -> (r: Result<OrderType, DecodeError>)
        ensures
            agrees(r, order_type_of(fs@)),
    {
        proof {
            lemma_order_keys();
    lemma_order_type_words();
    lemma_time_in_force_words();
        }
        let t = match crate::json::get(fs, "type") {
            Some(Json::Str(t)) => t,
            _ => return fail_at(ErrorKind::UnknownVariant, "type"),
        };
        if same_text(t.as_str(), "market") {
            let funds = match read_decimal(fs, "funds") {
                Ok(v) => v,
                Err(k) => return fail_at(k, "funds"),
            };
            return Ok(OrderType::Market { funds });
        }
        if !same_text(t.as_str(), "limit") {
            return fail_at(ErrorKind::UnknownVariant, "type");
        }
        let price = match read_decimal(fs, "price") {
            Ok(v) => v,
            Err(k) => return fail_at(k, "price"),
        };
        let tif = match crate::json::get(fs, "time_in_force") {
            Some(Json::Str(t)) => t,
            _ => return fail_at(ErrorKind::UnknownVariant, "time_in_force"),
        };
        let time_in_force = if same_text(tif.as_str(), "GTC") {
            OrderTimeInForce::GTC
        } else if same_text(tif.as_str(), "IOC") {
            OrderTimeInForce::IOC
        } else if same_text(tif.as_str(), "FOK") {
            OrderTimeInForce::FOK
        } else if same_text(tif.as_str(), "GTT") {
            let cancel_after = match read_text(fs, "cancel_after") {
                Ok(c) => match OrderTimeInForceCancelAfter::from_wire(c.as_str()) {
                    Some(c) => c,
                    None => return fail_at(ErrorKind::UnknownVariant, "cancel_after"),
                },
                Err(k) => return fail_at(k, "cancel_after"),
            };
            OrderTimeInForce::GTT { cancel_after }
        } else {
            return fail_at(ErrorKind::UnknownVariant, "time_in_force");
        };
        Ok(OrderType::Limit { price, time_in_force })
    }
}

impl Order {
    /// Decodes an order from a JSON object.
    pub fn decode(j: &Json) -> (r: Result<Order, DecodeError>)
        ensures
            agrees(r, order_decoding(*j)),
    {
        let fs = match j {
            Json::Object(fs) => fs,
            _ => return fail_at(ErrorKind::TypeMismatch, ""),
        };
        let id = match read_uuid(fs, "id") {
            Ok(v) => v,
            Err(k) => return fail_at(k, "id"),
        };
        let size = match read_decimal(fs, "size") {
            Ok(v) => v,
            Err(k) => return fail_at(k, "size"),
        };
        let product_id = match read_text(fs, "product_id") {
            Ok(v) => v,
            Err(k) => return fail_at(k, "product_id"),
        };
        let side = match read_text(fs, "side") {
            Ok(t) => match OrderSide::from_wire(t.as_str()) {
                Some(v) => v,
                None => return fail_at(ErrorKind::UnknownVariant, "side"),
            },
            Err(k) => return fail_at(k, "side"),
        };
        let stp = match read_text(fs, "stp") {
            Ok(v) => v,
            Err(k) => return fail_at(k, "stp"),
        };
        let order_type = match OrderType::decode_from(fs) {
            Ok(v) => v,
            Err(e) => return Err(e),
        };
        let post_only = match read_bool(fs, "post_only") {
            Ok(v) => v,
            Err(k) => return fail_at(k, "post_only"),
        };
        let created_at = match read_text(fs, "created_at") {
            Ok(v) => v,
            Err(k) => return fail_at(k, "created_at"),
        };
        let fill_fees = match read_decimal(fs, "fill_fees") {
            Ok(v) => v,
            Err(k) => return fail_at(k, "fill_fees"),
        };
        let filled_size = match read_decimal(fs, "filled_size") {
            Ok(v) => v,
            Err(k) => return fail_at(k, "filled_size"),
        };
        let executed_value = match read_decimal(fs, "executed_value") {
            Ok(v) => v,
            Err(k) => return fail_at(k, "executed_value"),
        };
        let status = match read_text(fs, "status") {
            Ok(t) => match OrderStatus::from_wire(t.as_str()) {
                Some(v) => v,
                None => return fail_at(ErrorKind::UnknownVariant, "status"),
            },
            Err(k) => return fail_at(k, "status"),
        };
        let settled = match read_bool(fs, "settled") {
            Ok(v) => v,
            Err(k) => return fail_at(k, "settled"),
        };
        Ok(
            Order {
                id,
                size,
                product_id,
                side,
                stp,
                order_type,
                post_only,
                created_at,
                fill_fees,
                filled_size,
                executed_value,
                status,
                settled,
            },
        )
    }

    /// Encodes the order as a JSON object, with its type's fields beside
    /// the others.
    pub fn encode(&self) -> (r: Json)
        ensures
            self@.wf(),
            r matches Json::Object(fs) && encodes_order(self@, fs@),
    {
        proof {
            lemma_order_keys();
    lemma_order_type_words();
    lemma_time_in_force_words();
        }
        let mut fs: Vec<(String, Json)> = Vec::new();
        push_field(&mut fs, "id", Json::Str(self.id.to_text()));
        push_field(&mut fs, "size", Json::Str(self.size.as_str().to_owned()));
        push_field(&mut fs, "product_id", Json::Str(self.product_id.clone()));
        push_field(&mut fs, "side", Json::Str(self.side.to_wire().to_owned()));
        push_field(&mut fs, "stp", Json::Str(self.stp.clone()));
        match &self.order_type {
            OrderType::Limit { price, time_in_force } => {
                push_field(&mut fs, "type", Json::Str("limit".to_owned()));
                push_field(&mut fs, "price", Json::Str(price.as_str().to_owned()));
                push_field(&mut fs, "time_in_force", Json::Str(time_in_force.to_wire().to_owned()));
                match time_in_force {
                    OrderTimeInForce::GTT { cancel_after } => {
                        push_field(&mut fs, "cancel_after", Json::Str(cancel_after.to_wire().to_owned()));
                    },
                    _ => {},
                }
            },
            OrderType::Market { funds } => {
                push_field(&mut fs, "type", Json::Str("market".to_owned()));
                push_field(&mut fs, "funds", Json::Str(funds.as_str().to_owned()));
            },
        }
        push_field(&mut fs, "post_only", Json::Bool(self.post_only));
        push_field(&mut fs, "created_at", Json::Str(self.created_at.clone()));
        push_field(&mut fs, "fill_fees", Json::Str(self.fill_fees.as_str().to_owned()));
        push_field(&mut fs, "filled_size", Json::Str(self.filled_size.as_str().to_owned()));
        push_field(&mut fs, "executed_value", Json::Str(self.executed_value.as_str().to_owned()));
        push_field(&mut fs, "status", Json::Str(self.status.to_wire().to_owned()));
        push_field(&mut fs, "settled", Json::Bool(self.settled));
        Json::Object(fs)
    }
}

} // verus!

