use coinbase_records::{
    parse_usize, Account, AccountHistory, AccountHistoryDetails, AccountHistoryDetailsTransferType,
    AccountHistoryType, AccountHolds, AccountHoldsType, Decimal, ErrorKind, Json, Order,
    OrderSide, OrderStatus, OrderTimeInForce, OrderTimeInForceCancelAfter, OrderType, Uuid,
};

use coinbase_records::json::read_optional_decimal;

const ORDER_ID: &str = "e9d0ff7a-ed50-4040-87a7-c884ae562807";
const ORDER_ID_VALUE: u128 = 0xe9d0ff7aed50404087a7c884ae562807;
const OTHER_ID: &str = "ea565dc3-1656-49d7-bcdb-d99981ce35a7";

fn s(v: &str) -> Json {
    Json::Str(v.to_string())
}

fn n(v: &str) -> Json {
    Json::Number(v.to_string())
}

fn obj(fields: Vec<(&str, Json)>) -> Json {
    Json::Object(fields.into_iter().map(|(k, v)| (k.to_string(), v)).collect())
}

fn fields_of(j: Json) -> Vec<(String, Json)> {
    match j {
        Json::Object(fs) => fs,
        _ => panic!("not an object"),
    }
}

fn value<'a>(fs: &'a [(String, Json)], key: &str) -> &'a Json {
    &fs.iter().find(|(k, _)| k == key).expect("field present").1
}

fn dec(j: &Decimal) -> f64 {
    j.as_str().parse::<f64>().unwrap()
}

fn account_fields(balance: Json) -> Vec<(&'static str, Json)> {
    vec![
        ("id", s(ORDER_ID)),
        ("currency", s("BTC")),
        ("balance", balance),
        ("available", s("1.5")),
        ("hold", s("0.25")),
        ("profile_id", s(OTHER_ID)),
    ]
}

fn order_fields(type_fields: Vec<(&'static str, Json)>) -> Vec<(&'static str, Json)> {
    let mut fs = vec![
        ("id", s(ORDER_ID)),
        ("size", s("1.00000000")),
        ("product_id", s("BTC-USD")),
        ("side", s("buy")),
        ("stp", s("dc")),
    ];
    fs.extend(type_fields);
    fs.extend(vec![
        ("post_only", Json::Bool(true)),
        ("created_at", s("2018-08-23T18:53:42.144811Z")),
        ("fill_fees", s("0")),
        ("filled_size", s("0")),
        ("executed_value", s("0")),
        ("status", s("pending")),
        ("settled", Json::Bool(false)),
    ]);
    fs
}

fn history_fields(tag: &str, details: Json) -> Vec<(&'static str, Json)> {
    vec![
        ("id", n("1")),
        ("created_at", s("2018-08-23T18:53:42.144811Z")),
        ("amount", s("10.0")),
        ("balance", s("10.0")),
        ("type", s(tag)),
        ("details", details),
    ]
}

fn trade_details() -> Json {
    obj(vec![("order_id", s(ORDER_ID)), ("product_id", s("BTC-USD")), ("trade_id", s("74"))])
}

#[test]
fn limit_order_scenario() {
    let j = obj(vec![
        ("id", s(ORDER_ID)),
        ("size", s("1.00000000")),
        ("product_id", s("BTC-USD")),
        ("side", s("buy")),
        ("stp", s("dc")),
        ("type", s("limit")),
        ("time_in_force", s("GTC")),
        ("post_only", Json::Bool(true)),
        ("created_at", s("2018-08-23T18:53:42.144811Z")),
        ("fill_fees", s("0")),
        ("filled_size", s("0")),
        ("executed_value", s("0")),
        ("status", s("pending")),
        ("settled", Json::Bool(false)),
        ("price", s("1.12000000")),
    ]);
    let o = Order::decode(&j).unwrap();
    match &o.order_type {
        OrderType::Limit { price, time_in_force } => {
            assert_eq!(dec(price), 1.12);
            assert_eq!(*time_in_force, OrderTimeInForce::GTC);
        }
        OrderType::Market { .. } => panic!("expected a limit order"),
    }
    assert_eq!(o.status, OrderStatus::Pending);
    assert!(!o.settled);
    assert!(o.post_only);
    assert_eq!(o.side, OrderSide::Buy);
    assert_eq!(o.id, Uuid { value: ORDER_ID_VALUE });
    assert_eq!(dec(&o.size), 1.0);
    assert_eq!(o.product_id, "BTC-USD");
}

#[test]
fn transfer_history_scenario() {
    let details = obj(vec![("transfer_id", s(OTHER_ID)), ("transferType", s("deposit"))]);
    let h = AccountHistory::decode(&obj(history_fields("transfer", details))).unwrap();
    assert_eq!(h.kind, AccountHistoryType::Transfer);
    assert_eq!(h.id, 1);
    assert_eq!(dec(&h.amount), 10.0);
    match h.details {
        AccountHistoryDetails::Transfer { transfer_id, transfer_type } => {
            assert_eq!(Some(transfer_id), Uuid::parse(OTHER_ID));
            assert_eq!(transfer_type, AccountHistoryDetailsTransferType::Deposit);
        }
        _ => panic!("expected a transfer"),
    }
}

#[test]
fn history_kind_follows_each_variant() {
    for (tag, kind) in [
        ("fee", AccountHistoryType::Fee),
        ("match", AccountHistoryType::Match),
        ("rebate", AccountHistoryType::Rebate),
    ] {
        let mut fs = history_fields(tag, trade_details());
        fs.push(("kind", s("transfer")));
        let h = AccountHistory::decode(&obj(fs)).unwrap();
        assert_eq!(h.kind, kind);
        assert_eq!(AccountHistoryType::from(&h.details), kind);
        match h.details {
            AccountHistoryDetails::Fee { trade_id, .. }
            | AccountHistoryDetails::Match { trade_id, .. }
            | AccountHistoryDetails::Rebate { trade_id, .. } => assert_eq!(trade_id, 74),
            AccountHistoryDetails::Transfer { .. } => panic!("expected a trade"),
        }
    }
    let details = obj(vec![("transfer_id", s(OTHER_ID)), ("transferType", s("withdraw"))]);
    let h = AccountHistory::decode(&obj(history_fields("transfer", details))).unwrap();
    assert_eq!(h.kind, AccountHistoryType::Transfer);
}

#[test]
fn order_unknown_type_is_rejected() {
    let j = obj(order_fields(vec![("type", s("stop")), ("price", s("1.0"))]));
    let e = Order::decode(&j).unwrap_err();
    assert_eq!(e.kind, ErrorKind::UnknownVariant);
    assert_eq!(e.field, "type");
    let e = Order::decode(&obj(order_fields(vec![("funds", s("1.0"))]))).unwrap_err();
    assert_eq!(e.kind, ErrorKind::UnknownVariant);
}

#[test]
fn history_unknown_type_is_rejected() {
    let e = AccountHistory::decode(&obj(history_fields("bonus", trade_details()))).unwrap_err();
    assert_eq!(e.kind, ErrorKind::UnknownVariant);
    assert_eq!(e.field, "type");
}

#[test]
fn zero_balance_decodes() {
    let a = Account::decode(&obj(account_fields(s("0.00000000")))).unwrap();
    assert_eq!(dec(&a.balance), 0.0);
    assert_eq!(a.balance.as_str(), "0.00000000");
    assert_eq!(a.currency, "BTC");
}

#[test]
fn empty_or_alphabetic_balance_is_malformed() {
    for bad in ["", "abc", "1.", ".5", "1.2.3", "-", "+1"] {
        let e = Account::decode(&obj(account_fields(s(bad)))).unwrap_err();
        assert_eq!(e.kind, ErrorKind::MalformedNumber);
        assert_eq!(e.field, "balance");
    }
}

#[test]
fn negative_balance_is_accepted() {
    let a = Account::decode(&obj(account_fields(s("-3.5")))).unwrap();
    assert_eq!(dec(&a.balance), -3.5);
}

#[test]
fn market_order_needs_funds() {
    let e = Order::decode(&obj(order_fields(vec![("type", s("market"))]))).unwrap_err();
    assert_eq!(e.kind, ErrorKind::MissingField);
    assert_eq!(e.field, "funds");
    let o = Order::decode(&obj(order_fields(vec![("type", s("market")), ("funds", s("28.24"))])))
        .unwrap();
    match &o.order_type {
        OrderType::Market { funds } => assert_eq!(dec(funds), 28.24),
        OrderType::Limit { .. } => panic!("expected a market order"),
    }
}

#[test]
fn good_till_time_reads_cancel_after() {
    let o = Order::decode(&obj(order_fields(vec![
        ("type", s("limit")),
        ("price", s("2.5")),
        ("time_in_force", s("GTT")),
        ("cancel_after", s("hour")),
    ])))
    .unwrap();
    match &o.order_type {
        OrderType::Limit { time_in_force, .. } => assert_eq!(
            *time_in_force,
            OrderTimeInForce::GTT { cancel_after: OrderTimeInForceCancelAfter::Hour }
        ),
        OrderType::Market { .. } => panic!("expected a limit order"),
    }
    let e = Order::decode(&obj(order_fields(vec![
        ("type", s("limit")),
        ("price", s("2.5")),
        ("time_in_force", s("GTX")),
    ])))
    .unwrap_err();
    assert_eq!(e.kind, ErrorKind::UnknownVariant);
    assert_eq!(e.field, "time_in_force");
}

#[test]
fn each_error_kind_has_an_input() {
    let mut fs = account_fields(s("1.0"));
    fs.remove(1);
    let e = Account::decode(&obj(fs)).unwrap_err();
    assert_eq!((e.kind, e.field.as_str()), (ErrorKind::MissingField, "currency"));

    let mut fs = account_fields(s("1.0"));
    fs[1] = ("currency", Json::Bool(true));
    let e = Account::decode(&obj(fs)).unwrap_err();
    assert_eq!((e.kind, e.field.as_str()), (ErrorKind::TypeMismatch, "currency"));

    let e = Account::decode(&Json::Null).unwrap_err();
    assert_eq!(e.kind, ErrorKind::TypeMismatch);

    let mut fs = account_fields(s("1.0"));
    fs[0] = ("id", s("not-a-uuid"));
    let e = Account::decode(&obj(fs)).unwrap_err();
    assert_eq!((e.kind, e.field.as_str()), (ErrorKind::MalformedIdentifier, "id"));

    let bad_trade = obj(vec![("order_id", s(ORDER_ID)), ("product_id", s("BTC-USD")), ("trade_id", s("7x"))]);
    let e = AccountHistory::decode(&obj(history_fields("fee", bad_trade))).unwrap_err();
    assert_eq!((e.kind, e.field.as_str()), (ErrorKind::MalformedInteger, "trade_id"));

    let mut fs = history_fields("fee", trade_details());
    fs[0] = ("id", n("1.5"));
    let e = AccountHistory::decode(&obj(fs)).unwrap_err();
    assert_eq!((e.kind, e.field.as_str()), (ErrorKind::MalformedInteger, "id"));

    let mut fs = order_fields(vec![("type", s("market")), ("funds", s("1"))]);
    fs[3] = ("side", s("hold"));
    let e = Order::decode(&obj(fs)).unwrap_err();
    assert_eq!((e.kind, e.field.as_str()), (ErrorKind::UnknownVariant, "side"));
}

#[test]
fn first_failing_field_is_reported() {
    let mut fs = account_fields(s("abc"));
    fs[5] = ("profile_id", s("zzz"));
    let e = Account::decode(&obj(fs)).unwrap_err();
    assert_eq!(e.field, "balance");
}

#[test]
fn holds_decode_and_round_trip() {
    let j = obj(vec![
        ("id", s(ORDER_ID)),
        ("account_id", s(OTHER_ID)),
        ("created_at", s("2018-08-23T18:53:42Z")),
        ("updated_at", s("2018-08-24T18:53:42Z")),
        ("amount", n("4.23")),
        ("type", s("order")),
        ("ref", s(OTHER_ID)),
    ]);
    let h = AccountHolds::decode(&j).unwrap();
    assert_eq!(h.hold_type, AccountHoldsType::Order);
    assert_eq!(dec(&h.amount), 4.23);
    let back = AccountHolds::decode(&h.encode()).unwrap();
    assert_eq!(back.id, h.id);
    assert_eq!(back.reference, h.reference);
    assert_eq!(back.amount.as_str(), "4.23");
    assert_eq!(back.updated_at, "2018-08-24T18:53:42Z");
    assert_eq!(back.hold_type, AccountHoldsType::Order);
}

#[test]
fn account_round_trip() {
    let a = Account::decode(&obj(account_fields(s("12.50000000")))).unwrap();
    let fs = fields_of(a.encode());
    assert!(matches!(value(&fs, "id"), Json::Str(t) if t == ORDER_ID));
    assert!(matches!(value(&fs, "balance"), Json::Str(t) if t == "12.50000000"));
    let back = Account::decode(&Json::Object(fs)).unwrap();
    assert_eq!(back.id, a.id);
    assert_eq!(back.profile_id, a.profile_id);
    assert_eq!(back.balance.as_str(), "12.50000000");
    assert_eq!(back.hold.as_str(), "0.25");
}

#[test]
fn history_round_trip_writes_tag_and_details() {
    let h = AccountHistory::decode(&obj(history_fields("rebate", trade_details()))).unwrap();
    let fs = fields_of(h.encode());
    assert!(matches!(value(&fs, "type"), Json::Str(t) if t == "rebate"));
    assert!(matches!(value(&fs, "id"), Json::Number(t) if t == "1"));
    assert!(fs.iter().all(|(k, _)| k != "kind"));
    match value(&fs, "details") {
        Json::Object(inner) => {
            assert!(matches!(value(inner, "trade_id"), Json::Str(t) if t == "74"));
        }
        _ => panic!("details must be an object"),
    }
    let back = AccountHistory::decode(&Json::Object(fs)).unwrap();
    assert_eq!(back.kind, AccountHistoryType::Rebate);
    assert_eq!(back.id, 1);
    match back.details {
        AccountHistoryDetails::Rebate { order_id, product_id, trade_id } => {
            assert_eq!(order_id.value, ORDER_ID_VALUE);
            assert_eq!(product_id, "BTC-USD");
            assert_eq!(trade_id, 74);
        }
        _ => panic!("expected a rebate"),
    }
}

#[test]
fn order_round_trip_keeps_type_fields_flat() {
    let o = Order::decode(&obj(order_fields(vec![
        ("type", s("limit")),
        ("price", s("1.12000000")),
        ("time_in_force", s("GTT")),
        ("cancel_after", s("day")),
    ])))
    .unwrap();
    let fs = fields_of(o.encode());
    assert!(matches!(value(&fs, "type"), Json::Str(t) if t == "limit"));
    assert!(matches!(value(&fs, "time_in_force"), Json::Str(t) if t == "GTT"));
    assert!(matches!(value(&fs, "cancel_after"), Json::Str(t) if t == "day"));
    let back = Order::decode(&Json::Object(fs)).unwrap();
    assert_eq!(back.status, OrderStatus::Pending);
    assert_eq!(back.side, OrderSide::Buy);
    assert_eq!(back.stp, "dc");
    match back.order_type {
        OrderType::Limit { price, time_in_force } => {
            assert_eq!(price.as_str(), "1.12000000");
            assert_eq!(
                time_in_force,
                OrderTimeInForce::GTT { cancel_after: OrderTimeInForceCancelAfter::Day }
            );
        }
        OrderType::Market { .. } => panic!("expected a limit order"),
    }
}

#[test]
fn uuid_text_and_value() {
    let u = Uuid::parse(ORDER_ID).unwrap();
    assert_eq!(u.value, ORDER_ID_VALUE);
    assert_eq!(u.to_text(), ORDER_ID);
    assert_eq!(Uuid { value: 1 }.to_text(), "00000000-0000-0000-0000-000000000001");
    assert!(Uuid::parse("xyz").is_none());
}

#[test]
fn unsigned_integers_from_digits() {
    assert_eq!(parse_usize("123"), Some(123));
    assert_eq!(parse_usize("007"), Some(7));
    assert_eq!(parse_usize(""), None);
    assert_eq!(parse_usize("+1"), None);
    assert_eq!(parse_usize("-1"), None);
    assert_eq!(parse_usize("1.0"), None);
    assert_eq!(parse_usize("99999999999999999999999"), None);
    assert_eq!(parse_usize(&usize::MAX.to_string()), Some(usize::MAX));
}

#[test]
fn decimal_wire_forms() {
    assert_eq!(Decimal::parse("28.24").unwrap().as_str(), "28.24");
    assert!(Decimal::parse("10").is_some());
    assert!(Decimal::parse("-0.5").is_some());
    assert!(Decimal::parse("1e5").is_none());
    assert!(Decimal::parse(" 1").is_none());
    let d = Decimal::parse("-0.5").unwrap();
    assert_eq!(d.clone().as_str(), "-0.5");
}

#[test]
fn wire_words_of_enumerations() {
    assert_eq!(OrderStatus::from_wire("done"), Some(OrderStatus::Done));
    assert_eq!(OrderStatus::from_wire("Done"), None);
    assert_eq!(OrderStatus::Open.to_wire(), "open");
    assert_eq!(AccountHoldsType::from_wire("transfer"), Some(AccountHoldsType::Transfer));
    assert_eq!(OrderSide::Sell.to_wire(), "sell");
    assert_eq!(
        AccountHistoryDetailsTransferType::from_wire("withdraw"),
        Some(AccountHistoryDetailsTransferType::Withdraw)
    );
    assert_eq!(OrderTimeInForceCancelAfter::Min.to_wire(), "min");
}

#[test]
fn history_kind_defaults_to_not_set() {
    assert_eq!(AccountHistoryType::default(), AccountHistoryType::NotSet);
}

#[test]
fn optional_decimal_tolerates_absence() {
    let fs = fields_of(obj(vec![
        ("funds", s("28.24")),
        ("nothing", Json::Null),
        ("bad", s("abc")),
        ("flag", Json::Bool(true)),
    ]));
    let d = read_optional_decimal(&fs, "funds").unwrap().unwrap();
    assert_eq!(dec(&d), 28.24);
    assert!(read_optional_decimal(&fs, "nothing").unwrap().is_none());
    assert!(read_optional_decimal(&fs, "missing").unwrap().is_none());
    assert_eq!(read_optional_decimal(&fs, "bad").unwrap_err(), ErrorKind::MalformedNumber);
    assert_eq!(read_optional_decimal(&fs, "flag").unwrap_err(), ErrorKind::TypeMismatch);
}

#[test]
fn first_of_repeated_keys_wins() {
    let mut fs = account_fields(s("1.0"));
    fs.push(("currency", s("USD")));
    let a = Account::decode(&obj(fs)).unwrap();
    assert_eq!(a.currency, "BTC");
}
