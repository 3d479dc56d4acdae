use yandex_money::params::Params;
use yandex_money::text::{bool_text, decimal_text};
use yandex_money::{
    Client, Decimal, Phone, ProcessPaymentMoneySource, RequestAmount, Secure3D, TestPaymentRequest, UserId,
};

fn value(p: &Params, key: &str) -> Option<String> {
    p.get(key).cloned()
}

fn keys(p: &Params) -> Vec<String> {
    let mut k: Vec<String> = p.entries().iter().map(|e| e.0.clone()).collect();
    k.sort();
    k
}

fn transfer(to: UserId, amount: RequestAmount, label: Option<String>) -> yandex_money::PaymentRequest {
    let client = Client::new(Some("token".to_string()));
    client.request_transfer(to, amount, "x".to_string(), "m".to_string(), label, false, true, 7)
}

#[test]
fn decimal_text_writes_digits() {
    assert_eq!(decimal_text(0), "0");
    assert_eq!(decimal_text(7), "7");
    assert_eq!(decimal_text(4100175017397), "4100175017397");
    assert_eq!(decimal_text(u64::MAX), "18446744073709551615");
    assert_eq!(bool_text(true), "true");
    assert_eq!(bool_text(false), "false");
}

#[test]
fn params_insert_replaces() {
    let mut p = Params::new();
    p.insert("a".to_string(), "1".to_string());
    p.insert("b".to_string(), "2".to_string());
    p.insert("a".to_string(), "3".to_string());
    assert_eq!(p.len(), 2);
    assert_eq!(value(&p, "a"), Some("3".to_string()));
    assert_eq!(value(&p, "b"), Some("2".to_string()));
    assert_eq!(value(&p, "c"), None);
}

#[test]
fn transfer_recipient_account() {
    let amount = Decimal::parse("10").unwrap();
    let r = transfer(UserId::Account(4100175017397), RequestAmount::Total(amount), None);
    assert_eq!(value(r.params(), "to"), Some("4100175017397".to_string()));
}

#[test]
fn transfer_recipient_email() {
    let amount = Decimal::parse("10").unwrap();
    let r = transfer(UserId::Email("a@b.ru".to_string()), RequestAmount::Total(amount), None);
    assert_eq!(value(r.params(), "to"), Some("a@b.ru".to_string()));
}

#[test]
fn transfer_recipient_phone() {
    let phone = Phone::parse("+7 (900) 123-45-67").unwrap();
    assert_eq!(phone.to_text(), "+79001234567");
    let amount = Decimal::parse("10").unwrap();
    let r = transfer(UserId::Phone(phone), RequestAmount::Total(amount), None);
    assert_eq!(value(r.params(), "to"), Some("+79001234567".to_string()));
}

#[test]
fn phone_rejects_garbage() {
    assert!(Phone::parse("not a number").is_none());
}

#[test]
fn decimal_parse_keeps_scale() {
    assert_eq!(Decimal::parse("10.50").unwrap().to_text(), "10.50");
    assert!(Decimal::parse("ten").is_none());
}

#[test]
fn transfer_amount_total_key() {
    let r = transfer(UserId::Account(1), RequestAmount::Total(Decimal::parse("12.5").unwrap()), None);
    assert_eq!(value(r.params(), "amount"), Some("12.5".to_string()));
    assert_eq!(value(r.params(), "amount_due"), None);
}

#[test]
fn transfer_amount_net_key() {
    let r = transfer(UserId::Account(1), RequestAmount::Net(Decimal::parse("12.5").unwrap()), None);
    assert_eq!(value(r.params(), "amount_due"), Some("12.5".to_string()));
    assert_eq!(value(r.params(), "amount"), None);
}

#[test]
fn transfer_form_round_trip() {
    let r = transfer(
        UserId::Email("a@b.ru".to_string()),
        RequestAmount::Total(Decimal::parse("3").unwrap()),
        Some("y".to_string()),
    );
    let call = r.call();
    assert_eq!(call.endpoint, "api/request-payment");
    assert_eq!(
        keys(&call.params),
        vec![
            "amount", "codepro", "comment", "expire_period", "hold_for_pickup", "label", "message",
            "pattern_id", "to",
        ]
    );
    assert_eq!(value(&call.params, "pattern_id"), Some("p2p".to_string()));
    assert_eq!(value(&call.params, "comment"), Some("x".to_string()));
    assert_eq!(value(&call.params, "label"), Some("y".to_string()));
    assert_eq!(value(&call.params, "message"), Some("m".to_string()));
    assert_eq!(value(&call.params, "codepro"), Some("false".to_string()));
    assert_eq!(value(&call.params, "hold_for_pickup"), Some("true".to_string()));
    assert_eq!(value(&call.params, "expire_period"), Some("7".to_string()));
}

#[test]
fn transfer_without_label_has_no_label() {
    let r = transfer(UserId::Account(5), RequestAmount::Net(Decimal::parse("1").unwrap()), None);
    assert_eq!(r.params().len(), 8);
    assert_eq!(value(r.params(), "label"), None);
}

#[test]
fn test_payment_request_marks_dry_run() {
    let r = transfer(UserId::Account(5), RequestAmount::Net(Decimal::parse("1").unwrap()), None);
    let call = TestPaymentRequest::from(r).call();
    assert_eq!(call.endpoint, "api/request-payment");
    assert_eq!(value(&call.params, "test_payment"), Some("true".to_string()));
    assert_eq!(call.params.len(), 9);
}

#[test]
fn shop_payment_merges_parameters() {
    let client = Client::new(None);
    let r = client.request_shop_payment(
        "shop1".to_string(),
        vec![("sum".to_string(), "5".to_string()), ("pattern_id".to_string(), "shop2".to_string())],
    );
    assert_eq!(r.params().len(), 2);
    assert_eq!(value(r.params(), "pattern_id"), Some("shop2".to_string()));
    assert_eq!(value(r.params(), "sum"), Some("5".to_string()));
}

#[test]
fn mobile_payment_parameters() {
    let client = Client::new(None);
    let r = client.request_mobile_payment(Phone::parse("+79001234567").unwrap(), Decimal::parse("100").unwrap());
    assert_eq!(r.params().len(), 3);
    assert_eq!(value(r.params(), "pattern_id"), Some("phone-topup".to_string()));
    assert_eq!(value(r.params(), "phone-number"), Some("+79001234567".to_string()));
    assert_eq!(value(r.params(), "amount"), Some("100".to_string()));
}

#[test]
fn process_payment_wallet() {
    let client = Client::new(None);
    let call = client.process_payment("r1".to_string(), ProcessPaymentMoneySource::Wallet);
    assert_eq!(call.endpoint, "api/process-payment");
    assert_eq!(call.params.len(), 2);
    assert_eq!(value(&call.params, "money_source"), Some("wallet".to_string()));
    assert_eq!(value(&call.params, "request_id"), Some("r1".to_string()));
}

#[test]
fn process_payment_card_with_secure3d() {
    let client = Client::new(None);
    let source = ProcessPaymentMoneySource::Card {
        id: "card-7".to_string(),
        secure3d: Some(Secure3D {
            ext_auth_success_uri: "https://ok".to_string(),
            ext_auth_fail_uri: "https://fail".to_string(),
        }),
    };
    let call = client.process_payment("r2".to_string(), source);
    assert_eq!(call.params.len(), 4);
    assert_eq!(value(&call.params, "money_source"), Some("card-7".to_string()));
    assert_eq!(value(&call.params, "ext_auth_success_uri"), Some("https://ok".to_string()));
    assert_eq!(value(&call.params, "ext_auth_fail_uri"), Some("https://fail".to_string()));
}

#[test]
fn simple_endpoints() {
    let client = Client::new(Some("tok".to_string()));
    assert_eq!(client.bearer_token(), Some(&"tok".to_string()));
    assert_eq!(client.endpoint_url("api/revoke"), "https://money.yandex.ru/api/revoke");
    let info = client.account_info();
    assert_eq!(info.endpoint, "api/account-info");
    assert_eq!(info.params.len(), 0);
    let revoke = client.revoke_token();
    assert_eq!(revoke.endpoint, "api/revoke");
    assert_eq!(revoke.params.len(), 0);
    let details = client.operation_details("op1".to_string());
    assert_eq!(details.endpoint, "api/operation-details");
    assert_eq!(value(&details.params, "operation_id"), Some("op1".to_string()));
}
