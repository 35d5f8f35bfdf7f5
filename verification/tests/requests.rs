use corrbus::caller::Envelope;
use corrbus::messages::{Amount, Api, Balances, Currency, Message, ResponseKind};
use corrbus::registry::Matcher;
use corrbus::requests::{
    prepare_add_invoice, prepare_available_currencies, prepare_balance_request,
    prepare_node_info, prepare_pay_invoice, prepare_query_route, prepare_quote, prepare_swap,
    CreateInvoiceParams, PayInvoiceData, QueryRouteParams, QuoteParams, RequestError, SwapData,
};

fn amount(mantissa: i128) -> Amount {
    Amount { mantissa, scale: 2 }
}

fn expect_id_matcher(env: &Envelope, kind: ResponseKind) {
    let req_id = env.message.req_id();
    assert_eq!(
        env.matcher,
        Some(Matcher::ResponseWithId { kind, req_id }),
        "the matcher must close over the request's own correlation id"
    );
}

#[test]
fn balance_request_correlates_matcher_and_message() {
    let env = prepare_balance_request(17);
    match &env.message {
        Message::Api(Api::GetBalances(g)) => assert_eq!(g.uid, 17),
        other => panic!("unexpected message {:?}", other),
    }
    expect_id_matcher(&env, ResponseKind::Balances);
}

#[test]
fn distinct_requests_mint_distinct_ids() {
    let a = prepare_balance_request(1);
    let b = prepare_balance_request(1);
    assert_ne!(a.message.req_id(), b.message.req_id());
}

fn valid_pay_data() -> PayInvoiceData {
    PayInvoiceData {
        payment_request: Some("lnbc1examplerequest".to_string()),
        currency: None,
        recipient: None,
        amount: Some(amount(2500)),
    }
}

#[test]
fn pay_invoice_builds_request_with_defaults() {
    let env = prepare_pay_invoice(3, valid_pay_data()).expect("valid data builds");
    match &env.message {
        Message::Api(Api::PaymentRequest(p)) => {
            assert_eq!(p.uid, 3);
            assert_eq!(p.currency, Currency::BTC);
            assert_eq!(p.payment_request.as_deref(), Some("lnbc1examplerequest"));
            assert_eq!(p.amount, Some(amount(2500)));
            assert_eq!(p.recipient, None);
            assert_eq!(p.rate, None);
            assert_eq!(p.fees, None);
        }
        other => panic!("unexpected message {:?}", other),
    }
    expect_id_matcher(&env, ResponseKind::Payment);
}

#[test]
fn pay_invoice_refuses_non_positive_amount() {
    let mut data = valid_pay_data();
    data.amount = Some(amount(0));
    assert_eq!(prepare_pay_invoice(3, data), Err(RequestError::InvalidDataSupplied));
    let mut data = valid_pay_data();
    data.amount = Some(amount(-1));
    assert_eq!(prepare_pay_invoice(3, data), Err(RequestError::InvalidDataSupplied));
}

#[test]
fn pay_invoice_refuses_oversize_recipient() {
    let mut data = valid_pay_data();
    data.recipient = Some("r".repeat(129));
    assert_eq!(prepare_pay_invoice(3, data), Err(RequestError::InvalidDataSupplied));
    let mut data = valid_pay_data();
    data.recipient = Some("r".repeat(128));
    assert!(prepare_pay_invoice(3, data).is_ok());
}

#[test]
fn pay_invoice_refuses_oversize_payment_request() {
    let mut data = valid_pay_data();
    data.payment_request = Some("p".repeat(1025));
    assert_eq!(prepare_pay_invoice(3, data), Err(RequestError::InvalidDataSupplied));
    let mut data = valid_pay_data();
    data.payment_request = Some("p".repeat(1024));
    assert!(prepare_pay_invoice(3, data).is_ok());
}

#[test]
fn pay_invoice_needs_some_destination() {
    let data = PayInvoiceData {
        payment_request: None,
        currency: None,
        recipient: None,
        amount: Some(amount(10)),
    };
    assert_eq!(prepare_pay_invoice(3, data), Err(RequestError::MissingPaymentDestination));
}

#[test]
fn pay_invoice_bad_amount_outranks_missing_destination() {
    let data = PayInvoiceData {
        payment_request: None,
        currency: None,
        recipient: None,
        amount: Some(amount(0)),
    };
    assert_eq!(prepare_pay_invoice(3, data), Err(RequestError::InvalidDataSupplied));
}

fn valid_invoice_params() -> CreateInvoiceParams {
    CreateInvoiceParams {
        amount: amount(100),
        meta: None,
        account_id: Some(55),
        currency: Some(Currency::EUR),
        target_account_currency: None,
    }
}

#[test]
fn add_invoice_fills_in_the_default_memo() {
    let env = prepare_add_invoice(4, valid_invoice_params()).expect("valid params build");
    match &env.message {
        Message::Api(Api::InvoiceRequest(inv)) => {
            assert_eq!(inv.uid, 4);
            assert_eq!(inv.meta, "Lndhubx Invoice");
            assert_eq!(inv.currency, Currency::EUR);
            assert_eq!(inv.account_id, Some(55));
            assert_eq!(inv.amount, amount(100));
            assert_eq!(inv.target_account_currency, None);
        }
        other => panic!("unexpected message {:?}", other),
    }
    expect_id_matcher(&env, ResponseKind::Invoice);
}

#[test]
fn add_invoice_refuses_non_positive_amount() {
    let mut params = valid_invoice_params();
    params.amount = amount(0);
    assert_eq!(prepare_add_invoice(4, params), Err(RequestError::InvalidDataSupplied));
}

#[test]
fn add_invoice_refuses_oversize_memo() {
    let mut params = valid_invoice_params();
    params.meta = Some("m".repeat(129));
    assert_eq!(prepare_add_invoice(4, params), Err(RequestError::InvalidDataSupplied));
    let mut params = valid_invoice_params();
    params.meta = Some("m".repeat(128));
    assert!(prepare_add_invoice(4, params).is_ok());
}

#[test]
fn add_invoice_defaults_to_btc() {
    let mut params = valid_invoice_params();
    params.currency = None;
    let env = prepare_add_invoice(4, params).unwrap();
    match &env.message {
        Message::Api(Api::InvoiceRequest(inv)) => assert_eq!(inv.currency, Currency::BTC),
        other => panic!("unexpected message {:?}", other),
    }
}

#[test]
fn swap_builds_request_and_refuses_non_positive_amount() {
    let data = SwapData {
        from_currency: Currency::BTC,
        to_currency: Currency::USD,
        amount: amount(7),
        quote_id: Some(99),
    };
    let env = prepare_swap(5, data).expect("valid data builds");
    match &env.message {
        Message::Api(Api::SwapRequest(s)) => {
            assert_eq!(s.uid, 5);
            assert_eq!(s.from, Currency::BTC);
            assert_eq!(s.to, Currency::USD);
            assert_eq!(s.amount, amount(7));
            assert_eq!(s.quote_id, Some(99));
        }
        other => panic!("unexpected message {:?}", other),
    }
    expect_id_matcher(&env, ResponseKind::Swap);

    let bad = SwapData {
        from_currency: Currency::BTC,
        to_currency: Currency::USD,
        amount: amount(-3),
        quote_id: None,
    };
    assert_eq!(prepare_swap(5, bad), Err(RequestError::InvalidDataSupplied));
}

#[test]
fn quote_builds_request_and_refuses_non_positive_amount() {
    let params = QuoteParams {
        from_currency: Currency::EUR,
        to_currency: Currency::BTC,
        amount: amount(12),
    };
    let env = prepare_quote(6, params).expect("valid params build");
    match &env.message {
        Message::Api(Api::QuoteRequest(q)) => {
            assert_eq!(q.uid, 6);
            assert_eq!(q.from, Currency::EUR);
            assert_eq!(q.to, Currency::BTC);
            assert_eq!(q.amount, amount(12));
        }
        other => panic!("unexpected message {:?}", other),
    }
    expect_id_matcher(&env, ResponseKind::Quote);

    let bad = QuoteParams {
        from_currency: Currency::EUR,
        to_currency: Currency::BTC,
        amount: amount(0),
    };
    assert_eq!(prepare_quote(6, bad), Err(RequestError::InvalidDataSupplied));
}

#[test]
fn available_currencies_request_correlates() {
    let env = prepare_available_currencies();
    assert!(matches!(env.message, Message::Api(Api::AvailableCurrenciesRequest(_))));
    expect_id_matcher(&env, ResponseKind::AvailableCurrencies);
}

#[test]
fn node_info_request_correlates() {
    let env = prepare_node_info();
    assert!(matches!(env.message, Message::Api(Api::GetNodeInfoRequest(_))));
    expect_id_matcher(&env, ResponseKind::NodeInfo);
}

#[test]
fn query_route_carries_fields_through() {
    let params = QueryRouteParams {
        payment_request: "lnbc1route".to_string(),
        max_fee: Some(amount(3)),
    };
    let env = prepare_query_route(params);
    match &env.message {
        Message::Api(Api::QueryRouteRequest(q)) => {
            assert_eq!(q.payment_request, "lnbc1route");
            assert_eq!(q.max_fee, Some(amount(3)));
        }
        other => panic!("unexpected message {:?}", other),
    }
    expect_id_matcher(&env, ResponseKind::QueryRoute);
}

#[test]
fn expect_response_checks_the_kind() {
    let msg = Message::Api(Api::Balances(Balances {
        req_id: 5,
        uid: 1,
        balances: Vec::new(),
    }));
    assert!(msg.expect_response(ResponseKind::Payment).is_none());
    let msg = Message::Api(Api::Balances(Balances {
        req_id: 5,
        uid: 1,
        balances: Vec::new(),
    }));
    match msg.expect_response(ResponseKind::Balances) {
        Some(Api::Balances(b)) => assert_eq!(b.req_id, 5),
        other => panic!("unexpected payload {:?}", other),
    }
}
