//! What each operation endpoint computes before anything touches the bus:
//! validating the client's fields and building the outbound envelope, with
//! the correlation id minted together with the request so the matcher can
//! close over it.

use vstd::prelude::*;
use vstd::string::StringSliceAdditionalSpecFns;
use crate::caller::Envelope;
use crate::messages::{
    mint_correlation_id, Amount, Api, AvailableCurrenciesRequest, Currency, GetBalances,
    GetNodeInfoRequest, InvoiceRequest, Message, PaymentRequest, QueryRouteRequest, QuoteRequest,
    ResponseKind, SwapRequest,
};
use crate::registry::Matcher;

verus! {

/// Why client input was refused before any message went out.
#[derive(Clone, Copy, Debug, PartialEq, Eq, Structural)]
pub enum RequestError {
    /// A field fails its bounds: a non-positive amount, or an oversize
    /// free-text field.
    InvalidDataSupplied,
    /// A payment names neither an invoice nor a recipient, so there is
    /// nowhere to send it.
    MissingPaymentDestination,
}

/// The length of a string in bytes, as the wire and the limits below
/// count it.
pub open spec fn byte_len(s: Seq<char>) -> usize {
    vstd::utf8::encode_utf8(s).len() as usize
}

/// An upper bound on a recipient name or an invoice memo.
pub const MAX_NAME_LENGTH: usize = 128;

/// An upper bound on an encoded payment request.
pub const MAX_PAYMENT_REQUEST_LENGTH: usize = 1024;

/// The payment endpoint's client fields.
#[derive(Debug, PartialEq)]
pub struct PayInvoiceData {
    pub payment_request: Option<String>,
    pub currency: Option<Currency>,
    pub recipient: Option<String>,
    pub amount: Option<Amount>,
}

/// The invoice-creation endpoint's client fields.
#[derive(Debug, PartialEq)]
pub struct CreateInvoiceParams {
    pub amount: Amount,
    pub meta: Option<String>,
    pub account_id: Option<u128>,
    pub currency: Option<Currency>,
    pub target_account_currency: Option<Currency>,
}

/// The swap endpoint's client fields.
#[derive(Debug, PartialEq)]
pub struct SwapData {
    pub from_currency: Currency,
    pub to_currency: Currency,
    pub amount: Amount,
    pub quote_id: Option<u128>,
}

/// The quote endpoint's client fields.
#[derive(Debug, PartialEq)]
pub struct QuoteParams {
    pub from_currency: Currency,
    pub to_currency: Currency,
    pub amount: Amount,
}

/// The route-probing endpoint's client fields.
#[derive(Debug, PartialEq)]
pub struct QueryRouteParams {
    pub payment_request: String,
    pub max_fee: Option<Amount>,
}

/// The currency a request falls back to when the client names none.
pub open spec fn currency_or_default(c: Option<Currency>) -> Currency {
    match c {
        Some(c) => c,
        None => Currency::BTC,
    }
}

/// Builds the balance query for one account holder, awaiting the balances
/// response that echoes the freshly minted correlation id.
pub fn prepare_balance_request(uid: u64) -> (env: Envelope)
    ensures
        env.message matches Message::Api(Api::GetBalances(g)) && g.uid == uid,
        env.matcher == Some(
            Matcher::ResponseWithId {
                kind: ResponseKind::Balances,
                req_id: env.message.spec_req_id(),
            },
        ),
{
    let req_id = mint_correlation_id();
    Envelope {
        message: Message::Api(Api::GetBalances(GetBalances { req_id, uid })),
        matcher: Some(Matcher::ResponseWithId { kind: ResponseKind::Balances, req_id }),
    }
}

/// The payment fields that fail their bounds outright.
pub open spec fn pay_invoice_rejected(d: PayInvoiceData) -> bool {
    ||| d.amount matches Some(a) && !a.spec_is_positive()
    ||| d.recipient matches Some(r) && byte_len(r@) > MAX_NAME_LENGTH
    ||| d.payment_request matches Some(p) && byte_len(p@) > MAX_PAYMENT_REQUEST_LENGTH
}

/// A payment with no invoice and no recipient has nowhere to go.
pub open spec fn pay_invoice_missing_destination(d: PayInvoiceData) -> bool {
    d.payment_request is None && d.recipient is None
}

/// Validates a payment and builds its request envelope. Field bounds are
/// checked first; a payment that names neither destination is refused
/// next; otherwise the request carries the client's fields unchanged, the
/// named currency or the default, and a fresh correlation id that the
/// payment-response matcher closes over.
pub fn prepare_pay_invoice(uid: u64, data: PayInvoiceData) -> (r: Result<Envelope, RequestError>)
    ensures
        pay_invoice_rejected(data) ==> r == Err::<Envelope, RequestError>(
            RequestError::InvalidDataSupplied,
        ),
        !pay_invoice_rejected(data) && pay_invoice_missing_destination(data) ==> r == Err::<
            Envelope,
            RequestError,
        >(RequestError::MissingPaymentDestination),
        !pay_invoice_rejected(data) && !pay_invoice_missing_destination(data) ==> (r
            matches Ok(env) && env.message matches Message::Api(Api::PaymentRequest(p)) && p.uid
            == uid && p.currency == currency_or_default(data.currency) && p.payment_request
            == data.payment_request && p.amount == data.amount && p.recipient == data.recipient
            && p.rate is None && p.fees is None && env.matcher == Some(
            Matcher::ResponseWithId { kind: ResponseKind::Payment, req_id: p.req_id },
        )),
{
    if let Some(amount) = data.amount {
        if !amount.is_positive() {
            return Err(RequestError::InvalidDataSupplied);
        }
    }
    if let Some(recipient) = &data.recipient {
        if recipient.as_str().len() > MAX_NAME_LENGTH {
            return Err(RequestError::InvalidDataSupplied);
        }
    }
    if let Some(payment_request) = &data.payment_request {
        if payment_request.as_str().len() > MAX_PAYMENT_REQUEST_LENGTH {
            return Err(RequestError::InvalidDataSupplied);
        }
    }
    if data.payment_request.is_none() && data.recipient.is_none() {
        return Err(RequestError::MissingPaymentDestination);
    }
    let currency = match data.currency {
        Some(c) => c,
        None => Currency::BTC,
    };
    let req_id = mint_correlation_id();
    let payment = PaymentRequest {
        req_id,
        uid,
        currency,
        payment_request: data.payment_request,
        rate: None,
        amount: data.amount,
        recipient: data.recipient,
        fees: None,
    };
    Ok(
        Envelope {
            message: Message::Api(Api::PaymentRequest(payment)),
            matcher: Some(Matcher::ResponseWithId { kind: ResponseKind::Payment, req_id }),
        },
    )
}

/// The memo an invoice carries: the client's, or the house default.
pub open spec fn invoice_meta(params: CreateInvoiceParams) -> Seq<char> {
    match params.meta {
        Some(m) => m@,
        None => "Lndhubx Invoice"@,
    }
}

/// The invoice fields that fail their bounds.
pub open spec fn add_invoice_rejected(params: CreateInvoiceParams) -> bool {
    !params.amount.spec_is_positive() || byte_len(invoice_meta(params)) > MAX_NAME_LENGTH
}

/// Validates an invoice creation and builds its request envelope: the
/// amount must be strictly positive and the memo (after the default is
/// filled in) within bounds; the rest of the client's fields ride along
/// unchanged, with a fresh correlation id the invoice-response matcher
/// closes over.
pub fn prepare_add_invoice(uid: u64, params: CreateInvoiceParams) -> (r: Result<
    Envelope,
    RequestError,
>)
    ensures
        add_invoice_rejected(params) ==> r == Err::<Envelope, RequestError>(
            RequestError::InvalidDataSupplied,
        ),
        !add_invoice_rejected(params) ==> (r matches Ok(env) && env.message matches Message::Api(
            Api::InvoiceRequest(inv),
        ) && inv.uid == uid && inv.meta@ == invoice_meta(params) && inv.currency
            == currency_or_default(params.currency) && inv.account_id == params.account_id
            && inv.amount == params.amount && inv.target_account_currency
            == params.target_account_currency && env.matcher == Some(
            Matcher::ResponseWithId { kind: ResponseKind::Invoice, req_id: inv.req_id },
        )),
{
    if !params.amount.is_positive() {
        return Err(RequestError::InvalidDataSupplied);
    }
    let meta = match params.meta {
        Some(m) => m,
        None => "Lndhubx Invoice".to_owned(),
    };
    if meta.as_str().len() > MAX_NAME_LENGTH {
        return Err(RequestError::InvalidDataSupplied);
    }
    let currency = match params.currency {
        Some(c) => c,
        None => Currency::BTC,
    };
    let req_id = mint_correlation_id();
    let invoice = InvoiceRequest {
        req_id,
        uid,
        meta,
        currency,
        account_id: params.account_id,
        amount: params.amount,
        target_account_currency: params.target_account_currency,
    };
    Ok(
        Envelope {
            message: Message::Api(Api::InvoiceRequest(invoice)),
            matcher: Some(Matcher::ResponseWithId { kind: ResponseKind::Invoice, req_id }),
        },
    )
}

/// Validates a swap and builds its request envelope: only a strictly
/// positive amount may move.
pub fn prepare_swap(uid: u64, data: SwapData) -> (r: Result<Envelope, RequestError>)
    ensures
        !data.amount.spec_is_positive() ==> r == Err::<Envelope, RequestError>(
            RequestError::InvalidDataSupplied,
        ),
        data.amount.spec_is_positive() ==> (r matches Ok(env) && env.message matches Message::Api(
            Api::SwapRequest(s),
        ) && s.uid == uid && s.from == data.from_currency && s.to == data.to_currency && s.amount
            == data.amount && s.quote_id == data.quote_id && env.matcher == Some(
            Matcher::ResponseWithId { kind: ResponseKind::Swap, req_id: s.req_id },
        )),
{
    if !data.amount.is_positive() {
        return Err(RequestError::InvalidDataSupplied);
    }
    let req_id = mint_correlation_id();
    let swap = SwapRequest {
        req_id,
        uid,
        from: data.from_currency,
        to: data.to_currency,
        amount: data.amount,
        quote_id: data.quote_id,
    };
    Ok(
        Envelope {
            message: Message::Api(Api::SwapRequest(swap)),
            matcher: Some(Matcher::ResponseWithId { kind: ResponseKind::Swap, req_id }),
        },
    )
}

/// Validates a quote and builds its request envelope: only a strictly
/// positive amount may be priced.
pub fn prepare_quote(uid: u64, params: QuoteParams) -> (r: Result<Envelope, RequestError>)
    ensures
        !params.amount.spec_is_positive() ==> r == Err::<Envelope, RequestError>(
            RequestError::InvalidDataSupplied,
        ),
        params.amount.spec_is_positive() ==> (r matches Ok(env) && env.message matches Message::Api(
            Api::QuoteRequest(q),
        ) && q.uid == uid && q.from == params.from_currency && q.to == params.to_currency
            && q.amount == params.amount && env.matcher == Some(
            Matcher::ResponseWithId { kind: ResponseKind::Quote, req_id: q.req_id },
        )),
{
    if !params.amount.is_positive() {
        return Err(RequestError::InvalidDataSupplied);
    }
    let req_id = mint_correlation_id();
    let quote = QuoteRequest {
        req_id,
        uid,
        from: params.from_currency,
        to: params.to_currency,
        amount: params.amount,
    };
    Ok(
        Envelope {
            message: Message::Api(Api::QuoteRequest(quote)),
            matcher: Some(Matcher::ResponseWithId { kind: ResponseKind::Quote, req_id }),
        },
    )
}

/// Builds the query for the currencies the backend currently serves.
pub fn prepare_available_currencies() -> (env: Envelope)
    ensures
        env.message matches Message::Api(Api::AvailableCurrenciesRequest(_)),
        env.matcher == Some(
            Matcher::ResponseWithId {
                kind: ResponseKind::AvailableCurrencies,
                req_id: env.message.spec_req_id(),
            },
        ),
{
    let req_id = mint_correlation_id();
    Envelope {
        message: Message::Api(
            Api::AvailableCurrenciesRequest(AvailableCurrenciesRequest { req_id }),
        ),
        matcher: Some(
            Matcher::ResponseWithId { kind: ResponseKind::AvailableCurrencies, req_id },
        ),
    }
}

/// Builds the query for the node's own information.
pub fn prepare_node_info() -> (env: Envelope)
    ensures
        env.message matches Message::Api(Api::GetNodeInfoRequest(_)),
        env.matcher == Some(
            Matcher::ResponseWithId {
                kind: ResponseKind::NodeInfo,
                req_id: env.message.spec_req_id(),
            },
        ),
{
    let req_id = mint_correlation_id();
    Envelope {
        message: Message::Api(Api::GetNodeInfoRequest(GetNodeInfoRequest { req_id })),
        matcher: Some(Matcher::ResponseWithId { kind: ResponseKind::NodeInfo, req_id }),
    }
}

/// Builds the route probe for a payment request, carrying the client's
/// fields unchanged.
pub fn prepare_query_route(params: QueryRouteParams) -> (env: Envelope)
    ensures
        env.message matches Message::Api(Api::QueryRouteRequest(q)) && q.payment_request@
            == params.payment_request@ && q.max_fee == params.max_fee,
        env.matcher == Some(
            Matcher::ResponseWithId {
                kind: ResponseKind::QueryRoute,
                req_id: env.message.spec_req_id(),
            },
        ),
{
    let req_id = mint_correlation_id();
    let query = QueryRouteRequest {
        req_id,
        payment_request: params.payment_request,
        max_fee: params.max_fee,
    };
    Envelope {
        message: Message::Api(Api::QueryRouteRequest(query)),
        matcher: Some(Matcher::ResponseWithId { kind: ResponseKind::QueryRoute, req_id }),
    }
}

} // verus!
