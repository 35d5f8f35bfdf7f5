//! The closed set of messages that travel over the internal bus: request
//! kinds and their response kinds, every one carrying the correlation
//! identifier of the request it belongs to.

use vstd::prelude::*;

verus! {

/// Opaque token linking a request to the reply that answers it.
/// Minted once per outbound request; carries no ordering meaning.
pub type CorrelationId = u128;

/// The currencies the backend services deal in.
#[derive(Clone, Copy, Debug, PartialEq, Eq, Structural)]
pub enum Currency {
    BTC,
    USD,
    EUR,
}

/// A fixed-point decimal amount, read as `mantissa * 10^(-scale)`.
#[derive(Clone, Copy, Debug, PartialEq, Eq, Structural)]
pub struct Amount {
    pub mantissa: i128,
    pub scale: u32,
}

impl Amount {
    /// An amount is strictly positive exactly when its mantissa is.
    pub open spec fn spec_is_positive(self) -> bool {
        self.mantissa > 0
    }

    pub fn is_positive(&self) -> (r: bool)
        ensures
            r == self.spec_is_positive(),
    {
        self.mantissa > 0
    }
}

#[derive(Debug, PartialEq)]
pub struct GetBalances {
    pub req_id: CorrelationId,
    pub uid: u64,
}

#[derive(Debug, PartialEq)]
pub struct AccountBalance {
    pub currency: Currency,
    pub amount: Amount,
}

#[derive(Debug, PartialEq)]
pub struct Balances {
    pub req_id: CorrelationId,
    pub uid: u64,
    pub balances: Vec<AccountBalance>,
}

#[derive(Debug, PartialEq)]
pub struct PaymentRequest {
    pub req_id: CorrelationId,
    pub uid: u64,
    pub currency: Currency,
    pub payment_request: Option<String>,
    pub rate: Option<Amount>,
    pub amount: Option<Amount>,
    pub recipient: Option<String>,
    pub fees: Option<Amount>,
}

#[derive(Debug, PartialEq)]
pub struct PaymentResponse {
    pub req_id: CorrelationId,
    pub uid: u64,
    pub success: bool,
    pub error: Option<String>,
}

#[derive(Debug, PartialEq)]
pub struct InvoiceRequest {
    pub req_id: CorrelationId,
    pub uid: u64,
    pub meta: String,
    pub currency: Currency,
    pub account_id: Option<u128>,
    pub amount: Amount,
    pub target_account_currency: Option<Currency>,
}

#[derive(Debug, PartialEq)]
pub struct InvoiceResponse {
    pub req_id: CorrelationId,
    pub uid: u64,
    pub payment_request: String,
    pub currency: Currency,
    pub amount: Amount,
}

#[derive(Debug, PartialEq)]
pub struct SwapRequest {
    pub req_id: CorrelationId,
    pub uid: u64,
    pub from: Currency,
    pub to: Currency,
    pub amount: Amount,
    pub quote_id: Option<u128>,
}

#[derive(Debug, PartialEq)]
pub struct SwapResponse {
    pub req_id: CorrelationId,
    pub uid: u64,
    pub success: bool,
}

#[derive(Debug, PartialEq)]
pub struct QuoteRequest {
    pub req_id: CorrelationId,
    pub uid: u64,
    pub from: Currency,
    pub to: Currency,
    pub amount: Amount,
}

#[derive(Debug, PartialEq)]
pub struct QuoteResponse {
    pub req_id: CorrelationId,
    pub uid: u64,
    pub rate: Option<Amount>,
}

#[derive(Debug, PartialEq)]
pub struct AvailableCurrenciesRequest {
    pub req_id: CorrelationId,
}

#[derive(Debug, PartialEq)]
pub struct AvailableCurrenciesResponse {
    pub req_id: CorrelationId,
    pub currencies: Vec<Currency>,
}

#[derive(Debug, PartialEq)]
pub struct GetNodeInfoRequest {
    pub req_id: CorrelationId,
}

#[derive(Debug, PartialEq)]
pub struct GetNodeInfoResponse {
    pub req_id: CorrelationId,
    pub identity_pubkey: String,
}

#[derive(Debug, PartialEq)]
pub struct QueryRouteRequest {
    pub req_id: CorrelationId,
    pub payment_request: String,
    pub max_fee: Option<Amount>,
}

#[derive(Debug, PartialEq)]
pub struct QueryRouteResponse {
    pub req_id: CorrelationId,
    pub total_fee: Option<Amount>,
}

/// The operation messages the bus carries, requests and responses alike.
#[derive(Debug, PartialEq)]
pub enum Api {
    GetBalances(GetBalances),
    Balances(Balances),
    PaymentRequest(PaymentRequest),
    PaymentResponse(PaymentResponse),
    InvoiceRequest(InvoiceRequest),
    InvoiceResponse(InvoiceResponse),
    SwapRequest(SwapRequest),
    SwapResponse(SwapResponse),
    QuoteRequest(QuoteRequest),
    QuoteResponse(QuoteResponse),
    AvailableCurrenciesRequest(AvailableCurrenciesRequest),
    AvailableCurrenciesResponse(AvailableCurrenciesResponse),
    GetNodeInfoRequest(GetNodeInfoRequest),
    GetNodeInfoResponse(GetNodeInfoResponse),
    QueryRouteRequest(QueryRouteRequest),
    QueryRouteResponse(QueryRouteResponse),
}

/// A unit of transmission on the bus. Every message the core handles is an
/// already-typed `Api` value.
#[derive(Debug, PartialEq)]
pub enum Message {
    Api(Api),
}

/// The kinds of response a pending caller can wait for.
#[derive(Clone, Copy, Debug, PartialEq, Eq, Structural)]
pub enum ResponseKind {
    Balances,
    Payment,
    Invoice,
    Swap,
    Quote,
    AvailableCurrencies,
    NodeInfo,
    QueryRoute,
}

impl Api {
    /// The correlation identifier the message carries.
    pub open spec fn spec_req_id(self) -> CorrelationId {
        match self {
            Api::GetBalances(m) => m.req_id,
            Api::Balances(m) => m.req_id,
            Api::PaymentRequest(m) => m.req_id,
            Api::PaymentResponse(m) => m.req_id,
            Api::InvoiceRequest(m) => m.req_id,
            Api::InvoiceResponse(m) => m.req_id,
            Api::SwapRequest(m) => m.req_id,
            Api::SwapResponse(m) => m.req_id,
            Api::QuoteRequest(m) => m.req_id,
            Api::QuoteResponse(m) => m.req_id,
            Api::AvailableCurrenciesRequest(m) => m.req_id,
            Api::AvailableCurrenciesResponse(m) => m.req_id,
            Api::GetNodeInfoRequest(m) => m.req_id,
            Api::GetNodeInfoResponse(m) => m.req_id,
            Api::QueryRouteRequest(m) => m.req_id,
            Api::QueryRouteResponse(m) => m.req_id,
        }
    }

    /// `Some(kind)` when the message is a response of that kind, `None` when
    /// it is a request.
    pub open spec fn spec_response_kind(self) -> Option<ResponseKind> {
        match self {
            Api::Balances(_) => Some(ResponseKind::Balances),
            Api::PaymentResponse(_) => Some(ResponseKind::Payment),
            Api::InvoiceResponse(_) => Some(ResponseKind::Invoice),
            Api::SwapResponse(_) => Some(ResponseKind::Swap),
            Api::QuoteResponse(_) => Some(ResponseKind::Quote),
            Api::AvailableCurrenciesResponse(_) => Some(ResponseKind::AvailableCurrencies),
            Api::GetNodeInfoResponse(_) => Some(ResponseKind::NodeInfo),
            Api::QueryRouteResponse(_) => Some(ResponseKind::QueryRoute),
            _ => None,
        }
    }
}

impl Message {
    /// The correlation identifier the message carries.
    pub open spec fn spec_req_id(self) -> CorrelationId {
        match self {
            Message::Api(api) => api.spec_req_id(),
        }
    }

    /// `Some(kind)` when the message is a response of that kind.
    pub open spec fn spec_response_kind(self) -> Option<ResponseKind> {
        match self {
            Message::Api(api) => api.spec_response_kind(),
        }
    }

    pub fn req_id(&self) -> (r: CorrelationId)
        ensures
            r == self.spec_req_id(),
    {
        match self {
            Message::Api(api) => match api {
                Api::GetBalances(m) => m.req_id,
                Api::Balances(m) => m.req_id,
                Api::PaymentRequest(m) => m.req_id,
                Api::PaymentResponse(m) => m.req_id,
                Api::InvoiceRequest(m) => m.req_id,
                Api::InvoiceResponse(m) => m.req_id,
                Api::SwapRequest(m) => m.req_id,
                Api::SwapResponse(m) => m.req_id,
                Api::QuoteRequest(m) => m.req_id,
                Api::QuoteResponse(m) => m.req_id,
                Api::AvailableCurrenciesRequest(m) => m.req_id,
                Api::AvailableCurrenciesResponse(m) => m.req_id,
                Api::GetNodeInfoRequest(m) => m.req_id,
                Api::GetNodeInfoResponse(m) => m.req_id,
                Api::QueryRouteRequest(m) => m.req_id,
                Api::QueryRouteResponse(m) => m.req_id,
            },
        }
    }

    pub fn response_kind(&self) -> (r: Option<ResponseKind>)
        ensures
            r == self.spec_response_kind(),
    {
        match self {
            Message::Api(api) => match api {
                Api::Balances(_) => Some(ResponseKind::Balances),
                Api::PaymentResponse(_) => Some(ResponseKind::Payment),
                Api::InvoiceResponse(_) => Some(ResponseKind::Invoice),
                Api::SwapResponse(_) => Some(ResponseKind::Swap),
                Api::QuoteResponse(_) => Some(ResponseKind::Quote),
                Api::AvailableCurrenciesResponse(_) => Some(ResponseKind::AvailableCurrencies),
                Api::GetNodeInfoResponse(_) => Some(ResponseKind::NodeInfo),
                Api::QueryRouteResponse(_) => Some(ResponseKind::QueryRoute),
                _ => None,
            },
        }
    }

    /// Checks that the message is the awaited kind of response and hands its
    /// payload out; any other message is refused.
    pub fn expect_response(self, kind: ResponseKind) -> (r: Option<Api>)
        ensures
            r is Some <==> self.spec_response_kind() == Some(kind),
            r matches Some(api) ==> self == Message::Api(api)
                && api.spec_response_kind() == Some(kind),
    {
        let found = self.response_kind();
        match self {
            Message::Api(api) => match found {
                Some(k) => if k == kind {
                    Some(api)
                } else {
                    None
                },
                None => None,
            },
        }
    }
}

/// Relies on `uuid::Uuid::new_v4` (a freshly drawn random identifier) and
/// `Uuid::as_u128` (its value as one 128-bit integer). Nothing is assumed
/// about which value comes back.
#[verifier::external_body]
pub(crate) fn mint_correlation_id() -> CorrelationId {
    uuid::Uuid::new_v4().as_u128()
}

} // verus!
