//! The platform-facing vocabulary that the adapter reads and produces:
//! generic requests per flow, credentials, metadata bags, HTTP descriptors and
//! normalised results.
use vstd::prelude::*;

verus! {

/// A field whose absence makes a request impossible to build.
#[derive(Debug, Clone, Copy, PartialEq, Eq, Structural)]
pub enum MissingField {
    Billing,
    BillingAddress,
    BillingAddressFirstName,
    BillingAddressLastName,
    ConnectorTransactionId,
    ConnectorRefundId,
}

/// The name under which the platform reports a missing field.
pub open spec fn missing_field_name(f: MissingField) -> Seq<char> {
    match f {
        MissingField::Billing => "billing"@,
        MissingField::BillingAddress => "billing.address"@,
        MissingField::BillingAddressFirstName => "billing.address.first_name"@,
        MissingField::BillingAddressLastName => "billing.address.last_name"@,
        MissingField::ConnectorTransactionId => "connector_transaction_id"@,
        MissingField::ConnectorRefundId => "connector_refund_id"@,
    }
}

impl MissingField {
    /// The field's name as the platform reports it.
    pub fn as_str(&self) -> (r: &'static str)
        ensures
            r@ == missing_field_name(*self),
    {
        match self {
            MissingField::Billing => "billing",
            MissingField::BillingAddress => "billing.address",
            MissingField::BillingAddressFirstName => "billing.address.first_name",
            MissingField::BillingAddressLastName => "billing.address.last_name",
            MissingField::ConnectorTransactionId => "connector_transaction_id",
            MissingField::ConnectorRefundId => "connector_refund_id",
        }
    }
}

/// Errors that the adapter reports to the orchestration core.
#[derive(Debug, Clone, PartialEq, Eq)]
pub enum ConnectorError {
    RequestEncodingFailed,
    MissingRequiredField { field_name: MissingField },
    FailedToObtainAuthType,
    ResponseDeserializationFailed,
    ResponseHandlingFailed,
    NotImplemented(String),
    WebhooksNotImplemented,
}

/// The platform's normalised outcome of one payment attempt.
#[derive(Debug, Clone, Copy, PartialEq, Eq, Structural)]
pub enum AttemptStatus {
    Started,
    AuthenticationFailed,
    AuthenticationPending,
    AuthenticationSuccessful,
    Authorized,
    AuthorizationFailed,
    Charged,
    Authorizing,
    CodInitiated,
    Voided,
    VoidInitiated,
    CaptureInitiated,
    CaptureFailed,
    VoidFailed,
    AutoRefunded,
    PartialCharged,
    Unresolved,
    Pending,
    Failure,
    PaymentMethodAwaited,
    ConfirmationAwaited,
}

/// The platform's normalised outcome of one refund.
#[derive(Debug, Clone, Copy, PartialEq, Eq, Structural)]
pub enum RefundStatus {
    Failure,
    ManualReview,
    Pending,
    Success,
    TransactionFailure,
}

/// Whether an authorised payment is settled at once or captured later.
#[derive(Debug, Clone, Copy, PartialEq, Eq, Structural)]
pub enum CaptureMethod {
    Automatic,
    Manual,
    ManualMultiple,
    Scheduled,
}

/// Card details; all of them are sensitive.
#[derive(Debug, Clone, PartialEq, Eq)]
pub struct Card {
    pub card_number: String,
    pub card_exp_month: String,
    pub card_exp_year: String,
    pub card_holder_name: String,
    pub card_cvc: String,
}

/// How the customer pays. Only cards are supported by this gateway.
#[derive(Debug, Clone, PartialEq, Eq)]
pub enum PaymentMethod {
    Card(Card),
    BankTransfer,
    PayLater,
    Wallet,
}

/// The name part of a billing address.
#[derive(Debug, Clone, PartialEq, Eq)]
pub struct AddressDetails {
    pub first_name: Option<String>,
    pub last_name: Option<String>,
}

#[derive(Debug, Clone, PartialEq, Eq)]
pub struct Address {
    pub address: Option<AddressDetails>,
}

/// A credential configured for the merchant's account.
#[derive(Debug, Clone, PartialEq, Eq)]
pub enum ConnectorAuthType {
    HeaderKey { api_key: String },
    BodyKey { api_key: String, key1: String },
    SignatureKey { api_key: String, key1: String, api_secret: String },
}

/// An opaque bag of string members carried through the generic envelope
/// (account coordinates, or correlation data from an earlier response).
#[derive(Debug, Clone, PartialEq, Eq)]
pub struct MetadataBag {
    pub entries: Vec<(String, String)>,
}

impl View for MetadataBag {
    type V = Seq<(Seq<char>, Seq<char>)>;

    open spec fn view(&self) -> Seq<(Seq<char>, Seq<char>)> {
        self.entries@.map_values(|e: (String, String)| (e.0@, e.1@))
    }
}

/// The gateway's reference for a payment, when one is known.
#[derive(Debug, Clone, PartialEq, Eq)]
pub enum ResponseId {
    ConnectorTransactionId(String),
    EncodedData(String),
    NoResponseId,
}

#[derive(Debug, Clone, PartialEq, Eq)]
pub struct PaymentsAuthorizeData {
    pub amount: i64,
    pub capture_method: Option<CaptureMethod>,
    pub payment_method_data: PaymentMethod,
    pub billing: Option<Address>,
}

#[derive(Debug, Clone, PartialEq, Eq)]
pub struct PaymentsSyncData {
    pub connector_transaction_id: ResponseId,
}

#[derive(Debug, Clone, PartialEq, Eq)]
pub struct PaymentsCaptureData {
    pub amount_to_capture: Option<i64>,
    pub connector_transaction_id: String,
    pub connector_metadata: Option<MetadataBag>,
}

#[derive(Debug, Clone, PartialEq, Eq)]
pub struct PaymentsCancelData {
    pub connector_transaction_id: String,
    pub connector_metadata: Option<MetadataBag>,
}

#[derive(Debug, Clone, PartialEq, Eq)]
pub struct RefundsData {
    pub refund_amount: i64,
    pub connector_transaction_id: String,
    pub connector_refund_id: Option<String>,
    pub connector_metadata: Option<MetadataBag>,
}

/// A generic request, tagged by the operation it asks for.
#[derive(Debug, Clone, PartialEq, Eq)]
pub enum FlowRequest {
    Authorize(PaymentsAuthorizeData),
    PSync(PaymentsSyncData),
    Capture(PaymentsCaptureData),
    Void(PaymentsCancelData),
    RefundExecute(RefundsData),
    RefundSync(RefundsData),
}

/// A generic request together with the merchant's configuration.
#[derive(Debug, Clone, PartialEq, Eq)]
pub struct RouterData {
    pub request: FlowRequest,
    pub connector_meta_data: Option<MetadataBag>,
    pub connector_auth_type: ConnectorAuthType,
}

/// Where the gateway is reached.
#[derive(Debug, Clone, PartialEq, Eq)]
pub struct ConnectorParams {
    pub base_url: String,
}

#[derive(Debug, Clone, PartialEq, Eq)]
pub struct Connectors {
    pub forte: ConnectorParams,
}

#[derive(Debug, Clone, Copy, PartialEq, Eq, Structural)]
pub enum Method {
    Get,
    Post,
    Put,
    Delete,
}

/// A gateway response as the transport hands it over: its status code and
/// its body, or `None` where the body did not have the expected shape.
#[derive(Debug, Clone, PartialEq, Eq)]
pub struct Response<T> {
    pub status_code: u16,
    pub body: Option<T>,
}

/// A failed round trip as the platform reports it.
#[derive(Debug, Clone, PartialEq, Eq)]
pub struct ErrorResponse {
    pub status_code: u16,
    pub code: String,
    pub message: String,
    pub reason: Option<String>,
}

/// The normalised outcome of a payment operation.
#[derive(Debug, Clone, PartialEq, Eq)]
pub struct PaymentsResponseData {
    pub status: AttemptStatus,
    pub resource_id: String,
    pub connector_metadata: Option<MetadataBag>,
    pub amount_captured: Option<i64>,
}

/// The normalised outcome of a refund operation.
#[derive(Debug, Clone, PartialEq, Eq)]
pub struct RefundsResponseData {
    pub connector_refund_id: String,
    pub refund_status: RefundStatus,
}

/// What the core does after a redirect back from the gateway.
#[derive(Debug, Clone, Copy, PartialEq, Eq, Structural)]
pub enum CallConnectorAction {
    Trigger,
    Avoid,
    StatusUpdate(AttemptStatus),
    HandleResponse,
}

#[derive(Debug, Clone, Copy, PartialEq, Eq, Structural)]
pub enum IncomingWebhookEvent {
    PaymentIntentSuccess,
    EventNotSupported,
}

} // verus!
