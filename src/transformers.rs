//! The gateway's wire vocabulary: request bodies per flow, response bodies,
//! and the translation of its settlement codes into attempt statuses.
use vstd::prelude::*;

use vstd::string::StringExecFns;

use crate::metadata::{decode_transaction, encode_transaction, encoded_transaction, transaction_code_of};
use crate::types::{
    Address, AttemptStatus, Card, CaptureMethod, ConnectorAuthType, ConnectorError, MissingField,
    PaymentMethod, PaymentsAuthorizeData, PaymentsCancelData, PaymentsCaptureData,
    PaymentsResponseData, RefundStatus, RefundsData, RefundsResponseData,
};

verus! {

/// The gateway's three-valued settlement code: approved, declined, error.
#[derive(Debug, Clone, Copy, PartialEq, Eq, Structural)]
pub enum FortePaymentStatus {
    A,
    D,
    E,
}

/// The operator recorded on void requests.
pub const VOID_ENTERED_BY: &'static str = "aditya";

/// The body of an authorize or sale request.
#[derive(Debug, Clone, PartialEq, Eq)]
pub struct FortePaymentsRequest {
    pub action: String,
    pub authorization_amount: i64,
    pub billing_address: BillingAddress,
    pub card: CardDetails,
}

#[derive(Debug, Clone, PartialEq, Eq)]
pub struct BillingAddress {
    pub first_name: String,
    pub last_name: String,
}

#[derive(Debug, Clone, PartialEq, Eq)]
pub struct CardDetails {
    pub card_type: String,
    pub name_on_card: String,
    pub account_number: String,
    pub expire_month: String,
    pub expire_year: String,
    pub card_verification_value: String,
}

/// The API key that authenticates requests to the gateway.
#[derive(Debug, Clone, PartialEq, Eq)]
pub struct ForteAuthType {
    pub api_key: String,
}

/// The response body of a payment operation (and of an error).
#[derive(Debug, Clone, PartialEq, Eq)]
pub struct FortePaymentsResponse {
    pub transaction_id: String,
    pub response: ResponseDetails,
    pub authorization_code: Option<String>,
    /// The authorised amount in whole minor units.
    pub authorization_amount: Option<i64>,
    /// The operation that the gateway reports it performed.
    pub action: String,
}

#[derive(Debug, Clone, PartialEq, Eq)]
pub struct ResponseDetails {
    pub response_type: FortePaymentStatus,
    pub response_desc: String,
    pub response_code: String,
}

/// The authorization code that later operations on a transaction need.
#[derive(Debug, Clone, PartialEq, Eq)]
pub struct PaymentMetadata {
    pub authorization_code: String,
}

/// The body of a void request.
#[derive(Debug, Clone, PartialEq, Eq)]
pub struct ForteCancelRequest {
    pub action: String,
    pub authorization_code: String,
    pub entered_by: String,
}

/// The body of a capture request.
#[derive(Debug, Clone, PartialEq, Eq)]
pub struct ForteCaptureRequest {
    pub action: String,
    pub authorization_code: String,
    pub transaction_id: String,
    pub authorization_amount: i64,
}

/// The body of a refund request.
#[derive(Debug, Clone, PartialEq, Eq)]
pub struct ForteRefundRequest {
    pub action: String,
    pub authorization_amount: i64,
    pub original_transaction_id: String,
    pub authorization_code: String,
}

/// The response body of a refund operation.
#[derive(Debug, Clone, PartialEq, Eq)]
pub struct RefundResponse {
    pub transaction_id: String,
    pub response: ResponseDetails,
    pub authorization_code: String,
    pub action: String,
}

/// The gateway's error body, which carries no members of its own: errors come
/// in the shape of [`FortePaymentsResponse`].
#[derive(Debug, Clone, Copy, PartialEq, Eq, Structural)]
pub struct ForteErrorResponse {}

/// The operation that a response reports, as the translator tells them apart.
pub enum ActionKind {
    Sale,
    Authorize,
    Void,
    Capture,
    Other,
}

pub open spec fn action_kind(action: Seq<char>) -> ActionKind {
    if action == "sale"@ {
        ActionKind::Sale
    } else if action == "authorize"@ {
        ActionKind::Authorize
    } else if action == "void"@ {
        ActionKind::Void
    } else if action == "capture"@ {
        ActionKind::Capture
    } else {
        ActionKind::Other
    }
}

/// The status table: the same settlement code means different things
/// depending on the operation that produced it.
pub open spec fn translate(code: FortePaymentStatus, kind: ActionKind) -> AttemptStatus {
    match (code, kind) {
        (FortePaymentStatus::A, ActionKind::Authorize) => AttemptStatus::Authorized,
        (FortePaymentStatus::A, ActionKind::Void) => AttemptStatus::Voided,
        (FortePaymentStatus::A, _) => AttemptStatus::Charged,
        (FortePaymentStatus::D, ActionKind::Capture) => AttemptStatus::AuthorizationFailed,
        (FortePaymentStatus::D, _) => AttemptStatus::Failure,
        (FortePaymentStatus::E, ActionKind::Authorize) => AttemptStatus::AuthorizationFailed,
        (FortePaymentStatus::E, _) => AttemptStatus::Failure,
    }
}

/// Translates a settlement code, reading it in the light of the action that
/// the gateway reports.
pub fn convert_status(item: FortePaymentStatus, action: String) -> (r: AttemptStatus)
    ensures
        r == translate(item, action_kind(action@)),
{
    if action == String::from_str("sale") {
        match item {
            FortePaymentStatus::A => AttemptStatus::Charged,
            FortePaymentStatus::D => AttemptStatus::Failure,
            FortePaymentStatus::E => AttemptStatus::Failure,
        }
    } else if action == String::from_str("authorize") {
        match item {
            FortePaymentStatus::A => AttemptStatus::Authorized,
            FortePaymentStatus::D => AttemptStatus::Failure,
            FortePaymentStatus::E => AttemptStatus::AuthorizationFailed,
        }
    } else if action == String::from_str("void") {
        match item {
            FortePaymentStatus::A => AttemptStatus::Voided,
            FortePaymentStatus::D => AttemptStatus::Failure,
            FortePaymentStatus::E => AttemptStatus::Failure,
        }
    } else if action == String::from_str("capture") {
        match item {
            FortePaymentStatus::A => AttemptStatus::Charged,
            FortePaymentStatus::D => AttemptStatus::AuthorizationFailed,
            FortePaymentStatus::E => AttemptStatus::Failure,
        }
    } else {
        match item {
            FortePaymentStatus::A => AttemptStatus::Charged,
            FortePaymentStatus::D => AttemptStatus::Failure,
            FortePaymentStatus::E => AttemptStatus::Failure,
        }
    }
}

/// The status a settlement code has when no operation is known.
pub open spec fn plain_status(code: FortePaymentStatus) -> AttemptStatus {
    match code {
        FortePaymentStatus::A => AttemptStatus::Charged,
        _ => AttemptStatus::Failure,
    }
}

impl From<FortePaymentStatus> for AttemptStatus {
    fn from(item: FortePaymentStatus) -> (r: AttemptStatus) {
        match item {
            FortePaymentStatus::A => AttemptStatus::Charged,
            FortePaymentStatus::D => AttemptStatus::Failure,
            FortePaymentStatus::E => AttemptStatus::Failure,
        }
    }
}

impl vstd::std_specs::convert::FromSpecImpl<FortePaymentStatus> for AttemptStatus {
    open spec fn obeys_from_spec() -> bool {
        true
    }

    open spec fn from_spec(item: FortePaymentStatus) -> AttemptStatus {
        plain_status(item)
    }
}

/// The outcome of a refund for a settlement code.
pub open spec fn refund_status_of(code: FortePaymentStatus) -> RefundStatus {
    match code {
        FortePaymentStatus::A => RefundStatus::Success,
        _ => RefundStatus::Failure,
    }
}

/// The action an authorize request names: a sale settles at once, an
/// authorization waits for a capture.
pub open spec fn authorize_action(capture_method: Option<CaptureMethod>) -> Seq<char> {
    if capture_method == Some(CaptureMethod::Automatic) {
        "sale"@
    } else {
        "authorize"@
    }
}

/// The billing first and last name, or the first field found missing.
pub open spec fn billing_names(billing: Option<Address>) -> Result<(Seq<char>, Seq<char>), MissingField> {
    match billing {
        None => Err(MissingField::Billing),
        Some(a) => match a.address {
            None => Err(MissingField::BillingAddress),
            Some(d) => match (d.first_name, d.last_name) {
                (None, _) => Err(MissingField::BillingAddressFirstName),
                (Some(_), None) => Err(MissingField::BillingAddressLastName),
                (Some(f), Some(l)) => Ok((f@, l@)),
            },
        },
    }
}

/// `c` is the wire form of the card `card`.
pub open spec fn is_card_details_for(c: CardDetails, card: Card) -> bool {
    &&& c.card_type@ == "visa"@
    &&& c.name_on_card@ == card.card_holder_name@
    &&& c.account_number@ == card.card_number@
    &&& c.expire_month@ == card.card_exp_month@
    &&& c.expire_year@ == card.card_exp_year@
    &&& c.card_verification_value@ == card.card_cvc@
}

/// `b` is the body that an authorize request for `d` carries.
pub open spec fn is_payments_request_for(b: FortePaymentsRequest, d: PaymentsAuthorizeData) -> bool {
    &&& b.action@ == authorize_action(d.capture_method)
    &&& b.authorization_amount == d.amount
    &&& d.payment_method_data matches PaymentMethod::Card(card) && is_card_details_for(b.card, card)
    &&& billing_names(d.billing) matches Ok((first, last)) && b.billing_address.first_name@ == first
        && b.billing_address.last_name@ == last
}

impl FortePaymentsRequest {
    /// Builds the body of an authorize request. Only card payments are
    /// supported, and a billing first and last name are required.
    pub fn try_from(item: &PaymentsAuthorizeData) -> (r: Result<Self, ConnectorError>)
        ensures
            match item.payment_method_data {
                PaymentMethod::Card(_) => match billing_names(item.billing) {
                    Ok(_) => r matches Ok(b) && is_payments_request_for(b, *item),
                    Err(f) => r == Err::<Self, ConnectorError>(
                        ConnectorError::MissingRequiredField { field_name: f },
                    ),
                },
                _ => r matches Err(ConnectorError::NotImplemented(_)),
            },
    {
        let action = match item.capture_method {
            Some(CaptureMethod::Automatic) => "sale",
            _ => "authorize",
        };
        match &item.payment_method_data {
            PaymentMethod::Card(ccard) => {
                let address = match &item.billing {
                    Some(a) => a,
                    None => return Err(ConnectorError::MissingRequiredField { field_name: MissingField::Billing }),
                };
                let details = match &address.address {
                    Some(d) => d,
                    None => return Err(
                        ConnectorError::MissingRequiredField { field_name: MissingField::BillingAddress },
                    ),
                };
                let first_name = match &details.first_name {
                    Some(f) => f.clone(),
                    None => return Err(
                        ConnectorError::MissingRequiredField {
                            field_name: MissingField::BillingAddressFirstName,
                        },
                    ),
                };
                let last_name = match &details.last_name {
                    Some(l) => l.clone(),
                    None => return Err(
                        ConnectorError::MissingRequiredField {
                            field_name: MissingField::BillingAddressLastName,
                        },
                    ),
                };
                let card = CardDetails {
                    card_type: String::from_str("visa"),
                    name_on_card: ccard.card_holder_name.clone(),
                    account_number: ccard.card_number.clone(),
                    expire_month: ccard.card_exp_month.clone(),
                    expire_year: ccard.card_exp_year.clone(),
                    card_verification_value: ccard.card_cvc.clone(),
                };
                Ok(FortePaymentsRequest {
                    action: String::from_str(action),
                    authorization_amount: item.amount,
                    billing_address: BillingAddress { first_name, last_name },
                    card,
                })
            },
            _ => Err(ConnectorError::NotImplemented(String::from_str("Payment methods"))),
        }
    }
}

impl ForteAuthType {
    /// Takes the API key out of a credential; only a header key is supported.
    pub fn try_from(auth_type: &ConnectorAuthType) -> (r: Result<Self, ConnectorError>)
        ensures
            match auth_type {
                ConnectorAuthType::HeaderKey { api_key } => r matches Ok(a) && a.api_key@ == api_key@,
                _ => r == Err::<Self, ConnectorError>(ConnectorError::FailedToObtainAuthType),
            },
    {
        if let ConnectorAuthType::HeaderKey { api_key } = auth_type {
            Ok(ForteAuthType { api_key: api_key.clone() })
        } else {
            Err(ConnectorError::FailedToObtainAuthType)
        }
    }
}

/// `b` is the body that a void request for `d` carries.
pub open spec fn is_cancel_request_for(b: ForteCancelRequest, d: PaymentsCancelData) -> bool {
    &&& b.action@ == "void"@
    &&& transaction_code_of(d.connector_metadata) == Some(b.authorization_code@)
    &&& b.entered_by@ == VOID_ENTERED_BY@
}

impl ForteCancelRequest {
    /// Builds the body of a void request from the recorded authorization code.
    pub fn try_from(item: &PaymentsCancelData) -> (r: Result<Self, ConnectorError>)
        ensures
            match transaction_code_of(item.connector_metadata) {
                Some(_) => r matches Ok(b) && is_cancel_request_for(b, *item),
                None => r == Err::<Self, ConnectorError>(ConnectorError::RequestEncodingFailed),
            },
    {
        let payment_metadata = decode_transaction(&item.connector_metadata)?;
        Ok(ForteCancelRequest {
            action: String::from_str("void"),
            authorization_code: payment_metadata.authorization_code,
            entered_by: String::from_str(VOID_ENTERED_BY),
        })
    }
}

/// The amount a capture asks for: the requested amount, or zero where none
/// was given.
pub open spec fn capture_amount(d: PaymentsCaptureData) -> i64 {
    match d.amount_to_capture {
        Some(x) => x,
        None => 0,
    }
}

/// `b` is the body that a capture request for `d` carries.
pub open spec fn is_capture_request_for(b: ForteCaptureRequest, d: PaymentsCaptureData) -> bool {
    &&& b.action@ == "capture"@
    &&& transaction_code_of(d.connector_metadata) == Some(b.authorization_code@)
    &&& b.transaction_id@ == d.connector_transaction_id@
    &&& b.authorization_amount == capture_amount(d)
}

impl ForteCaptureRequest {
    /// Builds the body of a capture request from the recorded authorization
    /// code and the gateway's id of the authorised transaction.
    pub fn try_from(item: &PaymentsCaptureData) -> (r: Result<Self, ConnectorError>)
        ensures
            match transaction_code_of(item.connector_metadata) {
                Some(_) => r matches Ok(b) && is_capture_request_for(b, *item),
                None => r == Err::<Self, ConnectorError>(ConnectorError::RequestEncodingFailed),
            },
    {
        let authorization_amount = match item.amount_to_capture {
            Some(x) => x,
            None => 0,
        };
        let transaction_id = item.connector_transaction_id.clone();
        let payment_metadata = decode_transaction(&item.connector_metadata)?;
        Ok(ForteCaptureRequest {
            action: String::from_str("capture"),
            authorization_code: payment_metadata.authorization_code,
            transaction_id,
            authorization_amount,
        })
    }
}

/// `b` is the body that a refund request for `d` carries.
pub open spec fn is_refund_request_for(b: ForteRefundRequest, d: RefundsData) -> bool {
    &&& b.action@ == "reverse"@
    &&& transaction_code_of(d.connector_metadata) == Some(b.authorization_code@)
    &&& b.original_transaction_id@ == d.connector_transaction_id@
    &&& b.authorization_amount == d.refund_amount
}

impl ForteRefundRequest {
    /// Builds the body of a refund: a reversal of the original transaction.
    pub fn try_from(item: &RefundsData) -> (r: Result<Self, ConnectorError>)
        ensures
            match transaction_code_of(item.connector_metadata) {
                Some(_) => r matches Ok(b) && is_refund_request_for(b, *item),
                None => r == Err::<Self, ConnectorError>(ConnectorError::RequestEncodingFailed),
            },
    {
        let action = String::from_str("reverse");
        let authorization_amount = item.refund_amount;
        let original_transaction_id = item.connector_transaction_id.clone();
        let payment_metadata = decode_transaction(&item.connector_metadata)?;
        Ok(ForteRefundRequest {
            action,
            authorization_amount,
            original_transaction_id,
            authorization_code: payment_metadata.authorization_code,
        })
    }
}

/// `r` is the normalised outcome of the payment response `item`.
pub open spec fn is_payments_outcome_of(r: PaymentsResponseData, item: FortePaymentsResponse) -> bool {
    &&& r.status == translate(item.response.response_type, action_kind(item.action@))
    &&& r.resource_id@ == item.transaction_id@
    &&& match item.authorization_code {
        Some(code) => r.connector_metadata matches Some(bag) && bag@ == encoded_transaction(code@),
        None => r.connector_metadata is None,
    }
    &&& r.amount_captured == item.authorization_amount
}

impl PaymentsResponseData {
    /// Normalises a payment response. The status is read from the action the
    /// gateway echoes; an authorization code is kept for later operations.
    pub fn from_forte(item: FortePaymentsResponse) -> (r: Self)
        ensures
            is_payments_outcome_of(r, item),
    {
        let status = convert_status(item.response.response_type, item.action);
        let connector_metadata = match item.authorization_code {
            Some(x) => Some(encode_transaction(PaymentMetadata { authorization_code: x })),
            None => None,
        };
        PaymentsResponseData {
            status,
            resource_id: item.transaction_id,
            connector_metadata,
            amount_captured: item.authorization_amount,
        }
    }
}

impl RefundsResponseData {
    /// Normalises a refund response.
    pub fn from_forte(item: RefundResponse) -> (r: Self)
        ensures
            r.connector_refund_id@ == item.transaction_id@,
            r.refund_status == refund_status_of(item.response.response_type),
    {
        let refund_status = match item.response.response_type {
            FortePaymentStatus::A => RefundStatus::Success,
            FortePaymentStatus::D => RefundStatus::Failure,
            FortePaymentStatus::E => RefundStatus::Failure,
        };
        RefundsResponseData { connector_refund_id: item.transaction_id, refund_status }
    }
}

} // verus!
