//! The connector itself: URLs, headers and request descriptors per flow, and
//! the mapping of the gateway's responses and errors.
use vstd::prelude::*;
use vstd::string::StringExecFns;

use crate::metadata::{account_of, decode_account, lemma_transaction_round_trip, transaction_code_of};
use crate::transformers::{
    authorize_action, billing_names, is_cancel_request_for, is_capture_request_for, is_payments_outcome_of,
    is_payments_request_for, is_refund_request_for, refund_status_of, ForteAuthType,
    ForteCancelRequest, ForteCaptureRequest, FortePaymentsRequest, FortePaymentsResponse,
    ForteRefundRequest, RefundResponse,
};
use crate::types::{
    CallConnectorAction, CaptureMethod, ConnectorAuthType, ConnectorError, Connectors, ErrorResponse,
    FlowRequest, IncomingWebhookEvent, Method, MissingField, PaymentsAuthorizeData,
    PaymentsCaptureData, PaymentsResponseData,
    RefundsResponseData, Response, ResponseId, RouterData,
};

verus! {

/// The Forte connector. It holds no state.
#[derive(Debug, Clone, Copy)]
pub struct Forte;

/// The merchant's account coordinates at the gateway.
#[derive(Debug, Clone, PartialEq, Eq)]
pub struct ConnectorMetadata {
    pub org_id: String,
    pub location_id: String,
}

/// The body of a request, by flow.
#[derive(Debug, Clone, PartialEq, Eq)]
pub enum RequestBody {
    Payments(FortePaymentsRequest),
    Capture(ForteCaptureRequest),
    Cancel(ForteCancelRequest),
    Refund(ForteRefundRequest),
}

/// A request ready for the transport to send.
#[derive(Debug, Clone, PartialEq, Eq)]
pub struct Request {
    pub method: Method,
    pub url: String,
    pub headers: Vec<(String, String)>,
    pub body: Option<RequestBody>,
}

/// Header names and values as character sequences.
pub open spec fn headers_view(h: Seq<(String, String)>) -> Seq<(Seq<char>, Seq<char>)> {
    h.map_values(|e: (String, String)| (e.0@, e.1@))
}

/// The API key of a credential that this gateway accepts.
pub open spec fn auth_key_of(auth: ConnectorAuthType) -> Option<Seq<char>> {
    match auth {
        ConnectorAuthType::HeaderKey { api_key } => Some(api_key@),
        _ => None,
    }
}

/// The headers of every request to the account `org`.
pub open spec fn headers_for(org: Seq<char>, api_key: Seq<char>) -> Seq<(Seq<char>, Seq<char>)> {
    seq![
        ("X-Forte-Auth-Organization-Id"@, "org_"@ + org),
        ("Content-Type"@, "application/json"@),
        ("Authorization"@, api_key),
    ]
}

/// The transactions collection of a location.
pub open spec fn transactions_url(base: Seq<char>, org: Seq<char>, loc: Seq<char>) -> Seq<char> {
    base + "organizations/org_"@ + org + "/locations/loc_"@ + loc + "/transactions"@
}

/// The URL a request goes to, or the field whose absence prevents it.
pub open spec fn url_for(req: FlowRequest, base: Seq<char>, org: Seq<char>, loc: Seq<char>) -> Result<
    Seq<char>,
    ConnectorError,
> {
    let t = transactions_url(base, org, loc);
    match req {
        FlowRequest::Authorize(d) => if d.capture_method == Some(CaptureMethod::Automatic) {
            Ok(t)
        } else {
            Ok(t + "/authorize"@)
        },
        FlowRequest::PSync(d) => match d.connector_transaction_id {
            ResponseId::ConnectorTransactionId(id) => Ok(t + "/"@ + id@),
            _ => Err(ConnectorError::MissingRequiredField { field_name: MissingField::ConnectorTransactionId }),
        },
        FlowRequest::Capture(_) => Ok(t),
        FlowRequest::Void(d) => Ok(t + "/"@ + d.connector_transaction_id@),
        FlowRequest::RefundExecute(_) => Ok(t),
        FlowRequest::RefundSync(d) => match d.connector_refund_id {
            Some(id) => Ok(t + "/"@ + id@),
            None => Err(ConnectorError::MissingRequiredField { field_name: MissingField::ConnectorRefundId }),
        },
    }
}

/// The HTTP method of each flow.
pub open spec fn method_of(req: FlowRequest) -> Method {
    match req {
        FlowRequest::Authorize(_) => Method::Post,
        FlowRequest::PSync(_) => Method::Get,
        FlowRequest::Capture(_) => Method::Put,
        FlowRequest::Void(_) => Method::Put,
        FlowRequest::RefundExecute(_) => Method::Post,
        FlowRequest::RefundSync(_) => Method::Get,
    }
}

/// Whether the generic request holds what its body needs.
pub open spec fn body_ok(req: FlowRequest) -> bool {
    match req {
        FlowRequest::Authorize(d) => d.payment_method_data is Card && billing_names(d.billing) is Ok,
        FlowRequest::Capture(d) => transaction_code_of(d.connector_metadata) is Some,
        FlowRequest::Void(d) => transaction_code_of(d.connector_metadata) is Some,
        FlowRequest::RefundExecute(d) => transaction_code_of(d.connector_metadata) is Some,
        FlowRequest::PSync(_) => true,
        FlowRequest::RefundSync(_) => true,
    }
}

/// `body` is the body that the generic request `req` calls for.
pub open spec fn is_body_for(body: Option<RequestBody>, req: FlowRequest) -> bool {
    match req {
        FlowRequest::Authorize(d) => body matches Some(RequestBody::Payments(b)) && is_payments_request_for(b, d),
        FlowRequest::Capture(d) => body matches Some(RequestBody::Capture(b)) && is_capture_request_for(b, d),
        FlowRequest::Void(d) => body matches Some(RequestBody::Cancel(b)) && is_cancel_request_for(b, d),
        FlowRequest::RefundExecute(d) => body matches Some(RequestBody::Refund(b)) && is_refund_request_for(b, d),
        FlowRequest::PSync(_) => body is None,
        FlowRequest::RefundSync(_) => body is None,
    }
}

/// Why a request cannot be built, in the order the parts are built: the
/// account coordinates and the URL, the credential, then the body.
pub open spec fn request_error(req: RouterData, base: Seq<char>) -> Option<ConnectorError> {
    match account_of(req.connector_meta_data) {
        None => Some(ConnectorError::RequestEncodingFailed),
        Some((org, loc)) => match url_for(req.request, base, org, loc) {
            Err(e) => Some(e),
            Ok(_) => if auth_key_of(req.connector_auth_type) is None {
                Some(ConnectorError::FailedToObtainAuthType)
            } else if !body_ok(req.request) {
                Some(ConnectorError::RequestEncodingFailed)
            } else {
                None
            },
        },
    }
}

/// `q` is the request descriptor for `req`.
pub open spec fn is_request_for(q: Request, req: RouterData, base: Seq<char>) -> bool {
    &&& q.method == method_of(req.request)
    &&& match (account_of(req.connector_meta_data), auth_key_of(req.connector_auth_type)) {
        (Some((org, loc)), Some(key)) => url_for(req.request, base, org, loc) == Ok::<
            Seq<char>,
            ConnectorError,
        >(q.url@) && headers_view(q.headers@) == headers_for(org, key),
        _ => false,
    }
    &&& is_body_for(q.body, req.request)
}

/// The error the platform sees for an error-shaped gateway response.
pub open spec fn is_error_response_for(e: ErrorResponse, status_code: u16, body: FortePaymentsResponse) -> bool {
    &&& e.status_code == status_code
    &&& e.code@ == body.response.response_code@
    &&& e.message@ == body.response.response_desc@
    &&& e.reason is None
}

/// Appends `"/"` and `id` to `url`.
fn push_segment(url: &mut String, id: &String)
    ensures
        final(url)@ == old(url)@ + "/"@ + id@,
{
    url.append("/");
    url.append(id.as_str());
}

/// An authorize request goes to the settle-now endpoint exactly when its body
/// names the action `"sale"`, and to the authorize-only endpoint exactly when
/// its body names `"authorize"`; capture policy automatic selects the first.
pub proof fn lemma_authorize_path_matches_action(
    d: PaymentsAuthorizeData,
    base: Seq<char>,
    org: Seq<char>,
    loc: Seq<char>,
)
    ensures
        (d.capture_method == Some(CaptureMethod::Automatic)) == (authorize_action(d.capture_method) == "sale"@),
        (url_for(FlowRequest::Authorize(d), base, org, loc) == Ok::<Seq<char>, ConnectorError>(
            transactions_url(base, org, loc),
        )) == (authorize_action(d.capture_method) == "sale"@),
        (url_for(FlowRequest::Authorize(d), base, org, loc) == Ok::<Seq<char>, ConnectorError>(
            transactions_url(base, org, loc) + "/authorize"@,
        )) == (authorize_action(d.capture_method) == "authorize"@),
{
    reveal_strlit("sale");
    reveal_strlit("authorize");
    reveal_strlit("/authorize");
    let t = transactions_url(base, org, loc);
    assert((t + "/authorize"@).len() == t.len() + 10);
    assert("sale"@ != "authorize"@) by {
        assert("sale"@.len() != "authorize"@.len());
    }
}

/// No request of any flow can be built without the merchant's account
/// coordinates.
pub proof fn lemma_request_needs_account(req: RouterData, base: Seq<char>)
    requires
        account_of(req.connector_meta_data) is None,
    ensures
        request_error(req, base) == Some(ConnectorError::RequestEncodingFailed),
{
}

/// A capture, void or refund cannot be built without the correlation data of
/// the transaction, once the account and the credential are in order.
pub proof fn lemma_request_needs_correlation(req: RouterData, base: Seq<char>)
    requires
        account_of(req.connector_meta_data) is Some,
        auth_key_of(req.connector_auth_type) is Some,
        match req.request {
            FlowRequest::Capture(d) => d.connector_metadata is None,
            FlowRequest::Void(d) => d.connector_metadata is None,
            FlowRequest::RefundExecute(d) => d.connector_metadata is None,
            _ => false,
        },
    ensures
        request_error(req, base) == Some(ConnectorError::RequestEncodingFailed),
{
}

/// A refund sync without a recorded refund id fails on that field, once the
/// account coordinates are in order.
pub proof fn lemma_refund_sync_needs_refund_id(req: RouterData, base: Seq<char>)
    requires
        account_of(req.connector_meta_data) is Some,
        req.request matches FlowRequest::RefundSync(d) && d.connector_refund_id is None,
    ensures
        request_error(req, base) == Some(
            ConnectorError::MissingRequiredField { field_name: MissingField::ConnectorRefundId },
        ),
{
}

/// A credential other than a header key is a configuration error: no request
/// is built, whatever else the request holds, once its account and URL are in
/// order.
pub proof fn lemma_request_needs_header_key(req: RouterData, base: Seq<char>)
    requires
        account_of(req.connector_meta_data) matches Some((org, loc)) && url_for(req.request, base, org, loc) is Ok,
        !(req.connector_auth_type is HeaderKey),
    ensures
        request_error(req, base) == Some(ConnectorError::FailedToObtainAuthType),
{
}

/// The correlation data that a payment response records lets a later capture
/// carry the authorization code of that response.
pub proof fn lemma_correlation_round_trip(
    outcome: PaymentsResponseData,
    response: FortePaymentsResponse,
    capture: PaymentsCaptureData,
    body: ForteCaptureRequest,
)
    requires
        is_payments_outcome_of(outcome, response),
        response.authorization_code is Some,
        capture.connector_metadata == outcome.connector_metadata,
        is_capture_request_for(body, capture),
    ensures
        body.authorization_code@ == response.authorization_code->Some_0@,
{
    lemma_transaction_round_trip(response.authorization_code->Some_0@);
}

impl Forte {
    /// The connector's name.
    pub fn id(&self) -> (r: &'static str)
        ensures
            r@ == "forte"@,
    {
        "forte"
    }

    pub fn common_get_content_type(&self) -> (r: &'static str)
        ensures
            r@ == "application/json"@,
    {
        "application/json"
    }

    pub fn get_content_type(&self) -> (r: &'static str)
        ensures
            r@ == "application/json"@,
    {
        self.common_get_content_type()
    }

    pub fn base_url<'a>(&self, connectors: &'a Connectors) -> (r: &'a str)
        ensures
            r@ == connectors.forte.base_url@,
    {
        connectors.forte.base_url.as_str()
    }

    /// The authorization header for a credential; only a header key is
    /// accepted.
    pub fn get_auth_header(&self, auth_type: &ConnectorAuthType) -> (r: Result<Vec<(String, String)>, ConnectorError>)
        ensures
            match auth_key_of(*auth_type) {
                Some(key) => r matches Ok(h) && headers_view(h@) == seq![("Authorization"@, key)],
                None => r == Err::<Vec<(String, String)>, ConnectorError>(ConnectorError::FailedToObtainAuthType),
            },
    {
        let auth = ForteAuthType::try_from(auth_type)?;
        let mut h: Vec<(String, String)> = Vec::new();
        h.push((String::from_str("Authorization"), auth.api_key));
        assert(headers_view(h@) =~= seq![("Authorization"@, auth_key_of(*auth_type)->Some_0)]);
        Ok(h)
    }

    /// The headers of a request: the organization, the content type and the
    /// credential.
    pub fn build_headers(&self, req: &RouterData, connectors: &Connectors) -> (r: Result<Vec<(String, String)>, ConnectorError>)
        ensures
            match account_of(req.connector_meta_data) {
                None => r == Err::<Vec<(String, String)>, ConnectorError>(ConnectorError::RequestEncodingFailed),
                Some((org, _)) => match auth_key_of(req.connector_auth_type) {
                    Some(key) => r matches Ok(h) && headers_view(h@) == headers_for(org, key),
                    None => r == Err::<Vec<(String, String)>, ConnectorError>(ConnectorError::FailedToObtainAuthType),
                },
            },
    {
        let connector_metadata = decode_account(&req.connector_meta_data)?;
        let mut org_value = String::from_str("org_");
        org_value.append(connector_metadata.org_id.as_str());
        let mut header: Vec<(String, String)> = Vec::new();
        header.push((String::from_str("X-Forte-Auth-Organization-Id"), org_value));
        header.push((String::from_str("Content-Type"), String::from_str("application/json")));
        let mut api_key = self.get_auth_header(&req.connector_auth_type)?;
        let ghost first = header@;
        let ghost auth = api_key@;
        header.append(&mut api_key);
        assert(header@ == first + auth);
        assert(headers_view(auth).len() == 1);
        assert(headers_view(header@)[2] == headers_view(auth)[0]);
        assert(headers_view(header@) =~= headers_for(
            account_of(req.connector_meta_data)->Some_0.0,
            auth_key_of(req.connector_auth_type)->Some_0,
        ));
        Ok(header)
    }

    pub fn get_headers(&self, req: &RouterData, connectors: &Connectors) -> (r: Result<Vec<(String, String)>, ConnectorError>)
        ensures
            match account_of(req.connector_meta_data) {
                None => r == Err::<Vec<(String, String)>, ConnectorError>(ConnectorError::RequestEncodingFailed),
                Some((org, _)) => match auth_key_of(req.connector_auth_type) {
                    Some(key) => r matches Ok(h) && headers_view(h@) == headers_for(org, key),
                    None => r == Err::<Vec<(String, String)>, ConnectorError>(ConnectorError::FailedToObtainAuthType),
                },
            },
    {
        self.build_headers(req, connectors)
    }

    /// The URL of a request, under the merchant's organization and location.
    pub fn get_url(&self, req: &RouterData, connectors: &Connectors) -> (r: Result<String, ConnectorError>)
        ensures
            match account_of(req.connector_meta_data) {
                None => r == Err::<String, ConnectorError>(ConnectorError::RequestEncodingFailed),
                Some((org, loc)) => match url_for(req.request, connectors.forte.base_url@, org, loc) {
                    Ok(u) => r matches Ok(s) && s@ == u,
                    Err(e) => r == Err::<String, ConnectorError>(e),
                },
            },
    {
        let connector_metadata = decode_account(&req.connector_meta_data)?;
        let mut url = String::from_str(self.base_url(connectors));
        url.append("organizations/org_");
        url.append(connector_metadata.org_id.as_str());
        url.append("/locations/loc_");
        url.append(connector_metadata.location_id.as_str());
        url.append("/transactions");
        match &req.request {
            FlowRequest::Authorize(d) => {
                match d.capture_method {
                    Some(CaptureMethod::Automatic) => {},
                    _ => url.append("/authorize"),
                }
            },
            FlowRequest::PSync(d) => match &d.connector_transaction_id {
                ResponseId::ConnectorTransactionId(id) => push_segment(&mut url, id),
                _ => return Err(
                    ConnectorError::MissingRequiredField { field_name: MissingField::ConnectorTransactionId },
                ),
            },
            FlowRequest::Capture(_) => {},
            FlowRequest::Void(d) => push_segment(&mut url, &d.connector_transaction_id),
            FlowRequest::RefundExecute(_) => {},
            FlowRequest::RefundSync(d) => match &d.connector_refund_id {
                Some(id) => push_segment(&mut url, id),
                None => return Err(
                    ConnectorError::MissingRequiredField { field_name: MissingField::ConnectorRefundId },
                ),
            },
        }
        Ok(url)
    }

    /// The body of a request. Whatever prevents it from being built is a
    /// request-encoding failure.
    pub fn get_request_body(&self, req: &RouterData) -> (r: Result<Option<RequestBody>, ConnectorError>)
        ensures
            body_ok(req.request) ==> (r matches Ok(b) && is_body_for(b, req.request)),
            !body_ok(req.request) ==> r == Err::<Option<RequestBody>, ConnectorError>(
                ConnectorError::RequestEncodingFailed,
            ),
    {
        match &req.request {
            FlowRequest::Authorize(d) => match FortePaymentsRequest::try_from(d) {
                Ok(b) => Ok(Some(RequestBody::Payments(b))),
                Err(_) => Err(ConnectorError::RequestEncodingFailed),
            },
            FlowRequest::Capture(d) => match ForteCaptureRequest::try_from(d) {
                Ok(b) => Ok(Some(RequestBody::Capture(b))),
                Err(_) => Err(ConnectorError::RequestEncodingFailed),
            },
            FlowRequest::Void(d) => match ForteCancelRequest::try_from(d) {
                Ok(b) => Ok(Some(RequestBody::Cancel(b))),
                Err(_) => Err(ConnectorError::RequestEncodingFailed),
            },
            FlowRequest::RefundExecute(d) => match ForteRefundRequest::try_from(d) {
                Ok(b) => Ok(Some(RequestBody::Refund(b))),
                Err(_) => Err(ConnectorError::RequestEncodingFailed),
            },
            FlowRequest::PSync(_) => Ok(None),
            FlowRequest::RefundSync(_) => Ok(None),
        }
    }

    /// The method of a flow.
    pub fn get_method(&self, req: &RouterData) -> (r: Method)
        ensures
            r == method_of(req.request),
    {
        match &req.request {
            FlowRequest::Authorize(_) => Method::Post,
            FlowRequest::PSync(_) => Method::Get,
            FlowRequest::Capture(_) => Method::Put,
            FlowRequest::Void(_) => Method::Put,
            FlowRequest::RefundExecute(_) => Method::Post,
            FlowRequest::RefundSync(_) => Method::Get,
        }
    }

    /// Builds the request descriptor for a generic request: URL, headers and
    /// body, or the first reason it cannot be built.
    pub fn build_request(&self, req: &RouterData, connectors: &Connectors) -> (r: Result<Request, ConnectorError>)
        ensures
            match request_error(*req, connectors.forte.base_url@) {
                Some(e) => r == Err::<Request, ConnectorError>(e),
                None => r matches Ok(q) && is_request_for(q, *req, connectors.forte.base_url@),
            },
    {
        let url = self.get_url(req, connectors)?;
        let headers = self.get_headers(req, connectors)?;
        let body = self.get_request_body(req)?;
        Ok(Request { method: self.get_method(req), url, headers, body })
    }

    /// Maps the response of a payment operation (authorize, sync, capture,
    /// void) to its normalised outcome.
    pub fn handle_response(&self, res: Response<FortePaymentsResponse>) -> (r: Result<PaymentsResponseData, ConnectorError>)
        ensures
            match res.body {
                Some(b) => r matches Ok(o) && is_payments_outcome_of(o, b),
                None => r == Err::<PaymentsResponseData, ConnectorError>(
                    ConnectorError::ResponseDeserializationFailed,
                ),
            },
    {
        match res.body {
            Some(b) => Ok(PaymentsResponseData::from_forte(b)),
            None => Err(ConnectorError::ResponseDeserializationFailed),
        }
    }

    /// Maps the response of a refund operation (execute, sync).
    pub fn handle_refund_response(&self, res: Response<RefundResponse>) -> (r: Result<RefundsResponseData, ConnectorError>)
        ensures
            match res.body {
                Some(b) => r matches Ok(o) && o.connector_refund_id@ == b.transaction_id@
                    && o.refund_status == refund_status_of(b.response.response_type),
                None => r == Err::<RefundsResponseData, ConnectorError>(
                    ConnectorError::ResponseDeserializationFailed,
                ),
            },
    {
        match res.body {
            Some(b) => Ok(RefundsResponseData::from_forte(b)),
            None => Err(ConnectorError::ResponseDeserializationFailed),
        }
    }

    /// Maps an error-shaped response (a non-2xx status) to the platform's
    /// error; an unreadable error body is itself an error.
    pub fn build_error_response(&self, res: Response<FortePaymentsResponse>) -> (r: Result<ErrorResponse, ConnectorError>)
        ensures
            match res.body {
                Some(b) => r matches Ok(e) && is_error_response_for(e, res.status_code, b),
                None => r == Err::<ErrorResponse, ConnectorError>(ConnectorError::ResponseDeserializationFailed),
            },
    {
        match res.body {
            Some(b) => Ok(
                ErrorResponse {
                    status_code: res.status_code,
                    code: b.response.response_code,
                    message: b.response.response_desc,
                    reason: None,
                },
            ),
            None => Err(ConnectorError::ResponseDeserializationFailed),
        }
    }

    pub fn get_error_response(&self, res: Response<FortePaymentsResponse>) -> (r: Result<ErrorResponse, ConnectorError>)
        ensures
            match res.body {
                Some(b) => r matches Ok(e) && is_error_response_for(e, res.status_code, b),
                None => r == Err::<ErrorResponse, ConnectorError>(ConnectorError::ResponseDeserializationFailed),
            },
    {
        self.build_error_response(res)
    }

    /// Webhooks are not offered by this connector.
    pub fn get_webhook_object_reference_id(&self, _body: &[u8]) -> (r: Result<String, ConnectorError>)
        ensures
            r == Err::<String, ConnectorError>(ConnectorError::WebhooksNotImplemented),
    {
        Err(ConnectorError::WebhooksNotImplemented)
    }

    pub fn get_webhook_event_type(&self, _body: &[u8]) -> (r: Result<IncomingWebhookEvent, ConnectorError>)
        ensures
            r == Err::<IncomingWebhookEvent, ConnectorError>(ConnectorError::WebhooksNotImplemented),
    {
        Err(ConnectorError::WebhooksNotImplemented)
    }

    pub fn get_webhook_resource_object(&self, _body: &[u8]) -> (r: Result<Vec<u8>, ConnectorError>)
        ensures
            r == Err::<Vec<u8>, ConnectorError>(ConnectorError::WebhooksNotImplemented),
    {
        Err(ConnectorError::WebhooksNotImplemented)
    }

    /// After a redirect the core calls the connector again.
    pub fn get_flow_type(&self, _query_params: &str) -> (r: Result<CallConnectorAction, ConnectorError>)
        ensures
            r == Ok::<CallConnectorAction, ConnectorError>(CallConnectorAction::Trigger),
    {
        Ok(CallConnectorAction::Trigger)
    }
}

} // verus!
