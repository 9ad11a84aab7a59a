use forte_connector::forte::{Forte, RequestBody};
use forte_connector::metadata::{decode_account, decode_transaction, encode_transaction, find_member};
use forte_connector::transformers::{
    convert_status, ForteAuthType, FortePaymentsRequest, FortePaymentStatus, FortePaymentsResponse, PaymentMetadata,
    RefundResponse, ResponseDetails,
};
use forte_connector::types::{
    Address, AddressDetails, AttemptStatus, CallConnectorAction, Card, CaptureMethod,
    ConnectorAuthType, ConnectorError, ConnectorParams, Connectors, FlowRequest, MetadataBag, Method,
    MissingField, PaymentMethod, PaymentsAuthorizeData, PaymentsCancelData, PaymentsCaptureData,
    PaymentsSyncData, RefundStatus, RefundsData, Response, ResponseId, RouterData,
};

const BASE: &str = "https://sandbox.forte.net/api/v3/";

fn bag(entries: &[(&str, &str)]) -> MetadataBag {
    MetadataBag {
        entries: entries.iter().map(|(k, v)| (k.to_string(), v.to_string())).collect(),
    }
}

fn account() -> Option<MetadataBag> {
    Some(bag(&[("org_id", "300005"), ("location_id", "115161")]))
}

fn correlation() -> Option<MetadataBag> {
    Some(bag(&[("authorization_code", "A1B2C3")]))
}

fn connectors() -> Connectors {
    Connectors { forte: ConnectorParams { base_url: BASE.to_string() } }
}

fn header_key() -> ConnectorAuthType {
    ConnectorAuthType::HeaderKey { api_key: "Basic c2VjcmV0".to_string() }
}

fn card() -> Card {
    Card {
        card_number: "4111111111111111".to_string(),
        card_exp_month: "12".to_string(),
        card_exp_year: "2030".to_string(),
        card_holder_name: "Jane Doe".to_string(),
        card_cvc: "123".to_string(),
    }
}

fn billing() -> Option<Address> {
    Some(Address {
        address: Some(AddressDetails {
            first_name: Some("Jane".to_string()),
            last_name: Some("Doe".to_string()),
        }),
    })
}

fn authorize(capture_method: Option<CaptureMethod>) -> FlowRequest {
    FlowRequest::Authorize(PaymentsAuthorizeData {
        amount: 1000,
        capture_method,
        payment_method_data: PaymentMethod::Card(card()),
        billing: billing(),
    })
}

fn router(request: FlowRequest) -> RouterData {
    RouterData { request, connector_meta_data: account(), connector_auth_type: header_key() }
}

fn capture(connector_metadata: Option<MetadataBag>) -> FlowRequest {
    FlowRequest::Capture(PaymentsCaptureData {
        amount_to_capture: Some(700),
        connector_transaction_id: "trn_1".to_string(),
        connector_metadata,
    })
}

fn void(connector_metadata: Option<MetadataBag>) -> FlowRequest {
    FlowRequest::Void(PaymentsCancelData { connector_transaction_id: "trn_1".to_string(), connector_metadata })
}

fn refund(connector_metadata: Option<MetadataBag>, connector_refund_id: Option<&str>) -> RefundsData {
    RefundsData {
        refund_amount: 250,
        connector_transaction_id: "trn_1".to_string(),
        connector_refund_id: connector_refund_id.map(|s| s.to_string()),
        connector_metadata,
    }
}

fn gateway_response(code: FortePaymentStatus, action: &str) -> FortePaymentsResponse {
    FortePaymentsResponse {
        transaction_id: "T1".to_string(),
        response: ResponseDetails {
            response_type: code,
            response_desc: "APPROVAL".to_string(),
            response_code: "A01".to_string(),
        },
        authorization_code: None,
        authorization_amount: None,
        action: action.to_string(),
    }
}

fn transactions() -> String {
    format!("{}organizations/org_300005/locations/loc_115161/transactions", BASE)
}

#[test]
fn status_table_is_exhaustive() {
    let (a, d, e) = (FortePaymentStatus::A, FortePaymentStatus::D, FortePaymentStatus::E);
    let charged = AttemptStatus::Charged;
    let failure = AttemptStatus::Failure;
    let auth_failed = AttemptStatus::AuthorizationFailed;
    let table = [
        ("sale", [charged, failure, failure]),
        ("authorize", [AttemptStatus::Authorized, failure, auth_failed]),
        ("void", [AttemptStatus::Voided, failure, failure]),
        ("capture", [charged, auth_failed, failure]),
        ("reverse", [charged, failure, failure]),
        ("", [charged, failure, failure]),
    ];
    for (action, expected) in table {
        for (code, status) in [a, d, e].into_iter().zip(expected) {
            assert_eq!(convert_status(code, action.to_string()), status, "{} {:?}", action, code);
        }
    }
}

#[test]
fn plain_status_conversion() {
    assert_eq!(AttemptStatus::from(FortePaymentStatus::A), AttemptStatus::Charged);
    assert_eq!(AttemptStatus::from(FortePaymentStatus::D), AttemptStatus::Failure);
    assert_eq!(AttemptStatus::from(FortePaymentStatus::E), AttemptStatus::Failure);
}

#[test]
fn automatic_capture_is_a_sale() {
    let q = Forte.build_request(&router(authorize(Some(CaptureMethod::Automatic))), &connectors()).unwrap();
    assert_eq!(q.method, Method::Post);
    assert_eq!(q.url, transactions());
    match q.body {
        Some(RequestBody::Payments(b)) => {
            assert_eq!(b.action, "sale");
            assert_eq!(b.authorization_amount, 1000);
            assert_eq!(b.card.card_type, "visa");
            assert_eq!(b.card.account_number, "4111111111111111");
            assert_eq!(b.billing_address.first_name, "Jane");
            assert_eq!(b.billing_address.last_name, "Doe");
        }
        other => panic!("unexpected body {:?}", other),
    }
}

#[test]
fn manual_capture_is_an_authorization() {
    for method in [Some(CaptureMethod::Manual), None] {
        let q = Forte.build_request(&router(authorize(method)), &connectors()).unwrap();
        assert_eq!(q.url, format!("{}/authorize", transactions()));
        match q.body {
            Some(RequestBody::Payments(b)) => assert_eq!(b.action, "authorize"),
            other => panic!("unexpected body {:?}", other),
        }
    }
}

#[test]
fn headers_carry_organization_and_key() {
    let h = Forte.get_headers(&router(capture(correlation())), &connectors()).unwrap();
    assert_eq!(
        h,
        vec![
            ("X-Forte-Auth-Organization-Id".to_string(), "org_300005".to_string()),
            ("Content-Type".to_string(), "application/json".to_string()),
            ("Authorization".to_string(), "Basic c2VjcmV0".to_string()),
        ]
    );
}

#[test]
fn every_flow_needs_account_metadata() {
    let flows = vec![
        authorize(Some(CaptureMethod::Automatic)),
        FlowRequest::PSync(PaymentsSyncData {
            connector_transaction_id: ResponseId::ConnectorTransactionId("trn_1".to_string()),
        }),
        capture(correlation()),
        void(correlation()),
        FlowRequest::RefundExecute(refund(correlation(), None)),
        FlowRequest::RefundSync(refund(correlation(), Some("trn_9"))),
    ];
    for flow in flows {
        for meta in [None, Some(bag(&[])), Some(bag(&[("org_id", "300005")]))] {
            let req = RouterData { request: flow.clone(), connector_meta_data: meta, connector_auth_type: header_key() };
            assert_eq!(Forte.build_request(&req, &connectors()), Err(ConnectorError::RequestEncodingFailed));
        }
    }
}

#[test]
fn later_flows_need_correlation_metadata() {
    let flows = vec![capture(None), void(None), FlowRequest::RefundExecute(refund(None, None))];
    for flow in flows {
        assert_eq!(Forte.build_request(&router(flow), &connectors()), Err(ConnectorError::RequestEncodingFailed));
    }
    let wrong = Some(bag(&[("auth_code", "A1B2C3")]));
    assert_eq!(
        Forte.build_request(&router(void(wrong)), &connectors()),
        Err(ConnectorError::RequestEncodingFailed)
    );
}

#[test]
fn refund_sync_needs_refund_id() {
    let req = router(FlowRequest::RefundSync(refund(correlation(), None)));
    let err = Forte.build_request(&req, &connectors()).unwrap_err();
    assert_eq!(err, ConnectorError::MissingRequiredField { field_name: MissingField::ConnectorRefundId });
    assert_eq!(MissingField::ConnectorRefundId.as_str(), "connector_refund_id");
}

#[test]
fn refund_sync_targets_the_refund() {
    let req = router(FlowRequest::RefundSync(refund(None, Some("trn_9"))));
    let q = Forte.build_request(&req, &connectors()).unwrap();
    assert_eq!(q.method, Method::Get);
    assert_eq!(q.url, format!("{}/trn_9", transactions()));
    assert_eq!(q.body, None);
}

#[test]
fn payment_sync_targets_the_transaction() {
    let req = router(FlowRequest::PSync(PaymentsSyncData {
        connector_transaction_id: ResponseId::ConnectorTransactionId("trn_5".to_string()),
    }));
    let q = Forte.build_request(&req, &connectors()).unwrap();
    assert_eq!(q.method, Method::Get);
    assert_eq!(q.url, format!("{}/trn_5", transactions()));
    let missing = router(FlowRequest::PSync(PaymentsSyncData { connector_transaction_id: ResponseId::NoResponseId }));
    assert_eq!(
        Forte.build_request(&missing, &connectors()),
        Err(ConnectorError::MissingRequiredField { field_name: MissingField::ConnectorTransactionId })
    );
}

#[test]
fn capture_request_body() {
    let q = Forte.build_request(&router(capture(correlation())), &connectors()).unwrap();
    assert_eq!(q.method, Method::Put);
    assert_eq!(q.url, transactions());
    match q.body {
        Some(RequestBody::Capture(b)) => {
            assert_eq!(b.action, "capture");
            assert_eq!(b.authorization_code, "A1B2C3");
            assert_eq!(b.transaction_id, "trn_1");
            assert_eq!(b.authorization_amount, 700);
        }
        other => panic!("unexpected body {:?}", other),
    }
}

#[test]
fn capture_without_amount_asks_for_zero() {
    let flow = FlowRequest::Capture(PaymentsCaptureData {
        amount_to_capture: None,
        connector_transaction_id: "trn_1".to_string(),
        connector_metadata: correlation(),
    });
    match Forte.build_request(&router(flow), &connectors()).unwrap().body {
        Some(RequestBody::Capture(b)) => assert_eq!(b.authorization_amount, 0),
        other => panic!("unexpected body {:?}", other),
    }
}

#[test]
fn void_request_body() {
    let q = Forte.build_request(&router(void(correlation())), &connectors()).unwrap();
    assert_eq!(q.method, Method::Put);
    assert_eq!(q.url, format!("{}/trn_1", transactions()));
    match q.body {
        Some(RequestBody::Cancel(b)) => {
            assert_eq!(b.action, "void");
            assert_eq!(b.authorization_code, "A1B2C3");
        }
        other => panic!("unexpected body {:?}", other),
    }
}

#[test]
fn refund_request_body() {
    let q = Forte.build_request(&router(FlowRequest::RefundExecute(refund(correlation(), None))), &connectors()).unwrap();
    assert_eq!(q.method, Method::Post);
    assert_eq!(q.url, transactions());
    match q.body {
        Some(RequestBody::Refund(b)) => {
            assert_eq!(b.action, "reverse");
            assert_eq!(b.authorization_amount, 250);
            assert_eq!(b.original_transaction_id, "trn_1");
            assert_eq!(b.authorization_code, "A1B2C3");
        }
        other => panic!("unexpected body {:?}", other),
    }
}

#[test]
fn authorize_without_billing_fails_to_encode() {
    let cases = vec![
        None,
        Some(Address { address: None }),
        Some(Address { address: Some(AddressDetails { first_name: None, last_name: Some("Doe".to_string()) }) }),
        Some(Address { address: Some(AddressDetails { first_name: Some("Jane".to_string()), last_name: None }) }),
    ];
    for billing in cases {
        let flow = FlowRequest::Authorize(PaymentsAuthorizeData {
            amount: 1000,
            capture_method: Some(CaptureMethod::Automatic),
            payment_method_data: PaymentMethod::Card(card()),
            billing,
        });
        assert_eq!(Forte.build_request(&router(flow), &connectors()), Err(ConnectorError::RequestEncodingFailed));
    }
}

#[test]
fn authorize_body_reports_missing_billing_field() {
    let d = PaymentsAuthorizeData {
        amount: 1000,
        capture_method: None,
        payment_method_data: PaymentMethod::Card(card()),
        billing: Some(Address { address: None }),
    };
    assert_eq!(
        FortePaymentsRequest::try_from(&d),
        Err(ConnectorError::MissingRequiredField { field_name: MissingField::BillingAddress })
    );
    let wallet = PaymentsAuthorizeData { payment_method_data: PaymentMethod::Wallet, ..d };
    assert!(matches!(FortePaymentsRequest::try_from(&wallet), Err(ConnectorError::NotImplemented(_))));
}

#[test]
fn non_card_payment_is_not_encoded() {
    let flow = FlowRequest::Authorize(PaymentsAuthorizeData {
        amount: 1000,
        capture_method: None,
        payment_method_data: PaymentMethod::PayLater,
        billing: billing(),
    });
    assert_eq!(Forte.build_request(&router(flow), &connectors()), Err(ConnectorError::RequestEncodingFailed));
}

#[test]
fn sale_response_round_trip() {
    let q = Forte.build_request(&router(authorize(Some(CaptureMethod::Automatic))), &connectors()).unwrap();
    assert_eq!(q.url, transactions());
    let res = Response { status_code: 200, body: Some(gateway_response(FortePaymentStatus::A, "sale")) };
    let out = Forte.handle_response(res).unwrap();
    assert_eq!(out.status, AttemptStatus::Charged);
    assert_eq!(out.resource_id, "T1");
    assert_eq!(out.connector_metadata, None);
    assert_eq!(out.amount_captured, None);
}

#[test]
fn authorize_error_response_fails_authorization() {
    let res = Response { status_code: 200, body: Some(gateway_response(FortePaymentStatus::E, "authorize")) };
    assert_eq!(Forte.handle_response(res).unwrap().status, AttemptStatus::AuthorizationFailed);
}

#[test]
fn response_records_correlation_for_capture() {
    let mut body = gateway_response(FortePaymentStatus::A, "authorize");
    body.authorization_code = Some("ZX9".to_string());
    body.authorization_amount = Some(1000);
    let out = Forte.handle_response(Response { status_code: 200, body: Some(body) }).unwrap();
    assert_eq!(out.status, AttemptStatus::Authorized);
    assert_eq!(out.amount_captured, Some(1000));
    let q = Forte.build_request(&router(capture(out.connector_metadata)), &connectors()).unwrap();
    match q.body {
        Some(RequestBody::Capture(b)) => assert_eq!(b.authorization_code, "ZX9"),
        other => panic!("unexpected body {:?}", other),
    }
}

#[test]
fn unreadable_response_is_a_deserialization_failure() {
    let res: Response<FortePaymentsResponse> = Response { status_code: 200, body: None };
    assert_eq!(Forte.handle_response(res), Err(ConnectorError::ResponseDeserializationFailed));
    let refund: Response<RefundResponse> = Response { status_code: 200, body: None };
    assert_eq!(Forte.handle_refund_response(refund), Err(ConnectorError::ResponseDeserializationFailed));
}

#[test]
fn error_mapper_surfaces_code_and_message() {
    let body = FortePaymentsResponse {
        transaction_id: "T2".to_string(),
        response: ResponseDetails {
            response_type: FortePaymentStatus::D,
            response_desc: "insufficient funds".to_string(),
            response_code: "06".to_string(),
        },
        authorization_code: None,
        authorization_amount: None,
        action: "sale".to_string(),
    };
    let e = Forte.get_error_response(Response { status_code: 402, body: Some(body) }).unwrap();
    assert_eq!(e.status_code, 402);
    assert_eq!(e.code, "06");
    assert_eq!(e.message, "insufficient funds");
    assert_eq!(e.reason, None);
    let unreadable: Response<FortePaymentsResponse> = Response { status_code: 500, body: None };
    assert_eq!(Forte.build_error_response(unreadable), Err(ConnectorError::ResponseDeserializationFailed));
}

#[test]
fn refund_response_statuses() {
    for (code, status) in [
        (FortePaymentStatus::A, RefundStatus::Success),
        (FortePaymentStatus::D, RefundStatus::Failure),
        (FortePaymentStatus::E, RefundStatus::Failure),
    ] {
        let body = RefundResponse {
            transaction_id: "trn_r".to_string(),
            response: ResponseDetails {
                response_type: code,
                response_desc: "x".to_string(),
                response_code: "A01".to_string(),
            },
            authorization_code: "A1B2C3".to_string(),
            action: "reverse".to_string(),
        };
        let out = Forte.handle_refund_response(Response { status_code: 200, body: Some(body) }).unwrap();
        assert_eq!(out.connector_refund_id, "trn_r");
        assert_eq!(out.refund_status, status);
    }
}

#[test]
fn other_credentials_are_refused() {
    let others = vec![
        ConnectorAuthType::BodyKey { api_key: "k".to_string(), key1: "1".to_string() },
        ConnectorAuthType::SignatureKey {
            api_key: "k".to_string(),
            key1: "1".to_string(),
            api_secret: "s".to_string(),
        },
    ];
    for auth in others {
        assert_eq!(Forte.get_auth_header(&auth), Err(ConnectorError::FailedToObtainAuthType));
        assert_eq!(ForteAuthType::try_from(&auth), Err(ConnectorError::FailedToObtainAuthType));
        let req = RouterData { request: capture(correlation()), connector_meta_data: account(), connector_auth_type: auth };
        assert_eq!(Forte.build_request(&req, &connectors()), Err(ConnectorError::FailedToObtainAuthType));
    }
    assert_eq!(
        Forte.get_auth_header(&header_key()).unwrap(),
        vec![("Authorization".to_string(), "Basic c2VjcmV0".to_string())]
    );
}

#[test]
fn metadata_codec() {
    let m = decode_account(&Some(bag(&[("location_id", "7"), ("extra", "x"), ("org_id", "9")]))).unwrap();
    assert_eq!(m.org_id, "9");
    assert_eq!(m.location_id, "7");
    assert_eq!(decode_account(&None), Err(ConnectorError::RequestEncodingFailed));
    let encoded = encode_transaction(PaymentMetadata { authorization_code: "Q7".to_string() });
    assert_eq!(encoded, bag(&[("authorization_code", "Q7")]));
    assert_eq!(decode_transaction(&Some(encoded)).unwrap().authorization_code, "Q7");
    assert_eq!(decode_transaction(&Some(bag(&[]))), Err(ConnectorError::RequestEncodingFailed));
}

#[test]
fn first_member_wins() {
    let b = bag(&[("k", "1"), ("k", "2")]);
    assert_eq!(find_member(&b, &"k".to_string()), Some("1".to_string()));
    assert_eq!(find_member(&b, &"j".to_string()), None);
}

#[test]
fn connector_constants_and_webhooks() {
    assert_eq!(Forte.id(), "forte");
    assert_eq!(Forte.get_content_type(), "application/json");
    assert_eq!(Forte.common_get_content_type(), "application/json");
    assert_eq!(Forte.base_url(&connectors()), BASE);
    assert_eq!(Forte.get_webhook_object_reference_id(b"{}"), Err(ConnectorError::WebhooksNotImplemented));
    assert_eq!(Forte.get_webhook_event_type(b"{}"), Err(ConnectorError::WebhooksNotImplemented));
    assert_eq!(Forte.get_webhook_resource_object(b"{}"), Err(ConnectorError::WebhooksNotImplemented));
    assert_eq!(Forte.get_flow_type("a=b"), Ok(CallConnectorAction::Trigger));
}

