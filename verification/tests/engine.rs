use payment_link_core::{
    evaluate_link_status, check_payment_link_status, intiate_payment_link_flow,
    link_initiation_not_allowed_statuses, list_payment_link, retrieve_payment_link,
    validate_link_initiation, validate_order_details, validate_payment_status_against_not_allowed_statuses,
    validate_sdk_requirements, ApiErrorResponse, Currency, Instant, IntentStatus, MerchantAccount,
    OrderDetailDocument, OrderDetailsWithAmount, PaymentConfigDocument, PaymentCreatePaymentLinkConfig,
    PaymentIntent, PaymentLink, PaymentLinkConfig, DEFAULT_PRODUCT_IMG,
};

fn usd() -> Currency {
    Currency { code: "USD".to_string() }
}

fn empty_config() -> PaymentLinkConfig {
    PaymentLinkConfig { max_age: None, theme: None, logo: None, seller_name: None }
}

fn merchant() -> MerchantAccount {
    MerchantAccount {
        merchant_id: "merchant_1668273825".to_string(),
        publishable_key: Some("pk_live_acme".to_string()),
        merchant_name: Some("Acme".to_string()),
        return_url: Some("https://acme.example.com/done".to_string()),
    }
}

fn intent(status: IntentStatus) -> PaymentIntent {
    PaymentIntent {
        payment_id: "pay_mbabizu24mvu3mela5njyhpit4".to_string(),
        merchant_id: "merchant_1668273825".to_string(),
        status,
        amount: 6540,
        currency: Some(usd()),
        return_url: Some("https://acme.example.com/thanks".to_string()),
        order_details: None,
        client_secret: Some("pay_123_secret_456".to_string()),
        payment_link_id: Some("plink_1".to_string()),
    }
}

fn link_record() -> PaymentLink {
    PaymentLink {
        payment_link_id: "plink_1".to_string(),
        payment_id: "pay_mbabizu24mvu3mela5njyhpit4".to_string(),
        merchant_id: "merchant_1668273825".to_string(),
        link_to_pay: "https://pay.example.com/plink_1".to_string(),
        amount: 6540,
        currency: Some(usd()),
        created_at: Instant::from_unix_nanos(1_700_000_000_000_000_000),
        max_age: Instant::from_unix_nanos(1_700_000_900_000_000_000),
        description: Some("a cart".to_string()),
        payment_link_config: PaymentConfigDocument::WellFormed(PaymentCreatePaymentLinkConfig {
            config: empty_config(),
        }),
    }
}

#[test]
fn status_active_at_exact_expiry() {
    let expiry = Instant::from_unix_nanos(1_000);
    let now = Instant::from_unix_nanos(1_000);
    assert_eq!(evaluate_link_status(expiry, now), "active");
}

#[test]
fn status_expired_one_nanosecond_later() {
    let expiry = Instant::from_unix_nanos(1_000);
    assert_eq!(evaluate_link_status(expiry, Instant::from_unix_nanos(1_001)), "expired");
}

#[test]
fn status_active_before_expiry() {
    let expiry = Instant::from_unix_nanos(1_000);
    assert_eq!(evaluate_link_status(expiry, Instant::from_unix_nanos(-5)), "active");
}

#[test]
fn status_from_live_clock_is_one_of_the_two() {
    let far_future = Instant::from_unix_nanos(i128::from(i64::MAX) * 1_000);
    assert_eq!(check_payment_link_status(far_future), "active");
    let far_past = Instant::from_unix_nanos(0);
    assert_eq!(check_payment_link_status(far_past), "expired");
}

#[test]
fn guard_rejects_exactly_the_five_disallowed_statuses() {
    let all = [
        IntentStatus::Succeeded,
        IntentStatus::Failed,
        IntentStatus::Cancelled,
        IntentStatus::Processing,
        IntentStatus::RequiresCustomerAction,
        IntentStatus::RequiresMerchantAction,
        IntentStatus::RequiresPaymentMethod,
        IntentStatus::RequiresConfirmation,
        IntentStatus::RequiresCapture,
        IntentStatus::PartiallyCaptured,
    ];
    let disallowed = [
        IntentStatus::Cancelled,
        IntentStatus::Succeeded,
        IntentStatus::Processing,
        IntentStatus::RequiresCapture,
        IntentStatus::RequiresMerchantAction,
    ];
    let not_allowed = link_initiation_not_allowed_statuses();
    for status in all {
        let result = validate_payment_status_against_not_allowed_statuses(
            status,
            &not_allowed,
            "use payment link for",
        );
        if disallowed.contains(&status) {
            assert_eq!(
                result,
                Err(ApiErrorResponse::NotAllowed { action: "use payment link for".to_string() })
            );
        } else {
            assert_eq!(result, Ok(()));
        }
    }
}

#[test]
fn sdk_requirements_all_present() {
    let r = validate_sdk_requirements(
        Some("pk_1".to_string()),
        Some(usd()),
        Some("cs_1".to_string()),
    )
    .unwrap();
    assert_eq!(r.0, "pk_1");
    assert_eq!(r.1.code, "USD");
    assert_eq!(r.2, "cs_1");
}

#[test]
fn sdk_requirements_missing_pub_key() {
    let r = validate_sdk_requirements(None, Some(usd()), Some("cs_1".to_string()));
    assert_eq!(
        r,
        Err(ApiErrorResponse::MissingRequiredField { field_name: "pub_key".to_string() })
    );
}

#[test]
fn sdk_requirements_missing_currency() {
    let r = validate_sdk_requirements(Some("pk_1".to_string()), None, Some("cs_1".to_string()));
    assert_eq!(
        r,
        Err(ApiErrorResponse::MissingRequiredField { field_name: "currency".to_string() })
    );
}

#[test]
fn sdk_requirements_missing_client_secret() {
    let r = validate_sdk_requirements(Some("pk_1".to_string()), Some(usd()), None);
    assert_eq!(
        r,
        Err(ApiErrorResponse::MissingRequiredField { field_name: "client_secret".to_string() })
    );
}

fn order_item(name: &str, img: Option<&str>) -> OrderDetailsWithAmount {
    OrderDetailsWithAmount {
        product_name: name.to_string(),
        quantity: 2,
        amount: 100,
        product_img_link: img.map(|s| s.to_string()),
    }
}

#[test]
fn order_details_default_image_only_where_missing() {
    let docs = vec![
        OrderDetailDocument::WellFormed(order_item("shoes", Some("https://img.example.com/shoes.png"))),
        OrderDetailDocument::WellFormed(order_item("socks", None)),
    ];
    let out = validate_order_details(Some(docs)).unwrap().unwrap();
    assert_eq!(out.len(), 2);
    assert_eq!(out[0].product_img_link.as_deref(), Some("https://img.example.com/shoes.png"));
    assert_eq!(out[1].product_img_link.as_deref(), Some(DEFAULT_PRODUCT_IMG));
    assert_eq!(out[0].product_name, "shoes");
    assert_eq!(out[1].product_name, "socks");
}

#[test]
fn order_details_absent_stay_absent() {
    assert_eq!(validate_order_details(None), Ok(None));
}

#[test]
fn order_details_malformed_entry_fails_whole_list() {
    let docs = vec![
        OrderDetailDocument::WellFormed(order_item("shoes", None)),
        OrderDetailDocument::Malformed,
    ];
    assert_eq!(
        validate_order_details(Some(docs)),
        Err(ApiErrorResponse::InvalidDataValue {
            field_name: "OrderDetailsWithAmount".to_string()
        })
    );
}

#[test]
fn error_kind_names_are_stable() {
    assert_eq!(ApiErrorResponse::PaymentNotFound.kind_name(), "payment_not_found");
    assert_eq!(ApiErrorResponse::PaymentLinkNotFound.kind_name(), "payment_link_not_found");
    assert_eq!(
        ApiErrorResponse::NotAllowed { action: "x".to_string() }.kind_name(),
        "not_allowed"
    );
    assert_eq!(
        ApiErrorResponse::MissingRequiredField { field_name: "x".to_string() }.kind_name(),
        "missing_required_field"
    );
    assert_eq!(
        ApiErrorResponse::InvalidDataValue { field_name: "x".to_string() }.kind_name(),
        "invalid_data_value"
    );
    assert_eq!(ApiErrorResponse::InternalServerError.kind_name(), "internal_server_error");
}

#[test]
fn retrieve_not_found() {
    let now = Instant::from_unix_nanos(0);
    assert_eq!(
        retrieve_payment_link(None, now),
        Err(ApiErrorResponse::PaymentLinkNotFound)
    );
}

#[test]
fn retrieve_reports_record_with_computed_status() {
    let record = link_record();
    let now = Instant::from_unix_nanos(1_700_000_900_000_000_001);
    let response = retrieve_payment_link(Some(record), now).unwrap();
    assert_eq!(response.payment_link_id, "plink_1");
    assert_eq!(response.merchant_id, "merchant_1668273825");
    assert_eq!(response.link_to_pay, "https://pay.example.com/plink_1");
    assert_eq!(response.amount, 6540);
    assert_eq!(response.status, "expired");
    assert_eq!(response.description.as_deref(), Some("a cart"));
}

#[test]
fn listing_keeps_input_order_and_maps_each_record() {
    let mut second = link_record();
    second.payment_link_id = "plink_2".to_string();
    second.max_age = Instant::from_unix_nanos(2_000_000_000_000_000_000);
    let now = Instant::from_unix_nanos(1_700_000_900_000_000_001);
    let out = list_payment_link(vec![link_record(), second], now).unwrap();
    assert_eq!(out.len(), 2);
    assert_eq!(out[0].payment_link_id, "plink_1");
    assert_eq!(out[0].status, "expired");
    assert_eq!(out[1].payment_link_id, "plink_2");
    assert_eq!(out[1].status, "active");
}

#[test]
fn initiation_validation_hands_back_link_id() {
    let fetched = Some(intent(IntentStatus::RequiresPaymentMethod));
    assert_eq!(validate_link_initiation(&fetched), Ok("plink_1".to_string()));
}

#[test]
fn initiation_rejected_for_succeeded_payment() {
    let fetched = Some(intent(IntentStatus::Succeeded));
    assert_eq!(
        validate_link_initiation(&fetched),
        Err(ApiErrorResponse::NotAllowed { action: "use payment link for".to_string() })
    );
    let r = intiate_payment_link_flow(
        &merchant(),
        Some(intent(IntentStatus::Succeeded)),
        Some(link_record()),
        "https://sdk.example.com/v1.js".to_string(),
    );
    assert_eq!(
        r,
        Err(ApiErrorResponse::NotAllowed { action: "use payment link for".to_string() })
    );
}

#[test]
fn initiation_missing_intent_is_payment_not_found() {
    assert_eq!(validate_link_initiation(&None), Err(ApiErrorResponse::PaymentNotFound));
    let r = intiate_payment_link_flow(&merchant(), None, None, "u".to_string());
    assert_eq!(r, Err(ApiErrorResponse::PaymentNotFound));
}

#[test]
fn initiation_intent_without_link_is_link_not_found() {
    let mut i = intent(IntentStatus::RequiresPaymentMethod);
    i.payment_link_id = None;
    assert_eq!(
        validate_link_initiation(&Some(i)),
        Err(ApiErrorResponse::PaymentLinkNotFound)
    );
}

#[test]
fn flow_missing_link_record_is_link_not_found() {
    let r = intiate_payment_link_flow(
        &merchant(),
        Some(intent(IntentStatus::RequiresPaymentMethod)),
        None,
        "u".to_string(),
    );
    assert_eq!(r, Err(ApiErrorResponse::PaymentLinkNotFound));
}

#[test]
fn flow_malformed_stored_config_is_invalid_data() {
    let mut record = link_record();
    record.payment_link_config = PaymentConfigDocument::Malformed;
    let r = intiate_payment_link_flow(
        &merchant(),
        Some(intent(IntentStatus::RequiresPaymentMethod)),
        Some(record),
        "u".to_string(),
    );
    assert_eq!(
        r,
        Err(ApiErrorResponse::InvalidDataValue { field_name: "payment_link_config".to_string() })
    );
}

#[test]
fn flow_missing_return_url_everywhere_is_named_missing_field() {
    let mut i = intent(IntentStatus::RequiresPaymentMethod);
    i.return_url = None;
    let mut m = merchant();
    m.return_url = None;
    let r = intiate_payment_link_flow(&m, Some(i), Some(link_record()), "u".to_string());
    assert_eq!(
        r,
        Err(ApiErrorResponse::MissingRequiredField { field_name: "return_url".to_string() })
    );
}

#[test]
fn flow_missing_client_secret_is_named_missing_field() {
    let mut i = intent(IntentStatus::RequiresPaymentMethod);
    i.client_secret = None;
    let r = intiate_payment_link_flow(&merchant(), Some(i), Some(link_record()), "u".to_string());
    assert_eq!(
        r,
        Err(ApiErrorResponse::MissingRequiredField { field_name: "client_secret".to_string() })
    );
}

#[test]
fn flow_falls_back_to_merchant_return_url() {
    let mut i = intent(IntentStatus::RequiresPaymentMethod);
    i.return_url = None;
    let r = intiate_payment_link_flow(&merchant(), Some(i), Some(link_record()), "u".to_string())
        .unwrap();
    assert!(r.js_script.contains("https://acme.example.com/done"));
}

#[test]
fn flow_success_produces_full_bundle() {
    let r = intiate_payment_link_flow(
        &merchant(),
        Some(intent(IntentStatus::RequiresPaymentMethod)),
        Some(link_record()),
        "https://sdk.example.com/v1.js".to_string(),
    )
    .unwrap();
    assert_eq!(r.sdk_url, "https://sdk.example.com/v1.js");
    assert!(r.js_script.starts_with("window.__PAYMENT_DETAILS = {"));
    assert!(r.js_script.ends_with("};"));
    assert!(r.css_script.contains("--primary-color"));
}
