use payment_link_core::{
    dec_i64, get_color_scheme_css, get_js_script, extract_business_payment_link_config,
    extract_payment_link_config, get_payment_link_config_based_on_priority, validate_bank_details,
    ApiErrorResponse, Bank, BankDetailsError, BusinessConfigDocument, BusinessPaymentLinkConfig,
    Currency, Instant, OrderDetailsWithAmount, PaymentConfigDocument, PaymentCreatePaymentLinkConfig,
    PaymentLinkConfig, PaymentLinkDetails, PayoutRetrieveBody, PayoutRetrieveRequest,
    DEFAULT_BACKGROUND_COLOR, DEFAULT_MERCHANT_LOGO, DEFAULT_PAYMENT_LINK_EXPIRY, DEFAULT_SDK_THEME,
};

fn empty_config() -> PaymentLinkConfig {
    PaymentLinkConfig { max_age: None, theme: None, logo: None, seller_name: None }
}

fn business(domain: Option<&str>, config: PaymentLinkConfig) -> BusinessConfigDocument {
    BusinessConfigDocument::WellFormed(BusinessPaymentLinkConfig {
        domain_name: domain.map(|d| d.to_string()),
        config,
    })
}

#[test]
fn resolution_with_both_layers_absent_uses_system_defaults() {
    let (resolved, domain) = get_payment_link_config_based_on_priority(
        None,
        None,
        "Acme".to_string(),
        "https://default.example.com".to_string(),
    )
    .unwrap();
    assert_eq!(resolved.config.theme.as_deref(), Some(DEFAULT_BACKGROUND_COLOR));
    assert_eq!(resolved.config.logo.as_deref(), Some(DEFAULT_MERCHANT_LOGO));
    assert_eq!(resolved.config.seller_name.as_deref(), Some("Acme"));
    assert_eq!(resolved.config.max_age, Some(DEFAULT_PAYMENT_LINK_EXPIRY));
    assert_eq!(domain, "https://default.example.com");
}

#[test]
fn resolution_business_only_takes_its_theme_and_domain() {
    let b = business(
        Some("pay.example.com"),
        PaymentLinkConfig { theme: Some("dark".to_string()), ..empty_config() },
    );
    let (resolved, domain) = get_payment_link_config_based_on_priority(
        None,
        Some(b),
        "Acme".to_string(),
        "https://default.example.com".to_string(),
    )
    .unwrap();
    assert_eq!(resolved.config.theme.as_deref(), Some("dark"));
    assert_eq!(domain, "https://pay.example.com");
    assert_eq!(resolved.config.logo.as_deref(), Some(DEFAULT_MERCHANT_LOGO));
    assert_eq!(resolved.config.seller_name.as_deref(), Some("Acme"));
    assert_eq!(resolved.config.max_age, Some(DEFAULT_PAYMENT_LINK_EXPIRY));
}

#[test]
fn resolution_is_field_level_not_whole_object() {
    let payment = PaymentCreatePaymentLinkConfig {
        config: PaymentLinkConfig { theme: Some("light".to_string()), ..empty_config() },
    };
    let b = business(
        None,
        PaymentLinkConfig {
            logo: Some("https://biz.example.com/logo.png".to_string()),
            seller_name: Some("Acme GmbH".to_string()),
            ..empty_config()
        },
    );
    let (resolved, domain) = get_payment_link_config_based_on_priority(
        Some(payment),
        Some(b),
        "Acme".to_string(),
        "https://default.example.com".to_string(),
    )
    .unwrap();
    assert_eq!(resolved.config.theme.as_deref(), Some("light"));
    assert_eq!(resolved.config.logo.as_deref(), Some("https://biz.example.com/logo.png"));
    assert_eq!(resolved.config.seller_name.as_deref(), Some("Acme GmbH"));
    assert_eq!(resolved.config.max_age, Some(DEFAULT_PAYMENT_LINK_EXPIRY));
    assert_eq!(domain, "https://default.example.com");
}

#[test]
fn resolution_payment_layer_wins_per_field() {
    let payment = PaymentCreatePaymentLinkConfig {
        config: PaymentLinkConfig {
            max_age: Some(60),
            theme: Some("light".to_string()),
            logo: Some("https://pay.example.com/logo.png".to_string()),
            seller_name: Some("Acme Store".to_string()),
        },
    };
    let b = business(
        Some("pay.example.com"),
        PaymentLinkConfig {
            max_age: Some(120),
            theme: Some("dark".to_string()),
            logo: Some("https://biz.example.com/logo.png".to_string()),
            seller_name: Some("Acme GmbH".to_string()),
        },
    );
    let (resolved, domain) = get_payment_link_config_based_on_priority(
        Some(payment),
        Some(b),
        "Acme".to_string(),
        "https://default.example.com".to_string(),
    )
    .unwrap();
    assert_eq!(resolved.config.max_age, Some(60));
    assert_eq!(resolved.config.theme.as_deref(), Some("light"));
    assert_eq!(resolved.config.logo.as_deref(), Some("https://pay.example.com/logo.png"));
    assert_eq!(resolved.config.seller_name.as_deref(), Some("Acme Store"));
    assert_eq!(domain, "https://pay.example.com");
}

#[test]
fn resolution_malformed_business_document_fails() {
    let r = get_payment_link_config_based_on_priority(
        None,
        Some(BusinessConfigDocument::Malformed),
        "Acme".to_string(),
        "https://default.example.com".to_string(),
    );
    assert_eq!(
        r,
        Err(ApiErrorResponse::InvalidDataValue { field_name: "payment_link_config".to_string() })
    );
}

#[test]
fn resolution_is_idempotent_on_identical_inputs() {
    let payment = PaymentCreatePaymentLinkConfig {
        config: PaymentLinkConfig { theme: Some("light".to_string()), ..empty_config() },
    };
    let b = business(Some("pay.example.com"), empty_config());
    let first = get_payment_link_config_based_on_priority(
        Some(payment.clone()),
        Some(b.clone()),
        "Acme".to_string(),
        "https://default.example.com".to_string(),
    );
    let second = get_payment_link_config_based_on_priority(
        Some(payment),
        Some(b),
        "Acme".to_string(),
        "https://default.example.com".to_string(),
    );
    assert_eq!(first, second);
}

#[test]
fn extraction_unwraps_well_formed_documents_and_rejects_malformed_ones() {
    let config = PaymentCreatePaymentLinkConfig { config: empty_config() };
    assert_eq!(
        extract_payment_link_config(PaymentConfigDocument::WellFormed(config.clone())),
        Ok(config)
    );
    assert_eq!(
        extract_payment_link_config(PaymentConfigDocument::Malformed),
        Err(ApiErrorResponse::InvalidDataValue { field_name: "payment_link_config".to_string() })
    );
    let b = BusinessPaymentLinkConfig { domain_name: None, config: empty_config() };
    assert_eq!(
        extract_business_payment_link_config(business(None, empty_config())),
        Ok(b)
    );
    assert_eq!(
        extract_business_payment_link_config(BusinessConfigDocument::Malformed),
        Err(ApiErrorResponse::InvalidDataValue { field_name: "payment_link_config".to_string() })
    );
}

fn payload() -> PaymentLinkDetails {
    PaymentLinkDetails {
        amount: 6540,
        currency: Currency { code: "USD".to_string() },
        payment_id: "pay_mbabizu24mvu3mela5njyhpit4".to_string(),
        merchant_name: "Acme".to_string(),
        order_details: Some(vec![OrderDetailsWithAmount {
            product_name: "shoes".to_string(),
            quantity: 2,
            amount: 3270,
            product_img_link: None,
        }]),
        return_url: "https://acme.example.com/done".to_string(),
        expiry: Instant::from_unix_nanos(1_700_000_900_000_000_000),
        pub_key: "pk_live_acme".to_string(),
        client_secret: "pay_123_secret_456".to_string(),
        merchant_logo: "https://acme.example.com/logo.png".to_string(),
        max_items_visible_after_collapse: 3,
        theme: "#7EA8F6".to_string(),
    }
}

#[test]
fn script_carries_payment_id_amount_and_currency_verbatim() {
    let script = get_js_script(&payload()).unwrap();
    assert!(script.starts_with("window.__PAYMENT_DETAILS = "));
    assert!(script.ends_with(";"));
    assert!(script.contains("pay_mbabizu24mvu3mela5njyhpit4"));
    assert!(script.contains("6540"));
    assert!(script.contains("USD"));
}

#[test]
fn script_payload_is_well_formed_json_with_the_assembled_fields() {
    let script = get_js_script(&payload()).unwrap();
    let body = script
        .strip_prefix("window.__PAYMENT_DETAILS = ")
        .unwrap()
        .strip_suffix(";")
        .unwrap();
    let value: serde_json::Value = serde_json::from_str(body).unwrap();
    assert_eq!(value["amount"], serde_json::Value::from(6540));
    assert_eq!(value["currency"], serde_json::Value::from("USD"));
    assert_eq!(value["payment_id"], serde_json::Value::from("pay_mbabizu24mvu3mela5njyhpit4"));
    assert_eq!(value["merchant_name"], serde_json::Value::from("Acme"));
    assert_eq!(value["max_items_visible_after_collapse"], serde_json::Value::from(3));
    assert_eq!(value["expiry"], serde_json::Value::from(1_700_000_900_000_000_000i64));
    assert_eq!(value["order_details"][0]["product_name"], serde_json::Value::from("shoes"));
    assert_eq!(value["order_details"][0]["quantity"], serde_json::Value::from(2));
    assert_eq!(value["order_details"][0]["product_img_link"], serde_json::Value::Null);
}

#[test]
fn script_escapes_special_characters() {
    let mut p = payload();
    p.merchant_name = "Acme \"The\\Shop\"\n".to_string();
    let script = get_js_script(&p).unwrap();
    let body = script
        .strip_prefix("window.__PAYMENT_DETAILS = ")
        .unwrap()
        .strip_suffix(";")
        .unwrap();
    let value: serde_json::Value = serde_json::from_str(body).unwrap();
    assert_eq!(value["merchant_name"], serde_json::Value::from("Acme \"The\\Shop\"\n"));
}

#[test]
fn decimal_rendering_handles_extremes() {
    assert_eq!(dec_i64(0), "0");
    assert_eq!(dec_i64(-1), "-1");
    assert_eq!(dec_i64(i64::MAX), "9223372036854775807");
    assert_eq!(dec_i64(i64::MIN), "-9223372036854775808");
}

#[test]
fn css_uses_resolved_theme_or_default() {
    let themed = PaymentCreatePaymentLinkConfig {
        config: PaymentLinkConfig { theme: Some("#101010".to_string()), ..empty_config() },
    };
    let css = get_color_scheme_css(themed, DEFAULT_BACKGROUND_COLOR.to_string());
    assert_eq!(css, ":root {\n      --primary-color: #101010;\n    }");
    let bare = PaymentCreatePaymentLinkConfig { config: empty_config() };
    let css = get_color_scheme_css(bare, DEFAULT_BACKGROUND_COLOR.to_string());
    assert_eq!(
        css,
        format!(":root {{\n      --primary-color: {DEFAULT_BACKGROUND_COLOR};\n    }}")
    );
    assert_ne!(DEFAULT_SDK_THEME, "");
}

fn bank(
    account: Option<&str>,
    routing: Option<&str>,
    iban: Option<&str>,
    bic: Option<&str>,
    sort_code: Option<&str>,
    blz: Option<&str>,
    transit: Option<&str>,
) -> Bank {
    Bank {
        bank_account_number: account.map(|s| s.to_string()),
        bank_routing_number: routing.map(|s| s.to_string()),
        iban: iban.map(|s| s.to_string()),
        bic: bic.map(|s| s.to_string()),
        bank_sort_code: sort_code.map(|s| s.to_string()),
        blz: blz.map(|s| s.to_string()),
        bank_transit_number: transit.map(|s| s.to_string()),
        bank_name: "Deutsche Bank".to_string(),
    }
}

#[test]
fn bank_default_is_a_valid_usa_destination() {
    let b = Bank::default();
    assert_eq!(b.bank_account_number.as_deref(), Some("000123456"));
    assert_eq!(b.bank_routing_number.as_deref(), Some("110000000"));
    assert_eq!(b.iban, None);
    assert_eq!(b.bank_name, "Deutsche Bank");
    assert_eq!(validate_bank_details(&b), Ok(()));
}

#[test]
fn bank_details_combinations() {
    assert_eq!(
        validate_bank_details(&bank(None, None, None, None, None, None, None)),
        Err(BankDetailsError::MissingDetails)
    );
    assert_eq!(
        validate_bank_details(&bank(None, Some("110000000"), None, None, None, None, None)),
        Err(BankDetailsError::AccountNumberRequiredWithRoutingNumber)
    );
    assert_eq!(
        validate_bank_details(&bank(None, None, None, Some("HSBCGB2LXXX"), None, None, None)),
        Err(BankDetailsError::AccountNumberRequiredWithBic)
    );
    assert_eq!(
        validate_bank_details(&bank(None, None, None, None, Some("98-76-54"), None, None)),
        Err(BankDetailsError::AccountNumberRequiredWithSortCode)
    );
    assert_eq!(
        validate_bank_details(&bank(None, None, None, None, None, Some("10070024"), None)),
        Err(BankDetailsError::AccountNumberRequiredWithBlz)
    );
    assert_eq!(
        validate_bank_details(&bank(None, None, None, None, None, None, Some("12345-123"))),
        Err(BankDetailsError::AccountNumberRequiredWithTransitNumber)
    );
    assert_eq!(
        validate_bank_details(&bank(Some("000123456"), None, None, None, None, None, None)),
        Err(BankDetailsError::AccountNumberNeedsBranchIdentifier)
    );
    assert_eq!(
        validate_bank_details(&bank(None, None, Some("DE89370400440532013000"), None, None, None, None)),
        Ok(())
    );
    assert_eq!(
        validate_bank_details(&bank(Some("000123456"), Some("110000000"), None, None, None, None, None)),
        Ok(())
    );
    assert_eq!(
        validate_bank_details(&bank(Some("000123456"), None, Some("DE89370400440532013000"), None, None, None, Some("12345-123"))),
        Ok(())
    );
}

#[test]
fn payout_retrieve_shapes_carry_their_fields() {
    let body = PayoutRetrieveBody { force_sync: Some(true) };
    assert_eq!(body.force_sync, Some(true));
    let request = PayoutRetrieveRequest {
        payout_id: "payout_mbabizu24mvu3mela5njyhpit4".to_string(),
        force_sync: None,
    };
    assert_eq!(request.payout_id, "payout_mbabizu24mvu3mela5njyhpit4");
    assert_eq!(PayoutRetrieveRequest::default().payout_id, "");
}
