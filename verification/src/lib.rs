//! Hosted payment-link lifecycle and configuration-resolution engine.
//!
//! Given a previously created payment, this library decides whether its
//! shareable checkout link may still be used, resolves the effective
//! presentation configuration from layered overrides, assembles the
//! bootstrap payload a client renderer consumes, and renders it into an
//! injectable script and style artifact.

use vstd::prelude::*;

mod config;
mod errors;
mod instant;
mod jsontext;
mod payment_link;
mod payouts;
mod render;
mod status;

pub use config::BusinessConfigDocument;
pub use config::BusinessConfigDocumentV;
pub use config::BusinessPaymentLinkConfig;
pub use config::BusinessPaymentLinkConfigV;
pub use config::PaymentConfigDocument;
pub use config::PaymentConfigDocumentV;
pub use config::PaymentCreatePaymentLinkConfig;
pub use config::PaymentLinkConfig;
pub use config::PaymentLinkConfigV;
pub use config::DEFAULT_BACKGROUND_COLOR;
pub use config::DEFAULT_MERCHANT_LOGO;
pub use config::DEFAULT_PAYMENT_LINK_EXPIRY;
pub use config::DEFAULT_PRODUCT_IMG;
pub use config::DEFAULT_SDK_THEME;
pub use config::extract_business_payment_link_config;
pub use config::extract_payment_link_config;
pub use config::get_payment_link_config_based_on_priority;
pub use config::spec_business_layer;
pub use config::spec_resolve_field;
pub use config::spec_resolve_link_config;
pub use config::spec_resolved_domain;

pub use config::lemma_field_level_independence;
pub use config::lemma_resolution_idempotent;
pub use config::lemma_resolution_stable;

pub use errors::ApiErrorResponse;
pub use errors::ApiErrorV;
pub use instant::Instant;
pub use instant::current_time;

pub use jsontext::dec_i128;
pub use jsontext::dec_i64;
pub use jsontext::dec_u128;
pub use jsontext::lemma_escape_identity;
pub use jsontext::needs_no_escaping;
pub use jsontext::spec_dec_int;
pub use jsontext::spec_dec_nat;
pub use jsontext::spec_digit_char;
pub use jsontext::spec_escape;
pub use jsontext::spec_escape_char;
pub use jsontext::spec_hex_char;
pub use jsontext::spec_json_string;

pub use payment_link::Currency;
pub use payment_link::MerchantAccount;
pub use payment_link::MerchantAccountV;
pub use payment_link::OrderDetailDocument;
pub use payment_link::OrderDetailDocumentV;
pub use payment_link::OrderDetailsWithAmount;
pub use payment_link::OrderDetailsWithAmountV;
pub use payment_link::PaymentIntent;
pub use payment_link::PaymentIntentV;
pub use payment_link::PaymentLink;
pub use payment_link::PaymentLinkV;
pub use payment_link::RetrievePaymentLinkResponse;
pub use payment_link::RetrievePaymentLinkResponseV;
pub use payment_link::from_db_payment_link;
pub use payment_link::intiate_payment_link_flow;
pub use payment_link::lemma_guard_rejects_exactly_five;
pub use payment_link::lemma_missing_required_field_errors;
pub use payment_link::list_payment_link;
pub use payment_link::retrieve_payment_link;
pub use payment_link::spec_intiate_payment_link_flow;
pub use payment_link::spec_link_response;
pub use payment_link::spec_normalize_order_detail;
pub use payment_link::spec_validate_link_initiation;
pub use payment_link::spec_validate_order_details;
pub use payment_link::spec_validate_sdk_requirements;
pub use payment_link::validate_link_initiation;
pub use payment_link::validate_order_details;
pub use payment_link::validate_sdk_requirements;
pub use payment_link::view_opt_currency;
pub use payment_link::view_opt_intent;
pub use payment_link::view_opt_link;
pub use payment_link::view_opt_order_docs;
pub use payment_link::view_opt_str;
pub use payment_link::view_order_docs;
pub use payment_link::view_order_items;

pub use payouts::Bank;
pub use payouts::BankDetailsError;
pub use payouts::PayoutRetrieveBody;
pub use payouts::PayoutRetrieveRequest;
pub use payouts::spec_validate_bank_details;
pub use payouts::validate_bank_details;

pub use render::MAX_ITEMS_VISIBLE_AFTER_COLLAPSE;
pub use render::PaymentLinkDetails;
pub use render::PaymentLinkDetailsV;
pub use render::PaymentLinkFormData;
pub use render::PaymentLinkFormDataV;
pub use render::contains_subseq;
pub use render::get_color_scheme_css;
pub use render::get_js_script;
pub use render::lemma_script_contains_payment_literals;
pub use render::render_payload_json;
pub use render::spec_color_scheme_css;
pub use render::spec_js_script;
pub use render::spec_json_opt_string;
pub use render::spec_order_details_json;
pub use render::spec_order_item_json;
pub use render::spec_order_items_json;
pub use render::spec_payload_head;
pub use render::spec_payload_json;
pub use render::spec_payload_tail;
pub use status::IntentStatus;
pub use status::check_payment_link_status;
pub use status::evaluate_link_status;
pub use status::is_link_initiation_disallowed;
pub use status::link_initiation_not_allowed_statuses;
pub use status::spec_link_status;
pub use status::validate_payment_status_against_not_allowed_statuses;

verus! {

} // verus!
