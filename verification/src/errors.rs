//! The typed failures the engine surfaces to its callers.
//!
//! Every failure is one of these named outcomes; none is swallowed or
//! retried inside the engine.

use vstd::prelude::*;

verus! {

/// A failure of one of the engine's operations.
#[derive(Debug, Clone, PartialEq)]
pub enum ApiErrorResponse {
    /// The payment intent was not found in the store.
    PaymentNotFound,
    /// The payment-link record was not found, or the intent carries no link.
    PaymentLinkNotFound,
    /// The payment's current status forbids the attempted action; carries a
    /// human-readable description of that action.
    NotAllowed { action: String },
    /// A field required for the operation is absent after every fallback
    /// layer was consulted.
    MissingRequiredField { field_name: String },
    /// A stored structured document does not have the expected shape.
    InvalidDataValue { field_name: String },
    /// An invariant violation that well-formed inputs can never produce.
    InternalServerError,
}

/// The mathematical shape of an [`ApiErrorResponse`].
pub enum ApiErrorV {
    PaymentNotFound,
    PaymentLinkNotFound,
    NotAllowed { action: Seq<char> },
    MissingRequiredField { field_name: Seq<char> },
    InvalidDataValue { field_name: Seq<char> },
    InternalServerError,
}

impl View for ApiErrorResponse {
    type V = ApiErrorV;

    open spec fn view(&self) -> ApiErrorV {
        match self {
            ApiErrorResponse::PaymentNotFound => ApiErrorV::PaymentNotFound,
            ApiErrorResponse::PaymentLinkNotFound => ApiErrorV::PaymentLinkNotFound,
            ApiErrorResponse::NotAllowed { action } => ApiErrorV::NotAllowed {
                action: action@,
            },
            ApiErrorResponse::MissingRequiredField { field_name } => {
                ApiErrorV::MissingRequiredField { field_name: field_name@ }
            },
            ApiErrorResponse::InvalidDataValue { field_name } => {
                ApiErrorV::InvalidDataValue { field_name: field_name@ }
            },
            ApiErrorResponse::InternalServerError => ApiErrorV::InternalServerError,
        }
    }
}

impl ApiErrorResponse {
    /// The stable machine name of the error's kind, for logs and transports.
    pub fn kind_name(&self) -> (r: &'static str)
        ensures
            r@ == self.spec_kind_name(),
    {
        match self {
            ApiErrorResponse::PaymentNotFound => "payment_not_found",
            ApiErrorResponse::PaymentLinkNotFound => "payment_link_not_found",
            ApiErrorResponse::NotAllowed { .. } => "not_allowed",
            ApiErrorResponse::MissingRequiredField { .. } => "missing_required_field",
            ApiErrorResponse::InvalidDataValue { .. } => "invalid_data_value",
            ApiErrorResponse::InternalServerError => "internal_server_error",
        }
    }

    /// What [`Self::kind_name`] returns, by kind.
    pub open spec fn spec_kind_name(&self) -> Seq<char> {
        match self {
            ApiErrorResponse::PaymentNotFound => "payment_not_found"@,
            ApiErrorResponse::PaymentLinkNotFound => "payment_link_not_found"@,
            ApiErrorResponse::NotAllowed { .. } => "not_allowed"@,
            ApiErrorResponse::MissingRequiredField { .. } => "missing_required_field"@,
            ApiErrorResponse::InvalidDataValue { .. } => "invalid_data_value"@,
            ApiErrorResponse::InternalServerError => "internal_server_error"@,
        }
    }
}

} // verus!
