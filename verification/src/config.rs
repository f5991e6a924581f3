//! Layered presentation configuration for a hosted payment link, and the
//! resolver that merges it.
//!
//! Two optional layers exist per resolution: a payment-scoped override
//! attached to the link record, and a business-scoped default attached to
//! the merchant's business profile. Neither is authoritative on its own;
//! only the resolved configuration, with every field populated, is used
//! downstream. Stored layers arrive as opaque structured documents, so each
//! is modelled as a tagged parse result: either it had the expected shape,
//! or it did not and resolution fails with a data-validation error.

use vstd::prelude::*;

use crate::errors::{ApiErrorResponse, ApiErrorV};

verus! {

/// System default for a link's background/primary theme colour.
pub const DEFAULT_BACKGROUND_COLOR: &'static str = "#212E46";

/// System default for the merchant logo shown on a hosted link.
pub const DEFAULT_MERCHANT_LOGO: &'static str = "https://checkout.example.com/assets/merchant_placeholder.png";

/// System default image for an order item that carries none.
pub const DEFAULT_PRODUCT_IMG: &'static str = "https://checkout.example.com/assets/product_placeholder.png";

/// System default theme handed to the client-side SDK.
pub const DEFAULT_SDK_THEME: &'static str = "#7EA8F6";

/// System default for a link's maximum age, in seconds.
pub const DEFAULT_PAYMENT_LINK_EXPIRY: i64 = 900;

/// One layer of link configuration: every field independently optional.
#[derive(Debug, Clone, PartialEq)]
pub struct PaymentLinkConfig {
    /// Maximum age of the link, in seconds.
    pub max_age: Option<i64>,
    /// Primary theme colour.
    pub theme: Option<String>,
    /// URL of the merchant logo.
    pub logo: Option<String>,
    /// Merchant name to display on the link.
    pub seller_name: Option<String>,
}

/// The mathematical shape of a [`PaymentLinkConfig`].
pub struct PaymentLinkConfigV {
    pub max_age: Option<int>,
    pub theme: Option<Seq<char>>,
    pub logo: Option<Seq<char>>,
    pub seller_name: Option<Seq<char>>,
}

impl View for PaymentLinkConfig {
    type V = PaymentLinkConfigV;

    open spec fn view(&self) -> PaymentLinkConfigV {
        PaymentLinkConfigV {
            max_age: match self.max_age {
                Some(a) => Some(a as int),
                None => None,
            },
            theme: match self.theme {
                Some(ref t) => Some(t@),
                None => None,
            },
            logo: match self.logo {
                Some(ref l) => Some(l@),
                None => None,
            },
            seller_name: match self.seller_name {
                Some(ref s) => Some(s@),
                None => None,
            },
        }
    }
}

/// The payment-scoped configuration override, as attached to one payment.
#[derive(Debug, Clone, PartialEq)]
pub struct PaymentCreatePaymentLinkConfig {
    pub config: PaymentLinkConfig,
}

impl View for PaymentCreatePaymentLinkConfig {
    type V = PaymentLinkConfigV;

    open spec fn view(&self) -> PaymentLinkConfigV {
        self.config@
    }
}

/// The business-scoped default configuration from the merchant's profile,
/// with its additional optional domain name.
#[derive(Debug, Clone, PartialEq)]
pub struct BusinessPaymentLinkConfig {
    /// Domain under which hosted links are served, without a scheme.
    pub domain_name: Option<String>,
    pub config: PaymentLinkConfig,
}

/// The mathematical shape of a [`BusinessPaymentLinkConfig`].
pub struct BusinessPaymentLinkConfigV {
    pub domain_name: Option<Seq<char>>,
    pub config: PaymentLinkConfigV,
}

impl View for BusinessPaymentLinkConfig {
    type V = BusinessPaymentLinkConfigV;

    open spec fn view(&self) -> BusinessPaymentLinkConfigV {
        BusinessPaymentLinkConfigV {
            domain_name: match self.domain_name {
                Some(ref d) => Some(d@),
                None => None,
            },
            config: self.config@,
        }
    }
}

/// A stored payment-scoped configuration document, as the engine reads it:
/// either the opaque document had the expected shape, or it did not.
#[derive(Debug, Clone, PartialEq)]
pub enum PaymentConfigDocument {
    WellFormed(PaymentCreatePaymentLinkConfig),
    Malformed,
}

/// The mathematical shape of a [`PaymentConfigDocument`].
pub enum PaymentConfigDocumentV {
    WellFormed(PaymentLinkConfigV),
    Malformed,
}

impl View for PaymentConfigDocument {
    type V = PaymentConfigDocumentV;

    open spec fn view(&self) -> PaymentConfigDocumentV {
        match self {
            PaymentConfigDocument::WellFormed(c) => PaymentConfigDocumentV::WellFormed(c@),
            PaymentConfigDocument::Malformed => PaymentConfigDocumentV::Malformed,
        }
    }
}

/// A stored business-scoped configuration document, as the engine reads it.
#[derive(Debug, Clone, PartialEq)]
pub enum BusinessConfigDocument {
    WellFormed(BusinessPaymentLinkConfig),
    Malformed,
}

/// The mathematical shape of a [`BusinessConfigDocument`].
pub enum BusinessConfigDocumentV {
    WellFormed(BusinessPaymentLinkConfigV),
    Malformed,
}

impl View for BusinessConfigDocument {
    type V = BusinessConfigDocumentV;

    open spec fn view(&self) -> BusinessConfigDocumentV {
        match self {
            BusinessConfigDocument::WellFormed(c) => BusinessConfigDocumentV::WellFormed(c@),
            BusinessConfigDocument::Malformed => BusinessConfigDocumentV::Malformed,
        }
    }
}

/// Reads the payment-scoped configuration out of its stored document,
/// surfacing a shape mismatch as a data-validation error naming the field.
pub fn extract_payment_link_config(pl_config: PaymentConfigDocument) -> (r: Result<
    PaymentCreatePaymentLinkConfig,
    ApiErrorResponse,
>)
    ensures
        match pl_config@ {
            PaymentConfigDocumentV::WellFormed(c) => r matches Ok(out) && out@ == c,
            PaymentConfigDocumentV::Malformed => r matches Err(e) && e@ == (
            ApiErrorV::InvalidDataValue { field_name: "payment_link_config"@ }),
        },
{
    match pl_config {
        PaymentConfigDocument::WellFormed(c) => Ok(c),
        PaymentConfigDocument::Malformed => Err(
            ApiErrorResponse::InvalidDataValue {
                field_name: String::from_str("payment_link_config"),
            },
        ),
    }
}

/// Reads the business-scoped configuration out of its stored document,
/// surfacing a shape mismatch as a data-validation error naming the field.
pub fn extract_business_payment_link_config(pl_config: BusinessConfigDocument) -> (r: Result<
    BusinessPaymentLinkConfig,
    ApiErrorResponse,
>)
    ensures
        match pl_config@ {
            BusinessConfigDocumentV::WellFormed(c) => r matches Ok(out) && out@ == c,
            BusinessConfigDocumentV::Malformed => r matches Err(e) && e@ == (
            ApiErrorV::InvalidDataValue { field_name: "payment_link_config"@ }),
        },
{
    match pl_config {
        BusinessConfigDocument::WellFormed(c) => Ok(c),
        BusinessConfigDocument::Malformed => Err(
            ApiErrorResponse::InvalidDataValue {
                field_name: String::from_str("payment_link_config"),
            },
        ),
    }
}

/// Field-level precedence: the payment-scoped value if present, else the
/// business-scoped value if present, else the system default.
pub open spec fn spec_resolve_field<T>(
    payment: Option<T>,
    business: Option<T>,
    system_default: T,
) -> T {
    match payment {
        Some(p) => p,
        None => match business {
            Some(b) => b,
            None => system_default,
        },
    }
}

/// The inner configuration of a business document, when one is present and
/// well-formed; `None` otherwise.
pub open spec fn spec_business_layer(business: Option<BusinessConfigDocumentV>) -> Option<
    BusinessPaymentLinkConfigV,
> {
    match business {
        Some(BusinessConfigDocumentV::WellFormed(b)) => Some(b),
        _ => None,
    }
}

/// The effective domain: `https://` in front of the business layer's domain
/// name when one is present, else the supplied default domain.
pub open spec fn spec_resolved_domain(
    business: Option<BusinessPaymentLinkConfigV>,
    default_domain_name: Seq<char>,
) -> Seq<char> {
    match business {
        Some(b) => match b.domain_name {
            Some(d) => "https://"@ + d,
            None => default_domain_name,
        },
        None => default_domain_name,
    }
}

/// What configuration resolution returns: for every field the payment layer
/// wins, then the business layer, then the system default; the result always
/// has all four fields populated. A business document that is present but
/// malformed fails the whole resolution with a data-validation error.
pub open spec fn spec_resolve_link_config(
    payment: Option<PaymentLinkConfigV>,
    business: Option<BusinessConfigDocumentV>,
    merchant_name: Seq<char>,
    default_domain_name: Seq<char>,
) -> Result<(PaymentLinkConfigV, Seq<char>), ApiErrorV> {
    if business matches Some(BusinessConfigDocumentV::Malformed) {
        Err(ApiErrorV::InvalidDataValue { field_name: "payment_link_config"@ })
    } else {
        let b = spec_business_layer(business);
        let p = match payment {
            Some(p) => p,
            None => PaymentLinkConfigV { max_age: None, theme: None, logo: None, seller_name: None },
        };
        let b_config = match b {
            Some(bc) => bc.config,
            None => PaymentLinkConfigV { max_age: None, theme: None, logo: None, seller_name: None },
        };
        Ok(
            (
                PaymentLinkConfigV {
                    max_age: Some(
                        spec_resolve_field(
                            p.max_age,
                            b_config.max_age,
                            DEFAULT_PAYMENT_LINK_EXPIRY as int,
                        ),
                    ),
                    theme: Some(
                        spec_resolve_field(p.theme, b_config.theme, DEFAULT_BACKGROUND_COLOR@),
                    ),
                    logo: Some(spec_resolve_field(p.logo, b_config.logo, DEFAULT_MERCHANT_LOGO@)),
                    seller_name: Some(
                        spec_resolve_field(p.seller_name, b_config.seller_name, merchant_name),
                    ),
                },
                spec_resolved_domain(b, default_domain_name),
            ),
        )
    }
}

/// Law: resolution is idempotent over repeated calls — resolving twice with
/// identical inputs yields identical output, whichever of the four presence
/// combinations of (payment layer, business layer) holds.
pub proof fn lemma_resolution_idempotent(
    payment: Option<PaymentLinkConfigV>,
    business: Option<BusinessConfigDocumentV>,
    merchant_name: Seq<char>,
    default_domain_name: Seq<char>,
)
    ensures
        spec_resolve_link_config(payment, business, merchant_name, default_domain_name)
            == spec_resolve_link_config(payment, business, merchant_name, default_domain_name),
{
}

/// Law: resolution is idempotent in the stronger sense too — feeding a
/// successfully resolved configuration back in as the payment layer resolves
/// to exactly the same configuration and domain again.
pub proof fn lemma_resolution_stable(
    payment: Option<PaymentLinkConfigV>,
    business: Option<BusinessConfigDocumentV>,
    merchant_name: Seq<char>,
    default_domain_name: Seq<char>,
)
    requires
        spec_resolve_link_config(payment, business, merchant_name, default_domain_name) is Ok,
    ensures
        ({
            let first = spec_resolve_link_config(
                payment,
                business,
                merchant_name,
                default_domain_name,
            );
            spec_resolve_link_config(
                Some(first->Ok_0.0),
                business,
                merchant_name,
                default_domain_name,
            ) == first
        }),
{
}

/// Law: field-level independence — a payment layer that sets only `theme`
/// pins the resolved theme to that value and leaves every other field, and
/// the domain, exactly as they would resolve with no payment layer at all.
pub proof fn lemma_field_level_independence(
    theme: Seq<char>,
    business: Option<BusinessConfigDocumentV>,
    merchant_name: Seq<char>,
    default_domain_name: Seq<char>,
)
    ensures
        ({
            let only_theme = PaymentLinkConfigV {
                max_age: None,
                theme: Some(theme),
                logo: None,
                seller_name: None,
            };
            let with_override = spec_resolve_link_config(
                Some(only_theme),
                business,
                merchant_name,
                default_domain_name,
            );
            let without_override = spec_resolve_link_config(
                None,
                business,
                merchant_name,
                default_domain_name,
            );
            match (with_override, without_override) {
                (Ok((c1, d1)), Ok((c0, d0))) => {
                    &&& c1.theme == Some(theme)
                    &&& c1.logo == c0.logo
                    &&& c1.seller_name == c0.seller_name
                    &&& c1.max_age == c0.max_age
                    &&& d1 == d0
                },
                (Err(e1), Err(e0)) => e1 == e0,
                _ => false,
            }
        }),
{
}

/// Picks one string by field-level precedence, copying the winning layer.
fn resolve_string_field(
    payment: Option<String>,
    business: Option<String>,
    system_default: String,
) -> (r: String)
    ensures
        r@ == spec_resolve_field(
            match payment {
                Some(ref p) => Some(p@),
                None => None,
            },
            match business {
                Some(ref b) => Some(b@),
                None => None,
            },
            system_default@,
        ),
{
    match payment {
        Some(p) => p,
        None => match business {
            Some(b) => b,
            None => system_default,
        },
    }
}

/// Merges the payment-scoped override and the business-scoped default into
/// one effective configuration, with the payment layer taking precedence
/// field by field, the business layer next, and fixed system defaults last
/// (`seller_name` defaults to the supplied merchant name). The effective
/// domain comes from the business layer when it names one, else it is the
/// supplied default. A present but malformed business document fails the
/// resolution; it is never silently ignored.
pub fn get_payment_link_config_based_on_priority(
    payment_create_link_config: Option<PaymentCreatePaymentLinkConfig>,
    business_link_config: Option<BusinessConfigDocument>,
    merchant_name: String,
    default_domain_name: String,
) -> (r: Result<(PaymentCreatePaymentLinkConfig, String), ApiErrorResponse>)
    ensures
        ({
            let s = spec_resolve_link_config(
                match payment_create_link_config {
                    Some(ref c) => Some(c@),
                    None => None,
                },
                match business_link_config {
                    Some(ref d) => Some(d@),
                    None => None,
                },
                merchant_name@,
                default_domain_name@,
            );
            match r {
                Ok((config, domain)) => s == Ok::<_, ApiErrorV>((config@, domain@)),
                Err(e) => s == Err::<(PaymentLinkConfigV, Seq<char>), _>(e@),
            }
        }),
{
    let business_parsed: Option<BusinessPaymentLinkConfig> = match business_link_config {
        Some(doc) => match extract_business_payment_link_config(doc) {
            Ok(b) => Some(b),
            Err(e) => {
                return Err(e);
            },
        },
        None => None,
    };

    let domain_name: String = match business_parsed {
        Some(ref b) => match b.domain_name {
            Some(ref d) => String::from_str("https://").concat(d.as_str()),
            None => default_domain_name,
        },
        None => default_domain_name,
    };

    let (p_max_age, p_theme, p_logo, p_seller_name) = match payment_create_link_config {
        Some(c) => (c.config.max_age, c.config.theme, c.config.logo, c.config.seller_name),
        None => (None, None, None, None),
    };
    let (b_max_age, b_theme, b_logo, b_seller_name) = match business_parsed {
        Some(b) => (b.config.max_age, b.config.theme, b.config.logo, b.config.seller_name),
        None => (None, None, None, None),
    };

    let max_age: i64 = match p_max_age {
        Some(a) => a,
        None => match b_max_age {
            Some(a) => a,
            None => DEFAULT_PAYMENT_LINK_EXPIRY,
        },
    };
    let theme = resolve_string_field(p_theme, b_theme, String::from_str(DEFAULT_BACKGROUND_COLOR));
    let logo = resolve_string_field(p_logo, b_logo, String::from_str(DEFAULT_MERCHANT_LOGO));
    let seller_name = resolve_string_field(p_seller_name, b_seller_name, merchant_name);

    Ok(
        (
            PaymentCreatePaymentLinkConfig {
                config: PaymentLinkConfig {
                    max_age: Some(max_age),
                    theme: Some(theme),
                    logo: Some(logo),
                    seller_name: Some(seller_name),
                },
            },
            domain_name,
        ),
    )
}

} // verus!
