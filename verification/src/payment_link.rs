//! The hosted payment-link flows: the data the store hands the engine, the
//! required-field validators, and the lifecycle orchestration that turns a
//! payment into a renderable checkout bundle.

use vstd::prelude::*;

use crate::config::{
    extract_payment_link_config, spec_resolve_field, PaymentConfigDocument, PaymentConfigDocumentV,
    DEFAULT_BACKGROUND_COLOR, DEFAULT_MERCHANT_LOGO, DEFAULT_PRODUCT_IMG, DEFAULT_SDK_THEME,
};
use crate::errors::{ApiErrorResponse, ApiErrorV};
use crate::instant::Instant;
use crate::render::{
    get_color_scheme_css, get_js_script, spec_color_scheme_css, spec_js_script, PaymentLinkDetails,
    PaymentLinkDetailsV, PaymentLinkFormData, PaymentLinkFormDataV, MAX_ITEMS_VISIBLE_AFTER_COLLAPSE,
};
use crate::status::{
    is_link_initiation_disallowed, link_initiation_not_allowed_statuses, spec_link_status,
    validate_payment_status_against_not_allowed_statuses, IntentStatus,
};

verus! {

/// A currency, carried as its ISO code; the engine never interprets it.
#[derive(Debug, Clone, PartialEq)]
pub struct Currency {
    pub code: String,
}

impl View for Currency {
    type V = Seq<char>;

    open spec fn view(&self) -> Seq<char> {
        self.code@
    }
}

/// The view of an optional string field.
pub open spec fn view_opt_str(o: Option<String>) -> Option<Seq<char>> {
    match o {
        Some(s) => Some(s@),
        None => None,
    }
}

/// The view of an optional currency field.
pub open spec fn view_opt_currency(o: Option<Currency>) -> Option<Seq<char>> {
    match o {
        Some(c) => Some(c@),
        None => None,
    }
}

/// One order line shown on the hosted link. The engine normalizes only the
/// product image; every other field passes through unchanged.
#[derive(Debug, Clone, PartialEq)]
pub struct OrderDetailsWithAmount {
    pub product_name: String,
    pub quantity: u16,
    pub amount: i64,
    pub product_img_link: Option<String>,
}

/// The mathematical shape of an [`OrderDetailsWithAmount`].
pub struct OrderDetailsWithAmountV {
    pub product_name: Seq<char>,
    pub quantity: int,
    pub amount: int,
    pub product_img_link: Option<Seq<char>>,
}

impl View for OrderDetailsWithAmount {
    type V = OrderDetailsWithAmountV;

    open spec fn view(&self) -> OrderDetailsWithAmountV {
        OrderDetailsWithAmountV {
            product_name: self.product_name@,
            quantity: self.quantity as int,
            amount: self.amount as int,
            product_img_link: view_opt_str(self.product_img_link),
        }
    }
}

/// A stored order-detail entry, as the engine reads it: either the opaque
/// entry had the expected shape, or it did not.
#[derive(Debug, Clone, PartialEq)]
pub enum OrderDetailDocument {
    WellFormed(OrderDetailsWithAmount),
    Malformed,
}

/// The mathematical shape of an [`OrderDetailDocument`].
pub enum OrderDetailDocumentV {
    WellFormed(OrderDetailsWithAmountV),
    Malformed,
}

impl View for OrderDetailDocument {
    type V = OrderDetailDocumentV;

    open spec fn view(&self) -> OrderDetailDocumentV {
        match self {
            OrderDetailDocument::WellFormed(d) => OrderDetailDocumentV::WellFormed(d@),
            OrderDetailDocument::Malformed => OrderDetailDocumentV::Malformed,
        }
    }
}

/// The view of a sequence of stored order-detail entries.
pub open spec fn view_order_docs(v: Seq<OrderDetailDocument>) -> Seq<OrderDetailDocumentV> {
    v.map_values(|d: OrderDetailDocument| d@)
}

/// The view of a sequence of order lines.
pub open spec fn view_order_items(v: Seq<OrderDetailsWithAmount>) -> Seq<OrderDetailsWithAmountV> {
    v.map_values(|d: OrderDetailsWithAmount| d@)
}

/// The merchant account, as this engine reads it.
#[derive(Debug, Clone, PartialEq)]
pub struct MerchantAccount {
    pub merchant_id: String,
    pub publishable_key: Option<String>,
    pub merchant_name: Option<String>,
    pub return_url: Option<String>,
}

/// The mathematical shape of a [`MerchantAccount`].
pub struct MerchantAccountV {
    pub merchant_id: Seq<char>,
    pub publishable_key: Option<Seq<char>>,
    pub merchant_name: Option<Seq<char>>,
    pub return_url: Option<Seq<char>>,
}

impl View for MerchantAccount {
    type V = MerchantAccountV;

    open spec fn view(&self) -> MerchantAccountV {
        MerchantAccountV {
            merchant_id: self.merchant_id@,
            publishable_key: view_opt_str(self.publishable_key),
            merchant_name: view_opt_str(self.merchant_name),
            return_url: view_opt_str(self.return_url),
        }
    }
}

/// A payment intent, as the store hands it to this engine (read-only here).
#[derive(Debug, Clone, PartialEq)]
pub struct PaymentIntent {
    pub payment_id: String,
    pub merchant_id: String,
    pub status: IntentStatus,
    pub amount: i64,
    pub currency: Option<Currency>,
    pub return_url: Option<String>,
    pub order_details: Option<Vec<OrderDetailDocument>>,
    pub client_secret: Option<String>,
    pub payment_link_id: Option<String>,
}

/// The mathematical shape of a [`PaymentIntent`].
pub struct PaymentIntentV {
    pub payment_id: Seq<char>,
    pub merchant_id: Seq<char>,
    pub status: IntentStatus,
    pub amount: int,
    pub currency: Option<Seq<char>>,
    pub return_url: Option<Seq<char>>,
    pub order_details: Option<Seq<OrderDetailDocumentV>>,
    pub client_secret: Option<Seq<char>>,
    pub payment_link_id: Option<Seq<char>>,
}

impl View for PaymentIntent {
    type V = PaymentIntentV;

    open spec fn view(&self) -> PaymentIntentV {
        PaymentIntentV {
            payment_id: self.payment_id@,
            merchant_id: self.merchant_id@,
            status: self.status,
            amount: self.amount as int,
            currency: view_opt_currency(self.currency),
            return_url: view_opt_str(self.return_url),
            order_details: match self.order_details {
                Some(ref d) => Some(view_order_docs(d@)),
                None => None,
            },
            client_secret: view_opt_str(self.client_secret),
            payment_link_id: view_opt_str(self.payment_link_id),
        }
    }
}

/// A payment-link record, as the store hands it to this engine.
#[derive(Debug, Clone, PartialEq)]
pub struct PaymentLink {
    pub payment_link_id: String,
    pub payment_id: String,
    pub merchant_id: String,
    pub link_to_pay: String,
    pub amount: i64,
    pub currency: Option<Currency>,
    pub created_at: Instant,
    /// The instant at which the link expires.
    pub max_age: Instant,
    pub description: Option<String>,
    /// The stored presentation-configuration document.
    pub payment_link_config: PaymentConfigDocument,
}

/// The mathematical shape of a [`PaymentLink`].
pub struct PaymentLinkV {
    pub payment_link_id: Seq<char>,
    pub payment_id: Seq<char>,
    pub merchant_id: Seq<char>,
    pub link_to_pay: Seq<char>,
    pub amount: int,
    pub currency: Option<Seq<char>>,
    pub created_at: Instant,
    pub max_age: Instant,
    pub description: Option<Seq<char>>,
    pub payment_link_config: PaymentConfigDocumentV,
}

impl View for PaymentLink {
    type V = PaymentLinkV;

    open spec fn view(&self) -> PaymentLinkV {
        PaymentLinkV {
            payment_link_id: self.payment_link_id@,
            payment_id: self.payment_id@,
            merchant_id: self.merchant_id@,
            link_to_pay: self.link_to_pay@,
            amount: self.amount as int,
            currency: view_opt_currency(self.currency),
            created_at: self.created_at,
            max_age: self.max_age,
            description: view_opt_str(self.description),
            payment_link_config: self.payment_link_config@,
        }
    }
}

/// What the SDK requires: `Err` names the first missing field, in the fixed
/// order publishable key, currency, client secret.
pub open spec fn spec_validate_sdk_requirements(
    pub_key: Option<Seq<char>>,
    currency: Option<Seq<char>>,
    client_secret: Option<Seq<char>>,
) -> Result<(Seq<char>, Seq<char>, Seq<char>), ApiErrorV> {
    match pub_key {
        None => Err(ApiErrorV::MissingRequiredField { field_name: "pub_key"@ }),
        Some(p) => match currency {
            None => Err(ApiErrorV::MissingRequiredField { field_name: "currency"@ }),
            Some(c) => match client_secret {
                None => Err(ApiErrorV::MissingRequiredField { field_name: "client_secret"@ }),
                Some(s) => Ok((p, c, s)),
            },
        },
    }
}

/// Checks that everything the client-side SDK needs is present, returning
/// the three values or a missing-required-field error naming the first
/// absent one.
pub fn validate_sdk_requirements(
    pub_key: Option<String>,
    currency: Option<Currency>,
    client_secret: Option<String>,
) -> (r: Result<(String, Currency, String), ApiErrorResponse>)
    ensures
        ({
            let s = spec_validate_sdk_requirements(
                view_opt_str(pub_key),
                view_opt_currency(currency),
                view_opt_str(client_secret),
            );
            match r {
                Ok((p, c, cs)) => s == Ok::<_, ApiErrorV>((p@, c@, cs@)),
                Err(e) => s == Err::<(Seq<char>, Seq<char>, Seq<char>), _>(e@),
            }
        }),
{
    let pub_key = match pub_key {
        Some(p) => p,
        None => {
            return Err(
                ApiErrorResponse::MissingRequiredField { field_name: String::from_str("pub_key") },
            );
        },
    };
    let currency = match currency {
        Some(c) => c,
        None => {
            return Err(
                ApiErrorResponse::MissingRequiredField { field_name: String::from_str("currency") },
            );
        },
    };
    let client_secret = match client_secret {
        Some(s) => s,
        None => {
            return Err(
                ApiErrorResponse::MissingRequiredField {
                    field_name: String::from_str("client_secret"),
                },
            );
        },
    };
    Ok((pub_key, currency, client_secret))
}

/// An order line with its product image defaulted when absent; every other
/// field unchanged.
pub open spec fn spec_normalize_order_detail(d: OrderDetailsWithAmountV) -> OrderDetailsWithAmountV {
    if d.product_img_link is None {
        OrderDetailsWithAmountV { product_img_link: Some(DEFAULT_PRODUCT_IMG@), ..d }
    } else {
        d
    }
}

/// What order-detail validation returns: absent details stay absent; a list
/// with any malformed entry is a data-validation error; otherwise each entry
/// is normalized in order.
pub open spec fn spec_validate_order_details(docs: Option<Seq<OrderDetailDocumentV>>) -> Result<
    Option<Seq<OrderDetailsWithAmountV>>,
    ApiErrorV,
> {
    match docs {
        None => Ok(None),
        Some(s) => {
            if exists|i: int| 0 <= i < s.len() && s[i] is Malformed {
                Err(ApiErrorV::InvalidDataValue { field_name: "OrderDetailsWithAmount"@ })
            } else {
                Ok(Some(s.map_values(|d: OrderDetailDocumentV| spec_normalize_order_detail(d->WellFormed_0))))
            }
        },
    }
}

/// The view of optional stored order details.
pub open spec fn view_opt_order_docs(o: Option<Vec<OrderDetailDocument>>) -> Option<
    Seq<OrderDetailDocumentV>,
> {
    match o {
        Some(d) => Some(view_order_docs(d@)),
        None => None,
    }
}

/// Parses the stored order details, failing on the first entry without the
/// expected shape, and defaults the product image of every entry that lacks
/// one; all other fields pass through unchanged.
pub fn validate_order_details(order_details: Option<Vec<OrderDetailDocument>>) -> (r: Result<
    Option<Vec<OrderDetailsWithAmount>>,
    ApiErrorResponse,
>)
    ensures
        ({
            let s = spec_validate_order_details(view_opt_order_docs(order_details));
            match r {
                Ok(Some(v)) => s == Ok::<_, ApiErrorV>(Some(view_order_items(v@))),
                Ok(None) => s == Ok::<_, ApiErrorV>(None::<Seq<OrderDetailsWithAmountV>>),
                Err(e) => s == Err::<Option<Seq<OrderDetailsWithAmountV>>, _>(e@),
            }
        }),
{
    let docs = match order_details {
        None => {
            return Ok(None);
        },
        Some(docs) => docs,
    };
    let ghost docsv = view_order_docs(docs@);
    let mut out: Vec<OrderDetailsWithAmount> = Vec::new();
    let mut i: usize = 0;
    while i < docs.len()
        invariant
            0 <= i <= docs@.len(),
            order_details == Some(docs),
            docsv == view_order_docs(docs@),
            docsv.len() == docs@.len(),
            forall|j: int| 0 <= j < i ==> docsv[j] is WellFormed,
            out@.len() == i,
            forall|j: int|
                0 <= j < i ==> #[trigger] out@[j]@ == spec_normalize_order_detail(
                    docsv[j]->WellFormed_0,
                ),
        decreases docs@.len() - i,
    {
        match &docs[i] {
            OrderDetailDocument::WellFormed(item) => {
                let img: Option<String> = match &item.product_img_link {
                    Some(l) => Some(l.clone()),
                    None => Some(String::from_str(DEFAULT_PRODUCT_IMG)),
                };
                out.push(
                    OrderDetailsWithAmount {
                        product_name: item.product_name.clone(),
                        quantity: item.quantity,
                        amount: item.amount,
                        product_img_link: img,
                    },
                );
            },
            OrderDetailDocument::Malformed => {
                proof {
                    assert(docsv[i as int] is Malformed);
                    assert(exists|k: int| 0 <= k < docsv.len() && docsv[k] is Malformed);
                }
                return Err(
                    ApiErrorResponse::InvalidDataValue {
                        field_name: String::from_str("OrderDetailsWithAmount"),
                    },
                );
            },
        }
        i += 1;
    }
    proof {
        let normalized = docsv.map_values(
            |d: OrderDetailDocumentV| spec_normalize_order_detail(d->WellFormed_0),
        );
        assert(view_order_items(out@) =~= normalized);
    }
    Ok(Some(out))
}

/// Copies an optional string.
fn clone_opt_string(o: &Option<String>) -> (r: Option<String>)
    ensures
        r == *o,
{
    match o {
        Some(s) => Some(s.clone()),
        None => None,
    }
}

/// Copies an optional currency.
fn clone_opt_currency(o: &Option<Currency>) -> (r: Option<Currency>)
    ensures
        r == *o,
{
    match o {
        Some(c) => Some(Currency { code: c.code.clone() }),
        None => None,
    }
}

/// The public status/detail view of one payment-link record, at one clock
/// reading.
#[derive(Debug, Clone, PartialEq)]
pub struct RetrievePaymentLinkResponse {
    pub payment_link_id: String,
    pub merchant_id: String,
    pub link_to_pay: String,
    pub amount: i64,
    pub created_at: Instant,
    pub expiry: Instant,
    pub description: Option<String>,
    pub currency: Option<Currency>,
    /// The computed lifecycle status, `"active"` or `"expired"`.
    pub status: String,
}

/// The mathematical shape of a [`RetrievePaymentLinkResponse`].
pub struct RetrievePaymentLinkResponseV {
    pub payment_link_id: Seq<char>,
    pub merchant_id: Seq<char>,
    pub link_to_pay: Seq<char>,
    pub amount: int,
    pub created_at: Instant,
    pub expiry: Instant,
    pub description: Option<Seq<char>>,
    pub currency: Option<Seq<char>>,
    pub status: Seq<char>,
}

impl View for RetrievePaymentLinkResponse {
    type V = RetrievePaymentLinkResponseV;

    open spec fn view(&self) -> RetrievePaymentLinkResponseV {
        RetrievePaymentLinkResponseV {
            payment_link_id: self.payment_link_id@,
            merchant_id: self.merchant_id@,
            link_to_pay: self.link_to_pay@,
            amount: self.amount as int,
            created_at: self.created_at,
            expiry: self.expiry,
            description: view_opt_str(self.description),
            currency: view_opt_currency(self.currency),
            status: self.status@,
        }
    }
}

/// The response view of one link record at clock reading `now`: the record's
/// own fields, with the lifecycle status computed from its expiry.
pub open spec fn spec_link_response(l: PaymentLinkV, now: Instant) -> RetrievePaymentLinkResponseV {
    RetrievePaymentLinkResponseV {
        payment_link_id: l.payment_link_id,
        merchant_id: l.merchant_id,
        link_to_pay: l.link_to_pay,
        amount: l.amount,
        created_at: l.created_at,
        expiry: l.max_age,
        description: l.description,
        currency: l.currency,
        status: spec_link_status(l.max_age, now),
    }
}

/// Builds the public view of one stored link record, computing its lifecycle
/// status against the clock reading `now`.
pub fn from_db_payment_link(payment_link: &PaymentLink, now: Instant) -> (r: RetrievePaymentLinkResponse)
    ensures
        r@ == spec_link_response(payment_link@, now),
{
    RetrievePaymentLinkResponse {
        payment_link_id: payment_link.payment_link_id.clone(),
        merchant_id: payment_link.merchant_id.clone(),
        link_to_pay: payment_link.link_to_pay.clone(),
        amount: payment_link.amount,
        created_at: payment_link.created_at,
        expiry: payment_link.max_age,
        description: clone_opt_string(&payment_link.description),
        currency: clone_opt_currency(&payment_link.currency),
        status: crate::status::evaluate_link_status(payment_link.max_age, now),
    }
}

/// Turns one link-record fetch into the public status/detail view: a missing
/// record is a not-found failure; a found one is reported with its computed
/// lifecycle status at clock reading `now`, and nothing is mutated.
pub fn retrieve_payment_link(payment_link_fetch: Option<PaymentLink>, now: Instant) -> (r: Result<
    RetrievePaymentLinkResponse,
    ApiErrorResponse,
>)
    ensures
        match payment_link_fetch {
            None => r matches Err(e) && e@ == ApiErrorV::PaymentLinkNotFound,
            Some(l) => r matches Ok(resp) && resp@ == spec_link_response(l@, now),
        },
{
    match payment_link_fetch {
        None => Err(ApiErrorResponse::PaymentLinkNotFound),
        Some(l) => Ok(from_db_payment_link(&l, now)),
    }
}

/// Maps every link record a merchant owns to its public view, in input
/// order, all at the same clock reading; each record maps independently of
/// the others, and the whole listing is returned or none of it.
pub fn list_payment_link(payment_links: Vec<PaymentLink>, now: Instant) -> (r: Result<
    Vec<RetrievePaymentLinkResponse>,
    ApiErrorResponse,
>)
    ensures
        r matches Ok(v) && v@.len() == payment_links@.len(),
        r matches Ok(v) && forall|i: int|
            0 <= i < payment_links@.len() ==> #[trigger] v@[i]@ == spec_link_response(
                payment_links@[i]@,
                now,
            ),
{
    let mut out: Vec<RetrievePaymentLinkResponse> = Vec::new();
    let mut i: usize = 0;
    while i < payment_links.len()
        invariant
            0 <= i <= payment_links@.len(),
            out@.len() == i,
            forall|j: int|
                0 <= j < i ==> #[trigger] out@[j]@ == spec_link_response(
                    payment_links@[j]@,
                    now,
                ),
        decreases payment_links@.len() - i,
    {
        let response = from_db_payment_link(&payment_links[i], now);
        out.push(response);
        i += 1;
    }
    Ok(out)
}

/// What the first phase of link initiation decides from the intent fetch:
/// the link id to load, or the typed failure. A missing intent is not-found;
/// an intent without a link is link-not-found; a disallowed status is
/// rejected by the guard before any link record is touched.
pub open spec fn spec_validate_link_initiation(intent_fetch: Option<PaymentIntentV>) -> Result<
    Seq<char>,
    ApiErrorV,
> {
    match intent_fetch {
        None => Err(ApiErrorV::PaymentNotFound),
        Some(intent) => match intent.payment_link_id {
            None => Err(ApiErrorV::PaymentLinkNotFound),
            Some(link_id) => {
                if is_link_initiation_disallowed(intent.status) {
                    Err(ApiErrorV::NotAllowed { action: "use payment link for"@ })
                } else {
                    Ok(link_id)
                }
            },
        },
    }
}

/// Validates the fetched intent for link initiation and hands back the id of
/// the link record to load: the guard must pass before that record is
/// fetched, because resolution is pointless work when the link cannot
/// legally be used.
pub fn validate_link_initiation(payment_intent_fetch: &Option<PaymentIntent>) -> (r: Result<
    String,
    ApiErrorResponse,
>)
    ensures
        ({
            let s = spec_validate_link_initiation(view_opt_intent(*payment_intent_fetch));
            match r {
                Ok(link_id) => s == Ok::<_, ApiErrorV>(link_id@),
                Err(e) => s == Err::<Seq<char>, _>(e@),
            }
        }),
{
    let intent = match payment_intent_fetch {
        None => {
            return Err(ApiErrorResponse::PaymentNotFound);
        },
        Some(intent) => intent,
    };
    let payment_link_id = match &intent.payment_link_id {
        None => {
            return Err(ApiErrorResponse::PaymentLinkNotFound);
        },
        Some(link_id) => link_id.clone(),
    };
    let not_allowed = link_initiation_not_allowed_statuses();
    match validate_payment_status_against_not_allowed_statuses(
        intent.status,
        &not_allowed,
        "use payment link for",
    ) {
        Ok(()) => Ok(payment_link_id),
        Err(e) => Err(e),
    }
}

/// Law: the initiation guard rejects exactly the five disallowed statuses
/// and no others — for an intent that carries a link, initiation is refused
/// with the not-allowed error precisely when the payment is cancelled,
/// succeeded, processing, awaiting capture, or awaiting merchant action, and
/// for every other status the intent's link id is handed back.
pub proof fn lemma_guard_rejects_exactly_five(intent: PaymentIntentV)
    requires
        intent.payment_link_id is Some,
    ensures
        (spec_validate_link_initiation(Some(intent)) == Err::<Seq<char>, _>(
            ApiErrorV::NotAllowed { action: "use payment link for"@ },
        )) <==> {
            ||| intent.status == IntentStatus::Cancelled
            ||| intent.status == IntentStatus::Succeeded
            ||| intent.status == IntentStatus::Processing
            ||| intent.status == IntentStatus::RequiresCapture
            ||| intent.status == IntentStatus::RequiresMerchantAction
        },
        !is_link_initiation_disallowed(intent.status)
            ==> spec_validate_link_initiation(Some(intent)) == Ok::<_, ApiErrorV>(
            intent.payment_link_id->Some_0,
        ),
{
}

/// The view of one optional fetched intent.
pub open spec fn view_opt_intent(o: Option<PaymentIntent>) -> Option<PaymentIntentV> {
    match o {
        Some(i) => Some(i@),
        None => None,
    }
}

/// The view of one optional fetched link record.
pub open spec fn view_opt_link(o: Option<PaymentLink>) -> Option<PaymentLinkV> {
    match o {
        Some(l) => Some(l@),
        None => None,
    }
}

/// What link initiation returns, step by step in the orchestration's order:
/// intent fetch, link-id extraction and status guard; link fetch; stored
/// configuration extraction; order-detail validation; return-URL fallback
/// (the intent's own, else the merchant's default, else a missing-field
/// error); the SDK requirements; then the assembled payload rendered as the
/// script, the style derived from the configuration's theme, and the SDK URL
/// passed through. Any step's failure short-circuits; no partial bundle is
/// ever produced.
pub open spec fn spec_intiate_payment_link_flow(
    merchant_account: MerchantAccountV,
    intent_fetch: Option<PaymentIntentV>,
    link_fetch: Option<PaymentLinkV>,
    sdk_url: Seq<char>,
) -> Result<PaymentLinkFormDataV, ApiErrorV> {
    match spec_validate_link_initiation(intent_fetch) {
        Err(e) => Err(e),
        Ok(_link_id) => {
            let intent = intent_fetch->Some_0;
            match link_fetch {
                None => Err(ApiErrorV::PaymentLinkNotFound),
                Some(link) => match link.payment_link_config {
                    PaymentConfigDocumentV::Malformed => Err(
                        ApiErrorV::InvalidDataValue { field_name: "payment_link_config"@ },
                    ),
                    PaymentConfigDocumentV::WellFormed(config) => {
                        match spec_validate_order_details(intent.order_details) {
                            Err(e) => Err(e),
                            Ok(order_details) => {
                                let return_url_layers = match intent.return_url {
                                    Some(u) => Some(u),
                                    None => merchant_account.return_url,
                                };
                                match return_url_layers {
                                    None => Err(
                                        ApiErrorV::MissingRequiredField {
                                            field_name: "return_url"@,
                                        },
                                    ),
                                    Some(return_url) => {
                                        match spec_validate_sdk_requirements(
                                            merchant_account.publishable_key,
                                            intent.currency,
                                            intent.client_secret,
                                        ) {
                                            Err(e) => Err(e),
                                            Ok((pub_key, currency, client_secret)) => {
                                                let payload = PaymentLinkDetailsV {
                                                    amount: intent.amount,
                                                    currency,
                                                    payment_id: intent.payment_id,
                                                    merchant_name: spec_resolve_field(
                                                        config.seller_name,
                                                        merchant_account.merchant_name,
                                                        Seq::empty(),
                                                    ),
                                                    order_details,
                                                    return_url,
                                                    expiry: link.max_age,
                                                    pub_key,
                                                    client_secret,
                                                    merchant_logo: match config.logo {
                                                        Some(l) => l,
                                                        None => DEFAULT_MERCHANT_LOGO@,
                                                    },
                                                    max_items_visible_after_collapse:
                                                        MAX_ITEMS_VISIBLE_AFTER_COLLAPSE as int,
                                                    theme: match config.theme {
                                                        Some(t) => t,
                                                        None => DEFAULT_SDK_THEME@,
                                                    },
                                                };
                                                Ok(
                                                    PaymentLinkFormDataV {
                                                        js_script: spec_js_script(payload),
                                                        sdk_url,
                                                        css_script: spec_color_scheme_css(
                                                            config,
                                                            DEFAULT_BACKGROUND_COLOR@,
                                                        ),
                                                    },
                                                )
                                            },
                                        }
                                    },
                                }
                            },
                        }
                    },
                },
            }
        },
    }
}

/// Law: a payment whose link may be used still yields no bundle — and no
/// partial payload — when any one of the four required values is missing;
/// each absence surfaces as the missing-required-field error naming it. The
/// return URL resolves through two layers (the intent's own, else the
/// merchant's default) and is missing only when both are; the publishable
/// key, currency, and client secret are checked in that fixed order.
pub proof fn lemma_missing_required_field_errors(
    merchant_account: MerchantAccountV,
    intent: PaymentIntentV,
    link: PaymentLinkV,
    sdk_url: Seq<char>,
)
    requires
        spec_validate_link_initiation(Some(intent)) is Ok,
        link.payment_link_config is WellFormed,
        spec_validate_order_details(intent.order_details) is Ok,
    ensures
        ({
            let flow = spec_intiate_payment_link_flow(
                merchant_account,
                Some(intent),
                Some(link),
                sdk_url,
            );
            let return_url_resolvable = intent.return_url is Some
                || merchant_account.return_url is Some;
            &&& !return_url_resolvable ==> flow == Err::<PaymentLinkFormDataV, _>(
                ApiErrorV::MissingRequiredField { field_name: "return_url"@ },
            )
            &&& return_url_resolvable && merchant_account.publishable_key is None ==> flow
                == Err::<PaymentLinkFormDataV, _>(
                ApiErrorV::MissingRequiredField { field_name: "pub_key"@ },
            )
            &&& return_url_resolvable && merchant_account.publishable_key is Some
                && intent.currency is None ==> flow == Err::<PaymentLinkFormDataV, _>(
                ApiErrorV::MissingRequiredField { field_name: "currency"@ },
            )
            &&& return_url_resolvable && merchant_account.publishable_key is Some
                && intent.currency is Some && intent.client_secret is None ==> flow == Err::<
                PaymentLinkFormDataV,
                _,
            >(ApiErrorV::MissingRequiredField { field_name: "client_secret"@ })
        }),
{
}

/// Runs the whole link-initiation flow over the two fetched collaborator
/// values: guards the payment's status, extracts and applies the stored
/// configuration, validates every required field, assembles the bootstrap
/// payload, and renders the script and style artifacts with the given SDK
/// URL. Fails with the typed error of the first failing step.
pub fn intiate_payment_link_flow(
    merchant_account: &MerchantAccount,
    payment_intent_fetch: Option<PaymentIntent>,
    payment_link_fetch: Option<PaymentLink>,
    sdk_url: String,
) -> (r: Result<PaymentLinkFormData, ApiErrorResponse>)
    ensures
        ({
            let s = spec_intiate_payment_link_flow(
                merchant_account@,
                view_opt_intent(payment_intent_fetch),
                view_opt_link(payment_link_fetch),
                sdk_url@,
            );
            match r {
                Ok(form) => s == Ok::<_, ApiErrorV>(form@),
                Err(e) => s == Err::<PaymentLinkFormDataV, _>(e@),
            }
        }),
{
    match validate_link_initiation(&payment_intent_fetch) {
        Ok(_) => {},
        Err(e) => {
            return Err(e);
        },
    }
    let intent = match payment_intent_fetch {
        Some(intent) => intent,
        None => {
            return Err(ApiErrorResponse::PaymentNotFound);
        },
    };
    let link = match payment_link_fetch {
        Some(link) => link,
        None => {
            return Err(ApiErrorResponse::PaymentLinkNotFound);
        },
    };
    let payment_link_config = match extract_payment_link_config(link.payment_link_config) {
        Ok(config) => config,
        Err(e) => {
            return Err(e);
        },
    };
    let order_details = match validate_order_details(intent.order_details) {
        Ok(details) => details,
        Err(e) => {
            return Err(e);
        },
    };
    let return_url = match intent.return_url {
        Some(payment_create_return_url) => payment_create_return_url,
        None => match &merchant_account.return_url {
            Some(u) => u.clone(),
            None => {
                return Err(
                    ApiErrorResponse::MissingRequiredField {
                        field_name: String::from_str("return_url"),
                    },
                );
            },
        },
    };
    let (pub_key, currency, client_secret) = match validate_sdk_requirements(
        clone_opt_string(&merchant_account.publishable_key),
        intent.currency,
        intent.client_secret,
    ) {
        Ok(values) => values,
        Err(e) => {
            return Err(e);
        },
    };
    let merchant_name = match &payment_link_config.config.seller_name {
        Some(seller_name) => seller_name.clone(),
        None => match &merchant_account.merchant_name {
            Some(m) => m.clone(),
            None => String::new(),
        },
    };
    let merchant_logo = match &payment_link_config.config.logo {
        Some(l) => l.clone(),
        None => String::from_str(DEFAULT_MERCHANT_LOGO),
    };
    let theme = match &payment_link_config.config.theme {
        Some(t) => t.clone(),
        None => String::from_str(DEFAULT_SDK_THEME),
    };
    let payment_details = PaymentLinkDetails {
        amount: intent.amount,
        currency,
        payment_id: intent.payment_id,
        merchant_name,
        order_details,
        return_url,
        expiry: link.max_age,
        pub_key,
        client_secret,
        merchant_logo,
        max_items_visible_after_collapse: MAX_ITEMS_VISIBLE_AFTER_COLLAPSE,
        theme,
    };
    let js_script = match get_js_script(&payment_details) {
        Ok(script) => script,
        Err(e) => {
            return Err(e);
        },
    };
    let css_script = get_color_scheme_css(
        payment_link_config,
        String::from_str(DEFAULT_BACKGROUND_COLOR),
    );
    Ok(PaymentLinkFormData { js_script, sdk_url, css_script })
}

} // verus!
