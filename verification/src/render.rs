//! The bootstrap payload and the artifact renderer.
//!
//! The payload is the data structure handed to a client-side renderer to
//! initialize the hosted checkout UI. It carries long-lived secrets, is
//! never persisted, and exists only for the duration of one render. The
//! renderer serializes it to JSON text, character by character under the
//! specifications of [`crate::jsontext`], and emits it as an assignment to a
//! fixed global identifier, together with a style declaration derived from
//! the resolved theme colour.

use vstd::prelude::*;

use crate::config::{PaymentCreatePaymentLinkConfig, PaymentLinkConfigV};
use crate::errors::ApiErrorResponse;
use crate::instant::Instant;
use crate::jsontext::{
    append_json_string, dec_i128, dec_i64, dec_u128, lemma_escape_identity, needs_no_escaping,
    push_char, spec_dec_int, spec_json_string,
};
use crate::payment_link::{
    view_order_items, Currency, OrderDetailsWithAmount, OrderDetailsWithAmountV,
};

verus! {

/// How many order lines the client renderer shows before collapsing the
/// rest.
pub const MAX_ITEMS_VISIBLE_AFTER_COLLAPSE: u8 = 3;

/// The bootstrap payload handed to the client-side renderer. Never
/// persisted; owned by one orchestration for the lifetime of one request.
#[derive(Debug, Clone, PartialEq)]
pub struct PaymentLinkDetails {
    pub amount: i64,
    pub currency: Currency,
    pub payment_id: String,
    pub merchant_name: String,
    pub order_details: Option<Vec<OrderDetailsWithAmount>>,
    pub return_url: String,
    pub expiry: Instant,
    pub pub_key: String,
    pub client_secret: String,
    pub merchant_logo: String,
    pub max_items_visible_after_collapse: u8,
    pub theme: String,
}

/// The mathematical shape of a [`PaymentLinkDetails`].
pub struct PaymentLinkDetailsV {
    pub amount: int,
    pub currency: Seq<char>,
    pub payment_id: Seq<char>,
    pub merchant_name: Seq<char>,
    pub order_details: Option<Seq<OrderDetailsWithAmountV>>,
    pub return_url: Seq<char>,
    pub expiry: Instant,
    pub pub_key: Seq<char>,
    pub client_secret: Seq<char>,
    pub merchant_logo: Seq<char>,
    pub max_items_visible_after_collapse: int,
    pub theme: Seq<char>,
}

impl View for PaymentLinkDetails {
    type V = PaymentLinkDetailsV;

    open spec fn view(&self) -> PaymentLinkDetailsV {
        PaymentLinkDetailsV {
            amount: self.amount as int,
            currency: self.currency@,
            payment_id: self.payment_id@,
            merchant_name: self.merchant_name@,
            order_details: match self.order_details {
                Some(ref d) => Some(view_order_items(d@)),
                None => None,
            },
            return_url: self.return_url@,
            expiry: self.expiry,
            pub_key: self.pub_key@,
            client_secret: self.client_secret@,
            merchant_logo: self.merchant_logo@,
            max_items_visible_after_collapse: self.max_items_visible_after_collapse as int,
            theme: self.theme@,
        }
    }
}

/// The renderable bundle one link initiation produces.
#[derive(Debug, Clone, PartialEq)]
pub struct PaymentLinkFormData {
    pub js_script: String,
    pub sdk_url: String,
    pub css_script: String,
}

/// The mathematical shape of a [`PaymentLinkFormData`].
pub struct PaymentLinkFormDataV {
    pub js_script: Seq<char>,
    pub sdk_url: Seq<char>,
    pub css_script: Seq<char>,
}

impl View for PaymentLinkFormData {
    type V = PaymentLinkFormDataV;

    open spec fn view(&self) -> PaymentLinkFormDataV {
        PaymentLinkFormDataV {
            js_script: self.js_script@,
            sdk_url: self.sdk_url@,
            css_script: self.css_script@,
        }
    }
}

/// An optional string in JSON: the string literal, or `null`.
pub open spec fn spec_json_opt_string(o: Option<Seq<char>>) -> Seq<char> {
    match o {
        Some(s) => spec_json_string(s),
        None => "null"@,
    }
}

/// One order line as a JSON object.
pub open spec fn spec_order_item_json(d: OrderDetailsWithAmountV) -> Seq<char> {
    "{\"product_name\":"@ + spec_json_string(d.product_name) + ",\"quantity\":"@ + spec_dec_int(
        d.quantity,
    ) + ",\"amount\":"@ + spec_dec_int(d.amount) + ",\"product_img_link\":"@
        + spec_json_opt_string(d.product_img_link) + "}"@
}

/// A list of order lines as the comma-separated body of a JSON array.
pub open spec fn spec_order_items_json(items: Seq<OrderDetailsWithAmountV>) -> Seq<char>
    decreases items.len(),
{
    if items.len() == 0 {
        Seq::empty()
    } else if items.len() == 1 {
        spec_order_item_json(items[0])
    } else {
        spec_order_items_json(items.drop_last()) + seq![','] + spec_order_item_json(items.last())
    }
}

/// Optional order details in JSON: an array of objects, or `null`.
pub open spec fn spec_order_details_json(o: Option<Seq<OrderDetailsWithAmountV>>) -> Seq<char> {
    match o {
        None => "null"@,
        Some(items) => "["@ + spec_order_items_json(items) + "]"@,
    }
}

/// The identifying head of the payload object: amount, currency, payment id.
pub open spec fn spec_payload_head(p: PaymentLinkDetailsV) -> Seq<char> {
    "{\"amount\":"@ + spec_dec_int(p.amount) + ",\"currency\":"@ + spec_json_string(p.currency)
        + ",\"payment_id\":"@ + spec_json_string(p.payment_id)
}

/// The remaining fields of the payload object, in their declared order.
pub open spec fn spec_payload_tail(p: PaymentLinkDetailsV) -> Seq<char> {
    ",\"merchant_name\":"@ + spec_json_string(p.merchant_name) + ",\"order_details\":"@
        + spec_order_details_json(p.order_details) + ",\"return_url\":"@ + spec_json_string(
        p.return_url,
    ) + ",\"expiry\":"@ + spec_dec_int(p.expiry.nanos as int) + ",\"pub_key\":"@
        + spec_json_string(p.pub_key) + ",\"client_secret\":"@ + spec_json_string(p.client_secret)
        + ",\"merchant_logo\":"@ + spec_json_string(p.merchant_logo)
        + ",\"max_items_visible_after_collapse\":"@ + spec_dec_int(
        p.max_items_visible_after_collapse,
    ) + ",\"theme\":"@ + spec_json_string(p.theme) + "}"@
}

/// The whole bootstrap payload as one JSON object, fields in their declared
/// order.
pub open spec fn spec_payload_json(p: PaymentLinkDetailsV) -> Seq<char> {
    spec_payload_head(p) + spec_payload_tail(p)
}

/// The injectable script: the payload assigned to the fixed global.
pub open spec fn spec_js_script(p: PaymentLinkDetailsV) -> Seq<char> {
    "window.__PAYMENT_DETAILS = "@ + spec_payload_json(p) + ";"@
}

/// The style declaration for a resolved configuration: a root-scope custom
/// property bound to the resolved theme, or to the supplied default when the
/// configuration has no theme.
pub open spec fn spec_color_scheme_css(c: PaymentLinkConfigV, default_primary_color: Seq<char>) -> Seq<char> {
    ":root {\n      --primary-color: "@ + (match c.theme {
        Some(t) => t,
        None => default_primary_color,
    }) + ";\n    }"@
}

/// Appends one order line as a JSON object.
fn append_order_item(out: &mut String, d: &OrderDetailsWithAmount)
    ensures
        final(out)@ == old(out)@ + spec_order_item_json(d@),
{
    out.append("{\"product_name\":");
    append_json_string(out, d.product_name.as_str());
    out.append(",\"quantity\":");
    let q = dec_u128(d.quantity as u128);
    out.append(q.as_str());
    out.append(",\"amount\":");
    let a = dec_i64(d.amount);
    out.append(a.as_str());
    out.append(",\"product_img_link\":");
    match &d.product_img_link {
        Some(l) => append_json_string(out, l.as_str()),
        None => out.append("null"),
    }
    out.append("}");
    proof {
        assert(out@ =~= old(out)@ + spec_order_item_json(d@));
    }
}

/// Appends the comma-separated body of the order-details array.
fn append_order_items(out: &mut String, items: &Vec<OrderDetailsWithAmount>)
    ensures
        final(out)@ == old(out)@ + spec_order_items_json(view_order_items(items@)),
{
    let ghost itemsv = view_order_items(items@);
    let mut i: usize = 0;
    proof {
        assert(itemsv.subrange(0, 0) =~= Seq::<OrderDetailsWithAmountV>::empty());
        assert(out@ =~= out@ + spec_order_items_json(itemsv.subrange(0, 0)));
    }
    while i < items.len()
        invariant
            0 <= i <= items@.len(),
            itemsv == view_order_items(items@),
            itemsv.len() == items@.len(),
            out@ == old(out)@ + spec_order_items_json(itemsv.subrange(0, i as int)),
        decreases items@.len() - i,
    {
        if i > 0 {
            push_char(out, ',');
        }
        append_order_item(out, &items[i]);
        proof {
            let pre = itemsv.subrange(0, i as int);
            let post = itemsv.subrange(0, i + 1 as int);
            assert(post.drop_last() =~= pre);
            assert(post.last() == itemsv[i as int]);
            assert(itemsv[i as int] == items@[i as int]@);
            if i == 0 {
                assert(spec_order_items_json(post) == spec_order_item_json(itemsv[0]));
                assert(out@ =~= old(out)@ + spec_order_items_json(post));
            } else {
                assert(spec_order_items_json(post) == spec_order_items_json(pre) + seq![',']
                    + spec_order_item_json(itemsv[i as int]));
                assert(out@ =~= old(out)@ + spec_order_items_json(post));
            }
        }
        i += 1;
    }
    proof {
        assert(itemsv.subrange(0, items@.len() as int) =~= itemsv);
    }
}

/// Renders the optional order details: a JSON array, or `null`.
fn render_order_details(order_details: &Option<Vec<OrderDetailsWithAmount>>) -> (r: String)
    ensures
        r@ == spec_order_details_json(
            match order_details {
                Some(ref d) => Some(view_order_items(d@)),
                None => None,
            },
        ),
{
    match order_details {
        Some(items) => {
            let mut out = String::from_str("[");
            append_order_items(&mut out, items);
            out.append("]");
            out
        },
        None => String::from_str("null"),
    }
}

/// Renders the identifying head of the payload object.
fn render_payload_head(p: &PaymentLinkDetails) -> (r: String)
    ensures
        r@ == spec_payload_head(p@),
{
    let mut out = String::from_str("{\"amount\":");
    let amount = dec_i64(p.amount);
    out.append(amount.as_str());
    out.append(",\"currency\":");
    append_json_string(&mut out, p.currency.code.as_str());
    out.append(",\"payment_id\":");
    append_json_string(&mut out, p.payment_id.as_str());
    out
}

/// Renders the remaining fields of the payload object.
fn render_payload_tail(p: &PaymentLinkDetails) -> (r: String)
    ensures
        r@ == spec_payload_tail(p@),
{
    let mut out = String::from_str(",\"merchant_name\":");
    append_json_string(&mut out, p.merchant_name.as_str());
    out.append(",\"order_details\":");
    let order_details = render_order_details(&p.order_details);
    out.append(order_details.as_str());
    out.append(",\"return_url\":");
    append_json_string(&mut out, p.return_url.as_str());
    out.append(",\"expiry\":");
    let expiry = dec_i128(p.expiry.nanos);
    out.append(expiry.as_str());
    out.append(",\"pub_key\":");
    append_json_string(&mut out, p.pub_key.as_str());
    out.append(",\"client_secret\":");
    append_json_string(&mut out, p.client_secret.as_str());
    out.append(",\"merchant_logo\":");
    append_json_string(&mut out, p.merchant_logo.as_str());
    out.append(",\"max_items_visible_after_collapse\":");
    let max_items = dec_u128(p.max_items_visible_after_collapse as u128);
    out.append(max_items.as_str());
    out.append(",\"theme\":");
    append_json_string(&mut out, p.theme.as_str());
    out.append("}");
    proof {
        assert(out@ =~= spec_payload_tail(p@));
    }
    out
}

/// Renders the bootstrap payload as one JSON object, in the payload's field
/// order.
pub fn render_payload_json(p: &PaymentLinkDetails) -> (r: String)
    ensures
        r@ == spec_payload_json(p@),
{
    let mut out = render_payload_head(p);
    let tail = render_payload_tail(p);
    out.append(tail.as_str());
    out
}

/// Injects the payload into the fixed global the client renderer reads:
/// serializes it and emits the assignment statement. The serializer is
/// total, so a well-formed payload always renders; the error arm exists for
/// callers that treat a render failure as an internal fault.
pub fn get_js_script(payment_details: &PaymentLinkDetails) -> (r: Result<String, ApiErrorResponse>)
    ensures
        r matches Ok(s) && s@ == spec_js_script(payment_details@),
{
    let mut out = String::from_str("window.__PAYMENT_DETAILS = ");
    let payload = render_payload_json(payment_details);
    out.append(payload.as_str());
    out.append(";");
    proof {
        assert(out@ =~= spec_js_script(payment_details@));
    }
    Ok(out)
}

/// Emits the root-scope style declaration binding the primary colour to the
/// configuration's theme, or to `default_primary_color` when the
/// configuration carries none.
pub fn get_color_scheme_css(
    payment_link_config: PaymentCreatePaymentLinkConfig,
    default_primary_color: String,
) -> (r: String)
    ensures
        r@ == spec_color_scheme_css(payment_link_config@, default_primary_color@),
{
    let background_primary_color = match payment_link_config.config.theme {
        Some(t) => t,
        None => default_primary_color,
    };
    let mut out = String::from_str(":root {\n      --primary-color: ");
    out.append(background_primary_color.as_str());
    out.append(";\n    }");
    proof {
        assert(out@ =~= spec_color_scheme_css(payment_link_config@, default_primary_color@));
    }
    out
}

/// True when `needle` occurs contiguously somewhere in `hay`.
pub open spec fn contains_subseq(hay: Seq<char>, needle: Seq<char>) -> bool {
    exists|k: int|
        0 <= k && k + needle.len() <= hay.len() && #[trigger] hay.subrange(k, k + needle.len())
            == needle
}

/// A sequence contains itself.
proof fn lemma_contains_self(n: Seq<char>)
    ensures
        contains_subseq(n, n),
{
    let k: int = 0;
    assert(n.subrange(k, k + n.len()) =~= n);
}

/// Whatever a prefix contains, the whole contains.
proof fn lemma_contains_extend_right(a: Seq<char>, b: Seq<char>, n: Seq<char>)
    requires
        contains_subseq(a, n),
    ensures
        contains_subseq(a + b, n),
{
    let k = choose|k: int|
        0 <= k && k + n.len() <= a.len() && #[trigger] a.subrange(k, k + n.len()) == n;
    assert((a + b).subrange(k, k + n.len() as int) =~= a.subrange(k, k + n.len() as int));
}

/// Whatever a suffix contains, the whole contains.
proof fn lemma_contains_extend_left(a: Seq<char>, b: Seq<char>, n: Seq<char>)
    requires
        contains_subseq(b, n),
    ensures
        contains_subseq(a + b, n),
{
    let k = choose|k: int|
        0 <= k && k + n.len() <= b.len() && #[trigger] b.subrange(k, k + n.len()) == n;
    assert((a + b).subrange(a.len() + k, a.len() + k + n.len() as int) =~= b.subrange(
        k,
        k + n.len() as int,
    ));
}

/// Law: the rendered script text carries the payment id, the currency code,
/// and the rendered amount verbatim — for ids and codes whose characters
/// JSON escaping leaves unchanged (an id containing a quote, backslash or
/// control character appears escaped instead).
pub proof fn lemma_script_contains_payment_literals(p: PaymentLinkDetailsV)
    requires
        needs_no_escaping(p.payment_id),
        needs_no_escaping(p.currency),
    ensures
        contains_subseq(spec_js_script(p), p.payment_id),
        contains_subseq(spec_js_script(p), p.currency),
        contains_subseq(spec_js_script(p), spec_dec_int(p.amount)),
{
    lemma_escape_identity(p.payment_id);
    lemma_escape_identity(p.currency);

    let head = spec_payload_head(p);
    let tail = spec_payload_tail(p);
    let payload = head + tail;
    let with_prefix = "window.__PAYMENT_DETAILS = "@ + payload;
    let script = with_prefix + ";"@;
    assert(payload == spec_payload_json(p));
    assert(script == spec_js_script(p));

    // The left-associated prefixes of the head up to each needle.
    let t1 = "{\"amount\":"@;
    let t2 = t1 + spec_dec_int(p.amount);
    let t3 = t2 + ",\"currency\":"@;
    let t4 = t3 + spec_json_string(p.currency);
    let t5 = t4 + ",\"payment_id\":"@;
    let t6 = t5 + spec_json_string(p.payment_id);
    assert(t6 == head);

    // The rendered amount reaches the end of the head.
    lemma_contains_self(spec_dec_int(p.amount));
    lemma_contains_extend_left(t1, spec_dec_int(p.amount), spec_dec_int(p.amount));
    lemma_contains_extend_right(t2, ",\"currency\":"@, spec_dec_int(p.amount));
    lemma_contains_extend_right(t3, spec_json_string(p.currency), spec_dec_int(p.amount));
    lemma_contains_extend_right(t4, ",\"payment_id\":"@, spec_dec_int(p.amount));
    lemma_contains_extend_right(t5, spec_json_string(p.payment_id), spec_dec_int(p.amount));

    // The currency code, unchanged by escaping, sits inside its JSON literal.
    assert(spec_json_string(p.currency) == seq!['"'] + p.currency + seq!['"']);
    lemma_contains_self(p.currency);
    lemma_contains_extend_left(seq!['"'], p.currency, p.currency);
    lemma_contains_extend_right(seq!['"'] + p.currency, seq!['"'], p.currency);
    lemma_contains_extend_left(t3, spec_json_string(p.currency), p.currency);
    lemma_contains_extend_right(t4, ",\"payment_id\":"@, p.currency);
    lemma_contains_extend_right(t5, spec_json_string(p.payment_id), p.currency);

    // So does the payment id.
    assert(spec_json_string(p.payment_id) == seq!['"'] + p.payment_id + seq!['"']);
    lemma_contains_self(p.payment_id);
    lemma_contains_extend_left(seq!['"'], p.payment_id, p.payment_id);
    lemma_contains_extend_right(seq!['"'] + p.payment_id, seq!['"'], p.payment_id);
    lemma_contains_extend_left(t5, spec_json_string(p.payment_id), p.payment_id);

    // Extend each containment from the head to the whole script.
    lemma_contains_extend_right(head, tail, spec_dec_int(p.amount));
    lemma_contains_extend_right(head, tail, p.currency);
    lemma_contains_extend_right(head, tail, p.payment_id);
    lemma_contains_extend_left("window.__PAYMENT_DETAILS = "@, payload, spec_dec_int(p.amount));
    lemma_contains_extend_left("window.__PAYMENT_DETAILS = "@, payload, p.currency);
    lemma_contains_extend_left("window.__PAYMENT_DETAILS = "@, payload, p.payment_id);
    lemma_contains_extend_right(with_prefix, ";"@, spec_dec_int(p.amount));
    lemma_contains_extend_right(with_prefix, ";"@, p.currency);
    lemma_contains_extend_right(with_prefix, ";"@, p.payment_id);
}

} // verus!
