//! What a Stripe checkout for a subscription is created with.
use vstd::prelude::*;
use crate::num::{fmt_i64, int_text};
use crate::text::{append_str, string_of};

verus! {

/// The parts of a subscription checkout that do not depend on the price.
pub struct CheckoutRequest {
    pub success_url: String,
    pub cancel_url: String,
    pub product_name: String,
    pub product_description: String,
    pub client_reference_id: String,
    pub metadata: Vec<(String, String)>,
}

/// Builds the checkout of a subscription of `telegram_id` to
/// `searches_count` searches: the return addresses under `base_url` (the
/// success address carries Stripe's session placeholder), the product's
/// name and description, the reference `<telegram_id>_<searches>`, and the
/// user and search count as metadata.
pub fn checkout_request(base_url: &str, telegram_id: i64, searches_count: i32) -> (r: CheckoutRequest)
    ensures
        r.success_url@ == base_url@ + "/payment/success?session_id={CHECKOUT_SESSION_ID}"@,
        r.cancel_url@ == base_url@ + "/payment/cancel"@,
        r.product_name@ == "Suscripción "@ + int_text(searches_count as int) + " búsquedas"@,
        r.product_description@ == "Acceso mensual a "@ + int_text(searches_count as int) + " búsquedas configuradas"@,
        r.client_reference_id@ == int_text(telegram_id as int) + "_"@ + int_text(searches_count as int),
        r.metadata@.len() == 2,
        r.metadata@[0].0@ == "telegram_id"@ && r.metadata@[0].1@ == int_text(telegram_id as int),
        r.metadata@[1].0@ == "searches_count"@ && r.metadata@[1].1@ == int_text(searches_count as int),
{
    let tid = fmt_i64(telegram_id);
    let n = fmt_i64(searches_count as i64);
    let mut success_url = string_of(base_url);
    append_str(&mut success_url, "/payment/success?session_id={CHECKOUT_SESSION_ID}");
    let mut cancel_url = string_of(base_url);
    append_str(&mut cancel_url, "/payment/cancel");
    let mut product_name = string_of("Suscripción ");
    append_str(&mut product_name, n.as_str());
    append_str(&mut product_name, " búsquedas");
    let mut product_description = string_of("Acceso mensual a ");
    append_str(&mut product_description, n.as_str());
    append_str(&mut product_description, " búsquedas configuradas");
    let mut client_reference_id = string_of(tid.as_str());
    append_str(&mut client_reference_id, "_");
    append_str(&mut client_reference_id, n.as_str());
    let metadata = vec![
        (string_of("telegram_id"), string_of(tid.as_str())),
        (string_of("searches_count"), string_of(n.as_str())),
    ];
    CheckoutRequest { success_url, cancel_url, product_name, product_description, client_reference_id, metadata }
}

} // verus!
