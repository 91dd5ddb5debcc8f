//! Decisions taken on payment-provider webhook events.
use vstd::prelude::*;
use crate::num::{parse_i32, parse_i64, parsed_i32, parsed_i64};
use crate::text::{clone_opt, opt_view, starts_with, str_eq, str_starts_with, string_of};

verus! {

/// The fields of an event's object that the service reads; metadata values
/// are `None` unless they are strings.
pub struct StripeEventData {
    pub id: Option<String>,
    pub customer: Option<String>,
    pub subscription: Option<String>,
    pub payment_intent: Option<String>,
    pub amount_total: Option<i64>,
    pub metadata_telegram_id: Option<String>,
    pub metadata_searches_count: Option<String>,
}

/// A webhook event: its type and its object.
pub struct StripeWebhookPayload {
    pub event_type: String,
    pub data: StripeEventData,
}

/// What the service does with an event.
pub enum WebhookAction {
    /// A completed checkout of a known user: record the payment and
    /// activate the subscription.
    ActivateSubscription {
        telegram_id: i64,
        session_id: String,
        amount_cents: i64,
        searches_count: i32,
        customer_id: Option<String>,
        subscription_id: Option<String>,
        payment_intent_id: Option<String>,
    },
    /// A completed checkout that names no user.
    MissingTelegramId,
    /// A failed invoice payment: the customer's subscription is past due.
    MarkPastDue { customer: String },
    /// A deleted subscription: it is cancelled.
    CancelSubscription { subscription: String },
    /// Nothing to do.
    Ignore,
}

/// Whether the signature of a webhook must be checked with `secret`: it is
/// set and is not the placeholder `whsec_...`.
pub open spec fn signature_required_spec(secret: Seq<char>) -> bool {
    secret.len() > 0 && !starts_with(secret, "whsec_..."@)
}

/// Decides `signature_required_spec`.
pub fn signature_required(secret: &str) -> (r: bool)
    ensures
        r == signature_required_spec(secret@),
{
    let empty = secret.unicode_len() == 0;
    !empty && !str_starts_with(secret, "whsec_...")
}

/// The action an event calls for (described over string views).
pub open spec fn action_matches(p: StripeWebhookPayload, r: WebhookAction) -> bool {
    let t = p.event_type@;
    let o = p.data;
    if t == "checkout.session.completed"@ {
        match o.metadata_telegram_id {
            Some(tid) if parsed_i64(tid@) is Some => {
                &&& r matches WebhookAction::ActivateSubscription {
                    telegram_id,
                    session_id,
                    amount_cents,
                    searches_count,
                    customer_id,
                    subscription_id,
                    payment_intent_id,
                }
                &&& telegram_id as int == parsed_i64(tid@)->0
                &&& session_id@ == (match o.id { Some(s) => s@, None => Seq::<char>::empty() })
                &&& amount_cents == (match o.amount_total { Some(a) => a, None => 0 })
                &&& searches_count as int == (match o.metadata_searches_count {
                    Some(c) => match parsed_i32(c@) { Some(v) => v, None => 0 },
                    None => 0,
                })
                &&& opt_view(customer_id) == opt_view(o.customer)
                &&& opt_view(subscription_id) == opt_view(o.subscription)
                &&& opt_view(payment_intent_id) == opt_view(o.payment_intent)
            },
            _ => r is MissingTelegramId,
        }
    } else if t == "invoice.payment_failed"@ {
        match o.customer {
            Some(c) => r matches WebhookAction::MarkPastDue { customer } && customer@ == c@,
            None => r is Ignore,
        }
    } else if t == "customer.subscription.deleted"@ {
        match o.id {
            Some(i) => r matches WebhookAction::CancelSubscription { subscription }
                && subscription@ == i@,
            None => r is Ignore,
        }
    } else {
        r is Ignore
    }
}

/// Decides what a webhook event calls for: a completed checkout activates
/// the subscription of the user named in its metadata (amount in cents,
/// search count 0 when absent or unreadable), a failed invoice marks the
/// customer past due, a deleted subscription is cancelled, and every other
/// event is ignored.
pub fn webhook_action(p: &StripeWebhookPayload) -> (r: WebhookAction)
    ensures
        action_matches(*p, r),
{
    let t = p.event_type.as_str();
    let o = &p.data;
    if str_eq(t, "checkout.session.completed") {
        let tid = match &o.metadata_telegram_id {
            Some(s) => parse_i64(s.as_str()),
            None => None,
        };
        match tid {
            Some(telegram_id) => {
                let session_id = match &o.id {
                    Some(s) => s.clone(),
                    None => String::new(),
                };
                let amount_cents = match o.amount_total {
                    Some(a) => a,
                    None => 0,
                };
                let searches_count = match &o.metadata_searches_count {
                    Some(c) => match parse_i32(c.as_str()) {
                        Some(v) => v,
                        None => 0,
                    },
                    None => 0,
                };
                WebhookAction::ActivateSubscription {
                    telegram_id,
                    session_id,
                    amount_cents,
                    searches_count,
                    customer_id: clone_opt(&o.customer),
                    subscription_id: clone_opt(&o.subscription),
                    payment_intent_id: clone_opt(&o.payment_intent),
                }
            },
            None => WebhookAction::MissingTelegramId,
        }
    } else if str_eq(t, "invoice.payment_failed") {
        match &o.customer {
            Some(c) => WebhookAction::MarkPastDue { customer: c.clone() },
            None => WebhookAction::Ignore,
        }
    } else if str_eq(t, "customer.subscription.deleted") {
        match &o.id {
            Some(i) => WebhookAction::CancelSubscription { subscription: i.clone() },
            None => WebhookAction::Ignore,
        }
    } else {
        WebhookAction::Ignore
    }
}


/// The day a subscription paid on `today` runs until: the same day next
/// month (the last day of next month when it is shorter); none past the
/// last representable year.
pub fn paid_until(today: crate::dates::SimpleDate) -> (r: Option<crate::dates::SimpleDate>)
    requires
        crate::dates::valid_date(today.year as int, today.month as int, today.day as int),
    ensures
        r == (if crate::dates::next_month(today).0 <= crate::dates::MAX_YEAR {
            Some(crate::dates::SimpleDate {
                year: crate::dates::next_month(today).0 as i32,
                month: crate::dates::next_month(today).1 as u32,
                day: crate::dates::next_month(today).2 as u32,
            })
        } else {
            None
        }),
{
    crate::dates::add_one_month(today)
}

} // verus!
