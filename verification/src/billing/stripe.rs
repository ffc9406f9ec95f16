//! Payments: the Checkout and billing-portal requests, as form fields posted to
//! the payment provider's API, and the webhook events the app reacts to.
use vstd::prelude::*;
use crate::text::owned;

verus! {

/// The payment provider's API root.
pub const STRIPE_API: &'static str = "https://api.stripe.com/v1";

/// The price of the Pro monthly plan.
pub const PRO_MONTHLY: &'static str = "price_PHANTOM_PRO_MONTHLY";

/// The price of the Team monthly plan.
pub const TEAM_MONTHLY: &'static str = "price_PHANTOM_TEAM_MONTHLY";

/// A created Checkout session: its id and the URL to send the customer to.
pub struct CheckoutSession {
    pub id: String,
    pub url: String,
}

/// A webhook event the app reacts to, with the event's `data` object.
pub enum StripeWebhookEvent {
    SubscriptionUpdated { data: serde_json::Value },
    InvoicePaid { data: serde_json::Value },
    InvoicePaymentFailed { data: serde_json::Value },
    Unknown,
}

/// The form fields as text.
pub open spec fn form_view(form: Seq<(String, String)>) -> Seq<(Seq<char>, Seq<char>)> {
    form.map_values(|p: (String, String)| (p.0@, p.1@))
}

/// The fields of a subscription Checkout for one unit of `price_id`, in the
/// order they are sent.
pub open spec fn spec_checkout_form(price_id: Seq<char>, customer_email: Seq<char>, success_url: Seq<char>, cancel_url: Seq<char>) -> Seq<(Seq<char>, Seq<char>)> {
    seq![
        ("success_url"@, success_url),
        ("cancel_url"@, cancel_url),
        ("customer_email"@, customer_email),
        ("mode"@, "subscription"@),
        ("line_items[0][price]"@, price_id),
        ("line_items[0][quantity]"@, "1"@),
    ]
}

fn field(key: &str, value: &str) -> (p: (String, String))
    ensures
        p.0@ == key@,
        p.1@ == value@,
{
    (owned(key), owned(value))
}

/// Talks to the payment provider with a secret key.
pub struct StripeClient {
    pub secret_key: String,
}

impl StripeClient {
    pub fn new(secret_key: String) -> (c: Self)
        ensures
            c.secret_key == secret_key,
    {
        StripeClient { secret_key }
    }

    /// The endpoint that creates Checkout sessions.
    pub fn checkout_url() -> (u: String)
        ensures
            u@ == STRIPE_API@ + "/checkout/sessions"@,
    {
        let mut u = owned(STRIPE_API);
        u.append("/checkout/sessions");
        u
    }

    /// The endpoint that opens billing-portal sessions.
    pub fn portal_url() -> (u: String)
        ensures
            u@ == STRIPE_API@ + "/billing_portal/sessions"@,
    {
        let mut u = owned(STRIPE_API);
        u.append("/billing_portal/sessions");
        u
    }

    /// The authorization header: the secret key as a bearer token.
    pub fn auth_header(&self) -> (h: String)
        ensures
            h@ == "Bearer "@ + self.secret_key@,
    {
        let mut h = owned("Bearer ");
        h.append(self.secret_key.as_str());
        h
    }

    /// The form that creates a subscription Checkout session for one unit of
    /// `price_id`, prefilled with the customer's email.
    pub fn checkout_form(price_id: &str, customer_email: &str, success_url: &str, cancel_url: &str) -> (f: Vec<(String, String)>)
        ensures
            form_view(f@) == spec_checkout_form(price_id@, customer_email@, success_url@, cancel_url@),
    {
        let mut f: Vec<(String, String)> = Vec::new();
        f.push(field("success_url", success_url));
        f.push(field("cancel_url", cancel_url));
        f.push(field("customer_email", customer_email));
        f.push(field("mode", "subscription"));
        f.push(field("line_items[0][price]", price_id));
        f.push(field("line_items[0][quantity]", "1"));
        proof {
            assert(form_view(f@) =~= spec_checkout_form(price_id@, customer_email@, success_url@, cancel_url@));
        }
        f
    }

    /// The form that opens the billing portal of a customer.
    pub fn portal_form(customer_id: &str, return_url: &str) -> (f: Vec<(String, String)>)
        ensures
            form_view(f@) == seq![("customer"@, customer_id@), ("return_url"@, return_url@)],
    {
        let mut f: Vec<(String, String)> = Vec::new();
        f.push(field("customer", customer_id));
        f.push(field("return_url", return_url));
        proof {
            assert(form_view(f@) =~= seq![("customer"@, customer_id@), ("return_url"@, return_url@)]);
        }
        f
    }
}

} // verus!
