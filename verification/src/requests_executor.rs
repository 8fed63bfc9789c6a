//! Assembly of an outbound translation request.
//!
//! The request itself is sent by the runtime's HTTP client; what is decided
//! here is everything the client needs: the fixed origin and content-type
//! headers, the caller's url, body and user agent, and whether the request
//! goes through the proxy configured in the core settings.

use vstd::prelude::*;

use crate::settings::clone_opt_string;
use crate::settings::Settings;

verus! {

/// Everything the HTTP client needs to perform one translation request.
pub struct TranslateRequestPlan {
    pub url: String,
    pub body: String,
    pub user_agent: String,
    pub origin: String,
    pub content_type: String,
    /// The proxy to route the request through, exactly when the core
    /// settings configure one.
    pub proxy: Option<String>,
}

/// Plan a translation request from the current settings and the caller's
/// parameters.
pub fn plan_google_translate_request(
    settings: &Settings,
    url: String,
    body: String,
    user_agent: String,
) -> (r: TranslateRequestPlan)
    ensures
        r.url@ == url@,
        r.body@ == body@,
        r.user_agent@ == user_agent@,
        r.origin@ == "https://translate.google.com"@,
        r.content_type@ == "application/x-www-form-urlencoded;charset=UTF-8"@,
        r.proxy.deep_view() == settings@.core.proxy,
{
    TranslateRequestPlan {
        url,
        body,
        user_agent,
        origin: String::from_str("https://translate.google.com"),
        content_type: String::from_str("application/x-www-form-urlencoded;charset=UTF-8"),
        proxy: clone_opt_string(&settings.core.proxy),
    }
}

} // verus!
