//! Requests that concern windows and what they are handed.

use crate::text::{has_prefix, starts_with, trim, trimmed};
use crate::windows::ids::WindowKind;
use vstd::prelude::*;

verus! {

/// A text that waits for the window that polishes it.
#[derive(Debug, Clone)]
pub struct PendingOptimizeRequest {
    pub text: String,
    pub target: Option<String>,
    pub title: Option<String>,
    pub custom_prompt: Option<String>,
    pub custom_model: Option<String>,
    pub request_id: Option<u64>,
}

/// The place where one request waits until its window fetches it.
#[derive(Debug)]
pub struct PendingOptimizeStore {
    pending: Option<PendingOptimizeRequest>,
}

impl PendingOptimizeStore {
    /// The request that waits, if any.
    pub closed spec fn pending(self) -> Option<PendingOptimizeRequest> {
        self.pending
    }

    /// A store in which nothing waits.
    pub fn new() -> (store: Self)
        ensures
            store.pending() is None,
    {
        PendingOptimizeStore { pending: None }
    }

    /// Lets `payload` wait, in place of whatever waited before. A request
    /// whose text is blank is refused, and the store stays as it is.
    pub fn set_pending_optimize_request(&mut self, payload: PendingOptimizeRequest) -> (result:
        Result<(), String>)
        ensures
            trimmed(payload.text@).len() > 0 ==> result is Ok && final(self).pending() == Some(
                payload,
            ),
            trimmed(payload.text@).len() == 0 ==> final(self).pending() == old(self).pending()
                && (result matches Err(message) && message@
                == "pending optimize request text must not be empty"@),
    {
        if trim(payload.text.as_str()).is_empty() {
            return Err("pending optimize request text must not be empty".to_owned());
        }
        self.pending = Some(payload);
        Ok(())
    }

    /// Hands out the request that waits, after which nothing waits.
    pub fn take_pending_optimize_request(&mut self) -> (taken: Option<PendingOptimizeRequest>)
        ensures
            taken == old(self).pending(),
            final(self).pending() is None,
    {
        self.pending.take()
    }
}

/// Whether an address may be handed to the operating system: it begins with
/// `http://` or `https://`.
pub open spec fn is_web_address(target: Seq<char>) -> bool {
    has_prefix(target, "http://"@) || has_prefix(target, "https://"@)
}

/// The address to open for a request to open `url`: the text without
/// surrounding white space, if that is a web address.
pub fn external_url_target<'a>(url: &'a str) -> (target: Result<&'a str, String>)
    ensures
        match target {
            Ok(t) => t@ == trimmed(url@) && is_web_address(t@),
            Err(message) => !is_web_address(trimmed(url@)) && message@
                == "url must start with http:// or https://"@,
        },
{
    let target = trim(url);
    if starts_with(target, "http://") || starts_with(target, "https://") {
        Ok(target)
    } else {
        Err("url must start with http:// or https://".to_owned())
    }
}

/// Whether a window is brought to the front and given the focus when it is
/// shown: each but the action bar, which must not take the focus from the
/// selection.
pub fn takes_focus_when_shown(kind: WindowKind) -> (focus: bool)
    ensures
        focus == (kind != WindowKind::ActionBar),
{
    match kind {
        WindowKind::ActionBar => false,
        _ => true,
    }
}

} // verus!
