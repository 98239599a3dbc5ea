//! The notification command: a stateless pass-through to the platform
//! notification channel.
//!
//! The controller forwards title and body untouched and keeps nothing;
//! it only turns a platform refusal into `NotificationDispatchFailed`.

use vstd::prelude::*;
use crate::errors::ShellError;

verus! {

/// One notification to display: a title/body pair, forwarded as given.
pub struct NotificationRequest {
    pub title: String,
    pub body: String,
}

/// Builds the request the platform channel is handed: the caller's
/// title and body, unmodified — no validation, no truncation here.
pub fn notification_request(title: String, body: String) -> (n: NotificationRequest)
    ensures
        n.title == title,
        n.body == body,
{
    NotificationRequest { title, body }
}

/// Maps the platform channel's verdict to the command's result: success
/// passes through, a refusal becomes `NotificationDispatchFailed`,
/// reported once and never retried.
pub fn notification_outcome(delivered: bool) -> (r: Result<(), ShellError>)
    ensures
        r is Ok <==> delivered,
        !delivered ==> r == Err::<(), ShellError>(ShellError::NotificationDispatchFailed),
{
    if delivered {
        Ok(())
    } else {
        Err(ShellError::NotificationDispatchFailed)
    }
}

} // verus!
