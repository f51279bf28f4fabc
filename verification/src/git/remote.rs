//! The decisions of remote operations: credential attempts, progress
//! lines and the report of each pushed ref.

use vstd::prelude::*;
use vstd::string::*;
use crate::text::{concat2, concat4, decimal_spec, usize_to_string};

verus! {

/// Authentication attempt counter, which stops endless credential retries.
/// It is owned by the one credentials callback that counts with it, so
/// every attempt of an operation goes through the same count; it offers no
/// `Clone`, which would give a second, separate count.
#[derive(Debug)]
pub struct AuthCounter {
    count: u32,
}

impl View for AuthCounter {
    type V = u32;

    closed spec fn view(&self) -> u32 {
        self.count
    }
}

impl AuthCounter {
    /// A counter at zero.
    pub fn new() -> (r: Self)
        ensures
            r@ == 0,
    {
        AuthCounter { count: 0 }
    }

    /// Counts an attempt and says whether it is within `max` attempts.
    pub fn increment_and_check(&mut self, max: u32) -> (r: bool)
        requires
            old(self)@ < u32::MAX,
        ensures
            final(self)@ == old(self)@ + 1,
            r == (final(self)@ <= max),
    {
        self.count = self.count + 1;
        self.count <= max
    }

    /// The number of attempts counted.
    pub fn get(&self) -> (r: u32)
        ensures
            r == self@,
    {
        self.count
    }
}

impl Default for AuthCounter {
    fn default() -> (r: Self)
        ensures
            r@ == 0,
    {
        Self::new()
    }
}

/// The user name offered for SSH credentials: the one the remote asks
/// for, or `git`.
pub fn credential_username(asked: Option<&str>) -> (r: String)
    ensures
        r@ == match asked {
            Some(u) => u@,
            None => "git"@,
        },
{
    match asked {
        Some(u) => u.to_owned(),
        None => "git".to_owned(),
    }
}

/// The attempts allowed to find credentials for one operation.
pub open spec fn max_auth_attempts() -> u32 {
    3
}

/// Counts a credentials attempt: within the allowed attempts `Ok`, after
/// them the error that stops the operation.
pub fn auth_attempt(counter: &mut AuthCounter) -> (r: Result<(), String>)
    requires
        old(counter)@ < u32::MAX,
    ensures
        final(counter)@ == old(counter)@ + 1,
        r is Ok <==> final(counter)@ <= max_auth_attempts(),
        r matches Err(m) ==> m@ == "Authentication failed after 3 attempts"@,
{
    if counter.increment_and_check(3) {
        Ok(())
    } else {
        Err("Authentication failed after 3 attempts".to_owned())
    }
}

/// The error when neither the SSH agent nor a default key gave
/// credentials.
pub fn no_credentials_message() -> (r: String)
    ensures
        r@ == "No valid SSH credentials found. Ensure SSH agent is running or SSH keys exist."@,
{
    "No valid SSH credentials found. Ensure SSH agent is running or SSH keys exist.".to_owned()
}

/// The progress line of a transfer, once the total is known: objects
/// received of the total, and the whole percentage.
pub fn transfer_progress_line(received: usize, total: usize) -> (r: Option<String>)
    requires
        received * 100 <= usize::MAX,
    ensures
        total == 0 ==> r is None,
        total > 0 ==> (r matches Some(t) && t@ == "Received "@ + decimal_spec(received as nat) + "/"@
            + decimal_spec(total as nat) + " objects ("@ + decimal_spec((received as int * 100 / total as int) as nat)
            + "%)\r"@),
{
    if total == 0 {
        return None;
    }
    let percent = (received * 100) / total;
    let a = usize_to_string(received);
    let b = usize_to_string(total);
    let c = usize_to_string(percent);
    let head = concat4("Received ", a.as_str(), "/", b.as_str());
    Some(concat4(head.as_str(), " objects (", c.as_str(), "%)\r"))
}

/// The report of one pushed ref: on success the line printed; on a
/// rejection the error line and the message the push fails with.
pub fn push_update_report(refname: &str, status: Option<&str>) -> (r: Result<String, (String, String)>)
    ensures
        match status {
            None => r matches Ok(line) && line@ == "  \u{2192} "@ + refname@,
            Some(msg) => r matches Err((line, e)) && line@ == "Failed to push "@ + refname@ + ": "@ + msg@
                && e@ == msg@,
        },
{
    match status {
        None => Ok(concat2("  \u{2192} ", refname)),
        Some(msg) => Err((concat4("Failed to push ", refname, ": ", msg), msg.to_owned())),
    }
}

} // verus!
