//! CPU info spoofing: whether a profile asks for it, and how the companion's
//! answer is read.

use vstd::prelude::*;

use crate::config::MergedAppConfig;
use crate::strings::is_filled;

verus! {

/// The `/proc/cpuinfo` content to install for a profile: its resolved content
/// when that is present and not empty.
pub fn cpu_spoof_content(merged: &MergedAppConfig) -> (r: Option<&String>)
    ensures
        r is Some <==> is_filled(merged.cpuinfo_content),
        r is Some ==> *r->0 == merged.cpuinfo_content->0,
{
    match &merged.cpuinfo_content {
        Some(c) => if c.as_str().is_empty() {
            None
        } else {
            Some(c)
        },
        None => None,
    }
}

/// Reads a companion reply: status 0 is success; any other status is an error
/// carrying the reply's message, or `fallback` when the reply has none.
pub fn check_companion_status(status: i32, message: Option<String>, fallback: &str) -> (r: Result<
    (),
    String,
>)
    ensures
        r is Ok <==> status == 0,
        r matches Err(e) ==> e@ == match message {
            Some(m) => m@,
            None => fallback@,
        },
{
    if status == 0 {
        Ok(())
    } else {
        match message {
            Some(m) => Err(m),
            None => Err(fallback.to_owned()),
        }
    }
}

} // verus!
