//! Configuration texts that are not tied to one service: feature flags and
//! the host name of the appliance.

use crate::mac::utf8_len;
use crate::text::{str_equal, to_chars, trim, trim_chars};
use vstd::prelude::*;
use vstd::string::StrSliceExecFns;

verus! {

/// The host name that is used if none is configured.
pub const HOSTNAME_FALLBACK: &'static str = "wakesp";

/// The longest host name that the network stack takes, in bytes.
pub const HOSTNAME_MAX_LEN: usize = 32;

/// A feature is switched on by the text `true` or `1`, and by nothing
/// else.
pub open spec fn is_enabled(flag: Seq<char>) -> bool {
    flag == "true"@ || flag == "1"@
}

/// Whether a flag switches its feature on.
pub fn flag_enabled(flag: &str) -> (enabled: bool)
    ensures
        enabled == is_enabled(flag@),
{
    str_equal(flag, "true") || str_equal(flag, "1")
}

/// The host name of the appliance: the configured one without the
/// whitespace around it, or `wakesp` if that is empty or longer than 32
/// bytes.
pub open spec fn host_name(configured: Seq<char>) -> Seq<char> {
    let name = trim(configured);
    if name.len() == 0 || utf8_len(name) > HOSTNAME_MAX_LEN {
        HOSTNAME_FALLBACK@
    } else {
        name
    }
}

/// The host name that the appliance announces.
pub fn choose_hostname<'a>(configured: &'a str) -> (name: &'a str)
    ensures
        name@ == host_name(configured@),
{
    let chars = to_chars(configured);
    let (trimmed, start) = trim_chars(chars.as_slice());
    let name = configured.substring_char(start, start + trimmed.len());
    if trimmed.len() == 0 || name.as_bytes().len() > HOSTNAME_MAX_LEN {
        HOSTNAME_FALLBACK
    } else {
        name
    }
}

} // verus!
