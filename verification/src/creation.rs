//! Validation of the strings marshalled at instance creation.
//!
//! Every string handed to the engine's constructor must be convertible to a
//! null-terminated representation, so a string holding an embedded NUL byte
//! is rejected before any native resource is allocated. This is the only
//! expected failure mode at creation: the engine itself defers its own
//! validation to connect.

use vstd::prelude::*;

use crate::errors::OVPNCreationError;
use vstd::string::StringSliceAdditionalSpecFns;

verus! {

/// The bytes of an optional string argument; an absent argument is
/// marshalled as the empty string.
pub open spec fn opt_bytes(s: Option<&str>) -> Seq<u8> {
    match s {
        Some(t) => t.spec_bytes(),
        None => Seq::empty(),
    }
}

/// The diagnostic for the first creation argument, in marshalling order,
/// that holds an embedded NUL byte.
pub open spec fn spec_creation_err_msg(
    profile: Seq<u8>,
    username: Seq<u8>,
    password: Seq<u8>,
    replacement_ipv4: Seq<u8>,
    replacement_ipv6: Seq<u8>,
) -> Seq<char> {
    if profile.contains(0u8) {
        "CString::new failed for profile_cstring"@
    } else if username.contains(0u8) {
        "CString::new failed for username_cstring"@
    } else if password.contains(0u8) {
        "CString::new failed for password_cstring"@
    } else if replacement_ipv4.contains(0u8) {
        "CString::new failed for replacementIpv4"@
    } else {
        "CString::new failed for replacementIpv6"@
    }
}

/// Whether the string holds an embedded NUL byte.
pub fn str_has_nul(s: &str) -> (b: bool)
    ensures
        b == s.spec_bytes().contains(0u8),
{
    let bytes = s.as_bytes();
    let n = bytes.len();
    let mut i: usize = 0;
    while i < n
        invariant
            i <= n,
            n == bytes@.len(),
            bytes@ == s.spec_bytes(),
            forall|j: int| 0 <= j < i ==> bytes@[j] != 0u8,
        decreases n - i,
    {
        if *vstd::slice::slice_index_get(bytes, i) == 0u8 {
            proof {
                assert(s.spec_bytes()[i as int] == 0u8);
            }
            return true;
        }
        i += 1;
    }
    false
}

/// Whether the optional string holds an embedded NUL byte.
fn opt_has_nul(s: Option<&str>) -> (b: bool)
    ensures
        b == opt_bytes(s).contains(0u8),
{
    match s {
        Some(t) => str_has_nul(t),
        None => false,
    }
}

/// Validates the five string arguments of instance creation, in the order
/// they are marshalled. Succeeds exactly when none of them holds an
/// embedded NUL byte; otherwise reports the first offending argument.
pub fn validate_creation(
    profile: &str,
    username: Option<&str>,
    password: Option<&str>,
    replacement_ipv4: &str,
    replacement_ipv6: &str,
) -> (r: Result<(), OVPNCreationError>)
    ensures
        r is Ok <==> (!profile.spec_bytes().contains(0u8) && !opt_bytes(username).contains(0u8)
            && !opt_bytes(password).contains(0u8) && !replacement_ipv4.spec_bytes().contains(0u8)
            && !replacement_ipv6.spec_bytes().contains(0u8)),
        r matches Err(e) ==> e matches OVPNCreationError::CStringError(m) && m@
            == spec_creation_err_msg(
            profile.spec_bytes(),
            opt_bytes(username),
            opt_bytes(password),
            replacement_ipv4.spec_bytes(),
            replacement_ipv6.spec_bytes(),
        ),
{
    if str_has_nul(profile) {
        Err(
            OVPNCreationError::CStringError(
                String::from_str("CString::new failed for profile_cstring"),
            ),
        )
    } else if opt_has_nul(username) {
        Err(
            OVPNCreationError::CStringError(
                String::from_str("CString::new failed for username_cstring"),
            ),
        )
    } else if opt_has_nul(password) {
        Err(
            OVPNCreationError::CStringError(
                String::from_str("CString::new failed for password_cstring"),
            ),
        )
    } else if str_has_nul(replacement_ipv4) {
        Err(
            OVPNCreationError::CStringError(
                String::from_str("CString::new failed for replacementIpv4"),
            ),
        )
    } else if str_has_nul(replacement_ipv6) {
        Err(
            OVPNCreationError::CStringError(
                String::from_str("CString::new failed for replacementIpv6"),
            ),
        )
    } else {
        Ok(())
    }
}

} // verus!
