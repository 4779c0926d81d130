//! Validated deployment identity of this build: the Chrome native-messaging
//! host name and the one extension allowed to call it.

use vstd::prelude::*;
use vstd::utf8::encode_utf8;

verus! {

/// Build profile of this build.
pub const DEPLOYMENT_PROFILE: &'static str = "development";

/// Chrome native messaging host name of this build.
pub const NATIVE_HOST_NAME: &'static str = "com.inkwell.desktop.dev";

/// Chrome extension identifier this build permits.
pub const EXTENSION_ID: &'static str = "bigiacfmnlcbgamdkjepnkabampiiape";

/// Host name reserved for local development.
pub const DEVELOPMENT_NATIVE_HOST_NAME: &'static str = "com.inkwell.desktop.dev";

/// Extension identifier of the unpacked test extension.
pub const DEVELOPMENT_EXTENSION_ID: &'static str = "bigiacfmnlcbgamdkjepnkabampiiape";

/// A lowercase ASCII letter, a digit, `_` or `.`.
pub open spec fn is_host_name_byte(b: u8) -> bool {
    (0x61 <= b <= 0x7a) || (0x30 <= b <= 0x39) || b == 0x5f || b == 0x2e
}

/// The name has two adjacent dots somewhere.
pub open spec fn has_double_dot(name: Seq<u8>) -> bool {
    exists|i: int| 0 <= i < name.len() - 1 && #[trigger] name[i] == 0x2e && name[i + 1] == 0x2e
}

/// The verdict on a native messaging host name, checked in this order:
/// nonempty, dots only between labels, then the allowed characters.
pub open spec fn host_name_verdict(name: Seq<u8>) -> Result<(), Seq<char>> {
    if name.len() == 0 {
        Err("must not be empty"@)
    } else if name[0] == 0x2e || name[name.len() - 1] == 0x2e || has_double_dot(name) {
        Err("must not start or end with a dot or contain consecutive dots"@)
    } else if !(forall|i: int| 0 <= i < name.len() ==> is_host_name_byte(#[trigger] name[i])) {
        Err("must contain only lowercase ASCII letters, digits, underscores, and dots"@)
    } else {
        Ok(())
    }
}

/// The verdict on an extension identifier: 32 letters from `a` to `p`.
pub open spec fn extension_id_verdict(id: Seq<u8>) -> Result<(), Seq<char>> {
    if id.len() != 32 {
        Err("must contain exactly 32 characters"@)
    } else if !(forall|i: int| 0 <= i < id.len() ==> 0x61 <= #[trigger] id[i] <= 0x70) {
        Err("must contain only lowercase letters from 'a' through 'p'"@)
    } else {
        Ok(())
    }
}

/// `r` reports exactly `verdict`.
pub open spec fn reports_verdict(r: Result<(), &'static str>, verdict: Result<(), Seq<char>>) -> bool {
    match (r, verdict) {
        (Ok(()), Ok(())) => true,
        (Err(message), Err(expected)) => message@ == expected,
        _ => false,
    }
}

/// Checks a Chrome native messaging host name.
pub fn validate_native_host_name(value: &str) -> (r: Result<(), &'static str>)
    ensures
        reports_verdict(r, host_name_verdict(encode_utf8(value@))),
{
    let bytes = value.as_bytes();
    let n = bytes.len();
    if n == 0 {
        return Err("must not be empty");
    }
    if bytes[0] == 0x2e || bytes[n - 1] == 0x2e {
        return Err("must not start or end with a dot or contain consecutive dots");
    }
    let mut i: usize = 0;
    while i + 1 < n
        invariant
            bytes@ == encode_utf8(value@),
            n == bytes@.len(),
            n > 0,
            bytes@[0] != 0x2e,
            bytes@[n - 1] != 0x2e,
            i < n,
            forall|j: int| 0 <= j < i ==> !(#[trigger] bytes@[j] == 0x2e && bytes@[j + 1] == 0x2e),
        decreases n - i,
    {
        if bytes[i] == 0x2e && bytes[i + 1] == 0x2e {
            return Err("must not start or end with a dot or contain consecutive dots");
        }
        i = i + 1;
    }
    let mut k: usize = 0;
    while k < n
        invariant
            bytes@ == encode_utf8(value@),
            n == bytes@.len(),
            n > 0,
            bytes@[0] != 0x2e,
            bytes@[n - 1] != 0x2e,
            !has_double_dot(bytes@),
            k <= n,
            forall|j: int| 0 <= j < k ==> is_host_name_byte(#[trigger] bytes@[j]),
        decreases n - k,
    {
        let b = bytes[k];
        if !((0x61u8 <= b && b <= 0x7au8) || (0x30u8 <= b && b <= 0x39u8) || b == 0x5fu8 || b
            == 0x2eu8) {
            return Err("must contain only lowercase ASCII letters, digits, underscores, and dots");
        }
        k = k + 1;
    }
    Ok(())
}

/// Checks a Chrome extension identifier.
pub fn validate_extension_id(value: &str) -> (r: Result<(), &'static str>)
    ensures
        reports_verdict(r, extension_id_verdict(encode_utf8(value@))),
{
    let bytes = value.as_bytes();
    if bytes.len() != 32 {
        return Err("must contain exactly 32 characters");
    }
    let mut i: usize = 0;
    while i < 32
        invariant
            bytes@ == encode_utf8(value@),
            bytes@.len() == 32,
            i <= 32,
            forall|j: int| 0 <= j < i ==> 0x61 <= #[trigger] bytes@[j] <= 0x70,
        decreases 32 - i,
    {
        let b = bytes[i];
        if !(0x61u8 <= b && b <= 0x70u8) {
            return Err("must contain only lowercase letters from 'a' through 'p'");
        }
        i = i + 1;
    }
    Ok(())
}

} // verus!
