//! Icon resolution for one power device.
//!
//! A device's display icon comes from the primary power service's icon
//! property. When that property cannot be read, a fixed fallback identifier
//! is used. When the property reads back as exactly the fallback identifier
//! and the device's native path marks it as a bluetooth device, the
//! bluetooth service's property bag is consulted for an `Icon` field; the
//! field's value wins, and every failure along the way falls back to the
//! primary value. Resolution never fails outward and never yields an
//! empty identifier: the fallback stands in wherever a service handed an
//! empty value back.
//!
//! The callers perform the bus reads and hand the results in as plain
//! values; the functions here make every decision of the protocol.

use vstd::prelude::*;

verus! {

/// The icon identifier used when the primary icon property cannot be read.
pub open spec fn spec_fallback_icon() -> Seq<char> {
    "battery-missing-symbolic"@
}

/// Returns the fallback icon identifier, `battery-missing-symbolic`.
pub fn fallback_icon() -> (r: String)
    ensures
        r@ == spec_fallback_icon(),
{
    String::from_str("battery-missing-symbolic")
}

/// The namespace prefix of the bluetooth service's object paths.
pub open spec fn spec_bluez_prefix() -> Seq<char> {
    "/org/bluez"@
}

/// Whether a native path lies in the bluetooth service's namespace.
pub open spec fn spec_is_bluez_path(p: Seq<char>) -> bool {
    p.len() >= spec_bluez_prefix().len() && p.subrange(
        0,
        spec_bluez_prefix().len() as int,
    ) == spec_bluez_prefix()
}

/// Tests whether a device's native path lies in the bluetooth service's
/// namespace, i.e. starts with `/org/bluez`.
pub fn is_bluez_path(path: &str) -> (r: bool)
    ensures
        r == spec_is_bluez_path(path@),
{
    let prefix = "/org/bluez";
    proof {
        reveal_strlit("/org/bluez");
    }
    let prefix_len = prefix.unicode_len();
    let path_len = path.unicode_len();
    if path_len < prefix_len {
        return false;
    }
    let mut i: usize = 0;
    while i < prefix_len
        invariant
            prefix@ == spec_bluez_prefix(),
            prefix_len == prefix@.len(),
            path_len == path@.len(),
            prefix_len <= path_len,
            0 <= i <= prefix_len,
            forall|j: int| 0 <= j < i ==> path@[j] == spec_bluez_prefix()[j],
        decreases prefix_len - i,
    {
        if path.get_char(i) != prefix.get_char(i) {
            proof {
                let k = i as int;
                assert(path@.subrange(0, spec_bluez_prefix().len() as int)[k] == path@[k]);
            }
            return false;
        }
        i += 1;
    }
    proof {
        assert(path@.subrange(0, spec_bluez_prefix().len() as int) =~= spec_bluez_prefix());
    }
    true
}

/// Whether the secondary (bluetooth) property bag is to be consulted: the
/// primary property was read successfully, it is exactly the fallback
/// identifier, and the device's native path marks a bluetooth device.
pub open spec fn spec_wants_bluez_icon(primary: Option<String>, native_path: Option<String>) -> bool {
    &&& primary matches Some(p) && p@ == spec_fallback_icon()
    &&& native_path matches Some(np) && spec_is_bluez_path(np@)
}

/// Decides whether the bluetooth property bag has to be fetched for a
/// device, given the primary icon property and the native path as they
/// were read (`None` where the read failed).
pub fn needs_bluez_lookup(primary: &Option<String>, native_path: &Option<String>) -> (r: bool)
    ensures
        r == spec_wants_bluez_icon(*primary, *native_path),
{
    match primary {
        None => false,
        Some(p) => {
            let fb = fallback_icon();
            if !p.eq(&fb) {
                return false;
            }
            match native_path {
                None => false,
                Some(np) => is_bluez_path(np.as_str()),
            }
        },
    }
}

/// An identifier itself, unless it is empty: an empty identifier is
/// unusable for display, so the fallback stands in for it.
pub open spec fn spec_nonempty_or_fallback(s: Seq<char>) -> Seq<char> {
    if s.len() == 0 {
        spec_fallback_icon()
    } else {
        s
    }
}

/// The icon identifier the resolution protocol yields, given the primary
/// property read, the native path read, and the bluetooth `Icon` field
/// (outer `None`: the property-bag call failed; inner `None`: the call
/// succeeded but carried no `Icon` field). The selected identifier is
/// never returned empty: the fallback stands in for an empty value.
pub open spec fn spec_resolve_icon(
    primary: Option<String>,
    native_path: Option<String>,
    bluez_icon: Option<Option<String>>,
) -> Seq<char> {
    match primary {
        None => spec_fallback_icon(),
        Some(p) => if spec_wants_bluez_icon(primary, native_path) {
            match bluez_icon {
                Some(Some(icon)) => spec_nonempty_or_fallback(icon@),
                _ => p@,
            }
        } else {
            spec_nonempty_or_fallback(p@)
        },
    }
}

/// Resolves a device's display icon from the primary icon property, the
/// device's native path, and the bluetooth `Icon` field, each as it was
/// read (`None` where the read failed). The bluetooth field is consulted
/// exactly when `needs_bluez_lookup` says so; a caller that was told not
/// to fetch it passes `None`, which the result then does not depend on.
/// The result is never empty: where a service returned an empty
/// identifier, the fallback stands in for it.
pub fn resolve_icon(
    primary: Option<String>,
    native_path: &Option<String>,
    bluez_icon: Option<Option<String>>,
) -> (r: String)
    ensures
        r@ == spec_resolve_icon(primary, *native_path, bluez_icon),
        r@.len() > 0,
{
    proof {
        reveal_strlit("battery-missing-symbolic");
    }
    match primary {
        None => fallback_icon(),
        Some(p) => {
            if needs_bluez_lookup(&Some(p.clone()), native_path) {
                match bluez_icon {
                    Some(Some(icon)) => if icon.as_str().is_empty() {
                        fallback_icon()
                    } else {
                        icon
                    },
                    _ => p,
                }
            } else {
                if p.as_str().is_empty() {
                    fallback_icon()
                } else {
                    p
                }
            }
        },
    }
}

/// Law: icon resolution yields a non-empty identifier for every input —
/// including when both the primary and the secondary lookups fail, and
/// including when a service returned an empty identifier.
pub proof fn lemma_resolve_icon_nonempty(
    primary: Option<String>,
    native_path: Option<String>,
    bluez_icon: Option<Option<String>>,
)
    ensures
        spec_resolve_icon(primary, native_path, bluez_icon).len() > 0,
{
    reveal_strlit("battery-missing-symbolic");
}

} // verus!
