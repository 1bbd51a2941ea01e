use vstd::prelude::*;

verus! {

/// The name shown for a layer's visibility.
pub fn visibility_label(visible: bool) -> (s: &'static str)
    ensures
        visible ==> s@ == "visible"@,
        !visible ==> s@ == "hidden"@,
{
    if visible {
        "visible"
    } else {
        "hidden"
    }
}

/// The document status shown in the heads-up display: the status, or
/// "document not saved" while there is none.
pub fn shown_status<'a>(status: &'a str) -> (s: &'a str)
    ensures
        status@.len() == 0 ==> s@ == "document not saved"@,
        status@.len() != 0 ==> s == status,
{
    if status.is_empty() {
        "document not saved"
    } else {
        status
    }
}

/// The size of a saved file in KiB, rounded up.
pub open spec fn kib_of(bytes: int) -> int {
    (bytes + 1023) / 1024
}

/// The size of a saved file of `bytes` bytes in KiB, rounded up.
pub fn kib_rounded_up(bytes: u64) -> (kib: u64)
    ensures
        kib == kib_of(bytes as int),
        kib * 1024 >= bytes,
        bytes > 0 ==> (kib - 1) * 1024 < bytes,
{
    let whole = bytes / 1024;
    if bytes % 1024 == 0 {
        whole
    } else {
        whole + 1
    }
}

} // verus!
