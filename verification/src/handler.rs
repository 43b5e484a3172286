//! Opening a file or an address with the program that the system has for
//! it.

use vstd::prelude::*;
use crate::orchestrator::{reply_from_completion, Reply, ReplyView};

verus! {

/// Why `opener` could not open something.
#[verifier::external_type_specification]
#[verifier::external_body]
pub struct ExOpenError(opener::OpenError);

/// Opens `target`, a path or an address, with `opener::open`. Nothing is
/// claimed of the answer: it depends on the machine. `Ok` means no more
/// than that a way of opening the target was found and started.
#[verifier::external_body]
pub(crate) fn open_with_system(target: &str) -> (opened: Result<(), opener::OpenError>) {
    opener::open(target)
}

/// Opens the address `uri` with the system's handler for it and reports
/// whether that worked.
pub fn open_uri(uri: &str) -> (reply: Reply)
    ensures
        reply@ == ReplyView::Completed || reply@ == ReplyView::Unavailable,
{
    reply_from_completion(open_with_system(uri).is_ok())
}

} // verus!
