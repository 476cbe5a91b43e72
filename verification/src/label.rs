//! Object labels and fence waits: the decisions that surround the GL calls.

use vstd::prelude::*;
use crate::glenum::{GLError, GLint, GLbitfield, SyncStatus, GLenum, SYNC_FLUSH_COMMANDS_BIT};

verus! {

/// The message of the error given for a label longer than the context allows.
pub open spec fn label_too_long_message() -> Seq<char> {
    "object label longer than maximum allowed length"@
}

/// Decides whether an object may be given `label`, once the context has reported whether
/// `function` (the labelling entry point) is loaded and the greatest label length it accepts.
/// The label is measured in bytes.
pub fn check_label(loaded: bool, function: &'static str, max_length: GLint, label: &str) -> (r: Result<(), GLError>)
    ensures
        !loaded ==> r == Err::<(), GLError>(GLError::FunctionNotLoaded(function)),
        loaded && label.len() <= max_length ==> r is Ok,
        loaded && label.len() > max_length ==> (r matches Err(GLError::InvalidValue(m))
            && m@ == label_too_long_message()),
{
    if !loaded {
        return Err(GLError::FunctionNotLoaded(function));
    }
    let len: usize = label.len();
    if max_length >= 0 && (max_length as usize) >= len {
        Ok(())
    } else {
        let m = "object label longer than maximum allowed length".to_owned();
        proof {
            reveal_strlit("object label longer than maximum allowed length");
            assert(m@ == label_too_long_message());
        }
        Err(GLError::InvalidValue(m))
    }
}

/// The number of bytes to read back for a label whose reported length is `length`: none
/// where the object has no label.
pub fn label_read_length(length: GLint) -> (r: Option<usize>)
    ensures
        length <= 0 ==> r is None,
        length > 0 ==> r == Some(length as usize),
{
    if length > 0 {
        Some(length as usize)
    } else {
        None
    }
}

/// The flags of a client wait on a fence: the flush bit exactly when `flush` is set.
pub fn client_wait_flags(flush: bool) -> (r: GLbitfield)
    ensures
        r == (if flush { SYNC_FLUSH_COMMANDS_BIT } else { 0 }),
{
    if flush {
        SYNC_FLUSH_COMMANDS_BIT
    } else {
        0
    }
}

/// The timeout of a client wait, in nanoseconds: zero where none is given, and the low 64
/// bits of the count otherwise.
pub fn client_wait_timeout(nanos: Option<u128>) -> (r: u64)
    ensures
        nanos is None ==> r == 0,
        nanos is Some ==> r == nanos->0 as u64,
{
    match nanos {
        Some(n) => {
            let r: u64 = n as u64;
            r
        },
        None => 0,
    }
}

/// The status that a client wait reported, or `GLError::InvalidEnum` where `status` names
/// none.
pub fn client_wait_status(status: GLenum) -> (r: Result<SyncStatus, GLError>)
    ensures
        match SyncStatus::spec_from_glenum(status) {
            Some(s) => r == Ok::<SyncStatus, GLError>(s),
            None => r is Err,
        },
{
    SyncStatus::try_from_glenum(status)
}

} // verus!
