//! Close-code sanitizing: every close code forwarded to the downstream peer
//! must be protocol-legal.

use vstd::prelude::*;

verus! {

/// A close code is legal when it lies in `[1000, 4999]` and is not one of the
/// reserved values `1004`, `1005`, `1006`, `1015`, which no endpoint may set
/// on the wire.
pub open spec fn legal_close_code(code: u16) -> bool {
    &&& 1000 <= code <= 4999
    &&& code != 1004
    &&& code != 1005
    &&& code != 1006
    &&& code != 1015
}

/// The sanitized form of a close code: the code itself when legal, the
/// normal-closure code `1000` otherwise.
pub open spec fn safe_close_code(code: u16) -> u16 {
    if legal_close_code(code) {
        code
    } else {
        1000
    }
}

/// Return a protocol-legal close code: a legal code passes through unchanged,
/// an out-of-range or reserved code becomes `1000` (normal closure).
pub fn get_safe_close_code(code: u16) -> (r: u16)
    ensures
        r == safe_close_code(code),
        legal_close_code(r),
{
    if 1000 <= code && code <= 4999 && code != 1004 && code != 1005 && code != 1006
        && code != 1015 {
        code
    } else {
        1000
    }
}

/// Sanitizing is idempotent, and a code is kept unchanged exactly when it is
/// legal.
pub proof fn lemma_safe_close_code_idempotent(code: u16)
    ensures
        safe_close_code(safe_close_code(code)) == safe_close_code(code),
        (safe_close_code(code) == code) <==> legal_close_code(code),
{
}

} // verus!
