//! When a copied code is taken off the clipboard again.

use crate::state::HelperState;
use crate::text::bytes_equal;
use vstd::prelude::*;

verus! {

/// The most bytes of the clipboard that are looked at.
pub const MAX_CLIPBOARD_BYTES: usize = 64;

/// How long a copied code stays on the clipboard, in seconds.
pub const CLIPBOARD_SECONDS: u64 = 20;

/// Tells whether more was read from the clipboard than is looked at, so that the rest need not be.
pub fn clipboard_overflows(read: &[u8]) -> (overflows: bool)
    ensures
        overflows == (read@.len() > MAX_CLIPBOARD_BYTES),
{
    read.len() > MAX_CLIPBOARD_BYTES
}

/// What the clipboard holds: what was read from it, unless that is too much or the reading failed.
pub fn clipboard_contents(read: Vec<u8>, succeeded: bool) -> (contents: Option<Vec<u8>>)
    ensures
        crate::text::optional_bytes(contents) == (if read@.len() <= MAX_CLIPBOARD_BYTES
            && succeeded {
            Some(read@)
        } else {
            None
        }),
{
    if clipboard_overflows(read.as_slice()) || !succeeded {
        None
    } else {
        Some(read)
    }
}

/// Whether the clipboard is to be cleared when the life of the code that was copied in the clipboard
/// generation `generation` is over: the clipboard still holds it, and nothing was copied since.
pub open spec fn clears_clipboard(
    current: u64,
    generation: u64,
    code: Seq<u8>,
    contents: Option<Seq<u8>>,
) -> bool {
    current == generation && contents == Some(code)
}

/// Tells whether the clipboard is to be cleared now that the life of a copied code is over.
pub fn should_clear(
    state: &HelperState,
    generation: u64,
    code: &[u8],
    contents: &Option<Vec<u8>>,
) -> (clear: bool)
    ensures
        clear == clears_clipboard(
            state@.clipboard_generation,
            generation,
            code@,
            crate::text::optional_bytes(*contents),
        ),
{
    match contents {
        Some(bytes) => bytes_equal(bytes.as_slice(), code)
            && state.is_current_clipboard_generation(generation),
        None => false,
    }
}

}
