//! What is checked before a bundle goes to the clipboard.

use crate::errors::ClipboardError;
use vstd::prelude::*;

verus! {

/// The largest bundle, in bytes, that is copied to the clipboard.
pub const MAX_CLIPBOARD_SIZE: usize = 100 * 1024 * 1024;

/// Accepts a bundle of `file_size` bytes for the clipboard unless it is
/// larger than [`MAX_CLIPBOARD_SIZE`].
pub fn check_clipboard_size(file_size: usize) -> (r: Result<(), ClipboardError>)
    ensures
        file_size <= MAX_CLIPBOARD_SIZE ==> r is Ok,
        file_size > MAX_CLIPBOARD_SIZE ==> (r matches Err(
            ClipboardError::ContentTooLarge { size, max },
        ) && size == file_size && max == MAX_CLIPBOARD_SIZE),
{
    if file_size > MAX_CLIPBOARD_SIZE {
        return Err(ClipboardError::ContentTooLarge { size: file_size, max: MAX_CLIPBOARD_SIZE });
    }
    Ok(())
}

} // verus!
