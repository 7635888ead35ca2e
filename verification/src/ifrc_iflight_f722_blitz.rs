//! The iFlight Blitz F722 flight controller.

use crate::flash::FlashWindow;
use vstd::prelude::*;

verus! {

/// Offset at which the application image starts. The bootloader itself
/// occupies the flash below it.
pub const FLASH_START: u32 = 64 * 1024;

/// Offset at which the application image ends.
pub const FLASH_END: u32 = FLASH_START + 0x10000u32 + 0x60000u32;

/// The window that this board reserves for the application.
pub fn flash_window() -> (window: FlashWindow)
    ensures
        window.wf(),
        window.start() == FLASH_START,
        window.end() == FLASH_END,
        window.spec_capacity() == 0x10000 + 0x60000,
{
    FlashWindow::bounded(FLASH_START, FLASH_END)
}

} // verus!
