//! The WeAct "black pill" board with an STM32F411CEU6.

use crate::flash::FlashWindow;
use vstd::prelude::*;

verus! {

/// Offset at which the application image starts. The bootloader itself
/// occupies the flash below it.
pub const FLASH_START: u32 = 0x10000u32;

/// Offset at which the application image ends.
pub const FLASH_END: u32 = FLASH_START + 65536u32 + 393216u32;

/// The window that this board reserves for the application.
pub fn flash_window() -> (window: FlashWindow)
    ensures
        window.wf(),
        window.start() == FLASH_START,
        window.end() == FLASH_END,
        window.spec_capacity() == 65536 + 393216,
{
    FlashWindow::bounded(FLASH_START, FLASH_END)
}

} // verus!
