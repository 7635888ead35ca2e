//! The region of flash reserved for the application image.

use vstd::prelude::*;

verus! {

/// Address at which the flash is mapped. Offsets into the flash are relative
/// to it.
pub const FLASH_BASE: u32 = 0x0800_0000;

/// The part of the flash that holds the application image: the byte offsets
/// `start..end`, relative to [`FLASH_BASE`].
///
/// Every window is non-empty and lies within the 32-bit address space, see
/// [`FlashWindow::admissible`].
#[derive(Clone, Copy, Debug, PartialEq, Eq)]
pub struct FlashWindow {
    start: u32,
    end: u32,
}

impl FlashWindow {
    /// Whether `start..end` can be a window: it is not empty, and its last
    /// byte has an address.
    pub open spec fn admissible(start: u32, end: u32) -> bool {
        start < end && FLASH_BASE + end <= u32::MAX
    }

    /// Offset of the first byte of the window.
    pub closed spec fn spec_start(&self) -> u32 {
        self.start
    }

    /// Offset one past the last byte of the window.
    pub closed spec fn spec_end(&self) -> u32 {
        self.end
    }

    /// What holds of every window that [`FlashWindow::new`] returns.
    pub open spec fn wf(self) -> bool {
        Self::admissible(self.start(), self.end())
    }

    #[verifier::type_invariant]
    spec fn inv(self) -> bool {
        self.wf()
    }

    /// Largest image, in bytes, that the window can hold.
    pub open spec fn spec_capacity(self) -> int {
        self.end() - self.start()
    }

    /// Address of the first byte of the image.
    pub open spec fn spec_image_address(self) -> int {
        FLASH_BASE + self.start()
    }

    /// The window `start..end`, or `None` where the bounds are not
    /// admissible.
    pub fn new(start: u32, end: u32) -> (window: Option<Self>)
        ensures
            match window {
                Some(w) => Self::admissible(start, end) && w.start() == start && w.end() == end,
                None => !Self::admissible(start, end),
            },
    {
        if start < end && end <= u32::MAX - FLASH_BASE {
            Some(FlashWindow { start, end })
        } else {
            None
        }
    }

    /// The window `start..end`, for bounds that are known to be admissible.
    pub(crate) fn bounded(start: u32, end: u32) -> (window: Self)
        requires
            Self::admissible(start, end),
        ensures
            window.wf(),
            window.start() == start,
            window.end() == end,
    {
        FlashWindow { start, end }
    }

    /// Offset of the first byte of the window.
    #[verifier::when_used_as_spec(spec_start)]
    pub fn start(&self) -> (start: u32)
        ensures
            start == self.spec_start(),
    {
        self.start
    }

    /// Offset one past the last byte of the window.
    #[verifier::when_used_as_spec(spec_end)]
    pub fn end(&self) -> (end: u32)
        ensures
            end == self.spec_end(),
    {
        self.end
    }

    /// Largest image, in bytes, that the window can hold.
    pub fn capacity(&self) -> (capacity: u32)
        ensures
            self.wf(),
            capacity == self.spec_capacity(),
            capacity > 0,
    {
        proof {
            use_type_invariant(self);
        }
        self.end - self.start
    }

    /// Address of the first byte of the image.
    pub fn image_address(&self) -> (address: u32)
        ensures
            self.wf(),
            address == self.spec_image_address(),
    {
        proof {
            use_type_invariant(self);
        }
        FLASH_BASE + self.start
    }
}

} // verus!
