//! Persistent editor geometry: logical window size and user zoom factor.
//!
//! The host is always told a size of `round(logical * user_scale)`, where the
//! user scale factor is carried in milli-units (thousandths). Rounding is to
//! the nearest integer, and the result saturates at `u32::MAX`, mirroring how
//! a host-facing dimension is clamped to its integer type.

use vstd::prelude::*;

verus! {

/// Nearest-integer scaling of a dimension by a milli-unit scale factor,
/// saturating at `u32::MAX`.
pub open spec fn scaled_dim(value: int, scale_milli: int) -> int {
    let exact = (value * scale_milli + 500) / 1000;
    if exact > u32::MAX {
        u32::MAX as int
    } else {
        exact
    }
}

/// Multiply a dimension by a milli-unit scale factor, rounding to the nearest
/// integer and saturating at `u32::MAX`.
pub fn scale_dimension(value: u32, scale_milli: u32) -> (r: u32)
    ensures
        r == scaled_dim(value as int, scale_milli as int),
{
    proof {
        assert((value as u64) * (scale_milli as u64) <= 0xFFFF_FFFFu64 * 0xFFFF_FFFFu64)
            by (nonlinear_arith)
            requires
                value <= 0xFFFF_FFFFu64,
                scale_milli <= 0xFFFF_FFFFu64,
        ;
    }
    let wide: u64 = value as u64 * scale_milli as u64;
    let rounded: u64 = (wide + 500) / 1000;
    if rounded > u32::MAX as u64 {
        u32::MAX
    } else {
        rounded as u32
    }
}

/// Per-instance editor state: the logical window size, the user zoom factor,
/// and whether a window is currently open. It outlives any single open/close
/// cycle; the open flag is never persisted.
pub struct SlintState {
    /// The window's size in logical pixels before applying the user scale.
    pub size: (u32, u32),
    /// A user zoom factor in milli-units (1000 = no extra scaling), applied
    /// on top of system DPI scaling.
    pub user_scale_milli: u32,
    /// Whether the editor's window is currently open.
    pub open: bool,
}

impl SlintState {
    /// The stored logical size, before the user scale factor.
    pub open spec fn spec_inner_size(&self) -> (u32, u32) {
        self.size
    }

    /// The stored user scale factor in milli-units.
    pub open spec fn spec_user_scale_milli(&self) -> u32 {
        self.user_scale_milli
    }

    /// Whether a window is currently open.
    pub open spec fn spec_is_open(&self) -> bool {
        self.open
    }

    /// The host-visible size: each logical dimension scaled by the user
    /// scale factor and rounded to the nearest integer.
    pub open spec fn spec_scaled_size(&self) -> (int, int) {
        (
            scaled_dim(self.size.0 as int, self.user_scale_milli as int),
            scaled_dim(self.size.1 as int, self.user_scale_milli as int),
        )
    }

    /// Initialize the editor state with a logical size and no extra zoom.
    pub fn from_size(width: u32, height: u32) -> (s: SlintState)
        ensures
            s.spec_inner_size() == (width, height),
            s.spec_user_scale_milli() == 1000u32,
            !s.spec_is_open(),
    {
        SlintState { size: (width, height), user_scale_milli: 1000, open: false }
    }

    /// Initialize the editor state with a logical size and an initial user
    /// scale factor in milli-units.
    pub fn from_size_with_scale(width: u32, height: u32, user_scale_milli: u32) -> (s: SlintState)
        ensures
            s.spec_inner_size() == (width, height),
            s.spec_user_scale_milli() == user_scale_milli,
            !s.spec_is_open(),
    {
        SlintState { size: (width, height), user_scale_milli, open: false }
    }

    /// The size reported to the host: the logical size with the user scale
    /// factor applied and rounded to the nearest integer.
    pub fn size(&self) -> (r: (u32, u32))
        ensures
            (r.0 as int, r.1 as int) == self.spec_scaled_size(),
    {
        self.scaled_logical_size()
    }

    /// The logical size with the user scale factor applied.
    pub fn scaled_logical_size(&self) -> (r: (u32, u32))
        ensures
            (r.0 as int, r.1 as int) == self.spec_scaled_size(),
    {
        let (width, height) = self.inner_logical_size();
        (
            scale_dimension(width, self.user_scale_milli),
            scale_dimension(height, self.user_scale_milli),
        )
    }

    /// The logical size before the user scale factor is applied.
    pub fn inner_logical_size(&self) -> (r: (u32, u32))
        ensures
            r == self.spec_inner_size(),
    {
        self.size
    }

    /// Overwrite the stored logical size. The bridge does this when the host
    /// resizes the window, so that the new size is persisted.
    pub fn set_inner_logical_size(&mut self, width: u32, height: u32)
        ensures
            final(self).spec_inner_size() == (width, height),
            final(self).spec_user_scale_milli() == old(self).spec_user_scale_milli(),
            final(self).spec_is_open() == old(self).spec_is_open(),
    {
        self.size = (width, height);
    }

    /// The current user scale factor in milli-units.
    pub fn user_scale_factor(&self) -> (r: u32)
        ensures
            r == self.spec_user_scale_milli(),
    {
        self.user_scale_milli
    }

    /// Set the user scale factor in milli-units. The change only takes
    /// effect the next time the editor is opened.
    pub fn set_user_scale_factor(&mut self, scale_milli: u32)
        ensures
            final(self).spec_user_scale_milli() == scale_milli,
            final(self).spec_inner_size() == old(self).spec_inner_size(),
            final(self).spec_is_open() == old(self).spec_is_open(),
    {
        self.user_scale_milli = scale_milli;
    }

    /// Whether the editor's window is currently open.
    pub fn is_open(&self) -> (r: bool)
        ensures
            r == self.spec_is_open(),
    {
        self.open
    }

    /// Record that a window was opened or closed.
    pub fn set_open(&mut self, open: bool)
        ensures
            final(self).spec_is_open() == open,
            final(self).spec_inner_size() == old(self).spec_inner_size(),
            final(self).spec_user_scale_milli() == old(self).spec_user_scale_milli(),
    {
        self.open = open;
    }
}

} // verus!
