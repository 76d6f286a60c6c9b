//! The editor-facing side of the bridge: the host-reported size and the
//! host's scale-factor handshake.
//!
//! The host may try to change the HiDPI scale factor at any time; the
//! change is accepted only while no window is open, since an open window
//! has no way to re-scale in place. Rejection is a plain boolean, not an
//! error.

use vstd::prelude::*;
use crate::geometry::SlintState;

verus! {

/// The scale factor the editor will open its next window with, in
/// milli-units. `None` means the system scale factor will be used.
pub struct SlintEditor {
    /// The scale factor reported by the host, if it reported one.
    pub scaling_factor_milli: Option<u32>,
}

impl SlintEditor {
    /// An editor that has not yet been told a scale factor by the host.
    pub fn new() -> (editor: SlintEditor)
        ensures
            editor.scaling_factor_milli is None,
    {
        SlintEditor { scaling_factor_milli: None }
    }

    /// An editor that starts from a known scale factor, for hosts where the
    /// system scale factor cannot be queried.
    pub fn with_scale_factor(scale_milli: u32) -> (editor: SlintEditor)
        ensures
            editor.scaling_factor_milli == Some(scale_milli),
    {
        SlintEditor { scaling_factor_milli: Some(scale_milli) }
    }

    /// The size to report to the host: the editor state's scaled logical
    /// size.
    pub fn size(&self, state: &SlintState) -> (r: (u32, u32))
        ensures
            (r.0 as int, r.1 as int) == state.spec_scaled_size(),
    {
        state.size()
    }

    /// Accept or reject a host scale-factor change: accepted, and recorded
    /// for the next open, exactly when no window is currently open.
    pub fn set_scale_factor(&mut self, state: &SlintState, scale_milli: u32) -> (accepted: bool)
        ensures
            accepted == !state.spec_is_open(),
            accepted ==> final(self).scaling_factor_milli == Some(scale_milli),
            !accepted ==> final(self).scaling_factor_milli == old(self).scaling_factor_milli,
    {
        if state.is_open() {
            return false;
        }
        self.scaling_factor_milli = Some(scale_milli);
        true
    }

    /// The scale factor a newly opened window will use: the host-reported
    /// one, or no extra scaling when the host never reported one.
    pub fn effective_scale_milli(&self) -> (r: u32)
        ensures
            r == match self.scaling_factor_milli {
                Some(scale_milli) => scale_milli,
                None => 1000u32,
            },
    {
        match self.scaling_factor_milli {
            Some(scale_milli) => scale_milli,
            None => 1000,
        }
    }
}

} // verus!
