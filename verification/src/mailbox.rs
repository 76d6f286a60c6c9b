//! The cursor control channel: a single-slot, overwrite-on-write mailbox
//! carrying "enable/disable unbounded pointer movement" requests from UI
//! callback code to the window bridge.
//!
//! The slot holds at most one `(enable, restore_position)` request; writing
//! overwrites whatever was there (last-write-wins), and polling reads and
//! clears it. The slot itself is a crossbeam `AtomicCell`, so producers never
//! block; its contents are reasoned about through `cell_contents`.

use vstd::prelude::*;

verus! {

/// A pending cursor request: `(enable, restore_position)`.
pub type CursorRequest = (bool, bool);

#[verifier::external_type_specification]
#[verifier::external_body]
#[verifier::reject_recursive_types(T)]
pub struct ExAtomicCell<T>(crossbeam::atomic::AtomicCell<T>);

/// What the request cell currently holds.
pub uninterp spec fn cell_contents(
    cell: crossbeam::atomic::AtomicCell<Option<CursorRequest>>,
) -> Option<CursorRequest>;

/// Relies on crossbeam's `AtomicCell::new`: the cell starts out holding the
/// given value.
#[verifier::external_body]
fn cell_new(value: Option<CursorRequest>) -> (cell: crossbeam::atomic::AtomicCell<
    Option<CursorRequest>,
>)
    ensures
        cell_contents(cell) == value,
{
    crossbeam::atomic::AtomicCell::new(value)
}

/// Relies on crossbeam's `AtomicCell::store`: overwrites the cell's value.
/// Exclusive access to the cell means the stored value is what it then holds.
#[verifier::external_body]
fn cell_store(
    cell: &mut crossbeam::atomic::AtomicCell<Option<CursorRequest>>,
    value: Option<CursorRequest>,
)
    ensures
        cell_contents(*final(cell)) == value,
{
    cell.store(value)
}

/// Relies on crossbeam's `AtomicCell::swap`: stores the given value and
/// returns the previous one.
#[verifier::external_body]
fn cell_swap(
    cell: &mut crossbeam::atomic::AtomicCell<Option<CursorRequest>>,
    value: Option<CursorRequest>,
) -> (prev: Option<CursorRequest>)
    ensures
        cell_contents(*final(cell)) == value,
        prev == cell_contents(*old(cell)),
{
    cell.swap(value)
}

/// Relies on crossbeam's `AtomicCell::load` (for `Copy` contents): returns
/// the cell's current value.
#[verifier::external_body]
fn cell_load(cell: &crossbeam::atomic::AtomicCell<Option<CursorRequest>>) -> (value: Option<
    CursorRequest,
>)
    ensures
        value == cell_contents(*cell),
{
    cell.load()
}

/// The mailbox state after an enable request is written: only the most
/// recent request is retained, whatever was pending before.
pub open spec fn after_enable_request(
    pending: Option<CursorRequest>,
    restore_position: bool,
) -> Option<CursorRequest> {
    Some((true, restore_position))
}

/// The mailbox state after a disable request is written: only the most
/// recent request is retained, whatever was pending before.
pub open spec fn after_disable_request(pending: Option<CursorRequest>) -> Option<CursorRequest> {
    Some((false, false))
}

/// Whether a pending request asks for unbounded movement to be enabled.
pub open spec fn requests_enable(pending: Option<CursorRequest>) -> bool {
    match pending {
        Some(request) => request.0,
        None => false,
    }
}

/// Control for unbounded mouse movement during drag operations.
///
/// When enabled, the cursor is hidden and frozen visually, and movement is
/// reported as deltas from the starting position, so drag range is not
/// limited by the screen edges.
pub struct SlintMouseControl {
    /// The single-slot request mailbox.
    request: crossbeam::atomic::AtomicCell<Option<CursorRequest>>,
}

impl SlintMouseControl {
    /// The pending request, if any.
    pub closed spec fn pending(&self) -> Option<CursorRequest> {
        cell_contents(self.request)
    }

    /// Create a mouse control with no pending request.
    pub fn new() -> (control: SlintMouseControl)
        ensures
            control.pending() is None,
    {
        SlintMouseControl { request: cell_new(None) }
    }

    /// Request that unbounded mouse movement be enabled. If
    /// `restore_position` is true, the cursor returns to its original
    /// position when the mode is later disabled.
    pub fn enable_unbounded_movement(&mut self, restore_position: bool)
        ensures
            final(self).pending() == after_enable_request(old(self).pending(), restore_position),
    {
        cell_store(&mut self.request, Some((true, restore_position)));
    }

    /// Request that unbounded mouse movement be disabled.
    pub fn disable_unbounded_movement(&mut self)
        ensures
            final(self).pending() == after_disable_request(old(self).pending()),
    {
        cell_store(&mut self.request, Some((false, false)));
    }

    /// Whether the pending request, if any, asks for unbounded movement.
    pub fn is_unbounded_requested(&self) -> (r: bool)
        ensures
            r == requests_enable(self.pending()),
    {
        match cell_load(&self.request) {
            Some(request) => request.0,
            None => false,
        }
    }

    /// Read and clear the pending request.
    pub fn take_request(&mut self) -> (request: Option<CursorRequest>)
        ensures
            request == old(self).pending(),
            final(self).pending() is None,
    {
        cell_swap(&mut self.request, None)
    }
}

/// Applying an enable request twice in a row, before the slot is polled,
/// leaves the mailbox exactly as applying it once does.
pub proof fn lemma_enable_request_idempotent(pending: Option<CursorRequest>, restore_position: bool)
    ensures
        after_enable_request(
            after_enable_request(pending, restore_position),
            restore_position,
        ) == after_enable_request(pending, restore_position),
{
}

/// An enable request followed by a disable request, before the slot is
/// polled, leaves a disable request pending: the slot is last-write-wins.
pub proof fn lemma_request_last_write_wins(pending: Option<CursorRequest>, restore_position: bool)
    ensures
        after_disable_request(after_enable_request(pending, restore_position)) == Some(
            (false, false),
        ),
{
}

} // verus!
