//! The window bridge: the stateful orchestrator behind the host's window
//! callbacks.
//!
//! The bridge decides; the embedding performs. Each entry point updates the
//! bridge's own state and returns the ordered list of actions the embedding
//! must carry out against the native window, the surface and the UI runtime.
//! A failure while the embedding performs the actions cannot corrupt the
//! bridge, whose state is already consistent when the list is returned.

use vstd::prelude::*;
use crate::compositor::{black_pixel, FrameCompositor};
use crate::events::{
    event_in_range, translate_event, translated_event, HostEvent, HostMouseEvent,
    HostWindowEvent, HostWindowInfo, PointMilli, UiEvent, UiEventModel, COORD_LIMIT_MILLI,
};
use crate::geometry::SlintState;
use crate::mailbox::{CursorRequest, SlintMouseControl};

verus! {

/// Whether a host event was consumed or had no counterpart.
#[derive(Clone, Copy, Debug, PartialEq, Eq, Structural)]
pub enum EventStatus {
    Captured,
    Ignored,
}

/// One step the embedding must perform on the bridge's behalf, in list
/// order.
#[derive(Clone, Debug, PartialEq, Eq)]
pub enum BridgeAction {
    /// Hand this event to the UI runtime.
    DispatchUiEvent(UiEvent),
    /// Tell the UI runtime its new physical size.
    SetWindowSize { physical_width: u32, physical_height: u32 },
    /// Resize the host presentation surface.
    ResizeSurface { physical_width: u32, physical_height: u32 },
    /// Inject the prepared window, then build and show the UI component.
    InstallComponent,
    /// Ask the UI runtime for a redraw.
    RequestRedraw,
    /// Advance the UI runtime's timers and animations.
    UpdateTimers,
    /// If the UI runtime has a repaint pending, render it into the
    /// compositor's buffer.
    RenderIfNeeded,
    /// Convert the compositor's buffer to the surface format and present
    /// it; a presentation failure is logged, not fatal.
    PresentFrame,
    /// Put the host pointer into or out of unbounded-movement mode.
    SetUnboundedMovement { enable: bool, restore_position: bool },
}

/// The mathematical shape of a bridge action: as `BridgeAction`, but with
/// UI events in their model form.
pub enum BridgeActionModel {
    DispatchUiEvent(UiEventModel),
    SetWindowSize { physical_width: u32, physical_height: u32 },
    ResizeSurface { physical_width: u32, physical_height: u32 },
    InstallComponent,
    RequestRedraw,
    UpdateTimers,
    RenderIfNeeded,
    PresentFrame,
    SetUnboundedMovement { enable: bool, restore_position: bool },
}

impl View for BridgeAction {
    type V = BridgeActionModel;

    open spec fn view(&self) -> BridgeActionModel {
        match self {
            BridgeAction::DispatchUiEvent(event) => BridgeActionModel::DispatchUiEvent(event@),
            BridgeAction::SetWindowSize { physical_width, physical_height } => (
            BridgeActionModel::SetWindowSize {
                physical_width: *physical_width,
                physical_height: *physical_height,
            }),
            BridgeAction::ResizeSurface { physical_width, physical_height } => (
            BridgeActionModel::ResizeSurface {
                physical_width: *physical_width,
                physical_height: *physical_height,
            }),
            BridgeAction::InstallComponent => BridgeActionModel::InstallComponent,
            BridgeAction::RequestRedraw => BridgeActionModel::RequestRedraw,
            BridgeAction::UpdateTimers => BridgeActionModel::UpdateTimers,
            BridgeAction::RenderIfNeeded => BridgeActionModel::RenderIfNeeded,
            BridgeAction::PresentFrame => BridgeActionModel::PresentFrame,
            BridgeAction::SetUnboundedMovement { enable, restore_position } => (
            BridgeActionModel::SetUnboundedMovement {
                enable: *enable,
                restore_position: *restore_position,
            }),
        }
    }
}

/// The models of a list of actions, in order.
pub open spec fn actions_view(actions: Seq<BridgeAction>) -> Seq<BridgeActionModel> {
    actions.map(|i: int, action: BridgeAction| action@)
}

/// A position clamped to non-negative coordinates, as the pointer cache
/// stores it.
pub open spec fn clamped_position(position: PointMilli) -> PointMilli {
    PointMilli {
        x: if position.x >= 0 {
            position.x
        } else {
            0
        },
        y: if position.y >= 0 {
            position.y
        } else {
            0
        },
    }
}

/// The pointer-position cache after a host event: a pointer-moved event
/// overwrites it, everything else leaves it alone.
pub open spec fn cache_after_event(cache: PointMilli, event: HostEvent) -> PointMilli {
    match event {
        HostEvent::Mouse(HostMouseEvent::CursorMoved { position }) => clamped_position(position),
        _ => cache,
    }
}

/// The button-down flag after a host event.
pub open spec fn button_flag_after_event(flag: bool, event: HostEvent) -> bool {
    match event {
        HostEvent::Mouse(HostMouseEvent::ButtonPressed { button }) => true,
        HostEvent::Mouse(HostMouseEvent::ButtonReleased { button }) => false,
        _ => flag,
    }
}

/// The bridge's scale factor after a host event: on a resize the host's
/// value is authoritative, otherwise the cached one stands.
pub open spec fn scale_after_event(scale_milli: u32, event: HostEvent) -> u32 {
    match event {
        HostEvent::Window(HostWindowEvent::Resized(info)) => info.scale_milli,
        _ => scale_milli,
    }
}

/// The physical window size after a host event.
pub open spec fn physical_size_after_event(size: (u32, u32), event: HostEvent) -> (u32, u32) {
    match event {
        HostEvent::Window(HostWindowEvent::Resized(info)) => (
            (info.physical_width, info.physical_height)
        ),
        _ => size,
    }
}

/// A logical milli-pixel length rounded to whole pixels, saturating at
/// `u32::MAX`.
pub open spec fn rounded_milli_len(value: int) -> int {
    let exact = (value + 500) / 1000;
    if exact > u32::MAX {
        u32::MAX as int
    } else {
        exact
    }
}

/// The persisted logical size after a host event: a resize stores the
/// host's logical size, rounded to whole pixels.
pub open spec fn logical_size_after_event(size: (u32, u32), event: HostEvent) -> (int, int) {
    match event {
        HostEvent::Window(HostWindowEvent::Resized(info)) => (
            (
                rounded_milli_len(info.logical_width_milli as int),
                rounded_milli_len(info.logical_height_milli as int),
            )
        ),
        _ => (size.0 as int, size.1 as int),
    }
}

/// A translated UI event with the cached pointer position patched in where
/// the host event carried none.
pub open spec fn backfilled_event(event: UiEventModel, cache: PointMilli) -> UiEventModel {
    match event {
        UiEventModel::PointerPressed { position, button } => (UiEventModel::PointerPressed {
            position: cache,
            button,
        }),
        UiEventModel::PointerReleased { position, button } => (UiEventModel::PointerReleased {
            position: cache,
            button,
        }),
        UiEventModel::PointerScrolled { position, delta_x_milli, delta_y_milli } => (
        UiEventModel::PointerScrolled {
            position: cache,
            delta_x_milli,
            delta_y_milli,
        }),
        _ => event,
    }
}

/// The unbounded-pointer-mode flag after one poll of the mailbox: an
/// enable or disable request sets it, no request leaves it.
pub open spec fn unbounded_after(active: bool, pending: Option<CursorRequest>) -> bool {
    match pending {
        Some(request) => request.0,
        None => active,
    }
}

/// The host-level cursor action one poll of the mailbox produces: a change
/// of mode exactly when the request differs from the current mode, which
/// makes duplicate requests no-ops.
pub open spec fn cursor_request_action(active: bool, pending: Option<CursorRequest>) -> Option<
    BridgeAction,
> {
    match pending {
        Some(request) => {
            if request.0 && !active {
                Some(
                    BridgeAction::SetUnboundedMovement {
                        enable: true,
                        restore_position: request.1,
                    },
                )
            } else if !request.0 && active {
                Some(BridgeAction::SetUnboundedMovement { enable: false, restore_position: false })
            } else {
                None
            }
        },
        None => None,
    }
}

/// The actions one poll of the mailbox contributes to an action list.
pub open spec fn cursor_actions(active: bool, pending: Option<CursorRequest>) -> Seq<
    BridgeActionModel,
> {
    match cursor_request_action(active, pending) {
        Some(action) => seq![action@],
        None => Seq::<BridgeActionModel>::empty(),
    }
}

/// The resize protocol's actions, in order: the scale change (if the
/// host's scale factor differs from the cached one) is announced before
/// anything that depends on the new geometry; the surface is resized only
/// to a non-empty size; then the runtime learns its new physical size, the
/// logical resize is dispatched, and a redraw is requested.
pub open spec fn resize_actions(info: HostWindowInfo, old_scale_milli: u32) -> Seq<
    BridgeActionModel,
> {
    let scale_part: Seq<BridgeActionModel> = if info.scale_milli != old_scale_milli {
        seq![
            BridgeActionModel::DispatchUiEvent(
                UiEventModel::ScaleFactorChanged { scale_milli: info.scale_milli },
            ),
        ]
    } else {
        Seq::<BridgeActionModel>::empty()
    };
    let surface_part: Seq<BridgeActionModel> = if info.physical_width >= 1
        && info.physical_height >= 1 {
        seq![
            BridgeActionModel::ResizeSurface {
                physical_width: info.physical_width,
                physical_height: info.physical_height,
            },
        ]
    } else {
        Seq::<BridgeActionModel>::empty()
    };
    scale_part + surface_part + seq![
        BridgeActionModel::SetWindowSize {
            physical_width: info.physical_width,
            physical_height: info.physical_height,
        },
        BridgeActionModel::DispatchUiEvent(
            UiEventModel::Resized {
                logical_width_milli: info.logical_width_milli,
                logical_height_milli: info.logical_height_milli,
            },
        ),
        BridgeActionModel::RequestRedraw,
    ]
}

/// The translate-and-dispatch actions for a host event: when the event has
/// a UI counterpart, it is dispatched with the pointer position patched in,
/// timers are advanced, and a redraw is requested; otherwise nothing.
/// Translation sees the post-resize scale factor and pointer cache.
pub open spec fn dispatch_actions(
    event: HostEvent,
    scale_milli: u32,
    cache: PointMilli,
) -> Seq<BridgeActionModel> {
    match translated_event(event, scale_milli) {
        Some(ui_event) => seq![
            BridgeActionModel::DispatchUiEvent(backfilled_event(ui_event, cache)),
            BridgeActionModel::UpdateTimers,
            BridgeActionModel::RequestRedraw,
        ],
        None => Seq::<BridgeActionModel>::empty(),
    }
}

/// Everything `on_host_event` asks the embedding to do, in order: the
/// resize protocol for a resize event, then translate-and-dispatch, then
/// one poll of the cursor mailbox.
pub open spec fn host_event_actions(bridge: SlintWindowHandler, event: HostEvent) -> Seq<
    BridgeActionModel,
> {
    let resize_part: Seq<BridgeActionModel> = match event {
        HostEvent::Window(HostWindowEvent::Resized(info)) => resize_actions(
            info,
            bridge.scale_milli,
        ),
        _ => Seq::<BridgeActionModel>::empty(),
    };
    resize_part + dispatch_actions(
        event,
        scale_after_event(bridge.scale_milli, event),
        cache_after_event(bridge.last_mouse_position, event),
    ) + cursor_actions(bridge.unbounded_active, bridge.mouse_control.pending())
}

/// Everything `on_frame_tick` asks the embedding to do, in order: one poll
/// of the cursor mailbox, then the render-and-present cycle.
pub open spec fn frame_tick_actions(bridge: SlintWindowHandler) -> Seq<BridgeActionModel> {
    cursor_actions(bridge.unbounded_active, bridge.mouse_control.pending()) + seq![
        BridgeActionModel::UpdateTimers,
        BridgeActionModel::RequestRedraw,
        BridgeActionModel::RenderIfNeeded,
        BridgeActionModel::PresentFrame,
    ]
}

/// The actions that open a window, in order: the runtime learns the scale
/// factor before its size (layout depends on the scale being active), the
/// component is installed into the prepared window, the window is marked
/// active, and an initial redraw is requested.
pub open spec fn open_actions(scale_milli: u32, physical_width: u32, physical_height: u32) -> Seq<
    BridgeActionModel,
> {
    seq![
        BridgeActionModel::DispatchUiEvent(UiEventModel::ScaleFactorChanged { scale_milli }),
        BridgeActionModel::SetWindowSize { physical_width, physical_height },
        BridgeActionModel::InstallComponent,
        BridgeActionModel::DispatchUiEvent(UiEventModel::WindowActiveChanged { active: true }),
        BridgeActionModel::RequestRedraw,
    ]
}

/// The arithmetic bounds a resize event must satisfy: a meaningful scale
/// factor and a physical area that fits the pixel-count type.
pub open spec fn resize_event_in_range(event: HostEvent) -> bool {
    match event {
        HostEvent::Window(HostWindowEvent::Resized(info)) => {
            &&& info.scale_milli >= 1
            &&& info.physical_width * info.physical_height <= u32::MAX
        },
        _ => true,
    }
}

/// Round a logical milli-pixel length to whole pixels, saturating at
/// `u32::MAX`.
pub fn round_milli_len(value: u64) -> (r: u32)
    ensures
        r == rounded_milli_len(value as int),
{
    if value >= 0xFFFF_FFFFu64 * 1000 {
        u32::MAX
    } else {
        ((value + 500) / 1000) as u32
    }
}

/// The window bridge's state for one open window.
pub struct SlintWindowHandler {
    /// The persisted editor state; the bridge keeps its logical size
    /// up to date across host resizes.
    pub slint_state: SlintState,
    /// The pixel buffer at the current physical size.
    pub compositor: FrameCompositor,
    /// The cached scale factor in milli-units; authoritative until a host
    /// resize reports a different one.
    pub scale_milli: u32,
    /// Last known pointer position, back-filled into events that carry
    /// none. Before any movement event it is the origin.
    pub last_mouse_position: PointMilli,
    /// Whether a mouse button is currently down.
    pub mouse_button_pressed: bool,
    /// The cursor-mode request mailbox shared with UI callback code.
    pub mouse_control: SlintMouseControl,
    /// Whether the host pointer is actually in unbounded mode; makes
    /// enable/disable requests idempotent.
    pub unbounded_active: bool,
}

impl SlintWindowHandler {
    /// The bridge's invariant: a meaningful scale factor, a buffer that
    /// covers the physical area, and an in-range pointer cache.
    pub open spec fn wf(&self) -> bool {
        &&& self.scale_milli >= 1
        &&& self.compositor.wf()
        &&& 0 <= self.last_mouse_position.x <= COORD_LIMIT_MILLI
        &&& 0 <= self.last_mouse_position.y <= COORD_LIMIT_MILLI
    }

    /// Set up the bridge for a newly opened window and return the actions
    /// that bring the window up. The physical size is the host-visible
    /// (user-scaled) logical size scaled by the system scale factor.
    pub fn new(
        slint_state: SlintState,
        mouse_control: SlintMouseControl,
        scale_milli: u32,
    ) -> (r: (SlintWindowHandler, Vec<BridgeAction>))
        requires
            scale_milli >= 1,
            crate::geometry::scaled_dim(slint_state.spec_scaled_size().0, scale_milli as int)
                * crate::geometry::scaled_dim(
                slint_state.spec_scaled_size().1,
                scale_milli as int,
            ) <= u32::MAX,
        ensures
            r.0.wf(),
            r.0.slint_state == slint_state,
            r.0.scale_milli == scale_milli,
            r.0.compositor.physical_width as int == crate::geometry::scaled_dim(
                slint_state.spec_scaled_size().0,
                scale_milli as int,
            ),
            r.0.compositor.physical_height as int == crate::geometry::scaled_dim(
                slint_state.spec_scaled_size().1,
                scale_milli as int,
            ),
            r.0.compositor.pixel_buffer@.len() == r.0.compositor.spec_area(),
            forall|i: int|
                0 <= i < r.0.compositor.pixel_buffer@.len() ==> r.0.compositor.pixel_buffer@[i]
                    == black_pixel(),
            r.0.last_mouse_position == (PointMilli { x: 0, y: 0 }),
            !r.0.mouse_button_pressed,
            r.0.mouse_control == mouse_control,
            !r.0.unbounded_active,
            actions_view(r.1@) == open_actions(
                scale_milli,
                r.0.compositor.physical_width,
                r.0.compositor.physical_height,
            ),
    {
        let (scaled_width, scaled_height) = slint_state.scaled_logical_size();
        let physical_width = crate::geometry::scale_dimension(scaled_width, scale_milli);
        let physical_height = crate::geometry::scale_dimension(scaled_height, scale_milli);
        let compositor = FrameCompositor::new(physical_width, physical_height);

        let mut actions: Vec<BridgeAction> = Vec::new();
        actions.push(BridgeAction::DispatchUiEvent(UiEvent::ScaleFactorChanged { scale_milli }));
        actions.push(BridgeAction::SetWindowSize { physical_width, physical_height });
        actions.push(BridgeAction::InstallComponent);
        actions.push(BridgeAction::DispatchUiEvent(UiEvent::WindowActiveChanged { active: true }));
        actions.push(BridgeAction::RequestRedraw);
        proof {
            assert(actions_view(actions@) =~= open_actions(
                scale_milli,
                physical_width,
                physical_height,
            ));
        }

        let bridge = SlintWindowHandler {
            slint_state,
            compositor,
            scale_milli,
            last_mouse_position: PointMilli { x: 0, y: 0 },
            mouse_button_pressed: false,
            mouse_control,
            unbounded_active: false,
        };
        (bridge, actions)
    }

    /// Poll the cursor mailbox once and apply any pending request to the
    /// actual pointer mode. Applying an enable while already enabled, or a
    /// disable while already disabled, does nothing.
    pub fn process_cursor_requests(&mut self) -> (action: Option<BridgeAction>)
        ensures
            final(self).unbounded_active == unbounded_after(
                old(self).unbounded_active,
                old(self).mouse_control.pending(),
            ),
            final(self).mouse_control.pending() is None,
            action == cursor_request_action(
                old(self).unbounded_active,
                old(self).mouse_control.pending(),
            ),
            final(self).slint_state == old(self).slint_state,
            final(self).compositor == old(self).compositor,
            final(self).scale_milli == old(self).scale_milli,
            final(self).last_mouse_position == old(self).last_mouse_position,
            final(self).mouse_button_pressed == old(self).mouse_button_pressed,
    {
        match self.mouse_control.take_request() {
            Some((enable, restore_position)) => {
                if enable && !self.unbounded_active {
                    self.unbounded_active = true;
                    Some(BridgeAction::SetUnboundedMovement { enable: true, restore_position })
                } else if !enable && self.unbounded_active {
                    self.unbounded_active = false;
                    Some(
                        BridgeAction::SetUnboundedMovement {
                            enable: false,
                            restore_position: false,
                        },
                    )
                } else {
                    None
                }
            },
            None => None,
        }
    }

    /// One frame tick: poll cursor requests, then advance timers, render
    /// if needed, and present.
    pub fn on_frame_tick(&mut self) -> (actions: Vec<BridgeAction>)
        requires
            old(self).wf(),
        ensures
            final(self).wf(),
            actions_view(actions@) == frame_tick_actions(*old(self)),
            final(self).unbounded_active == unbounded_after(
                old(self).unbounded_active,
                old(self).mouse_control.pending(),
            ),
            final(self).mouse_control.pending() is None,
            final(self).slint_state == old(self).slint_state,
            final(self).compositor == old(self).compositor,
            final(self).scale_milli == old(self).scale_milli,
            final(self).last_mouse_position == old(self).last_mouse_position,
            final(self).mouse_button_pressed == old(self).mouse_button_pressed,
    {
        let mut actions: Vec<BridgeAction> = Vec::new();
        if let Some(action) = self.process_cursor_requests() {
            actions.push(action);
        }
        actions.push(BridgeAction::UpdateTimers);
        actions.push(BridgeAction::RequestRedraw);
        actions.push(BridgeAction::RenderIfNeeded);
        actions.push(BridgeAction::PresentFrame);
        proof {
            assert(actions_view(actions@) =~= frame_tick_actions(*old(self)));
        }
        actions
    }

    /// One host event: run the resize protocol if the event is a resize,
    /// update the pointer cache and button flag, translate and dispatch,
    /// and poll cursor requests once more. Returns whether the event was
    /// captured, along with the actions to perform.
    pub fn on_host_event(&mut self, event: &HostEvent) -> (r: (EventStatus, Vec<BridgeAction>))
        requires
            old(self).wf(),
            event_in_range(*event),
            resize_event_in_range(*event),
        ensures
            final(self).wf(),
            r.0 is Captured <==> translated_event(
                *event,
                scale_after_event(old(self).scale_milli, *event),
            ) is Some,
            actions_view(r.1@) == host_event_actions(*old(self), *event),
            final(self).scale_milli == scale_after_event(old(self).scale_milli, *event),
            final(self).last_mouse_position == cache_after_event(
                old(self).last_mouse_position,
                *event,
            ),
            final(self).mouse_button_pressed == button_flag_after_event(
                old(self).mouse_button_pressed,
                *event,
            ),
            final(self).unbounded_active == unbounded_after(
                old(self).unbounded_active,
                old(self).mouse_control.pending(),
            ),
            final(self).mouse_control.pending() is None,
            (
                final(self).slint_state.spec_inner_size().0 as int,
                final(self).slint_state.spec_inner_size().1 as int,
            ) == logical_size_after_event(old(self).slint_state.spec_inner_size(), *event),
            final(self).slint_state.spec_user_scale_milli()
                == old(self).slint_state.spec_user_scale_milli(),
            final(self).slint_state.spec_is_open() == old(self).slint_state.spec_is_open(),
            (final(self).compositor.physical_width, final(self).compositor.physical_height)
                == physical_size_after_event(
                (old(self).compositor.physical_width, old(self).compositor.physical_height),
                *event,
            ),
            forall|i: int|
                0 <= i < final(self).compositor.pixel_buffer@.len()
                    ==> final(self).compositor.pixel_buffer@[i] == (
                if i < old(self).compositor.pixel_buffer@.len() {
                    old(self).compositor.pixel_buffer@[i]
                } else {
                    black_pixel()
                }),
    {
        let mut actions: Vec<BridgeAction> = Vec::new();

        // The resize protocol: persist the logical size, adopt the host's
        // authoritative scale factor (announcing a change before anything
        // that depends on it), and bring surface, buffer and runtime to the
        // new physical size.
        if let HostEvent::Window(HostWindowEvent::Resized(info)) = event {
            let logical_width = round_milli_len(info.logical_width_milli);
            let logical_height = round_milli_len(info.logical_height_milli);
            self.slint_state.set_inner_logical_size(logical_width, logical_height);

            if info.scale_milli != self.scale_milli {
                self.scale_milli = info.scale_milli;
                actions.push(
                    BridgeAction::DispatchUiEvent(
                        UiEvent::ScaleFactorChanged { scale_milli: info.scale_milli },
                    ),
                );
            }
            if info.physical_width >= 1 && info.physical_height >= 1 {
                actions.push(
                    BridgeAction::ResizeSurface {
                        physical_width: info.physical_width,
                        physical_height: info.physical_height,
                    },
                );
            }
            self.compositor.resize(info.physical_width, info.physical_height);
            actions.push(
                BridgeAction::SetWindowSize {
                    physical_width: info.physical_width,
                    physical_height: info.physical_height,
                },
            );
            actions.push(
                BridgeAction::DispatchUiEvent(
                    UiEvent::Resized {
                        logical_width_milli: info.logical_width_milli,
                        logical_height_milli: info.logical_height_milli,
                    },
                ),
            );
            actions.push(BridgeAction::RequestRedraw);
        }
        proof {
            assert(actions_view(actions@) =~= match *event {
                HostEvent::Window(HostWindowEvent::Resized(info)) => resize_actions(
                    info,
                    old(self).scale_milli,
                ),
                _ => Seq::<BridgeActionModel>::empty(),
            });
        }
        let ghost resize_part = actions_view(actions@);

        // Cache the pointer position for events that carry none.
        if let HostEvent::Mouse(HostMouseEvent::CursorMoved { position }) = event {
            let x: i64 = if position.x >= 0 {
                position.x
            } else {
                0
            };
            let y: i64 = if position.y >= 0 {
                position.y
            } else {
                0
            };
            self.last_mouse_position = PointMilli { x, y };
        }

        // Track whether a button is down, for drag semantics.
        if let HostEvent::Mouse(HostMouseEvent::ButtonPressed { .. }) = event {
            self.mouse_button_pressed = true;
        }
        if let HostEvent::Mouse(HostMouseEvent::ButtonReleased { .. }) = event {
            self.mouse_button_pressed = false;
        }

        // Translate and dispatch, patching in the cached position where the
        // translation left a placeholder.
        let status = match translate_event(event, self.scale_milli) {
            Some(ui_event) => {
                let patched = backfill_position(ui_event, self.last_mouse_position);
                actions.push(BridgeAction::DispatchUiEvent(patched));
                actions.push(BridgeAction::UpdateTimers);
                actions.push(BridgeAction::RequestRedraw);
                EventStatus::Captured
            },
            None => EventStatus::Ignored,
        };
        proof {
            assert(actions_view(actions@) =~= resize_part + dispatch_actions(
                *event,
                scale_after_event(old(self).scale_milli, *event),
                cache_after_event(old(self).last_mouse_position, *event),
            ));
        }
        let ghost before_cursor = actions_view(actions@);

        // Poll cursor requests once more, so a drag-end request raised
        // during dispatch takes effect now rather than on the next frame.
        if let Some(action) = self.process_cursor_requests() {
            actions.push(action);
        }
        proof {
            assert(actions_view(actions@) =~= before_cursor + cursor_actions(
                old(self).unbounded_active,
                old(self).mouse_control.pending(),
            ));
            assert(actions_view(actions@) =~= host_event_actions(*old(self), *event));
        }

        (status, actions)
    }
}

/// Patch the cached pointer position into a translated event that needs
/// one.
fn backfill_position(event: UiEvent, position: PointMilli) -> (r: UiEvent)
    ensures
        r@ == backfilled_event(event@, position),
{
    match event {
        UiEvent::PointerPressed { position: _, button } => UiEvent::PointerPressed {
            position,
            button,
        },
        UiEvent::PointerReleased { position: _, button } => UiEvent::PointerReleased {
            position,
            button,
        },
        UiEvent::PointerScrolled { position: _, delta_x_milli, delta_y_milli } => (
        UiEvent::PointerScrolled {
            position,
            delta_x_milli,
            delta_y_milli,
        }),
        other => other,
    }
}

/// Applying an enable request while the mode is already enabled, or a
/// disable while already disabled, changes nothing: no host-level action
/// is produced and the mode flag keeps its value.
pub proof fn lemma_cursor_request_idempotent(restore_position: bool)
    ensures
        cursor_request_action(true, Some((true, restore_position))) is None,
        cursor_request_action(false, Some((false, restore_position))) is None,
        unbounded_after(true, Some((true, restore_position))) == true,
        unbounded_after(false, Some((false, restore_position))) == false,
{
}

/// When a resize changes the scale factor, the scale change is announced
/// first, and the logical resize is dispatched after it: downstream layout
/// assumes the correct scale is already active.
pub proof fn lemma_scale_change_announced_before_resize(info: HostWindowInfo, old_scale_milli: u32)
    requires
        info.scale_milli != old_scale_milli,
    ensures
        resize_actions(info, old_scale_milli)[0] == BridgeActionModel::DispatchUiEvent(
            UiEventModel::ScaleFactorChanged { scale_milli: info.scale_milli },
        ),
        resize_actions(info, old_scale_milli)[resize_actions(info, old_scale_milli).len() - 2]
            == BridgeActionModel::DispatchUiEvent(
            UiEventModel::Resized {
                logical_width_milli: info.logical_width_milli,
                logical_height_milli: info.logical_height_milli,
            },
        ),
{
}

} // verus!
