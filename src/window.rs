//! Windows and the close interceptor: a close request hides the window and is
//! denied, so the window and its state outlive the request.

use vstd::prelude::*;

verus! {

/// Whether a window is shown on screen.
#[derive(Clone, Copy, Debug, PartialEq, Eq, Structural)]
pub enum Visibility {
    Visible,
    Hidden,
}

/// A window managed by the runtime, known by its label.
#[derive(Debug, PartialEq, Eq)]
pub struct ManagedWindow {
    pub label: String,
    pub visibility: Visibility,
}

impl ManagedWindow {
    /// A window labelled `label` in the given visibility.
    pub fn new(label: String, visibility: Visibility) -> (r: ManagedWindow)
        ensures
            r.label == label,
            r.visibility == visibility,
    {
        ManagedWindow { label, visibility }
    }
}

/// The same window with its visibility set to `v`.
pub open spec fn with_visibility(w: ManagedWindow, v: Visibility) -> ManagedWindow {
    ManagedWindow { label: w.label, visibility: v }
}

/// A request to close a window, carrying the decision whether the runtime
/// may go on and destroy it. The decision starts as "allow" and can only be
/// turned to "deny".
#[derive(Clone, Copy, Debug, PartialEq, Eq, Structural)]
pub struct CloseRequest {
    allow_close: bool,
}

impl CloseRequest {
    /// The decision of this request: `true` while closing is allowed.
    pub closed spec fn allows_close(self) -> bool {
        self.allow_close
    }

    /// A fresh request, which allows closing.
    pub fn new() -> (r: CloseRequest)
        ensures
            r.allows_close(),
    {
        CloseRequest { allow_close: true }
    }

    /// Denies the request: the runtime keeps the window.
    pub fn prevent_close(&mut self)
        ensures
            !final(self).allows_close(),
    {
        self.allow_close = false;
    }

    /// Whether the runtime may still destroy the window.
    pub fn is_close_allowed(&self) -> (r: bool)
        ensures
            r == self.allows_close(),
    {
        self.allow_close
    }
}

/// An event that the runtime dispatches for a window.
#[derive(Clone, Copy, Debug, PartialEq, Eq, Structural)]
pub enum WindowEvent {
    CloseRequested(CloseRequest),
    Destroyed,
    Focused(bool),
    Moved { x: i32, y: i32 },
    Resized { width: u32, height: u32 },
    ScaleFactorChanged,
    DragDrop,
    ThemeChanged,
}

/// What the runtime is to do with a window after an event.
#[derive(Clone, Copy, Debug, PartialEq, Eq, Structural)]
pub struct Reaction {
    pub hide: bool,
    pub prevent_close: bool,
}

/// The reaction to `e`: a close request is answered by hiding the window and
/// denying the request; every other event is passed through.
pub open spec fn reaction_to(e: WindowEvent) -> Reaction {
    if e is CloseRequested {
        Reaction { hide: true, prevent_close: true }
    } else {
        Reaction { hide: false, prevent_close: false }
    }
}

/// The window after the runtime has carried out the reaction to `e`.
pub open spec fn window_after(w: ManagedWindow, e: WindowEvent) -> ManagedWindow {
    if e is CloseRequested {
        with_visibility(w, Visibility::Hidden)
    } else {
        w
    }
}

/// Handles an event for `window`: on a close request the window is hidden and
/// the request denied; any other event changes nothing.
pub fn intercept(window: &mut ManagedWindow, event: &mut WindowEvent) -> (r: Reaction)
    ensures
        r == reaction_to(*old(event)),
        *final(window) == window_after(*old(window), *old(event)),
        *old(event) is CloseRequested ==> (*final(event) is CloseRequested
            && !final(event)->CloseRequested_0.allows_close()),
        !(*old(event) is CloseRequested) ==> *final(event) == *old(event),
{
    match event {
        WindowEvent::CloseRequested(request) => {
            window.visibility = Visibility::Hidden;
            request.prevent_close();
            Reaction { hide: true, prevent_close: true }
        },
        _ => Reaction { hide: false, prevent_close: false },
    }
}

/// Closing a window that is already hidden changes nothing, and a second close
/// request leaves the window as the first one did.
pub proof fn lemma_close_idempotent(w: ManagedWindow, e1: WindowEvent, e2: WindowEvent)
    requires
        e1 is CloseRequested,
        e2 is CloseRequested,
    ensures
        w.visibility == Visibility::Hidden ==> window_after(w, e1) == w,
        window_after(window_after(w, e1), e2) == window_after(w, e1),
        reaction_to(e2) == reaction_to(e1),
{
}

} // verus!
