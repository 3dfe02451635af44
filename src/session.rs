//! The application session: the process state, the managed windows and the
//! menu attached at startup, and how events and menu actions change them.

use vstd::prelude::*;
use crate::menu::{app_menu, create_menu, ItemView, MenuItem, MenuTree, PredefinedAction};
use crate::window::{
    intercept, reaction_to, window_after, with_visibility, ManagedWindow, Reaction, Visibility, WindowEvent,
};

verus! {

/// The label of the window that is revealed at startup.
pub const MAIN_WINDOW_LABEL: &'static str = "main";

/// Whether the process is still running.
#[derive(Clone, Copy, Debug, PartialEq, Eq, Structural)]
pub enum ProcessState {
    Running,
    Terminated,
}

/// The mathematical value of a session.
pub struct SessionView {
    pub process: ProcessState,
    pub windows: Seq<ManagedWindow>,
}

/// A running application: its menu, built once, its windows and its process state.
#[derive(Debug)]
pub struct Session {
    process: ProcessState,
    windows: Vec<ManagedWindow>,
    menu: MenuTree,
}

impl View for Session {
    type V = SessionView;

    closed spec fn view(&self) -> SessionView {
        SessionView { process: self.process, windows: self.windows@ }
    }
}

/// Whether `w` is the window revealed at startup.
pub open spec fn is_main(w: ManagedWindow) -> bool {
    w.label@ == "main"@
}

/// `i` is the first position of `ws` that holds the main window.
pub open spec fn first_main(ws: Seq<ManagedWindow>, i: int) -> bool {
    &&& 0 <= i < ws.len()
    &&& is_main(ws[i])
    &&& forall|j: int| 0 <= j < i ==> !is_main(#[trigger] ws[j])
}

/// Whether `ws` holds a main window.
pub open spec fn has_main(ws: Seq<ManagedWindow>) -> bool {
    exists|i: int| 0 <= i < ws.len() && is_main(#[trigger] ws[i])
}

/// The windows after the main window, if any, has been shown.
pub open spec fn main_shown(ws: Seq<ManagedWindow>, after: Seq<ManagedWindow>) -> bool {
    if has_main(ws) {
        exists|i: int| first_main(ws, i) && after == ws.update(i, with_visibility(ws[i], Visibility::Visible))
    } else {
        after == ws
    }
}

/// The session after the runtime has dispatched `e` to the window at `i`.
pub open spec fn after_window_event(s: SessionView, i: int, e: WindowEvent) -> SessionView {
    SessionView { process: s.process, windows: s.windows.update(i, window_after(s.windows[i], e)) }
}

/// The session after the menu entry `item` has been activated.
pub open spec fn after_menu_item(s: SessionView, item: ItemView) -> SessionView {
    if item == ItemView::Predefined(PredefinedAction::Quit) {
        SessionView { process: ProcessState::Terminated, windows: s.windows }
    } else {
        s
    }
}

impl Session {
    /// Starts the application called `app_name` with `windows`: builds its
    /// menu and reveals the main window, if there is one.
    pub fn start(app_name: &str, windows: Vec<ManagedWindow>) -> (r: Session)
        ensures
            r@.process == ProcessState::Running,
            main_shown(windows@, r@.windows),
            r.menu()@ =~~= app_menu(app_name@),
    {
        let mut r = Session { process: ProcessState::Running, windows, menu: create_menu(app_name) };
        r.show_main_window();
        r
    }

    /// The menu attached to the application.
    pub closed spec fn menu(&self) -> MenuTree {
        self.menu
    }

    /// The menu attached to the application.
    pub fn attached_menu(&self) -> (r: &MenuTree)
        ensures
            r == self.menu(),
    {
        &self.menu
    }

    /// Whether the process is still running.
    pub fn process(&self) -> (r: ProcessState)
        ensures
            r == self@.process,
    {
        self.process
    }

    /// The managed windows, in the order they were given at startup.
    pub fn windows(&self) -> (r: &Vec<ManagedWindow>)
        ensures
            r@ == self@.windows,
    {
        &self.windows
    }

    /// Shows the first window labelled `"main"`; does nothing where there is
    /// none. Returns whether a window was shown.
    pub fn show_main_window(&mut self) -> (shown: bool)
        ensures
            shown == has_main(old(self)@.windows),
            main_shown(old(self)@.windows, final(self)@.windows),
            final(self)@.process == old(self)@.process,
            final(self).menu() == old(self).menu(),
    {
        let main = MAIN_WINDOW_LABEL.to_owned();
        let n = self.windows.len();
        let mut i: usize = 0;
        while i < n
            invariant
                n == self.windows@.len(),
                *self == *old(self),
                main@ == "main"@,
                0 <= i <= n,
                forall|j: int| 0 <= j < i ==> !is_main(#[trigger] self.windows@[j]),
            decreases n - i,
        {
            if self.windows[i].label == main {
                let ghost ws = self.windows@;
                let label = self.windows[i].label.clone();
                self.windows.set(i, ManagedWindow::new(label, Visibility::Visible));
                assert(first_main(ws, i as int));
                assert(self.windows@ =~= ws.update(i as int, with_visibility(ws[i as int], Visibility::Visible)));
                return true;
            }
            i = i + 1;
        }
        false
    }

    /// Dispatches `event` to the window at `index`, through the close interceptor.
    pub fn on_window_event(&mut self, index: usize, event: &mut WindowEvent) -> (r: Reaction)
        requires
            index < old(self)@.windows.len(),
        ensures
            r == reaction_to(*old(event)),
            final(self)@ == after_window_event(old(self)@, index as int, *old(event)),
            final(self).menu() == old(self).menu(),
    {
        let mut w = ManagedWindow::new(self.windows[index].label.clone(), self.windows[index].visibility);
        let r = intercept(&mut w, event);
        self.windows.set(index, w);
        assert(self@.windows =~= after_window_event(old(self)@, index as int, *old(event)).windows);
        r
    }

    /// Activates the menu entry `item`: the Quit action ends the process,
    /// every other entry leaves the session as it is.
    pub fn activate_menu_item(&mut self, item: &MenuItem)
        ensures
            final(self)@ == after_menu_item(old(self)@, item@),
            final(self).menu() == old(self).menu(),
    {
        if item.terminates_process() {
            self.process = ProcessState::Terminated;
        }
    }
}

/// A close request on any managed window leaves that window hidden, every
/// other window as it was, and a running process running.
pub proof fn lemma_close_hides_and_keeps_running(s: SessionView, i: int, e: WindowEvent)
    requires
        0 <= i < s.windows.len(),
        e is CloseRequested,
        s.process == ProcessState::Running,
    ensures
        after_window_event(s, i, e).windows[i].visibility == Visibility::Hidden,
        after_window_event(s, i, e).windows[i].label == s.windows[i].label,
        forall|j: int| 0 <= j < s.windows.len() && j != i
            ==> #[trigger] after_window_event(s, i, e).windows[j] == s.windows[j],
        after_window_event(s, i, e).process == ProcessState::Running,
{
}

/// No window event of any kind ends the process.
pub proof fn lemma_window_events_keep_process(s: SessionView, i: int, e: WindowEvent)
    requires
        0 <= i < s.windows.len(),
    ensures
        after_window_event(s, i, e).process == s.process,
{
}

/// Of all menu entries, activating Quit, and only Quit, ends a running process.
pub proof fn lemma_only_quit_terminates(s: SessionView, item: ItemView)
    requires
        s.process == ProcessState::Running,
    ensures
        (after_menu_item(s, item).process == ProcessState::Terminated)
            <==> item == ItemView::Predefined(PredefinedAction::Quit),
        after_menu_item(s, item).windows == s.windows,
{
}

} // verus!
