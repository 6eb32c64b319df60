//! The actions the tray menu (and the overlay) ask of the GUI thread.
//!
//! Requests are queued in order and drained once per frame by the GUI; the
//! application keeps one [`TrayActions`] queue for the whole process.

use vstd::prelude::*;

verus! {

/// What the tray menu asks for.
#[derive(Clone, Copy, Debug, PartialEq, Eq, Structural)]
pub enum TrayAction {
    ShowSettings,
    Quit,
}

/// The pending tray actions, oldest first.
pub struct TrayActions {
    queue: Vec<TrayAction>,
}

impl View for TrayActions {
    type V = Seq<TrayAction>;

    closed spec fn view(&self) -> Seq<TrayAction> {
        self.queue@
    }
}

impl TrayActions {
    /// No pending action.
    pub fn new() -> (r: Self)
        ensures
            r@ == Seq::<TrayAction>::empty(),
    {
        TrayActions { queue: Vec::new() }
    }

    /// Asks the GUI to open the settings window.
    pub fn request_show_settings(&mut self)
        ensures
            final(self)@ == old(self)@.push(TrayAction::ShowSettings),
    {
        self.queue.push(TrayAction::ShowSettings);
    }

    /// Asks the GUI to quit.
    pub fn request_quit(&mut self)
        ensures
            final(self)@ == old(self)@.push(TrayAction::Quit),
    {
        self.queue.push(TrayAction::Quit);
    }

    /// Takes every pending action, oldest first, leaving none.
    pub fn poll_events(&mut self) -> (r: Vec<TrayAction>)
        ensures
            r@ == old(self)@,
            final(self)@ == Seq::<TrayAction>::empty(),
    {
        let mut taken: Vec<TrayAction> = Vec::new();
        std::mem::swap(&mut taken, &mut self.queue);
        taken
    }
}

} // verus!
