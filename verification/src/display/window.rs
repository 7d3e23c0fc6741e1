use vstd::prelude::*;

verus! {

/// What one look at the window's event queue found.
#[derive(Debug, Clone, Copy, PartialEq, Eq, Structural)]
pub enum Polled {
    /// The escape key changed its state; `pressed` says whether it went down.
    Escape { pressed: bool },
    /// Any other event.
    Other,
    /// The window is gone.
    Disconnected,
    /// The queue is empty.
    Empty,
}

/// Remembers whether the user has asked for the run to end.
#[derive(Debug, Clone, Copy, PartialEq, Eq, Structural)]
pub struct ExitWatch {
    pub should_exit: bool,
}

impl ExitWatch {
    /// Whether what was found asks for the run to end: the escape key went
    /// down, or the window is gone.
    pub open spec fn asks_to_exit(polled: Polled) -> bool {
        polled == (Polled::Escape { pressed: true }) || polled == Polled::Disconnected
    }

    /// Whether the queue may hold more after what was found.
    pub open spec fn may_hold_more(polled: Polled) -> bool {
        polled is Escape || polled is Other
    }

    /// A watch that has seen nothing yet.
    pub fn new() -> (watch: Self)
        ensures
            !watch.should_exit,
    {
        ExitWatch { should_exit: false }
    }

    /// Takes note of what one look at the queue found, and says whether to
    /// look again. Once the run is asked to end it stays so.
    pub fn handle_event(&mut self, polled: Polled) -> (again: bool)
        ensures
            final(self).should_exit == (old(self).should_exit || Self::asks_to_exit(polled)),
            again == Self::may_hold_more(polled),
    {
        match polled {
            Polled::Escape { pressed } => {
                if pressed {
                    self.should_exit = true;
                }
                true
            },
            Polled::Other => true,
            Polled::Disconnected => {
                self.should_exit = true;
                false
            },
            Polled::Empty => false,
        }
    }

    /// Whether the run was asked to end.
    pub fn should_exit(&self) -> (exit: bool)
        ensures
            exit == self.should_exit,
    {
        self.should_exit
    }
}

} // verus!
