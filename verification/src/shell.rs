//! State of the interactive shell around the traversal operations: the
//! path under inspection and whether the shell keeps running. The event
//! loop, key decoding and drawing are plumbing and live with the caller;
//! only the decisions live here.

use vstd::prelude::*;

verus! {

/// The interactive shell's state.
pub struct App {
    /// The path the shell inspects.
    pub path: String,
    /// Whether the shell keeps running.
    pub running: bool,
}

impl App {
    /// A freshly started shell on the given path.
    pub fn new(path: String) -> (app: App)
        ensures
            app.path == path,
            app.running,
    {
        App { path, running: true }
    }

    /// A character key: `q` (either case) quits, every other character
    /// changes nothing.
    pub fn on_key(&mut self, key: char)
        ensures
            final(self).path == old(self).path,
            final(self).running == (old(self).running && key != 'q' && key != 'Q'),
    {
        match key {
            'q' | 'Q' => self.running = false,
            _ => {},
        }
    }

    /// Moving down selects nothing yet.
    pub fn on_down(&self) {
    }

    /// Moving left selects nothing yet.
    pub fn on_left(&self) {
    }

    /// Moving right selects nothing yet.
    pub fn on_right(&self) {
    }

    /// Moving up selects nothing yet.
    pub fn on_up(&self) {
    }

    /// Whether the shell should close: exactly when it no longer runs.
    pub fn shuld_close(&self) -> (close: bool)
        ensures
            close == !self.running,
    {
        !self.running
    }
}

} // verus!
