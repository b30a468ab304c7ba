//! Small helpers around the dashboard loop: the wrapped input/tick event
//! and a flat tab-selection state.

use vstd::prelude::*;

use crate::tui_state::Severity;

verus! {

/// A wrapped input event or a periodic tick, as handed to a dashboard loop.
pub enum Event<I> {
    Input(I),
    Tick,
}

/// Tab titles with a selected index and a message list per tab.
pub struct TabsState {
    pub titles: Vec<String>,
    pub index: usize,
    pub content: Vec<Vec<(Severity, String)>>,
}

impl TabsState {
    pub fn new(titles: Vec<String>) -> (r: TabsState)
        ensures
            r.titles == titles,
            r.index == 0,
            r.content@.len() == 0,
    {
        TabsState { titles, index: 0, content: Vec::new() }
    }

    /// Selects the next tab, wrapping around at the end of the list.
    pub fn next(&mut self)
        requires
            old(self).titles@.len() > 0,
            old(self).index < old(self).titles@.len(),
        ensures
            final(self).index == (old(self).index + 1) % (old(self).titles@.len() as int),
            final(self).titles == old(self).titles,
            final(self).content == old(self).content,
    {
        let n = self.titles.len();
        self.index = (self.index + 1) % n;
    }

    /// Selects the previous tab, wrapping around at the start of the list.
    pub fn previous(&mut self)
        requires
            old(self).titles@.len() > 0,
        ensures
            final(self).index == if old(self).index > 0 {
                old(self).index - 1
            } else {
                old(self).titles@.len() - 1
            },
            final(self).titles == old(self).titles,
            final(self).content == old(self).content,
    {
        if self.index > 0 {
            self.index -= 1;
        } else {
            self.index = self.titles.len() - 1;
        }
    }
}

} // verus!
