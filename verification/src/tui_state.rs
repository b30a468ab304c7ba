//! Dashboard state: the events produced by the supervision tasks and the
//! per-command tab model that the renderer reads.

use std::collections::VecDeque;

use vstd::prelude::*;
use vstd::string::StringExecFns;

verus! {

/// Severity of a displayed message.
#[derive(Debug, Clone, Copy, PartialEq, Eq, Structural)]
pub enum Severity {
    /// Messages from a command's stdout.
    Info,
    /// Messages from a command's stderr.
    Error,
    /// Messages generated by the supervisor itself.
    System,
}

/// A key press the dashboard reacts to.
#[derive(Debug, Clone, Copy, PartialEq, Eq, Structural)]
pub enum InputKey {
    Right,
    Left,
    Other,
}

/// Everything the dashboard reacts to.
#[derive(Debug, Clone)]
pub enum TuiEvent {
    /// The tab list was rebuilt, one title per command.
    TabListChanged(Vec<String>),
    /// The command at the given id started.
    CommandStarted(usize),
    /// New stdout line from the command at the given id.
    NewStdoutMessage(usize, String),
    /// New stderr line from the command at the given id.
    NewStderrMessage(usize, String),
    /// The command at the given id ended.
    CommandEnded(usize),
    /// The user pressed a key.
    Input(InputKey),
    /// A supervisor notice about the command at the given id.
    System(usize, String),
}

/// Upper bound on the number of messages a tab retains.
pub const TAB_CONTENT_CAP: usize = 100;

/// Mathematical image of one tab.
pub struct TabView {
    pub title: Seq<char>,
    pub content: Seq<(Severity, Seq<char>)>,
}

/// Mathematical image of the whole dashboard state.
pub struct TuiView {
    pub tabs: Seq<TabView>,
    pub index: int,
}

/// A bounded ring: append the new entry and, once the bound is reached,
/// drop the oldest one.
pub open spec fn ring_push(
    s: Seq<(Severity, Seq<char>)>,
    m: (Severity, Seq<char>),
    cap: nat,
) -> Seq<(Severity, Seq<char>)>
    recommends
        s.len() <= cap,
{
    if s.len() < cap {
        s.push(m)
    } else {
        s.drop_first().push(m)
    }
}

/// Info about a single tab: its title and the bounded message ring shown
/// inside it.
pub struct TabState {
    pub title: String,
    pub content: VecDeque<(Severity, String)>,
}

impl View for TabState {
    type V = TabView;

    open spec fn view(&self) -> TabView {
        TabView {
            title: self.title@,
            content: self.content@.map_values(|p: (Severity, String)| (p.0, p.1@)),
        }
    }
}

impl TabState {
    /// Builds an empty tab with the given title.
    pub fn build(title: String) -> (r: TabState)
        ensures
            r@.title == title@,
            r@.content.len() == 0,
    {
        let r = TabState { title, content: VecDeque::new() };
        proof {
            assert(r@.content =~= Seq::<(Severity, Seq<char>)>::empty());
        }
        r
    }

    /// Appends a message, dropping the oldest one once the tab already
    /// holds [`TAB_CONTENT_CAP`] messages, so the ring never grows past
    /// that bound.
    pub fn add_message(&mut self, severity: Severity, text: String)
        requires
            old(self)@.content.len() <= TAB_CONTENT_CAP,
        ensures
            final(self)@.title == old(self)@.title,
            final(self)@.content == ring_push(
                old(self)@.content,
                (severity, text@),
                TAB_CONTENT_CAP as nat,
            ),
            final(self)@.content.len() <= TAB_CONTENT_CAP,
    {
        let ghost pre = self.content@;
        self.content.push_back((severity, text));
        proof {
            assert(self@.content =~= pre.map_values(|p: (Severity, String)| (p.0, p.1@)).push(
                (severity, text@),
            ));
        }
        if self.content.len() > TAB_CONTENT_CAP {
            let _ = self.content.pop_front();
        }
        proof {
            let prev = pre.map_values(|p: (Severity, String)| (p.0, p.1@));
            assert(self@.content =~= ring_push(prev, (severity, text@), TAB_CONTENT_CAP as nat));
        }
    }
}

/// Entire state of the dashboard: one tab per command and the index of the
/// currently selected tab.
pub struct TuiState {
    pub tabs: Vec<TabState>,
    pub index: usize,
}

impl View for TuiState {
    type V = TuiView;

    open spec fn view(&self) -> TuiView {
        TuiView {
            tabs: self.tabs@.map_values(|t: TabState| t@),
            index: self.index as int,
        }
    }
}

/// The selected index stays inside the tab list (or at zero while the list
/// is empty), and no tab's ring exceeds its bound.
pub open spec fn tui_wf(v: TuiView) -> bool {
    &&& if v.tabs.len() == 0 {
        v.index == 0
    } else {
        v.index < v.tabs.len()
    }
    &&& forall|i: int| 0 <= i < v.tabs.len() ==> #[trigger] v.tabs[i].content.len() <= 100
}

/// The whole tab list was rebuilt from `titles`: fresh empty tabs, and the
/// selection back on the first one.
pub open spec fn tabs_rebuilt(post: TuiView, titles: Seq<Seq<char>>) -> bool {
    &&& post.index == 0
    &&& post.tabs.len() == titles.len()
    &&& forall|i: int|
        0 <= i < titles.len() ==> #[trigger] post.tabs[i].title == titles[i] && post.tabs[i].content.len()
            == 0
}

/// One message was appended to the ring of tab `id`; everything else is
/// untouched.
pub open spec fn tab_message(
    pre: TuiView,
    post: TuiView,
    id: int,
    severity: Severity,
    text: Seq<char>,
) -> bool {
    &&& post.tabs.len() == pre.tabs.len()
    &&& post.index == pre.index
    &&& forall|j: int| 0 <= j < pre.tabs.len() && j != id ==> #[trigger] post.tabs[j] == pre.tabs[j]
    &&& post.tabs[id].title == pre.tabs[id].title
    &&& post.tabs[id].content == ring_push(pre.tabs[id].content, (severity, text), 100)
}

/// Where a navigation key moves the selected index.
pub open spec fn nav_index(pre: TuiView, key: InputKey) -> int {
    match key {
        InputKey::Right => (pre.index + 1) % (pre.tabs.len() as int),
        InputKey::Left => if pre.index > 0 {
            pre.index - 1
        } else {
            pre.tabs.len() - 1
        },
        InputKey::Other => pre.index,
    }
}

/// Whether the dashboard may fold this event without stepping outside the
/// tab list: message events must address an existing tab, and navigation
/// needs a non-empty list.
pub open spec fn event_ok(e: TuiEvent, tabs_len: nat) -> bool {
    match e {
        TuiEvent::TabListChanged(_) => true,
        TuiEvent::CommandStarted(id) => id < tabs_len,
        TuiEvent::NewStdoutMessage(id, _) => id < tabs_len,
        TuiEvent::NewStderrMessage(id, _) => id < tabs_len,
        TuiEvent::CommandEnded(id) => id < tabs_len,
        TuiEvent::Input(key) => (key is Right || key is Left) ==> tabs_len > 0,
        TuiEvent::System(id, _) => id < tabs_len,
    }
}

impl TuiState {
    /// Creates the dashboard state from the list of command titles.
    pub fn build(titles: Vec<String>) -> (r: TuiState)
        ensures
            tui_wf(r@),
            tabs_rebuilt(r@, titles.deep_view()),
    {
        let mut tabs: Vec<TabState> = Vec::new();
        let mut i: usize = 0;
        while i < titles.len()
            invariant
                0 <= i <= titles.len(),
                tabs@.len() == i,
                forall|j: int|
                    0 <= j < i ==> (#[trigger] tabs@[j])@.title == titles@[j]@ && tabs@[j]@.content.len()
                        == 0,
            decreases titles.len() - i,
        {
            tabs.push(TabState::build(titles[i].clone()));
            i += 1;
        }
        let r = TuiState { tabs, index: 0 };
        proof {
            assert(forall|j: int|
                0 <= j < titles@.len() ==> #[trigger] titles.deep_view()[j] == titles@[j]@);
        }
        r
    }

    /// Selects the next tab, wrapping around at the end of the list.
    pub fn next(&mut self)
        requires
            tui_wf(old(self)@),
            old(self)@.tabs.len() > 0,
        ensures
            tui_wf(final(self)@),
            final(self)@.tabs == old(self)@.tabs,
            final(self)@.index == nav_index(old(self)@, InputKey::Right),
    {
        let n = self.tabs.len();
        proof {
            assert(self@.tabs.len() == self.tabs@.len());
            assert(self.index < n);
        }
        self.index = (self.index + 1) % n;
    }

    /// Selects the previous tab, wrapping around at the start of the list.
    pub fn previous(&mut self)
        requires
            tui_wf(old(self)@),
            old(self)@.tabs.len() > 0,
        ensures
            tui_wf(final(self)@),
            final(self)@.tabs == old(self)@.tabs,
            final(self)@.index == nav_index(old(self)@, InputKey::Left),
    {
        if self.index > 0 {
            self.index -= 1;
        } else {
            self.index = self.tabs.len() - 1;
        }
    }

    /// Appends one message to the ring of the addressed tab.
    fn add_to_tab(&mut self, id: usize, severity: Severity, text: String)
        requires
            tui_wf(old(self)@),
            (id as int) < old(self)@.tabs.len(),
        ensures
            tui_wf(final(self)@),
            tab_message(old(self)@, final(self)@, id as int, severity, text@),
    {
        let ghost pre = self@;
        let mut tab = self.tabs.remove(id);
        proof {
            assert(tab@ == pre.tabs[id as int]);
            assert(pre.tabs[id as int].content.len() <= 100);
        }
        tab.add_message(severity, text);
        self.tabs.insert(id, tab);
        proof {
            assert forall|j: int| 0 <= j < pre.tabs.len() && j != id as int implies #[trigger] self@.tabs[j]
                == pre.tabs[j] by {
                if j < id as int {
                    assert(self.tabs@[j] == old(self).tabs@[j]);
                } else {
                    assert(self.tabs@[j] == old(self).tabs@[j]);
                }
            }
            assert(self@.tabs.len() == pre.tabs.len());
            assert(self@.tabs[id as int] == tab@);
        }
    }

    /// Folds one event into the dashboard state. This is the consumer side
    /// of the event pipeline: it never influences supervision decisions.
    pub fn apply_event(&mut self, event: TuiEvent)
        requires
            tui_wf(old(self)@),
            event_ok(event, old(self)@.tabs.len() as nat),
        ensures
            tui_wf(final(self)@),
            match event {
                TuiEvent::TabListChanged(titles) => tabs_rebuilt(final(self)@, titles.deep_view()),
                TuiEvent::CommandStarted(id) => tab_message(
                    old(self)@,
                    final(self)@,
                    id as int,
                    Severity::System,
                    "Command Started"@,
                ),
                TuiEvent::NewStdoutMessage(id, m) => tab_message(
                    old(self)@,
                    final(self)@,
                    id as int,
                    Severity::Info,
                    m@,
                ),
                TuiEvent::NewStderrMessage(id, m) => tab_message(
                    old(self)@,
                    final(self)@,
                    id as int,
                    Severity::Error,
                    m@,
                ),
                TuiEvent::CommandEnded(id) => tab_message(
                    old(self)@,
                    final(self)@,
                    id as int,
                    Severity::System,
                    "Command ended"@,
                ),
                TuiEvent::Input(key) => final(self)@.tabs == old(self)@.tabs && final(self)@.index
                    == nav_index(old(self)@, key),
                TuiEvent::System(id, m) => tab_message(
                    old(self)@,
                    final(self)@,
                    id as int,
                    Severity::System,
                    m@,
                ),
            },
    {
        match event {
            TuiEvent::TabListChanged(titles) => {
                *self = TuiState::build(titles);
            },
            TuiEvent::CommandStarted(id) => {
                self.add_to_tab(id, Severity::System, String::from_str("Command Started"));
            },
            TuiEvent::NewStdoutMessage(id, m) => {
                self.add_to_tab(id, Severity::Info, m);
            },
            TuiEvent::NewStderrMessage(id, m) => {
                self.add_to_tab(id, Severity::Error, m);
            },
            TuiEvent::CommandEnded(id) => {
                self.add_to_tab(id, Severity::System, String::from_str("Command ended"));
            },
            TuiEvent::Input(key) => {
                match key {
                    InputKey::Right => self.next(),
                    InputKey::Left => self.previous(),
                    InputKey::Other => (),
                }
            },
            TuiEvent::System(id, m) => {
                self.add_to_tab(id, Severity::System, m);
            },
        }
    }
}

} // verus!
