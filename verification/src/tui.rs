//! The terminal interface's state: which widget has focus, the selection in
//! each list, the quick actions, and how key presses become events and
//! events move focus and selection.
use vstd::prelude::*;
use vstd::string::StrSliceExecFns;
use crate::text::{chars_of, owned, push_char, push_str, string_from_chars};

verus! {

/// Identifies which widget currently owns input focus.
#[derive(Debug, Clone, Copy, PartialEq, Eq, Structural)]
pub enum FocusArea {
    Clients,
    Servers,
    Activity,
    QuickAccess,
    QueryInput,
}

/// The position of each area in the focus cycle.
pub open spec fn focus_rank(f: FocusArea) -> nat {
    match f {
        FocusArea::Clients => 0,
        FocusArea::Servers => 1,
        FocusArea::Activity => 2,
        FocusArea::QuickAccess => 3,
        FocusArea::QueryInput => 4,
    }
}

/// The area at position `i` of the focus cycle.
pub open spec fn focus_at(i: nat) -> FocusArea {
    if i == 0 {
        FocusArea::Clients
    } else if i == 1 {
        FocusArea::Servers
    } else if i == 2 {
        FocusArea::Activity
    } else if i == 3 {
        FocusArea::QuickAccess
    } else {
        FocusArea::QueryInput
    }
}

/// The position of an area in the focus cycle: clients, servers, activity,
/// quick access, query input.
pub fn focus_index(focus: FocusArea) -> (r: usize)
    ensures
        r == focus_rank(focus),
        r < 5,
        focus_at(r as nat) == focus,
{
    match focus {
        FocusArea::Clients => 0,
        FocusArea::Servers => 1,
        FocusArea::Activity => 2,
        FocusArea::QuickAccess => 3,
        FocusArea::QueryInput => 4,
    }
}

/// The area at position `i` of the focus cycle.
fn focus_from_index(i: usize) -> (f: FocusArea)
    requires
        i < 5,
    ensures
        f == focus_at(i as nat),
        focus_rank(f) == i,
{
    if i == 0 {
        FocusArea::Clients
    } else if i == 1 {
        FocusArea::Servers
    } else if i == 2 {
        FocusArea::Activity
    } else if i == 3 {
        FocusArea::QuickAccess
    } else {
        FocusArea::QueryInput
    }
}

/// The area after `f` in the focus cycle, wrapping around.
pub open spec fn focus_after(f: FocusArea) -> FocusArea {
    focus_at(((focus_rank(f) + 1) % 5) as nat)
}

/// The area before `f` in the focus cycle, wrapping around.
pub open spec fn focus_before(f: FocusArea) -> FocusArea {
    if focus_rank(f) == 0 { FocusArea::QueryInput } else { focus_at((focus_rank(f) - 1) as nat) }
}

/// Connection status for a client.
#[derive(Debug, Clone, Copy, PartialEq, Eq, Structural)]
pub enum ClientStatus {
    Connected,
    Disconnected,
    Error,
}

impl ClientStatus {
    /// The text shown for the status.
    pub fn label(&self) -> (r: &'static str)
        ensures
            r@ == match *self {
                ClientStatus::Connected => "Connected"@,
                ClientStatus::Disconnected => "Disconnected"@,
                ClientStatus::Error => "Error"@,
            },
    {
        match self {
            ClientStatus::Connected => "Connected",
            ClientStatus::Disconnected => "Disconnected",
            ClientStatus::Error => "Error",
        }
    }
}

/// Status for a server.
#[derive(Debug, Clone, Copy, PartialEq, Eq, Structural)]
pub enum ServerStatus {
    Starting,
    Running,
    Degraded,
    Stopped,
    Error,
}

impl ServerStatus {
    /// The text shown for the status.
    pub fn label(&self) -> (r: &'static str)
        ensures
            r@ == match *self {
                ServerStatus::Starting => "Starting"@,
                ServerStatus::Running => "Running"@,
                ServerStatus::Degraded => "Degraded"@,
                ServerStatus::Stopped => "Stopped"@,
                ServerStatus::Error => "Error"@,
            },
    {
        match self {
            ServerStatus::Starting => "Starting",
            ServerStatus::Running => "Running",
            ServerStatus::Degraded => "Degraded",
            ServerStatus::Stopped => "Stopped",
            ServerStatus::Error => "Error",
        }
    }
}

/// Activity execution status.
#[derive(Debug, Clone, Copy, PartialEq, Eq, Structural)]
pub enum ActivityStatus {
    Processing,
    Success,
    Failed,
}

impl ActivityStatus {
    /// The text shown for the status.
    pub fn label(&self) -> (r: &'static str)
        ensures
            r@ == match *self {
                ActivityStatus::Processing => "Processing"@,
                ActivityStatus::Success => "Success"@,
                ActivityStatus::Failed => "Failed"@,
            },
    {
        match self {
            ActivityStatus::Processing => "Processing",
            ActivityStatus::Success => "Success",
            ActivityStatus::Failed => "Failed",
        }
    }
}

/// High level events understood by the application.
#[derive(Debug, Clone, Copy, PartialEq, Eq, Structural)]
pub enum Event {
    Quit,
    /// Textual input from the user.
    Input(char),
    Enter,
    Backspace,
    Tab,
    FocusNext,
    FocusPrev,
    Up,
    Down,
    Left,
    Right,
}

/// The keys the interface reacts to.
#[derive(Debug, Clone, Copy, PartialEq, Eq, Structural)]
pub enum Key {
    Esc,
    Enter,
    Tab,
    BackTab,
    Backspace,
    Left,
    Right,
    Up,
    Down,
    Char(char),
    Other,
}

/// A key event from the terminal, as plain values.
#[derive(Debug, Clone, Copy, PartialEq, Eq, Structural)]
pub struct KeyInput {
    pub key: Key,
    pub shift: bool,
    pub control: bool,
    /// Whether the key went down (releases and repeats are ignored)
    pub press: bool,
}

/// The event a key press means, if any.
pub open spec fn key_event(k: KeyInput) -> Option<Event> {
    if !k.press {
        None
    } else {
        match k.key {
            Key::Esc => Some(Event::Quit),
            Key::Enter => Some(Event::Enter),
            Key::Tab => if k.shift {
                Some(Event::FocusPrev)
            } else if k.control {
                Some(Event::FocusNext)
            } else {
                Some(Event::Tab)
            },
            Key::BackTab => Some(Event::FocusPrev),
            Key::Backspace => Some(Event::Backspace),
            Key::Left => Some(Event::Left),
            Key::Right => Some(Event::Right),
            Key::Up => Some(Event::Up),
            Key::Down => Some(Event::Down),
            Key::Char(c) => if (c == 'c' || c == 'q') && k.control {
                Some(Event::Quit)
            } else {
                Some(Event::Input(c))
            },
            Key::Other => None,
        }
    }
}

/// Turns a terminal key event into an application event: Esc and
/// Ctrl-C/Ctrl-Q quit, Tab moves focus with Shift (back) or Ctrl
/// (forward), other keys map to themselves; releases are ignored.
pub fn map_key(k: KeyInput) -> (r: Option<Event>)
    ensures
        r == key_event(k),
{
    if !k.press {
        return None;
    }
    match k.key {
        Key::Esc => Some(Event::Quit),
        Key::Enter => Some(Event::Enter),
        Key::Tab => {
            if k.shift {
                Some(Event::FocusPrev)
            } else if k.control {
                Some(Event::FocusNext)
            } else {
                Some(Event::Tab)
            }
        },
        Key::BackTab => Some(Event::FocusPrev),
        Key::Backspace => Some(Event::Backspace),
        Key::Left => Some(Event::Left),
        Key::Right => Some(Event::Right),
        Key::Up => Some(Event::Up),
        Key::Down => Some(Event::Down),
        Key::Char(c) => {
            if (c == 'c' || c == 'q') && k.control {
                Some(Event::Quit)
            } else {
                Some(Event::Input(c))
            }
        },
        Key::Other => None,
    }
}

/// Reads terminal events for the application.
#[derive(Debug)]
pub struct EventHandler;

impl EventHandler {
    /// A handler reading from the terminal.
    pub fn new() -> (r: Self) {
        EventHandler
    }
}

/// The query line.
#[derive(Debug)]
pub struct QueryInput {
    pub placeholder: String,
}

impl QueryInput {
    /// A query line with its placeholder text.
    pub fn new() -> (r: Self)
        ensures
            r.placeholder@ == "Enter a query to send to MCP\u{2026}"@,
    {
        QueryInput { placeholder: owned("Enter a query to send to MCP\u{2026}") }
    }

    /// What the line shows for `value`: the value, or the placeholder when
    /// the value is empty.
    pub fn display<'a>(&'a self, value: &'a str) -> (r: &'a str)
        ensures
            r@ == if value@.len() == 0 { self.placeholder@ } else { value@ },
    {
        if value.unicode_len() == 0 {
            self.placeholder.as_str()
        } else {
            value
        }
    }
}

/// A shortcut offered in the quick access list.
#[derive(Clone, Debug)]
pub struct QuickAction {
    pub label: String,
    pub description: String,
    pub command: String,
}

/// The built-in quick actions: list tools, check health, open a session.
pub fn default_actions() -> (r: Vec<QuickAction>)
    ensures
        r@.len() == 3,
        r@[0].label@ == "List available tools"@,
        r@[0].description@ == "Inspect which tools MCP exposes"@,
        r@[0].command@ == "list_tools"@,
        r@[1].label@ == "Check server health"@,
        r@[1].description@ == "Gather latest health metrics"@,
        r@[1].command@ == "check_health"@,
        r@[2].label@ == "Open session"@,
        r@[2].description@ == "Start a new interactive session"@,
        r@[2].command@ == "open_session"@,
{
    let mut v: Vec<QuickAction> = Vec::new();
    v.push(QuickAction {
        label: owned("List available tools"),
        description: owned("Inspect which tools MCP exposes"),
        command: owned("list_tools"),
    });
    v.push(QuickAction {
        label: owned("Check server health"),
        description: owned("Gather latest health metrics"),
        command: owned("check_health"),
    });
    v.push(QuickAction {
        label: owned("Open session"),
        description: owned("Start a new interactive session"),
        command: owned("open_session"),
    });
    v
}

/// Moving down a list that wraps around (clients, servers, quick actions).
pub open spec fn cyclic_next(sel: Option<usize>, len: nat) -> Option<usize> {
    if len == 0 {
        None
    } else {
        let idx = match sel { Some(i) => i as nat, None => 0 };
        if idx + 1 >= len { Some(0) } else { Some((idx + 1) as usize) }
    }
}

/// Moving up a list that wraps around.
pub open spec fn cyclic_prev(sel: Option<usize>, len: nat) -> Option<usize> {
    if len == 0 {
        None
    } else {
        let idx = match sel { Some(i) => i as nat, None => 0 };
        if idx == 0 { Some((len - 1) as usize) } else { Some((idx - 1) as usize) }
    }
}

/// The selection after moving down a wrapping list of `len` rows.
pub fn select_next_cyclic(sel: Option<usize>, len: usize) -> (r: Option<usize>)
    ensures
        r == cyclic_next(sel, len as nat),
{
    if len == 0 {
        return None;
    }
    let idx = match sel { Some(i) => i, None => 0 };
    if idx >= len - 1 { Some(0) } else { Some(idx + 1) }
}

/// The selection after moving up a wrapping list of `len` rows.
pub fn select_prev_cyclic(sel: Option<usize>, len: usize) -> (r: Option<usize>)
    ensures
        r == cyclic_prev(sel, len as nat),
{
    if len == 0 {
        return None;
    }
    let idx = match sel { Some(i) => i, None => 0 };
    if idx == 0 { Some(len - 1) } else { Some(idx - 1) }
}

/// In a non-empty wrapping list, moving down then up returns to the row
/// selected before, and so does moving up then down.
pub proof fn lemma_cyclic_round_trip(i: usize, len: nat)
    requires
        i < len,
        len <= usize::MAX,
    ensures
        cyclic_prev(cyclic_next(Some(i), len), len) == Some(i),
        cyclic_next(cyclic_prev(Some(i), len), len) == Some(i),
{
}

/// Moving in a non-empty list from a row inside it, or from no selection,
/// always leaves a row inside the list selected.
pub proof fn lemma_cyclic_in_range(sel: Option<usize>, len: nat)
    requires
        len > 0,
        len <= usize::MAX,
        sel matches Some(i) ==> i < len,
    ensures
        cyclic_next(sel, len) matches Some(j) && j < len,
        cyclic_prev(sel, len) matches Some(j) && j < len,
{
}

/// Moving down the activity feed: stops at the last row.
pub open spec fn clamped_next(sel: Option<usize>, len: nat) -> Option<usize> {
    if len == 0 {
        None
    } else {
        let idx = match sel { Some(i) => i as nat, None => 0 };
        if idx + 1 >= len { Some((len - 1) as usize) } else { Some((idx + 1) as usize) }
    }
}

/// Moving up the activity feed: stops at the first row.
pub open spec fn clamped_prev(sel: Option<usize>) -> Option<usize> {
    let idx = match sel { Some(i) => i as nat, None => 0 };
    if idx == 0 { Some(0) } else { Some((idx - 1) as usize) }
}

/// Selecting the first row when nothing is selected.
pub open spec fn focus_selection(sel: Option<usize>) -> Option<usize> {
    if sel is None { Some(0) } else { sel }
}

/// The sizes of the lists that navigation moves through.
#[derive(Debug, Clone, Copy)]
pub struct NavigationContext {
    pub client_len: usize,
    pub server_len: usize,
    pub activity_len: usize,
}

/// The interface's navigation state: focus and the selection of each list.
#[derive(Debug, Clone, Copy, PartialEq, Eq, Structural)]
pub struct UiState {
    pub focus: FocusArea,
    pub clients: Option<usize>,
    pub servers: Option<usize>,
    pub activity: Option<usize>,
    pub quick: Option<usize>,
    /// How many quick actions there are
    pub quick_len: usize,
}

/// The state after giving focus to `f`: the activity feed and quick access
/// select their first row if nothing was selected.
pub open spec fn with_focus(s: UiState, f: FocusArea) -> UiState {
    UiState {
        focus: f,
        activity: if f == FocusArea::Activity { focus_selection(s.activity) } else { s.activity },
        quick: if f == FocusArea::QuickAccess { focus_selection(s.quick) } else { s.quick },
        ..s
    }
}

/// Where Left moves focus from each area.
pub open spec fn left_of(f: FocusArea) -> Option<FocusArea> {
    match f {
        FocusArea::Servers => Some(FocusArea::Clients),
        FocusArea::Activity => Some(FocusArea::Clients),
        FocusArea::QuickAccess => Some(FocusArea::Activity),
        FocusArea::QueryInput => Some(FocusArea::QuickAccess),
        FocusArea::Clients => None,
    }
}

/// Where Right moves focus from each area.
pub open spec fn right_of(f: FocusArea) -> Option<FocusArea> {
    match f {
        FocusArea::Clients => Some(FocusArea::Servers),
        FocusArea::Servers => Some(FocusArea::Activity),
        FocusArea::Activity => Some(FocusArea::QuickAccess),
        FocusArea::QuickAccess => Some(FocusArea::QueryInput),
        FocusArea::QueryInput => None,
    }
}

/// What a navigation event does: the new state and whether the event was
/// used.
pub open spec fn navigate(s: UiState, ctx: NavigationContext, e: Event) -> (UiState, bool) {
    match e {
        Event::Up => match s.focus {
            FocusArea::Clients => (UiState { clients: cyclic_prev(s.clients, ctx.client_len as nat), ..s }, true),
            FocusArea::Servers => (UiState { servers: cyclic_prev(s.servers, ctx.server_len as nat), ..s }, true),
            FocusArea::Activity => (UiState { activity: clamped_prev(s.activity), ..s }, true),
            FocusArea::QuickAccess => (UiState { quick: cyclic_prev(s.quick, s.quick_len as nat), ..s }, true),
            FocusArea::QueryInput => (s, false),
        },
        Event::Down => match s.focus {
            FocusArea::Clients => (UiState { clients: cyclic_next(s.clients, ctx.client_len as nat), ..s }, true),
            FocusArea::Servers => (UiState { servers: cyclic_next(s.servers, ctx.server_len as nat), ..s }, true),
            FocusArea::Activity => (UiState { activity: clamped_next(s.activity, ctx.activity_len as nat), ..s }, true),
            FocusArea::QuickAccess => (UiState { quick: cyclic_next(s.quick, s.quick_len as nat), ..s }, true),
            FocusArea::QueryInput => (s, false),
        },
        Event::Left => match left_of(s.focus) {
            Some(f) => (with_focus(s, f), true),
            None => (s, false),
        },
        Event::Right => match right_of(s.focus) {
            Some(f) => (with_focus(s, f), true),
            None => (s, false),
        },
        _ => (s, false),
    }
}

impl UiState {
    /// The initial state: focus on the clients list, the first row of every
    /// list selected, and the built-in quick actions.
    pub fn new() -> (r: Self)
        ensures
            r == (UiState {
                focus: FocusArea::Clients,
                clients: Some(0),
                servers: Some(0),
                activity: Some(0),
                quick: Some(0),
                quick_len: 3,
            }),
    {
        UiState {
            focus: FocusArea::Clients,
            clients: Some(0),
            servers: Some(0),
            activity: Some(0),
            quick: Some(0),
            quick_len: 3,
        }
    }

    /// Gives focus to `f`.
    pub fn set_focus(&mut self, f: FocusArea)
        ensures
            *final(self) == with_focus(*old(self), f),
    {
        self.focus = f;
        match f {
            FocusArea::QuickAccess => {
                if self.quick.is_none() {
                    self.quick = Some(0);
                }
            },
            FocusArea::Activity => {
                if self.activity.is_none() {
                    self.activity = Some(0);
                }
            },
            _ => {},
        }
    }

    /// Moves focus to the next area of the cycle.
    pub fn focus_next(&mut self)
        ensures
            *final(self) == with_focus(*old(self), focus_after(old(self).focus)),
    {
        let idx = focus_index(self.focus);
        let next = focus_from_index((idx + 1) % 5);
        self.set_focus(next);
    }

    /// Moves focus to the previous area of the cycle.
    pub fn focus_prev(&mut self)
        ensures
            *final(self) == with_focus(*old(self), focus_before(old(self).focus)),
    {
        let idx = focus_index(self.focus);
        let prev = if idx == 0 { FocusArea::QueryInput } else { focus_from_index(idx - 1) };
        self.set_focus(prev);
    }

    /// Handles a navigation event: Up and Down move the selection of the
    /// focused list, Left and Right move focus; tells whether the event was
    /// used.
    pub fn handle_navigation(&mut self, ctx: NavigationContext, event: Event) -> (used: bool)
        ensures
            (*final(self), used) == navigate(*old(self), ctx, event),
    {
        match event {
            Event::Up => {
                match self.focus {
                    FocusArea::Clients => self.clients = select_prev_cyclic(self.clients, ctx.client_len),
                    FocusArea::Servers => self.servers = select_prev_cyclic(self.servers, ctx.server_len),
                    FocusArea::Activity => {
                        let idx = match self.activity { Some(i) => i, None => 0 };
                        self.activity = Some(if idx == 0 { 0 } else { idx - 1 });
                    },
                    FocusArea::QuickAccess => self.quick = select_prev_cyclic(self.quick, self.quick_len),
                    FocusArea::QueryInput => return false,
                }
                true
            },
            Event::Down => {
                match self.focus {
                    FocusArea::Clients => self.clients = select_next_cyclic(self.clients, ctx.client_len),
                    FocusArea::Servers => self.servers = select_next_cyclic(self.servers, ctx.server_len),
                    FocusArea::Activity => {
                        if ctx.activity_len == 0 {
                            self.activity = None;
                        } else {
                            let idx = match self.activity { Some(i) => i, None => 0 };
                            self.activity = Some(if idx >= ctx.activity_len - 1 { ctx.activity_len - 1 } else { idx + 1 });
                        }
                    },
                    FocusArea::QuickAccess => self.quick = select_next_cyclic(self.quick, self.quick_len),
                    FocusArea::QueryInput => return false,
                }
                true
            },
            Event::Left => {
                let target = match self.focus {
                    FocusArea::Servers => Some(FocusArea::Clients),
                    FocusArea::Activity => Some(FocusArea::Clients),
                    FocusArea::QuickAccess => Some(FocusArea::Activity),
                    FocusArea::QueryInput => Some(FocusArea::QuickAccess),
                    FocusArea::Clients => None,
                };
                match target {
                    Some(f) => {
                        self.set_focus(f);
                        true
                    },
                    None => false,
                }
            },
            Event::Right => {
                let target = match self.focus {
                    FocusArea::Clients => Some(FocusArea::Servers),
                    FocusArea::Servers => Some(FocusArea::Activity),
                    FocusArea::Activity => Some(FocusArea::QuickAccess),
                    FocusArea::QuickAccess => Some(FocusArea::QueryInput),
                    FocusArea::QueryInput => None,
                };
                match target {
                    Some(f) => {
                        self.set_focus(f);
                        true
                    },
                    None => false,
                }
            },
            _ => false,
        }
    }

    /// The command of the selected quick action, if a row inside the list
    /// is selected.
    pub fn selected_command(&self, actions: &Vec<QuickAction>) -> (r: Option<String>)
        ensures
            match self.quick {
                Some(i) => if i < actions@.len() {
                    r matches Some(c) && c@ == actions@[i as int].command@
                } else {
                    r is None
                },
                None => r is None,
            },
    {
        match self.quick {
            Some(i) => {
                if i < actions.len() {
                    Some(actions[i].command.clone())
                } else {
                    None
                }
            },
            None => None,
        }
    }
}

/// Focus moves in a cycle: the next area's previous one is where focus
/// started, and five moves forward come back to it.
pub proof fn lemma_focus_cycle(f: FocusArea)
    ensures
        focus_before(focus_after(f)) == f,
        focus_after(focus_before(f)) == f,
        focus_after(focus_after(focus_after(focus_after(focus_after(f))))) == f,
{
}

/// An entry of the activity feed.
#[derive(Debug)]
pub struct ActivityItem {
    /// When it happened, in milliseconds since the Unix epoch
    pub timestamp_ms: i64,
    pub client: String,
    pub server: String,
    pub action: String,
    pub status: ActivityStatus,
}

/// The state of the terminal application: its widgets, the activity feed,
/// the query being typed and whether it still runs.
#[derive(Debug)]
pub struct App {
    pub ui: UiState,
    pub quick_actions: Vec<QuickAction>,
    pub activities: Vec<ActivityItem>,
    pub query_input: String,
    pub running: bool,
}

/// Whether an activity was made by the user for the system with the given
/// action, status and time.
pub open spec fn user_activity(a: ActivityItem, action: Seq<char>, status: ActivityStatus, now_ms: i64) -> bool {
    a.timestamp_ms == now_ms && a.client@ == "User"@ && a.server@ == "System"@ && a.action@ == action && a.status == status
}

impl ActivityItem {
    /// A copy of this entry.
    pub fn duplicate(&self) -> (r: ActivityItem)
        ensures
            r == *self,
    {
        ActivityItem {
            timestamp_ms: self.timestamp_ms,
            client: self.client.clone(),
            server: self.server.clone(),
            action: self.action.clone(),
            status: self.status,
        }
    }
}

/// An activity of the user for the system.
fn new_user_activity(action: String, status: ActivityStatus, now_ms: i64) -> (r: ActivityItem)
    ensures
        user_activity(r, action@, status, now_ms),
{
    ActivityItem { timestamp_ms: now_ms, client: owned("User"), server: owned("System"), action, status }
}

/// A text without its last character, if it has one.
fn drop_last_char(s: &String) -> (r: String)
    ensures
        r@ == if s@.len() > 0 { s@.drop_last() } else { s@ },
{
    let cs = chars_of(s.as_str());
    if cs.len() == 0 {
        return s.clone();
    }
    let last = cs.len() - 1;
    let mut v: Vec<char> = Vec::new();
    let mut i: usize = 0;
    while i < last
        invariant
            i <= last,
            last + 1 == cs@.len(),
            v@ == cs@.take(i as int),
        decreases cs@.len() - i,
    {
        v.push(cs[i]);
        proof {
            assert(cs@.take(i + 1) =~= cs@.take(i as int).push(cs@[i as int]));
        }
        i = i + 1;
    }
    proof {
        assert(v@ =~= s@.drop_last());
    }
    string_from_chars(&v)
}

impl App {
    /// A running application with the initial widget state, the built-in
    /// quick actions, no activity and an empty query.
    pub fn new() -> (r: Self)
        ensures
            r.ui == (UiState {
                focus: FocusArea::Clients,
                clients: Some(0),
                servers: Some(0),
                activity: Some(0),
                quick: Some(0),
                quick_len: 3,
            }),
            r.quick_actions@.len() == 3,
            r.activities@.len() == 0,
            r.query_input@.len() == 0,
            r.running,
    {
        App {
            ui: UiState::new(),
            quick_actions: default_actions(),
            activities: Vec::new(),
            query_input: String::new(),
            running: true,
        }
    }

    /// Handles an event at time `now_ms`, with `client_len` clients and
    /// `server_len` servers shown: navigation first; then Esc quits, typed
    /// characters and backspace edit the query when it has focus, Enter
    /// submits the query (recording it as processing) or runs the selected
    /// quick action (recording its command as done), and Tab moves focus.
    pub fn handle_event(&mut self, event: Event, client_len: usize, server_len: usize, now_ms: i64)
        ensures
            ({
                let ctx = NavigationContext { client_len, server_len, activity_len: old(self).activities@.len() as usize };
                let (nav, used) = navigate(old(self).ui, ctx, event);
                let focus = old(self).ui.focus;
                let q = old(self).query_input@;
                if used {
                    final(self).ui == nav && final(self).activities == old(self).activities
                        && final(self).query_input == old(self).query_input && final(self).running == old(self).running
                } else {
                    &&& final(self).quick_actions == old(self).quick_actions
                    &&& final(self).running == (old(self).running && event != Event::Quit)
                    &&& match event {
                        Event::Input(c) => final(self).ui == old(self).ui && final(self).activities == old(self).activities
                            && final(self).query_input@ == (if focus == FocusArea::QueryInput { q.push(c) } else { q }),
                        Event::Backspace => final(self).ui == old(self).ui && final(self).activities == old(self).activities
                            && final(self).query_input@ == (if focus == FocusArea::QueryInput && q.len() > 0 { q.drop_last() } else { q }),
                        Event::Enter => final(self).ui == old(self).ui && if focus == FocusArea::QueryInput && q.len() > 0 {
                            &&& final(self).query_input@.len() == 0
                            &&& final(self).activities@.len() == old(self).activities@.len() + 1
                            &&& final(self).activities@.drop_last() == old(self).activities@
                            &&& user_activity(final(self).activities@.last(), "Query: "@ + q, ActivityStatus::Processing, now_ms)
                        } else if focus == FocusArea::QuickAccess && (old(self).ui.quick matches Some(i) && i < old(self).quick_actions@.len()) {
                            &&& final(self).query_input == old(self).query_input
                            &&& final(self).activities@.len() == old(self).activities@.len() + 1
                            &&& final(self).activities@.drop_last() == old(self).activities@
                            &&& user_activity(final(self).activities@.last(),
                                old(self).quick_actions@[old(self).ui.quick->0 as int].command@, ActivityStatus::Success, now_ms)
                        } else {
                            final(self).activities == old(self).activities && final(self).query_input == old(self).query_input
                        },
                        Event::Tab => final(self).ui == with_focus(old(self).ui, focus_after(focus))
                            && final(self).activities == old(self).activities && final(self).query_input == old(self).query_input,
                        Event::FocusNext => final(self).ui == with_focus(old(self).ui, focus_after(focus))
                            && final(self).activities == old(self).activities && final(self).query_input == old(self).query_input,
                        Event::FocusPrev => final(self).ui == with_focus(old(self).ui, focus_before(focus))
                            && final(self).activities == old(self).activities && final(self).query_input == old(self).query_input,
                        _ => final(self).ui == old(self).ui && final(self).activities == old(self).activities
                            && final(self).query_input == old(self).query_input,
                    }
                }
            }),
    {
        let ctx = NavigationContext { client_len, server_len, activity_len: self.activities.len() };
        if self.ui.handle_navigation(ctx, event) {
            return;
        }
        match event {
            Event::Quit => {
                self.running = false;
            },
            Event::Input(c) => {
                if self.ui.focus == FocusArea::QueryInput {
                    push_char(&mut self.query_input, c);
                }
            },
            Event::Backspace => {
                if self.ui.focus == FocusArea::QueryInput {
                    self.query_input = drop_last_char(&self.query_input);
                }
            },
            Event::Enter => {
                if self.ui.focus == FocusArea::QueryInput {
                    if self.query_input.as_str().unicode_len() > 0 {
                        let mut action = owned("Query: ");
                        push_str(&mut action, self.query_input.as_str());
                        self.activities.push(new_user_activity(action, ActivityStatus::Processing, now_ms));
                        self.query_input = String::new();
                    }
                } else if self.ui.focus == FocusArea::QuickAccess {
                    match self.ui.selected_command(&self.quick_actions) {
                        Some(command) => {
                            self.activities.push(new_user_activity(command, ActivityStatus::Success, now_ms));
                        },
                        None => {},
                    }
                }
            },
            Event::Tab => self.ui.focus_next(),
            Event::FocusNext => self.ui.focus_next(),
            Event::FocusPrev => self.ui.focus_prev(),
            _ => {},
        }
    }

    /// Keeps the activity feed short: past 100 entries, the oldest 50 go.
    pub fn prune_activities(&mut self)
        ensures
            old(self).activities@.len() > 100 ==> final(self).activities@ == old(self).activities@.skip(50),
            old(self).activities@.len() <= 100 ==> final(self).activities == old(self).activities,
            final(self).ui == old(self).ui,
            final(self).query_input == old(self).query_input,
            final(self).running == old(self).running,
    {
        if self.activities.len() > 100 {
            let mut kept: Vec<ActivityItem> = Vec::new();
            let mut i: usize = 50;
            while i < self.activities.len()
                invariant
                    50 <= i <= self.activities@.len(),
                    kept@ == self.activities@.subrange(50, i as int),
                decreases self.activities@.len() - i,
            {
                kept.push(self.activities[i].duplicate());
                proof {
                    assert(self.activities@.subrange(50, i + 1) =~= self.activities@.subrange(50, i as int).push(self.activities@[i as int]));
                }
                i = i + 1;
            }
            proof {
                assert(kept@ =~= self.activities@.skip(50));
            }
            self.activities = kept;
        }
    }
}

} // verus!
