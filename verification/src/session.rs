//! The session state machine: when the overlay is open, where the focus is,
//! and what a frame's input selects.
//!
//! The machine is driven once per rendered frame. The code that draws the
//! frame and talks to the operating system is not part of it: it hands in
//! what it observed and carries out what comes back.

use vstd::prelude::*;
use vstd::string::StringExecFns;
use crate::results::{rows_of, ResultView, SearchMode, SearchResult};
use crate::search::{search_rows, CandidateView, OriginView, Search};
use crate::text::{holds_at, trim, trimmed};

verus! {

/// A message of the hotkey poller.
#[derive(Clone, Copy, Debug, PartialEq, Eq, Structural)]
pub enum HotkeyEvent {
    /// The configured key combination is down.
    Open,
}

/// A message of the scripting worker's start-up stream.
#[derive(Clone, Debug, PartialEq, Eq)]
pub enum LuaShortcutEvent {
    /// A script registered a shortcut under this name.
    Add(String),
    /// All scripts are loaded; no `Add` follows.
    Done,
}

/// A message between the session and the scripting worker.
#[derive(Clone, Debug, PartialEq, Eq)]
pub enum LuaEvent {
    /// To the worker: run the callback registered under this name.
    RunCallback(String),
    /// From the worker: close the overlay.
    Close,
}

/// The session's ends of its channels, as the messages in flight. Whoever
/// owns the real channels moves what has arrived into the two `rx` queues
/// before a frame and sends what the frame left in the `tx` queue after it.
/// The front of a queue is its oldest message.
#[derive(Clone, Debug, PartialEq, Eq)]
pub struct AppChannels {
    pub hotkeys_rx: Vec<HotkeyEvent>,
    pub lua_run_tx: Vec<LuaEvent>,
    pub lua_close_rx: Vec<LuaEvent>,
}

impl AppChannels {
    /// Channels with no message in flight.
    pub fn new() -> (channels: AppChannels)
        ensures
            channels.hotkeys_rx@.len() == 0,
            channels.lua_run_tx@.len() == 0,
            channels.lua_close_rx@.len() == 0,
    {
        AppChannels { hotkeys_rx: Vec::new(), lua_run_tx: Vec::new(), lua_close_rx: Vec::new() }
    }
}

/// The live state of an open overlay.
#[derive(Clone, Debug, PartialEq, Eq)]
pub struct Opened {
    /// The query text.
    pub input: String,
    /// The result that has the focus; `None` while the input field has it.
    pub focused: Option<usize>,
    /// Number of results of the current query.
    pub items: usize,
}

/// The mathematical value of an [`Opened`].
pub struct OpenedView {
    pub input: Seq<char>,
    pub focused: Option<usize>,
    pub items: usize,
}

impl View for Opened {
    type V = OpenedView;

    open spec fn view(&self) -> OpenedView {
        OpenedView { input: self.input@, focused: self.focused, items: self.items }
    }
}

/// The session of an overlay that has just been opened: no text, the focus
/// in the input field, no results.
pub open spec fn fresh_session() -> OpenedView {
    OpenedView { input: Seq::empty(), focused: None, items: 0 }
}

impl Default for Opened {
    fn default() -> (session: Opened)
        ensures
            session@ == fresh_session(),
    {
        Opened { input: String::new(), focused: None, items: 0 }
    }
}

/// Where the focus goes on Tab: from the input field to the first result,
/// from the last result back to the input field, else to the next result.
pub open spec fn next_focus(focused: Option<usize>, items: usize) -> Option<usize> {
    match focused {
        None => Some(0),
        Some(n) => if n + 1 == items {
            None
        } else {
            Some((n + 1) as usize)
        },
    }
}

/// The focus after Tab has been pressed `presses` times.
pub open spec fn focus_after(focused: Option<usize>, items: usize, presses: nat) -> Option<usize>
    decreases presses,
{
    if presses == 0 {
        focused
    } else {
        next_focus(focus_after(focused, items, (presses - 1) as nat), items)
    }
}

impl Opened {
    /// Moves the focus one step along the ring of input field and results.
    pub fn cycle_focus(&mut self)
        requires
            old(self).focused matches Some(n) ==> n < usize::MAX,
        ensures
            final(self).focused == next_focus(old(self).focused, old(self).items),
            final(self).input == old(self).input,
            final(self).items == old(self).items,
    {
        self.focused = match self.focused {
            Some(n) => {
                if n + 1 == self.items {
                    None
                } else {
                    Some(n + 1)
                }
            },
            None => Some(0),
        }
    }
}

/// The focus ring: with `items` results, at least one, Tab walks from the
/// input field through the results in order and back to the input field, so
/// `items + 1` presses return the focus to where it started.
pub proof fn lemma_focus_ring(items: usize, presses: nat)
    requires
        items >= 1,
        presses <= items + 1,
    ensures
        presses == 0 || presses == items + 1 ==> focus_after(None, items, presses) is None,
        0 < presses <= items ==> focus_after(None, items, presses) == Some(
            (presses - 1) as usize,
        ),
    decreases presses,
{
    if presses > 0 {
        lemma_focus_ring(items, (presses - 1) as nat);
    }
}

/// From the input field, Tab goes to the first result, whatever the number
/// of results.
pub proof fn lemma_focus_leaves_input(items: usize)
    ensures
        focus_after(None, items, 1) == Some(0usize),
{
    reveal_with_fuel(focus_after, 2);
}

/// The phase of the overlay.
#[derive(Clone, Debug, PartialEq, Eq)]
pub enum AppState {
    /// Before the first frame. The first frame leaves this phase, and
    /// nothing returns to it.
    First,
    /// The overlay is hidden.
    Unopened,
    /// The overlay is shown.
    Opened(Opened),
}

/// The mathematical value of an [`AppState`].
pub enum StateView {
    First,
    Unopened,
    Opened(OpenedView),
}

impl View for AppState {
    type V = StateView;

    open spec fn view(&self) -> StateView {
        match self {
            AppState::First => StateView::First,
            AppState::Unopened => StateView::Unopened,
            AppState::Opened(session) => StateView::Opened(session@),
        }
    }
}

/// The phase after a hotkey event: an open overlay stays as it is, a hidden
/// one opens with a fresh session.
pub open spec fn opened_by_hotkey(state: StateView) -> StateView {
    match state {
        StateView::Opened(session) => StateView::Opened(session),
        _ => StateView::Opened(fresh_session()),
    }
}

/// The phase after the pending hotkey events have been taken in.
pub open spec fn after_hotkeys(state: StateView, events: Seq<HotkeyEvent>) -> StateView {
    if events.len() == 0 {
        state
    } else {
        opened_by_hotkey(state)
    }
}

impl AppState {
    /// Whether the overlay's window is to be shown in this phase.
    pub fn is_visible(&self) -> (visible: bool)
        ensures
            visible == (self@ is Opened),
    {
        match self {
            AppState::Opened(_) => true,
            _ => false,
        }
    }
}

/// First step of a frame: takes in the hotkey events that have arrived. The
/// poller may report one key press many times; any number of events opens
/// the overlay once, and an open overlay keeps its session.
pub fn drain_hotkeys(state: AppState, channels: &mut AppChannels) -> (next: AppState)
    ensures
        next@ == after_hotkeys(state@, old(channels).hotkeys_rx@),
        final(channels).hotkeys_rx@.len() == 0,
        final(channels).lua_run_tx == old(channels).lua_run_tx,
        final(channels).lua_close_rx == old(channels).lua_close_rx,
{
    let pending = channels.hotkeys_rx.len();
    channels.hotkeys_rx.clear();
    if pending == 0 {
        state
    } else {
        match state {
            AppState::Opened(session) => AppState::Opened(session),
            _ => AppState::Opened(Opened::default()),
        }
    }
}

/// Taking in hotkey events twice is taking them in once.
pub proof fn lemma_hotkeys_idempotent(state: StateView, events: Seq<HotkeyEvent>)
    ensures
        after_hotkeys(after_hotkeys(state, events), events) == after_hotkeys(state, events),
{
}

/// The session at the start of a frame: the result count is that of the
/// current query, and Tab has moved the focus. At the largest index a
/// machine can hold the focus stays.
pub open spec fn refreshed(session: OpenedView, result_count: usize, tab_pressed: bool)
    -> OpenedView {
    OpenedView {
        input: session.input,
        focused: if tab_pressed && session.focused != Some(usize::MAX) {
            next_focus(session.focused, result_count)
        } else {
            session.focused
        },
        items: result_count,
    }
}

/// The phase at the start of a frame, before anything is drawn.
pub open spec fn state_at_frame_start(
    state: StateView,
    result_count: usize,
    tab_pressed: bool,
    escape_released: bool,
) -> StateView {
    match state {
        StateView::First => StateView::Unopened,
        StateView::Unopened => StateView::Unopened,
        StateView::Opened(session) => if escape_released {
            StateView::Unopened
        } else {
            StateView::Opened(refreshed(session, result_count, tab_pressed))
        },
    }
}

/// An open overlay at the start of a frame: the phase, and the results of
/// the session's query, which are to be drawn.
#[derive(Clone, Debug, PartialEq, Eq)]
pub struct FrameStart {
    pub state: AppState,
    pub results: Vec<SearchResult>,
}

/// The query text of an open overlay; the empty text otherwise.
pub open spec fn query_of(state: StateView) -> Seq<char> {
    match state {
        StateView::Opened(session) => session.input,
        _ => Seq::empty(),
    }
}

/// Second step of a frame for an open overlay: searches for the session's
/// text, takes the number of results as the session's count, moves the
/// focus if Tab was pressed, and closes the overlay if the cancel key was
/// released. The search is made anew in every frame.
pub fn process_opened(
    search: &Search,
    opened: &Opened,
    tab_pressed: bool,
    escape_released: bool,
) -> (start: FrameStart)
    ensures
        search.lists(opened.input@, rows_of(start.results@)),
        start.state@ == state_at_frame_start(
            StateView::Opened(opened@),
            start.results@.len() as usize,
            tab_pressed,
            escape_released,
        ),
{
    let results = search.search(opened.input.as_str());
    if escape_released {
        return FrameStart { state: AppState::Unopened, results };
    }
    let mut session = Opened {
        input: opened.input.clone(),
        focused: opened.focused,
        items: results.len(),
    };
    let at_limit = match session.focused {
        Some(n) => n == usize::MAX,
        None => false,
    };
    if tab_pressed && !at_limit {
        session.cycle_focus();
    }
    FrameStart { state: AppState::Opened(session), results }
}

/// Second step of a frame: the phase before anything is drawn. A hidden
/// overlay stays hidden and has no results; the phase before the first frame
/// resolves to hidden.
pub fn get_new_state(search: &Search, state: &AppState, tab_pressed: bool, escape_released: bool) -> (start:
    FrameStart)
    ensures
        search.lists(query_of(state@), rows_of(start.results@)),
        start.state@ == state_at_frame_start(
            state@,
            start.results@.len() as usize,
            tab_pressed,
            escape_released,
        ),
        !(state@ is Opened) ==> start.results@.len() == 0,
{
    match state {
        AppState::Opened(opened) => process_opened(search, opened, tab_pressed, escape_released),
        _ => {
            let results: Vec<SearchResult> = Vec::new();
            assert(rows_of(results@) =~= search_rows(
                search.aliases(),
                search.candidates(),
                Seq::empty(),
                None,
            ));
            FrameStart { state: AppState::Unopened, results }
        },
    }
}

/// The first two steps of a frame, in their order: the pending hotkey events
/// are taken in, then the phase is resolved.
pub fn begin_frame(
    search: &Search,
    state: AppState,
    channels: &mut AppChannels,
    tab_pressed: bool,
    escape_released: bool,
) -> (start: FrameStart)
    ensures
        search.lists(
            query_of(after_hotkeys(state@, old(channels).hotkeys_rx@)),
            rows_of(start.results@),
        ),
        start.state@ == state_at_frame_start(
            after_hotkeys(state@, old(channels).hotkeys_rx@),
            start.results@.len() as usize,
            tab_pressed,
            escape_released,
        ),
        final(channels).hotkeys_rx@.len() == 0,
        final(channels).lua_run_tx == old(channels).lua_run_tx,
        final(channels).lua_close_rx == old(channels).lua_close_rx,
{
    let state = drain_hotkeys(state, channels);
    get_new_state(search, &state, tab_pressed, escape_released)
}

/// What the drawing code observed while it drew one frame of an open
/// overlay.
#[derive(Clone, Debug, PartialEq, Eq)]
pub struct Drawn {
    /// The query text as the input field left it.
    pub text: String,
    /// Enter was pressed.
    pub enter_pressed: bool,
    /// The input field gave up the keyboard focus in this frame, as it does
    /// when Enter is pressed in it.
    pub input_lost_focus: bool,
    /// The row that was clicked, if one was.
    pub clicked: Option<usize>,
}

/// What a frame decided: the phase to adopt, and the results to dispatch.
/// The results are dispatched in order; once a dispatch asks to close, the
/// overlay closes and the rest are dropped.
#[derive(Clone, Debug, PartialEq, Eq)]
pub struct Verdict {
    pub state: AppState,
    pub selections: Vec<usize>,
}

/// The result that Enter selects: the first one where Enter was pressed in
/// the input field, else the focused one. On an empty list Enter selects
/// nothing, nor does it where the focus is on no row of the list.
pub open spec fn enter_selection(session: OpenedView, input_lost_focus: bool) -> Option<usize> {
    if session.items == 0 {
        None
    } else if input_lost_focus {
        Some(0)
    } else {
        match session.focused {
            Some(n) => if n < session.items {
                Some(n)
            } else {
                None
            },
            None => None,
        }
    }
}

/// The result that a click selects: the clicked row, whatever has the focus.
pub open spec fn click_selection(session: OpenedView, clicked: Option<usize>) -> Option<usize> {
    match clicked {
        Some(n) => if n < session.items {
            Some(n)
        } else {
            None
        },
        None => None,
    }
}

/// A sequence of the one value, or of none.
pub open spec fn one_or_none(choice: Option<usize>) -> Seq<usize> {
    match choice {
        Some(n) => seq![n],
        None => Seq::empty(),
    }
}

/// The results that a frame's input selects, in the order of dispatch: what
/// Enter selects, then what a click selects.
pub open spec fn selections_of(
    session: OpenedView,
    enter_pressed: bool,
    input_lost_focus: bool,
    clicked: Option<usize>,
) -> Seq<usize> {
    one_or_none(
        if enter_pressed {
            enter_selection(session, input_lost_focus)
        } else {
            None
        },
    ) + one_or_none(click_selection(session, clicked))
}

/// The result that Enter selects in `session`.
pub fn select_on_enter(session: &Opened, input_lost_focus: bool) -> (choice: Option<usize>)
    ensures
        choice == enter_selection(session@, input_lost_focus),
{
    if session.items == 0 {
        None
    } else if input_lost_focus {
        Some(0)
    } else {
        match session.focused {
            Some(n) => if n < session.items {
                Some(n)
            } else {
                None
            },
            None => None,
        }
    }
}

/// Third step of a frame, after it was drawn. A close signal of the
/// scripting worker closes the overlay and nothing is dispatched; one signal
/// is consumed. Else the session takes the text of the input field and stays
/// open, and what Enter and the mouse selected is to be dispatched.
pub fn settle_frame(opened: Opened, drawn: Drawn, channels: &mut AppChannels) -> (verdict: Verdict)
    ensures
        final(channels).hotkeys_rx == old(channels).hotkeys_rx,
        final(channels).lua_run_tx == old(channels).lua_run_tx,
        old(channels).lua_close_rx@.len() > 0 ==> verdict.state@ is Unopened,
        old(channels).lua_close_rx@.len() > 0 ==> verdict.selections@.len() == 0,
        old(channels).lua_close_rx@.len() > 0 ==> final(channels).lua_close_rx@ == old(
            channels,
        ).lua_close_rx@.skip(1),
        old(channels).lua_close_rx@.len() == 0 ==> verdict.state@ == StateView::Opened(
            OpenedView { input: drawn.text@, focused: opened.focused, items: opened.items },
        ),
        old(channels).lua_close_rx@.len() == 0 ==> verdict.selections@ == selections_of(
            opened@,
            drawn.enter_pressed,
            drawn.input_lost_focus,
            drawn.clicked,
        ),
        old(channels).lua_close_rx@.len() == 0 ==> final(channels).lua_close_rx == old(
            channels,
        ).lua_close_rx,
        forall|k: int|
            0 <= k < verdict.selections@.len() ==> (#[trigger] verdict.selections@[k])
                < opened.items,
{
    if channels.lua_close_rx.len() > 0 {
        channels.lua_close_rx.remove(0);
        return Verdict { state: AppState::Unopened, selections: Vec::new() };
    }
    let mut selections: Vec<usize> = Vec::new();
    if drawn.enter_pressed {
        if let Some(n) = select_on_enter(&opened, drawn.input_lost_focus) {
            selections.push(n);
        }
    }
    if let Some(n) = drawn.clicked {
        if n < opened.items {
            selections.push(n);
        }
    }
    let session = Opened { input: drawn.text, focused: opened.focused, items: opened.items };
    Verdict { state: AppState::Opened(session), selections }
}

/// The row shown in place of an empty list for the query `anything`.
pub open spec fn hint_row() -> ResultView {
    ResultView { mode: SearchMode::Search, text: "...uh, not like that"@, action: None }
}

/// The rows to draw under the input field: the hint where the trimmed text
/// is the word `anything` and nothing was found; nothing while the field is
/// empty; the results otherwise.
pub open spec fn shown_rows(text: Seq<char>, results: Seq<ResultView>) -> Seq<ResultView> {
    if trimmed(text) == "anything"@ && results.len() == 0 {
        seq![hint_row()]
    } else if text.len() == 0 {
        Seq::empty()
    } else {
        results
    }
}

/// The rows to draw for the text of the input field and the results of the
/// search. The hint row has no action: selecting it does nothing. An empty
/// field never shows the hint, its trimmed text being empty too.
pub fn rows_to_show(text: &str, results: Vec<SearchResult>) -> (rows: Vec<SearchResult>)
    ensures
        rows_of(rows@) == shown_rows(text@, rows_of(results@)),
        text@.len() == 0 ==> rows@.len() == 0,
{
    let stripped = trim(text);
    proof {
        reveal_strlit("anything");
        if text@.len() == 0 {
            let at = choose|at: int| holds_at(text@, stripped@, at);
            assert(stripped@.len() == 0);
        }
    }
    if results.len() == 0 && stripped.to_owned() == String::from_str("anything") {
        let hint = SearchResult {
            mode: SearchMode::Search,
            text: String::from_str("...uh, not like that"),
            action: None,
        };
        vec![hint]
    } else if text.is_empty() {
        Vec::new()
    } else {
        results
    }
}

/// The mathematical value of a [`LuaShortcutEvent`].
pub enum ShortcutEventView {
    Add(Seq<char>),
    Done,
}

impl View for LuaShortcutEvent {
    type V = ShortcutEventView;

    open spec fn view(&self) -> ShortcutEventView {
        match self {
            LuaShortcutEvent::Add(name) => ShortcutEventView::Add(name@),
            LuaShortcutEvent::Done => ShortcutEventView::Done,
        }
    }
}

/// The mathematical value of a [`LuaEvent`].
pub enum LuaEventView {
    RunCallback(Seq<char>),
    Close,
}

impl View for LuaEvent {
    type V = LuaEventView;

    open spec fn view(&self) -> LuaEventView {
        match self {
            LuaEvent::RunCallback(name) => LuaEventView::RunCallback(name@),
            LuaEvent::Close => LuaEventView::Close,
        }
    }
}

/// The values of a queue of messages, one by one.
pub open spec fn messages_of(queue: Seq<LuaEvent>) -> Seq<LuaEventView> {
    queue.map_values(|m: LuaEvent| m@)
}

/// One step of the start-up handshake with the scripting worker: registers
/// the shortcut of an `Add`, and reports whether the stream has ended.
pub fn register_shortcut(search: &mut Search, event: LuaShortcutEvent) -> (done: bool)
    ensures
        final(search).aliases() == old(search).aliases(),
        done == (event@ is Done),
        event@ matches ShortcutEventView::Add(name) ==> final(search).candidates() == old(
            search,
        ).candidates().push(CandidateView { name, origin: OriginView::Callback { name } }),
        event@ is Done ==> final(search).candidates() == old(search).candidates(),
{
    match event {
        LuaShortcutEvent::Add(name) => {
            search.register_callback_shortcut(name);
            false
        },
        LuaShortcutEvent::Done => true,
    }
}

/// The scripting worker's answer after a callback has run: a close signal
/// where the callback asked to close, else no message.
pub fn close_signal(should_close: bool) -> (reply: Option<LuaEvent>)
    ensures
        should_close ==> reply == Some(LuaEvent::Close),
        !should_close ==> reply is None,
{
    if should_close {
        Some(LuaEvent::Close)
    } else {
        None
    }
}

} // verus!
