//! The state machine of the terminal interface: which screen is shown, what
//! a key press does, and what each step of the interface loop draws.
use vstd::prelude::*;
use vstd::string::*;
use crate::interface::state::{UIState, get_string_from_state, state_name};
use crate::models::comparison_data::{ComparisonData, ComparisonDataView};

verus! {

/// The state of the terminal interface: the screen shown, the screen shown
/// before it, and the result of the last comparison, if any.
pub struct TuiState {
    current_state: UIState,
    previous_state: UIState,
    comparison_data: Option<ComparisonData>,
}

/// Model of [`TuiState`].
pub struct TuiStateView {
    pub current: UIState,
    pub previous: UIState,
    pub data: Option<ComparisonDataView>,
}

impl View for TuiState {
    type V = TuiStateView;

    closed spec fn view(&self) -> TuiStateView {
        TuiStateView {
            current: self.current_state,
            previous: self.previous_state,
            data: match self.comparison_data {
                Some(d) => Some(d@),
                None => None,
            },
        }
    }
}

/// The debug message logged when the screen changes from `from` to `to`.
pub open spec fn transition_message(to: UIState, from: UIState) -> Seq<char> {
    "Setting state to: \""@ + state_name(to) + "\" from: \""@ + state_name(from) + "\""@
}

impl TuiState {
    /// The state at start-up: no comparison yet.
    pub fn new() -> (s: Self)
        ensures
            s@ == (TuiStateView { current: UIState::StartUp, previous: UIState::StartUp, data: None }),
    {
        Self { current_state: UIState::StartUp, previous_state: UIState::StartUp, comparison_data: None }
    }

    /// Shows `new_state`; the screen shown until now becomes the previous
    /// one. Returns the debug message to log.
    pub fn set_state(&mut self, new_state: UIState) -> (message: String)
        ensures
            final(self)@.current == new_state,
            final(self)@.previous == old(self)@.current,
            final(self)@.data == old(self)@.data,
            message@ == transition_message(new_state, old(self)@.current),
    {
        let mut message = String::from_str("Setting state to: \"");
        let to = get_string_from_state(new_state);
        message.append(to.as_str());
        message.append("\" from: \"");
        let from = get_string_from_state(self.current_state);
        message.append(from.as_str());
        message.append("\"");
        self.previous_state = self.current_state;
        self.current_state = new_state;
        message
    }

    /// The screen shown.
    pub fn get_state(&self) -> (s: UIState)
        ensures
            s == self@.current,
    {
        self.current_state
    }

    /// The screen shown before the current one.
    pub fn get_prev_state(&self) -> (s: UIState)
        ensures
            s == self@.previous,
    {
        self.previous_state
    }

    /// Keeps the result of a comparison.
    pub fn set_comparison_data(&mut self, data: ComparisonData)
        ensures
            final(self)@.current == old(self)@.current,
            final(self)@.previous == old(self)@.previous,
            final(self)@.data == Some(data@),
    {
        self.comparison_data = Some(data);
    }

    /// The result of the last comparison, if there was one.
    pub fn get_comparison_data(&self) -> (d: Option<&ComparisonData>)
        ensures
            match (d, self@.data) {
                (Some(x), Some(y)) => x@ == y,
                (None, None) => true,
                _ => false,
            },
    {
        match &self.comparison_data {
            Some(d) => Some(d),
            None => None,
        }
    }

    /// Whether the screen changed with the last `set_state`.
    pub fn has_state_changed(&self) -> (r: bool)
        ensures
            r == (self@.current != self@.previous),
    {
        self.current_state != self.previous_state
    }
}

/// What one step of the interface loop draws.
pub enum TuiAction {
    /// Start-up: the main menu is now shown (the transition message is
    /// logged) and drawn.
    StartUp { transition: String },
    /// The screen did not change: nothing is drawn.
    Unchanged,
    /// The terminal is cleared and the main menu drawn.
    DrawMainMenu,
    /// The terminal is cleared, the running screen drawn and the comparison
    /// run; its result is kept, the results screen shown and drawn.
    RunComparison,
    /// The terminal is cleared and the results drawn.
    DrawResults,
    /// The terminal is cleared for leaving.
    TearDown,
}

/// Which action a step takes for the state before it.
pub open spec fn action_matches(a: &TuiAction, s: TuiStateView) -> bool {
    if s.current == UIState::StartUp {
        a is StartUp
    } else if s.current == s.previous {
        a is Unchanged
    } else {
        match s.current {
            UIState::StartUp | UIState::MainMenu => a is DrawMainMenu,
            UIState::Running => a is RunComparison,
            UIState::Results => a is DrawResults,
            UIState::TearDown => a is TearDown,
        }
    }
}

/// Decides one step of the interface loop. At start-up the main menu is
/// shown; afterwards the screen is drawn again only when it changed.
pub fn draw_and_handle_state(state: &mut TuiState) -> (action: TuiAction)
    ensures
        action_matches(&action, old(state)@),
        old(state)@.current == UIState::StartUp ==> {
            &&& final(state)@.current == UIState::MainMenu
            &&& final(state)@.previous == UIState::StartUp
            &&& final(state)@.data == old(state)@.data
            &&& action matches TuiAction::StartUp { transition } && transition@ == transition_message(
                UIState::MainMenu,
                UIState::StartUp,
            )
        },
        old(state)@.current != UIState::StartUp ==> final(state)@ == old(state)@,
{
    if state.get_state() == UIState::StartUp {
        let transition = state.set_state(UIState::MainMenu);
        return TuiAction::StartUp { transition };
    }
    if !state.has_state_changed() {
        return TuiAction::Unchanged;
    }
    match state.get_state() {
        UIState::StartUp | UIState::MainMenu => TuiAction::DrawMainMenu,
        UIState::Running => TuiAction::RunComparison,
        UIState::Results => TuiAction::DrawResults,
        UIState::TearDown => TuiAction::TearDown,
    }
}

/// A key press, as the interface sees it.
#[derive(PartialEq, Eq, Structural, Clone, Copy, Debug)]
pub enum Key {
    /// A character key.
    Char(char),
    /// Any other key.
    Other,
}

/// The menu in which a key was not recognized, which decides the warning
/// that is logged.
#[derive(PartialEq, Eq, Structural, Clone, Copy, Debug)]
pub enum KeyMenu {
    MainMenu,
    Runtime,
    Results,
    Other,
}

/// What a key press did.
pub enum KeyOutcome {
    /// The screen changed; the debug message to log.
    Changed(String),
    /// The key means nothing in this menu.
    Unrecognized(KeyMenu),
}

/// The screen a key leads to in a menu, if any: in the main menu `s` starts
/// the comparison and `q` quits; on the running screen `q` quits; in the
/// results `q` quits and `m` goes back to the main menu.
pub open spec fn menu_key_target(menu: KeyMenu, key: Key) -> Option<UIState> {
    match menu {
        KeyMenu::MainMenu => if key == Key::Char('s') {
            Some(UIState::Running)
        } else if key == Key::Char('q') {
            Some(UIState::TearDown)
        } else {
            None
        },
        KeyMenu::Runtime => if key == Key::Char('q') { Some(UIState::TearDown) } else { None },
        KeyMenu::Results => if key == Key::Char('q') {
            Some(UIState::TearDown)
        } else if key == Key::Char('m') {
            Some(UIState::MainMenu)
        } else {
            None
        },
        KeyMenu::Other => None,
    }
}

/// The menu whose keys apply on a screen.
pub open spec fn key_menu(current: UIState) -> KeyMenu {
    match current {
        UIState::MainMenu => KeyMenu::MainMenu,
        UIState::Running => KeyMenu::Runtime,
        UIState::Results => KeyMenu::Results,
        _ => KeyMenu::Other,
    }
}

/// The screen a key leads to from a screen, if any.
pub open spec fn key_target(current: UIState, key: Key) -> Option<UIState> {
    menu_key_target(key_menu(current), key)
}

/// What a key press read by the handler of `menu` does to the state, on
/// whichever screen: a key of the menu moves to its screen and remembers the
/// screen left; any other key changes nothing and is reported by that menu.
pub open spec fn menu_key_press_spec(
    menu: KeyMenu,
    old: TuiStateView,
    new: TuiStateView,
    key: Key,
    outcome: &KeyOutcome,
) -> bool {
    match menu_key_target(menu, key) {
        Some(target) => {
            &&& new.current == target
            &&& new.previous == old.current
            &&& new.data == old.data
            &&& outcome matches KeyOutcome::Changed(m) && m@ == transition_message(target, old.current)
        },
        None => {
            &&& new == old
            &&& outcome matches KeyOutcome::Unrecognized(m) && m == menu
        },
    }
}

/// What a key press does to the state: the keys of the menu of the screen
/// shown apply.
pub open spec fn key_press_spec(old: TuiStateView, new: TuiStateView, key: Key, outcome: &KeyOutcome) -> bool {
    menu_key_press_spec(key_menu(old.current), old, new, key, outcome)
}

/// Keys of the main menu: `s` starts the comparison, `q` quits.
pub fn handle_main_menu_keys(key: Key, state: &mut TuiState) -> (outcome: KeyOutcome)
    ensures
        menu_key_press_spec(KeyMenu::MainMenu, old(state)@, final(state)@, key, &outcome),
{
    match key {
        Key::Char('s') => KeyOutcome::Changed(state.set_state(UIState::Running)),
        Key::Char('q') => KeyOutcome::Changed(state.set_state(UIState::TearDown)),
        _ => KeyOutcome::Unrecognized(KeyMenu::MainMenu),
    }
}

/// Keys of the running screen: `q` quits.
pub fn runtime_key_events(key: Key, state: &mut TuiState) -> (outcome: KeyOutcome)
    ensures
        menu_key_press_spec(KeyMenu::Runtime, old(state)@, final(state)@, key, &outcome),
{
    match key {
        Key::Char('q') => KeyOutcome::Changed(state.set_state(UIState::TearDown)),
        _ => KeyOutcome::Unrecognized(KeyMenu::Runtime),
    }
}

/// Keys of the results screen: `q` quits, `m` goes back to the main menu.
pub fn result_key_events(key: Key, state: &mut TuiState) -> (outcome: KeyOutcome)
    ensures
        menu_key_press_spec(KeyMenu::Results, old(state)@, final(state)@, key, &outcome),
{
    match key {
        Key::Char('q') => KeyOutcome::Changed(state.set_state(UIState::TearDown)),
        Key::Char('m') => KeyOutcome::Changed(state.set_state(UIState::MainMenu)),
        _ => KeyOutcome::Unrecognized(KeyMenu::Results),
    }
}

/// A key press on whichever screen is shown.
pub fn handle_key_press(key: Key, state: &mut TuiState) -> (outcome: KeyOutcome)
    ensures
        key_press_spec(old(state)@, final(state)@, key, &outcome),
{
    match state.get_state() {
        UIState::MainMenu => handle_main_menu_keys(key, state),
        UIState::Running => runtime_key_events(key, state),
        UIState::Results => result_key_events(key, state),
        _ => KeyOutcome::Unrecognized(KeyMenu::Other),
    }
}

/// The results of a comparison are shown after it ran: the state that
/// `RunComparison` leaves behind.
pub fn finish_comparison(state: &mut TuiState, data: ComparisonData) -> (message: String)
    ensures
        final(state)@.current == UIState::Results,
        final(state)@.previous == old(state)@.current,
        final(state)@.data == Some(data@),
        message@ == transition_message(UIState::Results, old(state)@.current),
{
    state.set_comparison_data(data);
    state.set_state(UIState::Results)
}

} // verus!

verus! {

/// `q` leaves the interface from the main menu, the running screen and the
/// results alike.
pub proof fn lemma_q_quits_every_menu(current: UIState)
    requires
        current == UIState::MainMenu || current == UIState::Running || current == UIState::Results,
    ensures
        key_target(current, Key::Char('q')) == Some(UIState::TearDown),
{
}

/// After `set_state(s)`, the screen counts as changed exactly when `s`
/// differs from the screen shown before.
pub proof fn lemma_set_state_marks_change(before: TuiStateView, after: TuiStateView, s: UIState)
    requires
        after.current == s,
        after.previous == before.current,
    ensures
        (after.current != after.previous) == (s != before.current),
{
}

/// The start-up step shows the main menu, and the step after it draws the
/// main menu.
pub proof fn lemma_startup_then_main_menu(before: TuiStateView, after: TuiStateView, next: &TuiAction)
    requires
        before.current == UIState::StartUp,
        after.current == UIState::MainMenu,
        after.previous == UIState::StartUp,
        action_matches(next, after),
    ensures
        next is DrawMainMenu,
{
}

/// A key press never touches the kept comparison, and a key that leads
/// nowhere leaves the state as it is.
pub proof fn lemma_keys_keep_comparison(before: TuiStateView, after: TuiStateView, key: Key, outcome: &KeyOutcome)
    requires
        key_press_spec(before, after, key, outcome),
    ensures
        after.data == before.data,
        outcome is Unrecognized ==> after == before,
{
}

/// The comparison is run only from the running screen, and only when that
/// screen is new.
pub proof fn lemma_comparison_runs_once_per_visit(s: TuiStateView, a: &TuiAction)
    requires
        action_matches(a, s),
        a is RunComparison,
    ensures
        s.current == UIState::Running,
        s.previous != UIState::Running,
{
}

} // verus!

verus! {

/// The keys of each menu, on whichever screen: in the main menu `s` starts
/// the comparison and `q` quits; on the running screen `q` quits; in the
/// results `q` quits and `m` goes back to the main menu. A key that moves
/// remembers the screen left and keeps the comparison; any other key leaves
/// everything as it is and is reported by its menu.
pub proof fn lemma_menu_keys(menu: KeyMenu, before: TuiStateView, after: TuiStateView, key: Key, outcome: &KeyOutcome)
    requires
        menu != KeyMenu::Other,
        menu_key_press_spec(menu, before, after, key, outcome),
    ensures
        menu == KeyMenu::MainMenu && key == Key::Char('s') ==> after.current == UIState::Running,
        menu == KeyMenu::Results && key == Key::Char('m') ==> after.current == UIState::MainMenu,
        key == Key::Char('q') ==> after.current == UIState::TearDown,
        ({
            let moves = key == Key::Char('q') || (menu == KeyMenu::MainMenu && key == Key::Char('s')) || (menu
                == KeyMenu::Results && key == Key::Char('m'));
            &&& moves ==> after.previous == before.current && after.data == before.data && outcome is Changed
            &&& !moves ==> after == before && outcome == KeyOutcome::Unrecognized(menu)
        }),
{
}

/// What a step of the interface loop draws, after start-up: nothing while
/// the screen is unchanged; otherwise the main menu, the running screen
/// with its comparison, the results, or the teardown, by the screen shown.
pub proof fn lemma_draw_follows_screen(s: TuiStateView, a: &TuiAction)
    requires
        s.current != UIState::StartUp,
        action_matches(a, s),
    ensures
        s.current == s.previous ==> a is Unchanged,
        s.current != s.previous && s.current == UIState::MainMenu ==> a is DrawMainMenu,
        s.current != s.previous && s.current == UIState::Running ==> a is RunComparison,
        s.current != s.previous && s.current == UIState::Results ==> a is DrawResults,
        s.current != s.previous && s.current == UIState::TearDown ==> a is TearDown,
{
}

} // verus!
