//! The screens of the terminal interface.
use vstd::prelude::*;
use vstd::string::*;

verus! {

/// The screen that the terminal interface shows.
#[derive(PartialEq, Eq, Structural, Clone, Copy, Debug)]
pub enum UIState {
    Running,
    MainMenu,
    StartUp,
    Results,
    TearDown,
}

/// The human-readable name of a screen.
pub open spec fn state_name(state: UIState) -> Seq<char> {
    match state {
        UIState::MainMenu => "Main Menu"@,
        UIState::Running => "Running"@,
        UIState::Results => "Results"@,
        UIState::TearDown => "Tear Down"@,
        UIState::StartUp => "Start Up"@,
    }
}

/// The human-readable name of a screen.
pub fn get_string_from_state(state: UIState) -> (r: String)
    ensures
        r@ == state_name(state),
{
    match state {
        UIState::MainMenu => String::from_str("Main Menu"),
        UIState::Running => String::from_str("Running"),
        UIState::Results => String::from_str("Results"),
        UIState::TearDown => String::from_str("Tear Down"),
        UIState::StartUp => String::from_str("Start Up"),
    }
}

/// Two different screens never have the same name.
pub proof fn lemma_state_names_distinct(a: UIState, b: UIState)
    requires
        a != b,
    ensures
        state_name(a) != state_name(b),
{
    reveal_strlit("Main Menu");
    reveal_strlit("Running");
    reveal_strlit("Results");
    reveal_strlit("Tear Down");
    reveal_strlit("Start Up");
    let x = state_name(a);
    let y = state_name(b);
    if x == y {
        assert(x.len() == y.len());
        assert(x[0] == y[0]);
        assert(x[1] == y[1]);
    }
}

} // verus!
