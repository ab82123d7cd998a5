use data_comparison_tool::interface::state::{get_string_from_state, UIState};
use data_comparison_tool::interface::tui::{
    draw_and_handle_state, finish_comparison, handle_key_press, handle_main_menu_keys, result_key_events,
    runtime_key_events, Key, KeyMenu, KeyOutcome, TuiAction, TuiState,
};
use data_comparison_tool::models::comparison_data::ComparisonData;
use data_comparison_tool::ui;

#[test]
fn state_names() {
    assert_eq!(get_string_from_state(UIState::MainMenu), "Main Menu");
    assert_eq!(get_string_from_state(UIState::Running), "Running");
    assert_eq!(get_string_from_state(UIState::Results), "Results");
    assert_eq!(get_string_from_state(UIState::TearDown), "Tear Down");
    assert_eq!(get_string_from_state(UIState::StartUp), "Start Up");
}

#[test]
fn interface_walkthrough() {
    let mut state = TuiState::new();
    assert_eq!(state.get_state(), UIState::StartUp);
    assert!(!state.has_state_changed());
    match draw_and_handle_state(&mut state) {
        TuiAction::StartUp { transition } => {
            assert_eq!(transition, "Setting state to: \"Main Menu\" from: \"Start Up\"")
        },
        _ => panic!("start-up comes first"),
    }
    assert!(matches!(draw_and_handle_state(&mut state), TuiAction::DrawMainMenu));
    match handle_key_press(Key::Char('s'), &mut state) {
        KeyOutcome::Changed(m) => assert_eq!(m, "Setting state to: \"Running\" from: \"Main Menu\""),
        _ => panic!("s starts the comparison"),
    }
    assert!(matches!(draw_and_handle_state(&mut state), TuiAction::RunComparison));
    let msg = finish_comparison(&mut state, ComparisonData::empty_data());
    assert_eq!(msg, "Setting state to: \"Results\" from: \"Running\"");
    assert!(state.get_comparison_data().is_some());
    assert!(matches!(draw_and_handle_state(&mut state), TuiAction::DrawResults));
    assert!(matches!(handle_key_press(Key::Char('x'), &mut state), KeyOutcome::Unrecognized(KeyMenu::Results)));
    assert!(state.get_comparison_data().is_some());
    assert_eq!(state.get_state(), UIState::Results);
    assert!(matches!(handle_key_press(Key::Char('m'), &mut state), KeyOutcome::Changed(_)));
    assert_eq!(state.get_state(), UIState::MainMenu);
    assert_eq!(state.get_prev_state(), UIState::Results);
    assert!(matches!(handle_key_press(Key::Char('q'), &mut state), KeyOutcome::Changed(_)));
    assert!(matches!(draw_and_handle_state(&mut state), TuiAction::TearDown));
    assert!(matches!(handle_key_press(Key::Other, &mut state), KeyOutcome::Unrecognized(KeyMenu::Other)));
}

#[test]
fn unchanged_screen_is_not_redrawn() {
    let mut state = TuiState::new();
    let _ = state.set_state(UIState::Results);
    let _ = state.set_state(UIState::Results);
    assert!(!state.has_state_changed());
    assert!(matches!(draw_and_handle_state(&mut state), TuiAction::Unchanged));
}

#[test]
fn q_quits_running_screen() {
    let mut state = TuiState::new();
    let _ = state.set_state(UIState::Running);
    assert!(matches!(handle_key_press(Key::Char('s'), &mut state), KeyOutcome::Unrecognized(KeyMenu::Runtime)));
    assert!(matches!(handle_key_press(Key::Char('q'), &mut state), KeyOutcome::Changed(_)));
    assert_eq!(state.get_state(), UIState::TearDown);
}

#[test]
fn ui_store_keeps_previous_state() {
    let mut store = ui::UiStore::new();
    ui::set_state(&mut store, ui::UIState::MainMenu);
    ui::set_state(&mut store, ui::UIState::Running);
    assert_eq!(ui::get_state(&store), ui::UIState::Running);
    assert_eq!(ui::get_prev_state(&store), ui::UIState::MainMenu);
    assert!(ui::get_comparison_data(&store).is_none());
    ui::set_comparison_data(&mut store, ComparisonData::new());
    assert!(ui::get_comparison_data(&store).is_some());
}

#[test]
fn menu_handlers_read_their_keys_on_any_screen() {
    // each handler applies its own menu's keys, whatever screen is shown
    let mut state = TuiState::new();
    match result_key_events(Key::Char('m'), &mut state) {
        KeyOutcome::Changed(m) => assert_eq!(m, "Setting state to: \"Main Menu\" from: \"Start Up\""),
        _ => panic!("m goes back to the main menu"),
    }
    assert_eq!(state.get_state(), UIState::MainMenu);
    assert_eq!(state.get_prev_state(), UIState::StartUp);
    assert!(matches!(handle_main_menu_keys(Key::Char('m'), &mut state), KeyOutcome::Unrecognized(KeyMenu::MainMenu)));
    assert_eq!(state.get_state(), UIState::MainMenu);
    assert!(matches!(runtime_key_events(Key::Char('s'), &mut state), KeyOutcome::Unrecognized(KeyMenu::Runtime)));
    assert!(matches!(handle_main_menu_keys(Key::Char('s'), &mut state), KeyOutcome::Changed(_)));
    assert_eq!(state.get_state(), UIState::Running);
    assert!(matches!(handle_main_menu_keys(Key::Char('q'), &mut state), KeyOutcome::Changed(_)));
    assert_eq!(state.get_state(), UIState::TearDown);
    assert_eq!(state.get_prev_state(), UIState::Running);
    assert!(matches!(runtime_key_events(Key::Char('q'), &mut state), KeyOutcome::Changed(_)));
    assert_eq!(state.get_prev_state(), UIState::TearDown);
}
