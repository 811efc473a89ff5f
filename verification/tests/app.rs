use dotwell::app::{key_action, Action, App, Key, View};
use dotwell::config::{Compiler, DotfileConfig, DotfileEntry};
use dotwell::installer::InstallResult;
use std::path::PathBuf;

fn bundle(name: &str) -> DotfileEntry {
    DotfileEntry {
        config: DotfileConfig {
            name: name.to_string(),
            description: String::new(),
            category: String::new(),
            compiler: Compiler::Make { target: None },
            dependencies: Vec::new(),
            files: Vec::new(),
        },
        path: PathBuf::from("/bundles").join(name),
    }
}

fn session(count: usize) -> App {
    App::new((0..count).map(|i| bundle(&format!("b{}", i))).collect())
}

const VIEWS: [View; 4] = [View::Home, View::Browse, View::Preview, View::Installing];

#[test]
fn a_session_starts_at_home() {
    let app = session(2);
    assert_eq!(app.view, View::Home);
    assert_eq!(app.dotfiles.len(), 2);
    assert_eq!(app.selected_index, 0);
    assert!(!app.should_quit);
    assert_eq!(app.install_output, None);
    assert!(!app.install_success);
}

#[test]
fn next_wraps_after_the_last() {
    let mut app = session(3);
    app.next_item();
    assert_eq!(app.selected_index, 1);
    app.next_item();
    assert_eq!(app.selected_index, 2);
    app.next_item();
    assert_eq!(app.selected_index, 0);
}

#[test]
fn previous_wraps_before_the_first() {
    let mut app = session(3);
    app.previous_item();
    assert_eq!(app.selected_index, 2);
    app.previous_item();
    assert_eq!(app.selected_index, 1);
    app.previous_item();
    assert_eq!(app.selected_index, 0);
}

#[test]
fn next_and_previous_undo_each_other() {
    for count in 1..5 {
        for start in 0..count {
            let mut app = session(count);
            app.selected_index = start;
            app.next_item();
            app.previous_item();
            assert_eq!(app.selected_index, start);
            app.previous_item();
            app.next_item();
            assert_eq!(app.selected_index, start);
        }
    }
}

#[test]
fn navigation_on_an_empty_list_changes_nothing() {
    let mut app = session(0);
    app.next_item();
    assert_eq!(app.selected_index, 0);
    app.previous_item();
    assert_eq!(app.selected_index, 0);
    assert!(app.selected_dotfile().is_none());
}

#[test]
fn next_from_the_largest_index_does_not_overflow() {
    let mut app = session(3);
    app.selected_index = usize::MAX;
    app.next_item();
    assert_eq!(app.selected_index, (usize::MAX % 3 + 1) % 3);
}

#[test]
fn the_selected_bundle_is_the_one_under_the_cursor() {
    let mut app = session(3);
    assert_eq!(app.selected_dotfile().unwrap().config.name, "b0");
    app.next_item();
    assert_eq!(app.selected_dotfile().unwrap().config.name, "b1");
    app.selected_index = 3;
    assert!(app.selected_dotfile().is_none());
}

#[test]
fn back_leads_to_the_parent() {
    for (from, to) in [
        (View::Home, View::Home),
        (View::Browse, View::Home),
        (View::Preview, View::Browse),
        (View::Installing, View::Preview),
    ] {
        let mut app = session(1);
        app.go_to_view(from);
        app.go_back();
        assert_eq!(app.view, to);
    }
}

#[test]
fn back_at_home_stays_at_home() {
    let mut app = session(1);
    app.go_back();
    app.go_back();
    assert_eq!(app.view, View::Home);
}

#[test]
fn quit_marks_the_session_as_over() {
    let mut app = session(1);
    app.quit();
    assert!(app.should_quit);
    assert_eq!(app.view, View::Home);
}

#[test]
fn an_install_result_is_recorded_and_shown() {
    for success in [true, false] {
        let mut app = session(2);
        app.go_to_view(View::Preview);
        app.install_selected(InstallResult { success, output: "log".to_string() });
        assert_eq!(app.view, View::Installing);
        assert_eq!(app.install_output, Some("log".to_string()));
        assert_eq!(app.install_success, success);
    }
}

#[test]
fn a_later_install_result_replaces_the_earlier() {
    let mut app = session(1);
    app.install_selected(InstallResult { success: true, output: "first".to_string() });
    app.install_selected(InstallResult { success: false, output: "second".to_string() });
    assert_eq!(app.install_output, Some("second".to_string()));
    assert!(!app.install_success);
}

#[test]
fn an_install_result_without_a_selection_changes_nothing() {
    let mut app = session(0);
    app.go_to_view(View::Browse);
    app.install_selected(InstallResult { success: true, output: "log".to_string() });
    assert_eq!(app.view, View::Browse);
    assert_eq!(app.install_output, None);
    assert!(!app.install_success);
}

#[test]
fn browse_is_entered_from_home_only() {
    for view in VIEWS {
        let mut app = session(1);
        app.go_to_view(view);
        assert!(!app.apply(Action::Browse));
        assert_eq!(app.view, if view == View::Home { View::Browse } else { view });
    }
}

#[test]
fn the_preview_opens_from_a_list_that_is_not_empty() {
    let mut app = session(1);
    app.go_to_view(View::Browse);
    assert!(!app.apply(Action::Open));
    assert_eq!(app.view, View::Preview);
    let mut empty = session(0);
    empty.go_to_view(View::Browse);
    assert!(!empty.apply(Action::Open));
    assert_eq!(empty.view, View::Browse);
    let mut home = session(1);
    assert!(!home.apply(Action::Open));
    assert_eq!(home.view, View::Home);
}

#[test]
fn install_is_asked_for_with_a_selection_in_list_or_preview() {
    for view in VIEWS {
        let mut app = session(1);
        app.go_to_view(view);
        let asked = app.apply(Action::Install);
        assert_eq!(asked, view == View::Browse || view == View::Preview);
        assert_eq!(app.view, view);
        assert_eq!(app.install_output, None);
    }
    let mut empty = session(0);
    empty.go_to_view(View::Browse);
    assert!(!empty.apply(Action::Install));
}

#[test]
fn navigation_actions_move_the_cursor_in_the_list_only() {
    for view in VIEWS {
        let mut app = session(3);
        app.go_to_view(view);
        app.apply(Action::Next);
        assert_eq!(app.selected_index, if view == View::Browse { 1 } else { 0 });
        app.apply(Action::Previous);
        app.apply(Action::Previous);
        assert_eq!(app.selected_index, if view == View::Browse { 2 } else { 0 });
    }
}

#[test]
fn back_and_quit_actions_work_in_every_view() {
    for view in VIEWS {
        let mut app = session(1);
        app.go_to_view(view);
        assert!(!app.apply(Action::Back));
        let mut expected = session(1);
        expected.go_to_view(view);
        expected.go_back();
        assert_eq!(app.view, expected.view);
        assert!(!app.apply(Action::Quit));
        assert!(app.should_quit);
    }
}

#[test]
fn keys_are_bound_by_view() {
    assert_eq!(key_action(View::Home, Key::Char('q')), Some(Action::Quit));
    assert_eq!(key_action(View::Home, Key::Esc), Some(Action::Quit));
    assert_eq!(key_action(View::Home, Key::Char('b')), Some(Action::Browse));
    assert_eq!(key_action(View::Home, Key::Enter), None);
    assert_eq!(key_action(View::Browse, Key::Char('q')), Some(Action::Quit));
    assert_eq!(key_action(View::Browse, Key::Esc), Some(Action::Back));
    assert_eq!(key_action(View::Browse, Key::Char('b')), Some(Action::Back));
    assert_eq!(key_action(View::Browse, Key::Down), Some(Action::Next));
    assert_eq!(key_action(View::Browse, Key::Char('j')), Some(Action::Next));
    assert_eq!(key_action(View::Browse, Key::Up), Some(Action::Previous));
    assert_eq!(key_action(View::Browse, Key::Char('k')), Some(Action::Previous));
    assert_eq!(key_action(View::Browse, Key::Char('i')), Some(Action::Install));
    assert_eq!(key_action(View::Browse, Key::Enter), Some(Action::Open));
    assert_eq!(key_action(View::Browse, Key::Other), None);
    assert_eq!(key_action(View::Preview, Key::Char('q')), Some(Action::Quit));
    assert_eq!(key_action(View::Preview, Key::Esc), Some(Action::Back));
    assert_eq!(key_action(View::Preview, Key::Char('i')), Some(Action::Install));
    assert_eq!(key_action(View::Preview, Key::Enter), Some(Action::Install));
    assert_eq!(key_action(View::Preview, Key::Char('b')), None);
    assert_eq!(key_action(View::Installing, Key::Char('q')), Some(Action::Quit));
    assert_eq!(key_action(View::Installing, Key::Esc), Some(Action::Back));
    assert_eq!(key_action(View::Installing, Key::Enter), Some(Action::Back));
    assert_eq!(key_action(View::Installing, Key::Char('i')), None);
}

#[test]
fn keys_drive_a_session_from_home_to_a_result() {
    let mut app = session(2);
    assert!(!app.handle_key(Key::Char('b')));
    assert_eq!(app.view, View::Browse);
    assert!(!app.handle_key(Key::Down));
    assert_eq!(app.selected_index, 1);
    assert!(!app.handle_key(Key::Enter));
    assert_eq!(app.view, View::Preview);
    assert!(app.handle_key(Key::Enter));
    assert_eq!(app.view, View::Preview);
    app.install_selected(InstallResult { success: false, output: "make: no rule".to_string() });
    assert_eq!(app.view, View::Installing);
    assert!(!app.handle_key(Key::Esc));
    assert_eq!(app.view, View::Preview);
    assert!(!app.handle_key(Key::Esc));
    assert!(!app.handle_key(Key::Esc));
    assert_eq!(app.view, View::Home);
    assert!(!app.handle_key(Key::Char('x')));
    assert!(!app.should_quit);
    assert!(!app.handle_key(Key::Esc));
    assert!(app.should_quit);
}
