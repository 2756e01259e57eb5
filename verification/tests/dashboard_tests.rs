use ultra_fast_manual_trading_execution_bot::dashboard::{
    DashboardAction, DashboardController, DashboardRenderer, InputHandler, KeyInput, MatchList, RowKey,
};
use ultra_fast_manual_trading_execution_bot::executor::{ExecuteError, ExecutionEngine};
use ultra_fast_manual_trading_execution_bot::match_engine::{ManagerError, MatchConfig, MatchManager};

fn config(id: &str, name: &str, shortcut: Option<char>) -> MatchConfig {
    MatchConfig::new(id.to_string(), name.to_string(), "g".to_string(), "m".to_string(), 0.95f64.to_bits(), shortcut)
}

#[test]
fn quit_keys() {
    let matches = vec![config("a", "A", None)];
    assert_eq!(InputHandler::handle_key_event(KeyInput::Char('q'), &matches), Some(DashboardAction::Quit));
    assert_eq!(InputHandler::handle_key_event(KeyInput::Char('Q'), &matches), Some(DashboardAction::Quit));
    assert_eq!(InputHandler::handle_key_event(KeyInput::Esc, &matches), Some(DashboardAction::Quit));
    assert_eq!(InputHandler::handle_key_event(KeyInput::Other, &matches), None);
}

#[test]
fn digits_pick_listed_matches() {
    let matches = vec![config("a", "A", None), config("b", "B", None)];
    assert_eq!(
        InputHandler::handle_key_event(KeyInput::Char('2'), &matches),
        Some(DashboardAction::ExecuteMatch("b".to_string()))
    );
    assert_eq!(InputHandler::handle_key_event(KeyInput::Char('0'), &matches), None);
    assert_eq!(InputHandler::handle_key_event(KeyInput::Char('3'), &matches), None);
}

#[test]
fn digit_shortcuts_come_before_list_positions() {
    let matches = vec![config("a", "A", Some('2')), config("b", "B", Some('1'))];
    assert_eq!(
        InputHandler::handle_key_event(KeyInput::Char('1'), &matches),
        Some(DashboardAction::ExecuteMatch("b".to_string()))
    );
    assert_eq!(
        InputHandler::handle_key_event(KeyInput::Char('2'), &matches),
        Some(DashboardAction::ExecuteMatch("a".to_string()))
    );
}

#[test]
fn digit_shortcut_beyond_the_list_still_triggers() {
    let matches = vec![config("a", "A", Some('5'))];
    assert_eq!(
        InputHandler::handle_key_event(KeyInput::Char('5'), &matches),
        Some(DashboardAction::ExecuteMatch("a".to_string()))
    );
    assert_eq!(
        InputHandler::handle_key_event(KeyInput::Char('1'), &matches),
        Some(DashboardAction::ExecuteMatch("a".to_string()))
    );
    assert_eq!(InputHandler::handle_key_event(KeyInput::Char('2'), &matches), None);
}

#[test]
fn quit_keys_win_over_shortcuts() {
    let matches = vec![config("a", "A", Some('q'))];
    assert_eq!(InputHandler::handle_key_event(KeyInput::Char('q'), &matches), Some(DashboardAction::Quit));
}

#[test]
fn shortcuts_pick_the_first_match() {
    let matches = vec![config("a", "A", Some('x')), config("b", "B", Some('x'))];
    assert_eq!(
        InputHandler::handle_key_event(KeyInput::Char('x'), &matches),
        Some(DashboardAction::ExecuteMatch("a".to_string()))
    );
    assert_eq!(InputHandler::handle_key_event(KeyInput::Char('y'), &matches), None);
}

#[test]
fn rows_show_shortcut_or_position_and_cut_long_names() {
    let long = "x".repeat(60);
    let matches = vec![config("a", "Arsenal vs Chelsea", Some('1')), config("b", &long, None)];
    let rows = DashboardRenderer::dashboard_rows(&matches);
    assert_eq!(rows.len(), 2);
    assert_eq!(rows[0].key, RowKey::Shortcut('1'));
    assert_eq!(rows[0].name, "Arsenal vs Chelsea");
    assert_eq!(rows[1].key, RowKey::Position(2));
    assert_eq!(rows[1].name, format!("{}...", "x".repeat(47)));
}

#[test]
fn name_of_exactly_fifty_bytes_is_kept() {
    let name = "y".repeat(50);
    let rows = DashboardRenderer::dashboard_rows(&[config("a", &name, None)]);
    assert_eq!(rows[0].name, name);
}

#[test]
fn feedback_lines() {
    assert_eq!(DashboardController::feedback("m1", &Ok(()), 0), "\u{2705} SUCCESS! Match: m1 | Time: 0ms");
    assert_eq!(DashboardController::feedback("m1", &Ok(()), 1205), "\u{2705} SUCCESS! Match: m1 | Time: 1205ms");
    assert_eq!(
        DashboardController::feedback("m9", &Err(ManagerError::MatchNotFound("m9".to_string())), 3),
        "\u{274c} FAILED! Match: m9 | Error: Match not found: m9"
    );
    assert_eq!(
        DashboardController::feedback("m1", &Err(ManagerError::Execution(ExecuteError::NoPreparedOrders)), 3),
        "\u{274c} FAILED! Match: m1 | Error: No prepared orders available"
    );
}

#[test]
fn controller_reports_execution_outcome() {
    let mut manager = MatchManager::new(ExecutionEngine::new());
    manager.add_match(config("m1", "Arsenal vs Chelsea", Some('1')));
    let ok = DashboardController::execute_match(&mut manager, "m1");
    assert!(ok.starts_with("\u{2705} SUCCESS! Match: m1 | Time: "), "got: {}", ok);
    assert!(ok.ends_with("ms"));
    assert_eq!(manager.execution_engine().pending_len(), 1);
    let failed = DashboardController::execute_match(&mut manager, "zz");
    assert_eq!(failed, "\u{274c} FAILED! Match: zz | Error: Match not found: zz");
}

#[test]
fn screen_shows_notice_or_rows_and_status() {
    let empty = DashboardRenderer::render_dashboard(&[], None);
    match empty.matches {
        MatchList::NoMatches(t) => assert_eq!(t, "No matches configured. Please add matches to start trading."),
        MatchList::Rows(_) => panic!("notice expected"),
    }
    assert_eq!(empty.status, "Status: Ready | Latency: < 2ms execution time");
    let one = DashboardRenderer::render_dashboard(&[config("a", "Arsenal vs Chelsea", None)], Some("done"));
    match one.matches {
        MatchList::Rows(rows) => {
            assert_eq!(rows.len(), 1);
            assert_eq!(rows[0].key, RowKey::Position(1));
        }
        MatchList::NoMatches(_) => panic!("rows expected"),
    }
    assert_eq!(one.status, "Status: done");
}
