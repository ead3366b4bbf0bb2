use dbtui::app_state::{Command, State, UserPanels};
use dbtui::database::sqlite::{Row, TableDataWithColumns};

fn rows(n: usize) -> TableDataWithColumns {
    let mut data = Vec::new();
    for _ in 0..n {
        data.push(Row::new());
    }
    TableDataWithColumns { data, columns: Vec::new() }
}

fn session(tables: usize, shown: usize) -> State {
    let mut names = Vec::new();
    for i in 0..tables {
        names.push(format!("t{}", i));
    }
    State::new(String::from("sqlite::memory:"), names, String::from("t0"), rows(shown))
}

fn cursors(s: &State) -> (UserPanels, usize, usize) {
    (s.panel, s.list_state, s.table_state)
}

#[test]
fn a_session_starts_on_the_table_list_at_zero() {
    let s = session(3, 5);
    assert_eq!(cursors(&s), (UserPanels::Tables(0), 0, 0));
    assert_eq!(s.db_url, "sqlite::memory:");
    assert_eq!(s.current_table, "t0");
    assert_eq!(s.tables.len(), 3);
    assert_eq!(s.last_results.len(), 5);
    assert_eq!(s.active_count(), 3);
    let d = State::default();
    assert_eq!(cursors(&d), (UserPanels::Tables(0), 0, 0));
    assert_eq!(d.active_count(), 0);
    assert_eq!(UserPanels::default(), UserPanels::Tables(0));
}

#[test]
fn next_steps_and_wraps() {
    let mut s = session(3, 5);
    s.next();
    assert_eq!(cursors(&s), (UserPanels::Tables(1), 1, 1));
    s.next();
    assert_eq!(cursors(&s), (UserPanels::Tables(2), 2, 2));
    s.next();
    assert_eq!(cursors(&s), (UserPanels::Tables(0), 0, 0));
}

#[test]
fn prev_steps_and_wraps() {
    let mut s = session(3, 5);
    s.prev();
    assert_eq!(cursors(&s), (UserPanels::Tables(2), 2, 2));
    s.prev();
    assert_eq!(cursors(&s), (UserPanels::Tables(1), 1, 1));
    s.prev();
    assert_eq!(cursors(&s), (UserPanels::Tables(0), 0, 0));
}

#[test]
fn next_then_prev_returns_to_the_index() {
    for n in 1..6 {
        for start in 0..n {
            let mut s = session(n, 0);
            for _ in 0..start {
                s.next();
            }
            assert_eq!(s.panel.index(), start);
            s.next();
            s.prev();
            assert_eq!(cursors(&s), (UserPanels::Tables(start), start, start));
            s.prev();
            s.next();
            assert_eq!(cursors(&s), (UserPanels::Tables(start), start, start));
        }
    }
}

#[test]
fn n_times_next_returns_to_zero() {
    for n in 1..9 {
        let mut s = session(2, n);
        s.switch_panel();
        for step in 0..n {
            assert_eq!(s.panel.index(), step);
            s.next();
        }
        assert_eq!(cursors(&s), (UserPanels::Rows(0), 0, 0));
    }
}

#[test]
fn switching_twice_restores_the_panel() {
    let mut s = session(4, 2);
    s.next();
    s.next();
    s.next();
    assert_eq!(s.panel, UserPanels::Tables(3));
    s.switch_panel();
    assert_eq!(cursors(&s), (UserPanels::Rows(3), 3, 3));
    s.switch_panel();
    assert_eq!(cursors(&s), (UserPanels::Tables(3), 3, 3));
}

#[test]
fn the_count_is_that_of_the_active_panel() {
    let mut s = session(2, 4);
    assert_eq!(s.active_count(), 2);
    s.switch_panel();
    assert_eq!(s.active_count(), 4);
    s.next();
    s.next();
    s.next();
    assert_eq!(s.panel, UserPanels::Rows(3));
    s.next();
    assert_eq!(s.panel, UserPanels::Rows(0));
}

#[test]
fn next_on_an_empty_panel_changes_nothing() {
    let mut s = session(0, 0);
    s.next();
    assert_eq!(cursors(&s), (UserPanels::Tables(0), 0, 0));
    let mut s = session(3, 0);
    s.next();
    s.next();
    s.switch_panel();
    assert_eq!(s.active_count(), 0);
    s.next();
    assert_eq!(cursors(&s), (UserPanels::Rows(2), 2, 2));
}

#[test]
fn prev_on_an_empty_panel_changes_nothing() {
    let mut s = session(0, 0);
    s.prev();
    assert_eq!(cursors(&s), (UserPanels::Tables(0), 0, 0));
    let mut s = session(3, 0);
    s.next();
    s.switch_panel();
    s.prev();
    assert_eq!(cursors(&s), (UserPanels::Rows(1), 1, 1));
}

#[test]
fn an_index_beyond_the_panel_steps_as_defined() {
    let mut s = session(5, 2);
    for _ in 0..4 {
        s.next();
    }
    s.switch_panel();
    assert_eq!(s.panel, UserPanels::Rows(4));
    s.next();
    assert_eq!(cursors(&s), (UserPanels::Rows(0), 0, 0));
    let mut s = session(5, 2);
    for _ in 0..4 {
        s.next();
    }
    s.switch_panel();
    s.prev();
    assert_eq!(cursors(&s), (UserPanels::Rows(3), 3, 3));
}

#[test]
fn a_single_item_stays_selected() {
    let mut s = session(1, 0);
    s.next();
    assert_eq!(s.panel, UserPanels::Tables(0));
    s.prev();
    assert_eq!(s.panel, UserPanels::Tables(0));
}

#[test]
fn the_largest_index_steps_without_overflow() {
    let mut s = session(3, 3);
    s.panel = UserPanels::Tables(usize::MAX);
    s.next();
    assert_eq!(cursors(&s), (UserPanels::Tables(0), 0, 0));
}

#[test]
fn commands_drive_the_session() {
    let mut s = session(3, 2);
    assert!(s.apply(Command::Next));
    assert_eq!(s.panel, UserPanels::Tables(1));
    assert!(s.apply(Command::Prev));
    assert_eq!(s.panel, UserPanels::Tables(0));
    assert!(s.apply(Command::SwitchPanel));
    assert_eq!(s.panel, UserPanels::Rows(0));
    assert!(!s.apply(Command::Quit));
    assert_eq!(cursors(&s), (UserPanels::Rows(0), 0, 0));
}

#[test]
fn selected_table_follows_the_index() {
    let mut s = session(2, 5);
    assert_eq!(s.selected_table(), Some(&String::from("t0")));
    s.next();
    assert_eq!(s.selected_table(), Some(&String::from("t1")));
    s.switch_panel();
    s.next();
    s.next();
    assert_eq!(s.panel, UserPanels::Rows(3));
    assert_eq!(s.selected_table(), None);
    assert_eq!(State::default().selected_table(), None);
}

#[test]
fn load_table_replaces_the_table_as_a_whole() {
    let mut s = session(2, 5);
    s.next();
    s.load_table(String::from("t1"), rows(3));
    assert_eq!(s.current_table, "t1");
    assert_eq!(s.last_results.len(), 3);
    assert!(s.current_columns.is_empty());
    assert_eq!(s.tables.len(), 2);
    assert_eq!(cursors(&s), (UserPanels::Tables(1), 1, 1));
}

#[test]
fn a_confirmation_loads_from_the_table_list_only() {
    let mut s = session(2, 5);
    assert_eq!(s.table_to_load(), Some(&String::from("t0")));
    s.next();
    assert_eq!(s.table_to_load(), Some(&String::from("t1")));
    s.switch_panel();
    assert_eq!(s.panel, UserPanels::Rows(1));
    assert_eq!(s.selected_table(), Some(&String::from("t1")));
    assert_eq!(s.table_to_load(), None);
    s.next();
    s.next();
    s.switch_panel();
    assert_eq!(s.panel, UserPanels::Tables(3));
    assert_eq!(s.table_to_load(), None);
    assert_eq!(State::default().table_to_load(), None);
}

#[test]
fn the_default_session_is_empty() {
    let d = State::default();
    assert_eq!(d.db_url, "");
    assert_eq!(d.current_table, "");
    assert!(d.tables.is_empty());
    assert!(d.last_results.is_empty());
    assert!(d.current_columns.is_empty());
}
