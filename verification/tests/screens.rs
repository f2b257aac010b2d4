use us_stock_tracker::config::{Config, StockItem};
use us_stock_tracker::layout::{centered_popup, popup_size, Area};
use us_stock_tracker::tracker::{Action, App, Key, Mode};

fn item(id: &str, name: &str) -> StockItem {
    StockItem { id: id.to_string(), name: name.to_string() }
}

fn app_with(ids: &[&str]) -> App<u32> {
    let config = Config { interval: 10, watchlist: ids.iter().map(|i| item(i, i)).collect() };
    App::new(config)
}

fn press(app: &mut App<u32>, keys: &[Key]) -> Vec<Action> {
    keys.iter().map(|k| app.handle_key(*k)).collect()
}

fn ids(app: &App<u32>) -> Vec<String> {
    app.config.watchlist.iter().map(|s| s.id.clone()).collect()
}

#[test]
fn default_config_tracks_nine_stocks_every_ten_seconds() {
    let c = Config::default();
    assert_eq!(c.interval, 10);
    let got: Vec<(&str, &str)> =
        c.watchlist.iter().map(|s| (s.id.as_str(), s.name.as_str())).collect();
    assert_eq!(
        got,
        vec![
            ("TSLA", "特斯拉"),
            ("NVDA", "輝達"),
            ("TSM", "台積電"),
            ("AAPL", "蘋果"),
            ("MSFT", "微軟"),
            ("GOOGL", "谷歌"),
            ("AMZN", "亞馬遜"),
            ("INTC", "英特爾"),
            ("META", "臉書"),
        ]
    );
}

#[test]
fn new_app_opens_on_the_table() {
    let app = app_with(&["A"]);
    assert_eq!(app.mode, Mode::Main);
    assert_eq!(app.last_update, "尚未更新");
    assert_eq!(app.table_selected, Some(0));
    assert_eq!(app.settings_selected, Some(0));
    assert_eq!(app.stocks_selected, Some(0));
    assert!(app.quotes.is_empty() && app.input_buffer.is_empty() && app.error_msg.is_none());
    assert!(app.delete_index.is_none());
}

#[test]
fn q_quits_only_from_the_table() {
    let mut app = app_with(&["A"]);
    assert!(matches!(app.handle_key(Key::Char('Q')), Action::Quit));
    assert!(matches!(app.handle_key(Key::Char('s')), Action::Idle));
    assert_eq!(app.mode, Mode::Settings);
    assert!(matches!(app.handle_key(Key::Char('q')), Action::Idle));
    assert!(matches!(app.handle_key(Key::Esc), Action::Idle));
    assert_eq!(app.mode, Mode::Main);
}

#[test]
fn table_selection_stays_within_the_quotes() {
    let mut app = app_with(&["A"]);
    app.receive_quotes(vec![1, 2, 3], "t1".to_string());
    assert_eq!(app.last_update, "t1");
    press(&mut app, &[Key::Down, Key::Down, Key::Down, Key::Down]);
    assert_eq!(app.table_selected, Some(2));
    press(&mut app, &[Key::Up]);
    assert_eq!(app.table_selected, Some(1));
    press(&mut app, &[Key::Up, Key::Up, Key::Up]);
    assert_eq!(app.table_selected, Some(0));
}

#[test]
fn quotes_arrive_only_on_the_table() {
    let mut app = app_with(&["A"]);
    app.handle_key(Key::Char('S'));
    app.receive_quotes(vec![7], "later".to_string());
    assert!(app.quotes.is_empty());
    assert_eq!(app.last_update, "尚未更新");
}

#[test]
fn interval_edit_accepts_one_to_three_hundred() {
    let mut app = app_with(&["A"]);
    press(&mut app, &[Key::Char('s'), Key::Enter]);
    assert_eq!(app.mode, Mode::EditInterval);
    assert_eq!(app.input_buffer, "10");
    press(&mut app, &[Key::Backspace, Key::Backspace, Key::Char('x'), Key::Char('6'), Key::Char('0')]);
    assert_eq!(app.input_buffer, "60");
    assert!(matches!(app.handle_key(Key::Enter), Action::Save));
    assert_eq!(app.config.interval, 60);
    assert_eq!(app.mode, Mode::Settings);
    assert_eq!(app.input_buffer, "");
}

#[test]
fn interval_edit_refuses_zero_and_too_long() {
    let mut app = app_with(&["A"]);
    press(&mut app, &[Key::Char('s'), Key::Enter, Key::Backspace, Key::Backspace, Key::Char('0')]);
    assert!(matches!(app.handle_key(Key::Enter), Action::Idle));
    assert_eq!(app.mode, Mode::EditInterval);
    assert_eq!(app.config.interval, 10);
    press(&mut app, &[Key::Backspace, Key::Char('3'), Key::Char('0'), Key::Char('1')]);
    assert!(matches!(app.handle_key(Key::Enter), Action::Idle));
    assert_eq!(app.config.interval, 10);
    press(&mut app, &[Key::Backspace]);
    assert!(matches!(app.handle_key(Key::Enter), Action::Save));
    assert_eq!(app.config.interval, 30);
    press(&mut app, &[Key::Enter, Key::Backspace, Key::Backspace]);
    assert!(matches!(app.handle_key(Key::Enter), Action::Idle));
    assert!(matches!(app.handle_key(Key::Esc), Action::Idle));
    assert_eq!(app.mode, Mode::Settings);
    assert_eq!(app.input_buffer, "");
    assert_eq!(app.config.interval, 30);
}

#[test]
fn settings_menu_has_two_rows() {
    let mut app = app_with(&["A"]);
    press(&mut app, &[Key::Char('s'), Key::Down, Key::Down, Key::Down]);
    assert_eq!(app.settings_selected, Some(1));
    press(&mut app, &[Key::Enter]);
    assert_eq!(app.mode, Mode::EditStocks);
}

#[test]
fn adding_a_stock_looks_it_up_then_appends_it() {
    let mut app = app_with(&["A"]);
    press(&mut app, &[Key::Char('s'), Key::Down, Key::Enter, Key::Char('a')]);
    assert_eq!(app.mode, Mode::AddStockId);
    press(&mut app, &[Key::Char(' '), Key::Char('t'), Key::Char('s'), Key::Char('m'), Key::Char(' ')]);
    match app.handle_key(Key::Enter) {
        Action::Lookup(q) => assert_eq!(q, "tsm"),
        _ => panic!("expected a lookup"),
    }
    app.finish_lookup(Some(("TSM".to_string(), "Taiwan Semi".to_string())));
    assert_eq!(app.mode, Mode::AddStockName);
    assert_eq!(app.new_stock_name, "Taiwan Semi");
    press(&mut app, &[Key::Backspace, Key::Backspace, Key::Backspace, Key::Backspace, Key::Backspace]);
    press(&mut app, &[Key::Char(' ')]);
    assert!(matches!(app.handle_key(Key::Enter), Action::Save));
    assert_eq!(ids(&app), vec!["A", "TSM"]);
    assert_eq!(app.config.watchlist[1].name, "Taiwan");
    assert_eq!(app.stocks_selected, Some(1));
    assert_eq!(app.mode, Mode::EditStocks);
    assert!(app.new_stock_id.is_empty() && app.new_stock_name.is_empty());
}

#[test]
fn added_ticker_is_trimmed_and_upper_cased() {
    let mut app = app_with(&[]);
    press(&mut app, &[Key::Char('s'), Key::Down, Key::Enter, Key::Char('A')]);
    app.finish_lookup(Some((" brk.b ".to_string(), " Berkshire ".to_string())));
    assert!(matches!(app.handle_key(Key::Enter), Action::Save));
    assert_eq!(ids(&app), vec!["BRK.B"]);
    assert_eq!(app.config.watchlist[0].name, "Berkshire");
}

#[test]
fn failed_lookup_shows_a_message_until_typing_resumes() {
    let mut app = app_with(&["A"]);
    press(&mut app, &[Key::Char('s'), Key::Down, Key::Enter, Key::Char('a'), Key::Char('z')]);
    app.finish_lookup(None);
    assert_eq!(app.error_msg.as_deref(), Some("找不到此股票"));
    assert_eq!(app.mode, Mode::AddStockId);
    press(&mut app, &[Key::Char('z')]);
    assert!(app.error_msg.is_none());
    assert_eq!(app.new_stock_id, "zz");
    press(&mut app, &[Key::Esc]);
    assert_eq!(app.mode, Mode::EditStocks);
    assert!(app.new_stock_id.is_empty());
}

#[test]
fn blank_ticker_is_not_looked_up() {
    let mut app = app_with(&["A"]);
    press(&mut app, &[Key::Char('s'), Key::Down, Key::Enter, Key::Char('a'), Key::Char(' ')]);
    assert!(matches!(app.handle_key(Key::Enter), Action::Idle));
    assert_eq!(app.mode, Mode::AddStockId);
}

#[test]
fn blank_name_is_not_added() {
    let mut app = app_with(&["A"]);
    press(&mut app, &[Key::Char('s'), Key::Down, Key::Enter, Key::Char('a')]);
    app.finish_lookup(Some(("B".to_string(), "  ".to_string())));
    assert!(matches!(app.handle_key(Key::Enter), Action::Idle));
    assert_eq!(ids(&app), vec!["A"]);
    press(&mut app, &[Key::Esc]);
    assert_eq!(app.mode, Mode::EditStocks);
}

#[test]
fn deleting_removes_the_selected_stock() {
    let mut app = app_with(&["A", "B", "C"]);
    press(&mut app, &[Key::Char('s'), Key::Down, Key::Enter, Key::Down, Key::Down, Key::Down]);
    assert_eq!(app.stocks_selected, Some(2));
    press(&mut app, &[Key::Char('d')]);
    assert_eq!(app.mode, Mode::ConfirmDelete);
    assert_eq!(app.delete_index, Some(2));
    assert_eq!(app.pending_delete_label(), "C C");
    assert!(matches!(app.handle_key(Key::Char('y')), Action::Save));
    assert_eq!(ids(&app), vec!["A", "B"]);
    assert_eq!(app.stocks_selected, Some(1));
    assert_eq!(app.mode, Mode::EditStocks);
    assert!(app.delete_index.is_none());
    assert_eq!(app.pending_delete_label(), "");
}

#[test]
fn declining_a_delete_keeps_the_list() {
    let mut app = app_with(&["A", "B"]);
    press(&mut app, &[Key::Char('s'), Key::Down, Key::Enter, Key::Char('D')]);
    assert!(matches!(app.handle_key(Key::Char('n')), Action::Idle));
    assert_eq!(ids(&app), vec!["A", "B"]);
    press(&mut app, &[Key::Char('d'), Key::Esc]);
    assert_eq!(app.mode, Mode::EditStocks);
    assert_eq!(ids(&app), vec!["A", "B"]);
}

#[test]
fn deleting_the_last_stock_keeps_the_first_row_selected() {
    let mut app = app_with(&["A"]);
    press(&mut app, &[Key::Char('s'), Key::Down, Key::Enter, Key::Char('d'), Key::Char('Y')]);
    assert!(app.config.watchlist.is_empty());
    assert_eq!(app.stocks_selected, Some(0));
    assert!(matches!(app.handle_key(Key::Char('d')), Action::Idle));
    assert_eq!(app.mode, Mode::EditStocks);
}

#[test]
fn popups_are_centred_and_fit_the_screen() {
    assert_eq!(centered_popup(100, 30, 40, 7), Area { x: 30, y: 11, width: 40, height: 7 });
    assert_eq!(centered_popup(30, 5, 40, 7), Area { x: 0, y: 0, width: 30, height: 5 });
    assert_eq!(popup_size(Mode::EditInterval), Some((40, 7)));
    assert_eq!(popup_size(Mode::EditStocks), Some((60, 20)));
    assert_eq!(popup_size(Mode::AddStockId), Some((45, 9)));
    assert_eq!(popup_size(Mode::AddStockName), Some((45, 11)));
    assert_eq!(popup_size(Mode::ConfirmDelete), Some((35, 7)));
    assert_eq!(popup_size(Mode::Main), None);
}

#[test]
fn confirming_the_interval_unchanged_saves_it_as_it_was() {
    let mut app = app_with(&["A"]);
    press(&mut app, &[Key::Char('s')]);
    assert!(matches!(app.handle_key(Key::Enter), Action::Idle));
    assert!(matches!(app.handle_key(Key::Enter), Action::Save));
    assert_eq!(app.config.interval, 10);
    assert_eq!(app.mode, Mode::Settings);
}

#[test]
fn esc_goes_back_one_screen() {
    let mut app = app_with(&["A"]);
    press(&mut app, &[Key::Char('s'), Key::Down, Key::Enter, Key::Char('d')]);
    assert_eq!(app.mode, Mode::ConfirmDelete);
    let expected = [Mode::EditStocks, Mode::Settings, Mode::Main, Mode::Main];
    for m in expected {
        assert!(matches!(app.handle_key(Key::Esc), Action::Idle));
        assert_eq!(app.mode, m);
    }
    press(&mut app, &[Key::Char('s'), Key::Enter]);
    assert!(matches!(app.handle_key(Key::Esc), Action::Idle));
    assert_eq!(app.mode, Mode::Settings);
    assert_eq!(ids(&app), vec!["A"]);
}

#[test]
fn backspace_undoes_a_typed_character() {
    let mut app = app_with(&["A"]);
    press(&mut app, &[Key::Char('s'), Key::Down, Key::Enter, Key::Char('a'), Key::Char('x')]);
    press(&mut app, &[Key::Char('y'), Key::Backspace]);
    assert_eq!(app.new_stock_id, "x");
    app.finish_lookup(Some(("X".to_string(), "Ex".to_string())));
    press(&mut app, &[Key::Char('!'), Key::Backspace]);
    assert_eq!(app.new_stock_name, "Ex");
}

#[test]
fn drawing_the_table_fits_the_selection_to_the_rows() {
    let mut app = app_with(&["A"]);
    app.table_drawn();
    assert_eq!(app.table_selected, None);
    app.receive_quotes((0..9).collect(), "t".to_string());
    press(&mut app, &[Key::Down; 8]);
    assert_eq!(app.table_selected, Some(8));
    app.receive_quotes(vec![1, 2, 3, 4], "t2".to_string());
    assert_eq!(app.table_selected, Some(8));
    app.table_drawn();
    assert_eq!(app.table_selected, Some(3));
    press(&mut app, &[Key::Up]);
    assert_eq!(app.table_selected, Some(2));
    app.table_drawn();
    assert_eq!(app.table_selected, Some(2));
}

#[test]
fn drawing_an_empty_watch_list_clears_its_selection() {
    let mut app = app_with(&["A"]);
    press(&mut app, &[Key::Char('s'), Key::Down, Key::Enter, Key::Char('d'), Key::Char('y')]);
    app.stocks_list_drawn();
    assert_eq!(app.stocks_selected, None);
    assert!(matches!(app.handle_key(Key::Char('d')), Action::Idle));
    assert_eq!(app.mode, Mode::EditStocks);
    press(&mut app, &[Key::Down, Key::Up]);
    assert_eq!(app.stocks_selected, None);
    press(&mut app, &[Key::Char('a')]);
    app.finish_lookup(Some(("B".to_string(), "Bee".to_string())));
    press(&mut app, &[Key::Enter]);
    assert_eq!(app.stocks_selected, Some(0));
    app.stocks_list_drawn();
    assert_eq!(app.stocks_selected, Some(0));
}
