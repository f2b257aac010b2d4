//! The tracker's screens and what each key press does to them.
//!
//! The terminal front end feeds key presses, lookup results and fresh quotes into
//! an [`App`], and carries out the [`Action`] that a key press asks for.
use vstd::prelude::*;
use crate::config::{Config, StockItem, watchlist_view};
use crate::number::{all_digits, decimal_spec, parse_u64, parse_u64_spec, to_decimal};
use crate::text::{pop_char, push_char, to_upper, trim, trim_spec, upper_spec};

verus! {

/// The screen that is shown.
#[derive(Clone, Copy, Debug, PartialEq, Eq, Structural)]
pub enum Mode {
    Main,
    Settings,
    EditInterval,
    EditStocks,
    AddStockId,
    AddStockName,
    ConfirmDelete,
}

/// A key press, as far as the tracker tells keys apart.
#[derive(Clone, Copy, Debug, PartialEq, Eq, Structural)]
pub enum Key {
    Char(char),
    Up,
    Down,
    Enter,
    Esc,
    Backspace,
    Other,
}

/// What the front end has to do after a key press.
#[derive(Debug)]
pub enum Action {
    /// Nothing beyond drawing the new state.
    Idle,
    /// Leave the program.
    Quit,
    /// Write the configuration to disk and hand it to the quote fetcher.
    Save,
    /// Look the ticker up, then report the answer through `App::finish_lookup`.
    Lookup(String),
}

/// The state of the tracker's screens. `Q` is the type of a quote row.
pub struct App<Q> {
    pub mode: Mode,
    pub config: Config,
    pub quotes: Vec<Q>,
    pub last_update: String,
    pub table_selected: Option<usize>,
    pub settings_selected: Option<usize>,
    pub stocks_selected: Option<usize>,
    pub input_buffer: String,
    pub editing_field: usize,
    pub error_msg: Option<String>,
    pub new_stock_id: String,
    pub new_stock_name: String,
    pub delete_index: Option<usize>,
}

/// The selection that drawing a list of `len` rows leaves behind: none for an empty
/// list, a selection past the end moved to the last row, any other kept (what ratatui's
/// `Table` and `List` do to their state when drawn into a non-empty area).
pub open spec fn drawn_selection(o: Option<usize>, len: int) -> Option<usize> {
    if len == 0 {
        None
    } else if o matches Some(s) && s >= len {
        Some((len - 1) as usize)
    } else {
        o
    }
}

/// A list selection, with no selection read as the first row (`selected().unwrap_or(0)`).
pub open spec fn sel(o: Option<usize>) -> int {
    match o {
        Some(i) => i as int,
        None => 0,
    }
}

/// The last index of a list of `len` rows, 0 for an empty list (`len.saturating_sub(1)`).
pub open spec fn last_index(len: int) -> int {
    if len > 0 {
        len - 1
    } else {
        0
    }
}

/// The selection after pressing Up.
pub open spec fn moved_up(o: Option<usize>) -> Option<usize> {
    if sel(o) > 0 {
        Some((sel(o) - 1) as usize)
    } else {
        o
    }
}

/// The selection after pressing Down in a list whose last index is `last`.
pub open spec fn moved_down(o: Option<usize>, last: int) -> Option<usize> {
    if sel(o) < last {
        Some((sel(o) + 1) as usize)
    } else {
        o
    }
}

/// `c` is one of the two letters `lower` and `upper`.
pub open spec fn is_letter(c: char, lower: char, upper: char) -> bool {
    c == lower || c == upper
}

/// The message shown when a lookup finds no stock.
pub open spec fn not_found_message() -> Seq<char> {
    "找不到此股票"@
}

/// The text "not yet updated" shown before the first quotes arrive.
pub open spec fn never_updated() -> Seq<char> {
    "尚未更新"@
}

/// Key presses on the quote table.
pub open spec fn main_step<Q>(old: App<Q>, new: App<Q>, key: Key, act: Action) -> bool {
    match key {
        Key::Char(c) => if is_letter(c, 'q', 'Q') {
            new == old && act is Quit
        } else if is_letter(c, 's', 'S') {
            new == (App::<Q> { mode: Mode::Settings, ..old }) && act is Idle
        } else {
            new == old && act is Idle
        },
        Key::Up => new == (App::<Q> { table_selected: moved_up(old.table_selected), ..old })
            && act is Idle,
        Key::Down => new == (App::<Q> {
            table_selected: moved_down(old.table_selected, last_index(old.quotes@.len() as int)),
            ..old
        }) && act is Idle,
        _ => new == old && act is Idle,
    }
}

/// Key presses on the settings menu.
pub open spec fn settings_step<Q>(old: App<Q>, new: App<Q>, key: Key, act: Action) -> bool {
    &&& act is Idle
    &&& match key {
        Key::Esc => new == (App::<Q> { mode: Mode::Main, ..old }),
        Key::Char(c) => if is_letter(c, 's', 'S') {
            new == (App::<Q> { mode: Mode::Main, ..old })
        } else {
            new == old
        },
        Key::Up => new == (App::<Q> { settings_selected: moved_up(old.settings_selected), ..old }),
        Key::Down => new == (App::<Q> {
            settings_selected: moved_down(old.settings_selected, 1),
            ..old
        }),
        Key::Enter => if sel(old.settings_selected) == 0 {
            &&& new == (App::<Q> {
                mode: Mode::EditInterval,
                input_buffer: new.input_buffer,
                ..old
            })
            &&& new.input_buffer@ == decimal_spec(old.config.interval as nat)
        } else {
            new == (App::<Q> { mode: Mode::EditStocks, ..old })
        },
        _ => new == old,
    }
}

/// The interval that the typed `buffer` asks for, when it is a whole number of
/// seconds from 1 to 300.
pub open spec fn interval_input(buffer: Seq<char>) -> Option<u64> {
    match parse_u64_spec(trim_spec(buffer)) {
        Some(n) => if 0 < n <= 300 {
            Some(n)
        } else {
            None
        },
        None => None,
    }
}

/// `new` is `old` with `input_buffer` replaced by an empty text.
pub open spec fn buffer_cleared<Q>(old: App<Q>, new: App<Q>, mode: Mode) -> bool {
    &&& new == (App::<Q> { mode: mode, input_buffer: new.input_buffer, ..old })
    &&& new.input_buffer@.len() == 0
}

/// Key presses while the refresh interval is typed.
pub open spec fn edit_interval_step<Q>(old: App<Q>, new: App<Q>, key: Key, act: Action) -> bool {
    match key {
        Key::Esc => buffer_cleared(old, new, Mode::Settings) && act is Idle,
        Key::Enter => match interval_input(old.input_buffer@) {
            Some(n) => {
                &&& new == (App::<Q> {
                    mode: Mode::Settings,
                    config: Config { interval: n, ..old.config },
                    input_buffer: new.input_buffer,
                    ..old
                })
                &&& new.input_buffer@.len() == 0
                &&& act is Save
            },
            None => new == old && act is Idle,
        },
        Key::Backspace => {
            &&& new == (App::<Q> { input_buffer: new.input_buffer, ..old })
            &&& new.input_buffer@ == (if old.input_buffer@.len() > 0 {
                old.input_buffer@.drop_last()
            } else {
                old.input_buffer@
            })
            &&& act is Idle
        },
        Key::Char(c) => if '0' <= c <= '9' {
            &&& new == (App::<Q> { input_buffer: new.input_buffer, ..old })
            &&& new.input_buffer@ == old.input_buffer@.push(c)
            &&& act is Idle
        } else {
            new == old && act is Idle
        },
        _ => new == old && act is Idle,
    }
}

/// `new` is `old` in `mode` with both typed fields of a new stock emptied.
pub open spec fn new_stock_cleared<Q>(old: App<Q>, new: App<Q>, mode: Mode) -> bool {
    &&& new == (App::<Q> {
        mode: mode,
        new_stock_id: new.new_stock_id,
        new_stock_name: new.new_stock_name,
        ..old
    })
    &&& new.new_stock_id@.len() == 0
    &&& new.new_stock_name@.len() == 0
}

/// Key presses on the watch-list editor.
pub open spec fn edit_stocks_step<Q>(old: App<Q>, new: App<Q>, key: Key, act: Action) -> bool {
    &&& act is Idle
    &&& match key {
        Key::Esc => new == (App::<Q> { mode: Mode::Settings, error_msg: None, ..old }),
        Key::Up => new == (App::<Q> { stocks_selected: moved_up(old.stocks_selected), ..old }),
        Key::Down => new == (App::<Q> {
            stocks_selected: moved_down(
                old.stocks_selected,
                last_index(old.config.watchlist@.len() as int),
            ),
            ..old
        }),
        Key::Char(c) => if is_letter(c, 'a', 'A') {
            new_stock_cleared(old, new, Mode::AddStockId)
        } else if is_letter(c, 'd', 'D') {
            match old.stocks_selected {
                Some(i) => if i < old.config.watchlist@.len() {
                    new == (App::<Q> {
                        mode: Mode::ConfirmDelete,
                        delete_index: Some(i),
                        ..old
                    })
                } else {
                    new == old
                },
                None => new == old,
            }
        } else {
            new == old
        },
        _ => new == old,
    }
}

/// Key presses while the ticker of a new stock is typed.
pub open spec fn add_id_step<Q>(old: App<Q>, new: App<Q>, key: Key, act: Action) -> bool {
    match key {
        Key::Esc => {
            &&& new_stock_cleared(App::<Q> { error_msg: None, ..old }, new, Mode::EditStocks)
            &&& act is Idle
        },
        Key::Enter => {
            &&& new == old
            &&& if trim_spec(old.new_stock_id@).len() > 0 {
                act matches Action::Lookup(q) && q@ == trim_spec(old.new_stock_id@)
            } else {
                act is Idle
            }
        },
        Key::Backspace => {
            &&& new == (App::<Q> { new_stock_id: new.new_stock_id, error_msg: None, ..old })
            &&& new.new_stock_id@ == (if old.new_stock_id@.len() > 0 {
                old.new_stock_id@.drop_last()
            } else {
                old.new_stock_id@
            })
            &&& act is Idle
        },
        Key::Char(c) => {
            &&& new == (App::<Q> { new_stock_id: new.new_stock_id, error_msg: None, ..old })
            &&& new.new_stock_id@ == old.new_stock_id@.push(c)
            &&& act is Idle
        },
        _ => new == old && act is Idle,
    }
}

/// The (ticker, name) that confirming a new stock adds: the typed ticker trimmed and
/// in upper case, the typed name trimmed.
pub open spec fn new_entry<Q>(app: App<Q>) -> (Seq<char>, Seq<char>) {
    (upper_spec(trim_spec(app.new_stock_id@)), trim_spec(app.new_stock_name@))
}

/// Key presses while a new stock is confirmed.
pub open spec fn add_name_step<Q>(old: App<Q>, new: App<Q>, key: Key, act: Action) -> bool {
    match key {
        Key::Esc => {
            &&& new_stock_cleared(App::<Q> { error_msg: None, ..old }, new, Mode::EditStocks)
            &&& act is Idle
        },
        Key::Enter => if trim_spec(old.new_stock_name@).len() > 0 && trim_spec(
            old.new_stock_id@,
        ).len() > 0 {
            let len = old.config.watchlist@.len();
            &&& new_stock_cleared(
                App::<Q> {
                    config: new.config,
                    error_msg: None,
                    stocks_selected: Some(len as usize),
                    ..old
                },
                new,
                Mode::EditStocks,
            )
            &&& new.config.interval == old.config.interval
            &&& watchlist_view(new.config.watchlist@) == watchlist_view(
                old.config.watchlist@,
            ).push(new_entry(old))
            &&& act is Save
        } else {
            new == old && act is Idle
        },
        Key::Backspace => {
            &&& new == (App::<Q> { new_stock_name: new.new_stock_name, ..old })
            &&& new.new_stock_name@ == (if old.new_stock_name@.len() > 0 {
                old.new_stock_name@.drop_last()
            } else {
                old.new_stock_name@
            })
            &&& act is Idle
        },
        Key::Char(c) => {
            &&& new == (App::<Q> { new_stock_name: new.new_stock_name, ..old })
            &&& new.new_stock_name@ == old.new_stock_name@.push(c)
            &&& act is Idle
        },
        _ => new == old && act is Idle,
    }
}

/// The selection after the row `i` was deleted and `len` rows are left.
pub open spec fn selection_after_delete(old: Option<usize>, i: int, len: int) -> Option<usize> {
    if len > 0 {
        Some((if i >= len {
            len - 1
        } else {
            i
        }) as usize)
    } else {
        old
    }
}

/// Key presses on the delete confirmation.
pub open spec fn confirm_delete_step<Q>(old: App<Q>, new: App<Q>, key: Key, act: Action) -> bool {
    match key {
        Key::Esc => new == (App::<Q> { mode: Mode::EditStocks, delete_index: None, ..old })
            && act is Idle,
        Key::Char(c) => if is_letter(c, 'n', 'N') {
            new == (App::<Q> { mode: Mode::EditStocks, delete_index: None, ..old }) && act is Idle
        } else if is_letter(c, 'y', 'Y') {
            match old.delete_index {
                Some(i) => if i < old.config.watchlist@.len() {
                    let left = old.config.watchlist@.remove(i as int);
                    &&& new == (App::<Q> {
                        mode: Mode::EditStocks,
                        delete_index: None,
                        config: new.config,
                        stocks_selected: selection_after_delete(
                            old.stocks_selected,
                            i as int,
                            left.len() as int,
                        ),
                        ..old
                    })
                    &&& new.config.interval == old.config.interval
                    &&& new.config.watchlist@ == left
                    &&& act is Save
                } else {
                    new == (App::<Q> { mode: Mode::EditStocks, delete_index: None, ..old })
                        && act is Idle
                },
                None => new == (App::<Q> { mode: Mode::EditStocks, delete_index: None, ..old })
                    && act is Idle,
            }
        } else {
            new == old && act is Idle
        },
        _ => new == old && act is Idle,
    }
}

/// What the key press `key` does: from `old` the state becomes `new` and the front
/// end is asked for `act`.
pub open spec fn key_step<Q>(old: App<Q>, new: App<Q>, key: Key, act: Action) -> bool {
    match old.mode {
        Mode::Main => main_step(old, new, key, act),
        Mode::Settings => settings_step(old, new, key, act),
        Mode::EditInterval => edit_interval_step(old, new, key, act),
        Mode::EditStocks => edit_stocks_step(old, new, key, act),
        Mode::AddStockId => add_id_step(old, new, key, act),
        Mode::AddStockName => add_name_step(old, new, key, act),
        Mode::ConfirmDelete => confirm_delete_step(old, new, key, act),
    }
}

/// The invariant of the screens' state.
pub open spec fn wf<Q>(app: App<Q>) -> bool {
    &&& app.settings_selected matches Some(i) && i <= 1
    &&& (app.stocks_selected matches Some(i) ==> (i == 0 || i < app.config.watchlist@.len()))
    &&& (app.mode == Mode::ConfirmDelete <==> app.delete_index is Some)
    &&& (app.delete_index matches Some(i) ==> i < app.config.watchlist@.len())
    &&& all_digits(app.input_buffer@)
    &&& (app.input_buffer@.len() > 0 ==> app.mode == Mode::EditInterval)
    &&& (app.mode != Mode::AddStockId && app.mode != Mode::AddStockName) ==> (
    app.new_stock_id@.len() == 0 && app.new_stock_name@.len() == 0)
    &&& (app.error_msg is Some ==> app.mode == Mode::AddStockId)
    &&& app.editing_field == 0
}

fn up(o: Option<usize>) -> (r: Option<usize>)
    ensures
        r == moved_up(o),
{
    let i = match o {
        Some(i) => i,
        None => 0,
    };
    if i > 0 {
        Some(i - 1)
    } else {
        o
    }
}

fn down(o: Option<usize>, last: usize) -> (r: Option<usize>)
    ensures
        r == moved_down(o, last as int),
{
    let i = match o {
        Some(i) => i,
        None => 0,
    };
    if i < last {
        Some(i + 1)
    } else {
        o
    }
}

fn fitted(o: Option<usize>, len: usize) -> (r: Option<usize>)
    ensures
        r == drawn_selection(o, len as int),
{
    if len == 0 {
        return None;
    }
    match o {
        Some(s) => if s >= len {
            Some(len - 1)
        } else {
            o
        },
        None => None,
    }
}

fn last_of(len: usize) -> (r: usize)
    ensures
        r == last_index(len as int),
{
    if len > 0 {
        len - 1
    } else {
        0
    }
}

impl<Q> App<Q> {
    /// The screens as they open: the quote table, every list on its first row,
    /// nothing typed and no quotes yet.
    pub fn new(config: Config) -> (app: App<Q>)
        ensures
            app.mode == Mode::Main,
            app.config == config,
            app.quotes@.len() == 0,
            app.last_update@ == never_updated(),
            app.table_selected == Some(0usize),
            app.settings_selected == Some(0usize),
            app.stocks_selected == Some(0usize),
            app.input_buffer@.len() == 0,
            app.editing_field == 0,
            app.error_msg is None,
            app.new_stock_id@.len() == 0,
            app.new_stock_name@.len() == 0,
            app.delete_index is None,
            wf(app),
    {
        App {
            mode: Mode::Main,
            config,
            quotes: Vec::new(),
            last_update: String::from_str("尚未更新"),
            table_selected: Some(0),
            settings_selected: Some(0),
            stocks_selected: Some(0),
            input_buffer: String::new(),
            editing_field: 0,
            error_msg: None,
            new_stock_id: String::new(),
            new_stock_name: String::new(),
            delete_index: None,
        }
    }

    /// Takes a batch of fresh quotes stamped `time`; only the quote table takes them,
    /// other screens drop them.
    pub fn receive_quotes(&mut self, quotes: Vec<Q>, time: String)
        ensures
            old(self).mode == Mode::Main ==> *final(self) == (App::<Q> {
                quotes: quotes,
                last_update: time,
                ..*old(self)
            }),
            old(self).mode != Mode::Main ==> *final(self) == *old(self),
    {
        if self.mode == Mode::Main {
            self.quotes = quotes;
            self.last_update = time;
        }
    }

    fn main_key(&mut self, key: Key) -> (act: Action)
        ensures
            main_step(*old(self), *final(self), key, act),
    {
        match key {
            Key::Char(c) => {
                if c == 'q' || c == 'Q' {
                    Action::Quit
                } else if c == 's' || c == 'S' {
                    self.mode = Mode::Settings;
                    Action::Idle
                } else {
                    Action::Idle
                }
            },
            Key::Up => {
                self.table_selected = up(self.table_selected);
                Action::Idle
            },
            Key::Down => {
                let last = last_of(self.quotes.len());
                self.table_selected = down(self.table_selected, last);
                Action::Idle
            },
            _ => Action::Idle,
        }
    }

    fn settings_key(&mut self, key: Key) -> (act: Action)
        ensures
            settings_step(*old(self), *final(self), key, act),
    {
        match key {
            Key::Esc => {
                self.mode = Mode::Main;
            },
            Key::Char(c) => {
                if c == 's' || c == 'S' {
                    self.mode = Mode::Main;
                }
            },
            Key::Up => {
                self.settings_selected = up(self.settings_selected);
            },
            Key::Down => {
                self.settings_selected = down(self.settings_selected, 1);
            },
            Key::Enter => {
                let i = match self.settings_selected {
                    Some(i) => i,
                    None => 0,
                };
                if i == 0 {
                    self.mode = Mode::EditInterval;
                    self.input_buffer = to_decimal(self.config.interval);
                } else {
                    self.mode = Mode::EditStocks;
                }
            },
            _ => {},
        }
        Action::Idle
    }

    fn edit_interval_key(&mut self, key: Key) -> (act: Action)
        ensures
            edit_interval_step(*old(self), *final(self), key, act),
    {
        match key {
            Key::Esc => {
                self.mode = Mode::Settings;
                self.input_buffer = String::new();
                Action::Idle
            },
            Key::Enter => {
                let t = trim(self.input_buffer.as_str());
                match parse_u64(t.as_str()) {
                    Some(n) => {
                        if n > 0 && n <= 300 {
                            self.config.interval = n;
                            self.mode = Mode::Settings;
                            self.input_buffer = String::new();
                            Action::Save
                        } else {
                            Action::Idle
                        }
                    },
                    None => Action::Idle,
                }
            },
            Key::Backspace => {
                pop_char(&mut self.input_buffer);
                Action::Idle
            },
            Key::Char(c) => {
                if '0' <= c && c <= '9' {
                    push_char(&mut self.input_buffer, c);
                }
                Action::Idle
            },
            _ => Action::Idle,
        }
    }

    fn edit_stocks_key(&mut self, key: Key) -> (act: Action)
        ensures
            edit_stocks_step(*old(self), *final(self), key, act),
    {
        match key {
            Key::Esc => {
                self.mode = Mode::Settings;
                self.error_msg = None;
            },
            Key::Up => {
                self.stocks_selected = up(self.stocks_selected);
            },
            Key::Down => {
                let last = last_of(self.config.watchlist.len());
                self.stocks_selected = down(self.stocks_selected, last);
            },
            Key::Char(c) => {
                if c == 'a' || c == 'A' {
                    self.mode = Mode::AddStockId;
                    self.new_stock_id = String::new();
                    self.new_stock_name = String::new();
                } else if c == 'd' || c == 'D' {
                    match self.stocks_selected {
                        Some(i) => {
                            if i < self.config.watchlist.len() {
                                self.delete_index = Some(i);
                                self.mode = Mode::ConfirmDelete;
                            }
                        },
                        None => {},
                    }
                }
            },
            _ => {},
        }
        Action::Idle
    }

    fn add_id_key(&mut self, key: Key) -> (act: Action)
        ensures
            add_id_step(*old(self), *final(self), key, act),
    {
        match key {
            Key::Esc => {
                self.mode = Mode::EditStocks;
                self.new_stock_id = String::new();
                self.new_stock_name = String::new();
                self.error_msg = None;
                Action::Idle
            },
            Key::Enter => {
                let query = trim(self.new_stock_id.as_str());
                if !query.as_str().is_empty() {
                    Action::Lookup(query)
                } else {
                    Action::Idle
                }
            },
            Key::Backspace => {
                pop_char(&mut self.new_stock_id);
                self.error_msg = None;
                Action::Idle
            },
            Key::Char(c) => {
                push_char(&mut self.new_stock_id, c);
                self.error_msg = None;
                Action::Idle
            },
            _ => Action::Idle,
        }
    }

    fn add_name_key(&mut self, key: Key) -> (act: Action)
        ensures
            add_name_step(*old(self), *final(self), key, act),
    {
        match key {
            Key::Esc => {
                self.mode = Mode::EditStocks;
                self.new_stock_id = String::new();
                self.new_stock_name = String::new();
                self.error_msg = None;
                Action::Idle
            },
            Key::Enter => {
                let name = trim(self.new_stock_name.as_str());
                let id = trim(self.new_stock_id.as_str());
                if !name.as_str().is_empty() && !id.as_str().is_empty() {
                    let stock = StockItem { id: to_upper(id.as_str()), name };
                    let ghost before = self.config.watchlist@;
                    self.config.watchlist.push(stock);
                    proof {
                        assert(watchlist_view(self.config.watchlist@) =~= watchlist_view(
                            before,
                        ).push(stock@));
                    }
                    self.mode = Mode::EditStocks;
                    self.new_stock_id = String::new();
                    self.new_stock_name = String::new();
                    self.error_msg = None;
                    let len = self.config.watchlist.len();
                    self.stocks_selected = Some(len - 1);
                    Action::Save
                } else {
                    Action::Idle
                }
            },
            Key::Backspace => {
                pop_char(&mut self.new_stock_name);
                Action::Idle
            },
            Key::Char(c) => {
                push_char(&mut self.new_stock_name, c);
                Action::Idle
            },
            _ => Action::Idle,
        }
    }

    fn confirm_delete_key(&mut self, key: Key) -> (act: Action)
        ensures
            confirm_delete_step(*old(self), *final(self), key, act),
    {
        match key {
            Key::Esc => {
                self.mode = Mode::EditStocks;
                self.delete_index = None;
                Action::Idle
            },
            Key::Char(c) => {
                if c == 'n' || c == 'N' {
                    self.mode = Mode::EditStocks;
                    self.delete_index = None;
                    Action::Idle
                } else if c == 'y' || c == 'Y' {
                    let mut act = Action::Idle;
                    match self.delete_index {
                        Some(i) => {
                            if i < self.config.watchlist.len() {
                                self.config.watchlist.remove(i);
                                let len = self.config.watchlist.len();
                                if len > 0 {
                                    let new_idx = if i >= len {
                                        len - 1
                                    } else {
                                        i
                                    };
                                    self.stocks_selected = Some(new_idx);
                                }
                                act = Action::Save;
                            }
                        },
                        None => {},
                    }
                    self.mode = Mode::EditStocks;
                    self.delete_index = None;
                    act
                } else {
                    Action::Idle
                }
            },
            _ => Action::Idle,
        }
    }

    /// Takes the answer to the lookup that Enter on the ticker prompt asked for: a found
    /// stock moves on to its confirmation, no stock shows the not-found message.
    pub fn finish_lookup(&mut self, found: Option<(String, String)>)
        requires
            old(self).mode == Mode::AddStockId,
        ensures
            match found {
                Some((symbol, name)) => *final(self) == (App::<Q> {
                    new_stock_id: symbol,
                    new_stock_name: name,
                    mode: Mode::AddStockName,
                    error_msg: None,
                    ..*old(self)
                }),
                None => {
                    &&& *final(self) == (App::<Q> { error_msg: final(self).error_msg, ..*old(self) })
                    &&& final(self).error_msg matches Some(m) && m@ == not_found_message()
                },
            },
            wf(*old(self)) ==> wf(*final(self)),
    {
        match found {
            Some((symbol, name)) => {
                self.new_stock_id = symbol;
                self.new_stock_name = name;
                self.mode = Mode::AddStockName;
                self.error_msg = None;
            },
            None => {
                self.error_msg = Some(String::from_str("找不到此股票"));
            },
        }
    }

    /// Records that the quote table was drawn: its selection is fitted to the rows.
    pub fn table_drawn(&mut self)
        ensures
            *final(self) == (App::<Q> {
                table_selected: drawn_selection(old(self).table_selected, old(self).quotes@.len() as int),
                ..*old(self)
            }),
            wf(*old(self)) ==> wf(*final(self)),
    {
        self.table_selected = fitted(self.table_selected, self.quotes.len());
    }

    /// Records that the watch list was drawn: its selection is fitted to the stocks.
    pub fn stocks_list_drawn(&mut self)
        ensures
            *final(self) == (App::<Q> {
                stocks_selected: drawn_selection(
                    old(self).stocks_selected,
                    old(self).config.watchlist@.len() as int,
                ),
                ..*old(self)
            }),
            wf(*old(self)) ==> wf(*final(self)),
    {
        self.stocks_selected = fitted(self.stocks_selected, self.config.watchlist.len());
    }

    /// The ticker and name of the stock that the delete confirmation asks about,
    /// separated by a space; empty where no such stock is pending.
    pub fn pending_delete_label(&self) -> (r: String)
        ensures
            match self.delete_index {
                Some(i) => if i < self.config.watchlist@.len() {
                    r@ == self.config.watchlist@[i as int].id@ + " "@
                        + self.config.watchlist@[i as int].name@
                } else {
                    r@.len() == 0
                },
                None => r@.len() == 0,
            },
    {
        match self.delete_index {
            Some(i) => {
                if i < self.config.watchlist.len() {
                    let s = &self.config.watchlist[i];
                    let mut r = s.id.clone();
                    r.append(" ");
                    r.append(s.name.as_str());
                    r
                } else {
                    String::new()
                }
            },
            None => String::new(),
        }
    }

    /// Applies the key press `key` and says what the front end has to do.
    pub fn handle_key(&mut self, key: Key) -> (act: Action)
        ensures
            key_step(*old(self), *final(self), key, act),
    {
        match self.mode {
            Mode::Main => self.main_key(key),
            Mode::Settings => self.settings_key(key),
            Mode::EditInterval => self.edit_interval_key(key),
            Mode::EditStocks => self.edit_stocks_key(key),
            Mode::AddStockId => self.add_id_key(key),
            Mode::AddStockName => self.add_name_key(key),
            Mode::ConfirmDelete => self.confirm_delete_key(key),
        }
    }
}

/// The trimmed text of a run of digits is the run itself.
proof fn lemma_trim_digits(s: Seq<char>)
    requires
        all_digits(s),
    ensures
        trim_spec(s) == s,
{
    if s.len() > 0 {
        assert(!crate::text::is_white_space(s[0]));
        assert(!crate::text::is_white_space(s.last()));
    }
}

/// Every key press keeps the screens' invariant.
pub proof fn law_key_step_keeps_wf<Q>(old: App<Q>, new: App<Q>, key: Key, act: Action)
    requires
        wf(old),
        key_step(old, new, key, act),
    ensures
        wf(new),
{
    crate::number::lemma_decimal(old.config.interval as nat);
    match old.mode {
        Mode::Main => assert(wf(new)),
        Mode::Settings => assert(wf(new)),
        Mode::EditInterval => {
            if old.input_buffer@.len() > 0 {
                assert(all_digits(old.input_buffer@.drop_last()));
            }
            if let Key::Char(c) = key {
                if '0' <= c <= '9' {
                    assert(all_digits(old.input_buffer@.push(c)));
                }
            }
            assert(wf(new));
        },
        Mode::EditStocks => assert(wf(new)),
        Mode::AddStockId => assert(wf(new)),
        Mode::AddStockName => {
            assert(watchlist_view(new.config.watchlist@).len() == new.config.watchlist@.len());
            assert(watchlist_view(old.config.watchlist@).len() == old.config.watchlist@.len());
            assert(wf(new));
        },
        Mode::ConfirmDelete => assert(wf(new)),
    }
}

/// Quotes arriving keep the screens' invariant.
pub proof fn law_receive_keeps_wf<Q>(old: App<Q>, quotes: Vec<Q>, time: String)
    requires
        wf(old),
    ensures
        wf(if old.mode == Mode::Main {
            App::<Q> { quotes: quotes, last_update: time, ..old }
        } else {
            old
        }),
{
}

/// The configuration changes only on a key press that asks for it to be saved.
pub proof fn law_config_changes_are_saved<Q>(old: App<Q>, new: App<Q>, key: Key, act: Action)
    requires
        key_step(old, new, key, act),
        !(act is Save),
    ensures
        new.config == old.config,
{
}

/// A key press that changes the refresh interval sets it to between 1 and 300 seconds.
pub proof fn law_interval_in_range<Q>(old: App<Q>, new: App<Q>, key: Key, act: Action)
    requires
        key_step(old, new, key, act),
        new.config.interval != old.config.interval,
    ensures
        1 <= new.config.interval <= 300,
        act is Save,
{
}

/// Opening the interval editor and confirming at once keeps the interval and saves it.
pub proof fn law_interval_edit_round_trip<Q>(
    a: App<Q>,
    b: App<Q>,
    c: App<Q>,
    act1: Action,
    act2: Action,
)
    requires
        a.mode == Mode::Settings,
        sel(a.settings_selected) == 0,
        1 <= a.config.interval <= 300,
        key_step(a, b, Key::Enter, act1),
        key_step(b, c, Key::Enter, act2),
    ensures
        b.mode == Mode::EditInterval,
        c.mode == Mode::Settings,
        c.config == a.config,
        act2 is Save,
{
    crate::number::lemma_decimal(a.config.interval as nat);
    crate::number::law_decimal_reads_back(a.config.interval);
    lemma_trim_digits(b.input_buffer@);
}

/// On the quote table, Up then Down returns to the row that was selected.
pub proof fn law_up_then_down<Q>(a: App<Q>, b: App<Q>, c: App<Q>, act1: Action, act2: Action)
    requires
        a.mode == Mode::Main,
        a.table_selected matches Some(i) && 0 < i <= last_index(a.quotes@.len() as int),
        key_step(a, b, Key::Up, act1),
        key_step(b, c, Key::Down, act2),
    ensures
        c == a,
{
}

/// Only Q on the quote table leaves the program, and it changes nothing.
pub proof fn law_quit_only_from_table<Q>(old: App<Q>, new: App<Q>, key: Key, act: Action)
    requires
        key_step(old, new, key, act),
        act is Quit,
    ensures
        old.mode == Mode::Main,
        key matches Key::Char(c) && is_letter(c, 'q', 'Q'),
        new == old,
{
}

/// Drawing the settings menu, which always has two rows, leaves its selection as it is.
pub proof fn law_settings_drawing_keeps_selection<Q>(app: App<Q>)
    requires
        wf(app),
    ensures
        drawn_selection(app.settings_selected, 2) == app.settings_selected,
{
}

/// The screen that Esc goes back to from `mode`.
pub open spec fn back_from(mode: Mode) -> Mode {
    match mode {
        Mode::Main => Mode::Main,
        Mode::Settings => Mode::Main,
        Mode::EditInterval => Mode::Settings,
        Mode::EditStocks => Mode::Settings,
        Mode::AddStockId => Mode::EditStocks,
        Mode::AddStockName => Mode::EditStocks,
        Mode::ConfirmDelete => Mode::EditStocks,
    }
}

/// Esc goes back one screen, never leaves the program and never changes the configuration.
pub proof fn law_esc_goes_back<Q>(old: App<Q>, new: App<Q>, act: Action)
    requires
        key_step(old, new, Key::Esc, act),
    ensures
        new.mode == back_from(old.mode),
        act is Idle,
        new.config == old.config,
{
}

/// Typing a character and erasing it again gives back the typed text (and clears the
/// lookup message on the ticker prompt).
pub proof fn law_backspace_undoes_typing<Q>(
    a: App<Q>,
    b: App<Q>,
    c: App<Q>,
    ch: char,
    act1: Action,
    act2: Action,
)
    requires
        a.mode == Mode::EditInterval ==> '0' <= ch <= '9',
        key_step(a, b, Key::Char(ch), act1),
        key_step(b, c, Key::Backspace, act2),
        a.mode == Mode::EditInterval || a.mode == Mode::AddStockId || a.mode
            == Mode::AddStockName,
    ensures
        c.input_buffer@ == a.input_buffer@,
        c.new_stock_id@ == a.new_stock_id@,
        c.new_stock_name@ == a.new_stock_name@,
        c == (App::<Q> {
            input_buffer: c.input_buffer,
            new_stock_id: c.new_stock_id,
            new_stock_name: c.new_stock_name,
            error_msg: if a.mode == Mode::AddStockId {
                None
            } else {
                a.error_msg
            },
            ..a
        }),
{
    assert(a.input_buffer@.push(ch).drop_last() == a.input_buffer@);
    assert(a.new_stock_id@.push(ch).drop_last() == a.new_stock_id@);
    assert(a.new_stock_name@.push(ch).drop_last() == a.new_stock_name@);
}

/// Confirming a delete removes exactly the stock that the confirmation names: the
/// stocks before it stay where they were, the ones after it move up by one, the
/// interval is kept, and the change is saved.
pub proof fn law_confirmed_delete_removes_pending_stock<Q>(
    old: App<Q>,
    new: App<Q>,
    c: char,
    act: Action,
    i: usize,
)
    requires
        old.mode == Mode::ConfirmDelete,
        old.delete_index == Some(i),
        i < old.config.watchlist@.len(),
        is_letter(c, 'y', 'Y'),
        key_step(old, new, Key::Char(c), act),
    ensures
        new.config.watchlist@.len() == old.config.watchlist@.len() - 1,
        forall|j: int| 0 <= j < i ==> new.config.watchlist@[j] == old.config.watchlist@[j],
        forall|j: int|
            i <= j < new.config.watchlist@.len() ==> new.config.watchlist@[j]
                == old.config.watchlist@[j + 1],
        new.config.interval == old.config.interval,
        new.mode == Mode::EditStocks,
        new.delete_index is None,
        act is Save,
        new.config.watchlist@.len() > 0 ==> new.stocks_selected == Some(
            (if i < new.config.watchlist@.len() {
                i as int
            } else {
                new.config.watchlist@.len() - 1
            }) as usize,
        ),
        new.config.watchlist@.len() == 0 ==> new.stocks_selected == old.stocks_selected,
{
}

/// Confirming a new stock appends one entry, keeps every earlier entry, and the new
/// entry's ticker is the typed ticker trimmed and upper-cased and its name the typed
/// name with only surrounding white space removed; the change is saved.
pub proof fn law_confirmed_add_appends_typed_stock<Q>(old: App<Q>, new: App<Q>, act: Action)
    requires
        old.mode == Mode::AddStockName,
        trim_spec(old.new_stock_name@).len() > 0,
        trim_spec(old.new_stock_id@).len() > 0,
        key_step(old, new, Key::Enter, act),
    ensures
        new.config.watchlist@.len() == old.config.watchlist@.len() + 1,
        forall|j: int|
            0 <= j < old.config.watchlist@.len() ==> (#[trigger] new.config.watchlist@[j])@
                == old.config.watchlist@[j]@,
        new.config.watchlist@.last().name@ == trim_spec(old.new_stock_name@),
        new.config.watchlist@.last().id@ == upper_spec(trim_spec(old.new_stock_id@)),
        new.config.interval == old.config.interval,
        new.mode == Mode::EditStocks,
        act is Save,
{
    let w = new.config.watchlist@;
    let o = old.config.watchlist@;
    assert(watchlist_view(w).len() == w.len());
    assert(watchlist_view(o).len() == o.len());
    assert(watchlist_view(w)[w.len() - 1] == w.last()@);
    assert forall|j: int| 0 <= j < o.len() implies (#[trigger] w[j])@ == o[j]@ by {
        assert(watchlist_view(w)[j] == w[j]@);
        assert(watchlist_view(o)[j] == o[j]@);
    }
}

/// Down moves the selection one row further while it is above the last row, and never
/// past it; Up moves it one row back while it is below the first row.
pub proof fn law_arrow_keys_move_one_row<Q>(old: App<Q>, new: App<Q>, key: Key, act: Action)
    requires
        key_step(old, new, key, act),
        key is Up || key is Down,
        old.mode == Mode::Main || old.mode == Mode::Settings || old.mode == Mode::EditStocks,
    ensures
        ({
            let (o, n, len) = match old.mode {
                Mode::Main => (old.table_selected, new.table_selected, old.quotes@.len() as int),
                Mode::Settings => (old.settings_selected, new.settings_selected, 2int),
                _ => (old.stocks_selected, new.stocks_selected, old.config.watchlist@.len() as int),
            };
            &&& key is Down && sel(o) + 1 < len ==> n == Some((sel(o) + 1) as usize)
            &&& key is Down && sel(o) + 1 >= len ==> n == o
            &&& key is Up && sel(o) > 0 ==> n == Some((sel(o) - 1) as usize)
            &&& key is Up && sel(o) <= 0 ==> n == o
        }),
        new.config == old.config,
        new.mode == old.mode,
        act is Idle,
{
}

/// Enter on the ticker prompt asks to look up exactly the typed ticker without its
/// surrounding white space, and only when that is not empty; nothing else changes.
pub proof fn law_lookup_asks_typed_ticker<Q>(old: App<Q>, new: App<Q>, act: Action)
    requires
        old.mode == Mode::AddStockId,
        key_step(old, new, Key::Enter, act),
    ensures
        new == old,
        trim_spec(old.new_stock_id@).len() > 0 ==> (act matches Action::Lookup(q) && q@ == trim_spec(old.new_stock_id@)),
        trim_spec(old.new_stock_id@).len() == 0 ==> act is Idle,
{
}

/// Drawing a list leaves no selection on an empty list and otherwise a selection on one
/// of its rows, keeping one that already was.
pub proof fn law_drawn_selection_is_a_row(o: Option<usize>, len: int)
    requires
        len >= 0,
    ensures
        len == 0 ==> drawn_selection(o, len) is None,
        drawn_selection(o, len) matches Some(s) ==> s < len,
        o matches Some(s) && s < len ==> drawn_selection(o, len) == o,
        o matches Some(s) && s >= len && len > 0 ==> drawn_selection(o, len) == Some((len - 1) as usize),
        o is None ==> drawn_selection(o, len) is None,
{
}

/// The letter keys: S opens the settings from the table, A starts adding a stock with
/// nothing typed, D asks to delete the selected stock, N declines a delete; none of
/// them changes the configuration.
pub proof fn law_letter_keys<Q>(old: App<Q>, new: App<Q>, c: char, act: Action)
    requires
        key_step(old, new, Key::Char(c), act),
    ensures
        old.mode == Mode::Main && (c == 's' || c == 'S') ==> new.mode == Mode::Settings,
        old.mode == Mode::EditStocks && (c == 'a' || c == 'A') ==> new.mode == Mode::AddStockId
            && new.new_stock_id@.len() == 0 && new.new_stock_name@.len() == 0,
        old.mode == Mode::EditStocks && (c == 'd' || c == 'D') ==> (old.stocks_selected matches Some(i)
            ==> (i < old.config.watchlist@.len() ==> new.mode == Mode::ConfirmDelete
            && new.delete_index == Some(i))),
        old.mode == Mode::ConfirmDelete && (c == 'n' || c == 'N') ==> new.mode == Mode::EditStocks
            && new.delete_index is None,
        !(act is Save) ==> new.config == old.config,
{
}

} // verus!
