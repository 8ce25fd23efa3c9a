use crate::error::AppError;
use crate::highlight::{blank_state, copy_state, highlighted_row};
use crate::list::{highlight_of, ListContext, ListModel};
use crate::listing::{cities_in, countries_in, parse_cities, parse_countries};
use crate::text::{
    chars_of, contains, decode, extend, lines, lines_of, occurs_in, shorten, shortened, texts,
};
use ratatui::widgets::ListState;
use vstd::prelude::*;
use vstd::utf8::{decode_utf8, valid_utf8};

verus! {

/// What is on screen: one of the two lists, or the output of the last
/// connection attempt.
#[derive(Clone, Copy, Debug, PartialEq, Eq, Structural)]
pub enum Screen {
    Countries,
    Cities,
    Connection,
}

/// Whether keys are commands or characters of the search query.
#[derive(Clone, Copy, Debug, PartialEq, Eq, Structural)]
pub enum InputMode {
    Normal,
    Search,
}

/// A key press, reduced to what the navigator tells apart.
#[derive(Clone, Copy, Debug, PartialEq, Eq, Structural)]
pub enum Key {
    Esc,
    Enter,
    Backspace,
    Up,
    Down,
    Char(char),
    Other,
}

/// What a key means in normal mode.
#[derive(Clone, Copy, Debug, PartialEq, Eq, Structural)]
pub enum Command {
    Quit,
    Select,
    Down,
    Up,
    JumpLast,
    G,
    Search,
    Ascend,
    Disconnect,
    Ignore,
}

/// What the caller is to do after a key: nothing, leave, or run the backend
/// and hand its output to the method named here.
#[derive(Clone, Copy, Debug, PartialEq, Eq, Structural)]
pub enum Action {
    /// Nothing.
    Stay,
    /// Leave the event loop.
    Exit,
    /// List the relays and pass the output to `App::set_cities`.
    LoadCities,
    /// List the relays and pass the output to `App::set_countries`, together
    /// with `restart`.
    LoadCountries { restart: bool },
    /// Set the location to `App::selected_country` and `App::selected_city`,
    /// connect, and pass the output to `App::connect`.
    Connect,
    /// Disconnect and pass the output to `App::disconnect`.
    Disconnect,
}

/// What a run of the backend gave: whether it reported success, its exit
/// status as text, and the bytes it wrote.
pub struct CommandOutput {
    pub success: bool,
    pub status: String,
    pub stdout: Vec<u8>,
}

/// The key bindings of normal mode.
pub open spec fn normal_command(key: Key) -> Command {
    match key {
        Key::Esc => Command::Quit,
        Key::Enter => Command::Select,
        Key::Down => Command::Down,
        Key::Up => Command::Up,
        Key::Char(c) => if c == 'q' {
            Command::Quit
        } else if c == 'j' {
            Command::Down
        } else if c == 'k' {
            Command::Up
        } else if c == 'G' {
            Command::JumpLast
        } else if c == 'g' {
            Command::G
        } else if c == '/' || c == 'i' {
            Command::Search
        } else if c == 'h' {
            Command::Ascend
        } else if c == 'D' {
            Command::Disconnect
        } else {
            Command::Ignore
        },
        _ => Command::Ignore,
    }
}

/// Whether the status report of the backend says that a connection stands:
/// it is text and holds the word `Connected`.
pub open spec fn reports_connected(bytes: Seq<u8>) -> bool {
    valid_utf8(bytes) && occurs_in("Connected"@, decode_utf8(bytes))
}

/// The navigator as a value: both lists, the outcome of the last backend
/// action, the query typed on the connection screen, the screen, the input
/// mode, the pending half of the two-key jump, the row that the list widget
/// highlights, and the wish to leave.
pub struct AppModel {
    pub countries: ListModel,
    pub cities: ListModel,
    /// The query while no list is on screen. It narrows nothing; on a list
    /// screen the query is that of the list.
    pub loose_query: Seq<char>,
    pub output: Seq<Seq<char>>,
    pub connected: bool,
    pub screen: Screen,
    pub mode: InputMode,
    pub awaiting_second_g: bool,
    pub highlight: Option<usize>,
    pub exit: bool,
}

impl AppModel {
    /// The row that the list on screen asks to be highlighted; on the
    /// connection screen, whatever was highlighted last.
    pub open spec fn due_highlight(self) -> Option<usize> {
        match self.screen {
            Screen::Countries => highlight_of(self.countries),
            Screen::Cities => highlight_of(self.cities),
            Screen::Connection => self.highlight,
        }
    }

    /// The same state with the highlighted row brought in line.
    pub open spec fn synced(self) -> AppModel {
        AppModel { highlight: self.due_highlight(), ..self }
    }

    /// Both selections lie within their lists and the highlighted row is the
    /// selection of the list on screen.
    pub open spec fn wf(self) -> bool {
        &&& self.countries.wf()
        &&& self.cities.wf()
        &&& self.highlight == self.due_highlight()
    }

    /// The list on screen changed by `f`; on the connection screen nothing.
    pub open spec fn on_active(self, f: spec_fn(ListModel) -> ListModel) -> AppModel {
        match self.screen {
            Screen::Countries => AppModel { countries: f(self.countries), ..self },
            Screen::Cities => AppModel { cities: f(self.cities), ..self },
            Screen::Connection => self,
        }
    }

    /// The rows to draw: the items on display of the list on screen, or the
    /// output lines of the last backend action.
    pub open spec fn rows(self) -> Seq<Seq<char>> {
        match self.screen {
            Screen::Countries => self.countries.shown(),
            Screen::Cities => self.cities.shown(),
            Screen::Connection => self.output,
        }
    }

    /// Whether `row` is to be drawn as the selected one: on a list screen the
    /// row at the selection, on the connection screen none.
    pub open spec fn is_selected(self, row: nat) -> bool {
        match self.screen {
            Screen::Countries => row == self.countries.index,
            Screen::Cities => row == self.cities.index,
            Screen::Connection => false,
        }
    }

    /// The search query: that of the list on screen, or on the connection
    /// screen what was typed there.
    pub open spec fn query(self) -> Seq<char> {
        match self.screen {
            Screen::Countries => self.countries.query,
            Screen::Cities => self.cities.query,
            Screen::Connection => self.loose_query,
        }
    }

    /// One more character in the query. A list on screen is narrowed anew
    /// from the items it was loaded with.
    pub open spec fn typed(self, c: char) -> AppModel {
        match self.screen {
            Screen::Countries => AppModel { countries: self.countries.typed(c), ..self },
            Screen::Cities => AppModel { cities: self.cities.typed(c), ..self },
            Screen::Connection => AppModel { loose_query: self.loose_query.push(c), ..self },
        }
    }

    /// The query without its last character. A list on screen is narrowed
    /// anew from the items it was loaded with.
    pub open spec fn erased(self) -> AppModel {
        match self.screen {
            Screen::Countries => AppModel { countries: self.countries.erased(), ..self },
            Screen::Cities => AppModel { cities: self.cities.erased(), ..self },
            Screen::Connection => AppModel { loose_query: shortened(self.loose_query), ..self },
        }
    }

    /// The state at start: the countries of the listing, no cities, nothing
    /// pending, normal mode.
    pub open spec fn initial(listing: Seq<char>, connected: bool) -> AppModel {
        AppModel {
            countries: ListModel::fresh(countries_in(listing)),
            cities: ListModel::fresh(Seq::empty()),
            loose_query: Seq::empty(),
            output: Seq::empty(),
            connected,
            screen: Screen::Countries,
            mode: InputMode::Normal,
            awaiting_second_g: false,
            highlight: None,
            exit: false,
        }.synced()
    }

    /// A key in normal mode, before the highlighted row is brought in line.
    ///
    /// Only a first `g` leaves the jump pending; every other key ends it. A
    /// step that needs the backend changes nothing yet: the state moves when
    /// the output arrives.
    pub open spec fn normal_move(self, key: Key) -> (AppModel, Action) {
        let command = normal_command(key);
        let m = AppModel {
            awaiting_second_g: command == Command::G && !self.awaiting_second_g,
            ..self
        };
        match command {
            Command::Quit => (AppModel { exit: true, ..m }, Action::Exit),
            Command::Select => match self.screen {
                Screen::Countries => (
                    m,
                    if self.countries.selected() is Some {
                        Action::LoadCities
                    } else {
                        Action::Stay
                    },
                ),
                Screen::Cities => (
                    m,
                    if self.countries.selected() is Some && self.cities.selected() is Some {
                        Action::Connect
                    } else {
                        Action::Stay
                    },
                ),
                Screen::Connection => (m, Action::LoadCountries { restart: true }),
            },
            Command::Down => (m.on_active(|l: ListModel| l.down()), Action::Stay),
            Command::Up => (m.on_active(|l: ListModel| l.up()), Action::Stay),
            Command::JumpLast => (m.on_active(|l: ListModel| l.last()), Action::Stay),
            Command::G => if self.awaiting_second_g {
                (m.on_active(|l: ListModel| l.first()), Action::Stay)
            } else {
                (m, Action::Stay)
            },
            Command::Search => (AppModel { mode: InputMode::Search, ..m }, Action::Stay),
            Command::Ascend => match self.screen {
                Screen::Countries => (m, Action::Stay),
                Screen::Cities => (m, Action::LoadCountries { restart: false }),
                Screen::Connection => (
                    m,
                    if self.countries.selected() is Some {
                        Action::LoadCities
                    } else {
                        Action::Stay
                    },
                ),
            },
            Command::Disconnect => (m, Action::Disconnect),
            Command::Ignore => (m, Action::Stay),
        }
    }

    /// A key in search mode, before the highlighted row is brought in line.
    ///
    /// On every screen a character joins the query and a backspace takes the
    /// last one away. Enter leaves search mode and empties the query, except
    /// that a country's filter stays until its cities have arrived.
    pub open spec fn search_move(self, key: Key) -> (AppModel, Action) {
        let m = AppModel { awaiting_second_g: false, ..self };
        let n = AppModel { mode: InputMode::Normal, ..m };
        match key {
            Key::Enter => match self.screen {
                Screen::Countries => if self.countries.selected() is Some {
                    (n, Action::LoadCities)
                } else {
                    (n.on_active(|l: ListModel| l.searched(Seq::empty())), Action::Stay)
                },
                Screen::Cities => (
                    n.on_active(|l: ListModel| l.searched(Seq::empty())),
                    Action::Stay,
                ),
                Screen::Connection => (
                    AppModel { loose_query: Seq::empty(), ..n },
                    Action::LoadCountries { restart: true },
                ),
            },
            Key::Esc => (n, Action::Stay),
            Key::Char(c) => (m.typed(c), Action::Stay),
            Key::Backspace => (m.erased(), Action::Stay),
            _ => (m, Action::Stay),
        }
    }

    /// A key in normal mode.
    pub open spec fn normal_step(self, key: Key) -> (AppModel, Action) {
        (self.normal_move(key).0.synced(), self.normal_move(key).1)
    }

    /// A key in search mode.
    pub open spec fn search_step(self, key: Key) -> (AppModel, Action) {
        (self.search_move(key).0.synced(), self.search_move(key).1)
    }

    /// A key: the next state and what the caller is to do.
    pub open spec fn step(self, key: Key) -> (AppModel, Action) {
        match self.mode {
            InputMode::Normal => self.normal_step(key),
            InputMode::Search => self.search_step(key),
        }
    }

    /// A listing arrived for the selected country: its cities are loaded
    /// afresh and come on screen. Without a selected country nothing moves.
    pub open spec fn with_cities(self, listing: Seq<char>) -> AppModel {
        match self.countries.selected() {
            Some(country) => AppModel {
                cities: ListModel::fresh(cities_in(listing, country)),
                loose_query: Seq::empty(),
                screen: Screen::Cities,
                mode: InputMode::Normal,
                ..self
            }.synced(),
            None => self.synced(),
        }
    }

    /// A listing arrived for the countries: they are loaded afresh and come on
    /// screen. After a restart the country selection is at the top, otherwise
    /// where it was (at the last country, if the new list is shorter). The
    /// city selection returns to the top.
    pub open spec fn with_countries(self, listing: Seq<char>, restart: bool) -> AppModel {
        let fresh = ListModel::fresh(countries_in(listing));
        AppModel {
            countries: if restart {
                fresh
            } else {
                fresh.at(self.countries.index)
            },
            cities: self.cities.first(),
            loose_query: Seq::empty(),
            screen: Screen::Countries,
            mode: InputMode::Normal,
            ..self
        }.synced()
    }

    /// The output of a connection attempt arrived: it replaces the recorded
    /// outcome, and on success the connection screen comes up.
    pub open spec fn with_connection(self, success: bool, output: Seq<char>) -> AppModel {
        AppModel {
            connected: success,
            output: lines_of(output),
            loose_query: if success {
                Seq::empty()
            } else {
                self.loose_query
            },
            screen: if success {
                Screen::Connection
            } else {
                self.screen
            },
            ..self
        }.synced()
    }

    /// The output of a disconnection arrived: it replaces the recorded
    /// outcome; the screen stays.
    pub open spec fn with_disconnection(self, success: bool, output: Seq<char>) -> AppModel {
        AppModel { connected: !success, output: lines_of(output), ..self }.synced()
    }
}

impl Key {
    /// What the key means in normal mode.
    pub fn normal_command(self) -> (command: Command)
        ensures
            command == normal_command(self),
    {
        match self {
            Key::Esc => Command::Quit,
            Key::Enter => Command::Select,
            Key::Down => Command::Down,
            Key::Up => Command::Up,
            Key::Char(c) => if c == 'q' {
                Command::Quit
            } else if c == 'j' {
                Command::Down
            } else if c == 'k' {
                Command::Up
            } else if c == 'G' {
                Command::JumpLast
            } else if c == 'g' {
                Command::G
            } else if c == '/' || c == 'i' {
                Command::Search
            } else if c == 'h' {
                Command::Ascend
            } else if c == 'D' {
                Command::Disconnect
            } else {
                Command::Ignore
            },
            _ => Command::Ignore,
        }
    }
}

impl InputMode {
    /// The mode's name for the status line.
    pub fn label(self) -> (name: &'static str)
        ensures
            name@ == match self {
                InputMode::Normal => "Normal"@,
                InputMode::Search => "Search"@,
            },
    {
        match self {
            InputMode::Normal => "Normal",
            InputMode::Search => "Search",
        }
    }
}

/// The navigator: two lists of relay locations, the outcome of the last
/// backend action, and where the user stands.
pub struct App {
    countries: ListContext,
    cities: ListContext,
    connection_output: Vec<String>,
    connected: bool,
    search_string: String,
    view_mode: Screen,
    input_mode: InputMode,
    state: ListState,
    awaiting_second_g: bool,
    exit: bool,
}

impl View for App {
    type V = AppModel;

    closed spec fn view(&self) -> AppModel {
        AppModel {
            countries: self.countries@,
            cities: self.cities@,
            loose_query: self.search_string@,
            output: texts(self.connection_output@),
            connected: self.connected,
            screen: self.view_mode,
            mode: self.input_mode,
            awaiting_second_g: self.awaiting_second_g,
            highlight: highlighted_row(self.state),
            exit: self.exit,
        }
    }
}

impl App {
    /// Both lists are in order and the widget state highlights the selection
    /// of the list on screen.
    pub closed spec fn wf(&self) -> bool {
        &&& self.countries.wf()
        &&& self.cities.wf()
        &&& self@.wf()
    }

    /// A valid navigator has a valid model.
    pub proof fn lemma_wf(&self)
        requires
            self.wf(),
        ensures
            self@.wf(),
    {
    }

    /// Starts the navigator from the relay listing and the status report of
    /// the backend.
    ///
    /// Fails with `Command` where the listing run reported failure and with
    /// `Utf8` where its output is not text. A status report that is not text
    /// counts as not connected.
    pub fn init(listing: CommandOutput, status: CommandOutput) -> (app: Result<App, AppError>)
        ensures
            match app {
                Ok(a) => {
                    &&& listing.success
                    &&& valid_utf8(listing.stdout@)
                    &&& a.wf()
                    &&& a@ == AppModel::initial(
                        decode_utf8(listing.stdout@),
                        reports_connected(status.stdout@),
                    )
                },
                Err(AppError::Command(s)) => !listing.success && s@ == listing.status@,
                Err(AppError::Utf8(_)) => listing.success && !valid_utf8(listing.stdout@),
                Err(_) => false,
            },
    {
        if !listing.success {
            return Err(AppError::Command(listing.status));
        }
        let text = match decode(listing.stdout) {
            Ok(text) => text,
            Err(e) => {
                return Err(AppError::Utf8(e));
            },
        };
        let connected = match decode(status.stdout) {
            Ok(report) => contains(&chars_of(report.as_str()), &chars_of("Connected")),
            Err(_) => false,
        };
        let mut app = App {
            countries: ListContext::new(parse_countries(text.as_str())),
            cities: ListContext::new(Vec::new()),
            connection_output: Vec::new(),
            connected,
            search_string: String::new(),
            view_mode: Screen::Countries,
            input_mode: InputMode::Normal,
            state: blank_state(),
            awaiting_second_g: false,
            exit: false,
        };
        proof {
            assert(texts(Seq::<String>::empty()) =~= Seq::<Seq<char>>::empty());
        }
        app.sync();
        Ok(app)
    }

    /// Brings the highlighted row of the widget state in line with the
    /// selection of the list on screen.
    fn sync(&mut self)
        requires
            old(self).countries.wf(),
            old(self).cities.wf(),
        ensures
            final(self).wf(),
            final(self)@ == old(self)@.synced(),
    {
        proof {
            self.countries.lemma_wf();
            self.cities.lemma_wf();
        }
        match self.view_mode {
            Screen::Countries => {
                let row = self.countries.highlight();
                self.state.select(row);
            },
            Screen::Cities => {
                let row = self.cities.highlight();
                self.state.select(row);
            },
            Screen::Connection => {},
        }
    }

    /// What is on screen.
    pub fn screen(&self) -> (screen: Screen)
        ensures
            screen == self@.screen,
    {
        self.view_mode
    }

    /// Whether keys are commands or characters of the query.
    pub fn input_mode(&self) -> (mode: InputMode)
        ensures
            mode == self@.mode,
    {
        self.input_mode
    }

    /// Whether the last backend action left a connection standing.
    pub fn connected(&self) -> (connected: bool)
        ensures
            connected == self@.connected,
    {
        self.connected
    }

    /// Whether the user asked to leave.
    pub fn should_exit(&self) -> (exit: bool)
        ensures
            exit == self@.exit,
    {
        self.exit
    }

    /// Whether a first `g` waits for its second.
    pub fn awaiting_second_g(&self) -> (pending: bool)
        ensures
            pending == self@.awaiting_second_g,
    {
        self.awaiting_second_g
    }

    /// The output lines of the last backend action.
    pub fn connection_output(&self) -> (output: &Vec<String>)
        ensures
            texts(output@) == self@.output,
    {
        &self.connection_output
    }

    /// The list of countries.
    pub fn countries(&self) -> (list: &ListContext)
        requires
            self.wf(),
        ensures
            list.wf(),
            list@ == self@.countries,
    {
        &self.countries
    }

    /// The list of cities.
    pub fn cities(&self) -> (list: &ListContext)
        requires
            self.wf(),
        ensures
            list.wf(),
            list@ == self@.cities,
    {
        &self.cities
    }

    /// The selected country, if any is on display.
    pub fn selected_country(&self) -> (country: Option<&String>)
        requires
            self.wf(),
        ensures
            match country {
                Some(s) => self@.countries.selected() == Some(s@),
                None => self@.countries.selected() is None,
            },
    {
        self.countries.selected()
    }

    /// The selected city, if any is on display.
    pub fn selected_city(&self) -> (city: Option<&String>)
        requires
            self.wf(),
        ensures
            match city {
                Some(s) => self@.cities.selected() == Some(s@),
                None => self@.cities.selected() is None,
            },
    {
        self.cities.selected()
    }

    /// The row that the list widget highlights.
    pub fn highlighted(&self) -> (row: Option<usize>)
        ensures
            row == self@.highlight,
    {
        self.state.selected()
    }

    /// A copy of the widget state, for drawing the list on screen.
    pub fn list_state(&self) -> (state: ListState)
        ensures
            highlighted_row(state) == self@.highlight,
    {
        copy_state(&self.state)
    }

    /// Takes back the widget state after drawing, which keeps its scroll
    /// position, and brings its highlighted row in line again.
    pub fn keep_list_state(&mut self, state: ListState)
        requires
            old(self).wf(),
        ensures
            final(self).wf(),
            final(self)@ == (AppModel { highlight: highlighted_row(state), ..old(self)@ }).synced(),
    {
        self.state = state;
        self.sync();
    }

    /// The search query: that of the list on screen, or on the connection
    /// screen what was typed there.
    pub fn search_string(&self) -> (query: &str)
        ensures
            query@ == self@.query(),
    {
        match self.view_mode {
            Screen::Countries => self.countries.query(),
            Screen::Cities => self.cities.query(),
            Screen::Connection => self.search_string.as_str(),
        }
    }

    /// The heading: whether a connection stands.
    pub fn title(&self) -> (title: &'static str)
        ensures
            title@ == if self@.connected {
                "Connected"@
            } else {
                "Disconnected"@
            },
    {
        if self.connected {
            "Connected"
        } else {
            "Disconnected"
        }
    }

    /// The prompt of search mode: the query between its label and a bar.
    pub fn search_prompt(&self) -> (prompt: String)
        ensures
            prompt@ == " Search: "@ + self@.query() + " | "@,
    {
        let mut prompt = String::from_str(" Search: ");
        prompt.append(self.search_string());
        prompt.append(" | ");
        prompt
    }

    /// The rows to draw.
    pub fn rows(&self) -> (rows: &Vec<String>)
        requires
            self.wf(),
        ensures
            texts(rows@) == self@.rows(),
    {
        match self.view_mode {
            Screen::Countries => self.countries.items(),
            Screen::Cities => self.cities.items(),
            Screen::Connection => &self.connection_output,
        }
    }

    /// Whether `row` is to be drawn as the selected one.
    pub fn is_selected(&self, row: usize) -> (selected: bool)
        ensures
            selected == self@.is_selected(row as nat),
    {
        match self.view_mode {
            Screen::Countries => row == self.countries.index(),
            Screen::Cities => row == self.cities.index(),
            Screen::Connection => false,
        }
    }

    /// Moves the selection of the list on screen one item down.
    pub fn increment_index(&mut self)
        requires
            old(self).wf(),
        ensures
            final(self).wf(),
            final(self)@ == old(self)@.on_active(|l: ListModel| l.down()).synced(),
    {
        match self.view_mode {
            Screen::Countries => self.countries.increment(),
            Screen::Cities => self.cities.increment(),
            Screen::Connection => {},
        }
        self.sync();
    }

    /// Moves the selection of the list on screen one item up.
    pub fn decrement_index(&mut self)
        requires
            old(self).wf(),
        ensures
            final(self).wf(),
            final(self)@ == old(self)@.on_active(|l: ListModel| l.up()).synced(),
    {
        match self.view_mode {
            Screen::Countries => self.countries.decrement(),
            Screen::Cities => self.cities.decrement(),
            Screen::Connection => {},
        }
        self.sync();
    }

    /// Handles a key according to the input mode.
    pub fn handle_key_event(&mut self, key: Key) -> (action: Action)
        requires
            old(self).wf(),
        ensures
            final(self).wf(),
            final(self)@ == old(self)@.step(key).0,
            action == old(self)@.step(key).1,
            old(self)@.mode == InputMode::Search ==> {
                &&& key matches Key::Char(c) ==> final(self)@.query() == old(self)@.query().push(c)
                &&& key == Key::Backspace ==> final(self)@.query() == shortened(
                    old(self)@.query(),
                )
                &&& (key matches Key::Char(_)) || key == Key::Backspace ==> {
                    &&& action == Action::Stay
                    &&& final(self)@.mode == InputMode::Search
                    &&& final(self)@.screen == old(self)@.screen
                    &&& final(self)@.exit == old(self)@.exit
                }
            },
    {
        match self.input_mode {
            InputMode::Normal => self.handle_normal_mode(key),
            InputMode::Search => self.handle_search_mode(key),
        }
    }

    /// Handles a key as a command.
    pub fn handle_normal_mode(&mut self, key: Key) -> (action: Action)
        requires
            old(self).wf(),
        ensures
            final(self).wf(),
            final(self)@ == old(self)@.normal_step(key).0,
            action == old(self)@.normal_step(key).1,
    {
        let command = key.normal_command();
        let pending = self.awaiting_second_g;
        self.awaiting_second_g = match command {
            Command::G => !pending,
            _ => false,
        };
        let action = match command {
            Command::Quit => {
                self.exit = true;
                Action::Exit
            },
            Command::Select => match self.view_mode {
                Screen::Countries => if self.countries.selected().is_some() {
                    Action::LoadCities
                } else {
                    Action::Stay
                },
                Screen::Cities => if self.countries.selected().is_some()
                    && self.cities.selected().is_some() {
                    Action::Connect
                } else {
                    Action::Stay
                },
                Screen::Connection => Action::LoadCountries { restart: true },
            },
            Command::Down => {
                match self.view_mode {
                    Screen::Countries => self.countries.increment(),
                    Screen::Cities => self.cities.increment(),
                    Screen::Connection => {},
                }
                Action::Stay
            },
            Command::Up => {
                match self.view_mode {
                    Screen::Countries => self.countries.decrement(),
                    Screen::Cities => self.cities.decrement(),
                    Screen::Connection => {},
                }
                Action::Stay
            },
            Command::JumpLast => {
                match self.view_mode {
                    Screen::Countries => self.countries.jump_to_last(),
                    Screen::Cities => self.cities.jump_to_last(),
                    Screen::Connection => {},
                }
                Action::Stay
            },
            Command::G => {
                if pending {
                    match self.view_mode {
                        Screen::Countries => self.countries.jump_to_first(),
                        Screen::Cities => self.cities.jump_to_first(),
                        Screen::Connection => {},
                    }
                }
                Action::Stay
            },
            Command::Search => {
                self.input_mode = InputMode::Search;
                Action::Stay
            },
            Command::Ascend => match self.view_mode {
                Screen::Countries => Action::Stay,
                Screen::Cities => Action::LoadCountries { restart: false },
                Screen::Connection => if self.countries.selected().is_some() {
                    Action::LoadCities
                } else {
                    Action::Stay
                },
            },
            Command::Disconnect => Action::Disconnect,
            Command::Ignore => Action::Stay,
        };
        self.sync();
        action
    }

    /// Handles a key as input to the search query.
    pub fn handle_search_mode(&mut self, key: Key) -> (action: Action)
        requires
            old(self).wf(),
        ensures
            final(self).wf(),
            final(self)@ == old(self)@.search_step(key).0,
            action == old(self)@.search_step(key).1,
            key matches Key::Char(c) ==> final(self)@.query() == old(self)@.query().push(c),
            key == Key::Backspace ==> final(self)@.query() == shortened(old(self)@.query()),
            (key matches Key::Char(_)) || key == Key::Backspace ==> {
                &&& action == Action::Stay
                &&& final(self)@.mode == old(self)@.mode
                &&& final(self)@.screen == old(self)@.screen
                &&& final(self)@.exit == old(self)@.exit
            },
    {
        self.awaiting_second_g = false;
        let action = match key {
            Key::Enter => {
                self.input_mode = InputMode::Normal;
                match self.view_mode {
                    Screen::Countries => if self.countries.selected().is_some() {
                        Action::LoadCities
                    } else {
                        self.countries.clear_query();
                        Action::Stay
                    },
                    Screen::Cities => {
                        self.cities.clear_query();
                        Action::Stay
                    },
                    Screen::Connection => {
                        self.search_string = String::new();
                        Action::LoadCountries { restart: true }
                    },
                }
            },
            Key::Esc => {
                self.input_mode = InputMode::Normal;
                Action::Stay
            },
            Key::Char(c) => {
                match self.view_mode {
                    Screen::Countries => self.countries.push_query(c),
                    Screen::Cities => self.cities.push_query(c),
                    Screen::Connection => {
                        self.search_string = extend(self.search_string.as_str(), c);
                    },
                }
                Action::Stay
            },
            Key::Backspace => {
                match self.view_mode {
                    Screen::Countries => self.countries.pop_query(),
                    Screen::Cities => self.cities.pop_query(),
                    Screen::Connection => {
                        self.search_string = shorten(self.search_string.as_str());
                    },
                }
                Action::Stay
            },
            _ => Action::Stay,
        };
        self.sync();
        action
    }

    /// Takes the relay listing that `Action::LoadCountries` asked for.
    ///
    /// Fails with `Command` where the run reported failure and with `Utf8`
    /// where its output is not text; the navigator then stays as it was.
    pub fn set_countries(&mut self, reply: CommandOutput, restart: bool) -> (done: Result<
        (),
        AppError,
    >)
        requires
            old(self).wf(),
        ensures
            final(self).wf(),
            match done {
                Ok(_) => {
                    &&& reply.success
                    &&& valid_utf8(reply.stdout@)
                    &&& final(self)@ == old(self)@.with_countries(
                        decode_utf8(reply.stdout@),
                        restart,
                    )
                },
                Err(AppError::Command(s)) => {
                    &&& !reply.success
                    &&& s@ == reply.status@
                    &&& final(self)@ == old(self)@
                },
                Err(AppError::Utf8(_)) => {
                    &&& reply.success
                    &&& !valid_utf8(reply.stdout@)
                    &&& final(self)@ == old(self)@
                },
                Err(_) => false,
            },
    {
        if !reply.success {
            return Err(AppError::Command(reply.status));
        }
        match decode(reply.stdout) {
            Err(e) => Err(AppError::Utf8(e)),
            Ok(text) => {
                let index = self.countries.index();
                self.countries = ListContext::new(parse_countries(text.as_str()));
                if !restart {
                    self.countries.select(index);
                }
                self.cities.jump_to_first();
                self.search_string = String::new();
                self.view_mode = Screen::Countries;
                self.input_mode = InputMode::Normal;
                self.sync();
                Ok(())
            },
        }
    }

    /// Takes the relay listing that `Action::LoadCities` asked for.
    ///
    /// Fails with `Command` where the run reported failure and with `Utf8`
    /// where its output is not text; the navigator then stays as it was.
    pub fn set_cities(&mut self, reply: CommandOutput) -> (done: Result<(), AppError>)
        requires
            old(self).wf(),
        ensures
            final(self).wf(),
            match done {
                Ok(_) => {
                    &&& reply.success
                    &&& valid_utf8(reply.stdout@)
                    &&& final(self)@ == old(self)@.with_cities(decode_utf8(reply.stdout@))
                },
                Err(AppError::Command(s)) => {
                    &&& !reply.success
                    &&& s@ == reply.status@
                    &&& final(self)@ == old(self)@
                },
                Err(AppError::Utf8(_)) => {
                    &&& reply.success
                    &&& !valid_utf8(reply.stdout@)
                    &&& final(self)@ == old(self)@
                },
                Err(_) => false,
            },
    {
        if !reply.success {
            return Err(AppError::Command(reply.status));
        }
        match decode(reply.stdout) {
            Err(e) => Err(AppError::Utf8(e)),
            Ok(text) => {
                match self.countries.selected() {
                    Some(country) => {
                        let cities = parse_cities(text.as_str(), country.as_str());
                        self.cities = ListContext::new(cities);
                        self.search_string = String::new();
                        self.view_mode = Screen::Cities;
                        self.input_mode = InputMode::Normal;
                    },
                    None => {},
                }
                self.sync();
                Ok(())
            },
        }
    }

    /// Takes the output of the connection attempt that `Action::Connect`
    /// asked for.
    ///
    /// Output that is text is recorded whether the attempt succeeded or not.
    /// On success the connection screen comes up. On failure the result is
    /// `Command` and the screen, the lists and the selections stay. Output
    /// that is not text gives `Utf8` and changes nothing.
    pub fn connect(&mut self, reply: CommandOutput) -> (done: Result<(), AppError>)
        requires
            old(self).wf(),
        ensures
            final(self).wf(),
            match done {
                Ok(_) => {
                    &&& reply.success
                    &&& valid_utf8(reply.stdout@)
                    &&& final(self)@ == old(self)@.with_connection(
                        true,
                        decode_utf8(reply.stdout@),
                    )
                },
                Err(AppError::Command(s)) => {
                    &&& !reply.success
                    &&& valid_utf8(reply.stdout@)
                    &&& s@ == reply.status@
                    &&& final(self)@ == old(self)@.with_connection(
                        false,
                        decode_utf8(reply.stdout@),
                    )
                },
                Err(AppError::Utf8(_)) => {
                    &&& !valid_utf8(reply.stdout@)
                    &&& final(self)@ == old(self)@
                },
                Err(_) => false,
            },
    {
        match decode(reply.stdout) {
            Err(e) => Err(AppError::Utf8(e)),
            Ok(text) => {
                self.connected = reply.success;
                self.connection_output = lines(text.as_str());
                if reply.success {
                    self.search_string = String::new();
                    self.view_mode = Screen::Connection;
                    self.sync();
                    Ok(())
                } else {
                    self.sync();
                    Err(AppError::Command(reply.status))
                }
            },
        }
    }

    /// Takes the output of the disconnection that `Action::Disconnect` asked
    /// for.
    ///
    /// Output that is text is recorded, and a connection counts as standing
    /// exactly if the disconnection failed; the result is then `Command`.
    /// Output that is not text gives `Utf8` and changes nothing. The screen
    /// stays in every case.
    pub fn disconnect(&mut self, reply: CommandOutput) -> (done: Result<(), AppError>)
        requires
            old(self).wf(),
        ensures
            final(self).wf(),
            match done {
                Ok(_) => {
                    &&& reply.success
                    &&& valid_utf8(reply.stdout@)
                    &&& final(self)@ == old(self)@.with_disconnection(
                        true,
                        decode_utf8(reply.stdout@),
                    )
                },
                Err(AppError::Command(s)) => {
                    &&& !reply.success
                    &&& valid_utf8(reply.stdout@)
                    &&& s@ == reply.status@
                    &&& final(self)@ == old(self)@.with_disconnection(
                        false,
                        decode_utf8(reply.stdout@),
                    )
                },
                Err(AppError::Utf8(_)) => {
                    &&& !valid_utf8(reply.stdout@)
                    &&& final(self)@ == old(self)@
                },
                Err(_) => false,
            },
    {
        match decode(reply.stdout) {
            Err(e) => Err(AppError::Utf8(e)),
            Ok(text) => {
                self.connected = !reply.success;
                self.connection_output = lines(text.as_str());
                self.sync();
                if reply.success {
                    Ok(())
                } else {
                    Err(AppError::Command(reply.status))
                }
            },
        }
    }
}

} // verus!
