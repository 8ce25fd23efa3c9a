use crate::app::{normal_command, Action, AppModel, Command, InputMode, Key, Screen};
use crate::list::{filter_by, matches_query, ListModel};
use crate::listing::{block_end, countries_in, first_mention, is_indented};
use crate::text::{
    is_blank, line_len, lines_of, occurs_in, shortened, trim_end, trim_start, trimmed,
};
use vstd::prelude::*;

verus! {

/// The list after a run of moves, `true` for a step down and `false` for a
/// step up.
pub open spec fn moved(list: ListModel, moves: Seq<bool>) -> ListModel
    decreases moves.len(),
{
    if moves.len() == 0 {
        list
    } else if moves.last() {
        moved(list, moves.drop_last()).down()
    } else {
        moved(list, moves.drop_last()).up()
    }
}

/// The list after the characters of `more` were typed one by one.
pub open spec fn typed_all(list: ListModel, more: Seq<char>) -> ListModel
    decreases more.len(),
{
    if more.len() == 0 {
        list
    } else {
        typed_all(list, more.drop_last()).typed(more.last())
    }
}

/// The navigator after a run of keys.
pub open spec fn after_keys(m: AppModel, keys: Seq<Key>) -> AppModel
    decreases keys.len(),
{
    if keys.len() == 0 {
        m
    } else {
        after_keys(m, keys.drop_last()).step(keys.last()).0
    }
}

/// Whatever steps down and up are taken, in whatever order, the items on
/// display stay the same and the selection stays on one of them; where
/// nothing is on display it stays at 0.
pub proof fn lemma_moves_stay_in_range(list: ListModel, moves: Seq<bool>)
    requires
        list.wf(),
    ensures
        moved(list, moves).wf(),
        moved(list, moves).shown() == list.shown(),
        list.shown().len() > 0 ==> moved(list, moves).index < list.shown().len(),
        list.shown().len() == 0 ==> moved(list, moves).index == 0,
    decreases moves.len(),
{
    if moves.len() > 0 {
        lemma_moves_stay_in_range(list, moves.drop_last());
    }
}

/// A jump to the last item lands on position `n - 1` of the `n` items on
/// display, and changes nothing where `n` is 0.
pub proof fn lemma_jump_to_last(list: ListModel)
    requires
        list.wf(),
    ensures
        list.last().wf(),
        list.shown().len() > 0 ==> list.last().index == list.shown().len() - 1,
        list.shown().len() == 0 ==> list.last() == list,
{
}

/// Every key keeps the navigator in order.
pub proof fn lemma_step_keeps_wf(m: AppModel, key: Key)
    requires
        m.wf(),
    ensures
        m.step(key).0.wf(),
{
}

/// After any run of keys both selections lie within their lists and the
/// highlighted row is the selection of the list on screen.
pub proof fn lemma_keys_keep_wf(m: AppModel, keys: Seq<Key>)
    requires
        m.wf(),
    ensures
        after_keys(m, keys).wf(),
    decreases keys.len(),
{
    if keys.len() > 0 {
        lemma_keys_keep_wf(m, keys.drop_last());
        lemma_step_keeps_wf(after_keys(m, keys.drop_last()), keys.last());
    }
}

/// A `g` in normal mode jumps to the first item exactly when a jump is
/// pending, and a jump is pending exactly after a `g` in normal mode that
/// found none pending. Such a first `g` moves nothing. Every other key, in
/// either mode, leaves no jump pending.
pub proof fn lemma_gesture(m: AppModel, key: Key)
    requires
        m.wf(),
    ensures
        !(m.mode == InputMode::Normal && normal_command(key) == Command::G) ==> !m.step(
            key,
        ).0.awaiting_second_g,
        m.mode == InputMode::Normal && normal_command(key) == Command::G && !m.awaiting_second_g
            ==> m.step(key) == (AppModel { awaiting_second_g: true, ..m }, Action::Stay),
        m.mode == InputMode::Normal && normal_command(key) == Command::G && m.awaiting_second_g
            ==> m.step(key) == (
            AppModel { awaiting_second_g: false, ..m }.on_active(|l: ListModel| l.first()).synced(),
            Action::Stay,
        ),
{
}

/// Two `g` in a row bring the selection of the list on screen to the top.
pub proof fn lemma_double_g(m: AppModel)
    requires
        m.wf(),
        m.mode == InputMode::Normal,
        !m.awaiting_second_g,
    ensures
        m.step(Key::Char('g')).0.step(Key::Char('g')).0 == m.on_active(
            |l: ListModel| l.first(),
        ).synced(),
{
}

/// A key between two `g` cancels the jump: after a `g` and then any key that
/// is not the `g` command, nothing is pending, and a `g` that follows in
/// normal mode moves no selection and is itself the first half of a new
/// gesture.
pub proof fn lemma_interrupted_gesture(m: AppModel, between: Key)
    requires
        m.wf(),
        normal_command(between) != Command::G,
    ensures
        ({
            let interrupted = m.step(Key::Char('g')).0.step(between).0;
            let after = interrupted.step(Key::Char('g')).0;
            &&& !interrupted.awaiting_second_g
            &&& interrupted.mode == InputMode::Normal ==> after == AppModel {
                awaiting_second_g: true,
                ..interrupted
            }
        }),
{
}

/// Going up from the cities brings the countries on screen with the city
/// selection at the top and the country selection where it was, as long as
/// the new listing still has a country at that place.
pub proof fn lemma_ascend_keeps_country(m: AppModel, listing: Seq<char>)
    requires
        m.wf(),
        m.countries.index < countries_in(listing).len(),
    ensures
        m.with_countries(listing, false).wf(),
        m.with_countries(listing, false).screen == Screen::Countries,
        m.with_countries(listing, false).countries.index == m.countries.index,
        m.with_countries(listing, false).countries.shown() == countries_in(listing),
        m.with_countries(listing, false).cities.index == 0,
{
    lemma_empty_query_shows_all(countries_in(listing));
}

/// A connection attempt that failed leaves the screen, both lists and both
/// selections as they were, and records the lines of its output.
pub proof fn lemma_failed_connect_stays(m: AppModel, output: Seq<char>)
    requires
        m.wf(),
    ensures
        m.with_connection(false, output).wf(),
        m.with_connection(false, output).screen == m.screen,
        m.with_connection(false, output).countries == m.countries,
        m.with_connection(false, output).cities == m.cities,
        m.with_connection(false, output).output == lines_of(output),
        !m.with_connection(false, output).connected,
{
}

/// In search mode keys are text on every screen: a character, whichever it
/// is, joins the query at its end and a backspace takes the last character
/// away. Neither leaves search mode, changes the screen, asks to leave or
/// asks anything of the caller.
pub proof fn lemma_search_keys_edit_query(m: AppModel, c: char)
    requires
        m.wf(),
        m.mode == InputMode::Search,
    ensures
        m.step(Key::Char(c)).0.query() == m.query().push(c),
        m.step(Key::Backspace).0.query() == shortened(m.query()),
        m.step(Key::Char(c)).1 == Action::Stay,
        m.step(Key::Backspace).1 == Action::Stay,
        m.step(Key::Char(c)).0.mode == InputMode::Search,
        m.step(Key::Backspace).0.mode == InputMode::Search,
        m.step(Key::Char(c)).0.screen == m.screen,
        m.step(Key::Backspace).0.screen == m.screen,
        m.step(Key::Char(c)).0.exit == m.exit,
        m.step(Key::Backspace).0.exit == m.exit,
{
}

/// Enter in search mode leaves it. The query is then empty, unless a country
/// is selected on the country screen: its filter stays until the cities have
/// arrived, and the query on the city screen starts empty.
pub proof fn lemma_search_enter_clears_query(m: AppModel, listing: Seq<char>)
    requires
        m.wf(),
        m.mode == InputMode::Search,
    ensures
        m.step(Key::Enter).0.mode == InputMode::Normal,
        !(m.screen == Screen::Countries && m.countries.selected() is Some) ==> m.step(
            Key::Enter,
        ).0.query() == Seq::<char>::empty(),
        m.screen == Screen::Countries && m.countries.selected() is Some ==> {
            &&& m.step(Key::Enter).1 == Action::LoadCities
            &&& m.step(Key::Enter).0.with_cities(listing).query() == Seq::<char>::empty()
        },
        m.with_countries(listing, true).query() == Seq::<char>::empty(),
{
}

/// With the empty query a list shows the items it was loaded with, all of
/// them and in their order.
pub proof fn lemma_empty_query_shows_all(source: Seq<Seq<char>>)
    ensures
        filter_by(source, Seq::empty()) == source,
    decreases source.len(),
{
    reveal(Seq::filter);
    if source.len() > 0 {
        lemma_empty_query_shows_all(source.drop_last());
        assert(source.drop_last().push(source.last()) =~= source);
    }
}

/// Typing further characters after a query shows what the whole query lets
/// through of the items the list was loaded with, not of what the shorter
/// query had left.
pub proof fn lemma_typing_filters_source(list: ListModel, more: Seq<char>)
    ensures
        typed_all(list, more).source == list.source,
        typed_all(list, more).query == list.query + more,
        typed_all(list, more).shown() == filter_by(list.source, list.query + more),
        more.len() > 0 ==> typed_all(list, more) == list.searched(list.query + more),
    decreases more.len(),
{
    if more.len() > 0 {
        lemma_typing_filters_source(list, more.drop_last());
        assert((list.query + more.drop_last()).push(more.last()) =~= list.query + more);
    } else {
        assert(list.query + more =~= list.query);
    }
}

/// After a backspace every loaded item that passes the shortened query is on
/// display, whether or not the longer query had hidden it.
pub proof fn lemma_backspace_restores(list: ListModel, i: int)
    requires
        0 <= i < list.source.len(),
        matches_query(list.source[i], shortened(list.query)),
    ensures
        list.erased().shown() == filter_by(list.source, shortened(list.query)),
        list.erased().shown().contains(list.source[i]),
        list.erased().index == 0,
{
    let shorter = shortened(list.query);
    list.source.lemma_filter_contains(|item: Seq<char>| matches_query(item, shorter), i);
}

/// A line ends at the first line feed: no line feed stands before that
/// place, and one stands there unless the text ends.
pub proof fn lemma_line_len(s: Seq<char>)
    ensures
        line_len(s) <= s.len(),
        forall|i: int| 0 <= i < line_len(s) ==> s[i] != '\n',
        line_len(s) < s.len() ==> s[line_len(s) as int] == '\n',
    decreases s.len(),
{
    if s.len() > 0 && s[0] != '\n' {
        let rest = s.drop_first();
        lemma_line_len(rest);
        assert forall|i: int| 0 <= i < line_len(s) implies s[i] != '\n' by {
            if i > 0 {
                assert(s[i] == rest[i - 1]);
            }
        }
        if line_len(s) < s.len() {
            assert(s[line_len(s) as int] == rest[line_len(rest) as int]);
        }
    }
}

/// Trimming at the start removes blanks only, and all of them: what is left
/// is the end of the line from its first character that is not blank.
pub proof fn lemma_trim_start(s: Seq<char>)
    ensures
        trim_start(s).len() <= s.len(),
        trim_start(s) == s.skip(s.len() - trim_start(s).len()),
        forall|i: int| 0 <= i < s.len() - trim_start(s).len() ==> is_blank(s[i]),
        trim_start(s).len() > 0 ==> !is_blank(trim_start(s).first()),
    decreases s.len(),
{
    if s.len() > 0 && is_blank(s[0]) {
        let rest = s.drop_first();
        lemma_trim_start(rest);
        let cut = s.len() - trim_start(s).len();
        assert(rest.skip(cut - 1) =~= s.skip(cut));
        assert forall|i: int| 0 <= i < cut implies is_blank(s[i]) by {
            if i > 0 {
                assert(s[i] == rest[i - 1]);
            }
        }
    } else {
        assert(s.skip(0) =~= s);
    }
}

/// Trimming at the end removes blanks only, and all of them: what is left is
/// the start of the line up to its last character that is not blank.
pub proof fn lemma_trim_end(s: Seq<char>)
    ensures
        trim_end(s).len() <= s.len(),
        trim_end(s) == s.take(trim_end(s).len() as int),
        forall|i: int| trim_end(s).len() <= i < s.len() ==> is_blank(s[i]),
        trim_end(s).len() > 0 ==> !is_blank(trim_end(s).last()),
    decreases s.len(),
{
    if s.len() > 0 && is_blank(s.last()) {
        let rest = s.drop_last();
        lemma_trim_end(rest);
        assert(rest.take(trim_end(s).len() as int) =~= s.take(trim_end(s).len() as int));
        assert forall|i: int| trim_end(s).len() <= i < s.len() implies is_blank(s[i]) by {
            if i < s.len() - 1 {
                assert(s[i] == rest[i]);
            }
        }
    } else {
        assert(s.take(s.len() as int) =~= s);
    }
}

/// A trimmed line neither begins nor ends with a blank.
pub proof fn lemma_trimmed_has_no_blank_ends(s: Seq<char>)
    ensures
        trimmed(s).len() > 0 ==> !is_blank(trimmed(s).first()) && !is_blank(trimmed(s).last()),
{
    lemma_trim_start(s);
    lemma_trim_end(trim_start(s));
}

/// The first mention of a country is the first line at or after `from` that
/// holds its name.
pub proof fn lemma_first_mention(lines: Seq<Seq<char>>, country: Seq<char>, from: int)
    requires
        0 <= from <= lines.len(),
    ensures
        from <= first_mention(lines, country, from) <= lines.len(),
        forall|i: int|
            from <= i < first_mention(lines, country, from) ==> !occurs_in(country, lines[i]),
        first_mention(lines, country, from) < lines.len() ==> occurs_in(
            country,
            lines[first_mention(lines, country, from)],
        ),
    decreases lines.len() - from,
{
    if from < lines.len() && !occurs_in(country, lines[from]) {
        lemma_first_mention(lines, country, from + 1);
    }
}

/// A block runs over indented lines only and ends at the first line that is
/// not indented, or with the lines.
pub proof fn lemma_block_end(lines: Seq<Seq<char>>, from: int)
    requires
        0 <= from <= lines.len(),
    ensures
        from <= block_end(lines, from) <= lines.len(),
        forall|i: int| from <= i < block_end(lines, from) ==> is_indented(lines[i]),
        block_end(lines, from) < lines.len() ==> !is_indented(lines[block_end(lines, from)]),
    decreases lines.len() - from,
{
    if from < lines.len() && is_indented(lines[from]) {
        lemma_block_end(lines, from + 1);
    }
}

} // verus!
