use crate::text::{
    chars_of, contains, has_char, lines_of, occurs_in, rows, split_lines, texts, trim, trimmed,
};
use vstd::prelude::*;

verus! {

/// A line that begins with a tab.
pub open spec fn is_indented(line: Seq<char>) -> bool {
    line.len() > 0 && line[0] == '\t'
}

/// A country entry: a line with an opening bracket that is not indented.
pub open spec fn is_country_line(line: Seq<char>) -> bool {
    line.contains('(') && !is_indented(line)
}

/// Within a country's block, a city entry: a line with both brackets.
pub open spec fn is_city_line(line: Seq<char>) -> bool {
    line.contains('(') && line.contains(')')
}

/// The entries among `lines` that `keep` lets through, trimmed.
pub open spec fn entries(lines: Seq<Seq<char>>, keep: spec_fn(Seq<char>) -> bool) -> Seq<
    Seq<char>,
> {
    lines.filter(keep).map_values(|line: Seq<char>| trimmed(line))
}

/// The countries that a listing names, in order.
pub open spec fn countries_in(text: Seq<char>) -> Seq<Seq<char>> {
    entries(lines_of(text), |line: Seq<char>| is_country_line(line))
}

/// The first line at or after `from` that mentions `country`; the number of
/// lines where none does.
pub open spec fn first_mention(lines: Seq<Seq<char>>, country: Seq<char>, from: int) -> int
    decreases lines.len() - from,
{
    if from >= lines.len() {
        lines.len() as int
    } else if occurs_in(country, lines[from]) {
        from
    } else {
        first_mention(lines, country, from + 1)
    }
}

/// Where the run of indented lines that starts at `from` ends.
pub open spec fn block_end(lines: Seq<Seq<char>>, from: int) -> int
    decreases lines.len() - from,
{
    if 0 <= from < lines.len() && is_indented(lines[from]) {
        block_end(lines, from + 1)
    } else {
        from
    }
}

/// The cities of `country` among `lines`: the entries with both brackets in
/// the run of indented lines right after the first line that mentions the
/// country. Nothing where no line mentions it.
pub open spec fn cities_of(lines: Seq<Seq<char>>, country: Seq<char>) -> Seq<Seq<char>> {
    let head = first_mention(lines, country, 0);
    if head >= lines.len() {
        Seq::empty()
    } else {
        entries(
            lines.subrange(head + 1, block_end(lines, head + 1)),
            |line: Seq<char>| is_city_line(line),
        )
    }
}

/// The cities that a listing names for `country`, in order.
pub open spec fn cities_in(text: Seq<char>, country: Seq<char>) -> Seq<Seq<char>> {
    cities_of(lines_of(text), country)
}

/// Whether the line begins with a tab.
pub fn indented(line: &Vec<char>) -> (b: bool)
    ensures
        b == is_indented(line@),
{
    line.len() > 0 && line[0] == '\t'
}

/// One more line taken into account: the entries grow by the trimmed line if
/// `keep` lets it through, and stay as they are if not.
pub proof fn lemma_entries_push(
    lines: Seq<Seq<char>>,
    line: Seq<char>,
    keep: spec_fn(Seq<char>) -> bool,
)
    ensures
        entries(lines.push(line), keep) == if keep(line) {
            entries(lines, keep).push(trimmed(line))
        } else {
            entries(lines, keep)
        },
{
    reveal(Seq::filter);
    assert(lines.push(line).drop_last() =~= lines);
    if keep(line) {
        assert(entries(lines.push(line), keep) =~= entries(lines, keep).push(trimmed(line)));
    }
}

/// The countries of a listing: each line that has an opening bracket and is
/// not indented, trimmed. Lines of any other shape are passed over.
pub fn parse_countries(text: &str) -> (countries: Vec<String>)
    ensures
        texts(countries@) == countries_in(text@),
{
    let chars = chars_of(text);
    let lines = split_lines(&chars);
    let ghost keep = |line: Seq<char>| is_country_line(line);
    let mut countries: Vec<String> = Vec::new();
    let mut i: usize = 0;
    proof {
        reveal(Seq::filter);
        assert(rows(lines@).take(0) =~= Seq::<Seq<char>>::empty());
        assert(texts(countries@) =~= entries(rows(lines@).take(0), keep));
    }
    while i < lines.len()
        invariant
            i <= lines.len(),
            keep == (|line: Seq<char>| is_country_line(line)),
            texts(countries@) == entries(rows(lines@).take(i as int), keep),
        decreases lines.len() - i,
    {
        let line = &lines[i];
        let ghost before = texts(countries@);
        proof {
            lemma_entries_push(rows(lines@).take(i as int), line@, keep);
            assert(rows(lines@).take(i + 1) =~= rows(lines@).take(i as int).push(line@));
        }
        if has_char(line, '(') && !indented(line) {
            countries.push(trim(line));
            proof {
                assert(texts(countries@) =~= before.push(trimmed(line@)));
            }
        }
        i += 1;
    }
    proof {
        assert(rows(lines@).take(lines.len() as int) =~= rows(lines@));
    }
    countries
}

/// The cities of `country` in a listing: after the first line that mentions
/// the country, the indented lines that follow it without a gap, each with
/// both brackets, trimmed. Empty where no line mentions the country.
pub fn parse_cities(text: &str, country: &str) -> (cities: Vec<String>)
    ensures
        texts(cities@) == cities_in(text@, country@),
{
    let chars = chars_of(text);
    let lines = split_lines(&chars);
    let name = chars_of(country);
    let ghost all = rows(lines@);
    let ghost keep = |line: Seq<char>| is_city_line(line);
    let mut cities: Vec<String> = Vec::new();
    let mut head: usize = 0;
    while head < lines.len() && !contains(&lines[head], &name)
        invariant
            head <= lines.len(),
            all == rows(lines@),
            first_mention(all, name@, 0) == first_mention(all, name@, head as int),
        decreases lines.len() - head,
    {
        head += 1;
    }
    if head >= lines.len() {
        proof {
            assert(texts(cities@) =~= Seq::<Seq<char>>::empty());
        }
        return cities;
    }
    let start: usize = head + 1;
    let mut i: usize = start;
    proof {
        reveal(Seq::filter);
        assert(all.subrange(start as int, i as int) =~= Seq::<Seq<char>>::empty());
        assert(texts(cities@) =~= entries(all.subrange(start as int, i as int), keep));
    }
    while i < lines.len() && indented(&lines[i])
        invariant
            start <= i <= lines.len(),
            all == rows(lines@),
            keep == (|line: Seq<char>| is_city_line(line)),
            block_end(all, start as int) == block_end(all, i as int),
            texts(cities@) == entries(all.subrange(start as int, i as int), keep),
        decreases lines.len() - i,
    {
        let line = &lines[i];
        let ghost before = texts(cities@);
        proof {
            lemma_entries_push(all.subrange(start as int, i as int), line@, keep);
            assert(all.subrange(start as int, i + 1) =~= all.subrange(
                start as int,
                i as int,
            ).push(line@));
        }
        if has_char(line, '(') && has_char(line, ')') {
            cities.push(trim(line));
            proof {
                assert(texts(cities@) =~= before.push(trimmed(line@)));
            }
        }
        i += 1;
    }
    cities
}

} // verus!
