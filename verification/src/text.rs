use std::string::FromUtf8Error;
use vstd::prelude::*;
use vstd::utf8::{decode_utf8, valid_utf8};

verus! {

/// The character sequences of a list of strings.
pub open spec fn texts(items: Seq<String>) -> Seq<Seq<char>> {
    Seq::new(items.len(), |i: int| items[i]@)
}

/// The character sequences of a list of character vectors.
pub open spec fn rows(lines: Seq<Vec<char>>) -> Seq<Seq<char>> {
    Seq::new(lines.len(), |i: int| lines[i]@)
}

/// The lowercase form of a text, as `str::to_lowercase` computes it.
pub uninterp spec fn lowercase(s: Seq<char>) -> Seq<char>;

/// `needle` stands in `hay` at position `at`.
pub open spec fn occurs_at(needle: Seq<char>, hay: Seq<char>, at: int) -> bool {
    &&& 0 <= at
    &&& at + needle.len() <= hay.len()
    &&& hay.subrange(at, at + needle.len()) == needle
}

/// `needle` is a contiguous part of `hay`.
pub open spec fn occurs_in(needle: Seq<char>, hay: Seq<char>) -> bool {
    exists|at: int| occurs_at(needle, hay, at)
}

/// A text without its last character; the empty text stays as it is.
pub open spec fn shortened(s: Seq<char>) -> Seq<char> {
    if s.len() > 0 {
        s.drop_last()
    } else {
        s
    }
}

/// The characters that trimming removes from both ends of a line: white
/// space as Unicode defines it.
pub open spec fn is_blank(c: char) -> bool {
    let u = c as u32;
    ||| 0x09 <= u <= 0x0d
    ||| u == 0x20
    ||| u == 0x85
    ||| u == 0xa0
    ||| u == 0x1680
    ||| 0x2000 <= u <= 0x200a
    ||| u == 0x2028
    ||| u == 0x2029
    ||| u == 0x202f
    ||| u == 0x205f
    ||| u == 0x3000
}

/// `s` without its leading blanks.
pub open spec fn trim_start(s: Seq<char>) -> Seq<char>
    decreases s.len(),
{
    if s.len() > 0 && is_blank(s[0]) {
        trim_start(s.drop_first())
    } else {
        s
    }
}

/// `s` without its trailing blanks.
pub open spec fn trim_end(s: Seq<char>) -> Seq<char>
    decreases s.len(),
{
    if s.len() > 0 && is_blank(s.last()) {
        trim_end(s.drop_last())
    } else {
        s
    }
}

/// `s` without the blanks at either end.
pub open spec fn trimmed(s: Seq<char>) -> Seq<char> {
    trim_end(trim_start(s))
}

/// How many characters stand before the first line feed of `s`.
pub open spec fn line_len(s: Seq<char>) -> nat
    decreases s.len(),
{
    if s.len() == 0 || s[0] == '\n' {
        0
    } else {
        1 + line_len(s.drop_first())
    }
}

/// A line without the carriage return that may end it.
pub open spec fn without_cr(line: Seq<char>) -> Seq<char> {
    if line.len() > 0 && line.last() == '\r' {
        line.drop_last()
    } else {
        line
    }
}

/// The lines of a text: the pieces that line feeds end, each without the
/// carriage return that may stand before its line feed, and then what is left
/// after the last line feed, if anything is.
pub open spec fn lines_of(s: Seq<char>) -> Seq<Seq<char>>
    decreases s.len(),
{
    if s.len() == 0 {
        Seq::empty()
    } else {
        let n = line_len(s);
        if n < s.len() {
            seq![without_cr(s.take(n as int))] + lines_of(s.skip(n as int + 1))
        } else {
            seq![s]
        }
    }
}

/// The characters of a string slice, in order.
pub fn chars_of(s: &str) -> (v: Vec<char>)
    ensures
        v@ == s@,
{
    let mut v: Vec<char> = Vec::new();
    for c in it: s.chars()
        invariant
            it.seq() == s@,
            v@ == it.seq().take(it.index() as int),
    {
        v.push(c);
    }
    v
}

/// `String::push`: the string afterwards is the string before with `c` as one
/// more character at its end.
#[verifier::external_body]
fn push_char(s: &mut String, c: char)
    ensures
        final(s)@ == old(s)@.push(c),
{
    s.push(c)
}

/// `str::to_lowercase`: the result is the lowercase form of `s`, which depends
/// on the characters of `s` alone.
#[verifier::external_body]
fn lowercased(s: &str) -> (low: String)
    ensures
        low@ == lowercase(s@),
{
    s.to_lowercase()
}

/// `String::from_utf8`: succeeds exactly on well-formed UTF-8, with the text
/// that the bytes encode.
#[verifier::external_body]
pub(crate) fn decode(bytes: Vec<u8>) -> (text: Result<String, FromUtf8Error>)
    ensures
        text is Ok <==> valid_utf8(bytes@),
        text matches Ok(s) ==> s@ == decode_utf8(bytes@),
{
    String::from_utf8(bytes)
}

/// The characters `from..to` of `chars` as a string.
pub fn string_of(chars: &Vec<char>, from: usize, to: usize) -> (s: String)
    requires
        from <= to <= chars.len(),
    ensures
        s@ == chars@.subrange(from as int, to as int),
{
    let mut s = String::new();
    let mut i: usize = from;
    while i < to
        invariant
            from <= i <= to <= chars.len(),
            s@ == chars@.subrange(from as int, i as int),
        decreases to - i,
    {
        push_char(&mut s, chars[i]);
        proof {
            assert(chars@.subrange(from as int, i + 1) =~= chars@.subrange(
                from as int,
                i as int,
            ).push(chars@[i as int]));
        }
        i += 1;
    }
    s
}

/// `s` with `c` as one more character at its end.
pub fn extend(s: &str, c: char) -> (longer: String)
    ensures
        longer@ == s@.push(c),
{
    let mut chars = chars_of(s);
    chars.push(c);
    proof {
        assert(chars@.subrange(0, chars@.len() as int) =~= chars@);
    }
    string_of(&chars, 0, chars.len())
}

/// `s` without its last character, if it has one.
pub fn shorten(s: &str) -> (shorter: String)
    ensures
        shorter@ == shortened(s@),
{
    let chars = chars_of(s);
    let keep: usize = if chars.len() > 0 {
        chars.len() - 1
    } else {
        0
    };
    proof {
        if chars@.len() > 0 {
            assert(chars@.subrange(0, keep as int) =~= chars@.drop_last());
        } else {
            assert(chars@.subrange(0, keep as int) =~= chars@);
        }
    }
    string_of(&chars, 0, keep)
}

/// The lowercase form of `s`, character by character.
pub fn fold_case(s: &str) -> (low: Vec<char>)
    ensures
        low@ == lowercase(s@),
{
    let low = lowercased(s);
    chars_of(low.as_str())
}

/// Whether `needle` stands in `hay` at `at`.
pub fn matches_at(hay: &Vec<char>, needle: &Vec<char>, at: usize) -> (found: bool)
    requires
        at + needle.len() <= hay.len(),
    ensures
        found == occurs_at(needle@, hay@, at as int),
{
    let mut k: usize = 0;
    while k < needle.len()
        invariant
            k <= needle.len(),
            at + needle.len() <= hay.len(),
            forall|j: int| 0 <= j < k ==> hay@[at + j] == needle@[j],
        decreases needle.len() - k,
    {
        if hay[at + k] != needle[k] {
            proof {
                assert(hay@.subrange(at as int, at + needle@.len())[k as int] == hay@[at + k]);
            }
            return false;
        }
        k += 1;
    }
    proof {
        assert(hay@.subrange(at as int, at + needle@.len()) =~= needle@);
    }
    true
}

/// Whether `needle` is a contiguous part of `hay`. The empty needle is part of
/// every text.
pub fn contains(hay: &Vec<char>, needle: &Vec<char>) -> (found: bool)
    ensures
        found == occurs_in(needle@, hay@),
{
    if needle.len() > hay.len() {
        return false;
    }
    let last: usize = hay.len() - needle.len();
    let mut at: usize = 0;
    while at < last
        invariant
            at <= last,
            last == hay.len() - needle.len(),
            forall|j: int| 0 <= j < at ==> !occurs_at(needle@, hay@, j),
        decreases last - at,
    {
        if matches_at(hay, needle, at) {
            return true;
        }
        at += 1;
    }
    matches_at(hay, needle, last)
}

/// Whether the character `c` occurs in `line`.
pub fn has_char(line: &Vec<char>, c: char) -> (found: bool)
    ensures
        found == line@.contains(c),
{
    let mut i: usize = 0;
    while i < line.len()
        invariant
            i <= line.len(),
            forall|j: int| 0 <= j < i ==> line@[j] != c,
        decreases line.len() - i,
    {
        if line[i] == c {
            return true;
        }
        i += 1;
    }
    false
}

/// Whether trimming removes `c`.
pub fn blank(c: char) -> (b: bool)
    ensures
        b == is_blank(c),
{
    let u: u32 = c as u32;
    (0x09 <= u && u <= 0x0d) || u == 0x20 || u == 0x85 || u == 0xa0 || u == 0x1680 || (0x2000 <= u
        && u <= 0x200a) || u == 0x2028 || u == 0x2029 || u == 0x202f || u == 0x205f || u == 0x3000
}

/// The line without the blanks at either end, as a string.
pub fn trim(line: &Vec<char>) -> (out: String)
    ensures
        out@ == trimmed(line@),
{
    let n: usize = line.len();
    let mut a: usize = 0;
    proof {
        assert(line@.skip(0) =~= line@);
    }
    while a < n && blank(line[a])
        invariant
            a <= n,
            n == line.len(),
            trim_start(line@) == trim_start(line@.skip(a as int)),
        decreases n - a,
    {
        proof {
            assert(line@.skip(a as int).drop_first() =~= line@.skip(a + 1));
        }
        a += 1;
    }
    proof {
        assert(line@.skip(a as int) =~= line@.subrange(a as int, n as int));
    }
    let mut b: usize = n;
    while b > a && blank(line[b - 1])
        invariant
            a <= b <= n,
            n == line.len(),
            trimmed(line@) == trim_end(line@.subrange(a as int, b as int)),
        decreases b - a,
    {
        proof {
            assert(line@.subrange(a as int, b as int).drop_last() =~= line@.subrange(
                a as int,
                b - 1,
            ));
        }
        b -= 1;
    }
    string_of(line, a, b)
}

/// The lines of `text`, in order.
pub fn split_lines(text: &Vec<char>) -> (lines: Vec<Vec<char>>)
    ensures
        rows(lines@) == lines_of(text@),
{
    let mut lines: Vec<Vec<char>> = Vec::new();
    let n: usize = text.len();
    let mut pos: usize = 0;
    proof {
        assert(text@.skip(0) =~= text@);
        assert(rows(lines@) + lines_of(text@) =~= lines_of(text@));
    }
    while pos < n
        invariant
            pos <= n,
            n == text.len(),
            rows(lines@) + lines_of(text@.skip(pos as int)) == lines_of(text@),
        decreases n - pos,
    {
        let mut end: usize = pos;
        let mut line: Vec<char> = Vec::new();
        proof {
            assert(line@ =~= text@.subrange(pos as int, end as int));
        }
        while end < n && text[end] != '\n'
            invariant
                pos <= end <= n,
                n == text.len(),
                line@ == text@.subrange(pos as int, end as int),
                line_len(text@.skip(pos as int)) == (end - pos) + line_len(
                    text@.skip(end as int),
                ),
            decreases n - end,
        {
            line.push(text[end]);
            proof {
                assert(text@.skip(end as int).drop_first() =~= text@.skip(end + 1));
                assert(line@ =~= text@.subrange(pos as int, end + 1));
            }
            end += 1;
        }
        let ghost rest = text@.skip(pos as int);
        let ghost before = rows(lines@);
        proof {
            assert(line_len(text@.skip(end as int)) == 0);
            assert(rest.take(end - pos) =~= text@.subrange(pos as int, end as int));
            if end < n {
                assert(rest.skip(end - pos + 1) =~= text@.skip(end + 1));
            }
        }
        if end < n && line.len() > 0 && line[line.len() - 1] == '\r' {
            line.pop();
        }
        proof {
            if end < n {
                assert(line@ =~= without_cr(text@.subrange(pos as int, end as int)));
            } else {
                assert(line@ =~= rest);
            }
        }
        lines.push(line);
        let next: usize = if end < n {
            end + 1
        } else {
            end
        };
        proof {
            assert(rows(lines@) =~= before.push(line@));
            if end < n {
                assert(before.push(line@) + lines_of(text@.skip(next as int)) =~= before + (
                seq![line@] + lines_of(text@.skip(next as int))));
            } else {
                assert(lines_of(text@.skip(next as int)) =~= Seq::<Seq<char>>::empty());
                assert(before.push(line@) + Seq::<Seq<char>>::empty() =~= before + seq![line@]);
            }
        }
        pos = next;
    }
    proof {
        assert(rows(lines@) + lines_of(text@.skip(pos as int)) =~= rows(lines@));
    }
    lines
}

/// The lines of `text` as strings, in order.
pub fn lines(text: &str) -> (out: Vec<String>)
    ensures
        texts(out@) == lines_of(text@),
{
    let chars = chars_of(text);
    let split = split_lines(&chars);
    let mut out: Vec<String> = Vec::new();
    let mut i: usize = 0;
    while i < split.len()
        invariant
            i <= split.len(),
            texts(out@) == rows(split@).take(i as int),
        decreases split.len() - i,
    {
        let line = &split[i];
        let ghost before = texts(out@);
        out.push(string_of(line, 0, line.len()));
        proof {
            assert(line@.subrange(0, line@.len() as int) =~= line@);
            assert(texts(out@) =~= before.push(line@));
            assert(rows(split@).take(i + 1) =~= rows(split@).take(i as int).push(line@));
        }
        i += 1;
    }
    proof {
        assert(rows(split@).take(split.len() as int) =~= rows(split@));
    }
    out
}

} // verus!
