//! The title card: what it says, how it is laid out and which keys start the
//! game.

use vstd::prelude::*;
use vstd::string::StrSliceExecFns;
use crate::input::Key;

verus! {

/// Whether `c` is white space: the answer of `char::is_whitespace`.
pub uninterp spec fn is_white_space(c: char) -> bool;

/// Calls `char::is_whitespace`, which says whether a character has the
/// Unicode property White_Space. The answer depends on the character alone
/// and is what [`is_white_space`] names; nothing more is claimed of it.
#[verifier::external_body]
fn is_whitespace(c: char) -> (b: bool)
    ensures
        b == is_white_space(c),
{
    c.is_whitespace()
}

/// `s` without the white space it starts with.
pub open spec fn trim_start(s: Seq<char>) -> Seq<char>
    decreases s.len(),
{
    if s.len() > 0 && is_white_space(s[0]) {
        trim_start(s.drop_first())
    } else {
        s
    }
}

/// `s` without the white space it ends with.
pub open spec fn trim_end(s: Seq<char>) -> Seq<char>
    decreases s.len(),
{
    if s.len() > 0 && is_white_space(s.last()) {
        trim_end(s.drop_last())
    } else {
        s
    }
}

/// `s` without the white space at its ends.
pub open spec fn trimmed(s: Seq<char>) -> Seq<char> {
    trim_end(trim_start(s))
}

/// Index of the first line feed of `text` at or after `start`, or the
/// length of `text` if there is none.
pub open spec fn line_end(text: Seq<char>, start: int) -> int
    decreases text.len() - start,
{
    if start < 0 || start >= text.len() || text[start] == '\n' {
        start
    } else {
        line_end(text, start + 1)
    }
}

/// The line of `text` that starts at `start` and ends at `end`, the place
/// of its line feed or the end of the text. A carriage return right before
/// the line feed belongs to the line ending and not to the line.
pub open spec fn line_at(text: Seq<char>, start: int, end: int) -> Seq<char> {
    if start < end < text.len() && text[end - 1] == '\r' {
        text.subrange(start, end - 1)
    } else {
        text.subrange(start, end)
    }
}

/// The entries of `text` from `start` on: its lines, trimmed, without
/// those that are empty.
pub open spec fn entries_from(text: Seq<char>, start: int) -> Seq<Seq<char>>
    decreases text.len() - start,
{
    if start < 0 || start >= text.len() {
        Seq::empty()
    } else {
        let end = line_end(text, start);
        let entry = trimmed(line_at(text, start, end));
        let rest = if start <= end < text.len() {
            entries_from(text, end + 1)
        } else {
            Seq::empty()
        };
        if entry.len() > 0 {
            seq![entry] + rest
        } else {
            rest
        }
    }
}

/// Entry `i` of a list of entries, or nothing if the list is shorter.
pub open spec fn entry_or_empty(entries: Seq<Seq<char>>, i: int) -> Seq<char> {
    if 0 <= i < entries.len() {
        entries[i]
    } else {
        Seq::empty()
    }
}

/// The title card. Sizes and offsets are in screen pixels; offsets are
/// relative to the middle of the window's upper part.
pub struct TitleScreen {
    pub title: String,
    pub subtitle: String,
    /// Height of the title's letters.
    pub title_scale: u32,
    /// Height of the subtitle's letters.
    pub subtitle_scale: u32,
    pub title_offset: (i32, i32),
    pub subtitle_offset: (i32, i32),
}

impl TitleScreen {
    /// Whether `key` starts the game: Return or Space.
    pub open spec fn starts_game(key: Key) -> bool {
        key == Key::Return || key == Key::Space
    }

    /// A title card with the given words and the plain layout.
    pub fn new(title: String, subtitle: String) -> (t: TitleScreen)
        ensures
            t.title == title,
            t.subtitle == subtitle,
            t.title_scale == 48,
            t.subtitle_scale == 24,
            t.title_offset == (-200i32, -40i32),
            t.subtitle_offset == (-100i32, 10i32),
    {
        TitleScreen {
            title,
            subtitle,
            title_scale: 48,
            subtitle_scale: 24,
            title_offset: (-200, -40),
            subtitle_offset: (-100, 10),
        }
    }

    /// A title card with the words of `text` and the plain layout: the
    /// first entry of the text is the title and the second the subtitle,
    /// where the entries are the lines of the text, trimmed, without those
    /// that are empty. A missing entry gives empty words.
    pub fn from_text(text: &str) -> (t: TitleScreen)
        ensures
            t.title@ == entry_or_empty(entries_from(text@, 0), 0),
            t.subtitle@ == entry_or_empty(entries_from(text@, 0), 1),
            t.title_scale == 48,
            t.subtitle_scale == 24,
            t.title_offset == (-200i32, -40i32),
            t.subtitle_offset == (-100i32, 10i32),
    {
        let chars: Vec<char> = chars_of(text);
        let first: (usize, usize, usize) = next_entry(&chars, 0);
        let second: (usize, usize, usize) = next_entry(&chars, first.2);
        proof {
            let found = entries_from(text@, 0);
            let later = entries_from(text@, first.2 as int);
            if first.0 < first.1 {
                assert(found[0] == text@.subrange(first.0 as int, first.1 as int));
                if second.0 < second.1 {
                    assert(found[1] == later[0]);
                }
            }
        }
        TitleScreen::new(
            text.substring_char(first.0, first.1).to_owned(),
            text.substring_char(second.0, second.1).to_owned(),
        )
    }

    /// The title card of the game, with large letters.
    pub fn default() -> (t: TitleScreen)
        ensures
            t.title@ == "TALE"@,
            t.subtitle@ == "A war on life itself"@,
            t.title_scale == 96,
            t.subtitle_scale == 20,
            t.title_offset == (-120i32, -80i32),
            t.subtitle_offset == (-110i32, 40i32),
    {
        let mut t = TitleScreen::new("TALE".to_owned(), "A war on life itself".to_owned());
        t.title_scale = 96;
        t.subtitle_scale = 20;
        t.title_offset = (-120, -80);
        t.subtitle_offset = (-110, 40);
        t
    }

    /// Whether `key` starts the game.
    pub fn handle_input(&self, key: Key) -> (start: bool)
        ensures
            start == Self::starts_game(key),
    {
        key == Key::Return || key == Key::Space
    }
}

/// The characters of `text`.
fn chars_of(text: &str) -> (chars: Vec<char>)
    ensures
        chars@ == text@,
{
    let mut chars: Vec<char> = Vec::new();
    for c in it: text.chars()
        invariant
            chars@ == it.seq().take(it.index()),
    {
        chars.push(c);
    }
    chars
}

/// Computes [`line_end`].
fn find_line_end(chars: &Vec<char>, start: usize) -> (end: usize)
    requires
        start <= chars@.len(),
    ensures
        end == line_end(chars@, start as int),
        start <= end <= chars@.len(),
{
    let mut end: usize = start;
    while end < chars.len() && chars[end] != '\n'
        invariant
            start <= end <= chars@.len(),
            line_end(chars@, start as int) == line_end(chars@, end as int),
        decreases chars@.len() - end,
    {
        end += 1;
    }
    end
}

/// Trims the part of `chars` between `from` and `to` and returns where
/// what is left starts and ends.
fn trim_range(chars: &Vec<char>, from: usize, to: usize) -> (kept: (usize, usize))
    requires
        from <= to <= chars@.len(),
    ensures
        from <= kept.0 <= kept.1 <= to,
        chars@.subrange(kept.0 as int, kept.1 as int) == trimmed(
            chars@.subrange(from as int, to as int),
        ),
{
    let mut a: usize = from;
    while a < to && is_whitespace(chars[a])
        invariant
            from <= a <= to <= chars@.len(),
            trim_start(chars@.subrange(from as int, to as int)) == trim_start(
                chars@.subrange(a as int, to as int),
            ),
        decreases to - a,
    {
        assert(chars@.subrange(a as int, to as int).drop_first() == chars@.subrange(
            a + 1,
            to as int,
        ));
        a += 1;
    }
    let mut b: usize = to;
    while b > a && is_whitespace(chars[b - 1])
        invariant
            a <= b <= to <= chars@.len(),
            trim_end(chars@.subrange(a as int, to as int)) == trim_end(
                chars@.subrange(a as int, b as int),
            ),
        decreases b - a,
    {
        assert(chars@.subrange(a as int, b as int).drop_last() == chars@.subrange(
            a as int,
            b - 1,
        ));
        b -= 1;
    }
    (a, b)
}

/// Finds the first entry of `chars` from `start` on. Returns where the
/// entry starts and ends and where the search for the one after it starts;
/// when no entry is left, the entry is empty and the search is over.
fn next_entry(chars: &Vec<char>, start: usize) -> (found: (usize, usize, usize))
    requires
        start <= chars@.len(),
    ensures
        found.0 <= found.1 <= chars@.len(),
        start <= found.2 <= chars@.len(),
        found.0 < found.1 ==> entries_from(chars@, start as int) == seq![
            chars@.subrange(found.0 as int, found.1 as int),
        ] + entries_from(chars@, found.2 as int),
        found.0 == found.1 ==> entries_from(chars@, start as int).len() == 0 && found.2
            == chars@.len(),
{
    let n: usize = chars.len();
    let mut at: usize = start;
    while at < n
        invariant
            start <= at <= n,
            n == chars@.len(),
            entries_from(chars@, start as int) == entries_from(chars@, at as int),
        decreases n - at,
    {
        let end: usize = find_line_end(chars, at);
        let stop: usize = if at < end && end < n && chars[end - 1] == '\r' {
            end - 1
        } else {
            end
        };
        let kept: (usize, usize) = trim_range(chars, at, stop);
        let next: usize = if end < n {
            end + 1
        } else {
            n
        };
        assert(entries_from(chars@, next as int) == if end < n {
            entries_from(chars@, end + 1)
        } else {
            Seq::empty()
        });
        if kept.0 < kept.1 {
            return (kept.0, kept.1, next);
        }
        at = next;
    }
    (n, n, n)
}

} // verus!
