//! Reading what the dialog helpers print, and the pieces of the dialogs'
//! text that do not involve floating point.

use vstd::prelude::*;
use crate::text::{
    first_occurrence, find_first, is_white, is_whitespace, owned, prefix_string, push_char, str_eq,
    strings_view, substring, suffix_string, trim_end_char, trim_end_char_spec,
};

verus! {

/// The answer a dialog printed: its output without trailing newlines, or
/// `None` when nothing is left.
pub open spec fn dialog_answer_spec(stdout: Seq<char>) -> Option<Seq<char>> {
    let s = trim_end_char_spec(stdout, '\n');
    if s.len() == 0 {
        None
    } else {
        Some(s)
    }
}

/// Reads a single-answer dialog's output.
pub fn dialog_answer(stdout: &str) -> (r: Option<String>)
    ensures
        match r {
            Some(a) => dialog_answer_spec(stdout@) == Some(a@),
            None => dialog_answer_spec(stdout@) is None,
        },
{
    let s = trim_end_char(stdout, '\n');
    if s.as_str().unicode_len() == 0 {
        None
    } else {
        Some(s)
    }
}

/// Reads the macOS list dialog's output, which prints `false` when
/// cancelled.
pub fn list_choice_answer(stdout: &str) -> (r: Option<String>)
    ensures
        match r {
            Some(a) => dialog_answer_spec(stdout@) == Some(a@) && a@ != "false"@,
            None => dialog_answer_spec(stdout@) is None || dialog_answer_spec(stdout@) == Some(
                "false"@,
            ),
        },
{
    let s = trim_end_char(stdout, '\n');
    if str_eq(s.as_str(), "false") || s.as_str().unicode_len() == 0 {
        None
    } else {
        Some(s)
    }
}

/// `l` without one trailing carriage return.
pub open spec fn strip_cr(l: Seq<char>) -> Seq<char> {
    if l.len() > 0 && l.last() == '\r' {
        l.drop_last()
    } else {
        l
    }
}

/// The non-empty lines of `s`, as `str::lines` splits them (at `\n`, with a
/// `\r` before it dropped), in order.
pub open spec fn nonempty_lines(s: Seq<char>) -> Seq<Seq<char>>
    decreases s.len(),
{
    if s.len() == 0 {
        Seq::empty()
    } else {
        match first_occurrence(s, "\n"@) {
            Some(i) => if 0 <= i && i + 1 <= s.len() && "\n"@.len() == 1 {
                let l = strip_cr(s.subrange(0, i));
                let rest = nonempty_lines(s.subrange(i + 1, s.len() as int));
                if l.len() > 0 {
                    seq![l] + rest
                } else {
                    rest
                }
            } else {
                Seq::empty()
            },
            None => seq![s],
        }
    }
}

fn collect_lines(s: &str, out: &mut Vec<String>)
    ensures
        strings_view(final(out)@) == strings_view(old(out)@) + nonempty_lines(s@),
    decreases s@.len(),
{
    proof {
        reveal_strlit("\n");
    }
    let n = s.unicode_len();
    if n == 0 {
        assert(strings_view(out@) =~= strings_view(out@) + nonempty_lines(s@));
        return;
    }
    match find_first(s, "\n") {
        Some(i) => {
            let mut line = prefix_string(s, i);
            let m = line.as_str().unicode_len();
            if m > 0 && line.as_str().get_char(m - 1) == '\r' {
                line = prefix_string(line.as_str(), m - 1);
            }
            let ghost before = strings_view(out@);
            if line.as_str().unicode_len() > 0 {
                out.push(line);
            }
            let rest = suffix_string(s, i + 1);
            collect_lines(rest.as_str(), out);
            assert(strings_view(out@) =~= before + nonempty_lines(s@));
        },
        None => {
            let ghost before = strings_view(out@);
            out.push(owned(s));
            assert(strings_view(out@) =~= before + nonempty_lines(s@));
        },
    }
}

/// Reads a multi-file dialog's output: one path per non-empty line; `None`
/// when there is none.
pub fn dialog_lines(stdout: &str) -> (r: Option<Vec<String>>)
    ensures
        match r {
            Some(v) => strings_view(v@) == nonempty_lines(stdout@) && v@.len() > 0,
            None => nonempty_lines(stdout@).len() == 0,
        },
{
    let mut v: Vec<String> = Vec::new();
    collect_lines(stdout, &mut v);
    assert(strings_view(v@) =~= nonempty_lines(stdout@));
    if v.len() == 0 {
        None
    } else {
        Some(v)
    }
}

/// How one character is written inside an AppleScript string literal.
pub open spec fn applescript_escape_char(c: char) -> Seq<char> {
    if c == '\\' {
        seq!['\\', '\\']
    } else if c == '"' {
        seq!['\\', '"']
    } else if c == '\n' {
        seq!['\\', 'n']
    } else {
        seq![c]
    }
}

/// `s` escaped for an AppleScript string literal (backslashes, quotes and
/// newlines escaped, in that order, which amounts to escaping each
/// character on its own).
pub open spec fn applescript_escape(s: Seq<char>) -> Seq<char>
    decreases s.len(),
{
    if s.len() == 0 {
        Seq::empty()
    } else {
        applescript_escape(s.drop_last()) + applescript_escape_char(s.last())
    }
}

/// Escapes text for an AppleScript string literal.
pub fn macos_escape(s: &str) -> (r: String)
    ensures
        r@ == applescript_escape(s@),
{
    let n = s.unicode_len();
    let mut r = String::new();
    let mut i: usize = 0;
    while i < n
        invariant
            i <= n,
            n == s@.len(),
            r@ == applescript_escape(s@.subrange(0, i as int)),
        decreases n - i,
    {
        let c = s.get_char(i);
        assert(s@.subrange(0, i + 1).drop_last() =~= s@.subrange(0, i as int));
        if c == '\\' {
            push_char(&mut r, '\\');
            push_char(&mut r, '\\');
        } else if c == '"' {
            push_char(&mut r, '\\');
            push_char(&mut r, '"');
        } else if c == '\n' {
            push_char(&mut r, '\\');
            push_char(&mut r, 'n');
        } else {
            push_char(&mut r, c);
        }
        i = i + 1;
        assert(r@ =~= applescript_escape(s@.subrange(0, i as int)));
    }
    assert(s@.subrange(0, n as int) =~= s@);
    r
}

/// The list entry to select first: the first option equal to `selected`.
pub fn preselect_index(options: &[String], selected: Option<&str>) -> (r: Option<usize>)
    ensures
        match selected {
            None => r is None,
            Some(s) => match r {
                Some(i) => i < options@.len() && options@[i as int]@ == s@ && forall|j: int|
                    0 <= j < i ==> options@[j]@ != s@,
                None => forall|j: int| 0 <= j < options@.len() ==> options@[j]@ != s@,
            },
        },
{
    match selected {
        None => None,
        Some(s) => {
            let n = options.len();
            let mut i: usize = 0;
            while i < n
                invariant
                    i <= n,
                    n == options@.len(),
                    selected == Some(s),
                    forall|j: int| 0 <= j < i ==> options@[j]@ != s@,
                decreases n - i,
            {
                if str_eq(options[i].as_str(), s) {
                    return Some(i);
                }
                i = i + 1;
            }
            None
        },
    }
}

/// Where the word starting at `i` ends: the first whitespace at or after
/// `i`, or the end.
pub open spec fn word_end(s: Seq<char>, i: int) -> int
    decreases s.len() - i,
{
    if i < 0 || i >= s.len() {
        s.len() as int
    } else if is_white(s[i]) {
        i
    } else {
        word_end(s, i + 1)
    }
}

proof fn lemma_word_end(s: Seq<char>, i: int)
    requires
        0 <= i <= s.len(),
    ensures
        i <= word_end(s, i) <= s.len(),
        forall|k: int| i <= k < word_end(s, i) ==> !is_white(#[trigger] s[k]),
        word_end(s, i) < s.len() ==> is_white(s[word_end(s, i)]),
    decreases s.len() - i,
{
    if i < s.len() && !is_white(s[i]) {
        lemma_word_end(s, i + 1);
    }
}

/// The whitespace-separated words of `s` from position `i` on, in order
/// (what `split_whitespace` yields).
pub open spec fn words_from(s: Seq<char>, i: int) -> Seq<Seq<char>>
    decreases s.len() - i,
{
    if i < 0 || i >= s.len() {
        Seq::empty()
    } else if is_white(s[i]) {
        words_from(s, i + 1)
    } else {
        let j = word_end(s, i + 1);
        if i < j <= s.len() {
            seq![s.subrange(i, j)] + words_from(s, j)
        } else {
            Seq::empty()
        }
    }
}

fn collect_words(s: &str, i: usize, out: &mut Vec<String>)
    requires
        i <= s@.len(),
    ensures
        strings_view(final(out)@) == strings_view(old(out)@) + words_from(s@, i as int),
    decreases s@.len() - i,
{
    let n = s.unicode_len();
    if i >= n {
        assert(strings_view(out@) =~= strings_view(out@) + words_from(s@, i as int));
        return;
    }
    if is_whitespace(s.get_char(i)) {
        collect_words(s, i + 1, out);
        return;
    }
    let mut j = i + 1;
    proof {
        lemma_word_end(s@, i + 1);
    }
    while j < n && !is_whitespace(s.get_char(j))
        invariant
            i < j <= n,
            n == s@.len(),
            word_end(s@, j as int) == word_end(s@, i + 1),
        decreases n - j,
    {
        j = j + 1;
    }
    let ghost before = strings_view(out@);
    out.push(substring(s, i, j));
    collect_words(s, j, out);
    assert(strings_view(out@) =~= before + words_from(s@, i as int));
}

/// The whitespace-separated words of `s`.
pub fn split_whitespace(s: &str) -> (r: Vec<String>)
    ensures
        strings_view(r@) == words_from(s@, 0),
{
    let mut v: Vec<String> = Vec::new();
    collect_words(s, 0, &mut v);
    assert(strings_view(v@) =~= words_from(s@, 0));
    v
}

/// The unit of a retention duration.
#[derive(Debug)]
pub enum DurationUnit {
    Minutes,
    Hours,
    Days,
}

/// The unit a word names, if it names one.
pub open spec fn unit_spec(w: Seq<char>) -> Option<DurationUnit> {
    if w == "minutes"@ || w == "minute"@ || w == "mins"@ || w == "min"@ {
        Some(DurationUnit::Minutes)
    } else if w == "hour"@ || w == "hours"@ || w == "h"@ {
        Some(DurationUnit::Hours)
    } else if w == "day"@ || w == "days"@ || w == "d"@ {
        Some(DurationUnit::Days)
    } else {
        None
    }
}

/// Reads a duration's text into its number's text and its unit: the first
/// word is the number, the second the unit; `None` when there are fewer
/// than two words or the second names no unit. (Reading the number itself
/// is left to the caller.)
pub fn duration_parts(s: &str) -> (r: Option<(String, DurationUnit)>)
    ensures
        ({
            let w = words_from(s@, 0);
            match r {
                Some((num, unit)) => w.len() >= 2 && num@ == w[0] && unit_spec(w[1]) == Some(unit),
                None => w.len() < 2 || unit_spec(w[1]) is None,
            }
        }),
{
    let parts = split_whitespace(s);
    if parts.len() < 2 {
        return None;
    }
    let u = parts[1].as_str();
    let unit = if str_eq(u, "minutes") || str_eq(u, "minute") || str_eq(u, "mins") || str_eq(u, "min") {
        DurationUnit::Minutes
    } else if str_eq(u, "hour") || str_eq(u, "hours") || str_eq(u, "h") {
        DurationUnit::Hours
    } else if str_eq(u, "day") || str_eq(u, "days") || str_eq(u, "d") {
        DurationUnit::Days
    } else {
        return None;
    };
    Some((parts[0].clone(), unit))
}

} // verus!

verus! {

/// A dialog's trailing newlines do not change its answer.
pub proof fn law_trailing_newline_ignored(stdout: Seq<char>)
    ensures
        dialog_answer_spec(stdout.push('\n')) == dialog_answer_spec(stdout),
{
    assert(stdout.push('\n').drop_last() =~= stdout);
}

/// Escaping for AppleScript works piece by piece: escaping two texts one
/// after the other gives the escape of the whole.
pub proof fn law_escape_concat(a: Seq<char>, b: Seq<char>)
    ensures
        applescript_escape(a + b) == applescript_escape(a) + applescript_escape(b),
    decreases b.len(),
{
    if b.len() == 0 {
        assert(a + b =~= a);
        assert(applescript_escape(a) + applescript_escape(b) =~= applescript_escape(a));
    } else {
        assert((a + b).drop_last() =~= a + b.drop_last());
        assert((a + b).last() == b.last());
        law_escape_concat(a, b.drop_last());
        assert(applescript_escape(a) + applescript_escape(b) =~= applescript_escape(a)
            + applescript_escape(b.drop_last()) + applescript_escape_char(b.last()));
    }
}

/// Each character is escaped on its own: a backslash, a quote or a newline
/// becomes a backslash and a second character; any other character is kept.
pub proof fn law_escape_char(c: char)
    ensures
        applescript_escape(seq![c]) == applescript_escape_char(c),
        (c == '\\' || c == '"' || c == '\n') ==> (applescript_escape_char(c).len() == 2
            && applescript_escape_char(c)[0] == '\\'),
        !(c == '\\' || c == '"' || c == '\n') ==> applescript_escape_char(c) == seq![c],
{
    assert(seq![c].drop_last() =~= Seq::<char>::empty());
    assert(applescript_escape(Seq::<char>::empty()) == Seq::<char>::empty());
    assert(seq![c].last() == c);
    assert(Seq::<char>::empty() + applescript_escape_char(c) =~= applescript_escape_char(c));
}

} // verus!
