//! Text measurement and layout: blank-input detection, display widths,
//! line wrapping and truncation.

use vstd::prelude::*;

verus! {

broadcast use vstd::string::group_string_axioms;

/// The characters with the Unicode `White_Space` property, which is what
/// `char::is_whitespace` of std tests: tab to carriage return, space,
/// U+0085, no-break space, U+1680, U+2000 to U+200A, the line and paragraph
/// separators, U+202F, U+205F and the ideographic space.
pub open spec fn char_is_whitespace(c: char) -> bool {
    let u = c as u32;
    ||| 0x09 <= u <= 0x0D
    ||| u == 0x20
    ||| u == 0x85
    ||| u == 0xA0
    ||| u == 0x1680
    ||| 0x2000 <= u <= 0x200A
    ||| u == 0x2028
    ||| u == 0x2029
    ||| u == 0x202F
    ||| u == 0x205F
    ||| u == 0x3000
}

/// Whether `c` is whitespace in the Unicode sense.
pub fn is_whitespace(c: char) -> (res: bool)
    ensures
        res == char_is_whitespace(c),
{
    match c {
        '\u{09}'..='\u{0D}' | ' ' | '\u{85}' | '\u{A0}' | '\u{1680}' | '\u{2000}'..='\u{200A}'
        | '\u{2028}' | '\u{2029}' | '\u{202F}' | '\u{205F}' | '\u{3000}' => true,
        _ => false,
    }
}

/// True when every character of `s` is whitespace.
pub open spec fn spec_is_blank(s: Seq<char>) -> bool {
    forall|i: int| 0 <= i < s.len() ==> char_is_whitespace(#[trigger] s[i])
}

/// Whether `s` holds nothing but whitespace, that is, whether `s.trim()`
/// is empty.
pub fn is_blank(s: &str) -> (res: bool)
    ensures
        res == spec_is_blank(s@),
{
    for c in it: s.chars()
        invariant
            it.seq() == s@,
            forall|j: int| 0 <= j < it.index() ==> char_is_whitespace(#[trigger] s@[j]),
    {
        if !is_whitespace(c) {
            return false;
        }
    }
    true
}

/// Calls `String::push`, which appends the character to the end of the
/// string.
#[verifier::external_body]
pub(crate) fn push_char(s: &mut String, c: char)
    ensures
        final(s)@ == old(s)@.push(c),
{
    s.push(c);
}

/// Calls `String::pop`, which removes the last character and returns it, or
/// returns `None` and leaves the string as it is when it is empty.
#[verifier::external_body]
pub(crate) fn pop_char(s: &mut String) -> (res: Option<char>)
    ensures
        old(s)@.len() == 0 ==> res is None && final(s)@ == old(s)@,
        old(s)@.len() > 0 ==> res == Some(old(s)@.last()) && final(s)@ == old(s)@.drop_last(),
{
    s.pop()
}

/// The display width that `unicode_width::UnicodeWidthChar::width` gives a
/// character: `None` for control characters, else the number of columns.
pub uninterp spec fn unicode_char_width(c: char) -> Option<usize>;

/// Calls `UnicodeWidthChar::width` of unicode-width. The result is named;
/// the crate's source (`single_char_width`) also shows that characters below
/// U+0020 and from U+007F to U+009F are control characters (`None`), that
/// U+0020 to U+007E are one column wide, and that every other character has
/// a width that comes from a `u8` table entry.
#[verifier::external_body]
pub(crate) fn char_width(c: char) -> (res: Option<usize>)
    ensures
        res == unicode_char_width(c),
        (c as u32) < 0x20 ==> res is None,
        0x20 <= (c as u32) < 0x7F ==> res == Some(1usize),
        0x7F <= (c as u32) < 0xA0 ==> res is None,
        0xA0 <= (c as u32) ==> res is Some && res->0 <= 255,
{
    unicode_width::UnicodeWidthChar::width(c)
}

/// The number of columns a character takes in the layout: its width, or 0
/// for a control character.
pub open spec fn col_width(c: char) -> nat {
    match unicode_char_width(c) {
        Some(w) => w as nat,
        None => 0,
    }
}

/// The total number of columns the characters take in the layout.
pub open spec fn cols(s: Seq<char>) -> nat
    decreases s.len(),
{
    if s.len() == 0 {
        0
    } else {
        cols(s.drop_last()) + col_width(s.last())
    }
}

/// Greedy line breaking of the characters read so far: the finished lines,
/// the line being filled and its width. A character that does not fit in
/// `max_width` columns starts a new line, unless the line is still empty.
pub open spec fn wrap_state(s: Seq<char>, max_width: nat) -> (Seq<Seq<char>>, Seq<char>, nat)
    decreases s.len(),
{
    if s.len() == 0 {
        (Seq::empty(), Seq::empty(), 0)
    } else {
        let prev = wrap_state(s.drop_last(), max_width);
        let c = s.last();
        if prev.2 + col_width(c) > max_width && prev.1.len() > 0 {
            (prev.0.push(prev.1), seq![c], col_width(c))
        } else {
            (prev.0, prev.1.push(c), prev.2 + col_width(c))
        }
    }
}

/// The lines `text` is broken into for `max_width` columns: the greedy
/// lines, or a single empty line for an empty text.
pub open spec fn spec_wrap_text(text: Seq<char>, max_width: nat) -> Seq<Seq<char>> {
    let st = wrap_state(text, max_width);
    let lines = if st.1.len() > 0 {
        st.0.push(st.1)
    } else {
        st.0
    };
    if lines.len() == 0 {
        seq![Seq::empty()]
    } else {
        lines
    }
}

/// The texts of a list of strings.
pub open spec fn strings_view(v: Seq<String>) -> Seq<Seq<char>> {
    v.map_values(|s: String| s@)
}

/// Breaks `text` into lines of at most `max_width` display columns,
/// greedily; a character wider than the whole width gets a line of its own.
pub fn wrap_text(text: &str, max_width: usize) -> (res: Vec<String>)
    ensures
        strings_view(res@) == spec_wrap_text(text@, max_width as nat),
{
    let mut lines: Vec<String> = Vec::new();
    let mut current_line = String::new();
    let mut current_width: usize = 0;
    for ch in it: text.chars()
        invariant
            it.seq() == text@,
            0 <= it.index() <= text@.len(),
            (strings_view(lines@), current_line@, current_width as nat) == wrap_state(
                text@.take(it.index()),
                max_width as nat,
            ),
            current_line@.len() == 0 ==> current_width == 0,
    {
        let ghost i = it.index();
        let char_width: usize = match char_width(ch) {
            Some(w) => w,
            None => 0,
        };
        let exceeds = current_width > max_width || char_width > max_width - current_width;
        proof {
            assert(text@.take(i + 1).drop_last() =~= text@.take(i));
            assert(text@.take(i + 1).last() == ch);
        }
        if exceeds && !current_line.as_str().is_empty() {
            let ghost before = lines@;
            lines.push(current_line.clone());
            assert(strings_view(lines@) =~= strings_view(before).push(current_line@));
            current_line = String::new();
            current_width = 0;
        }
        push_char(&mut current_line, ch);
        current_width = current_width + char_width;
    }
    assert(text@.take(text@.len() as int) =~= text@);
    if !current_line.as_str().is_empty() {
        let ghost before = lines@;
        lines.push(current_line);
        assert(strings_view(lines@) =~= strings_view(before).push(current_line@));
    }
    if lines.len() == 0 {
        lines.push(String::new());
        assert(strings_view(lines@) =~= seq![Seq::<char>::empty()]);
    }
    lines
}

/// The display width that `unicode_width::UnicodeWidthStr::width` gives a
/// text.
pub uninterp spec fn unicode_str_width(s: Seq<char>) -> usize;

/// Calls `UnicodeWidthStr::width` of unicode-width. Its documentation gives
/// the width of a text as the sum of its characters' widths except for a
/// list of sequences (emoji, ligatures, `\r\n`) with widths of their own;
/// the result is named and nothing more is stated.
#[verifier::external_body]
pub(crate) fn str_width(s: &str) -> (res: usize)
    ensures
        res == unicode_str_width(s@),
{
    unicode_width::UnicodeWidthStr::width(s)
}

/// How many characters from the front of `s` fit in `max` columns when
/// `start` columns are already taken: the length of the longest prefix
/// whose width, added to `start`, is at most `max`.
pub open spec fn fit_count(s: Seq<char>, start: nat, max: nat) -> nat
    decreases s.len(),
{
    if s.len() == 0 {
        0
    } else {
        let k = fit_count(s.drop_last(), start, max);
        if k == s.len() - 1 && start + cols(s) <= max {
            s.len()
        } else {
            k
        }
    }
}

/// The longest prefix of `text` that fits in `max_width` columns after
/// `start_width` columns already taken, and whether characters were left
/// out.
pub fn fit_prefix(text: &str, start_width: usize, max_width: usize) -> (res: (String, bool))
    ensures
        res.0@ == text@.take(fit_count(text@, start_width as nat, max_width as nat) as int),
        res.1 == (fit_count(text@, start_width as nat, max_width as nat) < text@.len()),
{
    let mut res = String::new();
    let mut current_width: usize = start_width;
    let mut cut = false;
    let ghost start = start_width as nat;
    let ghost max = max_width as nat;
    for ch in it: text.chars()
        invariant
            it.seq() == text@,
            0 <= it.index() <= text@.len(),
            start == start_width as nat,
            max == max_width as nat,
            fit_count(text@.take(it.index()), start, max) <= it.index(),
            res@ == text@.take(fit_count(text@.take(it.index()), start, max) as int),
            cut == (fit_count(text@.take(it.index()), start, max) < it.index()),
            !cut ==> current_width == start + cols(text@.take(it.index())),
            !cut && it.index() > 0 ==> current_width <= max_width,
    {
        let ghost i = it.index();
        let w: usize = match char_width(ch) {
            Some(w) => w,
            None => 0,
        };
        proof {
            let t1 = text@.take(i + 1);
            assert(t1.drop_last() =~= text@.take(i));
            assert(t1.last() == ch);
        }
        if !cut {
            if current_width > max_width || w > max_width - current_width {
                cut = true;
            } else {
                push_char(&mut res, ch);
                current_width = current_width + w;
                assert(res@ =~= text@.take(i + 1));
            }
        }
    }
    assert(text@.take(text@.len() as int) =~= text@);
    (res, cut)
}

/// `n` spaces.
pub open spec fn spaces(n: nat) -> Seq<char> {
    Seq::new(n, |i: int| ' ')
}

/// A string of `n` spaces.
pub fn repeat_space(n: usize) -> (res: String)
    ensures
        res@ == spaces(n as nat),
{
    let mut res = String::new();
    for i in 0..n
        invariant
            res@ == spaces(i as nat),
    {
        push_char(&mut res, ' ');
        assert(res@ =~= spaces((i + 1) as nat));
    }
    res
}

} // verus!
