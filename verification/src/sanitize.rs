//! Making text from a device or a file harmless before it is printed.

use crate::text::{chars_of, contains_text, has_run, text_of};
use vstd::prelude::*;

verus! {

/// Control characters: the two blocks of codes that stand for no glyph.
pub open spec fn is_control(c: char) -> bool {
    c as u32 <= 0x1f || (0x7f <= c as u32 && c as u32 <= 0x9f)
}

/// Characters that can make printed text read as something it is not: control
/// characters, line and paragraph separators, and the invisible ones that
/// change direction, join, break or tag.
pub open spec fn spoofing(c: char) -> bool {
    let n = c as u32;
    ||| is_control(c)
    ||| n == 0xad
    ||| n == 0x61c
    ||| n == 0x180e
    ||| (0x200b <= n && n <= 0x200f)
    ||| (0x2028 <= n && n <= 0x202e)
    ||| (0x2060 <= n && n <= 0x206f)
    ||| n == 0xfeff
    ||| (0xe0000 <= n && n <= 0xe007f)
}

/// Whether `c` must not reach the terminal.
pub fn is_spoofing_char(c: char) -> (r: bool)
    ensures
        r == spoofing(c),
{
    let n: u32 = c as u32;
    n <= 0x1f || (0x7f <= n && n <= 0x9f) || n == 0xad || n == 0x61c || n == 0x180e || (0x200b <= n && n
        <= 0x200f) || (0x2028 <= n && n <= 0x202e) || (0x2060 <= n && n <= 0x206f) || n == 0xfeff || (
    0xe0000 <= n && n <= 0xe007f)
}

/// What a character becomes on a single line.
pub open spec fn line_char(c: char) -> char {
    if spoofing(c) {
        ' '
    } else {
        c
    }
}

/// What a character becomes in text of several lines.
pub open spec fn block_char(c: char) -> char {
    if c == '\n' || c == '\t' {
        c
    } else {
        line_char(c)
    }
}

/// `s` made safe for a single line.
pub open spec fn clean(s: Seq<char>) -> Seq<char> {
    s.map_values(|c: char| line_char(c))
}

/// `s` made safe, line breaks and tabs kept.
pub open spec fn clean_block(s: Seq<char>) -> Seq<char> {
    s.map_values(|c: char| block_char(c))
}

/// Replaces every character that could deceive on a terminal by a space. The
/// number of characters stays the same.
pub fn sanitize_terminal(s: &str) -> (r: String)
    ensures
        r@ == clean(s@),
{
    let chars = chars_of(s);
    let mut r = String::new();
    let mut i: usize = 0;
    while i < chars.len()
        invariant
            i <= chars.len(),
            chars@ == s@,
            r@ == clean(s@).take(i as int),
        decreases chars.len() - i,
    {
        let c = chars[i];
        r.push(
            if is_spoofing_char(c) {
                ' '
            } else {
                c
            },
        );
        i = i + 1;
        assert(r@ =~= clean(s@).take(i as int));
    }
    assert(r@ =~= clean(s@));
    r
}

/// Like [`sanitize_terminal`], but keeps line breaks and tabs.
pub fn sanitize_multiline(s: &str) -> (r: String)
    ensures
        r@ == clean_block(s@),
{
    let chars = chars_of(s);
    let mut r = String::new();
    let mut i: usize = 0;
    while i < chars.len()
        invariant
            i <= chars.len(),
            chars@ == s@,
            r@ == clean_block(s@).take(i as int),
        decreases chars.len() - i,
    {
        let c = chars[i];
        r.push(
            if c == '\n' || c == '\t' {
                c
            } else if is_spoofing_char(c) {
                ' '
            } else {
                c
            },
        );
        i = i + 1;
        assert(r@ =~= clean_block(s@).take(i as int));
    }
    assert(r@ =~= clean_block(s@));
    r
}

/// Cleaned text is inert: none of its characters can deceive, it has as many
/// characters as before, and innocent characters stay in place.
pub proof fn law_clean_is_inert(s: Seq<char>)
    ensures
        clean(s).len() == s.len(),
        forall|i: int| 0 <= i < s.len() ==> !spoofing(#[trigger] clean(s)[i]),
        forall|i: int| 0 <= i < s.len() && !spoofing(s[i]) ==> #[trigger] clean(s)[i] == s[i],
        forall|i: int| 0 <= i < s.len() && spoofing(s[i]) ==> #[trigger] clean(s)[i] == ' ',
{
}

/// Cleaning twice changes nothing more.
pub proof fn law_clean_is_idempotent(s: Seq<char>)
    ensures
        clean(clean(s)) == clean(s),
        clean_block(clean_block(s)) == clean_block(s),
{
    assert(clean(clean(s)) =~= clean(s));
    assert(clean_block(clean_block(s)) =~= clean_block(s));
}

/// The block form keeps line breaks and tabs, keeps the number of characters,
/// and follows the single-line rule everywhere else.
pub proof fn law_block_keeps_only_newline_and_tab(s: Seq<char>)
    ensures
        clean_block(s).len() == s.len(),
        forall|i: int|
            0 <= i < s.len() && s[i] != '\n' && s[i] != '\t' ==> #[trigger] clean_block(s)[i] == clean(s)[i],
        forall|i: int|
            0 <= i < s.len() && (s[i] == '\n' || s[i] == '\t') ==> #[trigger] clean_block(s)[i] == s[i],
        forall|i: int|
            0 <= i < s.len() && spoofing(#[trigger] clean_block(s)[i]) ==> clean_block(s)[i] == '\n'
                || clean_block(s)[i] == '\t',
{
}

/// White space, as the Unicode property of that name has it.
pub open spec fn is_space(c: char) -> bool {
    let n = c as u32;
    ||| (0x9 <= n && n <= 0xd)
    ||| n == 0x20
    ||| n == 0x85
    ||| n == 0xa0
    ||| n == 0x1680
    ||| (0x2000 <= n && n <= 0x200a)
    ||| n == 0x2028
    ||| n == 0x2029
    ||| n == 0x202f
    ||| n == 0x205f
    ||| n == 0x3000
}

/// Whether `c` is white space.
pub fn is_white_space(c: char) -> (r: bool)
    ensures
        r == is_space(c),
{
    let n: u32 = c as u32;
    (0x9 <= n && n <= 0xd) || n == 0x20 || n == 0x85 || n == 0xa0 || n == 0x1680 || (0x2000 <= n && n
        <= 0x200a) || n == 0x2028 || n == 0x2029 || n == 0x202f || n == 0x205f || n == 0x3000
}

/// `t` is `s` without the white space at its two ends.
pub open spec fn trimmed_of(s: Seq<char>, t: Seq<char>) -> bool {
    exists|i: int, j: int| #[trigger] trim_bounds(s, i, j) && t == s.subrange(i, j)
}

/// `s[i..j]` is what is left of `s` between the white space at its ends.
pub open spec fn trim_bounds(s: Seq<char>, i: int, j: int) -> bool {
    &&& 0 <= i <= j <= s.len()
    &&& forall|k: int| 0 <= k < i ==> is_space(#[trigger] s[k])
    &&& forall|k: int| j <= k < s.len() ==> is_space(#[trigger] s[k])
    &&& i < j ==> !is_space(s[i]) && !is_space(s[j - 1])
}

/// There is only one way to trim a text.
pub proof fn lemma_trim_unique(s: Seq<char>, t: Seq<char>, u: Seq<char>)
    requires
        trimmed_of(s, t),
        trimmed_of(s, u),
    ensures
        t == u,
{
    let (i, j) = choose|i: int, j: int| #[trigger] trim_bounds(s, i, j) && t == s.subrange(i, j);
    let (k, l) = choose|i: int, j: int| #[trigger] trim_bounds(s, i, j) && u == s.subrange(i, j);
    if i < j {
        if k < l {
            assert(is_space(s[i]) == false && is_space(s[k]) == false);
            assert(i == k);
            assert(is_space(s[j - 1]) == false && is_space(s[l - 1]) == false);
            assert(j == l);
        } else {
            assert(is_space(s[i]));
        }
    } else {
        if k < l {
            assert(is_space(s[k]));
        }
    }
    assert(t =~= u);
}

/// `s` without the white space at its two ends.
pub fn trim(s: &str) -> (r: String)
    ensures
        trimmed_of(s@, r@),
{
    let chars = chars_of(s);
    let mut i: usize = 0;
    while i < chars.len() && is_white_space(chars[i])
        invariant
            i <= chars.len(),
            forall|k: int| 0 <= k < i ==> is_space(#[trigger] chars@[k]),
        decreases chars.len() - i,
    {
        i = i + 1;
    }
    let mut j: usize = chars.len();
    while i < j && is_white_space(chars[j - 1])
        invariant
            i <= j <= chars.len(),
            forall|k: int| j <= k < chars.len() ==> is_space(#[trigger] chars@[k]),
        decreases j,
    {
        j = j - 1;
    }
    assert(trim_bounds(s@, i as int, j as int));
    text_of(&chars, i, j)
}

/// `s` without the carriage returns and line feeds at its end.
pub open spec fn without_line_end(s: Seq<char>) -> Seq<char>
    decreases s.len(),
{
    if s.len() > 0 && (s.last() == '\r' || s.last() == '\n') {
        without_line_end(s.drop_last())
    } else {
        s
    }
}

/// Takes all carriage returns and line feeds off the end of a line.
pub fn trim_line_end(s: &str) -> (r: String)
    ensures
        r@ == without_line_end(s@),
{
    let chars = chars_of(s);
    let mut j: usize = chars.len();
    assert(chars@.take(j as int) =~= s@);
    while j > 0 && (chars[j - 1] == '\r' || chars[j - 1] == '\n')
        invariant
            j <= chars.len(),
            without_line_end(chars@.take(j as int)) == without_line_end(s@),
        decreases j,
    {
        assert(chars@.take(j as int).drop_last() =~= chars@.take(j as int - 1));
        j = j - 1;
    }
    proof {
        let rest = chars@.take(j as int);
        assert(without_line_end(rest) == rest);
        assert(rest =~= chars@.subrange(0, j as int));
    }
    text_of(&chars, 0, j)
}

/// `s` without one line break at its end, and without the carriage return
/// before it.
pub open spec fn without_one_newline(s: Seq<char>) -> Seq<char> {
    if s.len() > 0 && s.last() == '\n' {
        let t = s.drop_last();
        if t.len() > 0 && t.last() == '\r' {
            t.drop_last()
        } else {
            t
        }
    } else {
        s
    }
}

/// Takes a single line break off the end of a piped password; white space
/// elsewhere is meant.
pub fn trim_one_newline(s: &str) -> (r: String)
    ensures
        r@ == without_one_newline(s@),
{
    let chars = chars_of(s);
    let mut j: usize = chars.len();
    if j > 0 && chars[j - 1] == '\n' {
        j = j - 1;
        if j > 0 && chars[j - 1] == '\r' {
            j = j - 1;
        }
    }
    assert(chars@.subrange(0, j as int) =~= without_one_newline(s@));
    text_of(&chars, 0, j)
}

/// Whether a panic message tells of a closed output pipe. Each of the three
/// marks is looked for anywhere in the message.
pub fn is_broken_pipe_panic(msg: &str) -> (r: bool)
    ensures
        r == (has_run(msg@, "BrokenPipe"@) || has_run(msg@, "(os error 32)"@) || has_run(
            msg@,
            "Broken pipe"@,
        )),
{
    contains_text(msg, "BrokenPipe") || contains_text(msg, "(os error 32)") || contains_text(
        msg,
        "Broken pipe",
    )
}

/// Line ends are taken off the end of a line, all of them and nothing else.
pub proof fn law_only_line_ends_are_taken_off(s: Seq<char>)
    ensures
        ({
            let t = without_line_end(s);
            &&& t.len() <= s.len()
            &&& t == s.take(t.len() as int)
            &&& forall|k: int| t.len() <= k < s.len() ==> #[trigger] s[k] == '\r' || s[k] == '\n'
            &&& t.len() > 0 ==> t.last() != '\r' && t.last() != '\n'
        }),
    decreases s.len(),
{
    if s.len() > 0 && (s.last() == '\r' || s.last() == '\n') {
        let init = s.drop_last();
        law_only_line_ends_are_taken_off(init);
        let t = without_line_end(s);
        assert(init.take(t.len() as int) =~= s.take(t.len() as int));
        assert forall|k: int| t.len() <= k < s.len() implies #[trigger] s[k] == '\r' || s[k] == '\n' by {
            if k < init.len() {
                assert(init[k] == s[k]);
            }
        }
    } else {
        assert(s.take(s.len() as int) =~= s);
    }
}

/// One newline is taken off, with the carriage return before it where there is
/// one, and never a second.
pub proof fn law_one_newline_is_taken_off(s: Seq<char>)
    ensures
        s.len() == 0 || s.last() != '\n' ==> without_one_newline(s) == s,
        (s.len() == 0 || s.last() != '\r') ==> without_one_newline(s.push('\n')) == s,
        without_one_newline(s.push('\r').push('\n')) == s,
{
    assert(s.push('\n').drop_last() =~= s);
    assert(s.push('\r').push('\n').drop_last() =~= s.push('\r'));
    assert(s.push('\r').drop_last() =~= s);
}

/// A control character can deceive, and so can what turns the direction of a text,
/// takes no room, or breaks a line; letters, digits and a plain space cannot.
pub proof fn law_what_can_deceive(c: char)
    ensures
        (c as u32) < 0x20 || 0x7f <= (c as u32) <= 0x9f ==> spoofing(c),
        0x202a <= (c as u32) <= 0x202e || 0x2066 <= (c as u32) <= 0x2069 || c as u32 == 0x200e || c as u32 == 0x200f || c as u32
            == 0x61c ==> spoofing(c),
        0x200b <= (c as u32) <= 0x200d || c as u32 == 0x2060 || c as u32 == 0xfeff || c as u32 == 0xad ==> spoofing(c),
        c as u32 == 0x2028 || c as u32 == 0x2029 ==> spoofing(c),
        0xe0000 <= (c as u32) <= 0xe007f ==> spoofing(c),
        0x20 <= (c as u32) <= 0x7e ==> !spoofing(c),
        0xae <= (c as u32) <= 0x61b ==> !spoofing(c),
        0x2070 <= (c as u32) <= 0xfefe ==> !spoofing(c),
{
}

/// What is shown on one line keeps every harmless character in its place, and
/// shows a space where one could deceive; a block keeps its newlines and tabs too.
pub proof fn law_cleaning_keeps_the_harmless(s: Seq<char>, i: int)
    requires
        0 <= i < s.len(),
    ensures
        clean(s).len() == s.len() && clean_block(s).len() == s.len(),
        !spoofing(s[i]) ==> clean(s)[i] == s[i] && clean_block(s)[i] == s[i],
        spoofing(s[i]) ==> clean(s)[i] == ' ',
        s[i] == '\n' || s[i] == '\t' ==> clean_block(s)[i] == s[i],
        spoofing(s[i]) && s[i] != '\n' && s[i] != '\t' ==> clean_block(s)[i] == ' ',
        !spoofing(clean(s)[i]),
{
}

} // verus!
