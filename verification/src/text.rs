//! Characters, numbers and hexadecimal digits as text.

use vstd::prelude::*;

verus! {

/// `String::push`: the given character is appended to the string.
pub assume_specification[ String::push ](s: &mut String, c: char)
    ensures
        final(s)@ == old(s)@.push(c),
;

/// Whether two pieces of text hold the same characters.
pub fn str_eq(a: &str, b: &str) -> (r: bool)
    ensures
        r == (a@ == b@),
{
    a.to_owned() == b.to_owned()
}

/// The characters of `s`, in order.
pub fn chars_of(s: &str) -> (r: Vec<char>)
    ensures
        r@ == s@,
{
    let mut r: Vec<char> = Vec::new();
    for c in it: s.chars()
        invariant
            r@ == it.seq().take(it.index() as int),
    {
        r.push(c);
        assert(r@ =~= it.seq().take(it.index() as int + 1));
    }
    assert(r@ =~= s@);
    r
}

/// The text made of the characters `chars[from..to]`.
pub fn text_of(chars: &Vec<char>, from: usize, to: usize) -> (r: String)
    requires
        from <= to <= chars.len(),
    ensures
        r@ == chars@.subrange(from as int, to as int),
{
    let mut r = String::new();
    let mut i: usize = from;
    while i < to
        invariant
            from <= i <= to <= chars.len(),
            r@ == chars@.subrange(from as int, i as int),
        decreases to - i,
    {
        r.push(chars[i]);
        i = i + 1;
        assert(r@ =~= chars@.subrange(from as int, i as int));
    }
    r
}

/// Two pieces of text, one after the other.
pub fn cat2(a: &str, b: &str) -> (r: String)
    ensures
        r@ == a@ + b@,
{
    let mut r = a.to_owned();
    r.append(b);
    r
}

/// Three pieces of text, one after the other.
pub fn cat3(a: &str, b: &str, c: &str) -> (r: String)
    ensures
        r@ == a@ + b@ + c@,
{
    let mut r = cat2(a, b);
    r.append(c);
    r
}

/// Four pieces of text, one after the other.
pub fn cat4(a: &str, b: &str, c: &str, d: &str) -> (r: String)
    ensures
        r@ == a@ + b@ + c@ + d@,
{
    let mut r = cat3(a, b, c);
    r.append(d);
    r
}

/// Five pieces of text, one after the other.
pub fn cat5(a: &str, b: &str, c: &str, d: &str, e: &str) -> (r: String)
    ensures
        r@ == a@ + b@ + c@ + d@ + e@,
{
    let mut r = cat4(a, b, c, d);
    r.append(e);
    r
}

/// Six pieces of text, one after the other.
pub fn cat6(a: &str, b: &str, c: &str, d: &str, e: &str, f: &str) -> (r: String)
    ensures
        r@ == a@ + b@ + c@ + d@ + e@ + f@,
{
    let mut r = cat5(a, b, c, d, e);
    r.append(f);
    r
}

/// Seven pieces of text, one after the other.
pub fn cat7(a: &str, b: &str, c: &str, d: &str, e: &str, f: &str, g: &str) -> (r: String)
    ensures
        r@ == a@ + b@ + c@ + d@ + e@ + f@ + g@,
{
    let mut r = cat6(a, b, c, d, e, f);
    r.append(g);
    r
}

/// What an optional text holds.
pub open spec fn opt_view(o: Option<String>) -> Option<Seq<char>> {
    match o {
        Some(s) => Some(s@),
        None => None,
    }
}

/// What an optional borrowed text holds.
pub open spec fn opt_str(o: Option<&str>) -> Option<Seq<char>> {
    match o {
        Some(s) => Some(s@),
        None => None,
    }
}

/// The texts of a list, in order.
pub open spec fn views(list: Seq<String>) -> Seq<Seq<char>> {
    list.map_values(|s: String| s@)
}

/// The texts of a list of borrowed texts, in order.
pub open spec fn str_views(list: Seq<&str>) -> Seq<Seq<char>> {
    list.map_values(|s: &str| s@)
}

/// Appending to a list appends to its texts.
pub proof fn lemma_views_push(list: Seq<String>, s: String)
    ensures
        views(list.push(s)) == views(list).push(s@),
{
    assert(views(list.push(s)) =~= views(list).push(s@));
}

/// The texts of `list` with `sep` between neighbours.
pub open spec fn joined(list: Seq<Seq<char>>, sep: Seq<char>) -> Seq<char>
    decreases list.len(),
{
    if list.len() == 0 {
        Seq::empty()
    } else if list.len() == 1 {
        list[0]
    } else {
        joined(list.drop_last(), sep) + sep + list.last()
    }
}

/// Joins the texts of `list`, with `sep` between neighbours.
pub fn join(list: &Vec<String>, sep: &str) -> (r: String)
    ensures
        r@ == joined(views(list@), sep@),
{
    let mut r = String::new();
    let mut i: usize = 0;
    let ghost all = views(list@);
    while i < list.len()
        invariant
            i <= list.len(),
            all == views(list@),
            r@ == joined(all.take(i as int), sep@),
        decreases list.len() - i,
    {
        proof {
            let next = all.take(i as int + 1);
            assert(next.drop_last() =~= all.take(i as int));
            assert(next.last() == list@[i as int]@);
            if i == 0 {
                assert(next.len() == 1);
                assert(r@ =~= Seq::<char>::empty());
                assert(r@ + list@[0]@ =~= list@[0]@);
            }
        }
        if i > 0 {
            r.append(sep);
        }
        r.append(list[i].as_str());
        i = i + 1;
    }
    assert(all.take(i as int) =~= all);
    r
}

/// Joins the borrowed texts of `list`, with `sep` between neighbours.
pub fn join_strs(list: &Vec<&'static str>, sep: &str) -> (r: String)
    ensures
        r@ == joined(str_views(list@), sep@),
{
    let mut owned: Vec<String> = Vec::new();
    let mut i: usize = 0;
    while i < list.len()
        invariant
            i <= list.len(),
            views(owned@) == str_views(list@).take(i as int),
        decreases list.len() - i,
    {
        let next = list[i].to_owned();
        proof {
            lemma_views_push(owned@, next);
        }
        owned.push(next);
        i = i + 1;
        assert(views(owned@) =~= str_views(list@).take(i as int));
    }
    assert(str_views(list@).take(i as int) =~= str_views(list@));
    join(&owned, sep)
}

/// Lines of output, in order.
#[derive(Debug)]
pub struct Lines {
    /// The lines.
    pub lines: Vec<String>,
}

impl View for Lines {
    type V = Seq<Seq<char>>;

    open spec fn view(&self) -> Seq<Seq<char>> {
        views(self.lines@)
    }
}

impl Lines {
    /// No lines yet.
    pub fn new() -> (r: Lines)
        ensures
            r@ == Seq::<Seq<char>>::empty(),
    {
        let r = Lines { lines: Vec::new() };
        assert(r@ =~= Seq::<Seq<char>>::empty());
        r
    }

    /// Adds one line.
    pub fn say(&mut self, line: String)
        ensures
            final(self)@ == old(self)@.push(line@),
    {
        proof {
            lemma_views_push(self.lines@, line);
        }
        self.lines.push(line);
    }

    /// Adds one line of fixed text.
    pub fn put(&mut self, line: &str)
        ensures
            final(self)@ == old(self)@.push(line@),
    {
        self.say(line.to_owned());
    }

    /// Adds the lines of another list.
    pub fn extend(&mut self, more: Lines)
        ensures
            final(self)@ == old(self)@ + more@,
    {
        let ghost before = self@;
        let mut i: usize = 0;
        assert(self@ =~= before + more@.take(0));
        while i < more.lines.len()
            invariant
                i <= more.lines.len(),
                self@ == before + more@.take(i as int),
            decreases more.lines.len() - i,
        {
            self.say(more.lines[i].clone());
            i = i + 1;
            assert(self@ =~= before + more@.take(i as int));
        }
        assert(more@.take(i as int) =~= more@);
    }
}

/// The decimal digit of `n`, for `n` below ten.
pub open spec fn digit_char(n: nat) -> char {
    (('0' as nat) + n) as char
}

/// `n` in decimal, without leading zeros.
pub open spec fn dec_text(n: nat) -> Seq<char>
    decreases n,
{
    if n < 10 {
        seq![digit_char(n)]
    } else {
        dec_text(n / 10).push(digit_char(n % 10))
    }
}

/// `n` in decimal, with a leading minus sign where it is negative.
pub open spec fn int_text(n: int) -> Seq<char> {
    if n < 0 {
        "-"@ + dec_text((-n) as nat)
    } else {
        dec_text(n as nat)
    }
}

fn push_dec(s: &mut String, n: u64)
    ensures
        final(s)@ == old(s)@ + dec_text(n as nat),
    decreases n,
{
    let ghost before = s@;
    if n >= 10 {
        push_dec(s, n / 10);
    }
    let d: u8 = 48u8 + (n % 10) as u8;
    s.push(d as char);
    assert(d as char == digit_char((n % 10) as nat));
    if n >= 10 {
        assert(s@ =~= before + dec_text(n as nat));
    } else {
        assert(s@ =~= before + dec_text(n as nat));
    }
}

/// `n` in decimal.
pub fn dec_u64(n: u64) -> (r: String)
    ensures
        r@ == dec_text(n as nat),
{
    let mut s = String::new();
    push_dec(&mut s, n);
    assert(s@ =~= dec_text(n as nat));
    s
}

/// `n` in decimal.
pub fn dec_usize(n: usize) -> (r: String)
    ensures
        r@ == dec_text(n as nat),
{
    dec_u64(n as u64)
}

/// `n` in decimal.
pub fn dec_u32(n: u32) -> (r: String)
    ensures
        r@ == dec_text(n as nat),
{
    dec_u64(n as u64)
}

/// `n` in decimal.
pub fn dec_u8(n: u8) -> (r: String)
    ensures
        r@ == dec_text(n as nat),
{
    dec_u64(n as u64)
}

/// The magnitude of `n`.
pub fn magnitude(n: i64) -> (r: u64)
    ensures
        r == (if n < 0 {
            -n as int
        } else {
            n as int
        }),
{
    if n >= 0 {
        n as u64
    } else if n == i64::MIN {
        0x8000_0000_0000_0000
    } else {
        (-n) as u64
    }
}

/// `n` in decimal, signed.
pub fn dec_i64(n: i64) -> (r: String)
    ensures
        r@ == int_text(n as int),
{
    let m = dec_u64(magnitude(n));
    if n < 0 {
        cat2("-", m.as_str())
    } else {
        m
    }
}

/// The hexadecimal digit of `n`, for `n` below sixteen.
pub open spec fn hex_char(n: nat, upper: bool) -> char {
    if n < 10 {
        (('0' as nat) + n) as char
    } else if upper {
        (('A' as nat) + (n - 10)) as char
    } else {
        (('a' as nat) + (n - 10)) as char
    }
}

/// The hexadecimal digit of `n`.
pub fn hex_digit(n: u8, upper: bool) -> (c: char)
    requires
        n < 16,
    ensures
        c == hex_char(n as nat, upper),
{
    let d: u8 = if n < 10 {
        48u8 + n
    } else if upper {
        65u8 + (n - 10)
    } else {
        97u8 + (n - 10)
    };
    d as char
}

/// The two hexadecimal digits of a byte.
pub open spec fn byte_hex(b: u8, upper: bool) -> Seq<char> {
    seq![hex_char(b as nat / 16, upper), hex_char(b as nat % 16, upper)]
}

/// Appends the two hexadecimal digits of `b`.
pub fn push_byte_hex(s: &mut String, b: u8, upper: bool)
    ensures
        final(s)@ == old(s)@ + byte_hex(b, upper),
{
    let ghost before = s@;
    s.push(hex_digit(b / 16, upper));
    s.push(hex_digit(b % 16, upper));
    assert(s@ =~= before + byte_hex(b, upper));
}

/// Two upper-case hexadecimal digits.
pub fn hex_u8_upper(b: u8) -> (r: String)
    ensures
        r@ == byte_hex(b, true),
{
    let mut s = String::new();
    push_byte_hex(&mut s, b, true);
    assert(s@ =~= byte_hex(b, true));
    s
}

/// Each byte of `bytes` as two lower-case hexadecimal digits.
pub open spec fn hex_text(bytes: Seq<u8>) -> Seq<char> {
    Seq::new(2 * bytes.len(), |i: int| byte_hex(bytes[i / 2], false)[i % 2])
}

/// Appends the hexadecimal digits of `bytes[..n]`.
pub fn push_hex(s: &mut String, bytes: &[u8], n: usize)
    requires
        n <= bytes.len(),
    ensures
        final(s)@ == old(s)@ + hex_text(bytes@.take(n as int)),
{
    let ghost before = s@;
    let mut i: usize = 0;
    assert(s@ =~= before + hex_text(bytes@.take(0)));
    while i < n
        invariant
            i <= n <= bytes.len(),
            s@ == before + hex_text(bytes@.take(i as int)),
        decreases n - i,
    {
        push_byte_hex(s, bytes[i], false);
        i = i + 1;
        proof {
            let now = hex_text(bytes@.take(i as int));
            let was = hex_text(bytes@.take(i as int - 1));
            assert(now =~= was + byte_hex(bytes@[i as int - 1], false));
            assert(s@ =~= before + now);
        }
    }
}

/// `bytes` in lower-case hexadecimal.
pub fn hex_encode(bytes: &[u8]) -> (r: String)
    ensures
        r@ == hex_text(bytes@),
{
    let mut s = String::new();
    push_hex(&mut s, bytes, bytes.len());
    assert(bytes@.take(bytes@.len() as int) =~= bytes@);
    assert(s@ =~= hex_text(bytes@));
    s
}

/// `n` in hexadecimal, without leading zeros.
pub open spec fn hex_nat(n: nat, upper: bool) -> Seq<char>
    decreases n,
{
    if n < 16 {
        seq![hex_char(n, upper)]
    } else {
        hex_nat(n / 16, upper).push(hex_char(n % 16, upper))
    }
}

/// `s`, with `fill` put before it until it has `width` characters.
pub open spec fn padded_left(s: Seq<char>, width: nat, fill: char) -> Seq<char> {
    if s.len() < width {
        Seq::new((width - s.len()) as nat, |i: int| fill) + s
    } else {
        s
    }
}

/// `s`, with `fill` put after it until it has `width` characters.
pub open spec fn padded_right(s: Seq<char>, width: nat, fill: char) -> Seq<char> {
    if s.len() < width {
        s + Seq::new((width - s.len()) as nat, |i: int| fill)
    } else {
        s
    }
}

/// Appends `fill` `n` times.
fn push_fill(s: &mut String, fill: char, n: usize)
    ensures
        final(s)@ == old(s)@ + Seq::new(n as nat, |i: int| fill),
{
    let ghost before = s@;
    let mut i: usize = 0;
    assert(s@ =~= before + Seq::new(0, |i: int| fill));
    while i < n
        invariant
            i <= n,
            s@ == before + Seq::new(i as nat, |i: int| fill),
        decreases n - i,
    {
        s.push(fill);
        i = i + 1;
        assert(s@ =~= before + Seq::new(i as nat, |i: int| fill));
    }
}

/// Pads `s` on the left.
pub fn pad_left(s: &str, width: usize, fill: char) -> (r: String)
    ensures
        r@ == padded_left(s@, width as nat, fill),
{
    let len = chars_of(s).len();
    if len < width {
        let mut r = String::new();
        push_fill(&mut r, fill, width - len);
        r.append(s);
        assert(r@ =~= padded_left(s@, width as nat, fill));
        r
    } else {
        s.to_owned()
    }
}

/// Pads `s` on the right.
pub fn pad_right(s: &str, width: usize, fill: char) -> (r: String)
    ensures
        r@ == padded_right(s@, width as nat, fill),
{
    let len = chars_of(s).len();
    if len < width {
        let mut r = s.to_owned();
        push_fill(&mut r, fill, width - len);
        r
    } else {
        s.to_owned()
    }
}

fn push_hex_nat(s: &mut String, n: u64, upper: bool)
    ensures
        final(s)@ == old(s)@ + hex_nat(n as nat, upper),
    decreases n,
{
    let ghost before = s@;
    if n >= 16 {
        push_hex_nat(s, n / 16, upper);
    }
    s.push(hex_digit((n % 16) as u8, upper));
    assert(s@ =~= before + hex_nat(n as nat, upper));
}

/// `n` in hexadecimal, with zeros before it up to `width` digits.
pub fn hex_padded(n: u64, width: usize, upper: bool) -> (r: String)
    ensures
        r@ == padded_left(hex_nat(n as nat, upper), width as nat, '0'),
{
    let mut s = String::new();
    push_hex_nat(&mut s, n, upper);
    assert(s@ =~= hex_nat(n as nat, upper));
    pad_left(s.as_str(), width, '0')
}

/// Whether `part` occurs in `whole` as a run of neighbouring characters.
pub open spec fn has_run(whole: Seq<char>, part: Seq<char>) -> bool {
    exists|i: int| #[trigger] run_at(whole, part, i)
}

/// Whether `part` occurs in `whole` from position `i` on.
pub open spec fn run_at(whole: Seq<char>, part: Seq<char>, i: int) -> bool {
    0 <= i && i + part.len() <= whole.len() && whole.subrange(i, i + part.len()) == part
}

/// Whether `part` occurs in `whole` from position `i` on.
pub fn run_at_exec(whole: &Vec<char>, part: &Vec<char>, i: usize) -> (r: bool)
    requires
        i + part.len() <= whole.len(),
    ensures
        r == run_at(whole@, part@, i as int),
{
    let mut j: usize = 0;
    while j < part.len()
        invariant
            j <= part.len(),
            i + part.len() <= whole.len(),
            forall|k: int| 0 <= k < j ==> whole@[i + k] == part@[k],
        decreases part.len() - j,
    {
        if whole[i + j] != part[j] {
            assert(whole@.subrange(i as int, i + part@.len())[j as int] != part@[j as int]);
            return false;
        }
        j = j + 1;
    }
    assert(whole@.subrange(i as int, i + part@.len()) =~= part@);
    true
}

/// Whether `part` occurs in `whole`.
pub fn contains_text(whole: &str, part: &str) -> (r: bool)
    ensures
        r == has_run(whole@, part@),
{
    let w = chars_of(whole);
    let p = chars_of(part);
    if p.len() > w.len() {
        return false;
    }
    let last: usize = w.len() - p.len();
    let mut i: usize = 0;
    while i <= last
        invariant
            w@ == whole@,
            p@ == part@,
            last + p.len() == w.len(),
            i <= last + 1,
            forall|k: int| 0 <= k < i ==> !#[trigger] run_at(whole@, part@, k),
        decreases last + 1 - i,
    {
        if run_at_exec(&w, &p, i) {
            return true;
        }
        if i == last {
            assert forall|k: int| !#[trigger] run_at(whole@, part@, k) by {
                if 0 <= k <= last {
                    assert(!run_at(whole@, part@, k));
                }
            }
            return false;
        }
        i = i + 1;
    }
    false
}

/// Whether `whole` starts with `part`.
pub fn starts_with(whole: &str, part: &str) -> (r: bool)
    ensures
        r == run_at(whole@, part@, 0),
{
    let w = chars_of(whole);
    let p = chars_of(part);
    p.len() <= w.len() && run_at_exec(&w, &p, 0)
}

/// A text holds each part that it was put together from.
pub proof fn lemma_holds_part(before: Seq<char>, part: Seq<char>, after: Seq<char>)
    ensures
        has_run(before + part + after, part),
{
    let whole = before + part + after;
    assert(whole.subrange(before.len() as int, (before.len() + part.len()) as int) =~= part);
    assert(run_at(whole, part, before.len() as int));
}

/// A list is joined by putting the separator between its items and nowhere else.
pub proof fn law_joining_separates_the_items(list: Seq<Seq<char>>, item: Seq<char>, sep: Seq<char>)
    ensures
        joined(Seq::<Seq<char>>::empty(), sep).len() == 0,
        joined(seq![item], sep) == item,
        list.len() > 0 ==> joined(list.push(item), sep) == joined(list, sep) + sep + item,
{
    assert(list.push(item).drop_last() =~= list);
}

/// A number is written in decimal: a digit is written as itself, and ten times a
/// number and a digit as the number with that digit after it.
pub proof fn law_numbers_are_written_in_decimal(n: nat, d: nat)
    requires
        d < 10,
    ensures
        dec_text(d) == seq![('0' as u32 + d) as char],
        n > 0 ==> dec_text(10 * n + d) == dec_text(n).push(('0' as u32 + d) as char),
        int_text(n as int) == dec_text(n),
        n > 0 ==> int_text(-(n as int)) == "-"@ + dec_text(n),
{
    if n > 0 {
        assert((10 * n + d) / 10 == n && (10 * n + d) % 10 == d);
    }
}

/// A hexadecimal digit is `0` to `9`, then `a` to `f` or `A` to `F`; a number is
/// written with the larger digits first.
pub proof fn law_numbers_are_written_in_hexadecimal(n: nat, d: nat, upper: bool)
    requires
        d < 16,
    ensures
        d < 10 ==> hex_char(d, upper) as u32 == '0' as u32 + d,
        d >= 10 && upper ==> hex_char(d, upper) as u32 == 'A' as u32 + d - 10,
        d >= 10 && !upper ==> hex_char(d, upper) as u32 == 'a' as u32 + d - 10,
        hex_nat(d, upper) == seq![hex_char(d, upper)],
        n > 0 ==> hex_nat(16 * n + d, upper) == hex_nat(n, upper).push(hex_char(d, upper)),
{
    if n > 0 {
        assert((16 * n + d) / 16 == n && (16 * n + d) % 16 == d);
    }
}

/// Bytes are written as two lower-case digits each, in order, the larger digit
/// first; so no two byte strings look the same.
pub proof fn law_bytes_are_written_two_digits_each(bytes: Seq<u8>, i: int)
    requires
        0 <= i < bytes.len(),
    ensures
        hex_text(bytes).len() == 2 * bytes.len(),
        hex_text(bytes)[2 * i] == hex_char((bytes[i] / 16) as nat, false),
        hex_text(bytes)[2 * i + 1] == hex_char((bytes[i] % 16) as nat, false),
        byte_hex(bytes[i], false) == seq![hex_text(bytes)[2 * i], hex_text(bytes)[2 * i + 1]],
{
    assert((2 * i) / 2 == i && (2 * i) % 2 == 0);
    assert((2 * i + 1) / 2 == i && (2 * i + 1) % 2 == 1);
    assert(byte_hex(bytes[i], false) =~= seq![hex_text(bytes)[2 * i], hex_text(bytes)[2 * i + 1]]);
}

/// Padding keeps a text whole, at the right end or at the left, fills up to the
/// width and no further, and leaves a text alone that is wide enough.
pub proof fn law_padding_fills_up_to_the_width(s: Seq<char>, width: nat, fill: char, i: int)
    ensures
        s.len() >= width ==> padded_left(s, width, fill) == s && padded_right(s, width, fill) == s,
        s.len() < width ==> {
            &&& padded_left(s, width, fill).len() == width && padded_right(s, width, fill).len() == width
            &&& padded_left(s, width, fill).skip(width - s.len()) == s
            &&& padded_right(s, width, fill).take(s.len() as int) == s
            &&& 0 <= i < width - s.len() ==> padded_left(s, width, fill)[i] == fill
            &&& s.len() <= i < width ==> padded_right(s, width, fill)[i] == fill
        },
{
    if s.len() < width {
        assert(padded_left(s, width, fill).skip(width - s.len()) =~= s);
        assert(padded_right(s, width, fill).take(s.len() as int) =~= s);
    }
}

/// A text holds what stands between its beginning and its end.
pub proof fn lemma_holds(whole: Seq<char>, before: Seq<char>, part: Seq<char>, after: Seq<char>)
    requires
        whole =~= before + part + after,
    ensures
        has_run(whole, part),
{
    lemma_holds_part(before, part, after);
}

/// A text holds what a part of it holds.
pub proof fn lemma_holds_within(whole: Seq<char>, before: Seq<char>, part: Seq<char>, after: Seq<char>, inner: Seq<char>)
    requires
        whole =~= before + part + after,
        has_run(part, inner),
    ensures
        has_run(whole, inner),
{
    let i = choose|i: int| run_at(part, inner, i);
    assert(whole.subrange(before.len() + i, before.len() + i + inner.len()) =~= part.subrange(i, i + inner.len()));
    assert(run_at(whole, inner, before.len() + i));
}

} // verus!
