//! Bytes, previews and labels as the user sees them.

use crate::sanitize::{clean, sanitize_terminal, trim, trimmed_of};
use crate::text::{
    byte_hex, cat2, cat3, cat4, cat6, chars_of, dec_text, dec_usize, has_run, hex_nat, hex_text, hex_u8_upper,
    hex_padded, lemma_holds_part, pad_right, padded_left, padded_right, push_byte_hex, push_hex, str_eq, text_of,
};
use vstd::prelude::*;

verus! {

/// The first `n` bytes in hexadecimal, with an ellipsis where there are more.
pub open spec fn hex_head(bytes: Seq<u8>, n: nat) -> Seq<char> {
    if bytes.len() > n {
        hex_text(bytes.take(n as int)).push('…')
    } else {
        hex_text(bytes)
    }
}

fn hex_head_of(bytes: &[u8], n: usize) -> (r: String)
    ensures
        r@ == hex_head(bytes@, n as nat),
{
    let mut s = String::new();
    if bytes.len() > n {
        push_hex(&mut s, bytes, n);
        assert(s@ =~= hex_text(bytes@.take(n as int)));
        s.push('…');
    } else {
        push_hex(&mut s, bytes, bytes.len());
        assert(bytes@.take(bytes@.len() as int) =~= bytes@);
        assert(s@ =~= hex_text(bytes@));
    }
    s
}

/// The first eight bytes of an identifier.
pub fn hex_short(bytes: &[u8]) -> (r: String)
    ensures
        r@ == hex_head(bytes@, 8),
{
    hex_head_of(bytes, 8)
}

/// A short head of an opaque entry.
pub open spec fn opaque_preview(bytes: Seq<u8>) -> Seq<char> {
    if bytes.len() == 0 {
        "(empty)"@
    } else {
        hex_head(bytes, 12)
    }
}

/// The first twelve bytes of an opaque entry, for a listing.
pub fn preview_opaque(bytes: &[u8]) -> (r: String)
    ensures
        r@ == opaque_preview(bytes@),
{
    if bytes.len() == 0 {
        "(empty)".to_owned()
    } else {
        hex_head_of(bytes, 12)
    }
}

/// `t` cut off after `n` characters, with an ellipsis where something was cut.
pub open spec fn cut(t: Seq<char>, n: nat) -> Seq<char> {
    if t.len() > n {
        t.take(n as int).push('…')
    } else {
        t
    }
}

/// A one-line preview of a note: cleaned, trimmed, and cut after 48 characters.
pub fn preview_note(text: &str) -> (r: String)
    ensures
        exists|t: Seq<char>| #[trigger] trimmed_of(clean(text@), t) && r@ == cut(t, 48),
{
    let one_line = sanitize_terminal(text);
    let trimmed = trim(one_line.as_str());
    let chars = chars_of(trimmed.as_str());
    assert(trimmed_of(clean(text@), trimmed@));
    if chars.len() > 48 {
        let mut out = text_of(&chars, 0, 48);
        assert(out@ =~= trimmed@.take(48));
        out.push('…');
        out
    } else {
        trimmed
    }
}

/// A note's preview never exceeds 49 characters.
pub proof fn law_cut_bounds(t: Seq<char>, n: nat)
    ensures
        cut(t, n).len() <= n + 1,
        t.len() <= n ==> cut(t, n) == t,
        t.len() > n ==> cut(t, n).last() == '…' && cut(t, n).drop_last() == t.take(n as int),
{
    if t.len() > n {
        assert(cut(t, n).drop_last() =~= t.take(n as int));
    }
}

/// The hexadecimal column of a dump row: each byte and a space, with one more
/// space after the eighth.
pub open spec fn dump_hex(chunk: Seq<u8>) -> Seq<char>
    decreases chunk.len(),
{
    if chunk.len() == 0 {
        Seq::empty()
    } else {
        let rest = dump_hex(chunk.drop_last()) + byte_hex(chunk.last(), false) + " "@;
        if chunk.len() == 8 {
            rest + " "@
        } else {
            rest
        }
    }
}

/// The character of a dump row that stands for a byte.
pub open spec fn dump_char(b: u8) -> char {
    if 0x20 <= b && b <= 0x7e {
        b as char
    } else {
        '.'
    }
}

/// The characters of a dump row.
pub open spec fn dump_ascii(chunk: Seq<u8>) -> Seq<char> {
    chunk.map_values(|b: u8| dump_char(b))
}

/// The bytes of row `row`: sixteen, fewer in the last row.
pub open spec fn dump_chunk(bytes: Seq<u8>, row: nat) -> Seq<u8> {
    let to = if 16 * row + 16 <= bytes.len() {
        (16 * row + 16) as int
    } else {
        bytes.len() as int
    };
    bytes.subrange((16 * row) as int, to)
}

/// Row `row` of a dump: offset, hexadecimal column, characters.
pub open spec fn dump_row(bytes: Seq<u8>, row: nat) -> Seq<char> {
    let chunk = dump_chunk(bytes, row);
    padded_left(hex_nat(16 * row, false), 8, '0') + "  "@ + padded_right(dump_hex(chunk), 49, ' ') + "|"@
        + dump_ascii(chunk) + "|\n"@
}

/// The first `rows` rows of a dump.
pub open spec fn dump_rows(bytes: Seq<u8>, rows: nat) -> Seq<char>
    decreases rows,
{
    if rows == 0 {
        Seq::empty()
    } else {
        dump_rows(bytes, (rows - 1) as nat) + dump_row(bytes, (rows - 1) as nat)
    }
}

/// A dump of `bytes`, sixteen to a row.
pub open spec fn dump_text(bytes: Seq<u8>) -> Seq<char> {
    dump_rows(bytes, ((bytes.len() + 15) / 16) as nat)
}

fn dump_row_of(bytes: &[u8], row: usize) -> (r: String)
    requires
        16 * row < bytes.len(),
    ensures
        r@ == dump_row(bytes@, row as nat),
{
    let from: usize = 16 * row;
    let to: usize = if bytes.len() - from >= 16 {
        from + 16
    } else {
        bytes.len()
    };
    let ghost chunk = dump_chunk(bytes@, row as nat);
    let mut hex = String::new();
    let mut ascii = String::new();
    let mut i: usize = from;
    while i < to
        invariant
            from <= i <= to <= bytes.len(),
            to <= from + 16,
            from == 16 * row,
            chunk == bytes@.subrange(from as int, to as int),
            hex@ == dump_hex(chunk.take(i - from)),
            ascii@ == dump_ascii(chunk.take(i - from)),
        decreases to - i,
    {
        let b = bytes[i];
        proof {
            let next = chunk.take(i - from + 1);
            assert(next.drop_last() =~= chunk.take(i - from));
            assert(next.last() == b);
            assert(dump_ascii(next) =~= dump_ascii(chunk.take(i - from)).push(dump_char(b)));
        }
        push_byte_hex(&mut hex, b, false);
        hex.append(" ");
        if i - from == 7 {
            hex.append(" ");
        }
        ascii.push(
            if 0x20 <= b && b <= 0x7e {
                b as char
            } else {
                '.'
            },
        );
        i = i + 1;
    }
    assert(chunk.take(to - from) =~= chunk);
    let offset = hex_padded(from as u64, 8, false);
    let column = pad_right(hex.as_str(), 49, ' ');
    cat6(offset.as_str(), "  ", column.as_str(), "|", ascii.as_str(), "|\n")
}

/// A hexadecimal and character dump, sixteen bytes to a row.
pub fn hex_ascii_dump(bytes: &[u8]) -> (r: String)
    ensures
        r@ == dump_text(bytes@),
{
    let full: usize = bytes.len() / 16;
    let rows: usize = if bytes.len() % 16 == 0 {
        full
    } else {
        full + 1
    };
    let mut out = String::new();
    let mut row: usize = 0;
    while row < rows
        invariant
            row <= rows,
            rows == (bytes@.len() + 15) / 16,
            out@ == dump_rows(bytes@, row as nat),
        decreases rows - row,
    {
        let line = dump_row_of(bytes, row);
        out.append(line.as_str());
        row = row + 1;
    }
    out
}

/// Where the grouping of an identifier of sixteen bytes puts its hyphens.
pub open spec fn hyphen_before(i: int) -> bool {
    i == 4 || i == 6 || i == 8 || i == 10
}

/// The first `n` bytes of an AAGUID in the 8-4-4-4-12 grouping.
pub open spec fn aaguid_text(bytes: Seq<u8>, n: nat) -> Seq<char>
    decreases n,
{
    if n == 0 {
        Seq::empty()
    } else {
        let before = aaguid_text(bytes, (n - 1) as nat);
        let sep = if hyphen_before(n - 1) {
            before + "-"@
        } else {
            before
        };
        sep + byte_hex(bytes[n - 1], false)
    }
}

/// An AAGUID in the usual grouping of 8-4-4-4-12 digits.
pub fn format_aaguid(aaguid: &[u8; 16]) -> (r: String)
    ensures
        r@ == aaguid_text(aaguid@, 16),
{
    let mut s = String::new();
    let mut i: usize = 0;
    while i < 16
        invariant
            i <= 16,
            s@ == aaguid_text(aaguid@, i as nat),
        decreases 16 - i,
    {
        if i == 4 || i == 6 || i == 8 || i == 10 {
            s.append("-");
        }
        push_byte_hex(&mut s, aaguid[i], false);
        i = i + 1;
    }
    s
}

/// An AAGUID's text has 36 characters, with the hyphens in their places.
pub proof fn law_aaguid_shape(bytes: Seq<u8>)
    requires
        bytes.len() == 16,
    ensures
        aaguid_text(bytes, 16).len() == 36,
        aaguid_text(bytes, 16)[8] == '-',
        aaguid_text(bytes, 16)[13] == '-',
        aaguid_text(bytes, 16)[18] == '-',
        aaguid_text(bytes, 16)[23] == '-',
{
    reveal_strlit("-");
    reveal_with_fuel(aaguid_text, 17);
}

/// Label of the algorithm byte of a profile.
pub open spec fn molto_algo_spec(algo: u8) -> Seq<char> {
    if algo == 1 {
        "SHA1"@
    } else if algo == 2 {
        "SHA256"@
    } else {
        "0x"@ + byte_hex(algo, true)
    }
}

/// Label of the algorithm byte of a profile; an unknown one prints raw.
pub fn molto_algo_label(algo: u8) -> (r: String)
    ensures
        r@ == molto_algo_spec(algo),
{
    match algo {
        1 => "SHA1".to_owned(),
        2 => "SHA256".to_owned(),
        other => cat2("0x", hex_u8_upper(other).as_str()),
    }
}

/// Name of a COSE algorithm identifier.
pub open spec fn cose_name(alg: i64) -> Seq<char> {
    if alg == -7 {
        "ES256"@
    } else if alg == -8 {
        "EdDSA"@
    } else if alg == -35 {
        "ES384"@
    } else if alg == -36 {
        "ES512"@
    } else if alg == -257 {
        "RS256"@
    } else {
        "unknown"@
    }
}

/// Name of the common COSE algorithm identifiers; the others get a generic one.
pub fn cose_algorithm_name(alg: i64) -> (r: &'static str)
    ensures
        r@ == cose_name(alg),
{
    if alg == -7 {
        "ES256"
    } else if alg == -8 {
        "EdDSA"
    } else if alg == -35 {
        "ES384"
    } else if alg == -36 {
        "ES512"
    } else if alg == -257 {
        "RS256"
    } else {
        "unknown"
    }
}

/// What to say of an entry number that does not exist.
pub open spec fn bad_index_text(index: nat, len: nat) -> Seq<char> {
    if len == 0 {
        "no entry "@ + dec_text(index) + " — the large-blob array is empty"@
    } else {
        "no entry "@ + dec_text(index) + " — valid indices are 0..="@ + dec_text((len - 1) as nat)
    }
}

/// The error for an entry number that does not exist.
pub fn large_blob_bad_index(index: usize, len: usize) -> (r: String)
    ensures
        r@ == bad_index_text(index as nat, len as nat),
{
    if len == 0 {
        cat3("no entry ", dec_usize(index).as_str(), " — the large-blob array is empty")
    } else {
        cat4(
            "no entry ",
            dec_usize(index).as_str(),
            " — valid indices are 0..=",
            dec_usize(len - 1).as_str(),
        )
    }
}

/// The option prefix through which the secret called `label` is given.
pub open spec fn env_prefix(label: Seq<char>) -> Seq<char> {
    if label == "PIN"@ || label == "OpenPGP PIN"@ || label == "signing PIN (PW1)"@ || label
        == "user PIN (PW1)"@ {
        "pin-"@
    } else if label == "new PIN"@ {
        "new-pin-"@
    } else if label == "old PIN"@ {
        "old-pin-"@
    } else if label == "PUK"@ {
        "puk-"@
    } else if label == "new PUK"@ {
        "new-puk-"@
    } else if label == "old PUK"@ {
        "old-puk-"@
    } else if label == "management key"@ {
        "mgmt-key-"@
    } else if label == "old management key"@ {
        "old-mgmt-key-"@
    } else if label == "new management key"@ {
        "new-mgmt-key-"@
    } else if label == "admin PIN (PW3)"@ {
        "admin-pin-"@
    } else if label == "secret"@ {
        "secret-"@
    } else if label == "OATH password"@ {
        "password-"@
    } else if label == "new OATH password"@ {
        "new-password-"@
    } else {
        "…-"@
    }
}

/// The option prefix through which the secret called `label` is given; a
/// generic one where the label is not known.
pub fn env_prefix_for(label: &str) -> (r: &'static str)
    ensures
        r@ == env_prefix(label@),
{
    if str_eq(label, "PIN") || str_eq(label, "OpenPGP PIN") || str_eq(label, "signing PIN (PW1)") || str_eq(
        label,
        "user PIN (PW1)",
    ) {
        "pin-"
    } else if str_eq(label, "new PIN") {
        "new-pin-"
    } else if str_eq(label, "old PIN") {
        "old-pin-"
    } else if str_eq(label, "PUK") {
        "puk-"
    } else if str_eq(label, "new PUK") {
        "new-puk-"
    } else if str_eq(label, "old PUK") {
        "old-puk-"
    } else if str_eq(label, "management key") {
        "mgmt-key-"
    } else if str_eq(label, "old management key") {
        "old-mgmt-key-"
    } else if str_eq(label, "new management key") {
        "new-mgmt-key-"
    } else if str_eq(label, "admin PIN (PW3)") {
        "admin-pin-"
    } else if str_eq(label, "secret") {
        "secret-"
    } else if str_eq(label, "OATH password") {
        "password-"
    } else if str_eq(label, "new OATH password") {
        "new-password-"
    } else {
        "…-"
    }
}

/// A dump shows every byte once and in its place: sixteen to a row.
pub proof fn law_dump_shows_every_byte(bytes: Seq<u8>, i: int)
    requires
        0 <= i < bytes.len(),
    ensures
        ({
            let chunk = dump_chunk(bytes, (i / 16) as nat);
            &&& chunk.len() <= 16
            &&& i % 16 < chunk.len()
            &&& chunk[i % 16] == bytes[i]
            &&& dump_ascii(chunk).len() == chunk.len()
            &&& dump_ascii(chunk)[i % 16] == (if 0x20 <= bytes[i] < 0x7f {
                bytes[i] as char
            } else {
                '.'
            })
        }),
        i / 16 < (bytes.len() + 15) / 16,
{
}

/// A row of a dump has two digits and a space for each byte, and one space more in
/// its middle.
pub proof fn law_dump_row_spells_out_its_bytes(chunk: Seq<u8>, b: u8)
    ensures
        dump_hex(Seq::<u8>::empty()).len() == 0,
        dump_hex(chunk.push(b)) == dump_hex(chunk) + byte_hex(b, false) + (if chunk.len() == 7 {
            seq![' ', ' ']
        } else {
            seq![' ']
        }),
{
    reveal_strlit(" ");
    assert(chunk.push(b).drop_last() =~= chunk);
    assert(dump_hex(chunk.push(b)) =~= dump_hex(chunk) + byte_hex(b, false) + (if chunk.len() == 7 {
        seq![' ', ' ']
    } else {
        seq![' ']
    }));
}

/// The rows of a dump follow one another.
pub proof fn law_dump_rows_follow_one_another(bytes: Seq<u8>, rows: nat)
    ensures
        dump_rows(bytes, 0).len() == 0,
        dump_rows(bytes, rows + 1) == dump_rows(bytes, rows) + dump_row(bytes, rows),
{
}

/// The beginning of a byte string is shown whole where it is short, and otherwise
/// cut off after the given number of bytes with a mark.
pub proof fn law_long_bytes_are_marked_as_cut(bytes: Seq<u8>, n: nat)
    ensures
        bytes.len() <= n ==> hex_head(bytes, n) == hex_text(bytes),
        bytes.len() > n ==> hex_head(bytes, n).last() == '…' && hex_head(bytes, n).drop_last() == hex_text(
            bytes.take(n as int),
        ),
{
    if bytes.len() > n {
        assert(hex_head(bytes, n).drop_last() =~= hex_text(bytes.take(n as int)));
    }
}

/// The digits of an AAGUID are those of its bytes, in order.
pub proof fn law_aaguid_spells_out_its_bytes(bytes: Seq<u8>, n: nat)
    requires
        n < bytes.len(),
    ensures
        aaguid_text(bytes, 0).len() == 0,
        aaguid_text(bytes, n + 1) == aaguid_text(bytes, n) + (if n == 4 || n == 6 || n == 8 || n == 10 {
            "-"@ + byte_hex(bytes[n as int], false)
        } else {
            byte_hex(bytes[n as int], false)
        }),
{
    let b = byte_hex(bytes[n as int], false);
    assert(aaguid_text(bytes, n) + "-"@ + b =~= aaguid_text(bytes, n) + ("-"@ + b));
}

/// The number of a missing entry is named, and where there are entries their
/// numbers are.
pub proof fn law_bad_index_is_named(index: nat, len: nat)
    ensures
        has_run(bad_index_text(index, len), dec_text(index)),
        len > 0 ==> has_run(bad_index_text(index, len), dec_text((len - 1) as nat)),
{
    if len == 0 {
        lemma_holds_part("no entry "@, dec_text(index), " — the large-blob array is empty"@);
    } else {
        let mid = " — valid indices are 0..="@;
        let last = dec_text((len - 1) as nat);
        lemma_holds_part("no entry "@, dec_text(index), mid + last);
        assert(bad_index_text(index, len) =~= "no entry "@ + dec_text(index) + (mid + last));
        lemma_holds_part("no entry "@ + dec_text(index) + mid, last, Seq::empty());
        assert(bad_index_text(index, len) =~= "no entry "@ + dec_text(index) + mid + last + Seq::empty());
    }
}

} // verus!
