//! Certificates and public keys, as PEM or as DER.

use crate::sanitize::{is_space, is_white_space};
use crate::text::{cat3, chars_of, run_at, run_at_exec};
use vstd::prelude::*;
use vstd::slice::slice_to_vec;
use vstd::utf8::{decode_utf8, valid_utf8};

verus! {

/// `std::str::from_utf8`: the text that the bytes encode, if they are valid
/// UTF-8.
#[verifier::external_body]
fn utf8_text(bytes: &[u8]) -> (r: Option<&str>)
    ensures
        match r {
            Some(s) => valid_utf8(bytes@) && s@ == decode_utf8(bytes@),
            None => !valid_utf8(bytes@),
        },
{
    std::str::from_utf8(bytes).ok()
}

/// A file as text; empty when it is not UTF-8.
pub open spec fn file_text(bytes: Seq<u8>) -> Seq<char> {
    if valid_utf8(bytes) {
        decode_utf8(bytes)
    } else {
        Seq::empty()
    }
}

/// The first place of `part` in `whole` at or after `from`.
pub open spec fn find_from(whole: Seq<char>, part: Seq<char>, from: int) -> Option<int>
    decreases whole.len() + 1 - from,
{
    if from < 0 || from + part.len() > whole.len() {
        None
    } else if run_at(whole, part, from) {
        Some(from)
    } else {
        find_from(whole, part, from + 1)
    }
}

fn find_run(whole: &Vec<char>, part: &Vec<char>, from: usize) -> (r: Option<usize>)
    requires
        from <= whole.len(),
    ensures
        match (r, find_from(whole@, part@, from as int)) {
            (Some(i), Some(j)) => i == j && from <= i && i + part.len() <= whole.len(),
            (None, None) => true,
            _ => false,
        },
{
    let mut i: usize = from;
    while i <= whole.len() && part.len() <= whole.len() - i
        invariant
            from <= i,
            i <= whole.len() + 1,
            find_from(whole@, part@, from as int) == find_from(whole@, part@, i as int),
        decreases whole.len() + 1 - i,
    {
        if run_at_exec(whole, part, i) {
            return Some(i);
        }
        if i == whole.len() {
            assert(find_from(whole@, part@, i as int + 1) is None);
            return None;
        }
        i = i + 1;
    }
    None
}

/// `s` without its white space.
pub open spec fn without_space(s: Seq<char>) -> Seq<char> {
    s.filter(|c: char| !is_space(c))
}

fn strip_space(chars: &Vec<char>, from: usize, to: usize) -> (r: String)
    requires
        from <= to <= chars.len(),
    ensures
        r@ == without_space(chars@.subrange(from as int, to as int)),
{
    let mut r = String::new();
    let mut i: usize = from;
    let ghost keep = |c: char| !is_space(c);
    assert(chars@.subrange(from as int, from as int) =~= Seq::<char>::empty());
    proof {
        reveal(Seq::filter);
    }
    while i < to
        invariant
            from <= i <= to <= chars.len(),
            keep == (|c: char| !is_space(c)),
            r@ == chars@.subrange(from as int, i as int).filter(keep),
        decreases to - i,
    {
        proof {
            reveal(Seq::filter);
            let next = chars@.subrange(from as int, i as int + 1);
            assert(next.drop_last() =~= chars@.subrange(from as int, i as int));
            assert(next.last() == chars@[i as int]);
        }
        let c = chars[i];
        if !is_white_space(c) {
            r.push(c);
        }
        i = i + 1;
    }
    r
}

/// What a file that should hold one encoded object is.
#[derive(Debug)]
pub enum Encoded {
    /// PEM: the base-64 text between the markers, and whether another block
    /// of the kind follows.
    Pem { base64: String, more: bool },
    /// DER: the bytes of the file.
    Der(Vec<u8>),
}

/// What an [`Encoded`] holds.
pub enum EncodedView {
    /// The text between the markers, and whether another block follows.
    Pem { base64: Seq<char>, more: bool },
    /// The bytes.
    Der(Seq<u8>),
}

impl View for Encoded {
    type V = EncodedView;

    open spec fn view(&self) -> EncodedView {
        match self {
            Encoded::Pem { base64, more } => EncodedView::Pem { base64: base64@, more: *more },
            Encoded::Der(d) => EncodedView::Der(d@),
        }
    }
}

/// What a result over an encoded object holds.
pub open spec fn encoded_result(r: Result<Encoded, String>) -> Result<EncodedView, Seq<char>> {
    match r {
        Ok(e) => Ok(e@),
        Err(e) => Err(e@),
    }
}

/// What the bytes of a file hold, given the markers of the kind looked for:
/// the block between the first two markers, without white space; without a
/// first marker the bytes themselves, which have to start a sequence.
pub open spec fn encoded_spec(
    bytes: Seq<u8>,
    begin: Seq<char>,
    end: Seq<char>,
    no_end: Seq<char>,
    neither: Seq<char>,
) -> Result<EncodedView, Seq<char>> {
    let text = file_text(bytes);
    match find_from(text, begin, 0) {
        Some(i) => match find_from(text, end, i + begin.len()) {
            Some(j) => Ok(
                EncodedView::Pem {
                    base64: without_space(text.subrange(i + begin.len(), j)),
                    more: find_from(text, begin, j) is Some,
                },
            ),
            None => Err(no_end),
        },
        None => if bytes.len() > 0 && bytes[0] == 0x30 {
            Ok(EncodedView::Der(bytes))
        } else {
            Err(neither)
        },
    }
}

fn decode_file(bytes: &[u8], begin: &str, end: &str, no_end: &str, neither: &str) -> (r: Result<Encoded, String>)
    ensures
        encoded_result(r) == encoded_spec(bytes@, begin@, end@, no_end@, neither@),
{
    let text: String = match utf8_text(bytes) {
        Some(s) => s.to_owned(),
        None => String::new(),
    };
    let chars = chars_of(text.as_str());
    assert(chars@ == file_text(bytes@));
    let first = chars_of(begin);
    let last = chars_of(end);
    match find_run(&chars, &first, 0) {
        Some(i) => {
            let body: usize = i + first.len();
            match find_run(&chars, &last, body) {
                None => Err(no_end.to_owned()),
                Some(j) => {
                    let base64 = strip_space(&chars, body, j);
                    let more = find_run(&chars, &first, j).is_some();
                    Ok(Encoded::Pem { base64, more })
                },
            }
        },
        None => {
            if bytes.len() == 0 || bytes[0] != 0x30 {
                Err(neither.to_owned())
            } else {
                Ok(Encoded::Der(slice_to_vec(bytes)))
            }
        },
    }
}

/// Takes a certificate out of a file, PEM or DER. Of a chain, the first one.
pub fn cert_to_der(bytes: &[u8]) -> (r: Result<Encoded, String>)
    ensures
        encoded_result(r) == encoded_spec(
            bytes@,
            "-----BEGIN CERTIFICATE-----"@,
            "-----END CERTIFICATE-----"@,
            "PEM certificate has no END marker"@,
            "certificate is neither PEM nor DER (no 0x30 SEQUENCE)"@,
        ),
{
    decode_file(
        bytes,
        "-----BEGIN CERTIFICATE-----",
        "-----END CERTIFICATE-----",
        "PEM certificate has no END marker",
        "certificate is neither PEM nor DER (no 0x30 SEQUENCE)",
    )
}

/// Takes a public key out of a file, PEM or DER.
pub fn spki_to_der(bytes: &[u8]) -> (r: Result<Encoded, String>)
    ensures
        encoded_result(r) == encoded_spec(
            bytes@,
            "-----BEGIN PUBLIC KEY-----"@,
            "-----END PUBLIC KEY-----"@,
            "PEM public key has no END marker"@,
            "key material file is neither PEM nor DER (no 0x30 SEQUENCE)"@,
        ),
{
    decode_file(
        bytes,
        "-----BEGIN PUBLIC KEY-----",
        "-----END PUBLIC KEY-----",
        "PEM public key has no END marker",
        "key material file is neither PEM nor DER (no 0x30 SEQUENCE)",
    )
}

/// Reports that a file holds no public key.
pub fn bad_pubkey(path: &str, reason: &str) -> (r: String)
    ensures
        r@ == path@ + ": not a valid SubjectPublicKeyInfo: "@ + reason@,
{
    cat3(path, ": not a valid SubjectPublicKeyInfo: ", reason)
}

/// The note on a file with several certificates.
pub const FIRST_OF_SEVERAL: &'static str = "note: file contains multiple certificates; using the first";

/// What is found is the first place of the part from there on; where nothing is
/// found, the part is nowhere from there on.
pub proof fn law_first_place_is_found(whole: Seq<char>, part: Seq<char>, from: int)
    requires
        from >= 0,
    ensures
        match find_from(whole, part, from) {
            Some(i) => from <= i && run_at(whole, part, i) && forall|k: int|
                from <= k < i ==> !#[trigger] run_at(whole, part, k),
            None => forall|k: int| from <= k ==> !#[trigger] run_at(whole, part, k),
        },
    decreases whole.len() + 1 - from,
{
    if from + part.len() <= whole.len() && !run_at(whole, part, from) {
        law_first_place_is_found(whole, part, from + 1);
    }
}

/// What is taken out of a marked file lies between its first two marks, without
/// white space; it is said whether a second one follows. A file without a mark is
/// taken as it is where it begins as DER does.
pub proof fn law_marked_text_lies_between_its_marks(
    bytes: Seq<u8>,
    begin: Seq<char>,
    end: Seq<char>,
    no_end: Seq<char>,
    neither: Seq<char>,
    i: int,
    j: int,
)
    requires
        run_at(file_text(bytes), begin, i),
        forall|k: int| 0 <= k < i ==> !#[trigger] run_at(file_text(bytes), begin, k),
        i + begin.len() <= j,
        run_at(file_text(bytes), end, j),
        forall|k: int| i + begin.len() <= k < j ==> !#[trigger] run_at(file_text(bytes), end, k),
    ensures
        encoded_spec(bytes, begin, end, no_end, neither) matches Ok(EncodedView::Pem { base64, more }) && base64
            == file_text(bytes).subrange(i + begin.len(), j).filter(|c: char| !is_space(c)) && (more <==> exists|k: int|
            j <= k && #[trigger] run_at(file_text(bytes), begin, k)),
{
    let text = file_text(bytes);
    law_first_place_is_found(text, begin, 0);
    law_first_place_is_found(text, end, i + begin.len());
    law_first_place_is_found(text, begin, j);
}

/// A file without the mark is taken as it is just where it begins with a DER
/// sequence, and one whose mark does not end is refused.
pub proof fn law_unmarked_file_has_to_be_der(
    bytes: Seq<u8>,
    begin: Seq<char>,
    end: Seq<char>,
    no_end: Seq<char>,
    neither: Seq<char>,
)
    ensures
        (forall|k: int| 0 <= k ==> !#[trigger] run_at(file_text(bytes), begin, k)) ==> encoded_spec(
            bytes,
            begin,
            end,
            no_end,
            neither,
        ) == (if bytes.len() > 0 && bytes[0] == 0x30 {
            Ok::<EncodedView, Seq<char>>(EncodedView::Der(bytes))
        } else {
            Err(neither)
        }),
        (exists|k: int| 0 <= k && #[trigger] run_at(file_text(bytes), begin, k)) && (forall|k: int|
            0 <= k ==> !#[trigger] run_at(file_text(bytes), end, k)) ==> encoded_spec(
            bytes,
            begin,
            end,
            no_end,
            neither,
        ) == Err::<EncodedView, Seq<char>>(no_end),
{
    let text = file_text(bytes);
    law_first_place_is_found(text, begin, 0);
    if let Some(i) = find_from(text, begin, 0) {
        law_first_place_is_found(text, end, i + begin.len());
    }
}

} // verus!
