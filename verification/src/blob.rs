//! The large-blob store of a FIDO2 key, and the SSH certificates in it.

use crate::fido_report::clone_texts;
use crate::factory_reset::clone_opt;
use crate::hashes::{sha256, sha256_of};
use crate::json_out::{
    FidoLargeBlobCapacityJson, FidoLargeBlobEntryJson, FidoLargeBlobGetJson, FidoLargeBlobListJson,
    FidoLargeBlobSshCertJson,
};
use crate::render::{
    bad_index_text, cut, dump_text, hex_ascii_dump, large_blob_bad_index, opaque_preview, preview_note,
    preview_opaque,
};
use crate::sanitize::{clean, clean_block, sanitize_multiline, sanitize_terminal, trimmed_of};
use crate::select::{hits, hits_of, lemma_hits};
use crate::text::{
    cat2, cat3, cat4, cat5, cat6, cat7, dec_text, dec_u64, dec_usize, has_run, hex_encode, hex_text, join, joined,
    lemma_holds, lemma_views_push, opt_str, opt_view, run_at, starts_with, str_eq, views, Lines,
};
use vstd::prelude::*;
use vstd::slice::slice_to_vec;
use vstd::utf8::encode_utf8;

verus! {

/// The fields of an OpenSSH certificate.
#[derive(Debug)]
pub struct SshCertInfo {
    /// Key type.
    pub key_type: String,
    /// Serial number.
    pub serial: u64,
    /// Whether it is for a user; otherwise it is for a host.
    pub user_cert: bool,
    /// Identifier of the key.
    pub key_id: String,
    /// Whom it stands for.
    pub principals: Vec<String>,
    /// Start of its validity.
    pub valid_after: u64,
    /// End of its validity.
    pub valid_before: u64,
    /// Its validity in words.
    pub validity: String,
    /// Critical options with their values.
    pub critical_options: Vec<(String, String)>,
    /// Extensions.
    pub extensions: Vec<String>,
}

/// What an entry is recognized as.
#[derive(Debug)]
pub enum EntryKind {
    /// A note, with its text.
    Note(String),
    /// An OpenSSH certificate.
    SshCert(SshCertInfo),
    /// Anything else.
    Opaque,
}

/// One entry of a large-blob array.
#[derive(Debug)]
pub struct LargeBlobEntry {
    /// The stored bytes.
    pub ciphertext: Vec<u8>,
    /// Declared size of the plain text.
    pub orig_size: u64,
    /// Whether it carries the mark of a note.
    pub is_kr_note: bool,
    /// The text of a note.
    pub text: Option<String>,
    /// What it is recognized as.
    pub kind: EntryKind,
}

/// Word for a kind of entry.
pub open spec fn kind_word(k: EntryKind) -> Seq<char> {
    match k {
        EntryKind::Note(_) => "note"@,
        EntryKind::SshCert(_) => "ssh-cert"@,
        EntryKind::Opaque => "opaque"@,
    }
}

/// A critical option with its value, where it has one.
pub open spec fn critical_text(o: (String, String)) -> Seq<char> {
    if o.1@.len() == 0 {
        o.0@
    } else {
        o.0@ + "="@ + o.1@
    }
}

/// Word for the subject of a certificate.
pub open spec fn cert_word(user: bool) -> Seq<char> {
    if user {
        "user"@
    } else {
        "host"@
    }
}

/// The machine-readable form of a certificate.
pub open spec fn cert_json_is(j: FidoLargeBlobSshCertJson, c: SshCertInfo) -> bool {
    &&& j.key_type@ == c.key_type@
    &&& j.serial == c.serial
    &&& j.cert_type@ == cert_word(c.user_cert)
    &&& j.key_id@ == c.key_id@
    &&& views(j.principals@) == views(c.principals@)
    &&& j.valid_after == c.valid_after
    &&& j.valid_before == c.valid_before
    &&& j.validity@ == c.validity@
    &&& views(j.critical_options@) == c.critical_options@.map_values(|o: (String, String)| critical_text(o))
    &&& views(j.extensions@) == views(c.extensions@)
}

/// Whether the machine-readable certificate of an entry is right: only a
/// certificate has one.
pub open spec fn entry_cert_is(j: Option<FidoLargeBlobSshCertJson>, k: EntryKind) -> bool {
    match (j, k) {
        (Some(j), EntryKind::SshCert(c)) => cert_json_is(j, c),
        (None, EntryKind::SshCert(_)) => false,
        (j, _) => j is None,
    }
}

/// The word for an entry, and its certificate in machine-readable form if it is
/// one.
pub fn large_blob_kind(e: &LargeBlobEntry) -> (r: (&'static str, Option<FidoLargeBlobSshCertJson>))
    ensures
        r.0@ == kind_word(e.kind),
        entry_cert_is(r.1, e.kind),
{
    match &e.kind {
        EntryKind::Note(_) => ("note", None),
        EntryKind::Opaque => ("opaque", None),
        EntryKind::SshCert(c) => {
            let ghost want = c.critical_options@.map_values(|o: (String, String)| critical_text(o));
            let mut critical: Vec<String> = Vec::new();
            let mut i: usize = 0;
            while i < c.critical_options.len()
                invariant
                    i <= c.critical_options.len(),
                    want == c.critical_options@.map_values(|o: (String, String)| critical_text(o)),
                    views(critical@) == want.take(i as int),
                decreases c.critical_options.len() - i,
            {
                let o = &c.critical_options[i];
                let s = if o.1.as_str().is_empty() {
                    o.0.clone()
                } else {
                    cat3(o.0.as_str(), "=", o.1.as_str())
                };
                proof {
                    lemma_views_push(critical@, s);
                    assert(s@ == want[i as int]);
                }
                critical.push(s);
                i = i + 1;
                assert(views(critical@) =~= want.take(i as int));
            }
            assert(views(critical@) =~= want);
            let cert = FidoLargeBlobSshCertJson {
                key_type: c.key_type.clone(),
                serial: c.serial,
                cert_type: if c.user_cert {
                    "user"
                } else {
                    "host"
                },
                key_id: c.key_id.clone(),
                principals: clone_texts(&c.principals),
                valid_after: c.valid_after,
                valid_before: c.valid_before,
                validity: c.validity.clone(),
                critical_options: critical,
                extensions: clone_texts(&c.extensions),
            };
            ("ssh-cert", Some(cert))
        },
    }
}

/// Space of a large-blob array in bytes.
#[derive(Clone, Copy, Debug, PartialEq, Eq, Structural)]
pub struct Capacity {
    /// All of it.
    pub max_bytes: u64,
    /// What is used.
    pub used_bytes: u64,
    /// What is free.
    pub free_bytes: u64,
}

/// The space of an array: what the key says, or the least it has to have.
pub open spec fn capacity_spec(max: Option<u64>, used: u64) -> Capacity {
    let all = match max {
        Some(m) => m,
        None => 1024,
    };
    Capacity {
        max_bytes: all,
        used_bytes: used,
        free_bytes: (if used <= all {
            all - used
        } else {
            0
        }) as u64,
    }
}

/// The space of an array, of which `used` bytes are taken.
pub fn capacity(max: Option<u64>, used: u64) -> (r: Capacity)
    ensures
        r == capacity_spec(max, used),
{
    let all: u64 = match max {
        Some(m) => m,
        None => 1024,
    };
    let free: u64 = if used <= all {
        all - used
    } else {
        0
    };
    Capacity { max_bytes: all, used_bytes: used, free_bytes: free }
}

/// The machine-readable form of an entry.
pub open spec fn entry_json_is(j: FidoLargeBlobEntryJson, i: int, e: LargeBlobEntry) -> bool {
    &&& j.index == i
    &&& j.size == e.orig_size
    &&& j.is_note == e.is_kr_note
    &&& opt_view(j.text) == opt_view(e.text)
    &&& j.kind@ == kind_word(e.kind)
    &&& entry_cert_is(j.ssh_cert, e.kind)
}

/// The entries of an array in machine-readable form, in order.
pub fn large_blob_list_json(entries: &Vec<LargeBlobEntry>, cap: Capacity) -> (r: FidoLargeBlobListJson)
    ensures
        r.entries@.len() == entries@.len(),
        forall|i: int| 0 <= i < entries@.len() ==> entry_json_is(#[trigger] r.entries@[i], i, entries@[i]),
        r.capacity.max_bytes == cap.max_bytes,
        r.capacity.used_bytes == cap.used_bytes,
        r.capacity.free_bytes == cap.free_bytes,
{
    let mut out: Vec<FidoLargeBlobEntryJson> = Vec::new();
    let mut i: usize = 0;
    while i < entries.len()
        invariant
            i <= entries.len(),
            out.len() == i,
            forall|k: int| 0 <= k < i ==> entry_json_is(#[trigger] out@[k], k, entries@[k]),
        decreases entries.len() - i,
    {
        let e = &entries[i];
        let (kind, ssh_cert) = large_blob_kind(e);
        out.push(
            FidoLargeBlobEntryJson {
                index: i,
                size: e.orig_size,
                is_note: e.is_kr_note,
                text: clone_opt(&e.text),
                kind,
                ssh_cert,
            },
        );
        i = i + 1;
    }
    FidoLargeBlobListJson {
        entries: out,
        capacity: FidoLargeBlobCapacityJson {
            max_bytes: cap.max_bytes,
            used_bytes: cap.used_bytes,
            free_bytes: cap.free_bytes,
        },
    }
}

/// One entry in machine-readable form, or that there is none of that number.
pub fn large_blob_get_json(entries: &Vec<LargeBlobEntry>, index: usize) -> (r: Result<FidoLargeBlobGetJson, String>)
    ensures
        match r {
            Ok(j) => {
                &&& index < entries@.len()
                &&& j.index == index
                &&& j.size == entries@[index as int].orig_size
                &&& j.is_note == entries@[index as int].is_kr_note
                &&& opt_view(j.text) == opt_view(entries@[index as int].text)
                &&& j.kind@ == kind_word(entries@[index as int].kind)
                &&& entry_cert_is(j.ssh_cert, entries@[index as int].kind)
                &&& j.hex@ == hex_text(entries@[index as int].ciphertext@)
            },
            Err(e) => index >= entries@.len() && e@ == bad_index_text(index as nat, entries@.len()),
        },
{
    if index >= entries.len() {
        return Err(large_blob_bad_index(index, entries.len()));
    }
    let e = &entries[index];
    let (kind, ssh_cert) = large_blob_kind(e);
    Ok(
        FidoLargeBlobGetJson {
            index,
            size: e.orig_size,
            is_note: e.is_kr_note,
            text: clone_opt(&e.text),
            kind,
            ssh_cert,
            hex: hex_encode(e.ciphertext.as_slice()),
        },
    )
}

/// The line of an entry in the listing.
pub open spec fn list_line_is(line: Seq<char>, i: nat, e: LargeBlobEntry) -> bool {
    let head = "["@ + dec_text(i) + "] "@ + dec_text(e.orig_size as nat);
    match e.kind {
        EntryKind::Note(t) => exists|p: Seq<char>| #[trigger]
            trimmed_of(clean(t@), p) && line == head + " bytes  note      "@ + cut(p, 48),
        EntryKind::SshCert(c) => line == head + " bytes  ssh-cert  "@ + clean(c.key_id@) + " ("@ + clean(
            joined(views(c.principals@), ","@),
        ) + ")"@,
        EntryKind::Opaque => line == head + " bytes  opaque    "@ + opaque_preview(e.ciphertext@),
    }
}

/// The line on the space of an array.
pub open spec fn capacity_text(c: Capacity) -> Seq<char> {
    "Capacity: "@ + dec_text(c.used_bytes as nat) + " of "@ + dec_text(c.max_bytes as nat) + " bytes used, "@
        + dec_text(c.free_bytes as nat) + " free"@
}

fn capacity_line(c: Capacity) -> (r: String)
    ensures
        r@ == capacity_text(c),
{
    cat7(
        "Capacity: ",
        dec_u64(c.used_bytes).as_str(),
        " of ",
        dec_u64(c.max_bytes).as_str(),
        " bytes used, ",
        dec_u64(c.free_bytes).as_str(),
        " free",
    )
}

fn list_line(i: usize, e: &LargeBlobEntry) -> (r: String)
    ensures
        list_line_is(r@, i as nat, *e),
{
    let head = cat4("[", dec_usize(i).as_str(), "] ", dec_u64(e.orig_size).as_str());
    match &e.kind {
        EntryKind::Note(t) => cat3(head.as_str(), " bytes  note      ", preview_note(t.as_str()).as_str()),
        EntryKind::SshCert(c) => cat6(
            head.as_str(),
            " bytes  ssh-cert  ",
            sanitize_terminal(c.key_id.as_str()).as_str(),
            " (",
            sanitize_terminal(join(&c.principals, ",").as_str()).as_str(),
            ")",
        ),
        EntryKind::Opaque => cat3(
            head.as_str(),
            " bytes  opaque    ",
            preview_opaque(e.ciphertext.as_slice()).as_str(),
        ),
    }
}

/// The listing of an array: a line for each entry in order, or that it is
/// empty, and its space.
pub fn run_fido_large_blob_list(entries: &Vec<LargeBlobEntry>, cap: Capacity) -> (r: Lines)
    ensures
        ({
            let n = entries@.len();
            if n == 0 {
                r@ == seq!["(large-blob array is empty)"@, ""@, capacity_text(cap)]
            } else {
                &&& r@.len() == n + 2
                &&& forall|i: int| 0 <= i < n ==> list_line_is(#[trigger] r@[i], i as nat, entries@[i])
                &&& r@[n as int] == ""@
                &&& r@[n as int + 1] == capacity_text(cap)
            }
        }),
{
    let mut out = Lines::new();
    if entries.len() == 0 {
        out.put("(large-blob array is empty)");
        out.put("");
        out.say(capacity_line(cap));
        assert(out@ =~= seq!["(large-blob array is empty)"@, ""@, capacity_text(cap)]);
        return out;
    }
    let mut i: usize = 0;
    while i < entries.len()
        invariant
            i <= entries.len(),
            out@.len() == i,
            forall|k: int| 0 <= k < i ==> list_line_is(#[trigger] out@[k], k as nat, entries@[k]),
        decreases entries.len() - i,
    {
        out.say(list_line(i, &entries[i]));
        i = i + 1;
    }
    out.put("");
    out.say(capacity_line(cap));
    out
}

/// The lines on the critical options of a certificate.
pub open spec fn critical_lines(options: Seq<(String, String)>) -> Seq<Seq<char>> {
    options.map_values(
        |o: (String, String)|
            if o.1@.len() == 0 {
                "  Critical:    "@ + clean(o.0@)
            } else {
                "  Critical:    "@ + clean(o.0@) + "="@ + clean(o.1@)
            },
    )
}

/// The lines of an entry that is a certificate.
pub open spec fn cert_lines(index: nat, size: u64, c: SshCertInfo) -> Seq<Seq<char>> {
    seq![
        "Entry "@ + dec_text(index) + ": OpenSSH certificate, "@ + dec_text(size as nat) + " bytes"@,
        "  Type:        "@ + clean(c.key_type@) + " ("@ + cert_word(c.user_cert) + ")"@,
        "  Key ID:      "@ + clean(c.key_id@),
        "  Serial:      "@ + dec_text(c.serial as nat),
        "  Principals:  "@ + (if c.principals@.len() == 0 {
            "(any)"@
        } else {
            clean(joined(views(c.principals@), ", "@))
        }),
        "  Valid:       "@ + c.validity@,
    ] + critical_lines(c.critical_options@) + c.extensions@.map_values(
        |e: String| "  Extension:   "@ + clean(e@),
    ) + seq![
        ""@,
        "Export with: keyroostctl fido large-blob export "@ + dec_text(index) + " <FILE> --as-cert"@,
    ]
}

/// The lines of an entry. The last one of an opaque entry is a dump that ends
/// its own lines.
pub open spec fn entry_lines(index: nat, e: LargeBlobEntry) -> Seq<Seq<char>> {
    match e.kind {
        EntryKind::Note(t) => seq![
            "Entry "@ + dec_text(index) + ": keyroost note, "@ + dec_text(e.orig_size as nat) + " bytes"@,
            clean_block(t@),
        ],
        EntryKind::SshCert(c) => cert_lines(index, e.orig_size, c),
        EntryKind::Opaque => seq![
            "Entry "@ + dec_text(index) + ": opaque (RP-encrypted), "@ + dec_text(e.orig_size as nat)
                + " bytes"@,
            ""@,
            dump_text(e.ciphertext@),
        ],
    }
}

fn say_cert(index: usize, size: u64, c: &SshCertInfo) -> (out: Lines)
    ensures
        out@ == cert_lines(index as nat, size, *c),
{
    let mut out = Lines::new();
    out.say(
        cat5(
            "Entry ",
            dec_usize(index).as_str(),
            ": OpenSSH certificate, ",
            dec_u64(size).as_str(),
            " bytes",
        ),
    );
    out.say(
        cat5(
            "  Type:        ",
            sanitize_terminal(c.key_type.as_str()).as_str(),
            " (",
            if c.user_cert {
                "user"
            } else {
                "host"
            },
            ")",
        ),
    );
    out.say(cat2("  Key ID:      ", sanitize_terminal(c.key_id.as_str()).as_str()));
    out.say(cat2("  Serial:      ", dec_u64(c.serial).as_str()));
    let principals = if c.principals.len() == 0 {
        "(any)".to_owned()
    } else {
        sanitize_terminal(join(&c.principals, ", ").as_str())
    };
    out.say(cat2("  Principals:  ", principals.as_str()));
    out.say(cat2("  Valid:       ", c.validity.as_str()));
    let ghost head = out@;
    assert(head =~= cert_lines(index as nat, size, *c).take(6));
    let ghost crit = critical_lines(c.critical_options@);
    let mut i: usize = 0;
    assert(out@ =~= head + crit.take(0));
    while i < c.critical_options.len()
        invariant
            i <= c.critical_options.len(),
            crit == critical_lines(c.critical_options@),
            out@ == head + crit.take(i as int),
        decreases c.critical_options.len() - i,
    {
        let o = &c.critical_options[i];
        let n = sanitize_terminal(o.0.as_str());
        if o.1.as_str().is_empty() {
            out.say(cat2("  Critical:    ", n.as_str()));
        } else {
            let v = sanitize_terminal(o.1.as_str());
            out.say(cat4("  Critical:    ", n.as_str(), "=", v.as_str()));
        }
        i = i + 1;
        assert(out@ =~= head + crit.take(i as int));
    }
    assert(crit.take(i as int) =~= crit);
    let ghost mid = out@;
    let ghost ext = c.extensions@.map_values(|e: String| "  Extension:   "@ + clean(e@));
    let mut k: usize = 0;
    assert(out@ =~= mid + ext.take(0));
    while k < c.extensions.len()
        invariant
            k <= c.extensions.len(),
            ext == c.extensions@.map_values(|e: String| "  Extension:   "@ + clean(e@)),
            out@ == mid + ext.take(k as int),
        decreases c.extensions.len() - k,
    {
        out.say(cat2("  Extension:   ", sanitize_terminal(c.extensions[k].as_str()).as_str()));
        k = k + 1;
        assert(out@ =~= mid + ext.take(k as int));
    }
    assert(ext.take(k as int) =~= ext);
    out.put("");
    out.say(
        cat3(
            "Export with: keyroostctl fido large-blob export ",
            dec_usize(index).as_str(),
            " <FILE> --as-cert",
        ),
    );
    assert(out@ =~= cert_lines(index as nat, size, *c));
    out
}

/// One entry, line by line, or that there is none of that number.
pub fn run_fido_large_blob_get(entries: &Vec<LargeBlobEntry>, index: usize) -> (r: Result<Lines, String>)
    ensures
        match r {
            Ok(l) => index < entries@.len() && l@ == entry_lines(index as nat, entries@[index as int]),
            Err(e) => index >= entries@.len() && e@ == bad_index_text(index as nat, entries@.len()),
        },
{
    if index >= entries.len() {
        return Err(large_blob_bad_index(index, entries.len()));
    }
    let e = &entries[index];
    match &e.kind {
        EntryKind::Note(t) => {
            let mut out = Lines::new();
            out.say(
                cat5(
                    "Entry ",
                    dec_usize(index).as_str(),
                    ": keyroost note, ",
                    dec_u64(e.orig_size).as_str(),
                    " bytes",
                ),
            );
            out.say(sanitize_multiline(t.as_str()));
            assert(out@ =~= entry_lines(index as nat, *e));
            Ok(out)
        },
        EntryKind::SshCert(c) => Ok(say_cert(index, e.orig_size, c)),
        EntryKind::Opaque => {
            let mut out = Lines::new();
            out.say(
                cat5(
                    "Entry ",
                    dec_usize(index).as_str(),
                    ": opaque (RP-encrypted), ",
                    dec_u64(e.orig_size).as_str(),
                    " bytes",
                ),
            );
            out.put("");
            out.say(hex_ascii_dump(e.ciphertext.as_slice()));
            assert(out@ =~= entry_lines(index as nat, *e));
            Ok(out)
        },
    }
}

/// What is written when an entry is exported.
#[derive(Debug)]
pub enum ExportForm {
    /// The stored bytes.
    Raw(Vec<u8>),
    /// The certificate as a public-key file.
    Certificate,
}

/// Chooses what is written when an entry is exported; only a certificate can
/// be written as one.
pub fn run_fido_large_blob_export(entries: &Vec<LargeBlobEntry>, index: usize, as_cert: bool) -> (r: Result<
    ExportForm,
    String,
>)
    ensures
        match r {
            Ok(f) => index < entries@.len() && (if as_cert {
                f is Certificate && entries@[index as int].kind is SshCert
            } else {
                f matches ExportForm::Raw(b) && b@ == entries@[index as int].ciphertext@
            }),
            Err(e) => if index >= entries@.len() {
                e@ == bad_index_text(index as nat, entries@.len())
            } else {
                as_cert && !(entries@[index as int].kind is SshCert) && e@ == "entry "@ + dec_text(index as nat)
                    + " is not a recognized SSH certificate; drop --as-cert to export raw bytes"@
            },
        },
{
    if index >= entries.len() {
        return Err(large_blob_bad_index(index, entries.len()));
    }
    if !as_cert {
        return Ok(ExportForm::Raw(slice_to_vec(entries[index].ciphertext.as_slice())));
    }
    match &entries[index].kind {
        EntryKind::SshCert(_) => Ok(ExportForm::Certificate),
        _ => Err(
            cat3(
                "entry ",
                dec_usize(index).as_str(),
                " is not a recognized SSH certificate; drop --as-cert to export raw bytes",
            ),
        ),
    }
}

/// Decides on the deletion of an entry: it has to be there. What another
/// service stored is deleted only when that is confirmed, and with a warning.
pub fn run_fido_large_blob_delete(entries: &Vec<LargeBlobEntry>, index: usize, yes: bool) -> (r: Result<
    Option<String>,
    String,
>)
    ensures
        match r {
            Ok(w) => index < entries@.len() && if entries@[index as int].is_kr_note {
                w is None
            } else {
                yes && opt_view(w) == Some(
                    "WARNING: entry "@ + dec_text(index as nat)
                        + " was not created by keyroost; deleting it may break a service that stored it."@,
                )
            },
            Err(e) => if index >= entries@.len() {
                e@ == bad_index_text(index as nat, entries@.len())
            } else {
                !entries@[index as int].is_kr_note && !yes && e@ == "REFUSING to delete entry "@ + dec_text(
                    index as nat,
                )
                    + ": it was NOT created by keyroost (it is an opaque, RP-encrypted record). Deleting it may break a service that stored it. Re-run with --yes to delete it anyway."@
            },
        },
{
    if index >= entries.len() {
        return Err(large_blob_bad_index(index, entries.len()));
    }
    if entries[index].is_kr_note {
        return Ok(None);
    }
    let n = dec_usize(index);
    if yes {
        Ok(
            Some(
                cat3(
                    "WARNING: entry ",
                    n.as_str(),
                    " was not created by keyroost; deleting it may break a service that stored it.",
                ),
            ),
        )
    } else {
        Err(
            cat3(
                "REFUSING to delete entry ",
                n.as_str(),
                ": it was NOT created by keyroost (it is an opaque, RP-encrypted record). Deleting it may break a service that stored it. Re-run with --yes to delete it anyway.",
            ),
        )
    }
}

/// The array without one entry; the others keep their order.
pub fn without_entry<T>(entries: Vec<T>, index: usize) -> (r: Vec<T>)
    requires
        index < entries@.len(),
    ensures
        r@ == entries@.remove(index as int),
{
    let mut entries = entries;
    let _gone = entries.remove(index);
    entries
}

/// Deleting an entry leaves every other entry as it was.
pub proof fn law_delete_keeps_the_others<T>(entries: Seq<T>, index: int, k: int)
    requires
        0 <= index < entries.len(),
        0 <= k < entries.len(),
        k != index,
    ensures
        entries.remove(index).len() == entries.len() - 1,
        entries.remove(index)[if k < index {
            k
        } else {
            k - 1
        }] == entries[k],
{
}

/// How many entries are not notes.
pub open spec fn foreign(entries: Seq<LargeBlobEntry>) -> nat
    decreases entries.len(),
{
    if entries.len() == 0 {
        0
    } else {
        foreign(entries.drop_last()) + if entries.last().is_kr_note {
            0nat
        } else {
            1nat
        }
    }
}

/// The end of a word that counts entries.
pub open spec fn entries_suffix(n: nat) -> Seq<char> {
    if n == 1 {
        "y"@
    } else {
        "ies"@
    }
}

/// Decides on erasing the whole array. The warning says what is at stake; the
/// array is erased only when confirmed.
pub fn run_fido_large_blob_clear(entries: &Vec<LargeBlobEntry>, yes: bool) -> (r: (
    Option<String>,
    Result<(), String>,
))
    ensures
        ({
            let total = entries@.len();
            let opaque = foreign(entries@);
            &&& r.1 is Ok <==> yes
            &&& r.1 matches Err(e) ==> e@ == "refusing to clear the large-blob array without --yes"@
            &&& opt_view(r.0) == (if !yes {
                Some(
                    "WARNING: `clear` erases the ENTIRE large-blob array — ALL "@ + dec_text(total) + " entr"@
                        + entries_suffix(total) + " ("@ + dec_text(opaque)
                        + " opaque/RP-owned, e.g. stored SSH certs). This can break any service that stored data here."@,
                )
            } else if opaque > 0 {
                Some(
                    "WARNING: wiping "@ + dec_text(opaque) + " opaque/RP-owned entr"@ + entries_suffix(opaque)
                        + " along with everything else."@,
                )
            } else {
                None
            })
        }),
{
    let mut opaque: usize = 0;
    let mut i: usize = 0;
    while i < entries.len()
        invariant
            i <= entries.len(),
            opaque <= i,
            opaque == foreign(entries@.take(i as int)),
        decreases entries.len() - i,
    {
        assert(entries@.take(i as int + 1).drop_last() =~= entries@.take(i as int));
        if !entries[i].is_kr_note {
            opaque = opaque + 1;
        }
        i = i + 1;
    }
    assert(entries@.take(i as int) =~= entries@);
    if !yes {
        let w = cat7(
            "WARNING: `clear` erases the ENTIRE large-blob array — ALL ",
            dec_usize(entries.len()).as_str(),
            " entr",
            if entries.len() == 1 {
                "y"
            } else {
                "ies"
            },
            " (",
            dec_usize(opaque).as_str(),
            " opaque/RP-owned, e.g. stored SSH certs). This can break any service that stored data here.",
        );
        return (Some(w), Err("refusing to clear the large-blob array without --yes".to_owned()));
    }
    if opaque > 0 {
        let w = cat5(
            "WARNING: wiping ",
            dec_usize(opaque).as_str(),
            " opaque/RP-owned entr",
            if opaque == 1 {
                "y"
            } else {
                "ies"
            },
            " along with everything else.",
        );
        return (Some(w), Ok(()));
    }
    (None, Ok(()))
}

/// The error for an entry that cannot be edited.
pub fn not_a_note(index: usize) -> (r: String)
    ensures
        r@ == "entry "@ + dec_text(index as nat)
            + " is not a keyroost note (can't edit an RP-encrypted entry)"@,
{
    cat3("entry ", dec_usize(index).as_str(), " is not a keyroost note (can't edit an RP-encrypted entry)")
}

/// What a change of the array is reported as.
#[derive(Clone, Copy, Debug, PartialEq, Eq, Structural)]
pub enum BlobChange {
    /// A note was added; entries now.
    Added(usize),
    /// A note was replaced; its number.
    Edited(usize),
    /// An entry was deleted; entries now.
    Deleted(usize),
    /// All entries were erased; entries before.
    Cleared(usize),
}

/// The closing line of a change of the array.
pub fn blob_done(c: BlobChange) -> (r: String)
    ensures
        r@ == (match c {
            BlobChange::Added(n) => "Note added; "@ + dec_text(n as nat) + " entries now."@,
            BlobChange::Edited(i) => "Note "@ + dec_text(i as nat) + " updated."@,
            BlobChange::Deleted(n) => "Entry deleted; "@ + dec_text(n as nat) + " entries now."@,
            BlobChange::Cleared(n) => "Large-blob array cleared ("@ + dec_text(n as nat)
                + " entries wiped)."@,
        }),
{
    match c {
        BlobChange::Added(n) => cat3("Note added; ", dec_usize(n).as_str(), " entries now."),
        BlobChange::Edited(i) => cat3("Note ", dec_usize(i).as_str(), " updated."),
        BlobChange::Deleted(n) => cat3("Entry deleted; ", dec_usize(n).as_str(), " entries now."),
        BlobChange::Cleared(n) => cat3(
            "Large-blob array cleared (",
            dec_usize(n).as_str(),
            " entries wiped).",
        ),
    }
}

/// Whether a relying party is one of SSH.
pub open spec fn is_ssh_party(id: Seq<char>) -> bool {
    run_at(id, "ssh:"@, 0)
}

/// The hash by which the credentials of a relying party are listed; none
/// where it is not one of SSH. Where the key did not give the hash it is
/// computed from the identifier.
pub fn ssh_party_hash(id: &str, given: Option<Vec<u8>>) -> (r: Option<Vec<u8>>)
    ensures
        match r {
            Some(h) => is_ssh_party(id@) && h@ == (match given {
                Some(g) => g@,
                None => sha256_of(encode_utf8(id@)),
            }),
            None => !is_ssh_party(id@),
        },
{
    if !starts_with(id, "ssh:") {
        return None;
    }
    match given {
        Some(g) => Some(g),
        None => Some(sha256(id.as_bytes())),
    }
}

/// One resident SSH credential.
#[derive(Debug)]
pub struct SshCredential {
    /// Identifier of its relying party.
    pub rp_id: String,
    /// Whether it has a key into the large-blob array.
    pub has_key: bool,
    /// Whether a certificate was found under that key.
    pub has_cert: bool,
    /// Whether that certificate can be written as a public-key file.
    pub cert_valid: bool,
}

/// The line of an SSH credential.
pub open spec fn ssh_line(c: SshCredential) -> Seq<char> {
    clean(c.rp_id@) + "  "@ + (if c.has_cert {
        "certificate stored"@
    } else {
        "no certificate"@
    })
}

/// The SSH credentials, line by line.
pub fn run_fido_ssh_cert_list(creds: &Vec<SshCredential>) -> (r: Lines)
    ensures
        r@ == (if creds@.len() == 0 {
            seq!["No resident SSH credentials (ssh:* relying parties) on this key."@]
        } else {
            creds@.map_values(|c: SshCredential| ssh_line(c))
        }),
{
    let mut out = Lines::new();
    if creds.len() == 0 {
        out.put("No resident SSH credentials (ssh:* relying parties) on this key.");
        assert(out@ =~= seq!["No resident SSH credentials (ssh:* relying parties) on this key."@]);
        return out;
    }
    let ghost all = creds@.map_values(|c: SshCredential| ssh_line(c));
    let mut i: usize = 0;
    assert(out@ =~= all.take(0));
    while i < creds.len()
        invariant
            i <= creds.len(),
            all == creds@.map_values(|c: SshCredential| ssh_line(c)),
            out@ == all.take(i as int),
        decreases creds.len() - i,
    {
        let word = if creds[i].has_cert {
            "certificate stored"
        } else {
            "no certificate"
        };
        out.say(cat3(sanitize_terminal(creds[i].rp_id.as_str()).as_str(), "  ", word));
        i = i + 1;
        assert(out@ =~= all.take(i as int));
    }
    assert(all.take(i as int) =~= all);
    out
}

/// The relying parties of the credentials, cleaned.
pub open spec fn ssh_choices(creds: Seq<SshCredential>) -> Seq<Seq<char>> {
    creds.map_values(|c: SshCredential| clean(c.rp_id@))
}

/// For each credential, whether its relying party is the wanted one.
pub open spec fn ssh_flags(creds: Seq<SshCredential>, want: Seq<char>) -> Seq<bool> {
    creds.map_values(|c: SshCredential| c.rp_id@ == want)
}

/// Which credential is meant, or why none can be chosen.
pub open spec fn ssh_choice_spec(creds: Seq<SshCredential>, want: Option<Seq<char>>) -> Result<int, Seq<char>> {
    if creds.len() == 0 {
        Err("no resident SSH credentials (ssh:* relying parties) on this key"@)
    } else {
        match want {
            Some(w) => {
                let found = hits(ssh_flags(creds, w));
                if found.len() == 0 {
                    Err(
                        "no SSH credential with RP ID "@ + clean(w) + "; available: "@ + joined(
                            ssh_choices(creds),
                            ", "@,
                        ),
                    )
                } else if found.len() == 1 {
                    Ok(found[0])
                } else {
                    Err("multiple credentials share RP id '"@ + clean(w) + "'; cannot disambiguate"@)
                }
            },
            None => if creds.len() == 1 {
                Ok(0)
            } else {
                Err(
                    "several SSH credentials present; pass --credential <rp-id> (one of: "@ + joined(
                        ssh_choices(creds),
                        ", "@,
                    ) + ")"@,
                )
            },
        }
    }
}

fn choices_of(creds: &Vec<SshCredential>) -> (r: String)
    ensures
        r@ == joined(ssh_choices(creds@), ", "@),
{
    let mut list: Vec<String> = Vec::new();
    let mut i: usize = 0;
    while i < creds.len()
        invariant
            i <= creds.len(),
            views(list@) == ssh_choices(creds@).take(i as int),
        decreases creds.len() - i,
    {
        let s = sanitize_terminal(creds[i].rp_id.as_str());
        proof {
            lemma_views_push(list@, s);
        }
        list.push(s);
        i = i + 1;
        assert(views(list@) =~= ssh_choices(creds@).take(i as int));
    }
    assert(views(list@) =~= ssh_choices(creds@));
    join(&list, ", ")
}

/// Chooses the SSH credential to extract. Among several nothing is guessed.
pub fn choose_ssh_credential(creds: &Vec<SshCredential>, want: Option<&str>) -> (r: Result<usize, String>)
    ensures
        match (r, ssh_choice_spec(creds@, opt_str(want))) {
            (Ok(i), Ok(j)) => i == j && i < creds@.len(),
            (Err(e), Err(m)) => e@ == m,
            _ => false,
        },
{
    if creds.len() == 0 {
        return Err("no resident SSH credentials (ssh:* relying parties) on this key".to_owned());
    }
    match want {
        Some(w) => {
            let mut flags: Vec<bool> = Vec::new();
            let mut i: usize = 0;
            while i < creds.len()
                invariant
                    i <= creds.len(),
                    flags@ == ssh_flags(creds@, w@).take(i as int),
                decreases creds.len() - i,
            {
                flags.push(str_eq(creds[i].rp_id.as_str(), w));
                i = i + 1;
                assert(flags@ =~= ssh_flags(creds@, w@).take(i as int));
            }
            assert(flags@ =~= ssh_flags(creds@, w@));
            let found = hits_of(&flags);
            let ghost idx = found@.map_values(|i: usize| i as int);
            assert(idx.len() == found.len());
            if found.len() == 0 {
                Err(
                    cat4(
                        "no SSH credential with RP ID ",
                        sanitize_terminal(w).as_str(),
                        "; available: ",
                        choices_of(creds).as_str(),
                    ),
                )
            } else if found.len() == 1 {
                assert(idx[0] == found@[0]);
                Ok(found[0])
            } else {
                Err(
                    cat3(
                        "multiple credentials share RP id '",
                        sanitize_terminal(w).as_str(),
                        "'; cannot disambiguate",
                    ),
                )
            }
        },
        None => {
            if creds.len() != 1 {
                return Err(
                    cat3(
                        "several SSH credentials present; pass --credential <rp-id> (one of: ",
                        choices_of(creds).as_str(),
                        ")",
                    ),
                );
            }
            Ok(0)
        },
    }
}

/// Decides whether the chosen certificate can be written: the credential has a
/// key, a certificate lies under it, and an existing file is replaced only on
/// demand. What it hands back is the line to print afterwards.
pub fn run_fido_ssh_cert_extract(c: &SshCredential, out_path: &str, there: bool, force: bool) -> (r: Result<
    String,
    String,
>)
    ensures
        match r {
            Ok(s) => c.has_key && c.has_cert && c.cert_valid && (!there || force) && s@
                == "Wrote SSH certificate to "@ + out_path@,
            Err(e) => if !c.has_key {
                e@ == "credential '"@ + clean(c.rp_id@)
                    + "' has no largeBlob key — no certificate is stored for it"@
            } else if !c.has_cert {
                e@ == "no SSH certificate found in credential '"@ + clean(c.rp_id@)
                    + "'s largeBlob (no matching entry, or the stored blob is not a certificate)"@
            } else if !c.cert_valid {
                e@ == "stored blob is not a valid OpenSSH certificate"@
            } else {
                there && !force && e@ == out_path@ + " already exists; pass --force to overwrite"@
            },
        },
{
    if !c.has_key {
        return Err(
            cat3(
                "credential '",
                sanitize_terminal(c.rp_id.as_str()).as_str(),
                "' has no largeBlob key — no certificate is stored for it",
            ),
        );
    }
    if !c.has_cert {
        return Err(
            cat3(
                "no SSH certificate found in credential '",
                sanitize_terminal(c.rp_id.as_str()).as_str(),
                "'s largeBlob (no matching entry, or the stored blob is not a certificate)",
            ),
        );
    }
    if !c.cert_valid {
        return Err("stored blob is not a valid OpenSSH certificate".to_owned());
    }
    if there && !force {
        return Err(cat2(out_path, " already exists; pass --force to overwrite"));
    }
    Ok(cat2("Wrote SSH certificate to ", out_path))
}

/// Why a recognized certificate is not written.
pub const CERT_NOT_ENCODED: &'static str = "could not re-encode certificate";

/// The closing line of an export.
pub fn exported_line(len: usize, path: &str) -> (r: String)
    ensures
        r@ == "Wrote "@ + dec_text(len as nat) + " bytes to "@ + path@,
{
    cat4("Wrote ", dec_usize(len).as_str(), " bytes to ", path)
}

/// Entries that are not notes are counted one by one.
pub proof fn law_foreign_entries_are_counted(entries: Seq<LargeBlobEntry>, e: LargeBlobEntry)
    ensures
        foreign(Seq::<LargeBlobEntry>::empty()) == 0,
        foreign(entries.push(e)) == foreign(entries) + (if e.is_kr_note {
            0int
        } else {
            1
        }),
{
    assert(entries.push(e).drop_last() =~= entries);
}

/// The credential that is chosen is the only one with the wanted relying party,
/// or, where none was named, the only one there is; in every other case none is.
pub proof fn law_ssh_credential_is_never_guessed(creds: Seq<SshCredential>, want: Option<Seq<char>>, i: int)
    ensures
        ssh_choice_spec(creds, want) == Ok::<int, Seq<char>>(i) <==> 0 <= i < creds.len() && match want {
            Some(w) => forall|k: int| 0 <= k < creds.len() ==> (#[trigger] creds[k].rp_id@ == w <==> k == i),
            None => creds.len() == 1,
        },
{
    if let Some(w) = want {
        let flags = ssh_flags(creds, w);
        lemma_hits(flags);
        let found = hits(flags);
        if 0 <= i < creds.len() && (forall|k: int|
            0 <= k < creds.len() ==> (#[trigger] creds[k].rp_id@ == w <==> k == i)) {
            assert(creds[i].rp_id@ == w);
            assert(flags[i]);
            assert(found.contains(i));
            assert forall|a: int| 0 <= a < found.len() implies found[a] == i by {
                assert(flags[found[a]]);
                assert(creds[found[a]].rp_id@ == w);
            }
            if found.len() > 1 {
                assert(found[0] == i && found[1] == i);
            }
        }
        if ssh_choice_spec(creds, want) == Ok::<int, Seq<char>>(i) {
            assert(found[0] == i && flags[i]);
            assert forall|k: int| 0 <= k < creds.len() implies (#[trigger] creds[k].rp_id@ == w <==> k == i) by {
                if creds[k].rp_id@ == w {
                    assert(flags[k]);
                    assert(found.contains(k));
                }
            }
        }
    }
}

/// What is used and what is free make up the whole array, unless more is used than
/// there is; a key that does not say how large it is has 1024 bytes.
pub proof fn law_space_adds_up(max: Option<u64>, used: u64)
    ensures
        ({
            let c = capacity_spec(max, used);
            &&& c.used_bytes == used
            &&& max matches Some(m) ==> c.max_bytes == m
            &&& max is None ==> c.max_bytes == 1024
            &&& used <= c.max_bytes ==> c.used_bytes + c.free_bytes == c.max_bytes
            &&& used > c.max_bytes ==> c.free_bytes == 0
        }),
{
}

/// A certificate in machine-readable form keeps every field of it in its place.
pub proof fn law_certificate_fields_keep_their_places(j: FidoLargeBlobSshCertJson, c: SshCertInfo, k: int)
    requires
        cert_json_is(j, c),
    ensures
        j.key_type@ == c.key_type@ && j.serial == c.serial && j.key_id@ == c.key_id@ && j.validity@ == c.validity@,
        j.valid_after == c.valid_after && j.valid_before == c.valid_before,
        c.user_cert ==> j.cert_type@ == "user"@,
        !c.user_cert ==> j.cert_type@ == "host"@,
        j.principals@.len() == c.principals@.len() && j.extensions@.len() == c.extensions@.len()
            && j.critical_options@.len() == c.critical_options@.len(),
        0 <= k < c.principals@.len() ==> j.principals@[k]@ == c.principals@[k]@,
        0 <= k < c.extensions@.len() ==> j.extensions@[k]@ == c.extensions@[k]@,
        0 <= k < c.critical_options@.len() ==> j.critical_options@[k]@ == c.critical_options@[k].0@ + (
        if c.critical_options@[k].1@.len() == 0 {
            Seq::empty()
        } else {
            "="@ + c.critical_options@[k].1@
        }),
{
    assert(views(j.principals@).len() == views(c.principals@).len());
    assert(views(j.extensions@).len() == views(c.extensions@).len());
    let want = c.critical_options@.map_values(|o: (String, String)| critical_text(o));
    assert(views(j.critical_options@).len() == want.len());
    if 0 <= k < c.principals@.len() {
        assert(views(j.principals@)[k] == views(c.principals@)[k]);
    }
    if 0 <= k < c.extensions@.len() {
        assert(views(j.extensions@)[k] == views(c.extensions@)[k]);
    }
    if 0 <= k < c.critical_options@.len() {
        assert(views(j.critical_options@)[k] == want[k]);
        let o = c.critical_options@[k];
        assert(o.0@ + Seq::<char>::empty() =~= o.0@);
        assert(o.0@ + "="@ + o.1@ =~= o.0@ + ("="@ + o.1@));
    }
}

/// An entry in machine-readable form keeps every field of it in its place, and
/// says that it is a certificate just where it is one.
pub proof fn law_entry_fields_keep_their_places(j: FidoLargeBlobEntryJson, i: int, e: LargeBlobEntry)
    requires
        entry_json_is(j, i, e),
    ensures
        j.index == i && j.size == e.orig_size && j.is_note == e.is_kr_note && opt_view(j.text) == opt_view(e.text),
        e.kind is Note ==> j.kind@ == "note"@ && j.ssh_cert is None,
        e.kind is Opaque ==> j.kind@ == "opaque"@ && j.ssh_cert is None,
        e.kind matches EntryKind::SshCert(c) ==> j.kind@ == "ssh-cert"@ && (j.ssh_cert matches Some(s) && cert_json_is(
            s,
            c,
        )),
{
}

/// A relying party is one of SSH just where its identifier begins with `ssh:`.
pub proof fn law_ssh_parties_begin_with_ssh(id: Seq<char>)
    ensures
        is_ssh_party(id) <==> id.len() >= 4 && id[0] == 's' && id[1] == 's' && id[2] == 'h' && id[3] == ':',
{
    reveal_strlit("ssh:");
    if id.len() >= 4 && id[0] == 's' && id[1] == 's' && id[2] == 'h' && id[3] == ':' {
        assert(id.subrange(0, 4) =~= "ssh:"@);
    }
    if is_ssh_party(id) {
        assert(id.subrange(0, 4)[0] == id[0] && id.subrange(0, 4)[1] == id[1]);
        assert(id.subrange(0, 4)[2] == id[2] && id.subrange(0, 4)[3] == id[3]);
    }
}

/// The line of an entry begins with its number and its size, and goes on with what
/// it is.
pub proof fn law_list_line_begins_with_the_index(line: Seq<char>, i: nat, e: LargeBlobEntry)
    requires
        list_line_is(line, i, e),
    ensures
        ({
            let head = "["@ + dec_text(i) + "] "@ + dec_text(e.orig_size as nat);
            &&& head.is_prefix_of(line)
            &&& e.kind is Note ==> has_run(line, " note "@)
            &&& e.kind matches EntryKind::SshCert(c) ==> has_run(line, " ssh-cert "@) && has_run(line, clean(c.key_id@))
            &&& e.kind is Opaque ==> has_run(line, " opaque "@)
        }),
{
    let head = "["@ + dec_text(i) + "] "@ + dec_text(e.orig_size as nat);
    reveal_strlit(" bytes  note      ");
    reveal_strlit(" bytes  ssh-cert  ");
    reveal_strlit(" bytes  opaque    ");
    reveal_strlit(" bytes ");
    reveal_strlit(" note ");
    reveal_strlit("     ");
    reveal_strlit(" ssh-cert ");
    reveal_strlit(" ");
    reveal_strlit(" opaque ");
    reveal_strlit("   ");
    match e.kind {
        EntryKind::Note(t) => {
            let p = choose|p: Seq<char>| #[trigger]
                trimmed_of(clean(t@), p) && line == head + " bytes  note      "@ + cut(p, 48);
            assert(" bytes  note      "@ =~= " bytes "@ + " note "@ + "     "@);
            lemma_holds(line, head + " bytes "@, " note "@, "     "@ + cut(p, 48));
        },
        EntryKind::SshCert(c) => {
            let tail = " ("@ + clean(joined(views(c.principals@), ","@)) + ")"@;
            assert(" bytes  ssh-cert  "@ =~= " bytes "@ + " ssh-cert "@ + " "@);
            lemma_holds(line, head + " bytes "@, " ssh-cert "@, " "@ + clean(c.key_id@) + tail);
            lemma_holds(line, head + " bytes  ssh-cert  "@, clean(c.key_id@), tail);
        },
        EntryKind::Opaque => {
            assert(" bytes  opaque    "@ =~= " bytes "@ + " opaque "@ + "   "@);
            lemma_holds(line, head + " bytes "@, " opaque "@, "   "@ + opaque_preview(e.ciphertext@));
        },
    }
}

/// An entry that is shown is called by its own number and size; a note shows its
/// text, an opaque entry its bytes, and a certificate what is in it, with the
/// command that exports this very entry.
pub proof fn law_shown_entry_is_the_one_of_the_index(index: nat, e: LargeBlobEntry)
    ensures
        ({
            let lines = entry_lines(index, e);
            &&& has_run(lines[0], "Entry "@ + dec_text(index) + ": "@)
            &&& has_run(lines[0], ", "@ + dec_text(e.orig_size as nat) + " bytes"@)
            &&& e.kind matches EntryKind::Note(t) ==> lines.len() == 2 && lines[1] == clean_block(t@)
            &&& e.kind is Opaque ==> lines.len() == 3 && lines[2] == dump_text(e.ciphertext@)
            &&& e.kind is SshCert ==> has_run(lines.last(), "export "@ + dec_text(index) + " "@)
        }),
{
    let lines = entry_lines(index, e);
    let n = dec_text(index);
    let size = dec_text(e.orig_size as nat);
    reveal_strlit("Entry ");
    reveal_strlit(": ");
    reveal_strlit(", ");
    match e.kind {
        EntryKind::Note(_) => {
            reveal_strlit(": keyroost note, ");
            reveal_strlit("keyroost note");
            assert(": keyroost note, "@ =~= ": "@ + "keyroost note"@ + ", "@);
            lemma_entry_head(lines[0], n, "keyroost note"@, size);
        },
        EntryKind::SshCert(c) => {
            reveal_strlit(": OpenSSH certificate, ");
            reveal_strlit("OpenSSH certificate");
            assert(": OpenSSH certificate, "@ =~= ": "@ + "OpenSSH certificate"@ + ", "@);
            lemma_entry_head(lines[0], n, "OpenSSH certificate"@, size);
            reveal_strlit("Export with: keyroostctl fido large-blob export ");
            reveal_strlit("Export with: keyroostctl fido large-blob ");
            reveal_strlit("export ");
            reveal_strlit(" <FILE> --as-cert");
            reveal_strlit(" ");
            reveal_strlit("<FILE> --as-cert");
            assert("Export with: keyroostctl fido large-blob export "@ =~= "Export with: keyroostctl fido large-blob "@
                + "export "@);
            assert(" <FILE> --as-cert"@ =~= " "@ + "<FILE> --as-cert"@);
            lemma_holds(
                lines.last(),
                "Export with: keyroostctl fido large-blob "@,
                "export "@ + n + " "@,
                "<FILE> --as-cert"@,
            );
        },
        EntryKind::Opaque => {
            reveal_strlit(": opaque (RP-encrypted), ");
            reveal_strlit("opaque (RP-encrypted)");
            assert(": opaque (RP-encrypted), "@ =~= ": "@ + "opaque (RP-encrypted)"@ + ", "@);
            lemma_entry_head(lines[0], n, "opaque (RP-encrypted)"@, size);
        },
    }
}

proof fn lemma_entry_head(line: Seq<char>, n: Seq<char>, what: Seq<char>, size: Seq<char>)
    requires
        line =~= "Entry "@ + n + (": "@ + what + ", "@) + size + " bytes"@,
    ensures
        has_run(line, "Entry "@ + n + ": "@),
        has_run(line, ", "@ + size + " bytes"@),
{
    lemma_holds(line, Seq::empty(), "Entry "@ + n + ": "@, what + ", "@ + size + " bytes"@);
    lemma_holds(line, "Entry "@ + n + ": "@ + what, ", "@ + size + " bytes"@, Seq::empty());
}

/// The space is told as what is used, what there is in all and what is free.
pub proof fn law_space_is_told_in_order(c: Capacity)
    ensures
        has_run(capacity_text(c), dec_text(c.used_bytes as nat) + " of "@ + dec_text(c.max_bytes as nat)),
        has_run(capacity_text(c), dec_text(c.free_bytes as nat) + " free"@),
{
    let t = capacity_text(c);
    let a = dec_text(c.used_bytes as nat);
    let b = dec_text(c.max_bytes as nat);
    let f = dec_text(c.free_bytes as nat);
    lemma_holds(t, "Capacity: "@, a + " of "@ + b, " bytes used, "@ + f + " free"@);
    lemma_holds(t, "Capacity: "@ + a + " of "@ + b + " bytes used, "@, f + " free"@, Seq::empty());
}

/// An SSH credential is listed under its relying party, with or without a
/// certificate as it is.
pub proof fn law_ssh_line_says_whether_a_certificate_is_stored(c: SshCredential)
    ensures
        c.has_cert ==> ssh_line(c) == clean(c.rp_id@) + "  "@ + "certificate stored"@,
        !c.has_cert ==> ssh_line(c) == clean(c.rp_id@) + "  "@ + "no certificate"@,
{
}

} // verus!
