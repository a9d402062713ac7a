//! Finding a FIDO key among those connected, and their friendly names.

use crate::plan::lemma_short_plan;
use crate::sanitize::{clean, sanitize_terminal, trim, trimmed_of};
use crate::text::{
    cat2, cat3, cat4, cat5, cat6, cat7, chars_of, dec_text, dec_usize, has_run, join, joined,
    lemma_holds, lemma_holds_within, lemma_views_push, opt_str, opt_view, pad_right, padded_right, str_eq, views, Lines,
};
use vstd::prelude::*;

verus! {

/// A connected FIDO key.
#[derive(Debug)]
pub struct FidoKey {
    /// Path of its HID node.
    pub path: String,
    /// USB product string.
    pub product_name: String,
    /// Effective serial.
    pub serial: Option<String>,
    /// Friendly name of that serial.
    pub name: Option<String>,
}

/// The friendly name of a key, or its product string.
pub open spec fn key_label(k: FidoKey) -> Seq<char> {
    match k.name {
        Some(n) => n@,
        None => k.product_name@,
    }
}

/// The end of a refusal that names the key it is about. `keys` is none where
/// the keys could not be listed; `named` is what the given name stands for.
pub open spec fn hint_text(
    path: Option<Seq<char>>,
    keys: Option<Seq<FidoKey>>,
    named: Option<Option<(Seq<char>, Seq<char>)>>,
) -> Seq<char> {
    match path {
        Some(p) => " — target: "@ + p,
        None => match keys {
            None => Seq::empty(),
            Some(list) => match named {
                Some(Some(t)) => " — target: "@ + clean(t.0) + " at "@ + t.1,
                Some(None) => Seq::empty(),
                None => if list.len() == 1 {
                    " — target: "@ + clean(key_label(list[0])) + " at "@ + list[0].path@
                } else if list.len() == 0 {
                    Seq::empty()
                } else {
                    " — "@ + dec_text(list.len()) + " FIDO keys connected; pass --device or --path to choose"@
                },
            },
        },
    }
}

/// What the given name stands for: label and path.
pub open spec fn named_view(named: Option<Option<(String, String)>>) -> Option<Option<(Seq<char>, Seq<char>)>> {
    match named {
        Some(Some(t)) => Some(Some((t.0@, t.1@))),
        Some(None) => Some(None),
        None => None,
    }
}

/// The end of a refusal that names the key it is about, as far as that can be
/// told without asking.
pub fn fido_target_hint(path: Option<&str>, keys: &Option<Vec<FidoKey>>, named: &Option<Option<(String, String)>>) -> (r:
    String)
    ensures
        r@ == hint_text(
            opt_str(path),
            match keys {
                Some(v) => Some(v@),
                None => None,
            },
            named_view(*named),
        ),
{
    match path {
        Some(p) => cat2(" — target: ", p),
        None => match keys {
            None => String::new(),
            Some(list) => match named {
                Some(Some(t)) => cat4(
                    " — target: ",
                    sanitize_terminal(t.0.as_str()).as_str(),
                    " at ",
                    t.1.as_str(),
                ),
                Some(None) => String::new(),
                None => {
                    if list.len() == 1 {
                        let label = match &list[0].name {
                            Some(n) => n.as_str(),
                            None => list[0].product_name.as_str(),
                        };
                        cat4(
                            " — target: ",
                            sanitize_terminal(label).as_str(),
                            " at ",
                            list[0].path.as_str(),
                        )
                    } else if list.len() == 0 {
                        String::new()
                    } else {
                        cat3(
                            " — ",
                            dec_usize(list.len()).as_str(),
                            " FIDO keys connected; pass --device or --path to choose",
                        )
                    }
                },
            },
        },
    }
}

/// The error for no key, with a hint where one is stuck in bootloader mode.
pub open spec fn no_key_text(bootloader: Option<Seq<char>>) -> Seq<char> {
    let base = "no FIDO HID device found. Plug a security key in, or pass --path/--device."@;
    match bootloader {
        Some(b) => base + " (Detected "@ + b + " — re-plug it to return to application mode.)"@,
        None => base,
    }
}

/// The error for no key.
pub fn no_fido_device_error(bootloader: Option<&str>) -> (r: String)
    ensures
        r@ == no_key_text(opt_str(bootloader)),
{
    let base = "no FIDO HID device found. Plug a security key in, or pass --path/--device.";
    match bootloader {
        Some(b) => cat4(base, " (Detected ", b, " — re-plug it to return to application mode.)"),
        None => base.to_owned(),
    }
}

/// The line that says which key a command is about to act on.
pub fn announce_target(name: Option<&str>, label: &str, path: &str) -> (r: String)
    ensures
        r@ == (match name {
            Some(n) => "\u{2192} "@ + clean(n@) + " ("@ + clean(label@) + ", "@ + path@ + ")"@,
            None => "\u{2192} "@ + clean(label@) + " ("@ + path@ + ")"@,
        }),
{
    let shown = sanitize_terminal(label);
    match name {
        Some(n) => cat7(
            "\u{2192} ",
            sanitize_terminal(n).as_str(),
            " (",
            shown.as_str(),
            ", ",
            path,
            ")",
        ),
        None => cat5("\u{2192} ", shown.as_str(), " (", path, ")"),
    }
}

/// Whether all characters are decimal digits, and there is one.
pub open spec fn is_decimal(s: Seq<char>) -> bool {
    s.len() > 0 && forall|i: int| 0 <= i < s.len() ==> '0' <= #[trigger] s[i] && s[i] <= '9'
}

/// The number that decimal digits stand for.
pub open spec fn decimal_value(s: Seq<char>) -> nat
    decreases s.len(),
{
    if s.len() == 0 {
        0
    } else {
        10 * decimal_value(s.drop_last()) + ((s.last() as u32) - ('0' as u32)) as nat
    }
}

/// The number a text holds: decimal digits, a plus sign before them or not.
pub open spec fn number_spec(s: Seq<char>) -> Option<nat> {
    let t = if s.len() > 0 && s[0] == '+' {
        s.drop_first()
    } else {
        s
    };
    if is_decimal(t) && decimal_value(t) <= usize::MAX {
        Some(decimal_value(t))
    } else {
        None
    }
}

/// Reads a number: decimal digits, a plus sign before them or not, no larger
/// than fits.
pub fn parse_number(s: &str) -> (r: Option<usize>)
    ensures
        match (r, number_spec(s@)) {
            (Some(n), Some(v)) => n == v,
            (None, None) => true,
            _ => false,
        },
{
    let chars = chars_of(s);
    let start: usize = if chars.len() > 0 && chars[0] == '+' {
        1
    } else {
        0
    };
    let ghost t = chars@.skip(start as int);
    proof {
        if start == 1 {
            assert(t =~= s@.drop_first());
        } else {
            assert(t =~= s@);
        }
    }
    if start == chars.len() {
        return None;
    }
    let mut n: usize = 0;
    let mut i: usize = start;
    let mut fits = true;
    assert(t.take(0).len() == 0);
    while i < chars.len()
        invariant
            start <= i <= chars.len(),
            t == chars@.skip(start as int),
            forall|k: int| 0 <= k < i - start ==> '0' <= #[trigger] t[k] && t[k] <= '9',
            fits ==> n == decimal_value(t.take(i - start)),
            !fits ==> decimal_value(t.take(i - start)) > usize::MAX,
            number_spec(s@) == (if is_decimal(t) && decimal_value(t) <= usize::MAX {
                Some(decimal_value(t))
            } else {
                None
            }),
        decreases chars.len() - i,
    {
        let c = chars[i];
        assert(t[i - start] == c);
        if !('0' <= c && c <= '9') {
            assert(!is_decimal(t));
            return None;
        }
        let d: usize = (c as u32 - '0' as u32) as usize;
        proof {
            assert(t.take(i - start + 1).drop_last() =~= t.take(i - start));
            assert(t.take(i - start + 1).last() == c);
        }
        if fits {
            if n <= (usize::MAX - d) / 10 {
                n = 10 * n + d;
            } else {
                fits = false;
            }
        }
        i = i + 1;
    }
    assert(t.take(i - start) =~= t);
    assert(is_decimal(t));
    if fits {
        Some(n)
    } else {
        None
    }
}

/// The choice that was typed, among `n` keys counted from one.
pub open spec fn choice_spec(trimmed: Seq<char>, n: nat) -> Result<nat, Seq<char>> {
    match number_spec(trimmed) {
        None => Err("'"@ + trimmed + "' is not a valid selection"@),
        Some(c) => if 1 <= c <= n {
            Ok((c - 1) as nat)
        } else {
            Err("selection "@ + dec_text(c) + " out of range 1-"@ + dec_text(n))
        },
    }
}

/// Reads the choice that was typed, among `n` keys counted from one.
pub fn pick_device_interactively(line: &str, n: usize) -> (r: Result<usize, String>)
    ensures
        exists|t: Seq<char>| #[trigger]
            trimmed_of(line@, t) && match (r, choice_spec(t, n as nat)) {
                (Ok(i), Ok(j)) => i == j && i < n,
                (Err(e), Err(m)) => e@ == m,
                _ => false,
            },
{
    let t = trim(line);
    assert(trimmed_of(line@, t@));
    match parse_number(t.as_str()) {
        None => Err(cat3("'", t.as_str(), "' is not a valid selection")),
        Some(c) => {
            if 1 <= c && c <= n {
                Ok(c - 1)
            } else {
                Err(
                    cat4(
                        "selection ",
                        dec_usize(c).as_str(),
                        " out of range 1-",
                        dec_usize(n).as_str(),
                    ),
                )
            }
        },
    }
}

/// How one key is offered in the menu.
pub open spec fn menu_line(i: nat, k: FidoKey) -> Seq<char> {
    "  "@ + dec_text(i + 1) + ") "@ + padded_right(
        match k.name {
            Some(n) => clean(n@) + "  ("@ + clean(k.product_name@) + ")"@,
            None => clean(k.product_name@),
        },
        30,
        ' ',
    ) + " "@ + k.path@
}

/// The menu from which a key is chosen; the last line is the prompt.
pub fn picker_lines(keys: &Vec<FidoKey>) -> (r: Lines)
    requires
        keys@.len() < usize::MAX,
    ensures
        r@ == seq!["Multiple security keys connected:"@] + Seq::new(
            keys@.len(),
            |i: int| menu_line(i as nat, keys@[i]),
        ) + seq!["Select [1-"@ + dec_text(keys@.len()) + "]: "@],
{
    let mut out = Lines::new();
    out.put("Multiple security keys connected:");
    let ghost head = out@;
    let ghost all = Seq::new(keys@.len(), |i: int| menu_line(i as nat, keys@[i]));
    let mut i: usize = 0;
    assert(out@ =~= head + all.take(0));
    while i < keys.len()
        invariant
            i <= keys.len(),
            keys@.len() < usize::MAX,
            all == Seq::new(keys@.len(), |i: int| menu_line(i as nat, keys@[i])),
            out@ == head + all.take(i as int),
        decreases keys.len() - i,
    {
        let k = &keys[i];
        let product = sanitize_terminal(k.product_name.as_str());
        let label = match &k.name {
            Some(n) => cat4(sanitize_terminal(n.as_str()).as_str(), "  (", product.as_str(), ")"),
            None => product,
        };
        out.say(
            cat6(
                "  ",
                dec_usize(i + 1).as_str(),
                ") ",
                pad_right(label.as_str(), 30, ' ').as_str(),
                " ",
                k.path.as_str(),
            ),
        );
        i = i + 1;
        assert(out@ =~= head + all.take(i as int));
    }
    assert(all.take(i as int) =~= all);
    let ghost body = out@;
    out.say(cat3("Select [1-", dec_usize(keys.len()).as_str(), "]: "));
    assert(out@ =~= body + seq!["Select [1-"@ + dec_text(keys@.len()) + "]: "@]);
    out
}

/// The paths of the keys.
pub open spec fn key_paths(keys: Seq<FidoKey>) -> Seq<Seq<char>> {
    keys.map_values(|k: FidoKey| k.path@)
}

/// Chooses one key when neither a path nor a name was given: a lone key is
/// used, and among several the user's choice, which `typed` holds; without a
/// terminal to ask on nothing is guessed.
pub fn pick_from_devices(keys: &Vec<FidoKey>, typed: Option<&str>, bootloader: Option<&str>) -> (r: Result<
    usize,
    String,
>)
    ensures
        if keys@.len() == 0 {
            r matches Err(e) && e@ == no_key_text(opt_str(bootloader))
        } else if keys@.len() == 1 {
            r == Ok::<usize, String>(0)
        } else {
            match typed {
                Some(line) => exists|t: Seq<char>| #[trigger]
                    trimmed_of(line@, t) && match (r, choice_spec(t, keys@.len())) {
                        (Ok(i), Ok(j)) => i == j && i < keys@.len(),
                        (Err(e), Err(m)) => e@ == m,
                        _ => false,
                    },
                None => r matches Err(e) && e@ == dec_text(keys@.len())
                    + " FIDO devices connected; pass --device or --path (or run in a terminal to choose): "@
                    + joined(key_paths(keys@), ", "@),
            }
        },
{
    if keys.len() == 0 {
        return Err(no_fido_device_error(bootloader));
    }
    if keys.len() == 1 {
        return Ok(0);
    }
    match typed {
        Some(line) => pick_device_interactively(line, keys.len()),
        None => {
            let mut paths: Vec<String> = Vec::new();
            let mut i: usize = 0;
            while i < keys.len()
                invariant
                    i <= keys.len(),
                    views(paths@) == key_paths(keys@).take(i as int),
                decreases keys.len() - i,
            {
                let p = keys[i].path.clone();
                proof {
                    lemma_views_push(paths@, p);
                }
                paths.push(p);
                i = i + 1;
                assert(views(paths@) =~= key_paths(keys@).take(i as int));
            }
            assert(views(paths@) =~= key_paths(keys@));
            Err(
                cat3(
                    dec_usize(keys.len()).as_str(),
                    " FIDO devices connected; pass --device or --path (or run in a terminal to choose): ",
                    join(&paths, ", ").as_str(),
                ),
            )
        },
    }
}

/// A command on friendly names.
#[derive(Debug)]
pub enum KeyNameCmd {
    /// Name a connected key.
    Add { name: String, path: Option<String> },
    /// List the names.
    List,
    /// Forget a name.
    Remove { name: String },
}

/// One operation of a plan.
#[derive(Clone, Copy, Debug, PartialEq, Eq, Structural)]
pub enum KeyNameOp {
    /// Refuse a name that cannot be one.
    ValidateName,
    /// List the connected FIDO keys.
    ListKeys,
    /// Load the file of names.
    Load,
    /// Find the key at the given path.
    FindPath,
    /// Choose a key.
    Pick,
    /// Read the serial of the key.
    ReadSerial,
    /// Put the name into the file's contents.
    Insert,
    /// Say what will be stored.
    Disclose,
    /// Write the file.
    Save,
    /// Show the names.
    Show,
    /// Take the name out and write the file if it was there.
    Remove,
}

/// What each command does, in order.
pub open spec fn key_name_plan(cmd: KeyNameCmd) -> Seq<KeyNameOp> {
    match cmd {
        KeyNameCmd::Add { path, .. } => seq![
            KeyNameOp::ValidateName,
            KeyNameOp::ListKeys,
            KeyNameOp::Load,
            if path is Some {
                KeyNameOp::FindPath
            } else {
                KeyNameOp::Pick
            },
            KeyNameOp::ReadSerial,
            KeyNameOp::Insert,
            KeyNameOp::Disclose,
            KeyNameOp::Save,
        ],
        KeyNameCmd::List => seq![KeyNameOp::Load, KeyNameOp::Show],
        KeyNameCmd::Remove { .. } => seq![KeyNameOp::Load, KeyNameOp::Remove],
    }
}

/// Plans a command on friendly names.
pub fn run_key_name(cmd: &KeyNameCmd) -> (r: Vec<KeyNameOp>)
    ensures
        r@ == key_name_plan(*cmd),
{
    let plan: Vec<KeyNameOp> = match cmd {
        KeyNameCmd::Add { path, .. } => {
            let find = if path.is_some() {
                KeyNameOp::FindPath
            } else {
                KeyNameOp::Pick
            };
            vec![
                KeyNameOp::ValidateName,
                KeyNameOp::ListKeys,
                KeyNameOp::Load,
                find,
                KeyNameOp::ReadSerial,
                KeyNameOp::Insert,
                KeyNameOp::Disclose,
                KeyNameOp::Save,
            ]
        },
        KeyNameCmd::List => vec![KeyNameOp::Load, KeyNameOp::Show],
        KeyNameCmd::Remove { .. } => vec![KeyNameOp::Load, KeyNameOp::Remove],
    };
    assert(plan@ =~= key_name_plan(*cmd));
    plan
}

/// A name is written down only after it was said what will be stored.
pub proof fn law_disclosure_before_saving(cmd: KeyNameCmd, i: int)
    requires
        0 <= i < key_name_plan(cmd).len(),
        key_name_plan(cmd)[i] == KeyNameOp::Save,
    ensures
        0 < i && key_name_plan(cmd)[i - 1] == KeyNameOp::Disclose,
{
}

/// The first key at a path.
pub open spec fn key_at(keys: Seq<FidoKey>, path: Seq<char>) -> Option<int>
    decreases keys.len(),
{
    if keys.len() == 0 {
        None
    } else {
        match key_at(keys.drop_last(), path) {
            Some(i) => Some(i),
            None => if keys.last().path@ == path {
                Some(keys.len() - 1)
            } else {
                None
            },
        }
    }
}

/// Finds the key at a path.
pub fn find_path(keys: &Vec<FidoKey>, path: &str) -> (r: Result<usize, String>)
    ensures
        match (r, key_at(keys@, path@)) {
            (Ok(i), Some(j)) => i == j && i < keys@.len(),
            (Err(e), None) => e@ == path@ + " is not a connected FIDO device"@,
            _ => false,
        },
{
    let mut i: usize = 0;
    assert(key_at(keys@.take(0), path@) is None);
    while i < keys.len()
        invariant
            i <= keys.len(),
            key_at(keys@.take(i as int), path@) is None,
        decreases keys.len() - i,
    {
        assert(keys@.take(i as int + 1).drop_last() =~= keys@.take(i as int));
        if str_eq(keys[i].path.as_str(), path) {
            proof {
                lemma_key_at_stays(keys@, path@, i as int + 1);
            }
            return Ok(i);
        }
        i = i + 1;
    }
    assert(keys@.take(i as int) =~= keys@);
    Err(cat2(path, " is not a connected FIDO device"))
}

proof fn lemma_key_at_stays(keys: Seq<FidoKey>, path: Seq<char>, k: int)
    requires
        0 <= k <= keys.len(),
        key_at(keys.take(k), path) is Some,
    ensures
        key_at(keys, path) == key_at(keys.take(k), path),
    decreases keys.len(),
{
    if k < keys.len() {
        let init = keys.drop_last();
        assert(init.take(k) =~= keys.take(k));
        lemma_key_at_stays(init, path, k);
    } else {
        assert(keys.take(k) =~= keys);
    }
}

/// What is said before a name is written down.
pub fn disclosure(name: &str, serial: &str, product: &str) -> (r: Lines)
    ensures
        r@ == seq![
            "Recording \""@ + clean(name@) + "\" \u{2192} serial "@ + clean(serial@) + " ("@ + clean(product@)
                + ")."@,
            "This saves the key's serial number to keys.json on this computer so the key can be recognized by name later — remove it any time with `keyroostctl key-name remove "@
                + name@ + "`."@,
        ],
{
    let mut out = Lines::new();
    out.say(
        cat7(
            "Recording \"",
            sanitize_terminal(name).as_str(),
            "\" \u{2192} serial ",
            sanitize_terminal(serial).as_str(),
            " (",
            sanitize_terminal(product).as_str(),
            ").",
        ),
    );
    out.say(
        cat3(
            "This saves the key's serial number to keys.json on this computer so the key can be recognized by name later — remove it any time with `keyroostctl key-name remove ",
            name,
            "`.",
        ),
    );
    assert(out@ =~= seq![out@[0], out@[1]]);
    out
}

/// A friendly name and the serial it stands for.
#[derive(Debug)]
pub struct NamedKey {
    /// The name.
    pub name: String,
    /// The serial.
    pub serial: String,
}

/// Whether a serial is among those connected.
pub open spec fn connected(serials: Seq<Option<String>>, serial: Seq<char>) -> bool {
    exists|i: int| 0 <= i < serials.len() && opt_view(#[trigger] serials[i]) == Some(serial)
}

fn is_connected(serials: &Vec<Option<String>>, serial: &str) -> (r: bool)
    ensures
        r == connected(serials@, serial@),
{
    let mut i: usize = 0;
    while i < serials.len()
        invariant
            i <= serials.len(),
            forall|k: int| 0 <= k < i ==> opt_view(#[trigger] serials@[k]) != Some(serial@),
        decreases serials.len() - i,
    {
        match &serials[i] {
            Some(s) => {
                if str_eq(s.as_str(), serial) {
                    assert(opt_view(serials@[i as int]) == Some(serial@));
                    return true;
                }
            },
            None => {},
        }
        i = i + 1;
    }
    false
}

/// The line of a name.
pub open spec fn named_line(k: NamedKey, serials: Seq<Option<String>>) -> Seq<char> {
    "  "@ + padded_right(clean(k.name@), 20, ' ') + " serial="@ + clean(k.serial@) + " ["@ + (if connected(
        serials,
        k.serial@,
    ) {
        "connected"@
    } else {
        "not connected"@
    }) + "]"@
}

/// The names, line by line, and whether each key is connected.
pub fn key_name_list(names: &Vec<NamedKey>, serials: &Vec<Option<String>>) -> (r: Lines)
    ensures
        r@ == (if names@.len() == 0 {
            seq!["(no named keys; add one with `keyroostctl key-name add <name>`)"@]
        } else {
            names@.map_values(|k: NamedKey| named_line(k, serials@))
        }),
{
    let mut out = Lines::new();
    if names.len() == 0 {
        out.put("(no named keys; add one with `keyroostctl key-name add <name>`)");
        assert(out@ =~= seq!["(no named keys; add one with `keyroostctl key-name add <name>`)"@]);
        return out;
    }
    let ghost all = names@.map_values(|k: NamedKey| named_line(k, serials@));
    let mut i: usize = 0;
    assert(out@ =~= all.take(0));
    while i < names.len()
        invariant
            i <= names.len(),
            all == names@.map_values(|k: NamedKey| named_line(k, serials@)),
            out@ == all.take(i as int),
        decreases names.len() - i,
    {
        let k = &names[i];
        let status = if is_connected(serials, k.serial.as_str()) {
            "connected"
        } else {
            "not connected"
        };
        out.say(
            cat7(
                "  ",
                pad_right(sanitize_terminal(k.name.as_str()).as_str(), 20, ' ').as_str(),
                " serial=",
                sanitize_terminal(k.serial.as_str()).as_str(),
                " [",
                status,
                "]",
            ),
        );
        i = i + 1;
        assert(out@ =~= all.take(i as int));
    }
    assert(all.take(i as int) =~= all);
    out
}

/// What became of a name to be forgotten.
pub fn key_name_remove(name: &str, was_there: bool) -> (r: String)
    ensures
        r@ == (if was_there {
            "Removed \""@ + name@ + "\"."@
        } else {
            "No key named \""@ + name@ + "\"."@
        }),
{
    if was_there {
        cat3("Removed \"", name, "\".")
    } else {
        cat3("No key named \"", name, "\".")
    }
}

/// The vendor that is recorded with a name; only one is told apart.
pub fn recorded_vendor(vendor_id: u16) -> (r: Option<&'static str>)
    ensures
        opt_str(r) == (if vendor_id == VID_YUBICO {
            Some("yubico"@)
        } else {
            None
        }),
{
    if vendor_id == VID_YUBICO {
        Some("yubico")
    } else {
        None
    }
}

/// USB vendor id of Yubico.
pub const VID_YUBICO: u16 = 0x1050;

/// What is said after the names were saved.
pub fn saved_line(path: &str) -> (r: String)
    ensures
        r@ == "Saved to "@ + path@,
{
    cat2("Saved to ", path)
}

/// A plan on friendly names does what its command is for: a name is recorded for
/// the key at the path where one was given and for a chosen key otherwise, shown,
/// or taken out.
pub proof fn law_key_name_plan_is_what_was_asked(cmd: KeyNameCmd, op: KeyNameOp)
    ensures
        key_name_plan(cmd).contains(op) <==> match op {
            KeyNameOp::Load => true,
            KeyNameOp::FindPath => cmd matches KeyNameCmd::Add { path, .. } && path is Some,
            KeyNameOp::Pick => cmd matches KeyNameCmd::Add { path, .. } && path is None,
            KeyNameOp::Show => cmd is List,
            KeyNameOp::Remove => cmd is Remove,
            _ => cmd is Add,
        },
{
    lemma_short_plan(key_name_plan(cmd), op);
}

/// When an operation on friendly names has its turn.
pub open spec fn key_name_turn(op: KeyNameOp) -> int {
    match op {
        KeyNameOp::ValidateName => 0,
        KeyNameOp::ListKeys => 1,
        KeyNameOp::Load => 2,
        KeyNameOp::FindPath => 3,
        KeyNameOp::Pick => 3,
        KeyNameOp::ReadSerial => 4,
        KeyNameOp::Insert => 5,
        KeyNameOp::Disclose => 6,
        _ => 7,
    }
}

/// The operations on friendly names keep their turns, and none is done twice.
pub proof fn law_key_name_plan_keeps_its_turns(cmd: KeyNameCmd, i: int, j: int)
    requires
        0 <= i < j < key_name_plan(cmd).len(),
    ensures
        key_name_turn(key_name_plan(cmd)[i]) < key_name_turn(key_name_plan(cmd)[j]),
{
}

/// The key at a path is the first one there, and none is found only where none is.
pub proof fn law_key_at_is_the_first_there(keys: Seq<FidoKey>, path: Seq<char>)
    ensures
        match key_at(keys, path) {
            Some(i) => 0 <= i < keys.len() && keys[i].path@ == path && forall|k: int|
                0 <= k < i ==> (#[trigger] keys[k]).path@ != path,
            None => forall|k: int| 0 <= k < keys.len() ==> (#[trigger] keys[k]).path@ != path,
        },
    decreases keys.len(),
{
    if keys.len() > 0 {
        let init = keys.drop_last();
        law_key_at_is_the_first_there(init, path);
        assert forall|k: int| 0 <= k < init.len() implies #[trigger] keys[k] == init[k] by {
        }
    }
}

/// A number that is written out is read back as it was, with a plus sign or
/// without.
pub proof fn law_written_number_is_read_back(n: nat)
    requires
        n <= usize::MAX,
    ensures
        number_spec(dec_text(n)) == Some(n),
        number_spec(seq!['+'] + dec_text(n)) == Some(n),
{
    lemma_decimal(n);
    assert((seq!['+'] + dec_text(n)).drop_first() =~= dec_text(n));
}

proof fn lemma_decimal(n: nat)
    ensures
        is_decimal(dec_text(n)),
        decimal_value(dec_text(n)) == n,
    decreases n,
{
    reveal_with_fuel(decimal_value, 2);
    if n >= 10 {
        lemma_decimal(n / 10);
        let t = dec_text(n);
        assert(t.drop_last() =~= dec_text(n / 10));
        assert forall|i: int| 0 <= i < t.len() implies '0' <= #[trigger] t[i] && t[i] <= '9' by {
            if i < t.len() - 1 {
                assert(t[i] == dec_text(n / 10)[i]);
            }
        }
    } else {
        assert(dec_text(n).drop_last() =~= Seq::empty());
    }
}

/// Among `n` keys the number of a key, counted from one, chooses that key; any
/// other number chooses none.
pub proof fn law_choice_counts_from_one(n: nat, typed: nat)
    requires
        typed <= usize::MAX,
    ensures
        1 <= typed <= n ==> choice_spec(dec_text(typed), n) == Ok::<nat, Seq<char>>((typed - 1) as nat),
        typed == 0 || typed > n ==> choice_spec(dec_text(typed), n) is Err,
{
    law_written_number_is_read_back(typed);
}

/// A menu counts its keys from one, names each by the name it was given or else by
/// its product, and ends each line with the key's path.
pub proof fn law_menu_line_ends_with_the_path(i: nat, k: FidoKey)
    ensures
        ({
            let t = menu_line(i, k);
            &&& has_run(t, dec_text(i + 1) + ") "@)
            &&& t.skip(t.len() - k.path@.len()) == k.path@
            &&& has_run(t, clean(k.product_name@))
            &&& k.name matches Some(n) ==> has_run(t, clean(n@))
        }),
{
    let t = menu_line(i, k);
    let product = clean(k.product_name@);
    let label = match k.name {
        Some(n) => clean(n@) + "  ("@ + product + ")"@,
        None => product,
    };
    let shown = padded_right(label, 30, ' ');
    lemma_padded_holds(label, 30);
    lemma_holds(t, "  "@, dec_text(i + 1) + ") "@, shown + " "@ + k.path@);
    assert(t.skip(t.len() - k.path@.len()) =~= k.path@);
    let before = "  "@ + dec_text(i + 1) + ") "@;
    if let Some(n) = k.name {
        lemma_holds(label, Seq::empty(), clean(n@), "  ("@ + product + ")"@);
        lemma_holds(label, clean(n@) + "  ("@, product, ")"@);
        lemma_padded_keeps(label, 30, clean(n@));
        lemma_holds_within(t, before, shown, " "@ + k.path@, clean(n@));
    }
    lemma_padded_keeps(label, 30, product);
    lemma_holds_within(t, before, shown, " "@ + k.path@, product);
}

proof fn lemma_padded_holds(s: Seq<char>, width: nat)
    ensures
        has_run(s, s),
        has_run(padded_right(s, width, ' '), s),
{
    let shown = padded_right(s, width, ' ');
    lemma_holds(s, Seq::empty(), s, Seq::empty());
    lemma_holds(shown, Seq::empty(), s, shown.skip(s.len() as int));
}

proof fn lemma_padded_keeps(s: Seq<char>, width: nat, inner: Seq<char>)
    requires
        has_run(s, inner),
    ensures
        has_run(padded_right(s, width, ' '), inner),
{
    let shown = padded_right(s, width, ' ');
    lemma_holds_within(shown, Seq::empty(), s, shown.skip(s.len() as int), inner);
}

/// A named key is shown with its serial, and as connected just where one of the
/// keys there has that serial.
pub proof fn law_named_key_is_connected_by_its_serial(k: NamedKey, serials: Seq<Option<String>>)
    ensures
        (exists|i: int| 0 <= i < serials.len() && opt_view(#[trigger] serials[i]) == Some(k.serial@)) ==> has_run(
            named_line(k, serials),
            " serial="@ + clean(k.serial@) + " [connected]"@,
        ),
        (forall|i: int| 0 <= i < serials.len() ==> opt_view(#[trigger] serials[i]) != Some(k.serial@)) ==> has_run(
            named_line(k, serials),
            " serial="@ + clean(k.serial@) + " [not connected]"@,
        ),
{
    reveal_strlit(" [");
    reveal_strlit("connected");
    reveal_strlit("not connected");
    reveal_strlit("]");
    reveal_strlit(" [connected]");
    reveal_strlit(" [not connected]");
    assert(" [connected]"@ =~= " ["@ + "connected"@ + "]"@);
    assert(" [not connected]"@ =~= " ["@ + "not connected"@ + "]"@);
    let state = if connected(serials, k.serial@) {
        " [connected]"@
    } else {
        " [not connected]"@
    };
    lemma_holds(
        named_line(k, serials),
        "  "@ + padded_right(clean(k.name@), 20, ' '),
        " serial="@ + clean(k.serial@) + state,
        Seq::empty(),
    );
}

/// The hint names the path that was given, or else the key that was named, or else
/// the only key there; it names none of several.
pub proof fn law_hint_names_the_target(
    path: Option<Seq<char>>,
    keys: Option<Seq<FidoKey>>,
    named: Option<Option<(Seq<char>, Seq<char>)>>,
)
    ensures
        path matches Some(p) ==> has_run(hint_text(path, keys, named), p),
        path is None && keys is Some ==> (named matches Some(Some(t)) ==> has_run(hint_text(path, keys, named), t.1)),
        path is None && named is None ==> (keys matches Some(list) ==> {
            &&& list.len() == 1 ==> has_run(hint_text(path, keys, named), list[0].path@)
            &&& list.len() > 1 ==> has_run(hint_text(path, keys, named), dec_text(list.len()))
        }),
        path is None && (keys is None || named == Some(None::<(Seq<char>, Seq<char>)>)) ==> hint_text(
            path,
            keys,
            named,
        ).len() == 0,
{
    let t = hint_text(path, keys, named);
    let none = Seq::<char>::empty();
    match path {
        Some(p) => lemma_holds(t, " — target: "@, p, none),
        None => if let Some(list) = keys {
            match named {
                Some(Some(n)) => lemma_holds(t, " — target: "@ + clean(n.0) + " at "@, n.1, none),
                Some(None) => {},
                None => if list.len() == 1 {
                    lemma_holds(t, " — target: "@ + clean(key_label(list[0])) + " at "@, list[0].path@, none);
                } else if list.len() > 1 {
                    lemma_holds(
                        t,
                        " — "@,
                        dec_text(list.len()),
                        " FIDO keys connected; pass --device or --path to choose"@,
                    );
                },
            }
        },
    }
}

} // verus!
