//! Choosing the one device a command acts on.
//!
//! The rule is the same everywhere: a lone device is used, a selector has to
//! match exactly one, and among several nothing is ever guessed.

use crate::device::Device;
use crate::sanitize::{clean, sanitize_terminal};
use crate::text::{
    cat2, cat3, cat4, cat5, chars_of, contains_text, dec_text, dec_usize, has_run, join, joined,
    lemma_views_push, opt_str, opt_view, run_at, str_eq, views,
};
use vstd::prelude::*;

verus! {

/// The positions of the `true` entries of `flags`, in increasing order.
pub open spec fn hits(flags: Seq<bool>) -> Seq<int>
    decreases flags.len(),
{
    if flags.len() == 0 {
        Seq::empty()
    } else if flags.last() {
        hits(flags.drop_last()).push(flags.len() - 1)
    } else {
        hits(flags.drop_last())
    }
}

/// The positions in `hits` are in range, set, in increasing order, and all
/// that are set.
pub proof fn lemma_hits(flags: Seq<bool>)
    ensures
        forall|k: int|
            0 <= k < hits(flags).len() ==> 0 <= #[trigger] hits(flags)[k] < flags.len()
                && flags[hits(flags)[k]],
        forall|j: int, k: int| 0 <= j < k < hits(flags).len() ==> hits(flags)[j] < hits(flags)[k],
        forall|i: int| 0 <= i < flags.len() && #[trigger] flags[i] ==> hits(flags).contains(i),
        hits(flags).len() <= flags.len(),
    decreases flags.len(),
{
    if flags.len() > 0 {
        let init = flags.drop_last();
        lemma_hits(init);
        assert forall|i: int| 0 <= i < flags.len() && #[trigger] flags[i] implies hits(flags).contains(
            i,
        ) by {
            if i < flags.len() - 1 {
                assert(init[i]);
                let k = choose|k: int| 0 <= k < hits(init).len() && hits(init)[k] == i;
                assert(hits(flags)[k] == i);
            } else {
                assert(hits(flags)[hits(flags).len() - 1] == i);
            }
        }
    }
}

/// The positions of the `true` entries of `flags`.
pub fn hits_of(flags: &Vec<bool>) -> (r: Vec<usize>)
    ensures
        r@.map_values(|i: usize| i as int) == hits(flags@),
        forall|k: int| 0 <= k < r.len() ==> (#[trigger] r@[k]) < flags.len(),
{
    let mut r: Vec<usize> = Vec::new();
    let mut i: usize = 0;
    while i < flags.len()
        invariant
            i <= flags.len(),
            r@.map_values(|i: usize| i as int) == hits(flags@.take(i as int)),
            forall|k: int| 0 <= k < r.len() ==> (#[trigger] r@[k]) < flags.len(),
        decreases flags.len() - i,
    {
        let ghost before = r@;
        if flags[i] {
            r.push(i);
            assert(r@.map_values(|i: usize| i as int) =~= before.map_values(|i: usize| i as int).push(
                i as int,
            ));
        }
        i = i + 1;
        assert(flags@.take(i as int).drop_last() =~= flags@.take(i as int - 1));
    }
    assert(flags@.take(i as int) =~= flags@);
    r
}

/// Whether the user gave `d` the name `name`.
pub open spec fn is_named(d: Device, name: Seq<char>) -> bool {
    opt_view(d.name) == Some(name)
}

/// Whether the user gave `d` the name `name`.
pub fn has_name(d: &Device, name: &str) -> (r: bool)
    ensures
        r == is_named(*d, name@),
{
    match &d.name {
        Some(n) => str_eq(n.as_str(), name),
        None => false,
    }
}

/// For each device, whether it carries `name`.
pub open spec fn name_flags(devices: Seq<Device>, name: Seq<char>) -> Seq<bool> {
    devices.map_values(|d: Device| is_named(d, name))
}

fn name_flags_of(devices: &[Device], name: &str) -> (r: Vec<bool>)
    ensures
        r@ == name_flags(devices@, name@),
{
    let mut r: Vec<bool> = Vec::new();
    let mut i: usize = 0;
    while i < devices.len()
        invariant
            i <= devices.len(),
            r@ == name_flags(devices@, name@).take(i as int),
        decreases devices.len() - i,
    {
        r.push(has_name(&devices[i], name));
        i = i + 1;
        assert(r@ =~= name_flags(devices@, name@).take(i as int));
    }
    assert(r@ =~= name_flags(devices@, name@));
    r
}

/// The reader of the one device named `name`, or why there is none.
pub open spec fn reader_for_name_spec(devices: Seq<Device>, name: Seq<char>) -> Result<Seq<char>, Seq<char>> {
    let found = hits(name_flags(devices, name));
    if found.len() == 0 {
        Err("no connected device is named '"@ + name + "' (see `keyroostctl key-name list`)"@)
    } else if found.len() > 1 {
        Err(
            dec_text(found.len()) + " connected devices are named '"@ + name
                + "'; refusing to guess which one"@,
        )
    } else {
        match opt_view(devices[found[0]].reader) {
            Some(r) => Ok(r),
            None => Err("device '"@ + name + "' has no smart-card (PC/SC) interface for this command"@),
        }
    }
}

/// What a result over owned text holds.
pub open spec fn text_result(r: Result<String, String>) -> Result<Seq<char>, Seq<char>> {
    match r {
        Ok(s) => Ok(s@),
        Err(e) => Err(e@),
    }
}

/// Finds the PC/SC reader of the connected device named `name`. Fails when no
/// device or more than one carries the name, or when the device has no reader.
pub fn reader_for_name(devices: &[Device], name: &str) -> (r: Result<String, String>)
    ensures
        text_result(r) == reader_for_name_spec(devices@, name@),
{
    let flags = name_flags_of(devices, name);
    let found = hits_of(&flags);
    let ghost idx = found@.map_values(|i: usize| i as int);
    assert(idx.len() == found.len());
    if found.len() == 0 {
        return Err(cat3("no connected device is named '", name, "' (see `keyroostctl key-name list`)"));
    }
    if found.len() > 1 {
        return Err(
            cat4(
                dec_usize(found.len()).as_str(),
                " connected devices are named '",
                name,
                "'; refusing to guess which one",
            ),
        );
    }
    assert(idx[0] == found@[0]);
    match &devices[found[0]].reader {
        Some(r) => Ok(r.clone()),
        None => Err(cat3("device '", name, "' has no smart-card (PC/SC) interface for this command")),
    }
}

/// The reader that the `--device` selector stands for; none was given, none is
/// looked for.
pub fn reader_from_name(devices: &[Device], name: Option<&str>) -> (r: Result<Option<String>, String>)
    ensures
        match (r, name) {
            (Ok(None), None) => true,
            (Ok(Some(s)), Some(n)) => reader_for_name_spec(devices@, n@) == Ok::<Seq<char>, Seq<char>>(s@),
            (Err(e), Some(n)) => reader_for_name_spec(devices@, n@) == Err::<Seq<char>, Seq<char>>(e@),
            _ => false,
        },
{
    match name {
        None => Ok(None),
        Some(n) => match reader_for_name(devices, n) {
            Ok(s) => Ok(Some(s)),
            Err(e) => Err(e),
        },
    }
}

/// The one device a whole-device operation acts on: its position, or why there
/// is none.
pub open spec fn single_device_spec(devices: Seq<Device>, name: Option<Seq<char>>) -> Result<int, Seq<char>> {
    match name {
        Some(n) => {
            let found = hits(name_flags(devices, n));
            if found.len() == 0 {
                Err("no connected device is named '"@ + n + "' (see `keyroostctl key-name list`)"@)
            } else if found.len() == 1 {
                Ok(found[0])
            } else {
                Err(
                    dec_text(found.len()) + " connected devices are named '"@ + n
                        + "'; refusing to guess which key to factory-reset"@,
                )
            }
        },
        None => if devices.len() == 0 {
            Err("no security key detected"@)
        } else if devices.len() == 1 {
            Ok(0)
        } else {
            Err(
                dec_text(devices.len())
                    + " keys are connected; select one with `--device <name>` before factory-resetting"@,
            )
        },
    }
}

/// Finds the position of exactly one device: the one carrying the selector's
/// name, or the lone connected one when there is no selector.
pub fn single_device_index(devices: &[Device], name: Option<&str>) -> (r: Result<usize, String>)
    ensures
        match (r, single_device_spec(devices@, opt_str(name))) {
            (Ok(d), Ok(i)) => d == i && d < devices@.len(),
            (Err(e), Err(m)) => e@ == m,
            _ => false,
        },
{
    match name {
        Some(n) => {
            let flags = name_flags_of(devices, n);
            let found = hits_of(&flags);
            let ghost idx = found@.map_values(|i: usize| i as int);
            assert(idx.len() == found.len());
            if found.len() == 0 {
                Err(cat3("no connected device is named '", n, "' (see `keyroostctl key-name list`)"))
            } else if found.len() == 1 {
                assert(idx[0] == found@[0]);
                Ok(found[0])
            } else {
                Err(
                    cat4(
                        dec_usize(found.len()).as_str(),
                        " connected devices are named '",
                        n,
                        "'; refusing to guess which key to factory-reset",
                    ),
                )
            }
        },
        None => if devices.len() == 0 {
            Err("no security key detected".to_owned())
        } else if devices.len() == 1 {
            Ok(0)
        } else {
            Err(
                cat2(
                    dec_usize(devices.len()).as_str(),
                    " keys are connected; select one with `--device <name>` before factory-resetting",
                ),
            )
        },
    }
}

/// Resolves exactly one device: the one carrying the selector's name, or the
/// lone connected one when there is no selector.
pub fn resolve_single_device<'a>(devices: &'a [Device], name: Option<&str>) -> (r: Result<
    &'a Device,
    String,
>)
    ensures
        match (r, single_device_spec(devices@, opt_str(name))) {
            (Ok(d), Ok(i)) => 0 <= i < devices@.len() && *d == devices@[i],
            (Err(e), Err(m)) => e@ == m,
            _ => false,
        },
{
    match single_device_index(devices, name) {
        Ok(i) => Ok(&devices[i]),
        Err(e) => Err(e),
    }
}

/// Why `--reader` and `--device` cannot be given together.
pub const READER_DEVICE_CONFLICT: &'static str = "pass either --reader or --device, not both (they may name different keys, and this wipes the one you didn't mean to)";

/// A wipe must not be given a reader and a device at once: the two may name
/// different keys.
pub fn reader_device_conflict(reader: Option<&str>, device_name: Option<&str>) -> (r: Result<(), String>)
    ensures
        r is Err <==> reader is Some && device_name is Some,
        r matches Err(e) ==> e@ == READER_DEVICE_CONFLICT@,
{
    if reader.is_some() && device_name.is_some() {
        return Err(READER_DEVICE_CONFLICT.to_owned());
    }
    Ok(())
}

/// `c`, an upper-case ASCII letter turned into its lower-case one.
pub open spec fn ascii_lower_char(c: char) -> char {
    if 'A' <= c && c <= 'Z' {
        ((c as u32) + 32) as char
    } else {
        c
    }
}

/// `s` with its ASCII letters in lower case.
pub open spec fn ascii_lower(s: Seq<char>) -> Seq<char> {
    s.map_values(|c: char| ascii_lower_char(c))
}

/// `s` with its ASCII letters in lower case.
pub fn to_ascii_lower(s: &str) -> (r: String)
    ensures
        r@ == ascii_lower(s@),
{
    let chars = chars_of(s);
    let mut r = String::new();
    let mut i: usize = 0;
    while i < chars.len()
        invariant
            i <= chars.len(),
            chars@ == s@,
            r@ == ascii_lower(s@).take(i as int),
        decreases chars.len() - i,
    {
        let c = chars[i];
        let low = if 'A' <= c && c <= 'Z' {
            ((c as u8) + 32) as char
        } else {
            c
        };
        r.push(low);
        i = i + 1;
        assert(r@ =~= ascii_lower(s@).take(i as int));
    }
    assert(r@ =~= ascii_lower(s@));
    r
}

/// Whether a reader's name holds `part`, letters compared without case.
pub open spec fn reader_matches(reader: Seq<char>, part: Seq<char>) -> bool {
    has_run(ascii_lower(reader), ascii_lower(part))
}

/// For each reader, whether its name holds `part`.
pub open spec fn reader_flags(readers: Seq<Seq<char>>, part: Seq<char>) -> Seq<bool> {
    readers.map_values(|r: Seq<char>| reader_matches(r, part))
}

/// The elements of `list` at the positions in `at`.
pub open spec fn picked(list: Seq<Seq<char>>, at: Seq<int>) -> Seq<Seq<char>> {
    at.map_values(|i: int| list[i])
}

/// The one reader to use, or why none can be chosen.
pub open spec fn resolve_reader_spec(
    readers: Seq<Seq<char>>,
    explicit: Option<Seq<char>>,
    kind: Seq<char>,
) -> Result<Seq<char>, Seq<char>> {
    if readers.len() == 0 {
        Err(
            "no "@ + kind + "-capable security key found (no reader's "@ + kind
                + " applet responded). Plug a key in, and check the smart-card (PC/SC) service is running."@,
        )
    } else {
        match explicit {
            Some(part) => {
                let found = hits(reader_flags(readers, part));
                if found.len() == 1 {
                    Ok(readers[found[0]])
                } else if found.len() == 0 {
                    Err(
                        "no "@ + kind + " reader matches '"@ + part + "'. Connected "@ + kind + " readers: "@
                            + joined(readers, "; "@),
                    )
                } else {
                    Err(
                        "'"@ + part + "' matches several readers; be more specific: "@ + joined(
                            picked(readers, found),
                            "; "@,
                        ),
                    )
                }
            },
            None => if readers.len() == 1 {
                Ok(readers[0])
            } else {
                Err(
                    dec_text(readers.len()) + " "@ + kind
                        + " keys connected; pass --reader <substring>: "@ + joined(readers, "; "@),
                )
            },
        }
    }
}

/// Picks one reader: a lone one is used, an explicit substring has to match
/// exactly one, and among several nothing is guessed. `kind` names the applet
/// in the messages.
pub fn resolve_reader(readers: Vec<String>, explicit: Option<&str>, kind: &str) -> (r: Result<
    String,
    String,
>)
    ensures
        text_result(r) == resolve_reader_spec(views(readers@), opt_str(explicit), kind@),
{
    let ghost names = views(readers@);
    assert(names.len() == readers.len());
    if readers.len() == 0 {
        return Err(
            cat5(
                "no ",
                kind,
                "-capable security key found (no reader's ",
                kind,
                " applet responded). Plug a key in, and check the smart-card (PC/SC) service is running.",
            ),
        );
    }
    match explicit {
        Some(part) => {
            let needle = to_ascii_lower(part);
            let mut flags: Vec<bool> = Vec::new();
            let mut i: usize = 0;
            while i < readers.len()
                invariant
                    i <= readers.len(),
                    names == views(readers@),
                    needle@ == ascii_lower(part@),
                    flags@ == reader_flags(names, part@).take(i as int),
                decreases readers.len() - i,
            {
                let low = to_ascii_lower(readers[i].as_str());
                flags.push(contains_text(low.as_str(), needle.as_str()));
                i = i + 1;
                assert(flags@ =~= reader_flags(names, part@).take(i as int));
            }
            assert(flags@ =~= reader_flags(names, part@));
            let found = hits_of(&flags);
            let ghost idx = found@.map_values(|i: usize| i as int);
            assert(idx.len() == found.len());
            if found.len() == 1 {
                assert(idx[0] == found@[0]);
                return Ok(readers[found[0]].clone());
            }
            if found.len() == 0 {
                let list = join(&readers, "; ");
                let head = cat5("no ", kind, " reader matches '", part, "'. Connected ");
                return Err(cat4(head.as_str(), kind, " readers: ", list.as_str()));
            }
            let mut matching: Vec<String> = Vec::new();
            let mut k: usize = 0;
            while k < found.len()
                invariant
                    k <= found.len(),
                    flags.len() == readers.len(),
                    forall|k: int| 0 <= k < found.len() ==> (#[trigger] found@[k]) < flags.len(),
                    names == views(readers@),
                    idx == found@.map_values(|i: usize| i as int),
                    views(matching@) == picked(names, idx).take(k as int),
                decreases found.len() - k,
            {
                let s = readers[found[k]].clone();
                proof {
                    lemma_views_push(matching@, s);
                    assert(s@ == picked(names, idx)[k as int]);
                }
                matching.push(s);
                k = k + 1;
                assert(views(matching@) =~= picked(names, idx).take(k as int));
            }
            assert(views(matching@) =~= picked(names, idx));
            let list = join(&matching, "; ");
            Err(cat4("'", part, "' matches several readers; be more specific: ", list.as_str()))
        },
        None => {
            if readers.len() == 1 {
                return Ok(readers[0].clone());
            }
            let list = join(&readers, "; ");
            Err(
                cat5(
                    dec_usize(readers.len()).as_str(),
                    " ",
                    kind,
                    " keys connected; pass --reader <substring>: ",
                    list.as_str(),
                ),
            )
        },
    }
}

/// The selector that counts: the reader that was named, else the one of the
/// device that was named.
pub open spec fn selector(explicit: Option<Seq<char>>, by_name: Option<Seq<char>>) -> Option<Seq<char>> {
    match explicit {
        Some(e) => Some(e),
        None => by_name,
    }
}

/// Picks the reader a command opens: an explicit reader goes before the one of
/// the named device.
pub fn reader_to_open(
    readers: Vec<String>,
    explicit: Option<&str>,
    by_name: Option<&str>,
    kind: &str,
) -> (r: Result<String, String>)
    ensures
        text_result(r) == resolve_reader_spec(
            views(readers@),
            selector(opt_str(explicit), opt_str(by_name)),
            kind@,
        ),
{
    let part = match explicit {
        Some(e) => Some(e),
        None => by_name,
    };
    resolve_reader(readers, part, kind)
}

/// Tells which applet is used on which reader.
pub fn announce_reader(applet: &str, reader: &str) -> (r: String)
    ensures
        r@ == "\u{2192} "@ + applet@ + " on "@ + clean(reader@),
{
    let shown = sanitize_terminal(reader);
    cat4("\u{2192} ", applet, " on ", shown.as_str())
}

/// A name selects a reader only where exactly one device carries it, and then
/// it is that device's reader.
pub proof fn law_named_reader_is_unambiguous(devices: Seq<Device>, name: Seq<char>)
    requires
        reader_for_name_spec(devices, name) is Ok,
    ensures
        exists|i: int|
            0 <= i < devices.len() && is_named(#[trigger] devices[i], name) && opt_view(devices[i].reader) == Some(
                reader_for_name_spec(devices, name)->Ok_0,
            ) && (forall|k: int| 0 <= k < devices.len() && is_named(#[trigger] devices[k], name) ==> k == i),
{
    let flags = name_flags(devices, name);
    lemma_hits(flags);
    let i = hits(flags)[0];
    assert(flags[i]);
    assert(is_named(devices[i], name));
    assert forall|k: int| 0 <= k < devices.len() && is_named(#[trigger] devices[k], name) implies k == i by {
        assert(flags[k]);
        assert(hits(flags).contains(k));
    }
}

/// A name that two devices carry selects none of them.
pub proof fn law_shared_name_selects_nothing(devices: Seq<Device>, name: Seq<char>, i: int, j: int)
    requires
        0 <= i < j < devices.len(),
        is_named(devices[i], name),
        is_named(devices[j], name),
    ensures
        reader_for_name_spec(devices, name) is Err,
        single_device_spec(devices, Some(name)) is Err,
{
    let flags = name_flags(devices, name);
    lemma_hits(flags);
    assert(flags[i] && flags[j]);
    assert(hits(flags).contains(i) && hits(flags).contains(j));
}

/// The reader that is picked is a connected one; with a selector it is the only
/// one that matches it, without one it is the only one there is.
pub proof fn law_reader_is_never_guessed(readers: Seq<Seq<char>>, explicit: Option<Seq<char>>, kind: Seq<char>)
    requires
        resolve_reader_spec(readers, explicit, kind) is Ok,
    ensures
        exists|i: int|
            0 <= i < readers.len() && #[trigger] readers[i] == resolve_reader_spec(readers, explicit, kind)->Ok_0
                && match explicit {
                Some(part) => reader_matches(readers[i], part) && (forall|k: int|
                    0 <= k < readers.len() && reader_matches(#[trigger] readers[k], part) ==> k == i),
                None => readers.len() == 1,
            },
{
    match explicit {
        Some(part) => {
            let flags = reader_flags(readers, part);
            lemma_hits(flags);
            let i = hits(flags)[0];
            assert(flags[i]);
            assert(reader_matches(readers[i], part));
            assert forall|k: int| 0 <= k < readers.len() && reader_matches(#[trigger] readers[k], part) implies k
                == i by {
                assert(flags[k]);
                assert(hits(flags).contains(k));
            }
        },
        None => {
            assert(readers[0] == resolve_reader_spec(readers, explicit, kind)->Ok_0);
        },
    }
}

/// The flags that are set are found one by one, in order.
pub proof fn law_hits_grow_with_the_flags(flags: Seq<bool>, flag: bool)
    ensures
        hits(Seq::<bool>::empty()).len() == 0,
        hits(flags.push(flag)) == (if flag {
            hits(flags).push(flags.len() as int)
        } else {
            hits(flags)
        }),
{
    assert(flags.push(flag).drop_last() =~= flags);
}

/// Where exactly one device carries the name, it is the one that is meant, and its
/// reader is picked if it has one; without a name, the only device is meant.
pub proof fn law_the_one_device_is_meant(devices: Seq<Device>, name: Seq<char>, i: int)
    ensures
        0 <= i < devices.len() && (forall|k: int|
            0 <= k < devices.len() ==> (is_named(#[trigger] devices[k], name) <==> k == i)) ==> {
            &&& single_device_spec(devices, Some(name)) == Ok::<int, Seq<char>>(i)
            &&& reader_for_name_spec(devices, name) is Ok <==> devices[i].reader is Some
            &&& devices[i].reader matches Some(r) ==> reader_for_name_spec(devices, name) == Ok::<
                Seq<char>,
                Seq<char>,
            >(r@)
        },
        single_device_spec(devices, Some(name)) == Ok::<int, Seq<char>>(i) ==> 0 <= i < devices.len() && (forall|
            k: int,
        |
            0 <= k < devices.len() ==> (is_named(#[trigger] devices[k], name) <==> k == i)),
        single_device_spec(devices, None) == Ok::<int, Seq<char>>(i) <==> devices.len() == 1 && i == 0,
{
    let flags = name_flags(devices, name);
    lemma_hits(flags);
    let found = hits(flags);
    if 0 <= i < devices.len() && (forall|k: int|
        0 <= k < devices.len() ==> (is_named(#[trigger] devices[k], name) <==> k == i)) {
        assert(is_named(devices[i], name));
        assert(flags[i]);
        assert(found.contains(i));
        assert forall|a: int| 0 <= a < found.len() implies found[a] == i by {
            assert(flags[found[a]]);
            assert(is_named(devices[found[a]], name));
        }
        if found.len() > 1 {
            assert(found[0] == i && found[1] == i);
        }
    }
    if single_device_spec(devices, Some(name)) == Ok::<int, Seq<char>>(i) {
        assert(found[0] == i && flags[i]);
        assert forall|k: int| 0 <= k < devices.len() implies (is_named(#[trigger] devices[k], name) <==> k == i) by {
            if is_named(devices[k], name) {
                assert(flags[k]);
                assert(found.contains(k));
            }
        }
    }
}

/// The only reader that matches a selector is picked, and so is the only reader
/// there is where nothing was selected.
pub proof fn law_the_one_reader_is_picked(readers: Seq<Seq<char>>, part: Seq<char>, kind: Seq<char>, i: int)
    requires
        0 <= i < readers.len(),
    ensures
        (forall|k: int| 0 <= k < readers.len() ==> (reader_matches(#[trigger] readers[k], part) <==> k == i))
            ==> resolve_reader_spec(readers, Some(part), kind) == Ok::<Seq<char>, Seq<char>>(readers[i]),
        readers.len() == 1 ==> resolve_reader_spec(readers, None, kind) == Ok::<Seq<char>, Seq<char>>(readers[0]),
{
    let flags = reader_flags(readers, part);
    lemma_hits(flags);
    let found = hits(flags);
    if forall|k: int| 0 <= k < readers.len() ==> (reader_matches(#[trigger] readers[k], part) <==> k == i) {
        assert(reader_matches(readers[i], part));
        assert(flags[i]);
        assert(found.contains(i));
        assert forall|a: int| 0 <= a < found.len() implies found[a] == i by {
            assert(flags[found[a]]);
            assert(reader_matches(readers[found[a]], part));
        }
        if found.len() > 1 {
            assert(found[0] == i && found[1] == i);
        }
    }
}

/// A reader matches any part of its name, and the case of ASCII letters does not
/// matter on either side.
pub proof fn law_readers_match_whatever_the_case(reader: Seq<char>, part: Seq<char>, i: int)
    ensures
        0 <= i && i + part.len() <= reader.len() && reader.subrange(i, i + part.len()) == part ==> reader_matches(
            reader,
            part,
        ),
        reader_matches(ascii_lower(reader), part) == reader_matches(reader, part),
        reader_matches(reader, ascii_lower(part)) == reader_matches(reader, part),
{
    assert(ascii_lower(ascii_lower(reader)) =~= ascii_lower(reader));
    assert(ascii_lower(ascii_lower(part)) =~= ascii_lower(part));
    if 0 <= i && i + part.len() <= reader.len() && reader.subrange(i, i + part.len()) == part {
        assert(ascii_lower(reader).subrange(i, i + part.len()) =~= ascii_lower(reader.subrange(i, i + part.len())));
        assert(run_at(ascii_lower(reader), ascii_lower(part), i));
    }
}

/// Letters are lowered one by one, `A` to `Z` to `a` to `z`, and nothing else
/// changes.
pub proof fn law_only_capital_letters_are_lowered(c: char)
    ensures
        'A' <= c && c <= 'Z' ==> ascii_lower_char(c) as u32 - c as u32 == 'a' as u32 - 'A' as u32,
        !('A' <= c && c <= 'Z') ==> ascii_lower_char(c) == c,
{
}

/// A reader that was named goes before the one of a named device.
pub proof fn law_named_reader_goes_first(explicit: Option<Seq<char>>, by_name: Option<Seq<char>>)
    ensures
        explicit is Some ==> selector(explicit, by_name) == explicit,
        explicit is None ==> selector(explicit, by_name) == by_name,
{
}

} // verus!
