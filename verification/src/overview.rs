//! Which part of the program a command line goes to, the overview, and the
//! listings of what is connected.

use crate::device::{Device, DeviceKind};
use crate::factory_reset::clone_opt;
use crate::json_out::DeviceJson;
use crate::plan::lemma_short_plan;
use crate::sanitize::{clean, sanitize_terminal};
use crate::select::to_ascii_lower;
use crate::select::ascii_lower;
use crate::text::{
    cat2, cat3, cat4, cat5, cat7, contains_text, dec_text, dec_usize, has_run, hex_nat, hex_padded, join_strs,
    joined, lemma_holds, lemma_holds_part, opt_str, opt_view, padded_left, str_views, Lines,
};
use vstd::prelude::*;

verus! {

/// The command groups.
#[derive(Clone, Copy, Debug, PartialEq, Eq, Structural)]
pub enum Cmd {
    /// Shell completions.
    Completions,
    /// Manual pages.
    Manpage,
    /// Environment check.
    Doctor,
    /// Raw listing.
    List,
    /// Friendly names.
    KeyName,
    /// FIDO2.
    Fido,
    /// OATH.
    Oath,
    /// OpenPGP.
    Openpgp,
    /// PIV.
    Piv,
    /// Token2 OTP.
    Otp,
    /// Multi-profile tokens.
    Molto,
    /// Single-profile tokens.
    Prog,
    /// Whole-device wipe.
    FactoryReset,
    /// SSH agent.
    Agent,
}

/// Where a command line goes.
#[derive(Clone, Copy, Debug, PartialEq, Eq, Structural)]
pub enum Route {
    /// Print the reader names and stop.
    Readers,
    /// Print the overview in machine-readable form.
    OverviewJson,
    /// Print the overview.
    Overview,
    /// Run a command group.
    Group(Cmd),
}

/// Chooses where a command line goes: the reader listing comes before
/// everything, and without a command there is the overview.
pub fn run(list_readers: bool, command: Option<Cmd>, json: bool) -> (r: Route)
    ensures
        r == (if list_readers {
            Route::Readers
        } else {
            match command {
                Some(c) => Route::Group(c),
                None => if json {
                    Route::OverviewJson
                } else {
                    Route::Overview
                },
            }
        }),
{
    if list_readers {
        return Route::Readers;
    }
    match command {
        Some(c) => Route::Group(c),
        None => {
            if json_output(Some(json)) {
                Route::OverviewJson
            } else {
                Route::Overview
            }
        },
    }
}

/// Whether output is machine-readable: what was set, and not so where nothing
/// was.
pub fn json_output(set: Option<bool>) -> (r: bool)
    ensures
        r == (set == Some(true)),
{
    match set {
        Some(v) => v,
        None => false,
    }
}

/// How sure it is that an applet is there.
#[derive(Clone, Copy, Debug, PartialEq, Eq, Structural)]
pub enum CapState {
    /// It answered.
    Verified,
    /// It is offered without having been asked.
    Unverified,
}

/// Word for a kind of device.
pub open spec fn kind_text(k: DeviceKind) -> Seq<char> {
    match k {
        DeviceKind::Key => "key"@,
        DeviceKind::Token => "token"@,
        DeviceKind::ProgToken => "prog-token"@,
    }
}

/// The badges whose applet was not verified, in order.
pub open spec fn unverified(badges: Seq<(&'static str, CapState)>) -> Seq<Seq<char>>
    decreases badges.len(),
{
    if badges.len() == 0 {
        Seq::empty()
    } else if badges.last().1 == CapState::Unverified {
        unverified(badges.drop_last()).push(badges.last().0@)
    } else {
        unverified(badges.drop_last())
    }
}

/// A device in machine-readable form. `caps` are its badges, `badges` the same
/// with how sure each one is.
pub fn device_json(d: &Device, caps: Vec<&'static str>, badges: &Vec<(&'static str, CapState)>) -> (r:
    DeviceJson)
    ensures
        r.vendor@ == d.vendor@,
        r.model@ == d.model@,
        opt_view(r.name) == opt_view(d.name),
        r.serial@ == d.serial@,
        r.transport@ == d.transport@,
        r.kind@ == kind_text(d.kind),
        r.caps@ == caps@,
        str_views(r.caps_unverified@) == unverified(badges@),
{
    let mut doubtful: Vec<&'static str> = Vec::new();
    let mut i: usize = 0;
    assert(str_views(doubtful@) =~= unverified(badges@.take(0)));
    while i < badges.len()
        invariant
            i <= badges.len(),
            str_views(doubtful@) == unverified(badges@.take(i as int)),
        decreases badges.len() - i,
    {
        assert(badges@.take(i as int + 1).drop_last() =~= badges@.take(i as int));
        match badges[i].1 {
            CapState::Unverified => {
                let ghost before = doubtful@;
                doubtful.push(badges[i].0);
                assert(str_views(doubtful@) =~= str_views(before).push(badges@[i as int].0@));
            },
            CapState::Verified => {},
        }
        i = i + 1;
    }
    assert(badges@.take(i as int) =~= badges@);
    DeviceJson {
        vendor: d.vendor.clone(),
        model: d.model.clone(),
        name: clone_opt(&d.name),
        serial: d.serial.clone(),
        transport: d.transport.clone(),
        kind: match d.kind {
            DeviceKind::Key => "key",
            DeviceKind::Token => "token",
            DeviceKind::ProgToken => "prog-token",
        },
        caps,
        caps_unverified: doubtful,
    }
}

/// What was found on one reader.
#[derive(Debug)]
pub struct ReaderProbe {
    /// Name of the reader.
    pub reader_name: String,
    /// Whether it is a multi-profile token.
    pub is_molto2: bool,
    /// Whether the OATH applet answered.
    pub has_oath: bool,
    /// Whether the OpenPGP applet answered.
    pub has_openpgp: bool,
    /// Whether the PIV applet answered.
    pub has_piv: bool,
}

/// One HID node, as the listing shows it.
#[derive(Debug)]
pub struct HidRow {
    /// Path of the node.
    pub path: String,
    /// USB vendor id.
    pub vendor_id: u16,
    /// USB product id.
    pub product_id: u16,
    /// HID usage page.
    pub usage_page: u16,
    /// HID usage.
    pub usage: u16,
    /// USB product string.
    pub product_name: String,
    /// Model label of the vendor's own product ids, if it is one.
    pub model_label: Option<String>,
    /// USB serial number.
    pub serial_number: Option<String>,
    /// Serial number read through the card interface.
    pub ccid_serial: Option<String>,
    /// Friendly name of that serial.
    pub name: Option<String>,
    /// Whether it speaks FIDO.
    pub fido: bool,
    /// Whether it is in bootloader mode.
    pub bootloader: bool,
}

/// The serial number a node goes by: that of its USB descriptor, or else the one
/// read through the card interface.
pub fn effective_serial(usb: &Option<String>, ccid: &Option<String>) -> (r: Option<String>)
    ensures
        opt_view(r) == (if usb is Some {
            opt_view(*usb)
        } else {
            opt_view(*ccid)
        }),
{
    match usb {
        Some(s) => Some(s.clone()),
        None => clone_opt(ccid),
    }
}

/// The model label of a node: `label`, which the vendor `labelled` gives to the
/// product id, only where the node is of that vendor.
pub fn model_label(vendor_id: u16, labelled: u16, label: Option<&str>) -> (r: Option<String>)
    ensures
        opt_view(r) == (if vendor_id == labelled {
            opt_str(label)
        } else {
            None
        }),
{
    if vendor_id != labelled {
        return None;
    }
    match label {
        Some(l) => Some(l.to_owned()),
        None => None,
    }
}

/// The applets found on a reader.
pub open spec fn applets(p: ReaderProbe) -> Seq<Seq<char>> {
    (if p.has_oath {
        seq!["OATH"@]
    } else {
        Seq::empty()
    }) + (if p.has_openpgp {
        seq!["OpenPGP"@]
    } else {
        Seq::empty()
    }) + (if p.has_piv {
        seq!["PIV"@]
    } else {
        Seq::empty()
    })
}

/// The line of one reader.
pub open spec fn probe_line(p: ReaderProbe) -> Seq<char> {
    if p.is_molto2 {
        "  "@ + clean(p.reader_name@) + "  [Molto2 token]"@
    } else {
        "  "@ + clean(p.reader_name@) + "  ->  "@ + (if applets(p).len() == 0 {
            "(none detected)"@
        } else {
            joined(applets(p), ", "@)
        })
    }
}

fn probe_line_of(p: &ReaderProbe) -> (r: String)
    ensures
        r@ == probe_line(*p),
{
    let name = sanitize_terminal(p.reader_name.as_str());
    if p.is_molto2 {
        return cat3("  ", name.as_str(), "  [Molto2 token]");
    }
    let mut found: Vec<&'static str> = Vec::new();
    if p.has_oath {
        found.push("OATH");
    }
    if p.has_openpgp {
        found.push("OpenPGP");
    }
    if p.has_piv {
        found.push("PIV");
    }
    assert(str_views(found@) =~= applets(*p));
    let list = if found.len() == 0 {
        "(none detected)".to_owned()
    } else {
        join_strs(&found, ", ")
    };
    cat4("  ", name.as_str(), "  ->  ", list.as_str())
}

/// Four hexadecimal digits.
pub open spec fn hex4(n: u16) -> Seq<char> {
    padded_left(hex_nat(n as nat, false), 4, '0')
}

/// The serial of a node, with where it was read.
pub open spec fn serial_text(d: HidRow) -> Seq<char> {
    match (d.serial_number, d.ccid_serial) {
        (Some(s), _) => " serial="@ + clean(s@),
        (None, Some(s)) => " serial="@ + clean(s@) + "(ccid)"@,
        (None, None) => Seq::empty(),
    }
}

/// The tag at the end of a node's line.
pub open spec fn tag_text(d: HidRow) -> Seq<char> {
    if d.fido {
        " [FIDO]"@
    } else if d.bootloader {
        " [bootloader]"@
    } else {
        ""@
    }
}

/// The model of a node.
pub open spec fn model_text(d: HidRow) -> Seq<char> {
    match d.model_label {
        Some(l) => clean(d.product_name@) + " ["@ + l@ + "]"@,
        None => clean(d.product_name@),
    }
}

/// The friendly name of a node.
pub open spec fn name_text(d: HidRow) -> Seq<char> {
    match d.name {
        Some(n) => " name="@ + clean(n@),
        None => Seq::empty(),
    }
}

/// The line of one node.
pub open spec fn hid_line(d: HidRow) -> Seq<char> {
    "  "@ + d.path@ + " "@ + hex4(d.vendor_id) + ":"@ + hex4(d.product_id) + " usage="@ + (hex4(d.usage_page)
        + ":"@ + hex4(d.usage) + " "@ + model_text(d) + serial_text(d) + name_text(d)) + tag_text(d)
}

fn hid_line_of(d: &HidRow) -> (r: String)
    ensures
        r@ == hid_line(*d),
{
    let product = sanitize_terminal(d.product_name.as_str());
    let model = match &d.model_label {
        Some(l) => cat4(product.as_str(), " [", l.as_str(), "]"),
        None => product,
    };
    let serial = match (&d.serial_number, &d.ccid_serial) {
        (Some(s), _) => cat2(" serial=", sanitize_terminal(s.as_str()).as_str()),
        (None, Some(s)) => cat3(" serial=", sanitize_terminal(s.as_str()).as_str(), "(ccid)"),
        (None, None) => String::new(),
    };
    let name = match &d.name {
        Some(n) => cat2(" name=", sanitize_terminal(n.as_str()).as_str()),
        None => String::new(),
    };
    let tag = if d.fido {
        " [FIDO]"
    } else if d.bootloader {
        " [bootloader]"
    } else {
        ""
    };
    let head = cat7(
        "  ",
        d.path.as_str(),
        " ",
        hex_padded(d.vendor_id as u64, 4, false).as_str(),
        ":",
        hex_padded(d.product_id as u64, 4, false).as_str(),
        " usage=",
    );
    let tail = cat7(
        hex_padded(d.usage_page as u64, 4, false).as_str(),
        ":",
        hex_padded(d.usage as u64, 4, false).as_str(),
        " ",
        model.as_str(),
        serial.as_str(),
        name.as_str(),
    );
    cat3(head.as_str(), tail.as_str(), tag)
}

/// The nodes that are listed.
pub open spec fn hid_lines(rows: Seq<HidRow>, all: bool) -> Seq<Seq<char>>
    decreases rows.len(),
{
    if rows.len() == 0 {
        Seq::empty()
    } else if all || rows.last().fido {
        hid_lines(rows.drop_last(), all).push(hid_line(rows.last()))
    } else {
        hid_lines(rows.drop_last(), all)
    }
}

/// The section on readers.
pub open spec fn readers_section(readers: Result<Vec<String>, String>) -> Seq<Seq<char>> {
    seq!["PC/SC readers:"@] + match readers {
        Ok(list) => if list@.len() == 0 {
            seq!["  (none)"@]
        } else {
            list@.map_values(|r: String| "  "@ + clean(r@))
        },
        Err(e) => seq!["  (unavailable: "@ + e@ + ")"@],
    }
}

/// The section on applets.
pub open spec fn probes_section(probes: Result<Vec<ReaderProbe>, String>) -> Seq<Seq<char>> {
    seq![""@, "Applet probe (per reader):"@] + match probes {
        Ok(list) => if list@.len() == 0 {
            seq!["  (no readers)"@]
        } else {
            list@.map_values(|p: ReaderProbe| probe_line(p))
        },
        Err(e) => seq!["  (unavailable: "@ + e@ + ")"@],
    }
}

/// The section on HID nodes.
pub open spec fn hids_section(
    all: bool,
    hids: Result<Vec<HidRow>, String>,
    bootloader: Option<Seq<char>>,
) -> Seq<Seq<char>> {
    seq![
        ""@,
        if all {
            "HID devices:"@
        } else {
            "FIDO HID devices:"@
        },
    ] + match hids {
        Ok(rows) => if hid_lines(rows@, all).len() == 0 {
            match bootloader {
                Some(b) => seq![
                    "  (none)"@,
                    "  note: detected "@ + b + " — re-plug it to return to application mode."@,
                ],
                None => seq!["  (none)"@],
            }
        } else {
            hid_lines(rows@, all)
        },
        Err(e) => seq!["  (unavailable: "@ + e@ + ")"@],
    }
}

fn say_readers(readers: &Result<Vec<String>, String>) -> (out: Lines)
    ensures
        out@ == readers_section(*readers),
{
    let mut out = Lines::new();
    out.put("PC/SC readers:");
    let ghost head = out@;
    match readers {
        Ok(list) => {
            if list.len() == 0 {
                out.put("  (none)");
            } else {
                let ghost all = list@.map_values(|r: String| "  "@ + clean(r@));
                let mut i: usize = 0;
                assert(out@ =~= head + all.take(0));
                while i < list.len()
                    invariant
                        i <= list.len(),
                        all == list@.map_values(|r: String| "  "@ + clean(r@)),
                        out@ == head + all.take(i as int),
                    decreases list.len() - i,
                {
                    out.say(cat2("  ", sanitize_terminal(list[i].as_str()).as_str()));
                    i = i + 1;
                    assert(out@ =~= head + all.take(i as int));
                }
                assert(all.take(i as int) =~= all);
            }
        },
        Err(e) => out.say(cat3("  (unavailable: ", e.as_str(), ")")),
    }
    assert(out@ =~= readers_section(*readers));
    out
}

fn say_probes(probes: &Result<Vec<ReaderProbe>, String>) -> (out: Lines)
    ensures
        out@ == probes_section(*probes),
{
    let mut out = Lines::new();
    out.put("");
    out.put("Applet probe (per reader):");
    let ghost head = out@;
    match probes {
        Ok(list) => {
            if list.len() == 0 {
                out.put("  (no readers)");
            } else {
                let ghost all = list@.map_values(|p: ReaderProbe| probe_line(p));
                let mut i: usize = 0;
                assert(out@ =~= head + all.take(0));
                while i < list.len()
                    invariant
                        i <= list.len(),
                        all == list@.map_values(|p: ReaderProbe| probe_line(p)),
                        out@ == head + all.take(i as int),
                    decreases list.len() - i,
                {
                    out.say(probe_line_of(&list[i]));
                    i = i + 1;
                    assert(out@ =~= head + all.take(i as int));
                }
                assert(all.take(i as int) =~= all);
            }
        },
        Err(e) => out.say(cat3("  (unavailable: ", e.as_str(), ")")),
    }
    assert(out@ =~= probes_section(*probes));
    out
}

fn say_hids(all: bool, hids: &Result<Vec<HidRow>, String>, bootloader: &Option<String>) -> (out: Lines)
    ensures
        out@ == hids_section(all, *hids, opt_view(*bootloader)),
{
    let mut out = Lines::new();
    out.put("");
    out.put(
        if all {
            "HID devices:"
        } else {
            "FIDO HID devices:"
        },
    );
    let ghost head = out@;
    match hids {
        Ok(rows) => {
            let mut body = Lines::new();
            let mut i: usize = 0;
            assert(body@ =~= hid_lines(rows@.take(0), all));
            while i < rows.len()
                invariant
                    i <= rows.len(),
                    body@ == hid_lines(rows@.take(i as int), all),
                decreases rows.len() - i,
            {
                assert(rows@.take(i as int + 1).drop_last() =~= rows@.take(i as int));
                if all || rows[i].fido {
                    body.say(hid_line_of(&rows[i]));
                }
                i = i + 1;
            }
            assert(rows@.take(i as int) =~= rows@);
            assert(body@.len() == body.lines@.len());
            if body.lines.len() == 0 {
                out.put("  (none)");
                match bootloader {
                    Some(b) => out.say(
                        cat3(
                            "  note: detected ",
                            b.as_str(),
                            " — re-plug it to return to application mode.",
                        ),
                    ),
                    None => {},
                }
            } else {
                out.extend(body);
            }
        },
        Err(e) => out.say(cat3("  (unavailable: ", e.as_str(), ")")),
    }
    assert(out@ =~= hids_section(all, *hids, opt_view(*bootloader)));
    out
}

/// The raw listing: readers, what answers on each, and HID nodes. A part that
/// cannot be had is said to be unavailable and the others are still listed.
pub fn run_list(
    all_hid: bool,
    readers: &Result<Vec<String>, String>,
    probes: &Result<Vec<ReaderProbe>, String>,
    hids: &Result<Vec<HidRow>, String>,
    bootloader: &Option<String>,
) -> (r: Lines)
    ensures
        r@ == readers_section(*readers) + probes_section(*probes) + hids_section(
            all_hid,
            *hids,
            opt_view(*bootloader),
        ),
{
    let mut out = say_readers(readers);
    out.extend(say_probes(probes));
    out.extend(say_hids(all_hid, hids, bootloader));
    out
}

/// Whether opening a HID node works.
#[derive(Debug)]
pub enum NodeAccess {
    /// It can be read and written.
    Accessible,
    /// Permission is denied.
    Denied,
    /// It fails in another way.
    Failed(String),
}

/// A FIDO node and whether it can be opened.
#[derive(Debug)]
pub struct NodeCheck {
    /// USB product string.
    pub product_name: String,
    /// Path of the node.
    pub path: String,
    /// Whether it can be opened.
    pub access: NodeAccess,
}

/// What is known of the HID nodes.
#[derive(Debug)]
pub enum HidCheck {
    /// They cannot be listed on this platform.
    Unsupported,
    /// Listing them failed.
    Failed(String),
    /// There is no FIDO node; keys in bootloader mode, with their paths.
    NoFido(Vec<(String, String)>),
    /// The FIDO nodes.
    Nodes(Vec<NodeCheck>),
}

/// What is known of the file of friendly names.
#[derive(Debug)]
pub enum RegistryCheck {
    /// It is there and other users can read it.
    Loose(String),
    /// It is there and only its owner can read it.
    OwnerOnly(String),
    /// Its permissions cannot be read, with the reason.
    Unreadable(String, String),
    /// It is there; permissions do not apply.
    Present(String),
    /// It is not there yet.
    Missing(String),
    /// There is no place for it.
    NoConfigDir,
}

/// Whether a file with these permission bits is open to others than its owner.
pub fn registry_is_loose(mode: u32) -> (r: bool)
    ensures
        r == (mode & 0o077 != 0),
{
    mode & 0o077 != 0
}

/// The line of one reader.
pub open spec fn doctor_reader_line(r: Seq<char>, hint: Seq<char>) -> Seq<char> {
    "    "@ + clean(r) + (if has_run(ascii_lower(r), ascii_lower(hint)) {
        "  (Molto2)"@
    } else {
        ""@
    })
}

/// The lines on readers.
pub open spec fn doctor_readers(readers: Result<Vec<String>, String>, hint: Seq<char>) -> Seq<Seq<char>> {
    match readers {
        Ok(list) => if list@.len() == 0 {
            seq![
                "✓ PC/SC service reachable"@,
                "– no smart-card readers present (plug in a key/token to test further)"@,
            ]
        } else {
            seq!["✓ PC/SC service reachable"@, "✓ "@ + dec_text(list@.len()) + " reader(s):"@]
                + list@.map_values(|r: String| doctor_reader_line(r@, hint))
        },
        Err(e) => seq!["✗ PC/SC unavailable: "@ + e@],
    }
}

/// The line of one FIDO node.
pub open spec fn node_line(n: NodeCheck) -> Seq<char> {
    let who = clean(n.product_name@) + " ("@ + n.path@;
    match n.access {
        NodeAccess::Accessible => "✓ "@ + who + ") is accessible"@,
        NodeAccess::Denied => "✗ "@ + who
            + ") permission denied — install the udev rules (see README) and re-plug the key"@,
        NodeAccess::Failed(e) => "✗ "@ + who + ") open failed: "@ + e@,
    }
}

/// The lines on HID nodes.
pub open spec fn doctor_hids(h: HidCheck) -> Seq<Seq<char>> {
    match h {
        HidCheck::Unsupported => seq!["– FIDO HID enumeration not supported on this platform/backend"@],
        HidCheck::Failed(e) => seq!["✗ HID enumeration failed: "@ + e@],
        HidCheck::NoFido(boot) => seq!["– no FIDO HID devices present"@] + boot@.map_values(
            |b: (String, String)| "  note: "@ + b.0@ + " at "@ + b.1@ + " — re-plug it"@,
        ),
        HidCheck::Nodes(nodes) => nodes@.map_values(|n: NodeCheck| node_line(n)),
    }
}

/// The lines on access rules; none where the platform has none.
pub open spec fn doctor_rules(rules: Option<(String, bool)>) -> Seq<Seq<char>> {
    match rules {
        Some(r) => seq![
            if r.1 {
                "✓ udev rules installed ("@ + r.0@ + ")"@
            } else {
                "– udev rules not found at "@ + r.0@
                    + " — FIDO commands will need them; PC/SC features work without (see README)"@
            },
            ""@,
        ],
        None => Seq::empty(),
    }
}

/// The line on the file of friendly names.
pub open spec fn registry_line(r: RegistryCheck) -> Seq<char> {
    match r {
        RegistryCheck::Loose(p) => "– "@ + p@ + " is readable by other users (next save tightens it to 0600)"@,
        RegistryCheck::OwnerOnly(p) => "✓ "@ + p@ + " is owner-only"@,
        RegistryCheck::Unreadable(p, e) => "✗ cannot stat "@ + p@ + ": "@ + e@,
        RegistryCheck::Present(p) => "✓ registry present at "@ + p@,
        RegistryCheck::Missing(p) => "– no registry yet ("@ + p@ + ") — created on first key-name"@,
        RegistryCheck::NoConfigDir => "– no config dir resolvable (HOME/XDG unset?)"@,
    }
}

fn registry_line_of(r: &RegistryCheck) -> (s: String)
    ensures
        s@ == registry_line(*r),
{
    match r {
        RegistryCheck::Loose(p) => cat3(
            "– ",
            p.as_str(),
            " is readable by other users (next save tightens it to 0600)",
        ),
        RegistryCheck::OwnerOnly(p) => cat3("✓ ", p.as_str(), " is owner-only"),
        RegistryCheck::Unreadable(p, e) => cat4("✗ cannot stat ", p.as_str(), ": ", e.as_str()),
        RegistryCheck::Present(p) => cat2("✓ registry present at ", p.as_str()),
        RegistryCheck::Missing(p) => cat3("– no registry yet (", p.as_str(), ") — created on first key-name"),
        RegistryCheck::NoConfigDir => "– no config dir resolvable (HOME/XDG unset?)".to_owned(),
    }
}

fn node_line_of(n: &NodeCheck) -> (s: String)
    ensures
        s@ == node_line(*n),
{
    let who = cat3(sanitize_terminal(n.product_name.as_str()).as_str(), " (", n.path.as_str());
    match &n.access {
        NodeAccess::Accessible => cat3("✓ ", who.as_str(), ") is accessible"),
        NodeAccess::Denied => cat3(
            "✗ ",
            who.as_str(),
            ") permission denied — install the udev rules (see README) and re-plug the key",
        ),
        NodeAccess::Failed(e) => cat4("✗ ", who.as_str(), ") open failed: ", e.as_str()),
    }
}

fn say_doctor_readers(readers: &Result<Vec<String>, String>, hint: &str) -> (out: Lines)
    ensures
        out@ == doctor_readers(*readers, hint@),
{
    let mut out = Lines::new();
    match readers {
        Ok(list) => {
            out.put("✓ PC/SC service reachable");
            if list.len() == 0 {
                out.put("– no smart-card readers present (plug in a key/token to test further)");
            } else {
                out.say(cat3("✓ ", dec_usize(list.len()).as_str(), " reader(s):"));
                let needle = to_ascii_lower(hint);
                let ghost head = out@;
                let ghost all = list@.map_values(|r: String| doctor_reader_line(r@, hint@));
                let mut i: usize = 0;
                assert(out@ =~= head + all.take(0));
                while i < list.len()
                    invariant
                        i <= list.len(),
                        needle@ == ascii_lower(hint@),
                        all == list@.map_values(|r: String| doctor_reader_line(r@, hint@)),
                        out@ == head + all.take(i as int),
                    decreases list.len() - i,
                {
                    let low = to_ascii_lower(list[i].as_str());
                    let tag = if contains_text(low.as_str(), needle.as_str()) {
                        "  (Molto2)"
                    } else {
                        ""
                    };
                    out.say(cat3("    ", sanitize_terminal(list[i].as_str()).as_str(), tag));
                    i = i + 1;
                    assert(out@ =~= head + all.take(i as int));
                }
                assert(all.take(i as int) =~= all);
            }
        },
        Err(e) => out.say(cat2("✗ PC/SC unavailable: ", e.as_str())),
    }
    assert(out@ =~= doctor_readers(*readers, hint@));
    out
}

fn say_doctor_hids(h: &HidCheck) -> (out: Lines)
    ensures
        out@ == doctor_hids(*h),
{
    let mut out = Lines::new();
    match h {
        HidCheck::Unsupported => out.put("– FIDO HID enumeration not supported on this platform/backend"),
        HidCheck::Failed(e) => out.say(cat2("✗ HID enumeration failed: ", e.as_str())),
        HidCheck::NoFido(boot) => {
            out.put("– no FIDO HID devices present");
            let ghost head = out@;
            let ghost all = boot@.map_values(
                |b: (String, String)| "  note: "@ + b.0@ + " at "@ + b.1@ + " — re-plug it"@,
            );
            let mut i: usize = 0;
            assert(out@ =~= head + all.take(0));
            while i < boot.len()
                invariant
                    i <= boot.len(),
                    all == boot@.map_values(
                        |b: (String, String)| "  note: "@ + b.0@ + " at "@ + b.1@ + " — re-plug it"@,
                    ),
                    out@ == head + all.take(i as int),
                decreases boot.len() - i,
            {
                out.say(cat5("  note: ", boot[i].0.as_str(), " at ", boot[i].1.as_str(), " — re-plug it"));
                i = i + 1;
                assert(out@ =~= head + all.take(i as int));
            }
            assert(all.take(i as int) =~= all);
        },
        HidCheck::Nodes(nodes) => {
            let ghost all = nodes@.map_values(|n: NodeCheck| node_line(n));
            let mut i: usize = 0;
            assert(out@ =~= all.take(0));
            while i < nodes.len()
                invariant
                    i <= nodes.len(),
                    all == nodes@.map_values(|n: NodeCheck| node_line(n)),
                    out@ == all.take(i as int),
                decreases nodes.len() - i,
            {
                out.say(node_line_of(&nodes[i]));
                i = i + 1;
                assert(out@ =~= all.take(i as int));
            }
            assert(all.take(i as int) =~= all);
        },
    }
    assert(out@ =~= doctor_hids(*h));
    out
}

/// The environment check, line by line: every part gets its lines whatever the
/// others found.
pub fn run_doctor(
    readers: &Result<Vec<String>, String>,
    hint: &str,
    hids: &HidCheck,
    rules: &Option<(String, bool)>,
    registry: &RegistryCheck,
) -> (r: Lines)
    ensures
        r@ == seq!["keyroost doctor — environment check"@, ""@] + doctor_readers(*readers, hint@) + seq![""@]
            + doctor_hids(*hids) + seq![""@] + doctor_rules(*rules) + seq![registry_line(*registry)],
{
    let mut out = Lines::new();
    out.put("keyroost doctor — environment check");
    out.put("");
    assert(out@ =~= seq!["keyroost doctor — environment check"@, ""@]);
    out.extend(say_doctor_readers(readers, hint));
    let ghost a = out@;
    out.put("");
    assert(out@ =~= a + seq![""@]);
    out.extend(say_doctor_hids(hids));
    let ghost b = out@;
    out.put("");
    assert(out@ =~= b + seq![""@]);
    let ghost c = out@;
    match rules {
        Some(r) => {
            if r.1 {
                out.say(cat3("✓ udev rules installed (", r.0.as_str(), ")"));
            } else {
                out.say(
                    cat3(
                        "– udev rules not found at ",
                        r.0.as_str(),
                        " — FIDO commands will need them; PC/SC features work without (see README)",
                    ),
                );
            }
            out.put("");
        },
        None => {},
    }
    assert(out@ =~= c + doctor_rules(*rules));
    let ghost d = out@;
    out.say(registry_line_of(registry));
    assert(out@ =~= d + seq![registry_line(*registry)]);
    out
}

/// The badges that are doubtful are those that were not verified, in order.
pub proof fn law_doubtful_badges_are_the_unverified(
    badges: Seq<(&'static str, CapState)>,
    badge: (&'static str, CapState),
)
    ensures
        unverified(Seq::<(&'static str, CapState)>::empty()).len() == 0,
        unverified(badges.push(badge)) == (if badge.1 == CapState::Unverified {
            unverified(badges).push(badge.0@)
        } else {
            unverified(badges)
        }),
{
    assert(badges.push(badge).drop_last() =~= badges);
}

/// The nodes that are listed are those that speak FIDO, or all where that was asked
/// for, in order.
pub proof fn law_fido_nodes_are_listed(rows: Seq<HidRow>, row: HidRow, all: bool)
    ensures
        hid_lines(Seq::<HidRow>::empty(), all).len() == 0,
        hid_lines(rows.push(row), all) == (if all || row.fido {
            hid_lines(rows, all).push(hid_line(row))
        } else {
            hid_lines(rows, all)
        }),
{
    assert(rows.push(row).drop_last() =~= rows);
}

/// An applet is named for a reader just where it answered.
pub proof fn law_applets_are_those_that_answered(p: ReaderProbe)
    ensures
        applets(p).contains("OATH"@) <==> p.has_oath,
        applets(p).contains("OpenPGP"@) <==> p.has_openpgp,
        applets(p).contains("PIV"@) <==> p.has_piv,
        applets(p).len() == (if p.has_oath { 1int } else { 0 }) + (if p.has_openpgp { 1int } else { 0 }) + (
        if p.has_piv { 1int } else { 0 }),
{
    reveal_strlit("OATH");
    reveal_strlit("OpenPGP");
    reveal_strlit("PIV");
    assert("OATH"@.len() == 4 && "OpenPGP"@.len() == 7 && "PIV"@.len() == 3);
    lemma_short_plan(applets(p), "OATH"@);
    lemma_short_plan(applets(p), "OpenPGP"@);
    lemma_short_plan(applets(p), "PIV"@);
}

/// A node is listed with its path, and with the serial it goes by: that of its USB
/// descriptor before the one of the card interface, which is marked.
pub proof fn law_node_line_names_path_and_serial(d: HidRow)
    ensures
        has_run(hid_line(d), d.path@),
        d.serial_number matches Some(s) ==> serial_text(d) == " serial="@ + clean(s@),
        d.serial_number is None ==> (d.ccid_serial matches Some(s) ==> serial_text(d) == " serial="@ + clean(s@)
            + "(ccid)"@),
        d.serial_number is None && d.ccid_serial is None ==> serial_text(d).len() == 0,
        d.fido ==> tag_text(d) == " [FIDO]"@,
        !d.fido && d.bootloader ==> tag_text(d) == " [bootloader]"@,
{
    let tail = " "@ + hex4(d.vendor_id) + ":"@ + hex4(d.product_id) + " usage="@ + (hex4(d.usage_page) + ":"@ + hex4(
        d.usage,
    ) + " "@ + model_text(d) + serial_text(d) + name_text(d)) + tag_text(d);
    lemma_holds_part("  "@, d.path@, tail);
    assert(hid_line(d) =~= "  "@ + d.path@ + tail);
}

/// What was found is listed line by line in order; what was not found and what
/// could not be looked for are told apart.
pub proof fn law_overview_lists_what_was_found(
    readers: Result<Vec<String>, String>,
    probes: Result<Vec<ReaderProbe>, String>,
    i: int,
)
    ensures
        match readers {
            Ok(list) => {
                &&& list@.len() > 0 ==> readers_section(readers).len() == 1 + list@.len()
                &&& 0 <= i < list@.len() ==> has_run(readers_section(readers)[1 + i], clean(list@[i]@))
                &&& list@.len() == 0 ==> readers_section(readers)[1] == "  (none)"@
            },
            Err(e) => readers_section(readers).len() == 2 && has_run(readers_section(readers)[1], e@),
        },
        match probes {
            Ok(list) => {
                &&& list@.len() > 0 ==> probes_section(probes).len() == 2 + list@.len()
                &&& 0 <= i < list@.len() ==> probes_section(probes)[2 + i] == probe_line(list@[i])
                &&& list@.len() == 0 ==> probes_section(probes)[2] == "  (no readers)"@
            },
            Err(e) => probes_section(probes).len() == 3 && has_run(probes_section(probes)[2], e@),
        },
{
    match readers {
        Ok(list) => if 0 <= i < list@.len() {
            lemma_holds_part("  "@, clean(list@[i]@), Seq::empty());
            assert(readers_section(readers)[1 + i] =~= "  "@ + clean(list@[i]@) + Seq::empty());
        },
        Err(e) => lemma_holds_part("  (unavailable: "@, e@, ")"@),
    }
    match probes {
        Ok(_) => {},
        Err(e) => lemma_holds_part("  (unavailable: "@, e@, ")"@),
    }
}

/// The line of a reader names it, and says of a token that it is one and of any
/// other card what answered on it.
pub proof fn law_probe_line_says_what_answered(p: ReaderProbe)
    ensures
        has_run(probe_line(p), clean(p.reader_name@)),
        p.is_molto2 ==> has_run(probe_line(p), "[Molto2 token]"@),
        !p.is_molto2 && (p.has_oath || p.has_openpgp || p.has_piv) ==> has_run(
            probe_line(p),
            joined(applets(p), ", "@),
        ),
        !p.is_molto2 && !p.has_oath && !p.has_openpgp && !p.has_piv ==> has_run(probe_line(p), "(none detected)"@),
{
    let t = probe_line(p);
    let n = clean(p.reader_name@);
    if p.is_molto2 {
        reveal_strlit("  [Molto2 token]");
        reveal_strlit("[Molto2 token]");
        reveal_strlit("  ");
        assert("  [Molto2 token]"@ =~= "  "@ + "[Molto2 token]"@);
        lemma_holds(t, "  "@, n, "  [Molto2 token]"@);
        lemma_holds(t, "  "@ + n + "  "@, "[Molto2 token]"@, Seq::empty());
    } else {
        let what = if applets(p).len() == 0 {
            "(none detected)"@
        } else {
            joined(applets(p), ", "@)
        };
        lemma_holds(t, "  "@, n, "  ->  "@ + what);
        lemma_holds(t, "  "@ + n + "  ->  "@, what, Seq::empty());
    }
}

/// The nodes are listed where there are any; where there are none, that is said,
/// and so is a key that waits in its boot loader.
pub proof fn law_missing_nodes_are_explained(all: bool, rows: Vec<HidRow>, bootloader: Option<Seq<char>>)
    ensures
        ({
            let lines = hids_section(all, Ok(rows), bootloader);
            let listed = hid_lines(rows@, all);
            &&& listed.len() > 0 ==> lines.skip(2) == listed
            &&& listed.len() == 0 ==> lines[2] == "  (none)"@
            &&& listed.len() == 0 && bootloader is None ==> lines.len() == 3
            &&& listed.len() == 0 ==> (bootloader matches Some(b) ==> lines.len() == 4 && has_run(lines[3], b))
        }),
{
    let lines = hids_section(all, Ok(rows), bootloader);
    let listed = hid_lines(rows@, all);
    if listed.len() > 0 {
        assert(lines.skip(2) =~= listed);
    } else if let Some(b) = bootloader {
        lemma_holds_part("  note: detected "@, b, " — re-plug it to return to application mode."@);
    }
}

/// A check that went well is ticked, one that failed is crossed, and what is only
/// not there is neither; the node, the file and the reason are named.
pub proof fn law_checks_are_ticked_or_crossed(n: NodeCheck, r: RegistryCheck)
    ensures
        has_run(node_line(n), n.path@),
        n.access is Accessible ==> node_line(n)[0] == '✓',
        !(n.access is Accessible) ==> node_line(n)[0] == '✗',
        n.access matches NodeAccess::Failed(e) ==> has_run(node_line(n), e@),
        r is OwnerOnly || r is Present ==> registry_line(r)[0] == '✓',
        r is Unreadable ==> registry_line(r)[0] == '✗',
        r is Loose || r is Missing || r is NoConfigDir ==> registry_line(r)[0] == '–',
        match r {
            RegistryCheck::Loose(p) | RegistryCheck::OwnerOnly(p) | RegistryCheck::Present(p)
            | RegistryCheck::Missing(p) => has_run(registry_line(r), p@),
            RegistryCheck::Unreadable(p, e) => has_run(registry_line(r), p@) && has_run(registry_line(r), e@),
            RegistryCheck::NoConfigDir => true,
        },
{
    reveal_strlit("✓ ");
    reveal_strlit("✗ ");
    reveal_strlit("– ");
    reveal_strlit("✗ cannot stat ");
    reveal_strlit("✓ registry present at ");
    reveal_strlit("– no registry yet (");
    reveal_strlit("– no config dir resolvable (HOME/XDG unset?)");
    let none = Seq::<char>::empty();
    let t = node_line(n);
    let who = clean(n.product_name@) + " ("@;
    match n.access {
        NodeAccess::Accessible => lemma_holds(t, "✓ "@ + who, n.path@, ") is accessible"@),
        NodeAccess::Denied => lemma_holds(
            t,
            "✗ "@ + who,
            n.path@,
            ") permission denied — install the udev rules (see README) and re-plug the key"@,
        ),
        NodeAccess::Failed(e) => {
            lemma_holds(t, "✗ "@ + who, n.path@, ") open failed: "@ + e@);
            lemma_holds(t, "✗ "@ + who + n.path@ + ") open failed: "@, e@, none);
        },
    }
    let t = registry_line(r);
    match r {
        RegistryCheck::Loose(p) => lemma_holds(
            t,
            "– "@,
            p@,
            " is readable by other users (next save tightens it to 0600)"@,
        ),
        RegistryCheck::OwnerOnly(p) => lemma_holds(t, "✓ "@, p@, " is owner-only"@),
        RegistryCheck::Unreadable(p, e) => {
            lemma_holds(t, "✗ cannot stat "@, p@, ": "@ + e@);
            lemma_holds(t, "✗ cannot stat "@ + p@ + ": "@, e@, none);
        },
        RegistryCheck::Present(p) => lemma_holds(t, "✓ registry present at "@, p@, none),
        RegistryCheck::Missing(p) => lemma_holds(t, "– no registry yet ("@, p@, ") — created on first key-name"@),
        RegistryCheck::NoConfigDir => {},
    }
}

/// The check of the readers counts and lists them, and a service that cannot be
/// reached is crossed.
pub proof fn law_readers_are_counted(readers: Result<Vec<String>, String>, hint: Seq<char>, i: int)
    ensures
        match readers {
            Ok(list) => {
                &&& doctor_readers(readers, hint)[0] == "✓ PC/SC service reachable"@
                &&& doctor_readers(readers, hint).len() == 2 + list@.len()
                &&& list@.len() > 0 ==> has_run(doctor_readers(readers, hint)[1], dec_text(list@.len()))
                &&& 0 <= i < list@.len() ==> has_run(doctor_readers(readers, hint)[2 + i], clean(list@[i]@))
            },
            Err(e) => doctor_readers(readers, hint).len() == 1 && has_run(doctor_readers(readers, hint)[0], e@),
        },
{
    match readers {
        Ok(list) => if list@.len() > 0 {
            lemma_holds(doctor_readers(readers, hint)[1], "✓ "@, dec_text(list@.len()), " reader(s):"@);
            if 0 <= i < list@.len() {
                let mark = if has_run(ascii_lower(list@[i]@), ascii_lower(hint)) {
                    "  (Molto2)"@
                } else {
                    ""@
                };
                assert(doctor_readers(readers, hint)[2 + i] == doctor_reader_line(list@[i]@, hint));
                lemma_holds(doctor_readers(readers, hint)[2 + i], "    "@, clean(list@[i]@), mark);
            }
        },
        Err(e) => lemma_holds(doctor_readers(readers, hint)[0], "✗ PC/SC unavailable: "@, e@, Seq::empty()),
    }
}

/// A reader is marked as the token's just where its name holds the hint, whatever
/// the case of either.
pub proof fn law_token_readers_are_marked(r: Seq<char>, hint: Seq<char>)
    ensures
        has_run(ascii_lower(r), ascii_lower(hint)) ==> doctor_reader_line(r, hint) == "    "@ + clean(r) + "  (Molto2)"@,
        !has_run(ascii_lower(r), ascii_lower(hint)) ==> doctor_reader_line(r, hint) == "    "@ + clean(r),
{
    reveal_strlit("");
    assert("    "@ + clean(r) + ""@ =~= "    "@ + clean(r));
}

/// Every node is checked, and every key in its boot loader is named with its path.
pub proof fn law_every_node_is_checked(h: HidCheck, i: int)
    ensures
        match h {
            HidCheck::Nodes(nodes) => {
                &&& doctor_hids(h).len() == nodes@.len()
                &&& 0 <= i < nodes@.len() ==> doctor_hids(h)[i] == node_line(nodes@[i])
            },
            HidCheck::NoFido(boot) => {
                &&& doctor_hids(h).len() == 1 + boot@.len()
                &&& 0 <= i < boot@.len() ==> has_run(doctor_hids(h)[1 + i], boot@[i].0@ + " at "@ + boot@[i].1@)
            },
            HidCheck::Failed(e) => doctor_hids(h).len() == 1 && has_run(doctor_hids(h)[0], e@),
            HidCheck::Unsupported => doctor_hids(h).len() == 1,
        },
{
    match h {
        HidCheck::NoFido(boot) => if 0 <= i < boot@.len() {
            let b = boot@[i];
            lemma_holds(doctor_hids(h)[1 + i], "  note: "@, b.0@ + " at "@ + b.1@, " — re-plug it"@);
        },
        HidCheck::Failed(e) => lemma_holds(doctor_hids(h)[0], "✗ HID enumeration failed: "@, e@, Seq::empty()),
        _ => {},
    }
}

} // verus!
