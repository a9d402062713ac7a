//! Whole-device factory reset.
//!
//! Every applet the key supports is wiped in the planner's order; a step that
//! fails is recorded and the rest goes on. The FIDO2 step needs the key
//! replugged, so the key that came back has to be proved to be the one the
//! wipe was confirmed for.

use crate::device::{Device, HidDevice};
use crate::sanitize::{clean, sanitize_terminal};
use crate::select::{
    hits, hits_of, lemma_hits, reader_device_conflict, resolve_single_device, single_device_index, single_device_spec,
    READER_DEVICE_CONFLICT,
};
use crate::text::{
    cat2, cat3, cat5, cat7, dec_text, dec_u64, dec_usize, has_run, join, joined, lemma_holds, lemma_views_push,
    opt_str, opt_view, pad_right, padded_right, str_eq, views,
};
use vstd::prelude::*;

verus! {

/// What the user reads before a whole-device wipe is agreed to. It promises
/// only what holds applet by applet.
pub const FACTORY_RESET_CONSENT: &'static str = "refusing to factory-reset without --yes (wipes ALL applets: OATH, OpenPGP, PIV, Token2 OTP, and FIDO2; every credential, code, key, and PIN is erased. Each applet that completes comes back in factory condition, and every step reports its own outcome)";

/// Nothing is wiped unless the user said yes.
pub fn factory_reset_consent(yes: bool) -> (r: Result<(), String>)
    ensures
        r is Ok <==> yes,
        r matches Err(e) ==> e@ == FACTORY_RESET_CONSENT@,
{
    if yes {
        Ok(())
    } else {
        Err(FACTORY_RESET_CONSENT.to_owned())
    }
}

/// Which connected key is the one the reset was confirmed for.
#[derive(Clone, Copy, Debug, PartialEq, Eq, Structural)]
pub enum ReinsertMatch {
    /// Position of that key among the candidates.
    Found(usize),
    /// Nothing connected carries the expected identity.
    NotPresent,
    /// Several connected keys claim it, so it identifies none of them.
    Ambiguous,
}

/// Why the key the reset was confirmed for is not among the visible ones.
#[derive(Clone, Copy, Debug, PartialEq, Eq, Structural)]
pub enum NotPresentReason {
    /// Everything visible names itself, and nothing is the pinned key.
    DifferentKey,
    /// Nothing is visible yet, or something visible has no serial yet.
    Unidentified,
}

/// One connected key, as far as the match after a replug looks at it.
#[derive(Clone, Copy, Debug, PartialEq, Eq)]
pub struct Candidate<'a> {
    /// Effective serial; empty when unknown.
    pub serial: &'a str,
    /// Model name.
    pub model: &'a str,
    /// USB vendor and product id, when known.
    pub ids: Option<(u16, u16)>,
    /// Whether it has a FIDO HID interface.
    pub fido: bool,
}

/// For each serial, whether it is the expected one.
pub open spec fn serial_flags(serials: Seq<Seq<char>>, expected: Seq<char>) -> Seq<bool> {
    serials.map_values(|s: Seq<char>| s == expected)
}

/// The match by serial: exactly one candidate carries it. An unknown serial
/// matches nothing.
pub open spec fn target_by_serial(expected: Seq<char>, serials: Seq<Seq<char>>) -> ReinsertMatch {
    let found = hits(serial_flags(serials, expected));
    if expected.len() == 0 || found.len() == 0 {
        ReinsertMatch::NotPresent
    } else if found.len() == 1 {
        ReinsertMatch::Found(found[0] as usize)
    } else {
        ReinsertMatch::Ambiguous
    }
}

/// The texts of a slice of borrowed texts.
pub open spec fn slice_views(list: Seq<&str>) -> Seq<Seq<char>> {
    list.map_values(|s: &str| s@)
}

/// Decides by serial which candidate is the key the reset was confirmed for.
pub fn reinserted_target(expected_serial: &str, candidates: &[&str]) -> (r: ReinsertMatch)
    ensures
        r == target_by_serial(expected_serial@, slice_views(candidates@)),
{
    let ghost serials = slice_views(candidates@);
    if expected_serial.is_empty() {
        return ReinsertMatch::NotPresent;
    }
    let mut flags: Vec<bool> = Vec::new();
    let mut i: usize = 0;
    while i < candidates.len()
        invariant
            i <= candidates.len(),
            serials == slice_views(candidates@),
            flags@ == serial_flags(serials, expected_serial@).take(i as int),
        decreases candidates.len() - i,
    {
        flags.push(str_eq(candidates[i], expected_serial));
        i = i + 1;
        assert(flags@ =~= serial_flags(serials, expected_serial@).take(i as int));
    }
    assert(flags@ =~= serial_flags(serials, expected_serial@));
    let found = hits_of(&flags);
    let ghost idx = found@.map_values(|i: usize| i as int);
    assert(idx.len() == found.len());
    if found.len() == 0 {
        ReinsertMatch::NotPresent
    } else if found.len() == 1 {
        assert(idx[0] == found@[0]);
        ReinsertMatch::Found(found[0])
    } else {
        ReinsertMatch::Ambiguous
    }
}

/// A mismatch is a fact only when something is visible and all of it names
/// itself.
pub open spec fn reason_of(serials: Seq<Seq<char>>) -> NotPresentReason {
    if serials.len() > 0 && (forall|i: int| 0 <= i < serials.len() ==> (#[trigger] serials[i]).len() > 0) {
        NotPresentReason::DifferentKey
    } else {
        NotPresentReason::Unidentified
    }
}

/// Tells a different key from a key that has not come back with an identity.
/// `serials` are those of the devices with a FIDO interface.
pub fn not_present_reason(serials: &[&str]) -> (r: NotPresentReason)
    ensures
        r == reason_of(slice_views(serials@)),
{
    let ghost all = slice_views(serials@);
    assert(all.len() == serials@.len());
    if serials.len() == 0 {
        return NotPresentReason::Unidentified;
    }
    let mut i: usize = 0;
    while i < serials.len()
        invariant
            i <= serials.len(),
            all == slice_views(serials@),
            all.len() == serials@.len(),
            forall|k: int| 0 <= k < i ==> (#[trigger] all[k]).len() > 0,
        decreases serials.len() - i,
    {
        if serials[i].is_empty() {
            assert(all[i as int].len() == 0);
            return NotPresentReason::Unidentified;
        }
        i = i + 1;
    }
    NotPresentReason::DifferentKey
}

/// The message for a key that is not among the visible ones.
pub open spec fn not_present_text(
    model: Seq<char>,
    serial: Seq<char>,
    waited: nat,
    present: Seq<char>,
    reason: NotPresentReason,
) -> Seq<char> {
    match reason {
        NotPresentReason::DifferentKey => {
            "the key now connected is not the one this factory reset was confirmed for: expected "@ + clean(
                model,
            ) + " serial "@ + clean(serial) + ", found "@ + present
                + ". Nothing was reset over FIDO2 — plug the intended key in and re-run `keyroostctl factory-reset --yes`."@
        },
        NotPresentReason::Unidentified => {
            "the key this factory reset was confirmed for ("@ + clean(model) + " serial "@ + clean(serial)
                + ") did not come back with an identity to match within "@ + dec_text(waited)
                + " seconds of the replug: found "@ + (present
                + ". That is not a different key — its serial is read over the card interface, which re-registers with the smart-card service a beat after the FIDO one, so a key that is simply slow to settle looks exactly like this. Nothing was reset over FIDO2 — give it a moment, then run `keyroostctl fido reset --yes` to finish the wipe (re-running `keyroostctl factory-reset --yes` would repeat the applet resets and race the same way)."@)
        },
    }
}

/// What to tell the user when the pinned key is not among the visible ones.
pub fn not_present_message(
    expected_model: &str,
    expected_serial: &str,
    waited_secs: u64,
    present: &str,
    reason: NotPresentReason,
) -> (r: String)
    ensures
        r@ == not_present_text(expected_model@, expected_serial@, waited_secs as nat, present@, reason),
{
    let model = sanitize_terminal(expected_model);
    let serial = sanitize_terminal(expected_serial);
    match reason {
        NotPresentReason::DifferentKey => cat7(
            "the key now connected is not the one this factory reset was confirmed for: expected ",
            model.as_str(),
            " serial ",
            serial.as_str(),
            ", found ",
            present,
            ". Nothing was reset over FIDO2 — plug the intended key in and re-run `keyroostctl factory-reset --yes`.",
        ),
        NotPresentReason::Unidentified => {
            let tail = cat2(
                present,
                ". That is not a different key — its serial is read over the card interface, which re-registers with the smart-card service a beat after the FIDO one, so a key that is simply slow to settle looks exactly like this. Nothing was reset over FIDO2 — give it a moment, then run `keyroostctl fido reset --yes` to finish the wipe (re-running `keyroostctl factory-reset --yes` would repeat the applet resets and race the same way).",
            );
            let head = cat7(
                "the key this factory reset was confirmed for (",
                model.as_str(),
                " serial ",
                serial.as_str(),
                ") did not come back with an identity to match within ",
                dec_u64(waited_secs).as_str(),
                " seconds of the replug: found ",
            );
            cat2(head.as_str(), tail.as_str())
        },
    }
}

/// The USB ids of the HID node at `path`: those of the first node listed there.
pub open spec fn ids_at(path: Option<Seq<char>>, hids: Seq<HidDevice>) -> Option<(u16, u16)>
    decreases hids.len(),
{
    if path is None || hids.len() == 0 {
        None
    } else if path == Some(hids[0].path@) {
        Some((hids[0].vendor_id, hids[0].product_id))
    } else {
        ids_at(path, hids.drop_first())
    }
}

/// Looks up the USB ids of the HID node a device is bound to.
pub fn hid_ids_at(path: Option<&str>, hids: &[HidDevice]) -> (r: Option<(u16, u16)>)
    ensures
        r == ids_at(opt_str(path), hids@),
{
    match path {
        None => None,
        Some(p) => {
            let mut i: usize = 0;
            assert(hids@.skip(0) =~= hids@);
            while i < hids.len()
                invariant
                    i <= hids.len(),
                    opt_str(path) == Some(p@),
                    ids_at(Some(p@), hids@) == ids_at(Some(p@), hids@.skip(i as int)),
                decreases hids.len() - i,
            {
                assert(hids@.skip(i as int)[0] == hids@[i as int]);
                if str_eq(hids[i].path.as_str(), p) {
                    return Some((hids[i].vendor_id, hids[i].product_id));
                }
                assert(hids@.skip(i as int).drop_first() =~= hids@.skip(i as int + 1));
                i = i + 1;
            }
            None
        },
    }
}

/// Whether a candidate is the same product as the pinned key: by USB ids
/// where both sides have them, by model name otherwise.
pub open spec fn is_same_product(
    model: Seq<char>,
    ids: Option<(u16, u16)>,
    cand_model: Seq<char>,
    cand_ids: Option<(u16, u16)>,
) -> bool {
    match (ids, cand_ids) {
        (Some(a), Some(b)) => a == b,
        _ => cand_model == model,
    }
}

/// Whether a candidate is the same product as the pinned key.
pub fn same_product(expected_model: &str, expected_ids: Option<(u16, u16)>, cand: &Candidate<'_>) -> (r:
    bool)
    ensures
        r == is_same_product(expected_model@, expected_ids, cand.model@, cand.ids),
{
    match (expected_ids, cand.ids) {
        (Some(a), Some(b)) => a.0 == b.0 && a.1 == b.1,
        _ => str_eq(cand.model, expected_model),
    }
}

/// The match of a key without a serial: it has to be the only one connected.
pub open spec fn target_without_serial(
    model: Seq<char>,
    ids: Option<(u16, u16)>,
    candidates: Seq<Candidate<'_>>,
) -> ReinsertMatch {
    if candidates.len() > 1 {
        ReinsertMatch::Ambiguous
    } else if candidates.len() == 1 && candidates[0].serial@.len() == 0 && candidates[0].fido
        && is_same_product(model, ids, candidates[0].model@, candidates[0].ids) {
        ReinsertMatch::Found(0)
    } else {
        ReinsertMatch::NotPresent
    }
}

/// Decides which candidate is the confirmed key when that key has no serial:
/// the only one connected, itself without a serial, the same product, and
/// speaking FIDO.
pub fn reinserted_serial_less_target(
    expected_model: &str,
    expected_ids: Option<(u16, u16)>,
    candidates: &[Candidate<'_>],
) -> (r: ReinsertMatch)
    ensures
        r == target_without_serial(expected_model@, expected_ids, candidates@),
{
    if candidates.len() > 1 {
        ReinsertMatch::Ambiguous
    } else if candidates.len() == 1 && candidates[0].serial.is_empty() && candidates[0].fido && same_product(
        expected_model,
        expected_ids,
        &candidates[0],
    ) {
        ReinsertMatch::Found(0)
    } else {
        ReinsertMatch::NotPresent
    }
}

/// The serials of the candidates.
pub open spec fn serials_of(candidates: Seq<Candidate<'_>>) -> Seq<Seq<char>> {
    candidates.map_values(|c: Candidate<'_>| c.serial@)
}

/// The match after a replug: by serial when the pinned key has one, by being
/// the sole candidate otherwise.
pub open spec fn match_of(
    serial: Seq<char>,
    model: Seq<char>,
    ids: Option<(u16, u16)>,
    candidates: Seq<Candidate<'_>>,
) -> ReinsertMatch {
    if serial.len() == 0 {
        target_without_serial(model, ids, candidates)
    } else {
        target_by_serial(serial, serials_of(candidates))
    }
}

/// Matches the keys present after the replug against the pinned identity.
pub fn reinserted_match(
    expected_serial: &str,
    expected_model: &str,
    expected_ids: Option<(u16, u16)>,
    candidates: &[Candidate<'_>],
) -> (r: ReinsertMatch)
    ensures
        r == match_of(expected_serial@, expected_model@, expected_ids, candidates@),
{
    if expected_serial.is_empty() {
        return reinserted_serial_less_target(expected_model, expected_ids, candidates);
    }
    let mut serials: Vec<&str> = Vec::new();
    let mut i: usize = 0;
    while i < candidates.len()
        invariant
            i <= candidates.len(),
            serials.len() == i,
            forall|k: int| 0 <= k < i ==> (#[trigger] serials@[k])@ == candidates@[k].serial@,
        decreases candidates.len() - i,
    {
        serials.push(candidates[i].serial);
        i = i + 1;
    }
    assert(slice_views(serials@) =~= serials_of(candidates@));
    reinserted_target(expected_serial, serials.as_slice())
}

/// Whether a look after the replug has an answer to act on. A match without a
/// FIDO interface is a key that is still coming back.
pub open spec fn settled(found: ReinsertMatch, candidates: Seq<Candidate<'_>>) -> bool {
    match found {
        ReinsertMatch::NotPresent => false,
        ReinsertMatch::Found(i) => i < candidates.len() && candidates[i as int].fido,
        ReinsertMatch::Ambiguous => true,
    }
}

/// Whether a look after the replug has an answer to act on, or the poll should
/// go on.
pub fn reinsert_settled(found: &ReinsertMatch, candidates: &[Candidate<'_>]) -> (r: bool)
    ensures
        r == settled(*found, candidates@),
{
    match *found {
        ReinsertMatch::NotPresent => false,
        ReinsertMatch::Found(i) => i < candidates.len() && candidates[i].fido,
        ReinsertMatch::Ambiguous => true,
    }
}

/// A match always points at a candidate. With a serial pinned, it is the one
/// candidate that carries it; without, it is the only candidate and has no
/// serial either.
pub proof fn law_match_is_the_pinned_key(
    serial: Seq<char>,
    model: Seq<char>,
    ids: Option<(u16, u16)>,
    candidates: Seq<Candidate<'_>>,
    i: usize,
)
    requires
        candidates.len() <= usize::MAX,
        match_of(serial, model, ids, candidates) == ReinsertMatch::Found(i),
    ensures
        i < candidates.len(),
        candidates[i as int].serial@ == serial,
        serial.len() > 0 ==> forall|k: int|
            0 <= k < candidates.len() && #[trigger] candidates[k].serial@ == serial ==> k == i,
        serial.len() == 0 ==> candidates.len() == 1 && candidates[0].fido && is_same_product(
            model,
            ids,
            candidates[0].model@,
            candidates[0].ids,
        ),
{
    if serial.len() == 0 {
        assert(candidates[0].serial@ =~= serial);
    } else {
        let serials = serials_of(candidates);
        let flags = serial_flags(serials, serial);
        lemma_hits(flags);
        let found = hits(flags);
        assert(found[0] == i);
        assert(flags[found[0]]);
        assert(serials[found[0]] == serial);
        assert forall|k: int| 0 <= k < candidates.len() && #[trigger] candidates[k].serial@ == serial implies k
            == i by {
            assert(serials[k] == serial);
            assert(flags[k]);
            assert(found.contains(k));
        }
    }
}

/// With a serial pinned, a key that does not carry it is never matched,
/// whatever its model and USB ids and however alone it is.
pub proof fn law_serial_less_rule_needs_no_serial(
    serial: Seq<char>,
    model: Seq<char>,
    ids: Option<(u16, u16)>,
    candidates: Seq<Candidate<'_>>,
)
    requires
        serial.len() > 0,
        forall|k: int| 0 <= k < candidates.len() ==> #[trigger] candidates[k].serial@ != serial,
    ensures
        match_of(serial, model, ids, candidates) == ReinsertMatch::NotPresent,
{
    let serials = serials_of(candidates);
    let flags = serial_flags(serials, serial);
    lemma_hits(flags);
    if hits(flags).len() > 0 {
        let k = hits(flags)[0];
        assert(flags[k]);
        assert(serials[k] == serial);
        assert(candidates[k].serial@ == serial);
    }
}

/// A serial that two connected keys report identifies none of them.
pub proof fn law_shared_serial_is_ambiguous(
    serial: Seq<char>,
    model: Seq<char>,
    ids: Option<(u16, u16)>,
    candidates: Seq<Candidate<'_>>,
    j: int,
    k: int,
)
    requires
        serial.len() > 0,
        0 <= j < k < candidates.len(),
        candidates[j].serial@ == serial,
        candidates[k].serial@ == serial,
    ensures
        match_of(serial, model, ids, candidates) == ReinsertMatch::Ambiguous,
        settled(ReinsertMatch::Ambiguous, candidates),
{
    let serials = serials_of(candidates);
    let flags = serial_flags(serials, serial);
    lemma_hits(flags);
    assert(serials[j] == serial && serials[k] == serial);
    assert(flags[j] && flags[k]);
    let found = hits(flags);
    assert(found.contains(j) && found.contains(k));
}

/// A swap is claimed only when every visible key names itself.
pub proof fn law_no_accusation_while_a_key_is_unnamed(serials: Seq<Seq<char>>)
    ensures
        serials.len() == 0 ==> reason_of(serials) == NotPresentReason::Unidentified,
        forall|i: int|
            0 <= i < serials.len() && (#[trigger] serials[i]).len() == 0 ==> reason_of(serials)
                == NotPresentReason::Unidentified,
{
}

/// The candidate that stands for `d`.
pub open spec fn candidate_is(c: Candidate<'_>, d: Device, hids: Seq<HidDevice>) -> bool {
    &&& c.serial@ == d.serial@
    &&& c.model@ == d.model@
    &&& c.ids == ids_at(opt_view(d.hid_path), hids)
    &&& c.fido == (d.hid_path is Some)
}

/// Whether `candidates` stand for `devices`, one for one.
pub open spec fn candidates_are(
    candidates: Seq<Candidate<'_>>,
    devices: Seq<Device>,
    hids: Seq<HidDevice>,
) -> bool {
    &&& candidates.len() == devices.len()
    &&& forall|i: int| 0 <= i < devices.len() ==> candidate_is(#[trigger] candidates[i], devices[i], hids)
}

/// The devices reduced to what the match looks at, position by position.
pub fn candidates_of<'a>(devices: &'a [Device], hids: &[HidDevice]) -> (r: Vec<Candidate<'a>>)
    ensures
        candidates_are(r@, devices@, hids@),
{
    let mut r: Vec<Candidate<'a>> = Vec::new();
    let mut i: usize = 0;
    while i < devices.len()
        invariant
            i <= devices.len(),
            r.len() == i,
            forall|k: int| 0 <= k < i ==> candidate_is(#[trigger] r@[k], devices@[k], hids@),
        decreases devices.len() - i,
    {
        let d: &'a Device = &devices[i];
        let path: Option<&str> = match &d.hid_path {
            Some(p) => Some(p.as_str()),
            None => None,
        };
        let c = Candidate {
            serial: d.serial.as_str(),
            model: d.model.as_str(),
            ids: hid_ids_at(path, hids),
            fido: d.hid_path.is_some(),
        };
        r.push(c);
        i = i + 1;
    }
    r
}

/// The serials of the connected devices.
pub open spec fn device_serials(devices: Seq<Device>) -> Seq<Seq<char>> {
    devices.map_values(|d: Device| d.serial@)
}

/// The match after a replug, over the connected devices themselves.
pub open spec fn device_match(key: PinnedKey, devices: Seq<Device>, hids: Seq<HidDevice>) -> ReinsertMatch {
    if key.serial@.len() == 0 {
        if devices.len() > 1 {
            ReinsertMatch::Ambiguous
        } else if devices.len() == 1 && devices[0].serial@.len() == 0 && devices[0].hid_path is Some
            && is_same_product(
            key.model@,
            key.ids,
            devices[0].model@,
            ids_at(opt_view(devices[0].hid_path), hids),
        ) {
            ReinsertMatch::Found(0)
        } else {
            ReinsertMatch::NotPresent
        }
    } else {
        target_by_serial(key.serial@, device_serials(devices))
    }
}

/// Whether the match over the devices settles the poll.
pub open spec fn device_settled(found: ReinsertMatch, devices: Seq<Device>) -> bool {
    match found {
        ReinsertMatch::NotPresent => false,
        ReinsertMatch::Found(i) => i < devices.len() && devices[i as int].hid_path is Some,
        ReinsertMatch::Ambiguous => true,
    }
}

/// One look after the replug: which device matches the pinned identity, and
/// whether that settles the poll.
pub fn match_reinsert(key: &PinnedKey, present: &[Device], hids: &[HidDevice]) -> (r: (ReinsertMatch, bool))
    ensures
        r.0 == device_match(*key, present@, hids@),
        r.1 == device_settled(r.0, present@),
{
    let candidates = candidates_of(present, hids);
    let found = reinserted_match(key.serial.as_str(), key.model.as_str(), key.ids, candidates.as_slice());
    assert(serials_of(candidates@) =~= device_serials(present@));
    proof {
        if present@.len() > 0 {
            assert(candidate_is(candidates@[0], present@[0], hids@));
        }
    }
    let done = reinsert_settled(&found, candidates.as_slice());
    (found, done)
}

/// How the message names one visible device.
pub open spec fn present_entry(d: Device) -> Seq<char> {
    if d.serial@.len() == 0 {
        clean(d.model@) + " with no serial"@
    } else {
        clean(d.model@) + " serial "@ + clean(d.serial@)
    }
}

/// How the message names the visible devices.
pub open spec fn present_text(devices: Seq<Device>) -> Seq<char> {
    if devices.len() == 0 {
        "no connected key"@
    } else {
        joined(devices.map_values(|d: Device| present_entry(d)), ", "@)
    }
}

/// Names the visible devices for a mismatch message.
pub fn describe_present(devices: &[Device]) -> (r: String)
    ensures
        r@ == present_text(devices@),
{
    if devices.len() == 0 {
        return "no connected key".to_owned();
    }
    let ghost all = devices@.map_values(|d: Device| present_entry(d));
    let mut parts: Vec<String> = Vec::new();
    let mut i: usize = 0;
    while i < devices.len()
        invariant
            i <= devices.len(),
            all == devices@.map_values(|d: Device| present_entry(d)),
            views(parts@) == all.take(i as int),
        decreases devices.len() - i,
    {
        let d = &devices[i];
        let model = sanitize_terminal(d.model.as_str());
        let part = if d.serial.as_str().is_empty() {
            cat2(model.as_str(), " with no serial")
        } else {
            cat3(model.as_str(), " serial ", sanitize_terminal(d.serial.as_str()).as_str())
        };
        proof {
            lemma_views_push(parts@, part);
            assert(part@ == all[i as int]);
        }
        parts.push(part);
        i = i + 1;
        assert(views(parts@) =~= all.take(i as int));
    }
    assert(views(parts@) =~= all);
    join(&parts, ", ")
}

/// The identity of the key a reset was confirmed for, taken before anything is
/// wiped.
#[derive(Debug)]
pub struct PinnedKey {
    /// Effective serial; empty when the key has none.
    pub serial: String,
    /// Model name.
    pub model: String,
    /// USB vendor and product id, when known.
    pub ids: Option<(u16, u16)>,
    /// Path of its FIDO HID node, if it has one.
    pub hid_path: Option<String>,
    /// Name of the reader it is in, if any.
    pub reader: Option<String>,
}

/// `key` is the identity of `d`.
pub open spec fn pins(key: PinnedKey, d: Device, hids: Seq<HidDevice>) -> bool {
    &&& key.serial@ == d.serial@
    &&& key.model@ == d.model@
    &&& key.ids == ids_at(opt_view(d.hid_path), hids)
    &&& opt_view(key.hid_path) == opt_view(d.hid_path)
    &&& opt_view(key.reader) == opt_view(d.reader)
}

/// A copy of an optional text.
pub fn clone_opt(o: &Option<String>) -> (r: Option<String>)
    ensures
        opt_view(r) == opt_view(*o),
{
    match o {
        Some(s) => Some(s.clone()),
        None => None,
    }
}

/// Resolves the one key to wipe and pins its identity. A reader and a device
/// selector together are refused before anything is looked up.
pub fn pin_target(devices: &[Device], hids: &[HidDevice], reader: Option<&str>, name: Option<&str>) -> (r:
    Result<PinnedKey, String>)
    ensures
        reader is Some && name is Some ==> (r matches Err(e) && e@ == READER_DEVICE_CONFLICT@),
        !(reader is Some && name is Some) ==> match (r, single_device_spec(devices@, opt_str(name))) {
            (Ok(k), Ok(i)) => 0 <= i < devices@.len() && pins(k, devices@[i], hids@),
            (Err(e), Err(m)) => e@ == m,
            _ => false,
        },
{
    match reader_device_conflict(reader, name) {
        Err(e) => Err(e),
        Ok(()) => match resolve_single_device(devices, name) {
            Err(e) => Err(e),
            Ok(d) => {
                let path: Option<&str> = match &d.hid_path {
                    Some(p) => Some(p.as_str()),
                    None => None,
                };
                Ok(
                    PinnedKey {
                        serial: d.serial.clone(),
                        model: d.model.clone(),
                        ids: hid_ids_at(path, hids),
                        hid_path: clone_opt(&d.hid_path),
                        reader: clone_opt(&d.reader),
                    },
                )
            },
        },
    }
}

/// One step of a factory reset.
#[derive(Clone, Copy, Debug, PartialEq, Eq, Structural)]
pub enum ResetStep {
    /// The OATH applet.
    Oath,
    /// The OpenPGP applet.
    OpenPgp,
    /// The PIV applet.
    Piv,
    /// The Token2 OTP applet.
    Token2Otp,
    /// FIDO2.
    Fido,
}

/// A step of the plan, with the planner's label for it.
#[derive(Debug)]
pub struct PlannedStep {
    /// What to reset.
    pub step: ResetStep,
    /// What to call it.
    pub label: String,
}

/// How one step ended.
#[derive(Debug)]
pub enum StepOutcome {
    /// The applet is back in factory condition.
    Wiped,
    /// The step failed, with the reason.
    Failed(String),
    /// The step was left out.
    Skipped,
}

/// The labels of a plan.
pub open spec fn plan_labels(plan: Seq<PlannedStep>) -> Seq<Seq<char>> {
    plan.map_values(|s: PlannedStep| s.label@)
}

/// The line that opens a factory reset, or why there is nothing to do.
pub fn reset_banner(key: &PinnedKey, plan: &Vec<PlannedStep>) -> (r: Result<String, String>)
    ensures
        plan@.len() == 0 ==> (r matches Err(e) && e@ == "'"@ + clean(key.model@)
            + "' exposes no resettable applet (nothing to factory-reset)"@),
        plan@.len() > 0 ==> (r matches Ok(s) && s@ == "\u{2192} factory-resetting "@ + clean(key.serial@) + " ("@
            + joined(plan_labels(plan@), ", "@) + ")"@),
{
    if plan.len() == 0 {
        return Err(
            cat3(
                "'",
                sanitize_terminal(key.model.as_str()).as_str(),
                "' exposes no resettable applet (nothing to factory-reset)",
            ),
        );
    }
    let ghost all = plan_labels(plan@);
    let mut labels: Vec<String> = Vec::new();
    let mut i: usize = 0;
    while i < plan.len()
        invariant
            i <= plan.len(),
            all == plan_labels(plan@),
            views(labels@) == all.take(i as int),
        decreases plan.len() - i,
    {
        let l = plan[i].label.clone();
        proof {
            lemma_views_push(labels@, l);
            assert(l@ == all[i as int]);
        }
        labels.push(l);
        i = i + 1;
        assert(views(labels@) =~= all.take(i as int));
    }
    assert(views(labels@) =~= all);
    Ok(
        cat5(
            "\u{2192} factory-resetting ",
            sanitize_terminal(key.serial.as_str()).as_str(),
            " (",
            join(&labels, ", ").as_str(),
            ")",
        ),
    )
}

/// How a step is carried out.
#[derive(Debug)]
pub enum StepRoute {
    /// Through the card applet of that name.
    CardApplet,
    /// FIDO2 of a card, power-cycled in the named reader.
    FidoInReader(String),
    /// FIDO2 of a card that no reader holds any more: it fails, with the reason.
    FidoWithoutReader(String),
    /// FIDO2 of a key, after a replug.
    FidoAfterReplug,
}

/// Chooses how a step is carried out. Only FIDO2 has a choice: a card that has
/// no HID node cannot be replugged and is power-cycled in its reader.
pub fn step_route(step: ResetStep, key: &PinnedKey) -> (r: StepRoute)
    ensures
        step != ResetStep::Fido <==> r is CardApplet,
        step == ResetStep::Fido && key.hid_path is Some <==> r is FidoAfterReplug,
        match r {
            StepRoute::FidoInReader(n) => opt_view(key.reader) == Some(n@),
            StepRoute::FidoWithoutReader(e) => key.reader is None && e@ == "no reader holds this card any more"@,
            _ => true,
        },
{
    match step {
        ResetStep::Fido => {
            if key.hid_path.is_some() {
                StepRoute::FidoAfterReplug
            } else {
                match &key.reader {
                    Some(n) => StepRoute::FidoInReader(n.clone()),
                    None => StepRoute::FidoWithoutReader("no reader holds this card any more".to_owned()),
                }
            }
        },
        _ => StepRoute::CardApplet,
    }
}

/// Whether one applet-level failure already tells the state of the card.
#[derive(Clone, Copy, Debug, PartialEq, Eq, Structural)]
pub enum PivResetError {
    /// The card does not support a forced reset.
    ForceResetUnsupported,
    /// The forced reset stopped half-way.
    ForceResetIncomplete,
    /// A guessed PUK was accepted.
    PukGuessAccepted,
    /// Anything else.
    Other,
}

/// What a PIV step reports when it fails in a way that does not tell the state
/// of the card.
pub open spec fn piv_failure_text(err: Seq<char>) -> Seq<char> {
    err
        + " (the wipe blocks the PIN and PUK before erasing, so PIV may now be locked but not wiped — that is not bricked: re-run `keyroostctl factory-reset` to finish it)"@
}

/// The error of a failed PIV step, with where the card stands and what
/// finishes the job.
pub fn piv_factory_reset_failure(err: &str) -> (r: String)
    ensures
        r@ == piv_failure_text(err@),
{
    cat2(
        err,
        " (the wipe blocks the PIN and PUK before erasing, so PIV may now be locked but not wiped — that is not bricked: re-run `keyroostctl factory-reset` to finish it)",
    )
}

/// The error text of a failed PIV step: three kinds speak for themselves, the
/// others get the explanation.
pub fn piv_step_error(kind: PivResetError, err: &str) -> (r: String)
    ensures
        r@ == (if kind == PivResetError::Other {
            piv_failure_text(err@)
        } else {
            err@
        }),
{
    match kind {
        PivResetError::Other => piv_factory_reset_failure(err),
        _ => err.to_owned(),
    }
}

/// Records a step's result; the reason of a failure is cleaned.
pub fn step_outcome(result: Result<(), String>) -> (r: StepOutcome)
    ensures
        match (result, r) {
            (Ok(_), StepOutcome::Wiped) => true,
            (Err(e), StepOutcome::Failed(m)) => m@ == clean(e@),
            _ => false,
        },
{
    match result {
        Ok(_) => StepOutcome::Wiped,
        Err(e) => StepOutcome::Failed(sanitize_terminal(e.as_str())),
    }
}

/// The report line of a step.
pub open spec fn outcome_text(label: Seq<char>, outcome: StepOutcome) -> Seq<char> {
    match outcome {
        StepOutcome::Wiped => padded_right(label, 8, ' ') + " wiped"@,
        StepOutcome::Failed(e) => padded_right(label, 8, ' ') + " failed: "@ + e@,
        StepOutcome::Skipped => padded_right(label, 8, ' ') + " skipped"@,
    }
}

/// The report line of a step.
pub fn outcome_line(label: &str, outcome: &StepOutcome) -> (r: String)
    ensures
        r@ == outcome_text(label@, *outcome),
{
    let head = pad_right(label, 8, ' ');
    match outcome {
        StepOutcome::Wiped => cat2(head.as_str(), " wiped"),
        StepOutcome::Failed(e) => cat3(head.as_str(), " failed: ", e.as_str()),
        StepOutcome::Skipped => cat2(head.as_str(), " skipped"),
    }
}

/// How many outcomes are failures.
pub open spec fn failures(outcomes: Seq<StepOutcome>) -> nat
    decreases outcomes.len(),
{
    if outcomes.len() == 0 {
        0
    } else {
        failures(outcomes.drop_last()) + if outcomes.last() is Failed {
            1nat
        } else {
            0nat
        }
    }
}

/// No more steps fail than there are, and none is counted as failed exactly
/// when none did fail.
pub proof fn law_failures_are_counted(outcomes: Seq<StepOutcome>)
    ensures
        failures(outcomes) <= outcomes.len(),
        failures(outcomes) == 0 <==> forall|i: int|
            0 <= i < outcomes.len() ==> !((#[trigger] outcomes[i]) is Failed),
    decreases outcomes.len(),
{
    if outcomes.len() > 0 {
        let init = outcomes.drop_last();
        law_failures_are_counted(init);
        if failures(outcomes) == 0 {
            assert forall|i: int| 0 <= i < outcomes.len() implies !((#[trigger] outcomes[i]) is Failed) by {
                if i < outcomes.len() - 1 {
                    assert(init[i] == outcomes[i]);
                }
            }
        } else if forall|i: int| 0 <= i < outcomes.len() ==> !((#[trigger] outcomes[i]) is Failed) {
            assert forall|i: int| 0 <= i < init.len() implies !((#[trigger] init[i]) is Failed) by {
                assert(init[i] == outcomes[i]);
            }
            assert(!(outcomes.last() is Failed));
        }
    }
}

/// A factory reset under way: the plan, and how the steps so far ended.
pub struct ResetRun {
    plan: Vec<PlannedStep>,
    outcomes: Vec<StepOutcome>,
}

impl ResetRun {
    /// The plan.
    pub closed spec fn plan(self) -> Seq<PlannedStep> {
        self.plan@
    }

    /// How the steps so far ended.
    pub closed spec fn outcomes(self) -> Seq<StepOutcome> {
        self.outcomes@
    }

    /// Never more outcomes than steps.
    pub open spec fn wf(self) -> bool {
        self.outcomes().len() <= self.plan().len()
    }

    /// Starts on a plan.
    pub fn new(plan: Vec<PlannedStep>) -> (r: ResetRun)
        ensures
            r.wf(),
            r.plan() == plan@,
            r.outcomes().len() == 0,
    {
        ResetRun { plan, outcomes: Vec::new() }
    }

    /// The step to carry out next, in the order of the plan; none when all
    /// have been.
    pub fn next_step(&self) -> (r: Option<ResetStep>)
        requires
            self.wf(),
        ensures
            match r {
                Some(s) => self.outcomes().len() < self.plan().len() && s
                    == self.plan()[self.outcomes().len() as int].step,
                None => self.outcomes().len() == self.plan().len(),
            },
    {
        if self.outcomes.len() < self.plan.len() {
            Some(self.plan[self.outcomes.len()].step)
        } else {
            None
        }
    }

    /// Records how the step just carried out ended, and gives its report line.
    /// A failure does not stop the run.
    pub fn record(&mut self, outcome: StepOutcome) -> (line: String)
        requires
            old(self).wf(),
            old(self).outcomes().len() < old(self).plan().len(),
        ensures
            final(self).wf(),
            final(self).plan() == old(self).plan(),
            final(self).outcomes() == old(self).outcomes().push(outcome),
            line@ == outcome_text(old(self).plan()[old(self).outcomes().len() as int].label@, outcome),
    {
        let line = outcome_line(self.plan[self.outcomes.len()].label.as_str(), &outcome);
        self.outcomes.push(outcome);
        line
    }

    /// The closing line, and the error the command ends with when a step
    /// failed.
    pub fn summary(&self) -> (r: (String, Result<(), String>))
        requires
            self.wf(),
        ensures
            r.0@ == "factory reset: "@ + dec_text(
                (self.outcomes().len() - failures(self.outcomes())) as nat,
            ) + " wiped, "@ + dec_text(
                failures(self.outcomes()),
            ) + " failed"@,
            r.1 is Ok <==> failures(self.outcomes()) == 0,
            r.1 matches Err(e) ==> e@ == dec_text(failures(self.outcomes()))
                + " applet(s) failed to reset"@,
    {
        let mut failed: usize = 0;
        let mut i: usize = 0;
        while i < self.outcomes.len()
            invariant
                i <= self.outcomes.len(),
                failed <= i,
                failed == failures(self.outcomes@.take(i as int)),
            decreases self.outcomes.len() - i,
        {
            assert(self.outcomes@.take(i as int + 1).drop_last() =~= self.outcomes@.take(i as int));
            match &self.outcomes[i] {
                StepOutcome::Failed(_) => {
                    failed = failed + 1;
                },
                _ => {},
            }
            i = i + 1;
        }
        proof {
            assert(self.outcomes@.take(i as int) =~= self.outcomes@);
            law_failures_are_counted(self.outcomes@);
        }
        let wiped: usize = self.outcomes.len() - failed;
        let line = cat5(
            "factory reset: ",
            dec_usize(wiped).as_str(),
            " wiped, ",
            dec_usize(failed).as_str(),
            " failed",
        );
        let end = if failed > 0 {
            Err(cat2(dec_usize(failed).as_str(), " applet(s) failed to reset"))
        } else {
            Ok(())
        };
        (line, end)
    }
}

/// A factory reset that may begin.
pub struct ResetStart {
    /// The key it was confirmed for.
    pub key: PinnedKey,
    /// The line that announces it.
    pub banner: String,
    /// The steps to carry out.
    pub run: ResetRun,
}

/// Which of the connected devices is wiped, or why none is. `plans` holds the
/// steps for each of the devices.
pub open spec fn reset_target(
    yes: bool,
    devices: Seq<Device>,
    reader: Option<Seq<char>>,
    name: Option<Seq<char>>,
    plans: Seq<Vec<PlannedStep>>,
) -> Result<int, Seq<char>> {
    if !yes {
        Err(FACTORY_RESET_CONSENT@)
    } else if reader is Some && name is Some {
        Err(READER_DEVICE_CONFLICT@)
    } else {
        match single_device_spec(devices, name) {
            Ok(i) => if plans[i]@.len() == 0 {
                Err(
                    "'"@ + clean(devices[i].model@) + "' exposes no resettable applet (nothing to factory-reset)"@,
                )
            } else {
                Ok(i)
            },
            Err(m) => Err(m),
        }
    }
}

/// Begins a factory reset: the user agreed to it, one key is meant, and there
/// is something on it to wipe. Its identity is pinned before any step runs.
pub fn run_factory_reset(
    yes: bool,
    devices: &[Device],
    hids: &[HidDevice],
    reader: Option<&str>,
    name: Option<&str>,
    plans: Vec<Vec<PlannedStep>>,
) -> (r: Result<ResetStart, String>)
    requires
        plans@.len() == devices@.len(),
    ensures
        match (r, reset_target(yes, devices@, opt_str(reader), opt_str(name), plans@)) {
            (Ok(s), Ok(i)) => {
                &&& 0 <= i < devices@.len()
                &&& pins(s.key, devices@[i], hids@)
                &&& s.banner@ == "\u{2192} factory-resetting "@ + clean(devices@[i].serial@) + " ("@ + joined(
                    plan_labels(plans@[i]@),
                    ", "@,
                ) + ")"@
                &&& s.run.wf()
                &&& s.run.plan() == plans@[i]@
                &&& s.run.outcomes().len() == 0
            },
            (Err(e), Err(m)) => e@ == m,
            _ => false,
        },
{
    match factory_reset_consent(yes) {
        Err(e) => return Err(e),
        Ok(()) => {},
    }
    let key = match pin_target(devices, hids, reader, name) {
        Err(e) => return Err(e),
        Ok(k) => k,
    };
    let i = match single_device_index(devices, name) {
        Err(e) => return Err(e),
        Ok(i) => i,
    };
    let mut plans = plans;
    let plan = plans.remove(i);
    match reset_banner(&key, &plan) {
        Err(e) => Err(e),
        Ok(banner) => Ok(ResetStart { key, banner, run: ResetRun::new(plan) }),
    }
}

/// How long a replugged key is waited for, in milliseconds.
pub const REINSERT_DEADLINE_MS: u64 = 3000;

/// How long to wait between two looks, in milliseconds.
pub const REINSERT_POLL_MS: u64 = 300;

/// Whether to look once more: the last look settled nothing, and the next one
/// would still be before the deadline.
pub fn look_again(is_settled: bool, elapsed_ms: u64) -> (r: bool)
    ensures
        r == (!is_settled && elapsed_ms + REINSERT_POLL_MS < REINSERT_DEADLINE_MS),
{
    !is_settled && elapsed_ms < REINSERT_DEADLINE_MS - REINSERT_POLL_MS
}

/// The serials of the devices with a FIDO interface.
pub open spec fn fido_serials(devices: Seq<Device>) -> Seq<Seq<char>>
    decreases devices.len(),
{
    if devices.len() == 0 {
        Seq::empty()
    } else if devices.last().hid_path is Some {
        fido_serials(devices.drop_last()).push(devices.last().serial@)
    } else {
        fido_serials(devices.drop_last())
    }
}

/// The HID path to reset after the replug, or why nothing may be reset.
pub open spec fn replug_spec(key: PinnedKey, present: Seq<Device>, hids: Seq<HidDevice>) -> Result<
    Seq<char>,
    Seq<char>,
> {
    let serial_less = key.serial@.len() == 0;
    match device_match(key, present, hids) {
        ReinsertMatch::Found(i) => match opt_view(present[i as int].hid_path) {
            Some(p) => Ok(p),
            None => Err(
                "'"@ + clean(present[i as int].model@)
                    + "' came back without a FIDO HID interface, so it can't be reset over FIDO2 — re-plug it and re-run `keyroostctl factory-reset --yes`."@,
            ),
        },
        ReinsertMatch::NotPresent => if serial_less {
            Err(
                "'"@ + clean(key.model@)
                    + "' exposes no serial to re-identify it by after a replug, so it can only be reset when it is the single connected key and answers over FIDO2 — and that is not what came back: found "@
                    + present_text(present)
                    + ". Nothing was reset over FIDO2 — plug the intended key in on its own and re-run `keyroostctl factory-reset --yes`."@,
            )
        } else {
            Err(
                not_present_text(
                    key.model@,
                    key.serial@,
                    3,
                    present_text(present),
                    reason_of(fido_serials(present)),
                ),
            )
        },
        ReinsertMatch::Ambiguous => if serial_less {
            Err(
                "'"@ + clean(key.model@)
                    + "' exposes no serial to re-identify it by after a replug, so it can only be told apart from other keys by being the only one connected — but more than one is: "@
                    + present_text(present)
                    + ". Nothing was reset over FIDO2 — unplug the others and re-run `keyroostctl factory-reset --yes` with only the intended key connected."@,
            )
        } else {
            Err(
                "more than one connected key reports serial "@ + clean(key.serial@)
                    + ", so the key that came back can't be told apart from the others. Nothing was reset over FIDO2 — re-run `keyroostctl factory-reset --yes` with only the intended key connected."@,
            )
        },
    }
}

fn fido_serials_of<'a>(devices: &'a [Device]) -> (r: Vec<&'a str>)
    ensures
        slice_views(r@) == fido_serials(devices@),
{
    let mut r: Vec<&'a str> = Vec::new();
    let mut i: usize = 0;
    assert(slice_views(r@) =~= fido_serials(devices@.take(0)));
    while i < devices.len()
        invariant
            i <= devices.len(),
            slice_views(r@) == fido_serials(devices@.take(i as int)),
        decreases devices.len() - i,
    {
        let d: &'a Device = &devices[i];
        assert(devices@.take(i as int + 1).drop_last() =~= devices@.take(i as int));
        if d.hid_path.is_some() {
            let ghost before = r@;
            r.push(d.serial.as_str());
            assert(slice_views(r@) =~= slice_views(before).push(d.serial@));
        }
        i = i + 1;
    }
    assert(devices@.take(i as int) =~= devices@);
    r
}

/// After the last look: the HID path of the key the wipe was confirmed for, or
/// the refusal. A path is given only for the pinned key.
pub fn fido_reset_after_replug(key: &PinnedKey, present: &[Device], hids: &[HidDevice]) -> (r: Result<
    String,
    String,
>)
    ensures
        match (r, replug_spec(*key, present@, hids@)) {
            (Ok(p), Ok(q)) => p@ == q,
            (Err(e), Err(m)) => e@ == m,
            _ => false,
        },
{
    let serial_less = key.serial.as_str().is_empty();
    let (found, _done) = match_reinsert(key, present, hids);
    match found {
        ReinsertMatch::Found(i) => {
            proof {
                if key.serial@.len() > 0 {
                    let flags = serial_flags(device_serials(present@), key.serial@);
                    lemma_hits(flags);
                    assert(hits(flags)[0] < present@.len());
                }
            }
            match &present[i].hid_path {
                Some(p) => Ok(p.clone()),
                None => Err(
                    cat3(
                        "'",
                        sanitize_terminal(present[i].model.as_str()).as_str(),
                        "' came back without a FIDO HID interface, so it can't be reset over FIDO2 — re-plug it and re-run `keyroostctl factory-reset --yes`.",
                    ),
                ),
            }
        },
        ReinsertMatch::NotPresent => {
            let seen = describe_present(present);
            if serial_less {
                Err(
                    cat5(
                        "'",
                        sanitize_terminal(key.model.as_str()).as_str(),
                        "' exposes no serial to re-identify it by after a replug, so it can only be reset when it is the single connected key and answers over FIDO2 — and that is not what came back: found ",
                        seen.as_str(),
                        ". Nothing was reset over FIDO2 — plug the intended key in on its own and re-run `keyroostctl factory-reset --yes`.",
                    ),
                )
            } else {
                let serials = fido_serials_of(present);
                Err(
                    not_present_message(
                        key.model.as_str(),
                        key.serial.as_str(),
                        REINSERT_DEADLINE_MS / 1000,
                        seen.as_str(),
                        not_present_reason(serials.as_slice()),
                    ),
                )
            }
        },
        ReinsertMatch::Ambiguous => {
            if serial_less {
                let seen = describe_present(present);
                Err(
                    cat5(
                        "'",
                        sanitize_terminal(key.model.as_str()).as_str(),
                        "' exposes no serial to re-identify it by after a replug, so it can only be told apart from other keys by being the only one connected — but more than one is: ",
                        seen.as_str(),
                        ". Nothing was reset over FIDO2 — unplug the others and re-run `keyroostctl factory-reset --yes` with only the intended key connected.",
                    ),
                )
            } else {
                Err(
                    cat3(
                        "more than one connected key reports serial ",
                        sanitize_terminal(key.serial.as_str()).as_str(),
                        ", so the key that came back can't be told apart from the others. Nothing was reset over FIDO2 — re-run `keyroostctl factory-reset --yes` with only the intended key connected.",
                    ),
                )
            }
        },
    }
}

/// A path is handed out for reset only if it belongs to the pinned key: the
/// one device that carries the pinned serial, or, where the pinned key has
/// none, the only device there is.
pub proof fn law_only_the_pinned_key_is_reset(
    key: PinnedKey,
    present: Seq<Device>,
    hids: Seq<HidDevice>,
    path: Seq<char>,
)
    requires
        present.len() <= usize::MAX,
        replug_spec(key, present, hids) == Ok::<Seq<char>, Seq<char>>(path),
    ensures
        exists|i: int|
            0 <= i < present.len() && opt_view((#[trigger] present[i]).hid_path) == Some(path)
                && present[i].serial@ == key.serial@ && (forall|k: int|
                0 <= k < present.len() && #[trigger] present[k].serial@ == key.serial@ ==> k == i) && (
            key.serial@.len() == 0 ==> present.len() == 1),
{
    if key.serial@.len() == 0 {
        assert(present[0].serial@ =~= key.serial@);
    } else {
        let serials = device_serials(present);
        let flags = serial_flags(serials, key.serial@);
        lemma_hits(flags);
        let i = hits(flags)[0];
        assert(flags[i]);
        assert(serials[i] == key.serial@);
        assert(present[i].serial@ == key.serial@);
        assert forall|k: int| 0 <= k < present.len() && #[trigger] present[k].serial@ == key.serial@ implies k
            == i by {
            assert(serials[k] == key.serial@);
            assert(flags[k]);
            assert(hits(flags).contains(k));
        }
    }
}

/// What the user does before the FIDO2 step.
pub const REPLUG_PROMPT: &'static str = "FIDO2  unplug the key, plug it back in, then press Enter\u{2026}";

/// What the user does during the FIDO2 step.
pub const TOUCH_PROMPT: &'static str = "FIDO2  touch the key now\u{2026}";

/// The failures are counted one by one: there are none at first, and recording one
/// more outcome counts one more failure if it is one, and none otherwise.
pub proof fn law_recording_counts_failures(outcomes: Seq<StepOutcome>, outcome: StepOutcome)
    ensures
        failures(Seq::<StepOutcome>::empty()) == 0,
        failures(outcomes.push(outcome)) == failures(outcomes) + (if outcome is Failed {
            1int
        } else {
            0
        }),
{
    assert(outcomes.push(outcome).drop_last() =~= outcomes);
}

/// Outcomes of two runs together fail as often as each run did.
pub proof fn law_failures_add_up(a: Seq<StepOutcome>, b: Seq<StepOutcome>)
    ensures
        failures(a + b) == failures(a) + failures(b),
    decreases b.len(),
{
    if b.len() > 0 {
        law_failures_add_up(a, b.drop_last());
        assert((a + b).drop_last() =~= a + b.drop_last());
        assert((a + b).last() == b.last());
    } else {
        assert(a + b =~= a);
    }
}

/// The USB ids at a path are those of the first node there; without a path, or
/// without a node there, there are none.
pub proof fn law_ids_are_those_of_the_first_node(path: Seq<char>, hids: Seq<HidDevice>, i: int)
    requires
        0 <= i <= hids.len(),
        forall|k: int| 0 <= k < i ==> (#[trigger] hids[k]).path@ != path,
    ensures
        i < hids.len() && hids[i].path@ == path ==> ids_at(Some(path), hids) == Some(
            (hids[i].vendor_id, hids[i].product_id),
        ),
        i == hids.len() ==> ids_at(Some(path), hids) is None,
        ids_at(None, hids) is None,
    decreases hids.len(),
{
    if i > 0 {
        assert(hids[0].path@ != path);
        let rest = hids.drop_first();
        assert forall|k: int| 0 <= k < i - 1 implies (#[trigger] rest[k]).path@ != path by {
            assert(rest[k] == hids[k + 1]);
        }
        law_ids_are_those_of_the_first_node(path, rest, i - 1);
    }
}

/// Two keys are the same product when their USB ids agree, whatever they are
/// called; only where the ids of one are unknown the model name decides. Which of
/// the two was pinned does not matter.
pub proof fn law_ids_go_before_names(
    model: Seq<char>,
    ids: Option<(u16, u16)>,
    cand_model: Seq<char>,
    cand_ids: Option<(u16, u16)>,
)
    ensures
        ids is Some && cand_ids is Some ==> (is_same_product(model, ids, cand_model, cand_ids) <==> ids == cand_ids),
        ids is None || cand_ids is None ==> (is_same_product(model, ids, cand_model, cand_ids) <==> model
            == cand_model),
        is_same_product(model, ids, cand_model, cand_ids) == is_same_product(cand_model, cand_ids, model, ids),
{
}

/// The key that carries the pinned serial is found wherever it stands, as long as
/// no other carries it.
pub proof fn law_pinned_serial_is_found(
    serial: Seq<char>,
    model: Seq<char>,
    ids: Option<(u16, u16)>,
    candidates: Seq<Candidate<'_>>,
    i: int,
)
    requires
        serial.len() > 0,
        0 <= i < candidates.len() <= usize::MAX,
        forall|k: int| 0 <= k < candidates.len() ==> (#[trigger] candidates[k].serial@ == serial <==> k == i),
    ensures
        match_of(serial, model, ids, candidates) == ReinsertMatch::Found(i as usize),
{
    let serials = serials_of(candidates);
    let flags = serial_flags(serials, serial);
    lemma_hits(flags);
    let found = hits(flags);
    assert(candidates[i].serial@ == serial);
    assert(serials[i] == serial);
    assert(flags[i]);
    assert(found.contains(i));
    assert forall|a: int| 0 <= a < found.len() implies found[a] == i by {
        assert(flags[found[a]]);
        assert(serials[found[a]] == serial);
        assert(candidates[found[a]].serial@ == serial);
    }
    if found.len() > 1 {
        assert(found[0] == i && found[1] == i);
    }
}

/// A key without a serial is found just where it is alone, speaks FIDO, has no
/// serial and is the same product; with company it is never found.
pub proof fn law_serial_less_key_has_to_be_alone(
    model: Seq<char>,
    ids: Option<(u16, u16)>,
    candidates: Seq<Candidate<'_>>,
)
    ensures
        match match_of(Seq::<char>::empty(), model, ids, candidates) {
            ReinsertMatch::Found(i) => i == 0 && candidates.len() == 1 && candidates[0].fido
                && candidates[0].serial@.len() == 0 && is_same_product(
                model,
                ids,
                candidates[0].model@,
                candidates[0].ids,
            ),
            ReinsertMatch::Ambiguous => candidates.len() > 1,
            ReinsertMatch::NotPresent => candidates.len() == 0 || candidates.len() == 1 && !(candidates[0].fido
                && candidates[0].serial@.len() == 0 && is_same_product(
                model,
                ids,
                candidates[0].model@,
                candidates[0].ids,
            )),
        },
{
}

/// The poll ends with a key that speaks FIDO or with a serial that identifies
/// none; a key that is still coming back is waited for.
pub proof fn law_poll_waits_for_fido(candidates: Seq<Candidate<'_>>, i: usize)
    ensures
        settled(ReinsertMatch::Ambiguous, candidates),
        !settled(ReinsertMatch::NotPresent, candidates),
        settled(ReinsertMatch::Found(i), candidates) <==> i < candidates.len() && candidates[i as int].fido,
{
}

/// A swap is claimed just where something is visible and all of it names itself.
pub proof fn law_swap_is_claimed_when_all_are_named(serials: Seq<Seq<char>>)
    ensures
        reason_of(serials) == NotPresentReason::DifferentKey <==> serials.len() > 0 && forall|i: int|
            0 <= i < serials.len() ==> (#[trigger] serials[i]).len() > 0,
{
}

/// The match over the devices is the match over the candidates that stand for
/// them, and so is whether it settles the poll.
pub proof fn law_devices_match_as_their_candidates(
    key: PinnedKey,
    devices: Seq<Device>,
    hids: Seq<HidDevice>,
    candidates: Seq<Candidate<'_>>,
    found: ReinsertMatch,
)
    requires
        candidates_are(candidates, devices, hids),
    ensures
        device_match(key, devices, hids) == match_of(key.serial@, key.model@, key.ids, candidates),
        device_settled(found, devices) == settled(found, candidates),
{
    assert(serials_of(candidates) =~= device_serials(devices));
    if devices.len() > 0 {
        assert(candidate_is(candidates[0], devices[0], hids));
    }
    if let ReinsertMatch::Found(i) = found {
        if i < devices.len() {
            assert(candidate_is(candidates[i as int], devices[i as int], hids));
        }
    }
}

/// A key is pinned with its own serial, model, USB ids, path and reader, so that
/// when it comes back alone and speaks FIDO it is found, and its path is the one
/// that is reset.
pub proof fn law_pinned_key_that_comes_back_is_reset(key: PinnedKey, d: Device, hids: Seq<HidDevice>)
    requires
        pins(key, d, hids),
    ensures
        key.serial@ == d.serial@ && key.model@ == d.model@,
        opt_view(key.hid_path) == opt_view(d.hid_path) && opt_view(key.reader) == opt_view(d.reader),
        d.hid_path is Some ==> device_match(key, seq![d], hids) == ReinsertMatch::Found(0),
        d.hid_path matches Some(p) ==> replug_spec(key, seq![d], hids) == Ok::<Seq<char>, Seq<char>>(p@),
{
    let serials = device_serials(seq![d]);
    let flags = serial_flags(serials, key.serial@);
    lemma_hits(flags);
    assert(serials[0] == key.serial@);
    assert(flags[0]);
    assert(hits(flags).contains(0));
}

/// Among the keys that are there after the replug the one with the pinned serial
/// is reset, at its own path, as long as no other has that serial.
pub proof fn law_replugged_key_is_reset_at_its_path(
    key: PinnedKey,
    present: Seq<Device>,
    hids: Seq<HidDevice>,
    i: int,
)
    requires
        key.serial@.len() > 0,
        0 <= i < present.len() <= usize::MAX,
        forall|k: int| 0 <= k < present.len() ==> (#[trigger] present[k].serial@ == key.serial@ <==> k == i),
    ensures
        match present[i].hid_path {
            Some(p) => replug_spec(key, present, hids) == Ok::<Seq<char>, Seq<char>>(p@),
            None => replug_spec(key, present, hids) is Err,
        },
{
    let serials = device_serials(present);
    let flags = serial_flags(serials, key.serial@);
    lemma_hits(flags);
    let found = hits(flags);
    assert(present[i].serial@ == key.serial@);
    assert(serials[i] == key.serial@);
    assert(flags[i]);
    assert(found.contains(i));
    assert forall|a: int| 0 <= a < found.len() implies found[a] == i by {
        assert(flags[found[a]]);
        assert(serials[found[a]] == key.serial@);
        assert(present[found[a]].serial@ == key.serial@);
    }
    if found.len() > 1 {
        assert(found[0] == i && found[1] == i);
    }
}

/// A reset begins just where the user agreed, did not name both a reader and a
/// device, one key is meant, and there is something on it to wipe; it is that key.
pub proof fn law_reset_wipes_the_meant_key(
    yes: bool,
    devices: Seq<Device>,
    reader: Option<Seq<char>>,
    name: Option<Seq<char>>,
    plans: Seq<Vec<PlannedStep>>,
    i: int,
)
    ensures
        reset_target(yes, devices, reader, name, plans) == Ok::<int, Seq<char>>(i) <==> {
            &&& yes
            &&& !(reader is Some && name is Some)
            &&& single_device_spec(devices, name) == Ok::<int, Seq<char>>(i)
            &&& plans[i]@.len() > 0
        },
        !yes ==> reset_target(yes, devices, reader, name, plans) == Err::<int, Seq<char>>(FACTORY_RESET_CONSENT@),
{
}

/// The serials that are looked at are those of the devices with a FIDO interface,
/// in order.
pub proof fn law_only_fido_serials_are_looked_at(devices: Seq<Device>, d: Device)
    ensures
        fido_serials(Seq::<Device>::empty()).len() == 0,
        d.hid_path is Some ==> fido_serials(devices.push(d)) == fido_serials(devices).push(d.serial@),
        d.hid_path is None ==> fido_serials(devices.push(d)) == fido_serials(devices),
{
    assert(devices.push(d).drop_last() =~= devices);
}

/// The line of a step begins with its label and says how it ended.
pub proof fn law_outcome_line_says_how_it_ended(label: Seq<char>, reason: String)
    ensures
        outcome_text(label, StepOutcome::Wiped) == padded_right(label, 8, ' ') + " wiped"@,
        outcome_text(label, StepOutcome::Skipped) == padded_right(label, 8, ' ') + " skipped"@,
        outcome_text(label, StepOutcome::Failed(reason)) == padded_right(label, 8, ' ') + " failed: "@ + reason@,
{
}

/// A key that is not there is told by the model and the serial that were meant and
/// by what is there instead.
pub proof fn law_missing_key_is_told_apart(
    model: Seq<char>,
    serial: Seq<char>,
    waited: nat,
    present: Seq<char>,
    reason: NotPresentReason,
)
    ensures
        ({
            let t = not_present_text(model, serial, waited, present, reason);
            &&& has_run(t, clean(model) + " serial "@ + clean(serial))
            &&& has_run(t, "found "@ + present + "."@)
            &&& reason is Unidentified ==> has_run(t, "within "@ + dec_text(waited) + " seconds"@)
        }),
{
    let t = not_present_text(model, serial, waited, present, reason);
    let who = clean(model) + " serial "@ + clean(serial);
    reveal_strlit("found ");
    reveal_strlit(".");
    match reason {
        NotPresentReason::DifferentKey => {
            let a = "the key now connected is not the one this factory reset was confirmed for: expected "@;
            let rest = " Nothing was reset over FIDO2 — plug the intended key in and re-run `keyroostctl factory-reset --yes`."@;
            reveal_strlit(", found ");
            reveal_strlit(", ");
            reveal_strlit(" Nothing was reset over FIDO2 — plug the intended key in and re-run `keyroostctl factory-reset --yes`.");
            reveal_strlit(". Nothing was reset over FIDO2 — plug the intended key in and re-run `keyroostctl factory-reset --yes`.");
            assert(", found "@ =~= ", "@ + "found "@);
            assert(". Nothing was reset over FIDO2 — plug the intended key in and re-run `keyroostctl factory-reset --yes`."@
                =~= "."@ + rest);
            lemma_holds(t, a, who, ", found "@ + present + "."@ + rest);
            lemma_holds(t, a + who + ", "@, "found "@ + present + "."@, rest);
        },
        NotPresentReason::Unidentified => {
            let a = "the key this factory reset was confirmed for ("@;
            let tail = t.skip((a + who + ") did not come back with an identity to match within "@ + dec_text(waited)
                + " seconds of the replug: found "@ + present).len() as int);
            reveal_strlit(") did not come back with an identity to match within ");
            reveal_strlit(") did not come back with an identity to match ");
            reveal_strlit("within ");
            reveal_strlit(" seconds of the replug: found ");
            reveal_strlit(" seconds");
            reveal_strlit(" of the replug: ");
            reveal_strlit(". That is not a different key — its serial is read over the card interface, which re-registers with the smart-card service a beat after the FIDO one, so a key that is simply slow to settle looks exactly like this. Nothing was reset over FIDO2 — give it a moment, then run `keyroostctl fido reset --yes` to finish the wipe (re-running `keyroostctl factory-reset --yes` would repeat the applet resets and race the same way).");
            assert(") did not come back with an identity to match within "@
                =~= ") did not come back with an identity to match "@ + "within "@);
            assert(" seconds of the replug: found "@ =~= " seconds"@ + " of the replug: "@ + "found "@);
            let b = ") did not come back with an identity to match "@;
            let c = "within "@ + dec_text(waited) + " seconds"@;
            assert(t =~= a + who + b + c + " of the replug: "@ + "found "@ + present + tail);
            assert(tail.len() > 0 && tail[0] == '.');
            assert(tail =~= "."@ + tail.skip(1));
            lemma_holds(t, a, who, b + c + " of the replug: "@ + "found "@ + present + tail);
            lemma_holds(t, a + who + b, c, " of the replug: "@ + "found "@ + present + tail);
            lemma_holds(t, a + who + b + c + " of the replug: "@, "found "@ + present + "."@, tail.skip(1));
        },
    }
}

/// What is there is told key by key, each by its model and its serial where it has
/// one.
pub proof fn law_present_keys_are_named(devices: Seq<Device>, d: Device)
    ensures
        present_text(Seq::<Device>::empty()) == "no connected key"@,
        present_text(seq![d]) == present_entry(d),
        devices.len() > 0 ==> present_text(devices.push(d)) == present_text(devices) + ", "@ + present_entry(d),
        d.serial@.len() > 0 ==> present_entry(d) == clean(d.model@) + " serial "@ + clean(d.serial@),
        d.serial@.len() == 0 ==> present_entry(d) == clean(d.model@) + " with no serial"@,
{
    let f = |d: Device| present_entry(d);
    assert(seq![d].map_values(f) =~= seq![present_entry(d)]);
    assert(devices.push(d).map_values(f) =~= devices.map_values(f).push(present_entry(d)));
    assert(devices.map_values(f).push(present_entry(d)).drop_last() =~= devices.map_values(f));
}

} // verus!
