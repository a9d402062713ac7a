//! What a multi-profile token says, and how it is shown.

use crate::json_out::{MoltoInfoJson, MoltoSlotJson, MoltoSlotsJson};
use crate::render::{molto_algo_label, molto_algo_spec};
use crate::sanitize::{clean, sanitize_terminal};
use crate::text::{
    cat2, cat3, cat4, cat5, cat6, dec_text, dec_u32, dec_u64, dec_u8, dec_usize, magnitude, opt_view, pad_left,
    pad_right, padded_left, padded_right, Lines,
};
use crate::factory_reset::clone_opt;
use vstd::prelude::*;

verus! {

/// What a profile shows without a key.
#[derive(Debug)]
pub struct ProfilePublicData {
    /// Its title, if it has one.
    pub title: Option<String>,
    /// Flag byte.
    pub flag: u8,
    /// Algorithm byte.
    pub algorithm: u8,
    /// Time step in seconds.
    pub time_step: u8,
    /// First time field.
    pub time_a: u32,
    /// Second time field.
    pub time_b: u32,
    /// Number of digits.
    pub digits: u8,
    /// Whether it holds a seed.
    pub seed_present: bool,
}

/// Serial and clock of a token.
#[derive(Debug)]
pub struct TokenInfo {
    /// Serial number, as the token gives it.
    pub serial: String,
    /// Clock in seconds since 1970.
    pub utc_time: u32,
}

/// How far the token's clock is ahead of the host's, in seconds.
pub fn drift(utc_time: u32, now: u32) -> (r: i64)
    ensures
        r == utc_time - now,
{
    utc_time as i64 - now as i64
}

/// Serial and clock in machine-readable form.
pub fn molto_info_json(info: &TokenInfo, now: u32) -> (r: MoltoInfoJson)
    ensures
        r.serial@ == info.serial@,
        r.utc == info.utc_time,
        r.drift_seconds == info.utc_time - now,
{
    MoltoInfoJson { serial: info.serial.clone(), utc: info.utc_time, drift_seconds: drift(info.utc_time, now) }
}

/// The magnitude of an integer.
pub open spec fn abs(n: int) -> nat {
    if n < 0 {
        (-n) as nat
    } else {
        n as nat
    }
}

/// The warning for a clock that is off by more than half a minute.
pub open spec fn drift_warning(d: int) -> Option<Seq<char>> {
    if abs(d) > 30 {
        Some(
            "warning: device clock is "@ + dec_text(abs(d)) + " seconds "@ + (if d > 0 {
                "ahead of"@
            } else {
                "behind"@
            })
                + " the host clock — codes may be rejected. Run `keyroostctl molto sync-time --all` to fix."@,
        )
    } else {
        None
    }
}

/// Serial and clock as two lines, and a warning when the clock is off.
pub fn print_info(info: &TokenInfo, now: u32) -> (r: (Lines, Option<String>))
    ensures
        r.0@ == seq![
            "device serial: "@ + clean(info.serial@),
            "device UTC:    "@ + dec_text(info.utc_time as nat) + " (epoch)"@,
        ],
        opt_view(r.1) == drift_warning(info.utc_time - now),
{
    let mut out = Lines::new();
    out.say(cat2("device serial: ", sanitize_terminal(info.serial.as_str()).as_str()));
    out.say(cat3("device UTC:    ", dec_u32(info.utc_time).as_str(), " (epoch)"));
    assert(out@ =~= seq![
        "device serial: "@ + clean(info.serial@),
        "device UTC:    "@ + dec_text(info.utc_time as nat) + " (epoch)"@,
    ]);
    let d: i64 = drift(info.utc_time, now);
    let m: u64 = magnitude(d);
    if m > 30 {
        let side = if d > 0 {
            "ahead of"
        } else {
            "behind"
        };
        let w = cat5(
            "warning: device clock is ",
            dec_u64(m).as_str(),
            " seconds ",
            side,
            " the host clock — codes may be rejected. Run `keyroostctl molto sync-time --all` to fix.",
        );
        (out, Some(w))
    } else {
        (out, None)
    }
}

/// The reads before the first that failed.
pub open spec fn good_prefix<B, E>(reads: Seq<(u8, Result<B, E>)>) -> Seq<B>
    decreases reads.len(),
{
    if reads.len() == 0 {
        Seq::empty()
    } else {
        match reads[0].1 {
            Ok(b) => seq![b] + good_prefix(reads.drop_first()),
            Err(_) => Seq::empty(),
        }
    }
}

/// The first read that failed.
pub open spec fn first_failure<B, E>(reads: Seq<(u8, Result<B, E>)>) -> Option<(u8, E)>
    decreases reads.len(),
{
    if reads.len() == 0 {
        None
    } else {
        match reads[0].1 {
            Ok(_) => first_failure(reads.drop_first()),
            Err(e) => Some((reads[0].0, e)),
        }
    }
}

/// Profiles read one after the other until a read fails.
pub struct SlotSweep<B, E> {
    /// The profiles read so far.
    pub slots: Vec<B>,
    /// The read that failed, if one did.
    pub failed: Option<(u8, E)>,
}

impl<B, E> SlotSweep<B, E> {
    /// What is known after `reads`.
    pub open spec fn after(self, reads: Seq<(u8, Result<B, E>)>) -> bool {
        self.slots@ == good_prefix(reads) && self.failed == first_failure(reads)
    }

    /// Nothing read yet.
    pub fn new() -> (r: Self)
        ensures
            r.after(Seq::empty()),
    {
        let r = SlotSweep { slots: Vec::new(), failed: None };
        assert(r.slots@ =~= good_prefix(Seq::<(u8, Result<B, E>)>::empty()));
        r
    }

    /// Takes the next read and says whether to go on.
    pub fn step(&mut self, slot: u8, read: Result<B, E>) -> (more: bool)
        requires
            old(self).failed is None,
        ensures
            more == (read is Ok),
            match read {
                Ok(b) => final(self).slots@ == old(self).slots@.push(b) && final(self).failed is None,
                Err(e) => final(self).slots@ == old(self).slots@ && final(self).failed == Some((slot, e)),
            },
    {
        match read {
            Ok(b) => {
                self.slots.push(b);
                true
            },
            Err(e) => {
                self.failed = Some((slot, e));
                false
            },
        }
    }
}

proof fn lemma_good_extends<B, E>(reads: Seq<(u8, Result<B, E>)>, k: int)
    requires
        0 <= k < reads.len(),
        first_failure(reads.take(k)) is None,
    ensures
        match reads[k].1 {
            Ok(b) => good_prefix(reads.take(k + 1)) == good_prefix(reads.take(k)).push(b) && first_failure(
                reads.take(k + 1),
            ) is None,
            Err(e) => good_prefix(reads) == good_prefix(reads.take(k)) && first_failure(reads) == Some(
                (reads[k].0, e),
            ),
        },
    decreases k,
{
    if k == 0 {
        assert(reads.take(0).len() == 0);
        assert(reads.take(1)[0] == reads[0]);
        assert(reads.take(1).drop_first().len() == 0);
        match reads[0].1 {
            Ok(b) => {
                assert(good_prefix(reads.take(1).drop_first()) =~= Seq::<B>::empty());
                assert(seq![b] + Seq::<B>::empty() =~= Seq::<B>::empty().push(b));
                assert(good_prefix(reads.take(0)) =~= Seq::<B>::empty());
                assert(first_failure(reads.take(1).drop_first()) is None);
            },
            Err(_) => {
                assert(good_prefix(reads.take(0)) =~= Seq::<B>::empty());
            },
        }
    } else {
        let rest = reads.drop_first();
        assert(reads.take(k)[0] == reads[0]);
        assert(reads.take(k).drop_first() =~= rest.take(k - 1));
        assert(reads.take(k + 1)[0] == reads[0]);
        assert(reads.take(k + 1).drop_first() =~= rest.take(k));
        assert(rest[k - 1] == reads[k]);
        lemma_good_extends(rest, k - 1);
        match reads[0].1 {
            Ok(b0) => {
                match reads[k].1 {
                    Ok(b) => {
                        assert(seq![b0] + good_prefix(rest.take(k - 1)).push(b) =~= (seq![b0] + good_prefix(
                            rest.take(k - 1),
                        )).push(b));
                    },
                    Err(_) => {},
                }
            },
            Err(_) => {},
        }
    }
}

/// Takes reads until one fails: everything before it is kept, and the read
/// that failed is reported beside it.
pub fn sweep_until_error<B, E>(reads: Vec<(u8, Result<B, E>)>) -> (r: (Vec<B>, Option<(u8, E)>))
    ensures
        r.0@ == good_prefix(reads@),
        r.1 == first_failure(reads@),
{
    let ghost all = reads@;
    let mut sweep: SlotSweep<B, E> = SlotSweep::new();
    assert(all.take(0) =~= Seq::empty());
    for (slot, read) in it: reads
        invariant
            it.seq() == all,
            sweep.failed is None,
            sweep.after(all.take(it.index() as int)),
    {
        proof {
            lemma_good_extends(all, it.index() as int);
        }
        if !sweep.step(slot, read) {
            return (sweep.slots, sweep.failed);
        }
    }
    assert(all.take(all.len() as int) =~= all);
    (sweep.slots, sweep.failed)
}

/// A sweep keeps no more than was read, and without a failure it keeps one
/// profile for each read.
pub proof fn law_sweep_keeps_the_prefix<B, E>(reads: Seq<(u8, Result<B, E>)>)
    ensures
        good_prefix(reads).len() <= reads.len(),
        first_failure(reads) is None ==> good_prefix(reads).len() == reads.len(),
        first_failure(reads) is Some ==> good_prefix(reads).len() < reads.len() && reads[good_prefix(
            reads,
        ).len() as int].1 is Err,
        forall|i: int|
            0 <= i < good_prefix(reads).len() ==> reads[i].1 == Ok::<B, E>(#[trigger] good_prefix(reads)[i]),
    decreases reads.len(),
{
    if reads.len() > 0 {
        let rest = reads.drop_first();
        law_sweep_keeps_the_prefix(rest);
        match reads[0].1 {
            Ok(b) => {
                assert forall|i: int| 0 <= i < good_prefix(reads).len() implies reads[i].1 == Ok::<B, E>(
                    #[trigger] good_prefix(reads)[i],
                ) by {
                    if i > 0 {
                        assert(good_prefix(reads)[i] == good_prefix(rest)[i - 1]);
                        assert(rest[i - 1] == reads[i]);
                    }
                }
            },
            Err(_) => {},
        }
    }
}

/// The machine-readable form of a profile.
pub open spec fn slot_json_is(j: MoltoSlotJson, slot: int, b: ProfilePublicData) -> bool {
    &&& j.slot == slot
    &&& j.occupied == b.seed_present
    &&& opt_view(j.title) == opt_view(b.title)
    &&& j.flag == b.flag
    &&& j.algorithm == b.algorithm
    &&& j.time_step == b.time_step
    &&& j.digits == b.digits
    &&& j.time_a == b.time_a
    &&& j.time_b == b.time_b
}

/// The profiles in machine-readable form. It is all or nothing: a sweep that
/// failed gives an error and no profiles.
pub fn molto_slots_json(serial: &str, slots: &Vec<ProfilePublicData>, failed: Option<(u8, String)>) -> (r:
    Result<MoltoSlotsJson, String>)
    requires
        slots@.len() <= 100,
    ensures
        match (r, failed) {
            (Ok(j), None) => {
                &&& j.serial@ == serial@
                &&& j.slots@.len() == slots@.len()
                &&& forall|i: int| 0 <= i < slots@.len() ==> slot_json_is(#[trigger] j.slots@[i], i, slots@[i])
            },
            (Err(e), Some(f)) => e@ == "reading slot "@ + dec_text(f.0 as nat) + "'s public block failed: "@
                + f.1@,
            _ => false,
        },
{
    match failed {
        Some(f) => Err(
            cat4("reading slot ", dec_u8(f.0).as_str(), "'s public block failed: ", f.1.as_str()),
        ),
        None => {
            let mut out: Vec<MoltoSlotJson> = Vec::new();
            let mut i: usize = 0;
            while i < slots.len()
                invariant
                    i <= slots.len(),
                    slots@.len() <= 100,
                    out.len() == i,
                    forall|k: int| 0 <= k < i ==> slot_json_is(#[trigger] out@[k], k, slots@[k]),
                decreases slots.len() - i,
            {
                let b = &slots[i];
                out.push(
                    MoltoSlotJson {
                        slot: i as u8,
                        occupied: b.seed_present,
                        title: clone_opt(&b.title),
                        flag: b.flag,
                        algorithm: b.algorithm,
                        time_step: b.time_step,
                        digits: b.digits,
                        time_a: b.time_a,
                        time_b: b.time_b,
                    },
                );
                i = i + 1;
            }
            Ok(MoltoSlotsJson { serial: serial.to_owned(), slots: out })
        },
    }
}

/// One row of the table of profiles.
pub open spec fn table_row(
    a: Seq<char>,
    b: Seq<char>,
    c: Seq<char>,
    d: Seq<char>,
    e: Seq<char>,
    f: Seq<char>,
) -> Seq<char> {
    padded_left(a, 4, ' ') + "  "@ + padded_left(b, 8, ' ') + "  "@ + padded_right(c, 16, ' ') + "  "@ + (
    padded_right(d, 6, ' ') + "  "@ + padded_left(e, 4, ' ') + "  "@ + padded_left(f, 6, ' '))
}

fn table_row_of(a: &str, b: &str, c: &str, d: &str, e: &str, f: &str) -> (r: String)
    ensures
        r@ == table_row(a@, b@, c@, d@, e@, f@),
{
    let left = cat6(
        pad_left(a, 4, ' ').as_str(),
        "  ",
        pad_left(b, 8, ' ').as_str(),
        "  ",
        pad_right(c, 16, ' ').as_str(),
        "  ",
    );
    let right = cat5(
        pad_right(d, 6, ' ').as_str(),
        "  ",
        pad_left(e, 4, ' ').as_str(),
        "  ",
        pad_left(f, 6, ' ').as_str(),
    );
    cat2(left.as_str(), right.as_str())
}

/// The title as a row shows it.
pub open spec fn shown_title(t: Option<String>) -> Seq<char> {
    match t {
        Some(s) => clean(s@),
        None => Seq::empty(),
    }
}

/// The row of a profile.
pub open spec fn slot_row(i: nat, b: ProfilePublicData) -> Seq<char> {
    table_row(
        dec_text(i),
        if b.seed_present {
            "yes"@
        } else {
            "-"@
        },
        shown_title(b.title),
        molto_algo_spec(b.algorithm),
        dec_text(b.time_step as nat),
        dec_text(b.digits as nat),
    )
}

/// Whether a profile is listed.
pub open spec fn listed(b: ProfilePublicData, all: bool) -> bool {
    all || b.seed_present || b.title is Some
}

/// The rows of the profiles that are listed.
pub open spec fn slot_rows(slots: Seq<ProfilePublicData>, all: bool) -> Seq<Seq<char>>
    decreases slots.len(),
{
    if slots.len() == 0 {
        Seq::empty()
    } else if listed(slots.last(), all) {
        slot_rows(slots.drop_last(), all).push(slot_row((slots.len() - 1) as nat, slots.last()))
    } else {
        slot_rows(slots.drop_last(), all)
    }
}

/// The lines of the table, and how the command ends.
pub open spec fn slots_table(
    slots: Seq<ProfilePublicData>,
    all: bool,
    failed: Option<(u8, Seq<char>)>,
) -> (Seq<Seq<char>>, Result<(), Seq<char>>) {
    let rows = slot_rows(slots, all);
    let head = seq![table_row("slot"@, "occupied"@, "title"@, "algo"@, "step"@, "digits"@)];
    match failed {
        None => if rows.len() == 0 {
            (seq!["no occupied or titled slots (use --all to list all 100)"@], Ok(()))
        } else {
            (head + rows, Ok(()))
        },
        Some(f) => {
            let n = dec_text(f.0 as nat);
            let note = "read failed here — slots "@ + n + "..=99 not shown: "@ + f.1;
            (
                (head + rows).push(padded_left(n, 4, ' ') + "  "@ + clean(note)),
                Err("slot sweep incomplete: slot "@ + n + " failed: "@ + f.1),
            )
        },
    }
}

/// The profiles as a table. What was read before a failure is still shown,
/// with a row for the failure; the command then ends in an error.
pub fn molto_slots_table(slots: &Vec<ProfilePublicData>, all: bool, failed: Option<(u8, String)>) -> (r: (
    Lines,
    Result<(), String>,
))
    ensures
        ({
            let want = slots_table(
                slots@,
                all,
                match failed {
                    Some(f) => Some((f.0, f.1@)),
                    None => None,
                },
            );
            &&& r.0@ == want.0
            &&& match (r.1, want.1) {
                (Ok(_), Ok(_)) => true,
                (Err(e), Err(m)) => e@ == m,
                _ => false,
            }
        }),
{
    let mut rows = Lines::new();
    let mut i: usize = 0;
    assert(slots@.take(0).len() == 0);
    assert(rows@ =~= slot_rows(slots@.take(0), all));
    while i < slots.len()
        invariant
            i <= slots.len(),
            rows@ == slot_rows(slots@.take(i as int), all),
        decreases slots.len() - i,
    {
        let b = &slots[i];
        assert(slots@.take(i as int + 1).drop_last() =~= slots@.take(i as int));
        if all || b.seed_present || b.title.is_some() {
            let title = match &b.title {
                Some(t) => sanitize_terminal(t.as_str()),
                None => String::new(),
            };
            let occupied = if b.seed_present {
                "yes"
            } else {
                "-"
            };
            rows.say(
                table_row_of(
                    dec_usize(i).as_str(),
                    occupied,
                    title.as_str(),
                    molto_algo_label(b.algorithm).as_str(),
                    dec_u8(b.time_step).as_str(),
                    dec_u8(b.digits).as_str(),
                ),
            );
        }
        i = i + 1;
    }
    assert(slots@.take(i as int) =~= slots@);
    if rows.lines.len() == 0 && failed.is_none() {
        let mut out = Lines::new();
        out.put("no occupied or titled slots (use --all to list all 100)");
        assert(rows@.len() == 0);
        assert(out@ =~= seq!["no occupied or titled slots (use --all to list all 100)"@]);
        return (out, Ok(()));
    }
    let ghost body = rows@;
    assert(body.len() == rows.lines@.len());
    let mut out = Lines::new();
    out.say(table_row_of("slot", "occupied", "title", "algo", "step", "digits"));
    out.extend(rows);
    assert(out@ =~= seq![table_row("slot"@, "occupied"@, "title"@, "algo"@, "step"@, "digits"@)] + body);
    match failed {
        None => (out, Ok(())),
        Some(f) => {
            let n = dec_u8(f.0);
            let note = cat4("read failed here — slots ", n.as_str(), "..=99 not shown: ", f.1.as_str());
            out.say(
                cat3(pad_left(n.as_str(), 4, ' ').as_str(), "  ", sanitize_terminal(note.as_str()).as_str()),
            );
            (out, Err(cat4("slot sweep incomplete: slot ", n.as_str(), " failed: ", f.1.as_str())))
        },
    }
}

/// A profile's title and whether it holds a seed.
pub fn title_lines(profile: u8, b: &ProfilePublicData) -> (r: Lines)
    ensures
        r@ == seq![
            match b.title {
                Some(t) => "slot #"@ + dec_text(profile as nat) + " title: "@ + clean(t@),
                None => "slot #"@ + dec_text(profile as nat) + " has no title"@,
            },
            "occupied: "@ + (if b.seed_present {
                "yes"@
            } else {
                "no"@
            }),
        ],
{
    let mut out = Lines::new();
    match &b.title {
        Some(t) => out.say(
            cat4("slot #", dec_u8(profile).as_str(), " title: ", sanitize_terminal(t.as_str()).as_str()),
        ),
        None => out.say(cat3("slot #", dec_u8(profile).as_str(), " has no title")),
    }
    out.say(
        cat2(
            "occupied: ",
            if b.seed_present {
                "yes"
            } else {
                "no"
            },
        ),
    );
    assert(out@ =~= seq![out@[0], out@[1]]);
    out
}

/// What a profile holds, shown before its seed is deleted.
pub fn delete_preview(profile: u8, b: &ProfilePublicData) -> (r: String)
    ensures
        r@ == "slot #"@ + dec_text(profile as nat) + ": occupied: "@ + (if b.seed_present {
            "yes"@
        } else {
            "no"@
        }) + ", title: "@ + (match b.title {
            Some(t) => clean(t@),
            None => "(none)"@,
        }),
{
    let title = match &b.title {
        Some(t) => sanitize_terminal(t.as_str()),
        None => "(none)".to_owned(),
    };
    cat6(
        "slot #",
        dec_u8(profile).as_str(),
        ": occupied: ",
        if b.seed_present {
            "yes"
        } else {
            "no"
        },
        ", title: ",
        title.as_str(),
    )
}

/// What became of a seed to be deleted.
pub fn deleted_line(profile: u8, was_there: bool) -> (r: String)
    ensures
        r@ == (if was_there {
            "seed deleted from slot #"@ + dec_text(profile as nat) + "; the title (if any) remains"@
        } else {
            "slot #"@ + dec_text(profile as nat) + " was already empty"@
        }),
{
    if was_there {
        cat3("seed deleted from slot #", dec_u8(profile).as_str(), "; the title (if any) remains")
    } else {
        cat3("slot #", dec_u8(profile).as_str(), " was already empty")
    }
}

/// What became of one profile's clock while all are set.
pub fn sync_line(profile: u8, error: Option<&str>) -> (r: String)
    ensures
        r@ == (match error {
            None => "synced profile #"@ + dec_text(profile as nat),
            Some(e) => "profile #"@ + dec_text(profile as nat) + " failed: "@ + e@,
        }),
{
    match error {
        None => cat2("synced profile #", dec_u8(profile).as_str()),
        Some(e) => cat4("profile #", dec_u8(profile).as_str(), " failed: ", e),
    }
}

/// The failure that ended a sweep is the first one, with the profile it befell.
pub proof fn law_sweep_names_its_first_failure<B, E>(reads: Seq<(u8, Result<B, E>)>, i: int, e: E)
    requires
        0 <= i < reads.len(),
        forall|k: int| 0 <= k < i ==> (#[trigger] reads[k]).1 is Ok,
        reads[i].1 == Err::<B, E>(e),
    ensures
        first_failure(reads) == Some((reads[i].0, e)),
        good_prefix(reads).len() == i,
    decreases reads.len(),
{
    if i > 0 {
        assert(reads[0].1 is Ok);
        let rest = reads.drop_first();
        assert forall|k: int| 0 <= k < i - 1 implies (#[trigger] rest[k]).1 is Ok by {
            assert(rest[k] == reads[k + 1]);
        }
        law_sweep_names_its_first_failure(rest, i - 1, e);
    }
}

/// A clock that is off by more than half a minute is warned of, in either
/// direction, and no other.
pub proof fn law_clock_may_be_half_a_minute_off(d: int)
    ensures
        drift_warning(d) is Some <==> d > 30 || d < -30,
        d > 30 ==> drift_warning(d) == Some(
            "warning: device clock is "@ + dec_text(d as nat) + " seconds "@ + "ahead of"@
                + " the host clock — codes may be rejected. Run `keyroostctl molto sync-time --all` to fix."@,
        ),
        d < -30 ==> drift_warning(d) == Some(
            "warning: device clock is "@ + dec_text((0 - d) as nat) + " seconds "@ + "behind"@
                + " the host clock — codes may be rejected. Run `keyroostctl molto sync-time --all` to fix."@,
        ),
{
}

/// The profiles that are listed are those with a seed or a title, or all of them
/// where that was asked for, each under its own number and in order.
pub proof fn law_listed_profiles_keep_their_numbers(
    slots: Seq<ProfilePublicData>,
    b: ProfilePublicData,
    all: bool,
)
    ensures
        slot_rows(Seq::<ProfilePublicData>::empty(), all).len() == 0,
        slot_rows(slots.push(b), all) == (if all || b.seed_present || b.title is Some {
            slot_rows(slots, all).push(slot_row(slots.len(), b))
        } else {
            slot_rows(slots, all)
        }),
{
    assert(slots.push(b).drop_last() =~= slots);
}

/// A table of all that could be read ends well just where nothing failed; where
/// something did, what was read is still shown and the profile is named.
pub proof fn law_incomplete_table_is_an_error(
    slots: Seq<ProfilePublicData>,
    all: bool,
    failed: Option<(u8, Seq<char>)>,
)
    ensures
        slots_table(slots, all, failed).1 is Ok <==> failed is None,
        failed matches Some(f) ==> slots_table(slots, all, failed).1 == Err::<(), Seq<char>>(
            "slot sweep incomplete: slot "@ + dec_text(f.0 as nat) + " failed: "@ + f.1,
        ),
        failed is Some ==> slots_table(slots, all, failed).0.len() == slot_rows(slots, all).len() + 2,
        failed is None && slot_rows(slots, all).len() > 0 ==> slots_table(slots, all, failed).0.len() == slot_rows(
            slots,
            all,
        ).len() + 1,
        forall|i: int|
            0 <= i < slot_rows(slots, all).len() ==> slots_table(slots, all, failed).0[i + 1] == #[trigger] slot_rows(
                slots,
                all,
            )[i],
{
}

/// A profile in machine-readable form keeps every field of it in its place.
pub proof fn law_profile_fields_keep_their_places(j: MoltoSlotJson, slot: int, b: ProfilePublicData)
    requires
        slot_json_is(j, slot, b),
    ensures
        j.slot == slot && j.occupied == b.seed_present && opt_view(j.title) == opt_view(b.title) && j.flag == b.flag,
        j.algorithm == b.algorithm && j.time_step == b.time_step && j.digits == b.digits,
        j.time_a == b.time_a && j.time_b == b.time_b,
{
}

/// A row of the table has the profile's number first, then whether it holds a seed,
/// its title, its hash, its time step and its number of digits, each in a column of
/// its own where it fits.
pub proof fn law_columns_keep_their_places(i: nat, b: ProfilePublicData)
    requires
        dec_text(i).len() <= 4,
        shown_title(b.title).len() <= 16,
        molto_algo_spec(b.algorithm).len() <= 6,
        dec_text(b.time_step as nat).len() <= 4,
        dec_text(b.digits as nat).len() <= 6,
    ensures
        ({
            let row = slot_row(i, b);
            &&& row.len() == 54
            &&& row.subrange(0, 4) == padded_left(dec_text(i), 4, ' ')
            &&& row.subrange(6, 14) == padded_left(
                if b.seed_present {
                    "yes"@
                } else {
                    "-"@
                },
                8,
                ' ',
            )
            &&& row.subrange(16, 32) == padded_right(
                match b.title {
                    Some(t) => clean(t@),
                    None => Seq::empty(),
                },
                16,
                ' ',
            )
            &&& row.subrange(34, 40) == padded_right(molto_algo_spec(b.algorithm), 6, ' ')
            &&& row.subrange(42, 46) == padded_left(dec_text(b.time_step as nat), 4, ' ')
            &&& row.subrange(48, 54) == padded_left(dec_text(b.digits as nat), 6, ' ')
        }),
{
    reveal_strlit("  ");
    reveal_strlit("yes");
    reveal_strlit("-");
    let row = slot_row(i, b);
    let seed = if b.seed_present {
        "yes"@
    } else {
        "-"@
    };
    assert(seed.len() <= 8);
    assert(row.len() == 54);
    assert(row.subrange(0, 4) =~= padded_left(dec_text(i), 4, ' '));
    assert(row.subrange(6, 14) =~= padded_left(seed, 8, ' '));
    assert(row.subrange(16, 32) =~= padded_right(shown_title(b.title), 16, ' '));
    assert(row.subrange(34, 40) =~= padded_right(molto_algo_spec(b.algorithm), 6, ' '));
    assert(row.subrange(42, 46) =~= padded_left(dec_text(b.time_step as nat), 4, ' '));
    assert(row.subrange(48, 54) =~= padded_left(dec_text(b.digits as nat), 6, ' '));
}

} // verus!
