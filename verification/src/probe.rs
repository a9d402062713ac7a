//! Walking a token's instruction space.

use crate::text::{byte_hex, cat2, cat3, cat7, dec_text, dec_u8, dec_usize, has_run, hex_u8_upper, lemma_holds, opt_str};
use vstd::prelude::*;

verus! {

/// Class byte of plain commands.
pub const CLA_PLAIN: u8 = 0x80;

/// Class byte of authenticated commands.
pub const CLA_SECURE: u8 = 0x84;

/// Instructions known to change something on the token.
pub open spec fn destructive(ins: u8) -> bool {
    ins == 0xc5 || ins == 0xd5 || ins == 0xd4 || ins == 0xd7 || ins == 0xce || ins == 0x56 || ins == 0xd8
}

/// Whether an instruction is known to change something: seed, title,
/// configuration, customer key, challenge answer, factory reset, screen lock.
pub fn is_destructive(ins: u8) -> (r: bool)
    ensures
        r == destructive(ins),
{
    ins == 0xc5 || ins == 0xd5 || ins == 0xd4 || ins == 0xd7 || ins == 0xce || ins == 0x56 || ins == 0xd8
}

/// One instruction to try, with a length byte of zero.
#[derive(Clone, Copy, Debug, PartialEq, Eq, Structural)]
pub struct ProbeCall {
    /// Class byte.
    pub cla: u8,
    /// Instruction byte.
    pub ins: u8,
    /// First parameter.
    pub p1: u8,
    /// Second parameter.
    pub p2: u8,
}

/// The instructions below `n` that a sweep tries, in increasing order.
pub open spec fn sweep_calls(n: nat, cla: u8, p2: u8, include_destructive: bool) -> Seq<ProbeCall>
    decreases n,
{
    if n == 0 {
        Seq::empty()
    } else {
        let rest = sweep_calls((n - 1) as nat, cla, p2, include_destructive);
        if include_destructive || !destructive((n - 1) as u8) {
            rest.push(ProbeCall { cla, ins: (n - 1) as u8, p1: 0, p2 })
        } else {
            rest
        }
    }
}

/// The instructions a sweep over all 256 of them tries.
pub fn sweep(cla: u8, p2: u8, include_destructive: bool) -> (r: Vec<ProbeCall>)
    ensures
        r@ == sweep_calls(256, cla, p2, include_destructive),
{
    let mut r: Vec<ProbeCall> = Vec::new();
    let mut n: u16 = 0;
    assert(r@ =~= sweep_calls(0, cla, p2, include_destructive));
    while n < 256
        invariant
            n <= 256,
            r@ == sweep_calls(n as nat, cla, p2, include_destructive),
        decreases 256 - n,
    {
        let ins: u8 = n as u8;
        if include_destructive || !is_destructive(ins) {
            r.push(ProbeCall { cla, ins, p1: 0, p2 });
        }
        n = n + 1;
    }
    r
}

proof fn lemma_sweep(n: nat, cla: u8, p2: u8, include_destructive: bool)
    requires
        n <= 256,
    ensures
        !include_destructive ==> forall|i: int|
            0 <= i < sweep_calls(n, cla, p2, include_destructive).len() ==> !destructive(
                (#[trigger] sweep_calls(n, cla, p2, include_destructive)[i]).ins,
            ),
        forall|ins: u8|
            ins < n && (include_destructive || !#[trigger] destructive(ins)) ==> sweep_calls(
                n,
                cla,
                p2,
                include_destructive,
            ).contains(ProbeCall { cla, ins, p1: 0, p2 }),
    decreases n,
{
    if n > 0 {
        let m = (n - 1) as nat;
        lemma_sweep(m, cla, p2, include_destructive);
        let rest = sweep_calls(m, cla, p2, include_destructive);
        let all = sweep_calls(n, cla, p2, include_destructive);
        assert forall|ins: u8| ins < n && (include_destructive || !#[trigger] destructive(ins)) implies all.contains(
            ProbeCall { cla, ins, p1: 0, p2 },
        ) by {
            let call = ProbeCall { cla, ins, p1: 0, p2 };
            if ins < m {
                assert(rest.contains(call));
                let k = choose|k: int| 0 <= k < rest.len() && rest[k] == call;
                assert(all[k] == call);
            } else {
                assert(all[all.len() - 1] == call);
            }
        }
    }
}

proof fn lemma_full_sweep(cla: u8, p2: u8, include_destructive: bool)
    ensures
        !include_destructive ==> forall|i: int|
            0 <= i < sweep_calls(256, cla, p2, include_destructive).len() ==> !destructive(
                (#[trigger] sweep_calls(256, cla, p2, include_destructive)[i]).ins,
            ),
        forall|ins: u8|
            include_destructive || !#[trigger] destructive(ins) ==> sweep_calls(
                256,
                cla,
                p2,
                include_destructive,
            ).contains(ProbeCall { cla, ins, p1: 0, p2 }),
{
    lemma_sweep(256, cla, p2, include_destructive);
}

/// The guesses at a counterpart of known commands, on one slot.
pub open spec fn guess_calls(slot: u8) -> Seq<ProbeCall> {
    seq![
        ProbeCall { cla: CLA_SECURE, ins: 0xc5, p1: 0x00, p2: slot },
        ProbeCall { cla: CLA_SECURE, ins: 0xd5, p1: 0x01, p2: slot },
        ProbeCall { cla: CLA_SECURE, ins: 0xd4, p1: 0x00, p2: slot },
        ProbeCall { cla: CLA_PLAIN, ins: 0xb0, p1: 0x00, p2: slot },
        ProbeCall { cla: CLA_PLAIN, ins: 0xca, p1: 0x00, p2: slot },
        ProbeCall { cla: CLA_PLAIN, ins: 0xcb, p1: 0x00, p2: slot },
        ProbeCall { cla: CLA_PLAIN, ins: 0xb2, p1: 0x01, p2: slot },
        ProbeCall { cla: CLA_PLAIN, ins: 0xa4, p1: 0x00, p2: slot },
    ]
}

/// Whether a walk makes a call: one that is known to change something only on
/// demand.
pub open spec fn is_made(c: ProbeCall, include_destructive: bool) -> bool {
    include_destructive || !destructive(c.ins)
}

/// The guesses that are made, in order.
pub open spec fn made_guesses(slot: u8, include_destructive: bool) -> Seq<ProbeCall> {
    guess_calls(slot).filter(|c: ProbeCall| is_made(c, include_destructive))
}

/// The guesses at a counterpart of known commands, on one slot. Those with an
/// instruction that is known to change something are made only on demand.
pub fn guesses(slot: u8, include_destructive: bool) -> (r: Vec<ProbeCall>)
    ensures
        r@ == made_guesses(slot, include_destructive),
{
    let all = vec![
        ProbeCall { cla: CLA_SECURE, ins: 0xc5, p1: 0x00, p2: slot },
        ProbeCall { cla: CLA_SECURE, ins: 0xd5, p1: 0x01, p2: slot },
        ProbeCall { cla: CLA_SECURE, ins: 0xd4, p1: 0x00, p2: slot },
        ProbeCall { cla: CLA_PLAIN, ins: 0xb0, p1: 0x00, p2: slot },
        ProbeCall { cla: CLA_PLAIN, ins: 0xca, p1: 0x00, p2: slot },
        ProbeCall { cla: CLA_PLAIN, ins: 0xcb, p1: 0x00, p2: slot },
        ProbeCall { cla: CLA_PLAIN, ins: 0xb2, p1: 0x01, p2: slot },
        ProbeCall { cla: CLA_PLAIN, ins: 0xa4, p1: 0x00, p2: slot },
    ];
    assert(all@ =~= guess_calls(slot));
    let ghost made = |c: ProbeCall| is_made(c, include_destructive);
    let mut r: Vec<ProbeCall> = Vec::new();
    let mut i: usize = 0;
    proof {
        reveal(Seq::filter);
        assert(r@ =~= all@.take(0).filter(made));
    }
    while i < all.len()
        invariant
            i <= all.len(),
            made == (|c: ProbeCall| is_made(c, include_destructive)),
            r@ == all@.take(i as int).filter(made),
        decreases all.len() - i,
    {
        proof {
            reveal(Seq::filter);
            assert(all@.take(i as int + 1).drop_last() =~= all@.take(i as int));
        }
        let c: ProbeCall = all[i];
        if include_destructive || !is_destructive(c.ins) {
            r.push(c);
        }
        i = i + 1;
    }
    assert(all@.take(i as int) =~= all@);
    r
}

/// What is printed before a guess; the instruction tells the guesses apart.
pub open spec fn guess_note_spec(ins: u8) -> Option<Seq<char>> {
    if ins == 0xc5 {
        Some("read seed? (write is P1=01)"@)
    } else if ins == 0xd5 {
        Some("read title? (write is P1=00)"@)
    } else if ins == 0xd4 {
        Some("read config? (write is P1=01)"@)
    } else if ins == 0xb0 {
        Some("ISO READ BINARY"@)
    } else if ins == 0xca {
        Some("ISO GET DATA (even)"@)
    } else if ins == 0xcb {
        Some("ISO GET DATA (odd)"@)
    } else if ins == 0xb2 {
        Some("ISO READ RECORD"@)
    } else if ins == 0xa4 {
        Some("ISO SELECT FILE"@)
    } else {
        None
    }
}

/// What is printed before a guess; none for what is no guess.
pub fn guess_note(c: &ProbeCall) -> (r: Option<&'static str>)
    ensures
        opt_str(r) == guess_note_spec(c.ins),
{
    match c.ins {
        0xc5 => Some("read seed? (write is P1=01)"),
        0xd5 => Some("read title? (write is P1=00)"),
        0xd4 => Some("read config? (write is P1=01)"),
        0xb0 => Some("ISO READ BINARY"),
        0xca => Some("ISO GET DATA (even)"),
        0xcb => Some("ISO GET DATA (odd)"),
        0xb2 => Some("ISO READ RECORD"),
        0xa4 => Some("ISO SELECT FILE"),
        _ => None,
    }
}

/// The three phases of a walk: the plain sweep, and when authenticated also
/// the secure sweep and the guesses.
pub struct ProbePhases {
    /// Plain instructions.
    pub plain: Vec<ProbeCall>,
    /// Authenticated instructions.
    pub secure: Vec<ProbeCall>,
    /// Guesses on one slot.
    pub guesses: Vec<ProbeCall>,
}

/// Plans a walk through the instruction space. Without authentication only
/// the plain sweep is made. No phase holds an instruction that is known to
/// change something, unless that was asked for.
pub fn run_probe(authed: bool, include_destructive: bool, slot: u8) -> (r: ProbePhases)
    ensures
        r.plain@ == sweep_calls(256, CLA_PLAIN, 0, include_destructive),
        r.secure@ == (if authed {
            sweep_calls(256, CLA_SECURE, slot, include_destructive)
        } else {
            Seq::<ProbeCall>::empty()
        }),
        r.guesses@ == (if authed {
            made_guesses(slot, include_destructive)
        } else {
            Seq::<ProbeCall>::empty()
        }),
        r.plain@ + r.secure@ + r.guesses@ == walk_calls(authed, include_destructive, slot),
{
    let plain = sweep(CLA_PLAIN, 0, include_destructive);
    if authed {
        ProbePhases {
            plain,
            secure: sweep(CLA_SECURE, slot, include_destructive),
            guesses: guesses(slot, include_destructive),
        }
    } else {
        ProbePhases { plain, secure: Vec::new(), guesses: Vec::new() }
    }
}

/// All calls of a walk, phase after phase.
pub open spec fn walk_calls(authed: bool, include_destructive: bool, slot: u8) -> Seq<ProbeCall> {
    sweep_calls(256, CLA_PLAIN, 0, include_destructive) + (if authed {
        sweep_calls(256, CLA_SECURE, slot, include_destructive) + made_guesses(slot, include_destructive)
    } else {
        Seq::empty()
    })
}

/// A walk leaves out what is known to change something, unless that was asked
/// for, in all of its phases, and makes every other call of each of them.
pub proof fn law_sweep_spares_the_token(authed: bool, include_destructive: bool, slot: u8)
    ensures
        !include_destructive ==> forall|i: int|
            0 <= i < walk_calls(authed, include_destructive, slot).len() ==> !destructive(
                (#[trigger] walk_calls(authed, include_destructive, slot)[i]).ins,
            ),
        forall|ins: u8|
            include_destructive || !#[trigger] destructive(ins) ==> sweep_calls(
                256,
                CLA_PLAIN,
                0,
                include_destructive,
            ).contains(ProbeCall { cla: CLA_PLAIN, ins, p1: 0, p2: 0 }),
        forall|ins: u8|
            include_destructive || !#[trigger] destructive(ins) ==> sweep_calls(
                256,
                CLA_SECURE,
                slot,
                include_destructive,
            ).contains(ProbeCall { cla: CLA_SECURE, ins, p1: 0, p2: slot }),
        forall|i: int|
            0 <= i < guess_calls(slot).len() && is_made(#[trigger] guess_calls(slot)[i], include_destructive)
                ==> made_guesses(slot, include_destructive).contains(guess_calls(slot)[i]),
{
    broadcast use vstd::seq_lib::group_filter_ensures;

    lemma_full_sweep(CLA_PLAIN, 0, include_destructive);
    lemma_full_sweep(CLA_SECURE, slot, include_destructive);
    let made = |c: ProbeCall| is_made(c, include_destructive);
    let plain = sweep_calls(256, CLA_PLAIN, 0, include_destructive);
    let secure = sweep_calls(256, CLA_SECURE, slot, include_destructive);
    let guessed = made_guesses(slot, include_destructive);
    let walk = walk_calls(authed, include_destructive, slot);
    assert forall|i: int| !include_destructive && 0 <= i < walk.len() implies !destructive(
        (#[trigger] walk[i]).ins,
    ) by {
        if i < plain.len() {
            assert(walk[i] == plain[i]);
        } else if i < plain.len() + secure.len() {
            assert(walk[i] == secure[i - plain.len()]);
        } else {
            assert(walk[i] == guessed[i - plain.len() - secure.len()]);
            assert(made(guess_calls(slot).filter(made)[i - plain.len() - secure.len()]));
        }
    }
    assert forall|i: int|
        0 <= i < guess_calls(slot).len() && is_made(
            #[trigger] guess_calls(slot)[i],
            include_destructive,
        ) implies guessed.contains(guess_calls(slot)[i]) by {
        assert(made(guess_calls(slot)[i]));
    }
}

/// What is worth saying of a status word; an instruction or class that is not
/// supported is not.
pub open spec fn status_note(completed: bool, awaiting: bool, sw1: u8, sw2: u8, data_len: nat) -> Option<Seq<char>> {
    if completed {
        Some(
            if data_len > 0 {
                "✓ ok (data)"@
            } else {
                "✓ ok (empty)"@
            },
        )
    } else if awaiting {
        Some("⏵ awaiting button (mutating!)"@)
    } else if (sw1 == 0x6d || sw1 == 0x6e) && sw2 == 0 {
        None
    } else if sw1 == 0x6c {
        Some("Le wrong (retry with this length)"@)
    } else if sw1 == 0x6b {
        Some("P1/P2 wrong (command may exist)"@)
    } else if sw1 == 0x67 {
        Some("Lc wrong"@)
    } else if sw1 == 0x69 && sw2 == 0x82 {
        Some("security: needs auth"@)
    } else if sw1 == 0x69 && sw2 == 0x83 {
        Some("security: auth blocked"@)
    } else if sw1 == 0x69 && sw2 == 0x85 {
        Some("conditions of use not satisfied"@)
    } else if sw1 == 0x6a && sw2 == 0x80 {
        Some("wrong data"@)
    } else if sw1 == 0x6a && sw2 == 0x82 {
        Some("file not found"@)
    } else if sw1 == 0x6a && sw2 == 0x86 {
        Some("incorrect P1/P2"@)
    } else if sw1 == 0x6a && sw2 == 0x88 {
        Some("referenced data not found"@)
    } else {
        Some("(other)"@)
    }
}

/// What is worth saying of a status word. Whether it means completion or a
/// wait for the button is for the protocol to tell.
pub fn classify(completed: bool, awaiting: bool, sw1: u8, sw2: u8, data_len: usize) -> (r: Option<&'static str>)
    ensures
        opt_str(r) == status_note(completed, awaiting, sw1, sw2, data_len as nat),
{
    if completed {
        return Some(
            if data_len > 0 {
                "✓ ok (data)"
            } else {
                "✓ ok (empty)"
            },
        );
    }
    if awaiting {
        return Some("⏵ awaiting button (mutating!)");
    }
    match (sw1, sw2) {
        (0x6d, 0x00) | (0x6e, 0x00) => None,
        (0x6c, _) => Some("Le wrong (retry with this length)"),
        (0x6b, _) => Some("P1/P2 wrong (command may exist)"),
        (0x67, _) => Some("Lc wrong"),
        (0x69, 0x82) => Some("security: needs auth"),
        (0x69, 0x83) => Some("security: auth blocked"),
        (0x69, 0x85) => Some("conditions of use not satisfied"),
        (0x6a, 0x80) => Some("wrong data"),
        (0x6a, 0x82) => Some("file not found"),
        (0x6a, 0x86) => Some("incorrect P1/P2"),
        (0x6a, 0x88) => Some("referenced data not found"),
        _ => Some("(other)"),
    }
}

/// The start of a line about a call.
pub open spec fn call_text(c: ProbeCall) -> Seq<char> {
    "  CLA="@ + byte_hex(c.cla, true) + " INS="@ + byte_hex(c.ins, true) + " P1="@ + byte_hex(c.p1, true)
        + " P2="@ + (byte_hex(c.p2, true) + " Le=00  →  "@)
}

fn call_text_of(c: &ProbeCall) -> (r: String)
    ensures
        r@ == call_text(*c),
{
    let tail = cat2(hex_u8_upper(c.p2).as_str(), " Le=00  →  ");
    let head = cat7(
        "  CLA=",
        hex_u8_upper(c.cla).as_str(),
        " INS=",
        hex_u8_upper(c.ins).as_str(),
        " P1=",
        hex_u8_upper(c.p1).as_str(),
        " P2=",
    );
    cat2(head.as_str(), tail.as_str())
}

/// The line for an answer worth showing.
pub fn answer_line(c: &ProbeCall, sw1: u8, sw2: u8, data_len: usize, note: &str) -> (r: String)
    ensures
        r@ == call_text(*c) + ("SW="@ + byte_hex(sw1, true) + byte_hex(sw2, true) + "  ("@ + dec_text(
            data_len as nat,
        ) + " bytes)  "@ + note@),
{
    let tail = cat7(
        "SW=",
        hex_u8_upper(sw1).as_str(),
        hex_u8_upper(sw2).as_str(),
        "  (",
        dec_usize(data_len).as_str(),
        " bytes)  ",
        note,
    );
    cat2(call_text_of(c).as_str(), tail.as_str())
}

/// The line for a call that could not be sent.
pub fn send_error_line(c: &ProbeCall, error: &str) -> (r: String)
    ensures
        r@ == call_text(*c) + "transmit error: "@ + error@,
{
    cat3(call_text_of(c).as_str(), "transmit error: ", error)
}

/// A phase of the walk.
#[derive(Clone, Copy, Debug, PartialEq, Eq, Structural)]
pub enum Phase {
    /// The plain sweep.
    Plain,
    /// The authenticated sweep.
    Secure,
    /// The guesses.
    Guesses,
}

/// The heading of a phase.
pub open spec fn phase_text(phase: Phase, slot: u8) -> Seq<char> {
    match phase {
        Phase::Plain => "── Phase 1: CLA 0x80 INS sweep, P1=00 P2=00 Le=00 ──"@,
        Phase::Secure => "── Phase 2: CLA 0x84 INS sweep, P1=00 P2="@ + byte_hex(slot, true) + " Le=00 ──"@,
        Phase::Guesses => "── Phase 3: targeted read-back guesses on slot #"@ + dec_text(slot as nat) + " ──"@,
    }
}

/// The heading of a phase.
pub fn phase_heading(phase: Phase, slot: u8) -> (r: String)
    ensures
        r@ == phase_text(phase, slot),
{
    match phase {
        Phase::Plain => "── Phase 1: CLA 0x80 INS sweep, P1=00 P2=00 Le=00 ──".to_owned(),
        Phase::Secure => cat3(
            "── Phase 2: CLA 0x84 INS sweep, P1=00 P2=",
            hex_u8_upper(slot).as_str(),
            " Le=00 ──",
        ),
        Phase::Guesses => cat3(
            "── Phase 3: targeted read-back guesses on slot #",
            dec_u8(slot).as_str(),
            " ──",
        ),
    }
}

/// What is said after a walk.
pub const PROBE_DONE: &'static str = "Done. Boring instructions (SW 6D00/6E00) are filtered out.";

/// What the marks of a walk mean.
pub const PROBE_LEGEND: &'static str = "Any ✓ line is an instruction the firmware recognized and completed.";

/// Without the key only the plain instructions are tried, on no slot; with it the
/// same come first, and what comes after them is about the slot that was named.
pub proof fn law_walk_stays_at_its_slot(authed: bool, include_destructive: bool, slot: u8, i: int)
    requires
        0 <= i < walk_calls(authed, include_destructive, slot).len(),
    ensures
        ({
            let c = walk_calls(authed, include_destructive, slot)[i];
            let plain = sweep_calls(256, CLA_PLAIN, 0, include_destructive);
            &&& i < plain.len() ==> c.cla == 0x80 && c.p1 == 0 && c.p2 == 0
            &&& i >= plain.len() ==> authed && c.p2 == slot
            &&& !authed ==> i < plain.len()
        }),
{
    broadcast use vstd::seq_lib::group_filter_ensures;

    let plain = sweep_calls(256, CLA_PLAIN, 0, include_destructive);
    let secure = sweep_calls(256, CLA_SECURE, slot, include_destructive);
    let guessed = made_guesses(slot, include_destructive);
    lemma_sweep_shape(256, CLA_PLAIN, 0, include_destructive);
    lemma_sweep_shape(256, CLA_SECURE, slot, include_destructive);
    let walk = walk_calls(authed, include_destructive, slot);
    if i < plain.len() {
        assert(walk[i] == plain[i]);
    } else if i < plain.len() + secure.len() {
        assert(walk[i] == secure[i - plain.len()]);
    } else {
        assert(walk[i] == guessed[i - plain.len() - secure.len()]);
        lemma_guesses_shape(slot, include_destructive, i - plain.len() - secure.len());
    }
}

proof fn lemma_sweep_shape(n: nat, cla: u8, p2: u8, include_destructive: bool)
    requires
        n <= 256,
    ensures
        ({
            let calls = sweep_calls(n, cla, p2, include_destructive);
            &&& forall|i: int|
                0 <= i < calls.len() ==> (#[trigger] calls[i]).cla == cla && calls[i].p1 == 0 && calls[i].p2 == p2
                    && calls[i].ins < n
            &&& forall|i: int, j: int|
                0 <= i < j < calls.len() ==> (#[trigger] calls[i]).ins < (#[trigger] calls[j]).ins
        }),
    decreases n,
{
    if n > 0 {
        lemma_sweep_shape((n - 1) as nat, cla, p2, include_destructive);
        let rest = sweep_calls((n - 1) as nat, cla, p2, include_destructive);
        let calls = sweep_calls(n, cla, p2, include_destructive);
        assert forall|i: int| 0 <= i < calls.len() implies (#[trigger] calls[i]).cla == cla && calls[i].p1 == 0
            && calls[i].p2 == p2 && calls[i].ins < n by {
            if i < rest.len() {
                assert(calls[i] == rest[i]);
            }
        }
        assert forall|i: int, j: int| 0 <= i < j < calls.len() implies (#[trigger] calls[i]).ins < (
        #[trigger] calls[j]).ins by {
            assert(calls[i] == rest[i]);
            if j < rest.len() {
                assert(calls[j] == rest[j]);
            }
        }
    }
}

proof fn lemma_guesses_shape(slot: u8, include_destructive: bool, i: int)
    requires
        0 <= i < made_guesses(slot, include_destructive).len(),
    ensures
        made_guesses(slot, include_destructive)[i].p2 == slot,
{
    let made = |c: ProbeCall| is_made(c, include_destructive);
    let all = guess_calls(slot);
    let c = all.filter(made)[i];
    assert(all.filter(made).contains(c));
    lemma_filtered_from(all, made, c);
}

proof fn lemma_filtered_from(all: Seq<ProbeCall>, made: spec_fn(ProbeCall) -> bool, c: ProbeCall)
    requires
        all.filter(made).contains(c),
    ensures
        all.contains(c),
    decreases all.len(),
{
    reveal(Seq::filter);
    if all.len() > 0 {
        let init = all.drop_last();
        let k = choose|k: int| 0 <= k < all.filter(made).len() && all.filter(made)[k] == c;
        if k < init.filter(made).len() {
            assert(init.filter(made)[k] == c);
            assert(init.filter(made).contains(c));
            lemma_filtered_from(init, made, c);
            let m = choose|m: int| 0 <= m < init.len() && init[m] == c;
            assert(all[m] == c);
        } else {
            assert(all[all.len() - 1] == c);
        }
    }
}

/// A sweep tries its instructions in increasing order, each once.
pub proof fn law_sweep_goes_upwards(cla: u8, p2: u8, include_destructive: bool, i: int, j: int)
    requires
        0 <= i < j < sweep_calls(256, cla, p2, include_destructive).len(),
    ensures
        sweep_calls(256, cla, p2, include_destructive)[i].ins < sweep_calls(256, cla, p2, include_destructive)[j].ins,
{
    lemma_sweep_shape(256, cla, p2, include_destructive);
}

/// The instructions that are spared unless they were asked for are seven: those
/// that set a seed, a title, the configuration or the customer key, answer a
/// challenge, reset, or lock the screen.
pub proof fn law_seven_instructions_are_spared(ins: u8)
    ensures
        destructive(ins) <==> (set![0x56u8, 0xc5u8, 0xceu8, 0xd4u8, 0xd5u8, 0xd7u8, 0xd8u8]).contains(ins),
{
}

/// A call is shown byte by byte in the order in which it is sent, and a phase names
/// the slot it is about.
pub proof fn law_call_is_shown_in_order(c: ProbeCall, slot: u8)
    ensures
        has_run(call_text(c), "CLA="@ + byte_hex(c.cla, true) + " INS="@ + byte_hex(c.ins, true)),
        has_run(call_text(c), " P1="@ + byte_hex(c.p1, true) + " P2="@ + byte_hex(c.p2, true)),
        has_run(phase_text(Phase::Secure, slot), "P2="@ + byte_hex(slot, true)),
        has_run(phase_text(Phase::Guesses, slot), "#"@ + dec_text(slot as nat)),
{
    let t = call_text(c);
    let cla = byte_hex(c.cla, true) + " INS="@ + byte_hex(c.ins, true);
    let p = " P1="@ + byte_hex(c.p1, true) + " P2="@ + byte_hex(c.p2, true);
    reveal_strlit("  CLA=");
    reveal_strlit("  ");
    reveal_strlit("CLA=");
    assert("  CLA="@ =~= "  "@ + "CLA="@);
    lemma_holds(t, "  "@, "CLA="@ + byte_hex(c.cla, true) + " INS="@ + byte_hex(c.ins, true), p + " Le=00  →  "@);
    lemma_holds(t, "  CLA="@ + cla, p, " Le=00  →  "@);
    reveal_strlit("── Phase 2: CLA 0x84 INS sweep, P1=00 P2=");
    reveal_strlit("── Phase 2: CLA 0x84 INS sweep, P1=00 ");
    reveal_strlit("P2=");
    assert("── Phase 2: CLA 0x84 INS sweep, P1=00 P2="@ =~= "── Phase 2: CLA 0x84 INS sweep, P1=00 "@ + "P2="@);
    lemma_holds(
        phase_text(Phase::Secure, slot),
        "── Phase 2: CLA 0x84 INS sweep, P1=00 "@,
        "P2="@ + byte_hex(slot, true),
        " Le=00 ──"@,
    );
    reveal_strlit("── Phase 3: targeted read-back guesses on slot #");
    reveal_strlit("── Phase 3: targeted read-back guesses on slot ");
    reveal_strlit("#");
    assert("── Phase 3: targeted read-back guesses on slot #"@
        =~= "── Phase 3: targeted read-back guesses on slot "@ + "#"@);
    lemma_holds(
        phase_text(Phase::Guesses, slot),
        "── Phase 3: targeted read-back guesses on slot "@,
        "#"@ + dec_text(slot as nat),
        " ──"@,
    );
}

/// An answer is passed over just where the instruction or its class is unknown to
/// the key.
pub proof fn law_only_unknown_instructions_are_passed_over(
    completed: bool,
    awaiting: bool,
    sw1: u8,
    sw2: u8,
    data_len: nat,
)
    ensures
        status_note(completed, awaiting, sw1, sw2, data_len) is None <==> !completed && !awaiting && sw2 == 0 && (sw1
            == 0x6d || sw1 == 0x6e),
        completed && data_len > 0 ==> status_note(completed, awaiting, sw1, sw2, data_len) == Some("✓ ok (data)"@),
        completed && data_len == 0 ==> status_note(completed, awaiting, sw1, sw2, data_len) == Some("✓ ok (empty)"@),
        !completed && awaiting ==> status_note(completed, awaiting, sw1, sw2, data_len) == Some(
            "⏵ awaiting button (mutating!)"@,
        ),
{
}

} // verus!
