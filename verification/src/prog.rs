//! The commands of the single-profile programmable tokens.

use crate::json_out::ProgInfoJson;
use crate::molto::{choice_view, sources_view, supplied, supplied_spec, the_one, SecretArgs};
use crate::plan::lemma_short_plan;
use crate::sanitize::{clean, sanitize_terminal};
use crate::secrets::{SecretEncoding, SecretSource};
use crate::text::{cat2, cat3, cat5, dec_text, dec_u32, dec_usize, opt_str, opt_view, Lines};
use vstd::prelude::*;

verus! {

/// Digest of a profile.
#[derive(Clone, Copy, Debug, PartialEq, Eq, Structural)]
pub enum HmacAlgo {
    /// SHA-1.
    Sha1,
    /// SHA-256.
    Sha256,
}

/// Number of digits of a code.
#[derive(Clone, Copy, Debug, PartialEq, Eq, Structural)]
pub enum OtpDigits {
    /// Four.
    Four,
    /// Six.
    Six,
    /// Eight.
    Eight,
    /// Ten.
    Ten,
}

/// Lifetime of a code.
#[derive(Clone, Copy, Debug, PartialEq, Eq, Structural)]
pub enum TimeStep {
    /// Half a minute.
    Seconds30,
    /// A minute.
    Seconds60,
}

/// How long the display stays on.
#[derive(Clone, Copy, Debug, PartialEq, Eq, Structural)]
pub enum DisplayTimeout {
    /// 15 seconds.
    Sec15,
    /// 30 seconds.
    Sec30,
    /// 60 seconds.
    Sec60,
    /// 120 seconds.
    Sec120,
}

/// A command for a single-profile token.
#[derive(Debug)]
pub enum ProgCmd {
    /// Show model, serial and clock.
    Info,
    /// Write the seed.
    Seed { seed: SecretArgs },
    /// Write configuration and clock.
    Config { algorithm: HmacAlgo, time_step: TimeStep, display_timeout: DisplayTimeout },
}

/// One operation of a plan.
#[derive(Clone, Copy, Debug, PartialEq, Eq, Structural)]
pub enum ProgOp {
    /// Get the seed.
    GatherSeed,
    /// Open the token in the resolved reader.
    Open,
    /// Read model, serial and clock, and show them.
    ShowInfo,
    /// Refuse a token whose serial matches no known model.
    GuardModel,
    /// Authenticate.
    Authenticate,
    /// Write the seed.
    WriteSeed,
    /// Write the configuration, with this time on the clock.
    WriteConfig(HmacAlgo, TimeStep, DisplayTimeout, u32),
}

/// What each command does, in order.
pub open spec fn prog_plan_spec(cmd: ProgCmd, now: u32) -> Seq<ProgOp> {
    match cmd {
        ProgCmd::Info => seq![ProgOp::Open, ProgOp::ShowInfo],
        ProgCmd::Seed { .. } => seq![
            ProgOp::GatherSeed,
            ProgOp::Open,
            ProgOp::GuardModel,
            ProgOp::Authenticate,
            ProgOp::WriteSeed,
        ],
        ProgCmd::Config { algorithm, time_step, display_timeout } => seq![
            ProgOp::Open,
            ProgOp::GuardModel,
            ProgOp::Authenticate,
            ProgOp::WriteConfig(algorithm, time_step, display_timeout, now),
        ],
    }
}

/// Plans a command for a single-profile token.
pub fn run_prog(cmd: &ProgCmd, now: u32) -> (r: Vec<ProgOp>)
    ensures
        r@ == prog_plan_spec(*cmd, now),
{
    let plan: Vec<ProgOp> = match cmd {
        ProgCmd::Info => vec![ProgOp::Open, ProgOp::ShowInfo],
        ProgCmd::Seed { .. } => vec![
            ProgOp::GatherSeed,
            ProgOp::Open,
            ProgOp::GuardModel,
            ProgOp::Authenticate,
            ProgOp::WriteSeed,
        ],
        ProgCmd::Config { algorithm, time_step, display_timeout } => vec![
            ProgOp::Open,
            ProgOp::GuardModel,
            ProgOp::Authenticate,
            ProgOp::WriteConfig(*algorithm, *time_step, *display_timeout, now),
        ],
    };
    assert(plan@ =~= prog_plan_spec(*cmd, now));
    plan
}

/// Nothing is written to a token before its model was recognized.
pub proof fn law_prog_guards_every_write(cmd: ProgCmd, now: u32, i: int)
    requires
        0 <= i < prog_plan_spec(cmd, now).len(),
        prog_plan_spec(cmd, now)[i] is WriteSeed || prog_plan_spec(cmd, now)[i] is WriteConfig,
    ensures
        exists|j: int| 0 <= j < i && #[trigger] prog_plan_spec(cmd, now)[j] == ProgOp::GuardModel,
{
    let plan = prog_plan_spec(cmd, now);
    assert(plan[1] == ProgOp::GuardModel || plan[2] == ProgOp::GuardModel);
}

/// The line that names a recognized token, or the refusal to program one that
/// is not.
pub fn prog_guard_model(model: Option<&str>, serial: &str) -> (r: Result<String, String>)
    ensures
        match (r, model) {
            (Ok(s), Some(m)) => s@ == "[*] "@ + m@ + " (serial "@ + clean(serial@) + ")"@,
            (Err(e), None) => e@ == "serial '"@ + clean(serial@)
                + "' does not match any known Token2 programmable-token model; refusing to program this device. Run `keyroostctl prog info` to inspect it."@,
            _ => false,
        },
{
    let shown = sanitize_terminal(serial);
    match model {
        Some(m) => Ok(cat5("[*] ", m, " (serial ", shown.as_str(), ")")),
        None => Err(
            cat3(
                "serial '",
                shown.as_str(),
                "' does not match any known Token2 programmable-token model; refusing to program this device. Run `keyroostctl prog info` to inspect it.",
            ),
        ),
    }
}

/// Why a number of seed sources other than one is refused.
pub const PROG_SEED_SOURCES: &'static str = "supply exactly one seed source (--hex / --base32 / -env / -stdin)";

/// The one source of the seed.
pub fn prog_seed_source<'a>(args: &'a SecretArgs) -> (r: Result<(SecretEncoding, SecretSource<'a>), String>)
    ensures
        choice_view(r) == the_one(supplied_spec(*args, SecretEncoding::Base32), PROG_SEED_SOURCES@),
{
    let mut given = supplied(args, SecretEncoding::Base32);
    proof {
        if given@.len() == 1 {
            assert(sources_view(given@)[0] == (given@[0].0, given@[0].1@));
        }
    }
    if given.len() != 1 {
        return Err(PROG_SEED_SOURCES.to_owned());
    }
    match given.pop() {
        Some(s) => Ok(s),
        None => Err(PROG_SEED_SOURCES.to_owned()),
    }
}

/// A seed filled up with zeros to the twenty bytes the token stores.
pub open spec fn padded_seed(seed: Seq<u8>) -> Seq<u8> {
    if seed.len() < 20 {
        seed + Seq::new((20 - seed.len()) as nat, |i: int| 0u8)
    } else {
        seed
    }
}

/// The seed as it is written: 1 to 63 bytes, a short one filled up with zeros
/// at its end.
pub fn resolve_prog_seed(seed: Vec<u8>) -> (r: Result<Vec<u8>, String>)
    ensures
        match r {
            Ok(s) => 1 <= seed@.len() <= 63 && s@ == padded_seed(seed@),
            Err(e) => !(1 <= seed@.len() <= 63) && e@ == "seed must be 1..=63 bytes (got "@ + dec_text(
                seed@.len(),
            ) + ")"@,
        },
{
    if seed.len() == 0 || seed.len() > 63 {
        return Err(cat3("seed must be 1..=63 bytes (got ", dec_usize(seed.len()).as_str(), ")"));
    }
    let ghost given = seed@;
    let mut out = seed;
    while out.len() < 20
        invariant
            out.len() >= given.len(),
            given.len() >= 20 ==> out@ == given,
            given.len() < 20 ==> out.len() <= 20,
            out@ == given + Seq::new((out.len() - given.len()) as nat, |i: int| 0u8),
        decreases 20 - out.len(),
    {
        let ghost before = out@;
        out.push(0);
        assert(out@ =~= given + Seq::new((out.len() - given.len()) as nat, |i: int| 0u8));
    }
    assert(out@ =~= padded_seed(given));
    Ok(out)
}

/// Padding keeps the seed at the front, is at least twenty bytes long, and
/// changes nothing on a seed that is long enough.
pub proof fn law_padding_keeps_the_seed(seed: Seq<u8>)
    ensures
        padded_seed(seed).len() >= 20,
        padded_seed(seed).take(seed.len() as int) == seed,
        seed.len() >= 20 ==> padded_seed(seed) == seed,
        padded_seed(padded_seed(seed)) == padded_seed(seed),
{
    assert(padded_seed(seed).take(seed.len() as int) =~= seed);
}

/// Model, serial and clock in machine-readable form.
pub fn prog_info_json(model: Option<&str>, serial: &str, utc_time: u32) -> (r: ProgInfoJson)
    ensures
        r.serial@ == serial@,
        opt_view(r.model) == opt_str(model),
        r.utc_time == utc_time,
{
    ProgInfoJson {
        serial: serial.to_owned(),
        model: match model {
            Some(m) => Some(m.to_owned()),
            None => None,
        },
        utc_time,
    }
}

/// Model, serial and clock, line by line.
pub fn prog_info_lines(model: Option<&str>, serial: &str, utc_time: u32) -> (r: Lines)
    ensures
        r@ == seq![
            match model {
                Some(m) => "model:    "@ + m@,
                None => "model:    (unrecognized serial — not a known Token2 model)"@,
            },
            "serial:   "@ + clean(serial@),
            "utc_time: "@ + dec_text(utc_time as nat),
        ],
{
    let mut out = Lines::new();
    match model {
        Some(m) => out.say(cat2("model:    ", m)),
        None => out.put("model:    (unrecognized serial — not a known Token2 model)"),
    }
    out.say(cat2("serial:   ", sanitize_terminal(serial).as_str()));
    out.say(cat2("utc_time: ", dec_u32(utc_time).as_str()));
    assert(out@ =~= seq![out@[0], out@[1], out@[2]]);
    out
}

/// What is said after the seed was written; `len` is its length as written.
pub fn seed_programmed(len: usize) -> (r: String)
    ensures
        r@ == "seed programmed ("@ + dec_text(len as nat) + " bytes)."@,
{
    cat3("seed programmed (", dec_usize(len).as_str(), " bytes).")
}

/// What is said after the configuration was written.
pub fn config_programmed(now: u32) -> (r: String)
    ensures
        r@ == "config programmed (clock set to "@ + dec_text(now as nat) + ")."@,
{
    cat3("config programmed (clock set to ", dec_u32(now).as_str(), ").")
}

/// A plan for a single-profile token writes what the command is for and nothing
/// else: the seed, or the configuration that was asked for with the time on the
/// clock.
pub proof fn law_prog_plan_is_what_was_asked(cmd: ProgCmd, now: u32, op: ProgOp)
    ensures
        prog_plan_spec(cmd, now).contains(op) <==> match op {
            ProgOp::GatherSeed => cmd is Seed,
            ProgOp::Open => true,
            ProgOp::ShowInfo => cmd is Info,
            ProgOp::GuardModel => !(cmd is Info),
            ProgOp::Authenticate => !(cmd is Info),
            ProgOp::WriteSeed => cmd is Seed,
            ProgOp::WriteConfig(a, s, d, time) => cmd matches ProgCmd::Config {
                algorithm,
                time_step,
                display_timeout,
            } && a == algorithm && s == time_step && d == display_timeout && time == now,
        },
{
    lemma_short_plan(prog_plan_spec(cmd, now), op);
}

/// When an operation of such a plan has its turn.
pub open spec fn prog_turn(op: ProgOp) -> int {
    match op {
        ProgOp::GatherSeed => 0,
        ProgOp::Open => 1,
        ProgOp::GuardModel => 2,
        ProgOp::Authenticate => 3,
        _ => 4,
    }
}

/// The operations of such a plan keep their turns, and none is done twice.
pub proof fn law_prog_plan_keeps_its_turns(cmd: ProgCmd, now: u32, i: int, j: int)
    requires
        0 <= i < j < prog_plan_spec(cmd, now).len(),
    ensures
        prog_turn(prog_plan_spec(cmd, now)[i]) < prog_turn(prog_plan_spec(cmd, now)[j]),
{
}

/// What is added to a short seed is zeros, up to twenty bytes and no further.
pub proof fn law_padding_is_zeros(seed: Seq<u8>, i: int)
    requires
        seed.len() <= i < padded_seed(seed).len(),
    ensures
        padded_seed(seed)[i] == 0,
        padded_seed(seed).len() == 20,
{
}

} // verus!
