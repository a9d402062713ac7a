//! The commands of the multi-profile tokens: what each one does, in which
//! order, and the rules on seeds, titles and slots.

use crate::molto_report::sync_line;
use crate::plan::{lemma_short_increasing, lemma_short_plan};
use crate::prog::{DisplayTimeout, HmacAlgo, OtpDigits, TimeStep};
use crate::sanitize::{clean, sanitize_terminal};
use crate::secrets::{gather_secret, SecretEncoding, SecretSource, SourceView};
use crate::text::{
    cat2, cat3, cat4, cat5, cat6, cat7, dec_text, dec_u8, dec_usize, has_run, lemma_holds, opt_str,
    opt_view, pad_left, padded_left, Lines,
};
use vstd::prelude::*;
use vstd::utf8::encode_utf8;

verus! {

/// The six options a seed or a key can be given through.
#[derive(Debug)]
pub struct SecretArgs {
    /// Hexadecimal digits.
    pub hex: Option<String>,
    /// The second encoding of the command.
    pub other: Option<String>,
    /// Variable with hexadecimal digits.
    pub hex_env: Option<String>,
    /// Variable with the second encoding.
    pub other_env: Option<String>,
    /// Hexadecimal digits from standard input.
    pub hex_stdin: bool,
    /// The second encoding from standard input.
    pub other_stdin: bool,
}

/// A command for a multi-profile token.
#[derive(Debug)]
pub enum MoltoCmd {
    /// Show serial and clock.
    Info,
    /// List the profiles.
    Slots { all: bool },
    /// Write a seed.
    Seed { profile: u8, seed: SecretArgs },
    /// Read or write a title.
    Title { profile: u8, title: Option<String> },
    /// Delete a seed.
    Delete { profile: u8, yes: bool },
    /// Configure a profile, and set its clock to the time of the write.
    Config {
        profile: u8,
        algorithm: HmacAlgo,
        digits: OtpDigits,
        time_step: TimeStep,
        display_timeout: DisplayTimeout,
    },
    /// Set the clock.
    SyncTime { profile: Option<u8>, all: bool },
    /// Change the customer key.
    CustomerKey { key: SecretArgs },
    /// Import one account.
    Import { profile: u8, title: Option<String>, qr: Option<String>, uri: Option<String> },
    /// Import the accounts of an export.
    ImportFile { path: String, start: u8, dry_run: bool, password_stdin: bool, password_env: Option<String> },
    /// Walk the instruction space.
    Probe { yes: bool, authed: bool, include_destructive: bool, slot: u8 },
    /// Wipe the token.
    Reset { yes: bool },
}

/// What a profile is to be configured with.
#[derive(Clone, Copy, Debug, PartialEq, Eq, Structural)]
pub struct ProfileSettings {
    /// How long the display stays on.
    pub display_timeout: DisplayTimeout,
    /// Digest of the codes.
    pub algorithm: HmacAlgo,
    /// Number of digits of a code.
    pub digits: OtpDigits,
    /// Lifetime of a code.
    pub time_step: TimeStep,
}

/// What is written to configure a profile.
#[derive(Clone, Copy, Debug, PartialEq, Eq, Structural)]
pub struct ProfileConfig {
    /// How long the display stays on.
    pub display_timeout: DisplayTimeout,
    /// Digest of the codes.
    pub algorithm: HmacAlgo,
    /// Number of digits of a code.
    pub digits: OtpDigits,
    /// Lifetime of a code.
    pub time_step: TimeStep,
    /// The time to set the clock to.
    pub utc_time: u32,
}

impl ProfileSettings {
    /// What is written at the time `now`, in seconds since 1970: the settings,
    /// and that time for the clock.
    pub fn at(self, now: u32) -> (r: ProfileConfig)
        ensures
            r.display_timeout == self.display_timeout,
            r.algorithm == self.algorithm,
            r.digits == self.digits,
            r.time_step == self.time_step,
            r.utc_time == now,
    {
        ProfileConfig {
            display_timeout: self.display_timeout,
            algorithm: self.algorithm,
            digits: self.digits,
            time_step: self.time_step,
            utc_time: now,
        }
    }
}

/// One operation of a plan.
#[derive(Clone, Copy, Debug, PartialEq, Eq, Structural)]
pub enum MoltoOp {
    /// Read the accounts of the export.
    LoadEntries,
    /// Print what an import would do.
    ShowImportPlan,
    /// Open the token.
    Open,
    /// Read serial and clock.
    ReadInfo,
    /// Print serial and clock.
    ShowInfo,
    /// Print serial and clock, or hand them out in machine-readable form.
    ReportInfo,
    /// Read all profiles until one fails.
    Sweep,
    /// Print the profiles, or hand them out in machine-readable form.
    ReportSlots(bool),
    /// Read what a profile shows without a key.
    ReadBlock(u8),
    /// Print a title.
    ShowTitle(u8),
    /// Print what a profile holds.
    ShowSlot(u8),
    /// Delete a seed, or refuse.
    Delete(u8, bool),
    /// Wipe the token, or refuse.
    Reset(bool),
    /// Get the customer key.
    ReadKey,
    /// Warn when seeds would go out under the factory key.
    WarnDefaultKey,
    /// Authenticate with the customer key.
    Authenticate,
    /// Walk the instruction space.
    Probe(bool, bool, u8),
    /// Get the seed.
    GatherSeed,
    /// Write the seed to a profile.
    WriteSeed(u8),
    /// Check the title and write it to a profile.
    WriteTitle(u8),
    /// Configure a profile, and set its clock to the time of the write.
    Configure(u8, ProfileSettings),
    /// Set the clock of one of all profiles; a failure does not stop the rest.
    SyncEach(u8),
    /// Set the clock of one profile.
    SyncOne(u8),
    /// Refuse: neither a profile nor all were named.
    RefuseSync,
    /// Get the new customer key.
    GatherKey,
    /// Ask the token to take the new customer key.
    RotateKey,
    /// Get the account to import.
    ResolveEntry,
    /// Write seed, title and configuration of the account to a profile.
    ImportEntry(u8),
    /// Write the accounts of the export to consecutive profiles.
    ImportEntries(u8),
}

/// Why a clock is not set.
pub const NO_SYNC_TARGET: &'static str = "sync-time requires --profile <N> or --all";

/// Why a probe is refused.
pub const PROBE_REFUSAL: &'static str = "refusing to probe without --yes (see `keyroostctl molto probe --help`)";

/// The profiles of a token, in order.
pub open spec fn profiles() -> Seq<u8> {
    Seq::new(100, |i: int| i as u8)
}

/// The profiles of a token, in order.
pub fn all_profiles() -> (r: Vec<u8>)
    ensures
        r@ == profiles(),
{
    let mut r: Vec<u8> = Vec::new();
    let mut p: u8 = 0;
    while p < 100
        invariant
            p <= 100,
            r@ == profiles().take(p as int),
        decreases 100 - p,
    {
        r.push(p);
        p = p + 1;
        assert(r@ =~= profiles().take(p as int));
    }
    assert(profiles().take(100) =~= profiles());
    r
}

/// Whether a command sends seeds to the token.
pub open spec fn sends_seeds(cmd: MoltoCmd) -> bool {
    cmd is Seed || cmd is Import || cmd is ImportFile
}

/// The operations every authenticated command begins with.
pub open spec fn auth_ops(cmd: MoltoCmd) -> Seq<MoltoOp> {
    (if sends_seeds(cmd) {
        seq![MoltoOp::ReadKey, MoltoOp::WarnDefaultKey]
    } else {
        seq![MoltoOp::ReadKey]
    }) + seq![MoltoOp::Open, MoltoOp::ReadInfo, MoltoOp::ShowInfo, MoltoOp::Authenticate]
}

/// What each command does, in order, or why it refuses before it begins.
pub open spec fn molto_plan_spec(cmd: MoltoCmd) -> Result<Seq<MoltoOp>, Seq<char>> {
    match cmd {
        MoltoCmd::Info => Ok(seq![MoltoOp::Open, MoltoOp::ReadInfo, MoltoOp::ReportInfo]),
        MoltoCmd::Slots { all } => Ok(
            seq![MoltoOp::Open, MoltoOp::ReadInfo, MoltoOp::Sweep, MoltoOp::ReportSlots(all)],
        ),
        MoltoCmd::Seed { profile, .. } => Ok(
            auth_ops(cmd) + seq![MoltoOp::GatherSeed, MoltoOp::WriteSeed(profile)],
        ),
        MoltoCmd::Title { profile, title } => if title is None {
            Ok(seq![MoltoOp::Open, MoltoOp::ReadBlock(profile), MoltoOp::ShowTitle(profile)])
        } else {
            Ok(auth_ops(cmd) + seq![MoltoOp::WriteTitle(profile)])
        },
        MoltoCmd::Delete { profile, yes } => Ok(
            seq![
                MoltoOp::Open,
                MoltoOp::ReadInfo,
                MoltoOp::ShowInfo,
                MoltoOp::ReadBlock(profile),
                MoltoOp::ShowSlot(profile),
                MoltoOp::Delete(profile, yes),
            ],
        ),
        MoltoCmd::Config { profile, algorithm, digits, time_step, display_timeout } => Ok(
            auth_ops(cmd) + seq![
                MoltoOp::Configure(profile, ProfileSettings { display_timeout, algorithm, digits, time_step }),
            ],
        ),
        MoltoCmd::SyncTime { profile, all } => Ok(
            auth_ops(cmd) + if all {
                profiles().map_values(|p: u8| MoltoOp::SyncEach(p))
            } else {
                match profile {
                    Some(p) => seq![MoltoOp::SyncOne(p)],
                    None => seq![MoltoOp::RefuseSync],
                }
            },
        ),
        MoltoCmd::CustomerKey { .. } => Ok(auth_ops(cmd) + seq![MoltoOp::GatherKey, MoltoOp::RotateKey]),
        MoltoCmd::Import { profile, .. } => Ok(
            auth_ops(cmd) + seq![MoltoOp::ResolveEntry, MoltoOp::ImportEntry(profile)],
        ),
        MoltoCmd::ImportFile { start, dry_run, .. } => if dry_run {
            Ok(seq![MoltoOp::LoadEntries, MoltoOp::ShowImportPlan])
        } else {
            Ok(auth_ops(cmd) + seq![MoltoOp::LoadEntries, MoltoOp::ImportEntries(start)])
        },
        MoltoCmd::Probe { yes, authed, include_destructive, slot } => if !yes {
            Err(PROBE_REFUSAL@)
        } else {
            Ok(
                seq![MoltoOp::Open, MoltoOp::ReadInfo, MoltoOp::ShowInfo] + (if authed {
                    seq![MoltoOp::ReadKey, MoltoOp::Authenticate]
                } else {
                    Seq::empty()
                }) + seq![MoltoOp::Probe(authed, include_destructive, slot)],
            )
        },
        MoltoCmd::Reset { yes } => Ok(
            seq![MoltoOp::Open, MoltoOp::ReadInfo, MoltoOp::ShowInfo, MoltoOp::Reset(yes)],
        ),
    }
}

/// What a planning result holds.
pub open spec fn molto_result(r: Result<Vec<MoltoOp>, String>) -> Result<Seq<MoltoOp>, Seq<char>> {
    match r {
        Ok(v) => Ok(v@),
        Err(e) => Err(e@),
    }
}

fn auth_plan(cmd: &MoltoCmd) -> (r: Vec<MoltoOp>)
    ensures
        r@ == auth_ops(*cmd),
{
    let mut p: Vec<MoltoOp> = vec![MoltoOp::ReadKey];
    let seeds = match cmd {
        MoltoCmd::Seed { .. } => true,
        MoltoCmd::Import { .. } => true,
        MoltoCmd::ImportFile { .. } => true,
        _ => false,
    };
    if seeds {
        p.push(MoltoOp::WarnDefaultKey);
    }
    p.push(MoltoOp::Open);
    p.push(MoltoOp::ReadInfo);
    p.push(MoltoOp::ShowInfo);
    p.push(MoltoOp::Authenticate);
    assert(p@ =~= auth_ops(*cmd));
    p
}

fn push_syncs(plan: &mut Vec<MoltoOp>)
    ensures
        final(plan)@ == old(plan)@ + profiles().map_values(|p: u8| MoltoOp::SyncEach(p)),
{
    let ghost before = plan@;
    let ghost syncs = profiles().map_values(|p: u8| MoltoOp::SyncEach(p));
    let all = all_profiles();
    let mut i: usize = 0;
    assert(plan@ =~= before + syncs.take(0));
    while i < all.len()
        invariant
            i <= all.len(),
            all@ == profiles(),
            syncs == profiles().map_values(|p: u8| MoltoOp::SyncEach(p)),
            plan@ == before + syncs.take(i as int),
        decreases all.len() - i,
    {
        plan.push(MoltoOp::SyncEach(all[i]));
        i = i + 1;
        assert(plan@ =~= before + syncs.take(i as int));
    }
    assert(syncs.take(i as int) =~= syncs);
}

/// Plans a command for a multi-profile token.
pub fn run_molto(cmd: &MoltoCmd) -> (r: Result<Vec<MoltoOp>, String>)
    ensures
        molto_result(r) == molto_plan_spec(*cmd),
{
    let ghost want = molto_plan_spec(*cmd);
    let plan: Vec<MoltoOp> = match cmd {
        MoltoCmd::Info => vec![MoltoOp::Open, MoltoOp::ReadInfo, MoltoOp::ReportInfo],
        MoltoCmd::Slots { all } => vec![
            MoltoOp::Open,
            MoltoOp::ReadInfo,
            MoltoOp::Sweep,
            MoltoOp::ReportSlots(*all),
        ],
        MoltoCmd::Seed { profile, .. } => {
            let mut p = auth_plan(cmd);
            p.push(MoltoOp::GatherSeed);
            p.push(MoltoOp::WriteSeed(*profile));
            p
        },
        MoltoCmd::Title { profile, title } => {
            if title.is_none() {
                vec![MoltoOp::Open, MoltoOp::ReadBlock(*profile), MoltoOp::ShowTitle(*profile)]
            } else {
                let mut p = auth_plan(cmd);
                p.push(MoltoOp::WriteTitle(*profile));
                p
            }
        },
        MoltoCmd::Delete { profile, yes } => vec![
            MoltoOp::Open,
            MoltoOp::ReadInfo,
            MoltoOp::ShowInfo,
            MoltoOp::ReadBlock(*profile),
            MoltoOp::ShowSlot(*profile),
            MoltoOp::Delete(*profile, *yes),
        ],
        MoltoCmd::Config { profile, algorithm, digits, time_step, display_timeout } => {
            let mut p = auth_plan(cmd);
            let settings = ProfileSettings {
                display_timeout: *display_timeout,
                algorithm: *algorithm,
                digits: *digits,
                time_step: *time_step,
            };
            p.push(MoltoOp::Configure(*profile, settings));
            p
        },
        MoltoCmd::SyncTime { profile, all } => {
            let mut p = auth_plan(cmd);
            if *all {
                push_syncs(&mut p);
            } else {
                match profile {
                    Some(n) => p.push(MoltoOp::SyncOne(*n)),
                    None => p.push(MoltoOp::RefuseSync),
                }
            }
            p
        },
        MoltoCmd::CustomerKey { .. } => {
            let mut p = auth_plan(cmd);
            p.push(MoltoOp::GatherKey);
            p.push(MoltoOp::RotateKey);
            p
        },
        MoltoCmd::Import { profile, .. } => {
            let mut p = auth_plan(cmd);
            p.push(MoltoOp::ResolveEntry);
            p.push(MoltoOp::ImportEntry(*profile));
            p
        },
        MoltoCmd::ImportFile { start, dry_run, .. } => {
            if *dry_run {
                vec![MoltoOp::LoadEntries, MoltoOp::ShowImportPlan]
            } else {
                let mut p = auth_plan(cmd);
                p.push(MoltoOp::LoadEntries);
                p.push(MoltoOp::ImportEntries(*start));
                p
            }
        },
        MoltoCmd::Probe { yes, authed, include_destructive, slot } => {
            if !*yes {
                return Err(PROBE_REFUSAL.to_owned());
            }
            let mut p: Vec<MoltoOp> = vec![MoltoOp::Open, MoltoOp::ReadInfo, MoltoOp::ShowInfo];
            if *authed {
                p.push(MoltoOp::ReadKey);
                p.push(MoltoOp::Authenticate);
            }
            p.push(MoltoOp::Probe(*authed, *include_destructive, *slot));
            p
        },
        MoltoCmd::Reset { yes } => vec![
            MoltoOp::Open,
            MoltoOp::ReadInfo,
            MoltoOp::ShowInfo,
            MoltoOp::Reset(*yes),
        ],
    };
    assert(want is Ok);
    assert(plan@ =~= want->Ok_0);
    Ok(plan)
}

/// Operations that write something the customer key protects.
pub open spec fn molto_needs_key(op: MoltoOp) -> bool {
    match op {
        MoltoOp::WriteSeed(_) => true,
        MoltoOp::WriteTitle(_) => true,
        MoltoOp::Configure(_, _) => true,
        MoltoOp::SyncEach(_) => true,
        MoltoOp::SyncOne(_) => true,
        MoltoOp::RotateKey => true,
        MoltoOp::ImportEntry(_) => true,
        MoltoOp::ImportEntries(_) => true,
        _ => false,
    }
}

/// The customer key is authenticated before anything it protects is written.
pub proof fn law_molto_key_comes_first(cmd: MoltoCmd, i: int)
    requires
        molto_plan_spec(cmd) is Ok,
        0 <= i < molto_plan_spec(cmd)->Ok_0.len(),
        molto_needs_key(molto_plan_spec(cmd)->Ok_0[i]),
    ensures
        exists|j: int| 0 <= j < i && #[trigger] molto_plan_spec(cmd)->Ok_0[j] == MoltoOp::Authenticate,
{
    let plan = molto_plan_spec(cmd)->Ok_0;
    assert(auth_ops(cmd).len() == 5 || auth_ops(cmd).len() == 6);
    let last = auth_ops(cmd).len() - 1;
    assert(auth_ops(cmd)[last] == MoltoOp::Authenticate);
    assert(plan[last] == MoltoOp::Authenticate);
}

/// Setting all clocks reaches every profile, in order, right after the customer
/// key was authenticated, and a profile that fails does not keep the rest from
/// their turn.
pub proof fn law_sync_reaches_every_profile(cmd: MoltoCmd, p: u8, error: Seq<char>)
    requires
        cmd matches MoltoCmd::SyncTime { all, .. } && all,
        p < 100,
    ensures
        ({
            let plan = molto_plan_spec(cmd)->Ok_0;
            &&& molto_plan_spec(cmd) is Ok
            &&& plan.len() == auth_ops(cmd).len() + 100
            &&& plan[auth_ops(cmd).len() + p] == MoltoOp::SyncEach(p)
            &&& plan[auth_ops(cmd).len() - 1] == MoltoOp::Authenticate
            &&& !(after_spec(MoltoOp::SyncEach(p), Some(error)) is Stop)
        }),
{
}

/// A preview of an import never opens the token.
pub proof fn law_dry_run_touches_no_device(cmd: MoltoCmd, i: int)
    requires
        cmd matches MoltoCmd::ImportFile { dry_run, .. } && dry_run,
        0 <= i < molto_plan_spec(cmd)->Ok_0.len(),
    ensures
        molto_plan_spec(cmd)->Ok_0[i] != MoltoOp::Open,
{
}

/// The warning for seeds sent under the factory key.
pub const DEFAULT_KEY_WARNING: &'static str = "warning: using the factory-default customer key — seeds sent to the device are decryptable by anyone who captures the USB traffic. Rotate it first: keyroostctl molto customer-key (see --help).";

/// The warning to print before a key is used; none unless it is the factory
/// key.
pub fn default_key_warning(key: &Vec<u8>, factory: &Vec<u8>) -> (r: Option<&'static str>)
    ensures
        match r {
            Some(w) => key@ == factory@ && w@ == DEFAULT_KEY_WARNING@,
            None => key@ != factory@,
        },
{
    if key.len() != factory.len() {
        return None;
    }
    let mut i: usize = 0;
    while i < key.len()
        invariant
            i <= key.len(),
            key.len() == factory.len(),
            forall|k: int| 0 <= k < i ==> key@[k] == factory@[k],
        decreases key.len() - i,
    {
        if key[i] != factory[i] {
            return None;
        }
        i = i + 1;
    }
    assert(key@ =~= factory@);
    Some(DEFAULT_KEY_WARNING)
}

/// A list of one entry where an option was given, an empty one where not.
pub open spec fn given(is: bool, encoding: SecretEncoding, source: SourceView) -> Seq<(SecretEncoding, SourceView)> {
    if is {
        seq![(encoding, source)]
    } else {
        Seq::empty()
    }
}

/// The text of an option, whatever it is where there is none.
pub open spec fn text_in(o: Option<String>) -> Seq<char> {
    o->Some_0@
}

/// The options that were given, each with its encoding.
pub open spec fn supplied_spec(a: SecretArgs, other: SecretEncoding) -> Seq<(SecretEncoding, SourceView)> {
    given(a.hex is Some, SecretEncoding::Hex, SourceView::Literal(text_in(a.hex))) + given(
        a.other is Some,
        other,
        SourceView::Literal(text_in(a.other)),
    ) + given(a.hex_env is Some, SecretEncoding::Hex, SourceView::Env(text_in(a.hex_env))) + given(
        a.other_env is Some,
        other,
        SourceView::Env(text_in(a.other_env)),
    ) + given(a.hex_stdin, SecretEncoding::Hex, SourceView::Stdin) + given(a.other_stdin, other, SourceView::Stdin)
}

/// What a list of sources names.
pub open spec fn sources_view(list: Seq<(SecretEncoding, SecretSource<'_>)>) -> Seq<(SecretEncoding, SourceView)> {
    list.map_values(|s: (SecretEncoding, SecretSource<'_>)| (s.0, s.1@))
}

fn push_source<'a>(r: &mut Vec<(SecretEncoding, SecretSource<'a>)>, encoding: SecretEncoding, source: SecretSource<'a>)
    ensures
        sources_view(final(r)@) == sources_view(old(r)@) + given(true, encoding, source@),
{
    let ghost before = r@;
    r.push((encoding, source));
    assert(sources_view(r@) =~= sources_view(before) + given(true, encoding, source@));
}

/// Lists the options that were given, each with its encoding.
pub fn supplied<'a>(a: &'a SecretArgs, other: SecretEncoding) -> (r: Vec<(SecretEncoding, SecretSource<'a>)>)
    ensures
        sources_view(r@) == supplied_spec(*a, other),
{
    let mut r: Vec<(SecretEncoding, SecretSource<'a>)> = Vec::new();
    let ghost none = Seq::<(SecretEncoding, SourceView)>::empty();
    assert(sources_view(r@) =~= none);
    proof {
        assert forall|s: Seq<(SecretEncoding, SourceView)>| #[trigger] (none + s) == s by {
            assert(none + s =~= s);
        }
        assert forall|s: Seq<(SecretEncoding, SourceView)>| #[trigger] (s + none) == s by {
            assert(s + none =~= s);
        }
    }
    if let Some(t) = &a.hex {
        push_source(&mut r, SecretEncoding::Hex, SecretSource::Literal(t.as_str()));
    }
    if let Some(t) = &a.other {
        push_source(&mut r, other, SecretSource::Literal(t.as_str()));
    }
    if let Some(v) = &a.hex_env {
        push_source(&mut r, SecretEncoding::Hex, SecretSource::Env(v.as_str()));
    }
    if let Some(v) = &a.other_env {
        push_source(&mut r, other, SecretSource::Env(v.as_str()));
    }
    if a.hex_stdin {
        push_source(&mut r, SecretEncoding::Hex, SecretSource::Stdin);
    }
    if a.other_stdin {
        push_source(&mut r, other, SecretSource::Stdin);
    }
    r
}

/// The only entry of a list, or the message that there has to be one.
pub open spec fn the_one(
    list: Seq<(SecretEncoding, SourceView)>,
    refusal: Seq<char>,
) -> Result<(SecretEncoding, SourceView), Seq<char>> {
    if list.len() == 1 {
        Ok(list[0])
    } else {
        Err(refusal)
    }
}

/// What the choice of a source holds.
pub open spec fn choice_view(r: Result<(SecretEncoding, SecretSource<'_>), String>) -> Result<
    (SecretEncoding, SourceView),
    Seq<char>,
> {
    match r {
        Ok(s) => Ok((s.0, s.1@)),
        Err(e) => Err(e@),
    }
}

/// How the messages name the command that writes a seed.
pub const SEED_COMMAND: &'static str = "set-seed";

/// The options a seed can be given through.
pub const SEED_SOURCES: &'static str = "--hex, --base32, --hex-env, --base32-env, --hex-stdin, --base32-stdin";

/// How the messages name the command that changes the customer key.
pub const KEY_COMMAND: &'static str = "set-customer-key";

/// The options a customer key can be given through.
pub const KEY_SOURCES: &'static str = "--hex, --ascii, --hex-env, --ascii-env, --hex-stdin, --ascii-stdin";

/// The one source of a seed.
pub fn seed_source<'a>(a: &'a SecretArgs) -> (r: Result<(SecretEncoding, SecretSource<'a>), String>)
    ensures
        choice_view(r) == the_one(
            supplied_spec(*a, SecretEncoding::Base32),
            SEED_COMMAND@ + " requires exactly one of "@ + SEED_SOURCES@,
        ),
{
    let all = supplied(a, SecretEncoding::Base32);
    proof {
        if all@.len() == 1 {
            assert(sources_view(all@)[0] == (all@[0].0, all@[0].1@));
        }
    }
    gather_secret(SEED_COMMAND, SEED_SOURCES, all)
}

/// The one source of a new customer key.
pub fn key_source<'a>(a: &'a SecretArgs) -> (r: Result<(SecretEncoding, SecretSource<'a>), String>)
    ensures
        choice_view(r) == the_one(
            supplied_spec(*a, SecretEncoding::Ascii),
            KEY_COMMAND@ + " requires exactly one of "@ + KEY_SOURCES@,
        ),
{
    let all = supplied(a, SecretEncoding::Ascii);
    proof {
        if all@.len() == 1 {
            assert(sources_view(all@)[0] == (all@[0].0, all@[0].1@));
        }
    }
    gather_secret(KEY_COMMAND, KEY_SOURCES, all)
}

/// A seed has 1 to 63 bytes.
pub fn check_seed(len: usize) -> (r: Result<(), String>)
    ensures
        r is Ok <==> 1 <= len <= 63,
        r matches Err(e) ==> e@ == "seed must be 1..=63 bytes, got "@ + dec_text(len as nat),
{
    if len == 0 || len > 63 {
        return Err(cat2("seed must be 1..=63 bytes, got ", dec_usize(len).as_str()));
    }
    Ok(())
}

/// Whether a title fits: 1 to 12 bytes.
pub open spec fn title_fits(title: Seq<char>) -> bool {
    1 <= encode_utf8(title).len() <= 12
}

fn title_fits_of(title: &str) -> (r: bool)
    ensures
        r == title_fits(title@),
{
    let n = title.as_bytes().len();
    1 <= n && n <= 12
}

/// A title has 1 to 12 bytes.
pub fn check_title(title: &str) -> (r: Result<(), String>)
    ensures
        r is Ok <==> title_fits(title@),
        r matches Err(e) ==> e@ == "title must be 1..=12 bytes"@,
{
    if title_fits_of(title) {
        Ok(())
    } else {
        Err("title must be 1..=12 bytes".to_owned())
    }
}

/// The Debug form of a text, as `format!("{:?}", ..)` of std gives it.
pub uninterp spec fn debug_text(s: Seq<char>) -> Seq<char>;

/// `format!` with `{:?}` on a string slice: a quoted form that depends on the
/// text alone.
#[verifier::external_body]
pub(crate) fn quoted(s: &str) -> (r: String)
    ensures
        r@ == debug_text(s@),
{
    format!("{:?}", s)
}

/// The title an account is imported under: the given one, else the suggested
/// one. It has to fit.
pub fn import_title(given: Option<&str>, suggested: &str) -> (r: Result<String, String>)
    ensures
        ({
            let title = match given {
                Some(t) => t@,
                None => suggested@,
            };
            match r {
                Ok(t) => title_fits(title) && t@ == title,
                Err(e) => !title_fits(title) && e@ == "derived title "@ + debug_text(title)
                    + " must be 1..=12 bytes; pass --title to override"@,
            }
        }),
{
    let title = match given {
        Some(t) => t,
        None => suggested,
    };
    if title_fits_of(title) {
        Ok(title.to_owned())
    } else {
        Err(
            cat3(
                "derived title ",
                quoted(title).as_str(),
                " must be 1..=12 bytes; pass --title to override",
            ),
        )
    }
}

/// Where one account to import comes from.
#[derive(Debug)]
pub enum ImportFrom<'a> {
    /// An image.
    Image(&'a str),
    /// One line of standard input.
    Stdin,
    /// The URI itself.
    Uri(&'a str),
}

/// Chooses where one account comes from: the image if one was named, else the
/// URI, which a dash reads from standard input.
pub fn import_from<'a>(qr: Option<&'a str>, uri: Option<&'a str>) -> (r: Result<ImportFrom<'a>, String>)
    ensures
        match r {
            Ok(ImportFrom::Image(p)) => qr is Some && p@ == qr->Some_0@,
            Ok(ImportFrom::Stdin) => qr is None && uri is Some && uri->Some_0@ == "-"@,
            Ok(ImportFrom::Uri(u)) => qr is None && uri is Some && uri->Some_0@ != "-"@ && u@ == uri->Some_0@,
            Err(e) => qr is None && uri is None && e@ == "import requires an otpauth:// URI or --qr <image>"@,
        },
{
    match qr {
        Some(p) => Ok(ImportFrom::Image(p)),
        None => match uri {
            Some(u) => {
                if crate::text::str_eq(u, "-") {
                    Ok(ImportFrom::Stdin)
                } else {
                    Ok(ImportFrom::Uri(u))
                }
            },
            None => Err("import requires an otpauth:// URI or --qr <image>".to_owned()),
        },
    }
}

/// An image has to hold exactly one account that can be imported.
pub fn single_entry(count: usize, image: &str) -> (r: Result<(), String>)
    ensures
        match r {
            Ok(_) => count == 1,
            Err(e) => if count == 0 {
                e@ == "QR decoded, but no account could be imported (see skips above)"@
            } else {
                count > 1 && e@ == "QR contains "@ + dec_text(count as nat)
                    + " accounts — use `import-file "@ + image@
                    + "` to program them into consecutive slots"@
            },
        },
{
    if count == 1 {
        Ok(())
    } else if count == 0 {
        Err("QR decoded, but no account could be imported (see skips above)".to_owned())
    } else {
        Err(
            cat5(
                "QR contains ",
                dec_usize(count).as_str(),
                " accounts — use `import-file ",
                image,
                "` to program them into consecutive slots",
            ),
        )
    }
}

/// The number of slots that an import of `n` accounts from slot `start` on
/// would reach up to.
pub open spec fn import_end(start: u8, n: nat) -> int {
    if start + n > usize::MAX {
        usize::MAX as int
    } else {
        start + n
    }
}

fn import_end_of(start: u8, n: usize) -> (r: usize)
    ensures
        r == import_end(start, n as nat),
{
    if n > usize::MAX - start as usize {
        usize::MAX
    } else {
        start as usize + n
    }
}

/// Why `n` accounts do not fit from slot `start` on.
pub open spec fn no_room_text(start: u8, n: nat) -> Seq<char> {
    dec_text(n) + " entries starting at #"@ + dec_text(start as nat)
        + " would exceed slot 99 (last slot needed: #"@ + dec_text((import_end(start, n) - 1) as nat) + ")"@
}

fn no_room(start: u8, n: usize) -> (r: String)
    requires
        start + n >= 1,
    ensures
        r@ == no_room_text(start, n as nat),
{
    cat6(
        dec_usize(n).as_str(),
        " entries starting at #",
        dec_u8(start).as_str(),
        " would exceed slot 99 (last slot needed: #",
        dec_usize(import_end_of(start, n) - 1).as_str(),
        ")",
    )
}

/// The opening line of an import of `n` accounts from slot `start` on, or that
/// they do not fit: there are 100 slots.
pub fn import_range(start: u8, n: usize) -> (r: Result<String, String>)
    requires
        start + n >= 1,
    ensures
        match r {
            Ok(s) => start + n <= 100 && s@ == "found "@ + dec_text(n as nat)
                + " entries; programming slots #"@ + dec_text(start as nat) + "..#"@ + dec_text(
                (start + n - 1) as nat,
            ),
            Err(e) => start + n > 100 && e@ == no_room_text(start, n as nat),
        },
{
    let last = import_end_of(start, n);
    if last > 100 {
        return Err(no_room(start, n));
    }
    Ok(
        cat6(
            "found ",
            dec_usize(n).as_str(),
            " entries; programming slots #",
            dec_u8(start).as_str(),
            "..#",
            dec_usize(last - 1).as_str(),
        ),
    )
}

/// The slot of account number `i`; it exists whenever the range was accepted.
pub fn entry_slot(start: u8, i: usize) -> (r: u8)
    requires
        start + i < 100,
    ensures
        r == start + i,
{
    start + i as u8
}

/// One account of an export, as far as the messages mention it.
#[derive(Debug)]
pub struct EntryFacts {
    /// The title it would get.
    pub title: String,
    /// Length of its secret in bytes.
    pub secret_len: usize,
    /// Name of its algorithm.
    pub algorithm: String,
    /// Number of digits of its codes.
    pub digits: u8,
    /// Name of its time step.
    pub time_step: String,
}

/// The line of one account in a preview.
pub open spec fn preview_line(slot: nat, e: EntryFacts) -> Seq<char> {
    "  #"@ + padded_left(dec_text(slot), 2, '0') + ": "@ + debug_text(e.title@) + " ("@ + dec_text(
        e.secret_len as nat,
    ) + " bytes, "@ + (e.algorithm@ + ", "@ + dec_text(e.digits as nat) + " digits, "@ + e.time_step@ + ")"@)
}

/// The lines of a preview.
pub open spec fn import_preview_spec(start: u8, entries: Seq<EntryFacts>) -> Seq<Seq<char>> {
    let last = start + entries.len();
    seq![
        "found "@ + dec_text(entries.len()) + " entries; would fill slots #"@ + dec_text(start as nat) + "..#"@
            + dec_text(
            (if last == 0 {
                0
            } else {
                last - 1
            }) as nat,
        ) + " (dry-run)"@,
    ] + Seq::new(entries.len(), |i: int| preview_line((start + i) as nat, entries[i]))
}

fn preview_line_of(slot: usize, e: &EntryFacts) -> (r: String)
    ensures
        r@ == preview_line(slot as nat, *e),
{
    let tail = cat6(
        e.algorithm.as_str(),
        ", ",
        dec_u8(e.digits).as_str(),
        " digits, ",
        e.time_step.as_str(),
        ")",
    );
    let head = cat7(
        "  #",
        pad_left(dec_usize(slot).as_str(), 2, '0').as_str(),
        ": ",
        quoted(e.title.as_str()).as_str(),
        " (",
        dec_usize(e.secret_len).as_str(),
        " bytes, ",
    );
    cat2(head.as_str(), tail.as_str())
}

/// What an import would do, line by line.
pub fn import_preview(start: u8, entries: &Vec<EntryFacts>) -> (r: Lines)
    requires
        start + entries@.len() <= usize::MAX,
    ensures
        r@ == import_preview_spec(start, entries@),
{
    let mut out = Lines::new();
    let last: usize = start as usize + entries.len();
    let end: usize = if last == 0 {
        0
    } else {
        last - 1
    };
    out.say(
        cat7(
            "found ",
            dec_usize(entries.len()).as_str(),
            " entries; would fill slots #",
            dec_u8(start).as_str(),
            "..#",
            dec_usize(end).as_str(),
            " (dry-run)",
        ),
    );
    let ghost head = out@;
    let ghost all = Seq::new(entries@.len(), |i: int| preview_line((start + i) as nat, entries@[i]));
    let mut i: usize = 0;
    assert(out@ =~= head + all.take(0));
    while i < entries.len()
        invariant
            i <= entries.len(),
            start + entries@.len() <= usize::MAX,
            all == Seq::new(entries@.len(), |i: int| preview_line((start + i) as nat, entries@[i])),
            out@ == head + all.take(i as int),
        decreases entries.len() - i,
    {
        out.say(preview_line_of(start as usize + i, &entries[i]));
        i = i + 1;
        assert(out@ =~= head + all.take(i as int));
    }
    assert(out@ =~= import_preview_spec(start, entries@));
    out
}

/// What to do with one account of an export: an account without a title is
/// left out.
#[derive(Debug)]
pub enum EntryAction {
    /// Leave it out and say so.
    Skip(String),
    /// Say so and write it.
    Write(String),
}

/// `action` is what is done with the account `e` for `slot`.
pub open spec fn action_is(action: EntryAction, slot: u8, e: EntryFacts) -> bool {
    match action {
        EntryAction::Skip(m) => e.title@.len() == 0 && m@ == "  #"@ + dec_text(slot as nat)
            + ": skipping — entry has no issuer or account to use as title"@,
        EntryAction::Write(m) => e.title@.len() > 0 && m@ == "  #"@ + dec_text(slot as nat) + ": "@ + debug_text(
            e.title@,
        ) + " ("@ + dec_text(e.secret_len as nat) + " bytes secret, "@ + (e.algorithm@ + ", "@ + dec_text(
            e.digits as nat,
        ) + " digits)"@),
    }
}

/// Decides on one account of an export.
pub fn entry_action(slot: u8, e: &EntryFacts) -> (r: EntryAction)
    ensures
        action_is(r, slot, *e),
{
    if e.title.as_str().is_empty() {
        return EntryAction::Skip(
            cat3(
                "  #",
                dec_u8(slot).as_str(),
                ": skipping — entry has no issuer or account to use as title",
            ),
        );
    }
    let tail = cat4(e.algorithm.as_str(), ", ", dec_u8(e.digits).as_str(), " digits)");
    let head = cat7(
        "  #",
        dec_u8(slot).as_str(),
        ": ",
        quoted(e.title.as_str()).as_str(),
        " (",
        dec_usize(e.secret_len).as_str(),
        " bytes secret, ",
    );
    EntryAction::Write(cat2(head.as_str(), tail.as_str()))
}

/// `plan` takes the accounts one by one, each to the slot after that of the one
/// before, the first to slot `start`.
pub open spec fn fills_slots(plan: Seq<(u8, EntryAction)>, start: u8, entries: Seq<EntryFacts>) -> bool {
    &&& plan.len() == entries.len()
    &&& forall|k: int|
        0 <= k < plan.len() ==> (#[trigger] plan[k]).0 == start + k && action_is(plan[k].1, plan[k].0, entries[k])
}

/// Plans the import of an export: for each account, in order, its slot and what
/// is done with it. Where not all of them have a slot, nothing is done.
pub fn import_plan(start: u8, entries: &Vec<EntryFacts>) -> (r: Result<Vec<(u8, EntryAction)>, String>)
    ensures
        match r {
            Ok(p) => start + entries@.len() <= 100 && fills_slots(p@, start, entries@),
            Err(e) => start + entries@.len() > 100 && e@ == no_room_text(start, entries@.len()),
        },
{
    if import_end_of(start, entries.len()) > 100 {
        return Err(no_room(start, entries.len()));
    }
    let mut plan: Vec<(u8, EntryAction)> = Vec::new();
    let mut i: usize = 0;
    while i < entries.len()
        invariant
            i <= entries.len(),
            start + entries@.len() <= 100,
            plan@.len() == i,
            forall|k: int|
                0 <= k < i ==> (#[trigger] plan@[k]).0 == start + k && action_is(plan@[k].1, plan@[k].0, entries@[k]),
        decreases entries.len() - i,
    {
        let slot = entry_slot(start, i);
        plan.push((slot, entry_action(slot, &entries[i])));
        i = i + 1;
    }
    Ok(plan)
}

/// One thing that is written to a slot.
#[derive(Clone, Copy, Debug, PartialEq, Eq, Structural)]
pub enum SlotWrite {
    /// The seed of an account.
    Seed,
    /// Its title.
    Title,
    /// Its configuration.
    Configuration,
}

/// What an account takes up in its slot, in the order it is written.
pub open spec fn full_writes() -> Seq<SlotWrite> {
    seq![SlotWrite::Seed, SlotWrite::Title, SlotWrite::Configuration]
}

/// What an account takes up in its slot, in the order it is written.
pub fn account_writes() -> (r: Vec<SlotWrite>)
    ensures
        r@ == full_writes(),
{
    let r: Vec<SlotWrite> = vec![SlotWrite::Seed, SlotWrite::Title, SlotWrite::Configuration];
    assert(r@ =~= full_writes());
    r
}

/// What is written for an account, in order; nothing for one that is left out.
pub open spec fn writes_of(action: EntryAction) -> Seq<SlotWrite> {
    match action {
        EntryAction::Skip(_) => Seq::empty(),
        EntryAction::Write(_) => full_writes(),
    }
}

/// What is written for an account, in order; nothing for one that is left out.
pub fn entry_writes(action: &EntryAction) -> (r: Vec<SlotWrite>)
    ensures
        r@ == writes_of(*action),
{
    match action {
        EntryAction::Skip(_) => Vec::new(),
        EntryAction::Write(_) => account_writes(),
    }
}

/// Everything that an import writes, in order: to which slot, of which account,
/// and what.
pub open spec fn import_writes(plan: Seq<(u8, EntryAction)>) -> Seq<(u8, int, SlotWrite)>
    decreases plan.len(),
{
    if plan.len() == 0 {
        Seq::empty()
    } else {
        let k = plan.len() - 1;
        import_writes(plan.drop_last()) + writes_of(plan[k].1).map_values(|w: SlotWrite| (plan[k].0, k, w))
    }
}

/// An import writes account number `k` to slot `start + k` and to no other; it
/// writes nothing outside the slots it was given, and nothing of an account
/// without a title.
pub proof fn law_import_stays_in_its_slots(
    plan: Seq<(u8, EntryAction)>,
    start: u8,
    entries: Seq<EntryFacts>,
    i: int,
)
    requires
        fills_slots(plan, start, entries),
        0 <= i < import_writes(plan).len(),
    ensures
        ({
            let (slot, k, _) = import_writes(plan)[i];
            &&& 0 <= k < entries.len()
            &&& slot == start + k
            &&& entries[k].title@.len() > 0
        }),
    decreases plan.len(),
{
    let k = plan.len() - 1;
    if k >= 0 {
        let init = plan.drop_last();
        if i < import_writes(init).len() {
            assert forall|j: int| 0 <= j < init.len() implies (#[trigger] init[j]).0 == start + j && action_is(
                init[j].1,
                init[j].0,
                entries.drop_last()[j],
            ) by {
                assert(init[j] == plan[j]);
            }
            law_import_stays_in_its_slots(init, start, entries.drop_last(), i);
            assert(import_writes(plan)[i] == import_writes(init)[i]);
        } else {
            assert(plan[k].0 == start + k);
        }
    }
}

/// An import writes seed, title and configuration of every account that has a
/// title.
pub proof fn law_import_writes_every_account(
    plan: Seq<(u8, EntryAction)>,
    start: u8,
    entries: Seq<EntryFacts>,
    k: int,
    what: SlotWrite,
)
    requires
        fills_slots(plan, start, entries),
        0 <= k < entries.len(),
        entries[k].title@.len() > 0,
    ensures
        import_writes(plan).contains(((start + k) as u8, k, what)),
    decreases plan.len(),
{
    let last = plan.len() - 1;
    let init = plan.drop_last();
    let head = import_writes(init);
    let all = import_writes(plan);
    let item = ((start + k) as u8, k, what);
    if k < last {
        assert forall|j: int| 0 <= j < init.len() implies (#[trigger] init[j]).0 == start + j && action_is(
            init[j].1,
            init[j].0,
            entries.drop_last()[j],
        ) by {
            assert(init[j] == plan[j]);
        }
        law_import_writes_every_account(init, start, entries.drop_last(), k, what);
        let at = choose|at: int| 0 <= at < head.len() && head[at] == item;
        assert(all[at] == item);
    } else {
        assert(plan[k].0 == start + k);
        let place: int = match what {
            SlotWrite::Seed => 0,
            SlotWrite::Title => 1,
            SlotWrite::Configuration => 2,
        };
        assert(writes_of(plan[k].1)[place] == what);
        assert(all[head.len() + place] == item);
    }
}

/// The closing lines of a single import; an image is to be deleted.
pub fn imported_lines(title: &str, profile: u8, e: &EntryFacts, from_image: bool) -> (r: Lines)
    ensures
        ({
            let first = "imported "@ + debug_text(title@) + " to profile #"@ + dec_text(profile as nat) + " ("@
                + dec_text(e.secret_len as nat) + " bytes secret, "@ + (e.algorithm@ + ", "@ + dec_text(
                e.digits as nat,
            ) + " digits)"@);
            r@ == (if from_image {
                seq![
                    first,
                    "remember to delete the screenshot (and any phone/cloud copies) — it contains the secret"@,
                ]
            } else {
                seq![first]
            })
        }),
{
    let mut out = Lines::new();
    let tail = cat4(e.algorithm.as_str(), ", ", dec_u8(e.digits).as_str(), " digits)");
    let head = cat7(
        "imported ",
        quoted(title).as_str(),
        " to profile #",
        dec_u8(profile).as_str(),
        " (",
        dec_usize(e.secret_len).as_str(),
        " bytes secret, ",
    );
    out.say(cat2(head.as_str(), tail.as_str()));
    if from_image {
        out.put("remember to delete the screenshot (and any phone/cloud copies) — it contains the secret");
    }
    out
}

/// How an export file is read.
#[derive(Debug)]
pub enum BulkRoute {
    /// As an image with QR codes.
    Image,
    /// Not at all: it is neither text nor an image.
    NotText(String),
    /// As an encrypted vault, with the password.
    Encrypted(String),
    /// Not at all: the vault is encrypted and no password was given.
    NeedsPassword(String),
    /// As plain text; whether to warn that a password was given for nothing.
    Plain(bool),
}

/// Decides how an export file is read. The password is looked at only when the
/// file is an encrypted vault; `password` is what it turned out to be.
pub fn bulk_route(
    path: &str,
    looks_like_image: bool,
    is_text: bool,
    encrypted: bool,
    password: Option<String>,
    password_asked: bool,
) -> (r: BulkRoute)
    ensures
        match r {
            BulkRoute::Image => looks_like_image,
            BulkRoute::NotText(e) => !looks_like_image && !is_text && e@ == path@
                + ": neither a text export nor a PNG/JPEG image"@,
            BulkRoute::Encrypted(p) => !looks_like_image && is_text && encrypted && opt_view(password) == Some(p@),
            BulkRoute::NeedsPassword(e) => !looks_like_image && is_text && encrypted && password is None && e@
                == "Aegis vault is encrypted; supply --password-stdin or --password-env VAR"@,
            BulkRoute::Plain(warn) => !looks_like_image && is_text && !encrypted && warn == password_asked,
        },
{
    if looks_like_image {
        return BulkRoute::Image;
    }
    if !is_text {
        return BulkRoute::NotText(cat2(path, ": neither a text export nor a PNG/JPEG image"));
    }
    if encrypted {
        return match password {
            Some(p) => BulkRoute::Encrypted(p),
            None => BulkRoute::NeedsPassword(
                "Aegis vault is encrypted; supply --password-stdin or --password-env VAR".to_owned(),
            ),
        };
    }
    BulkRoute::Plain(password_asked)
}

/// The note for one image out of several of an export.
pub fn batch_note(index: usize, total: usize) -> (r: String)
    requires
        index < usize::MAX,
    ensures
        r@ == "note: this is QR "@ + dec_text((index + 1) as nat) + " of "@ + dec_text(total as nat)
            + " in the export — import the other images too"@,
{
    cat5(
        "note: this is QR ",
        dec_usize(index + 1).as_str(),
        " of ",
        dec_usize(total).as_str(),
        " in the export — import the other images too",
    )
}

/// Asks for consent to a token reset: it names the token and goes on only when
/// confirmed.
pub fn molto_reset_consent(yes: bool, serial: &str) -> (r: Result<&'static str, String>)
    ensures
        match r {
            Ok(m) => yes && m@
                == "requesting factory reset; confirm with the up-arrow button on the device"@,
            Err(e) => !yes && e@ == "refusing to factory-reset device serial "@ + clean(serial@)
                + " without --yes"@,
        },
{
    if yes {
        Ok("requesting factory reset; confirm with the up-arrow button on the device")
    } else {
        Err(
            cat3(
                "refusing to factory-reset device serial ",
                sanitize_terminal(serial).as_str(),
                " without --yes",
            ),
        )
    }
}

/// Asks for consent to a seed deletion: it names slot and token and goes on only when
/// confirmed.
pub fn molto_delete_consent(yes: bool, profile: u8, serial: &str) -> (r: Result<(), String>)
    ensures
        match r {
            Ok(_) => yes,
            Err(e) => !yes && e@ == "refusing to delete slot #"@ + dec_text(profile as nat)
                + "'s seed on device serial "@ + clean(serial@) + " without --yes"@,
        },
{
    if yes {
        return Ok(());
    }
    Err(
        cat5(
            "refusing to delete slot #",
            dec_u8(profile).as_str(),
            "'s seed on device serial ",
            sanitize_terminal(serial).as_str(),
            " without --yes",
        ),
    )
}

/// The warning for a password that was given for a file that needs none.
pub const PASSWORD_UNUSED: &'static str = "warning: password supplied but file is not an encrypted Aegis vault";

/// The reminder after an import from an image.
pub const DELETE_SCREENSHOT: &'static str = "remember to delete the screenshot after a successful import";

/// What an operation says when it is done.
pub open spec fn molto_done_spec(op: MoltoOp) -> Option<Seq<char>> {
    match op {
        MoltoOp::WriteSeed(p) => Some("seed written to profile #"@ + dec_text(p as nat)),
        MoltoOp::WriteTitle(p) => Some("title set on profile #"@ + dec_text(p as nat)),
        MoltoOp::Configure(p, _) => Some("profile #"@ + dec_text(p as nat) + " configured"@),
        MoltoOp::SyncOne(p) => Some("time synced on profile #"@ + dec_text(p as nat)),
        MoltoOp::SyncEach(p) => Some("synced profile #"@ + dec_text(p as nat)),
        MoltoOp::RotateKey => Some(
            "customer-key rotation requested. Press the up-arrow button on the device to confirm."@,
        ),
        _ => None,
    }
}

/// What an operation says when it is done; none where what it says depends on
/// what came back.
pub fn molto_done(op: MoltoOp) -> (r: Option<String>)
    ensures
        opt_view(r) == molto_done_spec(op),
{
    match op {
        MoltoOp::WriteSeed(p) => Some(cat2("seed written to profile #", dec_u8(p).as_str())),
        MoltoOp::WriteTitle(p) => Some(cat2("title set on profile #", dec_u8(p).as_str())),
        MoltoOp::Configure(p, _) => Some(cat3("profile #", dec_u8(p).as_str(), " configured")),
        MoltoOp::SyncOne(p) => Some(cat2("time synced on profile #", dec_u8(p).as_str())),
        MoltoOp::SyncEach(p) => Some(sync_line(p, None)),
        MoltoOp::RotateKey => Some(
            "customer-key rotation requested. Press the up-arrow button on the device to confirm.".to_owned(),
        ),
        _ => None,
    }
}

/// What happens after an operation.
#[derive(Debug)]
pub enum AfterOp {
    /// The plan goes on, after this line if there is one.
    GoOn(Option<String>),
    /// The plan goes on, after this warning.
    Warn(String),
    /// The plan ends with the error.
    Stop,
}

/// What an [`AfterOp`] holds.
pub enum AfterView {
    /// The plan goes on, after this line if there is one.
    GoOn(Option<Seq<char>>),
    /// The plan goes on, after this warning.
    Warn(Seq<char>),
    /// The plan ends with the error.
    Stop,
}

impl View for AfterOp {
    type V = AfterView;

    open spec fn view(&self) -> AfterView {
        match self {
            AfterOp::GoOn(l) => AfterView::GoOn(opt_view(*l)),
            AfterOp::Warn(w) => AfterView::Warn(w@),
            AfterOp::Stop => AfterView::Stop,
        }
    }
}

/// What happens after an operation that failed with `error`, or worked: a
/// failure ends the plan, except while all clocks are set.
pub open spec fn after_spec(op: MoltoOp, error: Option<Seq<char>>) -> AfterView {
    match error {
        None => AfterView::GoOn(molto_done_spec(op)),
        Some(e) => match op {
            MoltoOp::SyncEach(p) => AfterView::Warn("profile #"@ + dec_text(p as nat) + " failed: "@ + e),
            _ => AfterView::Stop,
        },
    }
}

/// Decides what happens after an operation that failed with `error`, or worked.
pub fn after_op(op: MoltoOp, error: Option<&str>) -> (r: AfterOp)
    ensures
        r@ == after_spec(op, opt_str(error)),
{
    match error {
        None => AfterOp::GoOn(molto_done(op)),
        Some(e) => match op {
            MoltoOp::SyncEach(p) => AfterOp::Warn(sync_line(p, Some(e))),
            _ => AfterOp::Stop,
        },
    }
}

/// Whether a command works on the token under its customer key.
pub open spec fn works_under_the_key(cmd: MoltoCmd) -> bool {
    match cmd {
        MoltoCmd::Seed { .. } | MoltoCmd::Config { .. } | MoltoCmd::SyncTime { .. } | MoltoCmd::CustomerKey { .. }
        | MoltoCmd::Import { .. } => true,
        MoltoCmd::Title { title, .. } => title is Some,
        MoltoCmd::ImportFile { dry_run, .. } => !dry_run,
        _ => false,
    }
}

/// A token plan writes to the profile that the command names and to no other, and
/// only what the command is for: the seed, the title, the configuration that was
/// asked for, the clock, one account, or the accounts of an export from the slot
/// on that was named.
#[verifier::spinoff_prover]
#[verifier::rlimit(60)]
pub proof fn law_molto_writes_to_the_named_profile(cmd: MoltoCmd, op: MoltoOp)
    requires
        molto_plan_spec(cmd) is Ok,
    ensures
        match op {
            MoltoOp::WriteSeed(p) => molto_plan_spec(cmd)->Ok_0.contains(op) <==> (cmd matches MoltoCmd::Seed {
                profile,
                ..
            } && p == profile),
            MoltoOp::WriteTitle(p) => molto_plan_spec(cmd)->Ok_0.contains(op) <==> (cmd matches MoltoCmd::Title {
                profile,
                title,
            } && title is Some && p == profile),
            MoltoOp::Configure(p, s) => molto_plan_spec(cmd)->Ok_0.contains(op) <==> (cmd matches MoltoCmd::Config {
                profile,
                algorithm,
                digits,
                time_step,
                display_timeout,
            } && p == profile && s.algorithm == algorithm && s.digits == digits && s.time_step == time_step
                && s.display_timeout == display_timeout),
            MoltoOp::SyncOne(p) => molto_plan_spec(cmd)->Ok_0.contains(op) <==> (cmd matches MoltoCmd::SyncTime {
                profile,
                all,
            } && !all && profile == Some(p)),
            MoltoOp::SyncEach(p) => molto_plan_spec(cmd)->Ok_0.contains(op) <==> (cmd matches MoltoCmd::SyncTime {
                all,
                ..
            } && all && p < 100),
            MoltoOp::RefuseSync => molto_plan_spec(cmd)->Ok_0.contains(op) <==> (cmd matches MoltoCmd::SyncTime {
                profile,
                all,
            } && !all && profile is None),
            MoltoOp::ImportEntry(p) => molto_plan_spec(cmd)->Ok_0.contains(op) <==> (cmd matches MoltoCmd::Import {
                profile,
                ..
            } && p == profile),
            MoltoOp::ImportEntries(p) => molto_plan_spec(cmd)->Ok_0.contains(op) <==> (cmd
                matches MoltoCmd::ImportFile { start, dry_run, .. } && !dry_run && p == start),
            MoltoOp::RotateKey => molto_plan_spec(cmd)->Ok_0.contains(op) <==> (cmd is CustomerKey),
            MoltoOp::Delete(p, sure) => molto_plan_spec(cmd)->Ok_0.contains(op) <==> (cmd matches MoltoCmd::Delete {
                profile,
                yes,
            } && p == profile && sure == yes),
            MoltoOp::Reset(sure) => molto_plan_spec(cmd)->Ok_0.contains(op) <==> (cmd matches MoltoCmd::Reset { yes }
                && sure == yes),
            _ => true,
        },
{
    lemma_molto_holds(cmd, op);
}

/// A token plan reads and shows what the command is for: the profile that it
/// names, all profiles, the clock, or the export; it gets the key, the seed and
/// the account where it has a use for them, and warns of the factory key where
/// seeds go out.
#[verifier::spinoff_prover]
#[verifier::rlimit(60)]
pub proof fn law_molto_reads_what_was_asked(cmd: MoltoCmd, op: MoltoOp)
    requires
        molto_plan_spec(cmd) is Ok,
    ensures
        match op {
            MoltoOp::LoadEntries => molto_plan_spec(cmd)->Ok_0.contains(op) <==> (cmd is ImportFile),
            MoltoOp::ShowImportPlan => molto_plan_spec(cmd)->Ok_0.contains(op) <==> (cmd
                matches MoltoCmd::ImportFile { dry_run, .. } && dry_run),
            MoltoOp::Open => molto_plan_spec(cmd)->Ok_0.contains(op) <==> !(cmd matches MoltoCmd::ImportFile {
                dry_run,
                ..
            } && dry_run),
            MoltoOp::ReadInfo => molto_plan_spec(cmd)->Ok_0.contains(op) <==> (works_under_the_key(cmd) || cmd is Info
                || cmd is Slots || cmd is Delete || cmd is Probe || cmd is Reset),
            MoltoOp::ShowInfo => molto_plan_spec(cmd)->Ok_0.contains(op) <==> (works_under_the_key(cmd) || cmd
                is Delete || cmd is Probe || cmd is Reset),
            MoltoOp::ReportInfo => molto_plan_spec(cmd)->Ok_0.contains(op) <==> (cmd is Info),
            MoltoOp::Sweep => molto_plan_spec(cmd)->Ok_0.contains(op) <==> (cmd is Slots),
            MoltoOp::ReportSlots(full) => molto_plan_spec(cmd)->Ok_0.contains(op) <==> (cmd
                matches MoltoCmd::Slots { all } && full == all),
            MoltoOp::ReadBlock(p) => molto_plan_spec(cmd)->Ok_0.contains(op) <==> (match cmd {
                MoltoCmd::Title { profile, title } => title is None && p == profile,
                MoltoCmd::Delete { profile, .. } => p == profile,
                _ => false,
            }),
            MoltoOp::ShowTitle(p) => molto_plan_spec(cmd)->Ok_0.contains(op) <==> (cmd matches MoltoCmd::Title {
                profile,
                title,
            } && title is None && p == profile),
            MoltoOp::ShowSlot(p) => molto_plan_spec(cmd)->Ok_0.contains(op) <==> (cmd matches MoltoCmd::Delete {
                profile,
                ..
            } && p == profile),
            MoltoOp::ReadKey => molto_plan_spec(cmd)->Ok_0.contains(op) <==> (works_under_the_key(cmd) || (cmd
                matches MoltoCmd::Probe { authed, .. } && authed)),
            MoltoOp::Authenticate => molto_plan_spec(cmd)->Ok_0.contains(op) <==> (works_under_the_key(cmd) || (cmd
                matches MoltoCmd::Probe { authed, .. } && authed)),
            MoltoOp::WarnDefaultKey => molto_plan_spec(cmd)->Ok_0.contains(op) <==> (works_under_the_key(cmd) && (cmd
                is Seed || cmd is Import || cmd is ImportFile)),
            MoltoOp::Probe(keyed, all, at) => molto_plan_spec(cmd)->Ok_0.contains(op) <==> (cmd
                matches MoltoCmd::Probe { authed, include_destructive, slot, .. } && keyed == authed && all
                == include_destructive && at == slot),
            MoltoOp::GatherSeed => molto_plan_spec(cmd)->Ok_0.contains(op) <==> (cmd is Seed),
            MoltoOp::GatherKey => molto_plan_spec(cmd)->Ok_0.contains(op) <==> (cmd is CustomerKey),
            MoltoOp::ResolveEntry => molto_plan_spec(cmd)->Ok_0.contains(op) <==> (cmd is Import),
            _ => true,
        },
{
    lemma_molto_holds(cmd, op);
}

/// What a token plan holds, place by place, all clocks apart.
proof fn lemma_molto_holds(cmd: MoltoCmd, op: MoltoOp)
    requires
        molto_plan_spec(cmd) is Ok,
    ensures
        ({
            let plan = molto_plan_spec(cmd)->Ok_0;
            if cmd matches MoltoCmd::SyncTime { all, .. } && all {
                plan.contains(op) <==> {
                    ||| op == MoltoOp::ReadKey
                    ||| op == MoltoOp::Open
                    ||| op == MoltoOp::ReadInfo
                    ||| op == MoltoOp::ShowInfo
                    ||| op == MoltoOp::Authenticate
                    ||| (op matches MoltoOp::SyncEach(p) && p < 100)
                }
            } else {
                plan.len() <= 8 && (plan.contains(op) <==> {
                    ||| plan.len() > 0 && plan[0] == op
                    ||| plan.len() > 1 && plan[1] == op
                    ||| plan.len() > 2 && plan[2] == op
                    ||| plan.len() > 3 && plan[3] == op
                    ||| plan.len() > 4 && plan[4] == op
                    ||| plan.len() > 5 && plan[5] == op
                    ||| plan.len() > 6 && plan[6] == op
                    ||| plan.len() > 7 && plan[7] == op
                })
            }
        }),
{
    let plan = molto_plan_spec(cmd)->Ok_0;
    if cmd matches MoltoCmd::SyncTime { all, .. } && all {
        let head = auth_ops(cmd);
        let syncs = profiles().map_values(|p: u8| MoltoOp::SyncEach(p));
        lemma_short_plan(head, op);
        assert(plan == head + syncs);
        if let MoltoOp::SyncEach(p) = op {
            if p < 100 {
                assert(syncs[p as int] == op);
                assert(plan[head.len() + p as int] == op);
            }
        }
        if head.contains(op) {
            let k = choose|k: int| 0 <= k < head.len() && head[k] == op;
            assert(plan[k] == op);
        }
        if plan.contains(op) {
            let k = choose|k: int| 0 <= k < plan.len() && plan[k] == op;
            if k < head.len() {
                assert(head[k] == op);
            } else {
                assert(syncs[k - head.len()] == op);
            }
        }
    } else {
        lemma_short_plan(plan, op);
    }
}

/// When an operation of a token plan has its turn. A walk of the instruction space
/// gets the key only once the token was looked at.
pub open spec fn molto_turn(cmd: MoltoCmd, op: MoltoOp) -> int {
    match op {
        MoltoOp::ReadKey => if cmd is Probe {
            5
        } else {
            0
        },
        MoltoOp::WarnDefaultKey => 1,
        MoltoOp::Open => 2,
        MoltoOp::ReadInfo => 3,
        MoltoOp::ShowInfo => 4,
        MoltoOp::Authenticate => 6,
        MoltoOp::LoadEntries => 7,
        MoltoOp::GatherSeed => 7,
        MoltoOp::GatherKey => 7,
        MoltoOp::ResolveEntry => 7,
        MoltoOp::ReadBlock(_) => 7,
        MoltoOp::Sweep => 7,
        MoltoOp::ShowSlot(_) => 8,
        MoltoOp::SyncEach(p) => 9 + p,
        _ => 9,
    }
}

/// The operations of a token plan keep their turns, and none is done twice.
#[verifier::spinoff_prover]
#[verifier::rlimit(60)]
pub proof fn law_molto_plan_keeps_its_turns(cmd: MoltoCmd, i: int, j: int)
    requires
        molto_plan_spec(cmd) is Ok,
        0 <= i < j < molto_plan_spec(cmd)->Ok_0.len(),
    ensures
        molto_turn(cmd, molto_plan_spec(cmd)->Ok_0[i]) < molto_turn(cmd, molto_plan_spec(cmd)->Ok_0[j]),
{
    let plan = molto_plan_spec(cmd)->Ok_0;
    let turns = plan.map_values(|op: MoltoOp| molto_turn(cmd, op));
    if cmd matches MoltoCmd::SyncTime { all, .. } && all {
        let head = auth_ops(cmd);
        assert(head.len() == 5);
        if i >= 5 {
            assert(plan[i] == MoltoOp::SyncEach((i - 5) as u8));
        }
        if j >= 5 {
            assert(plan[j] == MoltoOp::SyncEach((j - 5) as u8));
        }
    } else {
        lemma_short_increasing(turns, i, j);
    }
}

/// Of the token commands only an unconfirmed walk of the instruction space is
/// refused before it begins.
pub proof fn law_molto_refusals(cmd: MoltoCmd)
    ensures
        molto_plan_spec(cmd) is Err <==> (cmd matches MoltoCmd::Probe { yes, .. } && !yes),
{
}

/// A preview names, for each account, the slot that an import of the same export
/// from the same slot on would fill with it.
pub proof fn law_preview_shows_the_slots_that_are_filled(
    plan: Seq<(u8, EntryAction)>,
    start: u8,
    entries: Seq<EntryFacts>,
    k: int,
)
    requires
        fills_slots(plan, start, entries),
        0 <= k < entries.len(),
    ensures
        import_preview_spec(start, entries).len() == entries.len() + 1,
        import_preview_spec(start, entries)[k + 1] == preview_line(plan[k].0 as nat, entries[k]),
{
    assert(plan[k].0 == start + k);
}

/// An account is written with its seed first and its configuration last, each
/// thing once.
pub proof fn law_account_is_written_in_order(action: EntryAction)
    ensures
        writes_of(action).no_duplicates(),
        action is Skip ==> writes_of(action).len() == 0,
        action is Write ==> writes_of(action).first() == SlotWrite::Seed && writes_of(action).last()
            == SlotWrite::Configuration && writes_of(action).contains(SlotWrite::Title),
{
    if action is Write {
        assert(writes_of(action)[1] == SlotWrite::Title);
    }
}

/// A failure ends a plan, but for the clock of one profile among all, which is
/// named; what worked never does.
pub proof fn law_only_a_failure_stops(op: MoltoOp, error: Seq<char>)
    ensures
        after_spec(op, None) is GoOn,
        after_spec(op, Some(error)) is Stop <==> !(op is SyncEach),
        after_spec(op, Some(error)) is Warn <==> op is SyncEach,
        op matches MoltoOp::SyncEach(p) ==> after_spec(op, Some(error)) == AfterView::Warn(
            "profile #"@ + dec_text(p as nat) + " failed: "@ + error,
        ),
{
}

/// A secret is taken just where one of its six options was given and no second
/// one, and then it is that option, read as what it is.
#[verifier::rlimit(40)]
pub proof fn law_exactly_one_option_counts(a: SecretArgs, other: SecretEncoding, refusal: Seq<char>)
    ensures
        ({
            let n = (if a.hex is Some { 1int } else { 0 }) + (if a.other is Some { 1int } else { 0 }) + (
            if a.hex_env is Some { 1int } else { 0 }) + (if a.other_env is Some { 1int } else { 0 }) + (
            if a.hex_stdin { 1int } else { 0 }) + (if a.other_stdin { 1int } else { 0 });
            match the_one(supplied_spec(a, other), refusal) {
                Ok((encoding, source)) => n == 1 && match source {
                    SourceView::Literal(t) => if a.hex is Some {
                        encoding == SecretEncoding::Hex && opt_view(a.hex) == Some(t)
                    } else {
                        encoding == other && opt_view(a.other) == Some(t)
                    },
                    SourceView::Env(v) => if a.hex_env is Some {
                        encoding == SecretEncoding::Hex && opt_view(a.hex_env) == Some(v)
                    } else {
                        encoding == other && opt_view(a.other_env) == Some(v)
                    },
                    SourceView::Stdin => if a.hex_stdin {
                        encoding == SecretEncoding::Hex
                    } else {
                        encoding == other && a.other_stdin
                    },
                },
                Err(e) => n != 1 && e == refusal,
            }
        }),
{
}

/// A title fits from one byte on and up to twelve.
pub proof fn law_title_has_one_to_twelve_bytes(title: Seq<char>)
    ensures
        title_fits(title) <==> 0 < encode_utf8(title).len() < 13,
{
}

/// The end of an import is where its accounts end, as long as that can be counted.
pub proof fn law_import_ends_after_its_accounts(start: u8, n: nat)
    ensures
        start + n <= usize::MAX ==> import_end(start, n) == start + n,
        import_end(start, n) > 100 <==> start + n > 100,
{
}

/// What is said of a write names the profile it was done to, and something is said
/// of every write to a profile that the plan itself names.
pub proof fn law_message_names_the_profile(op: MoltoOp)
    ensures
        match op {
            MoltoOp::WriteSeed(p) | MoltoOp::WriteTitle(p) | MoltoOp::Configure(p, _) | MoltoOp::SyncOne(p)
            | MoltoOp::SyncEach(p) => molto_done_spec(op) matches Some(t) && has_run(t, dec_text(p as nat)),
            MoltoOp::RotateKey => molto_done_spec(op) is Some,
            _ => molto_done_spec(op) is None,
        },
{
    let none = Seq::<char>::empty();
    match op {
        MoltoOp::WriteSeed(p) => lemma_holds(
            molto_done_spec(op)->0,
            "seed written to profile #"@,
            dec_text(p as nat),
            none,
        ),
        MoltoOp::WriteTitle(p) => lemma_holds(
            molto_done_spec(op)->0,
            "title set on profile #"@,
            dec_text(p as nat),
            none,
        ),
        MoltoOp::Configure(p, _) => lemma_holds(
            molto_done_spec(op)->0,
            "profile #"@,
            dec_text(p as nat),
            " configured"@,
        ),
        MoltoOp::SyncOne(p) => lemma_holds(
            molto_done_spec(op)->0,
            "time synced on profile #"@,
            dec_text(p as nat),
            none,
        ),
        MoltoOp::SyncEach(p) => lemma_holds(molto_done_spec(op)->0, "synced profile #"@, dec_text(p as nat), none),
        _ => {},
    }
}

/// Where an import has no room, it is said how many accounts there are, where they
/// were to start, and which profile the last of them would need.
pub proof fn law_no_room_names_the_last_profile(start: u8, n: nat)
    requires
        n > 0,
        start + n <= usize::MAX,
    ensures
        has_run(no_room_text(start, n), dec_text(n)),
        has_run(no_room_text(start, n), "#"@ + dec_text(start as nat)),
        has_run(no_room_text(start, n), "#"@ + dec_text((start + n - 1) as nat)),
{
    let t = no_room_text(start, n);
    let a = dec_text(n);
    let s = dec_text(start as nat);
    let l = dec_text((start + n - 1) as nat);
    reveal_strlit("#");
    reveal_strlit(" entries starting at #");
    reveal_strlit(" entries starting at ");
    reveal_strlit(" would exceed slot 99 (last slot needed: #");
    reveal_strlit(" would exceed slot 99 (last slot needed: ");
    assert(" entries starting at #"@ =~= " entries starting at "@ + "#"@);
    assert(" would exceed slot 99 (last slot needed: #"@ =~= " would exceed slot 99 (last slot needed: "@ + "#"@);
    let mid = " would exceed slot 99 (last slot needed: "@;
    lemma_holds(
        t,
        Seq::empty(),
        a,
        " entries starting at #"@ + s + " would exceed slot 99 (last slot needed: #"@ + l + ")"@,
    );
    lemma_holds(
        t,
        a + " entries starting at "@,
        "#"@ + s,
        " would exceed slot 99 (last slot needed: #"@ + l + ")"@,
    );
    lemma_holds(t, a + " entries starting at #"@ + s + mid, "#"@ + l, ")"@);
}

} // verus!
