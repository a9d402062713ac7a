//! The OATH commands.

use crate::json_out::{OathCodeJson, OathCredentialJson};
use crate::molto::{debug_text, quoted};
use crate::plan::lemma_short_plan;
use crate::sanitize::{clean, sanitize_terminal};
use crate::secrets::SecretOpts;
use crate::text::{cat2, cat5, cat6, cat7, dec_text, dec_usize, has_run, lemma_holds, opt_view, str_eq, Lines};
use vstd::prelude::*;

verus! {

/// Kind of a credential.
#[derive(Clone, Copy, Debug, PartialEq, Eq, Structural)]
pub enum OathType {
    /// By time.
    Totp,
    /// By counter.
    Hotp,
}

/// Digest of a credential.
#[derive(Clone, Copy, Debug, PartialEq, Eq, Structural)]
pub enum OathAlgorithm {
    /// SHA-1.
    Sha1,
    /// SHA-256.
    Sha256,
    /// SHA-512.
    Sha512,
}

/// Name of a kind.
pub open spec fn oath_type_name(t: OathType) -> Seq<char> {
    match t {
        OathType::Totp => "TOTP"@,
        OathType::Hotp => "HOTP"@,
    }
}

/// Name of a kind.
pub fn oath_type_str(t: OathType) -> (r: &'static str)
    ensures
        r@ == oath_type_name(t),
{
    match t {
        OathType::Totp => "TOTP",
        OathType::Hotp => "HOTP",
    }
}

/// Name of a digest.
pub open spec fn oath_algo_name(a: OathAlgorithm) -> Seq<char> {
    match a {
        OathAlgorithm::Sha1 => "SHA1"@,
        OathAlgorithm::Sha256 => "SHA256"@,
        OathAlgorithm::Sha512 => "SHA512"@,
    }
}

/// Name of a digest.
pub fn oath_algo_str(a: OathAlgorithm) -> (r: &'static str)
    ensures
        r@ == oath_algo_name(a),
{
    match a {
        OathAlgorithm::Sha1 => "SHA1",
        OathAlgorithm::Sha256 => "SHA256",
        OathAlgorithm::Sha512 => "SHA512",
    }
}

/// How the applet is reached: the reader apart, its password.
#[derive(Debug)]
pub struct OathAccess {
    /// Where the password is.
    pub password: SecretOpts,
}

impl OathAccess {
    /// Whether a password was offered at all.
    pub fn password(&self) -> (r: bool)
        ensures
            r == (self.password.env is Some || self.password.stdin),
    {
        self.password.env.is_some() || self.password.stdin
    }
}

/// What is done about the password of an opened applet.
#[derive(Debug)]
pub enum OathUnlock {
    /// It is unlocked with the password.
    Unlock,
    /// Nothing: there is no lock.
    Nothing,
    /// The command fails: there is a lock and no password.
    Refuse(String),
}

/// Why a locked applet without a password is refused.
pub const OATH_LOCKED: &'static str = "this OATH applet is password-protected; supply it with --password-env VAR or --password-stdin";

/// Decides on the password of an opened applet. A password that was offered
/// is always used.
pub fn open_oath(password_given: bool, password_required: bool) -> (r: OathUnlock)
    ensures
        match r {
            OathUnlock::Unlock => password_given,
            OathUnlock::Nothing => !password_given && !password_required,
            OathUnlock::Refuse(e) => !password_given && password_required && e@ == OATH_LOCKED@,
        },
{
    if password_given {
        OathUnlock::Unlock
    } else if password_required {
        OathUnlock::Refuse(OATH_LOCKED.to_owned())
    } else {
        OathUnlock::Nothing
    }
}

/// An OATH command.
#[derive(Debug)]
pub enum OathCmd {
    /// List the credentials.
    List { access: OathAccess },
    /// Calculate a code.
    Code { name: String, period: u32, access: OathAccess },
    /// Add a credential.
    Add {
        name: String,
        oath_type: OathType,
        secret: SecretOpts,
        algorithm: OathAlgorithm,
        digits: u8,
        counter: u32,
        touch: bool,
        access: OathAccess,
    },
    /// Delete a credential.
    Delete { name: String, access: OathAccess },
    /// Set the password.
    SetPassword { new_password: SecretOpts, access: OathAccess },
    /// Clear the password.
    ClearPassword { access: OathAccess },
    /// Wipe the applet.
    Reset { yes: bool },
}

/// One operation of a plan.
#[derive(Clone, Copy, Debug, PartialEq, Eq, Structural)]
pub enum OathOp {
    /// Read and decode the secret of a credential.
    ReadSecret,
    /// Read the new password, and refuse an empty one.
    ReadNewPassword,
    /// Open the applet in the resolved reader.
    Open,
    /// Unlock it, as far as it is locked.
    Unlock,
    /// List the credentials.
    List,
    /// Calculate the code of the credential that the command names, for steps
    /// of that many seconds where it goes by time.
    Calculate(u32),
    /// Add the credential that the command names, with its first counter.
    Put { oath_type: OathType, algorithm: OathAlgorithm, digits: u8, touch: bool, counter: u32 },
    /// Delete a credential.
    Delete,
    /// Set the password.
    SetPassword,
    /// Clear the password.
    ClearPassword,
    /// Wipe the applet.
    Reset,
    /// Say that it is done.
    Report,
}

/// Why a reset is refused.
pub const OATH_RESET_REFUSAL: &'static str = "refusing to reset the OATH applet without --yes (wipes ALL authenticator credentials and clears the access password; this cannot be undone)";

/// The counter a credential begins with: only one that goes by a counter has
/// any use for it.
pub open spec fn first_counter(oath_type: OathType, counter: u32) -> u32 {
    match oath_type {
        OathType::Hotp => counter,
        OathType::Totp => 0,
    }
}

/// What each command does, in order, or why it refuses before it begins.
pub open spec fn oath_plan_spec(cmd: OathCmd) -> Result<Seq<OathOp>, Seq<char>> {
    match cmd {
        OathCmd::List { .. } => Ok(seq![OathOp::Open, OathOp::Unlock, OathOp::List]),
        OathCmd::Code { period, .. } => Ok(seq![OathOp::Open, OathOp::Unlock, OathOp::Calculate(period)]),
        OathCmd::Add { oath_type, algorithm, digits, counter, touch, .. } => if !(6 <= digits <= 8) {
            Err("--digits must be 6, 7, or 8"@)
        } else {
            Ok(
                seq![
                    OathOp::ReadSecret,
                    OathOp::Open,
                    OathOp::Unlock,
                    OathOp::Put { oath_type, algorithm, digits, touch, counter: first_counter(oath_type, counter) },
                    OathOp::Report,
                ],
            )
        },
        OathCmd::Delete { .. } => Ok(seq![OathOp::Open, OathOp::Unlock, OathOp::Delete, OathOp::Report]),
        OathCmd::SetPassword { .. } => Ok(
            seq![
                OathOp::ReadNewPassword,
                OathOp::Open,
                OathOp::Unlock,
                OathOp::SetPassword,
                OathOp::Report,
            ],
        ),
        OathCmd::ClearPassword { .. } => Ok(
            seq![OathOp::Open, OathOp::Unlock, OathOp::ClearPassword, OathOp::Report],
        ),
        OathCmd::Reset { yes } => if yes {
            Ok(seq![OathOp::Open, OathOp::Reset, OathOp::Report])
        } else {
            Err(OATH_RESET_REFUSAL@)
        },
    }
}

/// What a planning result holds.
pub open spec fn oath_result(r: Result<Vec<OathOp>, String>) -> Result<Seq<OathOp>, Seq<char>> {
    match r {
        Ok(v) => Ok(v@),
        Err(e) => Err(e@),
    }
}

/// Plans an OATH command. A reset never unlocks: it is for the applet whose
/// password is lost.
pub fn run_oath(cmd: &OathCmd) -> (r: Result<Vec<OathOp>, String>)
    ensures
        oath_result(r) == oath_plan_spec(*cmd),
{
    let ghost want = oath_plan_spec(*cmd);
    let plan: Vec<OathOp> = match cmd {
        OathCmd::List { .. } => vec![OathOp::Open, OathOp::Unlock, OathOp::List],
        OathCmd::Code { period, .. } => vec![OathOp::Open, OathOp::Unlock, OathOp::Calculate(*period)],
        OathCmd::Add { oath_type, algorithm, digits, counter, touch, .. } => {
            if *digits < 6 || *digits > 8 {
                return Err("--digits must be 6, 7, or 8".to_owned());
            }
            let first: u32 = match oath_type {
                OathType::Hotp => *counter,
                OathType::Totp => 0,
            };
            let put = OathOp::Put {
                oath_type: *oath_type,
                algorithm: *algorithm,
                digits: *digits,
                touch: *touch,
                counter: first,
            };
            vec![OathOp::ReadSecret, OathOp::Open, OathOp::Unlock, put, OathOp::Report]
        },
        OathCmd::Delete { .. } => vec![OathOp::Open, OathOp::Unlock, OathOp::Delete, OathOp::Report],
        OathCmd::SetPassword { .. } => vec![
            OathOp::ReadNewPassword,
            OathOp::Open,
            OathOp::Unlock,
            OathOp::SetPassword,
            OathOp::Report,
        ],
        OathCmd::ClearPassword { .. } => vec![
            OathOp::Open,
            OathOp::Unlock,
            OathOp::ClearPassword,
            OathOp::Report,
        ],
        OathCmd::Reset { yes } => {
            if !*yes {
                return Err(OATH_RESET_REFUSAL.to_owned());
            }
            vec![OathOp::Open, OathOp::Reset, OathOp::Report]
        },
    };
    assert(want is Ok);
    assert(plan@ =~= want->Ok_0);
    Ok(plan)
}

/// The applet is wiped only when confirmed, and then without its password.
pub proof fn law_oath_reset(cmd: OathCmd, i: int)
    requires
        oath_plan_spec(cmd) is Ok,
        0 <= i < oath_plan_spec(cmd)->Ok_0.len(),
        oath_plan_spec(cmd)->Ok_0[i] == OathOp::Reset,
    ensures
        cmd matches OathCmd::Reset { yes } && yes,
        !oath_plan_spec(cmd)->Ok_0.contains(OathOp::Unlock),
{
}

/// Two commands that add a credential that goes by time do the same, whatever
/// their counters are.
pub proof fn law_totp_ignores_the_counter(a: OathCmd, b: OathCmd)
    requires
        a is Add && b is Add,
        a->Add_oath_type == OathType::Totp && b->Add_oath_type == OathType::Totp,
        a->Add_algorithm == b->Add_algorithm,
        a->Add_digits == b->Add_digits,
        a->Add_touch == b->Add_touch,
    ensures
        oath_plan_spec(a) == oath_plan_spec(b),
{
}

/// A new password must not be empty.
pub fn check_new_password(new: &str) -> (r: Result<(), String>)
    ensures
        r is Ok <==> new@.len() > 0,
        r matches Err(e) ==> e@ == "new password is empty; use `clear-password` to remove it"@,
{
    if new.is_empty() {
        Err("new password is empty; use `clear-password` to remove it".to_owned())
    } else {
        Ok(())
    }
}

/// A stored credential.
#[derive(Debug)]
pub struct OathCredential {
    /// Its name.
    pub name: String,
    /// Its kind.
    pub oath_type: OathType,
    /// Its digest.
    pub algorithm: OathAlgorithm,
}

/// Whether the first credential of that name counts.
pub open spec fn counts(creds: Seq<OathCredential>, name: Seq<char>) -> bool
    decreases creds.len(),
{
    if creds.len() == 0 {
        false
    } else if creds[0].name@ == name {
        creds[0].oath_type == OathType::Hotp
    } else {
        counts(creds.drop_first(), name)
    }
}

/// Whether a code is calculated from the counter on the card. A credential
/// that is not listed is taken to go by time.
pub fn is_hotp(creds: &Vec<OathCredential>, name: &str) -> (r: bool)
    ensures
        r == counts(creds@, name@),
{
    let mut i: usize = 0;
    assert(creds@.skip(0) =~= creds@);
    while i < creds.len()
        invariant
            i <= creds.len(),
            counts(creds@, name@) == counts(creds@.skip(i as int), name@),
        decreases creds.len() - i,
    {
        assert(creds@.skip(i as int)[0] == creds@[i as int]);
        if str_eq(creds[i].name.as_str(), name) {
            return match creds[i].oath_type {
                OathType::Hotp => true,
                OathType::Totp => false,
            };
        }
        assert(creds@.skip(i as int).drop_first() =~= creds@.skip(i as int + 1));
        i = i + 1;
    }
    false
}

/// The warning for a listing that leaves something out.
pub open spec fn skipped_text(skipped: nat) -> Option<Seq<char>> {
    if skipped == 0 {
        None
    } else {
        Some(
            "warning: "@ + dec_text(skipped) + " credential entr"@ + (if skipped == 1 {
                "y"@
            } else {
                "ies"@
            }) + " on the key could not be decoded and "@ + (if skipped == 1 {
                "is"@
            } else {
                "are"@
            }) + " not shown; the listing is incomplete"@,
        )
    }
}

/// The warning for a listing that leaves something out.
pub fn skipped_warning(skipped: usize) -> (r: Option<String>)
    ensures
        opt_view(r) == skipped_text(skipped as nat),
{
    if skipped == 0 {
        return None;
    }
    let one = skipped == 1;
    Some(
        cat7(
            "warning: ",
            dec_usize(skipped).as_str(),
            " credential entr",
            if one {
                "y"
            } else {
                "ies"
            },
            " on the key could not be decoded and ",
            if one {
                "is"
            } else {
                "are"
            },
            " not shown; the listing is incomplete",
        ),
    )
}

/// The machine-readable form of a credential.
pub open spec fn credential_json_is(j: OathCredentialJson, c: OathCredential) -> bool {
    &&& j.name@ == c.name@
    &&& j.oath_type@ == oath_type_name(c.oath_type)
    &&& j.algorithm@ == oath_algo_name(c.algorithm)
}

/// The credentials in machine-readable form.
pub fn oath_list_json(creds: &Vec<OathCredential>) -> (r: Vec<OathCredentialJson>)
    ensures
        r@.len() == creds@.len(),
        forall|i: int| 0 <= i < creds@.len() ==> credential_json_is(#[trigger] r@[i], creds@[i]),
{
    let mut r: Vec<OathCredentialJson> = Vec::new();
    let mut i: usize = 0;
    while i < creds.len()
        invariant
            i <= creds.len(),
            r.len() == i,
            forall|k: int| 0 <= k < i ==> credential_json_is(#[trigger] r@[k], creds@[k]),
        decreases creds.len() - i,
    {
        let c = &creds[i];
        r.push(
            OathCredentialJson {
                name: c.name.clone(),
                oath_type: oath_type_str(c.oath_type),
                algorithm: oath_algo_str(c.algorithm),
            },
        );
        i = i + 1;
    }
    r
}

/// The line of a credential.
pub open spec fn credential_line(c: OathCredential) -> Seq<char> {
    clean(c.name@) + "  ["@ + oath_type_name(c.oath_type) + "/"@ + oath_algo_name(c.algorithm) + "]"@
}

/// The credentials, line by line.
pub fn oath_list_lines(creds: &Vec<OathCredential>) -> (r: Lines)
    ensures
        r@ == (if creds@.len() == 0 {
            seq!["(no OATH credentials)"@]
        } else {
            creds@.map_values(|c: OathCredential| credential_line(c))
        }),
{
    let mut out = Lines::new();
    if creds.len() == 0 {
        out.put("(no OATH credentials)");
        assert(out@ =~= seq!["(no OATH credentials)"@]);
        return out;
    }
    let ghost all = creds@.map_values(|c: OathCredential| credential_line(c));
    let mut i: usize = 0;
    assert(out@ =~= all.take(0));
    while i < creds.len()
        invariant
            i <= creds.len(),
            all == creds@.map_values(|c: OathCredential| credential_line(c)),
            out@ == all.take(i as int),
        decreases creds.len() - i,
    {
        let c = &creds[i];
        out.say(
            cat6(
                sanitize_terminal(c.name.as_str()).as_str(),
                "  [",
                oath_type_str(c.oath_type),
                "/",
                oath_algo_str(c.algorithm),
                "]",
            ),
        );
        i = i + 1;
        assert(out@ =~= all.take(i as int));
    }
    assert(all.take(i as int) =~= all);
    out
}

/// A calculated code in machine-readable form.
pub fn oath_code_json(name: &str, code: &str) -> (r: OathCodeJson)
    ensures
        r.name@ == name@,
        r.code@ == code@,
{
    OathCodeJson { name: name.to_owned(), code: code.to_owned() }
}

/// The closing line of a command; none for those that end by showing
/// something.
pub open spec fn oath_done_text(cmd: OathCmd) -> Option<Seq<char>> {
    match cmd {
        OathCmd::Add { name, oath_type, .. } => Some(
            "Added OATH "@ + oath_type_name(oath_type) + " credential "@ + debug_text(name@) + "."@,
        ),
        OathCmd::Delete { name, .. } => Some("Deleted OATH credential "@ + debug_text(name@) + "."@),
        OathCmd::SetPassword { .. } => Some("OATH password set."@),
        OathCmd::ClearPassword { .. } => Some("OATH password cleared."@),
        OathCmd::Reset { .. } => Some(
            "OATH applet reset: all credentials wiped, access password cleared."@,
        ),
        _ => None,
    }
}

/// The closing line of a command.
pub fn oath_done(cmd: &OathCmd) -> (r: Option<String>)
    ensures
        opt_view(r) == oath_done_text(*cmd),
{
    match cmd {
        OathCmd::Add { name, oath_type, .. } => Some(
            cat5(
                "Added OATH ",
                oath_type_str(*oath_type),
                " credential ",
                quoted(name.as_str()).as_str(),
                ".",
            ),
        ),
        OathCmd::Delete { name, .. } => {
            let head = cat2("Deleted OATH credential ", quoted(name.as_str()).as_str());
            Some(cat2(head.as_str(), "."))
        },
        OathCmd::SetPassword { .. } => Some("OATH password set.".to_owned()),
        OathCmd::ClearPassword { .. } => Some("OATH password cleared.".to_owned()),
        OathCmd::Reset { .. } => Some(
            "OATH applet reset: all credentials wiped, access password cleared.".to_owned(),
        ),
        _ => None,
    }
}

/// An OATH plan does what its command is for and nothing else: a credential is
/// stored as it was asked for, with the counter it begins at where it counts, and
/// a code is calculated for the period that was asked for.
#[verifier::spinoff_prover]
#[verifier::rlimit(40)]
pub proof fn law_oath_plan_is_what_was_asked(cmd: OathCmd, op: OathOp)
    requires
        oath_plan_spec(cmd) is Ok,
    ensures
        oath_plan_spec(cmd)->Ok_0.contains(op) <==> match op {
            OathOp::ReadSecret => cmd is Add,
            OathOp::ReadNewPassword => cmd is SetPassword,
            OathOp::Open => true,
            OathOp::Unlock => !(cmd is Reset),
            OathOp::List => cmd is List,
            OathOp::Calculate(seconds) => cmd matches OathCmd::Code { period, .. } && seconds == period,
            OathOp::Put { oath_type: t, algorithm: a, digits: d, touch: b, counter: c } => cmd matches OathCmd::Add {
                oath_type,
                algorithm,
                digits,
                touch,
                counter,
                ..
            } && t == oath_type && a == algorithm && d == digits && b == touch && c == (if oath_type == OathType::Hotp {
                counter
            } else {
                0
            }),
            OathOp::Delete => cmd is Delete,
            OathOp::SetPassword => cmd is SetPassword,
            OathOp::ClearPassword => cmd is ClearPassword,
            OathOp::Reset => cmd is Reset,
            OathOp::Report => !(cmd is List || cmd is Code),
        },
{
    lemma_short_plan(oath_plan_spec(cmd)->Ok_0, op);
}

/// When an operation of an OATH plan has its turn.
pub open spec fn oath_turn(op: OathOp) -> int {
    match op {
        OathOp::ReadSecret => 0,
        OathOp::ReadNewPassword => 0,
        OathOp::Open => 1,
        OathOp::Unlock => 2,
        OathOp::Report => 4,
        _ => 3,
    }
}

/// The operations of an OATH plan keep their turns, and none is done twice.
pub proof fn law_oath_plan_keeps_its_turns(cmd: OathCmd, i: int, j: int)
    requires
        oath_plan_spec(cmd) is Ok,
        0 <= i < j < oath_plan_spec(cmd)->Ok_0.len(),
    ensures
        oath_turn(oath_plan_spec(cmd)->Ok_0[i]) < oath_turn(oath_plan_spec(cmd)->Ok_0[j]),
{
}

/// An OATH command is refused before it begins just where its digits cannot be,
/// or where everything would be wiped unconfirmed.
pub proof fn law_oath_refusals(cmd: OathCmd)
    ensures
        oath_plan_spec(cmd) is Err <==> match cmd {
            OathCmd::Add { digits, .. } => digits < 6 || digits > 8,
            OathCmd::Reset { yes } => !yes,
            _ => false,
        },
{
}

/// Whether a code counts is told by the first credential of that name, and by no
/// other; a name that is not listed does not count.
pub proof fn law_first_credential_of_the_name_decides(creds: Seq<OathCredential>, name: Seq<char>, i: int)
    requires
        0 <= i <= creds.len(),
        forall|k: int| 0 <= k < i ==> (#[trigger] creds[k]).name@ != name,
    ensures
        i < creds.len() && creds[i].name@ == name ==> (counts(creds, name) <==> creds[i].oath_type == OathType::Hotp),
        i == creds.len() ==> !counts(creds, name),
    decreases creds.len(),
{
    if i > 0 {
        assert(creds[0].name@ != name);
        let rest = creds.drop_first();
        assert forall|k: int| 0 <= k < i - 1 implies (#[trigger] rest[k]).name@ != name by {
            assert(rest[k] == creds[k + 1]);
        }
        law_first_credential_of_the_name_decides(rest, name, i - 1);
    }
}

/// A credential in machine-readable form keeps its name, its type and its hash.
pub proof fn law_oath_fields_keep_their_places(j: OathCredentialJson, c: OathCredential)
    requires
        credential_json_is(j, c),
    ensures
        j.name@ == c.name@,
        c.oath_type == OathType::Totp ==> j.oath_type@ == "TOTP"@,
        c.oath_type == OathType::Hotp ==> j.oath_type@ == "HOTP"@,
        c.algorithm == OathAlgorithm::Sha1 ==> j.algorithm@ == "SHA1"@,
        c.algorithm == OathAlgorithm::Sha256 ==> j.algorithm@ == "SHA256"@,
        c.algorithm == OathAlgorithm::Sha512 ==> j.algorithm@ == "SHA512"@,
{
}

/// The line of a credential begins with its name, as the terminal may show it, and
/// tells a counter from a clock.
pub proof fn law_oath_line_begins_with_the_name(c: OathCredential)
    ensures
        credential_line(c).take(c.name@.len() as int) == clean(c.name@),
        c.oath_type == OathType::Totp ==> has_run(credential_line(c), "TOTP"@),
        c.oath_type == OathType::Hotp ==> has_run(credential_line(c), "HOTP"@),
{
    let t = credential_line(c);
    let n = clean(c.name@);
    assert(n.len() == c.name@.len());
    assert(t.take(n.len() as int) =~= n);
    lemma_holds(t, n + "  ["@, oath_type_name(c.oath_type), "/"@ + oath_algo_name(c.algorithm) + "]"@);
}

/// What could not be decoded is counted, and passed over in silence only where
/// there is none.
pub proof fn law_skipped_credentials_are_counted(skipped: nat)
    ensures
        skipped_text(skipped) is None <==> skipped == 0,
        skipped_text(skipped) matches Some(t) ==> has_run(t, dec_text(skipped)),
{
    if let Some(t) = skipped_text(skipped) {
        let after = " credential entr"@ + (if skipped == 1 {
            "y"@
        } else {
            "ies"@
        }) + " on the key could not be decoded and "@ + (if skipped == 1 {
            "is"@
        } else {
            "are"@
        }) + " not shown; the listing is incomplete"@;
        lemma_holds(t, "warning: "@, dec_text(skipped), after);
    }
}

/// What changed the key is said, and it names the credential that was added or
/// deleted; what only reads says nothing of its own.
pub proof fn law_oath_message_names_the_credential(cmd: OathCmd)
    ensures
        match cmd {
            OathCmd::Add { name, .. } => oath_done_text(cmd) matches Some(t) && has_run(t, debug_text(name@)),
            OathCmd::Delete { name, .. } => oath_done_text(cmd) matches Some(t) && has_run(t, debug_text(name@)),
            OathCmd::SetPassword { .. } | OathCmd::ClearPassword { .. } | OathCmd::Reset { .. } => oath_done_text(
                cmd,
            ) is Some,
            _ => oath_done_text(cmd) is None,
        },
{
    match cmd {
        OathCmd::Add { name, oath_type, .. } => lemma_holds(
            oath_done_text(cmd)->0,
            "Added OATH "@ + oath_type_name(oath_type) + " credential "@,
            debug_text(name@),
            "."@,
        ),
        OathCmd::Delete { name, .. } => lemma_holds(
            oath_done_text(cmd)->0,
            "Deleted OATH credential "@,
            debug_text(name@),
            "."@,
        ),
        _ => {},
    }
}

} // verus!
