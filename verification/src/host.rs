//! What the tool decides about the machine it runs on: the clock, and how a
//! secret gets into a file that nobody else can read or redirect.

use crate::text::{cat2, cat3, cat4, dec_text, dec_u32};
use vstd::prelude::*;

verus! {

/// Exit status when the reader of the output is gone: 128 plus the number of
/// the signal for a broken pipe.
pub const BROKEN_PIPE_STATUS: i32 = 141;

/// What is shown when the clock cannot be used.
pub const CLOCK_WARNING: &'static str = "warning: system clock reads before 1970; using time 0";

/// The seconds since 1970 as the devices take them, in 32 bits. `elapsed` is
/// none where the clock reads before 1970; the time is then 0.
pub fn unix_now(elapsed: Option<u64>) -> (r: u32)
    ensures
        match elapsed {
            Some(s) => r == s % 0x1_0000_0000,
            None => r == 0,
        },
{
    match elapsed {
        Some(s) => {
            let low: u64 = s % 0x1_0000_0000;
            low as u32
        },
        None => 0,
    }
}

/// What stands at the place where a secret is to be written.
#[derive(Clone, Copy, Debug, PartialEq, Eq, Structural)]
pub enum Destination {
    /// Nothing.
    Missing,
    /// A symbolic link.
    Symlink,
    /// An ordinary file of that user.
    Regular { owner: u32 },
    /// Something else.
    Special,
}

/// Kind of a refusal.
#[derive(Clone, Copy, Debug, PartialEq, Eq, Structural)]
pub enum RefusalKind {
    /// Something is in the way.
    AlreadyExists,
    /// It belongs to someone else.
    PermissionDenied,
}

/// Why a secret is not written.
#[derive(Clone, Copy, Debug)]
pub struct Refusal {
    /// Its kind.
    pub kind: RefusalKind,
    /// Its text.
    pub message: &'static str,
}

/// Decides whether a secret may replace what stands at its destination. `ours`
/// is the user who writes it.
pub fn vet_destination(found: Destination, ours: u32) -> (r: Result<(), Refusal>)
    ensures
        match r {
            Ok(()) => found == Destination::Missing || found == (Destination::Regular { owner: ours }),
            Err(e) => match found {
                Destination::Missing => false,
                Destination::Symlink => e.kind == RefusalKind::AlreadyExists && e.message@
                    == "refusing to write secret output through a symlink"@,
                Destination::Special => e.kind == RefusalKind::AlreadyExists && e.message@
                    == "refusing to write secret output to a non-regular file"@,
                Destination::Regular { owner } => owner != ours && e.kind == RefusalKind::PermissionDenied
                    && e.message@ == "refusing to overwrite a secret-output file owned by another user"@,
            },
        },
{
    match found {
        Destination::Missing => Ok(()),
        Destination::Symlink => Err(
            Refusal {
                kind: RefusalKind::AlreadyExists,
                message: "refusing to write secret output through a symlink",
            },
        ),
        Destination::Special => Err(
            Refusal {
                kind: RefusalKind::AlreadyExists,
                message: "refusing to write secret output to a non-regular file",
            },
        ),
        Destination::Regular { owner } => if owner != ours {
            Err(
                Refusal {
                    kind: RefusalKind::PermissionDenied,
                    message: "refusing to overwrite a secret-output file owned by another user",
                },
            )
        } else {
            Ok(())
        },
    }
}

/// Name of the file that a secret is first written to, next to the one that it
/// is meant for.
pub fn temp_name(file_name: &str, process: u32) -> (r: String)
    ensures
        r@ == "."@ + file_name@ + ".keyroost-tmp-"@ + dec_text(process as nat),
{
    let id = dec_u32(process);
    let head = cat3(".", file_name, ".keyroost-tmp-");
    cat2(head.as_str(), id.as_str())
}

/// A step of writing a secret.
#[derive(Clone, Copy, Debug, PartialEq, Eq, Structural)]
pub enum WriteStep {
    /// Create a fresh file beside the destination, for its owner alone.
    Create,
    /// Learn who owns it.
    Owner,
    /// Look at the destination, without following links.
    Look,
    /// Take everyone else's access to the fresh file away.
    Restrict,
    /// Write the secret into the fresh file.
    Fill,
    /// Put the fresh file in the destination's place.
    Replace,
}

/// What comes after a step.
#[derive(Clone, Copy, Debug, PartialEq, Eq, Structural)]
pub enum AfterStep {
    /// The next step.
    Go(WriteStep),
    /// The secret is in place.
    Done,
    /// Give up; whether the fresh file is removed first.
    GiveUp { remove: bool },
}

/// What comes after a step that worked or failed. Looking at the destination
/// works when [`vet_destination`] lets it pass.
pub open spec fn after_step_spec(step: WriteStep, worked: bool) -> AfterStep {
    if !worked {
        AfterStep::GiveUp { remove: step != WriteStep::Create && step != WriteStep::Owner }
    } else {
        match step {
            WriteStep::Create => AfterStep::Go(WriteStep::Owner),
            WriteStep::Owner => AfterStep::Go(WriteStep::Look),
            WriteStep::Look => AfterStep::Go(WriteStep::Restrict),
            WriteStep::Restrict => AfterStep::Go(WriteStep::Fill),
            WriteStep::Fill => AfterStep::Go(WriteStep::Replace),
            WriteStep::Replace => AfterStep::Done,
        }
    }
}

/// What comes after a step of writing a secret.
pub fn write_private_file(step: WriteStep, worked: bool) -> (r: AfterStep)
    ensures
        r == after_step_spec(step, worked),
{
    if !worked {
        let early = match step {
            WriteStep::Create => true,
            WriteStep::Owner => true,
            _ => false,
        };
        return AfterStep::GiveUp { remove: !early };
    }
    match step {
        WriteStep::Create => AfterStep::Go(WriteStep::Owner),
        WriteStep::Owner => AfterStep::Go(WriteStep::Look),
        WriteStep::Look => AfterStep::Go(WriteStep::Restrict),
        WriteStep::Restrict => AfterStep::Go(WriteStep::Fill),
        WriteStep::Fill => AfterStep::Go(WriteStep::Replace),
        WriteStep::Replace => AfterStep::Done,
    }
}

/// The steps that are taken when the first ones work or fail as given, and the
/// later ones are not reached.
pub open spec fn steps_taken(worked: Seq<bool>) -> Seq<(WriteStep, bool)>
    decreases worked.len(),
{
    if worked.len() == 0 {
        Seq::empty()
    } else {
        let before = steps_taken(worked.drop_last());
        if worked.len() == 1 {
            seq![(WriteStep::Create, worked[0])]
        } else {
            match after_step_spec(before.last().0, before.last().1) {
                AfterStep::Go(s) => if before.len() == worked.len() - 1 {
                    before.push((s, worked.last()))
                } else {
                    before
                },
                _ => before,
            }
        }
    }
}

/// The order of the steps.
pub open spec fn step_order() -> Seq<WriteStep> {
    seq![
        WriteStep::Create,
        WriteStep::Owner,
        WriteStep::Look,
        WriteStep::Restrict,
        WriteStep::Fill,
        WriteStep::Replace,
    ]
}

/// The secret is written only into a fresh file that its owner alone can read,
/// and only after the destination was looked at and let pass: whatever happens,
/// the steps come in one order and every step before the last one worked.
pub proof fn law_secrets_are_written_last(worked: Seq<bool>, i: int)
    requires
        0 <= i < steps_taken(worked).len(),
    ensures
        steps_taken(worked).len() <= 6,
        steps_taken(worked)[i].0 == step_order()[i],
        forall|k: int| 0 <= k < i ==> (#[trigger] steps_taken(worked)[k]).1,
    decreases worked.len(),
{
    let all = steps_taken(worked);
    if worked.len() > 1 {
        let before = steps_taken(worked.drop_last());
        assert(worked.drop_last().len() > 0);
        lemma_some_step(worked.drop_last());
        law_secrets_are_written_last(worked.drop_last(), before.len() - 1);
        if i < before.len() {
            law_secrets_are_written_last(worked.drop_last(), i);
            assert forall|k: int| 0 <= k < i implies (#[trigger] all[k]).1 by {
                assert(before[k] == all[k]);
            }
        } else {
            assert forall|k: int| 0 <= k < i implies (#[trigger] all[k]).1 by {
                assert(before[k] == all[k]);
                if k < before.len() - 1 {
                    assert(before[k].1);
                }
            }
        }
    }
}

proof fn lemma_some_step(worked: Seq<bool>)
    requires
        worked.len() > 0,
    ensures
        steps_taken(worked).len() > 0,
    decreases worked.len(),
{
    if worked.len() > 1 {
        lemma_some_step(worked.drop_last());
    }
}

/// Reports that a file cannot be read.
pub fn read_failed(path: &str, reason: &str) -> (r: String)
    ensures
        r@ == "read "@ + path@ + ": "@ + reason@,
{
    let head = cat3("read ", path, ": ");
    cat2(head.as_str(), reason)
}

/// Reports that a file cannot be written.
pub fn write_failed(path: &str, reason: &str) -> (r: String)
    ensures
        r@ == "write "@ + path@ + ": "@ + reason@,
{
    let head = cat3("write ", path, ": ");
    cat2(head.as_str(), reason)
}

/// Reports that an input cannot be read.
pub fn cannot_read(path: &str, reason: &str) -> (r: String)
    ensures
        r@ == "cannot read "@ + path@ + ": "@ + reason@,
{
    cat4("cannot read ", path, ": ", reason)
}

/// Reports that an output cannot be written.
pub fn cannot_write(path: &str, reason: &str) -> (r: String)
    ensures
        r@ == "cannot write "@ + path@ + ": "@ + reason@,
{
    cat4("cannot write ", path, ": ", reason)
}

/// Why an output path cannot be used.
pub const NO_FILE_NAME: &'static str = "output path has no file name";

/// Where the access rules of FIDO keys are installed.
pub const RULES_PATH: &'static str = "/etc/udev/rules.d/70-keyroost-fido.rules";

/// Writing a secret is over just where the fresh file took the destination's place
/// or a step failed; a fresh file that is known to be there is removed.
pub proof fn law_failed_write_leaves_nothing_behind(step: WriteStep, worked: bool)
    ensures
        after_step_spec(step, worked) == AfterStep::Done <==> worked && step == WriteStep::Replace,
        after_step_spec(step, worked) is GiveUp <==> !worked,
        after_step_spec(step, worked) == (AfterStep::GiveUp { remove: true }) <==> !worked && step != WriteStep::Create
            && step != WriteStep::Owner,
{
}

} // verus!
