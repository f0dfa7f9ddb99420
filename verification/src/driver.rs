//! Driving a full migration: the tokens first, then the stakers in batches
//! until the migration contract reports that none is left. The chain does
//! the work; this state machine decides, from each answer, what comes next.
use vstd::prelude::*;

use crate::suite::STAKERS_BATCH;

verus! {

/// Where a full migration stands, and what answer it waits for.
#[derive(Debug, Clone, Copy, PartialEq, Eq)]
pub enum MigrationPhase {
    /// The token migration was sent.
    MigratingTokens,
    /// The question whether every staker is migrated was sent.
    CheckingFinished,
    /// A batch of stakers was sent.
    MigratingStakers,
    /// Every staker is migrated.
    Finished,
    /// A request failed; the migration stops with its error.
    Failed,
}

/// What the chain answered to the last command.
#[derive(Debug, Clone, Copy, PartialEq, Eq)]
pub enum MigrationReply {
    /// The request failed.
    Failed,
    /// The request succeeded.
    Succeeded,
    /// The migration contract answered whether every staker is migrated.
    Finished(bool),
}

/// What to do next.
#[derive(Debug, Clone, Copy, PartialEq, Eq)]
pub enum MigrationCommand {
    /// Migrate the staking contract and its tokens.
    MigrateTokens,
    /// Ask whether every staker is migrated.
    AskFinished,
    /// Migrate the next batch of this many stakers.
    MigrateStakers(u32),
    /// Stop: with success, or with the error of the failed request.
    Stop { ok: bool },
}

/// One step of a full migration: the phase after `reply` and the command to
/// carry out. A failure stops everything; a batch follows each "not yet";
/// "finished" ends the migration with success; the last two phases stay.
pub open spec fn spec_step(phase: MigrationPhase, reply: MigrationReply) -> (MigrationPhase, MigrationCommand) {
    match phase {
        MigrationPhase::MigratingTokens | MigrationPhase::MigratingStakers => match reply {
            MigrationReply::Failed => (MigrationPhase::Failed, MigrationCommand::Stop { ok: false }),
            _ => (MigrationPhase::CheckingFinished, MigrationCommand::AskFinished),
        },
        MigrationPhase::CheckingFinished => match reply {
            MigrationReply::Failed => (MigrationPhase::Failed, MigrationCommand::Stop { ok: false }),
            MigrationReply::Finished(true) => (MigrationPhase::Finished, MigrationCommand::Stop { ok: true }),
            MigrationReply::Finished(false) => (
                MigrationPhase::MigratingStakers,
                MigrationCommand::MigrateStakers(STAKERS_BATCH),
            ),
            MigrationReply::Succeeded => (MigrationPhase::CheckingFinished, MigrationCommand::AskFinished),
        },
        MigrationPhase::Finished => (MigrationPhase::Finished, MigrationCommand::Stop { ok: true }),
        MigrationPhase::Failed => (MigrationPhase::Failed, MigrationCommand::Stop { ok: false }),
    }
}

/// The phase reached from `phase` after the answers `replies`.
pub open spec fn spec_run(phase: MigrationPhase, replies: Seq<MigrationReply>) -> MigrationPhase
    decreases replies.len(),
{
    if replies.len() == 0 {
        phase
    } else {
        spec_run(spec_step(phase, replies[0]).0, replies.drop_first())
    }
}

/// The number of batches of stakers sent from `phase` on the answers `replies`.
pub open spec fn spec_batches(phase: MigrationPhase, replies: Seq<MigrationReply>) -> nat
    decreases replies.len(),
{
    if replies.len() == 0 {
        0
    } else {
        let (next, command) = spec_step(phase, replies[0]);
        (if command is MigrateStakers { 1nat } else { 0nat }) + spec_batches(next, replies.drop_first())
    }
}

/// The number of "not yet" answers among `replies` that came while the
/// migration was checking whether it had finished.
pub open spec fn spec_not_yet(phase: MigrationPhase, replies: Seq<MigrationReply>) -> nat
    decreases replies.len(),
{
    if replies.len() == 0 {
        0
    } else {
        let counted = phase == MigrationPhase::CheckingFinished && replies[0] == MigrationReply::Finished(false);
        (if counted { 1nat } else { 0nat }) + spec_not_yet(spec_step(phase, replies[0]).0, replies.drop_first())
    }
}

impl MigrationPhase {
    /// A full migration begins by migrating the tokens.
    pub fn start() -> (r: (MigrationPhase, MigrationCommand))
        ensures
            r == (MigrationPhase::MigratingTokens, MigrationCommand::MigrateTokens),
    {
        (MigrationPhase::MigratingTokens, MigrationCommand::MigrateTokens)
    }

    /// The phase after `reply`, and the command to carry out next.
    pub fn step(self, reply: MigrationReply) -> (r: (MigrationPhase, MigrationCommand))
        ensures
            r == spec_step(self, reply),
    {
        match self {
            MigrationPhase::MigratingTokens | MigrationPhase::MigratingStakers => match reply {
                MigrationReply::Failed => (MigrationPhase::Failed, MigrationCommand::Stop { ok: false }),
                _ => (MigrationPhase::CheckingFinished, MigrationCommand::AskFinished),
            },
            MigrationPhase::CheckingFinished => match reply {
                MigrationReply::Failed => (MigrationPhase::Failed, MigrationCommand::Stop { ok: false }),
                MigrationReply::Finished(true) => (MigrationPhase::Finished, MigrationCommand::Stop { ok: true }),
                MigrationReply::Finished(false) => (
                    MigrationPhase::MigratingStakers,
                    MigrationCommand::MigrateStakers(STAKERS_BATCH),
                ),
                MigrationReply::Succeeded => (MigrationPhase::CheckingFinished, MigrationCommand::AskFinished),
            },
            MigrationPhase::Finished => (MigrationPhase::Finished, MigrationCommand::Stop { ok: true }),
            MigrationPhase::Failed => (MigrationPhase::Failed, MigrationCommand::Stop { ok: false }),
        }
    }
}

/// A migration that has finished or failed stays so, and asks for nothing more.
pub proof fn lemma_end_is_final(phase: MigrationPhase, replies: Seq<MigrationReply>)
    requires
        phase == MigrationPhase::Finished || phase == MigrationPhase::Failed,
    ensures
        spec_run(phase, replies) == phase,
        spec_batches(phase, replies) == 0,
    decreases replies.len(),
{
    if replies.len() > 0 {
        lemma_end_is_final(spec_step(phase, replies[0]).0, replies.drop_first());
    }
}

/// A failed request stops the migration with its error: nothing more is sent.
pub proof fn lemma_failure_stops(phase: MigrationPhase)
    ensures
        spec_step(phase, MigrationReply::Failed) == (
            if phase == MigrationPhase::Finished {
                (MigrationPhase::Finished, MigrationCommand::Stop { ok: true })
            } else {
                (MigrationPhase::Failed, MigrationCommand::Stop { ok: false })
            }
        ),
{
}

/// The migration ends with success only when, while it was checking, the
/// migration contract answered that every staker is migrated.
pub proof fn lemma_success_only_when_finished(phase: MigrationPhase, reply: MigrationReply)
    ensures
        phase != MigrationPhase::Finished && spec_step(phase, reply).0 == MigrationPhase::Finished
            ==> phase == MigrationPhase::CheckingFinished && reply == MigrationReply::Finished(true),
{
}

/// Every batch of stakers has the size 10, and is sent only after the
/// migration contract answered that some staker is left.
pub proof fn lemma_batches_follow_not_yet(phase: MigrationPhase, reply: MigrationReply)
    ensures
        spec_step(phase, reply).1 is MigrateStakers ==> {
            &&& spec_step(phase, reply).1 == MigrationCommand::MigrateStakers(10)
            &&& phase == MigrationPhase::CheckingFinished
            &&& reply == MigrationReply::Finished(false)
        },
{
}

/// Over any run of answers, one batch of stakers is sent per answer "not
/// yet": the loop migrates stakers exactly as often as it is told some are
/// left.
pub proof fn lemma_one_batch_per_not_yet(phase: MigrationPhase, replies: Seq<MigrationReply>)
    ensures
        spec_batches(phase, replies) == spec_not_yet(phase, replies),
    decreases replies.len(),
{
    if replies.len() > 0 {
        lemma_one_batch_per_not_yet(spec_step(phase, replies[0]).0, replies.drop_first());
    }
}

/// A run that reaches success from a phase other than success passes a
/// point where the migration was checking and was told that every staker
/// is migrated.
proof fn lemma_reaches_finished(phase: MigrationPhase, replies: Seq<MigrationReply>)
    requires
        phase != MigrationPhase::Finished,
        spec_run(phase, replies) == MigrationPhase::Finished,
    ensures
        exists|k: int|
            0 <= k < replies.len() && replies[k] == MigrationReply::Finished(true)
                && spec_run(phase, replies.take(k)) == MigrationPhase::CheckingFinished,
    decreases replies.len(),
{
    let next = spec_step(phase, replies[0]).0;
    if next == MigrationPhase::Finished {
        lemma_success_only_when_finished(phase, replies[0]);
        assert(replies.take(0) =~= Seq::<MigrationReply>::empty());
        assert(spec_run(phase, replies.take(0)) == phase);
    } else {
        let rest = replies.drop_first();
        lemma_reaches_finished(next, rest);
        let k = choose|k: int|
            0 <= k < rest.len() && rest[k] == MigrationReply::Finished(true)
                && spec_run(next, rest.take(k)) == MigrationPhase::CheckingFinished;
        assert(replies.take(k + 1).drop_first() =~= rest.take(k));
        assert(replies.take(k + 1)[0] == replies[0]);
        assert(spec_run(phase, replies.take(k + 1)) == spec_run(next, rest.take(k)));
        assert(replies[k + 1] == rest[k]);
    }
}

/// A run from the start that ends with success began with a successful
/// token migration, and later, while checking, was told that every staker
/// is migrated.
pub proof fn lemma_successful_run(replies: Seq<MigrationReply>)
    requires
        spec_run(MigrationPhase::MigratingTokens, replies) == MigrationPhase::Finished,
    ensures
        replies.len() >= 2,
        replies[0] != MigrationReply::Failed,
        exists|k: int|
            0 < k < replies.len() && replies[k] == MigrationReply::Finished(true)
                && spec_run(MigrationPhase::MigratingTokens, replies.take(k)) == MigrationPhase::CheckingFinished,
{
    lemma_reaches_finished(MigrationPhase::MigratingTokens, replies);
    let k = choose|k: int|
        0 <= k < replies.len() && replies[k] == MigrationReply::Finished(true)
            && spec_run(MigrationPhase::MigratingTokens, replies.take(k)) == MigrationPhase::CheckingFinished;
    if k == 0 {
        assert(replies.take(0) =~= Seq::<MigrationReply>::empty());
    }
    if replies[0] == MigrationReply::Failed {
        lemma_end_is_final(MigrationPhase::Failed, replies.drop_first());
    }
}

} // verus!
