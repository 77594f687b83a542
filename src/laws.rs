use vstd::prelude::*;

use crate::level::{Duplicate, Level, LevelFilter};
use crate::multi_writer::{spec_max_active_level, MultiWriter, Target};

verus! {

/// The `Off` policy passes no record, and the `Trace` and `All` policies pass
/// every record.
pub proof fn lemma_off_and_trace_policies(level: Level)
    ensures
        !Duplicate::Off.admits(level),
        Duplicate::Trace.admits(level),
        Duplicate::All.admits(level),
{
}

/// Each threshold policy passes exactly the records at least as severe as its
/// threshold, under the order Error > Warn > Info > Debug > Trace.
pub proof fn lemma_threshold_policies(level: Level)
    ensures
        Duplicate::Error.admits(level) <==> level == Level::Error,
        Duplicate::Warn.admits(level) <==> (level == Level::Error || level == Level::Warn),
        Duplicate::Info.admits(level) <==> (level != Level::Debug && level != Level::Trace),
        Duplicate::Debug.admits(level) <==> level != Level::Trace,
{
}

/// A policy is a threshold: one that passes a record also passes every
/// more severe one.
pub proof fn lemma_policy_monotone(policy: Duplicate, level: Level, more_severe: Level)
    requires
        policy.admits(level),
        more_severe.at_least(level),
    ensures
        policy.admits(more_severe),
{
}

/// In capture mode a write never stops at a console: a console destination
/// that a record is meant for is reached even when formatting fails, and a
/// failed write stopped at a sink.
pub proof fn lemma_capture_mode_reaches_all_consoles<F, O, Fmt, C>(
    mw: MultiWriter<F, O, Fmt, C>,
    level: Level,
    visited: Seq<Target>,
    ok: bool,
)
    requires
        mw.spec_support_capture(),
        mw.is_write_trace(level, visited, ok),
    ensures
        !ok ==> (visited.last() == Target::FileWriter || visited.last() == Target::OtherWriter),
        forall|i: int|
            0 <= i < mw.write_targets(level).len() && (mw.write_targets(level)[i] == Target::Stderr
                || mw.write_targets(level)[i] == Target::Stdout) ==> i < visited.len(),
{
    let plan = mw.write_targets(level);
    assert forall|i: int|
        0 <= i < plan.len() && (plan[i] == Target::Stderr || plan[i] == Target::Stdout) implies i
        < visited.len() by {
        if !ok && i >= visited.len() {
            assert(visited.last() == plan[visited.len() - 1]);
            assert(plan[visited.len() - 1] == Target::FileWriter || plan[visited.len() - 1]
                == Target::OtherWriter);
        }
    }
}

/// Outside capture mode a write that fails at a console goes no further: no
/// sink is reached.
pub proof fn lemma_console_failure_skips_sinks<F, O, Fmt, C>(
    mw: MultiWriter<F, O, Fmt, C>,
    level: Level,
    visited: Seq<Target>,
)
    requires
        !mw.spec_support_capture(),
        mw.is_write_trace(level, visited, false),
        visited.last() == Target::Stderr || visited.last() == Target::Stdout,
    ensures
        forall|i: int|
            0 <= i < visited.len() ==> visited[i] != Target::FileWriter && visited[i]
                != Target::OtherWriter,
{
}

/// Of two active levels the less restrictive one is taken; of one, that one.
pub proof fn lemma_max_active_level(file_level: Option<LevelFilter>, other_level: Option<LevelFilter>)
    requires
        file_level is Some || other_level is Some,
    ensures
        file_level is Some && other_level is Some ==> {
            let r = spec_max_active_level(file_level, other_level);
            &&& r.rank() >= file_level.unwrap().rank()
            &&& r.rank() >= other_level.unwrap().rank()
            &&& (r == file_level.unwrap() || r == other_level.unwrap())
        },
        other_level is None ==> spec_max_active_level(file_level, other_level) == file_level.unwrap(),
        file_level is None ==> spec_max_active_level(file_level, other_level) == other_level.unwrap(),
{
}

} // verus!
