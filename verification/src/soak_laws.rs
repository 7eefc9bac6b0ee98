//! What holds of every soak test, whatever events it meets.
use vstd::prelude::*;

use crate::json::json_value;
use crate::process::ExitStatus;
use crate::soak_manager::{
    told_height, AfterStop, HttpReply, SoakActionView, SoakEvent, SoakMachine, SoakManagerError,
    SoakPhase, StopStage,
};
use crate::text::decimal;

verus! {

/// While the workers of a version run, a height that has come up to the stop height listed for that
/// very version has them stopped, to make room for the next version's. Below it, or where no height
/// is told, they keep running, and after a pause the height is asked for again.
pub proof fn workers_stop_at_their_own_height(m: SoakMachine, version: usize, reply: HttpReply)
    requires
        m.wf(),
        m.phase == (SoakPhase::CheckHeight { version }),
    ensures
        ({
            let next = m.stepped(SoakEvent::Reply(reply));
            let up = told_height(reply) is Some && told_height(reply)->0
                >= m.config.versions@[version as int].1;
            &&& next.config == m.config
            &&& next.salt == m.salt
            &&& up <==> next.phase == (SoakPhase::Stop {
                version,
                stage: StopStage::Check,
                after: AfterStop::NextVersion,
            })
            &&& !up <==> next.phase == (SoakPhase::PauseHeight { version })
            &&& !up ==> next.action_view() == (SoakActionView::Pause { millis: 100 })
            &&& !up ==> next.stepped(SoakEvent::Elapsed) == m
        }),
        m.action_view() == (SoakActionView::Get {
            url: m.api_url@ + "/modules/chain-state/state/current-heights/"@,
        }),
{
}

/// The height that a response tells of is the first of the numbers under `value` in its body,
/// whatever its status; a request without a response, or a body that does not hold such a number,
/// tells of none.
pub proof fn height_is_the_first_value(status: u16, body: Vec<u8>, h: u64)
    ensures
        told_height(HttpReply::Failed) is None,
        told_height(HttpReply::Response { status, body }) == Some(h) <==> (json_value(
            body@,
        ) matches Some(answer) && answer.member("value"@) matches Some(heights)
            && heights.first() matches Some(height) && height.unsigned() == Some(h)),
        json_value(body@) is None ==> told_height(HttpReply::Response { status, body }) is None,
{
}

/// The workers of a version run that version's binary against the node's API, as many as
/// configured, with the salts that follow those of the versions before it.
pub proof fn each_version_has_its_workers(m: SoakMachine, version: usize)
    requires
        m.wf(),
        m.phase == (SoakPhase::Start { version }),
    ensures
        m.action_view() matches SoakActionView::Start { command } && {
            let config = m.config.config;
            &&& command.program == m.config.versions@[version as int].0@
            &&& command.current_dir is None
            &&& command.args == seq![
                "--api-url"@,
                m.api_url@,
                "--num-workers"@,
                decimal(config.num_workers as nat),
                "--salt"@,
                decimal((config.salt + version * config.num_workers) as nat),
            ]
        },
        m.stepped(SoakEvent::Started(Ok(()))).phase == (SoakPhase::CheckHeight { version }),
        forall|message: String|
            (#[trigger] m.stepped(SoakEvent::Started(Err(message)))).phase == SoakPhase::Finished(
                Err(SoakManagerError::SoakTestStartFailed(message)),
            ),
{
}

/// Workers are started exactly when the sequencer has answered that it is ready, with a status of
/// the two hundreds; until then it is asked again and again.
pub proof fn workers_wait_for_the_sequencer(m: SoakMachine, version: usize, reply: HttpReply)
    requires
        m.wf(),
        m.phase == (SoakPhase::CheckReady { version }),
    ensures
        m.action_view() == (SoakActionView::Get { url: m.api_url@ + "/sequencer/ready"@ }),
        ({
            let next = m.stepped(SoakEvent::Reply(reply));
            match reply {
                HttpReply::Response { status, .. } if 200 <= status && status <= 299 => next.phase
                    == (SoakPhase::Start { version }),
                _ => next.phase == (SoakPhase::PauseReady { version }) && next.action_view() == (
                SoakActionView::Pause { millis: 50 }) && next.stepped(SoakEvent::Elapsed) == m,
            }
        }),
{
}

/// Workers that have exited by themselves by the time that they are to be stopped fail the soak
/// test, unless they have exited with success.
pub proof fn failed_workers_fail_the_soak(
    m: SoakMachine,
    version: usize,
    after: AfterStop,
    status: ExitStatus,
)
    requires
        m.wf(),
        m.phase == (SoakPhase::Stop { version, stage: StopStage::Check, after }),
        status != ExitStatus::Exited(0),
    ensures
        m.stepped(SoakEvent::Exited(status)).phase == SoakPhase::Finished(
            Err(
                SoakManagerError::SoakTestFailed {
                    exit_code: match status {
                        ExitStatus::Exited(code) => code,
                        ExitStatus::Signaled(_) => -1i32,
                    },
                },
            ),
        ),
{
}

/// Whether the workers that were to be stopped need not be waited for any longer.
pub open spec fn workers_over(stage: StopStage, event: SoakEvent) -> bool {
    match stage {
        StopStage::Check => event == SoakEvent::Exited(ExitStatus::Exited(0)),
        StopStage::Terminate => event is Gone,
        StopStage::Await | StopStage::Reap => event is Exited || event is WaitFailed,
        StopStage::Kill => false,
    }
}

/// Once a version's workers have been stopped for the next version, that one's turn begins; after
/// the last version the nodes are left to finish. Workers that were stopped because the nodes have
/// finished end the soak test in success.
pub proof fn next_version_follows_the_stop(
    m: SoakMachine,
    version: usize,
    stage: StopStage,
    after: AfterStop,
    event: SoakEvent,
)
    requires
        m.wf(),
        m.phase == (SoakPhase::Stop { version, stage, after }),
        workers_over(stage, event),
    ensures
        after is NextVersion && version + 1 < m.config.versions@.len() ==> m.stepped(event).phase
            == (SoakPhase::CheckReady { version: (version + 1) as usize }),
        after is NextVersion && version + 1 == m.config.versions@.len() ==> m.stepped(event).phase
            == SoakPhase::Settle,
        after is End ==> m.stepped(event).phase == SoakPhase::Finished(Ok(())),
{
    assert(m.config.versions@.len() == m.config.versions.len());
}

/// Workers that are still running when they are to be stopped are asked to terminate, and killed
/// only where they have not exited a second later.
pub proof fn workers_terminate_before_they_are_killed(
    m: SoakMachine,
    version: usize,
    after: AfterStop,
)
    requires
        m.wf(),
        m.phase == (SoakPhase::Stop { version, stage: StopStage::Check, after }),
    ensures
        ({
            let asked = m.stepped(SoakEvent::StillRunning);
            let awaited = asked.stepped(SoakEvent::Signaled);
            let killed = awaited.stepped(SoakEvent::TimedOut);
            &&& m.action_view() is CheckExit
            &&& asked.action_view() is Terminate
            &&& awaited.action_view() == (SoakActionView::AwaitExit { timeout_millis: 1000 })
            &&& killed.action_view() is Kill
            &&& killed.stepped(SoakEvent::Signaled).action_view() is Reap
        }),
{
}

/// A shutdown while workers run has them stopped, and no others started.
pub proof fn shutdown_stops_the_workers(m: SoakMachine, version: usize)
    requires
        m.phase == (SoakPhase::CheckHeight { version }) || m.phase == (SoakPhase::PauseHeight {
            version,
        }),
    ensures
        m.stepped(SoakEvent::ShutDown).phase == (SoakPhase::Stop {
            version,
            stage: StopStage::Check,
            after: AfterStop::End,
        }),
{
}

/// The soak test after a sequence of events.
pub open spec fn soak_after(m: SoakMachine, events: Seq<SoakEvent>) -> SoakMachine
    decreases events.len(),
{
    if events.len() == 0 {
        m
    } else {
        soak_after(m, events.drop_last()).stepped(events.last())
    }
}

/// Whether, while the workers of version `i` ran, a height was told that is at least the stop
/// height listed for that version.
pub open spec fn height_seen(m: SoakMachine, events: Seq<SoakEvent>, i: int) -> bool {
    exists|k: int|
        0 <= k < events.len() && #[trigger] soak_after(m, events.take(k)).phase
            == (SoakPhase::CheckHeight { version: i as usize }) && (
        events[k] matches SoakEvent::Reply(reply) && told_height(reply) matches Some(h) && h
            >= m.config.versions@[i].1)
}

proof fn height_seen_grows(m: SoakMachine, events: Seq<SoakEvent>, i: int)
    requires
        events.len() > 0,
        height_seen(m, events.drop_last(), i),
    ensures
        height_seen(m, events, i),
{
    let rest = events.drop_last();
    let k = choose|k: int|
        0 <= k < rest.len() && #[trigger] soak_after(m, rest.take(k)).phase
            == (SoakPhase::CheckHeight { version: i as usize }) && (
        rest[k] matches SoakEvent::Reply(reply) && told_height(reply) matches Some(h) && h
            >= m.config.versions@[i].1);
    assert(events.take(k) =~= rest.take(k));
    assert(events[k] == rest[k]);
}

/// The versions' workers run in the order of the list, and those of a version make room for the
/// next ones only after a height was told, while they ran, that is at least the stop height listed
/// for that version.
pub proof fn workers_run_in_sequence(m: SoakMachine, events: Seq<SoakEvent>)
    requires
        m.wf(),
        m.phase == m.begin(0),
    ensures
        soak_after(m, events).wf(),
        soak_after(m, events).config == m.config,
        soak_after(m, events).phase !is Finished ==> forall|i: int|
            0 <= i < soak_after(m, events).versions_done() ==> #[trigger] height_seen(m, events, i),
        soak_after(m, events).phase matches SoakPhase::Stop {
            version,
            after: AfterStop::NextVersion,
            ..
        } ==> height_seen(m, events, version as int),
    decreases events.len(),
{
    assert(m.config.versions@.len() == m.config.versions.len());
    if events.len() > 0 {
        let rest = events.drop_last();
        let p = soak_after(m, rest);
        let e = events.last();
        let q = soak_after(m, events);
        workers_run_in_sequence(m, rest);
        p.wf_kept(e);
        assert(events.take(events.len() - 1) =~= rest);
        assert forall|i: int| #[trigger] height_seen(m, rest, i) implies height_seen(
            m,
            events,
            i,
        ) by {
            height_seen_grows(m, events, i);
        }
        if let SoakPhase::CheckHeight { version } = p.phase {
            assert(soak_after(m, events.take(events.len() - 1)) == p);
            if q.phase is Stop && !(e is ShutDown) {
                assert(height_seen(m, events, version as int));
            }
        }
        if q.phase !is Finished {
            assert forall|i: int| 0 <= i < q.versions_done() implies #[trigger] height_seen(
                m,
                events,
                i,
            ) by {
                if i < p.versions_done() {
                    assert(height_seen(m, rest, i));
                } else {
                    assert(p.phase matches SoakPhase::Stop { version, .. } && version == i);
                    assert(height_seen(m, rest, i));
                }
            }
        }
    }
}

impl SoakMachine {
    proof fn wf_kept(self, event: SoakEvent)
        requires
            self.wf(),
        ensures
            self.stepped(event).wf(),
            self.stepped(event).config == self.config,
    {
        let n = self.config.config.num_workers as int;
        let v = self.versions_done();
        let len = self.config.versions@.len() as int;
        assert(len == self.config.versions.len());
        assert((v + 1) * n == v * n + n) by (nonlinear_arith);
        if v < len {
            assert((v + 1) * n <= len * n) by (nonlinear_arith)
                requires
                    v + 1 <= len,
                    0 <= n,
            ;
        }
    }
}

/// Workers whose state cannot be told when they are to be stopped are asked to terminate like those
/// that are still running.
pub proof fn workers_of_unknown_state_are_terminated(
    m: SoakMachine,
    version: usize,
    after: AfterStop,
)
    requires
        m.phase == (SoakPhase::Stop { version, stage: StopStage::Check, after }),
    ensures
        m.stepped(SoakEvent::WaitFailed) == m.stepped(SoakEvent::StillRunning),
        m.stepped(SoakEvent::WaitFailed).phase == (SoakPhase::Stop {
            version,
            stage: StopStage::Terminate,
            after,
        }),
{
}

/// Once all versions are through, the soak test waits for the shutdown signal, for as long as it
/// was given, and then ends in success.
pub proof fn settling_ends_in_success(m: SoakMachine)
    requires
        m.phase is Settle,
    ensures
        m.action_view() == (SoakActionView::AwaitShutdown { limit_millis: m.settle_millis }),
        m.stepped(SoakEvent::Elapsed).phase == SoakPhase::Finished(Ok(())),
        m.stepped(SoakEvent::ShutDown).phase == SoakPhase::Finished(Ok(())),
{
}

} // verus!
