//! The supervisor: one launch attempt per application start, driven by the
//! host.  The host reports the outcome of command construction and
//! spawning, and hands over the events it reads from the child's pipes;
//! every decision and every log line is made here.

use vstd::prelude::*;
use vstd::string::StringExecFns;
use crate::config::LaunchSpec;
use crate::config::backend_program;
use crate::config::config_path_of;
use crate::config::launch_args_of;
use crate::config::build_launch_spec;
use crate::config::resolve_config_path;
use crate::log::Log;
use crate::pump::ProcessEvent;
use crate::pump::event_entries;
use crate::pump::handle_event;
use crate::pump::has_termination;
use crate::pump::lemma_pump_observes_all;
use crate::pump::lemma_pump_step;
use crate::pump::lemma_pump_stops_at_termination;
use crate::pump::observed;
use crate::pump::pump_entries;
use crate::pump::tag;
use crate::pump::tagged;
use crate::pump::termination_line;

verus! {

/// Why a launch attempt failed.
pub enum LaunchError {
    /// The backend executable could not be resolved for this platform or
    /// bundle; the reason is the host runtime's message.
    CommandConstructionFailed(String),
    /// The operating system refused to create the process.
    SpawnFailed(String),
}

/// Where one launch attempt stands.  `Disabled`, `FailedConstruction`,
/// `FailedSpawn` and `Finished` are terminal: no operation applies to them.
#[derive(Clone, Copy, PartialEq, Eq, Structural, Debug)]
pub enum Phase {
    NotStarted,
    Disabled,
    CommandBuilt,
    Running,
    FailedConstruction,
    FailedSpawn,
    Finished,
}

/// The supervisor of a single backend launch attempt.
pub struct Supervisor {
    pub phase: Phase,
}

/// The line logged before the launch, naming the configuration path.
pub open spec fn using_config_line(path: Seq<char>) -> Seq<char> {
    tag() + "Using config: "@ + path
}

/// The line logged when the backend has been spawned.
pub open spec fn started_line() -> Seq<char> {
    tag() + "Backend started successfully"@
}

/// The line logged when the backend command cannot be constructed.
pub open spec fn construction_failure_line(reason: Seq<char>) -> Seq<char> {
    tag() + "Failed to create sidecar command: "@ + reason
}

/// The line logged when spawning the backend fails.
pub open spec fn spawn_failure_line(reason: Seq<char>) -> Seq<char> {
    tag() + "Failed to spawn backend: "@ + reason
}

impl Supervisor {
    /// A supervisor that has not yet made its launch attempt.
    pub fn new() -> (s: Supervisor)
        ensures
            s.phase is NotStarted,
    {
        Supervisor { phase: Phase::NotStarted }
    }

    /// Begins the launch attempt.  Outside production mode nothing happens
    /// and nothing is logged.  In production mode the configuration path is
    /// resolved and logged, and the command to run is returned for the host
    /// to construct and spawn.
    pub fn start(&mut self, production: bool, resource_dir: Option<&str>, log: &mut Log) -> (launch:
        Option<LaunchSpec>)
        requires
            old(self).phase is NotStarted,
        ensures
            !production ==> final(self).phase is Disabled && launch is None && final(log)@ == old(log)@,
            production ==> final(self).phase is CommandBuilt && (launch matches Some(built)
                && built.program@ == backend_program() && built.args.deep_view() == launch_args_of(
                config_path_of(resource_dir.deep_view()),
            )) && final(log)@ == old(log)@ + seq![
                (false, using_config_line(config_path_of(resource_dir.deep_view()))),
            ],
    {
        if !production {
            self.phase = Phase::Disabled;
            return None;
        }
        let path = resolve_config_path(resource_dir);
        let line = String::from_str("[go-sea] ").concat("Using config: ").concat(path.as_str());
        proof {
            assert(line@ =~= using_config_line(path@));
        }
        log.info(line);
        let built = build_launch_spec(path.as_str());
        self.phase = Phase::CommandBuilt;
        Some(built)
    }

    /// Records the outcome of the host's launch attempt: on success the
    /// backend is running; on failure the attempt ends in the matching
    /// terminal state.  Exactly one line is logged either way, on the error
    /// channel for failures.
    pub fn on_launch(&mut self, outcome: Result<(), LaunchError>, log: &mut Log) -> (running: bool)
        requires
            old(self).phase is CommandBuilt,
        ensures
            running == (outcome is Ok),
            outcome is Ok ==> final(self).phase is Running && final(log)@ == old(log)@ + seq![
                (false, started_line()),
            ],
            (outcome matches Err(LaunchError::CommandConstructionFailed(reason))
                ==> final(self).phase is FailedConstruction && final(log)@ == old(log)@ + seq![
                (true, construction_failure_line(reason@)),
            ]),
            (outcome matches Err(LaunchError::SpawnFailed(reason))
                ==> final(self).phase is FailedSpawn && final(log)@ == old(log)@ + seq![
                (true, spawn_failure_line(reason@)),
            ]),
    {
        match outcome {
            Result::Ok(()) => {
                let line = String::from_str("[go-sea] ").concat("Backend started successfully");
                proof {
                    assert(line@ =~= started_line());
                }
                log.info(line);
                self.phase = Phase::Running;
                true
            },
            Result::Err(LaunchError::CommandConstructionFailed(reason)) => {
                let line = String::from_str("[go-sea] ").concat(
                    "Failed to create sidecar command: ",
                ).concat(reason.as_str());
                proof {
                    assert(line@ =~= construction_failure_line(reason@));
                }
                log.error(line);
                self.phase = Phase::FailedConstruction;
                false
            },
            Result::Err(LaunchError::SpawnFailed(reason)) => {
                let line = String::from_str("[go-sea] ").concat("Failed to spawn backend: ").concat(
                    reason.as_str(),
                );
                proof {
                    assert(line@ =~= spawn_failure_line(reason@));
                }
                log.error(line);
                self.phase = Phase::FailedSpawn;
                false
            },
        }
    }

    /// Handles one event of the running backend: logs its entries; on the
    /// termination event the attempt is finished and the pump must stop.
    pub fn on_event(&mut self, event: &ProcessEvent, log: &mut Log) -> (stop: bool)
        requires
            old(self).phase is Running,
        ensures
            stop == (*event is Terminated),
            final(log)@ == old(log)@ + event_entries(*event),
            final(self).phase == (if *event is Terminated {
                Phase::Finished
            } else {
                Phase::Running
            }),
    {
        let stop = handle_event(event, log);
        if stop {
            self.phase = Phase::Finished;
        }
        stop
    }

    /// Pumps a recorded event sequence: handles the events in order, up to
    /// and including the first termination event, and returns how many were
    /// observed.  The attempt is finished exactly when the sequence holds a
    /// termination event.
    pub fn pump(&mut self, events: &Vec<ProcessEvent>, log: &mut Log) -> (n: usize)
        requires
            old(self).phase is Running,
        ensures
            n as nat == observed(events@),
            final(log)@ == old(log)@ + pump_entries(events@),
            final(self).phase == (if has_termination(events@) {
                Phase::Finished
            } else {
                Phase::Running
            }),
    {
        let ghost all = events@;
        let mut i: usize = 0;
        let mut stopped: bool = false;
        proof {
            assert(all.take(0) =~= Seq::<ProcessEvent>::empty());
            assert(log@ =~= old(log)@ + pump_entries(all.take(0)));
        }
        while i < events.len() && !stopped
            invariant
                self.phase is Running,
                0 <= i <= all.len(),
                events@ == all,
                stopped ==> i >= 1 && all[i - 1] is Terminated && (forall|j: int|
                    0 <= j < i - 1 ==> !(all[j] is Terminated)),
                !stopped ==> forall|j: int| 0 <= j < i ==> !(all[j] is Terminated),
                log@ == old(log)@ + pump_entries(all.take(i as int)),
                observed(all.take(i as int)) == i,
            decreases all.len() - i,
        {
            proof {
                lemma_pump_step(all, i as int);
            }
            let stop = handle_event(&events[i], log);
            i = i + 1;
            if stop {
                stopped = true;
            }
        }
        proof {
            if stopped {
                lemma_pump_stops_at_termination(all, i - 1);
                assert(has_termination(all));
            } else {
                assert(all.take(i as int) =~= all);
                lemma_pump_observes_all(all);
                assert(!has_termination(all));
            }
        }
        if stopped {
            self.phase = Phase::Finished;
        }
        i
    }
}

/// Every line the supervisor itself logs is tagged with the backend's
/// prefix, like the lines of the backend's own output.
pub proof fn lemma_supervisor_lines_tagged(path: Seq<char>, reason: Seq<char>)
    ensures
        tagged(using_config_line(path)),
        tagged(started_line()),
        tagged(construction_failure_line(reason)),
        tagged(spawn_failure_line(reason)),
{
    reveal_strlit("[go-sea] ");
    assert(using_config_line(path).subrange(0, tag().len() as int) =~= tag());
    assert(started_line().subrange(0, tag().len() as int) =~= tag());
    assert(construction_failure_line(reason).subrange(0, tag().len() as int) =~= tag());
    assert(spawn_failure_line(reason).subrange(0, tag().len() as int) =~= tag());
}

/// A failed command construction creates no process: the one line it adds
/// to the log is not a termination line, so no termination is ever
/// reported for the attempt.
pub proof fn lemma_construction_failure_no_termination(
    pre: Seq<(bool, Seq<char>)>,
    post: Seq<(bool, Seq<char>)>,
    reason: Seq<char>,
)
    requires
        post == pre + seq![(true, construction_failure_line(reason))],
    ensures
        forall|i: int, code: Option<i32>|
            pre.len() <= i < post.len() ==> post[i].1 != termination_line(code),
{
    assert forall|i: int, code: Option<i32>|
        pre.len() <= i < post.len() implies post[i].1 != termination_line(code) by {
        reveal_strlit("Process terminated with code: ");
        reveal_strlit("Failed to create sidecar command: ");
        reveal_strlit("[go-sea] ");
        assert(post[i].1 == construction_failure_line(reason));
        assert(construction_failure_line(reason)[9] == 'F');
        assert(termination_line(code)[9] == 'P');
    }
}

} // verus!
