//! Reconciling a host's foster jobs with the commands its agent reports
//! after a (re)connection: which reports are trusted, which jobs keep
//! running, and which need manual recovery.
use vstd::prelude::*;
use vstd::utf8::encode_utf8;

use crate::domain::{AgentCommandKind, AgentCommandState, AgentCommandStatus};
use crate::ids::{foster_command_id, foster_command_key, uuid_v5_spec, FOSTER_COMMAND_NAMESPACE};

verus! {

/// A foster job that the server believes to be executing on the host.
#[derive(Debug, Clone)]
pub struct ExecutingFosterJob {
    pub id: i64,
    pub retry_count: i32,
    pub status: String,
}

#[derive(Debug, Clone, Copy, PartialEq, Eq, Default)]
pub struct ReconciliationReport {
    pub preserved: usize,
    pub recovery_required: usize,
}

/// The reason recorded for a job whose command the agent reported as
/// interrupted.
pub const INTERRUPTED_REASON: &'static str = "agent restarted while foster command was running";

/// The reason recorded for an executing job that the agent did not report.
pub const MISSING_REASON: &'static str =
    "server expected an executing foster command but agent did not report it";

/// The id of the command of a foster job's attempt.
pub open spec fn foster_command_id_of(job_id: i64, attempt: i32) -> u128 {
    uuid_v5_spec(FOSTER_COMMAND_NAMESPACE, encode_utf8(foster_command_key(job_id as int, attempt as int)))
}

/// A report is trusted when it is about a foster command, names its job and
/// attempt, and carries the id that the server gives that attempt's command.
pub open spec fn trusted_state(s: AgentCommandState) -> bool {
    &&& s.kind == AgentCommandKind::Foster
    &&& s.job_id is Some
    &&& s.attempt is Some
    &&& s.command_id == foster_command_id_of(s.job_id->0, s.attempt->0)
}

/// What the last trusted report about attempt `attempt` of job `job_id`
/// says; later reports replace earlier ones.
pub open spec fn trusted_status(states: Seq<AgentCommandState>, job_id: i64, attempt: i32) -> Option<
    AgentCommandStatus,
>
    decreases states.len(),
{
    if states.len() == 0 {
        None
    } else {
        let s = states.last();
        if trusted_state(s) && s.job_id == Some(job_id) && s.attempt == Some(attempt) {
            Some(s.status)
        } else {
            trusted_status(states.drop_last(), job_id, attempt)
        }
    }
}

/// The last trusted report about one attempt of one job.
#[derive(Debug, Clone, Copy)]
pub struct TrustedCommand {
    pub job_id: i64,
    pub attempt: i32,
    pub status: AgentCommandStatus,
}

/// Whether an agent's report is trusted.
pub fn is_trusted_state(state: &AgentCommandState) -> (r: bool)
    ensures
        r == trusted_state(*state),
{
    if state.kind != AgentCommandKind::Foster {
        return false;
    }
    match (state.job_id, state.attempt) {
        (Some(job_id), Some(attempt)) => state.command_id == foster_command_id(job_id, attempt),
        _ => false,
    }
}

/// The trusted reports, one per job attempt, each with what the last
/// trusted report about that attempt says.
pub fn trusted_commands(states: &Vec<AgentCommandState>) -> (r: Vec<TrustedCommand>)
    ensures
        forall|i: int, j: int|
            0 <= i < j < r@.len() ==> !(r@[i].job_id == r@[j].job_id && r@[i].attempt
                == r@[j].attempt),
        forall|i: int|
            0 <= i < r@.len() ==> trusted_status(states@, r@[i].job_id, r@[i].attempt) == Some(
                (#[trigger] r@[i]).status,
            ),
        forall|job_id: i64, attempt: i32|
            (#[trigger] trusted_status(states@, job_id, attempt)) is Some ==> exists|i: int|
                0 <= i < r@.len() && r@[i].job_id == job_id && r@[i].attempt == attempt,
{
    let mut out: Vec<TrustedCommand> = Vec::new();
    let mut k: usize = 0;
    while k < states.len()
        invariant
            k <= states@.len(),
            forall|i: int, j: int|
                0 <= i < j < out@.len() ==> !(out@[i].job_id == out@[j].job_id && out@[i].attempt
                    == out@[j].attempt),
            forall|i: int|
                0 <= i < out@.len() ==> trusted_status(
                    states@.subrange(0, k as int),
                    out@[i].job_id,
                    out@[i].attempt,
                ) == Some((#[trigger] out@[i]).status),
            forall|job_id: i64, attempt: i32|
                (#[trigger] trusted_status(states@.subrange(0, k as int), job_id, attempt)) is Some
                    ==> exists|i: int|
                    0 <= i < out@.len() && out@[i].job_id == job_id && out@[i].attempt == attempt,
        decreases states.len() - k,
    {
        let state = &states[k];
        let ghost pre = states@.subrange(0, k as int);
        let ghost next = states@.subrange(0, k + 1);
        assert(next.drop_last() =~= pre);
        assert(next.last() == states@[k as int]);
        if is_trusted_state(state) {
            let job_id = state.job_id.unwrap();
            let attempt = state.attempt.unwrap();
            let mut found: Option<usize> = None;
            let mut i: usize = 0;
            while i < out.len()
                invariant
                    i <= out@.len(),
                    found matches Some(f) ==> f < out@.len() && out@[f as int].job_id == job_id
                        && out@[f as int].attempt == attempt,
                    found is None ==> forall|m: int|
                        0 <= m < i ==> !(out@[m].job_id == job_id && out@[m].attempt == attempt),
                decreases out.len() - i,
            {
                if found.is_none() && out[i].job_id == job_id && out[i].attempt == attempt {
                    found = Some(i);
                }
                i = i + 1;
            }
            let ghost old_out = out@;
            match found {
                Some(f) => {
                    out.set(f, TrustedCommand { job_id, attempt, status: state.status });
                },
                None => {
                    out.push(TrustedCommand { job_id, attempt, status: state.status });
                },
            }
            proof {
                assert forall|i: int| 0 <= i < out@.len() implies trusted_status(
                    next,
                    out@[i].job_id,
                    out@[i].attempt,
                ) == Some((#[trigger] out@[i]).status) by {
                    if out@[i].job_id == job_id && out@[i].attempt == attempt {
                    } else {
                        assert(out@[i] == old_out[i]);
                    }
                }
                assert forall|j: i64, a: i32|
                    (#[trigger] trusted_status(next, j, a)) is Some implies exists|i: int|
                        0 <= i < out@.len() && out@[i].job_id == j && out@[i].attempt == a by {
                    if j == job_id && a == attempt {
                        match found {
                            Some(f) => {
                                assert(out@[f as int].job_id == j);
                            },
                            None => {
                                assert(out@[old_out.len() as int].job_id == j);
                            },
                        }
                    } else {
                        assert(trusted_status(pre, j, a) is Some);
                        let m = choose|m: int|
                            0 <= m < old_out.len() && old_out[m].job_id == j && old_out[m].attempt
                                == a;
                        assert(out@[m] == old_out[m]);
                    }
                }
            }
        } else {
            proof {
                assert forall|j: i64, a: i32|
                    trusted_status(next, j, a) == trusted_status(pre, j, a) by {}
            }
        }
        k = k + 1;
    }
    assert(states@.subrange(0, states@.len() as int) =~= states@);
    out
}

/// What reconciliation writes and reports.
#[derive(Debug, Clone)]
pub struct ReconciliationPlan {
    /// The job attempts that the agent reported as interrupted.
    pub interrupted: Vec<(i64, i32)>,
    /// The executing jobs that the agent did not report.
    pub missing: Vec<(i64, i32)>,
    /// How many executing jobs keep running.
    pub preserved: usize,
}

/// The executing jobs that no trusted report covers, as (job, attempt).
pub open spec fn missing_jobs(states: Seq<AgentCommandState>, jobs: Seq<ExecutingFosterJob>) -> Seq<
    (i64, i32),
>
    decreases jobs.len(),
{
    if jobs.len() == 0 {
        Seq::empty()
    } else {
        let j = jobs.last();
        if trusted_status(states, j.id, j.retry_count) is None {
            missing_jobs(states, jobs.drop_last()).push((j.id, j.retry_count))
        } else {
            missing_jobs(states, jobs.drop_last())
        }
    }
}

/// A report that lets a job keep running.
pub open spec fn keeps_running(status: Option<AgentCommandStatus>) -> bool {
    status == Some(AgentCommandStatus::Running) || status == Some(AgentCommandStatus::Finished)
}

/// How many executing jobs a trusted report says are running or finished.
pub open spec fn preserved_count(states: Seq<AgentCommandState>, jobs: Seq<ExecutingFosterJob>) -> nat
    decreases jobs.len(),
{
    if jobs.len() == 0 {
        0
    } else {
        let j = jobs.last();
        preserved_count(states, jobs.drop_last()) + if keeps_running(
            trusted_status(states, j.id, j.retry_count),
        ) {
            1nat
        } else {
            0nat
        }
    }
}

fn lookup(trusted: &Vec<TrustedCommand>, job_id: i64, attempt: i32) -> (r: Option<
    AgentCommandStatus,
>)
    ensures
        match r {
            Some(s) => exists|i: int|
                0 <= i < trusted@.len() && trusted@[i].job_id == job_id && trusted@[i].attempt
                    == attempt && trusted@[i].status == s,
            None => forall|i: int|
                0 <= i < trusted@.len() ==> !(#[trigger] trusted@[i].job_id == job_id
                    && trusted@[i].attempt == attempt),
        },
{
    let mut i: usize = 0;
    while i < trusted.len()
        invariant
            i <= trusted@.len(),
            forall|m: int| 0 <= m < i ==> !(trusted@[m].job_id == job_id && trusted@[m].attempt == attempt),
        decreases trusted.len() - i,
    {
        if trusted[i].job_id == job_id && trusted[i].attempt == attempt {
            return Some(trusted[i].status);
        }
        i = i + 1;
    }
    None
}

/// The reconciliation of a host: the attempts that the agent reported as
/// interrupted go to recovery; of the jobs the server believes executing,
/// those that a trusted report shows running or finished are preserved,
/// those reported as interrupted are already covered, and those without a
/// trusted report go to recovery.
pub fn reconciliation_plan(states: &Vec<AgentCommandState>, jobs: &Vec<ExecutingFosterJob>) -> (r:
    ReconciliationPlan)
    ensures
        forall|i: int, j: int|
            0 <= i < j < r.interrupted@.len() ==> r.interrupted@[i] != r.interrupted@[j],
        forall|i: int|
            0 <= i < r.interrupted@.len() ==> trusted_status(
                states@,
                (#[trigger] r.interrupted@[i]).0,
                r.interrupted@[i].1,
            ) == Some(AgentCommandStatus::Interrupted),
        forall|job_id: i64, attempt: i32|
            #[trigger] trusted_status(states@, job_id, attempt) == Some(
                AgentCommandStatus::Interrupted,
            ) ==> r.interrupted@.contains((job_id, attempt)),
        r.missing@ == missing_jobs(states@, jobs@),
        r.preserved == preserved_count(states@, jobs@),
{
    let trusted = trusted_commands(states);
    let mut interrupted: Vec<(i64, i32)> = Vec::new();
    let mut t: usize = 0;
    while t < trusted.len()
        invariant
            t <= trusted@.len(),
            forall|i: int, j: int|
                0 <= i < j < trusted@.len() ==> !(trusted@[i].job_id == trusted@[j].job_id
                    && trusted@[i].attempt == trusted@[j].attempt),
            forall|i: int|
                0 <= i < trusted@.len() ==> trusted_status(
                    states@,
                    trusted@[i].job_id,
                    trusted@[i].attempt,
                ) == Some((#[trigger] trusted@[i]).status),
            forall|i: int, j: int|
                0 <= i < j < interrupted@.len() ==> interrupted@[i] != interrupted@[j],
            forall|i: int|
                0 <= i < interrupted@.len() ==> trusted_status(
                    states@,
                    (#[trigger] interrupted@[i]).0,
                    interrupted@[i].1,
                ) == Some(AgentCommandStatus::Interrupted),
            forall|i: int, m: int|
                0 <= i < interrupted@.len() && t <= m < trusted@.len() ==> (
                #[trigger] trusted@[m].job_id,
                trusted@[m].attempt,
            ) != #[trigger] interrupted@[i],
            forall|m: int|
                0 <= m < t && (#[trigger] trusted@[m]).status == AgentCommandStatus::Interrupted
                    ==> interrupted@.contains((trusted@[m].job_id, trusted@[m].attempt)),
        decreases trusted.len() - t,
    {
        let ghost start_int = interrupted@;
        if trusted[t].status == AgentCommandStatus::Interrupted {
            let key = (trusted[t].job_id, trusted[t].attempt);
            interrupted.push(key);
            proof {
                assert(interrupted@[start_int.len() as int] == key);
                assert forall|i: int, j: int|
                    0 <= i < j < interrupted@.len() implies interrupted@[i] != interrupted@[j] by {
                    if j == start_int.len() {
                        assert(interrupted@[i] == start_int[i]);
                        assert((trusted@[t as int].job_id, trusted@[t as int].attempt)
                            != start_int[i]);
                    } else {
                        assert(interrupted@[i] == start_int[i]);
                        assert(interrupted@[j] == start_int[j]);
                    }
                }
                assert forall|i: int, m: int|
                    0 <= i < interrupted@.len() && t + 1 <= m < trusted@.len() implies (
                    #[trigger] trusted@[m].job_id,
                    trusted@[m].attempt,
                ) != #[trigger] interrupted@[i] by {
                    if i == start_int.len() {
                        assert(m != t);
                    } else {
                        assert(interrupted@[i] == start_int[i]);
                    }
                }
                assert forall|m: int|
                    0 <= m < t + 1 && (#[trigger] trusted@[m]).status
                        == AgentCommandStatus::Interrupted implies interrupted@.contains(
                    (trusted@[m].job_id, trusted@[m].attempt),
                ) by {
                    if m < t {
                        let i = choose|i: int|
                            0 <= i < start_int.len() && start_int[i] == (
                                trusted@[m].job_id,
                                trusted@[m].attempt,
                            );
                        assert(interrupted@[i] == start_int[i]);
                    } else {
                        assert(interrupted@[start_int.len() as int] == key);
                    }
                }
            }
        }
        t = t + 1;
    }
    proof {
        assert forall|job_id: i64, attempt: i32|
            #[trigger] trusted_status(states@, job_id, attempt) == Some(
                AgentCommandStatus::Interrupted,
            ) implies interrupted@.contains((job_id, attempt)) by {
            let m = choose|m: int|
                0 <= m < trusted@.len() && trusted@[m].job_id == job_id && trusted@[m].attempt
                    == attempt;
            assert(trusted@[m].status == AgentCommandStatus::Interrupted);
        }
    }
    let mut missing: Vec<(i64, i32)> = Vec::new();
    let mut preserved: usize = 0;
    let mut k: usize = 0;
    while k < jobs.len()
        invariant
            k <= jobs@.len(),
            forall|i: int, j: int|
                0 <= i < j < trusted@.len() ==> !(trusted@[i].job_id == trusted@[j].job_id
                    && trusted@[i].attempt == trusted@[j].attempt),
            forall|i: int|
                0 <= i < trusted@.len() ==> trusted_status(
                    states@,
                    trusted@[i].job_id,
                    trusted@[i].attempt,
                ) == Some((#[trigger] trusted@[i]).status),
            forall|job_id: i64, attempt: i32|
                (#[trigger] trusted_status(states@, job_id, attempt)) is Some ==> exists|i: int|
                    0 <= i < trusted@.len() && trusted@[i].job_id == job_id && trusted@[i].attempt
                        == attempt,
            missing@ == missing_jobs(states@, jobs@.subrange(0, k as int)),
            preserved == preserved_count(states@, jobs@.subrange(0, k as int)),
            preserved <= k,
        decreases jobs.len() - k,
    {
        let job = &jobs[k];
        let ghost next = jobs@.subrange(0, k + 1);
        assert(next.drop_last() =~= jobs@.subrange(0, k as int));
        assert(next.last() == jobs@[k as int]);
        let found = lookup(&trusted, job.id, job.retry_count);
        proof {
            match found {
                Some(s) => {
                    let i = choose|i: int|
                        0 <= i < trusted@.len() && trusted@[i].job_id == job.id
                            && trusted@[i].attempt == job.retry_count && trusted@[i].status == s;
                    assert(trusted_status(states@, job.id, job.retry_count) == Some(
                        trusted@[i].status,
                    ));
                },
                None => {
                    if trusted_status(states@, job.id, job.retry_count) is Some {
                        let i = choose|i: int|
                            0 <= i < trusted@.len() && trusted@[i].job_id == job.id
                                && trusted@[i].attempt == job.retry_count;
                        assert(!(trusted@[i].job_id == job.id && trusted@[i].attempt
                            == job.retry_count));
                    }
                },
            }
        }
        match found {
            Some(AgentCommandStatus::Running) | Some(AgentCommandStatus::Finished) => {
                preserved = preserved + 1;
            },
            Some(AgentCommandStatus::Interrupted) => {},
            None => {
                missing.push((job.id, job.retry_count));
            },
        }
        k = k + 1;
    }
    assert(jobs@.subrange(0, jobs@.len() as int) =~= jobs@);
    ReconciliationPlan { interrupted, missing, preserved }
}


/// How many executing jobs a trusted report says were interrupted.
pub open spec fn interrupted_count(states: Seq<AgentCommandState>, jobs: Seq<ExecutingFosterJob>) -> nat
    decreases jobs.len(),
{
    if jobs.len() == 0 {
        0
    } else {
        let j = jobs.last();
        interrupted_count(states, jobs.drop_last()) + if trusted_status(states, j.id, j.retry_count)
            == Some(AgentCommandStatus::Interrupted) {
            1nat
        } else {
            0nat
        }
    }
}

/// Reconciliation accounts for every executing job exactly once: it is
/// preserved, covered by an interrupted report, or missing.
pub proof fn law_reconciliation_accounts_every_job(
    states: Seq<AgentCommandState>,
    jobs: Seq<ExecutingFosterJob>,
)
    ensures
        preserved_count(states, jobs) + interrupted_count(states, jobs) + missing_jobs(
            states,
            jobs,
        ).len() == jobs.len(),
    decreases jobs.len(),
{
    if jobs.len() > 0 {
        law_reconciliation_accounts_every_job(states, jobs.drop_last());
        let j = jobs.last();
        let status = trusted_status(states, j.id, j.retry_count);
        match status {
            Some(AgentCommandStatus::Running) => {},
            Some(AgentCommandStatus::Finished) => {},
            Some(AgentCommandStatus::Interrupted) => {},
            None => {},
        }
    }
}

/// A report whose command id is not the one the server gives that job
/// attempt's command is never trusted, whatever it claims.
pub proof fn law_forged_report_is_ignored(states: Seq<AgentCommandState>, forged: AgentCommandState)
    requires
        forged.job_id is Some,
        forged.attempt is Some,
        forged.command_id != foster_command_id_of(forged.job_id->0, forged.attempt->0),
    ensures
        !trusted_state(forged),
        forall|job_id: i64, attempt: i32|
            #[trigger] trusted_status(states.push(forged), job_id, attempt) == trusted_status(
                states,
                job_id,
                attempt,
            ),
{
    assert forall|job_id: i64, attempt: i32|
        #[trigger] trusted_status(states.push(forged), job_id, attempt) == trusted_status(
            states,
            job_id,
            attempt,
        ) by {
        assert(states.push(forged).drop_last() =~= states);
    }
}

} // verus!
