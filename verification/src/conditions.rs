//! The condition evaluator.
//!
//! Conditions are AND-combined and short-circuit on the first that
//! fails. Probing the environment — the network, the power supply,
//! the process table — is outside work; the unverified runner takes a
//! snapshot of those readings into [`EnvProbes`] and the verified
//! evaluator decides from it. A reading the probe could not take
//! falls back the way the platform code does: power and process
//! probes count as satisfied, the network probe as unavailable.

use vstd::prelude::*;

use crate::models::Condition;
use crate::text::str_eq;

verus! {

/// A snapshot of the environment readings a task's conditions need.
#[derive(Clone, Debug)]
pub struct EnvProbes {
    /// Whether the reachability probe succeeded; a failed probe
    /// reads as unavailable.
    pub network_available: bool,
    /// Whether the machine is on AC power; `None` when the power
    /// query failed, which counts as satisfied.
    pub ac_line_online: Option<bool>,
    /// Per process image name, whether a process of that name runs;
    /// a name with no entry means the probe failed, which counts as
    /// not running.
    pub process_running: Vec<(String, bool)>,
}

/// The probed liveness of a process name: the first entry for that
/// name, or false (not running) when the probe has no entry.
pub open spec fn spec_probe_running(probes: Seq<(String, bool)>, name: Seq<char>) -> bool
    decreases probes.len(),
{
    if probes.len() == 0 {
        false
    } else if probes.first().0@ == name {
        probes.first().1
    } else {
        spec_probe_running(probes.drop_first(), name)
    }
}

/// Whether one condition holds under a probe snapshot. The
/// path-existence condition is a placeholder (the real check lives in
/// the executor) and the idle condition is reserved; both always
/// hold.
pub open spec fn spec_condition_holds(c: Condition, p: EnvProbes) -> bool {
    match c {
        Condition::NetworkAvailable => p.network_available,
        Condition::OnAcPower => match p.ac_line_online {
            Some(online) => online,
            None => true,
        },
        Condition::ProcessNotRunning { process_name } => !spec_probe_running(
            p.process_running@,
            process_name@,
        ),
        Condition::OnlyIfPathExists => true,
        Condition::IdleForSeconds { .. } => true,
    }
}

/// Whether every condition of a list holds under a probe snapshot.
pub open spec fn spec_all_conditions_hold(cs: Seq<Condition>, p: EnvProbes) -> bool {
    forall|i: int| 0 <= i < cs.len() ==> spec_condition_holds(#[trigger] cs[i], p)
}

fn probe_running(probes: &Vec<(String, bool)>, name: &String) -> (r: bool)
    ensures
        r == spec_probe_running(probes@, name@),
{
    proof {
        assert(probes@.skip(0) =~= probes@);
    }
    let mut i: usize = 0;
    while i < probes.len()
        invariant
            i <= probes@.len(),
            spec_probe_running(probes@, name@) == spec_probe_running(
                probes@.skip(i as int),
                name@,
            ),
        decreases probes@.len() - i,
    {
        proof {
            assert(probes@.skip(i as int).first() == probes@[i as int]);
            assert(probes@.skip(i as int).drop_first() =~= probes@.skip(i as int + 1));
        }
        if str_eq(probes[i].0.as_str(), name.as_str()) {
            return probes[i].1;
        }
        i = i + 1;
    }
    proof {
        assert(probes@.skip(probes@.len() as int) =~= Seq::<(String, bool)>::empty());
    }
    false
}

/// Evaluates one condition against the probe snapshot. Never fails:
/// an unreadable probe resolves to its documented fallback.
pub fn evaluate_single_condition(condition: &Condition, probes: &EnvProbes) -> (r: Result<
    bool,
    String,
>)
    ensures
        r == Ok::<bool, String>(spec_condition_holds(*condition, *probes)),
{
    match condition {
        Condition::NetworkAvailable => Ok(probes.network_available),
        Condition::OnAcPower => match probes.ac_line_online {
            Some(online) => Ok(online),
            None => Ok(true),
        },
        Condition::ProcessNotRunning { process_name } => Ok(
            !probe_running(&probes.process_running, process_name),
        ),
        Condition::OnlyIfPathExists => Ok(true),
        Condition::IdleForSeconds { .. } => Ok(true),
    }
}

/// Evaluates a task's conditions, AND-combined, against the probe
/// snapshot, stopping at the first that fails. Returns whether all of
/// them hold.
pub fn evaluate_conditions(conditions: &Vec<Condition>, probes: &EnvProbes) -> (r: Result<
    bool,
    String,
>)
    ensures
        r == Ok::<bool, String>(spec_all_conditions_hold(conditions@, *probes)),
{
    let mut i: usize = 0;
    while i < conditions.len()
        invariant
            i <= conditions@.len(),
            forall|j: int| 0 <= j < i ==> spec_condition_holds(#[trigger] conditions@[j], *probes),
        decreases conditions@.len() - i,
    {
        match evaluate_single_condition(&conditions[i], probes) {
            Ok(true) => {},
            Ok(false) => {
                assert(!spec_condition_holds(conditions@[i as int], *probes));
                return Ok(false);
            },
            Err(e) => {
                return Err(e);
            },
        }
        i = i + 1;
    }
    Ok(true)
}

} // verus!
