//! The sequence in which one target after the other is dealt with.

use vstd::prelude::*;
use vstd::string::*;
use crate::config::{Os, TargetConfig};
use crate::text::{starts_with, text_eq, trim, trimmed};

verus! {

/// Where the work on a target stands.
#[derive(Debug, Clone, Copy, PartialEq, Eq, Structural)]
pub enum Stage {
    Idle,
    PrereqCheck,
    Provision,
    Compose,
    Invoke,
    Done,
    Failed,
}

/// What happened at a stage.
#[derive(Debug, Clone, Copy, PartialEq, Eq, Structural)]
pub enum Event {
    /// The work on the target begins.
    Start,
    /// The stage's work succeeded.
    Succeeded,
    /// The stage's work failed.
    Errored,
    /// The build command ended with this exit code.
    Exited(i32),
}

/// The stage that follows `stage` on `event`. The stages are run through in
/// order; any failure, and any exit code but zero, ends in `Failed`; the two
/// final stages are left by nothing.
pub open spec fn following(stage: Stage, event: Event) -> Stage {
    match (stage, event) {
        (Stage::Done, _) => Stage::Done,
        (Stage::Failed, _) => Stage::Failed,
        (Stage::Idle, Event::Start) => Stage::PrereqCheck,
        (Stage::PrereqCheck, Event::Succeeded) => Stage::Provision,
        (Stage::Provision, Event::Succeeded) => Stage::Compose,
        (Stage::Compose, Event::Succeeded) => Stage::Invoke,
        (Stage::Invoke, Event::Exited(code)) => if code == 0 {
            Stage::Done
        } else {
            Stage::Failed
        },
        _ => Stage::Failed,
    }
}

/// The stage that follows `stage` on `event`.
pub fn advance(stage: Stage, event: Event) -> (r: Stage)
    ensures
        r == following(stage, event),
{
    match (stage, event) {
        (Stage::Done, _) => Stage::Done,
        (Stage::Failed, _) => Stage::Failed,
        (Stage::Idle, Event::Start) => Stage::PrereqCheck,
        (Stage::PrereqCheck, Event::Succeeded) => Stage::Provision,
        (Stage::Provision, Event::Succeeded) => Stage::Compose,
        (Stage::Compose, Event::Succeeded) => Stage::Invoke,
        (Stage::Invoke, Event::Exited(code)) => if code == 0 {
            Stage::Done
        } else {
            Stage::Failed
        },
        _ => Stage::Failed,
    }
}

/// The stage reached from `stage` by the events in order.
pub open spec fn run(stage: Stage, events: Seq<Event>) -> Stage
    decreases events.len(),
{
    if events.len() == 0 {
        stage
    } else {
        following(run(stage, events.drop_last()), events.last())
    }
}

/// A failed target stays failed, and a finished one finished, whatever
/// comes after.
pub proof fn lemma_final_stages_stay(stage: Stage, events: Seq<Event>)
    requires
        stage == Stage::Done || stage == Stage::Failed,
    ensures
        run(stage, events) == stage,
    decreases events.len(),
{
    if events.len() > 0 {
        lemma_final_stages_stay(stage, events.drop_last());
    }
}

/// What to do with the targets that remain.
#[derive(Debug, Clone, Copy, PartialEq, Eq, Structural)]
pub enum Next {
    /// Deal with the target of this index.
    Target(usize),
    /// All targets are done.
    Finish,
    /// A target failed: stop, with this exit code.
    Stop(i32),
}

/// Decides what follows the target of index `current`, of `total`, that
/// ended in `stage`; `code` is the exit code of its build command, where it
/// ran. The first failure stops the run.
pub fn after_target(current: usize, total: usize, stage: Stage, code: Option<i32>) -> (r: Next)
    requires
        current < total,
    ensures
        r matches Next::Stop(c) ==> c != 0,
        r == if stage == Stage::Done {
            if current + 1 < total {
                Next::Target((current + 1) as usize)
            } else {
                Next::Finish
            }
        } else {
            Next::Stop(
                match code {
                    Some(c) => if c != 0 {
                        c
                    } else {
                        1
                    },
                    None => 1,
                },
            )
        },
{
    if matches!(stage, Stage::Done) {
        if current + 1 < total {
            Next::Target(current + 1)
        } else {
            Next::Finish
        }
    } else {
        match code {
            Some(c) => if c != 0 {
                Next::Stop(c)
            } else {
                Next::Stop(1)
            },
            None => Next::Stop(1),
        }
    }
}

/// What the check of a target's prerequisites comes to.
#[derive(Debug, Clone, Copy, PartialEq, Eq, Structural)]
pub enum Prereq {
    /// The target is installed.
    Installed,
    /// The toolchain manager offers the target: install it.
    Install,
    /// Only the compiler knows the target: build the standard library from
    /// source.
    BuildStd,
    /// Nobody knows the target.
    Unknown,
}

/// Decides what the check of a target's prerequisites comes to.
pub fn prereq(installed: bool, offered: bool, known_to_compiler: bool) -> (r: Prereq)
    ensures
        r == if installed {
            Prereq::Installed
        } else if offered {
            Prereq::Install
        } else if known_to_compiler {
            Prereq::BuildStd
        } else {
            Prereq::Unknown
        },
{
    if installed {
        Prereq::Installed
    } else if offered {
        Prereq::Install
    } else if known_to_compiler {
        Prereq::BuildStd
    } else {
        Prereq::Unknown
    }
}

/// Whether one of the lines, trimmed, is the target.
pub fn lists_target(lines: &Vec<String>, target: &str) -> (r: bool)
    ensures
        r == exists|i: int| 0 <= i < lines@.len() && trimmed((#[trigger] lines@[i])@) == target@,
{
    let mut i: usize = 0;
    while i < lines.len()
        invariant
            i <= lines.len(),
            forall|j: int| 0 <= j < i ==> trimmed((#[trigger] lines@[j])@) != target@,
        decreases lines.len() - i,
    {
        if text_eq(trim(lines[i].as_str()), target) {
            return true;
        }
        i += 1;
    }
    false
}

/// Whether one of the lines, trimmed, starts with the target.
pub fn offers_target(lines: &Vec<String>, target: &str) -> (r: bool)
    ensures
        r == exists|i: int|
            0 <= i < lines@.len() && target@.is_prefix_of(trimmed((#[trigger] lines@[i])@)),
{
    let mut i: usize = 0;
    while i < lines.len()
        invariant
            i <= lines.len(),
            forall|j: int| 0 <= j < i ==> !target@.is_prefix_of(trimmed((#[trigger] lines@[j])@)),
        decreases lines.len() - i,
    {
        if starts_with(trim(lines[i].as_str()), target) {
            return true;
        }
        i += 1;
    }
    false
}

/// Whether a toolchain is provisioned for a target: only for a known target,
/// and not where the user chose the host's own linker or the process already
/// names a compiler for the target.
pub fn provisioning_due(known: bool, use_default_linker: bool, preconfigured: bool) -> (r: bool)
    ensures
        r == (known && !use_default_linker && !preconfigured),
{
    known && !use_default_linker && !preconfigured
}

/// The provisioning strategy of a target.
#[derive(Debug, Clone, Copy, PartialEq, Eq, Structural)]
pub enum Provisioner {
    /// The user asked for no toolchain: nothing is set up.
    Skip,
    Linux,
    Windows,
    FreeBsd,
    Darwin,
    Ios,
    Android,
}

/// Selects the provisioning strategy by the target's system.
pub fn setup_cross_env(target: &TargetConfig, no_toolchain_setup: bool) -> (r: Provisioner)
    ensures
        r == if no_toolchain_setup {
            Provisioner::Skip
        } else {
            match target.os {
                Os::Linux => Provisioner::Linux,
                Os::Windows => Provisioner::Windows,
                Os::FreeBsd => Provisioner::FreeBsd,
                Os::Darwin => Provisioner::Darwin,
                Os::Ios | Os::IosSim => Provisioner::Ios,
                Os::Android => Provisioner::Android,
            }
        },
{
    if no_toolchain_setup {
        return Provisioner::Skip;
    }
    match target.os {
        Os::Linux => Provisioner::Linux,
        Os::Windows => Provisioner::Windows,
        Os::FreeBsd => Provisioner::FreeBsd,
        Os::Darwin => Provisioner::Darwin,
        Os::Ios | Os::IosSim => Provisioner::Ios,
        Os::Android => Provisioner::Android,
    }
}

} // verus!
