//! The build pipeline: a linear state machine that sequences the symlink
//! stages and the three external build stages, with per-stage failure
//! isolation. The unverified shell performs each stage's outside work and
//! reports the outcome as an event; `step` decides the next stage. The
//! trace semantics `run` underpins the pipeline's laws: a declined stage is
//! skipped without error, and the first failure halts everything after it.

use vstd::prelude::*;
use crate::error::BuilderErr;
use crate::bytes::{is_prefix_of, spec_decimal, starts_with, suffix_from, u64_to_decimal};
use crate::tokens::{
    dracut_program, dracut_program_vec, force_flag, force_flag_vec, hostonly_flag,
    hostonly_flag_vec, jobs_flag, jobs_flag_vec, kver_flag, kver_flag_vec, kver_prefix,
    kver_prefix_vec, make_program, make_program_vec, modules_install_target,
    modules_install_target_vec,
};

verus! {

/// The command one build stage hands to the operating system: the external
/// program's name and its arguments, each a byte string.
pub struct StageCommand {
    pub program: Vec<u8>,
    pub args: Vec<Vec<u8>>,
}

/// The image of an argument vector as a sequence of byte sequences.
pub open spec fn args_view(args: Seq<Vec<u8>>) -> Seq<Seq<u8>> {
    args.map_values(|a: Vec<u8>| a@)
}

/// The compile stage's command: the build tool, with a parallelism degree
/// equal to the number of available execution units.
pub fn compile_command(threads: u64) -> (c: StageCommand)
    ensures
        c.program@ == make_program(),
        args_view(c.args@) == seq![jobs_flag(), spec_decimal(threads as nat)],
{
    let mut args: Vec<Vec<u8>> = Vec::new();
    args.push(jobs_flag_vec());
    args.push(u64_to_decimal(threads));
    assert(args_view(args@) =~= seq![jobs_flag(), spec_decimal(threads as nat)]);
    StageCommand { program: make_program_vec(), args }
}

/// The module-install stage's command: the build tool's `modules_install`
/// target. No output artifact is collected.
pub fn modules_install_command() -> (c: StageCommand)
    ensures
        c.program@ == make_program(),
        args_view(c.args@) == seq![modules_install_target()],
{
    let mut args: Vec<Vec<u8>> = Vec::new();
    args.push(modules_install_target_vec());
    assert(args_view(args@) =~= seq![modules_install_target()]);
    StageCommand { program: make_program_vec(), args }
}

/// The bare kernel version an initramfs is generated for: the version
/// string with its kernel-source prefix stripped, if it carries it.
pub fn initramfs_kver(version_string: &Vec<u8>) -> (r: Option<Vec<u8>>)
    ensures
        is_prefix_of(kver_prefix(), version_string@) ==> (r matches Some(v) && v@
            == version_string@.skip(kver_prefix().len() as int)),
        !is_prefix_of(kver_prefix(), version_string@) ==> r is None,
{
    let p = kver_prefix_vec();
    if starts_with(version_string, &p) {
        Some(suffix_from(version_string, p.len()))
    } else {
        None
    }
}

/// The initramfs stage's command: the external generator in host-only,
/// forced mode, targeting the selected kernel's bare version and writing to
/// the configured destination. A version string without the kernel-source
/// prefix has no bare version and yields no command.
pub fn initramfs_command(version_string: &Vec<u8>, initramfs_dest: &Vec<u8>) -> (c: Option<
    StageCommand,
>)
    ensures
        is_prefix_of(kver_prefix(), version_string@) ==> (c matches Some(cmd) && cmd.program@
            == dracut_program() && args_view(cmd.args@) == seq![
            hostonly_flag(),
            kver_flag(),
            version_string@.skip(kver_prefix().len() as int),
            force_flag(),
            initramfs_dest@,
        ]),
        !is_prefix_of(kver_prefix(), version_string@) ==> c is None,
{
    let kver = match initramfs_kver(version_string) {
        Some(v) => v,
        None => {
            return None;
        },
    };
    let mut args: Vec<Vec<u8>> = Vec::new();
    args.push(hostonly_flag_vec());
    args.push(kver_flag_vec());
    args.push(kver);
    args.push(force_flag_vec());
    let dest = initramfs_dest.clone();
    assert(dest@ =~= initramfs_dest@);
    args.push(dest);
    assert(args_view(args@) =~= seq![
        hostonly_flag(),
        kver_flag(),
        version_string@.skip(kver_prefix().len() as int),
        force_flag(),
        initramfs_dest@,
    ]);
    Some(StageCommand { program: dracut_program_vec(), args })
}

/// Where the pipeline stands: the stage whose work is performed next.
/// `Done` is terminal.
#[derive(Clone, Copy, Debug, PartialEq, Eq, Structural)]
pub enum Stage {
    /// Enforce the `.config` link invariant of the selected source tree.
    ConfigLink,
    /// Enforce the current-kernel alias invariant.
    CurrentLink,
    /// Run the external compiler and collect the kernel image.
    Compile,
    /// Ask the operator whether to install kernel modules.
    ModulesPrompt,
    /// Run the external module-install process.
    ModulesInstall,
    /// Ask the operator whether to generate the initramfs.
    InitramfsPrompt,
    /// Run the external initramfs generator.
    InitramfsRun,
    /// Every attempted stage completed.
    Done,
}

/// What the current stage's work came to.
#[derive(Clone, Copy, Debug, PartialEq, Eq, Structural)]
pub enum Event {
    /// A symlink invariant now holds.
    LinkEnsured,
    /// An external process was spawned and waited for.
    ProcessFinished,
    /// The operator answered yes.
    Confirmed,
    /// The operator answered no; the stage is skipped with no error.
    Declined,
    /// The stage's work failed with the given error.
    Failed(BuilderErr),
}

/// Which events answer which stage. A failure can answer any active stage;
/// the other events answer exactly the stages whose work they report.
pub open spec fn event_fits(stage: Stage, event: Event) -> bool {
    match event {
        Event::Failed(_) => stage != Stage::Done,
        Event::LinkEnsured => stage == Stage::ConfigLink || stage == Stage::CurrentLink,
        Event::ProcessFinished => stage == Stage::Compile || stage == Stage::ModulesInstall
            || stage == Stage::InitramfsRun,
        Event::Confirmed => stage == Stage::ModulesPrompt || stage == Stage::InitramfsPrompt,
        Event::Declined => stage == Stage::ModulesPrompt || stage == Stage::InitramfsPrompt,
    }
}

/// The successor of a stage on a successful event: the linear order
/// `ConfigLink, CurrentLink, Compile, ModulesPrompt, [ModulesInstall],
/// InitramfsPrompt, [InitramfsRun], Done`, where a declined prompt skips
/// the bracketed stage.
pub open spec fn next_stage(stage: Stage, event: Event) -> Stage {
    match stage {
        Stage::ConfigLink => Stage::CurrentLink,
        Stage::CurrentLink => Stage::Compile,
        Stage::Compile => Stage::ModulesPrompt,
        Stage::ModulesPrompt => if event == Event::Confirmed {
            Stage::ModulesInstall
        } else {
            Stage::InitramfsPrompt
        },
        Stage::ModulesInstall => Stage::InitramfsPrompt,
        Stage::InitramfsPrompt => if event == Event::Confirmed {
            Stage::InitramfsRun
        } else {
            Stage::Done
        },
        Stage::InitramfsRun => Stage::Done,
        Stage::Done => Stage::Done,
    }
}

/// One transition: a failure aborts with its error, anything else moves to
/// the successor stage.
pub open spec fn step_spec(stage: Stage, event: Event) -> Result<Stage, BuilderErr> {
    match event {
        Event::Failed(e) => Err(e),
        _ => Ok(next_stage(stage, event)),
    }
}

/// Advances the pipeline by one stage outcome.
pub fn step(stage: Stage, event: Event) -> (r: Result<Stage, BuilderErr>)
    requires
        event_fits(stage, event),
    ensures
        r == step_spec(stage, event),
{
    match event {
        Event::Failed(e) => Err(e),
        _ => Ok(
            match stage {
                Stage::ConfigLink => Stage::CurrentLink,
                Stage::CurrentLink => Stage::Compile,
                Stage::Compile => Stage::ModulesPrompt,
                Stage::ModulesPrompt => if event == Event::Confirmed {
                    Stage::ModulesInstall
                } else {
                    Stage::InitramfsPrompt
                },
                Stage::ModulesInstall => Stage::InitramfsPrompt,
                Stage::InitramfsPrompt => if event == Event::Confirmed {
                    Stage::InitramfsRun
                } else {
                    Stage::Done
                },
                Stage::InitramfsRun => Stage::Done,
                Stage::Done => Stage::Done,
            },
        ),
    }
}

/// The stages a sequence of events drives the pipeline through, in order.
/// The trace stops early at the first event that fails, or that does not
/// answer the stage it meets.
pub open spec fn run(stage: Stage, events: Seq<Event>) -> Seq<Stage>
    decreases events.len(),
{
    if events.len() == 0 {
        Seq::empty()
    } else if !event_fits(stage, events.first()) {
        Seq::empty()
    } else {
        match step_spec(stage, events.first()) {
            Ok(s) => seq![s] + run(s, events.drop_first()),
            Err(_) => Seq::empty(),
        }
    }
}

/// The stages that invoke an external process.
pub open spec fn is_process_stage(s: Stage) -> bool {
    s == Stage::Compile || s == Stage::ModulesInstall || s == Stage::InitramfsRun
}

/// How many stages of a trace invoke an external process.
pub open spec fn process_stage_count(trace: Seq<Stage>) -> nat
    decreases trace.len(),
{
    if trace.len() == 0 {
        0
    } else {
        (if is_process_stage(trace.first()) {
            1nat
        } else {
            0nat
        }) + process_stage_count(trace.drop_first())
    }
}

/// Declining both post-compile confirmations drives the pipeline from the
/// first symlink stage to `Done`, and of all stages passed through exactly
/// one — the compiler — invokes an external process.
pub proof fn lemma_decline_both_runs_compiler_only()
    ensures
        run(
            Stage::ConfigLink,
            seq![
                Event::LinkEnsured,
                Event::LinkEnsured,
                Event::ProcessFinished,
                Event::Declined,
                Event::Declined,
            ],
        ) == seq![
            Stage::CurrentLink,
            Stage::Compile,
            Stage::ModulesPrompt,
            Stage::InitramfsPrompt,
            Stage::Done,
        ],
        process_stage_count(
            seq![Stage::ConfigLink] + run(
                Stage::ConfigLink,
                seq![
                    Event::LinkEnsured,
                    Event::LinkEnsured,
                    Event::ProcessFinished,
                    Event::Declined,
                    Event::Declined,
                ],
            ),
        ) == 1,
{
    let e0 = seq![
        Event::LinkEnsured,
        Event::LinkEnsured,
        Event::ProcessFinished,
        Event::Declined,
        Event::Declined,
    ];
    let e1 = e0.drop_first();
    let e2 = e1.drop_first();
    let e3 = e2.drop_first();
    let e4 = e3.drop_first();
    let e5 = e4.drop_first();
    assert(e5.len() == 0);
    assert(run(Stage::Done, e5) =~= Seq::empty());
    assert(run(Stage::InitramfsPrompt, e4) =~= seq![Stage::Done] + run(Stage::Done, e5));
    assert(run(Stage::ModulesPrompt, e3) =~= seq![Stage::InitramfsPrompt] + run(
        Stage::InitramfsPrompt,
        e4,
    ));
    assert(run(Stage::Compile, e2) =~= seq![Stage::ModulesPrompt] + run(Stage::ModulesPrompt, e3));
    assert(run(Stage::CurrentLink, e1) =~= seq![Stage::Compile] + run(Stage::Compile, e2));
    assert(run(Stage::ConfigLink, e0) =~= seq![Stage::CurrentLink] + run(Stage::CurrentLink, e1));
    let trace = seq![
        Stage::CurrentLink,
        Stage::Compile,
        Stage::ModulesPrompt,
        Stage::InitramfsPrompt,
        Stage::Done,
    ];
    assert(run(Stage::ConfigLink, e0) =~= trace);
    let full = seq![Stage::ConfigLink] + trace;
    assert(seq![Stage::ConfigLink] + run(Stage::ConfigLink, e0) =~= full);
    assert(full.drop_first() =~= trace);
    assert(trace.drop_first() =~= seq![
        Stage::Compile,
        Stage::ModulesPrompt,
        Stage::InitramfsPrompt,
        Stage::Done,
    ]);
    assert(process_stage_count(full) == 1) by {
        reveal_with_fuel(process_stage_count, 8);
        assert(trace.drop_first().drop_first() =~= seq![
            Stage::ModulesPrompt,
            Stage::InitramfsPrompt,
            Stage::Done,
        ]);
        assert(trace.drop_first().drop_first().drop_first() =~= seq![
            Stage::InitramfsPrompt,
            Stage::Done,
        ]);
        assert(trace.drop_first().drop_first().drop_first().drop_first() =~= seq![Stage::Done]);
        assert(trace.drop_first().drop_first().drop_first().drop_first().drop_first()
            =~= Seq::<Stage>::empty());
    }
}

/// Confirming both post-compile confirmations drives the pipeline through
/// every stage in its linear order, invoking all three external processes.
pub proof fn lemma_confirm_both_runs_all_stages()
    ensures
        run(
            Stage::ConfigLink,
            seq![
                Event::LinkEnsured,
                Event::LinkEnsured,
                Event::ProcessFinished,
                Event::Confirmed,
                Event::ProcessFinished,
                Event::Confirmed,
                Event::ProcessFinished,
            ],
        ) == seq![
            Stage::CurrentLink,
            Stage::Compile,
            Stage::ModulesPrompt,
            Stage::ModulesInstall,
            Stage::InitramfsPrompt,
            Stage::InitramfsRun,
            Stage::Done,
        ],
{
    let e0 = seq![
        Event::LinkEnsured,
        Event::LinkEnsured,
        Event::ProcessFinished,
        Event::Confirmed,
        Event::ProcessFinished,
        Event::Confirmed,
        Event::ProcessFinished,
    ];
    let e1 = e0.drop_first();
    let e2 = e1.drop_first();
    let e3 = e2.drop_first();
    let e4 = e3.drop_first();
    let e5 = e4.drop_first();
    let e6 = e5.drop_first();
    let e7 = e6.drop_first();
    assert(e7.len() == 0);
    assert(run(Stage::Done, e7) =~= Seq::empty());
    assert(run(Stage::InitramfsRun, e6) =~= seq![Stage::Done] + run(Stage::Done, e7));
    assert(run(Stage::InitramfsPrompt, e5) =~= seq![Stage::InitramfsRun] + run(
        Stage::InitramfsRun,
        e6,
    ));
    assert(run(Stage::ModulesInstall, e4) =~= seq![Stage::InitramfsPrompt] + run(
        Stage::InitramfsPrompt,
        e5,
    ));
    assert(run(Stage::ModulesPrompt, e3) =~= seq![Stage::ModulesInstall] + run(
        Stage::ModulesInstall,
        e4,
    ));
    assert(run(Stage::Compile, e2) =~= seq![Stage::ModulesPrompt] + run(Stage::ModulesPrompt, e3));
    assert(run(Stage::CurrentLink, e1) =~= seq![Stage::Compile] + run(Stage::Compile, e2));
    assert(run(Stage::ConfigLink, e0) =~= seq![Stage::CurrentLink] + run(Stage::CurrentLink, e1));
    assert(run(Stage::ConfigLink, e0) =~= seq![
        Stage::CurrentLink,
        Stage::Compile,
        Stage::ModulesPrompt,
        Stage::ModulesInstall,
        Stage::InitramfsPrompt,
        Stage::InitramfsRun,
        Stage::Done,
    ]);
}

/// A failure at any active stage halts the pipeline: no later stage is
/// ever reached, whatever events follow. In particular, a failure from the
/// compile stage prevents the module-install and initramfs stages from
/// ever being invoked.
pub proof fn lemma_failure_halts(stage: Stage, e: BuilderErr, rest: Seq<Event>)
    requires
        stage != Stage::Done,
    ensures
        run(stage, seq![Event::Failed(e)] + rest) == Seq::<Stage>::empty(),
        !run(stage, seq![Event::Failed(e)] + rest).contains(Stage::ModulesInstall),
        !run(stage, seq![Event::Failed(e)] + rest).contains(Stage::InitramfsRun),
{
    let evs = seq![Event::Failed(e)] + rest;
    assert(evs.first() == Event::Failed(e));
    assert(run(stage, evs) =~= Seq::<Stage>::empty());
}

} // verus!
