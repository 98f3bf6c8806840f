use gentoo_kernel_builder::error::BuilderErr;
use gentoo_kernel_builder::pipeline::{
    compile_command, initramfs_command, initramfs_kver, modules_install_command, step, Event,
    Stage,
};

#[test]
fn declining_both_confirmations_reaches_done_with_one_process() {
    let mut processes_run = 0;
    let mut stage = Stage::ConfigLink;
    stage = step(stage, Event::LinkEnsured).unwrap();
    assert_eq!(stage, Stage::CurrentLink);
    stage = step(stage, Event::LinkEnsured).unwrap();
    assert_eq!(stage, Stage::Compile);
    processes_run += 1; // the compiler runs here
    stage = step(stage, Event::ProcessFinished).unwrap();
    assert_eq!(stage, Stage::ModulesPrompt);
    stage = step(stage, Event::Declined).unwrap();
    assert_eq!(stage, Stage::InitramfsPrompt);
    stage = step(stage, Event::Declined).unwrap();
    assert_eq!(stage, Stage::Done);
    assert_eq!(processes_run, 1);
}

#[test]
fn confirming_both_runs_all_three_stages() {
    let mut stage = Stage::Compile;
    stage = step(stage, Event::ProcessFinished).unwrap();
    assert_eq!(stage, Stage::ModulesPrompt);
    stage = step(stage, Event::Confirmed).unwrap();
    assert_eq!(stage, Stage::ModulesInstall);
    stage = step(stage, Event::ProcessFinished).unwrap();
    assert_eq!(stage, Stage::InitramfsPrompt);
    stage = step(stage, Event::Confirmed).unwrap();
    assert_eq!(stage, Stage::InitramfsRun);
    stage = step(stage, Event::ProcessFinished).unwrap();
    assert_eq!(stage, Stage::Done);
}

#[test]
fn compile_failure_stops_the_pipeline() {
    let r = step(Stage::Compile, Event::Failed(BuilderErr::KernelBuildFail));
    assert_eq!(r, Err(BuilderErr::KernelBuildFail));
}

#[test]
fn link_failure_stops_the_pipeline() {
    let r = step(Stage::ConfigLink, Event::Failed(BuilderErr::KernelConfigMissing));
    assert_eq!(r, Err(BuilderErr::KernelConfigMissing));
    let r = step(Stage::CurrentLink, Event::Failed(BuilderErr::LinkingFileError));
    assert_eq!(r, Err(BuilderErr::LinkingFileError));
}

#[test]
fn prompt_failure_stops_the_pipeline() {
    let r = step(Stage::ModulesPrompt, Event::Failed(BuilderErr::PromptError));
    assert_eq!(r, Err(BuilderErr::PromptError));
}

#[test]
fn compile_command_uses_parallelism_degree() {
    let c = compile_command(8);
    assert_eq!(c.program, b"make".to_vec());
    assert_eq!(c.args, vec![b"-j".to_vec(), b"8".to_vec()]);

    let c = compile_command(16);
    assert_eq!(c.args, vec![b"-j".to_vec(), b"16".to_vec()]);
}

#[test]
fn modules_install_command_targets_modules_install() {
    let c = modules_install_command();
    assert_eq!(c.program, b"make".to_vec());
    assert_eq!(c.args, vec![b"modules_install".to_vec()]);
}

#[test]
fn initramfs_kver_strips_kernel_prefix() {
    let v = b"linux-5.10-gentoo".to_vec();
    assert_eq!(initramfs_kver(&v), Some(b"5.10-gentoo".to_vec()));
}

#[test]
fn initramfs_kver_without_prefix_is_none() {
    let v = b"other-tree".to_vec();
    assert_eq!(initramfs_kver(&v), None);
}

#[test]
fn initramfs_command_is_hostonly_forced_and_versioned() {
    let v = b"linux-5.10-gentoo".to_vec();
    let dest = b"/boot/initramfs".to_vec();
    let c = initramfs_command(&v, &dest).unwrap();
    assert_eq!(c.program, b"dracut".to_vec());
    assert_eq!(
        c.args,
        vec![
            b"--hostonly".to_vec(),
            b"--kver".to_vec(),
            b"5.10-gentoo".to_vec(),
            b"--force".to_vec(),
            b"/boot/initramfs".to_vec(),
        ]
    );
}

#[test]
fn initramfs_command_without_prefix_is_none() {
    let v = b"gentoo-sources".to_vec();
    let dest = b"/boot/initramfs".to_vec();
    assert!(initramfs_command(&v, &dest).is_none());
}
