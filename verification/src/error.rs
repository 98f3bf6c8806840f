//! The error taxonomy of the build helper. Every failure is fatal to the
//! invocation that raised it; no variant is recovered from. The underlying
//! OS error, where one exists, is kept by the unverified shell around this
//! crate, which owns the I/O that produced it.

use vstd::prelude::*;

verus! {

/// What went wrong, by kind.
#[derive(Clone, Copy, Debug, PartialEq, Eq, Structural)]
pub enum BuilderErr {
    /// The configured `.config` source file does not exist or is not a
    /// regular file.
    KernelConfigMissing,
    /// An OS-level failure while reading, creating, or removing a symlink.
    LinkingFileError,
    /// A failure to spawn or wait on an external build, module-install, or
    /// initramfs process, or to copy the compiled kernel image.
    KernelBuildFail,
    /// The interactive confirmation mechanism itself failed.
    PromptError,
    /// Escalation to the required privileges failed.
    NoPrivileges,
}

impl BuilderErr {
    /// A human-readable description of the error kind.
    pub fn message(&self) -> (m: &'static str)
        ensures
            *self is KernelConfigMissing ==> m@ == "kernel .config source is missing or not a regular file"@,
            *self is LinkingFileError ==> m@ == "failed to read, create, or remove a symlink"@,
            *self is KernelBuildFail ==> m@ == "failed to run a build stage or to copy its artifact"@,
            *self is PromptError ==> m@ == "the interactive prompt failed"@,
            *self is NoPrivileges ==> m@ == "privilege escalation failed"@,
    {
        match self {
            BuilderErr::KernelConfigMissing => "kernel .config source is missing or not a regular file",
            BuilderErr::LinkingFileError => "failed to read, create, or remove a symlink",
            BuilderErr::KernelBuildFail => "failed to run a build stage or to copy its artifact",
            BuilderErr::PromptError => "the interactive prompt failed",
            BuilderErr::NoPrivileges => "privilege escalation failed",
        }
    }
}

} // verus!
