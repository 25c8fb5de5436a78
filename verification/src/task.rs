//! Wheel tasks, and the two strategies that produce them.
//!
//! A [`WheelTask`] pairs a compatibility tag with the name that the artifact
//! gets inside the archive. Exactly one strategy is chosen for a build: the
//! manifest-driven one yields a single task, the probe-driven one yields one
//! task for each interpreter that was found, in the order of discovery.

use vstd::prelude::*;
use vstd::string::*;
use crate::abi3::{abi3_tag, format_abi3_tag};
use crate::error::{ConfigurationError, DiscoveryError};
use crate::manifest::{version_from_dependencies, version_of_dependencies};
use crate::metadata::{declared, declared_dependencies};

verus! {

/// One wheel to produce.
#[derive(Clone, Debug, PartialEq, Eq)]
pub struct WheelTask {
    /// The compatibility tag that the wheel carries.
    pub tag: String,
    /// The file name of the artifact inside the archive.
    pub library_name: String,
}

/// The mathematical value of a [`WheelTask`].
pub struct WheelTaskView {
    pub tag: Seq<char>,
    pub library_name: Seq<char>,
}

impl View for WheelTask {
    type V = WheelTaskView;

    open spec fn view(&self) -> WheelTaskView {
        WheelTaskView { tag: self.tag@, library_name: self.library_name@ }
    }
}

/// The view of each task of `tasks`, in order.
pub open spec fn task_views(tasks: Seq<WheelTask>) -> Seq<WheelTaskView> {
    tasks.map_values(|t: WheelTask| t@)
}

/// Where the compatibility tags of a build come from.
#[derive(Clone, Copy, Debug, PartialEq, Eq, Structural)]
pub enum TagStrategy {
    /// From the stable-ABI markers that the build manifest declares.
    ManifestDriven,
    /// From the interpreters found on the host.
    ProbeDriven,
}

/// Chooses the strategy of a build: probing where the caller asked to tag
/// with the interpreters of the host, the manifest otherwise.
pub fn select_strategy(tag_with_python: bool) -> (strategy: TagStrategy)
    ensures
        strategy == if tag_with_python {
            TagStrategy::ProbeDriven
        } else {
            TagStrategy::ManifestDriven
        },
{
    if tag_with_python {
        TagStrategy::ProbeDriven
    } else {
        TagStrategy::ManifestDriven
    }
}

/// The file name of the artifact in a stable-ABI wheel for `module_name`.
pub open spec fn shared_library_name(module_name: Seq<char>) -> Seq<char> {
    module_name + ".so"@
}

/// The task of the manifest-driven strategy for a build that resolved to
/// `version`.
pub open spec fn manifest_task_of(version: Seq<char>, module_name: Seq<char>) -> WheelTaskView {
    WheelTaskView { tag: abi3_tag(version), library_name: shared_library_name(module_name) }
}

/// Makes the task of the manifest-driven strategy for a build that resolved
/// to `version`.
pub fn manifest_task(version: &str, module_name: &str) -> (task: WheelTask)
    ensures
        task@ == manifest_task_of(version@, module_name@),
{
    let mut library_name = String::from_str(module_name);
    library_name.append(".so");
    WheelTask { tag: format_abi3_tag(version), library_name }
}

/// The manifest-driven strategy: the one task that `cargo metadata` output
/// leads to for the module `module_name`.
///
/// A configuration error yields no task at all.
pub fn manifest_tasks(metadata: &cargo_metadata::Metadata, module_name: &str) -> (tasks: Result<
    Vec<WheelTask>,
    ConfigurationError,
>)
    ensures
        match version_of_dependencies(declared(*metadata)) {
            Ok(version) => tasks is Ok && task_views(tasks->Ok_0@) == seq![
                manifest_task_of(version, module_name@),
            ],
            Err(error) => tasks is Err && tasks->Err_0@ == error,
        },
{
    let dependencies = declared_dependencies(metadata);
    match version_from_dependencies(&dependencies) {
        Ok(version) => {
            let task = manifest_task(version.as_str(), module_name);
            let mut tasks: Vec<WheelTask> = Vec::new();
            tasks.push(task);
            assert(task_views(tasks@) == seq![manifest_task_of(version@, module_name@)]);
            Ok(tasks)
        },
        Err(error) => Err(error),
    }
}

/// How an extension is bound to the interpreter that loads it.
#[derive(Clone, Copy, Debug, PartialEq, Eq, Structural)]
pub enum BindingMode {
    /// A C-compatible shared library, loaded through cffi.
    Cffi,
    /// A plain executable.
    Bin,
}

/// Which platform a tag may claim for a binary.
#[derive(Clone, Copy, Debug, PartialEq, Eq, Structural)]
pub enum PlatformPolicy {
    /// The portable manylinux2010 platform.
    Manylinux2010,
    /// The portable manylinux2014 platform.
    Manylinux2014,
    /// The platform of the host: the binary is not redistributable.
    Native,
}

/// What the probe-driven strategy asks of interpreter discovery.
#[derive(Clone, Debug, PartialEq, Eq)]
pub struct ProbeRequest {
    /// The binding mode to enumerate interpreters for.
    pub binding: BindingMode,
    /// The platform policy under which each interpreter renders its tag.
    pub policy: PlatformPolicy,
    /// The module whose extension file name each interpreter is asked for.
    pub module_name: String,
}

/// The request of the probe-driven strategy for the module `module_name`:
/// always for C-compatible extensions, with tags for the host platform only.
pub fn probe_request(module_name: &str) -> (request: ProbeRequest)
    ensures
        request.binding == BindingMode::Cffi,
        request.policy == PlatformPolicy::Native,
        request.module_name@ == module_name@,
{
    ProbeRequest {
        binding: BindingMode::Cffi,
        policy: PlatformPolicy::Native,
        module_name: String::from_str(module_name),
    }
}

/// What one discovered interpreter answered to a [`ProbeRequest`].
#[derive(Clone, Debug, PartialEq, Eq)]
pub struct InterpreterReport {
    /// The compatibility tag the interpreter rendered for itself.
    pub tag: String,
    /// The extension file name it expects for the module.
    pub library_name: String,
}

impl View for InterpreterReport {
    type V = WheelTaskView;

    open spec fn view(&self) -> WheelTaskView {
        WheelTaskView { tag: self.tag@, library_name: self.library_name@ }
    }
}

/// The view of each report of `reports`, in order.
pub open spec fn report_views(reports: Seq<InterpreterReport>) -> Seq<WheelTaskView> {
    reports.map_values(|r: InterpreterReport| r@)
}

/// The probe-driven strategy: one task for each discovered interpreter, in
/// the order of discovery, or the failure of the discovery.
///
/// A discovery that found no interpreter is no failure: it yields no task.
pub fn probe_tasks(discovery: Result<Vec<InterpreterReport>, String>) -> (tasks: Result<
    Vec<WheelTask>,
    DiscoveryError,
>)
    ensures
        match discovery {
            Ok(reports) => tasks is Ok && task_views(tasks->Ok_0@) == report_views(reports@),
            Err(detail) => tasks is Err && tasks->Err_0@ == detail@,
        },
{
    match discovery {
        Ok(reports) => {
            let ghost found = report_views(reports@);
            let mut tasks: Vec<WheelTask> = Vec::new();
            let mut i: usize = 0;
            while i < reports.len()
                invariant
                    i <= reports.len(),
                    found == report_views(reports@),
                    task_views(tasks@) == found.take(i as int),
                decreases reports.len() - i,
            {
                let task = WheelTask {
                    tag: reports[i].tag.clone(),
                    library_name: reports[i].library_name.clone(),
                };
                let ghost before = tasks@;
                tasks.push(task);
                assert(task_views(tasks@) == task_views(before).push(task@));
                assert(found.take(i + 1) == found.take(i as int).push(found[i as int]));
                i += 1;
            }
            assert(found.take(reports@.len() as int) == found);
            Ok(tasks)
        },
        Err(detail) => Err(DiscoveryError { detail }),
    }
}

} // verus!
