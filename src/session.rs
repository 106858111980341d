use vstd::prelude::*;
use vstd::string::StringExecFns;

use crate::error::ExpandError;
use crate::invocation::{
    build_outcome, classify, missing_workspace_signature, trim_end_of, BuildOutput,
};
use crate::text::same_text;

verus! {

/// A package of the resolved dependency graph: its name and the location of
/// its manifest file.
#[derive(Debug, Clone)]
pub struct PackageInfo {
    pub name: String,
    pub manifest_path: String,
}

/// Whether some package of `pkgs` is named `name`.
pub open spec fn has_package(pkgs: Seq<PackageInfo>, name: Seq<char>) -> bool {
    exists|j: int| 0 <= j < pkgs.len() && (#[trigger] pkgs[j]).name@ == name
}

/// Finds the first package named exactly `name`.
pub fn find_package(pkgs: &Vec<PackageInfo>, name: &str) -> (r: Result<usize, ExpandError>)
    ensures
        r is Ok <==> has_package(pkgs@, name@),
        r matches Ok(i) ==> i < pkgs@.len() && pkgs@[i as int].name@ == name@ && forall|j: int|
            0 <= j < i ==> (#[trigger] pkgs@[j]).name@ != name@,
        r matches Err(e) ==> e matches ExpandError::PackageNotFound(n) && n@ == name@,
{
    let mut i: usize = 0;
    while i < pkgs.len()
        invariant
            i <= pkgs@.len(),
            forall|j: int| 0 <= j < i ==> (#[trigger] pkgs@[j]).name@ != name@,
        decreases pkgs@.len() - i,
    {
        if same_text(pkgs[i].name.as_str(), name) {
            return Ok(i);
        }
        i = i + 1;
    }
    Err(ExpandError::PackageNotFound(String::from_str(name)))
}

/// The prefix of the scratch directory that a package is copied into.
pub fn scratch_prefix(package: &str) -> (r: String)
    ensures
        r@ == "dep-expand-"@ + package@,
{
    String::from_str("dep-expand-").concat(package)
}

/// Where an expansion run stands.
#[derive(Debug, Clone, Copy, PartialEq, Eq, Structural)]
pub enum Phase {
    /// Waiting for the dependency graph.
    Resolving,
    /// Waiting for the build on the package's own manifest.
    FirstBuild,
    /// Waiting for the package to be copied into a scratch directory.
    Copying,
    /// Waiting for the build on the copied manifest.
    Retry,
    /// Finished; nothing more is done.
    Done,
}

/// What the caller does next for an expansion run.
#[derive(Debug)]
pub enum Action {
    /// Resolve the dependency graph, with all features enabled.
    QueryMetadata,
    /// Run one build invocation on the package at `manifest_path`, in a
    /// scratch directory of its own that is removed once its output is read.
    RunBuild { manifest_path: String },
    /// Copy the directory holding `manifest_path` into a fresh scratch
    /// directory named with `prefix`, keeping the directory's name, and report
    /// the manifest path of the copy. The scratch directory is removed once
    /// the run finishes.
    CopyPackage { prefix: String, manifest_path: String },
    /// The run is over, with this result.
    Finish(Result<String, ExpandError>),
}

/// What the caller reports back for an expansion run.
pub enum Event {
    /// The dependency graph, or why it could not be resolved.
    Metadata(Result<Vec<PackageInfo>, String>),
    /// What a build invocation left, or why it could not be spawned or waited for.
    Built(Result<BuildOutput, String>),
    /// The manifest path of the copy, or why copying failed.
    Copied(Result<String, String>),
}

/// The state of one expansion run: the package asked for, where the run
/// stands, the manifest of the resolved package, and how many build
/// invocations have been asked for so far.
pub struct ExpandSession {
    pub package: String,
    pub phase: Phase,
    pub manifest_path: String,
    pub builds: u8,
}

/// The result of a build invocation as the run sees it.
pub open spec fn built_result(b: Result<BuildOutput, String>) -> Result<String, ExpandError> {
    match b {
        Err(m) => Err(ExpandError::InvocationError(m)),
        Ok(out) => build_outcome(out.stderr@, trim_end_of(out.stderr@), out.content),
    }
}

/// A build without the missing-workspace signature whose output file holds
/// text gives that text verbatim; with the first build this finishes the run
/// after exactly one invocation.
pub proof fn lemma_clean_build_verbatim(out: BuildOutput, c: String)
    requires
        !missing_workspace_signature(out.stderr@, trim_end_of(out.stderr@)),
        out.content == Ok::<String, String>(c),
        c@.len() > 0,
    ensures
        built_result(Ok(out)) == Ok::<String, ExpandError>(c),
{
}

/// A build without the missing-workspace signature whose output file is
/// empty fails with `EmptyOutput`, which is not the failure that leads to a
/// retry on a copy.
pub proof fn lemma_empty_output_not_recovered(out: BuildOutput, c: String)
    requires
        !missing_workspace_signature(out.stderr@, trim_end_of(out.stderr@)),
        out.content == Ok::<String, String>(c),
        c@.len() == 0,
    ensures
        built_result(Ok(out)) == Err::<String, ExpandError>(ExpandError::EmptyOutput),
        built_result(Ok(out)) != Err::<String, ExpandError>(ExpandError::MissingWorkspace),
{
}

/// A run asks for at most two build invocations: the first on the package's
/// own manifest and at most one retry on a copy.
pub proof fn lemma_at_most_two_builds(s: ExpandSession)
    requires
        s.wf(),
    ensures
        s.builds <= 2,
        s.phase == Phase::Retry ==> s.builds == 2,
{
}

impl ExpandSession {
    /// The number of build invocations asked for matches the phase.
    pub open spec fn wf(&self) -> bool {
        match self.phase {
            Phase::Resolving => self.builds == 0,
            Phase::FirstBuild | Phase::Copying => self.builds == 1,
            Phase::Retry => self.builds == 2,
            Phase::Done => self.builds <= 2,
        }
    }

    /// Whether `e` is the event that the run waits for.
    pub open spec fn accepts(&self, e: Event) -> bool {
        match self.phase {
            Phase::Resolving => e is Metadata,
            Phase::FirstBuild | Phase::Retry => e is Built,
            Phase::Copying => e is Copied,
            Phase::Done => false,
        }
    }

    /// Starts the expansion of the package named `package`: the first thing
    /// to do is to resolve the dependency graph.
    pub fn new(package: &str) -> (r: (ExpandSession, Action))
        ensures
            r.0.wf(),
            r.0.package@ == package@,
            r.0.phase == Phase::Resolving,
            r.0.builds == 0,
            r.1 is QueryMetadata,
    {
        (
            ExpandSession {
                package: String::from_str(package),
                phase: Phase::Resolving,
                manifest_path: String::new(),
                builds: 0,
            },
            Action::QueryMetadata,
        )
    }

    /// Takes the event that the run waits for and says what to do next.
    ///
    /// A failed metadata query, or a graph without the package, finishes the
    /// run before any build. A first build that fails with the signature of
    /// a manifest without workspace context asks for a copy of the package
    /// and one more build on the copy; any other outcome of a build is final.
    pub fn step(&mut self, event: Event) -> (action: Action)
        requires
            old(self).wf(),
            old(self).accepts(event),
        ensures
            final(self).wf(),
            final(self).package == old(self).package,
            final(self).builds >= old(self).builds,
            // a build is asked for exactly when the count goes up
            action is RunBuild <==> final(self).builds == old(self).builds + 1,
            !(action is RunBuild) ==> final(self).builds == old(self).builds,
            action is Finish <==> final(self).phase == Phase::Done,
            action is CopyPackage <==> final(self).phase == Phase::Copying,
            !(action is QueryMetadata),
            old(self).phase == Phase::Resolving ==> match event {
                Event::Metadata(Err(m)) => action == Action::Finish(
                    Err(ExpandError::MetadataQueryFailed(m)),
                ),
                Event::Metadata(Ok(pkgs)) => if has_package(pkgs@, old(self).package@) {
                    final(self).phase == Phase::FirstBuild && exists|i: int|
                        0 <= i < pkgs@.len() && pkgs@[i].name@ == old(self).package@ && (forall|
                            j: int,
                        | 0 <= j < i ==> (#[trigger] pkgs@[j]).name@ != old(self).package@)
                            && action == (Action::RunBuild {
                            manifest_path: pkgs@[i].manifest_path,
                        }) && final(self).manifest_path == pkgs@[i].manifest_path
                } else {
                    action matches Action::Finish(Err(ExpandError::PackageNotFound(n))) && n@
                        == old(self).package@
                },
                _ => false,
            },
            old(self).phase == Phase::FirstBuild ==> match event {
                Event::Built(b) => if built_result(b) == Err::<String, ExpandError>(
                    ExpandError::MissingWorkspace,
                ) {
                    final(self).phase == Phase::Copying && final(self).manifest_path == old(
                        self,
                    ).manifest_path && action == (Action::CopyPackage {
                        prefix: action->prefix,
                        manifest_path: old(self).manifest_path,
                    }) && action->prefix@ == "dep-expand-"@ + old(self).package@
                } else {
                    action == Action::Finish(built_result(b))
                },
                _ => false,
            },
            old(self).phase == Phase::Copying ==> match event {
                Event::Copied(Ok(p)) => final(self).phase == Phase::Retry && action == (
                Action::RunBuild { manifest_path: p }),
                Event::Copied(Err(m)) => action == Action::Finish(Err(ExpandError::IoError(m))),
                _ => false,
            },
            old(self).phase == Phase::Retry ==> match event {
                Event::Built(b) => action == Action::Finish(built_result(b)),
                _ => false,
            },
    {
        match event {
            Event::Metadata(Err(m)) => {
                self.phase = Phase::Done;
                Action::Finish(Err(ExpandError::MetadataQueryFailed(m)))
            },
            Event::Metadata(Ok(pkgs)) => {
                match find_package(&pkgs, self.package.as_str()) {
                    Ok(i) => {
                        self.phase = Phase::FirstBuild;
                        self.builds = 1;
                        self.manifest_path = pkgs[i].manifest_path.clone();
                        Action::RunBuild { manifest_path: pkgs[i].manifest_path.clone() }
                    },
                    Err(e) => {
                        self.phase = Phase::Done;
                        Action::Finish(Err(e))
                    },
                }
            },
            Event::Built(b) => {
                let result = match b {
                    Err(m) => Err(ExpandError::InvocationError(m)),
                    Ok(out) => classify(out),
                };
                let missing = match &result {
                    Err(ExpandError::MissingWorkspace) => true,
                    _ => false,
                };
                if missing && self.phase == Phase::FirstBuild {
                    self.phase = Phase::Copying;
                    Action::CopyPackage {
                        prefix: scratch_prefix(self.package.as_str()),
                        manifest_path: self.manifest_path.clone(),
                    }
                } else {
                    self.phase = Phase::Done;
                    Action::Finish(result)
                }
            },
            Event::Copied(Err(m)) => {
                self.phase = Phase::Done;
                Action::Finish(Err(ExpandError::IoError(m)))
            },
            Event::Copied(Ok(p)) => {
                self.phase = Phase::Retry;
                self.builds = 2;
                Action::RunBuild { manifest_path: p }
            },
        }
    }
}

} // verus!
