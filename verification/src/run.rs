//! Orchestration of one run: the precondition that the workspace lies inside
//! the version-control tree, the per-package write loop as a step machine the
//! caller drives, and the decision whether to refresh the lockfile. The
//! caller performs the reads and writes; every decision is made here.

use vstd::prelude::*;

use crate::manifest::{
    canon, has_table_entry, set_entry_text, set_manifest_version, toml_parses, ManifestError,
};
use crate::paths::{dir_contains, spec_dir_contains};
use crate::resolve::Package;

verus! {

/// Why a run aborts. Every failure is fatal: nothing is retried or recovered.
#[derive(Clone, Copy, PartialEq, Eq, Structural, Debug)]
pub enum RunError {
    /// The version-control query for changed or tracked files failed.
    SourceUnavailable,
    /// The workspace inventory query failed.
    MetadataUnavailable,
    /// The workspace root is not inside the version-control toplevel.
    PreconditionViolated,
    /// A package manifest cannot be versioned.
    MalformedManifest,
    /// The lockfile refresh after the writes failed.
    RefreshFailed,
}

/// The operator-facing description of each failure.
pub open spec fn spec_run_error_message(e: RunError) -> Seq<char> {
    match e {
        RunError::SourceUnavailable => "cannot list changed files"@,
        RunError::MetadataUnavailable => "cannot read workspace metadata"@,
        RunError::PreconditionViolated => "workspace root is not inside the version-control toplevel"@,
        RunError::MalformedManifest => "manifest has no package version to set"@,
        RunError::RefreshFailed => "lockfile refresh failed"@,
    }
}

impl RunError {
    /// The operator-facing description of the failure.
    pub fn message(&self) -> (r: &'static str)
        ensures
            r@ == spec_run_error_message(*self),
    {
        match self {
            RunError::SourceUnavailable => "cannot list changed files",
            RunError::MetadataUnavailable => "cannot read workspace metadata",
            RunError::PreconditionViolated => "workspace root is not inside the version-control toplevel",
            RunError::MalformedManifest => "manifest has no package version to set",
            RunError::RefreshFailed => "lockfile refresh failed",
        }
    }
}

/// The run's precondition: the workspace root lies inside the version-control
/// toplevel — equal to it, or nested under it.
pub fn workspace_inside_toplevel(toplevel: &Vec<u8>, workspace_root: &Vec<u8>) -> (r: bool)
    ensures
        r == spec_dir_contains(toplevel@, workspace_root@),
{
    dir_contains(toplevel, workspace_root)
}

/// The per-package write loop: the affected packages in order, how far the
/// loop has come, and whether any manifest was actually written. The caller
/// reads the manifest `next_manifest` names, hands its text to
/// `process_manifest`, writes back the text that call returns, and stops on
/// the first error.
pub struct Runner {
    pub affected: Vec<Package>,
    pub new_version: String,
    pub dry_run: bool,
    pub idx: usize,
    pub has_change: bool,
}

impl Runner {
    /// Every package before `idx` is processed, and a write has happened
    /// exactly when the run is live and at least one package was processed.
    pub open spec fn wf(self) -> bool {
        self.idx <= self.affected@.len() && (self.has_change <==> (!self.dry_run && self.idx
            > 0))
    }

    /// A run over `affected`, nothing processed yet.
    pub fn new(affected: Vec<Package>, new_version: String, dry_run: bool) -> (r: Runner)
        ensures
            r.wf(),
            r.affected@ == affected@,
            r.new_version@ == new_version@,
            r.dry_run == dry_run,
            r.idx == 0,
            !r.has_change,
    {
        Runner { affected, new_version, dry_run, idx: 0, has_change: false }
    }

    /// The manifest file to read next, or nothing when every affected package
    /// has been processed. When the affected set is empty, no manifest is
    /// ever named, so none is ever read.
    pub fn next_manifest(&self) -> (r: Option<&Vec<u8>>)
        ensures
            r is Some <==> self.idx < self.affected@.len(),
            r matches Some(p) ==> p@ == self.affected@[self.idx as int].manifest_path@,
    {
        if self.idx < self.affected.len() {
            Some(&self.affected[self.idx].manifest_path)
        } else {
            None
        }
    }

    /// Processes the manifest text of the next affected package: computes the
    /// updated text and advances. Returns the text to write back, or nothing
    /// on a dry run, which never writes. A malformed manifest is returned as
    /// the error with the state unchanged, so a caller that stops on it
    /// processes no further package.
    pub fn process_manifest(&mut self, text: &str) -> (r: Result<Option<String>, ManifestError>)
        requires
            old(self).wf(),
            old(self).idx < old(self).affected@.len(),
        ensures
            final(self).wf(),
            r is Ok <==> toml_parses(text@) && has_table_entry(text@, "package"@, "version"@),
            r is Ok ==> final(self).idx == old(self).idx + 1,
            r is Ok ==> final(self).affected@ == old(self).affected@,
            r is Ok ==> final(self).new_version@ == old(self).new_version@,
            r is Ok ==> final(self).dry_run == old(self).dry_run,
            r matches Ok(w) ==> (old(self).dry_run ==> w is None && !final(self).has_change),
            r matches Ok(w) ==> (!old(self).dry_run ==> (w matches Some(out) && out@
                == set_entry_text(canon(text@), "package"@, "version"@, old(self).new_version@))
                && final(self).has_change),
            r is Err ==> *final(self) == *old(self),
            r matches Err(e) ==> ((e == ManifestError::Unparsable) <==> !toml_parses(text@)),
            r matches Err(e) ==> ((e == ManifestError::MissingVersion) <==> (toml_parses(text@)
                && !has_table_entry(text@, "package"@, "version"@))),
    {
        let updated = match set_manifest_version(text, self.new_version.as_str()) {
            Ok(u) => u,
            Err(e) => {
                return Err(e);
            },
        };
        let bound = self.affected.len();
        proof {
            assert(self.idx < bound);
        }
        self.idx = self.idx + 1;
        if self.dry_run {
            Ok(None)
        } else {
            self.has_change = true;
            Ok(Some(updated))
        }
    }

    /// Whether every affected package has been processed.
    pub fn finished(&self) -> (r: bool)
        ensures
            r <==> self.idx == self.affected@.len(),
    {
        self.idx == self.affected.len()
    }

    /// Whether the lockfile must be refreshed: exactly when some manifest was
    /// actually written — never on a dry run, and never when no package was
    /// processed.
    pub fn needs_refresh(&self) -> (r: bool)
        requires
            self.wf(),
        ensures
            r == self.has_change,
            r <==> (!self.dry_run && self.idx > 0),
    {
        self.has_change
    }
}

/// In every well-formed state of a dry run — `new` establishes
/// well-formedness and every step preserves it — no manifest has been
/// written, so the lock refresh never fires, however many packages the run
/// has processed.
pub proof fn lemma_dry_run_never_refreshes(r: Runner)
    requires
        r.wf(),
        r.dry_run,
    ensures
        !r.has_change,
{
}

} // verus!
