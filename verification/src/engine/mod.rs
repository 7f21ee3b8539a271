//! The shredding engine: what is done to each target, in which order, and how it is reported.
pub mod entropy;
pub mod exclude;
pub mod metadata;
pub mod order;
pub mod overwrite;
pub mod report;
pub mod timestamp;

use vstd::prelude::*;
use crate::cli::args::ShredMethod;
use crate::error::{ShredError, ShredResult};
use crate::paths::{path_bytes, path_debug, path_debug_text};
use std::path::PathBuf;
use self::exclude::{compile_exclusions, exclusion_error, glob_set_is_match, glob_set_matches, glob_set_patterns, string_views};

verus! {

/// The destruction policy of one shredding session.
pub struct Shredder {
    method: ShredMethod,
    passes: u32,
    dry_run: bool,
    verify: bool,
    trim: bool,
    force: bool,
    show_progress: bool,
    exclude: globset::GlobSet,
}

/// What a target path turned out to be.
#[derive(Clone, Copy, Debug, PartialEq, Eq, Structural)]
pub enum TargetKind {
    /// A symbolic link: only the link itself is handled, never what it points to.
    Link,
    /// A regular file, shredded on its own.
    File,
    /// A directory, shredded with its contents.
    Directory,
}

/// What a file-system entry is, as seen without following links.
#[derive(Clone, Copy, Debug, PartialEq, Eq, Structural)]
pub enum EntryKind {
    /// A symbolic link.
    Symlink,
    /// A regular file.
    File,
    /// A directory.
    Directory,
    /// Anything else: FIFOs, sockets, devices.
    Other,
}

impl EntryKind {
    /// The kind of an entry from its metadata, read without following links: a link is a
    /// link whatever it points to; then a regular file, a directory, or something else.
    pub fn classify(is_symlink: bool, is_file: bool, is_dir: bool) -> (k: EntryKind)
        ensures
            is_symlink ==> k == EntryKind::Symlink,
            !is_symlink && is_file ==> k == EntryKind::File,
            !is_symlink && !is_file && is_dir ==> k == EntryKind::Directory,
            !is_symlink && !is_file && !is_dir ==> k == EntryKind::Other,
    {
        if is_symlink {
            EntryKind::Symlink
        } else if is_file {
            EntryKind::File
        } else if is_dir {
            EntryKind::Directory
        } else {
            EntryKind::Other
        }
    }
}

/// What is done to one entry.
#[derive(Clone, Copy, Debug, PartialEq, Eq, Structural)]
pub enum EntryAction {
    /// Leave the entry alone and record nothing.
    Skip,
    /// Remove the link itself, never what it points to.
    RemoveLink,
    /// Touch nothing, but record the entry as one that would be destroyed.
    RecordDryRun,
    /// Destroy the entry (see `destroy_steps`) and record the outcome.
    Destroy,
}

/// One step of destroying a file, in the order they run.
#[derive(Clone, Copy, Debug, PartialEq, Eq, Structural)]
pub enum DestroyStep {
    /// Run every overwrite pass of the method over the file's contents.
    Overwrite,
    /// Rename the file to a random name.
    Obfuscate,
    /// Ask the device to discard the file's blocks.
    Trim,
    /// Cut the file to zero bytes.
    Truncate,
    /// Remove the file's directory entry.
    Unlink,
}

/// The prompt that asks before destroying `path`.
pub open spec fn confirmation_prompt(path: Seq<u8>, recursive_dir: bool) -> Seq<char> {
    if recursive_dir {
        "Are you sure you want to RECURSIVELY destroy all contents in "@ + path_debug_text(path)
            + "?"@
    } else {
        "Are you sure you want to permanently destroy "@ + path_debug_text(path) + "?"@
    }
}

/// The steps that destroy a file: overwrite, rename, optionally trim, truncate,
/// and unlink unless the file is kept.
pub open spec fn destroy_steps(trim: bool, keep: bool) -> Seq<DestroyStep> {
    seq![DestroyStep::Overwrite, DestroyStep::Obfuscate] + (if trim {
        seq![DestroyStep::Trim]
    } else {
        Seq::<DestroyStep>::empty()
    }) + seq![DestroyStep::Truncate] + (if keep {
        Seq::<DestroyStep>::empty()
    } else {
        seq![DestroyStep::Unlink]
    })
}

impl DestroyStep {
    /// Whether a failure of this step stops the destruction: every step but the trim,
    /// whose failure is still reported but lets the file be truncated and unlinked.
    pub fn is_fatal(&self) -> (b: bool)
        ensures
            b == !(*self is Trim),
    {
        match self {
            DestroyStep::Trim => false,
            _ => true,
        }
    }
}

impl Shredder {
    /// The erasure method.
    pub closed spec fn spec_method(&self) -> ShredMethod {
        self.method
    }

    /// The requested number of random passes.
    pub closed spec fn spec_passes(&self) -> u32 {
        self.passes
    }

    /// Whether this is a dry run.
    pub closed spec fn spec_dry_run(&self) -> bool {
        self.dry_run
    }

    /// Whether every overwrite pass is read back after it is written.
    pub closed spec fn spec_verify(&self) -> bool {
        self.verify
    }

    /// Whether blocks are discarded after overwriting.
    pub closed spec fn spec_trim(&self) -> bool {
        self.trim
    }

    /// Whether the confirmation prompt is skipped.
    pub closed spec fn spec_force(&self) -> bool {
        self.force
    }

    /// Whether a progress bar is shown.
    pub closed spec fn spec_show_progress(&self) -> bool {
        self.show_progress
    }

    /// The exclusion patterns, in the order they were given.
    pub closed spec fn exclude_patterns(&self) -> Seq<Seq<char>> {
        glob_set_patterns(self.exclude)
    }

    /// Whether a path matches one of the exclusion patterns.
    pub open spec fn excludes(&self, path: Seq<u8>) -> bool {
        glob_set_is_match(self.exclude_patterns(), path)
    }

    /// Creates a shredder. Fails with a configuration error, carrying the text of the
    /// first failure, exactly when an exclusion pattern does not parse or the patterns
    /// do not compile into a set.
    #[allow(clippy::too_many_arguments)]
    pub fn new(
        method: ShredMethod,
        passes: u32,
        dry_run: bool,
        verify: bool,
        trim: bool,
        force: bool,
        exclude_patterns: &[String],
        show_progress: bool,
    ) -> (r: ShredResult<Shredder>)
        ensures
            r is Ok <==> exclusion_error(string_views(exclude_patterns@)) is None,
            exclude_patterns@.len() == 0 ==> r is Ok,
            r matches Err(e) ==> (e matches ShredError::Cli(m) && exclusion_error(
                string_views(exclude_patterns@),
            ) == Some(m@)),
            r matches Ok(s) ==> {
                &&& s.spec_method() == method
                &&& s.spec_passes() == passes
                &&& s.spec_dry_run() == dry_run
                &&& s.spec_verify() == verify
                &&& s.spec_trim() == trim
                &&& s.spec_force() == force
                &&& s.spec_show_progress() == show_progress
                &&& s.exclude_patterns() == string_views(exclude_patterns@)
            },
    {
        match compile_exclusions(exclude_patterns) {
            Ok(exclude) => Ok(
                Shredder { method, passes, dry_run, verify, trim, force, show_progress, exclude },
            ),
            Err(m) => Err(ShredError::Cli(m)),
        }
    }

    /// The erasure method.
    pub fn method(&self) -> (m: ShredMethod)
        ensures
            m == self.spec_method(),
    {
        self.method
    }

    /// The requested number of random passes.
    pub fn passes(&self) -> (p: u32)
        ensures
            p == self.spec_passes(),
    {
        self.passes
    }

    /// Whether this is a dry run.
    pub fn dry_run(&self) -> (b: bool)
        ensures
            b == self.spec_dry_run(),
    {
        self.dry_run
    }

    /// Whether every overwrite pass is read back after it is written.
    pub fn verify(&self) -> (b: bool)
        ensures
            b == self.spec_verify(),
    {
        self.verify
    }

    /// Whether blocks are discarded after overwriting.
    pub fn trim(&self) -> (b: bool)
        ensures
            b == self.spec_trim(),
    {
        self.trim
    }

    /// Whether the confirmation prompt is skipped.
    pub fn force(&self) -> (b: bool)
        ensures
            b == self.spec_force(),
    {
        self.force
    }

    /// Whether a progress bar is shown.
    pub fn show_progress(&self) -> (b: bool)
        ensures
            b == self.spec_show_progress(),
    {
        self.show_progress
    }

    /// Whether `path` matches one of the exclusion patterns; with no patterns, nothing does.
    pub fn should_exclude(&self, path: &PathBuf) -> (b: bool)
        ensures
            b == self.excludes(path_bytes(*path)),
            self.exclude_patterns().len() == 0 ==> !b,
    {
        glob_set_matches(&self.exclude, path)
    }

    /// The first check of a target: it must exist. Returns the question to put to the
    /// user when destruction needs confirmation (neither forced nor a dry run).
    pub fn check_target(&self, path: &PathBuf, exists: bool, is_dir: bool, recursive: bool) -> (r:
        ShredResult<Option<String>>)
        ensures
            !exists ==> (r matches Err(ShredError::InvalidPath(m)) && m@ == "Path does not exist: "@
                + path_debug_text(path_bytes(*path))),
            exists && (self.spec_force() || self.spec_dry_run()) ==> r matches Ok(None),
            exists && !self.spec_force() && !self.spec_dry_run() ==> (r matches Ok(Some(q)) && q@
                == confirmation_prompt(path_bytes(*path), is_dir && recursive)),
    {
        if !exists {
            let mut m = String::from_str("Path does not exist: ");
            m.append(path_debug(path).as_str());
            return Err(ShredError::InvalidPath(m));
        }
        if self.force || self.dry_run {
            return Ok(None);
        }
        let mut q = if is_dir && recursive {
            String::from_str("Are you sure you want to RECURSIVELY destroy all contents in ")
        } else {
            String::from_str("Are you sure you want to permanently destroy ")
        };
        q.append(path_debug(path).as_str());
        q.append("?");
        Ok(Some(q))
    }

    /// The user's answer to the confirmation prompt: anything but a yes cancels.
    pub fn confirm(confirmed: bool) -> (r: ShredResult<()>)
        ensures
            confirmed ==> r is Ok,
            !confirmed ==> (r matches Err(ShredError::Cli(m)) && m@ == "Operation cancelled by user"@),
    {
        if confirmed {
            Ok(())
        } else {
            Err(ShredError::Cli(String::from_str("Operation cancelled by user")))
        }
    }

    /// Decides how an existing target is shredded: a link as a link (never followed, so
    /// a link to a directory is not walked), a file on its own, a directory only when
    /// recursion is asked for; anything else is refused.
    pub fn classify_target(path: &PathBuf, is_symlink: bool, is_file: bool, is_dir: bool, recursive: bool) -> (r:
        ShredResult<TargetKind>)
        ensures
            is_symlink ==> r == Ok::<TargetKind, ShredError>(TargetKind::Link),
            !is_symlink && is_file ==> r == Ok::<TargetKind, ShredError>(TargetKind::File),
            !is_symlink && !is_file && is_dir && recursive ==> r == Ok::<TargetKind, ShredError>(TargetKind::Directory),
            !is_symlink && !is_file && is_dir && !recursive ==> (r matches Err(ShredError::InvalidPath(m)) && m@
                == "Target "@ + path_debug_text(path_bytes(*path)) + " is a directory. Use --recursive."@),
            !is_symlink && !is_file && !is_dir ==> (r matches Err(ShredError::InvalidPath(m)) && m@
                == "Invalid target type: "@ + path_debug_text(path_bytes(*path))),
    {
        if is_symlink {
            Ok(TargetKind::Link)
        } else if is_file {
            Ok(TargetKind::File)
        } else if is_dir {
            if recursive {
                Ok(TargetKind::Directory)
            } else {
                let mut m = String::from_str("Target ");
                m.append(path_debug(path).as_str());
                m.append(" is a directory. Use --recursive.");
                Err(ShredError::InvalidPath(m))
            }
        } else {
            let mut m = String::from_str("Invalid target type: ");
            m.append(path_debug(path).as_str());
            Err(ShredError::InvalidPath(m))
        }
    }

    /// What is done to an entry: nothing once cancelled or when a pattern excludes it; a
    /// link is removed by itself (unless this is a dry run or files are kept); special
    /// files are left alone; a dry run only records; anything else is destroyed.
    pub open spec fn entry_action(&self, path: Seq<u8>, kind: EntryKind, cancelled: bool, keep: bool) -> EntryAction {
        if cancelled {
            EntryAction::Skip
        } else if self.excludes(path) {
            EntryAction::Skip
        } else if kind == EntryKind::Symlink {
            if !self.spec_dry_run() && !keep {
                EntryAction::RemoveLink
            } else {
                EntryAction::Skip
            }
        } else if kind == EntryKind::Other {
            EntryAction::Skip
        } else if self.spec_dry_run() {
            EntryAction::RecordDryRun
        } else {
            EntryAction::Destroy
        }
    }

    /// Decides what is done to one entry (see `entry_action`).
    pub fn plan_entry(&self, path: &PathBuf, kind: EntryKind, cancelled: bool, keep: bool) -> (a:
        EntryAction)
        ensures
            a == self.entry_action(path_bytes(*path), kind, cancelled, keep),
    {
        if cancelled {
            EntryAction::Skip
        } else if self.should_exclude(path) {
            EntryAction::Skip
        } else if kind == EntryKind::Symlink {
            if !self.dry_run && !keep {
                EntryAction::RemoveLink
            } else {
                EntryAction::Skip
            }
        } else if kind == EntryKind::Other {
            EntryAction::Skip
        } else if self.dry_run {
            EntryAction::RecordDryRun
        } else {
            EntryAction::Destroy
        }
    }

    /// The steps that destroy a file under this policy.
    pub fn destruction_steps(&self, keep: bool) -> (steps: Vec<DestroyStep>)
        ensures
            steps@ == destroy_steps(self.spec_trim(), keep),
    {
        let mut steps: Vec<DestroyStep> = Vec::new();
        steps.push(DestroyStep::Overwrite);
        steps.push(DestroyStep::Obfuscate);
        if self.trim {
            steps.push(DestroyStep::Trim);
        }
        steps.push(DestroyStep::Truncate);
        if !keep {
            steps.push(DestroyStep::Unlink);
        }
        assert(steps@ =~= destroy_steps(self.trim, keep));
        steps
    }
}

/// A dry run leaves the file system as it is: no entry is destroyed and no link removed.
pub proof fn lemma_dry_run_touches_nothing(s: &Shredder, path: Seq<u8>, kind: EntryKind, cancelled: bool, keep: bool)
    requires
        s.spec_dry_run(),
    ensures
        s.entry_action(path, kind, cancelled, keep) != EntryAction::Destroy,
        s.entry_action(path, kind, cancelled, keep) != EntryAction::RemoveLink,
{
}

/// A symbolic link is never followed: at most the link itself is removed.
pub proof fn lemma_links_are_never_followed(s: &Shredder, path: Seq<u8>, cancelled: bool, keep: bool)
    ensures
        s.entry_action(path, EntryKind::Symlink, cancelled, keep) == EntryAction::RemoveLink
            || s.entry_action(path, EntryKind::Symlink, cancelled, keep) == EntryAction::Skip,
{
}

/// An excluded entry, link or not, is left alone and not recorded.
pub proof fn lemma_excluded_entries_are_untouched(s: &Shredder, path: Seq<u8>, kind: EntryKind, cancelled: bool, keep: bool)
    requires
        s.excludes(path),
    ensures
        s.entry_action(path, kind, cancelled, keep) == EntryAction::Skip,
{
}

/// After cancellation nothing more is done.
pub proof fn lemma_cancelled_does_nothing(s: &Shredder, path: Seq<u8>, kind: EntryKind, keep: bool)
    ensures
        s.entry_action(path, kind, true, keep) == EntryAction::Skip,
{
}

/// A kept file is overwritten, renamed and truncated but never unlinked, and a kept
/// link stays; otherwise unlinking is the last step.
pub proof fn lemma_keep_never_unlinks(s: &Shredder, path: Seq<u8>, kind: EntryKind, cancelled: bool, trim: bool)
    ensures
        !destroy_steps(trim, true).contains(DestroyStep::Unlink),
        s.entry_action(path, kind, cancelled, true) != EntryAction::RemoveLink,
        destroy_steps(trim, false).last() == DestroyStep::Unlink,
{
    let steps = destroy_steps(trim, true);
    assert(!steps.contains(DestroyStep::Unlink)) by {
        if steps.contains(DestroyStep::Unlink) {
            let i = choose|i: int| 0 <= i < steps.len() && steps[i] == DestroyStep::Unlink;
            if trim {
                assert(steps =~= seq![DestroyStep::Overwrite, DestroyStep::Obfuscate, DestroyStep::Trim, DestroyStep::Truncate]);
            } else {
                assert(steps =~= seq![DestroyStep::Overwrite, DestroyStep::Obfuscate, DestroyStep::Truncate]);
            }
        }
    }
}

/// The contents are always overwritten first, before the name is scrubbed or the file cut.
pub proof fn lemma_overwrite_comes_first(trim: bool, keep: bool)
    ensures
        destroy_steps(trim, keep)[0] == DestroyStep::Overwrite,
        destroy_steps(trim, keep)[1] == DestroyStep::Obfuscate,
{
}

/// Every destruction truncates the file, kept or not: the plan is overwrite, rename, the
/// trim when asked for, truncate, and the unlink unless the file is kept, so the truncation
/// directly follows the optional trim.
pub proof fn lemma_every_plan_truncates(trim: bool, keep: bool)
    ensures
        destroy_steps(trim, keep).contains(DestroyStep::Truncate),
        destroy_steps(trim, keep)[if trim { 3int } else { 2int }] == DestroyStep::Truncate,
        destroy_steps(trim, keep).len() == 3 + (if trim { 1int } else { 0int }) + (if keep { 0int } else { 1int }),
        destroy_steps(trim, keep).contains(DestroyStep::Trim) == trim,
        destroy_steps(trim, keep).contains(DestroyStep::Unlink) == !keep,
{
    let steps = destroy_steps(trim, keep);
    let t: int = if trim { 3 } else { 2 };
    assert(steps[t] == DestroyStep::Truncate);
    if trim {
        assert(steps[2] == DestroyStep::Trim);
    } else {
        assert forall|i: int| 0 <= i < steps.len() implies steps[i] != DestroyStep::Trim by {}
    }
    if !keep {
        assert(steps[steps.len() - 1] == DestroyStep::Unlink);
    } else {
        assert forall|i: int| 0 <= i < steps.len() implies steps[i] != DestroyStep::Unlink by {}
    }
}

/// Outside a dry run and without `--keep`, a symbolic link that is neither excluded nor
/// reached after cancellation is removed (the link itself, not what it points to).
pub proof fn lemma_links_are_removed(s: &Shredder, path: Seq<u8>, cancelled: bool, keep: bool)
    requires
        !s.spec_dry_run(),
        !keep,
        !cancelled,
        !s.excludes(path),
    ensures
        s.entry_action(path, EntryKind::Symlink, cancelled, keep) == EntryAction::RemoveLink,
{
}

/// Outside a dry run, a regular file or directory entry that is neither excluded nor
/// reached after cancellation is destroyed; in a dry run it is only recorded.
pub proof fn lemma_unexcluded_entries_are_acted_on(s: &Shredder, path: Seq<u8>, kind: EntryKind, keep: bool)
    requires
        kind == EntryKind::File || kind == EntryKind::Directory,
        !s.excludes(path),
    ensures
        !s.spec_dry_run() ==> s.entry_action(path, kind, false, keep) == EntryAction::Destroy,
        s.spec_dry_run() ==> s.entry_action(path, kind, false, keep) == EntryAction::RecordDryRun,
{
}

/// The decision for an entry depends on the dry-run flag and the exclusion patterns only:
/// two shredders that agree on those decide alike, whatever their method, passes,
/// verification, trim, progress or `--force` settings.
pub proof fn lemma_plan_ignores_other_settings(
    s1: &Shredder,
    s2: &Shredder,
    path: Seq<u8>,
    kind: EntryKind,
    cancelled: bool,
    keep: bool,
)
    requires
        s1.spec_dry_run() == s2.spec_dry_run(),
        s1.exclude_patterns() == s2.exclude_patterns(),
    ensures
        s1.entry_action(path, kind, cancelled, keep) == s2.entry_action(path, kind, cancelled, keep),
{
}

/// The progress of destroying one file: which steps ran, the failure to report, and
/// whether a failure stopped the remaining steps.
pub struct Destruction {
    steps: Vec<DestroyStep>,
    done: usize,
    failure: Option<ShredError>,
    stopped: bool,
}

impl Destruction {
    /// The steps to run, in order.
    pub closed spec fn spec_steps(&self) -> Seq<DestroyStep> {
        self.steps@
    }

    /// How many steps have run.
    pub closed spec fn spec_done(&self) -> nat {
        self.done as nat
    }

    /// The failure that the outcome reports, if any step failed.
    pub closed spec fn spec_failure(&self) -> Option<ShredError> {
        self.failure
    }

    /// Whether a failed step stopped the destruction.
    pub closed spec fn spec_stopped(&self) -> bool {
        self.stopped
    }

    /// Internal consistency: no more steps ran than there are.
    pub closed spec fn wf(&self) -> bool {
        self.done <= self.steps.len()
    }

    /// Starts destroying a file under `policy`.
    pub fn new(policy: &Shredder, keep: bool) -> (d: Destruction)
        ensures
            d.wf(),
            d.spec_steps() == destroy_steps(policy.spec_trim(), keep),
            d.spec_done() == 0,
            d.spec_failure() is None,
            !d.spec_stopped(),
    {
        Destruction { steps: policy.destruction_steps(keep), done: 0, failure: None, stopped: false }
    }

    /// The step to run next: none once every step ran or a step that stops the
    /// destruction failed.
    pub fn next_step(&self) -> (step: Option<DestroyStep>)
        requires
            self.wf(),
        ensures
            !self.spec_stopped() && self.spec_done() < self.spec_steps().len() ==> step
                == Some(self.spec_steps()[self.spec_done() as int]),
            !(!self.spec_stopped() && self.spec_done() < self.spec_steps().len()) ==> step is None,
    {
        if !self.stopped && self.done < self.steps.len() {
            Some(self.steps[self.done])
        } else {
            None
        }
    }

    /// Records the result of the step just run. A failure becomes the failure to report;
    /// it stops the destruction unless it is the trim's, after which the remaining steps
    /// still run.
    pub fn record(&mut self, result: ShredResult<()>)
        requires
            old(self).wf(),
            !old(self).spec_stopped(),
            old(self).spec_done() < old(self).spec_steps().len(),
        ensures
            final(self).wf(),
            final(self).spec_steps() == old(self).spec_steps(),
            final(self).spec_done() == old(self).spec_done() + 1,
            result is Ok ==> final(self).spec_failure() == old(self).spec_failure()
                && !final(self).spec_stopped(),
            result matches Err(e) ==> final(self).spec_failure() == Some(e),
            result is Err ==> (final(self).spec_stopped() <==> !(old(self).spec_steps()[old(self).spec_done() as int] is Trim)),
    {
        let step = self.steps[self.done];
        self.done = self.done + 1;
        match result {
            Ok(()) => {},
            Err(e) => {
                self.stopped = step.is_fatal();
                self.failure = Some(e);
            },
        }
    }

    /// The outcome: success when no step failed, else the failure to report (the one that
    /// stopped the destruction, or a failed trim).
    pub fn finish(self) -> (r: ShredResult<()>)
        ensures
            self.spec_failure() is None ==> r is Ok,
            self.spec_failure() matches Some(e) ==> r == Err::<(), ShredError>(e),
    {
        match self.failure {
            None => Ok(()),
            Some(e) => Err(e),
        }
    }
}

} // verus!
