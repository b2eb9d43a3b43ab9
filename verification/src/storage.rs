//! Isolated storage for component instances: the pure path resolver that
//! maps a storage class and a relative moniker to a hierarchical directory
//! path, the storage error taxonomy, and the decision logic of the two
//! storage operations (open and delete). The directory capability that
//! performs the actual binding, opening and removal is an external
//! collaborator: a driver performs each requested action and reports its
//! outcome back to the operation's `step` function.

use vstd::prelude::*;
use vstd::string::StringExecFns;
use crate::moniker::{AbsoluteMoniker, RelativeMoniker, RelativeMonikerView};

verus! {

/// Right to read, as understood by the external directory service.
pub const OPEN_RIGHT_READABLE: u32 = 1;

/// Right to write, as understood by the external directory service.
pub const OPEN_RIGHT_WRITABLE: u32 = 2;

/// Mode bit marking a directory, as understood by the external directory
/// service.
pub const MODE_TYPE_DIRECTORY: u32 = 16384;

/// The rights with which storage operations open the declaring instance's
/// outgoing directory: read and write.
pub const FLAGS: u32 = 3;

/// A storage class: each class names an independent subtree of an instance's
/// isolated storage.
#[derive(Clone, Copy, Debug, PartialEq, Eq, Structural)]
pub enum StorageType {
    Data,
    Cache,
    Meta,
}

/// A capability path: the static path string identifying a capability in a
/// namespace, such as `/data` or `/svc/fuchsia.sys2.WorkScheduler`.
#[derive(Debug)]
pub struct CapabilityPath {
    path: String,
}

impl View for CapabilityPath {
    type V = Seq<char>;

    closed spec fn view(&self) -> Seq<char> {
        self.path@
    }
}

impl CapabilityPath {
    pub fn new(path: String) -> (r: CapabilityPath)
        ensures
            r@ == path@,
    {
        CapabilityPath { path }
    }

    pub fn as_str(&self) -> (r: &str)
        ensures
            r@ == self@,
    {
        self.path.as_str()
    }
}

impl Clone for CapabilityPath {
    fn clone(&self) -> (r: CapabilityPath)
        ensures
            r@ == self@,
    {
        CapabilityPath { path: self.path.clone() }
    }
}

impl PartialEq for CapabilityPath {
    fn eq(&self, other: &CapabilityPath) -> (r: bool) {
        self.path == other.path
    }
}

impl vstd::std_specs::cmp::PartialEqSpecImpl for CapabilityPath {
    open spec fn obeys_eq_spec() -> bool {
        true
    }

    open spec fn eq_spec(&self, other: &CapabilityPath) -> bool {
        self@ == other@
    }
}

/// The path suffix appended for a storage class.
pub open spec fn storage_type_suffix(t: StorageType) -> Seq<char> {
    match t {
        StorageType::Data => "data"@,
        StorageType::Cache => "cache"@,
        StorageType::Meta => "meta"@,
    }
}

/// The storage path for a non-empty down-path, without any storage-class
/// suffix: the first segment verbatim, then `/children/` before each further
/// segment.
pub open spec fn storage_path_segments(down: Seq<Seq<char>>) -> Seq<char>
    decreases down.len(),
{
    if down.len() <= 1 {
        if down.len() == 0 {
            Seq::empty()
        } else {
            down[0]
        }
    } else {
        storage_path_segments(down.drop_last()) + "/children/"@ + down.last()
    }
}

/// The full storage path: the segment walk of `storage_path_segments`,
/// followed by `/` and the storage-class suffix when a class is given.
pub open spec fn spec_storage_path(t: Option<StorageType>, down: Seq<Seq<char>>) -> Seq<char> {
    match t {
        Some(t) => storage_path_segments(down) + "/"@ + storage_type_suffix(t),
        None => storage_path_segments(down),
    }
}

/// Builds the segment walk over the first `upto` down-path segments.
fn storage_path_prefix(down: &Vec<String>, upto: usize) -> (r: String)
    requires
        1 <= upto <= down.len(),
    ensures
        r@ == storage_path_segments(down.deep_view().take(upto as int)),
{
    let mut r: String = down[0].clone();
    proof {
        assert(down.deep_view().take(1) =~= seq![down.deep_view()[0]]);
    }
    let mut i: usize = 1;
    while i < upto
        invariant
            1 <= i <= upto <= down.len(),
            down.deep_view().len() == down.len(),
            r@ == storage_path_segments(down.deep_view().take(i as int)),
        decreases upto - i,
    {
        r.append("/children/");
        r.append(down[i].as_str());
        proof {
            let d = down.deep_view();
            assert(d.take(i + 1).drop_last() =~= d.take(i as int));
            assert(d.take(i + 1).last() == d[i as int]);
        }
        i = i + 1;
    }
    r
}

/// Generates the path to the storage sub-directory afforded to the instance
/// at `relative_moniker`, relative to the storage-declaring instance's own
/// backing directory: the first down-path segment verbatim, each further
/// segment preceded by a literal `children` element, then a leaf element
/// naming the storage class (or no leaf when no class is given, as when the
/// whole per-instance subtree is addressed).
///
/// A storage capability is never used by its own declaring instance, so the
/// down-path must be non-empty.
pub fn generate_storage_path(type_: Option<StorageType>, relative_moniker: &RelativeMoniker) -> (r:
    String)
    requires
        relative_moniker@.down.len() > 0,
    ensures
        r@ == spec_storage_path(type_, relative_moniker@.down),
{
    let down = relative_moniker.down_path();
    let mut r = storage_path_prefix(down, down.len());
    proof {
        assert(down.deep_view().take(down.len() as int) =~= relative_moniker@.down);
    }
    match type_ {
        Some(StorageType::Data) => {
            r.append("/");
            r.append("data");
        },
        Some(StorageType::Cache) => {
            r.append("/");
            r.append("cache");
        },
        Some(StorageType::Meta) => {
            r.append("/");
            r.append("meta");
        },
        None => {},
    }
    r
}

/// The spec-level value of a storage error.
pub enum StorageErrorView {
    Open { dir_source_moniker: Seq<Seq<char>>, dir_source_path: Seq<char>, relative_moniker: RelativeMonikerView, err: Seq<char> },
    Remove { dir_source_moniker: Seq<Seq<char>>, dir_source_path: Seq<char>, relative_moniker: RelativeMonikerView, err: Seq<char> },
    InvalidStoragePath { relative_moniker: RelativeMonikerView },
    InvalidUtf8,
}

/// Errors related to isolated storage. `Open` covers a failure to bind the
/// declaring instance or to open a directory on the way to the storage
/// subtree; `Remove` covers a failure of the recursive removal itself;
/// `InvalidStoragePath` reports a relative moniker whose shape cannot name a
/// storage subtree; `InvalidUtf8` reports a path element that is not
/// representable as text.
#[derive(Debug)]
pub enum StorageError {
    Open {
        dir_source_moniker: AbsoluteMoniker,
        dir_source_path: CapabilityPath,
        relative_moniker: RelativeMoniker,
        err: String,
    },
    Remove {
        dir_source_moniker: AbsoluteMoniker,
        dir_source_path: CapabilityPath,
        relative_moniker: RelativeMoniker,
        err: String,
    },
    InvalidStoragePath { relative_moniker: RelativeMoniker },
    InvalidUtf8,
}

impl View for StorageError {
    type V = StorageErrorView;

    open spec fn view(&self) -> StorageErrorView {
        match self {
            StorageError::Open { dir_source_moniker, dir_source_path, relative_moniker, err } => StorageErrorView::Open {
                dir_source_moniker: dir_source_moniker@,
                dir_source_path: dir_source_path@,
                relative_moniker: relative_moniker@,
                err: err@,
            },
            StorageError::Remove { dir_source_moniker, dir_source_path, relative_moniker, err } => StorageErrorView::Remove {
                dir_source_moniker: dir_source_moniker@,
                dir_source_path: dir_source_path@,
                relative_moniker: relative_moniker@,
                err: err@,
            },
            StorageError::InvalidStoragePath { relative_moniker } => StorageErrorView::InvalidStoragePath {
                relative_moniker: relative_moniker@,
            },
            StorageError::InvalidUtf8 => StorageErrorView::InvalidUtf8,
        }
    }
}

impl StorageError {
    pub fn open(
        dir_source_moniker: AbsoluteMoniker,
        dir_source_path: CapabilityPath,
        relative_moniker: RelativeMoniker,
        err: String,
    ) -> (r: StorageError)
        ensures
            r@ == (StorageErrorView::Open {
                dir_source_moniker: dir_source_moniker@,
                dir_source_path: dir_source_path@,
                relative_moniker: relative_moniker@,
                err: err@,
            }),
    {
        StorageError::Open { dir_source_moniker, dir_source_path, relative_moniker, err }
    }

    pub fn remove(
        dir_source_moniker: AbsoluteMoniker,
        dir_source_path: CapabilityPath,
        relative_moniker: RelativeMoniker,
        err: String,
    ) -> (r: StorageError)
        ensures
            r@ == (StorageErrorView::Remove {
                dir_source_moniker: dir_source_moniker@,
                dir_source_path: dir_source_path@,
                relative_moniker: relative_moniker@,
                err: err@,
            }),
    {
        StorageError::Remove { dir_source_moniker, dir_source_path, relative_moniker, err }
    }

    pub fn invalid_storage_path(relative_moniker: RelativeMoniker) -> (r: StorageError)
        ensures
            r@ == (StorageErrorView::InvalidStoragePath { relative_moniker: relative_moniker@ }),
    {
        StorageError::InvalidStoragePath { relative_moniker }
    }
}

/// One request from a storage operation to the external directory
/// capability. A driver performs the action, then reports its outcome back
/// through `step`; `Succeed` and `Fail` end the operation.
///
/// `RemoveDirRecursive` removes the named child from the directory the
/// driver opened most recently: the declaring instance's outgoing root right
/// after `OpenOutgoing`, or the parent directory after `OpenDirectory`.
#[derive(Debug)]
pub enum StorageOpAction {
    Bind { moniker: AbsoluteMoniker },
    OpenOutgoing { flags: u32, open_mode: u32, path: CapabilityPath },
    CreateSubDirectories { relative_path: String },
    OpenDirectory { relative_path: String, flags: u32 },
    RemoveDirRecursive { name: String },
    Succeed,
    Fail { error: StorageError },
}

/// The outcome a driver reports for the most recent action.
#[derive(Debug)]
pub enum StorageOpOutcome {
    Succeeded,
    Failed { message: String },
}

/// Where a storage operation stands: which action it is waiting on.
#[derive(Clone, Copy, Debug, PartialEq, Eq, Structural)]
pub enum StorageOpPhase {
    Binding,
    OpeningOutgoing,
    OpeningParent,
    CreatingSubDirectories,
    Removing,
    Finished,
}

/// The phase an open operation moves to after an outcome: forward on
/// success, `Finished` on failure.
pub open spec fn open_storage_next_phase(p: StorageOpPhase, ok: bool) -> StorageOpPhase {
    if !ok {
        StorageOpPhase::Finished
    } else {
        match p {
            StorageOpPhase::Binding => StorageOpPhase::OpeningOutgoing,
            StorageOpPhase::OpeningOutgoing => StorageOpPhase::CreatingSubDirectories,
            _ => StorageOpPhase::Finished,
        }
    }
}

/// The open-storage operation: binds the declaring instance, opens its
/// outgoing directory at the declaring capability path with read and write
/// rights, and creates (or re-opens) the storage sub-directory resolved by
/// `generate_storage_path` with the storage class present. The handle that
/// the driver obtains from `CreateSubDirectories` is the operation's result.
pub struct OpenIsolatedStorage {
    pub dir_source_moniker: AbsoluteMoniker,
    pub dir_source_path: CapabilityPath,
    pub storage_type: StorageType,
    pub relative_moniker: RelativeMoniker,
    pub open_mode: u32,
    pub phase: StorageOpPhase,
}

impl OpenIsolatedStorage {
    /// The phases an open operation can be in, and the moniker shape its
    /// path resolution relies on.
    pub open spec fn wf(&self) -> bool {
        &&& self.relative_moniker@.down.len() > 0
        &&& (self.phase == StorageOpPhase::Binding || self.phase == StorageOpPhase::OpeningOutgoing
            || self.phase == StorageOpPhase::CreatingSubDirectories || self.phase
            == StorageOpPhase::Finished)
    }

    /// Advances the operation after the driver reports the outcome of the
    /// pending action. Every failure reported by the directory capability
    /// ends the operation with an `Open` error carrying the declaring
    /// moniker, the declaring capability path and the relative moniker.
    pub fn step(&mut self, outcome: StorageOpOutcome) -> (a: StorageOpAction)
        requires
            old(self).wf(),
            old(self).phase != StorageOpPhase::Finished,
        ensures
            final(self).wf(),
            final(self).phase == open_storage_next_phase(
                old(self).phase,
                outcome is Succeeded,
            ),
            final(self).dir_source_moniker@ == old(self).dir_source_moniker@,
            final(self).dir_source_path@ == old(self).dir_source_path@,
            final(self).storage_type == old(self).storage_type,
            final(self).relative_moniker@ == old(self).relative_moniker@,
            final(self).open_mode == old(self).open_mode,
            match outcome {
                StorageOpOutcome::Failed { message } => a matches StorageOpAction::Fail { error }
                    && error@ == (StorageErrorView::Open {
                    dir_source_moniker: old(self).dir_source_moniker@,
                    dir_source_path: old(self).dir_source_path@,
                    relative_moniker: old(self).relative_moniker@,
                    err: message@,
                }),
                StorageOpOutcome::Succeeded => match old(self).phase {
                    StorageOpPhase::Binding => a matches StorageOpAction::OpenOutgoing {
                        flags,
                        open_mode,
                        path,
                    } && flags == FLAGS && open_mode == old(self).open_mode && path@ == old(
                        self,
                    ).dir_source_path@,
                    StorageOpPhase::OpeningOutgoing => a
                        matches StorageOpAction::CreateSubDirectories { relative_path }
                        && relative_path@ == spec_storage_path(
                        Some(old(self).storage_type),
                        old(self).relative_moniker@.down,
                    ),
                    _ => a is Succeed,
                },
            },
    {
        match outcome {
            StorageOpOutcome::Failed { message } => {
                let error = StorageError::open(
                    self.dir_source_moniker.clone(),
                    self.dir_source_path.clone(),
                    self.relative_moniker.clone(),
                    message,
                );
                self.phase = StorageOpPhase::Finished;
                StorageOpAction::Fail { error }
            },
            StorageOpOutcome::Succeeded => {
                match self.phase {
                    StorageOpPhase::Binding => {
                        self.phase = StorageOpPhase::OpeningOutgoing;
                        StorageOpAction::OpenOutgoing {
                            flags: FLAGS,
                            open_mode: self.open_mode,
                            path: self.dir_source_path.clone(),
                        }
                    },
                    StorageOpPhase::OpeningOutgoing => {
                        self.phase = StorageOpPhase::CreatingSubDirectories;
                        StorageOpAction::CreateSubDirectories {
                            relative_path: generate_storage_path(
                                Some(self.storage_type),
                                &self.relative_moniker,
                            ),
                        }
                    },
                    _ => {
                        self.phase = StorageOpPhase::Finished;
                        StorageOpAction::Succeed
                    },
                }
            },
        }
    }
}

/// Starts opening the isolated storage sub-directory of the instance at
/// `relative_moniker`, creating it if necessary. `dir_source_moniker` and
/// `dir_source_path` locate the instance declaring the backing directory and
/// its capability path. The first action binds the declaring instance; the
/// driver then feeds each outcome to `step`.
///
/// A storage capability is never opened by its own declaring instance, so
/// the down-path must be non-empty.
pub fn open_isolated_storage(
    dir_source_moniker: AbsoluteMoniker,
    dir_source_path: CapabilityPath,
    storage_type: StorageType,
    relative_moniker: RelativeMoniker,
    open_mode: u32,
) -> (r: (OpenIsolatedStorage, StorageOpAction))
    requires
        relative_moniker@.down.len() > 0,
    ensures
        r.0.wf(),
        r.0.phase == StorageOpPhase::Binding,
        r.0.dir_source_moniker@ == dir_source_moniker@,
        r.0.dir_source_path@ == dir_source_path@,
        r.0.storage_type == storage_type,
        r.0.relative_moniker@ == relative_moniker@,
        r.0.open_mode == open_mode,
        r.1 matches StorageOpAction::Bind { moniker } && moniker@ == dir_source_moniker@,
{
    let action = StorageOpAction::Bind { moniker: dir_source_moniker.clone() };
    let op = OpenIsolatedStorage {
        dir_source_moniker,
        dir_source_path,
        storage_type,
        relative_moniker,
        open_mode,
        phase: StorageOpPhase::Binding,
    };
    (op, action)
}

/// The phase a delete operation moves to after an outcome: forward on
/// success (skipping `OpeningParent` when the subtree sits directly in the
/// outgoing root), `Finished` on failure.
pub open spec fn delete_storage_next_phase(
    p: StorageOpPhase,
    ok: bool,
    down_len: int,
) -> StorageOpPhase {
    if !ok {
        StorageOpPhase::Finished
    } else {
        match p {
            StorageOpPhase::Binding => StorageOpPhase::OpeningOutgoing,
            StorageOpPhase::OpeningOutgoing => if down_len == 1 {
                StorageOpPhase::Removing
            } else {
                StorageOpPhase::OpeningParent
            },
            StorageOpPhase::OpeningParent => StorageOpPhase::Removing,
            _ => StorageOpPhase::Finished,
        }
    }
}

/// The delete-storage operation: binds the declaring instance, opens its
/// outgoing directory, then recursively removes the whole per-instance
/// storage subtree (all storage classes at once), opening the subtree's
/// parent directory first when the subtree does not sit directly in the
/// outgoing root.
///
/// The removal is not guarded against concurrent writers: a peer holding a
/// handle into the same subtree can race it and either leave residue behind
/// or make the removal report failure. That window is inherited from the
/// external directory service and is deliberately left open.
pub struct DeleteIsolatedStorage {
    pub dir_source_moniker: AbsoluteMoniker,
    pub dir_source_path: CapabilityPath,
    pub relative_moniker: RelativeMoniker,
    pub phase: StorageOpPhase,
}

impl DeleteIsolatedStorage {
    /// The phases a delete operation can be in; while it is running, the
    /// down-path names at least the target's own segment.
    pub open spec fn wf(&self) -> bool {
        &&& self.phase != StorageOpPhase::CreatingSubDirectories
        &&& (self.phase != StorageOpPhase::Finished ==> self.relative_moniker@.down.len() > 0)
    }

    /// Advances the operation after the driver reports the outcome of the
    /// pending action. A failure while binding or opening directories ends
    /// the operation with an `Open` error; a failure of the recursive
    /// removal itself ends it with a `Remove` error.
    pub fn step(&mut self, outcome: StorageOpOutcome) -> (a: StorageOpAction)
        requires
            old(self).wf(),
            old(self).phase != StorageOpPhase::Finished,
        ensures
            final(self).wf(),
            final(self).phase == delete_storage_next_phase(
                old(self).phase,
                outcome is Succeeded,
                old(self).relative_moniker@.down.len() as int,
            ),
            final(self).dir_source_moniker@ == old(self).dir_source_moniker@,
            final(self).dir_source_path@ == old(self).dir_source_path@,
            final(self).relative_moniker@ == old(self).relative_moniker@,
            match outcome {
                StorageOpOutcome::Failed { message } => a matches StorageOpAction::Fail { error }
                    && error@ == if old(self).phase == StorageOpPhase::Removing {
                    StorageErrorView::Remove {
                        dir_source_moniker: old(self).dir_source_moniker@,
                        dir_source_path: old(self).dir_source_path@,
                        relative_moniker: old(self).relative_moniker@,
                        err: message@,
                    }
                } else {
                    StorageErrorView::Open {
                        dir_source_moniker: old(self).dir_source_moniker@,
                        dir_source_path: old(self).dir_source_path@,
                        relative_moniker: old(self).relative_moniker@,
                        err: message@,
                    }
                },
                StorageOpOutcome::Succeeded => match old(self).phase {
                    StorageOpPhase::Binding => a matches StorageOpAction::OpenOutgoing {
                        flags,
                        open_mode,
                        path,
                    } && flags == FLAGS && open_mode == MODE_TYPE_DIRECTORY && path@ == old(
                        self,
                    ).dir_source_path@,
                    StorageOpPhase::OpeningOutgoing => if old(self).relative_moniker@.down.len()
                        == 1 {
                        a matches StorageOpAction::RemoveDirRecursive { name } && name@ == old(
                            self,
                        ).relative_moniker@.down[0]
                    } else {
                        a matches StorageOpAction::OpenDirectory { relative_path, flags }
                            && relative_path@ == storage_path_segments(
                            old(self).relative_moniker@.down.drop_last(),
                        ) + "/children"@ && flags == FLAGS
                    },
                    StorageOpPhase::OpeningParent => a
                        matches StorageOpAction::RemoveDirRecursive { name } && name@ == old(
                        self,
                    ).relative_moniker@.down.last(),
                    _ => a is Succeed,
                },
            },
    {
        match outcome {
            StorageOpOutcome::Failed { message } => {
                let error = if let StorageOpPhase::Removing = self.phase {
                    StorageError::remove(
                        self.dir_source_moniker.clone(),
                        self.dir_source_path.clone(),
                        self.relative_moniker.clone(),
                        message,
                    )
                } else {
                    StorageError::open(
                        self.dir_source_moniker.clone(),
                        self.dir_source_path.clone(),
                        self.relative_moniker.clone(),
                        message,
                    )
                };
                self.phase = StorageOpPhase::Finished;
                StorageOpAction::Fail { error }
            },
            StorageOpOutcome::Succeeded => {
                match self.phase {
                    StorageOpPhase::Binding => {
                        self.phase = StorageOpPhase::OpeningOutgoing;
                        StorageOpAction::OpenOutgoing {
                            flags: FLAGS,
                            open_mode: MODE_TYPE_DIRECTORY,
                            path: self.dir_source_path.clone(),
                        }
                    },
                    StorageOpPhase::OpeningOutgoing => {
                        let down = self.relative_moniker.down_path();
                        if down.len() == 1 {
                            self.phase = StorageOpPhase::Removing;
                            StorageOpAction::RemoveDirRecursive { name: down[0].clone() }
                        } else {
                            let mut relative_path = storage_path_prefix(down, down.len() - 1);
                            relative_path.append("/children");
                            proof {
                                assert(down.deep_view().take(down.len() - 1)
                                    =~= self.relative_moniker@.down.drop_last());
                            }
                            self.phase = StorageOpPhase::OpeningParent;
                            StorageOpAction::OpenDirectory { relative_path, flags: FLAGS }
                        }
                    },
                    StorageOpPhase::OpeningParent => {
                        let down = self.relative_moniker.down_path();
                        self.phase = StorageOpPhase::Removing;
                        StorageOpAction::RemoveDirRecursive { name: down[down.len() - 1].clone() }
                    },
                    _ => {
                        self.phase = StorageOpPhase::Finished;
                        StorageOpAction::Succeed
                    },
                }
            },
        }
    }
}

/// Starts deleting the whole isolated storage subtree of the instance at
/// `relative_moniker` (every storage class at once). A relative moniker with
/// an empty down-path cannot name a storage subtree: the operation then ends
/// at once with an `InvalidStoragePath` error instead of contacting the
/// directory capability.
pub fn delete_isolated_storage(
    dir_source_moniker: AbsoluteMoniker,
    dir_source_path: CapabilityPath,
    relative_moniker: RelativeMoniker,
) -> (r: (DeleteIsolatedStorage, StorageOpAction))
    ensures
        r.0.wf(),
        r.0.dir_source_moniker@ == dir_source_moniker@,
        r.0.dir_source_path@ == dir_source_path@,
        r.0.relative_moniker@ == relative_moniker@,
        if relative_moniker@.down.len() == 0 {
            r.0.phase == StorageOpPhase::Finished && (r.1 matches StorageOpAction::Fail { error }
                && error@ == (StorageErrorView::InvalidStoragePath {
                relative_moniker: relative_moniker@,
            }))
        } else {
            r.0.phase == StorageOpPhase::Binding && (r.1 matches StorageOpAction::Bind { moniker }
                && moniker@ == dir_source_moniker@)
        },
{
    if relative_moniker.down_path().is_empty() {
        let error = StorageError::invalid_storage_path(relative_moniker.clone());
        let op = DeleteIsolatedStorage {
            dir_source_moniker,
            dir_source_path,
            relative_moniker,
            phase: StorageOpPhase::Finished,
        };
        (op, StorageOpAction::Fail { error })
    } else {
        let action = StorageOpAction::Bind { moniker: dir_source_moniker.clone() };
        let op = DeleteIsolatedStorage {
            dir_source_moniker,
            dir_source_path,
            relative_moniker,
            phase: StorageOpPhase::Binding,
        };
        (op, action)
    }
}

} // verus!
