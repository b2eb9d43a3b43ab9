use component_routing::moniker::{AbsoluteMoniker, RelativeMoniker};
use component_routing::storage::{
    delete_isolated_storage, generate_storage_path, open_isolated_storage, CapabilityPath,
    StorageError, StorageOpAction, StorageOpOutcome, StorageType, MODE_TYPE_DIRECTORY,
    OPEN_RIGHT_READABLE, OPEN_RIGHT_WRITABLE,
};
use std::collections::HashMap;

fn abs(segments: &[&str]) -> AbsoluteMoniker {
    AbsoluteMoniker::new(segments.iter().map(|s| s.to_string()).collect())
}

fn relative(down: &[&str]) -> RelativeMoniker {
    RelativeMoniker::new(vec![], down.iter().map(|s| s.to_string()).collect())
}

#[test]
fn generate_storage_path_test() {
    for (type_, relative_moniker, expected_output) in vec![
        (
            Some(StorageType::Data),
            RelativeMoniker::from_absolute(&abs(&[]), &abs(&["a:1"])),
            "a:1/data",
        ),
        (
            Some(StorageType::Cache),
            RelativeMoniker::from_absolute(&abs(&[]), &abs(&["a:1"])),
            "a:1/cache",
        ),
        (
            Some(StorageType::Meta),
            RelativeMoniker::from_absolute(&abs(&[]), &abs(&["a:1"])),
            "a:1/meta",
        ),
        (None, RelativeMoniker::from_absolute(&abs(&[]), &abs(&["a:1"])), "a:1"),
        (
            Some(StorageType::Data),
            RelativeMoniker::from_absolute(&abs(&[]), &abs(&["a:1", "b:2"])),
            "a:1/children/b:2/data",
        ),
        (
            Some(StorageType::Cache),
            RelativeMoniker::from_absolute(&abs(&[]), &abs(&["a:1", "b:2"])),
            "a:1/children/b:2/cache",
        ),
        (
            Some(StorageType::Meta),
            RelativeMoniker::from_absolute(&abs(&[]), &abs(&["a:1", "b:2"])),
            "a:1/children/b:2/meta",
        ),
        (None, RelativeMoniker::from_absolute(&abs(&[]), &abs(&["a:1", "b:2"])), "a:1/children/b:2"),
        (
            Some(StorageType::Data),
            RelativeMoniker::from_absolute(&abs(&[]), &abs(&["a:1", "b:2", "c:3"])),
            "a:1/children/b:2/children/c:3/data",
        ),
        (
            Some(StorageType::Cache),
            RelativeMoniker::from_absolute(&abs(&[]), &abs(&["a:1", "b:2", "c:3"])),
            "a:1/children/b:2/children/c:3/cache",
        ),
        (
            Some(StorageType::Meta),
            RelativeMoniker::from_absolute(&abs(&[]), &abs(&["a:1", "b:2", "c:3"])),
            "a:1/children/b:2/children/c:3/meta",
        ),
        (
            None,
            RelativeMoniker::from_absolute(&abs(&[]), &abs(&["a:1", "b:2", "c:3"])),
            "a:1/children/b:2/children/c:3",
        ),
    ] {
        assert_eq!(generate_storage_path(type_, &relative_moniker), expected_output.to_string());
    }
}

/// An in-memory directory tree standing in for the external directory
/// capability while the storage operations are driven through their steps.
#[derive(Default, Debug)]
struct FakeDir {
    files: Vec<String>,
    dirs: HashMap<String, FakeDir>,
}

impl FakeDir {
    fn ensure_path(&mut self, path: &str) -> &mut FakeDir {
        let mut dir = self;
        for seg in path.split('/') {
            dir = dir.dirs.entry(seg.to_string()).or_default();
        }
        dir
    }

    fn get_path(&mut self, path: &str) -> Option<&mut FakeDir> {
        let mut dir = self;
        for seg in path.split('/') {
            match dir.dirs.get_mut(seg) {
                Some(d) => dir = d,
                None => return None,
            }
        }
        Some(dir)
    }
}

/// Drives an open operation against the tree; on success, returns the path
/// of the opened leaf directory.
fn run_open(
    root: &mut FakeDir,
    dir_source_moniker: AbsoluteMoniker,
    storage_type: StorageType,
    relative_moniker: RelativeMoniker,
) -> Result<String, StorageError> {
    let (mut op, mut action) = open_isolated_storage(
        dir_source_moniker,
        CapabilityPath::new("/data".to_string()),
        storage_type,
        relative_moniker,
        MODE_TYPE_DIRECTORY,
    );
    let mut leaf: Option<String> = None;
    loop {
        match action {
            StorageOpAction::Bind { .. } => action = op.step(StorageOpOutcome::Succeeded),
            StorageOpAction::OpenOutgoing { flags, .. } => {
                assert_eq!(flags, OPEN_RIGHT_READABLE | OPEN_RIGHT_WRITABLE);
                action = op.step(StorageOpOutcome::Succeeded);
            }
            StorageOpAction::CreateSubDirectories { relative_path } => {
                root.ensure_path(&relative_path);
                leaf = Some(relative_path);
                action = op.step(StorageOpOutcome::Succeeded);
            }
            StorageOpAction::Succeed => return Ok(leaf.unwrap()),
            StorageOpAction::Fail { error } => return Err(error),
            _ => panic!("unexpected action for an open operation: {:?}", action),
        }
    }
}

/// Drives a delete operation against the tree.
fn run_delete(
    root: &mut FakeDir,
    dir_source_moniker: AbsoluteMoniker,
    relative_moniker: RelativeMoniker,
) -> Result<(), StorageError> {
    let (mut op, mut action) = delete_isolated_storage(
        dir_source_moniker,
        CapabilityPath::new("/data".to_string()),
        relative_moniker,
    );
    // The directory the next removal is relative to: the outgoing root
    // until `OpenDirectory` selects the subtree's parent.
    let mut current: Option<String> = None;
    loop {
        match action {
            StorageOpAction::Bind { .. } => action = op.step(StorageOpOutcome::Succeeded),
            StorageOpAction::OpenOutgoing { open_mode, .. } => {
                assert_eq!(open_mode, MODE_TYPE_DIRECTORY);
                current = None;
                action = op.step(StorageOpOutcome::Succeeded);
            }
            StorageOpAction::OpenDirectory { relative_path, .. } => {
                let outcome = match root.get_path(&relative_path) {
                    Some(_) => {
                        current = Some(relative_path);
                        StorageOpOutcome::Succeeded
                    }
                    None => StorageOpOutcome::Failed { message: "no such directory".to_string() },
                };
                action = op.step(outcome);
            }
            StorageOpAction::RemoveDirRecursive { name } => {
                let dir = match &current {
                    Some(path) => root.get_path(path).unwrap(),
                    None => &mut *root,
                };
                let outcome = if dir.dirs.remove(&name).is_some() {
                    StorageOpOutcome::Succeeded
                } else {
                    StorageOpOutcome::Failed { message: "no such directory".to_string() }
                };
                action = op.step(outcome);
            }
            StorageOpAction::Succeed => return Ok(()),
            StorageOpAction::Fail { error } => return Err(error),
            _ => panic!("unexpected action for a delete operation: {:?}", action),
        }
    }
}

#[test]
fn storage_scenario() {
    let mut root = FakeDir::default();
    let b = abs(&["b:0"]);
    let target = relative(&["c:0", "coll:d:1"]);

    // Open: a fresh, empty directory.
    let leaf = run_open(&mut root, b.clone(), StorageType::Data, target.clone()).unwrap();
    assert_eq!(leaf, "c:0/children/coll:d:1/data");
    assert!(root.get_path(&leaf).unwrap().files.is_empty());

    // Write a file, then open again with identical arguments: same
    // directory, file still present.
    root.get_path(&leaf).unwrap().files.push("file".to_string());
    let leaf2 = run_open(&mut root, b.clone(), StorageType::Data, target.clone()).unwrap();
    assert_eq!(leaf2, leaf);
    assert_eq!(root.get_path(&leaf2).unwrap().files, vec!["file".to_string()]);

    // A different storage class is isolated: its directory starts empty.
    let cache = run_open(&mut root, b.clone(), StorageType::Cache, target.clone()).unwrap();
    assert_eq!(cache, "c:0/children/coll:d:1/cache");
    assert!(root.get_path(&cache).unwrap().files.is_empty());

    // The parent's own storage is untouched by the child's.
    let parent = relative(&["c:0"]);
    let parent_leaf = run_open(&mut root, b.clone(), StorageType::Data, parent.clone()).unwrap();
    root.get_path(&parent_leaf).unwrap().files.push("file".to_string());

    // Delete the child's whole subtree (all storage classes at once).
    run_delete(&mut root, b.clone(), target.clone()).unwrap();
    assert!(root.get_path("c:0/children/coll:d:1").is_none());

    // The parent's storage is unaffected.
    let parent_leaf2 = run_open(&mut root, b.clone(), StorageType::Data, parent).unwrap();
    assert_eq!(root.get_path(&parent_leaf2).unwrap().files, vec!["file".to_string()]);

    // A second delete of the same target fails with a Remove error.
    let err = run_delete(&mut root, b, target).unwrap_err();
    assert!(matches!(err, StorageError::Remove { .. }));
}

#[test]
fn open_failure_is_an_open_error() {
    // A declaring instance whose outgoing connection immediately fails:
    // the operation ends with an Open error — no panic, no hang.
    let (mut op, action) = open_isolated_storage(
        abs(&["a:0"]),
        CapabilityPath::new("/data".to_string()),
        StorageType::Data,
        relative(&["c:0", "coll:d:1"]),
        MODE_TYPE_DIRECTORY,
    );
    assert!(matches!(action, StorageOpAction::Bind { .. }));
    let action = op.step(StorageOpOutcome::Succeeded);
    assert!(matches!(action, StorageOpAction::OpenOutgoing { .. }));
    let action = op.step(StorageOpOutcome::Failed { message: "peer closed".to_string() });
    match action {
        StorageOpAction::Fail { error } => match error {
            StorageError::Open { err, .. } => assert_eq!(err, "peer closed"),
            other => panic!("unexpected error: {:?}", other),
        },
        other => panic!("unexpected action: {:?}", other),
    }
}

#[test]
fn bind_failure_is_an_open_error() {
    let (mut op, _action) = delete_isolated_storage(
        abs(&["a:0"]),
        CapabilityPath::new("/data".to_string()),
        relative(&["c:0"]),
    );
    let action = op.step(StorageOpOutcome::Failed { message: "binding failed".to_string() });
    match action {
        StorageOpAction::Fail { error } => {
            assert!(matches!(error, StorageError::Open { .. }));
        }
        other => panic!("unexpected action: {:?}", other),
    }
}

#[test]
fn delete_with_empty_down_path_is_invalid() {
    let (_op, action) = delete_isolated_storage(
        abs(&["a:0"]),
        CapabilityPath::new("/data".to_string()),
        RelativeMoniker::new(vec![], vec![]),
    );
    match action {
        StorageOpAction::Fail { error } => {
            assert!(matches!(error, StorageError::InvalidStoragePath { .. }));
        }
        other => panic!("unexpected action: {:?}", other),
    }
}

#[test]
fn delete_of_single_segment_removes_from_root() {
    let mut root = FakeDir::default();
    root.ensure_path("c:0/data");
    run_delete(&mut root, abs(&["b:0"]), relative(&["c:0"])).unwrap();
    assert!(root.get_path("c:0").is_none());
}

#[test]
fn storage_error_constructors() {
    let err = StorageError::open(
        abs(&["b:0"]),
        CapabilityPath::new("/data".to_string()),
        relative(&["c:0"]),
        "cause".to_string(),
    );
    assert!(matches!(err, StorageError::Open { .. }));
    let err = StorageError::remove(
        abs(&["b:0"]),
        CapabilityPath::new("/data".to_string()),
        relative(&["c:0"]),
        "cause".to_string(),
    );
    assert!(matches!(err, StorageError::Remove { .. }));
    let err = StorageError::invalid_storage_path(relative(&["c:0"]));
    assert!(matches!(err, StorageError::InvalidStoragePath { .. }));
}
