use fs_operations_core::common::{free_result, FsError, FsResult, OperationResult};
use fs_operations_core::engine::{Operation, Purpose};
use fs_operations_core::ffi;
use fs_operations_core::host::{EntryKind, HostCall, HostReply, Platform};
use fs_operations_core::operations::{
    change_permissions, copy_path, create_file, create_folder, delete_path, move_path,
    rename_path,
};
use fs_operations_core::permissions::{get_permissions, PermissionReading};
use std::collections::BTreeMap;

/// What a path of the in-memory host holds.
#[derive(Clone, Debug, PartialEq)]
enum MemNode {
    Dir,
    File { content: Vec<u8>, mode: u32 },
    Link { target: String },
}

/// A host filesystem held in memory, which keeps a record of the calls made.
/// A path is the bytes of its name, which need not be text.
struct MemFs {
    nodes: BTreeMap<Vec<u8>, MemNode>,
    open: Vec<Vec<(Vec<u8>, EntryKind)>>,
    calls: Vec<HostCall>,
}

fn bytes(path: &str) -> Vec<u8> {
    path.as_bytes().to_vec()
}

fn parent_of(path: &[u8]) -> Vec<u8> {
    match path.iter().rposition(|b| *b == b'/') {
        Some(0) => b"/".to_vec(),
        Some(i) => path[..i].to_vec(),
        None => Vec::new(),
    }
}

fn not_found() -> HostReply {
    HostReply::Failed(FsError::NotFound("No such file or directory".to_string()))
}

fn contains(path: &[u8], part: &[u8]) -> bool {
    path.windows(part.len()).any(|w| w == part)
}

impl MemFs {
    fn new() -> MemFs {
        let mut nodes = BTreeMap::new();
        nodes.insert(bytes("/"), MemNode::Dir);
        nodes.insert(bytes("/tmp"), MemNode::Dir);
        MemFs { nodes, open: Vec::new(), calls: Vec::new() }
    }

    fn holds(&self, path: &str) -> bool {
        self.nodes.contains_key(path.as_bytes())
    }

    fn is_dir(&self, path: &str) -> bool {
        self.is_dir_at(path.as_bytes())
    }

    fn is_dir_at(&self, path: &[u8]) -> bool {
        self.nodes.get(path) == Some(&MemNode::Dir)
    }

    fn content(&self, path: &str) -> Option<Vec<u8>> {
        self.content_at(path.as_bytes())
    }

    fn content_at(&self, path: &[u8]) -> Option<Vec<u8>> {
        match self.nodes.get(path) {
            Some(MemNode::File { content, .. }) => Some(content.clone()),
            _ => None,
        }
    }

    fn mode(&self, path: &str) -> Option<u32> {
        match self.nodes.get(path.as_bytes()) {
            Some(MemNode::File { mode, .. }) => Some(*mode),
            _ => None,
        }
    }

    fn write(&mut self, path: &str, content: &[u8]) {
        self.write_at(path.as_bytes(), content, 0o100644);
    }

    /// A regular file, whose mode word holds the file type above the
    /// permission bits.
    fn write_at(&mut self, path: &[u8], content: &[u8], mode: u32) {
        self.nodes.insert(path.to_vec(), MemNode::File { content: content.to_vec(), mode });
    }

    fn mkdir(&mut self, path: &str) {
        self.nodes.insert(bytes(path), MemNode::Dir);
    }

    fn link(&mut self, path: &str, target: &str) {
        self.nodes.insert(bytes(path), MemNode::Link { target: target.to_string() });
    }

    fn below_at(&self, path: &[u8]) -> Vec<Vec<u8>> {
        let mut prefix = path.to_vec();
        if !prefix.ends_with(b"/") {
            prefix.push(b'/');
        }
        self.nodes.keys().filter(|k| k.starts_with(&prefix)).cloned().collect()
    }

    fn below(&self, path: &str) -> Vec<String> {
        self.below_at(path.as_bytes())
            .iter()
            .map(|k| String::from_utf8_lossy(k).into_owned())
            .collect()
    }

    fn create_dir_all(&mut self, path: &[u8]) -> HostReply {
        let mut missing = Vec::new();
        let mut at = path.to_vec();
        loop {
            match self.nodes.get(&at) {
                Some(MemNode::Dir) => break,
                Some(_) => {
                    return HostReply::Failed(FsError::IoError("Not a directory".to_string()))
                }
                None => {
                    missing.push(at.clone());
                    let up = parent_of(&at);
                    if up.is_empty() || up == at {
                        break;
                    }
                    at = up;
                }
            }
        }
        for dir in missing {
            self.nodes.insert(dir, MemNode::Dir);
        }
        HostReply::Done
    }

    fn perform(&mut self, call: HostCall) -> HostReply {
        self.calls.push(call.duplicate());
        match call {
            HostCall::CreateDirAll { path } => self.create_dir_all(&path),
            HostCall::CreateFile { path } => {
                if !self.is_dir_at(&parent_of(&path)) {
                    return not_found();
                }
                if self.is_dir_at(&path) {
                    return HostReply::Failed(FsError::IoError("Is a directory".to_string()));
                }
                self.write_at(&path, b"", 0o100644);
                HostReply::Done
            }
            HostCall::QueryIsDir { path } => HostReply::IsDir(self.is_dir_at(&path)),
            HostCall::RemoveDirAll { path } => {
                if !self.is_dir_at(&path) {
                    return not_found();
                }
                for k in self.below_at(&path) {
                    self.nodes.remove(&k);
                }
                self.nodes.remove(&path);
                HostReply::Done
            }
            HostCall::RemoveFile { path } => match self.nodes.get(&path) {
                None => not_found(),
                Some(MemNode::Dir) => {
                    HostReply::Failed(FsError::IoError("Is a directory".to_string()))
                }
                Some(_) => {
                    self.nodes.remove(&path);
                    HostReply::Done
                }
            },
            HostCall::Rename { from, to } => {
                let node = match self.nodes.remove(&from) {
                    Some(node) => node,
                    None => return not_found(),
                };
                if to.starts_with(b"/mnt/other/") {
                    self.nodes.insert(from, node);
                    return HostReply::Failed(FsError::CrossVolume(
                        "Invalid cross-device link".to_string(),
                    ));
                }
                for k in self.below_at(&from) {
                    let moved = self.nodes.remove(&k).unwrap();
                    let mut target = to.clone();
                    target.extend_from_slice(&k[from.len()..]);
                    self.nodes.insert(target, moved);
                }
                self.nodes.insert(to, node);
                HostReply::Done
            }
            HostCall::CopyFile { from, to } => match self.nodes.get(&from) {
                Some(MemNode::File { content, mode }) => {
                    if contains(&to, b"unwritable") {
                        return HostReply::Failed(FsError::PermissionDenied(
                            "Permission denied".to_string(),
                        ));
                    }
                    let copy = MemNode::File { content: content.clone(), mode: *mode };
                    self.nodes.insert(to, copy);
                    HostReply::Done
                }
                Some(_) => HostReply::Failed(FsError::IoError("Not a regular file".to_string())),
                None => not_found(),
            },
            HostCall::OpenDir { path } => {
                if !self.is_dir_at(&path) {
                    return not_found();
                }
                let mut entries = Vec::new();
                for k in self.below_at(&path) {
                    if parent_of(&k) == path {
                        let kind = match self.nodes[&k] {
                            MemNode::Dir => EntryKind::Directory,
                            MemNode::File { .. } => EntryKind::File,
                            MemNode::Link { .. } => EntryKind::Other,
                        };
                        entries.push((k[path.len() + 1..].to_vec(), kind));
                    }
                }
                entries.reverse();
                self.open.push(entries);
                HostReply::Done
            }
            HostCall::NextEntry => {
                let next = self.open.last_mut().unwrap().pop();
                match next {
                    Some((name, kind)) => HostReply::Entry { name, kind },
                    None => {
                        self.open.pop();
                        HostReply::EndOfDir
                    }
                }
            }
            HostCall::SetMode { path, mode } => match self.nodes.get_mut(&path) {
                Some(MemNode::File { mode: held, .. }) => {
                    *held = (*held & !0o7777) | (mode & 0o7777);
                    HostReply::Done
                }
                Some(_) => HostReply::Done,
                None => not_found(),
            },
            HostCall::SetReadonly { path, readonly } => match self.nodes.get_mut(&path) {
                Some(MemNode::File { mode: held, .. }) => {
                    *held = (*held & !0o7777) | if readonly { 0o444 } else { 0o666 };
                    HostReply::Done
                }
                Some(_) => HostReply::Done,
                None => not_found(),
            },
        }
    }

    /// Runs the operation to its end against this host.
    fn run(&mut self, op: Operation) -> Operation {
        let mut op = op;
        loop {
            match op.pending() {
                Some(call) => {
                    let reply = self.perform(call);
                    op = op.advance(reply);
                }
                None => return op,
            }
        }
    }

    fn outcome(&mut self, op: Operation) -> FsResult<String> {
        self.run(op).outcome().unwrap()
    }

    fn result(&mut self, op: Operation) -> OperationResult {
        self.run(op).result().unwrap()
    }
}

#[test]
fn test_create_folder() {
    let mut fs = MemFs::new();
    let test_path = "/tmp/test_rust_ffi_folder";
    let result = fs.outcome(create_folder(test_path));
    assert!(result.is_ok());
    assert!(fs.holds(test_path));
}

#[test]
fn test_create_file() {
    let mut fs = MemFs::new();
    let test_path = "/tmp/test_rust_ffi_file.txt";
    let result = fs.outcome(create_file(test_path));
    assert!(result.is_ok());
    assert!(fs.holds(test_path));
}

#[test]
fn test_delete_file() {
    let mut fs = MemFs::new();
    let test_path = "/tmp/test_delete_file.txt";
    fs.write(test_path, b"");
    let result = fs.outcome(delete_path(test_path));
    assert!(result.is_ok());
    assert!(!fs.holds(test_path));
}

#[test]
fn test_delete_directory() {
    let mut fs = MemFs::new();
    let test_path = "/tmp/test_delete_dir";
    fs.mkdir(test_path);
    let result = fs.outcome(delete_path(test_path));
    assert!(result.is_ok());
    assert!(!fs.holds(test_path));
}

#[test]
fn test_copy_file() {
    let mut fs = MemFs::new();
    let src = "/tmp/test_copy_src.txt";
    let dst = "/tmp/test_copy_dst.txt";
    fs.write(src, b"test content");
    let result = fs.outcome(copy_path(src, dst));
    assert!(result.is_ok());
    assert!(fs.holds(src));
    assert!(fs.holds(dst));
    assert_eq!(fs.content(dst), Some(b"test content".to_vec()));
}

#[test]
fn test_move_file() {
    let mut fs = MemFs::new();
    let src = "/tmp/test_move_src.txt";
    let dst = "/tmp/test_move_dst.txt";
    fs.write(src, b"");
    let result = fs.outcome(move_path(src, dst));
    assert!(result.is_ok());
    assert!(!fs.holds(src));
    assert!(fs.holds(dst));
}

#[test]
fn test_rename_file() {
    let mut fs = MemFs::new();
    let old_path = "/tmp/test_rename_old.txt";
    let new_path = "/tmp/test_rename_new.txt";
    fs.write(old_path, b"");
    let result = fs.outcome(rename_path(old_path, new_path));
    assert!(result.is_ok());
    assert!(!fs.holds(old_path));
    assert!(fs.holds(new_path));
}

#[test]
fn test_change_permissions() {
    let mut fs = MemFs::new();
    let test_path = "/tmp/test_permissions.txt";
    fs.write(test_path, b"");
    let result = fs.outcome(change_permissions(test_path, 0o644, Platform::Unix));
    assert!(result.is_ok());
    assert_eq!(fs.mode(test_path).unwrap() & 0o777, 0o644);
}

#[test]
fn test_create_and_delete_folder() {
    let mut fs = MemFs::new();
    let path: &[u8] = b"/tmp/test_folder";
    let result = fs.result(ffi::create_folder(Some(path)));
    assert_eq!(result.success_code(), 1);
    free_result(result);

    let result = fs.result(ffi::delete_path(Some(path)));
    assert_eq!(result.success_code(), 1);
    free_result(result);
}

#[test]
fn test_unix_permissions() {
    let mut fs = MemFs::new();
    let test_file = "/tmp/test_perms.txt";
    fs.write(test_file, b"");
    // The host keeps the file type above the permission bits.
    fs.write_at(test_file.as_bytes(), b"", 0o100600);
    assert!(fs.outcome(change_permissions(test_file, 0o644, Platform::Unix)).is_ok());
    let reading = PermissionReading::Mode(fs.mode(test_file).unwrap());
    let mode = get_permissions(Ok(reading)).unwrap();
    assert_eq!(mode & 0o777, 0o644);
    assert_eq!(mode, 0o644);
}

#[test]
fn messages_name_the_operation_and_its_paths() {
    let mut fs = MemFs::new();
    fs.write("/tmp/a.txt", b"x");
    assert_eq!(fs.outcome(create_folder("/tmp/d")), Ok("Folder created: /tmp/d".to_string()));
    assert_eq!(fs.outcome(create_file("/tmp/f")), Ok("File created: /tmp/f".to_string()));
    assert_eq!(
        fs.outcome(copy_path("/tmp/a.txt", "/tmp/b.txt")),
        Ok("Copied: /tmp/a.txt -> /tmp/b.txt".to_string())
    );
    assert_eq!(
        fs.outcome(rename_path("/tmp/b.txt", "/tmp/c.txt")),
        Ok("Renamed: /tmp/b.txt -> /tmp/c.txt".to_string())
    );
    assert_eq!(
        fs.outcome(move_path("/tmp/c.txt", "/tmp/d/c.txt")),
        Ok("Moved: /tmp/c.txt -> /tmp/d/c.txt".to_string())
    );
    assert_eq!(
        fs.outcome(change_permissions("/tmp/a.txt", 0o755, Platform::Unix)),
        Ok("Permissions changed: /tmp/a.txt (0755)".to_string())
    );
    assert_eq!(fs.outcome(delete_path("/tmp/a.txt")), Ok("Deleted: /tmp/a.txt".to_string()));
}

#[test]
fn create_folder_twice_succeeds_and_keeps_contents() {
    let mut fs = MemFs::new();
    assert!(fs.outcome(create_folder("/tmp/twice")).is_ok());
    fs.write("/tmp/twice/kept.txt", b"kept");
    assert!(fs.outcome(create_folder("/tmp/twice")).is_ok());
    assert_eq!(fs.content("/tmp/twice/kept.txt"), Some(b"kept".to_vec()));
    assert_eq!(
        fs.calls,
        vec![
            HostCall::CreateDirAll { path: bytes("/tmp/twice") },
            HostCall::CreateDirAll { path: bytes("/tmp/twice") },
        ]
    );
}

#[test]
fn create_file_twice_truncates() {
    let mut fs = MemFs::new();
    assert!(fs.outcome(create_file("/tmp/again.txt")).is_ok());
    fs.write("/tmp/again.txt", b"some bytes");
    assert!(fs.outcome(create_file("/tmp/again.txt")).is_ok());
    assert_eq!(fs.content("/tmp/again.txt"), Some(Vec::new()));
}

#[test]
fn delete_removes_a_directory_with_all_below_it() {
    let mut fs = MemFs::new();
    fs.mkdir("/tmp/full");
    fs.write("/tmp/full/a.txt", b"a");
    fs.mkdir("/tmp/full/sub");
    fs.write("/tmp/full/sub/b.txt", b"b");
    fs.link("/tmp/full/link", "/tmp/full/a.txt");
    assert!(fs.outcome(delete_path("/tmp/full")).is_ok());
    assert!(!fs.holds("/tmp/full"));
    assert!(fs.below("/tmp/full").is_empty());
    assert_eq!(
        fs.calls,
        vec![
            HostCall::QueryIsDir { path: bytes("/tmp/full") },
            HostCall::RemoveDirAll { path: bytes("/tmp/full") },
        ]
    );
}

#[test]
fn delete_of_a_file_removes_the_single_file() {
    let mut fs = MemFs::new();
    fs.write("/tmp/one.txt", b"1");
    fs.write("/tmp/two.txt", b"2");
    assert!(fs.outcome(delete_path("/tmp/one.txt")).is_ok());
    assert!(fs.holds("/tmp/two.txt"));
    assert_eq!(
        fs.calls,
        vec![
            HostCall::QueryIsDir { path: bytes("/tmp/one.txt") },
            HostCall::RemoveFile { path: bytes("/tmp/one.txt") },
        ]
    );
}

#[test]
fn delete_of_a_missing_path_fails() {
    let mut fs = MemFs::new();
    assert_eq!(
        fs.outcome(delete_path("/tmp/missing")),
        Err(FsError::NotFound("No such file or directory".to_string()))
    );
}

#[test]
fn move_keeps_the_contents() {
    let mut fs = MemFs::new();
    fs.write("/tmp/from.txt", b"payload");
    assert!(fs.outcome(move_path("/tmp/from.txt", "/tmp/to.txt")).is_ok());
    assert!(!fs.holds("/tmp/from.txt"));
    assert_eq!(fs.content("/tmp/to.txt"), Some(b"payload".to_vec()));
    assert_eq!(
        fs.calls,
        vec![HostCall::Rename { from: bytes("/tmp/from.txt"), to: bytes("/tmp/to.txt") }]
    );
}

#[test]
fn rename_across_volumes_surfaces_the_host_error() {
    let mut fs = MemFs::new();
    fs.write("/tmp/here.txt", b"x");
    let op = fs.run(rename_path("/tmp/here.txt", "/mnt/other/there.txt"));
    assert_eq!(
        op.outcome(),
        Some(Err(FsError::CrossVolume("Invalid cross-device link".to_string())))
    );
    // No copy and delete is tried in place of the rename.
    assert_eq!(fs.calls.len(), 1);
    assert!(fs.holds("/tmp/here.txt"));
}

#[test]
fn create_nested_folders() {
    let mut fs = MemFs::new();
    fs.mkdir("/tmp/a");
    let result = fs.result(ffi::create_folder(Some(b"/tmp/a/b/c")));
    assert_eq!(result.success_code(), 1);
    assert!(result.message().contains("/tmp/a/b/c"));
    assert!(fs.is_dir("/tmp/a"));
    assert!(fs.is_dir("/tmp/a/b"));
    assert!(fs.is_dir("/tmp/a/b/c"));
}

#[test]
fn copy_mirrors_a_tree_without_its_links() {
    let mut fs = MemFs::new();
    fs.mkdir("/tmp/src_dir");
    fs.write("/tmp/src_dir/file1.txt", b"one");
    fs.mkdir("/tmp/src_dir/sub");
    fs.write("/tmp/src_dir/sub/file2.txt", b"two");
    fs.link("/tmp/src_dir/link", "/tmp/src_dir/file1.txt");
    let result = fs.result(ffi::copy_path(Some(b"/tmp/src_dir"), Some(b"/tmp/dst_dir")));
    assert_eq!(result.success_code(), 1);
    assert_eq!(result.message(), "Copied: /tmp/src_dir -> /tmp/dst_dir");
    assert_eq!(fs.content("/tmp/dst_dir/file1.txt"), Some(b"one".to_vec()));
    assert_eq!(fs.content("/tmp/dst_dir/sub/file2.txt"), Some(b"two".to_vec()));
    assert!(fs.is_dir("/tmp/dst_dir/sub"));
    assert!(!fs.holds("/tmp/dst_dir/link"));
    assert_eq!(
        fs.below("/tmp/dst_dir"),
        vec![
            "/tmp/dst_dir/file1.txt".to_string(),
            "/tmp/dst_dir/sub".to_string(),
            "/tmp/dst_dir/sub/file2.txt".to_string(),
        ]
    );
    // The source is left as it was.
    assert_eq!(fs.content("/tmp/src_dir/file1.txt"), Some(b"one".to_vec()));
    assert!(fs.holds("/tmp/src_dir/link"));
}

#[test]
fn copy_asks_for_the_calls_in_order() {
    let mut fs = MemFs::new();
    fs.mkdir("/tmp/s");
    fs.write("/tmp/s/a.txt", b"a");
    fs.link("/tmp/s/l", "/tmp/s/a.txt");
    fs.mkdir("/tmp/s/z");
    fs.write("/tmp/s/z/b.txt", b"b");
    assert!(fs.outcome(copy_path("/tmp/s", "/tmp/d")).is_ok());
    assert_eq!(
        fs.calls,
        vec![
            HostCall::QueryIsDir { path: bytes("/tmp/s") },
            HostCall::CreateDirAll { path: bytes("/tmp/d") },
            HostCall::OpenDir { path: bytes("/tmp/s") },
            HostCall::NextEntry,
            HostCall::CopyFile { from: bytes("/tmp/s/a.txt"), to: bytes("/tmp/d/a.txt") },
            HostCall::NextEntry,
            HostCall::NextEntry,
            HostCall::CreateDirAll { path: bytes("/tmp/d/z") },
            HostCall::OpenDir { path: bytes("/tmp/s/z") },
            HostCall::NextEntry,
            HostCall::CopyFile {
                from: bytes("/tmp/s/z/b.txt"),
                to: bytes("/tmp/d/z/b.txt")
            },
            HostCall::NextEntry,
            HostCall::NextEntry,
        ]
    );
}

#[test]
fn copy_of_an_empty_directory() {
    let mut fs = MemFs::new();
    fs.mkdir("/tmp/empty");
    assert!(fs.outcome(copy_path("/tmp/empty", "/tmp/x/y/empty")).is_ok());
    assert!(fs.is_dir("/tmp/x/y/empty"));
    assert!(fs.below("/tmp/x/y/empty").is_empty());
}

#[test]
fn copy_of_a_deep_tree() {
    let mut fs = MemFs::new();
    let mut dir = "/tmp/deep".to_string();
    fs.mkdir(&dir);
    for level in 0..6 {
        fs.write(&format!("{}/f{}.txt", dir, level), format!("{}", level).as_bytes());
        dir = format!("{}/d{}", dir, level);
        fs.mkdir(&dir);
    }
    assert!(fs.outcome(copy_path("/tmp/deep", "/tmp/copy")).is_ok());
    let source: Vec<String> =
        fs.below("/tmp/deep").iter().map(|k| k["/tmp/deep".len()..].to_string()).collect();
    let mirror: Vec<String> =
        fs.below("/tmp/copy").iter().map(|k| k["/tmp/copy".len()..].to_string()).collect();
    assert_eq!(source, mirror);
    assert_eq!(source.len(), 12);
    assert_eq!(fs.content("/tmp/copy/d0/d1/d2/f3.txt"), Some(b"3".to_vec()));
    assert!(fs.open.is_empty());
}

#[test]
fn copy_stops_at_the_first_failure_and_leaves_what_was_copied() {
    let mut fs = MemFs::new();
    fs.mkdir("/tmp/part");
    fs.write("/tmp/part/a.txt", b"a");
    fs.write("/tmp/part/b_unwritable.txt", b"b");
    fs.write("/tmp/part/c.txt", b"c");
    let op = fs.run(copy_path("/tmp/part", "/tmp/out"));
    assert_eq!(
        op.outcome(),
        Some(Err(FsError::PermissionDenied("Permission denied".to_string())))
    );
    let result = op.result().unwrap();
    assert_eq!(result.success_code(), 0);
    assert_eq!(result.message(), "Operation failed: Permission denied");
    // What was copied before the failure stays; nothing after it is tried.
    assert_eq!(fs.content("/tmp/out/a.txt"), Some(b"a".to_vec()));
    assert!(!fs.holds("/tmp/out/b_unwritable.txt"));
    assert!(!fs.holds("/tmp/out/c.txt"));
    assert_eq!(
        fs.calls.last(),
        Some(&HostCall::CopyFile {
            from: bytes("/tmp/part/b_unwritable.txt"),
            to: bytes("/tmp/out/b_unwritable.txt")
        })
    );
}

#[test]
fn copy_of_a_missing_source_fails() {
    let mut fs = MemFs::new();
    assert_eq!(
        fs.outcome(copy_path("/tmp/none", "/tmp/other")),
        Err(FsError::NotFound("No such file or directory".to_string()))
    );
    assert!(!fs.holds("/tmp/other"));
}

#[test]
fn set_permissions_then_read_back() {
    let mut fs = MemFs::new();
    fs.write_at(b"/tmp/f.txt", b"", 0o100600);
    let result = fs.result(ffi::change_permissions(Some(b"/tmp/f.txt"), 0o644, Platform::Unix));
    assert_eq!(result.success_code(), 1);
    // The host holds the file type above the permission bits.
    assert_eq!(fs.mode("/tmp/f.txt"), Some(0o100644));
    let mode = get_permissions(Ok(PermissionReading::Mode(fs.mode("/tmp/f.txt").unwrap())));
    assert_eq!(mode, Ok(0o644));
}

#[test]
fn set_permissions_where_only_read_only_is_known() {
    for platform in [Platform::Windows, Platform::Other] {
        let mut fs = MemFs::new();
        fs.write("/tmp/f.txt", b"");
        assert!(fs.outcome(change_permissions("/tmp/f.txt", 0o555, platform)).is_ok());
        let readonly = fs.mode("/tmp/f.txt").unwrap() & 0o200 == 0;
        assert_eq!(get_permissions(Ok(PermissionReading::ReadOnly(readonly))), Ok(0o444));
        assert!(fs.outcome(change_permissions("/tmp/f.txt", 0o755, platform)).is_ok());
        let readonly = fs.mode("/tmp/f.txt").unwrap() & 0o200 == 0;
        assert_eq!(get_permissions(Ok(PermissionReading::ReadOnly(readonly))), Ok(0o666));
    }
}

#[test]
fn set_permissions_never_creates_the_path() {
    let mut fs = MemFs::new();
    assert_eq!(
        fs.outcome(change_permissions("/tmp/absent", 0o600, Platform::Unix)),
        Err(FsError::NotFound("No such file or directory".to_string()))
    );
    assert!(!fs.holds("/tmp/absent"));
}

#[test]
fn unexpected_reply_ends_the_operation() {
    let op = create_folder("/tmp/x").advance(HostReply::EndOfDir);
    assert_eq!(
        op.outcome(),
        Some(Err(FsError::IoError("unexpected reply from the host".to_string())))
    );
    let op = delete_path("/tmp/x").advance(HostReply::Done);
    assert_eq!(
        op.outcome(),
        Some(Err(FsError::IoError("unexpected reply from the host".to_string())))
    );
    let op = copy_path("/tmp/x", "/tmp/y")
        .advance(HostReply::IsDir(true))
        .advance(HostReply::IsDir(true));
    assert!(op.is_finished());
    assert_eq!(op.pending(), None);
}

#[test]
fn finished_operation_stays_finished() {
    let op = create_file("/tmp/x").advance(HostReply::Done);
    assert_eq!(op.outcome(), Some(Ok("File created: /tmp/x".to_string())));
    let op = op
        .advance(HostReply::Failed(FsError::IoError("late".to_string())))
        .advance(HostReply::EndOfDir);
    assert_eq!(op.outcome(), Some(Ok("File created: /tmp/x".to_string())));
    assert_eq!(op.pending(), None);
}

#[test]
fn unfinished_operation_has_no_outcome() {
    let op = copy_path("/tmp/x", "/tmp/y");
    assert!(!op.is_finished());
    assert_eq!(op.outcome(), None);
    assert_eq!(op.result(), None);
    let op = op.advance(HostReply::IsDir(true));
    assert_eq!(op.outcome(), None);
    assert_eq!(op.pending(), Some(HostCall::CreateDirAll { path: bytes("/tmp/y") }));
}

#[test]
fn operations_built_from_parts() {
    let op = Operation::single(HostCall::NextEntry, "done".to_string());
    assert_eq!(op.pending(), Some(HostCall::NextEntry));
    assert_eq!(op.advance(HostReply::Done).outcome(), Some(Ok("done".to_string())));

    let op = Operation::probe(Purpose::Delete, bytes("a"), bytes("b"), "m".to_string());
    assert_eq!(op.pending(), Some(HostCall::QueryIsDir { path: bytes("a") }));
    let op = op.advance(HostReply::IsDir(true));
    assert_eq!(op.pending(), Some(HostCall::RemoveDirAll { path: bytes("a") }));

    let op = Operation::finished(Err(FsError::UnsupportedPlatform));
    assert!(op.is_finished());
    assert_eq!(
        op.result().unwrap().message(),
        "Permission flags are only supported on Unix systems"
    );
}

#[test]
fn paths_are_passed_on_unchanged() {
    let op = create_folder("relative/../dir/./x/");
    assert_eq!(op.pending(), Some(HostCall::CreateDirAll { path: bytes("relative/../dir/./x/") }));
    let op = rename_path("", "b");
    assert_eq!(op.pending(), Some(HostCall::Rename { from: Vec::new(), to: bytes("b") }));
}

#[test]
fn copy_carries_on_over_names_that_are_no_text() {
    let mut fs = MemFs::new();
    fs.mkdir("/tmp/raw");
    // A file and a directory whose names are not valid UTF-8.
    fs.write_at(b"/tmp/raw/\xff\xfe.bin", b"bytes", 0o100644);
    fs.nodes.insert(b"/tmp/raw/d\x80".to_vec(), MemNode::Dir);
    fs.write_at(b"/tmp/raw/d\x80/in\xc3side", b"deep", 0o100600);
    fs.write("/tmp/raw/plain.txt", b"plain");
    let result = fs.result(ffi::copy_path(Some(b"/tmp/raw"), Some(b"/tmp/cooked")));
    assert_eq!(result.success_code(), 1);
    assert_eq!(result.message(), "Copied: /tmp/raw -> /tmp/cooked");
    assert_eq!(fs.content_at(b"/tmp/cooked/\xff\xfe.bin"), Some(b"bytes".to_vec()));
    assert!(fs.is_dir_at(b"/tmp/cooked/d\x80"));
    assert_eq!(fs.content_at(b"/tmp/cooked/d\x80/in\xc3side"), Some(b"deep".to_vec()));
    assert_eq!(fs.content("/tmp/cooked/plain.txt"), Some(b"plain".to_vec()));
    assert_eq!(fs.below_at(b"/tmp/cooked").len(), 4);
}

#[test]
fn entry_names_reach_the_host_byte_for_byte() {
    let op = copy_path("/tmp/s", "/tmp/d")
        .advance(HostReply::IsDir(true))
        .advance(HostReply::Done)
        .advance(HostReply::Done)
        .advance(HostReply::Entry { name: vec![0xff, b'a'], kind: EntryKind::File });
    assert_eq!(
        op.pending(),
        Some(HostCall::CopyFile {
            from: b"/tmp/s/\xffa".to_vec(),
            to: b"/tmp/d/\xffa".to_vec()
        })
    );
}
