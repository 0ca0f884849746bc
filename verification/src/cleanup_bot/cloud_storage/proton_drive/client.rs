//! Uploads to Proton Drive through its command-line client, `proton-drive`.
//!
//! Running the client is the caller's part; here stand the remote folders,
//! the folders to create on the way, the command lines and the reading of a
//! folder listing.

use vstd::prelude::*;

use crate::cleanup_bot::cloud_storage::{
    build_relative_remote_path, dated_path, folder_date, remote_file_name, CloudStorageError,
};
use crate::text::{
    before_last, joined, join_with, segments, split_segments, str_eq, trim_char,
    trim_matches_char,
};

verus! {

/// Proton Drive's fixed top-level section for user files. All destination
/// paths live under it, and it is not configurable: the configured upload
/// folder stays backend-independent, so this prefix is applied here.
pub open spec fn drive_root() -> Seq<char> {
    "/my-files"@
}

/// A Proton Drive backend uploading under `upload_folder`.
pub struct ProtonDriveClient {
    pub upload_folder: String,
}

/// An entry of a folder listing (`filesystem list -j`).
pub struct ListedNode {
    pub node_type: Option<String>,
    pub name: Option<String>,
}

/// The remote folder of a file whose relative path is `relative`: the drive
/// root, the upload folder without surrounding slashes, then the date
/// folders.
pub open spec fn remote_folder_of(upload_folder: Seq<char>, relative: Seq<char>) -> Seq<char> {
    drive_root() + "/"@ + trim_char(upload_folder, '/') + "/"@ + before_last(relative, '/')
}

/// The path of the first `k` segments: `/s0/s1/.../s(k-1)`.
pub open spec fn segments_path(segs: Seq<Seq<char>>, k: int) -> Seq<char>
    decreases k,
{
    if k <= 0 {
        Seq::empty()
    } else {
        segments_path(segs, k - 1) + "/"@ + segs[k - 1]
    }
}

/// The folders to make sure of, as `(parent, name)`, for the remote folder
/// `folder`: every segment after the first, under the segments before it.
/// The first segment (`my-files`) is the fixed top-level section, assumed to
/// exist rather than something that can be created.
pub open spec fn folder_steps_of(steps: Seq<(String, String)>, folder: Seq<char>) -> bool {
    let segs = segments(folder, '/');
    &&& steps.len() == if segs.len() == 0 {
        0
    } else {
        segs.len() - 1
    }
    &&& forall|k: int|
        0 <= k < steps.len() ==> #[trigger] steps[k].0@ == segments_path(segs, k + 1)
            && steps[k].1@ == segs[k + 1]
}

/// The `filesystem` command line of the client: its arguments.
pub open spec fn args_view(args: Seq<String>) -> Seq<Seq<char>> {
    Seq::new(args.len(), |k: int| args[k]@)
}

proof fn lemma_dated_path_has_slash(name: Seq<char>, date: (i32, u32, u32))
    ensures
        dated_path(name, date).contains('/'),
{
    reveal_strlit("/");
    let s = dated_path(name, date);
    let a = crate::text::signed_zero_padded(date.0 as int, 4);
    assert(s[a.len() as int] == '/');
}

/// The text of `s` up to its last `c`, for a text that has one.
fn before_last_char(s: &str, c: char) -> (t: String)
    requires
        s@.contains(c),
    ensures
        t@ == before_last(s@, c),
{
    let n = s.unicode_len();
    let mut hi: usize = n;
    assert(s@.subrange(0, n as int) =~= s@);
    while hi > 0 && s.get_char(hi - 1) != c
        invariant
            hi <= n == s@.len(),
            before_last(s@, c) == before_last(s@.subrange(0, hi as int), c),
            s@.subrange(0, hi as int).contains(c),
        decreases hi,
    {
        let ghost sub = s@.subrange(0, hi as int);
        assert(sub.drop_last() =~= s@.subrange(0, hi - 1));
        let ghost k = choose|k: int| 0 <= k < sub.len() && sub[k] == c;
        assert(s@.subrange(0, hi - 1)[k] == c);
        hi = hi - 1;
    }
    assert(s@.subrange(0, hi as int).drop_last() =~= s@.subrange(0, hi - 1));
    String::from_str(s.substring_char(0, hi - 1))
}

fn strings(parts: &[&str]) -> (r: Vec<String>)
    ensures
        r@.len() == parts@.len(),
        forall|k: int| 0 <= k < r@.len() ==> #[trigger] r@[k]@ == parts@[k]@,
{
    let mut r: Vec<String> = Vec::new();
    let mut i: usize = 0;
    while i < parts.len()
        invariant
            i <= parts@.len(),
            r@.len() == i,
            forall|k: int| 0 <= k < i ==> #[trigger] r@[k]@ == parts@[k]@,
        decreases parts@.len() - i,
    {
        r.push(String::from_str(parts[i]));
        i = i + 1;
    }
    r
}

impl ProtonDriveClient {
    /// A backend uploading under `upload_folder`.
    pub fn new(upload_folder: String) -> (r: Self)
        ensures
            r.upload_folder == upload_folder,
    {
        Self { upload_folder }
    }

    /// The remote folder that the local file `local_path` goes to.
    pub fn remote_folder(&self, local_path: &str) -> (s: String)
        ensures
            match folder_date(local_path@) {
                Some(d) => s@ == remote_folder_of(
                    self.upload_folder@,
                    dated_path(remote_file_name(local_path@), d),
                ),
                None => exists|d: (i32, u32, u32)|
                    s@ == remote_folder_of(
                        self.upload_folder@,
                        #[trigger] dated_path(remote_file_name(local_path@), d),
                    ),
            },
    {
        let relative = build_relative_remote_path(local_path);
        proof {
            match folder_date(local_path@) {
                Some(d) => lemma_dated_path_has_slash(remote_file_name(local_path@), d),
                None => {
                    let d = choose|d: (i32, u32, u32)|
                        #[trigger] dated_path(remote_file_name(local_path@), d) == relative@;
                    lemma_dated_path_has_slash(remote_file_name(local_path@), d);
                },
            }
        }
        let date_folder = before_last_char(relative.as_str(), '/');
        let mut s = String::from_str("/my-files");
        s.append("/");
        s.append(trim_matches_char(self.upload_folder.as_str(), '/'));
        s.append("/");
        s.append(date_folder.as_str());
        s
    }
}

/// The folders to make sure of before uploading into `remote_folder`, in
/// order, as `(parent, name)`.
pub fn folder_steps(remote_folder: &str) -> (steps: Vec<(String, String)>)
    ensures
        folder_steps_of(steps@, remote_folder@),
{
    let segs = split_segments(remote_folder, '/');
    let ghost sv = segments(remote_folder@, '/');
    let mut steps: Vec<(String, String)> = Vec::new();
    if segs.len() == 0 {
        return steps;
    }
    let mut current = String::from_str("/");
    current.append(segs[0].as_str());
    assert(segments_path(sv, 0) =~= Seq::<char>::empty());
    assert(current@ =~= segments_path(sv, 1));
    let mut k: usize = 1;
    while k < segs.len()
        invariant
            1 <= k <= segs@.len() == sv.len(),
            forall|m: int| 0 <= m < segs@.len() ==> #[trigger] segs@[m]@ == sv[m],
            current@ == segments_path(sv, k as int),
            steps@.len() == k - 1,
            forall|m: int|
                0 <= m < steps@.len() ==> #[trigger] steps@[m].0@ == segments_path(sv, m + 1)
                    && steps@[m].1@ == sv[m + 1],
        decreases segs@.len() - k,
    {
        steps.push((current.clone(), segs[k].clone()));
        current.append("/");
        current.append(segs[k].as_str());
        k = k + 1;
    }
    steps
}

/// Whether `node` is a folder named `name`.
pub open spec fn is_folder_named(node: ListedNode, name: Seq<char>) -> bool {
    &&& node.node_type matches Some(t)
    &&& t@ == "folder"@
    &&& node.name matches Some(n)
    &&& n@ == name
}

/// Whether a folder listing holds a folder named `name`.
pub fn listing_has_folder(nodes: &Vec<ListedNode>, name: &str) -> (b: bool)
    ensures
        b == exists|i: int| 0 <= i < nodes@.len() && #[trigger] is_folder_named(nodes@[i], name@),
{
    let mut i: usize = 0;
    while i < nodes.len()
        invariant
            i <= nodes@.len(),
            forall|j: int| 0 <= j < i ==> !#[trigger] is_folder_named(nodes@[j], name@),
        decreases nodes@.len() - i,
    {
        let is_folder = match &nodes[i].node_type {
            Some(t) => str_eq(t.as_str(), "folder"),
            None => false,
        };
        let same_name = match &nodes[i].name {
            Some(n) => str_eq(n.as_str(), name),
            None => false,
        };
        if is_folder && same_name {
            assert(is_folder_named(nodes@[i as int], name@));
            return true;
        }
        i = i + 1;
    }
    false
}

/// The arguments that list the folders under `parent` as JSON.
pub fn list_folders_args(parent: &str) -> (r: Vec<String>)
    ensures
        args_view(r@) == seq!["filesystem"@, "list"@, "-t"@, "folder"@, parent@, "-j"@],
{
    let r = strings(&["filesystem", "list", "-t", "folder", parent, "-j"]);
    assert(args_view(r@) =~= seq!["filesystem"@, "list"@, "-t"@, "folder"@, parent@, "-j"@]);
    r
}

/// The arguments that create folder `name` under `parent`.
pub fn create_folder_args(parent: &str, name: &str) -> (r: Vec<String>)
    ensures
        args_view(r@) == seq!["filesystem"@, "create-folder"@, parent@, name@],
{
    let r = strings(&["filesystem", "create-folder", parent, name]);
    assert(args_view(r@) =~= seq!["filesystem"@, "create-folder"@, parent@, name@]);
    r
}

/// The arguments that upload `local_path` into `remote_folder`, replacing a
/// file of the same name and merging folders.
pub fn upload_args(local_path: &str, remote_folder: &str) -> (r: Vec<String>)
    ensures
        args_view(r@) == seq![
            "filesystem"@,
            "upload"@,
            "-f"@,
            "replace"@,
            "-d"@,
            "merge"@,
            local_path@,
            remote_folder@,
        ],
{
    let r = strings(
        &["filesystem", "upload", "-f", "replace", "-d", "merge", local_path, remote_folder],
    );
    assert(args_view(r@) =~= seq![
        "filesystem"@,
        "upload"@,
        "-f"@,
        "replace"@,
        "-d"@,
        "merge"@,
        local_path@,
        remote_folder@,
    ]);
    r
}

/// The error of a run of the client that failed with `stderr`.
pub fn command_failed_error(args: &Vec<String>, stderr: &str) -> (e: CloudStorageError)
    ensures
        e matches CloudStorageError::Upload(m) && m@ == "`proton-drive "@ + joined(
            args_view(args@),
            " "@,
        ) + "` failed: "@ + stderr@,
{
    let mut m = String::from_str("`proton-drive ");
    let line = join_with(args, " ");
    assert(args_view(args@) =~= Seq::new(args@.len(), |k: int| args@[k]@));
    m.append(line.as_str());
    m.append("` failed: ");
    m.append(stderr);
    CloudStorageError::Upload(m)
}

/// The error of a folder listing that is not valid JSON; `reason` is the
/// parser's message.
pub fn listing_parse_error(reason: &str) -> (e: CloudStorageError)
    ensures
        e matches CloudStorageError::Upload(m) && m@ == "Failed to parse folder listing: "@
            + reason@,
{
    let mut m = String::from_str("Failed to parse folder listing: ");
    m.append(reason);
    CloudStorageError::Upload(m)
}

/// The error of a local path that is not valid UTF-8.
pub fn non_utf8_path_error() -> (e: CloudStorageError)
    ensures
        e matches CloudStorageError::Upload(m) && m@ == "Local path is not valid UTF-8"@,
{
    CloudStorageError::Upload(String::from_str("Local path is not valid UTF-8"))
}

} // verus!
