//! The layout of a temporary project directory for tests: where it lives and
//! which files it holds.

use vstd::prelude::*;

use crate::path::{join, joined};

verus! {

/// A file to be created: where, and with what bytes.
pub struct FileBuilder {
    path: String,
    body: Vec<u8>,
}

impl View for FileBuilder {
    /// The path and the bytes.
    type V = (Seq<char>, Seq<u8>);

    closed spec fn view(&self) -> (Seq<char>, Seq<u8>) {
        (self.path@, self.body@)
    }
}

impl FileBuilder {
    /// A file at `path` holding `body`.
    pub fn new(path: &str, body: Vec<u8>) -> (r: FileBuilder)
        ensures
            r@ == (path@, body@),
    {
        FileBuilder { path: path.to_owned(), body }
    }

    /// Where the file goes.
    pub fn path(&self) -> (r: &str)
        ensures
            r@ == self@.0,
    {
        self.path.as_str()
    }

    /// What the file holds.
    pub fn body(&self) -> (r: &[u8])
        ensures
            r@ == self@.1,
    {
        self.body.as_slice()
    }
}

/// Text of a version-4 UUID in hyphenated lower-case form:
/// `xxxxxxxx-xxxx-xxxx-xxxx-xxxxxxxxxxxx` with lower-case hex digits.
pub open spec fn is_uuid_text(s: Seq<char>) -> bool {
    &&& s.len() == 36
    &&& forall|i: int|
        0 <= i < 36 ==> if i == 8 || i == 13 || i == 18 || i == 23 {
            #[trigger] s[i] == '-'
        } else {
            ('0' <= s[i] && s[i] <= '9') || ('a' <= s[i] && s[i] <= 'f')
        }
}

/// The root of a project named `name` with directory id `id`, under `tests_dir`:
/// `<tests_dir>/test-<id>/<name>`.
pub open spec fn project_root(tests_dir: Seq<char>, id: Seq<char>, name: Seq<char>) -> Seq<char> {
    joined(joined(tests_dir, "test-"@ + id), name)
}

/// Relies on `uuid::Uuid::new_v4` and the `Display` of `Uuid`: a random UUID,
/// written in hyphenated lower-case form.
#[verifier::external_body]
fn new_uuid_text() -> (r: String)
    ensures
        is_uuid_text(r@),
{
    uuid::Uuid::new_v4().to_string()
}

/// A temporary directory of test files: its name, its root, and the files
/// to create under it, in the order they were added.
pub struct ProjectBuilder {
    name: String,
    root: String,
    files: Vec<FileBuilder>,
}

impl View for ProjectBuilder {
    /// The name, the root, and the files as path and bytes.
    type V = (Seq<char>, Seq<char>, Seq<(Seq<char>, Seq<u8>)>);

    closed spec fn view(&self) -> (Seq<char>, Seq<char>, Seq<(Seq<char>, Seq<u8>)>) {
        (self.name@, self.root@, self.files@.map_values(|f: FileBuilder| f@))
    }
}

impl ProjectBuilder {
    /// A project named `name` in a fresh directory `test-<uuid>` under
    /// `tests_dir`, with no files yet.
    pub fn new(name: &str, tests_dir: &str) -> (r: ProjectBuilder)
        ensures
            exists|id: Seq<char>|
                is_uuid_text(id) && r@ == (name@, project_root(tests_dir@, id, name@), Seq::<
                    (Seq<char>, Seq<u8>),
                >::empty()),
    {
        let id = new_uuid_text();
        ProjectBuilder::with_id(name, tests_dir, id.as_str())
    }

    /// A project named `name` in the directory `test-<id>` under `tests_dir`,
    /// with no files yet.
    pub fn with_id(name: &str, tests_dir: &str, id: &str) -> (r: ProjectBuilder)
        ensures
            r@ == (name@, project_root(tests_dir@, id@, name@), Seq::<
                (Seq<char>, Seq<u8>),
            >::empty()),
    {
        let mut dir = String::from_str("test-");
        dir.append(id);
        let parent = join(tests_dir, dir.as_str());
        let root = join(parent.as_str(), name);
        let r = ProjectBuilder { name: name.to_owned(), root, files: Vec::new() };
        assert(r@.2 =~= Seq::<(Seq<char>, Seq<u8>)>::empty());
        r
    }

    /// The root path of the temporary directory.
    pub fn root(&self) -> (r: &str)
        ensures
            r@ == self@.1,
    {
        self.root.as_str()
    }

    /// The files to create, in the order they were added.
    pub fn files(&self) -> (r: &Vec<FileBuilder>)
        ensures
            r@.map_values(|f: FileBuilder| f@) == self@.2,
    {
        &self.files
    }

    /// Adds a file at `path`, taken relative to the root, holding `body`.
    pub fn file(self, path: &str, body: Vec<u8>) -> (r: ProjectBuilder)
        ensures
            r@ == (self@.0, self@.1, self@.2.push((joined(self@.1, path@), body@))),
    {
        let mut s = self;
        let f = FileBuilder::new(join(s.root.as_str(), path).as_str(), body);
        let ghost before = s.files@;
        s.files.push(f);
        assert(s.files@.map_values(|f: FileBuilder| f@) =~= before.map_values(
            |f: FileBuilder| f@,
        ).push(f@));
        s
    }
}

/// Whether two byte sequences are equal.
fn same_bytes(a: &[u8], b: &[u8]) -> (r: bool)
    ensures
        r == (a@ == b@),
{
    if a.len() != b.len() {
        return false;
    }
    let mut i: usize = 0;
    while i < a.len()
        invariant
            a@.len() == b@.len(),
            0 <= i <= a@.len(),
            forall|j: int| 0 <= j < i ==> a@[j] == b@[j],
        decreases a@.len() - i,
    {
        if a[i] != b[i] {
            return false;
        }
        i = i + 1;
    }
    assert(a@ =~= b@);
    true
}

impl PartialEq for FileBuilder {
    fn eq(&self, other: &FileBuilder) -> (r: bool) {
        self.path == other.path && same_bytes(self.body.as_slice(), other.body.as_slice())
    }
}

impl vstd::std_specs::cmp::PartialEqSpecImpl for FileBuilder {
    open spec fn obeys_eq_spec() -> bool {
        true
    }

    open spec fn eq_spec(&self, other: &FileBuilder) -> bool {
        self@ == other@
    }
}

impl PartialEq for ProjectBuilder {
    fn eq(&self, other: &ProjectBuilder) -> (r: bool) {
        if !(self.name == other.name) || !(self.root == other.root) {
            return false;
        }
        if self.files.len() != other.files.len() {
            assert(self@.2.len() != other@.2.len());
            return false;
        }
        let ghost mine = self.files@.map_values(|f: FileBuilder| f@);
        let ghost theirs = other.files@.map_values(|f: FileBuilder| f@);
        let mut i: usize = 0;
        while i < self.files.len()
            invariant
                self.files@.len() == other.files@.len(),
                mine == self.files@.map_values(|f: FileBuilder| f@),
                theirs == other.files@.map_values(|f: FileBuilder| f@),
                0 <= i <= self.files@.len(),
                forall|j: int| 0 <= j < i ==> mine[j] == theirs[j],
            decreases self.files@.len() - i,
        {
            if !self.files[i].eq(&other.files[i]) {
                assert(mine[i as int] != theirs[i as int]);
                return false;
            }
            i = i + 1;
        }
        assert(mine =~= theirs);
        true
    }
}

impl vstd::std_specs::cmp::PartialEqSpecImpl for ProjectBuilder {
    open spec fn obeys_eq_spec() -> bool {
        true
    }

    open spec fn eq_spec(&self, other: &ProjectBuilder) -> bool {
        self@ == other@
    }
}

} // verus!
