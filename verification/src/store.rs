//! Where the files of each workspace live on disk.

use crate::error::{Error, ErrorView};
use crate::identifier::{
    hyphenated, lemma_uuid_text_is_a_valid_name, lemma_uuid_text_is_injective, uuid_text,
};
use crate::models::files::{described, UploadedFile, UploadedFileView};
use crate::path::{
    child_path, file_name_in, is_valid_filename, join, lemma_child_lies_directly_in,
    lemma_child_path_is_injective, lemma_child_path_names_the_file,
    lemma_entries_of_distinct_directories_differ, lies_directly_in, path_is_valid, text_of,
};
use vstd::prelude::*;

verus! {

/// The identifier of a workspace, used verbatim as the name of its
/// directory. Every value is a valid file name.
#[derive(Debug)]
pub struct WorkspaceId {
    name: String,
}

impl View for WorkspaceId {
    type V = Seq<char>;

    closed spec fn view(&self) -> Seq<char> {
        self.name@
    }
}

impl WorkspaceId {
    #[verifier::type_invariant]
    spec fn well_formed(&self) -> bool {
        is_valid_filename(self.name@)
    }

    /// Accepts `name` as an identifier if it can serve as a directory name.
    pub fn new(name: &str) -> (id: Option<WorkspaceId>)
        ensures
            id is Some <==> is_valid_filename(name@),
            id matches Some(id) ==> id@ == name@,
    {
        if path_is_valid(name) {
            Some(WorkspaceId { name: name.to_owned() })
        } else {
            None
        }
    }

    /// The identifier of the conversation whose 128-bit identifier is
    /// `value`: its hyphenated text form.
    pub fn from_uuid(value: u128) -> (id: WorkspaceId)
        ensures
            id@ == uuid_text(value),
    {
        proof {
            lemma_uuid_text_is_a_valid_name(value);
        }
        WorkspaceId { name: hyphenated(value) }
    }

    /// A copy of the identifier.
    pub fn duplicate(&self) -> (copy: WorkspaceId)
        ensures
            copy@ == self@,
    {
        proof {
            use_type_invariant(self);
        }
        WorkspaceId { name: self.name.clone() }
    }

    /// The identifier as text.
    pub fn as_str(&self) -> (name: &str)
        ensures
            name@ == self@,
            is_valid_filename(name@),
    {
        proof {
            use_type_invariant(self);
        }
        self.name.as_str()
    }
}

/// What reading a workspace directory gave.
#[derive(Debug)]
pub enum DirListing {
    /// The directory does not exist.
    Missing,
    /// The names of the direct entries of the directory.
    Entries(Vec<String>),
}

/// A [`DirListing`] with its names as sequences of characters.
pub enum DirListingView {
    Missing,
    Entries(Seq<Seq<char>>),
}

impl View for DirListing {
    type V = DirListingView;

    open spec fn view(&self) -> DirListingView {
        match self {
            DirListing::Missing => DirListingView::Missing,
            DirListing::Entries(names) => DirListingView::Entries(names.deep_view()),
        }
    }
}

/// The views of `files`, in their order.
pub open spec fn file_views(files: Seq<UploadedFile>) -> Seq<UploadedFileView> {
    files.map_values(|file: UploadedFile| file@)
}

/// The names of `files`, in their order.
pub open spec fn names_of(files: Seq<UploadedFileView>) -> Seq<Seq<char>> {
    files.map_values(|file: UploadedFileView| file.file_name)
}

/// The files of the workspace `id` that `listing` shows: none where the
/// directory is missing, else one per entry, in the order of the entries.
pub open spec fn listed_files(id: Seq<char>, listing: DirListingView) -> Seq<UploadedFileView> {
    match listing {
        DirListingView::Missing => Seq::empty(),
        DirListingView::Entries(names) => names.map_values(|name: Seq<char>| described(id, name)),
    }
}

/// The directory tree that holds one directory per workspace.
#[derive(Debug)]
pub struct WorkspaceStore {
    root: String,
}

/// The root directory that is used where the configuration names none.
pub open spec fn default_root() -> Seq<char> {
    "uploads"@
}

impl WorkspaceStore {
    /// The root directory of the store.
    pub closed spec fn root_path(&self) -> Seq<char> {
        self.root@
    }

    /// The directory of the workspace `id`.
    pub open spec fn directory_path(&self, id: Seq<char>) -> Seq<char> {
        child_path(self.root_path(), id)
    }

    /// The path of the file `file_name` of the workspace `id`.
    pub open spec fn file_path(&self, id: Seq<char>, file_name: Seq<char>) -> Seq<char> {
        child_path(self.directory_path(id), file_name)
    }

    /// A store rooted at `root`.
    pub fn new(root: String) -> (store: WorkspaceStore)
        ensures
            store.root_path() == root@,
    {
        WorkspaceStore { root }
    }

    /// A store rooted at the configured directory, or at `uploads` where the
    /// configuration holds no value.
    pub fn from_config(value: Option<String>) -> (store: WorkspaceStore)
        ensures
            store.root_path() == match value {
                Some(root) => root@,
                None => default_root(),
            },
    {
        match value {
            Some(root) => WorkspaceStore { root },
            None => WorkspaceStore { root: "uploads".to_owned() },
        }
    }

    /// The root directory of the store.
    pub fn root(&self) -> (root: &str)
        ensures
            root@ == self.root_path(),
    {
        self.root.as_str()
    }

    /// The directory of the workspace `id`: the one to create before files
    /// are uploaded, to read for a listing, and to watch.
    pub fn directory(&self, id: &WorkspaceId) -> (dir: String)
        ensures
            dir@ == self.directory_path(id@),
    {
        join(self.root.as_str(), id.as_str())
    }

    /// The path of the file `file_name` of the workspace `id`. Fails with
    /// `InvalidArgument` exactly when `file_name` is not a valid file name.
    pub fn resolve_file(&self, id: &WorkspaceId, file_name: &str) -> (resolved: Result<
        String,
        Error,
    >)
        ensures
            resolved is Ok <==> is_valid_filename(file_name@),
            resolved matches Ok(path) ==> path@ == self.file_path(id@, file_name@),
            resolved matches Err(e) ==> e@ == ErrorView::InvalidArgument(
                "Invalid path: "@ + file_name@,
            ),
    {
        if !path_is_valid(file_name) {
            return Err(
                Error::InvalidArgument("Invalid path: ".to_owned().concat(file_name)),
            );
        }
        let dir = self.directory(id);
        Ok(join(dir.as_str(), file_name))
    }

    /// The files of the workspace `id`, given what reading its directory gave:
    /// none, and no error, where the directory does not exist.
    pub fn list(&self, id: &WorkspaceId, listing: &DirListing) -> (files: Vec<UploadedFile>)
        ensures
            file_views(files@) == listed_files(id@, listing@),
    {
        files_of_listing(id, listing)
    }

    /// The directory to delete when the workspace `id` is removed: its
    /// directory where that exists, nothing where it does not.
    pub fn removal(&self, id: &WorkspaceId, exists: bool) -> (target: Option<String>)
        ensures
            text_of(target) == removal_target(self.directory_path(id@), exists),
    {
        if exists {
            Some(self.directory(id))
        } else {
            None
        }
    }
}

/// What is to be deleted when the workspace whose directory is `dir` is
/// removed: `dir` where it exists, nothing where it does not.
pub open spec fn removal_target(dir: Seq<char>, exists: bool) -> Option<Seq<char>> {
    if exists {
        Some(dir)
    } else {
        None
    }
}

/// Describes each entry of `listing` as a file of the workspace `id`.
pub fn files_of_listing(id: &WorkspaceId, listing: &DirListing) -> (files: Vec<UploadedFile>)
    ensures
        file_views(files@) == listed_files(id@, listing@),
{
    let mut files: Vec<UploadedFile> = Vec::new();
    match listing {
        DirListing::Missing => {},
        DirListing::Entries(names) => {
            let mut i: usize = 0;
            while i < names.len()
                invariant
                    i <= names@.len(),
                    files@.len() == i,
                    forall|k: int|
                        0 <= k < i ==> (#[trigger] files@[k])@ == described(id@, names@[k]@),
                decreases names@.len() - i,
            {
                files.push(UploadedFile::describe(id.as_str(), names[i].as_str()));
                i = i + 1;
            }
        },
    }
    assert(file_views(files@) =~= listed_files(id@, listing@));
    files
}

/// The names of `files`, in their order.
pub fn file_names(files: &Vec<UploadedFile>) -> (names: Vec<String>)
    ensures
        names.deep_view() == names_of(file_views(files@)),
{
    let mut names: Vec<String> = Vec::new();
    let mut i: usize = 0;
    while i < files.len()
        invariant
            i <= files@.len(),
            names@.len() == i,
            forall|k: int| 0 <= k < i ==> (#[trigger] names@[k])@ == files@[k]@.file_name,
        decreases files@.len() - i,
    {
        names.push(files[i].file_name.clone());
        i = i + 1;
    }
    assert(names.deep_view() =~= names_of(file_views(files@)));
    names
}

/// Every file of a workspace lies directly in the directory of that
/// workspace, under its own name, and the directory is the entry of the root
/// that carries the identifier: no file operation leaves the directory.
pub proof fn lemma_files_lie_in_their_workspace(
    store: WorkspaceStore,
    id: Seq<char>,
    file_name: Seq<char>,
)
    requires
        is_valid_filename(id),
        is_valid_filename(file_name),
    ensures
        lies_directly_in(store.file_path(id, file_name), store.directory_path(id)),
        file_name_in(store.file_path(id, file_name)) == Some(file_name),
        file_name_in(store.directory_path(id)) == Some(id),
{
    lemma_child_lies_directly_in(store.root_path(), id, file_name);
    lemma_child_path_names_the_file(store.directory_path(id), file_name);
    lemma_child_path_names_the_file(store.root_path(), id);
}

/// Two workspaces share no file, and two files of one workspace share no
/// path: a path of the store belongs to one file of one workspace.
pub proof fn lemma_paths_tell_files_apart(
    store: WorkspaceStore,
    id: Seq<char>,
    file_name: Seq<char>,
    other_id: Seq<char>,
    other_name: Seq<char>,
)
    requires
        is_valid_filename(id),
        is_valid_filename(file_name),
        is_valid_filename(other_id),
        is_valid_filename(other_name),
        store.file_path(id, file_name) == store.file_path(other_id, other_name),
    ensures
        id == other_id,
        file_name == other_name,
{
    if id != other_id {
        lemma_entries_of_distinct_directories_differ(
            store.root_path(),
            id,
            other_id,
            file_name,
            other_name,
        );
    }
    lemma_child_path_is_injective(store.directory_path(id), file_name, other_name);
}

/// Different conversations have different workspace directories.
pub proof fn lemma_conversations_have_their_own_directories(
    store: WorkspaceStore,
    first: u128,
    second: u128,
)
    requires
        first != second,
    ensures
        store.directory_path(uuid_text(first)) != store.directory_path(uuid_text(second)),
{
    lemma_uuid_text_is_a_valid_name(first);
    lemma_uuid_text_is_a_valid_name(second);
    if store.directory_path(uuid_text(first)) == store.directory_path(uuid_text(second)) {
        lemma_child_path_is_injective(store.root_path(), uuid_text(first), uuid_text(second));
        lemma_uuid_text_is_injective(first, second);
    }
}

} // verus!
