//! A model of the directories that the store works on.
//!
//! The library never touches the disk: it says which directory to create,
//! which file to write and which directory to delete, and reads what its
//! caller found. This module states what those steps are taken to do, and
//! what uploads, listings and removals then add up to.

use crate::models::files::UploadedFileView;
use crate::store::{listed_files, names_of, removal_target, DirListingView};
use crate::upload::{
    all_valid, lemma_named_fields_step, lemma_unhindered_upload_writes_all,
    lemma_upload_run_push, named_fields,
    unhindered_upload, upload_run, upload_start, UploadEventView, UploadPhaseView,
    UploadView,
};
use vstd::prelude::*;

verus! {

/// The directories that exist, each with the names of its entries.
pub struct Disk {
    pub dirs: Map<Seq<char>, Set<Seq<char>>>,
}

impl Disk {
    /// The directory `dir` exists.
    pub open spec fn has_dir(self, dir: Seq<char>) -> bool {
        self.dirs.dom().contains(dir)
    }

    /// The names of the entries of `dir`: none where it does not exist.
    pub open spec fn entries(self, dir: Seq<char>) -> Set<Seq<char>> {
        if self.has_dir(dir) {
            self.dirs[dir]
        } else {
            Set::empty()
        }
    }

    /// The disk once `dir` was created, if it was not there.
    pub open spec fn create_dir_all(self, dir: Seq<char>) -> Disk {
        if self.has_dir(dir) {
            self
        } else {
            Disk { dirs: self.dirs.insert(dir, Set::empty()) }
        }
    }

    /// The disk once the file `name` was created or overwritten in `dir`.
    /// Nothing is written where `dir` does not exist.
    pub open spec fn write_file(self, dir: Seq<char>, name: Seq<char>) -> Disk {
        if self.has_dir(dir) {
            Disk { dirs: self.dirs.insert(dir, self.dirs[dir].insert(name)) }
        } else {
            self
        }
    }

    /// The disk once `dir` was deleted with all that it holds.
    pub open spec fn remove_dir_all(self, dir: Seq<char>) -> Disk {
        Disk { dirs: self.dirs.remove(dir) }
    }

    /// The two disks hold the same directories with the same entries, but
    /// perhaps for `dir`.
    pub open spec fn same_outside(self, other: Disk, dir: Seq<char>) -> bool {
        forall|d: Seq<char>|
            #![trigger self.has_dir(d)]
            #![trigger self.entries(d)]
            d != dir ==> self.has_dir(d) == other.has_dir(d) && self.entries(d) == other.entries(
                d,
            )
    }

    /// `listing` is something that reading `dir` may give: that it is
    /// missing where it does not exist, else its entries, each once, in any
    /// order.
    pub open spec fn reads_as(self, dir: Seq<char>, listing: DirListingView) -> bool {
        match listing {
            DirListingView::Missing => !self.has_dir(dir),
            DirListingView::Entries(names) => {
                &&& self.has_dir(dir)
                &&& names.no_duplicates()
                &&& names.to_set() == self.dirs[dir]
            },
        }
    }
}

/// The disk once the caller of an upload session in `state` has reported
/// `event`: a directory that is ready was created, a file that is written
/// is there.
pub open spec fn disk_after_upload_event(
    disk: Disk,
    state: UploadView,
    event: UploadEventView,
) -> Disk {
    match (state.phase, event) {
        (UploadPhaseView::Preparing, UploadEventView::DirectoryReady) => disk.create_dir_all(
            state.dir,
        ),
        (UploadPhaseView::Writing(name), UploadEventView::Written) => disk.write_file(
            state.dir,
            name,
        ),
        _ => disk,
    }
}

/// The disk once `events` have happened, one after another, to an upload
/// session that was in `state`.
pub open spec fn disk_after_upload(
    disk: Disk,
    state: UploadView,
    events: Seq<UploadEventView>,
) -> Disk
    decreases events.len(),
{
    if events.len() == 0 {
        disk
    } else {
        disk_after_upload_event(
            disk_after_upload(disk, state, events.drop_last()),
            upload_run(state, events.drop_last()),
            events.last(),
        )
    }
}

/// The disk once the workspace whose directory is `dir` was removed.
pub open spec fn disk_after_removal(disk: Disk, dir: Seq<char>) -> Disk {
    match removal_target(dir, disk.has_dir(dir)) {
        Some(target) => disk.remove_dir_all(target),
        None => disk,
    }
}

/// The files listed for a workspace have the names of the entries read, in
/// the order in which they were read.
pub proof fn lemma_listed_names(workspace: Seq<char>, listing: DirListingView)
    ensures
        names_of(listed_files(workspace, listing)) == match listing {
            DirListingView::Missing => Seq::empty(),
            DirListingView::Entries(names) => names,
        },
{
    match listing {
        DirListingView::Missing => {
            assert(names_of(listed_files(workspace, listing)) =~= Seq::<Seq<char>>::empty());
        },
        DirListingView::Entries(names) => {
            assert(names_of(listed_files(workspace, listing)) =~= names);
        },
    }
}

/// Running one more event changes the disk by one more step.
proof fn lemma_disk_after_upload_push(
    disk: Disk,
    state: UploadView,
    events: Seq<UploadEventView>,
    event: UploadEventView,
)
    ensures
        disk_after_upload(disk, state, events.push(event)) == disk_after_upload_event(
            disk_after_upload(disk, state, events),
            upload_run(state, events),
            event,
        ),
{
    assert(events.push(event).drop_last() == events);
}

/// An upload in which nothing fails leaves the workspace directory with what
/// it held before and the files uploaded, and leaves every other directory
/// as it was.
pub proof fn lemma_unhindered_upload_fills_the_directory(
    disk: Disk,
    dir: Seq<char>,
    fields: Seq<Option<Seq<char>>>,
)
    requires
        all_valid(named_fields(fields)),
    ensures
        disk_after_upload(disk, upload_start(dir), unhindered_upload(fields)).has_dir(dir),
        disk_after_upload(disk, upload_start(dir), unhindered_upload(fields)).entries(dir)
            == disk.entries(dir).union(named_fields(fields).to_set()),
        disk_after_upload(disk, upload_start(dir), unhindered_upload(fields)).same_outside(
            disk,
            dir,
        ),
    decreases fields.len(),
{
    broadcast use vstd::seq_lib::group_seq_properties;

    let start = upload_start(dir);
    if fields.len() == 0 {
        let none = Seq::<UploadEventView>::empty();
        assert(unhindered_upload(fields) == none.push(UploadEventView::DirectoryReady));
        lemma_disk_after_upload_push(disk, start, none, UploadEventView::DirectoryReady);
        assert(named_fields(fields).to_set() =~= Set::<Seq<char>>::empty());
        let after = disk_after_upload(disk, start, unhindered_upload(fields));
        assert(after == disk.create_dir_all(dir));
        assert(after.entries(dir) =~= disk.entries(dir).union(named_fields(fields).to_set()));
        assert(after.same_outside(disk, dir));
    } else {
        let front = fields.drop_last();
        let before = unhindered_upload(front);
        lemma_named_fields_step(fields);
        lemma_unhindered_upload_fills_the_directory(disk, dir, front);
        lemma_unhindered_upload_writes_all(dir, front);
        let mid = disk_after_upload(disk, start, before);
        match fields.last() {
            Some(name) => {
                let arrival = UploadEventView::Field(Some(name));
                let arrived = before.push(arrival);
                lemma_upload_run_push(start, before, arrival);
                lemma_disk_after_upload_push(disk, start, before, arrival);
                lemma_disk_after_upload_push(disk, start, arrived, UploadEventView::Written);
                let after = disk_after_upload(disk, start, unhindered_upload(fields));
                assert(after == mid.write_file(dir, name));
                assert(named_fields(fields).to_set() =~= named_fields(front).to_set().insert(name));
                assert(after.entries(dir) =~= disk.entries(dir).union(
                    named_fields(fields).to_set(),
                ));
                assert(after.same_outside(disk, dir)) by {
                    assert forall|d: Seq<char>| d != dir implies after.has_dir(d) == disk.has_dir(
                        d,
                    ) && after.entries(d) == disk.entries(d) by {
                        assert(mid.has_dir(d) == disk.has_dir(d));
                        assert(mid.entries(d) == disk.entries(d));
                    }
                }
            },
            None => {
                lemma_disk_after_upload_push(disk, start, before, UploadEventView::Field(None));
            },
        }
    }
}

/// Files uploaded to a new workspace are the files that a listing shows
/// afterwards: the names listed are, as a set, the names uploaded, and where
/// no name was uploaded twice there are as many files listed as were
/// uploaded and counted.
pub proof fn lemma_uploaded_files_are_listed(
    disk: Disk,
    workspace: Seq<char>,
    dir: Seq<char>,
    fields: Seq<Option<Seq<char>>>,
    listing: DirListingView,
)
    requires
        !disk.has_dir(dir),
        all_valid(named_fields(fields)),
        disk_after_upload(disk, upload_start(dir), unhindered_upload(fields)).reads_as(
            dir,
            listing,
        ),
    ensures
        names_of(listed_files(workspace, listing)).to_set() == named_fields(fields).to_set(),
        named_fields(fields).no_duplicates() ==> listed_files(workspace, listing).len()
            == named_fields(fields).len(),
        upload_run(upload_start(dir), unhindered_upload(fields)).written == named_fields(fields),
{
    lemma_unhindered_upload_fills_the_directory(disk, dir, fields);
    lemma_unhindered_upload_writes_all(dir, fields);
    lemma_listed_names(workspace, listing);
    let after = disk_after_upload(disk, upload_start(dir), unhindered_upload(fields));
    let listed = names_of(listed_files(workspace, listing));
    assert(after.entries(dir) =~= named_fields(fields).to_set());
    assert(listed.to_set() == named_fields(fields).to_set());
    if named_fields(fields).no_duplicates() {
        listed.unique_seq_to_set();
        named_fields(fields).unique_seq_to_set();
    }
}

/// A workspace whose directory was never created lists as empty.
pub proof fn lemma_missing_workspace_lists_as_empty(
    disk: Disk,
    workspace: Seq<char>,
    dir: Seq<char>,
    listing: DirListingView,
)
    requires
        !disk.has_dir(dir),
        disk.reads_as(dir, listing),
    ensures
        listing is Missing,
        listed_files(workspace, listing) == Seq::<UploadedFileView>::empty(),
{
}

/// Removing a workspace whose directory was never created deletes nothing
/// and leaves the disk as it was; the workspace still lists as empty.
pub proof fn lemma_removing_a_missing_workspace(
    disk: Disk,
    workspace: Seq<char>,
    dir: Seq<char>,
    listing: DirListingView,
)
    requires
        !disk.has_dir(dir),
        disk_after_removal(disk, dir).reads_as(dir, listing),
    ensures
        removal_target(dir, disk.has_dir(dir)) is None,
        disk_after_removal(disk, dir) == disk,
        listed_files(workspace, listing) == Seq::<UploadedFileView>::empty(),
{
}

/// A removed workspace lists as empty, whatever it held, and removing it
/// once more changes nothing.
pub proof fn lemma_removed_workspace_lists_as_empty(
    disk: Disk,
    workspace: Seq<char>,
    dir: Seq<char>,
    listing: DirListingView,
)
    requires
        disk_after_removal(disk, dir).reads_as(dir, listing),
    ensures
        !disk_after_removal(disk, dir).has_dir(dir),
        listed_files(workspace, listing) == Seq::<UploadedFileView>::empty(),
        disk_after_removal(disk_after_removal(disk, dir), dir) == disk_after_removal(disk, dir),
{
}

} // verus!
