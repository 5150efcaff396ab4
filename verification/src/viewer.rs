//! The list of files that a viewer of a workspace shows.

use crate::models::files::{UploadedFile, UploadedFileView};
use crate::store::file_views;
use vstd::prelude::*;

verus! {

/// Some file of `files` is called `file_name`.
pub open spec fn has_file_named(files: Seq<UploadedFileView>, file_name: Seq<char>) -> bool {
    exists|i: int| 0 <= i < files.len() && (#[trigger] files[i]).file_name == file_name
}

/// No two files of `files` have the same name.
pub open spec fn names_are_distinct(files: Seq<UploadedFileView>) -> bool {
    forall|i: int, j: int|
        0 <= i < j < files.len() ==> (#[trigger] files[i]).file_name != (
        #[trigger] files[j]).file_name
}

/// The files that a viewer shows once it was told of `file`: those it showed
/// before, and `file` after them unless one of them has its name.
pub open spec fn merged(files: Seq<UploadedFileView>, file: UploadedFileView) -> Seq<
    UploadedFileView,
> {
    if has_file_named(files, file.file_name) {
        files
    } else {
        files.push(file)
    }
}

/// Takes a notification into the list of files that a viewer shows.
pub fn merge_notification(files: &mut Vec<UploadedFile>, file: UploadedFile)
    ensures
        file_views(final(files)@) == merged(file_views(old(files)@), file@),
{
    let mut i: usize = 0;
    while i < files.len()
        invariant
            i <= files@.len(),
            *files == *old(files),
            forall|k: int| 0 <= k < i ==> (#[trigger] files@[k])@.file_name != file@.file_name,
        decreases files@.len() - i,
    {
        if files[i].file_name == file.file_name {
            assert(file_views(files@)[i as int].file_name == file@.file_name);
            return ;
        }
        i = i + 1;
    }
    assert(!has_file_named(file_views(files@), file@.file_name)) by {
        if has_file_named(file_views(files@), file@.file_name) {
            let k = choose|k: int|
                0 <= k < file_views(files@).len() && (#[trigger] file_views(
                    files@,
                )[k]).file_name == file@.file_name;
            assert(files@[k]@.file_name == file@.file_name);
        }
    }
    files.push(file);
    assert(file_views(files@) =~= file_views(old(files)@).push(file@));
}

/// A list of files with distinct names keeps distinct names whatever
/// notification is merged into it, and merging the same notification again
/// changes nothing.
pub proof fn lemma_merge_keeps_names_distinct(files: Seq<UploadedFileView>, file: UploadedFileView)
    requires
        names_are_distinct(files),
    ensures
        names_are_distinct(merged(files, file)),
        has_file_named(merged(files, file), file.file_name),
        merged(merged(files, file), file) == merged(files, file),
{
    let after = merged(files, file);
    if !has_file_named(files, file.file_name) {
        assert(after[files.len() as int].file_name == file.file_name);
        assert forall|i: int, j: int| 0 <= i < j < after.len() implies (
        #[trigger] after[i]).file_name != (#[trigger] after[j]).file_name by {
            if j == files.len() {
                assert(files[i].file_name != file.file_name);
            } else {
                assert(files[i].file_name != files[j].file_name);
            }
        }
    }
}

} // verus!
