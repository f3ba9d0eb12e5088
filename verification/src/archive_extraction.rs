//! The extraction commands of the context menu and of the middle click on
//! an archive: which archives they take, and where each one lands. The
//! archive's own listing and the extraction itself run outside.

use vstd::prelude::*;
use crate::browser::FileBrowser;
use crate::clipboard::{real_sources_of, split_archive_member_sources};
use crate::naming::{
    archive_directory, archive_folder_destination, archive_folder_name_spec, is_first_free_folder,
    path_views,
};
use crate::paths::{FsPath, PathModel, join_spec};

verus! {

/// Extraction is refused in the trash and inside an archive (whose
/// contents are read-only): `directory_is_real` says whether the current
/// directory is a real directory rather than a place inside an archive.
pub open spec fn extraction_refused(browser: FileBrowser, directory_is_real: bool) -> bool {
    browser.is_trash_view || !directory_is_real
}

/// The archives a selection command works on: the selected paths that are
/// supported archives (`is_archive`, one flag per selected path), in
/// selection order.
pub open spec fn archive_selection(browser: FileBrowser, is_archive: Seq<bool>) -> Seq<PathModel> {
    real_sources_of(path_views(browser.selected_paths@), is_archive)
}

/// Where "extract to a folder named after the archive" puts `archive`.
pub open spec fn archive_folder_target(archive: PathModel, destination: PathModel, existing: Seq<PathModel>) -> bool {
    is_first_free_folder(
        destination,
        join_spec(archive_directory(archive), archive_folder_name_spec(archive)),
        2,
        existing,
    )
}

impl FileBrowser {
    fn archive_selection_paths(&self, is_archive: &Vec<bool>) -> (archives: Vec<FsPath>)
        requires
            is_archive@.len() == self.selected_paths@.len(),
        ensures
            path_views(archives@) == archive_selection(*self, is_archive@),
    {
        let (_, archives) = split_archive_member_sources(&self.selected_paths, is_archive);
        archives
    }

    /// `smart_extract_selected`: closes the context menu and hands back the
    /// selected archives, whose listings decide where each one goes (see
    /// `accept_smart_extract_destination`); nothing in the trash or inside
    /// an archive.
    pub fn smart_extract_selected(&mut self, directory_is_real: bool, is_archive: &Vec<bool>) -> (archives: Vec<FsPath>)
        requires
            is_archive@.len() == old(self).selected_paths@.len(),
        ensures
            *final(self) == (FileBrowser { context_menu: None, ..*old(self) }),
            path_views(archives@) == if extraction_refused(*old(self), directory_is_real) {
                Seq::empty()
            } else {
                archive_selection(*old(self), is_archive@)
            },
            old(self).collections_well_formed() ==> final(self).collections_well_formed(),
    {
        self.context_menu = None;
        if self.is_trash_view || !directory_is_real {
            let none: Vec<FsPath> = Vec::new();
            assert(path_views(none@) =~= Seq::<PathModel>::empty());
            return none;
        }
        self.archive_selection_paths(is_archive)
    }

    /// `extract_archive_from_middle_click`: the same entry as the smart
    /// extraction, for the one archive clicked (the selection is left as it
    /// is). `is_supported_archive` says whether `archive` is an archive the
    /// browser can extract; other paths are ignored.
    pub fn extract_archive_from_middle_click(
        &mut self,
        archive: FsPath,
        directory_is_real: bool,
        is_supported_archive: bool,
    ) -> (resolve: Option<FsPath>)
        ensures
            *final(self) == (FileBrowser { context_menu: None, ..*old(self) }),
            resolve == if extraction_refused(*old(self), directory_is_real) || !is_supported_archive {
                None
            } else {
                Some(archive)
            },
    {
        self.context_menu = None;
        if self.is_trash_view || !directory_is_real {
            return None;
        }
        if !is_supported_archive {
            return None;
        }
        Some(archive)
    }

    /// `extract_selected_to_archive_folder`: each selected archive, with
    /// the folder named after it that it extracts into; `existing` lists the
    /// folders that already exist.
    pub fn extract_selected_to_archive_folder(
        &mut self,
        directory_is_real: bool,
        is_archive: &Vec<bool>,
        existing: &Vec<FsPath>,
    ) -> (extractions: Vec<(FsPath, FsPath)>)
        requires
            is_archive@.len() == old(self).selected_paths@.len(),
            existing@.len() + 2 < u32::MAX,
        ensures
            *final(self) == (FileBrowser { context_menu: None, ..*old(self) }),
            extraction_refused(*old(self), directory_is_real) ==> extractions@.len() == 0,
            !extraction_refused(*old(self), directory_is_real) ==> {
                let archives = archive_selection(*old(self), is_archive@);
                &&& extractions@.len() == archives.len()
                &&& forall|i: int|
                    0 <= i < archives.len() ==> (#[trigger] extractions@[i]).0@ == archives[i]
                        && archive_folder_target(archives[i], extractions@[i].1@, path_views(existing@))
            },
    {
        let ghost before = *self;
        let archives = self.smart_extract_selected(directory_is_real, is_archive);
        let mut extractions: Vec<(FsPath, FsPath)> = Vec::new();
        let mut i: usize = 0;
        while i < archives.len()
            invariant
                i <= archives@.len(),
                existing@.len() + 2 < u32::MAX,
                extractions@.len() == i,
                forall|j: int|
                    0 <= j < i ==> (#[trigger] extractions@[j]).0@ == archives@[j]@ && archive_folder_target(
                        archives@[j]@,
                        extractions@[j].1@,
                        path_views(existing@),
                    ),
            decreases archives@.len() - i,
        {
            let destination = archive_folder_destination(&archives[i], existing);
            extractions.push((archives[i].duplicate(), destination));
            i = i + 1;
        }
        proof {
            if !extraction_refused(before, directory_is_real) {
                let expected = archive_selection(before, is_archive@);
                assert forall|j: int| 0 <= j < expected.len() implies (#[trigger] extractions@[j]).0@
                    == expected[j] && archive_folder_target(
                    expected[j],
                    extractions@[j].1@,
                    path_views(existing@),
                ) by {
                    assert(path_views(archives@)[j] == archives@[j]@);
                }
            } else {
                assert(path_views(archives@).len() == 0);
            }
        }
        extractions
    }
}

} // verus!
