//! What a native dialog is asked to show, and what it reports back.
//!
//! The dialog itself belongs to the operating system. These types carry the
//! request to the shell that opens it, and the user's answer back.

use crate::location::FilePath;
use vstd::prelude::*;
use vstd::string::StringExecFns;

verus! {

/// A named group of file extensions that a file dialog offers to show.
#[derive(Debug)]
pub struct FileFilter {
    pub name: String,
    pub extensions: Vec<String>,
}

/// What a `FileFilter` stands for in contracts.
pub struct FileFilterView {
    pub name: Seq<char>,
    pub extensions: Seq<Seq<char>>,
}

impl View for FileFilter {
    type V = FileFilterView;

    open spec fn view(&self) -> FileFilterView {
        FileFilterView {
            name: self.name@,
            extensions: Seq::new(self.extensions@.len(), |i: int| self.extensions@[i]@),
        }
    }
}

impl FileFilter {
    /// The filter called `name` that shows the files ending in `extension`.
    pub fn single(name: &str, extension: &str) -> (filter: FileFilter)
        ensures
            filter@ == (FileFilterView { name: name@, extensions: seq![extension@] }),
    {
        let mut extensions: Vec<String> = Vec::new();
        extensions.push(String::from_str(extension));
        let filter = FileFilter { name: String::from_str(name), extensions };
        assert(filter@.extensions =~= seq![extension@]);
        filter
    }
}

/// A request to show a save-file dialog.
#[derive(Debug)]
pub struct SaveDialog {
    /// The dialog's window title.
    pub title: String,
    /// The file name that the dialog suggests.
    pub file_name: String,
    /// The filters that the dialog offers, in the order shown.
    pub filters: Vec<FileFilter>,
}

/// What a `SaveDialog` stands for in contracts.
pub struct SaveDialogView {
    pub title: Seq<char>,
    pub file_name: Seq<char>,
    pub filters: Seq<FileFilterView>,
}

impl View for SaveDialog {
    type V = SaveDialogView;

    open spec fn view(&self) -> SaveDialogView {
        SaveDialogView {
            title: self.title@,
            file_name: self.file_name@,
            filters: Seq::new(self.filters@.len(), |i: int| self.filters@[i]@),
        }
    }
}

/// A request to show a folder-selection dialog.
#[derive(Debug)]
pub struct FolderDialog {
    /// The dialog's window title.
    pub title: String,
}

impl View for FolderDialog {
    type V = Seq<char>;

    open spec fn view(&self) -> Seq<char> {
        self.title@
    }
}

/// How a dialog ended.
#[derive(Debug)]
pub enum DialogReply {
    /// The dialog went away without ever reporting what the user did.
    Lost,
    /// The user closed the dialog without choosing anything.
    Dismissed,
    /// The user accepted the dialog with this location.
    Chosen(FilePath),
}

} // verus!
