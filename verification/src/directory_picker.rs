//! The directory picker: the user picks a folder in a dialog, and the command
//! returns its path.
//!
//! The shell shows the dialog of `folder_dialog`; `select_directory` turns the
//! user's answer into the command's result. Nothing is written at any point:
//! the command has no step that could ask for it.

use crate::dialog::{DialogReply, FolderDialog};
use crate::error::{reply_view, CommandError, ErrorKind, Failure};
use crate::location::{lossy_text, path_text, FilePath};
use std::path::PathBuf;
use vstd::prelude::*;
use vstd::string::StringExecFns;

verus! {

/// The title of the folder dialog.
pub open spec fn folder_dialog_title() -> Seq<char> {
    "保存先フォルダを選択"@
}

/// The failure reported when the folder dialog never answered.
pub open spec fn selection_no_reply() -> Failure {
    Failure { kind: ErrorKind::NoReply, message: "ディレクトリパスの受信に失敗しました"@ }
}

/// The failure reported when the user dismissed the folder dialog.
pub open spec fn selection_cancelled() -> Failure {
    Failure { kind: ErrorKind::UserCancelled, message: "フォルダ選択がキャンセルされました"@ }
}

/// The failure reported when the chosen folder has no local path.
pub open spec fn selection_invalid_path() -> Failure {
    Failure { kind: ErrorKind::InvalidPath, message: "無効なディレクトリパスです"@ }
}

/// The command's result, once it is known whether the chosen location has a
/// local path, and what its text is: that text, or `InvalidPath`.
pub open spec fn directory_reply(resolved: Option<Seq<char>>) -> Result<Seq<char>, Failure> {
    match resolved {
        Some(text) => Ok(text),
        None => Err(selection_invalid_path()),
    }
}

/// Which results `result` the reply `reply` allows. Every reply but a URI
/// allows exactly one; for a URI it is `InvalidPath` or the text of some
/// path, as the conversion of the URI decides.
pub open spec fn selection_step(reply: DialogReply, result: Result<Seq<char>, Failure>) -> bool {
    match reply {
        DialogReply::Lost => result == Err::<Seq<char>, Failure>(selection_no_reply()),
        DialogReply::Dismissed => result == Err::<Seq<char>, Failure>(selection_cancelled()),
        DialogReply::Chosen(FilePath::Path(path)) => result == directory_reply(
            Some(lossy_text(path)),
        ),
        DialogReply::Chosen(FilePath::Url(_)) => result == directory_reply(None) || exists|
            path: PathBuf,
        |
            result == directory_reply(Some(#[trigger] lossy_text(path))),
    }
}

/// The dialog to show.
pub fn folder_dialog() -> (dialog: FolderDialog)
    ensures
        dialog@ == folder_dialog_title(),
{
    FolderDialog { title: String::from_str("保存先フォルダを選択") }
}

/// Decides the command's result, given the text of the chosen folder's local
/// path, or that it has none.
pub fn selected_directory(resolved: Option<String>) -> (result: Result<String, CommandError>)
    ensures
        reply_view(result) == directory_reply(
            match resolved {
                Some(text) => Some(text@),
                None => None,
            },
        ),
{
    match resolved {
        Some(text) => Ok(text),
        None => Err(CommandError::new(ErrorKind::InvalidPath, "無効なディレクトリパスです")),
    }
}

/// Decides the command's result from the folder dialog's reply: the chosen
/// folder's path as text, or the failure that ends the command.
pub fn select_directory(reply: DialogReply) -> (result: Result<String, CommandError>)
    ensures
        selection_step(reply, reply_view(result)),
{
    match reply {
        DialogReply::Lost => Err(
            CommandError::new(ErrorKind::NoReply, "ディレクトリパスの受信に失敗しました"),
        ),
        DialogReply::Dismissed => Err(
            CommandError::new(ErrorKind::UserCancelled, "フォルダ選択がキャンセルされました"),
        ),
        DialogReply::Chosen(location) => {
            let resolved = match location.into_path() {
                Some(path) => Some(path_text(&path)),
                None => None,
            };
            selected_directory(resolved)
        },
    }
}

/// Dismissing the folder dialog always ends the command with `UserCancelled`.
pub proof fn dismissal_cancels_selection(result: Result<Seq<char>, Failure>)
    requires
        selection_step(DialogReply::Dismissed, result),
    ensures
        result == Err::<Seq<char>, Failure>(selection_cancelled()),
        selection_cancelled().kind == ErrorKind::UserCancelled,
{
}

/// The command succeeds only when the user chose a location, and never
/// reports `IOFailure`: it has nothing to write.
pub proof fn selection_never_writes(reply: DialogReply, result: Result<Seq<char>, Failure>)
    requires
        selection_step(reply, result),
    ensures
        result is Ok ==> reply is Chosen,
        result matches Err(failure) ==> failure.kind != ErrorKind::IOFailure,
{
}

} // verus!
