//! The Markdown saver: a report is written to the file that the user picks
//! in a save dialog.
//!
//! The command runs in two steps around the shell's work. The shell shows
//! the dialog of `save_dialog`; `plan_save` turns the user's answer into the
//! write to perform, or into the failure to report. The shell performs the
//! write; `PendingWrite::finish` turns its outcome into the command's result.

use crate::dialog::{DialogReply, FileFilter, FileFilterView, SaveDialog, SaveDialogView};
use crate::error::{reply_view, written_view, CommandError, ErrorKind, Failure};
use crate::file_writer::{write_failed, write_failure};
use crate::location::{lossy_text, path_text, FilePath};
use std::path::PathBuf;
use vstd::prelude::*;
use vstd::string::StringExecFns;

verus! {

/// The save dialog for a report: titled, with `file_name` filled in, and
/// offering Markdown files first and all files second.
pub open spec fn markdown_save_dialog(file_name: Seq<char>) -> SaveDialogView {
    SaveDialogView {
        title: "付箋レポートを保存"@,
        file_name,
        filters: seq![
            FileFilterView { name: "Markdown"@, extensions: seq!["md"@] },
            FileFilterView { name: "すべてのファイル"@, extensions: seq!["*"@] },
        ],
    }
}

/// The failure reported when the save dialog never answered.
pub open spec fn save_no_reply() -> Failure {
    Failure { kind: ErrorKind::NoReply, message: "ファイルパスの受信に失敗しました"@ }
}

/// The failure reported when the user dismissed the save dialog.
pub open spec fn save_cancelled() -> Failure {
    Failure { kind: ErrorKind::UserCancelled, message: "保存がキャンセルされました"@ }
}

/// The failure reported when the chosen file has no local path.
pub open spec fn save_invalid_path() -> Failure {
    Failure { kind: ErrorKind::InvalidPath, message: "無効なファイルパスです"@ }
}

/// A write that the saver has decided on and the shell has yet to perform.
#[derive(Debug)]
pub struct PendingWrite {
    /// The file to write, replacing what it holds.
    pub path: PathBuf,
    /// The text to write, verbatim.
    pub content: String,
}

/// What a `PendingWrite` stands for in contracts.
pub struct WritePlan {
    pub path: PathBuf,
    pub content: Seq<char>,
}

impl View for PendingWrite {
    type V = WritePlan;

    open spec fn view(&self) -> WritePlan {
        WritePlan { path: self.path, content: self.content@ }
    }
}

/// What the first step's result stands for in contracts.
pub open spec fn plan_view(planned: Result<PendingWrite, CommandError>) -> Result<
    WritePlan,
    Failure,
> {
    match planned {
        Ok(pending) => Ok(pending@),
        Err(error) => Err(error@),
    }
}

/// The first step, once it is known whether the chosen location has a local
/// path: the content goes to that path, or the command fails with
/// `InvalidPath`.
pub open spec fn plan_at(content: Seq<char>, resolved: Option<PathBuf>) -> Result<
    WritePlan,
    Failure,
> {
    match resolved {
        Some(path) => Ok(WritePlan { path, content }),
        None => Err(save_invalid_path()),
    }
}

/// The first step: which results `planned` the reply `reply` allows for a
/// command that was given `content`. Every reply but a URI allows exactly
/// one; for a URI it is one of the two results of `plan_at`, as the
/// conversion of the URI decides.
pub open spec fn save_step(
    content: Seq<char>,
    reply: DialogReply,
    planned: Result<WritePlan, Failure>,
) -> bool {
    match reply {
        DialogReply::Lost => planned == Err::<WritePlan, Failure>(save_no_reply()),
        DialogReply::Dismissed => planned == Err::<WritePlan, Failure>(save_cancelled()),
        DialogReply::Chosen(FilePath::Path(path)) => planned == plan_at(content, Some(path)),
        DialogReply::Chosen(FilePath::Url(_)) => exists|resolved: Option<PathBuf>|
            planned == #[trigger] plan_at(content, resolved),
    }
}

/// The second step: the text of the written path if the write went through,
/// `IOFailure` with the error text if it did not.
pub open spec fn saved_reply(path_text: Seq<char>, written: Result<(), Seq<char>>) -> Result<
    Seq<char>,
    Failure,
> {
    match written {
        Ok(_) => Ok(path_text),
        Err(detail) => Err(write_failed(detail)),
    }
}

/// The dialog to show for a report whose suggested file name is `filename`.
/// The name is passed on as it is.
pub fn save_dialog(filename: &str) -> (dialog: SaveDialog)
    ensures
        dialog@ == markdown_save_dialog(filename@),
{
    let mut filters: Vec<FileFilter> = Vec::new();
    filters.push(FileFilter::single("Markdown", "md"));
    filters.push(FileFilter::single("すべてのファイル", "*"));
    let dialog = SaveDialog {
        title: String::from_str("付箋レポートを保存"),
        file_name: String::from_str(filename),
        filters,
    };
    assert(dialog@.filters =~= markdown_save_dialog(filename@).filters);
    dialog
}

/// Decides on the write, given whether the chosen location has a local path.
pub fn plan_save_at(content: String, resolved: Option<PathBuf>) -> (planned: Result<
    PendingWrite,
    CommandError,
>)
    ensures
        plan_view(planned) == plan_at(content@, resolved),
{
    match resolved {
        Some(path) => Ok(PendingWrite { path, content }),
        None => Err(CommandError::new(ErrorKind::InvalidPath, "無効なファイルパスです")),
    }
}

/// Decides what follows the save dialog: the write of `content` to the chosen
/// file, or the failure that ends the command.
pub fn plan_save(content: String, reply: DialogReply) -> (planned: Result<
    PendingWrite,
    CommandError,
>)
    ensures
        save_step(content@, reply, plan_view(planned)),
{
    match reply {
        DialogReply::Lost => Err(
            CommandError::new(ErrorKind::NoReply, "ファイルパスの受信に失敗しました"),
        ),
        DialogReply::Dismissed => Err(
            CommandError::new(ErrorKind::UserCancelled, "保存がキャンセルされました"),
        ),
        DialogReply::Chosen(location) => plan_save_at(content, location.into_path()),
    }
}

/// Decides the command's result, given the text of the written path and how
/// the write went.
pub fn save_reply(path_text: String, written: Result<(), String>) -> (reply: Result<
    String,
    CommandError,
>)
    ensures
        reply_view(reply) == saved_reply(path_text@, written_view(written)),
{
    match written {
        Ok(_) => Ok(path_text),
        Err(detail) => Err(write_failure(detail.as_str())),
    }
}

impl PendingWrite {
    /// Decides the command's result, given how the write went: the path as
    /// text on success, `IOFailure` otherwise.
    pub fn finish(self, written: Result<(), String>) -> (reply: Result<String, CommandError>)
        ensures
            reply_view(reply) == saved_reply(lossy_text(self.path), written_view(written)),
    {
        save_reply(path_text(&self.path), written)
    }
}

/// The command as a whole: `planned` is a result that the first step allows
/// for the reply, and `result` is what the command then returns, the failure
/// of the first step, or what the second step makes of the write's outcome.
pub open spec fn save_run(
    content: Seq<char>,
    reply: DialogReply,
    planned: Result<WritePlan, Failure>,
    written: Result<(), Seq<char>>,
    result: Result<Seq<char>, Failure>,
) -> bool {
    &&& save_step(content, reply, planned)
    &&& result == match planned {
        Ok(plan) => saved_reply(lossy_text(plan.path), written),
        Err(failure) => Err(failure),
    }
}

/// Dismissing the save dialog always ends the command with `UserCancelled`:
/// no write is planned, whatever the content.
pub proof fn dismissal_plans_no_write(
    content: Seq<char>,
    planned: Result<WritePlan, Failure>,
    written: Result<(), Seq<char>>,
    result: Result<Seq<char>, Failure>,
)
    requires
        save_run(content, DialogReply::Dismissed, planned, written, result),
    ensures
        planned is Err,
        result == Err::<Seq<char>, Failure>(save_cancelled()),
        save_cancelled().kind == ErrorKind::UserCancelled,
{
}

/// A write is planned only when the user chose a location, and it carries
/// the command's content unchanged; where the user chose a path, that path
/// is the one to write.
pub proof fn planned_write_is_verbatim(
    content: Seq<char>,
    reply: DialogReply,
    planned: Result<WritePlan, Failure>,
)
    requires
        save_step(content, reply, planned),
        planned is Ok,
    ensures
        reply is Chosen,
        planned->Ok_0.content == content,
        reply matches DialogReply::Chosen(FilePath::Path(path)) ==> planned->Ok_0.path == path,
{
}

/// The command succeeds only after its own content was handed, unchanged, to
/// a write that went through, and it returns the text of the path of that
/// write.
pub proof fn successful_save_wrote_content(
    content: Seq<char>,
    reply: DialogReply,
    planned: Result<WritePlan, Failure>,
    written: Result<(), Seq<char>>,
    result: Result<Seq<char>, Failure>,
)
    requires
        save_run(content, reply, planned, written, result),
        result is Ok,
    ensures
        planned is Ok,
        written is Ok,
        planned->Ok_0.content == content,
        result == Ok::<Seq<char>, Failure>(lossy_text(planned->Ok_0.path)),
{
}

/// A write that the file system refused ends the command with `IOFailure`,
/// and the failure carries the error text.
pub proof fn refused_write_fails_save(
    content: Seq<char>,
    reply: DialogReply,
    planned: Result<WritePlan, Failure>,
    written: Result<(), Seq<char>>,
    result: Result<Seq<char>, Failure>,
)
    requires
        save_run(content, reply, planned, written, result),
        planned is Ok,
        written is Err,
    ensures
        result == Err::<Seq<char>, Failure>(write_failed(written->Err_0)),
        write_failed(written->Err_0).kind == ErrorKind::IOFailure,
{
}

} // verus!
