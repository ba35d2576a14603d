//! The direct file writer: content goes to a path that the caller names, with
//! no dialog in between.
//!
//! The write itself is the shell's: it overwrites an existing file and creates
//! no parent directory. What the front end is told about it is decided here.

use crate::error::{reply_view, written_view, CommandError, ErrorKind, Failure};
use vstd::prelude::*;
use vstd::string::StringExecFns;

verus! {

/// The text in front of the path in a confirmation.
pub open spec fn saved_prefix() -> Seq<char> {
    "ファイルを保存しました: "@
}

/// The text in front of the operating system's error text in a failure.
pub open spec fn write_failed_prefix() -> Seq<char> {
    "ファイルの保存に失敗しました: "@
}

/// The failure that a refused write is reported as: `IOFailure`, with the
/// operating system's error text passed through behind a fixed prefix.
pub open spec fn write_failed(detail: Seq<char>) -> Failure {
    Failure { kind: ErrorKind::IOFailure, message: write_failed_prefix() + detail }
}

/// What the direct writer answers: a confirmation that embeds the path if the
/// write went through, `IOFailure` with the error text if it did not.
pub open spec fn written_reply(file_path: Seq<char>, written: Result<(), Seq<char>>) -> Result<
    Seq<char>,
    Failure,
> {
    match written {
        Ok(_) => Ok(saved_prefix() + file_path),
        Err(detail) => Err(write_failed(detail)),
    }
}

/// Reports a write that the file system refused with the error text `detail`.
pub fn write_failure(detail: &str) -> (error: CommandError)
    ensures
        error@ == write_failed(detail@),
{
    let mut message = String::from_str("ファイルの保存に失敗しました: ");
    message.append(detail);
    CommandError { kind: ErrorKind::IOFailure, message }
}

/// Answers a request to write to `file_path`, given how the write went.
pub fn write_file_reply(file_path: &str, written: Result<(), String>) -> (reply: Result<
    String,
    CommandError,
>)
    ensures
        reply_view(reply) == written_reply(file_path@, written_view(written)),
{
    match written {
        Ok(_) => {
            let mut confirmation = String::from_str("ファイルを保存しました: ");
            confirmation.append(file_path);
            Ok(confirmation)
        },
        Err(detail) => Err(write_failure(detail.as_str())),
    }
}

/// A refused write is always reported as `IOFailure`, a write that went
/// through never is, and the report carries the error text unchanged at its
/// end.
pub proof fn refused_write_is_io_failure(file_path: Seq<char>, written: Result<(), Seq<char>>)
    ensures
        written is Err <==> written_reply(file_path, written) is Err,
        written matches Err(detail) ==> {
            let failure = written_reply(file_path, written)->Err_0;
            &&& failure.kind == ErrorKind::IOFailure
            &&& failure.message.len() >= detail.len()
            &&& failure.message.skip(failure.message.len() - detail.len()) == detail
        },
{
    if let Err(detail) = written {
        let failure = written_reply(file_path, written)->Err_0;
        assert(failure.message.skip(failure.message.len() - detail.len()) =~= detail);
    }
}

/// The confirmation of a write embeds the path unchanged at its end.
pub proof fn confirmation_embeds_path(file_path: Seq<char>)
    ensures
        written_reply(file_path, Ok(())) matches Ok(text) && text.len() >= file_path.len()
            && text.skip(text.len() - file_path.len()) == file_path,
{
    let text = written_reply(file_path, Ok(()))->Ok_0;
    assert(text.skip(text.len() - file_path.len()) =~= file_path);
}

} // verus!
