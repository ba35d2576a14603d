use report_commands::dialog::DialogReply;
use report_commands::error::{CommandError, ErrorKind};
use report_commands::location::FilePath;
use report_commands::markdown_saver::{plan_save, plan_save_at, save_dialog, save_reply, PendingWrite};
use std::collections::HashMap;
use std::path::{Path, PathBuf};
use url::Url;

/// A stand-in for the shell: a dialog that answers as told, and a file
/// system that holds what was written.
struct SaverShell {
    answer: Option<DialogReply>,
    directories: Vec<PathBuf>,
    files: HashMap<PathBuf, String>,
    writes: usize,
}

impl SaverShell {
    fn answering(answer: DialogReply) -> SaverShell {
        SaverShell {
            answer: Some(answer),
            directories: vec![PathBuf::from("/tmp/out")],
            files: HashMap::new(),
            writes: 0,
        }
    }

    fn write(&mut self, path: &Path, content: &str) -> Result<(), String> {
        self.writes += 1;
        match path.parent() {
            Some(parent) if self.directories.iter().any(|known| known == parent) => {
                self.files.insert(path.to_path_buf(), content.to_string());
                Ok(())
            }
            _ => Err("No such file or directory (os error 2)".to_string()),
        }
    }

    /// Runs the command as the application does: dialog, plan, write, result.
    fn save_markdown_file(&mut self, content: &str, filename: &str) -> Result<String, CommandError> {
        let dialog = save_dialog(filename);
        assert_eq!(dialog.file_name, filename);
        let reply = self.answer.take().unwrap();
        let pending = plan_save(content.to_string(), reply)?;
        let written = self.write(&pending.path, &pending.content);
        pending.finish(written)
    }
}

fn accepted_at(path: &str) -> DialogReply {
    DialogReply::Chosen(FilePath::Path(PathBuf::from(path)))
}

fn accepted_at_uri(uri: &str) -> DialogReply {
    DialogReply::Chosen(FilePath::Url(Url::parse(uri).unwrap()))
}

#[test]
fn save_dialog_is_titled_and_suggests_the_file_name() {
    let dialog = save_dialog("report.md");
    assert_eq!(dialog.title, "付箋レポートを保存");
    assert_eq!(dialog.file_name, "report.md");
}

#[test]
fn save_dialog_offers_markdown_then_all_files() {
    let dialog = save_dialog("report.md");
    assert_eq!(dialog.filters.len(), 2);
    assert_eq!(dialog.filters[0].name, "Markdown");
    assert_eq!(dialog.filters[0].extensions, vec!["md".to_string()]);
    assert_eq!(dialog.filters[1].name, "すべてのファイル");
    assert_eq!(dialog.filters[1].extensions, vec!["*".to_string()]);
}

#[test]
fn save_dialog_does_not_validate_the_file_name() {
    assert_eq!(save_dialog("../../etc/passwd").file_name, "../../etc/passwd");
    assert_eq!(save_dialog("").file_name, "");
    assert_eq!(save_dialog("a:b*c?.md").file_name, "a:b*c?.md");
}

#[test]
fn a_chosen_path_plans_the_write_of_the_content() {
    let pending = plan_save("# Title\n".to_string(), accepted_at("/tmp/out/report.md")).unwrap();
    assert_eq!(pending.path, PathBuf::from("/tmp/out/report.md"));
    assert_eq!(pending.content, "# Title\n");
}

#[test]
fn a_chosen_file_uri_plans_the_write_at_its_path() {
    let reply = accepted_at_uri("file:///tmp/out/report.md");
    let pending = plan_save("# Title\n".to_string(), reply).unwrap();
    assert_eq!(pending.path, PathBuf::from("/tmp/out/report.md"));
    assert_eq!(pending.content, "# Title\n");
}

#[test]
fn a_chosen_uri_without_local_path_is_an_invalid_path() {
    let reply = accepted_at_uri("https://example.com/report.md");
    let error = plan_save("# Title\n".to_string(), reply).unwrap_err();
    assert_eq!(error.kind, ErrorKind::InvalidPath);
    assert_eq!(error.message, "無効なファイルパスです");
}

#[test]
fn a_dismissed_save_dialog_is_a_cancellation() {
    let error = plan_save("# Title\n".to_string(), DialogReply::Dismissed).unwrap_err();
    assert_eq!(error.kind, ErrorKind::UserCancelled);
    assert_eq!(error.message, "保存がキャンセルされました");
}

#[test]
fn a_lost_save_dialog_is_reported() {
    let error = plan_save("# Title\n".to_string(), DialogReply::Lost).unwrap_err();
    assert_eq!(error.kind, ErrorKind::NoReply);
    assert_eq!(error.message, "ファイルパスの受信に失敗しました");
}

#[test]
fn plan_save_at_writes_to_the_resolved_path() {
    let pending = plan_save_at("text".to_string(), Some(PathBuf::from("/tmp/a.md"))).unwrap();
    assert_eq!(pending.path, PathBuf::from("/tmp/a.md"));
    assert_eq!(pending.content, "text");
}

#[test]
fn plan_save_at_rejects_an_unresolved_location() {
    let error = plan_save_at("text".to_string(), None).unwrap_err();
    assert_eq!(error.kind, ErrorKind::InvalidPath);
    assert_eq!(error.message, "無効なファイルパスです");
}

#[test]
fn empty_content_is_still_planned() {
    let pending = plan_save(String::new(), accepted_at("/tmp/out/empty.md")).unwrap();
    assert_eq!(pending.content, "");
}

#[test]
fn save_reply_returns_the_path_text_on_success() {
    assert_eq!(save_reply("/tmp/out/report.md".to_string(), Ok(())), Ok("/tmp/out/report.md".to_string()));
}

#[test]
fn save_reply_reports_a_refused_write() {
    let reply = save_reply("/tmp/out/report.md".to_string(), Err("Permission denied (os error 13)".to_string()));
    let error = reply.unwrap_err();
    assert_eq!(error.kind, ErrorKind::IOFailure);
    assert_eq!(error.message, "ファイルの保存に失敗しました: Permission denied (os error 13)");
}

#[test]
fn finish_returns_the_written_path_as_text() {
    let pending = PendingWrite { path: PathBuf::from("/tmp/out/report.md"), content: "# Title\n".to_string() };
    assert_eq!(pending.finish(Ok(())), Ok("/tmp/out/report.md".to_string()));
}

#[test]
fn finish_replaces_what_is_not_unicode_in_the_path() {
    let reply = accepted_at_uri("file:///tmp/out/%FF.md");
    let pending = plan_save("text".to_string(), reply).unwrap();
    assert_eq!(pending.finish(Ok(())), Ok("/tmp/out/\u{FFFD}.md".to_string()));
}

#[test]
fn finish_reports_a_refused_write() {
    let pending = PendingWrite { path: PathBuf::from("/tmp/out/report.md"), content: "# Title\n".to_string() };
    let error = pending.finish(Err("No space left on device (os error 28)".to_string())).unwrap_err();
    assert_eq!(error.kind, ErrorKind::IOFailure);
    assert_eq!(error.message, "ファイルの保存に失敗しました: No space left on device (os error 28)");
}

#[test]
fn an_accepted_save_writes_the_content_and_returns_the_path() {
    let mut shell = SaverShell::answering(accepted_at("/tmp/out/report.md"));
    let result = shell.save_markdown_file("# Title\n", "report.md");
    assert_eq!(result, Ok("/tmp/out/report.md".to_string()));
    assert_eq!(shell.files.get(Path::new("/tmp/out/report.md")), Some(&"# Title\n".to_string()));
    assert_eq!(shell.files.len(), 1);
}

#[test]
fn a_saved_report_reads_back_unchanged() {
    let content = "# 付箋\n\n- one\r\n- two\t\u{1F4DD}\n\n";
    let mut shell = SaverShell::answering(accepted_at_uri("file:///tmp/out/%E4%BB%98%E7%AE%8B.md"));
    let returned = shell.save_markdown_file(content, "付箋.md").unwrap();
    assert_eq!(returned, "/tmp/out/付箋.md");
    assert_eq!(shell.files.get(Path::new(&returned)), Some(&content.to_string()));
}

#[test]
fn a_cancelled_save_writes_nothing() {
    let mut shell = SaverShell::answering(DialogReply::Dismissed);
    let error = shell.save_markdown_file("# Title\n", "report.md").unwrap_err();
    assert_eq!(error.kind, ErrorKind::UserCancelled);
    assert_eq!(shell.writes, 0);
    assert!(shell.files.is_empty());
}

#[test]
fn a_save_below_a_missing_directory_fails_and_creates_nothing() {
    let mut shell = SaverShell::answering(accepted_at("/tmp/absent/report.md"));
    let error = shell.save_markdown_file("# Title\n", "report.md").unwrap_err();
    assert_eq!(error.kind, ErrorKind::IOFailure);
    assert_eq!(error.message, "ファイルの保存に失敗しました: No such file or directory (os error 2)");
    assert_eq!(shell.writes, 1);
    assert!(shell.files.is_empty());
}
