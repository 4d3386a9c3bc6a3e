use datapack_verifier::diagnostic::{Diagnostic, Files, Label, LabelStyle, Severity};
use datapack_verifier::watch::WatchEvent;

#[test]
fn file_ids_are_sequential_from_zero() {
    let mut files = Files::new();
    assert!(files.entries.is_empty());
    let first = files.add("a.json".to_owned(), "{}".to_owned());
    let second = files.add("b.json".to_owned(), "[]".to_owned());
    assert_eq!(first, 0);
    assert_eq!(second, 1);
    assert_eq!(files.entries[0], ("a.json".to_owned(), "{}".to_owned()));
    assert_eq!(files.entries[1], ("b.json".to_owned(), "[]".to_owned()));
}

#[test]
fn diagnostic_builders_fill_every_field() {
    let label = Label::new(LabelStyle::Primary, 0, 2, 7).with_message("here");
    let diagnostic = Diagnostic::error()
        .with_code("MC999")
        .with_message("something is off")
        .with_labels(vec![label.clone()])
        .with_notes(vec!["fix it".to_owned()]);

    assert_eq!(diagnostic.severity, Severity::Error);
    assert_eq!(diagnostic.code, Some("MC999".to_owned()));
    assert_eq!(diagnostic.message, "something is off");
    assert_eq!(diagnostic.labels, vec![label]);
    assert_eq!(diagnostic.notes, vec!["fix it".to_owned()]);
}

#[test]
fn note_severity_diagnostic_starts_empty() {
    let diagnostic = Diagnostic::note();
    assert_eq!(diagnostic.severity, Severity::Note);
    assert_eq!(diagnostic.code, None);
    assert_eq!(diagnostic.message, "");
    assert!(diagnostic.labels.is_empty());
    assert!(diagnostic.notes.is_empty());
}

#[test]
fn label_without_message() {
    let label = Label::new(LabelStyle::Secondary, 3, 0, 4);
    assert_eq!(label.style, LabelStyle::Secondary);
    assert_eq!(label.file_id, 3);
    assert_eq!(label.start, 0);
    assert_eq!(label.end, 4);
    assert_eq!(label.message, None);
}

#[test]
fn settled_changes_trigger_a_new_pass() {
    assert!(WatchEvent::Create.should_reverify());
    assert!(WatchEvent::Write.should_reverify());
    assert!(WatchEvent::Remove.should_reverify());
    assert!(WatchEvent::Rename.should_reverify());
}

#[test]
fn notices_and_errors_do_not_trigger_a_new_pass() {
    assert!(!WatchEvent::NoticeWrite.should_reverify());
    assert!(!WatchEvent::NoticeRemove.should_reverify());
    assert!(!WatchEvent::Chmod.should_reverify());
    assert!(!WatchEvent::Rescan.should_reverify());
    assert!(!WatchEvent::Error.should_reverify());
}
