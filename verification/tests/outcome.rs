use datapack_verifier::conventions::ConventionError;
use datapack_verifier::datapack_advancement::{DatapackAdvancement, GoverningFile, Verify};
use datapack_verifier::diagnostic::Severity;
use datapack_verifier::global_root::{Criteria, Display, GlobalRoot, GlobalRootError};
use datapack_verifier::global_root::Icon;
use datapack_verifier::verify_convention::VerifyConvention;

const COMPLIANT_SOURCE: &str = r#"{"display":{"title":"Installed Datapacks","description":"","icon":{"item":"minecraft:knowledge_book"},"background":"minecraft:textures/block/gray_concrete.png","show_toast":false,"announce_to_chat":false},"criteria":{"tick":{"trigger":"minecraft:tick"}}}"#;

fn compliant_document() -> GlobalRoot {
    GlobalRoot {
        display: Display {
            title: "Installed Datapacks".to_owned(),
            description: String::new(),
            icon: Icon { item: "minecraft:knowledge_book".to_owned() },
            background: "minecraft:textures/block/gray_concrete.png".to_owned(),
            show_toast: false,
            announce_to_chat: false,
        },
        criteria: vec![(
            "tick".to_owned(),
            Criteria { trigger: "minecraft:tick".to_owned() },
        )],
    }
}

#[test]
fn governing_file_path_is_under_the_root() {
    assert_eq!(
        DatapackAdvancement::global_root("my_pack"),
        "my_pack/data/global/advancements/root.json"
    );
}

#[test]
fn missing_governing_file_is_not_found() {
    let outcome = DatapackAdvancement::verify("my_pack", GoverningFile::Missing);
    assert_eq!(outcome, Ok(Verify::GlobalRootNotFound));
}

#[test]
fn unreadable_governing_file_propagates_an_io_error() {
    let outcome =
        DatapackAdvancement::verify("my_pack", GoverningFile::Unreadable("denied".to_owned()));
    assert_eq!(outcome, Err(ConventionError::Io("denied".to_owned())));
}

#[test]
fn malformed_governing_file_propagates_a_parse_error() {
    let outcome = DatapackAdvancement::verify(
        "my_pack",
        GoverningFile::Malformed("expected value at line 1 column 1".to_owned()),
    );
    assert_eq!(
        outcome,
        Err(ConventionError::Serde("expected value at line 1 column 1".to_owned()))
    );
}

#[test]
fn compliant_datapack_is_valid() {
    let file = GoverningFile::Parsed(compliant_document(), COMPLIANT_SOURCE.to_owned());
    let outcome = DatapackAdvancement::verify("my_pack", file);
    assert_eq!(outcome, Ok(Verify::Valid));
}

#[test]
fn violated_invariant_becomes_invalid_root_format() {
    let mut document = compliant_document();
    document.display.show_toast = true;
    let source = COMPLIANT_SOURCE.replace(r#""show_toast":false"#, r#""show_toast":true"#);
    let file = GoverningFile::Parsed(document, source.clone());
    let outcome = DatapackAdvancement::verify("my_pack", file);
    assert_eq!(
        outcome,
        Ok(Verify::InvalidRootFormat(
            "my_pack/data/global/advancements/root.json".to_owned(),
            GlobalRootError::InvalidShowToast(source, "show_toast".to_owned()),
        ))
    );
}

#[test]
fn not_found_report_has_a_stable_code() {
    let (files, diagnostic) = Verify::GlobalRootNotFound.report().unwrap();
    assert!(files.entries.is_empty());
    assert_eq!(diagnostic.severity, Severity::Error);
    assert_eq!(diagnostic.code, Some("MC001".to_owned()));
    assert_eq!(
        diagnostic.message,
        "Cannot find global root json for `Datapack Advancement` convention"
    );
    assert!(diagnostic.labels.is_empty());
    assert_eq!(
        diagnostic.notes,
        vec!["Cannot find `data/global/advancments/root.json`".to_owned()]
    );
}

#[test]
fn not_found_report_is_equal_across_repeated_runs() {
    let first = Verify::GlobalRootNotFound.report().unwrap();
    let second = Verify::GlobalRootNotFound.report().unwrap();
    assert_eq!(first.1.code, second.1.code);
    assert_eq!(first, second);
}

#[test]
fn valid_report_is_an_informational_note() {
    let (files, diagnostic) = Verify::Valid.report().unwrap();
    assert!(files.entries.is_empty());
    assert_eq!(diagnostic.severity, Severity::Note);
    assert_eq!(diagnostic.code, Some("MC000".to_owned()));
    assert_eq!(
        diagnostic.message,
        "This datapack is following `Datapack Advancement` correctly!"
    );
    assert!(diagnostic.labels.is_empty());
    assert!(diagnostic.notes.is_empty());
}

#[test]
fn nothing_reports_nothing() {
    assert_eq!(Verify::Nothing.report(), None);
}

#[test]
fn invalid_root_format_report_names_the_governing_file() {
    let source = COMPLIANT_SOURCE.replace(r#""show_toast":false"#, r#""show_toast":true"#);
    let error = GlobalRootError::InvalidShowToast(source.clone(), "show_toast".to_owned());
    let outcome = Verify::InvalidRootFormat("my_pack/root.json".to_owned(), error);
    let (files, diagnostic) = outcome.report().unwrap();
    assert_eq!(files.entries[0].0, "my_pack/root.json");
    assert_eq!(files.entries[0].1, source);
    assert_eq!(diagnostic.message, "Invalid `show_toast`");
}

#[test]
fn aggregator_delegates_to_the_wrapped_outcome() {
    let wrapped = VerifyConvention::from(Verify::GlobalRootNotFound);
    let (_, diagnostic) = wrapped.report().unwrap();
    assert_eq!(diagnostic.code, Some("MC001".to_owned()));

    let silent = VerifyConvention::from(Verify::Nothing);
    assert_eq!(silent.report(), None);
}

#[test]
fn convention_error_messages() {
    assert_eq!(ConventionError::Io("denied".to_owned()).message(), "I/O error: denied");
    assert_eq!(
        ConventionError::Serde("eof while parsing".to_owned()).message(),
        "Serde: eof while parsing"
    );
}
