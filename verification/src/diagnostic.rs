//! Renderer-agnostic diagnostic values: an immutable bundle of severity,
//! message, labeled spans, optional code and free-text notes, together with
//! a per-diagnostic registry of file names and their source text. A
//! collaborator outside this library turns these into terminal output.

use vstd::prelude::*;

verus! {

/// How serious a reported condition is.
#[derive(Debug, Clone, Copy, PartialEq, Eq)]
pub enum Severity {
    Error,
    Note,
}

/// Whether a labeled span is the main subject of its diagnostic or
/// supporting context.
#[derive(Debug, Clone, Copy, PartialEq, Eq)]
pub enum LabelStyle {
    Primary,
    Secondary,
}

/// A registry of the files a diagnostic refers to. Identifiers are
/// sequential integers assigned at registration; every file identifier a
/// label carries must have been registered in the same registry instance.
/// The registry owns its own copy of each file's text.
#[derive(Debug, Clone, PartialEq)]
pub struct Files {
    /// Registered files, in registration order: `(name, source text)`.
    pub entries: Vec<(String, String)>,
}

impl Files {
    /// An empty registry.
    pub fn new() -> (r: Files)
        ensures
            r.entries@ =~= Seq::<(String, String)>::empty(),
    {
        Files { entries: Vec::new() }
    }

    /// Registers a file and returns its identifier, the next sequential
    /// integer.
    pub fn add(&mut self, name: String, source: String) -> (id: usize)
        ensures
            final(self).entries@ == old(self).entries@.push((name, source)),
            id == old(self).entries@.len(),
    {
        let id = self.entries.len();
        self.entries.push((name, source));
        id
    }
}

/// A span of a registered file's text, underlined when the diagnostic is
/// rendered. `start` and `end` are character offsets into that file's
/// source text.
#[derive(Debug, Clone, PartialEq)]
pub struct Label {
    pub style: LabelStyle,
    pub file_id: usize,
    pub start: usize,
    pub end: usize,
    pub message: Option<String>,
}

impl Label {
    /// A label without a sub-message.
    pub fn new(style: LabelStyle, file_id: usize, start: usize, end: usize) -> (r: Label)
        ensures
            r.style == style,
            r.file_id == file_id,
            r.start == start,
            r.end == end,
            r.message is None,
    {
        Label { style, file_id, start, end, message: None }
    }

    /// The same label with the given sub-message attached.
    pub fn with_message(self, message: &str) -> (r: Label)
        ensures
            r.style == self.style,
            r.file_id == self.file_id,
            r.start == self.start,
            r.end == self.end,
            r.message matches Some(m) && m@ == message@,
    {
        Label { message: Some(message.to_owned()), ..self }
    }
}

/// A reportable condition: severity, primary message, labeled spans, an
/// optional stable code, and remediation notes. Constructed fresh per
/// report call and consumed immediately by the renderer.
#[derive(Debug, Clone, PartialEq)]
pub struct Diagnostic {
    pub severity: Severity,
    pub code: Option<String>,
    pub message: String,
    pub labels: Vec<Label>,
    pub notes: Vec<String>,
}

impl Diagnostic {
    /// An empty diagnostic of the given severity.
    pub fn new(severity: Severity) -> (r: Diagnostic)
        ensures
            r.severity == severity,
            r.code is None,
            r.message@ == Seq::<char>::empty(),
            r.labels@ =~= Seq::<Label>::empty(),
            r.notes@ =~= Seq::<String>::empty(),
    {
        Diagnostic {
            severity,
            code: None,
            message: String::new(),
            labels: Vec::new(),
            notes: Vec::new(),
        }
    }

    /// An empty error-severity diagnostic.
    pub fn error() -> (r: Diagnostic)
        ensures
            r.severity is Error,
            r.code is None,
            r.message@ == Seq::<char>::empty(),
            r.labels@ =~= Seq::<Label>::empty(),
            r.notes@ =~= Seq::<String>::empty(),
    {
        Diagnostic::new(Severity::Error)
    }

    /// An empty note-severity diagnostic.
    pub fn note() -> (r: Diagnostic)
        ensures
            r.severity is Note,
            r.code is None,
            r.message@ == Seq::<char>::empty(),
            r.labels@ =~= Seq::<Label>::empty(),
            r.notes@ =~= Seq::<String>::empty(),
    {
        Diagnostic::new(Severity::Note)
    }

    /// The same diagnostic with the given stable code.
    pub fn with_code(self, code: &str) -> (r: Diagnostic)
        ensures
            r.severity == self.severity,
            r.code matches Some(c) && c@ == code@,
            r.message == self.message,
            r.labels == self.labels,
            r.notes == self.notes,
    {
        Diagnostic { code: Some(code.to_owned()), ..self }
    }

    /// The same diagnostic with the given primary message.
    pub fn with_message(self, message: &str) -> (r: Diagnostic)
        ensures
            r.severity == self.severity,
            r.code == self.code,
            r.message@ == message@,
            r.labels == self.labels,
            r.notes == self.notes,
    {
        Diagnostic { message: message.to_owned(), ..self }
    }

    /// The same diagnostic with the given labels.
    pub fn with_labels(self, labels: Vec<Label>) -> (r: Diagnostic)
        ensures
            r.severity == self.severity,
            r.code == self.code,
            r.message == self.message,
            r.labels == labels,
            r.notes == self.notes,
    {
        Diagnostic { labels, ..self }
    }

    /// The same diagnostic with the given notes.
    pub fn with_notes(self, notes: Vec<String>) -> (r: Diagnostic)
        ensures
            r.severity == self.severity,
            r.code == self.code,
            r.message == self.message,
            r.labels == self.labels,
            r.notes == notes,
    {
        Diagnostic { notes, ..self }
    }

    /// Every file identifier referenced by a label of this diagnostic is
    /// registered in `files`.
    pub open spec fn labels_registered(self, files: Files) -> bool {
        forall|i: int| 0 <= i < self.labels@.len() ==> self.labels@[i].file_id < files.entries@.len()
    }
}

} // verus!
