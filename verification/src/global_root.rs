//! The sample convention's document model: the expected shape of the global
//! root advancement document, its field invariants, and the closed set of
//! validation-failure variants. `verify` walks the fields in a fixed
//! priority order and returns the first violated invariant; each failure
//! carries the raw source text and the offending token so a diagnostic can
//! later point at the exact span without re-parsing.

use vstd::prelude::*;
use crate::diagnostic::{Diagnostic, Files, Label, LabelStyle};
use crate::span::{first_occurrence_at, locate, occurs, spec_quoted, str_eq};

verus! {

/// A validation failure of the global root advancement document. Every
/// variant that needs a source location carries the full document text and
/// the literal token to be located within it.
#[derive(Debug, Clone, PartialEq)]
pub enum GlobalRootError {
    InvalidTrigger(String, String),
    InvalidIcon(String, String),
    InvalidTitle(String, String),
    InvalidDescription(String, String),
    InvalidBackground(String, String),
    InvalidShowToast(String, String),
    InvalidAnnounceToChat(String, String),
    InvalidCriteria(String),
}

/// `files` holds exactly one registered file with the given name and text.
pub open spec fn single_file(files: Files, name: Seq<char>, source: Seq<char>) -> bool {
    &&& files.entries@.len() == 1
    &&& files.entries@[0].0@ == name
    &&& files.entries@[0].1@ == source
}

/// `label` is a primary label on file 0 covering exactly the first quoted
/// occurrence of `token` in `source`.
pub open spec fn located_label(label: Label, source: Seq<char>, token: Seq<char>) -> bool {
    &&& label.style is Primary
    &&& label.file_id == 0
    &&& first_occurrence_at(source, spec_quoted(token), label.start as int)
    &&& label.end == label.start + spec_quoted(token).len()
}

impl GlobalRootError {
    /// The source text this failure was found in.
    pub open spec fn source_of(self) -> Seq<char> {
        match self {
            GlobalRootError::InvalidTrigger(s, _) => s@,
            GlobalRootError::InvalidIcon(s, _) => s@,
            GlobalRootError::InvalidTitle(s, _) => s@,
            GlobalRootError::InvalidDescription(s, _) => s@,
            GlobalRootError::InvalidBackground(s, _) => s@,
            GlobalRootError::InvalidShowToast(s, _) => s@,
            GlobalRootError::InvalidAnnounceToChat(s, _) => s@,
            GlobalRootError::InvalidCriteria(s) => s@,
        }
    }

    /// The literal token whose quoted form the diagnostic points at.
    pub open spec fn token_of(self) -> Seq<char> {
        match self {
            GlobalRootError::InvalidTrigger(_, t) => t@,
            GlobalRootError::InvalidIcon(_, t) => t@,
            GlobalRootError::InvalidTitle(_, t) => t@,
            GlobalRootError::InvalidDescription(_, t) => t@,
            GlobalRootError::InvalidBackground(_, t) => t@,
            GlobalRootError::InvalidShowToast(_, t) => t@,
            GlobalRootError::InvalidAnnounceToChat(_, t) => t@,
            GlobalRootError::InvalidCriteria(_) => "criteria"@,
        }
    }

    /// The quoted token actually occurs in the carried source text. Every
    /// failure produced by `verify` satisfies this whenever the document
    /// was parsed from that source; violating it is a programming error,
    /// on which the locator is allowed to fail loudly rather than silently
    /// mislocate.
    pub open spec fn locatable(self) -> bool {
        occurs(self.source_of(), spec_quoted(self.token_of()))
    }

    /// The exact diagnostic each failure variant renders to: one file
    /// registered under `name` holding the carried source text, and an
    /// error diagnostic with a single primary label at the first quoted
    /// occurrence of the variant's token, the variant's message, and its
    /// fixed remediation note.
    pub open spec fn reported(self, name: Seq<char>, files: Files, d: Diagnostic) -> bool {
        &&& single_file(files, name, self.source_of())
        &&& d.severity is Error
        &&& d.code is None
        &&& d.labels@.len() == 1
        &&& located_label(d.labels@[0], self.source_of(), self.token_of())
        &&& d.notes@.len() == 1
        &&& match self {
            GlobalRootError::InvalidTrigger(_, _) => {
                &&& d.message@ == "Invalid Trigger"@
                &&& d.labels@[0].message is None
                &&& d.notes@[0]@ == "Change it to `minecraft:tick`"@
            },
            GlobalRootError::InvalidIcon(_, _) => {
                &&& d.message@ == "Invalid Icon"@
                &&& (d.labels@[0].message matches Some(m)
                    && m@ == "Advancement Icon must be `minecraft:knowledge_book`"@)
                &&& d.notes@[0]@ == "Change it to `minecraft:knowledge_book`"@
            },
            GlobalRootError::InvalidTitle(_, _) => {
                &&& d.message@ == "Invalid Title"@
                &&& (d.labels@[0].message matches Some(m)
                    && m@ == "Advancement Title must be `Installed Datapacks`"@)
                &&& d.notes@[0]@ == "Change it to `Installed Datapacks`"@
            },
            GlobalRootError::InvalidDescription(_, _) => {
                &&& d.message@ == "Invalid Description"@
                &&& (d.labels@[0].message matches Some(m)
                    && m@ == "Advancement Description must be empty"@)
                &&& d.notes@[0]@ == "Change it to \"\""@
            },
            GlobalRootError::InvalidBackground(_, _) => {
                &&& d.message@ == "Invalid Background"@
                &&& (d.labels@[0].message matches Some(m)
                    && m@ == "Advancement Background must be `gray_concrete.png`"@)
                &&& d.notes@[0]@ == "Change it to `minecraft:textures/block/gray_concrete.png`"@
            },
            GlobalRootError::InvalidShowToast(_, _) => {
                &&& d.message@ == "Invalid `show_toast`"@
                &&& (d.labels@[0].message matches Some(m) && m@ == "`show_toast` should be `false`"@)
                &&& d.notes@[0]@ == "Change it to `false`"@
            },
            GlobalRootError::InvalidAnnounceToChat(_, _) => {
                &&& d.message@ == "Invalid `announce_to_chat`"@
                &&& (d.labels@[0].message matches Some(m)
                    && m@ == "`announce_to_chat` should be `false`"@)
                &&& d.notes@[0]@ == "Change it to `false`"@
            },
            GlobalRootError::InvalidCriteria(_) => {
                &&& d.message@ == "Too many criteria"@
                &&& d.labels@[0].message is None
                &&& d.notes@[0]@ == "There must be exactly one criteria"@
            },
        }
    }

    /// Registers the carried source text under `name` and locates the
    /// variant's token in it.
    fn keyword_searcher(
        &self,
        name: String,
        source: &str,
        keyword: &str,
        files: &mut Files,
    ) -> (r: (usize, (usize, usize)))
        requires
            occurs(source@, spec_quoted(keyword@)),
        ensures
            final(files).entries@.len() == old(files).entries@.len() + 1,
            final(files).entries@[old(files).entries@.len() as int].0@ == name@,
            final(files).entries@[old(files).entries@.len() as int].1@ == source@,
            forall|k: int| 0 <= k < old(files).entries@.len()
                ==> final(files).entries@[k] == old(files).entries@[k],
            r.0 == old(files).entries@.len(),
            first_occurrence_at(source@, spec_quoted(keyword@), r.1.0 as int),
            r.1.1 == r.1.0 + spec_quoted(keyword@).len(),
    {
        let file_id = files.add(name, source.to_owned());
        let range = locate(source, keyword);

        (file_id, range)
    }

    /// Renders this failure as a diagnostic, naming the governing file
    /// `name` in the file registry. The mapping is total: every variant
    /// produces a diagnostic.
    pub fn report(&self, name: String) -> (r: Option<(Files, Diagnostic)>)
        requires
            self.locatable(),
        ensures
            r matches Some((files, d)) && self.reported(name@, files, d)
                && d.labels_registered(files),
    {
        match self {
            Self::InvalidTrigger(source, trigger) => {
                let mut files = Files::new();
                let (file_id, range) =
                    self.keyword_searcher(name, source.as_str(), trigger.as_str(), &mut files);
                let diagnostic = Diagnostic::error()
                    .with_labels(vec![Label::new(LabelStyle::Primary, file_id, range.0, range.1)])
                    .with_message("Invalid Trigger")
                    .with_notes(vec!["Change it to `minecraft:tick`".to_owned()]);

                Some((files, diagnostic))
            },
            Self::InvalidIcon(source, token) => {
                let mut files = Files::new();
                let (file_id, range) =
                    self.keyword_searcher(name, source.as_str(), token.as_str(), &mut files);
                let diagnostic = Diagnostic::error()
                    .with_labels(vec![
                        Label::new(LabelStyle::Primary, file_id, range.0, range.1)
                            .with_message("Advancement Icon must be `minecraft:knowledge_book`"),
                    ])
                    .with_message("Invalid Icon")
                    .with_notes(vec!["Change it to `minecraft:knowledge_book`".to_owned()]);

                Some((files, diagnostic))
            },
            Self::InvalidTitle(source, token) => {
                let mut files = Files::new();
                let (file_id, range) =
                    self.keyword_searcher(name, source.as_str(), token.as_str(), &mut files);
                let diagnostic = Diagnostic::error()
                    .with_labels(vec![
                        Label::new(LabelStyle::Primary, file_id, range.0, range.1)
                            .with_message("Advancement Title must be `Installed Datapacks`"),
                    ])
                    .with_message("Invalid Title")
                    .with_notes(vec!["Change it to `Installed Datapacks`".to_owned()]);

                Some((files, diagnostic))
            },
            Self::InvalidDescription(source, token) => {
                let mut files = Files::new();
                let (file_id, range) =
                    self.keyword_searcher(name, source.as_str(), token.as_str(), &mut files);
                let diagnostic = Diagnostic::error()
                    .with_labels(vec![
                        Label::new(LabelStyle::Primary, file_id, range.0, range.1)
                            .with_message("Advancement Description must be empty"),
                    ])
                    .with_message("Invalid Description")
                    .with_notes(vec!["Change it to \"\"".to_owned()]);

                Some((files, diagnostic))
            },
            Self::InvalidBackground(source, token) => {
                let mut files = Files::new();
                let (file_id, range) =
                    self.keyword_searcher(name, source.as_str(), token.as_str(), &mut files);
                let diagnostic = Diagnostic::error()
                    .with_labels(vec![
                        Label::new(LabelStyle::Primary, file_id, range.0, range.1)
                            .with_message("Advancement Background must be `gray_concrete.png`"),
                    ])
                    .with_message("Invalid Background")
                    .with_notes(vec![
                        "Change it to `minecraft:textures/block/gray_concrete.png`".to_owned(),
                    ]);

                Some((files, diagnostic))
            },
            Self::InvalidShowToast(source, token) => {
                let mut files = Files::new();
                let (file_id, range) =
                    self.keyword_searcher(name, source.as_str(), token.as_str(), &mut files);
                let diagnostic = Diagnostic::error()
                    .with_labels(vec![
                        Label::new(LabelStyle::Primary, file_id, range.0, range.1)
                            .with_message("`show_toast` should be `false`"),
                    ])
                    .with_message("Invalid `show_toast`")
                    .with_notes(vec!["Change it to `false`".to_owned()]);

                Some((files, diagnostic))
            },
            Self::InvalidAnnounceToChat(source, token) => {
                let mut files = Files::new();
                let (file_id, range) =
                    self.keyword_searcher(name, source.as_str(), token.as_str(), &mut files);
                let diagnostic = Diagnostic::error()
                    .with_labels(vec![
                        Label::new(LabelStyle::Primary, file_id, range.0, range.1)
                            .with_message("`announce_to_chat` should be `false`"),
                    ])
                    .with_message("Invalid `announce_to_chat`")
                    .with_notes(vec!["Change it to `false`".to_owned()]);

                Some((files, diagnostic))
            },
            Self::InvalidCriteria(source) => {
                let mut files = Files::new();
                let (file_id, range) =
                    self.keyword_searcher(name, source.as_str(), "criteria", &mut files);
                let diagnostic = Diagnostic::error()
                    .with_labels(vec![Label::new(LabelStyle::Primary, file_id, range.0, range.1)])
                    .with_message("Too many criteria")
                    .with_notes(vec!["There must be exactly one criteria".to_owned()]);

                Some((files, diagnostic))
            },
        }
    }
}

/// The advancement's icon object.
#[derive(Debug, Clone, PartialEq)]
pub struct Icon {
    pub item: String,
}

impl Icon {
    /// The icon names the knowledge book item.
    pub open spec fn valid(self) -> bool {
        self.item@ == "minecraft:knowledge_book"@
    }

    /// Checks the icon invariant, reporting the `item` token on failure.
    pub fn verify(&self, source: &str) -> (r: Result<(), GlobalRootError>)
        ensures
            r is Ok <==> self.valid(),
            !self.valid() ==> (r matches Err(GlobalRootError::InvalidIcon(s, t))
                && s@ == source@ && t@ == "item"@),
    {
        if !str_eq(self.item.as_str(), "minecraft:knowledge_book") {
            return Err(GlobalRootError::InvalidIcon(source.to_owned(), "item".to_owned()));
        }

        Ok(())
    }
}

/// One criteria entry's body.
#[derive(Debug, Clone, PartialEq)]
pub struct Criteria {
    pub trigger: String,
}

impl Criteria {
    /// The criteria triggers on every tick.
    pub open spec fn valid(self) -> bool {
        self.trigger@ == "minecraft:tick"@
    }

    /// Checks the trigger invariant, reporting the offending trigger value
    /// itself on failure.
    pub fn verify(&self, source: &str) -> (r: Result<(), GlobalRootError>)
        ensures
            r is Ok <==> self.valid(),
            !self.valid() ==> (r matches Err(GlobalRootError::InvalidTrigger(s, t))
                && s@ == source@ && t@ == self.trigger@),
    {
        if !str_eq(self.trigger.as_str(), "minecraft:tick") {
            return Err(GlobalRootError::InvalidTrigger(
                source.to_owned(),
                self.trigger.clone(),
            ));
        }

        Ok(())
    }
}

/// The advancement's display object.
#[derive(Debug, Clone, PartialEq)]
pub struct Display {
    pub title: String,
    pub description: String,
    pub icon: Icon,
    pub background: String,
    pub show_toast: bool,
    pub announce_to_chat: bool,
}

impl Display {
    pub open spec fn title_ok(self) -> bool {
        self.title@ == "Installed Datapacks"@
    }

    pub open spec fn description_ok(self) -> bool {
        self.description@.len() == 0
    }

    pub open spec fn icon_ok(self) -> bool {
        self.icon.valid()
    }

    pub open spec fn background_ok(self) -> bool {
        self.background@ == "minecraft:textures/block/gray_concrete.png"@
    }

    pub open spec fn show_toast_ok(self) -> bool {
        self.show_toast == false
    }

    pub open spec fn announce_to_chat_ok(self) -> bool {
        self.announce_to_chat == false
    }

    /// Every display field invariant holds.
    pub open spec fn valid(self) -> bool {
        &&& self.title_ok()
        &&& self.description_ok()
        &&& self.icon_ok()
        &&& self.background_ok()
        &&& self.show_toast_ok()
        &&& self.announce_to_chat_ok()
    }

    /// What `verify` returns: success exactly when every field invariant
    /// holds, and otherwise the variant of the first violated field in
    /// priority order (title, description, icon, background, show_toast,
    /// announce_to_chat).
    pub open spec fn verify_ensures(self, source: Seq<char>, r: Result<(), GlobalRootError>) -> bool {
        &&& (r is Ok <==> self.valid())
        &&& (!self.title_ok() ==> (r matches Err(GlobalRootError::InvalidTitle(s, t))
            && s@ == source && t@ == "title"@))
        &&& (self.title_ok() && !self.description_ok()
            ==> (r matches Err(GlobalRootError::InvalidDescription(s, t))
            && s@ == source && t@ == "description"@))
        &&& (self.title_ok() && self.description_ok() && !self.icon_ok()
            ==> (r matches Err(GlobalRootError::InvalidIcon(s, t))
            && s@ == source && t@ == "item"@))
        &&& (self.title_ok() && self.description_ok() && self.icon_ok() && !self.background_ok()
            ==> (r matches Err(GlobalRootError::InvalidBackground(s, t))
            && s@ == source && t@ == "background"@))
        &&& (self.title_ok() && self.description_ok() && self.icon_ok() && self.background_ok()
            && !self.show_toast_ok()
            ==> (r matches Err(GlobalRootError::InvalidShowToast(s, t))
            && s@ == source && t@ == "show_toast"@))
        &&& (self.title_ok() && self.description_ok() && self.icon_ok() && self.background_ok()
            && self.show_toast_ok() && !self.announce_to_chat_ok()
            ==> (r matches Err(GlobalRootError::InvalidAnnounceToChat(s, t))
            && s@ == source && t@ == "announce_to_chat"@))
    }

    /// Checks every display field invariant, returning the first violated
    /// one in priority order.
    pub fn verify(&self, source: &str) -> (r: Result<(), GlobalRootError>)
        ensures
            self.verify_ensures(source@, r),
    {
        if !str_eq(self.title.as_str(), "Installed Datapacks") {
            return Err(GlobalRootError::InvalidTitle(source.to_owned(), "title".to_owned()));
        }
        if !self.description.as_str().is_empty() {
            return Err(GlobalRootError::InvalidDescription(
                source.to_owned(),
                "description".to_owned(),
            ));
        }
        self.icon.verify(source)?;
        if !str_eq(self.background.as_str(), "minecraft:textures/block/gray_concrete.png") {
            return Err(GlobalRootError::InvalidBackground(
                source.to_owned(),
                "background".to_owned(),
            ));
        }
        if self.show_toast {
            return Err(GlobalRootError::InvalidShowToast(
                source.to_owned(),
                "show_toast".to_owned(),
            ));
        }
        if self.announce_to_chat {
            return Err(GlobalRootError::InvalidAnnounceToChat(
                source.to_owned(),
                "announce_to_chat".to_owned(),
            ));
        }

        Ok(())
    }
}

/// The global root advancement document: a display object and the named
/// criteria entries, in source order, with their names.
#[derive(Debug, Clone, PartialEq)]
pub struct GlobalRoot {
    pub display: Display,
    pub criteria: Vec<(String, Criteria)>,
}

impl GlobalRoot {
    /// Every criteria entry's trigger invariant holds.
    pub open spec fn triggers_ok(self) -> bool {
        forall|i: int| 0 <= i < self.criteria@.len() ==> (#[trigger] self.criteria@[i]).1.valid()
    }

    /// There is exactly one criteria entry.
    pub open spec fn criteria_count_ok(self) -> bool {
        self.criteria@.len() == 1
    }

    /// Every invariant of the document holds.
    pub open spec fn valid(self) -> bool {
        &&& self.display.valid()
        &&& self.triggers_ok()
        &&& self.criteria_count_ok()
    }

    /// What `verify` returns: success exactly when the whole document is
    /// valid, and otherwise the first violated invariant in priority order
    /// — the display fields, then each criteria entry's trigger in source
    /// order, then the criteria count.
    pub open spec fn verify_ensures(self, source: Seq<char>, r: Result<(), GlobalRootError>) -> bool {
        &&& (r is Ok <==> self.valid())
        &&& (!self.display.valid() ==> self.display.verify_ensures(source, r))
        &&& (self.display.valid() && !self.triggers_ok()
            ==> (r matches Err(GlobalRootError::InvalidTrigger(s, t))
            && s@ == source
            && exists|i: int|
                {
                    &&& 0 <= i < self.criteria@.len()
                    &&& !(#[trigger] self.criteria@[i]).1.valid()
                    &&& forall|k: int| 0 <= k < i ==> (#[trigger] self.criteria@[k]).1.valid()
                    &&& t@ == self.criteria@[i].1.trigger@
                }))
        &&& (self.display.valid() && self.triggers_ok() && !self.criteria_count_ok()
            ==> (r matches Err(GlobalRootError::InvalidCriteria(s)) && s@ == source))
    }

    /// Checks every invariant of the document in priority order — the
    /// display fields, then each criteria entry's trigger, then the
    /// criteria count — and returns the first violated one. Success is
    /// returned exactly when the whole document is valid.
    pub fn verify(&self, source: &str) -> (r: Result<(), GlobalRootError>)
        ensures
            self.verify_ensures(source@, r),
    {
        match self.display.verify(source) {
            Err(e) => {
                return Err(e);
            },
            Ok(()) => {},
        }

        let mut i: usize = 0;
        while i < self.criteria.len()
            invariant
                self.display.valid(),
                0 <= i <= self.criteria@.len(),
                forall|k: int| 0 <= k < i ==> (#[trigger] self.criteria@[k]).1.valid(),
            decreases self.criteria@.len() - i,
        {
            match self.criteria[i].1.verify(source) {
                Err(e) => {
                    return Err(e);
                },
                Ok(()) => {},
            }
            i += 1;
        }

        if self.criteria.len() != 1 {
            return Err(GlobalRootError::InvalidCriteria(source.to_owned()));
        }

        Ok(())
    }
}

/// The document's key tokens and every criteria trigger value occur,
/// quoted, in `source` — as they do whenever the document was parsed from
/// that source.
pub open spec fn tokens_present(document: GlobalRoot, source: Seq<char>) -> bool {
    &&& occurs(source, spec_quoted("title"@))
    &&& occurs(source, spec_quoted("description"@))
    &&& occurs(source, spec_quoted("item"@))
    &&& occurs(source, spec_quoted("background"@))
    &&& occurs(source, spec_quoted("show_toast"@))
    &&& occurs(source, spec_quoted("announce_to_chat"@))
    &&& occurs(source, spec_quoted("criteria"@))
    &&& forall|i: int| 0 <= i < document.criteria@.len()
        ==> occurs(source, spec_quoted((#[trigger] document.criteria@[i]).1.trigger@))
}

/// The producer's half of the error invariant: every failure `verify`
/// returns carries the source it was given and a token that occurs,
/// quoted, in that source, provided the source contains the document's
/// quoted key names and trigger values. Such a failure may therefore
/// always be handed to `report`.
pub proof fn lemma_verify_failure_is_locatable(
    document: GlobalRoot,
    source: Seq<char>,
    e: GlobalRootError,
)
    requires
        document.verify_ensures(source, Err(e)),
        tokens_present(document, source),
    ensures
        e.locatable(),
        e.source_of() == source,
{
    let d = document.display;
    if d.valid() && !document.triggers_ok() {
        match e {
            GlobalRootError::InvalidTrigger(_, t) => {
                let i = choose|i: int|
                    {
                        &&& 0 <= i < document.criteria@.len()
                        &&& !(#[trigger] document.criteria@[i]).1.valid()
                        &&& forall|k: int| 0 <= k < i
                            ==> (#[trigger] document.criteria@[k]).1.valid()
                        &&& t@ == document.criteria@[i].1.trigger@
                    };
                assert(occurs(source, spec_quoted(document.criteria@[i].1.trigger@)));
            },
            _ => {},
        }
    }
}

} // verus!
