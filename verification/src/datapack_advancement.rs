//! The datapack advancement convention: where its governing file lives
//! inside a datapack, how the outcome of one verify pass is folded into a
//! small closed set, and how each outcome renders itself as an optional
//! diagnostic.

use vstd::prelude::*;
use vstd::string::*;
use crate::conventions::ConventionError;
use crate::diagnostic::{Diagnostic, Files};
use crate::global_root::{GlobalRoot, GlobalRootError};

verus! {

/// The governing file's path relative to the datapack root.
pub open spec fn spec_global_root_path(root: Seq<char>) -> Seq<char> {
    root + "/data/global/advancements/root.json"@
}

/// What the edge that touches the filesystem hands the verify pass: the
/// governing file was absent, unreadable, unparsable, or parsed into a
/// document together with its raw source text. The carried strings are the
/// underlying failure descriptions.
#[derive(Debug, Clone, PartialEq)]
pub enum GoverningFile {
    Missing,
    Unreadable(String),
    Malformed(String),
    Parsed(GlobalRoot, String),
}

/// The outcome of one verify pass of this convention.
#[derive(Debug, Clone, PartialEq)]
pub enum Verify {
    GlobalRootNotFound,
    InvalidRootFormat(String, GlobalRootError),
    Valid,
    Nothing,
}

/// The datapack advancement convention itself.
#[derive(Debug, Clone, Copy, PartialEq, Eq)]
pub struct DatapackAdvancement;

impl DatapackAdvancement {
    /// The governing file's path under the given datapack root.
    pub fn global_root(root: &str) -> (r: String)
        ensures
            r@ == spec_global_root_path(root@),
    {
        let mut r = root.to_owned();
        r.append("/data/global/advancements/root.json");
        r
    }

    /// Folds what the filesystem edge found at the governing file's path
    /// into this convention's outcome: an absent file is the reportable
    /// `GlobalRootNotFound` outcome, not an error; a read or parse failure
    /// is propagated as a hard error; a parsed document is verified, and a
    /// violated invariant becomes the `InvalidRootFormat` outcome carrying
    /// the governing file's path.
    pub fn verify(root: &str, file: GoverningFile) -> (r: Result<Verify, ConventionError>)
        ensures
            file is Missing ==> (r matches Ok(v) && v is GlobalRootNotFound),
            file matches GoverningFile::Unreadable(m)
                ==> (r matches Err(ConventionError::Io(e)) && e@ == m@),
            file matches GoverningFile::Malformed(m)
                ==> (r matches Err(ConventionError::Serde(e)) && e@ == m@),
            file matches GoverningFile::Parsed(content, source) ==> {
                &&& content.valid() ==> (r matches Ok(v) && v is Valid)
                &&& !content.valid() ==> (r matches Ok(v)
                    && v matches Verify::InvalidRootFormat(p, e)
                    && p@ == spec_global_root_path(root@)
                    && content.verify_ensures(source@, Err(e)))
            },
    {
        let global_root = Self::global_root(root);

        match file {
            GoverningFile::Missing => Ok(Verify::GlobalRootNotFound),
            GoverningFile::Unreadable(m) => Err(ConventionError::Io(m)),
            GoverningFile::Malformed(m) => Err(ConventionError::Serde(m)),
            GoverningFile::Parsed(content, source) => {
                if let Err(format_error) = content.verify(source.as_str()) {
                    return Ok(Verify::InvalidRootFormat(global_root, format_error));
                }

                Ok(Verify::Valid)
            },
        }
    }
}

impl Verify {
    /// Whether the diagnostic mapping may be asked for this outcome: a
    /// violated invariant's token must occur quoted in its source text.
    pub open spec fn locatable(self) -> bool {
        match self {
            Verify::InvalidRootFormat(_, e) => e.locatable(),
            _ => true,
        }
    }

    /// The optional diagnostic each outcome renders to. An absent
    /// governing file and a compliant datapack each render to a fixed
    /// diagnostic with a stable code; a violated invariant renders to that
    /// failure's own diagnostic, naming the governing file; the silent
    /// outcome renders to nothing.
    pub open spec fn report_ensures(self, r: Option<(Files, Diagnostic)>) -> bool {
        match self {
            Verify::GlobalRootNotFound => r matches Some((files, d)) && {
                &&& files.entries@.len() == 0
                &&& d.severity is Error
                &&& (d.code matches Some(c) && c@ == "MC001"@)
                &&& d.message@
                    == "Cannot find global root json for `Datapack Advancement` convention"@
                &&& d.labels@.len() == 0
                &&& d.notes@.len() == 1
                &&& d.notes@[0]@ == "Cannot find `data/global/advancments/root.json`"@
            },
            Verify::InvalidRootFormat(p, e) => r matches Some((files, d)) && {
                &&& e.reported(p@, files, d)
                &&& d.labels_registered(files)
            },
            Verify::Valid => r matches Some((files, d)) && {
                &&& files.entries@.len() == 0
                &&& d.severity is Note
                &&& (d.code matches Some(c) && c@ == "MC000"@)
                &&& d.message@ == "This datapack is following `Datapack Advancement` correctly!"@
                &&& d.labels@.len() == 0
                &&& d.notes@.len() == 0
            },
            Verify::Nothing => r is None,
        }
    }

    /// Renders this outcome as an optional diagnostic. The mapping is
    /// total over locatable outcomes: every reachable outcome renders to
    /// `Some` or `None`, never fails.
    pub fn report(&self) -> (r: Option<(Files, Diagnostic)>)
        requires
            self.locatable(),
        ensures
            self.report_ensures(r),
    {
        match self {
            Self::GlobalRootNotFound => {
                let files = Files::new();
                let diagnostic = Diagnostic::error()
                    .with_code("MC001")
                    .with_message(
                        "Cannot find global root json for `Datapack Advancement` convention",
                    )
                    .with_notes(vec![
                        "Cannot find `data/global/advancments/root.json`".to_owned(),
                    ]);

                Some((files, diagnostic))
            },
            Self::InvalidRootFormat(path, error) => error.report(path.clone()),
            Self::Valid => {
                let files = Files::new();
                let diagnostic = Diagnostic::note().with_code("MC000").with_message(
                    "This datapack is following `Datapack Advancement` correctly!",
                );

                Some((files, diagnostic))
            },
            Self::Nothing => None,
        }
    }
}

} // verus!
