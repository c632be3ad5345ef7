//! The syntax of a file: where it comes from, and what stands in for it
//! when a macro call cannot be expanded.

use vstd::prelude::*;
use vstd::string::StringExecFns;
use ra_syntax::File;
use crate::database::Database;
use crate::expand::{parse_macro, ExpandStep, ExpansionError};
use crate::location::{FileId, HirFileId, HirFileIdRepr};

verus! {

/// `ra_syntax::File`, the syntax tree of one file. Nothing of what is
/// inside a tree is visible here but the text that it spells, through
/// [`file_text`].
#[verifier::external_type_specification]
#[verifier::external_body]
pub struct ExFile(File);

/// The text that the tokens of `file` spell, from first to last.
pub uninterp spec fn file_text(file: File) -> Seq<char>;

/// `ra_syntax::File::parse`, for the empty text only: the parser has
/// nothing to reject in it. The tree that comes back spells the text that
/// went in, here none.
#[verifier::external_body]
fn parse(text: &str) -> (file: File)
    requires
        text@.len() == 0,
    ensures
        file_text(file) == text@,
{
    File::parse(text)
}

/// What has to be done to get the syntax of a file.
#[derive(Debug, PartialEq, Eq)]
pub enum Source {
    /// Parse the text of this real file.
    Text(FileId),
    /// Expand a macro call, beginning with this step.
    Expansion(ExpandStep),
}

/// The syntax that stands for the output of a macro call, and the line to
/// log if it is not the real output.
pub struct MacroContents {
    pub file: File,
    pub warning: Option<String>,
}

/// The log line for a call that could not be expanded: why, and which
/// call it was.
pub open spec fn warning_text(err: ExpansionError, dump: Seq<char>) -> Seq<char> {
    "fail on macro_parse: (reason: "@ + err.message_text() + ") "@ + dump
}

impl HirFileId {
    /// Where the syntax of this file comes from: the parser for a real
    /// file, the expansion of the call for the output of a macro.
    pub fn hir_parse_query(db: &Database, file_id: HirFileId) -> (source: Source)
        requires
            db@.knows_file(file_id),
        ensures
            source == match file_id.0 {
                HirFileIdRepr::File(file) => Source::Text(file),
                HirFileIdRepr::Macro(call) => Source::Expansion(
                    ExpandStep::Argument(db@.macro_calls[call.0 as int]),
                ),
            },
    {
        match file_id.0 {
            HirFileIdRepr::File(file_id) => Source::Text(file_id),
            HirFileIdRepr::Macro(macro_call_id) => Source::Expansion(
                parse_macro(db, macro_call_id),
            ),
        }
    }
}

/// The syntax of the file that a macro call stands for, given how its
/// expansion went: its output, or else why there is none together with
/// the description of the call.
///
/// This is the one place where a failed expansion turns into something
/// else: an empty file, and a line for the log that holds the reason and
/// the description. Nothing of a failed expansion is kept, so a caller
/// always has a tree and never a part of one.
pub fn resolve_expansion(
    outcome: Result<File, (ExpansionError, String)>,
) -> (contents: MacroContents)
    ensures
        match outcome {
            Ok(file) => contents.file == file && contents.warning is None,
            Err((err, dump)) => {
                &&& file_text(contents.file) == Seq::<char>::empty()
                &&& contents.warning matches Some(line)
                &&& line@ == warning_text(err, dump@)
            },
        },
{
    match outcome {
        Ok(file) => MacroContents { file, warning: None },
        Err((err, dump)) => {
            let mut line = String::from_str("fail on macro_parse: (reason: ");
            line.append(err.message().as_str());
            line.append(") ");
            line.append(dump.as_str());
            proof {
                reveal_strlit("");
            }
            MacroContents { file: parse(""), warning: Some(line) }
        },
    }
}

} // verus!
