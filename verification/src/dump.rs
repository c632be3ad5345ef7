//! A description of a macro call for log lines.

use vstd::prelude::*;
use vstd::string::StringExecFns;
use crate::location::MacroCallId;
use crate::text::{debug_quoted, join, joined, quote};

verus! {

/// The description of a macro call: the path of the file that the call
/// comes from in the end, quoted; the source text of the call, token by
/// token with one space between each two; and whether its macro has
/// rules.
pub open spec fn dump_text(
    quoted_path: Seq<char>,
    call_text: Seq<Seq<char>>,
    has_rules: bool,
) -> Seq<char> {
    let rules = if has_rules {
        "true"@
    } else {
        "false"@
    };
    "macro call [file: "@ + quoted_path + "] : "@ + joined(call_text) + "\nhas rules: "@ + rules
}

/// Puts the description of a macro call together from its parts:
/// `quoted_path` is the path of the file as it is to be shown, quotes
/// included, `call_text` the tokens of the call as written, and
/// `has_rules` says whether a rule set was resolved for its macro.
pub fn dump_of(quoted_path: &str, call_text: &Vec<String>, has_rules: bool) -> (dump: String)
    ensures
        dump@ == dump_text(quoted_path@, call_text.deep_view(), has_rules),
{
    let mut dump = String::from_str("macro call [file: ");
    dump.append(quoted_path);
    dump.append("] : ");
    dump.append(join(call_text).as_str());
    dump.append("\nhas rules: ");
    if has_rules {
        dump.append("true");
    } else {
        dump.append("false");
    }
    dump
}

impl MacroCallId {
    /// Describes a macro call for a log line. It serves warnings only
    /// and plays no part where expansion succeeds.
    ///
    /// `path` is the display path of the real file that the call comes
    /// from in the end, `call_text` the tokens of the call as written,
    /// and `has_rules` says whether a rule set was resolved for its
    /// macro. The path is shown quoted, the tokens with one space
    /// between each two.
    pub fn debug_dump(path: &str, call_text: &Vec<String>, has_rules: bool) -> (dump: String)
        ensures
            dump@ == dump_text(debug_quoted(path@), call_text.deep_view(), has_rules),
    {
        let quoted = quote(path);
        dump_of(quoted.as_str(), call_text, has_rules)
    }
}

} // verus!
