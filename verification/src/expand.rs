//! The steps by which a macro definition is resolved and a macro call is
//! expanded, and the ways in which either can fail.
//!
//! Token trees and rule sets belong to the macro engine. This module
//! decides what the engine is asked next and what its answers mean; it
//! never sees the trees themselves.

use vstd::prelude::*;
use vstd::string::StringExecFns;
use crate::database::Database;
use crate::location::{MacroCallId, MacroCallLoc, MacroDefId};
use crate::text::{decimal, to_decimal};

verus! {

/// The most tokens that the output of one expansion may have. It stops
/// an expansion that runs away before its output reaches the parser.
pub const TOKEN_LIMIT: usize = 65536;

/// Why a macro call has no expansion, or a macro definition no rules.
#[derive(Debug, PartialEq, Eq)]
pub enum ExpansionError {
    /// No token tree could be had from the call, or from the definition:
    /// it has none, or none that converts to the engine's form.
    MissingArgument,
    /// The definition that the call names has no rule set.
    MissingDefinition,
    /// The definition's token tree is not a rule set.
    MalformedDefinition,
    /// No rule matched the argument, or substitution failed. Holds what
    /// the macro engine said of it.
    ExpansionMismatch(String),
    /// The output has this many tokens, more than [`TOKEN_LIMIT`].
    TokenLimitExceeded(usize),
}

impl ExpansionError {
    /// The text of [`message`](ExpansionError::message).
    pub open spec fn message_text(self) -> Seq<char> {
        match self {
            ExpansionError::MissingArgument => "Fail to args in to tt::TokenTree"@,
            ExpansionError::MissingDefinition => "Fail to find macro definition"@,
            ExpansionError::MalformedDefinition => "Fail to parse macro definition"@,
            ExpansionError::ExpansionMismatch(reason) => reason@,
            ExpansionError::TokenLimitExceeded(count) => {
                "Total tokens count exceed limit : count = "@ + decimal(count as nat)
            },
        }
    }

    /// The failure in words, for a log line.
    pub fn message(&self) -> (text: String)
        ensures
            text@ == self.message_text(),
    {
        match self {
            ExpansionError::MissingArgument => String::from_str("Fail to args in to tt::TokenTree"),
            ExpansionError::MissingDefinition => String::from_str("Fail to find macro definition"),
            ExpansionError::MalformedDefinition => String::from_str(
                "Fail to parse macro definition",
            ),
            ExpansionError::ExpansionMismatch(reason) => String::from_str(reason.as_str()),
            ExpansionError::TokenLimitExceeded(count) => {
                let mut text = String::from_str("Total tokens count exceed limit : count = ");
                text.append(to_decimal(*count).as_str());
                text
            },
        }
    }
}

/// What the macro engine is asked next while a definition is resolved.
#[derive(Debug, PartialEq, Eq)]
pub enum DefinitionStep {
    /// Load the syntax node of this definition and take its token tree.
    TokenTree(MacroDefId),
    /// Convert the syntax of the token tree into the engine's token tree.
    /// A token tree that does not convert counts as none.
    Conversion,
    /// Parse the engine's token tree into a rule set.
    Rules,
    /// Nothing: the rule set stands, or there is none and this is why.
    Done(Result<(), ExpansionError>),
}

/// What the macro engine found when it did what a [`DefinitionStep`] asked.
#[derive(Debug, Clone, Copy, PartialEq, Eq)]
pub enum DefinitionAnswer {
    /// Whether the definition has a token tree.
    TokenTree(bool),
    /// Whether the conversion gave a token tree.
    Conversion(bool),
    /// Whether the token tree parsed as a rule set.
    Rules(bool),
}

/// What the macro engine is asked next while a call is expanded.
#[derive(Debug, PartialEq, Eq)]
pub enum ExpandStep {
    /// Load the syntax node of this call and take its argument as a
    /// token tree.
    Argument(MacroCallLoc),
    /// Resolve the rule set of this definition.
    Definition(MacroDefId),
    /// Run the rule set against the argument and count the tokens of
    /// what comes out.
    Expansion,
    /// Nothing: with `Ok`, the output may be turned into a list of
    /// items; with `Err`, the call has no expansion and this is why.
    Done(Result<(), ExpansionError>),
}

/// What the macro engine found when it did what an [`ExpandStep`] asked.
#[derive(Debug, PartialEq, Eq)]
pub enum ExpandAnswer {
    /// Whether the call has an argument that is a token tree and
    /// converts to the engine's form.
    Argument(bool),
    /// Whether the definition has a rule set.
    Definition(bool),
    /// The number of tokens in the output, or what the engine said when
    /// no rule applied.
    Expansion(Result<usize, String>),
}

impl DefinitionStep {
    /// The step after `self` once the engine has given `answer`. Each
    /// stage is tried only if the one before it succeeded; an answer to a
    /// question that was not asked changes nothing.
    pub open spec fn next(self, answer: DefinitionAnswer) -> DefinitionStep {
        match (self, answer) {
            (DefinitionStep::TokenTree(_), DefinitionAnswer::TokenTree(found)) => if found {
                DefinitionStep::Conversion
            } else {
                DefinitionStep::Done(Err(ExpansionError::MissingArgument))
            },
            (DefinitionStep::Conversion, DefinitionAnswer::Conversion(found)) => if found {
                DefinitionStep::Rules
            } else {
                DefinitionStep::Done(Err(ExpansionError::MissingArgument))
            },
            (DefinitionStep::Rules, DefinitionAnswer::Rules(found)) => if found {
                DefinitionStep::Done(Ok(()))
            } else {
                DefinitionStep::Done(Err(ExpansionError::MalformedDefinition))
            },
            (step, _) => step,
        }
    }

    /// The step after `self` once the engine has given `answer`.
    pub fn advance(self, answer: DefinitionAnswer) -> (step: DefinitionStep)
        ensures
            step == self.next(answer),
    {
        match (self, answer) {
            (DefinitionStep::TokenTree(_), DefinitionAnswer::TokenTree(found)) => if found {
                DefinitionStep::Conversion
            } else {
                DefinitionStep::Done(Err(ExpansionError::MissingArgument))
            },
            (DefinitionStep::Conversion, DefinitionAnswer::Conversion(found)) => if found {
                DefinitionStep::Rules
            } else {
                DefinitionStep::Done(Err(ExpansionError::MissingArgument))
            },
            (DefinitionStep::Rules, DefinitionAnswer::Rules(found)) => if found {
                DefinitionStep::Done(Ok(()))
            } else {
                DefinitionStep::Done(Err(ExpansionError::MalformedDefinition))
            },
            (step, _) => step,
        }
    }
}

/// How the resolution of a definition ends, given what the macro engine
/// finds at each stage: whether the definition has a token tree, whether
/// that converts to the engine's form, and whether the result parses as
/// a rule set.
pub open spec fn definition_outcome(
    token_tree: bool,
    conversion: bool,
    rules: bool,
) -> Result<(), ExpansionError> {
    if !token_tree || !conversion {
        Err(ExpansionError::MissingArgument)
    } else if !rules {
        Err(ExpansionError::MalformedDefinition)
    } else {
        Ok(())
    }
}

/// The log line for a definition that has no rule set: at which stage
/// its resolution failed, and `shown`, what was looked at there. A
/// definition from which no token tree could be had, be it absent or
/// not convertible, fails "to token tree"; one whose token tree is no
/// rule set fails at "parse".
pub open spec fn definition_warning_text(err: ExpansionError, shown: Seq<char>) -> Seq<char> {
    match err {
        ExpansionError::MissingArgument => "fail on macro_def to token tree: "@ + shown,
        ExpansionError::MalformedDefinition => "fail on macro_def parse: "@ + shown,
        _ => "fail on macro_def: (reason: "@ + err.message_text() + ") "@ + shown,
    }
}

/// What is to be logged once the resolution of a definition is over:
/// nothing if the rule set stands, else one line that says at which
/// stage it failed and holds `shown`, the syntax node or token tree that
/// the failing stage looked at, as the caller prints it.
///
/// A definition without rules is no error to pass on: the caller goes on
/// with no rule set, and this line is all that is left of the failure.
pub fn resolve_definition(
    outcome: Result<(), ExpansionError>,
    shown: String,
) -> (warning: Option<String>)
    ensures
        match outcome {
            Ok(()) => warning is None,
            Err(err) => {
                &&& warning matches Some(line)
                &&& line@ == definition_warning_text(err, shown@)
            },
        },
{
    match outcome {
        Ok(()) => None,
        Err(err) => {
            let mut line = match err {
                ExpansionError::MissingArgument => String::from_str(
                    "fail on macro_def to token tree: ",
                ),
                ExpansionError::MalformedDefinition => String::from_str("fail on macro_def parse: "),
                _ => {
                    let mut line = String::from_str("fail on macro_def: (reason: ");
                    line.append(err.message().as_str());
                    line.append(") ");
                    line
                },
            };
            line.append(shown.as_str());
            Some(line)
        },
    }
}

/// How the expansion of a call ends, given what the macro engine finds
/// at each stage: whether the call has an argument, whether its macro has
/// rules, and what running them gives.
pub open spec fn expansion_outcome(
    argument: bool,
    definition: bool,
    expansion: Result<usize, String>,
) -> Result<(), ExpansionError> {
    if !argument {
        Err(ExpansionError::MissingArgument)
    } else if !definition {
        Err(ExpansionError::MissingDefinition)
    } else {
        match expansion {
            Err(reason) => Err(ExpansionError::ExpansionMismatch(reason)),
            Ok(count) => if count > TOKEN_LIMIT {
                Err(ExpansionError::TokenLimitExceeded(count))
            } else {
                Ok(())
            },
        }
    }
}

/// The first step in resolving the definition `id`.
pub fn macro_def_query(id: MacroDefId) -> (step: DefinitionStep)
    ensures
        step == DefinitionStep::TokenTree(id),
{
    DefinitionStep::TokenTree(id)
}

/// The first step in expanding the call `macro_call_id`: its argument is
/// asked for at the call site, and the definition kept for later is the
/// one that the call names.
pub fn parse_macro(db: &Database, macro_call_id: MacroCallId) -> (step: ExpandStep)
    requires
        macro_call_id.0 < db@.macro_calls.len(),
    ensures
        step == ExpandStep::Argument(db@.macro_calls[macro_call_id.0 as int]),
{
    ExpandStep::Argument(macro_call_id.loc(db))
}

impl ExpandStep {
    /// The step after `self` once the engine has given `answer`.
    ///
    /// The definition is asked for only once the call is known to have
    /// an argument, and the rules are run only once both are there. An
    /// output of more than [`TOKEN_LIMIT`] tokens is a failure, however
    /// well the rules matched. An answer to a question that was not
    /// asked changes nothing.
    pub open spec fn next(self, answer: ExpandAnswer) -> ExpandStep {
        match (self, answer) {
            (ExpandStep::Argument(loc), ExpandAnswer::Argument(found)) => if found {
                ExpandStep::Definition(loc.def)
            } else {
                ExpandStep::Done(Err(ExpansionError::MissingArgument))
            },
            (ExpandStep::Definition(_), ExpandAnswer::Definition(found)) => if found {
                ExpandStep::Expansion
            } else {
                ExpandStep::Done(Err(ExpansionError::MissingDefinition))
            },
            (ExpandStep::Expansion, ExpandAnswer::Expansion(Ok(count))) => if count > TOKEN_LIMIT {
                ExpandStep::Done(Err(ExpansionError::TokenLimitExceeded(count)))
            } else {
                ExpandStep::Done(Ok(()))
            },
            (ExpandStep::Expansion, ExpandAnswer::Expansion(Err(reason))) => ExpandStep::Done(
                Err(ExpansionError::ExpansionMismatch(reason)),
            ),
            (step, _) => step,
        }
    }

    /// The step after `self` once the engine has given `answer`.
    pub fn advance(self, answer: ExpandAnswer) -> (step: ExpandStep)
        ensures
            step == self.next(answer),
    {
        match (self, answer) {
            (ExpandStep::Argument(loc), ExpandAnswer::Argument(found)) => if found {
                ExpandStep::Definition(loc.def)
            } else {
                ExpandStep::Done(Err(ExpansionError::MissingArgument))
            },
            (ExpandStep::Definition(_), ExpandAnswer::Definition(found)) => if found {
                ExpandStep::Expansion
            } else {
                ExpandStep::Done(Err(ExpansionError::MissingDefinition))
            },
            (ExpandStep::Expansion, ExpandAnswer::Expansion(Ok(count))) => if count > TOKEN_LIMIT {
                ExpandStep::Done(Err(ExpansionError::TokenLimitExceeded(count)))
            } else {
                ExpandStep::Done(Ok(()))
            },
            (ExpandStep::Expansion, ExpandAnswer::Expansion(Err(reason))) => ExpandStep::Done(
                Err(ExpansionError::ExpansionMismatch(reason)),
            ),
            (step, _) => step,
        }
    }
}

} // verus!
