//! What holds of interning, of the way from a file to its origin, and of
//! expansion, whatever the tables hold and whatever the macro engine
//! finds.

use vstd::prelude::*;
use crate::contents::warning_text;
use crate::database::{rank, table_wf, Tables};
use crate::expand::{
    definition_outcome, definition_warning_text, expansion_outcome, DefinitionAnswer,
    DefinitionStep, ExpandAnswer, ExpandStep, ExpansionError, TOKEN_LIMIT,
};
use crate::hir_file::{ancestor, call_site, expansion_depth, original_file};
use crate::intern::{has_room, id_of, interned};
use crate::item::LocationCtx;
use crate::location::{
    FileAstId, FileId, HirFileId, HirFileIdRepr, ItemLoc, MacroCallId, MacroCallLoc, MacroDefId,
};

verus! {

/// Interning keeps a table well-formed.
pub proof fn lemma_interned_wf<L>(table: Seq<L>, loc: L)
    requires
        table_wf(table),
        has_room(table, loc),
    ensures
        table_wf(interned(table, loc)),
{
}

/// Interning is deterministic: a location that is interned a second
/// time gets the id it got the first time, and the table stays as the
/// first time left it.
pub proof fn lemma_intern_twice<L>(table: Seq<L>, loc: L)
    ensures
        interned(interned(table, loc), loc) == interned(table, loc),
        id_of(interned(interned(table, loc), loc), loc) == id_of(interned(table, loc), loc),
{
    lemma_lookup_inverts_intern(table, loc);
}

/// Looking up undoes interning: the id that a location gets stands for
/// that location.
pub proof fn lemma_lookup_inverts_intern<L>(table: Seq<L>, loc: L)
    ensures
        interned(table, loc).contains(loc),
        0 <= id_of(interned(table, loc), loc) < interned(table, loc).len(),
        interned(table, loc)[id_of(interned(table, loc), loc)] == loc,
{
    let after = interned(table, loc);
    if !table.contains(loc) {
        assert(after[table.len() as int] == loc);
    }
    assert(after.contains(loc));
}

/// Interning undoes looking up: the location that an id stands for has
/// that id, and interning it adds nothing.
pub proof fn lemma_intern_inverts_lookup<L>(table: Seq<L>, id: int)
    requires
        table.no_duplicates(),
        0 <= id < table.len(),
    ensures
        interned(table, table[id]) == table,
        id_of(table, table[id]) == id,
{
    assert(table.contains(table[id]));
}

/// Two locations with the same id are the same location.
pub proof fn lemma_ids_distinguish<L>(table: Seq<L>, a: L, b: L)
    requires
        table.contains(a),
        table.contains(b),
        id_of(table, a) == id_of(table, b),
    ensures
        a == b,
{
}

/// An id is for good: whatever is interned later, a location that the
/// table holds keeps its id.
pub proof fn lemma_ids_are_stable<L>(table: Seq<L>, loc: L, earlier: L)
    requires
        table.no_duplicates(),
        table.contains(earlier),
    ensures
        interned(table, loc).contains(earlier),
        id_of(interned(table, loc), earlier) == id_of(table, earlier),
{
    let i = id_of(table, earlier);
    let after = interned(table, loc);
    assert(after[i] == earlier);
    assert(after.contains(earlier));
    assert(after.no_duplicates());
}

/// A location that the table has not seen gets a new id: the next free
/// one, which no location of the table has.
pub proof fn lemma_new_location_new_id<L>(table: Seq<L>, loc: L)
    requires
        table.no_duplicates(),
        !table.contains(loc),
    ensures
        interned(table, loc).len() == table.len() + 1,
        id_of(interned(table, loc), loc) == table.len(),
        forall|earlier: L| #[trigger]
            table.contains(earlier) ==> id_of(interned(table, loc), earlier) != id_of(
                interned(table, loc),
                loc,
            ),
{
    let after = interned(table, loc);
    assert(after[table.len() as int] == loc);
    assert(after.no_duplicates());
    assert forall|earlier: L| #[trigger] table.contains(earlier) implies id_of(after, earlier)
        != id_of(after, loc) by {
        lemma_ids_are_stable(table, loc, earlier);
    }
}

/// Two passes over one location share one entry: the first adds it, the
/// second finds it and changes nothing, both get the same id, and the
/// table holds the location at that one index and at no other.
pub proof fn lemma_two_passes_one_entry<L>(table: Seq<L>, loc: L)
    requires
        table.no_duplicates(),
        !table.contains(loc),
    ensures
        interned(table, loc).len() == table.len() + 1,
        interned(interned(table, loc), loc) == interned(table, loc),
        id_of(interned(interned(table, loc), loc), loc) == id_of(interned(table, loc), loc),
        forall|i: int|
            0 <= i < interned(table, loc).len() ==> (#[trigger] interned(table, loc)[i] == loc
                <==> i == table.len()),
{
    let after = interned(table, loc);
    assert(after[table.len() as int] == loc);
    assert(after.contains(loc));
    assert forall|i: int| 0 <= i < after.len() implies (#[trigger] after[i] == loc <==> i
        == table.len()) by {
        if i < table.len() {
            assert(table[i] == after[i]);
            assert(table.contains(table[i]));
        }
    }
}

/// An item met for the first time gets an id that no item met before
/// has: whatever file it is read from, real or the output of a macro
/// call, its id is the next free one, every earlier item keeps the id it
/// had, and the table grows by this one entry.
pub proof fn lemma_new_item_new_id(table: Seq<ItemLoc>, ctx: LocationCtx, ast_id: FileAstId)
    requires
        table.no_duplicates(),
        !table.contains(ctx.loc(ast_id)),
    ensures
        interned(table, ctx.loc(ast_id)).len() == table.len() + 1,
        id_of(interned(table, ctx.loc(ast_id)), ctx.loc(ast_id)) == table.len(),
        forall|i: int|
            0 <= i < table.len() ==> id_of(interned(table, ctx.loc(ast_id)), #[trigger] table[i])
                == i,
{
    let loc = ctx.loc(ast_id);
    let after = interned(table, loc);
    lemma_new_location_new_id(table, loc);
    assert forall|i: int| 0 <= i < table.len() implies id_of(after, #[trigger] table[i])
        == i by {
        assert(table.contains(table[i]));
        lemma_ids_are_stable(table, loc, table[i]);
        lemma_intern_inverts_lookup(table, i);
    }
}

/// Only a real file can be asked which real file it is: a file made
/// from a real file meets what `as_original_file` requires and is
/// answered with that file, and no file made from a macro call meets
/// it, whatever the call and wherever its chain of call sites ends.
pub proof fn lemma_only_real_files_are_original(file_id: FileId, call: MacroCallId)
    ensures
        HirFileId(HirFileIdRepr::File(file_id)).0 is File,
        HirFileId(HirFileIdRepr::File(file_id)).0 == HirFileIdRepr::File(file_id),
        !(HirFileId(HirFileIdRepr::Macro(call)).0 is File),
{
}

/// A real file is its own origin.
pub proof fn lemma_original_of_real_file(tables: Tables, file_id: FileId)
    ensures
        original_file(tables, HirFileId(HirFileIdRepr::File(file_id))) == file_id,
        expansion_depth(tables, HirFileId(HirFileIdRepr::File(file_id))) == 0,
{
}

/// The output of a macro call has the origin of the file that holds the
/// call, and that file is known and older than the output.
pub proof fn lemma_original_of_expansion(tables: Tables, file: HirFileId)
    requires
        tables.wf(),
        tables.knows_file(file),
        file.0 is Macro,
    ensures
        tables.knows_file(call_site(tables, file)),
        rank(call_site(tables, file)) < rank(file),
        original_file(tables, file) == original_file(tables, call_site(tables, file)),
        expansion_depth(tables, file) == 1 + expansion_depth(tables, call_site(tables, file)),
{
}

/// The way from a file to its origin ends: going from output to call
/// site, a known file reaches the real file it comes from after
/// `expansion_depth` steps, and that number is at most the number of
/// macro calls in the tables.
pub proof fn lemma_chain_ends(tables: Tables, file: HirFileId)
    requires
        tables.wf(),
        tables.knows_file(file),
    ensures
        expansion_depth(tables, file) <= rank(file) <= tables.macro_calls.len(),
        ancestor(tables, file, expansion_depth(tables, file)) == HirFileId(
            HirFileIdRepr::File(original_file(tables, file)),
        ),
    decreases rank(file),
{
    match file.0 {
        HirFileIdRepr::File(_) => {},
        HirFileIdRepr::Macro(_) => {
            lemma_original_of_expansion(tables, file);
            lemma_chain_ends(tables, call_site(tables, file));
        },
    }
}

/// Every file on the way from a file to its origin has that same origin.
pub proof fn lemma_ancestors_share_origin(tables: Tables, file: HirFileId, n: nat)
    requires
        tables.wf(),
        tables.knows_file(file),
    ensures
        tables.knows_file(ancestor(tables, file, n)),
        original_file(tables, ancestor(tables, file, n)) == original_file(tables, file),
    decreases n,
{
    if n > 0 {
        if file.0 is Macro {
            lemma_original_of_expansion(tables, file);
        }
        lemma_ancestors_share_origin(tables, call_site(tables, file), (n - 1) as nat);
    }
}

/// Interning a macro call keeps the tables well-formed, provided its call
/// site is a known file.
pub proof fn lemma_intern_macro_wf(tables: Tables, loc: MacroCallLoc)
    requires
        tables.wf(),
        tables.knows_file(loc.ast_id.file_id),
        has_room(tables.macro_calls, loc),
    ensures
        (Tables { macro_calls: interned(tables.macro_calls, loc), ..tables }).wf(),
{
}

/// What is interned later changes the origin of no file known before.
pub proof fn lemma_origin_is_stable(tables: Tables, loc: MacroCallLoc, file: HirFileId)
    requires
        tables.wf(),
        tables.knows_file(file),
    ensures
        original_file(Tables { macro_calls: interned(tables.macro_calls, loc), ..tables }, file)
            == original_file(tables, file),
    decreases rank(file),
{
    let after = Tables { macro_calls: interned(tables.macro_calls, loc), ..tables };
    match file.0 {
        HirFileIdRepr::File(_) => {},
        HirFileIdRepr::Macro(call) => {
            lemma_original_of_expansion(tables, file);
            assert(after.macro_calls[call.0 as int] == tables.macro_calls[call.0 as int]);
            lemma_origin_is_stable(tables, loc, call_site(tables, file));
        },
    }
}

/// An expansion that runs through its stages ends as
/// `expansion_outcome` says: the first stage that fails decides, and what
/// later stages would have found changes nothing.
pub proof fn lemma_expansion_ends_in_outcome(
    loc: MacroCallLoc,
    argument: bool,
    definition: bool,
    expansion: Result<usize, String>,
)
    ensures
        ExpandStep::Argument(loc).next(ExpandAnswer::Argument(argument)).next(
            ExpandAnswer::Definition(definition),
        ).next(ExpandAnswer::Expansion(expansion)) == ExpandStep::Done(
            expansion_outcome(argument, definition, expansion),
        ),
{
}

/// The resolution of a definition that runs through its stages ends as
/// `definition_outcome` says.
pub proof fn lemma_definition_ends_in_outcome(
    id: MacroDefId,
    token_tree: bool,
    conversion: bool,
    rules: bool,
)
    ensures
        DefinitionStep::TokenTree(id).next(DefinitionAnswer::TokenTree(token_tree)).next(
            DefinitionAnswer::Conversion(conversion),
        ).next(DefinitionAnswer::Rules(rules)) == DefinitionStep::Done(
            definition_outcome(token_tree, conversion, rules),
        ),
{
}

/// A definition has rules exactly if all three stages succeed. It fails
/// for want of a token tree where there is none or none that converts,
/// and as malformed where the token tree is no rule set; it fails in no
/// other way.
pub proof fn lemma_definition_outcomes(token_tree: bool, conversion: bool, rules: bool)
    ensures
        definition_outcome(token_tree, conversion, rules) is Ok <==> token_tree && conversion
            && rules,
        !token_tree || !conversion ==> definition_outcome(token_tree, conversion, rules) == Err::<
            (),
            ExpansionError,
        >(ExpansionError::MissingArgument),
        token_tree && conversion && !rules ==> definition_outcome(token_tree, conversion, rules)
            == Err::<(), ExpansionError>(ExpansionError::MalformedDefinition),
{
}

/// A stage of the resolution that fails ends it: the stages after it
/// are not asked for, and an answer given all the same changes nothing.
pub proof fn lemma_definition_done_is_final(
    outcome: Result<(), ExpansionError>,
    answer: DefinitionAnswer,
)
    ensures
        DefinitionStep::Done(outcome).next(answer) == DefinitionStep::Done(outcome),
{
}

/// The log line for a definition without rules ends with what was
/// looked at when the resolution failed.
pub proof fn lemma_definition_warning_holds_shown(err: ExpansionError, shown: Seq<char>)
    ensures
        shown.is_suffix_of(definition_warning_text(err, shown)),
{
    let line = definition_warning_text(err, shown);
    assert(line.skip(line.len() - shown.len()) =~= shown);
}

/// An expansion that is over stays as it ended.
pub proof fn lemma_done_is_final(outcome: Result<(), ExpansionError>, answer: ExpandAnswer)
    ensures
        ExpandStep::Done(outcome).next(answer) == ExpandStep::Done(outcome),
{
}

/// The bound on the output of an expansion: once the rules have run, an
/// output of at most `TOKEN_LIMIT` tokens lets the expansion succeed, and
/// a larger one makes it fail with `TokenLimitExceeded` and its size.
pub proof fn lemma_token_limit(count: usize)
    ensures
        count <= TOKEN_LIMIT ==> ExpandStep::Expansion.next(ExpandAnswer::Expansion(Ok(count)))
            == ExpandStep::Done(Ok(())),
        count > TOKEN_LIMIT ==> ExpandStep::Expansion.next(ExpandAnswer::Expansion(Ok(count)))
            == ExpandStep::Done(Err(ExpansionError::TokenLimitExceeded(count))),
        count <= TOKEN_LIMIT ==> expansion_outcome(true, true, Ok(count)) == Ok::<
            (),
            ExpansionError,
        >(()),
        count > TOKEN_LIMIT ==> expansion_outcome(true, true, Ok(count)) == Err::<
            (),
            ExpansionError,
        >(ExpansionError::TokenLimitExceeded(count)),
{
}

/// A call without an argument has no expansion: it fails with
/// `MissingArgument` at the first step, whatever else holds of it.
pub proof fn lemma_missing_argument(
    loc: MacroCallLoc,
    definition: bool,
    expansion: Result<usize, String>,
)
    ensures
        ExpandStep::Argument(loc).next(ExpandAnswer::Argument(false)) == ExpandStep::Done(
            Err(ExpansionError::MissingArgument),
        ),
        expansion_outcome(false, definition, expansion) == Err::<(), ExpansionError>(
            ExpansionError::MissingArgument,
        ),
{
}

/// The log line for a failed expansion ends with the description of the
/// call.
pub proof fn lemma_warning_holds_dump(err: ExpansionError, dump: Seq<char>)
    ensures
        dump.is_suffix_of(warning_text(err, dump)),
{
    let line = warning_text(err, dump);
    let head = "fail on macro_parse: (reason: "@ + err.message_text() + ") "@;
    assert(line == head + dump);
    assert(line.skip(line.len() - dump.len()) =~= dump);
}

} // verus!
