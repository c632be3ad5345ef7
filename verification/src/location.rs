//! Plain addresses: files, syntax nodes inside a file, modules, and the
//! locations that the interning tables are keyed by.
//!
//! Every type here is a small copyable value made of integers. Equality is
//! structural throughout, so two locations are the same exactly when their
//! parts are.

use vstd::prelude::*;

verus! {

/// Handle of a file that exists as text written by the user.
#[derive(Debug, Clone, Copy, PartialEq, Eq, Hash, Structural)]
pub struct FileId(pub u32);

/// Identifies one macro invocation, like `println!("Hello, {}", world)`.
///
/// It is the index of a [`MacroCallLoc`] in the macro-call table of a
/// [`Database`](crate::database::Database).
#[derive(Debug, Clone, Copy, PartialEq, Eq, Hash, Structural)]
pub struct MacroCallId(pub u32);

/// The two kinds of file: text written by the user, or the output of
/// expanding a macro call.
#[derive(Debug, Clone, Copy, PartialEq, Eq, Hash, Structural)]
pub enum HirFileIdRepr {
    File(FileId),
    Macro(MacroCallId),
}

/// A file from which syntax can be obtained.
///
/// Source code comes from files on disk, and from macros: each macro call
/// produces a "temporary file", named by the id of the call. A macro call
/// is in turn the file that holds the call plus a position in it, so the
/// definition is recursive. It stays finite because the macro branch holds
/// only an interned integer, and every chain ends at a real [`FileId`].
#[derive(Debug, Clone, Copy, PartialEq, Eq, Hash, Structural)]
pub struct HirFileId(pub HirFileIdRepr);

/// Position of a syntax node among the indexed nodes of one file. It stays
/// the same across re-parses as long as the order of traversal does.
#[derive(Debug, Clone, Copy, PartialEq, Eq, Hash, Structural)]
pub struct FileAstId(pub u32);

/// Address of a syntax node: the file, and the node's position in it.
#[derive(Debug, Clone, Copy, PartialEq, Eq, Hash, Structural)]
pub struct AstId {
    pub file_id: HirFileId,
    pub file_ast_id: FileAstId,
}

/// A module: the crate it belongs to and its position in that crate's
/// module tree.
#[derive(Debug, Clone, Copy, PartialEq, Eq, Hash, Structural)]
pub struct Module {
    pub krate: u32,
    pub module_id: u32,
}

/// Refers to a macro by the syntax node that defines it. It is a plain
/// address and is not interned.
#[derive(Debug, Clone, Copy, PartialEq, Eq, Hash, Structural)]
pub struct MacroDefId(pub AstId);

/// What a [`MacroCallId`] stands for: which macro is called, and where.
#[derive(Debug, Clone, Copy, PartialEq, Eq, Hash, Structural)]
pub struct MacroCallLoc {
    pub def: MacroDefId,
    pub ast_id: AstId,
}

/// What an item id stands for: the module that owns the definition and the
/// syntax node that spells it. Nothing computed from the definition takes
/// part in the comparison, so an unrelated edit leaves the identity alone.
#[derive(Debug, Clone, Copy, PartialEq, Eq, Hash, Structural)]
pub struct ItemLoc {
    pub module: Module,
    pub ast_id: AstId,
}

impl FileAstId {
    /// The address of this node in `file_id`.
    pub fn with_file_id(self, file_id: HirFileId) -> (ast_id: AstId)
        ensures
            ast_id == (AstId { file_id, file_ast_id: self }),
    {
        AstId { file_id, file_ast_id: self }
    }
}

impl AstId {
    /// The file that holds the node.
    pub fn file_id(&self) -> (file_id: HirFileId)
        ensures
            file_id == self.file_id,
    {
        self.file_id
    }
}

} // verus!
