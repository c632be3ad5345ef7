//! Files that may come out of macro calls, and the way back from such a
//! file to the text on disk that it started from.

use vstd::prelude::*;
use crate::database::{rank, Database, Tables};
use crate::intern::{has_room, id_of, interned};
use crate::location::{FileId, HirFileId, HirFileIdRepr, MacroCallId, MacroCallLoc};

verus! {

/// The real file from which `file` comes: `file` itself if it is one,
/// else the origin of the file that holds the macro call.
///
/// In well-formed tables a call site is always older than the call, so
/// the way up is finite; cut off anywhere else, it yields file 0.
pub open spec fn original_file(tables: Tables, file: HirFileId) -> FileId
    decreases rank(file),
{
    match file.0 {
        HirFileIdRepr::File(file_id) => file_id,
        HirFileIdRepr::Macro(call) => {
            let site = tables.macro_calls[call.0 as int].ast_id.file_id;
            if rank(site) < rank(file) {
                original_file(tables, site)
            } else {
                FileId(0)
            }
        },
    }
}

/// The file that holds the call of which `file` is the output. A real
/// file is no output, and stands for itself here.
pub open spec fn call_site(tables: Tables, file: HirFileId) -> HirFileId {
    match file.0 {
        HirFileIdRepr::File(_) => file,
        HirFileIdRepr::Macro(call) => tables.macro_calls[call.0 as int].ast_id.file_id,
    }
}

/// The file reached from `file` by going from output to call site `n`
/// times.
pub open spec fn ancestor(tables: Tables, file: HirFileId, n: nat) -> HirFileId
    decreases n,
{
    if n == 0 {
        file
    } else {
        ancestor(tables, call_site(tables, file), (n - 1) as nat)
    }
}

/// The number of macro expansions that lie between `file` and the real
/// file it comes from.
pub open spec fn expansion_depth(tables: Tables, file: HirFileId) -> nat
    decreases rank(file),
{
    match file.0 {
        HirFileIdRepr::File(_) => 0,
        HirFileIdRepr::Macro(_) => {
            let site = call_site(tables, file);
            if rank(site) < rank(file) {
                1 + expansion_depth(tables, site)
            } else {
                0
            }
        },
    }
}

impl From<FileId> for HirFileId {
    fn from(file_id: FileId) -> (file: HirFileId) {
        HirFileId(HirFileIdRepr::File(file_id))
    }
}

impl vstd::std_specs::convert::FromSpecImpl<FileId> for HirFileId {
    open spec fn obeys_from_spec() -> bool {
        true
    }

    open spec fn from_spec(file_id: FileId) -> HirFileId {
        HirFileId(HirFileIdRepr::File(file_id))
    }
}

impl From<MacroCallId> for HirFileId {
    fn from(macro_call_id: MacroCallId) -> (file: HirFileId) {
        HirFileId(HirFileIdRepr::Macro(macro_call_id))
    }
}

impl vstd::std_specs::convert::FromSpecImpl<MacroCallId> for HirFileId {
    open spec fn obeys_from_spec() -> bool {
        true
    }

    open spec fn from_spec(macro_call_id: MacroCallId) -> HirFileId {
        HirFileId(HirFileIdRepr::Macro(macro_call_id))
    }
}

impl HirFileId {
    /// For a file that a macro produced, the real file that the expansion
    /// started from; for a real file, the file itself.
    pub fn original_file(self, db: &Database) -> (file: FileId)
        requires
            db@.wf(),
            db@.knows_file(self),
        ensures
            file == original_file(db@, self),
        decreases rank(self),
    {
        match self.0 {
            HirFileIdRepr::File(file_id) => file_id,
            HirFileIdRepr::Macro(macro_call_id) => {
                let loc = macro_call_id.loc(db);
                loc.ast_id.file_id().original_file(db)
            },
        }
    }

    /// The real file that this is. Only for a file that no macro produced.
    pub fn as_original_file(self) -> (file: FileId)
        requires
            self.0 is File,
        ensures
            self.0 == HirFileIdRepr::File(file),
    {
        match self.0 {
            HirFileIdRepr::File(file_id) => file_id,
            HirFileIdRepr::Macro(_) => vstd::pervasive::unreached(),
        }
    }
}

impl MacroCallId {
    /// Which macro is called, and where.
    pub fn loc(self, db: &Database) -> (loc: MacroCallLoc)
        requires
            self.0 < db@.macro_calls.len(),
        ensures
            loc == db@.macro_calls[self.0 as int],
    {
        db.lookup_intern_macro(self)
    }
}

impl MacroCallLoc {
    /// The id of this macro call.
    pub fn id(self, db: &mut Database) -> (id: MacroCallId)
        requires
            old(db)@.wf(),
            old(db)@.knows_file(self.ast_id.file_id),
            has_room(old(db)@.macro_calls, self),
        ensures
            final(db)@.wf(),
            final(db)@ == (Tables {
                macro_calls: interned(old(db)@.macro_calls, self),
                ..old(db)@
            }),
            id.0 == id_of(final(db)@.macro_calls, self),
            id.0 < final(db)@.macro_calls.len(),
            final(db)@.macro_calls[id.0 as int] == self,
            old(db)@.macro_calls.contains(self) ==> id.0 == id_of(old(db)@.macro_calls, self),
            !old(db)@.macro_calls.contains(self) ==> id.0 == old(db)@.macro_calls.len()
                && final(db)@.macro_calls.len() == old(db)@.macro_calls.len() + 1,
    {
        db.intern_macro(self)
    }
}

} // verus!
