//! The interning tables of one session.

use vstd::prelude::*;
use crate::intern::{has_room, id_of, interned, Interner};
use crate::item::{ConstId, EnumId, FunctionId, StaticId, StructId, TraitId, TypeAliasId};
use crate::location::{HirFileId, HirFileIdRepr, ItemLoc, MacroCallId, MacroCallLoc};

verus! {

/// How far a file is from text on disk, as an upper bound: a real file
/// has rank 0, the output of macro call number `m` has rank `m + 1`.
pub open spec fn rank(file: HirFileId) -> nat {
    match file.0 {
        HirFileIdRepr::File(_) => 0,
        HirFileIdRepr::Macro(call) => (call.0 + 1) as nat,
    }
}

/// What the tables of a [`Database`] hold: for each kind of id, the
/// locations given out so far, each at the index that is its id.
#[verifier::ext_equal]
pub struct Tables {
    pub macro_calls: Seq<MacroCallLoc>,
    pub functions: Seq<ItemLoc>,
    pub structs: Seq<ItemLoc>,
    pub enums: Seq<ItemLoc>,
    pub consts: Seq<ItemLoc>,
    pub statics: Seq<ItemLoc>,
    pub traits: Seq<ItemLoc>,
    pub type_aliases: Seq<ItemLoc>,
}

/// Whether `table` can be the contents of an interner: no location twice,
/// every index an id.
pub open spec fn table_wf<L>(table: Seq<L>) -> bool {
    table.no_duplicates() && table.len() <= u32::MAX
}

impl Tables {
    /// The tables of a session in which nothing has been interned.
    pub open spec fn empty() -> Tables {
        Tables {
            macro_calls: Seq::empty(),
            functions: Seq::empty(),
            structs: Seq::empty(),
            enums: Seq::empty(),
            consts: Seq::empty(),
            statics: Seq::empty(),
            traits: Seq::empty(),
            type_aliases: Seq::empty(),
        }
    }

    /// Whether `file` can be named in these tables: it is a real file, or
    /// the output of a macro call that the tables hold.
    pub open spec fn knows_file(self, file: HirFileId) -> bool {
        rank(file) <= self.macro_calls.len()
    }

    /// Every macro call sits in a file that is older than the call itself:
    /// a real file, or the output of a call with a smaller id. Following
    /// call sites upwards therefore ends.
    pub open spec fn call_sites_precede(self) -> bool {
        forall|i: int|
            0 <= i < self.macro_calls.len() ==> rank(
                #[trigger] self.macro_calls[i].ast_id.file_id,
            ) <= i
    }

    /// The invariant of a session's tables.
    pub open spec fn wf(self) -> bool {
        &&& table_wf(self.macro_calls)
        &&& table_wf(self.functions)
        &&& table_wf(self.structs)
        &&& table_wf(self.enums)
        &&& table_wf(self.consts)
        &&& table_wf(self.statics)
        &&& table_wf(self.traits)
        &&& table_wf(self.type_aliases)
        &&& self.call_sites_precede()
    }
}

/// The interning tables of one session: one for macro calls and one for
/// each kind of item. Ids are made on first request and never change or
/// go away; the tables only grow.
///
/// Interning takes the database exclusively, so two requests for one
/// location can never both find it missing and give it two ids.
///
/// Sessions are independent of each other: an id means something only to
/// the database that gave it out.
pub struct Database {
    macro_calls: Interner<MacroCallLoc>,
    functions: Interner<ItemLoc>,
    structs: Interner<ItemLoc>,
    enums: Interner<ItemLoc>,
    consts: Interner<ItemLoc>,
    statics: Interner<ItemLoc>,
    traits: Interner<ItemLoc>,
    type_aliases: Interner<ItemLoc>,
}

impl View for Database {
    type V = Tables;

    closed spec fn view(&self) -> Tables {
        Tables {
            macro_calls: self.macro_calls@,
            functions: self.functions@,
            structs: self.structs@,
            enums: self.enums@,
            consts: self.consts@,
            statics: self.statics@,
            traits: self.traits@,
            type_aliases: self.type_aliases@,
        }
    }
}

impl Database {
    /// A session in which nothing has been interned.
    pub fn new() -> (db: Self)
        ensures
            db@.wf(),
            db@ == Tables::empty(),
    {
        Database {
            macro_calls: Interner::new(),
            functions: Interner::new(),
            structs: Interner::new(),
            enums: Interner::new(),
            consts: Interner::new(),
            statics: Interner::new(),
            traits: Interner::new(),
            type_aliases: Interner::new(),
        }
    }

    /// The table of macro calls, to read.
    pub fn macro_calls(&self) -> (table: &Interner<MacroCallLoc>)
        ensures
            table@ == self@.macro_calls,
    {
        &self.macro_calls
    }

    /// The table of functions, to read.
    pub fn functions(&self) -> (table: &Interner<ItemLoc>)
        ensures
            table@ == self@.functions,
    {
        &self.functions
    }

    /// The table of structs, to read.
    pub fn structs(&self) -> (table: &Interner<ItemLoc>)
        ensures
            table@ == self@.structs,
    {
        &self.structs
    }

    /// The table of enums, to read.
    pub fn enums(&self) -> (table: &Interner<ItemLoc>)
        ensures
            table@ == self@.enums,
    {
        &self.enums
    }

    /// The table of constants, to read.
    pub fn consts(&self) -> (table: &Interner<ItemLoc>)
        ensures
            table@ == self@.consts,
    {
        &self.consts
    }

    /// The table of statics, to read.
    pub fn statics(&self) -> (table: &Interner<ItemLoc>)
        ensures
            table@ == self@.statics,
    {
        &self.statics
    }

    /// The table of traits, to read.
    pub fn traits(&self) -> (table: &Interner<ItemLoc>)
        ensures
            table@ == self@.traits,
    {
        &self.traits
    }

    /// The table of type aliases, to read.
    pub fn type_aliases(&self) -> (table: &Interner<ItemLoc>)
        ensures
            table@ == self@.type_aliases,
    {
        &self.type_aliases
    }

    /// Whether `file` can be named in this session.
    pub fn knows_file(&self, file: HirFileId) -> (known: bool)
        ensures
            known == self@.knows_file(file),
    {
        match file.0 {
            HirFileIdRepr::File(_) => true,
            HirFileIdRepr::Macro(call) => self.macro_calls.contains_id(call.0),
        }
    }

    /// The id of the macro call at `loc`: the one it has, or a new one.
    pub fn intern_macro(&mut self, loc: MacroCallLoc) -> (id: MacroCallId)
        requires
            old(self)@.wf(),
            old(self)@.knows_file(loc.ast_id.file_id),
            has_room(old(self)@.macro_calls, loc),
        ensures
            final(self)@.wf(),
            final(self)@ == (Tables {
                macro_calls: interned(old(self)@.macro_calls, loc),
                ..old(self)@
            }),
            id.0 == id_of(final(self)@.macro_calls, loc),
            id.0 < final(self)@.macro_calls.len(),
            final(self)@.macro_calls[id.0 as int] == loc,
            old(self)@.macro_calls.contains(loc) ==> id.0 == id_of(old(self)@.macro_calls, loc),
            !old(self)@.macro_calls.contains(loc) ==> id.0 == old(self)@.macro_calls.len()
                && final(self)@.macro_calls.len() == old(self)@.macro_calls.len() + 1,
    {
        MacroCallId(self.macro_calls.intern(loc))
    }

    /// The macro call that `id` stands for.
    pub fn lookup_intern_macro(&self, id: MacroCallId) -> (loc: MacroCallLoc)
        requires
            id.0 < self@.macro_calls.len(),
        ensures
            loc == self@.macro_calls[id.0 as int],
    {
        self.macro_calls.lookup(id.0)
    }

    /// The id of the function at `loc`: the one it has, or a new one.
    pub fn intern_function(&mut self, loc: ItemLoc) -> (id: FunctionId)
        requires
            old(self)@.wf(),
            has_room(old(self)@.functions, loc),
        ensures
            final(self)@.wf(),
            final(self)@ == (Tables { functions: interned(old(self)@.functions, loc), ..old(self)@ }),
            id.0 == id_of(final(self)@.functions, loc),
            id.0 < final(self)@.functions.len(),
            final(self)@.functions[id.0 as int] == loc,
            old(self)@.functions.contains(loc) ==> id.0 == id_of(old(self)@.functions, loc),
            !old(self)@.functions.contains(loc) ==> id.0 == old(self)@.functions.len()
                && final(self)@.functions.len() == old(self)@.functions.len() + 1,
    {
        FunctionId(self.functions.intern(loc))
    }

    /// The function that `id` stands for.
    pub fn lookup_intern_function(&self, id: FunctionId) -> (loc: ItemLoc)
        requires
            id.0 < self@.functions.len(),
        ensures
            loc == self@.functions[id.0 as int],
    {
        self.functions.lookup(id.0)
    }

    /// The id of the struct at `loc`: the one it has, or a new one.
    pub fn intern_struct(&mut self, loc: ItemLoc) -> (id: StructId)
        requires
            old(self)@.wf(),
            has_room(old(self)@.structs, loc),
        ensures
            final(self)@.wf(),
            final(self)@ == (Tables { structs: interned(old(self)@.structs, loc), ..old(self)@ }),
            id.0 == id_of(final(self)@.structs, loc),
            id.0 < final(self)@.structs.len(),
            final(self)@.structs[id.0 as int] == loc,
            old(self)@.structs.contains(loc) ==> id.0 == id_of(old(self)@.structs, loc),
            !old(self)@.structs.contains(loc) ==> id.0 == old(self)@.structs.len()
                && final(self)@.structs.len() == old(self)@.structs.len() + 1,
    {
        StructId(self.structs.intern(loc))
    }

    /// The struct that `id` stands for.
    pub fn lookup_intern_struct(&self, id: StructId) -> (loc: ItemLoc)
        requires
            id.0 < self@.structs.len(),
        ensures
            loc == self@.structs[id.0 as int],
    {
        self.structs.lookup(id.0)
    }

    /// The id of the enum at `loc`: the one it has, or a new one.
    pub fn intern_enum(&mut self, loc: ItemLoc) -> (id: EnumId)
        requires
            old(self)@.wf(),
            has_room(old(self)@.enums, loc),
        ensures
            final(self)@.wf(),
            final(self)@ == (Tables { enums: interned(old(self)@.enums, loc), ..old(self)@ }),
            id.0 == id_of(final(self)@.enums, loc),
            id.0 < final(self)@.enums.len(),
            final(self)@.enums[id.0 as int] == loc,
            old(self)@.enums.contains(loc) ==> id.0 == id_of(old(self)@.enums, loc),
            !old(self)@.enums.contains(loc) ==> id.0 == old(self)@.enums.len()
                && final(self)@.enums.len() == old(self)@.enums.len() + 1,
    {
        EnumId(self.enums.intern(loc))
    }

    /// The enum that `id` stands for.
    pub fn lookup_intern_enum(&self, id: EnumId) -> (loc: ItemLoc)
        requires
            id.0 < self@.enums.len(),
        ensures
            loc == self@.enums[id.0 as int],
    {
        self.enums.lookup(id.0)
    }

    /// The id of the constant at `loc`: the one it has, or a new one.
    pub fn intern_const(&mut self, loc: ItemLoc) -> (id: ConstId)
        requires
            old(self)@.wf(),
            has_room(old(self)@.consts, loc),
        ensures
            final(self)@.wf(),
            final(self)@ == (Tables { consts: interned(old(self)@.consts, loc), ..old(self)@ }),
            id.0 == id_of(final(self)@.consts, loc),
            id.0 < final(self)@.consts.len(),
            final(self)@.consts[id.0 as int] == loc,
            old(self)@.consts.contains(loc) ==> id.0 == id_of(old(self)@.consts, loc),
            !old(self)@.consts.contains(loc) ==> id.0 == old(self)@.consts.len()
                && final(self)@.consts.len() == old(self)@.consts.len() + 1,
    {
        ConstId(self.consts.intern(loc))
    }

    /// The constant that `id` stands for.
    pub fn lookup_intern_const(&self, id: ConstId) -> (loc: ItemLoc)
        requires
            id.0 < self@.consts.len(),
        ensures
            loc == self@.consts[id.0 as int],
    {
        self.consts.lookup(id.0)
    }

    /// The id of the static at `loc`: the one it has, or a new one.
    pub fn intern_static(&mut self, loc: ItemLoc) -> (id: StaticId)
        requires
            old(self)@.wf(),
            has_room(old(self)@.statics, loc),
        ensures
            final(self)@.wf(),
            final(self)@ == (Tables { statics: interned(old(self)@.statics, loc), ..old(self)@ }),
            id.0 == id_of(final(self)@.statics, loc),
            id.0 < final(self)@.statics.len(),
            final(self)@.statics[id.0 as int] == loc,
            old(self)@.statics.contains(loc) ==> id.0 == id_of(old(self)@.statics, loc),
            !old(self)@.statics.contains(loc) ==> id.0 == old(self)@.statics.len()
                && final(self)@.statics.len() == old(self)@.statics.len() + 1,
    {
        StaticId(self.statics.intern(loc))
    }

    /// The static that `id` stands for.
    pub fn lookup_intern_static(&self, id: StaticId) -> (loc: ItemLoc)
        requires
            id.0 < self@.statics.len(),
        ensures
            loc == self@.statics[id.0 as int],
    {
        self.statics.lookup(id.0)
    }

    /// The id of the trait at `loc`: the one it has, or a new one.
    pub fn intern_trait(&mut self, loc: ItemLoc) -> (id: TraitId)
        requires
            old(self)@.wf(),
            has_room(old(self)@.traits, loc),
        ensures
            final(self)@.wf(),
            final(self)@ == (Tables { traits: interned(old(self)@.traits, loc), ..old(self)@ }),
            id.0 == id_of(final(self)@.traits, loc),
            id.0 < final(self)@.traits.len(),
            final(self)@.traits[id.0 as int] == loc,
            old(self)@.traits.contains(loc) ==> id.0 == id_of(old(self)@.traits, loc),
            !old(self)@.traits.contains(loc) ==> id.0 == old(self)@.traits.len()
                && final(self)@.traits.len() == old(self)@.traits.len() + 1,
    {
        TraitId(self.traits.intern(loc))
    }

    /// The trait that `id` stands for.
    pub fn lookup_intern_trait(&self, id: TraitId) -> (loc: ItemLoc)
        requires
            id.0 < self@.traits.len(),
        ensures
            loc == self@.traits[id.0 as int],
    {
        self.traits.lookup(id.0)
    }

    /// The id of the type alias at `loc`: the one it has, or a new one.
    pub fn intern_type_alias(&mut self, loc: ItemLoc) -> (id: TypeAliasId)
        requires
            old(self)@.wf(),
            has_room(old(self)@.type_aliases, loc),
        ensures
            final(self)@.wf(),
            final(self)@ == (Tables { type_aliases: interned(old(self)@.type_aliases, loc), ..old(self)@ }),
            id.0 == id_of(final(self)@.type_aliases, loc),
            id.0 < final(self)@.type_aliases.len(),
            final(self)@.type_aliases[id.0 as int] == loc,
            old(self)@.type_aliases.contains(loc) ==> id.0 == id_of(old(self)@.type_aliases, loc),
            !old(self)@.type_aliases.contains(loc) ==> id.0 == old(self)@.type_aliases.len()
                && final(self)@.type_aliases.len() == old(self)@.type_aliases.len() + 1,
    {
        TypeAliasId(self.type_aliases.intern(loc))
    }

    /// The type alias that `id` stands for.
    pub fn lookup_intern_type_alias(&self, id: TypeAliasId) -> (loc: ItemLoc)
        requires
            id.0 < self@.type_aliases.len(),
        ensures
            loc == self@.type_aliases[id.0 as int],
    {
        self.type_aliases.lookup(id.0)
    }
}

} // verus!
