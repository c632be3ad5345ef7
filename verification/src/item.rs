//! The ids of item definitions, one type per kind of item.

use vstd::prelude::*;
use crate::database::{Database, Tables};
use crate::intern::{has_room, id_of, interned, InternKey, Interner};
use crate::location::{AstId, FileAstId, HirFileId, ItemLoc, Module};

verus! {

/// A function definition.
#[derive(Debug, Clone, Copy, PartialEq, Eq, Hash, Structural)]
pub struct FunctionId(pub u32);

/// A struct definition.
#[derive(Debug, Clone, Copy, PartialEq, Eq, Hash, Structural)]
pub struct StructId(pub u32);

/// An enum definition.
#[derive(Debug, Clone, Copy, PartialEq, Eq, Hash, Structural)]
pub struct EnumId(pub u32);

/// A constant.
#[derive(Debug, Clone, Copy, PartialEq, Eq, Hash, Structural)]
pub struct ConstId(pub u32);

/// A static.
#[derive(Debug, Clone, Copy, PartialEq, Eq, Hash, Structural)]
pub struct StaticId(pub u32);

/// A trait definition.
#[derive(Debug, Clone, Copy, PartialEq, Eq, Hash, Structural)]
pub struct TraitId(pub u32);

/// A type alias.
#[derive(Debug, Clone, Copy, PartialEq, Eq, Hash, Structural)]
pub struct TypeAliasId(pub u32);

/// Where a walk over a file's items currently is: the module the items
/// belong to and the file they are read from. It is what turns the
/// position of a syntax node into the location of a definition.
#[derive(Debug, Clone, Copy, PartialEq, Eq, Structural)]
pub struct LocationCtx {
    pub module: Module,
    pub file_id: HirFileId,
}

impl LocationCtx {
    /// The context for the items of `module` that are read from `file_id`.
    pub fn new(module: Module, file_id: HirFileId) -> (ctx: LocationCtx)
        ensures
            ctx == (LocationCtx { module, file_id }),
    {
        LocationCtx { module, file_id }
    }

    /// The location of the definition whose syntax node has position
    /// `ast_id` in the context's file.
    pub open spec fn loc(self, ast_id: FileAstId) -> ItemLoc {
        ItemLoc { module: self.module, ast_id: AstId { file_id: self.file_id, file_ast_id: ast_id } }
    }

    /// The id, of kind `DEF`, of the definition at position `ast_id` in
    /// the context's file.
    pub fn to_def<DEF: AstItemDef>(self, db: &mut Database, ast_id: FileAstId) -> (id: DEF)
        requires
            old(db)@.wf(),
            has_room(DEF::table(old(db)@), self.loc(ast_id)),
        ensures
            final(db)@.wf(),
            final(db)@ == DEF::with_table(
                old(db)@,
                interned(DEF::table(old(db)@), self.loc(ast_id)),
            ),
            DEF::table(final(db)@) == interned(DEF::table(old(db)@), self.loc(ast_id)),
            id.index() == id_of(DEF::table(final(db)@), self.loc(ast_id)),
            id.index() < DEF::table(final(db)@).len(),
            DEF::table(final(db)@)[id.index() as int] == self.loc(ast_id),
            DEF::table(old(db)@).contains(self.loc(ast_id)) ==> id.index() == id_of(
                DEF::table(old(db)@),
                self.loc(ast_id),
            ),
            !DEF::table(old(db)@).contains(self.loc(ast_id)) ==> id.index() == DEF::table(old(db)@).len()
                && DEF::table(final(db)@).len() == DEF::table(old(db)@).len() + 1,
    {
        DEF::from_ast_id(self, db, ast_id)
    }
}

/// An id of one kind of item definition.
///
/// A kind says which table holds its locations and how to intern and look
/// up in it; everything else is the same for all kinds and is written
/// once, here.
pub trait AstItemDef: InternKey {
    /// The table of this kind among `tables`.
    spec fn table(tables: Tables) -> Seq<ItemLoc>;

    /// `tables` with `table` in place of the table of this kind.
    spec fn with_table(tables: Tables, table: Seq<ItemLoc>) -> Tables;

    /// The table of this kind in `db`, to read.
    fn interner(db: &Database) -> (table: &Interner<ItemLoc>)
        ensures
            table@ == Self::table(db@),
    ;

    /// The id of the definition at `loc`: the one it has, or a new one.
    fn intern(db: &mut Database, loc: ItemLoc) -> (id: Self)
        requires
            old(db)@.wf(),
            has_room(Self::table(old(db)@), loc),
        ensures
            final(db)@.wf(),
            final(db)@ == Self::with_table(old(db)@, interned(Self::table(old(db)@), loc)),
            Self::table(final(db)@) == interned(Self::table(old(db)@), loc),
            id.index() == id_of(Self::table(final(db)@), loc),
            id.index() < Self::table(final(db)@).len(),
            Self::table(final(db)@)[id.index() as int] == loc,
            Self::table(old(db)@).contains(loc) ==> id.index() == id_of(
                Self::table(old(db)@),
                loc,
            ),
            !Self::table(old(db)@).contains(loc) ==> id.index() == Self::table(old(db)@).len()
                && Self::table(final(db)@).len() == Self::table(old(db)@).len() + 1,
    ;

    /// The location that the id stands for.
    fn lookup_intern(self, db: &Database) -> (loc: ItemLoc)
        requires
            self.index() < Self::table(db@).len(),
        ensures
            loc == Self::table(db@)[self.index() as int],
    ;

    /// The id of the definition whose syntax node has position `ast_id`
    /// in the file of `ctx`.
    fn from_ast_id(ctx: LocationCtx, db: &mut Database, ast_id: FileAstId) -> (id: Self)
        requires
            old(db)@.wf(),
            has_room(Self::table(old(db)@), ctx.loc(ast_id)),
        ensures
            final(db)@.wf(),
            final(db)@ == Self::with_table(
                old(db)@,
                interned(Self::table(old(db)@), ctx.loc(ast_id)),
            ),
            Self::table(final(db)@) == interned(Self::table(old(db)@), ctx.loc(ast_id)),
            id.index() == id_of(Self::table(final(db)@), ctx.loc(ast_id)),
            id.index() < Self::table(final(db)@).len(),
            Self::table(final(db)@)[id.index() as int] == ctx.loc(ast_id),
            Self::table(old(db)@).contains(ctx.loc(ast_id)) ==> id.index() == id_of(
                Self::table(old(db)@),
                ctx.loc(ast_id),
            ),
            !Self::table(old(db)@).contains(ctx.loc(ast_id)) ==> id.index() == Self::table(old(db)@).len()
                && Self::table(final(db)@).len() == Self::table(old(db)@).len() + 1,
    {
        let loc = ItemLoc { module: ctx.module, ast_id: ast_id.with_file_id(ctx.file_id) };
        Self::intern(db, loc)
    }

    /// Which file the definition is in, and which of its nodes it is.
    fn source(self, db: &Database) -> (source: (HirFileId, FileAstId))
        requires
            self.index() < Self::table(db@).len(),
        ensures
            source.0 == Self::table(db@)[self.index() as int].ast_id.file_id,
            source.1 == Self::table(db@)[self.index() as int].ast_id.file_ast_id,
    {
        let loc = self.lookup_intern(db);
        (loc.ast_id.file_id(), loc.ast_id.file_ast_id)
    }

    /// The module that owns the definition.
    fn module(self, db: &Database) -> (module: Module)
        requires
            self.index() < Self::table(db@).len(),
        ensures
            module == Self::table(db@)[self.index() as int].module,
    {
        let loc = self.lookup_intern(db);
        loc.module
    }
}

impl InternKey for FunctionId {
    open spec fn index(self) -> nat {
        self.0 as nat
    }

    fn from_intern_id(v: u32) -> (id: Self) {
        FunctionId(v)
    }

    fn as_intern_id(&self) -> (v: u32) {
        self.0
    }
}

impl AstItemDef for FunctionId {
    open spec fn table(tables: Tables) -> Seq<ItemLoc> {
        tables.functions
    }

    open spec fn with_table(tables: Tables, table: Seq<ItemLoc>) -> Tables {
        Tables { functions: table, ..tables }
    }

    fn interner(db: &Database) -> (table: &Interner<ItemLoc>) {
        db.functions()
    }

    fn intern(db: &mut Database, loc: ItemLoc) -> (id: Self) {
        db.intern_function(loc)
    }

    fn lookup_intern(self, db: &Database) -> (loc: ItemLoc) {
        db.lookup_intern_function(self)
    }
}

impl InternKey for StructId {
    open spec fn index(self) -> nat {
        self.0 as nat
    }

    fn from_intern_id(v: u32) -> (id: Self) {
        StructId(v)
    }

    fn as_intern_id(&self) -> (v: u32) {
        self.0
    }
}

impl AstItemDef for StructId {
    open spec fn table(tables: Tables) -> Seq<ItemLoc> {
        tables.structs
    }

    open spec fn with_table(tables: Tables, table: Seq<ItemLoc>) -> Tables {
        Tables { structs: table, ..tables }
    }

    fn interner(db: &Database) -> (table: &Interner<ItemLoc>) {
        db.structs()
    }

    fn intern(db: &mut Database, loc: ItemLoc) -> (id: Self) {
        db.intern_struct(loc)
    }

    fn lookup_intern(self, db: &Database) -> (loc: ItemLoc) {
        db.lookup_intern_struct(self)
    }
}

impl InternKey for EnumId {
    open spec fn index(self) -> nat {
        self.0 as nat
    }

    fn from_intern_id(v: u32) -> (id: Self) {
        EnumId(v)
    }

    fn as_intern_id(&self) -> (v: u32) {
        self.0
    }
}

impl AstItemDef for EnumId {
    open spec fn table(tables: Tables) -> Seq<ItemLoc> {
        tables.enums
    }

    open spec fn with_table(tables: Tables, table: Seq<ItemLoc>) -> Tables {
        Tables { enums: table, ..tables }
    }

    fn interner(db: &Database) -> (table: &Interner<ItemLoc>) {
        db.enums()
    }

    fn intern(db: &mut Database, loc: ItemLoc) -> (id: Self) {
        db.intern_enum(loc)
    }

    fn lookup_intern(self, db: &Database) -> (loc: ItemLoc) {
        db.lookup_intern_enum(self)
    }
}

impl InternKey for ConstId {
    open spec fn index(self) -> nat {
        self.0 as nat
    }

    fn from_intern_id(v: u32) -> (id: Self) {
        ConstId(v)
    }

    fn as_intern_id(&self) -> (v: u32) {
        self.0
    }
}

impl AstItemDef for ConstId {
    open spec fn table(tables: Tables) -> Seq<ItemLoc> {
        tables.consts
    }

    open spec fn with_table(tables: Tables, table: Seq<ItemLoc>) -> Tables {
        Tables { consts: table, ..tables }
    }

    fn interner(db: &Database) -> (table: &Interner<ItemLoc>) {
        db.consts()
    }

    fn intern(db: &mut Database, loc: ItemLoc) -> (id: Self) {
        db.intern_const(loc)
    }

    fn lookup_intern(self, db: &Database) -> (loc: ItemLoc) {
        db.lookup_intern_const(self)
    }
}

impl InternKey for StaticId {
    open spec fn index(self) -> nat {
        self.0 as nat
    }

    fn from_intern_id(v: u32) -> (id: Self) {
        StaticId(v)
    }

    fn as_intern_id(&self) -> (v: u32) {
        self.0
    }
}

impl AstItemDef for StaticId {
    open spec fn table(tables: Tables) -> Seq<ItemLoc> {
        tables.statics
    }

    open spec fn with_table(tables: Tables, table: Seq<ItemLoc>) -> Tables {
        Tables { statics: table, ..tables }
    }

    fn interner(db: &Database) -> (table: &Interner<ItemLoc>) {
        db.statics()
    }

    fn intern(db: &mut Database, loc: ItemLoc) -> (id: Self) {
        db.intern_static(loc)
    }

    fn lookup_intern(self, db: &Database) -> (loc: ItemLoc) {
        db.lookup_intern_static(self)
    }
}

impl InternKey for TraitId {
    open spec fn index(self) -> nat {
        self.0 as nat
    }

    fn from_intern_id(v: u32) -> (id: Self) {
        TraitId(v)
    }

    fn as_intern_id(&self) -> (v: u32) {
        self.0
    }
}

impl AstItemDef for TraitId {
    open spec fn table(tables: Tables) -> Seq<ItemLoc> {
        tables.traits
    }

    open spec fn with_table(tables: Tables, table: Seq<ItemLoc>) -> Tables {
        Tables { traits: table, ..tables }
    }

    fn interner(db: &Database) -> (table: &Interner<ItemLoc>) {
        db.traits()
    }

    fn intern(db: &mut Database, loc: ItemLoc) -> (id: Self) {
        db.intern_trait(loc)
    }

    fn lookup_intern(self, db: &Database) -> (loc: ItemLoc) {
        db.lookup_intern_trait(self)
    }
}

impl InternKey for TypeAliasId {
    open spec fn index(self) -> nat {
        self.0 as nat
    }

    fn from_intern_id(v: u32) -> (id: Self) {
        TypeAliasId(v)
    }

    fn as_intern_id(&self) -> (v: u32) {
        self.0
    }
}

impl AstItemDef for TypeAliasId {
    open spec fn table(tables: Tables) -> Seq<ItemLoc> {
        tables.type_aliases
    }

    open spec fn with_table(tables: Tables, table: Seq<ItemLoc>) -> Tables {
        Tables { type_aliases: table, ..tables }
    }

    fn interner(db: &Database) -> (table: &Interner<ItemLoc>) {
        db.type_aliases()
    }

    fn intern(db: &mut Database, loc: ItemLoc) -> (id: Self) {
        db.intern_type_alias(loc)
    }

    fn lookup_intern(self, db: &Database) -> (loc: ItemLoc) {
        db.lookup_intern_type_alias(self)
    }
}

} // verus!
