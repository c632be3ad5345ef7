use hir_ids::database::Database;
use hir_ids::intern::{InternKey, Interner};
use hir_ids::item::{
    AstItemDef, ConstId, EnumId, FunctionId, LocationCtx, StaticId, StructId, TraitId,
    TypeAliasId,
};
use hir_ids::location::{
    AstId, FileAstId, FileId, HirFileId, ItemLoc, MacroCallId, MacroCallLoc, MacroDefId, Module,
};

fn module(krate: u32, module_id: u32) -> Module {
    Module { krate, module_id }
}

fn node(file: u32, position: u32) -> AstId {
    AstId { file_id: HirFileId::from(FileId(file)), file_ast_id: FileAstId(position) }
}

fn item(module_id: u32, file: u32, position: u32) -> ItemLoc {
    ItemLoc { module: module(0, module_id), ast_id: node(file, position) }
}

#[test]
fn interner_starts_empty() {
    let table: Interner<ItemLoc> = Interner::new();
    assert_eq!(table.len(), 0);
    assert_eq!(table.find(&item(0, 0, 0)), None);
    assert!(!table.contains_id(0));
}

#[test]
fn interner_numbers_locations_in_order_of_arrival() {
    let mut table: Interner<ItemLoc> = Interner::new();
    assert_eq!(table.intern(item(0, 1, 5)), 0);
    assert_eq!(table.intern(item(0, 1, 6)), 1);
    assert_eq!(table.intern(item(1, 1, 5)), 2);
    assert_eq!(table.len(), 3);
    assert_eq!(table.find(&item(0, 1, 6)), Some(1));
    assert_eq!(table.find(&item(2, 1, 6)), None);
    assert!(table.contains_id(2));
    assert!(!table.contains_id(3));
}

#[test]
fn interning_twice_gives_the_same_id() {
    let mut db = Database::new();
    let loc = item(3, 7, 11);
    let first = FunctionId::intern(&mut db, loc);
    let second = FunctionId::intern(&mut db, loc);
    assert_eq!(first, second);
    assert_eq!(first, FunctionId(0));
}

#[test]
fn lookup_gives_back_what_was_interned() {
    let mut db = Database::new();
    let a = item(0, 1, 1);
    let b = item(0, 1, 2);
    let c = item(9, 4, 1);
    let ia = StructId::intern(&mut db, a);
    let ib = StructId::intern(&mut db, b);
    let ic = StructId::intern(&mut db, c);
    assert_eq!(ia.lookup_intern(&db), a);
    assert_eq!(ib.lookup_intern(&db), b);
    assert_eq!(ic.lookup_intern(&db), c);
}

#[test]
fn interning_what_lookup_gave_returns_the_id() {
    let mut db = Database::new();
    let ids: Vec<EnumId> = (0..5).map(|i| EnumId::intern(&mut db, item(0, 2, i))).collect();
    for id in ids {
        let loc = id.lookup_intern(&db);
        assert_eq!(EnumId::intern(&mut db, loc), id);
    }
    assert_eq!(db.enums().len(), 5);
}

#[test]
fn two_passes_over_the_same_item_share_one_entry() {
    let mut db = Database::new();
    let m = module(1, 4);
    let a = node(2, 17);
    let first_pass = FunctionId::intern(&mut db, ItemLoc { module: m, ast_id: a });
    let second_pass = FunctionId::intern(&mut db, ItemLoc { module: m, ast_id: a });
    assert_eq!(first_pass, second_pass);
    assert_eq!(db.functions().len(), 1);
}

#[test]
fn different_locations_get_different_ids() {
    let mut db = Database::new();
    let same_node_other_module = (item(0, 1, 1), item(1, 1, 1));
    let a = TraitId::intern(&mut db, same_node_other_module.0);
    let b = TraitId::intern(&mut db, same_node_other_module.1);
    let c = TraitId::intern(&mut db, item(0, 2, 1));
    let d = TraitId::intern(&mut db, item(0, 1, 2));
    assert_eq!((a, b, c, d), (TraitId(0), TraitId(1), TraitId(2), TraitId(3)));
}

#[test]
fn earlier_ids_survive_later_interning() {
    let mut db = Database::new();
    let first = ConstId::intern(&mut db, item(0, 1, 1));
    for i in 2..50 {
        ConstId::intern(&mut db, item(0, 1, i));
    }
    assert_eq!(ConstId::intern(&mut db, item(0, 1, 1)), first);
    assert_eq!(first.lookup_intern(&db), item(0, 1, 1));
    assert_eq!(db.consts().len(), 49);
}

#[test]
fn each_kind_has_a_table_of_its_own() {
    let mut db = Database::new();
    let loc = item(0, 1, 1);
    let other = item(0, 1, 2);
    assert_eq!(FunctionId::intern(&mut db, other), FunctionId(0));
    assert_eq!(FunctionId::intern(&mut db, loc), FunctionId(1));
    assert_eq!(StructId::intern(&mut db, loc), StructId(0));
    assert_eq!(EnumId::intern(&mut db, loc), EnumId(0));
    assert_eq!(ConstId::intern(&mut db, loc), ConstId(0));
    assert_eq!(StaticId::intern(&mut db, loc), StaticId(0));
    assert_eq!(TraitId::intern(&mut db, loc), TraitId(0));
    assert_eq!(TypeAliasId::intern(&mut db, loc), TypeAliasId(0));
    assert_eq!(db.functions().len(), 2);
    assert_eq!(db.structs().len(), 1);
    assert_eq!(db.enums().len(), 1);
    assert_eq!(db.consts().len(), 1);
    assert_eq!(db.statics().len(), 1);
    assert_eq!(db.traits().len(), 1);
    assert_eq!(db.type_aliases().len(), 1);
    assert_eq!(db.macro_calls().len(), 0);
    assert_eq!(StructId(0).lookup_intern(&db), loc);
    assert_eq!(FunctionId(0).lookup_intern(&db), other);
}

#[test]
fn database_hooks_agree_with_the_kinds() {
    let mut db = Database::new();
    let loc = item(5, 6, 7);
    assert_eq!(db.intern_function(loc), FunctionId::intern(&mut db, loc));
    assert_eq!(db.intern_struct(loc), StructId::intern(&mut db, loc));
    assert_eq!(db.intern_enum(loc), EnumId::intern(&mut db, loc));
    assert_eq!(db.intern_const(loc), ConstId::intern(&mut db, loc));
    assert_eq!(db.intern_static(loc), StaticId::intern(&mut db, loc));
    assert_eq!(db.intern_trait(loc), TraitId::intern(&mut db, loc));
    assert_eq!(db.intern_type_alias(loc), TypeAliasId::intern(&mut db, loc));
    assert_eq!(db.lookup_intern_function(FunctionId(0)), loc);
    assert_eq!(db.lookup_intern_struct(StructId(0)), loc);
    assert_eq!(db.lookup_intern_enum(EnumId(0)), loc);
    assert_eq!(db.lookup_intern_const(ConstId(0)), loc);
    assert_eq!(db.lookup_intern_static(StaticId(0)), loc);
    assert_eq!(db.lookup_intern_trait(TraitId(0)), loc);
    assert_eq!(db.lookup_intern_type_alias(TypeAliasId(0)), loc);
}

#[test]
fn sessions_do_not_share_ids() {
    let mut one = Database::new();
    let mut two = Database::new();
    FunctionId::intern(&mut one, item(0, 1, 1));
    let in_one = FunctionId::intern(&mut one, item(0, 1, 2));
    let in_two = FunctionId::intern(&mut two, item(0, 1, 2));
    assert_eq!(in_one, FunctionId(1));
    assert_eq!(in_two, FunctionId(0));
    assert_eq!(two.functions().len(), 1);
}

#[test]
fn ids_convert_to_and_from_integers() {
    assert_eq!(FunctionId::from_intern_id(4).as_intern_id(), 4);
    assert_eq!(StructId::from_intern_id(5).as_intern_id(), 5);
    assert_eq!(EnumId::from_intern_id(6).as_intern_id(), 6);
    assert_eq!(ConstId::from_intern_id(7).as_intern_id(), 7);
    assert_eq!(StaticId::from_intern_id(8).as_intern_id(), 8);
    assert_eq!(TraitId::from_intern_id(9).as_intern_id(), 9);
    assert_eq!(TypeAliasId::from_intern_id(u32::MAX).as_intern_id(), u32::MAX);
    assert_eq!(MacroCallId::from_intern_id(3).as_intern_id(), 3);
    assert_eq!(FunctionId::from_intern_id(4), FunctionId(4));
}

#[test]
fn context_turns_a_position_into_an_id() {
    let mut db = Database::new();
    let file = HirFileId::from(FileId(12));
    let ctx = LocationCtx::new(module(2, 3), file);
    assert_eq!(ctx, LocationCtx { module: module(2, 3), file_id: file });
    let f: FunctionId = ctx.to_def(&mut db, FileAstId(40));
    let g: FunctionId = ctx.to_def(&mut db, FileAstId(41));
    let again: FunctionId = ctx.to_def(&mut db, FileAstId(40));
    let s: StructId = ctx.to_def(&mut db, FileAstId(40));
    assert_eq!(f, FunctionId(0));
    assert_eq!(g, FunctionId(1));
    assert_eq!(again, f);
    assert_eq!(s, StructId(0));
    assert_eq!(
        f.lookup_intern(&db),
        ItemLoc { module: module(2, 3), ast_id: AstId { file_id: file, file_ast_id: FileAstId(40) } }
    );
    assert_eq!(FunctionId::from_ast_id(ctx, &mut db, FileAstId(41)), g);
}

#[test]
fn source_and_module_read_the_location() {
    let mut db = Database::new();
    let file = HirFileId::from(FileId(3));
    let ctx = LocationCtx::new(module(7, 8), file);
    let id: TypeAliasId = ctx.to_def(&mut db, FileAstId(21));
    assert_eq!(id.source(&db), (file, FileAstId(21)));
    assert_eq!(id.module(&db), module(7, 8));
    let other = StaticId::intern(&mut db, item(1, 2, 3));
    assert_eq!(other.source(&db), (HirFileId::from(FileId(2)), FileAstId(3)));
    assert_eq!(other.module(&db), module(0, 1));
}

#[test]
fn positions_and_files_make_addresses() {
    let file = HirFileId::from(FileId(9));
    let ast_id = FileAstId(4).with_file_id(file);
    assert_eq!(ast_id, AstId { file_id: file, file_ast_id: FileAstId(4) });
    assert_eq!(ast_id.file_id(), file);
}

#[test]
fn macro_calls_are_interned_like_items() {
    let mut db = Database::new();
    let def = MacroDefId(node(1, 0));
    let call = MacroCallLoc { def, ast_id: node(1, 3) };
    let other = MacroCallLoc { def, ast_id: node(1, 4) };
    let id = call.id(&mut db);
    assert_eq!(id, MacroCallId(0));
    assert_eq!(other.id(&mut db), MacroCallId(1));
    assert_eq!(call.id(&mut db), id);
    assert_eq!(id.loc(&db), call);
    assert_eq!(MacroCallId(1).loc(&db), other);
    assert_eq!(db.macro_calls().len(), 2);
    assert_eq!(db.intern_macro(call), id);
    assert_eq!(db.lookup_intern_macro(id), call);
}

#[test]
fn item_from_an_expansion_gets_a_fresh_id() {
    let mut db = Database::new();
    let m = module(0, 0);
    let real = HirFileId::from(FileId(1));
    // Items that the module has from its own text.
    let ctx = LocationCtx::new(m, real);
    let earlier: Vec<FunctionId> =
        (0..4).map(|i| ctx.to_def::<FunctionId>(&mut db, FileAstId(i))).collect();
    // `id!(fn f() {})` at position 9 of the file; its output holds `f` at position 0.
    let call = MacroCallLoc { def: MacroDefId(node(1, 8)), ast_id: node(1, 9) };
    let expansion = HirFileId::from(call.id(&mut db));
    let f: FunctionId = LocationCtx::new(m, expansion).to_def(&mut db, FileAstId(0));
    assert_eq!(f, FunctionId(4));
    assert!(earlier.iter().all(|id| *id != f));
    assert_eq!(f.source(&db), (expansion, FileAstId(0)));
    assert_eq!(f.module(&db), m);
    assert_eq!(db.functions().len(), 5);
}
