use vstd::prelude::*;

use crate::model::{vars_view, ExtractError, Variable, VariableType, VariableTypeV, VariableV};
use crate::structmap::{map_insert, StructMap, StructMapV};
use crate::syntax::{fields_view, parse_source, parse_of, Ast, AstField, AstFieldV, AstItem, AstItemV, AstType, AstTypeV};
use crate::util::str_eq;

verus! {

/// The exact-match table from a raw type token to a canonical tag: the
/// recognized scalar tokens, the generic-sequence token (whose element type
/// is deliberately not inspected and defaults to `String`), and the
/// complex-type fallback. Total over strings.
pub open spec fn map_type_spec(tok: Seq<char>) -> VariableTypeV {
    if tok == "String"@ {
        VariableTypeV::StringType
    } else if tok == "u32"@ || tok == "u64"@ || tok == "i32"@ || tok == "i64"@ {
        VariableTypeV::IntType
    } else if tok == "f64"@ {
        VariableTypeV::FloatType
    } else if tok == "bool"@ {
        VariableTypeV::BoolType
    } else if tok == "Vec"@ {
        VariableTypeV::ArrayType(Box::new(VariableTypeV::StringType))
    } else {
        VariableTypeV::ComplexType(tok)
    }
}

/// Maps one raw type token to its canonical type tag, by the exact-match
/// table; unrecognized tokens fall back to a complex type of that name.
pub fn syn_type_to_cdd_type(ty: &str) -> (r: VariableType)
    ensures
        r@ == map_type_spec(ty@),
{
    if str_eq(ty, "String") {
        VariableType::StringType
    } else if str_eq(ty, "u32") || str_eq(ty, "u64") || str_eq(ty, "i32") || str_eq(ty, "i64") {
        VariableType::IntType
    } else if str_eq(ty, "f64") {
        VariableType::FloatType
    } else if str_eq(ty, "bool") {
        VariableType::BoolType
    } else if str_eq(ty, "Vec") {
        let inner = Box::new(VariableType::StringType);
        proof {
            assert(VariableType::ArrayType(inner)@ == VariableTypeV::ArrayType(
                Box::new(VariableTypeV::StringType),
            ));
        }
        VariableType::ArrayType(inner)
    } else {
        VariableType::ComplexType(ty.to_owned())
    }
}

/// A declared type is optional when it is a path type whose leading segment
/// is the optionality wrapper.
pub open spec fn is_option_spec(t: AstTypeV) -> bool {
    t matches AstTypeV::Path(seg) && seg == "Option"@
}

/// Whether the declared type is wrapped in the optionality marker.
pub fn type_is_option(ty: &AstType) -> (r: bool)
    ensures
        r == is_option_spec(ty@),
{
    match ty {
        AstType::Path(seg) => str_eq(seg.as_str(), "Option"),
        AstType::Other => false,
    }
}

/// The raw token of a declared type: the leading path segment identifier.
pub open spec fn raw_token_spec(t: AstTypeV) -> Seq<char> {
    match t {
        AstTypeV::Path(seg) => seg,
        AstTypeV::Other => Seq::<char>::empty(),
    }
}

/// The canonical field built from one named field: an optional field keeps
/// only its flag, its inner type is not recovered and maps to the sentinel
/// token; a plain field's leading segment goes through the type table. The
/// literal placeholder is always empty on this path.
pub open spec fn field_var(f: AstFieldV) -> VariableV {
    VariableV {
        name: f.name->0,
        optional: is_option_spec(f.ty),
        value: None,
        variable_type: if is_option_spec(f.ty) {
            map_type_spec("None"@)
        } else {
            map_type_spec(raw_token_spec(f.ty))
        },
    }
}

pub open spec fn all_named(fields: Seq<AstFieldV>) -> bool {
    forall|i: int| 0 <= i < fields.len() ==> fields[i].name is Some
}

pub open spec fn fields_path_typed(fields: Seq<AstFieldV>) -> bool {
    forall|i: int| 0 <= i < fields.len() ==> fields[i].ty is Path
}

pub open spec fn items_path_typed(items: Seq<AstItemV>) -> bool {
    forall|i: int|
        0 <= i < items.len() ==> (#[trigger] items[i] matches AstItemV::Struct(name, fs)
            ==> fields_path_typed(fs))
}

/// The fields of one declaration, in source order, when every field is
/// named; an unnamed field is fatal for the whole run.
pub open spec fn extract_vars_spec(fields: Seq<AstFieldV>) -> Option<Seq<VariableV>> {
    if all_named(fields) {
        Some(fields.map_values(|f: AstFieldV| field_var(f)))
    } else {
        None
    }
}

/// Builds the canonical field descriptors of one declaration's field list,
/// in source declaration order; fails on the first unnamed field.
pub fn extract_variables(fields: &Vec<AstField>) -> (r: Result<Vec<Variable>, ExtractError>)
    requires
        fields_path_typed(fields_view(fields@)),
    ensures
        match extract_vars_spec(fields_view(fields@)) {
            Some(vs) => r matches Ok(out) && vars_view(out@) == vs,
            None => r == Err::<Vec<Variable>, ExtractError>(ExtractError::UnnamedFieldFailure),
        },
{
    let ghost fvs = fields_view(fields@);
    let mut vars: Vec<Variable> = Vec::new();
    let n = fields.len();
    let mut i: usize = 0;
    while i < n
        invariant
            n == fields@.len(),
            i <= n,
            fvs == fields_view(fields@),
            fields_path_typed(fvs),
            forall|j: int| 0 <= j < i ==> fvs[j].name is Some,
            vars_view(vars@) == fvs.take(i as int).map_values(|f: AstFieldV| field_var(f)),
        decreases n - i,
    {
        let field = &fields[i];
        proof {
            assert(field@ == fvs[i as int]);
        }
        let name = match &field.name {
            Some(nm) => nm.clone(),
            None => {
                proof {
                    assert(!all_named(fvs));
                }
                return Err(ExtractError::UnnamedFieldFailure);
            },
        };
        let optional = type_is_option(&field.ty);
        let variable_type = if optional {
            syn_type_to_cdd_type("None")
        } else {
            match &field.ty {
                AstType::Path(seg) => syn_type_to_cdd_type(seg.as_str()),
                AstType::Other => {
                    proof {
                        assert(false);
                    }
                    syn_type_to_cdd_type("")
                },
            }
        };
        let var = Variable { name, optional, value: None, variable_type };
        proof {
            assert(var@ == field_var(fvs[i as int]));
        }
        let ghost old_vars = vars@;
        let ghost gvar = var;
        vars.push(var);
        proof {
            let newseq = fvs.take(i as int + 1).map_values(|f: AstFieldV| field_var(f));
            assert(old_vars.len() == vars_view(old_vars).len());
            assert(fvs.take(i as int).len() == i);
            assert forall|j: int| 0 <= j < i + 1 implies vars_view(vars@)[j] == newseq[j] by {
                assert(fvs.take(i as int + 1)[j] == fvs[j]);
                if j < i {
                    assert(vars_view(old_vars)[j] == fvs.take(i as int).map_values(
                        |f: AstFieldV| field_var(f),
                    )[j]);
                } else {
                    assert(vars@[j] == gvar);
                }
            }
            assert(vars_view(vars@) =~= newseq);
        }
        i += 1;
    }
    proof {
        assert(fvs.take(n as int) =~= fvs);
        assert(all_named(fvs));
    }
    Ok(vars)
}

/// One visit step: a struct declaration inserts its name and fields into the
/// mapping (replacing an earlier entry of the same name), any other item
/// leaves the mapping as it is, and an unnamed field aborts.
pub open spec fn visit_item_spec(m: StructMapV, item: AstItemV) -> Option<StructMapV> {
    match item {
        AstItemV::Struct(name, fs) => match extract_vars_spec(fs) {
            Some(vs) => Some(map_insert(m, name, vs)),
            None => None,
        },
        AstItemV::Other => Some(m),
    }
}

/// The mapping accumulated over the items in source order, starting empty;
/// `None` when any struct declaration carries an unnamed field.
pub open spec fn visit_spec(items: Seq<AstItemV>) -> Option<StructMapV>
    decreases items.len(),
{
    if items.len() == 0 {
        Some(Seq::<(Seq<char>, Seq<VariableV>)>::empty())
    } else {
        match visit_spec(items.drop_last()) {
            Some(m) => visit_item_spec(m, items.last()),
            None => None,
        }
    }
}

/// Once a prefix of the items has failed, the whole document fails.
pub proof fn lemma_visit_none_prefix(items: Seq<AstItemV>, k: int)
    requires
        0 <= k <= items.len(),
        visit_spec(items.take(k)) is None,
    ensures
        visit_spec(items) is None,
    decreases items.len() - k,
{
    if k == items.len() {
        assert(items.take(k) =~= items);
    } else {
        assert(items.take(k + 1).drop_last() =~= items.take(k));
        lemma_visit_none_prefix(items, k + 1);
    }
}

/// The visitor of one extraction pass: accumulates the name-to-fields
/// mapping over the top-level items it is shown.
pub struct StructVisitor {
    pub structs: StructMap,
}

impl StructVisitor {
    pub fn new() -> (r: Self)
        ensures
            r.structs@ == Seq::<(Seq<char>, Seq<VariableV>)>::empty(),
    {
        StructVisitor { structs: StructMap::new() }
    }

    /// Reacts to one top-level item: a struct declaration is extracted and
    /// recorded under its name, every other item kind is ignored.
    pub fn visit_item(&mut self, item: &AstItem) -> (r: Result<(), ExtractError>)
        requires
            item@ matches AstItemV::Struct(name, fs) ==> fields_path_typed(fs),
        ensures
            match visit_item_spec(old(self).structs@, item@) {
                Some(m) => r is Ok && final(self).structs@ == m,
                None => r == Err::<(), ExtractError>(ExtractError::UnnamedFieldFailure)
                    && final(self).structs@ == old(self).structs@,
            },
    {
        match item {
            AstItem::Struct(name, fields) => {
                let variables = match extract_variables(fields) {
                    Ok(vs) => vs,
                    Err(e) => {
                        return Err(e);
                    },
                };
                self.structs.insert(name.clone(), variables);
                Ok(())
            },
            AstItem::Other => Ok(()),
        }
    }
}

/// Checks that every field of the given list has a path-shaped type.
pub fn fields_all_path(fields: &Vec<AstField>) -> (r: bool)
    ensures
        r == fields_path_typed(fields_view(fields@)),
{
    let ghost fvs = fields_view(fields@);
    let n = fields.len();
    let mut i: usize = 0;
    while i < n
        invariant
            n == fields@.len(),
            i <= n,
            fvs == fields_view(fields@),
            forall|j: int| 0 <= j < i ==> fvs[j].ty is Path,
        decreases n - i,
    {
        let is_path = match &fields[i].ty {
            AstType::Path(_) => true,
            AstType::Other => false,
        };
        if !is_path {
            proof {
                assert(!(fvs[i as int].ty is Path));
            }
            return false;
        }
        i += 1;
    }
    true
}

/// Checks that every struct declaration among the items carries only
/// path-shaped field types.
pub fn ast_path_typed(ast: &Ast) -> (r: bool)
    ensures
        r == items_path_typed(ast@),
{
    let n = ast.items.len();
    let mut i: usize = 0;
    while i < n
        invariant
            n == ast.items@.len(),
            i <= n,
            forall|j: int|
                0 <= j < i ==> (#[trigger] ast@[j] matches AstItemV::Struct(name, fs)
                    ==> fields_path_typed(fs)),
        decreases n - i,
    {
        match &ast.items[i] {
            AstItem::Struct(_, fields) => {
                if !fields_all_path(fields) {
                    proof {
                        assert(ast@[i as int] matches AstItemV::Struct(name, fs)
                            && !fields_path_typed(fs));
                    }
                    return false;
                }
            },
            AstItem::Other => {},
        }
        i += 1;
    }
    true
}

/// Walks every top-level item of a parsed file in source order and
/// accumulates the name-to-fields mapping; an unnamed field in any struct
/// declaration fails the whole pass with no partial result.
pub fn visit_file(ast: &Ast) -> (r: Result<StructMap, ExtractError>)
    requires
        items_path_typed(ast@),
    ensures
        match visit_spec(ast@) {
            Some(m) => r matches Ok(sm) && sm@ == m,
            None => r == Err::<StructMap, ExtractError>(ExtractError::UnnamedFieldFailure),
        },
{
    let mut visitor = StructVisitor::new();
    let n = ast.items.len();
    let mut i: usize = 0;
    while i < n
        invariant
            n == ast.items@.len(),
            i <= n,
            items_path_typed(ast@),
            visit_spec(ast@.take(i as int)) == Some(visitor.structs@),
        decreases n - i,
    {
        let item = &ast.items[i];
        proof {
            assert(item@ == ast@[i as int]);
        }
        match visitor.visit_item(item) {
            Ok(_) => {},
            Err(e) => {
                proof {
                    assert(ast@.take(i as int + 1).drop_last() =~= ast@.take(i as int));
                    assert(ast@.take(i as int + 1).last() == ast@[i as int]);
                    assert(visit_spec(ast@.take(i as int + 1)) is None);
                    lemma_visit_none_prefix(ast@, i as int + 1);
                }
                return Err(e);
            },
        }
        proof {
            assert(ast@.take(i as int + 1).drop_last() =~= ast@.take(i as int));
            assert(ast@.take(i as int + 1).last() == ast@[i as int]);
        }
        i += 1;
    }
    proof {
        assert(ast@.take(n as int) =~= ast@);
    }
    Ok(visitor.structs)
}

/// A source text is tractable when, if it parses at all, every struct
/// declaration in it carries only path-shaped field types; a field whose
/// declared type has no leading path segment is outside the model.
pub open spec fn parse_path_typed(code: Seq<char>) -> bool {
    parse_of(code) matches Some(items) ==> items_path_typed(items)
}

/// Parses a source text and extracts every struct declaration into the
/// name-to-fields mapping: the whole extraction pipeline up to the model
/// builder. All-or-nothing: a parse failure or an unnamed field returns the
/// matching failure and no mapping.
pub fn extract_structures_from_code(code: &str) -> (r: Result<StructMap, ExtractError>)
    requires
        parse_path_typed(code@),
    ensures
        match parse_of(code@) {
            Some(items) => match visit_spec(items) {
                Some(m) => r matches Ok(sm) && sm@ == m,
                None => r == Err::<StructMap, ExtractError>(ExtractError::UnnamedFieldFailure),
            },
            None => r == Err::<StructMap, ExtractError>(ExtractError::ParseFailure),
        },
{
    let ast = match parse_source(code) {
        Some(a) => a,
        None => {
            return Err(ExtractError::ParseFailure);
        },
    };
    visit_file(&ast)
}

/// The same pipeline with the tractability of the text decided at run time:
/// `None` exactly when the text parses but some struct declaration carries a
/// field type with no leading path segment, which the model cannot hold.
pub fn try_extract_structures_from_code(code: &str) -> (r: Option<
    Result<StructMap, ExtractError>,
>)
    ensures
        match parse_of(code@) {
            Some(items) => {
                if items_path_typed(items) {
                    match visit_spec(items) {
                        Some(m) => r matches Some(Ok(sm)) && sm@ == m,
                        None => r == Some(
                            Err::<StructMap, ExtractError>(ExtractError::UnnamedFieldFailure),
                        ),
                    }
                } else {
                    r is None
                }
            },
            None => r == Some(Err::<StructMap, ExtractError>(ExtractError::ParseFailure)),
        },
{
    match parse_source(code) {
        None => Some(extract_structures_from_code(code)),
        Some(ast) => {
            if ast_path_typed(&ast) {
                Some(extract_structures_from_code(code))
            } else {
                None
            }
        },
    }
}

} // verus!
