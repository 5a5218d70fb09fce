use vstd::prelude::*;

use crate::model::{ModelV, VariableTypeV, VariableV};
use crate::syntax::{AstFieldV, AstItemV, AstTypeV};
use crate::visitors::{
    all_named, extract_vars_spec, field_var, is_option_spec, lemma_visit_none_prefix,
    map_type_spec, raw_token_spec, visit_item_spec, visit_spec,
};
use crate::writers::{rendered_class, rendered_type, rendered_var, rendered_vars};

verus! {

/// A flat canonical tag survives a round trip through the writer and the
/// type table: mapping its rendered token back yields the same tag (every
/// integer width comes back as the one fixed output width).
pub proof fn lemma_flat_type_round_trip(t: VariableTypeV)
    requires
        t is StringType || t is IntType || t is FloatType || t is BoolType,
    ensures
        map_type_spec(rendered_type(t)) == t,
{
    lemma_table_literals();
    match t {
        VariableTypeV::StringType => {
            assert(map_type_spec("String"@) == VariableTypeV::StringType);
        },
        VariableTypeV::IntType => {
            assert(map_type_spec("i32"@) == VariableTypeV::IntType);
        },
        VariableTypeV::FloatType => {
            assert(map_type_spec("f64"@) == VariableTypeV::FloatType);
        },
        VariableTypeV::BoolType => {
            assert(map_type_spec("bool"@) == VariableTypeV::BoolType);
        },
        _ => {
            assert(false);
        },
    }
}

/// The tokens of the exact-match table are pairwise distinct, as are the
/// sentinel token and the optionality marker.
pub proof fn lemma_table_literals()
    ensures
        "String"@.len() == 6,
        "u32"@.len() == 3,
        "u64"@.len() == 3,
        "i32"@.len() == 3,
        "i64"@.len() == 3,
        "f64"@.len() == 3,
        "bool"@.len() == 4,
        "Vec"@.len() == 3,
        "None"@.len() == 4,
        "Option"@.len() == 6,
        "i32"@ != "u32"@ && "i32"@ != "u64"@ && "i32"@ != "i64"@ && "i32"@ != "f64"@,
        "f64"@ != "u32"@ && "f64"@ != "u64"@ && "f64"@ != "i32"@ && "f64"@ != "i64"@ && "f64"@
            != "Vec"@,
        "bool"@ != "None"@,
        "String"@ != "Option"@,
        "i32"@ != "Vec"@,
    {
    reveal_strlit("String");
    reveal_strlit("u32");
    reveal_strlit("u64");
    reveal_strlit("i32");
    reveal_strlit("i64");
    reveal_strlit("f64");
    reveal_strlit("bool");
    reveal_strlit("Vec");
    reveal_strlit("None");
    reveal_strlit("Option");
    assert("u32"@[0] == 'u');
    assert("u64"@[0] == 'u');
    assert("i32"@[0] == 'i');
    assert("i64"@[0] == 'i');
    assert("i32"@[1] == '3');
    assert("i64"@[1] == '6');
    assert("f64"@[0] == 'f');
    assert("Vec"@[0] == 'V');
    assert("bool"@[0] == 'b');
    assert("None"@[0] == 'N');
    assert("String"@[0] == 'S');
    assert("Option"@[0] == 'O');
}

/// A flat declared token survives extraction and re-rendering unchanged,
/// with every integer token narrowing to the fixed output width.
pub proof fn lemma_flat_token_round_trip(tok: Seq<char>)
    requires
        tok == "String"@ || tok == "bool"@ || tok == "f64"@ || tok == "i32"@,
    ensures
        rendered_type(map_type_spec(tok)) == tok,
{
    lemma_table_literals();
}

/// A named field whose declared type is a flat token renders back, after
/// extraction, to the very line its name and token describe: the writer
/// inverts the extractor on flat-typed fields.
pub proof fn lemma_flat_field_round_trip(f: AstFieldV)
    requires
        f.name is Some,
        f.ty matches AstTypeV::Path(tok) && (tok == "String"@ || tok == "bool"@ || tok == "f64"@
            || tok == "i32"@),
    ensures
        rendered_var(field_var(f)) == "pub "@ + f.name->0 + ": "@ + raw_token_spec(f.ty) + ",\n"@,
{
    lemma_table_literals();
    assert(!is_option_spec(f.ty));
    lemma_flat_token_round_trip(raw_token_spec(f.ty));
}

/// A declaration with zero fields extracts to zero variables, and its model
/// renders with an empty field block.
pub proof fn lemma_empty_declaration(name: Seq<char>)
    ensures
        extract_vars_spec(Seq::<AstFieldV>::empty()) == Some(Seq::<VariableV>::empty()),
        rendered_class(ModelV { name: name, vars: Seq::<VariableV>::empty() }) == "pub struct "@
            + name + " {"@ + "}"@,
{
    assert(Seq::<AstFieldV>::empty().map_values(|f: AstFieldV| field_var(f)) =~= Seq::<
        VariableV,
    >::empty());
    assert(rendered_vars(Seq::<VariableV>::empty()) == Seq::<char>::empty());
    assert("pub struct "@ + name + " {"@ + Seq::<char>::empty() + "}"@ =~= "pub struct "@ + name
        + " {"@ + "}"@);
}

/// Every token outside the exact-match table maps to the complex fallback
/// carrying the token itself: the mapper is total and never leaves a token
/// unclassified.
pub proof fn lemma_type_classification_fallback(tok: Seq<char>)
    requires
        tok != "String"@,
        tok != "u32"@,
        tok != "u64"@,
        tok != "i32"@,
        tok != "i64"@,
        tok != "f64"@,
        tok != "bool"@,
        tok != "Vec"@,
    ensures
        map_type_spec(tok) == VariableTypeV::ComplexType(tok),
{
}

/// A field wrapped in the optionality marker extracts with its optional flag
/// set, independent of the inner type, which is not recovered: its canonical
/// type is the sentinel complex type.
pub proof fn lemma_optional_flag(fields: Seq<AstFieldV>, i: int)
    requires
        0 <= i < fields.len(),
        all_named(fields),
        is_option_spec(fields[i].ty),
    ensures
        extract_vars_spec(fields) matches Some(vs) && vs[i].optional && vs[i].variable_type
            == VariableTypeV::ComplexType("None"@),
    {
    lemma_table_literals();
    let vs = fields.map_values(|f: AstFieldV| field_var(f));
    assert(vs[i] == field_var(fields[i]));
    assert(map_type_spec("None"@) == VariableTypeV::ComplexType("None"@));
}

/// A document declaring two structs under one name produces exactly one
/// entry under that name, holding the later declaration's fields.
pub proof fn lemma_last_write_wins(name: Seq<char>, f1: Seq<AstFieldV>, f2: Seq<AstFieldV>)
    requires
        extract_vars_spec(f1) is Some,
        extract_vars_spec(f2) is Some,
    ensures
        visit_spec(seq![AstItemV::Struct(name, f1), AstItemV::Struct(name, f2)]) == Some(
            seq![(name, extract_vars_spec(f2)->0)],
        ),
{
    let items = seq![AstItemV::Struct(name, f1), AstItemV::Struct(name, f2)];
    let first = seq![AstItemV::Struct(name, f1)];
    assert(items.drop_last() =~= first);
    assert(items.last() == AstItemV::Struct(name, f2));
    assert(first.drop_last() =~= Seq::<AstItemV>::empty());
    assert(first.last() == AstItemV::Struct(name, f1));
    let v1 = extract_vars_spec(f1)->0;
    let v2 = extract_vars_spec(f2)->0;
    let m1 = seq![(name, v1)];
    let empty_map = Seq::<(Seq<char>, Seq<VariableV>)>::empty();
    assert(visit_spec(Seq::<AstItemV>::empty()) == Some(empty_map));
    assert(crate::structmap::map_insert(empty_map, name, v1) == m1);
    assert(visit_spec(first) == Some(m1));
    assert(visit_item_spec(m1, AstItemV::Struct(name, f2)) == Some(
        seq![(name, v2)] + m1.drop_first(),
    ));
    assert(seq![(name, v2)] + m1.drop_first() =~= seq![(name, v2)]);
}

/// Two independently named declarations extract to exactly two entries, in
/// source order, each with its own field sequence.
pub proof fn lemma_multiplicity(
    n1: Seq<char>,
    f1: Seq<AstFieldV>,
    n2: Seq<char>,
    f2: Seq<AstFieldV>,
)
    requires
        n1 != n2,
        extract_vars_spec(f1) is Some,
        extract_vars_spec(f2) is Some,
    ensures
        visit_spec(seq![AstItemV::Struct(n1, f1), AstItemV::Struct(n2, f2)]) == Some(
            seq![(n1, extract_vars_spec(f1)->0), (n2, extract_vars_spec(f2)->0)],
        ),
{
    let items = seq![AstItemV::Struct(n1, f1), AstItemV::Struct(n2, f2)];
    let first = seq![AstItemV::Struct(n1, f1)];
    assert(items.drop_last() =~= first);
    assert(items.last() == AstItemV::Struct(n2, f2));
    assert(first.drop_last() =~= Seq::<AstItemV>::empty());
    assert(first.last() == AstItemV::Struct(n1, f1));
    let v1 = extract_vars_spec(f1)->0;
    let v2 = extract_vars_spec(f2)->0;
    let m1 = seq![(n1, v1)];
    let empty_map = Seq::<(Seq<char>, Seq<VariableV>)>::empty();
    assert(visit_spec(Seq::<AstItemV>::empty()) == Some(empty_map));
    assert(crate::structmap::map_insert(empty_map, n1, v1) == m1);
    assert(visit_spec(first) == Some(m1));
    assert(m1[0].0 != n2);
    assert(visit_item_spec(m1, AstItemV::Struct(n2, f2)) == Some(
        seq![m1[0]] + crate::structmap::map_insert(m1.drop_first(), n2, v2),
    ));
    assert(m1.drop_first() =~= Seq::<(Seq<char>, Seq<VariableV>)>::empty());
    assert(seq![m1[0]] + crate::structmap::map_insert(m1.drop_first(), n2, v2) =~= seq![
        (n1, v1),
        (n2, v2),
    ]);
}

/// Within one extraction pass declaration names are unique: a re-declared
/// name replaces its earlier entry and never duplicates it.
pub proof fn lemma_extracted_names_unique(items: Seq<AstItemV>)
    requires
        visit_spec(items) is Some,
    ensures
        crate::structmap::keys_distinct(visit_spec(items)->0),
    decreases items.len(),
{
    if items.len() == 0 {
    } else {
        let prev = visit_spec(items.drop_last());
        assert(prev is Some);
        lemma_extracted_names_unique(items.drop_last());
        match items.last() {
            AstItemV::Struct(name, fs) => {
                crate::structmap::lemma_map_insert_keys_distinct(
                    prev->0,
                    name,
                    extract_vars_spec(fs)->0,
                );
            },
            AstItemV::Other => {},
        }
    }
}

/// A positional field anywhere in any declaration fails the whole document:
/// no mapping, and so no model for any declaration in it, is produced.
pub proof fn lemma_unnamed_field_fatal(items: Seq<AstItemV>, i: int, j: int)
    requires
        0 <= i < items.len(),
        items[i] matches AstItemV::Struct(name, fs) && 0 <= j < fs.len() && fs[j].name is None,
    ensures
        visit_spec(items) is None,
{
    let fs = items[i]->Struct_1;
    assert(!all_named(fs));
    assert(extract_vars_spec(fs) is None);
    assert(items.take(i + 1).drop_last() =~= items.take(i));
    assert(items.take(i + 1).last() == items[i]);
    assert(visit_spec(items.take(i + 1)) is None);
    lemma_visit_none_prefix(items, i + 1);
}

} // verus!

