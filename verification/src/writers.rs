use vstd::prelude::*;

use crate::model::{vars_view, Model, ModelV, Project, Variable, VariableType, VariableTypeV, VariableV};

verus! {

/// The declaration syntax of a canonical type tag, inverting the type table.
/// Every integer width narrows to one fixed width on the way out; an array
/// renders its (recursively rendered) element type inside the
/// generic-sequence syntax; a complex type renders as its literal name.
pub open spec fn rendered_type(t: VariableTypeV) -> Seq<char>
    decreases t,
{
    match t {
        VariableTypeV::StringType => "String"@,
        VariableTypeV::BoolType => "bool"@,
        VariableTypeV::FloatType => "f64"@,
        VariableTypeV::IntType => "i32"@,
        VariableTypeV::ArrayType(inner) => "Vec<"@ + rendered_type(*inner) + ">"@,
        VariableTypeV::ComplexType(name) => name,
    }
}

/// One field's rendering: its name, a colon, its rendered type — wrapped in
/// the optionality syntax when the field is optional — and a trailing comma
/// and line break.
pub open spec fn rendered_var(v: VariableV) -> Seq<char> {
    "pub "@ + v.name + ": "@ + (if v.optional {
        "Option<"@ + rendered_type(v.variable_type) + ">"@
    } else {
        rendered_type(v.variable_type)
    }) + ",\n"@
}

/// The fields of one declaration rendered in order, concatenated.
pub open spec fn rendered_vars(vs: Seq<VariableV>) -> Seq<char>
    decreases vs.len(),
{
    if vs.len() == 0 {
        Seq::<char>::empty()
    } else {
        rendered_vars(vs.drop_last()) + rendered_var(vs.last())
    }
}

/// One model's rendering as a struct declaration.
pub open spec fn rendered_class(m: ModelV) -> Seq<char> {
    "pub struct "@ + m.name + " {"@ + rendered_vars(m.vars) + "}"@
}

/// A whole project's rendering: each model's declaration in order, each
/// followed by a line break.
pub open spec fn rendered_project(ms: Seq<ModelV>) -> Seq<char>
    decreases ms.len(),
{
    if ms.len() == 0 {
        Seq::<char>::empty()
    } else {
        rendered_project(ms.drop_last()) + rendered_class(ms.last()) + "\n"@
    }
}

/// Renders a canonical type tag back into declaration type syntax.
pub fn variable_type_to_rust_type(vartype: &VariableType) -> (r: String)
    ensures
        r@ == rendered_type(vartype@),
    decreases *vartype,
{
    match vartype {
        VariableType::StringType => "String".to_owned(),
        VariableType::BoolType => "bool".to_owned(),
        VariableType::FloatType => "f64".to_owned(),
        VariableType::IntType => "i32".to_owned(),
        VariableType::ArrayType(t) => {
            let inner = variable_type_to_rust_type(&**t);
            let mut s = "Vec<".to_owned();
            s.append(inner.as_str());
            s.append(">");
            proof {
                assert(s@ =~= rendered_type(vartype@));
            }
            s
        },
        VariableType::ComplexType(t) => t.clone(),
    }
}

/// Renders one field as a declaration line.
pub fn var_to_string(var: &Variable) -> (r: String)
    ensures
        r@ == rendered_var(var@),
{
    let rendered = variable_type_to_rust_type(&var.variable_type);
    let mut s = "pub ".to_owned();
    s.append(var.name.as_str());
    s.append(": ");
    if var.optional {
        s.append("Option<");
        s.append(rendered.as_str());
        s.append(">");
    } else {
        s.append(rendered.as_str());
    }
    s.append(",\n");
    proof {
        assert(s@ =~= rendered_var(var@));
    }
    s
}

/// Renders one declaration: its name and its fields in order.
pub fn class_to_string(name: String, vars: Vec<Variable>) -> (r: String)
    ensures
        r@ == rendered_class(ModelV { name: name@, vars: vars_view(vars@) }),
{
    let ghost vvs = vars_view(vars@);
    let mut s = "pub struct ".to_owned();
    s.append(name.as_str());
    s.append(" {");
    let n = vars.len();
    let mut i: usize = 0;
    proof {
        assert(vvs.len() == vars@.len());
        assert(s@ =~= "pub struct "@ + name@ + " {"@ + rendered_vars(vvs.take(0)));
    }
    while i < n
        invariant
            n == vars@.len(),
            i <= n,
            vvs == vars_view(vars@),
            s@ == "pub struct "@ + name@ + " {"@ + rendered_vars(vvs.take(i as int)),
        decreases n - i,
    {
        let piece = var_to_string(&vars[i]);
        s.append(piece.as_str());
        proof {
            assert(vvs.take(i as int + 1).drop_last() =~= vvs.take(i as int));
            assert(vvs.take(i as int + 1).last() == vars@[i as int]@);
            assert(s@ =~= "pub struct "@ + name@ + " {"@ + rendered_vars(vvs.take(i as int + 1)));
        }
        i += 1;
    }
    s.append("}");
    proof {
        assert(vvs.take(n as int) =~= vvs);
        assert(s@ =~= rendered_class(ModelV { name: name@, vars: vvs }));
    }
    s
}

/// Serializes a whole project: the concatenation of each model's rendered
/// declaration, in project order, each followed by a line break.
pub fn project_to_code(project: Project) -> (r: String)
    ensures
        r@ == rendered_project(project@),
{
    let ghost pv = project@;
    let mut models = project.models;
    let ghost models0 = models@;
    proof {
        assert(pv.len() == models0.len());
        assert(forall|t: int| 0 <= t < models0.len() ==> pv[t] == #[trigger] models0[t]@);
    }
    let mut s = String::new();
    let ghost mut k: int = 0;
    proof {
        assert(models@ =~= models0.skip(0));
        assert(s@ =~= rendered_project(pv.take(0)));
    }
    while models.len() > 0
        invariant
            0 <= k <= models0.len(),
            pv.len() == models0.len(),
            forall|t: int| 0 <= t < models0.len() ==> pv[t] == #[trigger] models0[t]@,
            models@ == models0.skip(k),
            s@ == rendered_project(pv.take(k)),
        decreases models@.len(),
    {
        proof {
            assert(models@[0] == models0[k]);
        }
        let model = models.remove(0);
        let ghost gmodel = model;
        let piece = class_to_string(model.name, model.vars);
        s.append(piece.as_str());
        s.append("\n");
        proof {
            assert(models@ =~= models0.skip(k + 1));
            assert(piece@ == rendered_class(gmodel@));
            assert(gmodel@ == pv[k]);
            assert(pv.take(k + 1).drop_last() =~= pv.take(k));
            assert(pv.take(k + 1).last() == pv[k]);
            assert(s@ =~= rendered_project(pv.take(k + 1)));
            k = k + 1;
        }
    }
    proof {
        assert(models0.skip(k).len() == 0);
        assert(k == models0.len());
        assert(pv.take(k) =~= pv);
    }
    s
}

} // verus!
