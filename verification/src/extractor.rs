use vstd::prelude::*;

use crate::model::{vars_view, ExtractError, Model, ModelV, VariableV};
use crate::structmap::StructMapV;
use crate::syntax::Ast;
use crate::visitors::{items_path_typed, visit_file, visit_spec};

verus! {

/// The ordered models built from the accumulated mapping: one model per
/// entry, in the mapping's order. A pure structural conversion.
pub open spec fn models_of_map(m: StructMapV) -> Seq<ModelV> {
    m.map_values(|e: (Seq<char>, Seq<VariableV>)| ModelV { name: e.0, vars: e.1 })
}

pub open spec fn models_view(ms: Seq<Model>) -> Seq<ModelV> {
    ms.map_values(|m: Model| m@)
}

/// Extracts every struct declaration of a parsed file into ordered canonical
/// models. All-or-nothing: an unnamed field fails the run with no partial
/// model sequence.
pub fn extract_from_ast(ast: &Ast) -> (r: Result<Vec<Model>, ExtractError>)
    requires
        items_path_typed(ast@),
    ensures
        match visit_spec(ast@) {
            Some(m) => r matches Ok(models) && models_view(models@) == models_of_map(m),
            None => r == Err::<Vec<Model>, ExtractError>(ExtractError::UnnamedFieldFailure),
        },
{
    let map = match visit_file(ast) {
        Ok(m) => m,
        Err(e) => {
            return Err(e);
        },
    };
    let ghost m0 = map@;
    let mut entries = map.entries;
    let ghost entries0 = entries@;
    proof {
        assert(m0.len() == entries0.len());
        assert(forall|t: int|
            0 <= t < entries0.len() ==> m0[t] == (#[trigger] entries0[t].0@, vars_view(
                entries0[t].1@,
            )));
    }
    let mut models: Vec<Model> = Vec::new();
    let ghost mut k: int = 0;
    proof {
        assert(entries@ =~= entries0.skip(0));
        assert(models_view(models@) =~= models_of_map(m0).take(0));
    }
    while entries.len() > 0
        invariant
            0 <= k <= entries0.len(),
            m0.len() == entries0.len(),
            forall|t: int|
                0 <= t < entries0.len() ==> m0[t] == (#[trigger] entries0[t].0@, vars_view(
                    entries0[t].1@,
                )),
            entries@ == entries0.skip(k),
            models@.len() == k,
            models_view(models@) == models_of_map(m0).take(k),
        decreases entries@.len(),
    {
        proof {
            assert(entries@[0] == entries0[k]);
        }
        let entry = entries.remove(0);
        let ghost gentry = entry;
        let model = Model { name: entry.0, vars: entry.1 };
        let ghost gmodel = model;
        let ghost old_models = models@;
        models.push(model);
        proof {
            assert(entries@ =~= entries0.skip(k + 1));
            assert(gmodel@ == models_of_map(m0)[k]);
            assert(models_view(old_models).len() == old_models.len());
            assert forall|j: int|
                0 <= j < k + 1 implies models_view(models@)[j] == models_of_map(m0).take(k + 1)[j]
            by {
                if j < k {
                    assert(models_view(old_models)[j] == models_of_map(m0).take(k)[j]);
                } else {
                    assert(models@[j] == gmodel);
                }
            }
            assert(models_view(models@) =~= models_of_map(m0).take(k + 1));
            k = k + 1;
        }
    }
    proof {
        assert(entries0.skip(k).len() == 0);
        assert(k == entries0.len());
        assert(models_of_map(m0).take(k) =~= models_of_map(m0));
    }
    Ok(models)
}

} // verus!
