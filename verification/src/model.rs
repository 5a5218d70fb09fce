use vstd::prelude::*;

verus! {

/// Canonical type tag of a field: the closed, language-agnostic vocabulary
/// that raw host-language type tokens are mapped into.
#[derive(Debug, PartialEq, Eq)]
pub enum VariableType {
    StringType,
    IntType,
    FloatType,
    BoolType,
    ArrayType(Box<VariableType>),
    ComplexType(String),
}

impl Clone for VariableType {
    fn clone(&self) -> (r: Self)
        ensures
            r == *self,
        decreases *self,
    {
        match self {
            VariableType::StringType => VariableType::StringType,
            VariableType::IntType => VariableType::IntType,
            VariableType::FloatType => VariableType::FloatType,
            VariableType::BoolType => VariableType::BoolType,
            VariableType::ArrayType(inner) => VariableType::ArrayType(
                Box::new((**inner).clone()),
            ),
            VariableType::ComplexType(name) => VariableType::ComplexType(name.clone()),
        }
    }
}

/// Mathematical shape of a `VariableType`: the same tags with the name of a
/// complex type as a sequence of characters.
pub enum VariableTypeV {
    StringType,
    IntType,
    FloatType,
    BoolType,
    ArrayType(Box<VariableTypeV>),
    ComplexType(Seq<char>),
}

pub open spec fn variable_type_view(t: VariableType) -> VariableTypeV
    decreases t,
{
    match t {
        VariableType::StringType => VariableTypeV::StringType,
        VariableType::IntType => VariableTypeV::IntType,
        VariableType::FloatType => VariableTypeV::FloatType,
        VariableType::BoolType => VariableTypeV::BoolType,
        VariableType::ArrayType(inner) => VariableTypeV::ArrayType(
            Box::new(variable_type_view(*inner)),
        ),
        VariableType::ComplexType(name) => VariableTypeV::ComplexType(name@),
    }
}

impl View for VariableType {
    type V = VariableTypeV;

    open spec fn view(&self) -> VariableTypeV {
        variable_type_view(*self)
    }
}

/// One field of a declaration: a non-empty name, a flag recording whether the
/// source wrapped the type in the optionality marker, a literal placeholder
/// (always empty on the extraction path), and the canonical type tag.
#[derive(Debug, Clone, PartialEq, Eq)]
pub struct Variable {
    pub name: String,
    pub optional: bool,
    pub value: Option<String>,
    pub variable_type: VariableType,
}

/// Mathematical shape of a `Variable`.
pub struct VariableV {
    pub name: Seq<char>,
    pub optional: bool,
    pub value: Option<Seq<char>>,
    pub variable_type: VariableTypeV,
}

impl View for Variable {
    type V = VariableV;

    open spec fn view(&self) -> VariableV {
        VariableV {
            name: self.name@,
            optional: self.optional,
            value: match self.value {
                Some(s) => Some(s@),
                None => None,
            },
            variable_type: self.variable_type@,
        }
    }
}

/// One extracted declaration: its name and its fields in source order.
#[derive(Debug, Clone, PartialEq, Eq)]
pub struct Model {
    pub name: String,
    pub vars: Vec<Variable>,
}

/// Mathematical shape of a `Model`.
pub struct ModelV {
    pub name: Seq<char>,
    pub vars: Seq<VariableV>,
}

pub open spec fn vars_view(vars: Seq<Variable>) -> Seq<VariableV> {
    vars.map_values(|v: Variable| v@)
}

impl View for Model {
    type V = ModelV;

    open spec fn view(&self) -> ModelV {
        ModelV { name: self.name@, vars: vars_view(self.vars@) }
    }
}

/// An ordered collection of models: the unit handed to the writer.
#[derive(Debug, Clone, PartialEq, Eq)]
pub struct Project {
    pub models: Vec<Model>,
}

impl View for Project {
    type V = Seq<ModelV>;

    open spec fn view(&self) -> Seq<ModelV> {
        self.models@.map_values(|m: Model| m@)
    }
}

/// The distinct failure kinds of an extraction run; no partial model
/// sequence is ever returned alongside one of these.
#[derive(Debug, Clone, PartialEq, Eq)]
pub enum ExtractError {
    /// The input text is not a valid source file in the host grammar.
    ParseFailure,
    /// A field lacks a name: a positional field stood where a named-field
    /// declaration was expected. Fatal for the whole run.
    UnnamedFieldFailure,
}

} // verus!
