use vstd::prelude::*;

verus! {

/// What the extractor reads of a field's declared type: the leading
/// identifier of a path type, or the fact that the type is not path-shaped.
#[derive(Debug, Clone, PartialEq, Eq)]
pub enum AstType {
    Path(String),
    Other,
}

/// Mathematical shape of an `AstType`.
pub enum AstTypeV {
    Path(Seq<char>),
    Other,
}

impl View for AstType {
    type V = AstTypeV;

    open spec fn view(&self) -> AstTypeV {
        match self {
            AstType::Path(seg) => AstTypeV::Path(seg@),
            AstType::Other => AstTypeV::Other,
        }
    }
}

/// What the extractor reads of one declared field: its name, if the field
/// has one, and its declared type.
#[derive(Debug, Clone, PartialEq, Eq)]
pub struct AstField {
    pub name: Option<String>,
    pub ty: AstType,
}

/// Mathematical shape of an `AstField`.
pub struct AstFieldV {
    pub name: Option<Seq<char>>,
    pub ty: AstTypeV,
}

impl View for AstField {
    type V = AstFieldV;

    open spec fn view(&self) -> AstFieldV {
        AstFieldV {
            name: match &self.name {
                Some(n) => Some(n@),
                None => None,
            },
            ty: self.ty@,
        }
    }
}

/// What the extractor reads of one top-level item: a struct declaration with
/// its name and fields in source order, or some other kind of item.
#[derive(Debug, Clone, PartialEq, Eq)]
pub enum AstItem {
    Struct(String, Vec<AstField>),
    Other,
}

/// Mathematical shape of an `AstItem`.
pub enum AstItemV {
    Struct(Seq<char>, Seq<AstFieldV>),
    Other,
}

pub open spec fn fields_view(fields: Seq<AstField>) -> Seq<AstFieldV> {
    fields.map_values(|f: AstField| f@)
}

impl View for AstItem {
    type V = AstItemV;

    open spec fn view(&self) -> AstItemV {
        match self {
            AstItem::Struct(name, fields) => AstItemV::Struct(name@, fields_view(fields@)),
            AstItem::Other => AstItemV::Other,
        }
    }
}

/// A parsed source file, reduced to the facts the extractor reads: its
/// top-level items in source order.
#[derive(Debug, Clone, PartialEq, Eq)]
pub struct Ast {
    pub items: Vec<AstItem>,
}

impl View for Ast {
    type V = Seq<AstItemV>;

    open spec fn view(&self) -> Seq<AstItemV> {
        self.items@.map_values(|i: AstItem| i@)
    }
}

/// The result of parsing a source text: `Some` of the top-level items when
/// the text is a valid source file, `None` when it is not. Parsing is a
/// function of the text alone.
pub uninterp spec fn parse_of(code: Seq<char>) -> Option<Seq<AstItemV>>;

/// Relies on `syn::parse_file`: parsing is deterministic in the source text;
/// of each top-level item only its kind is read and, for a struct, its name
/// and, for each field, the field's name and the leading segment identifier
/// of a path-shaped declared type.
#[verifier::external_body]
pub(crate) fn parse_source(code: &str) -> (r: Option<Ast>)
    ensures
        match r {
            Some(ast) => parse_of(code@) == Some(ast@),
            None => parse_of(code@) is None,
        },
{
    let file = match syn::parse_file(code) { Ok(f) => f, Err(_) => return None };
    let items = file.items.iter().map(|item| match item {
        syn::Item::Struct(s) => AstItem::Struct(s.ident.to_string(), s.fields.iter().map(|f| AstField {
            name: f.ident.as_ref().map(|i| i.to_string()),
            ty: match &f.ty {
                syn::Type::Path(p) => p.path.segments.first().map_or(AstType::Other, |sg| AstType::Path(sg.ident.to_string())),
                _ => AstType::Other,
            },
        }).collect()),
        _ => AstItem::Other,
    }).collect();
    Some(Ast { items })
}

} // verus!
