//! Plain-value picture of one type definition as the host parser saw it:
//! raw attributes with their payload shape, raw fields, raw variants, and
//! the rendered generic clauses. Every textual slot carries the verbatim
//! source rendering; nothing here is interpreted.

use vstd::prelude::*;

use crate::descriptor::{Generics, GenericsV};

verus! {

/// The payload shape of one raw attribute.
#[derive(Debug)]
pub enum AttrPayload {
    /// A bare path attribute, `#[name]`: no payload.
    Path,
    /// A parenthesized argument list, `#[name(...)]`; `args_src` is the raw
    /// token text between the parentheses.
    List { args_src: String },
    /// A name/value attribute, `#[name = expr]`; `value_src` is the rendered
    /// text of the value expression alone.
    NameValue { value_src: String },
}

/// Spec-level payload shape.
pub enum AttrPayloadV {
    Path,
    List { args: Seq<char> },
    NameValue { value: Seq<char> },
}

impl View for AttrPayload {
    type V = AttrPayloadV;

    open spec fn view(&self) -> AttrPayloadV {
        match self {
            AttrPayload::Path => AttrPayloadV::Path,
            AttrPayload::List { args_src } => AttrPayloadV::List { args: args_src@ },
            AttrPayload::NameValue { value_src } => AttrPayloadV::NameValue { value: value_src@ },
        }
    }
}

/// One raw attribute node.
#[derive(Debug)]
pub struct AttrNode {
    /// The attribute's leading path as one plain identifier, `None` when the
    /// path is qualified or otherwise not a single identifier.
    pub name: Option<String>,
    /// Verbatim text of the whole attribute meta.
    pub outer_src: String,
    /// Payload shape and raw payload text.
    pub payload: AttrPayload,
}

/// Spec-level raw attribute.
pub struct AttrNodeV {
    pub name: Option<Seq<char>>,
    pub outer: Seq<char>,
    pub payload: AttrPayloadV,
}

/// The view of an optional string.
pub open spec fn opt_view(o: Option<String>) -> Option<Seq<char>> {
    match o {
        Option::Some(s) => Option::Some(s@),
        Option::None => Option::None,
    }
}

impl View for AttrNode {
    type V = AttrNodeV;

    open spec fn view(&self) -> AttrNodeV {
        AttrNodeV { name: opt_view(self.name), outer: self.outer_src@, payload: self.payload@ }
    }
}

/// The views of a sequence of raw attributes.
pub open spec fn attr_node_views(s: Seq<AttrNode>) -> Seq<AttrNodeV> {
    s.map_values(|a: AttrNode| a@)
}

/// One raw field node.
#[derive(Debug)]
pub struct FieldNode {
    /// The declared field name, `None` for a positional field.
    pub name: Option<String>,
    /// Verbatim text of the declared type expression.
    pub ty_src: String,
    /// The field's own attributes, in declaration order.
    pub attrs: Vec<AttrNode>,
}

/// Spec-level raw field.
pub struct FieldNodeV {
    pub name: Option<Seq<char>>,
    pub ty: Seq<char>,
    pub attrs: Seq<AttrNodeV>,
}

impl View for FieldNode {
    type V = FieldNodeV;

    open spec fn view(&self) -> FieldNodeV {
        FieldNodeV { name: opt_view(self.name), ty: self.ty_src@, attrs: attr_node_views(self.attrs@) }
    }
}

/// The views of a sequence of raw fields.
pub open spec fn field_node_views(s: Seq<FieldNode>) -> Seq<FieldNodeV> {
    s.map_values(|f: FieldNode| f@)
}

/// The payload shape of one raw variant.
#[derive(Debug)]
pub enum VariantShape {
    /// No payload.
    Unit,
    /// Positional fields between parentheses.
    Tuple(Vec<FieldNode>),
    /// Named fields between braces.
    Struct(Vec<FieldNode>),
}

/// Spec-level variant payload shape.
pub enum VariantShapeV {
    Unit,
    Tuple(Seq<FieldNodeV>),
    Struct(Seq<FieldNodeV>),
}

impl View for VariantShape {
    type V = VariantShapeV;

    open spec fn view(&self) -> VariantShapeV {
        match self {
            VariantShape::Unit => VariantShapeV::Unit,
            VariantShape::Tuple(fs) => VariantShapeV::Tuple(field_node_views(fs@)),
            VariantShape::Struct(fs) => VariantShapeV::Struct(field_node_views(fs@)),
        }
    }
}

/// One raw variant node of a sum type.
#[derive(Debug)]
pub struct VariantNode {
    /// The case identifier.
    pub name: String,
    /// The case's own attributes, in declaration order.
    pub attrs: Vec<AttrNode>,
    /// The case's payload shape with its raw fields.
    pub shape: VariantShape,
    /// Verbatim text of the explicit discriminant expression, if one is
    /// declared.
    pub discriminant_src: Option<String>,
}

/// Spec-level raw variant.
pub struct VariantNodeV {
    pub name: Seq<char>,
    pub attrs: Seq<AttrNodeV>,
    pub shape: VariantShapeV,
    pub discriminant: Option<Seq<char>>,
}

impl View for VariantNode {
    type V = VariantNodeV;

    open spec fn view(&self) -> VariantNodeV {
        VariantNodeV {
            name: self.name@,
            attrs: attr_node_views(self.attrs@),
            shape: self.shape@,
            discriminant: opt_view(self.discriminant_src),
        }
    }
}

/// The views of a sequence of raw variants.
pub open spec fn variant_node_views(s: Seq<VariantNode>) -> Seq<VariantNodeV> {
    s.map_values(|v: VariantNode| v@)
}

/// The body of one raw type definition.
#[derive(Debug)]
pub enum TypeBody {
    /// A product type: an ordered field list.
    Product(Vec<FieldNode>),
    /// A sum type: an ordered case list.
    Sum(Vec<VariantNode>),
}

/// Spec-level type body.
pub enum TypeBodyV {
    Product(Seq<FieldNodeV>),
    Sum(Seq<VariantNodeV>),
}

impl View for TypeBody {
    type V = TypeBodyV;

    open spec fn view(&self) -> TypeBodyV {
        match self {
            TypeBody::Product(fs) => TypeBodyV::Product(field_node_views(fs@)),
            TypeBody::Sum(vs) => TypeBodyV::Sum(variant_node_views(vs@)),
        }
    }
}

/// One whole raw type definition.
#[derive(Debug)]
pub struct TypeNode {
    /// The declared type name.
    pub name: String,
    /// The type's own attributes, in declaration order.
    pub attrs: Vec<AttrNode>,
    /// The three rendered generic clauses.
    pub generics: Generics,
    /// Field list or case list.
    pub body: TypeBody,
}

/// Spec-level raw type definition.
pub struct TypeNodeV {
    pub name: Seq<char>,
    pub attrs: Seq<AttrNodeV>,
    pub generics: GenericsV,
    pub body: TypeBodyV,
}

impl View for TypeNode {
    type V = TypeNodeV;

    open spec fn view(&self) -> TypeNodeV {
        TypeNodeV {
            name: self.name@,
            attrs: attr_node_views(self.attrs@),
            generics: self.generics@,
            body: self.body@,
        }
    }
}

} // verus!
