//! The serializable descriptor model: the structural projection of one type
//! definition that is later bound into the scripting runtime. All entities
//! are plain immutable data; textual slots carry source renderings verbatim.

use vstd::prelude::*;

verus! {

/// How an attribute's payload was written. Serialized as `"path"`, `"list"`
/// or `"value"`.
#[derive(Clone, Copy, PartialEq, Eq, Structural, Debug)]
pub enum AttrStyle {
    /// A bare path attribute, `#[name]`.
    Path,
    /// A parenthesized argument list, `#[name(a, b)]`.
    List,
    /// A name/value attribute, `#[name = expr]`.
    Value,
}

/// The serialized tag of an attribute style.
pub open spec fn attr_style_text(s: AttrStyle) -> Seq<char> {
    match s {
        AttrStyle::Path => "path"@,
        AttrStyle::List => "list"@,
        AttrStyle::Value => "value"@,
    }
}

impl AttrStyle {
    /// The tag under which this style serializes.
    pub fn as_str(&self) -> (r: &'static str)
        ensures
            r@ == attr_style_text(*self),
    {
        match self {
            AttrStyle::Path => "path",
            AttrStyle::List => "list",
            AttrStyle::Value => "value",
        }
    }
}

impl View for AttrStyle {
    type V = AttrStyle;

    open spec fn view(&self) -> AttrStyle {
        *self
    }
}

/// One classified attribute.
#[derive(Debug)]
pub struct Attr {
    /// The attribute's path as one plain identifier, when it is one.
    pub name: Option<String>,
    /// The textual form of the payload alone: the path itself for a bare
    /// path, the normalized rendering of the argument expressions for a
    /// list, the value expression for a name/value form.
    pub inner: String,
    /// The full original textual form of the attribute meta.
    pub outer: String,
    /// The syntactic shape the attribute was written in.
    pub style: AttrStyle,
}

/// Spec-level classified attribute.
pub struct AttrV {
    pub name: Option<Seq<char>>,
    pub inner: Seq<char>,
    pub outer: Seq<char>,
    pub style: AttrStyle,
}

impl View for Attr {
    type V = AttrV;

    open spec fn view(&self) -> AttrV {
        AttrV {
            name: crate::ast::opt_view(self.name),
            inner: self.inner@,
            outer: self.outer@,
            style: self.style,
        }
    }
}

/// The views of a sequence of classified attributes.
pub open spec fn attr_views(s: Seq<Attr>) -> Seq<AttrV> {
    s.map_values(|a: Attr| a@)
}

/// One projected field.
#[derive(Debug)]
pub struct Field {
    /// The declared name, or the synthetic positional placeholder.
    pub name: String,
    /// Verbatim text of the declared type expression.
    pub ty: String,
    /// The field's classified attributes, in declaration order.
    pub attributes: Vec<Attr>,
}

/// Spec-level projected field.
pub struct FieldV {
    pub name: Seq<char>,
    pub ty: Seq<char>,
    pub attributes: Seq<AttrV>,
}

impl View for Field {
    type V = FieldV;

    open spec fn view(&self) -> FieldV {
        FieldV { name: self.name@, ty: self.ty@, attributes: attr_views(self.attributes@) }
    }
}

/// The views of a sequence of projected fields.
pub open spec fn field_views(s: Seq<Field>) -> Seq<FieldV> {
    s.map_values(|f: Field| f@)
}

/// The payload style of one projected variant. Serialized as `"struct"`,
/// `"tuple"` or `"unit"`.
#[derive(Clone, Copy, PartialEq, Eq, Structural, Debug)]
pub enum VariantStyle {
    /// Named fields between braces.
    Struct,
    /// Positional fields between parentheses.
    Tuple,
    /// No payload.
    Unit,
}

/// The serialized tag of a variant style.
pub open spec fn variant_style_text(s: VariantStyle) -> Seq<char> {
    match s {
        VariantStyle::Struct => "struct"@,
        VariantStyle::Tuple => "tuple"@,
        VariantStyle::Unit => "unit"@,
    }
}

impl VariantStyle {
    /// The tag under which this style serializes.
    pub fn as_str(&self) -> (r: &'static str)
        ensures
            r@ == variant_style_text(*self),
    {
        match self {
            VariantStyle::Struct => "struct",
            VariantStyle::Tuple => "tuple",
            VariantStyle::Unit => "unit",
        }
    }
}

impl View for VariantStyle {
    type V = VariantStyle;

    open spec fn view(&self) -> VariantStyle {
        *self
    }
}

/// One projected case of a sum type.
#[derive(Debug)]
pub struct Variant {
    /// The case identifier.
    pub name: String,
    /// The case's classified attributes, in declaration order.
    pub attributes: Vec<Attr>,
    /// The payload is a positional field list.
    pub is_tuple: bool,
    /// The case has no payload.
    pub is_unit: bool,
    /// Verbatim text of the explicit discriminant expression, if declared.
    pub discriminant: Option<String>,
    /// The case's projected fields, in declaration order.
    pub fields: Vec<Field>,
    /// The payload style; always agrees with the two flags.
    pub style: VariantStyle,
}

/// Spec-level projected variant.
pub struct VariantV {
    pub name: Seq<char>,
    pub attributes: Seq<AttrV>,
    pub is_tuple: bool,
    pub is_unit: bool,
    pub discriminant: Option<Seq<char>>,
    pub fields: Seq<FieldV>,
    pub style: VariantStyle,
}

impl View for Variant {
    type V = VariantV;

    open spec fn view(&self) -> VariantV {
        VariantV {
            name: self.name@,
            attributes: attr_views(self.attributes@),
            is_tuple: self.is_tuple,
            is_unit: self.is_unit,
            discriminant: crate::ast::opt_view(self.discriminant),
            fields: field_views(self.fields@),
            style: self.style,
        }
    }
}

/// The views of a sequence of projected variants.
pub open spec fn variant_views(s: Seq<Variant>) -> Seq<VariantV> {
    s.map_values(|v: Variant| v@)
}

/// A produced variant's shape flags, style and field list agree with one
/// another: the style names exactly the shape the flags encode, at most one
/// flag is set, and a payload-free case carries no fields.
pub open spec fn variant_shape_consistent(v: VariantV) -> bool {
    &&& (v.style == VariantStyle::Unit <==> v.is_unit)
    &&& (v.style == VariantStyle::Tuple <==> v.is_tuple)
    &&& (v.style == VariantStyle::Struct <==> !v.is_unit && !v.is_tuple)
    &&& (v.is_unit ==> v.fields.len() == 0)
}

/// The three independently renderable generic clauses: as they appear in an
/// implementation header, in a type-usage position, and as a constraint
/// clause. Opaque text, only ever re-emitted.
#[derive(Debug)]
pub struct Generics {
    /// The clause for an implementation header.
    pub impl_clause: String,
    /// The clause for a type-usage position.
    pub type_clause: String,
    /// The constraint clause.
    pub where_clause: String,
}

/// Spec-level generic clauses.
pub struct GenericsV {
    pub impl_clause: Seq<char>,
    pub type_clause: Seq<char>,
    pub where_clause: Seq<char>,
}

impl View for Generics {
    type V = GenericsV;

    open spec fn view(&self) -> GenericsV {
        GenericsV {
            impl_clause: self.impl_clause@,
            type_clause: self.type_clause@,
            where_clause: self.where_clause@,
        }
    }
}

impl Generics {
    /// An equal copy of the three clauses.
    pub fn duplicate(&self) -> (g: Generics)
        ensures
            g == *self,
    {
        Generics {
            impl_clause: self.impl_clause.clone(),
            type_clause: self.type_clause.clone(),
            where_clause: self.where_clause.clone(),
        }
    }
}

/// Type-level metadata shared by both descriptor kinds.
#[derive(Debug)]
pub struct LuaMeta {
    /// The declared type name.
    pub ident: String,
    /// The type's own classified attributes, the controlling attribute
    /// included, in declaration order.
    pub attributes: Vec<Attr>,
    /// The rendered generic clauses.
    pub generics: Generics,
}

/// Spec-level type metadata.
pub struct LuaMetaV {
    pub ident: Seq<char>,
    pub attributes: Seq<AttrV>,
    pub generics: GenericsV,
}

impl View for LuaMeta {
    type V = LuaMetaV;

    open spec fn view(&self) -> LuaMetaV {
        LuaMetaV {
            ident: self.ident@,
            attributes: attr_views(self.attributes@),
            generics: self.generics@,
        }
    }
}

/// The descriptor of a product type.
#[derive(Debug)]
pub struct LuaStruct {
    /// The projected fields, in declaration order.
    pub fields: Vec<Field>,
    /// The shared type metadata.
    pub meta: LuaMeta,
}

/// Spec-level product descriptor.
pub struct LuaStructV {
    pub fields: Seq<FieldV>,
    pub meta: LuaMetaV,
}

impl View for LuaStruct {
    type V = LuaStructV;

    open spec fn view(&self) -> LuaStructV {
        LuaStructV { fields: field_views(self.fields@), meta: self.meta@ }
    }
}

/// The descriptor of a sum type.
#[derive(Debug)]
pub struct LuaEnum {
    /// The projected cases, in declaration order.
    pub variants: Vec<Variant>,
    /// Reserved slot, kept for shape-compatibility with the product
    /// descriptor; always empty.
    pub fields: Vec<Field>,
    /// The shared type metadata.
    pub meta: LuaMeta,
}

/// Spec-level sum descriptor.
pub struct LuaEnumV {
    pub variants: Seq<VariantV>,
    pub fields: Seq<FieldV>,
    pub meta: LuaMetaV,
}

impl View for LuaEnum {
    type V = LuaEnumV;

    open spec fn view(&self) -> LuaEnumV {
        LuaEnumV {
            variants: variant_views(self.variants@),
            fields: field_views(self.fields@),
            meta: self.meta@,
        }
    }
}

/// The descriptor of one type definition of either kind.
#[derive(Debug)]
pub enum Descriptor {
    /// A product type's descriptor.
    Product(LuaStruct),
    /// A sum type's descriptor.
    Sum(LuaEnum),
}

/// Spec-level descriptor.
pub enum DescriptorV {
    Product(LuaStructV),
    Sum(LuaEnumV),
}

impl View for Descriptor {
    type V = DescriptorV;

    open spec fn view(&self) -> DescriptorV {
        match self {
            Descriptor::Product(s) => DescriptorV::Product(s@),
            Descriptor::Sum(e) => DescriptorV::Sum(e@),
        }
    }
}

} // verus!
