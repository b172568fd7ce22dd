//! The extraction logic: classifying attributes, projecting fields and
//! variants, resolving the type-level metadata with its mandatory script
//! path, and composing the full descriptor of a product or sum type.

use vstd::prelude::*;

use crate::ast::{
    attr_node_views, field_node_views, variant_node_views, AttrNode, AttrNodeV, AttrPayload,
    AttrPayloadV, FieldNode, FieldNodeV, TypeBody, TypeBodyV, TypeNode, TypeNodeV, VariantNode,
    VariantNodeV, VariantShape, VariantShapeV,
};
use crate::descriptor::{
    attr_views, field_views, variant_views, Attr, AttrStyle, AttrV, Descriptor, DescriptorV,
    Field, FieldV, LuaEnum, LuaEnumV, LuaMeta, LuaMetaV, LuaStruct, LuaStructV, Variant,
    VariantStyle, VariantV,
};
use crate::error::{ProcError, ProcErrorV};
use crate::syntax::{expr_list_rendering, lit_str_value, parse_lit_str, render_expr_list};
use crate::text::{dec_digits, decimal_string};

verus! {

/// The classification of one raw attribute: `None` exactly when its
/// parenthesized arguments do not parse as comma-separated expressions.
pub open spec fn attr_of(n: AttrNodeV) -> Option<AttrV> {
    match n.payload {
        AttrPayloadV::Path => Option::Some(
            AttrV { name: n.name, inner: n.outer, outer: n.outer, style: AttrStyle::Path },
        ),
        AttrPayloadV::List { args } => match expr_list_rendering(args) {
            Option::Some(t) => Option::Some(
                AttrV { name: n.name, inner: t, outer: n.outer, style: AttrStyle::List },
            ),
            Option::None => Option::None,
        },
        AttrPayloadV::NameValue { value } => Option::Some(
            AttrV { name: n.name, inner: value, outer: n.outer, style: AttrStyle::Value },
        ),
    }
}

/// Every attribute in the sequence classifies.
pub open spec fn attrs_ok(ns: Seq<AttrNodeV>) -> bool {
    forall|i: int| 0 <= i < ns.len() ==> #[trigger] attr_of(ns[i]) is Some
}

/// The classified attributes, in input order; meaningful when `attrs_ok`.
pub open spec fn attrs_val(ns: Seq<AttrNodeV>) -> Seq<AttrV> {
    Seq::new(ns.len(), |i: int| attr_of(ns[i]).unwrap())
}

/// `e` reports the first attribute of `ns` that fails to classify.
pub open spec fn attr_args_failure(ns: Seq<AttrNodeV>, e: ProcErrorV) -> bool {
    exists|i: int|
        {
            &&& 0 <= i < ns.len()
            &&& #[trigger] attr_of(ns[i]) is None
            &&& (forall|j: int| 0 <= j < i ==> #[trigger] attr_of(ns[j]) is Some)
            &&& e == (ProcErrorV::AttrArgs { outer: ns[i].outer })
        }
}

/// Turns a list of raw attribute nodes into classified `Attr` records, in
/// declaration order. Each record keeps the attribute's verbatim outer text;
/// its inner text and style follow from the payload shape alone. The whole
/// extraction aborts on the first attribute whose argument list does not
/// parse as comma-separated expressions.
pub fn attributes(nodes: &Vec<AttrNode>) -> (r: Result<Vec<Attr>, ProcError>)
    ensures
        r is Ok <==> attrs_ok(attr_node_views(nodes@)),
        r matches Ok(v) ==> attr_views(v@) == attrs_val(attr_node_views(nodes@)),
        r matches Err(e) ==> attr_args_failure(attr_node_views(nodes@), e@),
{
    let ghost ns = attr_node_views(nodes@);
    let mut out: Vec<Attr> = Vec::new();
    let mut idx: usize = 0;
    while idx < nodes.len()
        invariant
            0 <= idx <= nodes@.len(),
            ns == attr_node_views(nodes@),
            out@.len() == idx,
            forall|j: int| 0 <= j < idx ==> #[trigger] attr_of(ns[j]) == Option::Some(out@[j]@),
        decreases nodes@.len() - idx,
    {
        let n = &nodes[idx];
        let name: Option<String> = match &n.name {
            Option::Some(s) => Option::Some(s.clone()),
            Option::None => Option::None,
        };
        let (inner, style): (String, AttrStyle) = match &n.payload {
            AttrPayload::Path => (n.outer_src.clone(), AttrStyle::Path),
            AttrPayload::List { args_src } => match render_expr_list(args_src.as_str()) {
                Option::Some(t) => (t, AttrStyle::List),
                Option::None => {
                    let e = ProcError::AttrArgs { outer: n.outer_src.clone() };
                    proof {
                        assert(attr_of(ns[idx as int]) is None);
                        assert(forall|j: int| 0 <= j < idx ==> #[trigger] attr_of(ns[j]) is Some);
                        assert(attr_args_failure(ns, e@));
                    }
                    return Err(e);
                },
            },
            AttrPayload::NameValue { value_src } => (value_src.clone(), AttrStyle::Value),
        };
        let a = Attr { name, inner, outer: n.outer_src.clone(), style };
        proof {
            assert(attr_of(ns[idx as int]) == Option::Some(a@));
        }
        out.push(a);
        idx += 1;
    }
    proof {
        assert(attr_views(out@) =~= attrs_val(ns));
    }
    Ok(out)
}

/// The synthetic placeholder name of the unnamed field at position `i`.
pub open spec fn positional_name(i: int) -> Seq<char> {
    seq!['_'] + dec_digits(i as nat)
}

/// The name a projected field gets: the declared one, or the positional
/// placeholder.
pub open spec fn field_name_of(n: Option<Seq<char>>, i: int) -> Seq<char> {
    match n {
        Option::Some(s) => s,
        Option::None => positional_name(i),
    }
}

/// The projection of one raw field standing at position `i`: `None` exactly
/// when one of its attributes fails to classify.
pub open spec fn field_of(n: FieldNodeV, i: int) -> Option<FieldV> {
    if attrs_ok(n.attrs) {
        Option::Some(
            FieldV { name: field_name_of(n.name, i), ty: n.ty, attributes: attrs_val(n.attrs) },
        )
    } else {
        Option::None
    }
}

/// Every field in the sequence projects.
pub open spec fn fields_ok(ns: Seq<FieldNodeV>) -> bool {
    forall|i: int| 0 <= i < ns.len() ==> attrs_ok(#[trigger] ns[i].attrs)
}

/// The projected fields, in input order; meaningful when `fields_ok`.
pub open spec fn fields_val(ns: Seq<FieldNodeV>) -> Seq<FieldV> {
    Seq::new(ns.len(), |i: int| field_of(ns[i], i).unwrap())
}

/// `e` reports the first attribute that fails to classify across the fields
/// of `ns`, scanned in order.
pub open spec fn field_args_failure(ns: Seq<FieldNodeV>, e: ProcErrorV) -> bool {
    exists|i: int|
        {
            &&& 0 <= i < ns.len()
            &&& !attrs_ok(#[trigger] ns[i].attrs)
            &&& (forall|j: int| 0 <= j < i ==> attrs_ok(#[trigger] ns[j].attrs))
            &&& attr_args_failure(ns[i].attrs, e)
        }
}

/// Projects a list of raw field nodes, in declaration order: each field
/// keeps its declared name or gets the `_<position>` placeholder, carries
/// the verbatim text of its type, and its classified attributes. Aborts on
/// the first attribute that fails to classify.
pub fn fields(nodes: &Vec<FieldNode>) -> (r: Result<Vec<Field>, ProcError>)
    ensures
        r is Ok <==> fields_ok(field_node_views(nodes@)),
        r matches Ok(v) ==> field_views(v@) == fields_val(field_node_views(nodes@)),
        r matches Err(e) ==> field_args_failure(field_node_views(nodes@), e@),
{
    let ghost ns = field_node_views(nodes@);
    let mut out: Vec<Field> = Vec::new();
    let mut idx: usize = 0;
    while idx < nodes.len()
        invariant
            0 <= idx <= nodes@.len(),
            ns == field_node_views(nodes@),
            out@.len() == idx,
            forall|j: int| 0 <= j < idx ==> #[trigger] field_of(ns[j], j) == Option::Some(
                out@[j]@,
            ),
        decreases nodes@.len() - idx,
    {
        let n = &nodes[idx];
        let attrs = match attributes(&n.attrs) {
            Ok(a) => a,
            Err(e) => {
                proof {
                    assert(!attrs_ok(ns[idx as int].attrs));
                    assert forall|j: int| 0 <= j < idx implies attrs_ok(#[trigger] ns[j].attrs) by {
                        assert(field_of(ns[j], j) is Some);
                    }
                    assert(field_args_failure(ns, e@));
                }
                return Err(e);
            },
        };
        let name: String = match &n.name {
            Option::Some(s) => s.clone(),
            Option::None => {
                let mut placeholder = "_".to_owned();
                let digits = decimal_string(idx);
                placeholder.append(digits.as_str());
                proof {
                    reveal_strlit("_");
                    assert(placeholder@ =~= positional_name(idx as int));
                }
                placeholder
            },
        };
        let f = Field { name, ty: n.ty_src.clone(), attributes: attrs };
        proof {
            assert(attr_views(f.attributes@) =~= attrs_val(ns[idx as int].attrs));
            assert(field_of(ns[idx as int], idx as int) == Option::Some(f@));
        }
        out.push(f);
        idx += 1;
    }
    proof {
        assert forall|j: int| 0 <= j < ns.len() implies attrs_ok(#[trigger] ns[j].attrs) by {
            assert(field_of(ns[j], j) is Some);
        }
        assert(field_views(out@) =~= fields_val(ns));
    }
    Ok(out)
}

/// The raw argument text of an attribute's parenthesized list, empty for the
/// other payload shapes.
pub open spec fn script_attr_args(n: AttrNodeV) -> Seq<char> {
    match n.payload {
        AttrPayloadV::List { args } => args,
        _ => Seq::empty(),
    }
}

/// `n` is a well-shaped controlling attribute: named `luaproc`, written as a
/// parenthesized list whose sole argument is a string literal.
pub open spec fn is_script_attr(n: AttrNodeV) -> bool {
    &&& n.name == Option::Some("luaproc"@)
    &&& n.payload is List
    &&& lit_str_value(script_attr_args(n)) is Some
}

/// The script path carried by the first well-shaped controlling attribute,
/// scanned in declaration order; `None` when no attribute qualifies.
pub open spec fn script_path_of(ns: Seq<AttrNodeV>) -> Option<Seq<char>>
    decreases ns.len(),
{
    if ns.len() == 0 {
        Option::None
    } else if is_script_attr(ns[0]) {
        lit_str_value(script_attr_args(ns[0]))
    } else {
        script_path_of(ns.drop_first())
    }
}

proof fn lemma_script_path_none(ns: Seq<AttrNodeV>)
    requires
        forall|i: int| 0 <= i < ns.len() ==> !is_script_attr(#[trigger] ns[i]),
    ensures
        script_path_of(ns) is None,
    decreases ns.len(),
{
    if ns.len() > 0 {
        assert forall|i: int| 0 <= i < ns.drop_first().len() implies !is_script_attr(
            #[trigger] ns.drop_first()[i],
        ) by {
            assert(ns.drop_first()[i] == ns[i + 1]);
        }
        lemma_script_path_none(ns.drop_first());
    }
}

proof fn lemma_script_path_first(ns: Seq<AttrNodeV>, i: int)
    requires
        0 <= i < ns.len(),
        is_script_attr(ns[i]),
        forall|j: int| 0 <= j < i ==> !is_script_attr(#[trigger] ns[j]),
    ensures
        script_path_of(ns) == lit_str_value(script_attr_args(ns[i])),
    decreases i,
{
    if i > 0 {
        assert forall|j: int| 0 <= j < i - 1 implies !is_script_attr(
            #[trigger] ns.drop_first()[j],
        ) by {
            assert(ns.drop_first()[j] == ns[j + 1]);
        }
        assert(ns.drop_first()[i - 1] == ns[i]);
        lemma_script_path_first(ns.drop_first(), i - 1);
    }
}

/// Scans a type's attribute list, in declaration order, for the first
/// well-shaped controlling attribute and returns the script path it names.
pub fn resolve_script_path(attrs: &Vec<AttrNode>) -> (r: Option<String>)
    ensures
        match r {
            Option::Some(p) => script_path_of(attr_node_views(attrs@)) == Option::Some(p@),
            Option::None => script_path_of(attr_node_views(attrs@)) is None,
        },
{
    let ghost ns = attr_node_views(attrs@);
    let control: String = "luaproc".to_owned();
    let mut idx: usize = 0;
    while idx < attrs.len()
        invariant
            0 <= idx <= attrs@.len(),
            ns == attr_node_views(attrs@),
            control@ == "luaproc"@,
            forall|j: int| 0 <= j < idx ==> !is_script_attr(#[trigger] ns[j]),
        decreases attrs@.len() - idx,
    {
        let n = &attrs[idx];
        let name_matches = match &n.name {
            Option::Some(nm) => *nm == control,
            Option::None => false,
        };
        if name_matches {
            match &n.payload {
                AttrPayload::List { args_src } => {
                    match parse_lit_str(args_src.as_str()) {
                        Option::Some(p) => {
                            proof {
                                assert(is_script_attr(ns[idx as int]));
                                lemma_script_path_first(ns, idx as int);
                            }
                            return Option::Some(p);
                        },
                        Option::None => {},
                    }
                },
                _ => {},
            }
        }
        proof {
            assert(!is_script_attr(ns[idx as int]));
        }
        idx += 1;
    }
    proof {
        lemma_script_path_none(ns);
    }
    Option::None
}

/// The metadata of a type definition: `None` exactly when one of the type's
/// own attributes fails to classify.
pub open spec fn meta_of(t: TypeNodeV) -> Option<LuaMetaV> {
    if attrs_ok(t.attrs) {
        Option::Some(
            LuaMetaV { ident: t.name, attributes: attrs_val(t.attrs), generics: t.generics },
        )
    } else {
        Option::None
    }
}

impl LuaMeta {
    /// Resolves the mandatory controlling attribute to the script path it
    /// names and extracts the type-level metadata: declared name, classified
    /// attributes (the controlling attribute included, not filtered out) and
    /// the rendered generic clauses. Aborts when no well-shaped controlling
    /// attribute is present; otherwise aborts on the first attribute that
    /// fails to classify.
    pub fn new(t: &TypeNode) -> (r: Result<(LuaMeta, String), ProcError>)
        ensures
            r is Ok <==> script_path_of(t@.attrs) is Some && attrs_ok(t@.attrs),
            r matches Ok(p) ==> Option::Some(p.0@) == meta_of(t@) && Option::Some(p.1@)
                == script_path_of(t@.attrs),
            r matches Err(e) ==> (script_path_of(t@.attrs) is None
                && e@ is MissingScriptAttr) || (script_path_of(t@.attrs) is Some
                && attr_args_failure(t@.attrs, e@)),
    {
        let path = match resolve_script_path(&t.attrs) {
            Option::Some(p) => p,
            Option::None => {
                return Err(ProcError::MissingScriptAttr);
            },
        };
        let attrs = match attributes(&t.attrs) {
            Ok(a) => a,
            Err(e) => {
                return Err(e);
            },
        };
        let meta = LuaMeta {
            ident: t.name.clone(),
            attributes: attrs,
            generics: t.generics.duplicate(),
        };
        Ok((meta, path))
    }
}

/// The product descriptor composed of shared metadata and projected fields.
pub open spec fn struct_of(m: LuaMetaV, ns: Seq<FieldNodeV>) -> LuaStructV {
    LuaStructV { fields: fields_val(ns), meta: m }
}

impl LuaStruct {
    /// Composes the descriptor of a product type: the projected field list
    /// plus the shared metadata. Product types have no case structure.
    pub fn new(meta: LuaMeta, nodes: &Vec<FieldNode>) -> (r: Result<LuaStruct, ProcError>)
        ensures
            r is Ok <==> fields_ok(field_node_views(nodes@)),
            r matches Ok(d) ==> d@ == struct_of(meta@, field_node_views(nodes@)),
            r matches Err(e) ==> field_args_failure(field_node_views(nodes@), e@),
    {
        match fields(nodes) {
            Ok(fs) => Ok(LuaStruct { fields: fs, meta }),
            Err(e) => Err(e),
        }
    }
}

/// The raw fields carried by a variant's payload shape.
pub open spec fn shape_fields(s: VariantShapeV) -> Seq<FieldNodeV> {
    match s {
        VariantShapeV::Unit => Seq::empty(),
        VariantShapeV::Tuple(fs) => fs,
        VariantShapeV::Struct(fs) => fs,
    }
}

/// The style tag of a variant's payload shape.
pub open spec fn shape_style(s: VariantShapeV) -> VariantStyle {
    match s {
        VariantShapeV::Unit => VariantStyle::Unit,
        VariantShapeV::Tuple(_) => VariantStyle::Tuple,
        VariantShapeV::Struct(_) => VariantStyle::Struct,
    }
}

/// The projection of one raw variant: `None` exactly when one of its own or
/// its fields' attributes fails to classify.
pub open spec fn variant_of(n: VariantNodeV) -> Option<VariantV> {
    if attrs_ok(n.attrs) && fields_ok(shape_fields(n.shape)) {
        Option::Some(
            VariantV {
                name: n.name,
                attributes: attrs_val(n.attrs),
                is_tuple: n.shape is Tuple,
                is_unit: n.shape is Unit,
                discriminant: n.discriminant,
                fields: fields_val(shape_fields(n.shape)),
                style: shape_style(n.shape),
            },
        )
    } else {
        Option::None
    }
}

/// Every variant in the sequence projects.
pub open spec fn variants_ok(ns: Seq<VariantNodeV>) -> bool {
    forall|i: int| 0 <= i < ns.len() ==> variant_of(#[trigger] ns[i]) is Some
}

/// The projected variants, in input order; meaningful when `variants_ok`.
pub open spec fn variants_val(ns: Seq<VariantNodeV>) -> Seq<VariantV> {
    Seq::new(ns.len(), |i: int| variant_of(ns[i]).unwrap())
}

/// `e` reports the first failing attribute of the one variant `n`: its own
/// attributes are scanned before its fields'.
pub open spec fn variant_args_failure(n: VariantNodeV, e: ProcErrorV) -> bool {
    ||| attr_args_failure(n.attrs, e)
    ||| (attrs_ok(n.attrs) && field_args_failure(shape_fields(n.shape), e))
}

/// `e` reports the first failing attribute across the variants of `ns`,
/// scanned in order.
pub open spec fn variants_args_failure(ns: Seq<VariantNodeV>, e: ProcErrorV) -> bool {
    exists|i: int|
        {
            &&& 0 <= i < ns.len()
            &&& variant_of(#[trigger] ns[i]) is None
            &&& (forall|j: int| 0 <= j < i ==> variant_of(#[trigger] ns[j]) is Some)
            &&& variant_args_failure(ns[i], e)
        }
}

/// Projects one raw case of a sum type into a `Variant` record: classified
/// attributes, style tag and shape flags per the payload shape, projected
/// fields (positionally named for a tuple payload), and the verbatim
/// discriminant text when one is declared.
pub fn project_variant(n: &VariantNode) -> (r: Result<Variant, ProcError>)
    ensures
        r is Ok <==> variant_of(n@) is Some,
        r matches Ok(v) ==> Option::Some(v@) == variant_of(n@),
        r matches Err(e) ==> variant_args_failure(n@, e@),
{
    let attrs = match attributes(&n.attrs) {
        Ok(a) => a,
        Err(e) => {
            return Err(e);
        },
    };
    let (fs, style, is_tuple, is_unit): (Vec<Field>, VariantStyle, bool, bool) = match &n.shape {
        VariantShape::Unit => (Vec::new(), VariantStyle::Unit, false, true),
        VariantShape::Tuple(fnodes) => match fields(fnodes) {
            Ok(fs) => (fs, VariantStyle::Tuple, true, false),
            Err(e) => {
                return Err(e);
            },
        },
        VariantShape::Struct(fnodes) => match fields(fnodes) {
            Ok(fs) => (fs, VariantStyle::Struct, false, false),
            Err(e) => {
                return Err(e);
            },
        },
    };
    let discriminant: Option<String> = match &n.discriminant_src {
        Option::Some(d) => Option::Some(d.clone()),
        Option::None => Option::None,
    };
    let v = Variant {
        name: n.name.clone(),
        attributes: attrs,
        is_tuple,
        is_unit,
        discriminant,
        fields: fs,
        style,
    };
    proof {
        if n@.shape is Unit {
            assert(field_views(v.fields@) =~= fields_val(shape_fields(n@.shape)));
        }
        assert(variant_of(n@) == Option::Some(v@));
    }
    Ok(v)
}

/// The sum descriptor composed of shared metadata and projected variants;
/// its own field slot is reserved and stays empty.
pub open spec fn enum_of(m: LuaMetaV, ns: Seq<VariantNodeV>) -> LuaEnumV {
    LuaEnumV { variants: variants_val(ns), fields: Seq::empty(), meta: m }
}

impl LuaEnum {
    /// Composes the descriptor of a sum type: one projected `Variant` per
    /// case, in declaration order, plus the shared metadata. The descriptor's
    /// own field slot is reserved and left empty.
    pub fn new(meta: LuaMeta, nodes: &Vec<VariantNode>) -> (r: Result<LuaEnum, ProcError>)
        ensures
            r is Ok <==> variants_ok(variant_node_views(nodes@)),
            r matches Ok(d) ==> d@ == enum_of(meta@, variant_node_views(nodes@)),
            r matches Err(e) ==> variants_args_failure(variant_node_views(nodes@), e@),
    {
        let ghost ns = variant_node_views(nodes@);
        let mut variants: Vec<Variant> = Vec::new();
        let mut idx: usize = 0;
        while idx < nodes.len()
            invariant
                0 <= idx <= nodes@.len(),
                ns == variant_node_views(nodes@),
                variants@.len() == idx,
                forall|j: int| 0 <= j < idx ==> #[trigger] variant_of(ns[j]) == Option::Some(
                    variants@[j]@,
                ),
            decreases nodes@.len() - idx,
        {
            let v = match project_variant(&nodes[idx]) {
                Ok(v) => v,
                Err(e) => {
                    proof {
                        assert(variant_of(ns[idx as int]) is None);
                        assert(forall|j: int|
                            0 <= j < idx ==> variant_of(#[trigger] ns[j]) is Some);
                        assert(variants_args_failure(ns, e@));
                    }
                    return Err(e);
                },
            };
            variants.push(v);
            idx += 1;
        }
        let d = LuaEnum { variants, fields: Vec::new(), meta };
        proof {
            assert(variant_views(d.variants@) =~= variants_val(ns));
            assert(field_views(d.fields@) =~= Seq::<FieldV>::empty());
            assert(d@ == enum_of(meta@, ns));
        }
        Ok(d)
    }
}

/// The whole-body projection failure report: the first failing attribute of
/// the field list or the case list.
pub open spec fn body_args_failure(b: TypeBodyV, e: ProcErrorV) -> bool {
    match b {
        TypeBodyV::Product(fs) => field_args_failure(fs, e),
        TypeBodyV::Sum(vs) => variants_args_failure(vs, e),
    }
}

/// The body projects wholly.
pub open spec fn body_ok(b: TypeBodyV) -> bool {
    match b {
        TypeBodyV::Product(fs) => fields_ok(fs),
        TypeBodyV::Sum(vs) => variants_ok(vs),
    }
}

/// The descriptor of a whole type definition: `None` exactly when one of its
/// attributes, anywhere, fails to classify.
pub open spec fn descriptor_of(t: TypeNodeV) -> Option<DescriptorV> {
    match meta_of(t) {
        Option::Some(m) => match t.body {
            TypeBodyV::Product(fs) => if fields_ok(fs) {
                Option::Some(DescriptorV::Product(struct_of(m, fs)))
            } else {
                Option::None
            },
            TypeBodyV::Sum(vs) => if variants_ok(vs) {
                Option::Some(DescriptorV::Sum(enum_of(m, vs)))
            } else {
                Option::None
            },
        },
        Option::None => Option::None,
    }
}

/// Builds the full descriptor of one type definition and resolves its script
/// path. Resolution of the mandatory controlling attribute comes first: when
/// it is missing, nothing else is looked at and no descriptor is built.
pub fn build_descriptor(t: &TypeNode) -> (r: Result<(Descriptor, String), ProcError>)
    ensures
        r is Ok <==> script_path_of(t@.attrs) is Some && descriptor_of(t@) is Some,
        r matches Ok(p) ==> Option::Some(p.0@) == descriptor_of(t@) && Option::Some(p.1@)
            == script_path_of(t@.attrs),
        r matches Err(e) ==> {
            ||| (script_path_of(t@.attrs) is None && e@ is MissingScriptAttr)
            ||| (script_path_of(t@.attrs) is Some && attr_args_failure(t@.attrs, e@))
            ||| (script_path_of(t@.attrs) is Some && attrs_ok(t@.attrs) && body_args_failure(
                t@.body,
                e@,
            ))
        },
{
    let (meta, path) = match LuaMeta::new(t) {
        Ok(p) => p,
        Err(e) => {
            return Err(e);
        },
    };
    match &t.body {
        TypeBody::Product(fnodes) => match LuaStruct::new(meta, fnodes) {
            Ok(d) => Ok((Descriptor::Product(d), path)),
            Err(e) => Err(e),
        },
        TypeBody::Sum(vnodes) => match LuaEnum::new(meta, vnodes) {
            Ok(d) => Ok((Descriptor::Sum(d), path)),
            Err(e) => Err(e),
        },
    }
}

} // verus!
