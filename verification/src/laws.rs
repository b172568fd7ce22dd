//! The library-wide laws, each proved once and for all inputs: how an
//! attribute's shape fixes its classification, that positional fallback
//! names never collide, that a projected variant's flags, style and fields
//! agree, and that a script failure's report names both the script and the
//! runtime's message.

use vstd::prelude::*;

use crate::ast::{AttrNodeV, AttrPayloadV, FieldNodeV, VariantNodeV};
use crate::builders::{
    attr_of, attrs_val, field_of, fields_val, positional_name, shape_fields, variant_of,
    variants_val,
};
use crate::descriptor::{variant_shape_consistent, AttrStyle};
use crate::error::{error_text, ProcErrorV};
use crate::syntax::expr_list_rendering;
use crate::text::{contains_seq, dec_digits, lemma_dec_digits_injective};

verus! {

/// An attribute's classification follows its written shape alone. A bare
/// path classifies as `Path` with its inner text equal to its outer text; a
/// parenthesized list classifies as `List` exactly when its arguments parse,
/// and then its inner text is their normalized rendering; a name/value form
/// classifies as `Value` with the value's text alone as inner text. The
/// name and the outer text always pass through unchanged.
pub proof fn lemma_attr_classification(n: AttrNodeV)
    ensures
        n.payload is Path ==> (attr_of(n) matches Some(a) && a.style == AttrStyle::Path
            && a.inner == a.outer && a.outer == n.outer && a.name == n.name),
        n.payload matches AttrPayloadV::List { args } ==> (attr_of(n) is Some
            <==> expr_list_rendering(args) is Some) && (attr_of(n) matches Some(a) ==> a.style
            == AttrStyle::List && Some(a.inner) == expr_list_rendering(args) && a.outer == n.outer
            && a.name == n.name),
        n.payload matches AttrPayloadV::NameValue { value } ==> (attr_of(n) matches Some(a)
            && a.style == AttrStyle::Value && a.inner == value && a.outer == n.outer && a.name
            == n.name),
{
}

/// Positional fallback names are unique by construction: two distinct
/// positions never render to the same placeholder.
pub proof fn lemma_positional_names_unique(i: int, j: int)
    requires
        0 <= i,
        0 <= j,
        i != j,
    ensures
        positional_name(i) != positional_name(j),
{
    if positional_name(i) == positional_name(j) {
        let a = dec_digits(i as nat);
        let b = dec_digits(j as nat);
        assert(a =~= (seq!['_'] + a).subrange(1, (seq!['_'] + a).len() as int));
        assert(b =~= (seq!['_'] + b).subrange(1, (seq!['_'] + b).len() as int));
        lemma_dec_digits_injective(i as nat, j as nat);
    }
}

/// Every produced variant is shape-consistent: its style tag names exactly
/// the shape its flags encode, at most one flag is set, and a payload-free
/// case carries no fields. Moreover, whenever the written payload is either
/// absent or carries at least one field, an empty field list and the unit
/// flag coincide exactly.
pub proof fn lemma_variant_shape(n: VariantNodeV)
    ensures
        variant_of(n) matches Some(v) ==> variant_shape_consistent(v),
        variant_of(n) matches Some(v) ==> v.fields.len() == shape_fields(n.shape).len(),
        (n.shape is Unit || shape_fields(n.shape).len() > 0) ==> (variant_of(n) matches Some(v)
            ==> (v.fields.len() == 0 <==> v.is_unit)),
{
}

/// Projection preserves order: each projected list is exactly as long as its
/// input, and the element at every index is the projection of the input
/// element that stood at that same index.
pub proof fn lemma_order_preservation(
    attrs: Seq<AttrNodeV>,
    flds: Seq<FieldNodeV>,
    vars: Seq<VariantNodeV>,
)
    ensures
        attrs_val(attrs).len() == attrs.len(),
        forall|i: int| 0 <= i < attrs.len() ==> #[trigger] attrs_val(attrs)[i] == attr_of(
            attrs[i],
        ).unwrap(),
        fields_val(flds).len() == flds.len(),
        forall|i: int| 0 <= i < flds.len() ==> #[trigger] fields_val(flds)[i] == field_of(
            flds[i],
            i,
        ).unwrap(),
        variants_val(vars).len() == vars.len(),
        forall|i: int| 0 <= i < vars.len() ==> #[trigger] variants_val(vars)[i] == variant_of(
            vars[i],
        ).unwrap(),
{
}

/// A wholly unnamed field list of length N projects to the names
/// `_0 .. _{N-1}`, in order.
pub proof fn lemma_positional_fallback(ns: Seq<FieldNodeV>)
    requires
        forall|i: int| 0 <= i < ns.len() ==> (#[trigger] ns[i]).name is None,
    ensures
        forall|i: int|
            0 <= i < ns.len() ==> (#[trigger] field_of(ns[i], i) matches Some(f) ==> f.name
                == positional_name(i)),
{
}

/// A script failure's report carries both the script's path and the
/// runtime's own message, verbatim and contiguously.
pub proof fn lemma_script_error_report(path: Seq<char>, detail: Seq<char>)
    ensures
        contains_seq(error_text(ProcErrorV::Script { path, detail }), path),
        contains_seq(error_text(ProcErrorV::Script { path, detail }), detail),
{
    let pre = "error in Lua script "@;
    let mid = ": "@;
    let msg = error_text(ProcErrorV::Script { path, detail });
    assert(msg == pre + path + mid + detail);
    let k1 = pre.len() as int;
    assert(msg.subrange(k1, k1 + path.len() as int) =~= path);
    let k2 = (pre.len() + path.len() + mid.len()) as int;
    assert(msg.subrange(k2, k2 + detail.len() as int) =~= detail);
}

} // verus!
