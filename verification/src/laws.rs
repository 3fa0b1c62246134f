//! The laws of the transform, stated over the contracts of the normalizer,
//! the synthesizer and the accessor semantics, and proved here.

use vstd::prelude::*;

use crate::ast::{
    AccessorModel, AttrModel, BindingModel, EnumModel, FieldModel, ShapeModel, UnnamedFieldModel,
    VariantModel,
};
use crate::semantics::{
    DataModel, Payload, ValueModel, eval_accessor, lemma_lookup_after_store, lemma_lookup_at_index,
    written_value,
};
use crate::transform::{
    accessor_for, arm_for, attr_allowed, filtered_attrs, injected_named, injected_positional,
    normalized_shape, normalized_variants, synthesized_accessors, transformed_decl,
};

verus! {

/// The payload a value carries in the slot of the injected field of rank
/// `k`: slot `k` of positional data, the `k`-th field of named data —
/// normalization guarantees the injected fields occupy the lowest ranks in
/// either case.
pub open spec fn injected_payload(d: DataModel, k: int) -> Payload {
    match d {
        DataModel::Positional(ps) => ps[k],
        DataModel::Named(vs) => vs[k].value,
        DataModel::Unit => arbitrary(),
    }
}

/// Whether a value fits one variant's shape: no data for a no-data variant,
/// as many payloads as a positional variant has slots, and fields matching
/// a named variant's names, one for one, in order.
pub open spec fn data_matches(d: DataModel, s: ShapeModel) -> bool {
    match (d, s) {
        (DataModel::Unit, ShapeModel::Unit) => true,
        (DataModel::Positional(ps), ShapeModel::Positional(ts)) => ps.len() == ts.len(),
        (DataModel::Named(vs), ShapeModel::Named(ns)) => {
            &&& vs.len() == ns.len()
            &&& forall|j: int| 0 <= j < vs.len() ==> vs[j].name == ns[j].name
        },
        _ => false,
    }
}

/// Whether a value is a well-formed inhabitant of a declaration: it names
/// one of the variants, and its data fits that variant's shape.
pub open spec fn value_wf(v: ValueModel, variants: Seq<VariantModel>) -> bool {
    &&& 0 <= v.variant_index < variants.len()
    &&& data_matches(v.data, variants[v.variant_index].shape)
}

/// Whether a named shape's field names are pairwise distinct — what the
/// host type system demands of any legal named-data variant.
pub open spec fn named_shape_distinct(s: ShapeModel) -> bool {
    match s {
        ShapeModel::Named(ns) => forall|a: int, b: int|
            0 <= a < b < ns.len() ==> ns[a].name != ns[b].name,
        _ => true,
    }
}

/// With at least one field requested, a positional variant's normalized
/// shape is exactly the requested entries followed by the variant's own,
/// unchanged: the injected fields occupy the lowest slots, each keeping its
/// type and annotations with its name stripped.
pub proof fn lemma_injected_field_order(existing: Seq<UnnamedFieldModel>, fs: Seq<FieldModel>)
    requires
        fs.len() > 0,
    ensures
        normalized_shape(ShapeModel::Positional(existing), fs) == ShapeModel::Positional(
            injected_positional(fs) + existing,
        ),
        injected_positional(fs).len() == fs.len(),
        forall|j: int|
            0 <= j < fs.len() ==> injected_positional(fs)[j] == (UnnamedFieldModel {
                ty: fs[j].ty,
                attrs: fs[j].attrs,
            }),
        forall|j: int|
            0 <= j < existing.len() ==> (injected_positional(fs) + existing)[fs.len() + j]
                == existing[j],
{
}

/// With at least one field requested, a no-data variant's normalized shape
/// is named data carrying exactly the requested fields — names, types and
/// annotations, in their order — so the variant is constructible only by
/// named-field syntax using those names.
pub proof fn lemma_unit_becomes_named(fs: Seq<FieldModel>)
    requires
        fs.len() > 0,
    ensures
        normalized_shape(ShapeModel::Unit, fs) == ShapeModel::Named(injected_named(fs)),
        injected_named(fs).len() == fs.len(),
        forall|j: int| 0 <= j < fs.len() ==> injected_named(fs)[j].name == fs[j].name,
        forall|j: int| 0 <= j < fs.len() ==> injected_named(fs)[j].ty == fs[j].ty,
        forall|j: int| 0 <= j < fs.len() ==> injected_named(fs)[j].attrs == fs[j].attrs,
{
}

/// The annotations a shape carries on the injected entry of rank `k`.
pub open spec fn injected_entry_attrs(s: ShapeModel, k: int) -> Seq<AttrModel> {
    match s {
        ShapeModel::Positional(es) => es[k].attrs,
        ShapeModel::Named(ns) => ns[k].attrs,
        ShapeModel::Unit => arbitrary(),
    }
}

/// Every annotation of a requested field — a conditional-inclusion guard in
/// particular — is copied verbatim onto that field's injected entry in every
/// normalized variant, named and positional alike, so the host build
/// evaluates the same predicate wherever the entry occurs; and no variant is
/// left without data. Whether a false condition then removes the field
/// everywhere is the host's evaluation, which this transform does not
/// perform.
pub proof fn lemma_annotations_on_every_variant(
    variants: Seq<VariantModel>,
    fs: Seq<FieldModel>,
    k: int,
)
    requires
        0 <= k < fs.len(),
    ensures
        forall|i: int|
            0 <= i < variants.len() ==> !((#[trigger] normalized_variants(variants, fs)[i]).shape
                is Unit),
        forall|i: int|
            0 <= i < variants.len() ==> injected_entry_attrs(
                (#[trigger] normalized_variants(variants, fs)[i]).shape,
                k,
            ) == fs[k].attrs,
{
    assert forall|i: int| 0 <= i < variants.len() implies !((#[trigger] normalized_variants(
        variants,
        fs,
    )[i]).shape is Unit) && injected_entry_attrs(
        normalized_variants(variants, fs)[i].shape,
        k,
    ) == fs[k].attrs by {
        let shape = normalized_variants(variants, fs)[i].shape;
        assert(shape == normalized_shape(variants[i].shape, fs));
        match variants[i].shape {
            ShapeModel::Unit => {
                assert(injected_entry_attrs(shape, k) == injected_named(fs)[k].attrs);
            },
            ShapeModel::Positional(existing) => {
                assert((injected_positional(fs) + existing)[k] == injected_positional(fs)[k]);
            },
            ShapeModel::Named(existing) => {
                assert((injected_named(fs) + existing)[k] == injected_named(fs)[k]);
            },
        }
    }
}

/// Requesting no fields leaves the declaration — every variant's name,
/// annotations and shape — unchanged, and synthesizes no accessors.
pub proof fn lemma_zero_fields_noop(d: EnumModel, fs: Seq<FieldModel>)
    requires
        fs.len() == 0,
    ensures
        transformed_decl(d, fs) == d,
        synthesized_accessors(d.vis, fs, normalized_variants(d.variants, fs)).len() == 0,
{
    assert forall|i: int| 0 <= i < d.variants.len() implies normalized_variants(d.variants, fs)[i]
        == d.variants[i] by {
        assert(normalized_variants(d.variants, fs)[i] =~= d.variants[i]);
    }
    assert(normalized_variants(d.variants, fs) =~= d.variants);
    assert(transformed_decl(d, fs) =~= d);
}

/// For any requested field list, any declaration, and any well-formed
/// value of the rewritten type whose variant has
/// pairwise-distinct field names, the accessor synthesized for the field of
/// rank `k` reads back exactly the payload stored in that field's slot —
/// whichever variant the value was constructed as.
pub proof fn lemma_accessor_reads_injected(
    vis: Seq<char>,
    fs: Seq<FieldModel>,
    variants: Seq<VariantModel>,
    k: int,
    v: ValueModel,
)
    requires
        0 <= k < fs.len(),
        value_wf(v, normalized_variants(variants, fs)),
        named_shape_distinct(normalized_variants(variants, fs)[v.variant_index].shape),
    ensures
        eval_accessor(accessor_for(vis, fs[k], k, normalized_variants(variants, fs)), v)
            == Some(injected_payload(v.data, k)),
{
    let nvs = normalized_variants(variants, fs);
    let vi = v.variant_index;
    let acc = accessor_for(vis, fs[k], k, nvs);
    let shape = nvs[vi].shape;
    assert(shape == normalized_shape(variants[vi].shape, fs));
    assert(acc.arms[vi] == arm_for(nvs[vi], k));
    match variants[vi].shape {
        ShapeModel::Unit => {
            let ns = injected_named(fs);
            match v.data {
                DataModel::Named(vs) => {
                    assert(vs[k].name == ns[k].name);
                    assert(ns[k].name == fs[k].name);
                    assert forall|j: int| 0 <= j < k implies vs[j].name != fs[k].name by {
                        assert(vs[j].name == ns[j].name);
                    }
                    lemma_lookup_at_index(vs, fs[k].name, k);
                },
                _ => {
                    assert(false);
                },
            }
        },
        ShapeModel::Positional(existing) => {
            let ts = injected_positional(fs) + existing;
            match v.data {
                DataModel::Positional(ps) => {
                    assert(ps.len() == ts.len());
                    assert(ts.len() >= fs.len());
                },
                _ => {
                    assert(false);
                },
            }
        },
        ShapeModel::Named(existing) => {
            let ns = injected_named(fs) + existing;
            match v.data {
                DataModel::Named(vs) => {
                    assert(vs[k].name == ns[k].name);
                    assert(ns[k].name == injected_named(fs)[k].name);
                    assert forall|j: int| 0 <= j < k implies vs[j].name != fs[k].name by {
                        assert(vs[j].name == ns[j].name);
                        assert(ns[k].name == fs[k].name);
                    }
                    lemma_lookup_at_index(vs, fs[k].name, k);
                },
                _ => {
                    assert(false);
                },
            }
        },
    }
}

/// Two well-formed values of the
/// rewritten type, constructed as any two variants, yield the same result
/// from the accessor of rank `k` whenever the payload placed in that
/// field's slot is the same.
pub proof fn lemma_uniform_across_variants(
    vis: Seq<char>,
    fs: Seq<FieldModel>,
    variants: Seq<VariantModel>,
    k: int,
    a: ValueModel,
    b: ValueModel,
)
    requires
        0 <= k < fs.len(),
        value_wf(a, normalized_variants(variants, fs)),
        value_wf(b, normalized_variants(variants, fs)),
        named_shape_distinct(normalized_variants(variants, fs)[a.variant_index].shape),
        named_shape_distinct(normalized_variants(variants, fs)[b.variant_index].shape),
        injected_payload(a.data, k) == injected_payload(b.data, k),
    ensures
        eval_accessor(accessor_for(vis, fs[k], k, normalized_variants(variants, fs)), a)
            == eval_accessor(accessor_for(vis, fs[k], k, normalized_variants(variants, fs)), b),
        eval_accessor(accessor_for(vis, fs[k], k, normalized_variants(variants, fs)), a)
            == Some(injected_payload(a.data, k)),
{
    lemma_accessor_reads_injected(vis, fs, variants, k, a);
    lemma_accessor_reads_injected(vis, fs, variants, k, b);
}

/// The borrowing and consuming accessors share
/// one evaluation by construction; and wherever that evaluation yields a
/// result, a write through the mutable accessor is observed by a subsequent
/// read, which yields exactly the written payload.
pub proof fn lemma_read_after_write(acc: AccessorModel, v: ValueModel, p: Payload)
    requires
        eval_accessor(acc, v) is Some,
    ensures
        eval_accessor(acc, written_value(acc, v, p)) == Some(p),
{
    let arm = acc.arms[v.variant_index];
    match arm.binding {
        BindingModel::Named => {
            match v.data {
                DataModel::Named(vs) => {
                    lemma_lookup_after_store(vs, acc.field_name, p);
                },
                _ => {
                    assert(false);
                },
            }
        },
        BindingModel::Positional(_) => {
        },
        BindingModel::Bare => {
            assert(false);
        },
    }
}

/// A declaration with no variants admits no
/// well-formed value at all — the accessors synthesized for it are
/// uncallable, and their fallback arm is never reached.
pub proof fn lemma_no_variants_uninhabited(
    variants: Seq<VariantModel>,
    fs: Seq<FieldModel>,
    v: ValueModel,
)
    requires
        variants.len() == 0,
    ensures
        !value_wf(v, normalized_variants(variants, fs)),
{
}

/// The filter keeps exactly the documentation
/// annotations and conditional-inclusion guards, in order — each kept
/// annotation appears in the filtered list every generated accessor of the
/// field carries, and every other annotation is dropped, silently.
pub proof fn lemma_attr_propagation(attrs: Seq<AttrModel>)
    ensures
        forall|i: int|
            0 <= i < attrs.len() && attr_allowed(attrs[i]) ==> filtered_attrs(attrs).contains(
                attrs[i],
            ),
        forall|i: int|
            0 <= i < filtered_attrs(attrs).len() ==> attr_allowed(filtered_attrs(attrs)[i])
                && attrs.contains(filtered_attrs(attrs)[i]),
    decreases attrs.len(),
{
    if attrs.len() == 0 {
    } else {
        let prefix = attrs.drop_last();
        lemma_attr_propagation(prefix);
        assert forall|i: int| 0 <= i < attrs.len() && attr_allowed(attrs[i]) implies filtered_attrs(
            attrs,
        ).contains(attrs[i]) by {
            if i < prefix.len() {
                assert(prefix[i] == attrs[i]);
                let w = choose|w: int|
                    0 <= w < filtered_attrs(prefix).len() && filtered_attrs(prefix)[w] == attrs[i];
                assert(filtered_attrs(attrs)[w] == attrs[i]);
            } else {
                assert(attrs[i] == attrs.last());
                assert(filtered_attrs(attrs).last() == attrs.last());
            }
        }
        assert forall|i: int| 0 <= i < filtered_attrs(attrs).len() implies attr_allowed(
            filtered_attrs(attrs)[i],
        ) && attrs.contains(filtered_attrs(attrs)[i]) by {
            if i < filtered_attrs(prefix).len() {
                assert(filtered_attrs(attrs)[i] == filtered_attrs(prefix)[i]);
                let w = choose|w: int| 0 <= w < prefix.len() && prefix[w] == filtered_attrs(prefix)[i];
                assert(attrs[w] == filtered_attrs(prefix)[i]);
            } else {
                assert(filtered_attrs(attrs)[i] == attrs.last());
                assert(attrs[attrs.len() - 1] == attrs.last());
            }
        }
    }
}

} // verus!
