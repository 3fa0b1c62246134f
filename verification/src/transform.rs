//! The transform itself: the variant normalizer, the accessor synthesizer,
//! and the attribute filter.
//!
//! Normalization inserts the requested fields at the front of every variant's
//! data, coercing a no-data variant to named data when at least one field is
//! requested. Synthesis then builds, per requested field, the triplet of
//! accessors whose shared match body has one arm per (normalized) variant.

use vstd::prelude::*;
use vstd::string::StringExecFns;

use crate::ast::{
    AccessorModel, AccessorSet, Arm, ArmModel, Attr, AttrModel, Binding, BindingModel, EnumDef,
    EnumModel, FieldDef, FieldModel, NamedField, NamedFieldModel, Shape, ShapeModel, VariantDef,
    UnnamedField, UnnamedFieldModel, VariantModel, accessors_view, arms_view, attrs_view,
    fields_view, named_fields_view, unnamed_fields_view, variants_view,
};

verus! {

/// An annotation survives the filter iff it is a documentation annotation or
/// a conditional-inclusion guard.
pub open spec fn attr_allowed(a: AttrModel) -> bool {
    match a {
        AttrModel::Doc(_) => true,
        AttrModel::Cfg(_) => true,
        AttrModel::Other(_) => false,
    }
}

/// The subsequence of `attrs` that survives the filter, in order.
pub open spec fn filtered_attrs(attrs: Seq<AttrModel>) -> Seq<AttrModel>
    decreases attrs.len(),
{
    if attrs.len() == 0 {
        Seq::empty()
    } else if attr_allowed(attrs.last()) {
        filtered_attrs(attrs.drop_last()).push(attrs.last())
    } else {
        filtered_attrs(attrs.drop_last())
    }
}

/// The requested fields as unnamed fields, in order: what is prepended to a
/// positional variant — names are stripped there, annotations kept.
pub open spec fn injected_positional(fs: Seq<FieldModel>) -> Seq<UnnamedFieldModel> {
    fs.map_values(|f: FieldModel| UnnamedFieldModel { ty: f.ty, attrs: f.attrs })
}

/// The requested fields as named fields, in order: what is prepended to a
/// named variant — names, types and annotations intact.
pub open spec fn injected_named(fs: Seq<FieldModel>) -> Seq<NamedFieldModel> {
    fs.map_values(|f: FieldModel| NamedFieldModel { name: f.name, ty: f.ty, attrs: f.attrs })
}

/// A variant's shape after normalization: with no fields requested the shape
/// passes through unchanged; otherwise the requested fields are prepended,
/// and a no-data variant first becomes an (empty) named-data variant.
pub open spec fn normalized_shape(s: ShapeModel, fs: Seq<FieldModel>) -> ShapeModel {
    if fs.len() == 0 {
        s
    } else {
        match s {
            ShapeModel::Unit => ShapeModel::Named(injected_named(fs)),
            ShapeModel::Positional(existing) => ShapeModel::Positional(
                injected_positional(fs) + existing,
            ),
            ShapeModel::Named(existing) => ShapeModel::Named(injected_named(fs) + existing),
        }
    }
}

/// The variant list after normalization: names and annotations kept, shapes
/// normalized.
pub open spec fn normalized_variants(vs: Seq<VariantModel>, fs: Seq<FieldModel>) -> Seq<
    VariantModel,
> {
    vs.map_values(
        |v: VariantModel| VariantModel {
            name: v.name,
            attrs: v.attrs,
            shape: normalized_shape(v.shape, fs),
        },
    )
}

/// The match arm a generated accessor uses for one variant: named data binds
/// the field by name, positional data binds the slot at the field's rank
/// `idx` in the requested sequence, no data admits no binding.
pub open spec fn arm_for(v: VariantModel, idx: int) -> ArmModel {
    ArmModel {
        variant: v.name,
        binding: match v.shape {
            ShapeModel::Named(_) => BindingModel::Named,
            ShapeModel::Positional(_) => BindingModel::Positional(idx),
            ShapeModel::Unit => BindingModel::Bare,
        },
    }
}

/// The accessor triplet generated for the field `f` of rank `idx`, over the
/// given (already normalized) variants: accessor names derived from the field
/// name, annotations filtered, visibility taken from the declaration, and one
/// arm per variant in declaration order.
pub open spec fn accessor_for(
    vis: Seq<char>,
    f: FieldModel,
    idx: int,
    variants: Seq<VariantModel>,
) -> AccessorModel {
    AccessorModel {
        field_name: f.name,
        ty: f.ty,
        attrs: filtered_attrs(f.attrs),
        borrow_name: f.name,
        mut_name: f.name + "_mut"@,
        into_name: "into_"@ + f.name,
        vis: vis,
        arms: Seq::new(variants.len(), |j: int| arm_for(variants[j], idx)),
    }
}

/// The accessor triplets for all requested fields, in order.
pub open spec fn synthesized_accessors(
    vis: Seq<char>,
    fs: Seq<FieldModel>,
    variants: Seq<VariantModel>,
) -> Seq<AccessorModel> {
    Seq::new(fs.len(), |i: int| accessor_for(vis, fs[i], i, variants))
}

/// The whole declaration after normalization: only the variant list changes.
pub open spec fn transformed_decl(d: EnumModel, fs: Seq<FieldModel>) -> EnumModel {
    EnumModel {
        attrs: d.attrs,
        vis: d.vis,
        name: d.name,
        generics: d.generics,
        variants: normalized_variants(d.variants, fs),
    }
}

/// Decides whether one annotation survives the filter.
pub fn allowed_field_attr(attr: &Attr) -> (r: bool)
    ensures
        r == attr_allowed(attr@),
{
    match attr {
        Attr::Doc(_) => true,
        Attr::Cfg(_) => true,
        Attr::Other(_) => false,
    }
}

/// Copies one annotation.
fn clone_attr(a: &Attr) -> (r: Attr)
    ensures
        r == *a,
{
    match a {
        Attr::Doc(s) => Attr::Doc(s.clone()),
        Attr::Cfg(s) => Attr::Cfg(s.clone()),
        Attr::Other(s) => Attr::Other(s.clone()),
    }
}

/// Keeps exactly the annotations that may propagate onto generated
/// accessors; everything else is dropped silently, never reported.
pub fn filter_field_attrs(attrs: &Vec<Attr>) -> (r: Vec<Attr>)
    ensures
        attrs_view(r@) == filtered_attrs(attrs_view(attrs@)),
{
    let mut r: Vec<Attr> = Vec::new();
    let mut i: usize = 0;
    while i < attrs.len()
        invariant
            i <= attrs.len(),
            attrs_view(r@) == filtered_attrs(attrs_view(attrs@).take(i as int)),
        decreases attrs.len() - i,
    {
        let ghost prefix = attrs_view(attrs@).take(i as int);
        let ghost next = attrs_view(attrs@).take(i + 1 as int);
        proof {
            assert(next.drop_last() =~= prefix);
            assert(next.last() == attrs@[i as int]@);
        }
        if allowed_field_attr(&attrs[i]) {
            r.push(clone_attr(&attrs[i]));
            proof {
                assert(attrs_view(r@) =~= filtered_attrs(prefix).push(attrs@[i as int]@));
            }
        }
        i += 1;
    }
    proof {
        assert(attrs_view(attrs@).take(attrs@.len() as int) =~= attrs_view(attrs@));
    }
    r
}

/// Copies a list of annotations.
fn clone_attrs(attrs: &Vec<Attr>) -> (r: Vec<Attr>)
    ensures
        r@ == attrs@,
{
    let mut r: Vec<Attr> = Vec::new();
    let mut i: usize = 0;
    while i < attrs.len()
        invariant
            i <= attrs.len(),
            r@.len() == i,
            forall|j: int| 0 <= j < i ==> r@[j] == attrs@[j],
        decreases attrs.len() - i,
    {
        r.push(clone_attr(&attrs[i]));
        i += 1;
    }
    proof {
        assert(r@ =~= attrs@);
    }
    r
}

/// Copies one named field.
fn clone_named_field(f: &NamedField) -> (r: NamedField)
    ensures
        r@ == f@,
{
    let r = NamedField { name: f.name.clone(), ty: f.ty.clone(), attrs: clone_attrs(&f.attrs) };
    proof {
        assert(r@ =~= f@);
    }
    r
}

/// Copies one unnamed field.
fn clone_unnamed_field(f: &UnnamedField) -> (r: UnnamedField)
    ensures
        r@ == f@,
{
    let r = UnnamedField { ty: f.ty.clone(), attrs: clone_attrs(&f.attrs) };
    proof {
        assert(r@ =~= f@);
    }
    r
}

/// Normalizes one variant's data: prepends the requested fields, coercing a
/// no-data variant to named data when at least one field is requested, and
/// passing every shape through unchanged when none is.
pub fn add_fields(variant_fields: &Shape, fields: &Vec<FieldDef>) -> (r: Shape)
    ensures
        r@ == normalized_shape(variant_fields@, fields_view(fields@)),
{
    let ghost fv = fields_view(fields@);
    if fields.len() == 0 {
        return clone_shape(variant_fields);
    }
    match variant_fields {
        Shape::Unit => {
            let injected = injected_named_exec(fields);
            proof {
                assert(named_fields_view(injected@) =~= injected_named(fv) + Seq::<
                    NamedFieldModel,
                >::empty());
                assert(named_fields_view(injected@) =~= injected_named(fv));
            }
            Shape::Named(injected)
        },
        Shape::Positional(existing) => {
            let mut entries: Vec<UnnamedField> = Vec::new();
            let mut i: usize = 0;
            while i < fields.len()
                invariant
                    i <= fields.len(),
                    entries@.len() == i,
                    forall|j: int|
                        0 <= j < i ==> entries@[j]@ == (UnnamedFieldModel {
                            ty: fields@[j]@.ty,
                            attrs: fields@[j]@.attrs,
                        }),
                decreases fields.len() - i,
            {
                entries.push(
                    UnnamedField { ty: fields[i].ty.clone(), attrs: clone_attrs(&fields[i].attrs) },
                );
                i += 1;
            }
            let mut j: usize = 0;
            while j < existing.len()
                invariant
                    j <= existing.len(),
                    entries@.len() == fields@.len() + j,
                    forall|k: int|
                        0 <= k < fields@.len() ==> entries@[k]@ == injected_positional(
                            fields_view(fields@),
                        )[k],
                    forall|k: int| 0 <= k < j ==> entries@[fields@.len() + k]@ == existing@[k]@,
                decreases existing.len() - j,
            {
                entries.push(clone_unnamed_field(&existing[j]));
                j += 1;
            }
            proof {
                assert(unnamed_fields_view(entries@) =~= injected_positional(fv)
                    + unnamed_fields_view(existing@));
            }
            Shape::Positional(entries)
        },
        Shape::Named(existing) => {
            let mut nfs: Vec<NamedField> = injected_named_exec(fields);
            let mut j: usize = 0;
            while j < existing.len()
                invariant
                    j <= existing.len(),
                    nfs@.len() == fields@.len() + j,
                    forall|k: int|
                        0 <= k < fields@.len() ==> nfs@[k]@ == injected_named(
                            fields_view(fields@),
                        )[k],
                    forall|k: int| 0 <= k < j ==> nfs@[fields@.len() + k]@ == existing@[k]@,
                decreases existing.len() - j,
            {
                nfs.push(clone_named_field(&existing[j]));
                j += 1;
            }
            proof {
                assert(named_fields_view(nfs@) =~= injected_named(fv) + named_fields_view(
                    existing@,
                ));
            }
            Shape::Named(nfs)
        },
    }
}

/// Copies one variant's data unchanged.
fn clone_shape(s: &Shape) -> (r: Shape)
    ensures
        r@ == s@,
{
    match s {
        Shape::Unit => Shape::Unit,
        Shape::Positional(fs) => {
            let mut r: Vec<UnnamedField> = Vec::new();
            let mut i: usize = 0;
            while i < fs.len()
                invariant
                    i <= fs.len(),
                    r@.len() == i,
                    forall|j: int| 0 <= j < i ==> r@[j]@ == fs@[j]@,
                decreases fs.len() - i,
            {
                r.push(clone_unnamed_field(&fs[i]));
                i += 1;
            }
            proof {
                assert(unnamed_fields_view(r@) =~= unnamed_fields_view(fs@));
            }
            Shape::Positional(r)
        },
        Shape::Named(fs) => {
            let mut r: Vec<NamedField> = Vec::new();
            let mut i: usize = 0;
            while i < fs.len()
                invariant
                    i <= fs.len(),
                    r@.len() == i,
                    forall|j: int| 0 <= j < i ==> r@[j]@ == fs@[j]@,
                decreases fs.len() - i,
            {
                r.push(clone_named_field(&fs[i]));
                i += 1;
            }
            proof {
                assert(named_fields_view(r@) =~= named_fields_view(fs@));
            }
            Shape::Named(r)
        },
    }
}

/// Synthesizes one accessor triplet per requested field, over the already
/// normalized variant list: accessor names derived from the field name,
/// annotations filtered, visibility taken from the declaration, one match
/// arm per variant in declaration order.
pub fn generate_methods(
    vis: &String,
    fields: &Vec<FieldDef>,
    variants: &Vec<VariantDef>,
) -> (r: Vec<AccessorSet>)
    ensures
        accessors_view(r@) == synthesized_accessors(
            vis@,
            fields_view(fields@),
            variants_view(variants@),
        ),
{
    let ghost fv = fields_view(fields@);
    let ghost vv = variants_view(variants@);
    let mut r: Vec<AccessorSet> = Vec::new();
    let mut i: usize = 0;
    while i < fields.len()
        invariant
            i <= fields.len(),
            r@.len() == i,
            fv == fields_view(fields@),
            vv == variants_view(variants@),
            forall|k: int| 0 <= k < i ==> r@[k]@ == accessor_for(vis@, fv[k], k, vv),
        decreases fields.len() - i,
    {
        let f = &fields[i];
        let mut mut_name = f.name.clone();
        mut_name.append("_mut");
        let mut into_name = "into_".to_owned();
        into_name.append(f.name.as_str());
        let mut arms: Vec<Arm> = Vec::new();
        let mut j: usize = 0;
        while j < variants.len()
            invariant
                j <= variants.len(),
                arms@.len() == j,
                vv == variants_view(variants@),
                forall|k: int| 0 <= k < j ==> arms@[k]@ == arm_for(vv[k], i as int),
            decreases variants.len() - j,
        {
            let binding = match &variants[j].shape {
                Shape::Named(_) => Binding::Named,
                Shape::Positional(_) => Binding::Positional(i),
                Shape::Unit => Binding::Bare,
            };
            arms.push(Arm { variant: variants[j].name.clone(), binding });
            j += 1;
        }
        let acc = AccessorSet {
            field_name: f.name.clone(),
            ty: f.ty.clone(),
            attrs: filter_field_attrs(&f.attrs),
            borrow_name: f.name.clone(),
            mut_name,
            into_name,
            vis: vis.clone(),
            arms,
        };
        proof {
            assert(arms_view(acc.arms@) =~= accessor_for(vis@, fv[i as int], i as int, vv).arms);
            assert(acc@ =~= accessor_for(vis@, fv[i as int], i as int, vv));
        }
        r.push(acc);
        i += 1;
    }
    proof {
        assert(accessors_view(r@) =~= synthesized_accessors(vis@, fv, vv));
    }
    r
}

/// Rewrites a declaration and synthesizes the accessors for it: every
/// variant is normalized to carry the requested fields, and each requested
/// field gets its accessor triplet, dispatching over the normalized
/// variants with the declaration's own visibility.
///
/// Given well-formed inputs the transform cannot fail; with no fields
/// requested the declaration passes through unchanged and no accessors are
/// generated.
pub fn fields(decl: EnumDef, requested: &Vec<FieldDef>) -> (r: Transformed)
    ensures
        r.decl@ == transformed_decl(decl@, fields_view(requested@)),
        accessors_view(r.accessors@) == synthesized_accessors(
            decl@.vis,
            fields_view(requested@),
            normalized_variants(decl@.variants, fields_view(requested@)),
        ),
{
    let ghost fv = fields_view(requested@);
    let ghost dm = decl@;
    let EnumDef { attrs, vis, name, generics, variants } = decl;
    let mut new_variants: Vec<VariantDef> = Vec::new();
    let mut i: usize = 0;
    while i < variants.len()
        invariant
            i <= variants.len(),
            new_variants@.len() == i,
            fv == fields_view(requested@),
            forall|k: int|
                0 <= k < i ==> new_variants@[k]@ == (VariantModel {
                    name: variants@[k]@.name,
                    attrs: variants@[k]@.attrs,
                    shape: normalized_shape(variants@[k]@.shape, fv),
                }),
        decreases variants.len() - i,
    {
        let v = &variants[i];
        new_variants.push(
            VariantDef {
                name: v.name.clone(),
                attrs: clone_attrs(&v.attrs),
                shape: add_fields(&v.shape, requested),
            },
        );
        i += 1;
    }
    proof {
        assert(variants_view(new_variants@) =~= normalized_variants(variants_view(variants@), fv));
    }
    let accessors = generate_methods(&vis, requested, &new_variants);
    let out = EnumDef { attrs, vis, name, generics, variants: new_variants };
    proof {
        assert(out@ =~= transformed_decl(dm, fv));
    }
    Transformed { decl: out, accessors }
}

/// The transform's result: the rewritten declaration and the generated
/// accessor triplets, one per requested field.
#[derive(Debug, PartialEq, Eq)]
pub struct Transformed {
    pub decl: EnumDef,
    pub accessors: Vec<AccessorSet>,
}

/// Builds the requested fields as named fields, names and types intact.
fn injected_named_exec(fields: &Vec<FieldDef>) -> (r: Vec<NamedField>)
    ensures
        named_fields_view(r@) == injected_named(fields_view(fields@)),
{
    let mut r: Vec<NamedField> = Vec::new();
    let mut i: usize = 0;
    while i < fields.len()
        invariant
            i <= fields.len(),
            r@.len() == i,
            forall|j: int|
                0 <= j < i ==> r@[j]@ == (NamedFieldModel {
                    name: fields@[j]@.name,
                    ty: fields@[j]@.ty,
                    attrs: fields@[j]@.attrs,
                }),
        decreases fields.len() - i,
    {
        r.push(
            NamedField {
                name: fields[i].name.clone(),
                ty: fields[i].ty.clone(),
                attrs: clone_attrs(&fields[i].attrs),
            },
        );
        i += 1;
    }
    proof {
        assert(named_fields_view(r@) =~= injected_named(fields_view(fields@)));
    }
    r
}

} // verus!
