//! Data model of a sum-type declaration and of the requested field list.
//!
//! Identifiers, type expressions, visibility modifiers and generic parameter
//! lists are carried as their source text; the transform never inspects them,
//! it only moves them into place.

use vstd::prelude::*;

verus! {

/// An annotation attached to a requested field, classified by shape.
///
/// Only documentation annotations and conditional-inclusion guards survive
/// the attribute filter; everything else is `Other` and is dropped silently.
#[derive(Debug, Clone, PartialEq, Eq)]
pub enum Attr {
    /// A documentation annotation carrying plain text.
    Doc(String),
    /// A conditional-inclusion guard carrying a predicate expression.
    Cfg(String),
    /// Any other annotation, kept only so the filter can discard it.
    Other(String),
}

/// Spec-level counterpart of [`Attr`].
#[verifier::ext_equal]
pub ghost enum AttrModel {
    Doc(Seq<char>),
    Cfg(Seq<char>),
    Other(Seq<char>),
}

impl View for Attr {
    type V = AttrModel;

    open spec fn view(&self) -> AttrModel {
        match self {
            Attr::Doc(s) => AttrModel::Doc(s@),
            Attr::Cfg(s) => AttrModel::Cfg(s@),
            Attr::Other(s) => AttrModel::Other(s@),
        }
    }
}

/// A requested field: a name, a type expression, and its annotations.
#[derive(Debug, PartialEq, Eq)]
pub struct FieldDef {
    pub name: String,
    pub ty: String,
    pub attrs: Vec<Attr>,
}

/// Spec-level counterpart of [`FieldDef`].
#[verifier::ext_equal]
pub ghost struct FieldModel {
    pub name: Seq<char>,
    pub ty: Seq<char>,
    pub attrs: Seq<AttrModel>,
}

impl View for FieldDef {
    type V = FieldModel;

    open spec fn view(&self) -> FieldModel {
        FieldModel { name: self.name@, ty: self.ty@, attrs: attrs_view(self.attrs@) }
    }
}

/// A named field of a named-data variant, with its annotations.
#[derive(Debug, PartialEq, Eq)]
pub struct NamedField {
    pub name: String,
    pub ty: String,
    pub attrs: Vec<Attr>,
}

/// Spec-level counterpart of [`NamedField`].
#[verifier::ext_equal]
pub ghost struct NamedFieldModel {
    pub name: Seq<char>,
    pub ty: Seq<char>,
    pub attrs: Seq<AttrModel>,
}

impl View for NamedField {
    type V = NamedFieldModel;

    open spec fn view(&self) -> NamedFieldModel {
        NamedFieldModel { name: self.name@, ty: self.ty@, attrs: attrs_view(self.attrs@) }
    }
}

/// An unnamed field of a positional variant: a type expression and its
/// annotations.
#[derive(Debug, PartialEq, Eq)]
pub struct UnnamedField {
    pub ty: String,
    pub attrs: Vec<Attr>,
}

/// Spec-level counterpart of [`UnnamedField`].
#[verifier::ext_equal]
pub ghost struct UnnamedFieldModel {
    pub ty: Seq<char>,
    pub attrs: Seq<AttrModel>,
}

impl View for UnnamedField {
    type V = UnnamedFieldModel;

    open spec fn view(&self) -> UnnamedFieldModel {
        UnnamedFieldModel { ty: self.ty@, attrs: attrs_view(self.attrs@) }
    }
}

/// The shape of one variant: no data, positional data, or named data.
#[derive(Debug, PartialEq, Eq)]
pub enum Shape {
    Unit,
    Positional(Vec<UnnamedField>),
    Named(Vec<NamedField>),
}

/// Spec-level counterpart of [`Shape`].
#[verifier::ext_equal]
pub ghost enum ShapeModel {
    Unit,
    Positional(Seq<UnnamedFieldModel>),
    Named(Seq<NamedFieldModel>),
}

impl View for Shape {
    type V = ShapeModel;

    open spec fn view(&self) -> ShapeModel {
        match self {
            Shape::Unit => ShapeModel::Unit,
            Shape::Positional(fs) => ShapeModel::Positional(unnamed_fields_view(fs@)),
            Shape::Named(fs) => ShapeModel::Named(named_fields_view(fs@)),
        }
    }
}

/// One variant of a sum-type declaration, with its annotations.
#[derive(Debug, PartialEq, Eq)]
pub struct VariantDef {
    pub name: String,
    pub attrs: Vec<Attr>,
    pub shape: Shape,
}

/// Spec-level counterpart of [`VariantDef`].
#[verifier::ext_equal]
pub ghost struct VariantModel {
    pub name: Seq<char>,
    pub attrs: Seq<AttrModel>,
    pub shape: ShapeModel,
}

impl View for VariantDef {
    type V = VariantModel;

    open spec fn view(&self) -> VariantModel {
        VariantModel { name: self.name@, attrs: attrs_view(self.attrs@), shape: self.shape@ }
    }
}

/// A sum-type declaration: outer annotations, visibility, name, generic
/// parameter text, and the ordered variant list.
#[derive(Debug, PartialEq, Eq)]
pub struct EnumDef {
    pub attrs: Vec<String>,
    pub vis: String,
    pub name: String,
    pub generics: String,
    pub variants: Vec<VariantDef>,
}

/// Spec-level counterpart of [`EnumDef`].
#[verifier::ext_equal]
pub ghost struct EnumModel {
    pub attrs: Seq<Seq<char>>,
    pub vis: Seq<char>,
    pub name: Seq<char>,
    pub generics: Seq<char>,
    pub variants: Seq<VariantModel>,
}

impl View for EnumDef {
    type V = EnumModel;

    open spec fn view(&self) -> EnumModel {
        EnumModel {
            attrs: strings_view(self.attrs@),
            vis: self.vis@,
            name: self.name@,
            generics: self.generics@,
            variants: variants_view(self.variants@),
        }
    }
}

/// How one match arm of a generated accessor binds the injected field.
#[derive(Debug, PartialEq, Eq)]
pub enum Binding {
    /// The variant has named data: the pattern binds the field by its name.
    Named,
    /// The variant has positional data: the pattern binds the slot at this
    /// index, the field's rank in the requested sequence.
    Positional(usize),
    /// The variant has no data; no binding is possible. This arises only
    /// when no fields were requested, and then no accessors are generated.
    Bare,
}

/// Spec-level counterpart of [`Binding`].
#[verifier::ext_equal]
pub ghost enum BindingModel {
    Named,
    Positional(int),
    Bare,
}

impl View for Binding {
    type V = BindingModel;

    open spec fn view(&self) -> BindingModel {
        match self {
            Binding::Named => BindingModel::Named,
            Binding::Positional(i) => BindingModel::Positional(*i as int),
            Binding::Bare => BindingModel::Bare,
        }
    }
}

/// One match arm of a generated accessor: a variant name and its binding.
#[derive(Debug, PartialEq, Eq)]
pub struct Arm {
    pub variant: String,
    pub binding: Binding,
}

/// Spec-level counterpart of [`Arm`].
#[verifier::ext_equal]
pub ghost struct ArmModel {
    pub variant: Seq<char>,
    pub binding: BindingModel,
}

impl View for Arm {
    type V = ArmModel;

    open spec fn view(&self) -> ArmModel {
        ArmModel { variant: self.variant@, binding: self.binding@ }
    }
}

/// The accessor triplet generated for one injected field: a borrowing, a
/// mutably borrowing and a consuming accessor, sharing one match body.
///
/// The three accessors carry the same filtered annotations and the same arms;
/// an empty arm list stands for the never-reachable fallback emitted for a
/// declaration with no variants.
#[derive(Debug, PartialEq, Eq)]
pub struct AccessorSet {
    pub field_name: String,
    pub ty: String,
    pub attrs: Vec<Attr>,
    pub borrow_name: String,
    pub mut_name: String,
    pub into_name: String,
    pub vis: String,
    pub arms: Vec<Arm>,
}

/// Spec-level counterpart of [`AccessorSet`].
#[verifier::ext_equal]
pub ghost struct AccessorModel {
    pub field_name: Seq<char>,
    pub ty: Seq<char>,
    pub attrs: Seq<AttrModel>,
    pub borrow_name: Seq<char>,
    pub mut_name: Seq<char>,
    pub into_name: Seq<char>,
    pub vis: Seq<char>,
    pub arms: Seq<ArmModel>,
}

impl View for AccessorSet {
    type V = AccessorModel;

    open spec fn view(&self) -> AccessorModel {
        AccessorModel {
            field_name: self.field_name@,
            ty: self.ty@,
            attrs: attrs_view(self.attrs@),
            borrow_name: self.borrow_name@,
            mut_name: self.mut_name@,
            into_name: self.into_name@,
            vis: self.vis@,
            arms: arms_view(self.arms@),
        }
    }
}

/// Element-wise view of a sequence of match arms.
pub open spec fn arms_view(arms: Seq<Arm>) -> Seq<ArmModel> {
    arms.map_values(|a: Arm| a@)
}

/// Element-wise view of a sequence of accessor triplets.
pub open spec fn accessors_view(accs: Seq<AccessorSet>) -> Seq<AccessorModel> {
    accs.map_values(|a: AccessorSet| a@)
}

/// Element-wise view of a sequence of strings.
pub open spec fn strings_view(ss: Seq<String>) -> Seq<Seq<char>> {
    ss.map_values(|s: String| s@)
}

/// Element-wise view of a sequence of annotations.
pub open spec fn attrs_view(attrs: Seq<Attr>) -> Seq<AttrModel> {
    attrs.map_values(|a: Attr| a@)
}

/// Element-wise view of a sequence of requested fields.
pub open spec fn fields_view(fs: Seq<FieldDef>) -> Seq<FieldModel> {
    fs.map_values(|f: FieldDef| f@)
}

/// Element-wise view of a sequence of unnamed fields.
pub open spec fn unnamed_fields_view(fs: Seq<UnnamedField>) -> Seq<UnnamedFieldModel> {
    fs.map_values(|f: UnnamedField| f@)
}

/// Element-wise view of a sequence of named fields.
pub open spec fn named_fields_view(fs: Seq<NamedField>) -> Seq<NamedFieldModel> {
    fs.map_values(|f: NamedField| f@)
}

/// Element-wise view of a sequence of variants.
pub open spec fn variants_view(vs: Seq<VariantDef>) -> Seq<VariantModel> {
    vs.map_values(|v: VariantDef| v@)
}

} // verus!
