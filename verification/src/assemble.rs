//! Assembly of the two declarations that the derivation emits: the tag enum
//! and the implementation of `TaggedEnum` for the described enum.

use vstd::prelude::*;
use crate::descriptor::{
    clone_optional_text, clone_params, optional_text, param_views, texts, variant_views,
    EnumDescriptor, EnumView, GenericParam, GenericParamView, VariantDescriptor, VariantView,
};
use crate::project::{
    dispatch_arm, fieldless, to_dispatch_arm, to_fieldless_variant, DispatchArm,
    DispatchArmView,
};

verus! {

/// The tag enum: one data-less variant for each variant of the described
/// enum. It has no generic parameters, whatever the described enum has.
#[derive(Clone, Debug, PartialEq, Eq)]
pub struct GeneratedTagType {
    pub name: String,
    pub visibility: String,
    pub variants: Vec<VariantDescriptor>,
}

/// The implementation of `TaggedEnum` for the described enum.
#[derive(Clone, Debug, PartialEq, Eq)]
pub struct TagImpl {
    /// The generic parameters that the `impl` declares: those of the
    /// described enum, with their bounds.
    pub parameters: Vec<GenericParam>,
    /// The name of the described enum.
    pub target: String,
    /// The generic arguments of the target: the names of the parameters.
    pub arguments: Vec<String>,
    pub where_clause: Option<String>,
    /// The name of the tag enum, to which `Tag` is bound.
    pub tag_type: String,
    /// The arms of the match on `self`, in the order of the variants.
    pub arms: Vec<DispatchArm>,
}

/// Everything that is emitted for one enum.
#[derive(Clone, Debug, PartialEq, Eq)]
pub struct Expansion {
    pub tag_type: GeneratedTagType,
    pub tag_impl: TagImpl,
}

/// A tag enum as contracts see it.
pub struct TagTypeView {
    pub name: Seq<char>,
    pub visibility: Seq<char>,
    pub variants: Seq<VariantView>,
}

/// An implementation of `TaggedEnum` as contracts see it.
pub struct TagImplView {
    pub parameters: Seq<GenericParamView>,
    pub target: Seq<char>,
    pub arguments: Seq<Seq<char>>,
    pub where_clause: Option<Seq<char>>,
    pub tag_type: Seq<char>,
    pub arms: Seq<DispatchArmView>,
}

/// An expansion as contracts see it.
pub struct ExpansionView {
    pub tag_type: TagTypeView,
    pub tag_impl: TagImplView,
}

/// The views of a list of dispatch arms.
pub open spec fn arm_views(items: Seq<DispatchArm>) -> Seq<DispatchArmView> {
    items.map_values(|a: DispatchArm| a@)
}

impl View for GeneratedTagType {
    type V = TagTypeView;

    open spec fn view(&self) -> TagTypeView {
        TagTypeView {
            name: self.name@,
            visibility: self.visibility@,
            variants: variant_views(self.variants@),
        }
    }
}

impl View for TagImpl {
    type V = TagImplView;

    open spec fn view(&self) -> TagImplView {
        TagImplView {
            parameters: param_views(self.parameters@),
            target: self.target@,
            arguments: texts(self.arguments@),
            where_clause: optional_text(self.where_clause),
            tag_type: self.tag_type@,
            arms: arm_views(self.arms@),
        }
    }
}

impl View for Expansion {
    type V = ExpansionView;

    open spec fn view(&self) -> ExpansionView {
        ExpansionView { tag_type: self.tag_type@, tag_impl: self.tag_impl@ }
    }
}

/// The name of the tag enum: the name of the described enum followed by `Tag`.
pub open spec fn tag_type_name(name: Seq<char>) -> Seq<char> {
    name + "Tag"@
}

/// The variants of the tag enum: each variant without its fields, in order.
pub open spec fn projected_variants(variants: Seq<VariantView>) -> Seq<VariantView> {
    variants.map_values(|v: VariantView| fieldless(v))
}

/// The arms of the dispatch: one for each variant, in order.
pub open spec fn dispatch_arms(variants: Seq<VariantView>) -> Seq<DispatchArmView> {
    variants.map_values(|v: VariantView| dispatch_arm(v))
}

/// The generic arguments that apply a type to its own parameters: the name
/// of each parameter, in order, without its bounds.
pub open spec fn own_arguments(params: Seq<GenericParamView>) -> Seq<Seq<char>> {
    params.map_values(|p: GenericParamView| p.name())
}

/// The tag enum of an enum.
pub open spec fn tag_type_of(desc: EnumView) -> TagTypeView {
    TagTypeView {
        name: tag_type_name(desc.name),
        visibility: desc.visibility,
        variants: projected_variants(desc.variants),
    }
}

/// The implementation of `TaggedEnum` for an enum.
pub open spec fn tag_impl_of(desc: EnumView) -> TagImplView {
    TagImplView {
        parameters: desc.generics,
        target: desc.name,
        arguments: own_arguments(desc.generics),
        where_clause: desc.where_clause,
        tag_type: tag_type_name(desc.name),
        arms: dispatch_arms(desc.variants),
    }
}

/// Everything that is emitted for an enum.
pub open spec fn expansion_of(desc: EnumView) -> ExpansionView {
    ExpansionView { tag_type: tag_type_of(desc), tag_impl: tag_impl_of(desc) }
}

/// Names the tag enum after the described enum.
pub fn make_tag_type_name(name: &String) -> (out: String)
    ensures
        out@ == tag_type_name(name@),
{
    let mut out = name.clone();
    out.append("Tag");
    out
}

/// Projects every variant onto its data-less counterpart.
pub fn project_variants(variants: &Vec<VariantDescriptor>) -> (out: Vec<VariantDescriptor>)
    ensures
        variant_views(out@) == projected_variants(variant_views(variants@)),
{
    let mut out: Vec<VariantDescriptor> = Vec::new();
    let mut i: usize = 0;
    while i < variants.len()
        invariant
            i <= variants.len(),
            out.len() == i,
            forall|j: int| 0 <= j < i ==> (#[trigger] out[j])@ == fieldless(variants[j]@),
        decreases variants.len() - i,
    {
        out.push(to_fieldless_variant(&variants[i]));
        i += 1;
    }
    assert(variant_views(out@) =~= projected_variants(variant_views(variants@)));
    out
}

/// Builds the dispatch arm of every variant.
pub fn project_arms(variants: &Vec<VariantDescriptor>) -> (out: Vec<DispatchArm>)
    ensures
        arm_views(out@) == dispatch_arms(variant_views(variants@)),
{
    let mut out: Vec<DispatchArm> = Vec::new();
    let mut i: usize = 0;
    while i < variants.len()
        invariant
            i <= variants.len(),
            out.len() == i,
            forall|j: int| 0 <= j < i ==> (#[trigger] out[j])@ == dispatch_arm(variants[j]@),
        decreases variants.len() - i,
    {
        out.push(to_dispatch_arm(&variants[i]));
        i += 1;
    }
    assert(arm_views(out@) =~= dispatch_arms(variant_views(variants@)));
    out
}

/// The name of a generic parameter.
pub fn param_name(param: &GenericParam) -> (name: String)
    ensures
        name@ == param@.name(),
{
    match param {
        GenericParam::Lifetime { name, .. } => name.clone(),
        GenericParam::Type { name, .. } => name.clone(),
        GenericParam::Const { name, .. } => name.clone(),
    }
}

/// Names each generic parameter, which gives the arguments that apply a type
/// to its own parameters.
pub fn name_arguments(params: &Vec<GenericParam>) -> (out: Vec<String>)
    ensures
        texts(out@) == own_arguments(param_views(params@)),
{
    let mut out: Vec<String> = Vec::new();
    let mut i: usize = 0;
    while i < params.len()
        invariant
            i <= params.len(),
            out.len() == i,
            forall|j: int| 0 <= j < i ==> (#[trigger] out[j])@ == params[j]@.name(),
        decreases params.len() - i,
    {
        out.push(param_name(&params[i]));
        i += 1;
    }
    assert(texts(out@) =~= own_arguments(param_views(params@)));
    out
}

/// Assembles the tag enum: named after the described enum, with its
/// visibility and its variants without their fields, and without its generic
/// parameters.
pub fn assemble_tag_type(desc: &EnumDescriptor) -> (out: GeneratedTagType)
    ensures
        out@ == tag_type_of(desc@),
{
    GeneratedTagType {
        name: make_tag_type_name(&desc.name),
        visibility: desc.visibility.clone(),
        variants: project_variants(&desc.variants),
    }
}

/// Assembles the implementation of `TaggedEnum`. It declares the generic
/// parameters of the described enum and is for that enum applied to them;
/// the where-clause is carried over, `Tag` is bound to the tag enum, and the
/// match has one arm for each variant.
pub fn emit_tag_impl(desc: &EnumDescriptor) -> (out: TagImpl)
    ensures
        out@ == tag_impl_of(desc@),
{
    TagImpl {
        parameters: clone_params(&desc.generics),
        target: desc.name.clone(),
        arguments: name_arguments(&desc.generics),
        where_clause: clone_optional_text(&desc.where_clause),
        tag_type: make_tag_type_name(&desc.name),
        arms: project_arms(&desc.variants),
    }
}

/// Assembles both declarations for an enum.
pub fn expand(desc: &EnumDescriptor) -> (out: Expansion)
    ensures
        out@ == expansion_of(desc@),
{
    Expansion { tag_type: assemble_tag_type(desc), tag_impl: emit_tag_impl(desc) }
}

} // verus!
