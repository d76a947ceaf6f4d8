//! Projection of one variant: its data-less counterpart in the tag enum and
//! the match arm that recognises it.

use vstd::prelude::*;
use crate::descriptor::{clone_optional_text, clone_texts, texts, FieldShape, FieldShapeView, VariantDescriptor, VariantView};

verus! {

/// A pattern that matches every value built from one variant and binds
/// nothing.
#[derive(Clone, Debug, PartialEq, Eq)]
pub enum ArmPattern {
    /// The bare name: `V`.
    Bare { variant: String },
    /// The name and one wildcard for each positional field: `V(_, _)`.
    Positional { variant: String, ignored: usize },
    /// The name and each field name bound to a wildcard: `V { a: _, b: _ }`.
    Keyed { variant: String, keys: Vec<String> },
}

/// One arm of the dispatch: the pattern of a variant and the name of the tag
/// variant that the arm evaluates to.
#[derive(Clone, Debug, PartialEq, Eq)]
pub struct DispatchArm {
    pub pattern: ArmPattern,
    pub tag: String,
}

/// A pattern as contracts see it.
pub enum ArmPatternView {
    Bare { variant: Seq<char> },
    Positional { variant: Seq<char>, ignored: nat },
    Keyed { variant: Seq<char>, keys: Seq<Seq<char>> },
}

/// A dispatch arm as contracts see it.
pub struct DispatchArmView {
    pub pattern: ArmPatternView,
    pub tag: Seq<char>,
}

impl View for ArmPattern {
    type V = ArmPatternView;

    open spec fn view(&self) -> ArmPatternView {
        match *self {
            ArmPattern::Bare { variant } => ArmPatternView::Bare { variant: variant@ },
            ArmPattern::Positional { variant, ignored } => ArmPatternView::Positional {
                variant: variant@,
                ignored: ignored as nat,
            },
            ArmPattern::Keyed { variant, keys } => ArmPatternView::Keyed {
                variant: variant@,
                keys: texts(keys@),
            },
        }
    }
}

impl View for DispatchArm {
    type V = DispatchArmView;

    open spec fn view(&self) -> DispatchArmView {
        DispatchArmView { pattern: self.pattern@, tag: self.tag@ }
    }
}

impl ArmPatternView {
    /// The variant that the pattern names.
    pub open spec fn variant(self) -> Seq<char> {
        match self {
            ArmPatternView::Bare { variant } => variant,
            ArmPatternView::Positional { variant, .. } => variant,
            ArmPatternView::Keyed { variant, .. } => variant,
        }
    }

    /// The field shape that the pattern spells out.
    pub open spec fn shape(self) -> FieldShapeView {
        match self {
            ArmPatternView::Bare { .. } => FieldShapeView::Unit,
            ArmPatternView::Positional { ignored, .. } => FieldShapeView::Tuple(ignored),
            ArmPatternView::Keyed { keys, .. } => FieldShapeView::Named(keys),
        }
    }
}

/// The variant without its fields: same name, same discriminant.
pub open spec fn fieldless(v: VariantView) -> VariantView {
    VariantView { name: v.name, fields: FieldShapeView::Unit, discriminant: v.discriminant }
}

/// The variant reduced to its name.
pub open spec fn ident_only(v: VariantView) -> VariantView {
    VariantView { name: v.name, fields: FieldShapeView::Unit, discriminant: None }
}

/// The pattern for a variant: its name, and each of its fields ignored in the
/// form that its shape asks for.
pub open spec fn arm_pattern(v: VariantView) -> ArmPatternView {
    match v.fields {
        FieldShapeView::Unit => ArmPatternView::Bare { variant: v.name },
        FieldShapeView::Tuple(n) => ArmPatternView::Positional { variant: v.name, ignored: n },
        FieldShapeView::Named(names) => ArmPatternView::Keyed { variant: v.name, keys: names },
    }
}

/// The dispatch arm for a variant.
pub open spec fn dispatch_arm(v: VariantView) -> DispatchArmView {
    DispatchArmView { pattern: arm_pattern(v), tag: ident_only(v).name }
}

/// The variant as it stands in the tag enum: stripped of its fields, with its
/// name and its explicit discriminant kept.
pub fn to_fieldless_variant(var: &VariantDescriptor) -> (out: VariantDescriptor)
    ensures
        out@ == fieldless(var@),
{
    VariantDescriptor {
        name: var.name.clone(),
        fields: FieldShape::Unit,
        discriminant: clone_optional_text(&var.discriminant),
    }
}

/// The variant as a match arm names it on the tag side: the name alone.
pub fn to_ident_variant(var: &VariantDescriptor) -> (out: VariantDescriptor)
    ensures
        out@ == ident_only(var@),
{
    VariantDescriptor { name: var.name.clone(), fields: FieldShape::Unit, discriminant: None }
}

/// The pattern that matches the variant whatever its fields hold.
pub fn to_arm_variant(var: &VariantDescriptor) -> (out: ArmPattern)
    ensures
        out@ == arm_pattern(var@),
{
    match &var.fields {
        FieldShape::Named(names) => ArmPattern::Keyed {
            variant: var.name.clone(),
            keys: clone_texts(names),
        },
        FieldShape::Tuple(n) => ArmPattern::Positional { variant: var.name.clone(), ignored: *n },
        FieldShape::Unit => ArmPattern::Bare { variant: var.name.clone() },
    }
}

/// The dispatch arm of the variant: its pattern with the tag it evaluates to.
pub fn to_dispatch_arm(var: &VariantDescriptor) -> (out: DispatchArm)
    ensures
        out@ == dispatch_arm(var@),
{
    let ident = to_ident_variant(var);
    DispatchArm { pattern: to_arm_variant(var), tag: ident.name }
}

} // verus!
