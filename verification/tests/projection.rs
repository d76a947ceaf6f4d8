//! One variant at a time: its place in the tag enum and its match arm.

use enum_tags::assemble::{assemble_tag_type, emit_tag_impl, make_tag_type_name};
use enum_tags::assemble::{name_arguments, param_name};
use enum_tags::descriptor::{
    clone_param, clone_params, EnumDescriptor, FieldShape, GenericParam, VariantDescriptor,
};
use enum_tags::dispatch::{dispatch, pattern_covers, same_texts};
use enum_tags::project::{
    to_arm_variant, to_dispatch_arm, to_fieldless_variant, to_ident_variant, ArmPattern,
    DispatchArm,
};

fn strings(items: &[&str]) -> Vec<String> {
    items.iter().map(|s| s.to_string()).collect()
}

fn variant(name: &str, fields: FieldShape, discriminant: Option<&str>) -> VariantDescriptor {
    VariantDescriptor {
        name: name.to_string(),
        fields,
        discriminant: discriminant.map(|d| d.to_string()),
    }
}

/// `<'a, T: Clone, const N: usize>`
fn shape_params() -> Vec<GenericParam> {
    vec![
        GenericParam::Lifetime { name: "'a".to_string(), bounds: None },
        GenericParam::Type { name: "T".to_string(), bounds: Some("Clone".to_string()) },
        GenericParam::Const { name: "N".to_string(), ty: "usize".to_string() },
    ]
}

fn shapes() -> EnumDescriptor {
    EnumDescriptor {
        name: "Shape".to_string(),
        visibility: "pub(crate)".to_string(),
        generics: shape_params(),
        where_clause: Some("where T: 'a".to_string()),
        variants: vec![
            variant("Point", FieldShape::Unit, None),
            variant("Circle", FieldShape::Tuple(1), Some("10")),
            variant("Rect", FieldShape::Named(strings(&["width", "height"])), None),
            variant("Pair", FieldShape::Tuple(2), None),
        ],
    }
}

#[test]
fn fieldless_variant_keeps_name_and_discriminant() {
    let circle = variant("Circle", FieldShape::Tuple(1), Some("10"));
    assert_eq!(to_fieldless_variant(&circle), variant("Circle", FieldShape::Unit, Some("10")));
    let rect = variant("Rect", FieldShape::Named(strings(&["width", "height"])), None);
    assert_eq!(to_fieldless_variant(&rect), variant("Rect", FieldShape::Unit, None));
}

#[test]
fn fieldless_variant_of_unit_variant_is_the_variant() {
    let plain = variant("A", FieldShape::Unit, None);
    assert_eq!(to_fieldless_variant(&plain), plain);
    let numbered = variant("C", FieldShape::Unit, Some("5"));
    assert_eq!(to_fieldless_variant(&numbered), numbered);
}

#[test]
fn ident_variant_is_the_bare_name() {
    let circle = variant("Circle", FieldShape::Tuple(1), Some("10"));
    assert_eq!(to_ident_variant(&circle), variant("Circle", FieldShape::Unit, None));
    let rect = variant("Rect", FieldShape::Named(strings(&["width"])), None);
    assert_eq!(to_ident_variant(&rect), variant("Rect", FieldShape::Unit, None));
}

#[test]
fn arm_variant_follows_the_field_shape() {
    assert_eq!(
        to_arm_variant(&variant("A", FieldShape::Unit, Some("5"))),
        ArmPattern::Bare { variant: "A".to_string() }
    );
    assert_eq!(
        to_arm_variant(&variant("B", FieldShape::Tuple(3), None)),
        ArmPattern::Positional { variant: "B".to_string(), ignored: 3 }
    );
    assert_eq!(
        to_arm_variant(&variant("B", FieldShape::Tuple(0), None)),
        ArmPattern::Positional { variant: "B".to_string(), ignored: 0 }
    );
    assert_eq!(
        to_arm_variant(&variant("C", FieldShape::Named(strings(&["x", "y"])), None)),
        ArmPattern::Keyed { variant: "C".to_string(), keys: strings(&["x", "y"]) }
    );
}

#[test]
fn dispatch_arm_pairs_pattern_and_tag() {
    assert_eq!(
        to_dispatch_arm(&variant("Circle", FieldShape::Tuple(1), Some("10"))),
        DispatchArm {
            pattern: ArmPattern::Positional { variant: "Circle".to_string(), ignored: 1 },
            tag: "Circle".to_string(),
        }
    );
}

#[test]
fn tag_type_name_appends_the_suffix() {
    assert_eq!(make_tag_type_name(&"Shape".to_string()), "ShapeTag");
    assert_eq!(make_tag_type_name(&"T".to_string()), "TTag");
    assert_eq!(make_tag_type_name(&String::new()), "Tag");
}

#[test]
fn tag_type_takes_visibility_and_drops_generics() {
    let tag = assemble_tag_type(&shapes());
    assert_eq!(tag.name, "ShapeTag");
    assert_eq!(tag.visibility, "pub(crate)");
    assert_eq!(
        tag.variants,
        vec![
            variant("Point", FieldShape::Unit, None),
            variant("Circle", FieldShape::Unit, Some("10")),
            variant("Rect", FieldShape::Unit, None),
            variant("Pair", FieldShape::Unit, None),
        ]
    );
    let mut other = shapes();
    other.generics = Vec::new();
    other.where_clause = None;
    assert_eq!(assemble_tag_type(&other), tag);
}

#[test]
fn tag_type_of_data_less_enum_has_the_same_variants() {
    let desc = EnumDescriptor {
        name: "Level".to_string(),
        visibility: String::new(),
        generics: Vec::new(),
        where_clause: None,
        variants: vec![
            variant("Low", FieldShape::Unit, Some("-1")),
            variant("Mid", FieldShape::Unit, None),
            variant("High", FieldShape::Unit, Some("Mid as isize + 10")),
        ],
    };
    assert_eq!(assemble_tag_type(&desc).variants, desc.variants);
}

#[test]
fn tag_impl_declares_parameters_and_applies_target_to_their_names() {
    let desc = shapes();
    let tag_impl = emit_tag_impl(&desc);
    assert_eq!(tag_impl.parameters, shape_params());
    assert_eq!(tag_impl.target, "Shape");
    assert_eq!(tag_impl.arguments, strings(&["'a", "T", "N"]));
    assert_eq!(tag_impl.where_clause, Some("where T: 'a".to_string()));
    assert_eq!(tag_impl.tag_type, "ShapeTag");
    assert_eq!(tag_impl.arms.len(), 4);
    assert_eq!(tag_impl.arms[0], to_dispatch_arm(&desc.variants[0]));
    assert_eq!(tag_impl.arms[1], to_dispatch_arm(&desc.variants[1]));
    assert_eq!(tag_impl.arms[2], to_dispatch_arm(&desc.variants[2]));
    assert_eq!(tag_impl.arms[3], to_dispatch_arm(&desc.variants[3]));
}

#[test]
fn tag_impl_of_plain_enum_has_no_parameters() {
    let mut desc = shapes();
    desc.generics = Vec::new();
    let tag_impl = emit_tag_impl(&desc);
    assert!(tag_impl.parameters.is_empty());
    assert!(tag_impl.arguments.is_empty());
}

#[test]
fn arguments_are_the_names_without_bounds() {
    let bounded = GenericParam::Type { name: "T".to_string(), bounds: Some("Clone + 'a".to_string()) };
    assert_eq!(param_name(&bounded), "T");
    let lifetime = GenericParam::Lifetime { name: "'b".to_string(), bounds: Some("'a".to_string()) };
    assert_eq!(param_name(&lifetime), "'b");
    let constant = GenericParam::Const { name: "N".to_string(), ty: "usize".to_string() };
    assert_eq!(param_name(&constant), "N");
    assert_eq!(name_arguments(&vec![lifetime, bounded, constant]), strings(&["'b", "T", "N"]));
    assert_eq!(name_arguments(&Vec::new()), Vec::<String>::new());
}

#[test]
fn copied_parameters_are_the_same() {
    let params = shape_params();
    assert_eq!(clone_params(&params), params);
    assert_eq!(clone_param(&params[1]), params[1]);
    assert_eq!(clone_params(&Vec::new()), Vec::new());
}

#[test]
fn every_variant_is_dispatched_to_its_own_tag() {
    let desc = shapes();
    let tag = assemble_tag_type(&desc);
    let tag_impl = emit_tag_impl(&desc);
    for index in 0..desc.variants.len() {
        assert_eq!(dispatch(&tag_impl.arms, &desc.variants[index]), Some(index));
        assert_eq!(tag_impl.arms[index].tag, tag.variants[index].name);
        assert_eq!(tag_impl.arms[index].tag, desc.variants[index].name);
    }
}

#[test]
fn foreign_variant_is_not_dispatched() {
    let tag_impl = emit_tag_impl(&shapes());
    assert_eq!(dispatch(&tag_impl.arms, &variant("Line", FieldShape::Unit, None)), None);
    // The name alone does not make a match: the pattern spells out the shape.
    assert_eq!(dispatch(&tag_impl.arms, &variant("Circle", FieldShape::Tuple(2), None)), None);
    assert_eq!(dispatch(&tag_impl.arms, &variant("Point", FieldShape::Tuple(0), None)), None);
    assert_eq!(dispatch(&Vec::new(), &variant("Point", FieldShape::Unit, None)), None);
}

#[test]
fn first_matching_arm_wins() {
    let arm = |tag: &str| DispatchArm {
        pattern: ArmPattern::Bare { variant: "A".to_string() },
        tag: tag.to_string(),
    };
    let arms = vec![arm("first"), arm("second")];
    assert_eq!(dispatch(&arms, &variant("A", FieldShape::Unit, None)), Some(0));
}

#[test]
fn pattern_covers_its_own_variant_only() {
    let rect = variant("Rect", FieldShape::Named(strings(&["width", "height"])), None);
    assert!(pattern_covers(&to_arm_variant(&rect), &rect));
    let swapped = variant("Rect", FieldShape::Named(strings(&["height", "width"])), None);
    assert!(!pattern_covers(&to_arm_variant(&rect), &swapped));
    let shorter = variant("Rect", FieldShape::Named(strings(&["width"])), None);
    assert!(!pattern_covers(&to_arm_variant(&rect), &shorter));
    let renamed = variant("Square", FieldShape::Named(strings(&["width", "height"])), None);
    assert!(!pattern_covers(&to_arm_variant(&rect), &renamed));
    let pair = variant("Pair", FieldShape::Tuple(2), Some("3"));
    assert!(pattern_covers(&to_arm_variant(&pair), &pair));
    assert!(!pattern_covers(&to_arm_variant(&pair), &variant("Pair", FieldShape::Tuple(3), None)));
    assert!(!pattern_covers(&to_arm_variant(&pair), &variant("Pair", FieldShape::Unit, None)));
}

#[test]
fn same_texts_compares_in_order() {
    assert!(same_texts(&strings(&[]), &strings(&[])));
    assert!(same_texts(&strings(&["a", "b"]), &strings(&["a", "b"])));
    assert!(!same_texts(&strings(&["a", "b"]), &strings(&["b", "a"])));
    assert!(!same_texts(&strings(&["a"]), &strings(&["a", "b"])));
    assert!(!same_texts(&strings(&["a", "b"]), &strings(&["a", "c"])));
}
