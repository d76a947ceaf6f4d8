//! Discriminants: explicit ones are kept, the others count on from them.

use enum_tags::assemble::project_variants;
use enum_tags::descriptor::{FieldShape, VariantDescriptor};
use enum_tags::numbering::{discriminant_of, Discriminant};

fn variant(name: &str, fields: FieldShape, discriminant: Option<&str>) -> VariantDescriptor {
    VariantDescriptor {
        name: name.to_string(),
        fields,
        discriminant: discriminant.map(|d| d.to_string()),
    }
}

fn counted(offset: usize) -> Option<Discriminant> {
    Some(Discriminant { base: None, offset })
}

fn explicit(base: &str, offset: usize) -> Option<Discriminant> {
    Some(Discriminant { base: Some(base.to_string()), offset })
}

/// `enum E { A, B, C = 5 }`: `A = 0`, `B = 1`, `C = 5`.
#[test]
fn trailing_explicit_discriminant() {
    let variants = vec![
        variant("A", FieldShape::Unit, None),
        variant("B", FieldShape::Unit, None),
        variant("C", FieldShape::Unit, Some("5")),
    ];
    assert_eq!(discriminant_of(&variants, 0), counted(0));
    assert_eq!(discriminant_of(&variants, 1), counted(1));
    assert_eq!(discriminant_of(&variants, 2), explicit("5", 0));
    assert_eq!(discriminant_of(&variants, 3), None);
}

/// `enum E { A = 7, B, C, D = 2, E }`: `B = 7 + 1`, `C = 7 + 2`, `E = 2 + 1`.
#[test]
fn counting_on_from_explicit_discriminants() {
    let variants = vec![
        variant("A", FieldShape::Unit, Some("7")),
        variant("B", FieldShape::Tuple(2), None),
        variant("C", FieldShape::Unit, None),
        variant("D", FieldShape::Named(vec!["x".to_string()]), Some("2")),
        variant("E", FieldShape::Unit, None),
    ];
    assert_eq!(discriminant_of(&variants, 0), explicit("7", 0));
    assert_eq!(discriminant_of(&variants, 1), explicit("7", 1));
    assert_eq!(discriminant_of(&variants, 2), explicit("7", 2));
    assert_eq!(discriminant_of(&variants, 3), explicit("2", 0));
    assert_eq!(discriminant_of(&variants, 4), explicit("2", 1));
    assert_eq!(discriminant_of(&variants, 5), None);
    assert_eq!(discriminant_of(&variants, usize::MAX), None);
}

#[test]
fn no_variant_no_discriminant() {
    assert_eq!(discriminant_of(&Vec::new(), 0), None);
}

#[test]
fn projection_preserves_every_discriminant() {
    let variants = vec![
        variant("A", FieldShape::Tuple(1), None),
        variant("B", FieldShape::Unit, Some("1 << 4")),
        variant("C", FieldShape::Named(vec!["x".to_string(), "y".to_string()]), None),
        variant("D", FieldShape::Tuple(0), None),
        variant("E", FieldShape::Unit, Some("-3")),
    ];
    let projected = project_variants(&variants);
    assert_eq!(projected.len(), variants.len());
    for index in 0..variants.len() {
        assert_eq!(projected[index].name, variants[index].name);
        assert_eq!(projected[index].fields, FieldShape::Unit);
        assert_eq!(projected[index].discriminant, variants[index].discriminant);
        assert_eq!(discriminant_of(&projected, index), discriminant_of(&variants, index));
    }
    assert_eq!(discriminant_of(&projected, 2), explicit("1 << 4", 1));
    assert_eq!(discriminant_of(&projected, 3), explicit("1 << 4", 2));
}
