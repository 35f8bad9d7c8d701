//! The generation pipeline end to end: attribute parsing, shape and
//! soundness checking, and the exact emitted text.

use computed::attrs::{Accessor, ParsedAttr, RawAttr};
use computed::errors::GenError;
use computed::fields::{FieldDecl, FieldVis, InputShape, ParsedCode, StructureInput};
use computed::generate;

fn flag(name: &str, loc: usize) -> RawAttr {
    RawAttr { name: name.to_string(), arg: None, loc }
}

fn with_arg(name: &str, arg: &str, loc: usize) -> RawAttr {
    RawAttr { name: name.to_string(), arg: Some(arg.to_string()), loc }
}

fn field(name: &str, ty: &str, loc: usize, attrs: Vec<RawAttr>) -> FieldDecl {
    FieldDecl {
        name: name.to_string(),
        ty: ty.to_string(),
        vis: FieldVis::Private,
        loc,
        attrs,
        computed_deps: Vec::new(),
    }
}

#[test]
fn parse_collects_accessor_flags() {
    let tokens = vec![flag("get", 1), flag("set", 2)];
    let p = ParsedAttr::from_attributes(&tokens).unwrap();
    assert!(p.get);
    assert!(p.set);
    assert!(p.invalidates.is_none());
    assert!(p.computed.is_none());
}

#[test]
fn parse_flags_are_idempotent() {
    let tokens = vec![flag("get", 1), flag("get", 2), flag("set", 3), flag("get", 4)];
    let p = ParsedAttr::from_attributes(&tokens).unwrap();
    assert!(p.get);
    assert!(p.set);
}

#[test]
fn parse_invalidates_records_target_and_location() {
    let tokens = vec![flag("set", 1), with_arg("invalidates", "sum", 9)];
    let p = ParsedAttr::from_attributes(&tokens).unwrap();
    let inv = p.invalidates.unwrap();
    assert_eq!(inv.name, "sum");
    assert_eq!(inv.loc, 9);
}

#[test]
fn parse_computed_records_function() {
    let tokens = vec![with_arg("computed", "Example::sum_fn", 4)];
    let p = ParsedAttr::from_attributes(&tokens).unwrap();
    let c = p.computed.unwrap();
    assert_eq!(c.name, "Example::sum_fn");
    assert_eq!(c.loc, 4);
    assert!(!p.get);
    assert!(!p.set);
}

#[test]
fn parse_unknown_attribute_fails_at_its_token() {
    let tokens = vec![flag("get", 1), flag("watch", 8), flag("set", 9)];
    let e = ParsedAttr::from_attributes(&tokens).unwrap_err();
    assert_eq!(e, GenError::UnknownAttribute { loc: 8 });
    assert_eq!(e.location(), 8);
}

#[test]
fn parse_flag_with_argument_is_unknown() {
    let tokens = vec![with_arg("get", "x", 5)];
    let e = ParsedAttr::from_attributes(&tokens).unwrap_err();
    assert_eq!(e, GenError::UnknownAttribute { loc: 5 });
}

#[test]
fn parse_invalidates_without_argument_is_unknown() {
    let tokens = vec![flag("invalidates", 6)];
    let e = ParsedAttr::from_attributes(&tokens).unwrap_err();
    assert_eq!(e, GenError::UnknownAttribute { loc: 6 });
}

#[test]
fn parse_second_invalidates_is_duplicate() {
    let tokens = vec![with_arg("invalidates", "sum", 2), with_arg("invalidates", "other", 7)];
    let e = ParsedAttr::from_attributes(&tokens).unwrap_err();
    assert_eq!(e, GenError::DuplicateAttribute { loc: 7 });
}

#[test]
fn parse_second_computed_is_duplicate() {
    let tokens = vec![with_arg("computed", "f", 2), with_arg("computed", "g", 3)];
    let e = ParsedAttr::from_attributes(&tokens).unwrap_err();
    assert_eq!(e, GenError::DuplicateAttribute { loc: 3 });
}

#[test]
fn builder_rejects_enumerations() {
    let input = StructureInput {
        name: "Kind".to_string(),
        loc: 11,
        shape: InputShape::Enumeration,
    };
    let e = ParsedCode::new(&input).unwrap_err();
    assert_eq!(e, GenError::UnsupportedShape { loc: 11 });
}

#[test]
fn builder_rejects_unions_and_positional_shapes() {
    for shape in [InputShape::Union, InputShape::Positional, InputShape::Unit] {
        let input = StructureInput { name: "Kind".to_string(), loc: 12, shape };
        let e = ParsedCode::new(&input).unwrap_err();
        assert_eq!(e, GenError::UnsupportedShape { loc: 12 });
    }
}

#[test]
fn builder_keeps_declaration_order() {
    let input = StructureInput {
        name: "Pair".to_string(),
        loc: 0,
        shape: InputShape::Named(vec![
            field("first", "u32", 1, vec![flag("get", 2)]),
            field("second", "u32", 3, vec![flag("set", 4)]),
        ]),
    };
    let code = ParsedCode::new(&input).unwrap();
    assert_eq!(code.struct_ident, "Pair");
    assert_eq!(code.fields.len(), 2);
    assert_eq!(code.fields[0].name, "first");
    assert_eq!(code.fields[1].name, "second");
    assert!(code.fields[0].attrs.get);
    assert!(!code.fields[0].attrs.set);
    assert!(code.fields[1].attrs.set);
}

#[test]
fn computed_field_with_accessor_is_a_conflict() {
    let input = StructureInput {
        name: "Example".to_string(),
        loc: 0,
        shape: InputShape::Named(vec![
            field("sum", "f32", 20, vec![flag("get", 21), with_arg("computed", "f", 22)]),
        ]),
    };
    let code = ParsedCode::new(&input).unwrap();
    let e = code.check_soundness().unwrap_err();
    assert_eq!(e, GenError::AttributeConflict { loc: 20 });
    // generation as a whole reports the same failure: nothing is emitted
    assert_eq!(generate(&input).unwrap_err(), GenError::AttributeConflict { loc: 20 });
}

#[test]
fn computed_field_with_invalidates_is_a_conflict() {
    let input = StructureInput {
        name: "Example".to_string(),
        loc: 0,
        shape: InputShape::Named(vec![
            field(
                "sum",
                "f32",
                30,
                vec![with_arg("invalidates", "other", 31), with_arg("computed", "f", 32)],
            ),
            field("other", "f32", 33, vec![]),
        ]),
    };
    let e = generate(&input).unwrap_err();
    // reported at the invalidates token
    assert_eq!(e, GenError::AttributeConflict { loc: 31 });
}

#[test]
fn undefined_invalidation_target_fails_generation() {
    let input = StructureInput {
        name: "Example".to_string(),
        loc: 0,
        shape: InputShape::Named(vec![
            field(
                "items",
                "Vec<f32>",
                40,
                vec![flag("get", 41), flag("set", 42), with_arg("invalidates", "nonexistent", 43)],
            ),
        ]),
    };
    let e = generate(&input).unwrap_err();
    assert_eq!(e, GenError::UndefinedInvalidationTarget { loc: 43 });
    assert_eq!(e.location(), 43);
}

#[test]
fn invalidation_target_may_be_any_field_kind() {
    // the target exists (a computed field): generation succeeds
    let input = StructureInput {
        name: "Example".to_string(),
        loc: 0,
        shape: InputShape::Named(vec![
            field("items", "Vec<f32>", 1, vec![flag("set", 2), with_arg("invalidates", "sum", 3)]),
            FieldDecl {
                name: "sum".to_string(),
                ty: "f32".to_string(),
                vis: FieldVis::Private,
                loc: 4,
                attrs: vec![with_arg("computed", "Example::sum_fn", 5)],
                computed_deps: vec!["items".to_string()],
            },
        ]),
    };
    assert!(generate(&input).is_ok());
}

#[test]
fn generate_emits_the_exact_accessor_text() {
    let input = StructureInput {
        name: "Example".to_string(),
        loc: 0,
        shape: InputShape::Named(vec![
            field(
                "items",
                "Vec<f32>",
                1,
                vec![flag("get", 2), flag("set", 3), with_arg("invalidates", "sum", 4)],
            ),
            field(
                "discount",
                "f32",
                5,
                vec![flag("get", 6), flag("set", 7), with_arg("invalidates", "sum", 8)],
            ),
            FieldDecl {
                name: "sum".to_string(),
                ty: "f32".to_string(),
                vis: FieldVis::Private,
                loc: 9,
                attrs: vec![with_arg("computed", "Example::sum_fn", 10)],
                computed_deps: vec!["items".to_string(), "discount".to_string()],
            },
        ]),
    };
    let text = generate(&input).unwrap();
    let expected = "impl Example {
    pub fn get_items(&self) -> &Vec<f32> {
        &self.items
    }
    pub fn set_items(&mut self, items: Vec<f32>) {
        self.sum.invalidate();
        self.items = items;
    }
}
impl Example {
    pub fn get_discount(&self) -> &f32 {
        &self.discount
    }
    pub fn set_discount(&mut self, discount: f32) {
        self.sum.invalidate();
        self.discount = discount;
    }
}
impl Example {
    pub fn compute_sum(&mut self) -> &f32 {
        self.sum.get_or_init(|| Example::sum_fn(&self.items, &self.discount))
    }
}
";
    assert_eq!(text, expected);
}

#[test]
fn setter_without_target_has_no_invalidation() {
    let input = StructureInput {
        name: "Plain".to_string(),
        loc: 0,
        shape: InputShape::Named(vec![field("count", "u64", 1, vec![flag("set", 2)])]),
    };
    let text = generate(&input).unwrap();
    let expected = "impl Plain {
    pub fn set_count(&mut self, count: u64) {
        self.count = count;
    }
}
";
    assert_eq!(text, expected);
}

#[test]
fn field_without_attributes_emits_an_empty_block() {
    let input = StructureInput {
        name: "Quiet".to_string(),
        loc: 0,
        shape: InputShape::Named(vec![field("hidden", "u8", 1, vec![])]),
    };
    let text = generate(&input).unwrap();
    assert_eq!(text, "impl Quiet {\n}\n");
}

#[test]
fn accessor_fns_emit_each_accessor() {
    let name = "items".to_string();
    let ty = "Vec<f32>".to_string();
    let target = Some("sum".to_string());
    let g = Accessor::Getter.accessor_fns(&name, &ty, &target);
    assert_eq!(g, "    pub fn get_items(&self) -> &Vec<f32> {\n        &self.items\n    }\n");
    let s = Accessor::Setter.accessor_fns(&name, &ty, &target);
    assert_eq!(
        s,
        "    pub fn set_items(&mut self, items: Vec<f32>) {\n        self.sum.invalidate();\n        self.items = items;\n    }\n"
    );
    let bare = Accessor::Setter.accessor_fns(&name, &ty, &None);
    assert_eq!(
        bare,
        "    pub fn set_items(&mut self, items: Vec<f32>) {\n        self.items = items;\n    }\n"
    );
}

#[test]
fn error_messages_name_each_failure() {
    assert_eq!(
        GenError::UnsupportedShape { loc: 0 }.message(),
        "only structures with named fields are supported"
    );
    assert_eq!(GenError::UnknownAttribute { loc: 0 }.message(), "unknown attribute");
    assert_eq!(
        GenError::DuplicateAttribute { loc: 0 }.message(),
        "attribute already set for this field"
    );
    assert_eq!(
        GenError::AttributeConflict { loc: 0 }.message(),
        "attribute is not allowed on a computed field"
    );
    assert_eq!(
        GenError::UndefinedInvalidationTarget { loc: 0 }.message(),
        "invalidates references a field that does not exist"
    );
}
