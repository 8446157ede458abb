use auto_new_builder::frontend::auto_new_builder_derive;
use auto_new_builder::frontend::derive_source;
use auto_new_builder::frontend::get_struct_name;
use auto_new_builder::frontend::read_input;
use auto_new_builder::gen::generate;
use auto_new_builder::model::AttrShape;
use auto_new_builder::model::FieldModel;
use auto_new_builder::model::GenError;
use auto_new_builder::model::Generated;
use auto_new_builder::model::Init;
use auto_new_builder::model::InputModel;
use auto_new_builder::model::TypeShape;
use auto_new_builder::render::render;

const HELLO_SRC: &str = "#[derive(AutoNewBuilder, Debug)] pub struct Hello { \
    world: u32, \
    #[auto_new_value = 34] universe: u32, \
    #[auto_new_value = \"\\\"HELLO\\\".to_string()\"] next_next_world: String, \
    next_world: Option<u32>, \
    #[auto_new_required] next_universe: Option<u32>, \
    #[auto_new_value = \"say()\"] super_next_next_world: Option<u32>, \
    #[auto_new_value = \"Some(46)\"] super_super_next_next_world: Option<u32>, \
}";

fn derive_hello() -> Generated {
    auto_new_builder_derive(HELLO_SRC).expect("the example declaration must generate")
}

#[test]
fn hello_target_and_params() {
    let g = derive_hello();
    assert_eq!(g.target, "Hello");
    assert_eq!(g.params.len(), 2);
    assert_eq!(g.params[0].name, "world");
    assert_eq!(g.params[0].ty, "u32");
    assert_eq!(g.params[1].name, "next_universe");
    assert_eq!(g.params[1].ty, "u32");
}

#[test]
fn hello_inits() {
    let g = derive_hello();
    assert_eq!(g.inits.len(), 7);
    assert_eq!(g.inits[0].name, "world");
    assert!(matches!(g.inits[0].init, Init::FromParam));
    assert_eq!(g.inits[1].name, "universe");
    assert!(matches!(g.inits[1].init, Init::Given(ref c) if c == "34"));
    assert_eq!(g.inits[2].name, "next_next_world");
    assert!(matches!(g.inits[2].init, Init::Given(ref c) if c == "\"HELLO\".to_string()"));
    assert_eq!(g.inits[3].name, "next_world");
    assert!(matches!(g.inits[3].init, Init::Unset));
    assert_eq!(g.inits[4].name, "next_universe");
    assert!(matches!(g.inits[4].init, Init::WrapParam));
    assert_eq!(g.inits[5].name, "super_next_next_world");
    assert!(matches!(g.inits[5].init, Init::Given(ref c) if c == "say()"));
    assert_eq!(g.inits[6].name, "super_super_next_next_world");
    assert!(matches!(g.inits[6].init, Init::Given(ref c) if c == "Some(46)"));
}

#[test]
fn hello_with_methods() {
    let g = derive_hello();
    let expected: [(&str, &str, &str, bool); 6] = [
        ("with_universe", "universe", "u32", false),
        ("with_next_next_world", "next_next_world", "String", false),
        ("with_next_world", "next_world", "u32", true),
        ("with_next_universe", "next_universe", "u32", true),
        ("with_super_next_next_world", "super_next_next_world", "u32", true),
        ("with_super_super_next_next_world", "super_super_next_next_world", "u32", true),
    ];
    assert_eq!(g.withs.len(), expected.len());
    for (w, (method, field, ty, wraps)) in g.withs.iter().zip(expected.iter()) {
        assert_eq!(&w.method_name, method);
        assert_eq!(&w.field, field);
        assert_eq!(&w.value_ty, ty);
        assert_eq!(w.wraps, *wraps);
    }
}

#[test]
fn hello_rendered_text() {
    let g = derive_hello();
    let text = render(&g);
    let expected = "impl Hello { pub fn new(world: u32, next_universe: u32) -> Self { \
Hello { world: world, universe: 34, \
next_next_world: \"HELLO\".to_string(), next_world: None, \
next_universe: Some(next_universe), super_next_next_world: say(), \
super_super_next_next_world: Some(46) } } \
#[inline] pub fn with_universe(mut self, value: u32) -> Self { \
self.universe = value; self } \
#[inline] pub fn with_next_next_world(mut self, value: String) -> Self { \
self.next_next_world = value; self } \
#[inline] pub fn with_next_world(mut self, value: u32) -> Self { \
self.next_world = Some(value); self } \
#[inline] pub fn with_next_universe(mut self, value: u32) -> Self { \
self.next_universe = Some(value); self } \
#[inline] pub fn with_super_next_next_world(mut self, value: u32) -> Self { \
self.super_next_next_world = Some(value); self } \
#[inline] pub fn with_super_super_next_next_world(mut self, value: u32) -> Self { \
self.super_super_next_next_world = Some(value); self } }";
    assert_eq!(text, expected);
    // The emitted text must tokenize as Rust source.
    assert!(text.parse::<proc_macro2::TokenStream>().is_ok());
    // The one-call form emits the same text.
    assert_eq!(derive_source(HELLO_SRC).unwrap(), expected);
}

#[test]
fn model_level_generation_matches_frontend() {
    // The same declaration, built as a plain model without any parsing.
    let model = InputModel {
        name: "Pair".to_string(),
        fields: vec![
            FieldModel {
                name: Some("first".to_string()),
                attrs: vec![],
                shape: TypeShape::Path {
                    segments: vec!["u64".to_string()],
                    type_args: None,
                    text: "u64".to_string(),
                },
            },
            FieldModel {
                name: Some("second".to_string()),
                attrs: vec![AttrShape::Word { name: "auto_new_required".to_string() }],
                shape: TypeShape::Path {
                    segments: vec!["Option".to_string()],
                    type_args: Some(vec!["u64".to_string()]),
                    text: "Option < u64 >".to_string(),
                },
            },
        ],
    };
    let g = generate(&model).expect("the model must generate");
    assert_eq!(g.target, "Pair");
    assert_eq!(g.params.len(), 2);
    assert_eq!(g.params[1].name, "second");
    assert_eq!(g.params[1].ty, "u64");
    assert!(matches!(g.inits[0].init, Init::FromParam));
    assert!(matches!(g.inits[1].init, Init::WrapParam));
    assert_eq!(g.withs.len(), 1);
    assert_eq!(g.withs[0].method_name, "with_second");
    assert!(g.withs[0].wraps);

    let through_syn =
        auto_new_builder_derive("struct Pair { first: u64, #[auto_new_required] second: Option<u64> }")
            .expect("the declaration must generate");
    assert_eq!(render(&g), render(&through_syn));
}

#[test]
fn empty_struct_generates_empty_constructor() {
    let g = auto_new_builder_derive("struct Empty {}").expect("must generate");
    assert_eq!(g.target, "Empty");
    assert!(g.params.is_empty());
    assert!(g.inits.is_empty());
    assert!(g.withs.is_empty());
    let text = render(&g);
    assert_eq!(text, "impl Empty { pub fn new() -> Self { Empty {  } } }");
    assert!(text.parse::<proc_macro2::TokenStream>().is_ok());
}

#[test]
fn first_relevant_attribute_wins() {
    let g = auto_new_builder_derive("struct S { #[auto_new_required] #[auto_new_value = 7] x: Option<u32> }")
    .expect("must generate");
    assert_eq!(g.params.len(), 1);
    assert!(matches!(g.inits[0].init, Init::WrapParam));
}

#[test]
fn unrelated_attributes_are_skipped() {
    let g = auto_new_builder_derive("struct S { #[doc = \"ignored\"] #[auto_new_value = 5] x: u32 }")
    .expect("must generate");
    assert!(g.params.is_empty());
    assert!(matches!(g.inits[0].init, Init::Given(ref c) if c == "5"));
}

#[test]
fn multi_segment_option_is_a_plain_field() {
    let g = auto_new_builder_derive("struct S { x: std::option::Option<u32> }")
        .expect("must generate");
    assert_eq!(g.params.len(), 1);
    assert!(matches!(g.inits[0].init, Init::FromParam));
    assert!(g.withs.is_empty());
}

#[test]
fn rejects_unparsable_input() {
    let r = auto_new_builder_derive("fn not_a_type() {}");
    assert_eq!(r.unwrap_err(), GenError::Unparsable);
}

#[test]
fn rejects_non_struct() {
    let r = auto_new_builder_derive("enum E { A, B }");
    assert_eq!(r.unwrap_err(), GenError::NotAStruct);
}

#[test]
fn rejects_tuple_struct() {
    let r = auto_new_builder_derive("struct T(u32);");
    assert_eq!(r.unwrap_err(), GenError::UnnamedField);
}

#[test]
fn unnamed_field_rejected_before_its_attributes() {
    let r = auto_new_builder_derive("struct T(#[auto_new_value = hello] u32);");
    assert_eq!(r.unwrap_err(), GenError::UnnamedField);
}

#[test]
fn model_level_unnamed_field_is_rejected() {
    let model = InputModel {
        name: "T".to_string(),
        fields: vec![
            FieldModel {
                name: None,
                attrs: vec![],
                shape: TypeShape::Path {
                    segments: vec!["u32".to_string()],
                    type_args: None,
                    text: "u32".to_string(),
                },
            },
        ],
    };
    assert_eq!(generate(&model).unwrap_err(), GenError::UnnamedField);
}

#[test]
fn rejects_non_literal_value() {
    let r = auto_new_builder_derive("struct S { #[auto_new_value = hello] x: u32 }");
    assert_eq!(r.unwrap_err(), GenError::ValueNotLiteral);
}

#[test]
fn rejects_option_with_two_arguments() {
    let r = auto_new_builder_derive("struct S { x: Option<u32, u32> }");
    assert_eq!(r.unwrap_err(), GenError::OptionArity);
}

#[test]
fn rejects_bare_option() {
    let r = auto_new_builder_derive("struct S { x: Option }");
    assert_eq!(r.unwrap_err(), GenError::OptionFormat);
}

#[test]
fn rejects_non_path_type() {
    let r = auto_new_builder_derive("struct S { x: [u32; 4] }");
    assert_eq!(r.unwrap_err(), GenError::UnsupportedType);
}

#[test]
fn rejects_plain_field_after_optional() {
    let r = auto_new_builder_derive("struct S { a: Option<u32>, b: u32 }");
    assert_eq!(r.unwrap_err(), GenError::OptionalNotLast);
}

#[test]
fn rejects_unlexable_string_value() {
    let r = auto_new_builder_derive("struct S { #[auto_new_value = \"(((\"] x: u32 }");
    assert_eq!(r.unwrap_err(), GenError::ValueUnlexable);
}

#[test]
fn unlexable_string_ignored_when_not_chosen() {
    // The scan stops at the required attribute; the value attribute after
    // it is never read, so its content is never lexed.
    let g = auto_new_builder_derive(
        "struct S { #[auto_new_required] #[auto_new_value = \"(((\"] x: Option<u32> }",
    )
    .expect("must generate");
    assert!(matches!(g.inits[0].init, Init::WrapParam));
}

#[test]
fn unlexable_string_on_unrelated_attribute_is_skipped() {
    let g = auto_new_builder_derive("struct S { #[other = \"(((\"] x: u32 }")
        .expect("must generate");
    assert_eq!(g.params.len(), 1);
    assert!(matches!(g.inits[0].init, Init::FromParam));
}

#[test]
fn attribute_scan_precedes_type_errors() {
    // The attribute scan rejects the field before its type shape is looked at.
    let r = auto_new_builder_derive("struct S { #[auto_new_value = hello] x: [u32; 4] }");
    assert_eq!(r.unwrap_err(), GenError::ValueNotLiteral);
}

#[test]
fn error_messages() {
    assert_eq!(
        GenError::NotAStruct.message(),
        "AutoNewBuilder can only be derived for structs"
    );
    assert_eq!(GenError::NameNotAStruct.message(), "This derive macro only works on structs");
    assert_eq!(GenError::ValueNotLiteral.message(), "auto_new_value must be a literal");
    assert_eq!(GenError::ValueUnlexable.message(), "Failed to parse string as token stream");
    assert_eq!(GenError::OptionArity.message(), "Option must have exactly one type parameter");
    assert_eq!(GenError::OptionFormat.message(), "Invalid Option type format");
    assert_eq!(GenError::UnsupportedType.message(), "Unsupported type in generic");
    assert_eq!(GenError::OptionalNotLast.message(), "Optional Fields should be the at the last");
}

#[test]
fn struct_name_of_declaration() {
    assert_eq!(get_struct_name(HELLO_SRC).unwrap(), "Hello");
    assert_eq!(get_struct_name("enum E { A }").unwrap_err(), GenError::NameNotAStruct);
    // A tuple struct still has a readable name.
    assert_eq!(get_struct_name("struct T(u32);").unwrap(), "T");
}

#[test]
fn read_input_models_the_declaration() {
    let m = read_input(HELLO_SRC).expect("must read");
    assert_eq!(m.name, "Hello");
    assert_eq!(m.fields.len(), 7);
    assert_eq!(m.fields[0].name.as_deref(), Some("world"));
    assert!(m.fields[0].attrs.iter().all(|a| matches!(a, AttrShape::Opaque | AttrShape::Word { .. } | AttrShape::LitStr { .. } | AttrShape::LitOther { .. } | AttrShape::ExprOther { .. })));
    match &m.fields[3].shape {
        TypeShape::Path { segments, type_args, text } => {
            assert_eq!(segments, &vec!["Option".to_string()]);
            assert_eq!(type_args.as_ref().unwrap(), &vec!["u32".to_string()]);
            assert_eq!(text, "Option < u32 >");
        }
        TypeShape::Opaque => panic!("expected a path type"),
    }
}
