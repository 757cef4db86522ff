use idlgen::assemble::assemble;
use idlgen::casing::{apply_case, CaseStyle};
use idlgen::error::GenError;
use idlgen::idl::{Idl, IdlEnumVariant, IdlField, IdlType, IdlTypeDefinition, IdlTypeDefinitionTy};
use idlgen::pipeline::generate;
use idlgen::resolve::{resolve, TypeExpr};
use idlgen::synth::{synthesize, DeclBody};

fn field(name: &str, ty: IdlType) -> IdlField {
    IdlField { name: name.to_owned(), ty }
}

fn struct_def(name: &str, fields: Vec<IdlField>) -> IdlTypeDefinition {
    IdlTypeDefinition { name: name.to_owned(), ty: IdlTypeDefinitionTy::Struct { fields } }
}

fn enum_def(name: &str, variants: Vec<IdlEnumVariant>) -> IdlTypeDefinition {
    IdlTypeDefinition { name: name.to_owned(), ty: IdlTypeDefinitionTy::Enum { variants } }
}

fn unit_variant(name: &str) -> IdlEnumVariant {
    IdlEnumVariant { name: name.to_owned(), fields: None }
}

fn doc(name: &str, accounts: Vec<IdlTypeDefinition>, types: Vec<IdlTypeDefinition>) -> Idl {
    Idl { name: name.to_owned(), accounts, types }
}

#[test]
fn point_struct_synthesizes_pascal_members_in_order() {
    let def = struct_def("Point", vec![field("x", IdlType::I32), field("y", IdlType::I32)]);
    let decl = synthesize(&def, CaseStyle::Pascal).unwrap();
    assert_eq!(decl.name, "Point");
    match &decl.body {
        DeclBody::Record { members } => {
            assert_eq!(members.len(), 2);
            assert_eq!(members[0].name, "X");
            assert_eq!(members[0].ty, TypeExpr::Int { signed: true, width: 32 });
            assert_eq!(members[1].name, "Y");
            assert_eq!(members[1].ty, TypeExpr::Int { signed: true, width: 32 });
        },
        other => panic!("expected a record, got {:?}", other),
    }
}

#[test]
fn enum_with_data_variant_becomes_tagged_union() {
    let def = enum_def(
        "Result",
        vec![
            unit_variant("Ok"),
            IdlEnumVariant {
                name: "Err".to_owned(),
                fields: Some(vec![field("msg", IdlType::Text)]),
            },
        ],
    );
    let decl = synthesize(&def, CaseStyle::Pascal).unwrap();
    assert_eq!(decl.name, "Result");
    match &decl.body {
        DeclBody::Union { variants } => {
            assert_eq!(variants.len(), 2);
            assert_eq!(variants[0].name, "Ok");
            assert!(variants[0].members.is_empty());
            assert_eq!(variants[1].name, "Err");
            assert_eq!(variants[1].members.len(), 1);
            assert_eq!(variants[1].members[0].name, "Msg");
            assert_eq!(variants[1].members[0].ty, TypeExpr::Text);
        },
        other => panic!("expected a tagged union, got {:?}", other),
    }
}

#[test]
fn pure_enum_becomes_simple_enumeration() {
    let def = enum_def(
        "Color",
        vec![unit_variant("Red"), unit_variant("Green"), unit_variant("Blue")],
    );
    let decl = synthesize(&def, CaseStyle::Pascal).unwrap();
    match &decl.body {
        DeclBody::Enumeration { values } => {
            assert_eq!(values, &vec!["Red".to_owned(), "Green".to_owned(), "Blue".to_owned()]);
        },
        other => panic!("expected an enumeration, got {:?}", other),
    }
}

#[test]
fn empty_variant_field_list_still_counts_as_data() {
    let def = enum_def(
        "Marker",
        vec![IdlEnumVariant { name: "Only".to_owned(), fields: Some(vec![]) }],
    );
    let decl = synthesize(&def, CaseStyle::Pascal).unwrap();
    assert!(matches!(decl.body, DeclBody::Union { .. }));
}

#[test]
fn struct_field_order_is_preserved() {
    let def = struct_def(
        "Triple",
        vec![
            field("a", IdlType::U8),
            field("b", IdlType::Bool),
            field("c", IdlType::Text),
        ],
    );
    let decl = synthesize(&def, CaseStyle::Pascal).unwrap();
    match &decl.body {
        DeclBody::Record { members } => {
            let names: Vec<&str> = members.iter().map(|m| m.name.as_str()).collect();
            assert_eq!(names, vec!["A", "B", "C"]);
        },
        other => panic!("expected a record, got {:?}", other),
    }
}

#[test]
fn nested_containers_stay_distinct() {
    let opt_vec = resolve(&IdlType::Optional(Box::new(IdlType::List(Box::new(IdlType::U8)))));
    let vec_opt = resolve(&IdlType::List(Box::new(IdlType::Optional(Box::new(IdlType::U8)))));
    assert_ne!(opt_vec, vec_opt);
    assert_eq!(
        opt_vec,
        TypeExpr::Optional(Box::new(TypeExpr::Sequence {
            elem: Box::new(TypeExpr::Int { signed: false, width: 8 }),
            fixed_len: None,
        })),
    );
    assert_eq!(
        vec_opt,
        TypeExpr::Sequence {
            elem: Box::new(TypeExpr::Optional(Box::new(TypeExpr::Int {
                signed: false,
                width: 8,
            }))),
            fixed_len: None,
        },
    );
}

#[test]
fn double_option_keeps_both_layers() {
    let r = resolve(&IdlType::Optional(Box::new(IdlType::Optional(Box::new(IdlType::Bool)))));
    assert_eq!(r, TypeExpr::Optional(Box::new(TypeExpr::Optional(Box::new(TypeExpr::Bool)))));
}

#[test]
fn defined_resolves_to_reference_by_name() {
    let r = resolve(&IdlType::Defined("Foo".to_owned()));
    assert_eq!(r, TypeExpr::Ref("Foo".to_owned()));
}

#[test]
fn dangling_reference_fails_generation() {
    let idl = doc(
        "prog",
        vec![struct_def("Holder", vec![field("inner", IdlType::Defined("Foo".to_owned()))])],
        vec![],
    );
    let err = generate(&idl, CaseStyle::Pascal).unwrap_err();
    assert_eq!(err, GenError::UnresolvedReference("Foo".to_owned()));
}

#[test]
fn reference_to_auxiliary_type_resolves() {
    let idl = doc(
        "prog",
        vec![struct_def("Holder", vec![field("inner", IdlType::Defined("Foo".to_owned()))])],
        vec![struct_def("Foo", vec![field("n", IdlType::U64)])],
    );
    assert!(generate(&idl, CaseStyle::Pascal).is_ok());
}

#[test]
fn duplicate_name_across_groups_is_rejected() {
    let idl = doc(
        "prog",
        vec![struct_def("X", vec![field("a", IdlType::U8)])],
        vec![struct_def("X", vec![field("b", IdlType::U16)])],
    );
    let err = generate(&idl, CaseStyle::Pascal).unwrap_err();
    assert_eq!(err, GenError::DuplicateDeclarationName("X".to_owned()));
}

#[test]
fn duplicate_check_comes_before_reference_check() {
    let idl = doc(
        "prog",
        vec![struct_def("X", vec![field("inner", IdlType::Defined("Gone".to_owned()))])],
        vec![struct_def("X", vec![field("b", IdlType::U16)])],
    );
    let err = generate(&idl, CaseStyle::Pascal).unwrap_err();
    assert_eq!(err, GenError::DuplicateDeclarationName("X".to_owned()));
}

#[test]
fn bare_self_reference_is_rejected() {
    let idl = doc(
        "prog",
        vec![struct_def("Node", vec![field("next", IdlType::Defined("Node".to_owned()))])],
        vec![],
    );
    let err = generate(&idl, CaseStyle::Pascal).unwrap_err();
    assert_eq!(err, GenError::DirectSelfRecursion("Node".to_owned()));
}

#[test]
fn self_reference_behind_container_is_accepted() {
    let idl = doc(
        "prog",
        vec![struct_def(
            "Node",
            vec![field(
                "next",
                IdlType::Optional(Box::new(IdlType::Defined("Node".to_owned()))),
            )],
        )],
        vec![],
    );
    assert!(generate(&idl, CaseStyle::Pascal).is_ok());
}

#[test]
fn dangling_reference_inside_variant_fields_is_reported() {
    let idl = doc(
        "prog",
        vec![enum_def(
            "Holder",
            vec![IdlEnumVariant {
                name: "Wraps".to_owned(),
                fields: Some(vec![field("inner", IdlType::Defined("Gone".to_owned()))]),
            }],
        )],
        vec![],
    );
    let err = generate(&idl, CaseStyle::Pascal).unwrap_err();
    assert_eq!(err, GenError::UnresolvedReference("Gone".to_owned()));
}

#[test]
fn dangling_reference_nested_in_containers_is_reported() {
    let idl = doc(
        "prog",
        vec![struct_def(
            "Holder",
            vec![field(
                "inner",
                IdlType::List(Box::new(IdlType::Array(
                    Box::new(IdlType::Optional(Box::new(IdlType::Defined("Deep".to_owned())))),
                    4,
                ))),
            )],
        )],
        vec![],
    );
    let err = generate(&idl, CaseStyle::Pascal).unwrap_err();
    assert_eq!(err, GenError::UnresolvedReference("Deep".to_owned()));
}

#[test]
fn bare_self_reference_in_variant_fields_is_rejected() {
    let idl = doc(
        "prog",
        vec![enum_def(
            "Tree",
            vec![IdlEnumVariant {
                name: "Branch".to_owned(),
                fields: Some(vec![field("left", IdlType::Defined("Tree".to_owned()))]),
            }],
        )],
        vec![],
    );
    let err = generate(&idl, CaseStyle::Pascal).unwrap_err();
    assert_eq!(err, GenError::DirectSelfRecursion("Tree".to_owned()));
}

#[test]
fn duplicate_name_within_one_group_is_rejected() {
    let idl = doc(
        "prog",
        vec![
            struct_def("Same", vec![field("a", IdlType::U8)]),
            struct_def("Same", vec![field("b", IdlType::U16)]),
        ],
        vec![],
    );
    let err = generate(&idl, CaseStyle::Pascal).unwrap_err();
    assert_eq!(err, GenError::DuplicateDeclarationName("Same".to_owned()));
}

#[test]
fn unsupported_definition_kind_is_reported() {
    let idl = doc(
        "prog",
        vec![IdlTypeDefinition { name: "Odd".to_owned(), ty: IdlTypeDefinitionTy::Unsupported }],
        vec![],
    );
    let err = generate(&idl, CaseStyle::Pascal).unwrap_err();
    assert_eq!(err, GenError::UnsupportedDefinitionKind("Odd".to_owned()));
}

#[test]
fn generation_is_byte_identical_across_runs() {
    let make = || {
        doc(
            "my_program",
            vec![struct_def("Point", vec![field("x", IdlType::I32), field("y", IdlType::I32)])],
            vec![enum_def("Color", vec![unit_variant("Red"), unit_variant("Green")])],
        )
    };
    let first = generate(&make(), CaseStyle::Pascal).unwrap();
    let second = generate(&make(), CaseStyle::Pascal).unwrap();
    assert_eq!(first, second);
}

#[test]
fn rendered_text_matches_expected_source() {
    let idl = doc(
        "my_program",
        vec![struct_def("Point", vec![field("x", IdlType::I32), field("y", IdlType::I32)])],
        vec![enum_def("Color", vec![unit_variant("Red"), unit_variant("Green")])],
    );
    let text = generate(&idl, CaseStyle::Pascal).unwrap();
    let expected = "namespace MyProgram\n\
                    {\n\
                    \x20   public class Point\n\
                    \x20   {\n\
                    \x20       public int X { get; set; }\n\
                    \x20       public int Y { get; set; }\n\
                    \x20   }\n\
                    \x20   public enum Color\n\
                    \x20   {\n\
                    \x20       Red,\n\
                    \x20       Green,\n\
                    \x20   }\n\
                    }\n";
    assert_eq!(text, expected);
}

#[test]
fn tagged_union_renders_base_and_arms() {
    let idl = doc(
        "shapes",
        vec![enum_def(
            "Shape",
            vec![
                IdlEnumVariant {
                    name: "Circle".to_owned(),
                    fields: Some(vec![field("radius", IdlType::U32)]),
                },
                unit_variant("Unknown"),
            ],
        )],
        vec![],
    );
    let text = generate(&idl, CaseStyle::Pascal).unwrap();
    let expected = "namespace Shapes\n\
                    {\n\
                    \x20   public abstract class Shape\n\
                    \x20   {\n\
                    \x20   }\n\
                    \x20   public class ShapeCircle : Shape\n\
                    \x20   {\n\
                    \x20       public uint Radius { get; set; }\n\
                    \x20   }\n\
                    \x20   public class ShapeUnknown : Shape\n\
                    \x20   {\n\
                    \x20   }\n\
                    }\n";
    assert_eq!(text, expected);
}

#[test]
fn empty_document_renders_bare_namespace() {
    let idl = doc("empty_one", vec![], vec![]);
    let text = generate(&idl, CaseStyle::Pascal).unwrap();
    assert_eq!(text, "namespace EmptyOne\n{\n}\n");
}

#[test]
fn primitive_types_map_to_csharp_spellings() {
    let cases: Vec<(IdlType, TypeExpr)> = vec![
        (IdlType::U8, TypeExpr::Int { signed: false, width: 8 }),
        (IdlType::I8, TypeExpr::Int { signed: true, width: 8 }),
        (IdlType::U16, TypeExpr::Int { signed: false, width: 16 }),
        (IdlType::I16, TypeExpr::Int { signed: true, width: 16 }),
        (IdlType::U32, TypeExpr::Int { signed: false, width: 32 }),
        (IdlType::I32, TypeExpr::Int { signed: true, width: 32 }),
        (IdlType::U64, TypeExpr::Int { signed: false, width: 64 }),
        (IdlType::I64, TypeExpr::Int { signed: true, width: 64 }),
        (IdlType::U128, TypeExpr::BigInt),
        (IdlType::I128, TypeExpr::BigInt),
        (IdlType::Bool, TypeExpr::Bool),
        (IdlType::Text, TypeExpr::Text),
        (IdlType::PublicKey, TypeExpr::PublicKey),
        (IdlType::Bytes, TypeExpr::Bytes),
    ];
    for (idl_ty, expected) in cases {
        assert_eq!(resolve(&idl_ty), expected);
    }
}

#[test]
fn fixed_length_array_keeps_its_length() {
    let r = resolve(&IdlType::Array(Box::new(IdlType::U8), 32));
    assert_eq!(
        r,
        TypeExpr::Sequence {
            elem: Box::new(TypeExpr::Int { signed: false, width: 8 }),
            fixed_len: Some(32),
        },
    );
}

#[test]
fn pascal_casing_rewrites_snake_names() {
    assert_eq!(apply_case(CaseStyle::Pascal, "point_x"), "PointX");
    assert_eq!(apply_case(CaseStyle::Pascal, "my_program"), "MyProgram");
    assert_eq!(apply_case(CaseStyle::Pascal, ""), "");
}

#[test]
fn snake_casing_rewrites_pascal_names() {
    assert_eq!(apply_case(CaseStyle::Snake, "PointX"), "point_x");
    assert_eq!(apply_case(CaseStyle::Snake, "MyProgram"), "my_program");
}

#[test]
fn snake_style_flows_through_the_pipeline() {
    let idl = doc(
        "MyProgram",
        vec![struct_def("Point", vec![field("BigValue", IdlType::U64)])],
        vec![],
    );
    let text = generate(&idl, CaseStyle::Snake).unwrap();
    assert!(text.starts_with("namespace my_program\n"));
    assert!(text.contains("public class point\n"));
    assert!(text.contains("public ulong big_value { get; set; }\n"));
}

#[test]
fn assembled_document_lists_accounts_before_types() {
    let idl = doc(
        "prog",
        vec![struct_def("Acc", vec![])],
        vec![struct_def("Aux", vec![])],
    );
    let document = assemble(&idl, CaseStyle::Pascal).unwrap();
    assert_eq!(document.namespace, "Prog");
    assert_eq!(document.decls.len(), 2);
    assert_eq!(document.decls[0].name, "Acc");
    assert_eq!(document.decls[1].name, "Aux");
}
