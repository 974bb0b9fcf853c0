use rsts::extract::SkippedField;
use rsts::decl::{SimpleEnum, SimpleStruct};
use rsts::file::{output_preamble, SimpleFile};
use rsts::syntax::{
    AttributeSyntax, EnumSyntax, FieldSyntax, GenericArgumentSyntax, ItemSyntax, MetaSyntax,
    NestedMetaSyntax, PathArgumentsSyntax, PathSegmentSyntax, StructSyntax, TypePathSyntax,
    TypeSyntax, VariantSyntax,
};
use rsts::types::{SimpleType, SimpleTypeError};

fn seg(ident: &str, arguments: PathArgumentsSyntax) -> PathSegmentSyntax {
    PathSegmentSyntax { ident: ident.to_string(), arguments }
}

fn path(segments: Vec<PathSegmentSyntax>) -> TypeSyntax {
    TypeSyntax::Path(TypePathSyntax { qself: false, leading_colon: false, segments })
}

fn plain(ident: &str) -> TypeSyntax {
    path(vec![seg(ident, PathArgumentsSyntax::NoArguments)])
}

fn generic(ident: &str, args: Vec<TypeSyntax>) -> TypeSyntax {
    let args = args.into_iter().map(GenericArgumentSyntax::Type).collect();
    path(vec![seg(ident, PathArgumentsSyntax::AngleBracketed(args))])
}

fn qself_type() -> TypeSyntax {
    TypeSyntax::Path(TypePathSyntax {
        qself: true,
        leading_colon: false,
        segments: vec![seg("Item", PathArgumentsSyntax::NoArguments)],
    })
}

fn field(name: Option<&str>, ty: TypeSyntax) -> FieldSyntax {
    FieldSyntax { ident: name.map(|n| n.to_string()), ty }
}

fn derive(names: &[&str]) -> AttributeSyntax {
    let nested = names
        .iter()
        .map(|n| NestedMetaSyntax::Meta(MetaSyntax::Word(n.to_string())))
        .collect();
    AttributeSyntax { meta: Some(MetaSyntax::List("derive".to_string(), nested)) }
}

fn normal(ty: &TypeSyntax) -> SimpleType {
    SimpleType::from_syn_type(ty).unwrap()
}

fn error(ty: &TypeSyntax) -> SimpleTypeError {
    SimpleType::from_syn_type(ty).unwrap_err()
}

#[test]
fn normalizes_nested_generics() {
    let ty = generic("Vec", vec![generic("Option", vec![plain("i32")])]);
    let st = normal(&ty);
    assert_eq!(st.path, vec!["Vec".to_string()]);
    assert_eq!(st.generic_args.len(), 1);
    assert_eq!(st.generic_args[0].path, vec!["Option".to_string()]);
    assert_eq!(st.generic_args[0].generic_args[0].path, vec!["i32".to_string()]);
    assert_eq!(st.to_ts(), "(number | null)[]");
}

#[test]
fn keeps_every_segment() {
    let ty = path(vec![
        seg("std", PathArgumentsSyntax::NoArguments),
        seg("collections", PathArgumentsSyntax::NoArguments),
        seg("HashMap", PathArgumentsSyntax::AngleBracketed(vec![
            GenericArgumentSyntax::Type(plain("String")),
            GenericArgumentSyntax::Type(plain("u8")),
        ])),
    ]);
    let st = normal(&ty);
    assert_eq!(
        st.path,
        vec!["std".to_string(), "collections".to_string(), "HashMap".to_string()]
    );
    assert_eq!(st.generic_args.len(), 2);
    assert_eq!(st.to_ts(), "TODO2");
}

#[test]
fn empty_angle_brackets_on_early_segment_are_rejected() {
    let ty = path(vec![
        seg("Foo", PathArgumentsSyntax::AngleBracketed(vec![])),
        seg("Bar", PathArgumentsSyntax::NoArguments),
    ]);
    assert_eq!(error(&ty), SimpleTypeError::EarlyGenericArgs);
}

#[test]
fn empty_angle_brackets_on_last_segment_mean_no_arguments() {
    let ty = path(vec![
        seg("a", PathArgumentsSyntax::NoArguments),
        seg("B", PathArgumentsSyntax::AngleBracketed(vec![])),
    ]);
    let st = normal(&ty);
    assert_eq!(st.path, vec!["a".to_string(), "B".to_string()]);
    assert!(st.generic_args.is_empty());
}

#[test]
fn unmarked_record_is_absent_from_file_text() {
    let items = vec![
        ItemSyntax::Struct(StructSyntax {
            attrs: vec![derive(&["Debug"])],
            ident: "Hidden".to_string(),
            fields: vec![field(Some("a"), plain("i32"))],
        }),
        ItemSyntax::Struct(StructSyntax {
            attrs: vec![derive(&["Serialize"])],
            ident: "Shown".to_string(),
            fields: vec![field(Some("a"), plain("i32"))],
        }),
    ];
    let (file, _) = SimpleFile::from_items("a.rs".to_string(), &items);
    let text = file.to_ts();
    assert!(!text.contains("Hidden"));
    assert_eq!(text, "// a.rs\nexport interface Shown {\n  a: number;\n}\n");
}

#[test]
fn normalization_errors() {
    assert_eq!(error(&TypeSyntax::Other), SimpleTypeError::TypeIsNotPath);
    assert_eq!(error(&path(vec![])), SimpleTypeError::TypeIsNotPath);
    assert_eq!(error(&qself_type()), SimpleTypeError::QSelf);
    let rooted = TypeSyntax::Path(TypePathSyntax {
        qself: false,
        leading_colon: true,
        segments: vec![seg("std", PathArgumentsSyntax::NoArguments)],
    });
    assert_eq!(error(&rooted), SimpleTypeError::LeadingColon);
    let early = path(vec![
        seg("Vec", PathArgumentsSyntax::AngleBracketed(vec![GenericArgumentSyntax::Type(plain("u8"))])),
        seg("Iter", PathArgumentsSyntax::NoArguments),
    ]);
    assert_eq!(error(&early), SimpleTypeError::EarlyGenericArgs);
    let early_paren = path(vec![
        seg("Fn", PathArgumentsSyntax::Parenthesized),
        seg("Output", PathArgumentsSyntax::NoArguments),
    ]);
    assert_eq!(error(&early_paren), SimpleTypeError::EarlyGenericArgs);
    let lifetime = path(vec![seg(
        "Cow",
        PathArgumentsSyntax::AngleBracketed(vec![
            GenericArgumentSyntax::Other,
            GenericArgumentSyntax::Type(plain("str")),
        ]),
    )]);
    assert_eq!(error(&lifetime), SimpleTypeError::InvalidGenericArgType);
    let paren = path(vec![seg("Fn", PathArgumentsSyntax::Parenthesized)]);
    assert_eq!(error(&paren), SimpleTypeError::InvalidArgType);
}

#[test]
fn first_argument_error_wins() {
    let ty = generic("HashMap", vec![qself_type(), TypeSyntax::Other]);
    assert_eq!(error(&ty), SimpleTypeError::QSelf);
    let nested = generic("Vec", vec![generic("Option", vec![TypeSyntax::Other])]);
    assert_eq!(error(&nested), SimpleTypeError::TypeIsNotPath);
}

#[test]
fn struct_without_serde_derive_is_dropped() {
    let s = StructSyntax {
        attrs: vec![derive(&["Debug", "Clone"])],
        ident: "Plain".to_string(),
        fields: vec![field(Some("a"), plain("i32"))],
    };
    assert!(SimpleStruct::new(&s).is_none());
    let items = vec![ItemSyntax::Struct(s)];
    let (file, skipped) = SimpleFile::from_items("plain.rs".to_string(), &items);
    assert!(file.structs.is_empty());
    assert!(skipped.is_empty());
    assert_eq!(file.to_ts(), "// plain.rs\n");
}

#[test]
fn bad_field_is_skipped() {
    let s = StructSyntax {
        attrs: vec![AttributeSyntax { meta: None }, derive(&["Serialize"])],
        ident: "Mixed".to_string(),
        fields: vec![field(Some("good"), plain("String")), field(Some("bad"), qself_type())],
    };
    let (ss, skipped) = SimpleStruct::new(&s).unwrap();
    assert_eq!(ss.name, "Mixed");
    assert_eq!(ss.fields.len(), 1);
    assert_eq!(ss.fields[0].name, Some("good".to_string()));
    assert_eq!(skipped.len(), 1);
    assert_eq!(skipped[0].name, Some("bad".to_string()));
    assert_eq!(skipped[0].error, SimpleTypeError::QSelf);
    assert_eq!(ss.to_ts(), "export interface Mixed {\n  good: string;\n}\n");
}

#[test]
fn enum_with_bad_payload_is_dropped() {
    let e = EnumSyntax {
        ident: "E".to_string(),
        variants: vec![
            VariantSyntax { ident: "A".to_string(), fields: vec![] },
            VariantSyntax { ident: "B".to_string(), fields: vec![field(None, TypeSyntax::Other)] },
        ],
    };
    assert!(SimpleEnum::from_syn_type(&e).is_none());
}

#[test]
fn whole_file() {
    let items = vec![
        ItemSyntax::Struct(StructSyntax {
            attrs: vec![derive(&["Deserialize"])],
            ident: "Id".to_string(),
            fields: vec![field(None, plain("u64"))],
        }),
        ItemSyntax::Other,
        ItemSyntax::Enum(EnumSyntax {
            ident: "Kind".to_string(),
            variants: vec![
                VariantSyntax { ident: "Unit".to_string(), fields: vec![] },
                VariantSyntax {
                    ident: "Named".to_string(),
                    fields: vec![field(Some("at"), generic("DateTime", vec![plain("Utc")]))],
                },
            ],
        }),
        ItemSyntax::Struct(StructSyntax {
            attrs: vec![derive(&["Serialize", "Debug"])],
            ident: "Row".to_string(),
            fields: vec![
                field(Some("id"), plain("Id")),
                field(Some("tags"), generic("Vec", vec![plain("String")])),
                field(Some("weird"), TypeSyntax::Other),
            ],
        }),
    ];
    let (file, skipped) = SimpleFile::from_items("model.rs".to_string(), &items);
    assert_eq!(file.enums.len(), 1);
    assert_eq!(file.structs.len(), 2);
    assert_eq!(skipped.len(), 1);
    let SkippedField { name, error } = &skipped[0];
    assert_eq!(name, &Some("weird".to_string()));
    assert_eq!(*error, SimpleTypeError::TypeIsNotPath);
    assert!(file.can_render());
    assert_eq!(
        file.to_ts(),
        "// model.rs\n\
         export type Kind =\n  \"Unit\" |\n  { Named: DateTimeUtc };\n\
         export type Id = number;\n\
         export interface Row {\n  id: Id;\n  tags: string[];\n}\n"
    );
}

#[test]
fn preamble_defines_the_timestamp_alias() {
    assert_eq!(output_preamble(), "export type DateTimeUtc = string;\n");
}
