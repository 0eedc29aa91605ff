use generic_path::{
    Config, DeclarationType, DeclarationTypeResolver, ExportConfig, GenericArgument, GenericParam,
    GenericParams, GenericPath, Generics, Language, Path, PathArguments, PathExpr, PathSegment,
    PrimitiveType, Type, TypeExpr,
};

fn expr(ident: &str, args: &[&str]) -> PathExpr {
    let arguments = if args.is_empty() {
        PathArguments::Absent
    } else {
        PathArguments::AngleBracketed(
            args.iter().map(|arg| GenericArgument::Type(TypeExpr::Path(expr(arg, &[])))).collect(),
        )
    };
    PathExpr { segments: vec![PathSegment { ident: ident.to_string(), arguments }] }
}

fn named(name: &str) -> Type {
    Type::Path(GenericPath::new(Path::new(name.to_string()), Vec::new()))
}

#[test]
fn result_inside_an_impl_for_foo() {
    let mut loaded = GenericPath::load(&expr("Result", &["MyError", "i32"])).unwrap();
    let before = loaded.clone();
    loaded.replace_self_with(&Path::new("Foo".to_string()));
    assert_eq!(loaded, before);
    assert_eq!(loaded.name(), "Result");
    assert_eq!(loaded.export_name(), "Result");
    assert_eq!(loaded.generics(), &[named("MyError"), Type::Primitive(PrimitiveType::Int32)]);
}

#[test]
fn box_of_self_inside_an_impl_for_foo() {
    let mut loaded = GenericPath::load(&expr("Box", &["Self"])).unwrap();
    loaded.replace_self_with(&Path::new("Foo".to_string()));
    assert_eq!(loaded.name(), "Box");
    assert_eq!(loaded.export_name(), "Box");
    match &loaded.generics()[0] {
        Type::Path(inner) => {
            assert_eq!(inner.name(), "Foo");
            assert_eq!(inner.export_name(), "Foo");
        },
        _ => panic!("no named type"),
    }
}

#[test]
fn all_passes_in_order() {
    let generics = Generics {
        params: vec![GenericParam::Lifetime, GenericParam::Type("T".to_string())],
    };
    let generic_params = GenericParams::new(&generics);
    let config = Config {
        language: Language::Cxx,
        export: ExportConfig {
            rename: vec![("Foo".to_string(), "Widget".to_string())],
            prefix: Some("my_".to_string()),
        },
    };
    let mut resolver = DeclarationTypeResolver::new();
    resolver.insert(Path::new("Pair".to_string()), DeclarationType::Struct);
    resolver.insert(Path::new("Foo".to_string()), DeclarationType::Enum);

    let mut loaded = GenericPath::load(&expr("Pair", &["Self", "T", "u8"])).unwrap();
    loaded.replace_self_with(&Path::new("Foo".to_string()));
    loaded.rename_for_config(&config, &generic_params);
    loaded.resolve_declaration_types(&resolver);

    assert_eq!(loaded.name(), "Pair");
    assert_eq!(loaded.export_name(), "my_Pair");
    assert_eq!(loaded.ctype(), Some(&DeclarationType::Struct));
    assert_eq!(loaded.generics().len(), 3);
    match &loaded.generics()[0] {
        Type::Path(inner) => {
            assert_eq!(inner.name(), "Foo");
            assert_eq!(inner.export_name(), "my_Widget");
            assert_eq!(inner.ctype(), None);
        },
        _ => panic!("no named type"),
    }
    match &loaded.generics()[1] {
        Type::Path(inner) => {
            assert_eq!(inner.name(), "T");
            assert_eq!(inner.export_name(), "T");
        },
        _ => panic!("no named type"),
    }
    assert_eq!(loaded.generics()[2], Type::Primitive(PrimitiveType::UInt8));

    let mut header = String::new();
    generic_params.write(&config, &mut header);
    assert_eq!(header, "template<typename T>\n");
}
