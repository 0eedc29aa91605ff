use generic_path::{
    GenericArgument, GenericPath, PathArguments, PathExpr, PathSegment, PrimitiveType, Type,
    TypeExpr,
};
use generic_path::Path;

fn segment(ident: &str, arguments: PathArguments) -> PathSegment {
    PathSegment { ident: ident.to_string(), arguments }
}

fn name(ident: &str) -> PathExpr {
    PathExpr { segments: vec![segment(ident, PathArguments::Absent)] }
}

fn with_args(ident: &str, args: Vec<GenericArgument>) -> PathExpr {
    PathExpr { segments: vec![segment(ident, PathArguments::AngleBracketed(args))] }
}

fn ty(ident: &str) -> GenericArgument {
    GenericArgument::Type(TypeExpr::Path(name(ident)))
}

fn named(ident: &str) -> Type {
    Type::Path(GenericPath::new(Path::new(ident.to_string()), Vec::new()))
}

#[test]
fn load_plain_name() {
    let loaded = GenericPath::load(&name("Foo")).unwrap();
    assert_eq!(loaded.name(), "Foo");
    assert_eq!(loaded.export_name(), "Foo");
    assert_eq!(loaded.path(), &Path::new("Foo".to_string()));
    assert!(loaded.generics().is_empty());
    assert_eq!(loaded.ctype(), None);
}

#[test]
fn load_empty_angle_brackets() {
    let loaded = GenericPath::load(&with_args("Foo", vec![])).unwrap();
    assert_eq!(loaded.name(), "Foo");
    assert_eq!(loaded.export_name(), "Foo");
    assert!(loaded.generics().is_empty());
}

#[test]
fn load_is_what_new_builds() {
    let loaded = GenericPath::load(&with_args("Wrapper", vec![ty("Inner")])).unwrap();
    let built = GenericPath::new(Path::new("Wrapper".to_string()), vec![named("Inner")]);
    assert_eq!(loaded, built);
}

#[test]
fn load_reads_the_last_segment_only() {
    let path = PathExpr {
        segments: vec![
            segment("std", PathArguments::Absent),
            segment("result", PathArguments::AngleBracketed(vec![ty("Ignored")])),
            segment("Result", PathArguments::AngleBracketed(vec![ty("MyError"), ty("i32")])),
        ],
    };
    let loaded = GenericPath::load(&path).unwrap();
    assert_eq!(loaded.name(), "Result");
    assert_eq!(loaded.export_name(), "Result");
    assert_eq!(loaded.generics(), &[named("MyError"), Type::Primitive(PrimitiveType::Int32)]);
}

#[test]
fn load_ignores_what_leading_segments_carry() {
    let path = PathExpr {
        segments: vec![
            segment("Fn", PathArguments::Parenthesized),
            segment("Output", PathArguments::Absent),
        ],
    };
    let loaded = GenericPath::load(&path).unwrap();
    assert_eq!(loaded.name(), "Output");
    assert!(loaded.generics().is_empty());
}

#[test]
fn load_leaves_lifetimes_out() {
    let path = with_args(
        "Ref",
        vec![GenericArgument::Lifetime, ty("T"), GenericArgument::Lifetime, ty("U")],
    );
    let loaded = GenericPath::load(&path).unwrap();
    assert_eq!(loaded.generics(), &[named("T"), named("U")]);
}

#[test]
fn load_only_lifetimes_gives_no_arguments() {
    let loaded = GenericPath::load(&with_args("Ref", vec![GenericArgument::Lifetime])).unwrap();
    assert!(loaded.generics().is_empty());
}

#[test]
fn load_keeps_nested_arguments() {
    let inner = TypeExpr::Path(with_args("Box", vec![ty("Node")]));
    let loaded = GenericPath::load(&with_args("Option", vec![GenericArgument::Type(inner)]))
        .unwrap();
    let boxed = GenericPath::new(Path::new("Box".to_string()), vec![named("Node")]);
    assert_eq!(loaded.generics(), &[Type::Path(boxed)]);
}

#[test]
fn load_marker_type_drops_type_arguments() {
    let loaded = GenericPath::load(&with_args("PhantomData", vec![ty("T")])).unwrap();
    assert_eq!(loaded.name(), "PhantomData");
    assert_eq!(loaded.export_name(), "PhantomData");
    assert!(loaded.generics().is_empty());
}

#[test]
fn load_marker_type_accepts_what_is_an_error_elsewhere() {
    let with_const = with_args("PhantomData", vec![GenericArgument::Const("N".to_string())]);
    assert!(GenericPath::load(&with_const).unwrap().generics().is_empty());

    let with_binding =
        with_args("PhantomData", vec![GenericArgument::Binding("Item = u8".to_string())]);
    assert!(GenericPath::load(&with_binding).unwrap().generics().is_empty());

    let with_tuple = with_args(
        "PhantomData",
        vec![GenericArgument::Type(TypeExpr::Tuple(vec![
            TypeExpr::Path(name("A")),
            TypeExpr::Path(name("B")),
        ]))],
    );
    assert!(GenericPath::load(&with_tuple).unwrap().generics().is_empty());

    let with_parentheses =
        PathExpr { segments: vec![segment("PhantomData", PathArguments::Parenthesized)] };
    assert!(GenericPath::load(&with_parentheses).unwrap().generics().is_empty());
}

#[test]
fn load_rejects_parentheses() {
    for base in ["Fn", "FnMut", "Foo", "Self", "T", "i32"] {
        let path = PathExpr { segments: vec![segment(base, PathArguments::Parenthesized)] };
        assert_eq!(GenericPath::load(&path), Err("Path contains parentheses.".to_string()));
    }
}

#[test]
fn load_rejects_const_argument() {
    let path = with_args("Array", vec![ty("T"), GenericArgument::Const("{ N + 1 }".to_string())]);
    assert_eq!(
        GenericPath::load(&path),
        Err("can't handle generic argument Const({ N + 1 })".to_string())
    );
}

#[test]
fn load_rejects_binding() {
    let path = with_args("Iterator", vec![GenericArgument::Binding("Item = u8".to_string())]);
    assert_eq!(
        GenericPath::load(&path),
        Err("can't handle generic argument Binding(Item = u8)".to_string())
    );
}

#[test]
fn load_reports_the_first_error() {
    let path = with_args(
        "Foo",
        vec![
            GenericArgument::Lifetime,
            GenericArgument::Const("1".to_string()),
            GenericArgument::Binding("Item = u8".to_string()),
            GenericArgument::Type(TypeExpr::Other),
        ],
    );
    assert_eq!(GenericPath::load(&path), Err("can't handle generic argument Const(1)".to_string()));

    let path = with_args(
        "Foo",
        vec![GenericArgument::Type(TypeExpr::Other), GenericArgument::Const("1".to_string())],
    );
    assert_eq!(GenericPath::load(&path), Err("Unsupported type.".to_string()));
}

#[test]
fn load_passes_a_nested_error_on_unchanged() {
    let call = PathExpr { segments: vec![segment("Fn", PathArguments::Parenthesized)] };
    let inner = TypeExpr::Path(with_args("Box", vec![GenericArgument::Type(TypeExpr::Path(call))]));
    let path = with_args("Option", vec![GenericArgument::Type(inner)]);
    assert_eq!(GenericPath::load(&path), Err("Path contains parentheses.".to_string()));

    let pair = TypeExpr::Tuple(vec![TypeExpr::Path(name("A")), TypeExpr::Path(name("B"))]);
    let path = with_args("Option", vec![GenericArgument::Type(pair)]);
    assert_eq!(GenericPath::load(&path), Err("Tuples are not supported types.".to_string()));
}

#[test]
fn type_load_named_and_primitive() {
    assert_eq!(Type::load(&TypeExpr::Path(name("Foo"))), Ok(named("Foo")));
    assert_eq!(
        Type::load(&TypeExpr::Path(name("u8"))),
        Ok(Type::Primitive(PrimitiveType::UInt8))
    );
    assert_eq!(
        Type::load(&TypeExpr::Path(with_args("u8", vec![GenericArgument::Lifetime]))),
        Ok(Type::Primitive(PrimitiveType::UInt8))
    );
}

#[test]
fn type_load_rejects_primitive_with_arguments() {
    assert_eq!(
        Type::load(&TypeExpr::Path(with_args("i32", vec![ty("T")]))),
        Err("Primitive has generics.".to_string())
    );
}

#[test]
fn type_load_pointers() {
    let foo = || Box::new(TypeExpr::Path(name("Foo")));
    assert_eq!(
        Type::load(&TypeExpr::Reference { mutable: false, elem: foo() }),
        Ok(Type::ConstPtr(Box::new(named("Foo"))))
    );
    assert_eq!(
        Type::load(&TypeExpr::Reference { mutable: true, elem: foo() }),
        Ok(Type::Ptr(Box::new(named("Foo"))))
    );
    assert_eq!(
        Type::load(&TypeExpr::Ptr { mutable: false, elem: foo() }),
        Ok(Type::ConstPtr(Box::new(named("Foo"))))
    );
    assert_eq!(
        Type::load(&TypeExpr::Ptr { mutable: true, elem: foo() }),
        Ok(Type::Ptr(Box::new(named("Foo"))))
    );
    assert_eq!(
        Type::load(&TypeExpr::Ptr { mutable: true, elem: Box::new(TypeExpr::Other) }),
        Err("Unsupported type.".to_string())
    );
}

#[test]
fn type_load_array() {
    let array = TypeExpr::Array {
        elem: Box::new(TypeExpr::Path(name("u16"))),
        len: Some("LEN".to_string()),
    };
    assert_eq!(
        Type::load(&array),
        Ok(Type::Array(Box::new(Type::Primitive(PrimitiveType::UInt16)), "LEN".to_string()))
    );

    let literal =
        TypeExpr::Array { elem: Box::new(TypeExpr::Path(name("Foo"))), len: Some("16".to_string()) };
    assert_eq!(Type::load(&literal), Ok(Type::Array(Box::new(named("Foo")), "16".to_string())));
}

#[test]
fn type_load_rejects_array_without_plain_length() {
    let array = TypeExpr::Array { elem: Box::new(TypeExpr::Path(name("u16"))), len: None };
    assert_eq!(Type::load(&array), Err("Unsupported type.".to_string()));

    let pair = TypeExpr::Tuple(vec![TypeExpr::Path(name("A")), TypeExpr::Path(name("B"))]);
    let array = TypeExpr::Array { elem: Box::new(pair), len: None };
    assert_eq!(Type::load(&array), Err("Tuples are not supported types.".to_string()));
}

#[test]
fn type_load_function_pointer() {
    let with_output = TypeExpr::BareFn {
        inputs: vec![TypeExpr::Path(name("Foo")), TypeExpr::Path(name("bool"))],
        output: Some(Box::new(TypeExpr::Path(name("Bar")))),
    };
    assert_eq!(
        Type::load(&with_output),
        Ok(Type::FuncPtr(
            Box::new(named("Bar")),
            vec![named("Foo"), Type::Primitive(PrimitiveType::Bool)]
        ))
    );

    let without_output = TypeExpr::BareFn { inputs: vec![], output: None };
    assert_eq!(
        Type::load(&without_output),
        Ok(Type::FuncPtr(Box::new(Type::Primitive(PrimitiveType::Void)), vec![]))
    );
}

#[test]
fn type_load_function_pointer_reports_inputs_first() {
    let pair = TypeExpr::Tuple(vec![TypeExpr::Path(name("A")), TypeExpr::Path(name("B"))]);
    let both_fail = TypeExpr::BareFn {
        inputs: vec![TypeExpr::Path(name("Foo")), pair],
        output: Some(Box::new(TypeExpr::Other)),
    };
    assert_eq!(Type::load(&both_fail), Err("Tuples are not supported types.".to_string()));

    let output_fails =
        TypeExpr::BareFn { inputs: vec![], output: Some(Box::new(TypeExpr::Other)) };
    assert_eq!(Type::load(&output_fails), Err("Unsupported type.".to_string()));
}

#[test]
fn type_load_unit_and_tuples() {
    assert_eq!(Type::load(&TypeExpr::Tuple(vec![])), Ok(Type::Primitive(PrimitiveType::Void)));
    assert_eq!(
        Type::load(&TypeExpr::Tuple(vec![TypeExpr::Path(name("A"))])),
        Err("Tuples are not supported types.".to_string())
    );
}

#[test]
fn type_load_rejects_other_expressions() {
    assert_eq!(Type::load(&TypeExpr::Other), Err("Unsupported type.".to_string()));
}

#[test]
fn primitive_names() {
    assert_eq!(PrimitiveType::maybe("c_void"), Some(PrimitiveType::Void));
    assert_eq!(PrimitiveType::maybe("bool"), Some(PrimitiveType::Bool));
    assert_eq!(PrimitiveType::maybe("char"), Some(PrimitiveType::Char));
    assert_eq!(PrimitiveType::maybe("i8"), Some(PrimitiveType::Int8));
    assert_eq!(PrimitiveType::maybe("i16"), Some(PrimitiveType::Int16));
    assert_eq!(PrimitiveType::maybe("i32"), Some(PrimitiveType::Int32));
    assert_eq!(PrimitiveType::maybe("i64"), Some(PrimitiveType::Int64));
    assert_eq!(PrimitiveType::maybe("isize"), Some(PrimitiveType::ISize));
    assert_eq!(PrimitiveType::maybe("u8"), Some(PrimitiveType::UInt8));
    assert_eq!(PrimitiveType::maybe("u16"), Some(PrimitiveType::UInt16));
    assert_eq!(PrimitiveType::maybe("u32"), Some(PrimitiveType::UInt32));
    assert_eq!(PrimitiveType::maybe("u64"), Some(PrimitiveType::UInt64));
    assert_eq!(PrimitiveType::maybe("usize"), Some(PrimitiveType::USize));
    assert_eq!(PrimitiveType::maybe("f32"), Some(PrimitiveType::Float));
    assert_eq!(PrimitiveType::maybe("f64"), Some(PrimitiveType::Double));
    assert_eq!(PrimitiveType::maybe("Foo"), None);
    assert_eq!(PrimitiveType::maybe("I32"), None);
    assert_eq!(PrimitiveType::maybe(""), None);
}

#[test]
fn well_formed_paths_have_segments() {
    assert!(name("Foo").is_well_formed());
    assert!(with_args("Foo", vec![ty("T"), GenericArgument::Lifetime]).is_well_formed());
    assert!(!PathExpr { segments: vec![] }.is_well_formed());
}

#[test]
fn well_formed_looks_into_arguments() {
    let empty = || TypeExpr::Path(PathExpr { segments: vec![] });
    assert!(!with_args("Foo", vec![ty("T"), GenericArgument::Type(empty())]).is_well_formed());
    assert!(!TypeExpr::Reference { mutable: false, elem: Box::new(empty()) }.is_well_formed());
    assert!(!TypeExpr::Ptr { mutable: true, elem: Box::new(empty()) }.is_well_formed());
    assert!(!TypeExpr::Array { elem: Box::new(empty()), len: None }.is_well_formed());
    assert!(!TypeExpr::Tuple(vec![TypeExpr::Other, empty()]).is_well_formed());
    assert!(!TypeExpr::BareFn { inputs: vec![empty()], output: None }.is_well_formed());
    assert!(!TypeExpr::BareFn { inputs: vec![], output: Some(Box::new(empty())) }.is_well_formed());
    assert!(TypeExpr::BareFn { inputs: vec![TypeExpr::Other], output: None }.is_well_formed());
    let leading = PathExpr {
        segments: vec![
            segment("a", PathArguments::AngleBracketed(vec![GenericArgument::Type(empty())])),
            segment("B", PathArguments::Absent),
        ],
    };
    assert!(!leading.is_well_formed());
}
