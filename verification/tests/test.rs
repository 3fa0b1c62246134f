use enum_struct::ast::{Attr, Binding, EnumDef, FieldDef, NamedField, Shape, UnnamedField, VariantDef};
use enum_struct::semantics::{DataValue, EnumValue, FieldValue, Payload, read_field, take_field, write_field};
use enum_struct::transform::{fields, Transformed};

fn field(name: &str, ty: &str) -> FieldDef {
    FieldDef { name: name.to_string(), ty: ty.to_string(), attrs: Vec::new() }
}

fn field_with(name: &str, ty: &str, attrs: Vec<Attr>) -> FieldDef {
    FieldDef { name: name.to_string(), ty: ty.to_string(), attrs }
}

fn named_field(name: &str, ty: &str) -> NamedField {
    NamedField { name: name.to_string(), ty: ty.to_string(), attrs: Vec::new() }
}

fn named_field_attrs(name: &str, ty: &str, attrs: Vec<Attr>) -> NamedField {
    NamedField { name: name.to_string(), ty: ty.to_string(), attrs }
}

fn unnamed(ty: &str) -> UnnamedField {
    UnnamedField { ty: ty.to_string(), attrs: Vec::new() }
}

fn unnamed_attrs(ty: &str, attrs: Vec<Attr>) -> UnnamedField {
    UnnamedField { ty: ty.to_string(), attrs }
}

fn variant(name: &str, shape: Shape) -> VariantDef {
    VariantDef { name: name.to_string(), attrs: Vec::new(), shape }
}

fn decl(name: &str, generics: &str, variants: Vec<VariantDef>) -> EnumDef {
    EnumDef {
        attrs: Vec::new(),
        vis: "pub".to_string(),
        name: name.to_string(),
        generics: generics.to_string(),
        variants,
    }
}

fn num(name: &str, n: i64) -> FieldValue {
    FieldValue { name: name.to_string(), value: Payload::Num(n) }
}

fn ch(name: &str, c: char) -> FieldValue {
    FieldValue { name: name.to_string(), value: Payload::Ch(c) }
}

/// The declaration the accessor tests work on: `Foo<T: Copy>` with a named,
/// a generic named, a positional and a no-data variant, rewritten to carry
/// the fields `x: i32` (with a documentation annotation) and `t: T`.
fn foo_transformed() -> Transformed {
    let d = decl(
        "Foo",
        "<T: Copy>",
        vec![
            variant("Record", Shape::Named(vec![named_field("y", "i32")])),
            variant(
                "RecordHasGeneric",
                Shape::Named(vec![named_field("y", "i32"), named_field("z", "T")]),
            ),
            variant("Tuple", Shape::Positional(vec![unnamed("i32"), unnamed("i8")])),
            variant("Unit", Shape::Unit),
        ],
    );
    let requested = vec![
        field_with("x", "i32", vec![Attr::Doc(" some docs".to_string())]),
        field("t", "T"),
    ];
    fields(d, &requested)
}

#[test]
fn test_simple() {
    let t = foo_transformed();
    let foo = EnumValue {
        variant_index: 0,
        data: DataValue::Named(vec![num("x", 2), ch("t", 'm'), num("y", 4)]),
    };
    assert_eq!(read_field(&t.accessors[0], &foo), Some(Payload::Num(2)));
    assert_eq!(read_field(&t.accessors[1], &foo), Some(Payload::Ch('m')));
}

#[test]
fn test_simple_generic() {
    let t = foo_transformed();
    let foo = EnumValue {
        variant_index: 1,
        data: DataValue::Named(vec![num("x", 2), ch("t", 'm'), num("y", 4), ch("z", 'o')]),
    };
    assert_eq!(read_field(&t.accessors[0], &foo), Some(Payload::Num(2)));
    assert_eq!(read_field(&t.accessors[1], &foo), Some(Payload::Ch('m')));
}

#[test]
fn test_unit() {
    let t = foo_transformed();
    let foo = EnumValue {
        variant_index: 3,
        data: DataValue::Named(vec![num("x", 3), ch("t", 'm')]),
    };
    assert_eq!(read_field(&t.accessors[0], &foo), Some(Payload::Num(3)));
    assert_eq!(read_field(&t.accessors[1], &foo), Some(Payload::Ch('m')));
}

#[test]
fn test_tuple() {
    let t = foo_transformed();
    let foo = EnumValue {
        variant_index: 2,
        data: DataValue::Positional(vec![
            Payload::Num(4),
            Payload::Ch('m'),
            Payload::Num(2),
            Payload::Num(5),
        ]),
    };
    assert_eq!(read_field(&t.accessors[0], &foo), Some(Payload::Num(4)));
    assert_eq!(read_field(&t.accessors[1], &foo), Some(Payload::Ch('m')));
}

#[test]
fn test_normalized_shapes() {
    let t = foo_transformed();
    assert_eq!(t.decl.name, "Foo");
    assert_eq!(t.decl.vis, "pub");
    assert_eq!(t.decl.generics, "<T: Copy>");
    assert_eq!(t.decl.variants.len(), 4);
    assert_eq!(
        t.decl.variants[0].shape,
        Shape::Named(vec![
            named_field_attrs("x", "i32", vec![Attr::Doc(" some docs".to_string())]),
            named_field("t", "T"),
            named_field("y", "i32"),
        ])
    );
    assert_eq!(
        t.decl.variants[2].shape,
        Shape::Positional(vec![
            unnamed_attrs("i32", vec![Attr::Doc(" some docs".to_string())]),
            unnamed("T"),
            unnamed("i32"),
            unnamed("i8"),
        ])
    );
    assert_eq!(
        t.decl.variants[3].shape,
        Shape::Named(vec![
            named_field_attrs("x", "i32", vec![Attr::Doc(" some docs".to_string())]),
            named_field("t", "T"),
        ])
    );
}

#[test]
fn test_accessor_names_and_arms() {
    let t = foo_transformed();
    assert_eq!(t.accessors.len(), 2);
    let x = &t.accessors[0];
    assert_eq!(x.field_name, "x");
    assert_eq!(x.borrow_name, "x");
    assert_eq!(x.mut_name, "x_mut");
    assert_eq!(x.into_name, "into_x");
    assert_eq!(x.vis, "pub");
    assert_eq!(x.attrs, vec![Attr::Doc(" some docs".to_string())]);
    assert_eq!(x.arms.len(), 4);
    assert_eq!(x.arms[0].variant, "Record");
    assert_eq!(x.arms[0].binding, Binding::Named);
    assert_eq!(x.arms[2].variant, "Tuple");
    assert_eq!(x.arms[2].binding, Binding::Positional(0));
    let t_acc = &t.accessors[1];
    assert_eq!(t_acc.mut_name, "t_mut");
    assert_eq!(t_acc.into_name, "into_t");
    assert_eq!(t_acc.arms[2].binding, Binding::Positional(1));
    assert_eq!(t_acc.attrs, Vec::new());
}

#[test]
fn test_write_then_read() {
    let t = foo_transformed();
    let mut named = EnumValue {
        variant_index: 0,
        data: DataValue::Named(vec![num("x", 2), ch("t", 'm'), num("y", 4)]),
    };
    assert!(write_field(&t.accessors[0], &mut named, Payload::Num(8)));
    assert_eq!(read_field(&t.accessors[0], &named), Some(Payload::Num(8)));
    assert_eq!(
        named.data,
        DataValue::Named(vec![num("x", 8), ch("t", 'm'), num("y", 4)])
    );
    let mut tuple = EnumValue {
        variant_index: 2,
        data: DataValue::Positional(vec![
            Payload::Num(4),
            Payload::Ch('m'),
            Payload::Num(2),
            Payload::Num(5),
        ]),
    };
    assert!(write_field(&t.accessors[1], &mut tuple, Payload::Ch('q')));
    assert_eq!(read_field(&t.accessors[1], &tuple), Some(Payload::Ch('q')));
}

#[test]
fn test_into_agrees_with_borrow() {
    let t = foo_transformed();
    let foo = EnumValue {
        variant_index: 0,
        data: DataValue::Named(vec![num("x", 2), ch("t", 'm'), num("y", 4)]),
    };
    let borrowed = read_field(&t.accessors[0], &foo);
    let taken = take_field(&t.accessors[0], foo);
    assert_eq!(taken, borrowed);
    assert_eq!(taken, Some(Payload::Num(2)));
}

#[test]
fn test_zero_variants() {
    let d = decl("EmptyEnum", "", Vec::new());
    let requested = vec![field("x", "i32"), field("t", "()")];
    let t = fields(d, &requested);
    assert_eq!(t.decl.variants.len(), 0);
    assert_eq!(t.accessors.len(), 2);
    assert_eq!(t.accessors[0].borrow_name, "x");
    assert_eq!(t.accessors[0].mut_name, "x_mut");
    assert_eq!(t.accessors[0].into_name, "into_x");
    assert_eq!(t.accessors[0].arms.len(), 0);
    assert_eq!(t.accessors[1].arms.len(), 0);
}

#[test]
fn test_zero_fields_noop() {
    let d = decl(
        "Foo",
        "",
        vec![
            variant("Record", Shape::Named(vec![named_field("y", "i32")])),
            variant("Tuple", Shape::Positional(vec![unnamed("i32")])),
            variant("Unit", Shape::Unit),
        ],
    );
    let before = decl(
        "Foo",
        "",
        vec![
            variant("Record", Shape::Named(vec![named_field("y", "i32")])),
            variant("Tuple", Shape::Positional(vec![unnamed("i32")])),
            variant("Unit", Shape::Unit),
        ],
    );
    let t = fields(d, &Vec::new());
    assert_eq!(t.decl, before);
    assert_eq!(t.accessors.len(), 0);
}

#[test]
fn test_cfg_guard_propagates() {
    let d = decl(
        "HasCfg",
        "",
        vec![
            variant("A", Shape::Unit),
            variant("B", Shape::Positional(vec![unnamed("i8")])),
        ],
    );
    let guard = vec![Attr::Cfg("false".to_string())];
    let requested = vec![
        field("x", "i32"),
        field_with("y", "i32", guard.clone()),
    ];
    let t = fields(d, &requested);
    assert_eq!(t.accessors[1].attrs, guard);
    assert_eq!(
        t.decl.variants[0].shape,
        Shape::Named(vec![
            named_field("x", "i32"),
            named_field_attrs("y", "i32", guard.clone()),
        ])
    );
    assert_eq!(
        t.decl.variants[1].shape,
        Shape::Positional(vec![
            unnamed("i32"),
            unnamed_attrs("i32", guard.clone()),
            unnamed("i8"),
        ])
    );
}

#[test]
fn test_unsupported_attr_dropped() {
    let d = decl("Foo", "", vec![variant("Unit", Shape::Unit)]);
    let requested = vec![field_with(
        "x",
        "i32",
        vec![
            Attr::Other("derive(Debug)".to_string()),
            Attr::Doc(" kept".to_string()),
            Attr::Other("inline".to_string()),
        ],
    )];
    let t = fields(d, &requested);
    assert_eq!(t.accessors[0].attrs, vec![Attr::Doc(" kept".to_string())]);
}

#[test]
fn test_scenario_mixed_shapes() {
    let d = decl(
        "Foo",
        "",
        vec![
            variant("Record", Shape::Named(vec![named_field("y", "i32")])),
            variant("Tuple", Shape::Positional(vec![unnamed("i32"), unnamed("i8")])),
            variant("Unit", Shape::Unit),
        ],
    );
    let requested = vec![field("x", "i32"), field("t", "char")];
    let t = fields(d, &requested);
    let record = EnumValue {
        variant_index: 0,
        data: DataValue::Named(vec![num("x", 2), ch("t", 'm'), num("y", 4)]),
    };
    assert_eq!(read_field(&t.accessors[0], &record), Some(Payload::Num(2)));
    assert_eq!(read_field(&t.accessors[1], &record), Some(Payload::Ch('m')));
    let tuple = EnumValue {
        variant_index: 1,
        data: DataValue::Positional(vec![
            Payload::Num(4),
            Payload::Ch('m'),
            Payload::Num(2),
            Payload::Num(5),
        ]),
    };
    assert_eq!(read_field(&t.accessors[0], &tuple), Some(Payload::Num(4)));
    assert_eq!(read_field(&t.accessors[1], &tuple), Some(Payload::Ch('m')));
    let unit = EnumValue {
        variant_index: 2,
        data: DataValue::Named(vec![num("x", 3), ch("t", 'm')]),
    };
    assert_eq!(read_field(&t.accessors[0], &unit), Some(Payload::Num(3)));
}

#[test]
fn test_missing_field_not_found() {
    let t = foo_transformed();
    let odd = EnumValue {
        variant_index: 0,
        data: DataValue::Named(vec![num("y", 4)]),
    };
    assert_eq!(read_field(&t.accessors[0], &odd), None);
    let mut odd_mut = EnumValue {
        variant_index: 0,
        data: DataValue::Named(vec![num("y", 4)]),
    };
    assert!(!write_field(&t.accessors[0], &mut odd_mut, Payload::Num(9)));
    assert_eq!(odd_mut.data, DataValue::Named(vec![num("y", 4)]));
}

#[test]
fn test_out_of_range_variant_not_found() {
    let t = foo_transformed();
    let stray = EnumValue { variant_index: 9, data: DataValue::Unit };
    assert_eq!(read_field(&t.accessors[0], &stray), None);
    let mut stray_mut = EnumValue { variant_index: 9, data: DataValue::Unit };
    assert!(!write_field(&t.accessors[0], &mut stray_mut, Payload::Num(1)));
    assert_eq!(stray_mut, EnumValue { variant_index: 9, data: DataValue::Unit });
}

#[test]
fn test_variant_and_existing_annotations_preserved() {
    let d = EnumDef {
        attrs: vec!["#[derive(Debug)]".to_string()],
        vis: "pub".to_string(),
        name: "Keep".to_string(),
        generics: "".to_string(),
        variants: vec![
            VariantDef {
                name: "A".to_string(),
                attrs: vec![Attr::Doc(" a variant".to_string())],
                shape: Shape::Named(vec![named_field_attrs(
                    "y",
                    "i32",
                    vec![Attr::Cfg("test".to_string())],
                )]),
            },
            VariantDef {
                name: "B".to_string(),
                attrs: vec![Attr::Cfg("unix".to_string())],
                shape: Shape::Positional(vec![unnamed_attrs(
                    "i8",
                    vec![Attr::Doc(" slot".to_string())],
                )]),
            },
        ],
    };
    let t = fields(d, &vec![field("x", "i32")]);
    assert_eq!(t.decl.attrs, vec!["#[derive(Debug)]".to_string()]);
    assert_eq!(t.decl.variants[0].attrs, vec![Attr::Doc(" a variant".to_string())]);
    assert_eq!(t.decl.variants[1].attrs, vec![Attr::Cfg("unix".to_string())]);
    assert_eq!(
        t.decl.variants[0].shape,
        Shape::Named(vec![
            named_field("x", "i32"),
            named_field_attrs("y", "i32", vec![Attr::Cfg("test".to_string())]),
        ])
    );
    assert_eq!(
        t.decl.variants[1].shape,
        Shape::Positional(vec![
            unnamed("i32"),
            unnamed_attrs("i8", vec![Attr::Doc(" slot".to_string())]),
        ])
    );
}
