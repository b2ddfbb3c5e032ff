use lib::basic;
use lib::{Block, CEnum, CFunction, CModule, CStruct, CType};

fn sample_function() -> CFunction {
    let mut f = CFunction::new("main", CType::Int)
        .arg(CType::Int, "argc")
        .arg(CType::Char.ptr().ptr(), "argv");
    f.body(|b| {
        b.declare(CType::Int, "i", "0");
        b.switch_stmt("i", |s| {
            s.case("0");
            s.ret("1");
            s.default_case();
            s.break_stmt();
        });
        b.ret("0");
    });
    f
}

fn function_only(body: impl FnOnce(&mut Block)) -> String {
    let mut f = CFunction::new("f", CType::Void);
    f.body(body);
    let mut m = CModule::new();
    m.add_function(f);
    m.generate()
}

#[test]
fn ctype_renders_basic_types() {
    assert_eq!(CType::Int.render(), "int");
    assert_eq!(CType::UnsignedInt.render(), "unsigned int");
    assert_eq!(CType::Long.render(), "long");
    assert_eq!(CType::UnsignedLong.render(), "unsigned long");
    assert_eq!(CType::Char.render(), "char");
    assert_eq!(CType::Float.render(), "float");
    assert_eq!(CType::Double.render(), "double");
    assert_eq!(CType::Void.render(), "void");
    assert_eq!(CType::Struct("point".to_string()).render(), "struct point");
    assert_eq!(CType::Enum("color".to_string()).render(), "enum color");
    assert_eq!(CType::Custom("size_t".to_string()).render(), "size_t");
}

#[test]
fn ctype_pointer_and_const_text() {
    assert_eq!(CType::Int.ptr().render(), "int*");
    assert_eq!(CType::Char.to_const().render(), "const char");
    assert_eq!(CType::Char.to_const().ptr().render(), "const char*");
    assert_eq!(CType::Void.ptr().ptr().render(), "void**");
    assert_eq!(CType::Int.ptr(), CType::Ptr(Box::new(CType::Int)));
    assert_eq!(CType::Int.to_const(), CType::Const(Box::new(CType::Int)));
}

#[test]
fn ctype_array_renders_element_type() {
    let arr = CType::Array(Box::new(CType::Double), 4);
    assert_eq!(arr.render(), "double");
    assert_eq!(arr.clone(), arr);
}

#[test]
fn empty_module_generates_nothing() {
    assert_eq!(CModule::new().generate(), "");
    assert_eq!(CModule::default().generate(), "");
}

#[test]
fn full_module_generation() {
    let mut m = CModule::new();
    m.include_sys("stdio.h").include_local("util.h");
    m.define_macro("MAX", Some(vec!["a", "b"]), "((a) > (b) ? (a) : (b))");
    m.define_macro("N", None, "10");
    m.add_enum(CEnum {
        name: "color".to_string(),
        variants: vec![
            ("RED".to_string(), None),
            ("GREEN".to_string(), Some(5)),
            ("BLUE".to_string(), Some(-1)),
        ],
        is_typedef: false,
    });
    m.add_struct(CStruct {
        name: "point".to_string(),
        fields: vec![
            (CType::Int, "x".to_string()),
            (CType::Array(Box::new(CType::Char), 8), "tag".to_string()),
        ],
        is_typedef: true,
    });
    m.add_function(sample_function());
    let expected = [
        "#include <stdio.h>",
        "#include \"util.h\"",
        "",
        "#define MAX(a, b) ((a) > (b) ? (a) : (b))",
        "#define N 10",
        "",
        "enum color {",
        "    RED,",
        "    GREEN = 5,",
        "    BLUE = -1",
        "};",
        "",
        "typedef struct {",
        "    int x;",
        "    char tag[8];",
        "} point;",
        "",
        "int main(int argc, char** argv) {",
        "    int i = 0;",
        "    switch (i) {",
        "        case 0:",
        "        return 1;",
        "        default:",
        "        break;",
        "    }",
        "    return 0;",
        "}",
        "",
        "",
    ]
    .join("\n");
    assert_eq!(m.generate(), expected);
}

#[test]
fn typedef_enum_and_plain_struct() {
    let mut m = CModule::new();
    m.add_enum(CEnum {
        name: "mode".to_string(),
        variants: vec![("A".to_string(), Some(0)), ("B".to_string(), None)],
        is_typedef: true,
    });
    m.add_struct(CStruct {
        name: "pair".to_string(),
        fields: vec![(CType::Long, "a".to_string()), (CType::Long, "b".to_string())],
        is_typedef: false,
    });
    assert_eq!(
        m.generate(),
        "typedef enum {\n    A = 0,\n    B\n} mode;\n\nstruct pair {\n    long a;\n    long b;\n};\n\n"
    );
}

#[test]
fn enum_value_extremes() {
    let mut m = CModule::new();
    m.add_enum(CEnum {
        name: "lim".to_string(),
        variants: vec![
            ("LO".to_string(), Some(i64::MIN)),
            ("HI".to_string(), Some(i64::MAX)),
        ],
        is_typedef: false,
    });
    assert_eq!(
        m.generate(),
        "enum lim {\n    LO = -9223372036854775808,\n    HI = 9223372036854775807\n};\n\n"
    );
}

#[test]
fn enum_values_in_decimal() {
    let mut m = CModule::new();
    m.add_enum(CEnum {
        name: "n".to_string(),
        variants: vec![
            ("Z".to_string(), Some(0)),
            ("T".to_string(), Some(10)),
            ("B".to_string(), Some(1234567890)),
            ("M".to_string(), Some(-100)),
        ],
        is_typedef: false,
    });
    assert_eq!(
        m.generate(),
        "enum n {\n    Z = 0,\n    T = 10,\n    B = 1234567890,\n    M = -100\n};\n\n"
    );
}

#[test]
fn array_lengths_in_decimal() {
    let out = function_only(|b| {
        b.declare(CType::Array(Box::new(CType::Int), 0), "a", "{}")
            .declare(CType::Array(Box::new(CType::Int), 100), "b", "{0}");
    });
    assert_eq!(out, "void f() {\n    int a[0] = {};\n    int b[100] = {0};\n}\n\n");
}

#[test]
fn array_of_arrays_keeps_every_dimension() {
    let matrix = || CType::Array(Box::new(CType::Array(Box::new(CType::Int), 2)), 3);
    assert_eq!(matrix().render(), "int");
    let out = function_only(|b| {
        b.declare(matrix(), "m", "{0}");
    });
    assert_eq!(out, "void f() {\n    int m[3][2] = {0};\n}\n\n");

    let mut m = CModule::new();
    m.add_struct(CStruct {
        name: "grid".to_string(),
        fields: vec![(
            CType::Array(Box::new(CType::Array(Box::new(CType::Array(Box::new(CType::Char), 4)), 3)), 2),
            "cells".to_string(),
        )],
        is_typedef: false,
    });
    m.add_function(CFunction::new("trace", CType::Int).arg(matrix(), "m"));
    assert_eq!(
        m.generate(),
        "struct grid {\n    char cells[2][3][4];\n};\n\nint trace(int m[3][2]) {\n}\n\n"
    );
}

#[test]
fn empty_enum_and_struct_bodies() {
    let mut m = CModule::new();
    m.add_enum(CEnum { name: "e".to_string(), variants: vec![], is_typedef: false });
    m.add_struct(CStruct { name: "s".to_string(), fields: vec![], is_typedef: false });
    assert_eq!(m.generate(), "enum e {\n\n};\n\nstruct s {\n\n};\n\n");
}

#[test]
fn macro_with_empty_argument_list() {
    let mut m = CModule::new();
    m.define_macro("NOW", Some(vec![]), "time(0)");
    assert_eq!(m.generate(), "#define NOW() time(0)\n\n");
}

#[test]
fn block_statements() {
    let out = function_only(|b| {
        b.declare(CType::Int, "x", "1")
            .declare(CType::Array(Box::new(CType::Char), 16), "buf", "{0}")
            .assign("x", "x + 1")
            .call("printf", &["\"%d\\n\"", "x"])
            .call("abort", &[])
            .raw("/* raw */")
            .ret("x");
    });
    assert_eq!(
        out,
        "void f() {\n    int x = 1;\n    char buf[16] = {0};\n    x = x + 1;\n    printf(\"%d\\n\", x);\n    abort();\n    /* raw */\n    return x;\n}\n\n"
    );
}

#[test]
fn nested_control_statements() {
    let out = function_only(|b| {
        b.for_loop("int i = 0", "i < 3", "i++", |l| {
            l.if_stmt("i == 1", |t| {
                t.break_stmt();
            });
        });
        b.while_loop("1", |w| {
            w.call("tick", &[]);
        });
    });
    assert_eq!(
        out,
        "void f() {\n    for (int i = 0; i < 3; i++) {\n        if (i == 1) {\n            break;\n        }\n    }\n    while (1) {\n        tick();\n    }\n}\n\n"
    );
}

#[test]
fn nested_block_with_empty_body() {
    let out = function_only(|b| {
        b.if_stmt("x", |_| {});
    });
    assert_eq!(out, "void f() {\n    if (x) {\n    }\n}\n\n");
}

#[test]
fn top_level_labels_are_not_indented() {
    let out = function_only(|b| {
        b.case("1").raw("x = 1;").default_case().raw("cases();");
    });
    assert_eq!(out, "void f() {\ncase 1:\n    x = 1;\ndefault:\n    cases();\n}\n\n");
}

#[test]
fn function_parameters_with_array() {
    let f = CFunction::new("sum", CType::Long)
        .arg(CType::Array(Box::new(CType::Int), 10), "xs")
        .arg(CType::UnsignedInt, "n");
    let mut m = CModule::new();
    m.add_function(f);
    assert_eq!(m.generate(), "long sum(int xs[10], unsigned int n) {\n}\n\n");
}

#[test]
fn body_called_twice_appends() {
    let mut f = CFunction::new("g", CType::Void);
    f.body(|b| {
        b.raw("a();");
    })
    .body(|b| {
        b.raw("b();");
    });
    let mut m = CModule::new();
    m.add_function(f);
    assert_eq!(m.generate(), "void g() {\n    a();\n    b();\n}\n\n");
}

#[test]
fn adding_function_appends_its_text() {
    let mut m = CModule::new();
    m.include_sys("stdio.h");
    m.add_struct(CStruct { name: "s".to_string(), fields: vec![], is_typedef: false });
    let before = m.generate();
    m.add_function(CFunction::new("h", CType::Void));
    let after = m.generate();
    assert_eq!(after, format!("{}void h() {{\n}}\n\n", before));
}

#[test]
fn struct_goes_before_functions() {
    let mut m = CModule::new();
    m.add_function(CFunction::new("h", CType::Void));
    m.add_struct(CStruct {
        name: "s".to_string(),
        fields: vec![(CType::Int, "v".to_string())],
        is_typedef: false,
    });
    assert_eq!(m.generate(), "struct s {\n    int v;\n};\n\nvoid h() {\n}\n\n");
}

#[test]
fn enum_goes_after_earlier_enums_before_structs() {
    let mut m = CModule::new();
    m.add_struct(CStruct { name: "s".to_string(), fields: vec![], is_typedef: false });
    m.add_enum(CEnum { name: "a".to_string(), variants: vec![("X".to_string(), None)], is_typedef: false });
    m.add_enum(CEnum { name: "b".to_string(), variants: vec![("Y".to_string(), None)], is_typedef: false });
    assert_eq!(
        m.generate(),
        "enum a {\n    X\n};\n\nenum b {\n    Y\n};\n\nstruct s {\n\n};\n\n"
    );
}

#[test]
fn first_include_adds_line_and_blank_line() {
    let mut m = CModule::new();
    m.define_macro("N", None, "1");
    let before = m.generate();
    m.include_sys("math.h");
    assert_eq!(m.generate(), format!("#include <math.h>\n\n{}", before));
}

#[test]
fn sections_do_not_depend_on_insertion_order() {
    let mut a = CModule::new();
    a.add_function(CFunction::new("f", CType::Void));
    a.add_struct(CStruct { name: "s".to_string(), fields: vec![], is_typedef: true });
    a.add_enum(CEnum { name: "e".to_string(), variants: vec![], is_typedef: true });
    a.define_macro("M", None, "0");
    a.include_sys("stddef.h");

    let mut b = CModule::new();
    b.include_sys("stddef.h");
    b.define_macro("M", None, "0");
    b.add_enum(CEnum { name: "e".to_string(), variants: vec![], is_typedef: true });
    b.add_struct(CStruct { name: "s".to_string(), fields: vec![], is_typedef: true });
    b.add_function(CFunction::new("f", CType::Void));

    assert_eq!(a.generate(), b.generate());
}

#[test]
fn interleaving_across_kinds_keeps_order_within_kinds() {
    let s = |n: &str| CStruct { name: n.to_string(), fields: vec![], is_typedef: false };
    let mut a = CModule::new();
    a.add_function(CFunction::new("f1", CType::Void));
    a.add_struct(s("s1"));
    a.include_local("l1.h");
    a.add_function(CFunction::new("f2", CType::Void));
    a.include_sys("a1.h");
    a.add_struct(s("s2"));
    a.include_local("l2.h");

    let mut b = CModule::new();
    b.include_local("l1.h");
    b.include_local("l2.h");
    b.add_struct(s("s1"));
    b.include_sys("a1.h");
    b.add_struct(s("s2"));
    b.add_function(CFunction::new("f1", CType::Void));
    b.add_function(CFunction::new("f2", CType::Void));

    let expected = "#include <a1.h>\n#include \"l1.h\"\n#include \"l2.h\"\n\nstruct s1 {\n\n};\n\nstruct s2 {\n\n};\n\nvoid f1() {\n}\n\nvoid f2() {\n}\n\n";
    assert_eq!(a.generate(), expected);
    assert_eq!(b.generate(), expected);
}

#[test]
fn local_includes_follow_system_includes() {
    let mut m = CModule::new();
    m.include_local("a.h").include_sys("b.h");
    assert_eq!(m.generate(), "#include <b.h>\n#include \"a.h\"\n\n");
}

#[test]
fn block_default_is_empty() {
    let mut f = CFunction::new("z", CType::Void);
    f.body(|b| {
        assert_eq!(format!("{:?}", Block::default()), "Block { lines: [] }");
        assert_eq!(format!("{:?}", Block::new()), "Block { lines: [] }");
        b.raw("x;");
    });
    let mut m = CModule::new();
    m.add_function(f);
    assert_eq!(m.generate(), "void z() {\n    x;\n}\n\n");
}

#[test]
fn basic_module_generation() {
    let mut m = basic::CModule::new();
    m.include_sys("stdlib.h");
    m.add_raw_definition("typedef int myint;");
    let mut f = basic::CFunction::new("add", basic::CType::Int)
        .arg(basic::CType::Int, "a")
        .arg(basic::CType::Const(Box::new(basic::CType::Int)), "b");
    f.declare(basic::CType::Int, "s", "a + b")
        .assign("s", "s * 2")
        .call("log_value", &["s"])
        .raw("/* done */")
        .ret("s");
    m.add_function(f);
    assert_eq!(
        m.generate(),
        "#include <stdlib.h>\n\ntypedef int myint;\n\nint add(int a, const int b) {\n    int s = a + b;\n    s = s * 2;\n    log_value(s);\n    /* done */\n    return s;\n}\n\n"
    );
}

#[test]
fn basic_types_render() {
    assert_eq!(basic::CType::UnsignedInt.render(), "unsigned int");
    assert_eq!(basic::CType::Float.render(), "float");
    assert_eq!(basic::CType::Double.render(), "double");
    assert_eq!(basic::CType::Void.render(), "void");
    assert_eq!(
        basic::CType::Ptr(Box::new(basic::CType::Const(Box::new(basic::CType::Char)))).render(),
        "const char*"
    );
    assert_eq!(basic::CType::Custom("FILE".to_string()).render(), "FILE");
}

#[test]
fn basic_empty_module_generates_nothing() {
    assert_eq!(basic::CModule::new().generate(), "");
    assert_eq!(basic::CModule::default().generate(), "");
}

#[test]
fn basic_labels_are_indented() {
    let mut f = basic::CFunction::new("f", basic::CType::Void);
    f.raw("case 1:");
    let mut m = basic::CModule::new();
    m.add_function(f);
    assert_eq!(m.generate(), "void f() {\n    case 1:\n}\n\n");
}

#[test]
fn basic_adding_function_appends_its_text() {
    let mut m = basic::CModule::new();
    m.include_local("x.h");
    m.add_raw_definition("struct a { int b; };");
    let before = m.generate();
    m.add_function(basic::CFunction::new("g", basic::CType::Char).arg(basic::CType::Int, "n"));
    assert_eq!(m.generate(), format!("{}char g(int n) {{\n}}\n\n", before));
}

#[test]
fn basic_definition_goes_before_functions() {
    let mut m = basic::CModule::new();
    m.add_function(basic::CFunction::new("g", basic::CType::Void));
    m.add_raw_definition("typedef char byte;");
    m.add_raw_definition("typedef short half;");
    assert_eq!(
        m.generate(),
        "typedef char byte;\n\ntypedef short half;\n\nvoid g() {\n}\n\n"
    );
}
