//! Properties of the generated text that hold across operations.
use vstd::prelude::*;
use crate::basic::{self, UnitView};
use crate::block::{case_line, indent_line, nested};
use crate::ctype::{ctype_text, declarator_text, dims_text, CType};
use crate::text::{concat, decimal_text, decimal_value, digit_char, digit_value, lemma_concat_push};
use crate::unit::{
    body_line, declarations_text, enum_text, enum_texts, function_text, function_texts,
    includes_text, macros_text, module_text, struct_text, struct_texts, sys_include_line,
    sys_include_lines, apply_steps, functions_of, enums_of, local_includes_of, macros_of,
    same_calls_per_kind, structs_of, sys_includes_of, BuildStep, EnumView, FunctionView,
    ModuleView, StructView,
};

verus! {

/// A pointer type is written as its pointee followed by `*`.
pub proof fn law_pointer_text(t: CType)
    ensures
        ctype_text(CType::Ptr(Box::new(t))) == ctype_text(t) + "*"@,
{
}

/// A `const` type is written as `const ` followed by the qualified type.
pub proof fn law_const_text(t: CType)
    ensures
        ctype_text(CType::Const(Box::new(t))) == "const "@ + ctype_text(t),
{
}

/// An array type is written as its element type; its length appears in
/// brackets right after the declared name, ahead of the element's own
/// dimensions, so an array of arrays keeps every dimension.
pub proof fn law_array_declarator(inner: CType, size: usize, name: Seq<char>)
    ensures
        ctype_text(CType::Array(Box::new(inner), size)) == ctype_text(inner),
        declarator_text(CType::Array(Box::new(inner), size), name) == ctype_text(inner) + " "@
            + name + "["@ + decimal_text(size as nat) + "]"@ + dims_text(inner),
        declarator_text(CType::Array(Box::new(inner), size), name) == declarator_text(
            inner,
            name + "["@ + decimal_text(size as nat) + "]"@,
        ),
{
    let t = CType::Array(Box::new(inner), size);
    assert(declarator_text(t, name) =~= ctype_text(inner) + " "@ + name + "["@ + decimal_text(
        size as nat,
    ) + "]"@ + dims_text(inner));
    assert(declarator_text(t, name) =~= declarator_text(
        inner,
        name + "["@ + decimal_text(size as nat) + "]"@,
    ));
}

/// Integers are written in decimal: the digits denote the number, and
/// there is no leading zero.
pub proof fn law_decimal_notation(n: nat)
    ensures
        decimal_value(decimal_text(n)) == n,
        decimal_text(n).len() >= 1,
        n > 0 ==> decimal_text(n)[0] != '0',
    decreases n,
{
    if n >= 10 {
        law_decimal_notation(n / 10);
        let d = decimal_text(n);
        assert(d.drop_last() =~= decimal_text(n / 10));
        assert(n == (n / 10) * 10 + n % 10) by (nonlinear_arith);
        assert(d.last() == digit_char(n % 10));
        assert(digit_value(digit_char(n % 10)) == n % 10);
        assert(decimal_value(d) == decimal_value(decimal_text(n / 10)) * 10 + digit_value(d.last()));
        assert(d[0] == decimal_text(n / 10)[0]);
        assert(decimal_value(d) == n);
    } else {
        assert(decimal_text(n).drop_last() =~= Seq::<char>::empty());
        assert(digit_value(digit_char(n)) == n);
        assert(decimal_value(Seq::<char>::empty()) == 0);
        assert(decimal_value(decimal_text(n)) == n);
    }
}

/// An empty compilation unit serializes to the empty text.
pub proof fn law_empty_module_text()
    ensures
        module_text(ModuleView::empty()) == Seq::<char>::empty(),
{
    assert(module_text(ModuleView::empty()) =~= Seq::<char>::empty());
}

/// Adding a function appends exactly that function's text to the output.
pub proof fn law_function_appends(m: ModuleView, f: FunctionView)
    ensures
        module_text(m.with_function(f)) == module_text(m) + function_text(f),
{
    assert(function_texts(m.functions.push(f)) =~= function_texts(m.functions).push(
        function_text(f),
    ));
    lemma_concat_push(function_texts(m.functions), function_text(f));
    assert(module_text(m.with_function(f)) =~= module_text(m) + function_text(f));
}

/// Adding a struct places its text after every other declaration and
/// before the functions.
pub proof fn law_struct_placement(m: ModuleView, s: StructView)
    ensures
        module_text(m.with_struct(s)) == declarations_text(m) + struct_text(s) + concat(
            function_texts(m.functions),
        ),
{
    assert(struct_texts(m.structs.push(s)) =~= struct_texts(m.structs).push(struct_text(s)));
    lemma_concat_push(struct_texts(m.structs), struct_text(s));
    assert(module_text(m.with_struct(s)) =~= declarations_text(m) + struct_text(s) + concat(
        function_texts(m.functions),
    ));
}

/// Adding an enum places its text after the earlier enums and before the
/// structs and functions.
pub proof fn law_enum_placement(m: ModuleView, e: EnumView)
    ensures
        module_text(m.with_enum(e)) == includes_text(m) + macros_text(m) + concat(
            enum_texts(m.enums),
        ) + enum_text(e) + concat(struct_texts(m.structs)) + concat(function_texts(m.functions)),
{
    assert(enum_texts(m.enums.push(e)) =~= enum_texts(m.enums).push(enum_text(e)));
    lemma_concat_push(enum_texts(m.enums), enum_text(e));
    assert(module_text(m.with_enum(e)) =~= includes_text(m) + macros_text(m) + concat(
        enum_texts(m.enums),
    ) + enum_text(e) + concat(struct_texts(m.structs)) + concat(function_texts(m.functions)));
}

/// The first include of a unit adds its line and a blank line in front of
/// everything else.
pub proof fn law_first_include(m: ModuleView, h: Seq<char>)
    requires
        m.sys_includes.len() == 0,
        m.local_includes.len() == 0,
    ensures
        module_text(m.with_sys_include(h)) == sys_include_line(h) + "\n"@ + module_text(m),
{
    assert(m.sys_includes.push(h) =~= Seq::<Seq<char>>::empty().push(h));
    assert(sys_include_lines(m.sys_includes.push(h)) =~= sys_include_lines(
        m.sys_includes,
    ).push(sys_include_line(h)));
    lemma_concat_push(sys_include_lines(m.sys_includes), sys_include_line(h));
    assert(sys_include_lines(m.sys_includes) =~= Seq::<Seq<char>>::empty());
    assert(module_text(m.with_sys_include(h)) =~= sys_include_line(h) + "\n"@ + module_text(m));
}

/// After any sequence of builder calls, each section of the unit holds
/// exactly the calls of its own kind, in the order they were made.
pub proof fn lemma_apply_steps_sections(m: ModuleView, steps: Seq<BuildStep>)
    ensures
        apply_steps(m, steps) == (ModuleView {
            sys_includes: m.sys_includes + sys_includes_of(steps),
            local_includes: m.local_includes + local_includes_of(steps),
            macros: m.macros + macros_of(steps),
            enums: m.enums + enums_of(steps),
            structs: m.structs + structs_of(steps),
            functions: m.functions + functions_of(steps),
        }),
    decreases steps.len(),
{
    if steps.len() == 0 {
        assert(apply_steps(m, steps) =~= (ModuleView {
            sys_includes: m.sys_includes + sys_includes_of(steps),
            local_includes: m.local_includes + local_includes_of(steps),
            macros: m.macros + macros_of(steps),
            enums: m.enums + enums_of(steps),
            structs: m.structs + structs_of(steps),
            functions: m.functions + functions_of(steps),
        }));
    } else {
        lemma_apply_steps_sections(m, steps.drop_last());
        let d = steps.drop_last();
        match steps.last() {
            BuildStep::SysInclude(h) => {
                assert((m.sys_includes + sys_includes_of(d)).push(h) =~= m.sys_includes
                    + sys_includes_of(d).push(h));
            },
            BuildStep::LocalInclude(h) => {
                assert((m.local_includes + local_includes_of(d)).push(h) =~= m.local_includes
                    + local_includes_of(d).push(h));
            },
            BuildStep::Macro(x) => {
                assert((m.macros + macros_of(d)).push(x) =~= m.macros + macros_of(d).push(x));
            },
            BuildStep::Enum(x) => {
                assert((m.enums + enums_of(d)).push(x) =~= m.enums + enums_of(d).push(x));
            },
            BuildStep::Struct(x) => {
                assert((m.structs + structs_of(d)).push(x) =~= m.structs + structs_of(d).push(x));
            },
            BuildStep::Function(x) => {
                assert((m.functions + functions_of(d)).push(x) =~= m.functions + functions_of(
                    d,
                ).push(x));
            },
        }
        assert(apply_steps(m, steps) =~= (ModuleView {
            sys_includes: m.sys_includes + sys_includes_of(steps),
            local_includes: m.local_includes + local_includes_of(steps),
            macros: m.macros + macros_of(steps),
            enums: m.enums + enums_of(steps),
            structs: m.structs + structs_of(steps),
            functions: m.functions + functions_of(steps),
        }));
    }
}

/// Items of different kinds land in their own sections: the text of a unit
/// built from an empty one depends only on the calls of each kind, in their
/// own order, however the calls of different kinds are interleaved. It is
/// the system includes, the local includes (and a blank line if there is
/// any include), the macros (and a blank line if there is any), the enums,
/// the structs and the functions.
pub proof fn law_sections_independent(a: Seq<BuildStep>, b: Seq<BuildStep>)
    requires
        same_calls_per_kind(a, b),
    ensures
        module_text(apply_steps(ModuleView::empty(), a)) == module_text(
            apply_steps(ModuleView::empty(), b),
        ),
        module_text(apply_steps(ModuleView::empty(), a)) == module_text(
            ModuleView {
                sys_includes: sys_includes_of(a),
                local_includes: local_includes_of(a),
                macros: macros_of(a),
                enums: enums_of(a),
                structs: structs_of(a),
                functions: functions_of(a),
            },
        ),
{
    let e = ModuleView::empty();
    lemma_apply_steps_sections(e, a);
    lemma_apply_steps_sections(e, b);
    let by_kind = ModuleView {
        sys_includes: sys_includes_of(a),
        local_includes: local_includes_of(a),
        macros: macros_of(a),
        enums: enums_of(a),
        structs: structs_of(a),
        functions: functions_of(a),
    };
    assert(apply_steps(e, a) =~= by_kind);
    assert(apply_steps(e, b) =~= by_kind);
}

/// A nested statement consists of its header, every inner line indented by
/// four spaces in order, and a closing brace.
pub proof fn law_nested_shape(header: Seq<char>, inner: Seq<Seq<char>>)
    ensures
        nested(header, inner).len() == inner.len() + 2,
        nested(header, inner)[0] == header,
        nested(header, inner).last() == "}"@,
        forall|i: int|
            0 <= i < inner.len() ==> #[trigger] nested(header, inner)[i + 1] == indent_line(
                inner[i],
            ),
{
}

/// In a function body, a `case` label is written without the body's
/// indentation, while an ordinary statement is indented by four spaces.
pub proof fn law_case_labels_unindented(label: Seq<char>, stmt: Seq<char>)
    requires
        !"case "@.is_prefix_of(stmt),
        !"default:"@.is_prefix_of(stmt),
    ensures
        body_line(case_line(label)) == case_line(label) + "\n"@,
        body_line(stmt) == "    "@ + stmt + "\n"@,
{
    assert("case "@ =~= case_line(label).subrange(0, "case "@.len() as int));
}

/// An empty compact unit serializes to the empty text.
pub proof fn law_empty_unit_text()
    ensures
        basic::unit_text(UnitView::empty()) == Seq::<char>::empty(),
{
    assert(basic::unit_text(UnitView::empty()) =~= Seq::<char>::empty());
}

/// In a compact unit, adding a function appends exactly its text.
pub proof fn law_unit_function_appends(m: UnitView, f: basic::FunctionView)
    ensures
        basic::unit_text(m.with_function(f)) == basic::unit_text(m) + basic::function_text(f),
{
    assert(basic::function_texts(m.functions.push(f)) =~= basic::function_texts(
        m.functions,
    ).push(basic::function_text(f)));
    lemma_concat_push(basic::function_texts(m.functions), basic::function_text(f));
    assert(basic::unit_text(m.with_function(f)) =~= basic::unit_text(m) + basic::function_text(
        f,
    ));
}

/// In a compact unit, a raw definition is written verbatim, followed by a
/// blank line, after the earlier definitions and before the functions.
pub proof fn law_unit_definition_placement(m: UnitView, d: Seq<char>)
    ensures
        basic::unit_text(m.with_definition(d)) == basic::includes_text(m) + concat(
            basic::definition_texts(m.definitions),
        ) + d + "\n\n"@ + concat(basic::function_texts(m.functions)),
{
    assert(basic::definition_texts(m.definitions.push(d)) =~= basic::definition_texts(
        m.definitions,
    ).push(basic::definition_text(d)));
    lemma_concat_push(basic::definition_texts(m.definitions), basic::definition_text(d));
    assert(basic::unit_text(m.with_definition(d)) =~= basic::includes_text(m) + concat(
        basic::definition_texts(m.definitions),
    ) + d + "\n\n"@ + concat(basic::function_texts(m.functions)));
}

} // verus!
