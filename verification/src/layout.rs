//! The layout of the generated text, stated item by item: every header,
//! macro, enum variant, struct field, parameter, argument and body line
//! that was added appears, in order, in the form given here.
use vstd::prelude::*;
use crate::basic;
use crate::block::{
    assign_line, call_line, case_line, declare_line, for_header, if_header, indent_line,
    return_line, switch_header, while_header,
};
use crate::ctype::{ctype_text, declarator_text, CType};
use crate::text::{concat, decimal_text, join, signed_text};
use crate::unit::{
    body_line, enum_text, function_text, macro_line, module_text, signature_line, struct_text,
    EnumView, FunctionView, MacroView, ModuleView, StructView,
};

verus! {

/// The total number of characters in the parts.
pub open spec fn total_len(parts: Seq<Seq<char>>) -> int
    decreases parts.len(),
{
    if parts.len() == 0 {
        0
    } else {
        total_len(parts.drop_last()) + parts.last().len()
    }
}

/// Concatenation keeps every character of every part: its length is the
/// sum of the parts' lengths, and each part follows all earlier ones.
pub proof fn law_concat_keeps_parts(parts: Seq<Seq<char>>, i: int)
    requires
        0 <= i < parts.len(),
    ensures
        concat(parts).len() == total_len(parts),
        (concat(parts.take(i)) + parts[i]).is_prefix_of(concat(parts)),
    decreases parts.len(),
{
    lemma_concat_len(parts);
    if i == parts.len() - 1 {
        assert(parts.take(i) =~= parts.drop_last());
        assert((concat(parts.take(i)) + parts[i]) =~= concat(parts));
    } else {
        law_concat_keeps_parts(parts.drop_last(), i);
        assert(parts.drop_last().take(i) =~= parts.take(i));
        let p = concat(parts.take(i)) + parts[i];
        assert(concat(parts) == concat(parts.drop_last()) + parts.last());
        assert(p =~= concat(parts).subrange(0, p.len() as int));
    }
}

proof fn lemma_concat_len(parts: Seq<Seq<char>>)
    ensures
        concat(parts).len() == total_len(parts),
    decreases parts.len(),
{
    if parts.len() > 0 {
        lemma_concat_len(parts.drop_last());
    }
}

/// Joining keeps every part and puts exactly one separator between each
/// two neighbours: its length is the parts' total plus one separator per
/// gap, and each part follows the join of the earlier ones and a separator.
pub proof fn law_join_keeps_parts(parts: Seq<Seq<char>>, sep: Seq<char>, i: int)
    requires
        0 < i < parts.len(),
    ensures
        join(parts, sep).len() == total_len(parts) + (parts.len() - 1) * sep.len(),
        (join(parts.take(i), sep) + sep + parts[i]).is_prefix_of(join(parts, sep)),
        join(seq![parts[0]], sep) == parts[0],
    decreases parts.len(),
{
    lemma_join_len(parts, sep);
    assert(seq![parts[0]].len() == 1);
    if i == parts.len() - 1 {
        assert(parts.take(i) =~= parts.drop_last());
        assert((join(parts.take(i), sep) + sep + parts[i]) =~= join(parts, sep));
    } else {
        law_join_keeps_parts(parts.drop_last(), sep, i);
        assert(parts.drop_last().take(i) =~= parts.take(i));
        let p = join(parts.take(i), sep) + sep + parts[i];
        assert(join(parts, sep) == join(parts.drop_last(), sep) + sep + parts.last());
        assert(p =~= join(parts, sep).subrange(0, p.len() as int));
    }
}

proof fn lemma_join_len(parts: Seq<Seq<char>>, sep: Seq<char>)
    ensures
        parts.len() > 0 ==> join(parts, sep).len() == total_len(parts) + (parts.len() - 1)
            * sep.len(),
        parts.len() == 0 ==> join(parts, sep).len() == 0,
    decreases parts.len(),
{
    if parts.len() > 1 {
        let d = parts.drop_last();
        lemma_join_len(d, sep);
        let n = parts.len() as int;
        let k = sep.len() as int;
        assert(join(parts, sep) == join(d, sep) + sep + parts.last());
        assert(total_len(parts) == total_len(d) + parts.last().len());
        assert((n - 1) * k == (n - 2) * k + k) by (nonlinear_arith);
        assert(d.len() == n - 1);
    } else if parts.len() == 1 {
        assert(parts.drop_last().len() == 0);
        assert(total_len(parts.drop_last()) == 0);
        assert(join(parts, sep) == parts[0]);
        assert((parts.len() - 1) * sep.len() == 0);
    }
}

/// The whole unit, item by item: one `#include <h>` line per system
/// header, one `#include "h"` line per local header (and a blank line if
/// there is any include), one macro line per macro (and a blank line if
/// there is any), then every enum, every struct and every function, each
/// in the order in which it was added.
pub proof fn law_module_lists_every_item(m: ModuleView)
    ensures
        module_text(m) == concat(
            Seq::new(m.sys_includes.len(), |i: int| "#include <"@ + m.sys_includes[i] + ">\n"@),
        ) + concat(
            Seq::new(
                m.local_includes.len(),
                |i: int| "#include \""@ + m.local_includes[i] + "\"\n"@,
            ),
        ) + (if m.sys_includes.len() > 0 || m.local_includes.len() > 0 {
            "\n"@
        } else {
            Seq::empty()
        }) + concat(Seq::new(m.macros.len(), |i: int| macro_line(m.macros[i]))) + (
        if m.macros.len() > 0 {
            "\n"@
        } else {
            Seq::empty()
        }) + concat(Seq::new(m.enums.len(), |i: int| enum_text(m.enums[i]))) + concat(
            Seq::new(m.structs.len(), |i: int| struct_text(m.structs[i])),
        ) + concat(Seq::new(m.functions.len(), |i: int| function_text(m.functions[i]))),
{
    assert(crate::unit::sys_include_lines(m.sys_includes) =~= Seq::new(
        m.sys_includes.len(),
        |i: int| "#include <"@ + m.sys_includes[i] + ">\n"@,
    ));
    assert(crate::unit::local_include_lines(m.local_includes) =~= Seq::new(
        m.local_includes.len(),
        |i: int| "#include \""@ + m.local_includes[i] + "\"\n"@,
    ));
    assert(crate::unit::macro_lines(m.macros) =~= Seq::new(
        m.macros.len(),
        |i: int| macro_line(m.macros[i]),
    ));
    assert(crate::unit::enum_texts(m.enums) =~= Seq::new(
        m.enums.len(),
        |i: int| enum_text(m.enums[i]),
    ));
    assert(crate::unit::struct_texts(m.structs) =~= Seq::new(
        m.structs.len(),
        |i: int| struct_text(m.structs[i]),
    ));
    assert(crate::unit::function_texts(m.functions) =~= Seq::new(
        m.functions.len(),
        |i: int| function_text(m.functions[i]),
    ));
}

/// Adding a system header makes the text longer by exactly its include
/// line, and by one more blank line when it is the unit's first include.
pub proof fn law_sys_include_adds_its_line(m: ModuleView, h: Seq<char>)
    ensures
        module_text(m.with_sys_include(h)).len() == module_text(m).len() + ("#include <"@ + h
            + ">\n"@).len() + (if m.sys_includes.len() == 0 && m.local_includes.len() == 0 {
            1int
        } else {
            0int
        }),
{
    reveal_strlit("\n");
    let a = m.with_sys_include(h);
    law_module_lists_every_item(m);
    law_module_lists_every_item(a);
    let old_lines = Seq::new(m.sys_includes.len(), |i: int| "#include <"@ + m.sys_includes[i] + ">\n"@);
    let new_lines = Seq::new(a.sys_includes.len(), |i: int| "#include <"@ + a.sys_includes[i] + ">\n"@);
    assert(new_lines =~= old_lines.push("#include <"@ + h + ">\n"@));
    crate::text::lemma_concat_push(old_lines, "#include <"@ + h + ">\n"@);
    assert(Seq::new(a.local_includes.len(), |i: int| "#include \""@ + a.local_includes[i] + "\"\n"@)
        =~= Seq::new(m.local_includes.len(), |i: int| "#include \""@ + m.local_includes[i] + "\"\n"@));
    assert(Seq::new(a.macros.len(), |i: int| macro_line(a.macros[i])) =~= Seq::new(
        m.macros.len(),
        |i: int| macro_line(m.macros[i]),
    ));
    assert(Seq::new(a.enums.len(), |i: int| enum_text(a.enums[i])) =~= Seq::new(
        m.enums.len(),
        |i: int| enum_text(m.enums[i]),
    ));
    assert(Seq::new(a.structs.len(), |i: int| struct_text(a.structs[i])) =~= Seq::new(
        m.structs.len(),
        |i: int| struct_text(m.structs[i]),
    ));
    assert(Seq::new(a.functions.len(), |i: int| function_text(a.functions[i])) =~= Seq::new(
        m.functions.len(),
        |i: int| function_text(m.functions[i]),
    ));
}

/// Adding a local header makes the text longer by exactly its include
/// line, and by one more blank line when it is the unit's first include.
pub proof fn law_local_include_adds_its_line(m: ModuleView, h: Seq<char>)
    ensures
        module_text(m.with_local_include(h)).len() == module_text(m).len() + ("#include \""@
            + h + "\"\n"@).len() + (if m.sys_includes.len() == 0 && m.local_includes.len() == 0 {
            1int
        } else {
            0int
        }),
{
    reveal_strlit("\n");
    let a = m.with_local_include(h);
    law_module_lists_every_item(m);
    law_module_lists_every_item(a);
    let old_lines = Seq::new(
        m.local_includes.len(),
        |i: int| "#include \""@ + m.local_includes[i] + "\"\n"@,
    );
    let new_lines = Seq::new(
        a.local_includes.len(),
        |i: int| "#include \""@ + a.local_includes[i] + "\"\n"@,
    );
    assert(new_lines =~= old_lines.push("#include \""@ + h + "\"\n"@));
    crate::text::lemma_concat_push(old_lines, "#include \""@ + h + "\"\n"@);
    assert(Seq::new(a.sys_includes.len(), |i: int| "#include <"@ + a.sys_includes[i] + ">\n"@)
        =~= Seq::new(m.sys_includes.len(), |i: int| "#include <"@ + m.sys_includes[i] + ">\n"@));
    assert(Seq::new(a.macros.len(), |i: int| macro_line(a.macros[i])) =~= Seq::new(
        m.macros.len(),
        |i: int| macro_line(m.macros[i]),
    ));
    assert(Seq::new(a.enums.len(), |i: int| enum_text(a.enums[i])) =~= Seq::new(
        m.enums.len(),
        |i: int| enum_text(m.enums[i]),
    ));
    assert(Seq::new(a.structs.len(), |i: int| struct_text(a.structs[i])) =~= Seq::new(
        m.structs.len(),
        |i: int| struct_text(m.structs[i]),
    ));
    assert(Seq::new(a.functions.len(), |i: int| function_text(a.functions[i])) =~= Seq::new(
        m.functions.len(),
        |i: int| function_text(m.functions[i]),
    ));
}

/// A macro line: `#define`, the name, then for a function-like macro the
/// parameter list in parentheses directly after the name (whatever the
/// number of parameters), or for an object-like macro a space; then the
/// value and a newline.
pub proof fn law_macro_forms(m: MacroView)
    ensures
        m.args is Some ==> macro_line(m) == "#define "@ + m.name + "("@ + join(
            m.args.unwrap(),
            ", "@,
        ) + ") "@ + m.value + "\n"@,
        m.args is None ==> macro_line(m) == "#define "@ + m.name + " "@ + m.value + "\n"@,
        m.args is Some ==> ("#define "@ + m.name + "("@).is_prefix_of(macro_line(m)),
{
    if m.args is Some {
        let p = "#define "@ + m.name + "("@;
        assert(p =~= macro_line(m).subrange(0, p.len() as int));
    }
}

/// An enum declaration: its header, one line per variant in order (`NAME`
/// or `NAME = value`, the value in decimal) separated by `,` and a newline,
/// and its closing line.
pub proof fn law_enum_lists_every_variant(e: EnumView)
    ensures
        enum_text(e) == (if e.is_typedef {
            "typedef enum {\n"@
        } else {
            "enum "@ + e.name + " {\n"@
        }) + join(
            Seq::new(
                e.variants.len(),
                |i: int|
                    match e.variants[i].1 {
                        Some(x) => "    "@ + e.variants[i].0 + " = "@ + signed_text(x as int),
                        None => "    "@ + e.variants[i].0,
                    },
            ),
            ",\n"@,
        ) + (if e.is_typedef {
            "\n} "@ + e.name + ";\n\n"@
        } else {
            "\n};\n\n"@
        }),
{
    assert(crate::unit::variant_lines(e.variants) =~= Seq::new(
        e.variants.len(),
        |i: int|
            match e.variants[i].1 {
                Some(x) => "    "@ + e.variants[i].0 + " = "@ + signed_text(x as int),
                None => "    "@ + e.variants[i].0,
            },
    ));
}

/// A struct declaration: its header, one line per field in order (four
/// spaces, the declarator with every array dimension, `;`) separated by
/// newlines, and its closing line.
pub proof fn law_struct_lists_every_field(s: StructView)
    ensures
        struct_text(s) == (if s.is_typedef {
            "typedef struct {\n"@
        } else {
            "struct "@ + s.name + " {\n"@
        }) + join(
            Seq::new(
                s.fields.len(),
                |i: int| "    "@ + declarator_text(s.fields[i].0, s.fields[i].1) + ";"@,
            ),
            "\n"@,
        ) + (if s.is_typedef {
            "\n} "@ + s.name + ";\n\n"@
        } else {
            "\n};\n\n"@
        }),
{
    assert(crate::unit::field_lines(s.fields) =~= Seq::new(
        s.fields.len(),
        |i: int| "    "@ + declarator_text(s.fields[i].0, s.fields[i].1) + ";"@,
    ));
}

/// A function definition: the return type written exactly as the type
/// renders, a space, the name, every parameter's declarator in order
/// separated by `, `, then `) {`, one line per body statement in order
/// (a `case`/`default:` label as is, anything else indented by four
/// spaces), `}` and a blank line.
pub proof fn law_function_layout(f: FunctionView)
    ensures
        (ctype_text(f.return_type) + " "@ + f.name + "("@).is_prefix_of(signature_line(f)),
        function_text(f) == ctype_text(f.return_type) + " "@ + f.name + "("@ + join(
            Seq::new(f.params.len(), |i: int| declarator_text(f.params[i].0, f.params[i].1)),
            ", "@,
        ) + ") {\n"@ + concat(
            Seq::new(
                f.body.len(),
                |i: int|
                    if "case "@.is_prefix_of(f.body[i]) || "default:"@.is_prefix_of(f.body[i]) {
                        f.body[i] + "\n"@
                    } else {
                        "    "@ + f.body[i] + "\n"@
                    },
            ),
        ) + "}\n\n"@,
{
    let p = ctype_text(f.return_type) + " "@ + f.name + "("@;
    assert(p =~= signature_line(f).subrange(0, p.len() as int));
    assert(crate::unit::param_texts(f.params) =~= Seq::new(
        f.params.len(),
        |i: int| declarator_text(f.params[i].0, f.params[i].1),
    ));
    assert(crate::unit::body_lines(f.body) =~= Seq::new(
        f.body.len(),
        |i: int|
            if "case "@.is_prefix_of(f.body[i]) || "default:"@.is_prefix_of(f.body[i]) {
                f.body[i] + "\n"@
            } else {
                "    "@ + f.body[i] + "\n"@
            },
    ));
}

/// A body line is written as is, with a newline, when it starts with
/// `case ` or `default:`, and indented by four spaces otherwise.
pub proof fn law_body_line_forms(line: Seq<char>)
    ensures
        ("case "@.is_prefix_of(line) || "default:"@.is_prefix_of(line)) ==> body_line(line) == line
            + "\n"@,
        !("case "@.is_prefix_of(line) || "default:"@.is_prefix_of(line)) ==> body_line(line)
            == "    "@ + line + "\n"@,
{
}

/// The statements a block appends, in terms of their parts: a call lists
/// every argument in order separated by `, ` (a single argument stands
/// alone between the parentheses, none gives `()`), and the other
/// statements and control headers have their fixed C shapes.
pub proof fn law_statement_forms(
    func: Seq<char>,
    args: Seq<Seq<char>>,
    a: Seq<char>,
    t: CType,
    x: Seq<char>,
    y: Seq<char>,
    z: Seq<char>,
)
    ensures
        call_line(func, args) == func + "("@ + join(args, ", "@) + ");"@,
        call_line(func, seq![a]) == func + "("@ + a + ");"@,
        call_line(func, Seq::empty()) == func + "("@ + ");"@,
        declare_line(t, x, y) == declarator_text(t, x) + " = "@ + y + ";"@,
        assign_line(x, y) == x + " = "@ + y + ";"@,
        return_line(x) == "return "@ + x + ";"@,
        if_header(x) == "if ("@ + x + ") {"@,
        while_header(x) == "while ("@ + x + ") {"@,
        for_header(x, y, z) == "for ("@ + x + "; "@ + y + "; "@ + z + ") {"@,
        switch_header(x) == "switch ("@ + x + ") {"@,
        case_line(x) == "case "@ + x + ":"@,
        indent_line(x) == "    "@ + x,
{
    assert(seq![a].len() == 1);
    assert(call_line(func, Seq::empty()) =~= func + "("@ + ");"@);
}

/// The compact unit, item by item: the include lines as in the full unit,
/// every raw definition verbatim followed by a blank line, and every
/// function (return type, name, `type name` for each parameter separated by
/// `, `, and every body line indented by four spaces), each in order.
pub proof fn law_unit_lists_every_item(m: basic::UnitView, f: basic::FunctionView)
    ensures
        basic::unit_text(m) == concat(
            Seq::new(m.sys_includes.len(), |i: int| "#include <"@ + m.sys_includes[i] + ">\n"@),
        ) + concat(
            Seq::new(
                m.local_includes.len(),
                |i: int| "#include \""@ + m.local_includes[i] + "\"\n"@,
            ),
        ) + (if m.sys_includes.len() > 0 || m.local_includes.len() > 0 {
            "\n"@
        } else {
            Seq::empty()
        }) + concat(Seq::new(m.definitions.len(), |i: int| m.definitions[i] + "\n\n"@)) + concat(
            Seq::new(m.functions.len(), |i: int| basic::function_text(m.functions[i])),
        ),
        basic::function_text(f) == basic::type_text(f.return_type) + " "@ + f.name + "("@ + join(
            Seq::new(
                f.params.len(),
                |i: int| basic::type_text(f.params[i].0) + " "@ + f.params[i].1,
            ),
            ", "@,
        ) + ") {\n"@ + concat(Seq::new(f.body.len(), |i: int| "    "@ + f.body[i] + "\n"@))
            + "}\n\n"@,
{
    assert(crate::unit::sys_include_lines(m.sys_includes) =~= Seq::new(
        m.sys_includes.len(),
        |i: int| "#include <"@ + m.sys_includes[i] + ">\n"@,
    ));
    assert(crate::unit::local_include_lines(m.local_includes) =~= Seq::new(
        m.local_includes.len(),
        |i: int| "#include \""@ + m.local_includes[i] + "\"\n"@,
    ));
    assert(basic::definition_texts(m.definitions) =~= Seq::new(
        m.definitions.len(),
        |i: int| m.definitions[i] + "\n\n"@,
    ));
    assert(basic::function_texts(m.functions) =~= Seq::new(
        m.functions.len(),
        |i: int| basic::function_text(m.functions[i]),
    ));
    assert(basic::param_texts(f.params) =~= Seq::new(
        f.params.len(),
        |i: int| basic::type_text(f.params[i].0) + " "@ + f.params[i].1,
    ));
    assert(basic::body_lines(f.body) =~= Seq::new(
        f.body.len(),
        |i: int| "    "@ + f.body[i] + "\n"@,
    ));
}

/// A signed value is written as its magnitude in decimal, preceded by `-`
/// exactly when it is negative.
pub proof fn law_signed_notation(v: int)
    ensures
        v < 0 ==> signed_text(v) == seq!['-'] + decimal_text((-v) as nat),
        v >= 0 ==> signed_text(v) == decimal_text(v as nat),
        v < 0 <==> signed_text(v)[0] == '-',
{
    if v >= 0 {
        let d = decimal_text(v as nat);
        crate::laws::law_decimal_notation(v as nat);
        assert(d.len() >= 1);
        lemma_decimal_chars_are_digits(v as nat);
    }
}

/// Every character of a decimal notation is a digit, never `-`.
pub proof fn lemma_decimal_chars_are_digits(n: nat)
    ensures
        forall|i: int| 0 <= i < decimal_text(n).len() ==> decimal_text(n)[i] != '-',
    decreases n,
{
    if n >= 10 {
        lemma_decimal_chars_are_digits(n / 10);
        let d = decimal_text(n);
        assert(d == decimal_text(n / 10) + seq![crate::text::digit_char(n % 10)]);
    }
}

/// In the compact builder, a pointer type is written as its pointee
/// followed by `*`, and a `const` type as `const ` followed by the type.
pub proof fn law_compact_type_modifiers(t: basic::CType)
    ensures
        basic::type_text(basic::CType::Ptr(Box::new(t))) == basic::type_text(t) + "*"@,
        basic::type_text(basic::CType::Const(Box::new(t))) == "const "@ + basic::type_text(t),
{
}

} // verus!
