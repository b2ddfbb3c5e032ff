//! A C compilation unit: includes, macros, enums, structs and functions,
//! and the source text that it serializes to.
use vstd::prelude::*;
use crate::block::Block;
use crate::ctype::{ctype_text, declarator_text, CType};
use crate::text::{
    concat, join, join_strings, lemma_concat_push, push_signed, signed_text,
    strings_view, strs_view, has_prefix,
};

verus! {

// ---------------------------------------------------------------------------
// Models
// ---------------------------------------------------------------------------
/// What a macro definition holds.
#[verifier::ext_equal]
pub struct MacroView {
    pub name: Seq<char>,
    pub args: Option<Seq<Seq<char>>>,
    pub value: Seq<char>,
}

/// What a struct declaration holds.
#[verifier::ext_equal]
pub struct StructView {
    pub name: Seq<char>,
    pub fields: Seq<(CType, Seq<char>)>,
    pub is_typedef: bool,
}

/// What an enum declaration holds.
#[verifier::ext_equal]
pub struct EnumView {
    pub name: Seq<char>,
    pub variants: Seq<(Seq<char>, Option<i64>)>,
    pub is_typedef: bool,
}

/// What a function definition holds.
#[verifier::ext_equal]
pub struct FunctionView {
    pub name: Seq<char>,
    pub return_type: CType,
    pub params: Seq<(CType, Seq<char>)>,
    pub body: Seq<Seq<char>>,
}

/// What a compilation unit holds, section by section, in insertion order.
#[verifier::ext_equal]
pub struct ModuleView {
    pub sys_includes: Seq<Seq<char>>,
    pub local_includes: Seq<Seq<char>>,
    pub macros: Seq<MacroView>,
    pub enums: Seq<EnumView>,
    pub structs: Seq<StructView>,
    pub functions: Seq<FunctionView>,
}

pub open spec fn pairs_view(s: Seq<(CType, String)>) -> Seq<(CType, Seq<char>)> {
    s.map_values(|p: (CType, String)| (p.0, p.1@))
}

pub open spec fn variants_view(s: Seq<(String, Option<i64>)>) -> Seq<(Seq<char>, Option<i64>)> {
    s.map_values(|p: (String, Option<i64>)| (p.0@, p.1))
}

impl FunctionView {
    pub open spec fn with_param(self, t: CType, name: Seq<char>) -> FunctionView {
        FunctionView { params: self.params.push((t, name)), ..self }
    }

    pub open spec fn with_body(self, body: Seq<Seq<char>>) -> FunctionView {
        FunctionView { body: body, ..self }
    }
}

impl ModuleView {
    pub open spec fn with_sys_include(self, h: Seq<char>) -> ModuleView {
        ModuleView { sys_includes: self.sys_includes.push(h), ..self }
    }

    pub open spec fn with_local_include(self, h: Seq<char>) -> ModuleView {
        ModuleView { local_includes: self.local_includes.push(h), ..self }
    }

    pub open spec fn with_macro(self, m: MacroView) -> ModuleView {
        ModuleView { macros: self.macros.push(m), ..self }
    }

    pub open spec fn with_enum(self, e: EnumView) -> ModuleView {
        ModuleView { enums: self.enums.push(e), ..self }
    }

    pub open spec fn with_struct(self, s: StructView) -> ModuleView {
        ModuleView { structs: self.structs.push(s), ..self }
    }

    pub open spec fn with_function(self, f: FunctionView) -> ModuleView {
        ModuleView { functions: self.functions.push(f), ..self }
    }

    pub open spec fn empty() -> ModuleView {
        ModuleView {
            sys_includes: Seq::empty(),
            local_includes: Seq::empty(),
            macros: Seq::empty(),
            enums: Seq::empty(),
            structs: Seq::empty(),
            functions: Seq::empty(),
        }
    }
}

/// One builder call on a compilation unit, as it changes the unit's model:
/// `include_sys`, `include_local`, `define_macro`, `add_enum`,
/// `add_struct` or `add_function`.
pub enum BuildStep {
    SysInclude(Seq<char>),
    LocalInclude(Seq<char>),
    Macro(MacroView),
    Enum(EnumView),
    Struct(StructView),
    Function(FunctionView),
}

/// The model after one builder call, as that call's contract states it.
pub open spec fn apply_step(m: ModuleView, step: BuildStep) -> ModuleView {
    match step {
        BuildStep::SysInclude(h) => m.with_sys_include(h),
        BuildStep::LocalInclude(h) => m.with_local_include(h),
        BuildStep::Macro(x) => m.with_macro(x),
        BuildStep::Enum(e) => m.with_enum(e),
        BuildStep::Struct(s) => m.with_struct(s),
        BuildStep::Function(f) => m.with_function(f),
    }
}

/// The model after a sequence of builder calls, in order.
pub open spec fn apply_steps(m: ModuleView, steps: Seq<BuildStep>) -> ModuleView
    decreases steps.len(),
{
    if steps.len() == 0 {
        m
    } else {
        apply_step(apply_steps(m, steps.drop_last()), steps.last())
    }
}

/// The headers of the `include_sys` calls among `steps`, in order.
pub open spec fn sys_includes_of(steps: Seq<BuildStep>) -> Seq<Seq<char>>
    decreases steps.len(),
{
    if steps.len() == 0 {
        Seq::empty()
    } else {
        let rest = sys_includes_of(steps.drop_last());
        match steps.last() {
            BuildStep::SysInclude(h) => rest.push(h),
            _ => rest,
        }
    }
}

/// The headers of the `include_local` calls among `steps`, in order.
pub open spec fn local_includes_of(steps: Seq<BuildStep>) -> Seq<Seq<char>>
    decreases steps.len(),
{
    if steps.len() == 0 {
        Seq::empty()
    } else {
        let rest = local_includes_of(steps.drop_last());
        match steps.last() {
            BuildStep::LocalInclude(h) => rest.push(h),
            _ => rest,
        }
    }
}

/// The macros of the `define_macro` calls among `steps`, in order.
pub open spec fn macros_of(steps: Seq<BuildStep>) -> Seq<MacroView>
    decreases steps.len(),
{
    if steps.len() == 0 {
        Seq::empty()
    } else {
        let rest = macros_of(steps.drop_last());
        match steps.last() {
            BuildStep::Macro(x) => rest.push(x),
            _ => rest,
        }
    }
}

/// The enums of the `add_enum` calls among `steps`, in order.
pub open spec fn enums_of(steps: Seq<BuildStep>) -> Seq<EnumView>
    decreases steps.len(),
{
    if steps.len() == 0 {
        Seq::empty()
    } else {
        let rest = enums_of(steps.drop_last());
        match steps.last() {
            BuildStep::Enum(e) => rest.push(e),
            _ => rest,
        }
    }
}

/// The structs of the `add_struct` calls among `steps`, in order.
pub open spec fn structs_of(steps: Seq<BuildStep>) -> Seq<StructView>
    decreases steps.len(),
{
    if steps.len() == 0 {
        Seq::empty()
    } else {
        let rest = structs_of(steps.drop_last());
        match steps.last() {
            BuildStep::Struct(s) => rest.push(s),
            _ => rest,
        }
    }
}

/// The functions of the `add_function` calls among `steps`, in order.
pub open spec fn functions_of(steps: Seq<BuildStep>) -> Seq<FunctionView>
    decreases steps.len(),
{
    if steps.len() == 0 {
        Seq::empty()
    } else {
        let rest = functions_of(steps.drop_last());
        match steps.last() {
            BuildStep::Function(f) => rest.push(f),
            _ => rest,
        }
    }
}

/// Whether two call sequences make the same calls of each kind, in the
/// same order within each kind.
pub open spec fn same_calls_per_kind(a: Seq<BuildStep>, b: Seq<BuildStep>) -> bool {
    &&& sys_includes_of(a) == sys_includes_of(b)
    &&& local_includes_of(a) == local_includes_of(b)
    &&& macros_of(a) == macros_of(b)
    &&& enums_of(a) == enums_of(b)
    &&& structs_of(a) == structs_of(b)
    &&& functions_of(a) == functions_of(b)
}

// ---------------------------------------------------------------------------
// Source text
// ---------------------------------------------------------------------------
/// `#include <header>` and a newline.
pub open spec fn sys_include_line(h: Seq<char>) -> Seq<char> {
    "#include <"@ + h + ">\n"@
}

/// `#include "header"` and a newline.
pub open spec fn local_include_line(h: Seq<char>) -> Seq<char> {
    "#include \""@ + h + "\"\n"@
}

pub open spec fn sys_include_lines(hs: Seq<Seq<char>>) -> Seq<Seq<char>> {
    hs.map_values(|h: Seq<char>| sys_include_line(h))
}

pub open spec fn local_include_lines(hs: Seq<Seq<char>>) -> Seq<Seq<char>> {
    hs.map_values(|h: Seq<char>| local_include_line(h))
}

/// The include lines, system headers first, and a blank line after them
/// when there is any.
pub open spec fn includes_text(m: ModuleView) -> Seq<char> {
    include_section(m.sys_includes, m.local_includes)
}

/// The include lines for the given system and local headers, system
/// headers first, and a blank line after them when there is any.
pub open spec fn include_section(sys: Seq<Seq<char>>, local: Seq<Seq<char>>) -> Seq<char> {
    concat(sys_include_lines(sys)) + concat(local_include_lines(local)) + (if sys.len() > 0
        || local.len() > 0 {
        "\n"@
    } else {
        Seq::empty()
    })
}

/// `#define NAME(a, b) value` or `#define NAME value`, and a newline.
pub open spec fn macro_line(m: MacroView) -> Seq<char> {
    match m.args {
        Some(args) => "#define "@ + m.name + "("@ + join(args, ", "@) + ") "@ + m.value + "\n"@,
        None => "#define "@ + m.name + " "@ + m.value + "\n"@,
    }
}

pub open spec fn macro_lines(ms: Seq<MacroView>) -> Seq<Seq<char>> {
    ms.map_values(|m: MacroView| macro_line(m))
}

/// The macro definitions, and a blank line after them when there is any.
pub open spec fn macros_text(m: ModuleView) -> Seq<char> {
    concat(macro_lines(m.macros)) + (if m.macros.len() > 0 {
        "\n"@
    } else {
        Seq::empty()
    })
}

/// `    NAME = value` or `    NAME`.
pub open spec fn variant_line(v: (Seq<char>, Option<i64>)) -> Seq<char> {
    match v.1 {
        Some(x) => "    "@ + v.0 + " = "@ + signed_text(x as int),
        None => "    "@ + v.0,
    }
}

pub open spec fn variant_lines(vs: Seq<(Seq<char>, Option<i64>)>) -> Seq<Seq<char>> {
    vs.map_values(|v: (Seq<char>, Option<i64>)| variant_line(v))
}

/// An enum declaration, its variants separated by `,` and a newline.
pub open spec fn enum_text(e: EnumView) -> Seq<char> {
    let body = join(variant_lines(e.variants), ",\n"@);
    if e.is_typedef {
        "typedef enum {\n"@ + body + "\n} "@ + e.name + ";\n\n"@
    } else {
        "enum "@ + e.name + " {\n"@ + body + "\n};\n\n"@
    }
}

pub open spec fn enum_texts(es: Seq<EnumView>) -> Seq<Seq<char>> {
    es.map_values(|e: EnumView| enum_text(e))
}

/// `    type name;`, with the array length after the name for an array.
pub open spec fn field_line(f: (CType, Seq<char>)) -> Seq<char> {
    "    "@ + declarator_text(f.0, f.1) + ";"@
}

pub open spec fn field_lines(fs: Seq<(CType, Seq<char>)>) -> Seq<Seq<char>> {
    fs.map_values(|f: (CType, Seq<char>)| field_line(f))
}

/// A struct declaration, its fields on lines of their own.
pub open spec fn struct_text(s: StructView) -> Seq<char> {
    let body = join(field_lines(s.fields), "\n"@);
    if s.is_typedef {
        "typedef struct {\n"@ + body + "\n} "@ + s.name + ";\n\n"@
    } else {
        "struct "@ + s.name + " {\n"@ + body + "\n};\n\n"@
    }
}

pub open spec fn struct_texts(ss: Seq<StructView>) -> Seq<Seq<char>> {
    ss.map_values(|s: StructView| struct_text(s))
}

/// Whether a body line is a switch label, which is written without the
/// function-level indentation.
pub open spec fn is_label(line: Seq<char>) -> bool {
    "case "@.is_prefix_of(line) || "default:"@.is_prefix_of(line)
}

/// A body line as written inside the function: indented by four spaces
/// unless it is a label, and a newline.
pub open spec fn body_line(line: Seq<char>) -> Seq<char> {
    if is_label(line) {
        line + "\n"@
    } else {
        "    "@ + line + "\n"@
    }
}

pub open spec fn body_lines(ls: Seq<Seq<char>>) -> Seq<Seq<char>> {
    ls.map_values(|l: Seq<char>| body_line(l))
}

pub open spec fn param_texts(ps: Seq<(CType, Seq<char>)>) -> Seq<Seq<char>> {
    ps.map_values(|p: (CType, Seq<char>)| declarator_text(p.0, p.1))
}

/// The signature line of a function: `type name(params) {` and a newline.
pub open spec fn signature_line(f: FunctionView) -> Seq<char> {
    ctype_text(f.return_type) + " "@ + f.name + "("@ + join(param_texts(f.params), ", "@)
        + ") {\n"@
}

/// A function definition: the signature, the body, `}` and a blank line.
pub open spec fn function_text(f: FunctionView) -> Seq<char> {
    signature_line(f) + concat(body_lines(f.body)) + "}\n\n"@
}

pub open spec fn function_texts(fs: Seq<FunctionView>) -> Seq<Seq<char>> {
    fs.map_values(|f: FunctionView| function_text(f))
}

/// Everything that comes before the functions.
pub open spec fn declarations_text(m: ModuleView) -> Seq<char> {
    includes_text(m) + macros_text(m) + concat(enum_texts(m.enums)) + concat(
        struct_texts(m.structs),
    )
}

/// The whole source text of a compilation unit: includes, macros, enums,
/// structs and functions, each section in insertion order.
pub open spec fn module_text(m: ModuleView) -> Seq<char> {
    declarations_text(m) + concat(function_texts(m.functions))
}

// ---------------------------------------------------------------------------
// Declarations
// ---------------------------------------------------------------------------
/// Represents a C preprocessor `#define` macro definition.
#[derive(Clone, Debug)]
pub struct CMacro {
    pub name: String,
    pub args: Option<Vec<String>>,
    pub value: String,
}

impl View for CMacro {
    type V = MacroView;

    open spec fn view(&self) -> MacroView {
        MacroView {
            name: self.name@,
            args: match self.args {
                Some(a) => Some(strings_view(a@)),
                None => None,
            },
            value: self.value@,
        }
    }
}

/// Represents a C `struct` layout declaration.
#[derive(Clone, Debug)]
pub struct CStruct {
    pub name: String,
    pub fields: Vec<(CType, String)>,
    pub is_typedef: bool,
}

impl View for CStruct {
    type V = StructView;

    open spec fn view(&self) -> StructView {
        StructView { name: self.name@, fields: pairs_view(self.fields@), is_typedef: self.is_typedef }
    }
}

/// Represents a C `enum` declaration.
#[derive(Clone, Debug)]
pub struct CEnum {
    pub name: String,
    pub variants: Vec<(String, Option<i64>)>,
    pub is_typedef: bool,
}

impl View for CEnum {
    type V = EnumView;

    open spec fn view(&self) -> EnumView {
        EnumView {
            name: self.name@,
            variants: variants_view(self.variants@),
            is_typedef: self.is_typedef,
        }
    }
}

fn write_macro(m: &CMacro, out: &mut String)
    ensures
        final(out)@ == old(out)@ + macro_line(m@),
{
    out.append("#define ");
    out.append(m.name.as_str());
    match &m.args {
        Some(args) => {
            out.append("(");
            let joined = join_strings(args, ", ");
            out.append(joined.as_str());
            out.append(") ");
        },
        None => {
            out.append(" ");
        },
    }
    out.append(m.value.as_str());
    out.append("\n");
    assert(final(out)@ =~= old(out)@ + macro_line(m@));
}

fn write_enum(e: &CEnum, out: &mut String)
    ensures
        final(out)@ == old(out)@ + enum_text(e@),
{
    let mut lines: Vec<String> = Vec::new();
    let ghost vs = e@.variants;
    let n = e.variants.len();
    let mut i: usize = 0;
    while i < n
        invariant
            n == e.variants@.len(),
            vs == e@.variants,
            i <= n,
            strings_view(lines@) == variant_lines(vs.take(i as int)),
        decreases n - i,
    {
        let variant = &e.variants[i];
        let mut line = String::new();
        line.append("    ");
        line.append(variant.0.as_str());
        match variant.1 {
            Some(v) => {
                line.append(" = ");
                push_signed(&mut line, v);
            },
            None => {},
        }
        assert(line@ =~= variant_line(vs[i as int]));
        let ghost before = lines@;
        lines.push(line);
        assert(strings_view(lines@) =~= strings_view(before).push(line@));
        assert(variant_lines(vs.take(i + 1)) =~= variant_lines(vs.take(i as int)).push(
            variant_line(vs[i as int]),
        ));
        i += 1;
    }
    assert(vs.take(n as int) =~= vs);
    let body = join_strings(&lines, ",\n");
    if e.is_typedef {
        out.append("typedef enum {\n");
        out.append(body.as_str());
        out.append("\n} ");
        out.append(e.name.as_str());
        out.append(";\n\n");
    } else {
        out.append("enum ");
        out.append(e.name.as_str());
        out.append(" {\n");
        out.append(body.as_str());
        out.append("\n};\n\n");
    }
    assert(final(out)@ =~= old(out)@ + enum_text(e@));
}

fn write_struct(s: &CStruct, out: &mut String)
    ensures
        final(out)@ == old(out)@ + struct_text(s@),
{
    let mut lines: Vec<String> = Vec::new();
    let ghost fs = s@.fields;
    let n = s.fields.len();
    let mut i: usize = 0;
    while i < n
        invariant
            n == s.fields@.len(),
            fs == s@.fields,
            i <= n,
            strings_view(lines@) == field_lines(fs.take(i as int)),
        decreases n - i,
    {
        let field = &s.fields[i];
        let mut line = String::new();
        line.append("    ");
        field.0.write_declarator(field.1.as_str(), &mut line);
        line.append(";");
        assert(line@ =~= field_line(fs[i as int]));
        let ghost before = lines@;
        lines.push(line);
        assert(strings_view(lines@) =~= strings_view(before).push(line@));
        assert(field_lines(fs.take(i + 1)) =~= field_lines(fs.take(i as int)).push(
            field_line(fs[i as int]),
        ));
        i += 1;
    }
    assert(fs.take(n as int) =~= fs);
    let body = join_strings(&lines, "\n");
    if s.is_typedef {
        out.append("typedef struct {\n");
        out.append(body.as_str());
        out.append("\n} ");
        out.append(s.name.as_str());
        out.append(";\n\n");
    } else {
        out.append("struct ");
        out.append(s.name.as_str());
        out.append(" {\n");
        out.append(body.as_str());
        out.append("\n};\n\n");
    }
    assert(final(out)@ =~= old(out)@ + struct_text(s@));
}

// ---------------------------------------------------------------------------
// Functions
// ---------------------------------------------------------------------------
/// A C function definition: name, return type, parameters and body.
#[derive(Clone, Debug)]
pub struct CFunction {
    name: String,
    return_type: CType,
    args: Vec<(CType, String)>,
    root_block: Block,
}

impl View for CFunction {
    type V = FunctionView;

    closed spec fn view(&self) -> FunctionView {
        FunctionView {
            name: self.name@,
            return_type: self.return_type,
            params: pairs_view(self.args@),
            body: self.root_block@,
        }
    }
}

impl CFunction {
    /// A function with no parameters and an empty body.
    pub fn new(name: &str, return_type: CType) -> (r: Self)
        ensures
            r@ == (FunctionView {
                name: name@,
                return_type: return_type,
                params: Seq::empty(),
                body: Seq::empty(),
            }),
    {
        let r = CFunction {
            name: name.to_owned(),
            return_type,
            args: Vec::new(),
            root_block: Block::new(),
        };
        assert(pairs_view(r.args@) =~= Seq::<(CType, Seq<char>)>::empty());
        r
    }

    /// Appends a parameter.
    pub fn arg(self, ctype: CType, name: &str) -> (r: Self)
        ensures
            r@ == self@.with_param(ctype, name@),
    {
        let mut f = self;
        f.args.push((ctype, name.to_owned()));
        assert(pairs_view(f.args@) =~= pairs_view(self.args@).push((ctype, name@)));
        f
    }

    /// Runs `f` on the function's body block.
    pub fn body<F>(&mut self, f: F) -> (r: &mut Self) where
        F: FnOnce(&mut Block),

        requires
            forall|b: &mut Block| (*b)@ == old(self)@.body ==> call_requires(f, (b,)),
        ensures
            exists|m: &mut Block|
                (*m)@ == old(self)@.body && call_ensures(f, (m,), ()) && (*r)@ == old(
                    self,
                )@.with_body(final(m)@),
            *final(self) == *final(r),
    {
        let root = &mut self.root_block;
        assert((*root)@ == old(self)@.body);
        f(root);
        self
    }

    fn write_to(&self, out: &mut String)
        ensures
            final(out)@ == old(out)@ + function_text(self@),
    {
        // signature
        let mut params: Vec<String> = Vec::new();
        let ghost ps = self@.params;
        let n = self.args.len();
        let mut i: usize = 0;
        while i < n
            invariant
                n == self.args@.len(),
                ps == self@.params,
                i <= n,
                strings_view(params@) == param_texts(ps.take(i as int)),
            decreases n - i,
        {
            let param = &self.args[i];
            let mut text = String::new();
            param.0.write_declarator(param.1.as_str(), &mut text);
            assert(text@ =~= declarator_text(ps[i as int].0, ps[i as int].1));
            let ghost before = params@;
            params.push(text);
            assert(strings_view(params@) =~= strings_view(before).push(text@));
            assert(param_texts(ps.take(i + 1)) =~= param_texts(ps.take(i as int)).push(
                declarator_text(ps[i as int].0, ps[i as int].1),
            ));
            i += 1;
        }
        assert(ps.take(n as int) =~= ps);
        let joined = join_strings(&params, ", ");
        self.return_type.write_to(out);
        out.append(" ");
        out.append(self.name.as_str());
        out.append("(");
        out.append(joined.as_str());
        out.append(") {\n");
        let ghost after_signature = out@;
        assert(after_signature =~= old(out)@ + signature_line(self@));
        // body
        let lines = self.root_block.lines();
        let ghost ls = self@.body;
        let m = lines.len();
        let mut j: usize = 0;
        while j < m
            invariant
                m == lines@.len(),
                ls == self@.body,
                strings_view(lines@) == ls,
                j <= m,
                out@ == after_signature + concat(body_lines(ls.take(j as int))),
            decreases m - j,
        {
            let line = lines[j].as_str();
            assert(line@ == ls[j as int]);
            let ghost before = out@;
            if has_prefix(line, "case ") || has_prefix(line, "default:") {
                out.append(line);
                out.append("\n");
            } else {
                out.append("    ");
                out.append(line);
                out.append("\n");
            }
            assert(out@ =~= before + body_line(ls[j as int]));
            proof {
                assert(body_lines(ls.take(j + 1)) =~= body_lines(ls.take(j as int)).push(
                    body_line(ls[j as int]),
                ));
                lemma_concat_push(body_lines(ls.take(j as int)), body_line(ls[j as int]));
            }
            j += 1;
        }
        assert(ls.take(m as int) =~= ls);
        out.append("}\n\n");
        assert(final(out)@ =~= old(out)@ + function_text(self@));
    }
}

// ---------------------------------------------------------------------------
// Compilation unit
// ---------------------------------------------------------------------------
/// The top-level compilation unit.
#[derive(Clone, Debug)]
pub struct CModule {
    sys_includes: Vec<String>,
    local_includes: Vec<String>,
    macros: Vec<CMacro>,
    enums: Vec<CEnum>,
    structs: Vec<CStruct>,
    functions: Vec<CFunction>,
}

impl View for CModule {
    type V = ModuleView;

    closed spec fn view(&self) -> ModuleView {
        ModuleView {
            sys_includes: strings_view(self.sys_includes@),
            local_includes: strings_view(self.local_includes@),
            macros: self.macros@.map_values(|m: CMacro| m@),
            enums: self.enums@.map_values(|e: CEnum| e@),
            structs: self.structs@.map_values(|s: CStruct| s@),
            functions: self.functions@.map_values(|f: CFunction| f@),
        }
    }
}

impl Default for CModule {
    fn default() -> (r: Self)
        ensures
            r@ == ModuleView::empty(),
    {
        CModule::new()
    }
}

fn owned_strings(v: &Vec<&str>) -> (r: Vec<String>)
    ensures
        strings_view(r@) == strs_view(v@),
{
    let mut r: Vec<String> = Vec::new();
    let n = v.len();
    let mut i: usize = 0;
    while i < n
        invariant
            n == v@.len(),
            i <= n,
            strings_view(r@) == strs_view(v@.take(i as int)),
        decreases n - i,
    {
        let ghost before = r@;
        r.push(v[i].to_owned());
        assert(strings_view(r@) =~= strings_view(before).push(v@[i as int]@));
        assert(strs_view(v@.take(i + 1)) =~= strs_view(v@.take(i as int)).push(v@[i as int]@));
        i += 1;
    }
    assert(v@.take(n as int) =~= v@);
    r
}

/// Appends the include lines for the given headers: system headers first,
/// then local ones, and a blank line after them when there is any.
pub(crate) fn write_include_section(sys: &Vec<String>, local: &Vec<String>, out: &mut String)
    ensures
        final(out)@ == old(out)@ + include_section(strings_view(sys@), strings_view(local@)),
{
    let ghost hs = strings_view(sys@);
    let n = sys.len();
    let mut i: usize = 0;
    while i < n
        invariant
            n == sys@.len(),
            hs == strings_view(sys@),
            i <= n,
            out@ == old(out)@ + concat(sys_include_lines(hs.take(i as int))),
        decreases n - i,
    {
        out.append("#include <");
        out.append(sys[i].as_str());
        out.append(">\n");
        proof {
            assert(sys_include_lines(hs.take(i + 1)) =~= sys_include_lines(hs.take(i as int)).push(
                sys_include_line(hs[i as int]),
            ));
            lemma_concat_push(sys_include_lines(hs.take(i as int)), sys_include_line(hs[i as int]));
        }
        assert(out@ =~= old(out)@ + concat(sys_include_lines(hs.take(i + 1))));
        i += 1;
    }
    assert(hs.take(n as int) =~= hs);
    let ghost after_sys = out@;
    let ghost ls = strings_view(local@);
    let m = local.len();
    let mut j: usize = 0;
    while j < m
        invariant
            m == local@.len(),
            ls == strings_view(local@),
            j <= m,
            out@ == after_sys + concat(local_include_lines(ls.take(j as int))),
        decreases m - j,
    {
        out.append("#include \"");
        out.append(local[j].as_str());
        out.append("\"\n");
        proof {
            assert(local_include_lines(ls.take(j + 1)) =~= local_include_lines(ls.take(j as int)).push(
                local_include_line(ls[j as int]),
            ));
            lemma_concat_push(local_include_lines(ls.take(j as int)), local_include_line(ls[j as int]));
        }
        assert(out@ =~= after_sys + concat(local_include_lines(ls.take(j + 1))));
        j += 1;
    }
    assert(ls.take(m as int) =~= ls);
    if n > 0 || m > 0 {
        out.append("\n");
    }
    assert(final(out)@ =~= old(out)@ + include_section(strings_view(sys@), strings_view(local@)));
}

impl CModule {
    /// An empty compilation unit.
    pub fn new() -> (r: Self)
        ensures
            r@ == ModuleView::empty(),
    {
        let r = CModule {
            sys_includes: Vec::new(),
            local_includes: Vec::new(),
            macros: Vec::new(),
            enums: Vec::new(),
            structs: Vec::new(),
            functions: Vec::new(),
        };
        assert(r@ =~= ModuleView::empty());
        r
    }

    /// Adds a system header, included as `#include <header>`.
    pub fn include_sys(&mut self, header: &str) -> (r: &mut Self)
        ensures
            (*r)@ == old(self)@.with_sys_include(header@),
            *final(self) == *final(r),
    {
        self.sys_includes.push(header.to_owned());
        assert(strings_view(self.sys_includes@) =~= old(self)@.sys_includes.push(header@));
        self
    }

    /// Adds a local header, included as `#include "header"`.
    pub fn include_local(&mut self, header: &str) -> (r: &mut Self)
        ensures
            (*r)@ == old(self)@.with_local_include(header@),
            *final(self) == *final(r),
    {
        self.local_includes.push(header.to_owned());
        assert(strings_view(self.local_includes@) =~= old(self)@.local_includes.push(header@));
        self
    }

    /// Adds a macro definition; with `args` it is a function-like macro.
    pub fn define_macro(&mut self, name: &str, args: Option<Vec<&str>>, value: &str) -> (r: &mut Self)
        ensures
            (*r)@ == old(self)@.with_macro(
                MacroView {
                    name: name@,
                    args: match args {
                        Some(a) => Some(strs_view(a@)),
                        None => None,
                    },
                    value: value@,
                },
            ),
            *final(self) == *final(r),
    {
        let owned = match &args {
            Some(v) => Some(owned_strings(v)),
            None => None,
        };
        let m = CMacro { name: name.to_owned(), args: owned, value: value.to_owned() };
        let ghost before = self.macros@;
        self.macros.push(m);
        assert(self.macros@.map_values(|x: CMacro| x@) =~= before.map_values(|x: CMacro| x@).push(m@));
        self
    }

    /// Adds an enum declaration.
    pub fn add_enum(&mut self, c_enum: CEnum) -> (r: &mut Self)
        ensures
            (*r)@ == old(self)@.with_enum(c_enum@),
            *final(self) == *final(r),
    {
        let ghost before = self.enums@;
        self.enums.push(c_enum);
        assert(self.enums@.map_values(|x: CEnum| x@) =~= before.map_values(|x: CEnum| x@).push(c_enum@));
        self
    }

    /// Adds a struct declaration.
    pub fn add_struct(&mut self, c_struct: CStruct) -> (r: &mut Self)
        ensures
            (*r)@ == old(self)@.with_struct(c_struct@),
            *final(self) == *final(r),
    {
        let ghost before = self.structs@;
        self.structs.push(c_struct);
        assert(self.structs@.map_values(|x: CStruct| x@) =~= before.map_values(|x: CStruct| x@).push(c_struct@));
        self
    }

    /// Adds a function definition.
    pub fn add_function(&mut self, func: CFunction) -> (r: &mut Self)
        ensures
            (*r)@ == old(self)@.with_function(func@),
            *final(self) == *final(r),
    {
        let ghost before = self.functions@;
        self.functions.push(func);
        assert(self.functions@.map_values(|x: CFunction| x@) =~= before.map_values(|x: CFunction| x@).push(func@));
        self
    }

    fn write_includes(&self, out: &mut String)
        ensures
            final(out)@ == old(out)@ + includes_text(self@),
    {
        write_include_section(&self.sys_includes, &self.local_includes, out);
    }

    fn write_macros(&self, out: &mut String)
        ensures
            final(out)@ == old(out)@ + macros_text(self@),
    {
        let ghost ms = self@.macros;
        let n = self.macros.len();
        let mut i: usize = 0;
        while i < n
            invariant
                n == self.macros@.len(),
                ms == self@.macros,
                i <= n,
                out@ == old(out)@ + concat(macro_lines(ms.take(i as int))),
            decreases n - i,
        {
            write_macro(&self.macros[i], out);
            proof {
                assert(macro_lines(ms.take(i + 1)) =~= macro_lines(ms.take(i as int)).push(
                    macro_line(ms[i as int]),
                ));
                lemma_concat_push(macro_lines(ms.take(i as int)), macro_line(ms[i as int]));
            }
            assert(out@ =~= old(out)@ + concat(macro_lines(ms.take(i + 1))));
            i += 1;
        }
        assert(ms.take(n as int) =~= ms);
        if n > 0 {
            out.append("\n");
        }
        assert(final(out)@ =~= old(out)@ + macros_text(self@));
    }

    fn write_enums(&self, out: &mut String)
        ensures
            final(out)@ == old(out)@ + concat(enum_texts(self@.enums)),
    {
        let ghost es = self@.enums;
        let n = self.enums.len();
        let mut i: usize = 0;
        while i < n
            invariant
                n == self.enums@.len(),
                es == self@.enums,
                i <= n,
                out@ == old(out)@ + concat(enum_texts(es.take(i as int))),
            decreases n - i,
        {
            write_enum(&self.enums[i], out);
            proof {
                assert(enum_texts(es.take(i + 1)) =~= enum_texts(es.take(i as int)).push(
                    enum_text(es[i as int]),
                ));
                lemma_concat_push(enum_texts(es.take(i as int)), enum_text(es[i as int]));
            }
            assert(out@ =~= old(out)@ + concat(enum_texts(es.take(i + 1))));
            i += 1;
        }
        assert(es.take(n as int) =~= es);
    }

    fn write_structs(&self, out: &mut String)
        ensures
            final(out)@ == old(out)@ + concat(struct_texts(self@.structs)),
    {
        let ghost ss = self@.structs;
        let n = self.structs.len();
        let mut i: usize = 0;
        while i < n
            invariant
                n == self.structs@.len(),
                ss == self@.structs,
                i <= n,
                out@ == old(out)@ + concat(struct_texts(ss.take(i as int))),
            decreases n - i,
        {
            write_struct(&self.structs[i], out);
            proof {
                assert(struct_texts(ss.take(i + 1)) =~= struct_texts(ss.take(i as int)).push(
                    struct_text(ss[i as int]),
                ));
                lemma_concat_push(struct_texts(ss.take(i as int)), struct_text(ss[i as int]));
            }
            assert(out@ =~= old(out)@ + concat(struct_texts(ss.take(i + 1))));
            i += 1;
        }
        assert(ss.take(n as int) =~= ss);
    }

    fn write_functions(&self, out: &mut String)
        ensures
            final(out)@ == old(out)@ + concat(function_texts(self@.functions)),
    {
        let ghost fs = self@.functions;
        let n = self.functions.len();
        let mut i: usize = 0;
        while i < n
            invariant
                n == self.functions@.len(),
                fs == self@.functions,
                i <= n,
                out@ == old(out)@ + concat(function_texts(fs.take(i as int))),
            decreases n - i,
        {
            self.functions[i].write_to(out);
            proof {
                assert(function_texts(fs.take(i + 1)) =~= function_texts(fs.take(i as int)).push(
                    function_text(fs[i as int]),
                ));
                lemma_concat_push(function_texts(fs.take(i as int)), function_text(fs[i as int]));
            }
            assert(out@ =~= old(out)@ + concat(function_texts(fs.take(i + 1))));
            i += 1;
        }
        assert(fs.take(n as int) =~= fs);
    }

    /// Serializes the compilation unit into C source text: the includes,
    /// the macros, the enums, the structs and the functions, in that order.
    pub fn generate(&self) -> (r: String)
        ensures
            r@ == module_text(self@),
    {
        let mut out = String::new();
        self.write_includes(&mut out);
        self.write_macros(&mut out);
        self.write_enums(&mut out);
        self.write_structs(&mut out);
        self.write_functions(&mut out);
        assert(out@ =~= module_text(self@));
        out
    }
}

} // verus!
