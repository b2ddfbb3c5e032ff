//! The compact builder: functions with a flat list of body lines, and a
//! compilation unit whose type definitions are given as raw text.
use vstd::prelude::*;
use crate::text::{concat, join, join_strings, join_strs, lemma_concat_push, strings_view, strs_view};
use crate::unit::{include_section, write_include_section};

verus! {

/// Represents standard and custom C data types.
#[derive(Debug)]
pub enum CType {
    Int,
    UnsignedInt,
    Char,
    Float,
    Double,
    Void,
    Ptr(Box<CType>),
    Const(Box<CType>),
    Custom(String),
}

impl Clone for CType {
    fn clone(&self) -> (r: Self)
        ensures
            r == *self,
        decreases self,
    {
        match self {
            CType::Int => CType::Int,
            CType::UnsignedInt => CType::UnsignedInt,
            CType::Char => CType::Char,
            CType::Float => CType::Float,
            CType::Double => CType::Double,
            CType::Void => CType::Void,
            CType::Ptr(inner) => CType::Ptr(Box::new((**inner).clone())),
            CType::Const(inner) => CType::Const(Box::new((**inner).clone())),
            CType::Custom(s) => CType::Custom(s.clone()),
        }
    }
}

/// How a type is written in C.
pub open spec fn type_text(t: CType) -> Seq<char>
    decreases t,
{
    match t {
        CType::Int => "int"@,
        CType::UnsignedInt => "unsigned int"@,
        CType::Char => "char"@,
        CType::Float => "float"@,
        CType::Double => "double"@,
        CType::Void => "void"@,
        CType::Ptr(inner) => type_text(*inner) + "*"@,
        CType::Const(inner) => "const "@ + type_text(*inner),
        CType::Custom(s) => s@,
    }
}

impl CType {
    /// Appends how this type is written in C.
    pub fn write_to(&self, out: &mut String)
        ensures
            final(out)@ == old(out)@ + type_text(*self),
        decreases self,
    {
        match self {
            CType::Int => out.append("int"),
            CType::UnsignedInt => out.append("unsigned int"),
            CType::Char => out.append("char"),
            CType::Float => out.append("float"),
            CType::Double => out.append("double"),
            CType::Void => out.append("void"),
            CType::Ptr(inner) => {
                inner.write_to(out);
                out.append("*");
                assert(final(out)@ =~= old(out)@ + type_text(*self));
            },
            CType::Const(inner) => {
                out.append("const ");
                inner.write_to(out);
                assert(final(out)@ =~= old(out)@ + type_text(*self));
            },
            CType::Custom(s) => out.append(s.as_str()),
        }
    }

    /// How this type is written in C (the type's display form).
    pub fn render(&self) -> (r: String)
        ensures
            r@ == type_text(*self),
    {
        let mut out = String::new();
        self.write_to(&mut out);
        assert(out@ =~= type_text(*self));
        out
    }
}

/// `type name`
pub open spec fn typed_name(t: CType, name: Seq<char>) -> Seq<char> {
    type_text(t) + " "@ + name
}

/// What a function holds.
#[verifier::ext_equal]
pub struct FunctionView {
    pub name: Seq<char>,
    pub return_type: CType,
    pub params: Seq<(CType, Seq<char>)>,
    pub body: Seq<Seq<char>>,
}

impl FunctionView {
    pub open spec fn with_param(self, t: CType, name: Seq<char>) -> FunctionView {
        FunctionView { params: self.params.push((t, name)), ..self }
    }

    pub open spec fn with_line(self, line: Seq<char>) -> FunctionView {
        FunctionView { body: self.body.push(line), ..self }
    }
}

pub open spec fn params_view(s: Seq<(CType, String)>) -> Seq<(CType, Seq<char>)> {
    s.map_values(|p: (CType, String)| (p.0, p.1@))
}

pub open spec fn param_texts(ps: Seq<(CType, Seq<char>)>) -> Seq<Seq<char>> {
    ps.map_values(|p: (CType, Seq<char>)| typed_name(p.0, p.1))
}

/// A body line as written inside the function: four spaces, the line, a newline.
pub open spec fn body_line(line: Seq<char>) -> Seq<char> {
    "    "@ + line + "\n"@
}

pub open spec fn body_lines(ls: Seq<Seq<char>>) -> Seq<Seq<char>> {
    ls.map_values(|l: Seq<char>| body_line(l))
}

/// A function definition: `type name(params) {`, the indented body, `}`
/// and a blank line.
pub open spec fn function_text(f: FunctionView) -> Seq<char> {
    type_text(f.return_type) + " "@ + f.name + "("@ + join(param_texts(f.params), ", "@)
        + ") {\n"@ + concat(body_lines(f.body)) + "}\n\n"@
}

pub open spec fn function_texts(fs: Seq<FunctionView>) -> Seq<Seq<char>> {
    fs.map_values(|f: FunctionView| function_text(f))
}

/// Builder for constructing individual C functions.
#[derive(Clone, Debug)]
pub struct CFunction {
    name: String,
    return_type: CType,
    args: Vec<(CType, String)>,
    body: Vec<String>,
}

impl View for CFunction {
    type V = FunctionView;

    closed spec fn view(&self) -> FunctionView {
        FunctionView {
            name: self.name@,
            return_type: self.return_type,
            params: params_view(self.args@),
            body: strings_view(self.body@),
        }
    }
}

impl CFunction {
    /// A function with no parameters and an empty body.
    pub fn new(name: &str, return_type: CType) -> (r: Self)
        ensures
            r@ == (FunctionView {
                name: name@,
                return_type: return_type,
                params: Seq::empty(),
                body: Seq::empty(),
            }),
    {
        let r = CFunction {
            name: name.to_owned(),
            return_type,
            args: Vec::new(),
            body: Vec::new(),
        };
        assert(r@ =~= FunctionView {
            name: name@,
            return_type: return_type,
            params: Seq::empty(),
            body: Seq::empty(),
        });
        r
    }

    /// Adds a parameter to the function signature.
    pub fn arg(self, ctype: CType, name: &str) -> (r: Self)
        ensures
            r@ == self@.with_param(ctype, name@),
    {
        let mut f = self;
        f.args.push((ctype, name.to_owned()));
        assert(params_view(f.args@) =~= params_view(self.args@).push((ctype, name@)));
        f
    }

    fn push_line(&mut self, line: String)
        ensures
            final(self)@ == old(self)@.with_line(line@),
    {
        self.body.push(line);
        assert(strings_view(self.body@) =~= strings_view(old(self).body@).push(line@));
    }

    /// Declares a variable inside the function scope: `type name = init;`.
    pub fn declare(&mut self, ctype: CType, name: &str, init: &str) -> (r: &mut Self)
        ensures
            (*r)@ == old(self)@.with_line(typed_name(ctype, name@) + " = "@ + init@ + ";"@),
            *final(self) == *final(r),
    {
        let mut line = String::new();
        ctype.write_to(&mut line);
        line.append(" ");
        line.append(name);
        line.append(" = ");
        line.append(init);
        line.append(";");
        assert(line@ =~= typed_name(ctype, name@) + " = "@ + init@ + ";"@);
        self.push_line(line);
        self
    }

    /// Performs an assignment to an existing variable: `name = expr;`.
    pub fn assign(&mut self, name: &str, expr: &str) -> (r: &mut Self)
        ensures
            (*r)@ == old(self)@.with_line(name@ + " = "@ + expr@ + ";"@),
            *final(self) == *final(r),
    {
        let mut line = String::new();
        line.append(name);
        line.append(" = ");
        line.append(expr);
        line.append(";");
        assert(line@ =~= name@ + " = "@ + expr@ + ";"@);
        self.push_line(line);
        self
    }

    /// Injects a call statement: `func(a, b, ...);`.
    pub fn call(&mut self, func: &str, args: &[&str]) -> (r: &mut Self)
        ensures
            (*r)@ == old(self)@.with_line(
                func@ + "("@ + join(strs_view(args@), ", "@) + ");"@,
            ),
            *final(self) == *final(r),
    {
        let mut line = String::new();
        line.append(func);
        line.append("(");
        let joined = join_strs(args, ", ");
        line.append(joined.as_str());
        line.append(");");
        assert(line@ =~= func@ + "("@ + join(strs_view(args@), ", "@) + ");"@);
        self.push_line(line);
        self
    }

    /// Appends a return statement: `return expr;`.
    pub fn ret(&mut self, expr: &str) -> (r: &mut Self)
        ensures
            (*r)@ == old(self)@.with_line("return "@ + expr@ + ";"@),
            *final(self) == *final(r),
    {
        let mut line = String::new();
        line.append("return ");
        line.append(expr);
        line.append(";");
        assert(line@ =~= "return "@ + expr@ + ";"@);
        self.push_line(line);
        self
    }

    /// Injects a line into the function body exactly as given.
    pub fn raw(&mut self, raw_code: &str) -> (r: &mut Self)
        ensures
            (*r)@ == old(self)@.with_line(raw_code@),
            *final(self) == *final(r),
    {
        self.push_line(raw_code.to_owned());
        self
    }

    fn write_to(&self, out: &mut String)
        ensures
            final(out)@ == old(out)@ + function_text(self@),
    {
        let mut params: Vec<String> = Vec::new();
        let ghost ps = self@.params;
        let n = self.args.len();
        let mut i: usize = 0;
        while i < n
            invariant
                n == self.args@.len(),
                ps == self@.params,
                i <= n,
                strings_view(params@) == param_texts(ps.take(i as int)),
            decreases n - i,
        {
            let param = &self.args[i];
            let mut text = String::new();
            param.0.write_to(&mut text);
            text.append(" ");
            text.append(param.1.as_str());
            assert(text@ =~= typed_name(ps[i as int].0, ps[i as int].1));
            let ghost before = params@;
            params.push(text);
            assert(strings_view(params@) =~= strings_view(before).push(text@));
            assert(param_texts(ps.take(i + 1)) =~= param_texts(ps.take(i as int)).push(
                typed_name(ps[i as int].0, ps[i as int].1),
            ));
            i += 1;
        }
        assert(ps.take(n as int) =~= ps);
        let joined = join_strings(&params, ", ");
        self.return_type.write_to(out);
        out.append(" ");
        out.append(self.name.as_str());
        out.append("(");
        out.append(joined.as_str());
        out.append(") {\n");
        let ghost after_signature = out@;
        let ghost ls = self@.body;
        let m = self.body.len();
        let mut j: usize = 0;
        while j < m
            invariant
                m == self.body@.len(),
                ls == self@.body,
                j <= m,
                out@ == after_signature + concat(body_lines(ls.take(j as int))),
            decreases m - j,
        {
            out.append("    ");
            out.append(self.body[j].as_str());
            out.append("\n");
            proof {
                assert(body_lines(ls.take(j + 1)) =~= body_lines(ls.take(j as int)).push(
                    body_line(ls[j as int]),
                ));
                lemma_concat_push(body_lines(ls.take(j as int)), body_line(ls[j as int]));
            }
            assert(out@ =~= after_signature + concat(body_lines(ls.take(j + 1))));
            j += 1;
        }
        assert(ls.take(m as int) =~= ls);
        out.append("}\n\n");
        assert(final(out)@ =~= old(out)@ + function_text(self@));
    }
}

/// What a compilation unit holds, section by section, in insertion order.
#[verifier::ext_equal]
pub struct UnitView {
    pub sys_includes: Seq<Seq<char>>,
    pub local_includes: Seq<Seq<char>>,
    pub definitions: Seq<Seq<char>>,
    pub functions: Seq<FunctionView>,
}

impl UnitView {
    pub open spec fn with_sys_include(self, h: Seq<char>) -> UnitView {
        UnitView { sys_includes: self.sys_includes.push(h), ..self }
    }

    pub open spec fn with_local_include(self, h: Seq<char>) -> UnitView {
        UnitView { local_includes: self.local_includes.push(h), ..self }
    }

    pub open spec fn with_definition(self, d: Seq<char>) -> UnitView {
        UnitView { definitions: self.definitions.push(d), ..self }
    }

    pub open spec fn with_function(self, f: FunctionView) -> UnitView {
        UnitView { functions: self.functions.push(f), ..self }
    }

    pub open spec fn empty() -> UnitView {
        UnitView {
            sys_includes: Seq::empty(),
            local_includes: Seq::empty(),
            definitions: Seq::empty(),
            functions: Seq::empty(),
        }
    }
}

/// The include lines, system headers first, and a blank line after them
/// when there is any.
pub open spec fn includes_text(m: UnitView) -> Seq<char> {
    include_section(m.sys_includes, m.local_includes)
}

/// A raw definition followed by a blank line.
pub open spec fn definition_text(d: Seq<char>) -> Seq<char> {
    d + "\n\n"@
}

pub open spec fn definition_texts(ds: Seq<Seq<char>>) -> Seq<Seq<char>> {
    ds.map_values(|d: Seq<char>| definition_text(d))
}

/// The whole source text: includes, raw definitions and functions, each
/// section in insertion order.
pub open spec fn unit_text(m: UnitView) -> Seq<char> {
    includes_text(m) + concat(definition_texts(m.definitions)) + concat(
        function_texts(m.functions),
    )
}

/// The top-level compilation unit container.
#[derive(Clone, Debug)]
pub struct CModule {
    sys_includes: Vec<String>,
    local_includes: Vec<String>,
    typedefs_and_structs: Vec<String>,
    functions: Vec<CFunction>,
}

impl View for CModule {
    type V = UnitView;

    closed spec fn view(&self) -> UnitView {
        UnitView {
            sys_includes: strings_view(self.sys_includes@),
            local_includes: strings_view(self.local_includes@),
            definitions: strings_view(self.typedefs_and_structs@),
            functions: self.functions@.map_values(|f: CFunction| f@),
        }
    }
}

impl Default for CModule {
    fn default() -> (r: Self)
        ensures
            r@ == UnitView::empty(),
    {
        CModule::new()
    }
}

impl CModule {
    /// An empty compilation unit.
    pub fn new() -> (r: Self)
        ensures
            r@ == UnitView::empty(),
    {
        let r = CModule {
            sys_includes: Vec::new(),
            local_includes: Vec::new(),
            typedefs_and_structs: Vec::new(),
            functions: Vec::new(),
        };
        assert(r@ =~= UnitView::empty());
        r
    }

    /// Adds a system header, included as `#include <header>`.
    pub fn include_sys(&mut self, header: &str) -> (r: &mut Self)
        ensures
            (*r)@ == old(self)@.with_sys_include(header@),
            *final(self) == *final(r),
    {
        self.sys_includes.push(header.to_owned());
        assert(strings_view(self.sys_includes@) =~= old(self)@.sys_includes.push(header@));
        self
    }

    /// Adds a local header, included as `#include "header"`.
    pub fn include_local(&mut self, header: &str) -> (r: &mut Self)
        ensures
(*r)@ == old(self)@.with_local_include(header@),
            *final(self) == *final(r),
    {
        self.local_includes.push(header.to_owned());
        assert(strings_view(self.local_includes@) =~= old(self)@.local_includes.push(header@));
        self
    }

    /// Adds a type definition or struct written as raw text.
    pub fn add_raw_definition(&mut self, structure: &str) -> (r: &mut Self)
        ensures
            (*r)@ == old(self)@.with_definition(structure@),
            *final(self) == *final(r),
    {
        self.typedefs_and_structs.push(structure.to_owned());
        assert(strings_view(self.typedefs_and_structs@) =~= old(self)@.definitions.push(
            structure@,
        ));
        self
    }

    /// Adds a function definition.
    pub fn add_function(&mut self, func: CFunction) -> (r: &mut Self)
        ensures
            (*r)@ == old(self)@.with_function(func@),
            *final(self) == *final(r),
    {
        let ghost before = self.functions@;
        self.functions.push(func);
        assert(self.functions@.map_values(|x: CFunction| x@) =~= before.map_values(
            |x: CFunction| x@,
        ).push(func@));
        self
    }

    /// Serializes the compilation unit into C source text: the includes,
    /// the raw definitions and the functions, in that order.
    pub fn generate(&self) -> (r: String)
        ensures
            r@ == unit_text(self@),
    {
        let mut out = String::new();
        write_include_section(&self.sys_includes, &self.local_includes, &mut out);
        assert(out@ =~= includes_text(self@));
        // raw definitions
        let ghost after_includes = out@;
        let ghost ds = self@.definitions;
        let k = self.typedefs_and_structs.len();
        let mut a: usize = 0;
        while a < k
            invariant
                k == self.typedefs_and_structs@.len(),
                ds == self@.definitions,
                a <= k,
                out@ == after_includes + concat(definition_texts(ds.take(a as int))),
            decreases k - a,
        {
            out.append(self.typedefs_and_structs[a].as_str());
            out.append("\n\n");
            proof {
                assert(definition_texts(ds.take(a + 1)) =~= definition_texts(ds.take(a as int)).push(
                    definition_text(ds[a as int]),
                ));
                lemma_concat_push(definition_texts(ds.take(a as int)), definition_text(ds[a as int]));
            }
            assert(out@ =~= after_includes + concat(definition_texts(ds.take(a + 1))));
            a += 1;
        }
        assert(ds.take(k as int) =~= ds);
        // functions
        let ghost after_definitions = out@;
        let ghost fs = self@.functions;
        let q = self.functions.len();
        let mut b: usize = 0;
        while b < q
            invariant
                q == self.functions@.len(),
                fs == self@.functions,
                b <= q,
                out@ == after_definitions + concat(function_texts(fs.take(b as int))),
            decreases q - b,
        {
            self.functions[b].write_to(&mut out);
            proof {
                assert(function_texts(fs.take(b + 1)) =~= function_texts(fs.take(b as int)).push(
                    function_text(fs[b as int]),
                ));
                lemma_concat_push(function_texts(fs.take(b as int)), function_text(fs[b as int]));
            }
            assert(out@ =~= after_definitions + concat(function_texts(fs.take(b + 1))));
            b += 1;
        }
        assert(fs.take(q as int) =~= fs);
        assert(out@ =~= unit_text(self@));
        out
    }
}

} // verus!
