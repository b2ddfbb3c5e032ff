//! Statement blocks: the lines of a C function body, with nested blocks
//! indented by four spaces.
use vstd::prelude::*;
use crate::ctype::{declarator_text, CType};
use crate::text::{join, join_strs, strings_view, strs_view};

verus! {

/// `t name = init;`, with the array length after the name for an array.
pub open spec fn declare_line(t: CType, name: Seq<char>, init: Seq<char>) -> Seq<char> {
    declarator_text(t, name) + " = "@ + init + ";"@
}

/// `target = expr;`
pub open spec fn assign_line(target: Seq<char>, expr: Seq<char>) -> Seq<char> {
    target + " = "@ + expr + ";"@
}

/// `func(a, b, ...);`
pub open spec fn call_line(func: Seq<char>, args: Seq<Seq<char>>) -> Seq<char> {
    func + "("@ + join(args, ", "@) + ");"@
}

/// `return expr;`
pub open spec fn return_line(expr: Seq<char>) -> Seq<char> {
    "return "@ + expr + ";"@
}

/// `if (cond) {`
pub open spec fn if_header(cond: Seq<char>) -> Seq<char> {
    "if ("@ + cond + ") {"@
}

/// `while (cond) {`
pub open spec fn while_header(cond: Seq<char>) -> Seq<char> {
    "while ("@ + cond + ") {"@
}

/// `for (init; cond; post) {`
pub open spec fn for_header(init: Seq<char>, cond: Seq<char>, post: Seq<char>) -> Seq<char> {
    "for ("@ + init + "; "@ + cond + "; "@ + post + ") {"@
}

/// `switch (expr) {`
pub open spec fn switch_header(expr: Seq<char>) -> Seq<char> {
    "switch ("@ + expr + ") {"@
}

/// `case label:`
pub open spec fn case_line(label: Seq<char>) -> Seq<char> {
    "case "@ + label + ":"@
}

/// One line of a nested block, indented by four spaces.
pub open spec fn indent_line(line: Seq<char>) -> Seq<char> {
    "    "@ + line
}

/// The lines of a nested block, each indented by four spaces.
pub open spec fn indent(lines: Seq<Seq<char>>) -> Seq<Seq<char>> {
    lines.map_values(|l: Seq<char>| indent_line(l))
}

/// A control statement: its header, the nested lines indented, and `}`.
pub open spec fn nested(header: Seq<char>, inner: Seq<Seq<char>>) -> Seq<Seq<char>> {
    seq![header] + indent(inner) + seq!["}"@]
}

/// An indentation-aware code block wrapper tracking control statements.
#[derive(Clone, Debug)]
pub struct Block {
    lines: Vec<String>,
}

impl View for Block {
    type V = Seq<Seq<char>>;

    /// The lines of the block, in order.
    closed spec fn view(&self) -> Seq<Seq<char>> {
        strings_view(self.lines@)
    }
}

impl Default for Block {
    fn default() -> (b: Self)
        ensures
            b@ == Seq::<Seq<char>>::empty(),
    {
        Block::new()
    }
}

impl Block {
    /// An empty block.
    pub fn new() -> (b: Self)
        ensures
            b@ == Seq::<Seq<char>>::empty(),
    {
        let b = Block { lines: Vec::new() };
        assert(b@ =~= Seq::<Seq<char>>::empty());
        b
    }

    /// The lines of the block.
    pub(crate) fn lines(&self) -> (r: &Vec<String>)
        ensures
            strings_view(r@) == self@,
    {
        &self.lines
    }

    fn push_line(&mut self, line: String)
        ensures
            final(self)@ == old(self)@.push(line@),
    {
        self.lines.push(line);
        assert(final(self)@ =~= old(self)@.push(line@));
    }

    /// Appends a structured variable declaration. Handles arrays natively.
    pub fn declare(&mut self, ctype: CType, name: &str, init: &str) -> (r: &mut Self)
        ensures
            (*r)@ == old(self)@.push(declare_line(ctype, name@, init@)),
            *final(self) == *final(r),
    {
        let mut line = String::new();
        ctype.write_declarator(name, &mut line);
        line.append(" = ");
        line.append(init);
        line.append(";");
        assert(line@ =~= declare_line(ctype, name@, init@));
        self.push_line(line);
        self
    }

    /// Appends `target = expr;`.
    pub fn assign(&mut self, target: &str, expr: &str) -> (r: &mut Self)
        ensures
            (*r)@ == old(self)@.push(assign_line(target@, expr@)),
            *final(self) == *final(r),
    {
        let mut line = String::new();
        line.append(target);
        line.append(" = ");
        line.append(expr);
        line.append(";");
        assert(line@ =~= assign_line(target@, expr@));
        self.push_line(line);
        self
    }

    /// Appends a call statement, the arguments separated by `, `.
    pub fn call(&mut self, func: &str, args: &[&str]) -> (r: &mut Self)
        ensures
            (*r)@ == old(self)@.push(call_line(func@, strs_view(args@))),
            *final(self) == *final(r),
    {
        let mut line = String::new();
        line.append(func);
        line.append("(");
        let joined = join_strs(args, ", ");
        line.append(joined.as_str());
        line.append(");");
        assert(line@ =~= call_line(func@, strs_view(args@)));
        self.push_line(line);
        self
    }

    /// Appends `return expr;`.
    pub fn ret(&mut self, expr: &str) -> (r: &mut Self)
        ensures
            (*r)@ == old(self)@.push(return_line(expr@)),
            *final(self) == *final(r),
    {
        let mut line = String::new();
        line.append("return ");
        line.append(expr);
        line.append(";");
        assert(line@ =~= return_line(expr@));
        self.push_line(line);
        self
    }

    /// Appends `break;`.
    pub fn break_stmt(&mut self) -> (r: &mut Self)
        ensures
            (*r)@ == old(self)@.push("break;"@),
            *final(self) == *final(r),
    {
        self.push_line("break;".to_owned());
        self
    }

    /// Appends a line exactly as given.
    pub fn raw(&mut self, raw_code: &str) -> (r: &mut Self)
        ensures
            (*r)@ == old(self)@.push(raw_code@),
            *final(self) == *final(r),
    {
        self.push_line(raw_code.to_owned());
        self
    }

    /// Emits a conditional block: `if (condition) {`, the lines that `f`
    /// writes into a fresh block, indented, and `}`.
    pub fn if_stmt<F>(&mut self, condition: &str, f: F) -> (r: &mut Self) where
        F: FnOnce(&mut Block),

        requires
            forall|b: &mut Block| (*b)@ == Seq::<Seq<char>>::empty() ==> call_requires(f, (b,)),
        ensures
            exists|m: &mut Block|
                (*m)@ == Seq::<Seq<char>>::empty() && call_ensures(f, (m,), ()) && (*r)@ == old(
                    self,
                )@ + nested(if_header(condition@), final(m)@),
            *final(self) == *final(r),
    {
        let mut header = String::new();
        header.append("if (");
        header.append(condition);
        header.append(") {");
        assert(header@ =~= if_header(condition@));
        self.wrap_sub_block(header, f);
        self
    }

    /// Emits a loop block: `while (condition) {`, the lines that `f`
    /// writes into a fresh block, indented, and `}`.
    pub fn while_loop<F>(&mut self, condition: &str, f: F) -> (r: &mut Self) where
        F: FnOnce(&mut Block),

        requires
            forall|b: &mut Block| (*b)@ == Seq::<Seq<char>>::empty() ==> call_requires(f, (b,)),
        ensures
            exists|m: &mut Block|
                (*m)@ == Seq::<Seq<char>>::empty() && call_ensures(f, (m,), ()) && (*r)@ == old(
                    self,
                )@ + nested(while_header(condition@), final(m)@),
            *final(self) == *final(r),
    {
        let mut header = String::new();
        header.append("while (");
        header.append(condition);
        header.append(") {");
        assert(header@ =~= while_header(condition@));
        self.wrap_sub_block(header, f);
        self
    }

    /// Emits a classic loop: `for (init; cond; post) {`, the lines that `f`
    /// writes into a fresh block, indented, and `}`.
    pub fn for_loop<F>(&mut self, init: &str, cond: &str, post: &str, f: F) -> (r: &mut Self) where
        F: FnOnce(&mut Block),

        requires
            forall|b: &mut Block| (*b)@ == Seq::<Seq<char>>::empty() ==> call_requires(f, (b,)),
        ensures
            exists|m: &mut Block|
                (*m)@ == Seq::<Seq<char>>::empty() && call_ensures(f, (m,), ()) && (*r)@ == old(
                    self,
                )@ + nested(for_header(init@, cond@, post@), final(m)@),
            *final(self) == *final(r),
    {
        let mut header = String::new();
        header.append("for (");
        header.append(init);
        header.append("; ");
        header.append(cond);
        header.append("; ");
        header.append(post);
        header.append(") {");
        assert(header@ =~= for_header(init@, cond@, post@));
        self.wrap_sub_block(header, f);
        self
    }

    /// Emits a multi-branch block: `switch (expression) {`, the lines that
    /// `f` writes into a fresh block, indented, and `}`.
    pub fn switch_stmt<F>(&mut self, expression: &str, f: F) -> (r: &mut Self) where
        F: FnOnce(&mut Block),

        requires
            forall|b: &mut Block| (*b)@ == Seq::<Seq<char>>::empty() ==> call_requires(f, (b,)),
        ensures
            exists|m: &mut Block|
                (*m)@ == Seq::<Seq<char>>::empty() && call_ensures(f, (m,), ()) && (*r)@ == old(
                    self,
                )@ + nested(switch_header(expression@), final(m)@),
            *final(self) == *final(r),
    {
        let mut header = String::new();
        header.append("switch (");
        header.append(expression);
        header.append(") {");
        assert(header@ =~= switch_header(expression@));
        self.wrap_sub_block(header, f);
        self
    }

    /// Appends `case label:`.
    pub fn case(&mut self, label: &str) -> (r: &mut Self)
        ensures
            (*r)@ == old(self)@.push(case_line(label@)),
            *final(self) == *final(r),
    {
        let mut line = String::new();
        line.append("case ");
        line.append(label);
        line.append(":");
        assert(line@ =~= case_line(label@));
        self.push_line(line);
        self
    }

    /// Appends `default:`.
    pub fn default_case(&mut self) -> (r: &mut Self)
        ensures
            (*r)@ == old(self)@.push("default:"@),
            *final(self) == *final(r),
    {
        self.push_line("default:".to_owned());
        self
    }

    /// Pushes `header`, the nested block that `f` writes, and `}`.
    fn wrap_sub_block<F>(&mut self, header: String, f: F) where
        F: FnOnce(&mut Block),

        requires
            forall|b: &mut Block| (*b)@ == Seq::<Seq<char>>::empty() ==> call_requires(f, (b,)),
        ensures
            exists|m: &mut Block|
                (*m)@ == Seq::<Seq<char>>::empty() && call_ensures(f, (m,), ()) && final(self)@
                    == old(self)@ + nested(header@, final(m)@),
    {
        self.push_line(header);
        let ghost after_header = self@;
        self.embed_sub_block(f);
        let ghost after_embed = self@;
        self.push_line("}".to_owned());
        proof {
            let m = choose|m: &mut Block|
                (*m)@ == Seq::<Seq<char>>::empty() && call_ensures(f, (m,), ()) && after_embed
                    == after_header + indent(final(m)@);
            assert(self@ =~= old(self)@ + nested(header@, final(m)@));
        }
    }

    /// Runs `f` on a fresh block and appends its lines, each indented by
    /// four spaces.
    fn embed_sub_block<F>(&mut self, f: F) where
        F: FnOnce(&mut Block),

        requires
            forall|b: &mut Block| (*b)@ == Seq::<Seq<char>>::empty() ==> call_requires(f, (b,)),
        ensures
            exists|m: &mut Block|
                (*m)@ == Seq::<Seq<char>>::empty() && call_ensures(f, (m,), ()) && final(self)@
                    == old(self)@ + indent(final(m)@),
    {
        let mut sub_block = Block::new();
        f(&mut sub_block);
        let ghost inner = sub_block@;
        let n = sub_block.lines.len();
        let mut i: usize = 0;
        while i < n
            invariant
                n == sub_block.lines@.len(),
                inner == sub_block@,
                i <= n,
                self@ == old(self)@ + indent(inner.take(i as int)),
            decreases n - i,
        {
            let mut line = String::new();
            line.append("    ");
            line.append(sub_block.lines[i].as_str());
            assert(indent(inner.take(i + 1)) =~= indent(inner.take(i as int)).push(
                indent_line(inner[i as int]),
            ));
            self.push_line(line);
            i += 1;
        }
        assert(inner.take(n as int) =~= inner);
    }
}

} // verus!
