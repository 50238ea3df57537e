use crate::types::base::{
    type_model, types_model, Class, FnTy, Function, Lit, Ty, Type, TypeLiteral,
};
use vstd::prelude::*;
use vstd::string::StringExecFns;

verus! {

/// The text of one decimal digit.
pub open spec fn digit_text(d: nat) -> Seq<char> {
    if d == 0 {
        "0"@
    } else if d == 1 {
        "1"@
    } else if d == 2 {
        "2"@
    } else if d == 3 {
        "3"@
    } else if d == 4 {
        "4"@
    } else if d == 5 {
        "5"@
    } else if d == 6 {
        "6"@
    } else if d == 7 {
        "7"@
    } else if d == 8 {
        "8"@
    } else {
        "9"@
    }
}

/// A natural number in decimal, without leading zeros.
pub open spec fn decimal_nat(n: nat) -> Seq<char>
    decreases n,
{
    if n < 10 {
        digit_text(n)
    } else {
        decimal_nat(n / 10) + digit_text(n % 10)
    }
}

/// An integer in decimal, with a minus sign if it is negative.
pub open spec fn decimal(i: int) -> Seq<char> {
    if i < 0 {
        "-"@ + decimal_nat((-i) as nat)
    } else {
        decimal_nat(i as nat)
    }
}

/// The parts, with `sep` between each two neighbours.
pub open spec fn joined(parts: Seq<Seq<char>>, sep: Seq<char>) -> Seq<char>
    decreases parts.len(),
{
    if parts.len() == 0 {
        Seq::empty()
    } else if parts.len() == 1 {
        parts[0]
    } else {
        joined(parts.drop_last(), sep) + sep + parts.last()
    }
}

/// A byte string as a bracketed list of numbers.
pub open spec fn bytes_text(b: Seq<u8>) -> Seq<char> {
    "["@ + joined(Seq::new(b.len(), |i: int| decimal_nat(b[i] as nat)), ", "@) + "]"@
}

/// A literal's value as it is written between the brackets of `Literal[..]`.
pub open spec fn literal_inside(l: Lit) -> Seq<char> {
    match l {
        Lit::Str(s) => "\""@ + s + "\""@,
        Lit::Bytes(b) => "b\""@ + bytes_text(b) + "\""@,
        Lit::Int(i) => decimal(i as int),
        Lit::Float(s) => s,
        Lit::Bool(b) => if b {
            "True"@
        } else {
            "False"@
        },
        Lit::NoneLit => "None"@,
        Lit::EllipsisLit => "..."@,
    }
}

/// A literal type on its own.
pub open spec fn render_literal(l: Lit) -> Seq<char> {
    "Literal["@ + literal_inside(l) + "]"@
}

/// Every member is a literal.
pub open spec fn all_literals(ts: Seq<Ty>) -> bool {
    forall|i: int| 0 <= i < ts.len() ==> #[trigger] ts[i] is Literal
}

/// The member's value where it is a literal; used only for such members.
pub open spec fn inside_of(t: Ty) -> Seq<char> {
    match t {
        Ty::Literal(l) => literal_inside(l),
        _ => Seq::empty(),
    }
}

/// The canonical text of a type.
pub open spec fn render(t: Ty) -> Seq<char>
    decreases t,
{
    match t {
        Ty::Never => "Never"@,
        Ty::Any => "Any"@,
        Ty::Unknown => "Unknown"@,
        Ty::Str => "str"@,
        Ty::Int => "int"@,
        Ty::Float => "float"@,
        Ty::Bool => "bool"@,
        Ty::NoneType => "None"@,
        Ty::Ellipsis => "..."@,
        Ty::Tuple(ts) => "tuple["@ + joined(render_all(ts), ", "@) + "]"@,
        Ty::Literal(l) => render_literal(l),
        Ty::Function(f) => render_function(f),
        Ty::PartialFunction(_) => "Partial Func"@,
        Ty::Class(c) => "type["@ + c.name + "]"@,
        Ty::Union(ts) => if all_literals(ts) {
            "Literal["@ + joined(Seq::new(ts.len(), |i: int| inside_of(ts[i])), ", "@) + "]"@
        } else {
            "Union["@ + joined(render_all(ts), ", "@) + "]"@
        },
        Ty::Module(name, _) => "module["@ + name + "]"@,
    }
}

/// The canonical text of each of `ts`.
pub open spec fn render_all(ts: Seq<Ty>) -> Seq<Seq<char>>
    decreases ts,
{
    Seq::new(ts.len(), |i: int| if 0 <= i < ts.len() { render(ts[i]) } else { Seq::empty() })
}

/// The smaller of two lengths.
pub open spec fn shorter(a: nat, b: nat) -> nat {
    if a <= b {
        a
    } else {
        b
    }
}

/// A function's signature: each name with its parameter's type, then the
/// result. Names and parameters are paired as far as both reach.
pub open spec fn render_function(f: FnTy) -> Seq<char>
    decreases f,
{
    "("@ + joined(render_params(f.names, f.params), ", "@) + ") -> "@ + render(*f.ret)
}

/// Each name with its parameter's type, as far as both reach.
pub open spec fn render_params(names: Seq<Seq<char>>, params: Seq<Ty>) -> Seq<Seq<char>>
    decreases params,
{
    Seq::new(
        shorter(names.len(), params.len()),
        |i: int|
            if 0 <= i < params.len() {
                names[i] + ": "@ + render(params[i])
            } else {
                Seq::empty()
            },
    )
}

/// Joining one part more puts the separator and the part behind what was
/// joined, unless it is the first.
pub proof fn lemma_joined_step(parts: Seq<Seq<char>>, sep: Seq<char>, i: int)
    requires
        0 <= i < parts.len(),
    ensures
        joined(parts.subrange(0, i + 1), sep) == if i == 0 {
            parts[0]
        } else {
            joined(parts.subrange(0, i), sep) + sep + parts[i]
        },
{
    assert(parts.subrange(0, i + 1).drop_last() =~= parts.subrange(0, i));
}

fn digit_str(d: u64) -> (r: &'static str)
    requires
        d < 10,
    ensures
        r@ == digit_text(d as nat),
{
    if d == 0 {
        "0"
    } else if d == 1 {
        "1"
    } else if d == 2 {
        "2"
    } else if d == 3 {
        "3"
    } else if d == 4 {
        "4"
    } else if d == 5 {
        "5"
    } else if d == 6 {
        "6"
    } else if d == 7 {
        "7"
    } else if d == 8 {
        "8"
    } else {
        "9"
    }
}

/// Write a natural number in decimal behind what `out` holds.
pub fn write_decimal_nat(out: &mut String, n: u64)
    ensures
        final(out)@ == old(out)@ + decimal_nat(n as nat),
    decreases n,
{
    if n >= 10 {
        write_decimal_nat(out, n / 10);
    }
    out.append(digit_str(n % 10));
    assert(out@ =~= old(out)@ + decimal_nat(n as nat));
}

fn write_decimal(out: &mut String, i: i64)
    ensures
        final(out)@ == old(out)@ + decimal(i as int),
{
    if i < 0 {
        out.append("-");
        let magnitude: u64 = if i == i64::MIN {
            9223372036854775808u64
        } else {
            (-i) as u64
        };
        write_decimal_nat(out, magnitude);
        assert(out@ =~= old(out)@ + decimal(i as int));
    } else {
        write_decimal_nat(out, i as u64);
    }
}

fn write_bytes(out: &mut String, b: &Vec<u8>)
    ensures
        final(out)@ == old(out)@ + bytes_text(b@),
{
    let ghost parts = Seq::new(b@.len(), |i: int| decimal_nat(b@[i] as nat));
    out.append("[");
    let ghost start = out@;
    let mut i: usize = 0;
    assert(out@ =~= start + joined(parts.subrange(0, 0), ", "@));
    while i < b.len()
        invariant
            i <= b.len(),
            parts == Seq::new(b@.len(), |i: int| decimal_nat(b@[i] as nat)),
            out@ == start + joined(parts.subrange(0, i as int), ", "@),
        decreases b.len() - i,
    {
        proof {
            lemma_joined_step(parts, ", "@, i as int);
        }
        if i > 0 {
            out.append(", ");
        }
        write_decimal_nat(out, b[i] as u64);
        assert(out@ =~= start + joined(parts.subrange(0, i + 1), ", "@));
        i += 1;
    }
    assert(parts.subrange(0, b.len() as int) =~= parts);
    out.append("]");
    assert(out@ =~= old(out)@ + bytes_text(b@));
}

fn display_type_literal_inside(out: &mut String, literal: &TypeLiteral)
    ensures
        final(out)@ == old(out)@ + literal_inside(literal@),
{
    match literal {
        TypeLiteral::StringLiteral(s) => {
            out.append("\"");
            out.append(s.as_str());
            out.append("\"");
            assert(out@ =~= old(out)@ + literal_inside(literal@));
        },
        TypeLiteral::BytesLiteral(b) => {
            out.append("b\"");
            write_bytes(out, b);
            out.append("\"");
            assert(out@ =~= old(out)@ + literal_inside(literal@));
        },
        TypeLiteral::IntLiteral(i) => {
            write_decimal(out, *i);
        },
        TypeLiteral::FloatLiteral(s) => {
            out.append(s.as_str());
        },
        TypeLiteral::BooleanLiteral(b) => {
            out.append(
                if *b {
                    "True"
                } else {
                    "False"
                },
            );
        },
        TypeLiteral::NoneLiteral => {
            out.append("None");
        },
        TypeLiteral::EllipsisLiteral => {
            out.append("...");
        },
    }
}

fn write_literal(out: &mut String, literal: &TypeLiteral)
    ensures
        final(out)@ == old(out)@ + render_literal(literal@),
{
    out.append("Literal[");
    display_type_literal_inside(out, literal);
    out.append("]");
    assert(out@ =~= old(out)@ + render_literal(literal@));
}

fn only_literals(types: &Vec<Type>) -> (r: bool)
    ensures
        r == all_literals(types_model(types@)),
{
    let mut i: usize = 0;
    while i < types.len()
        invariant
            i <= types.len(),
            forall|j: int| 0 <= j < i ==> #[trigger] types_model(types@)[j] is Literal,
        decreases types.len() - i,
    {
        match &types[i] {
            Type::Literal(_) => {},
            _ => {
                assert(!(types_model(types@)[i as int] is Literal));
                return false;
            },
        }
        i += 1;
    }
    true
}

fn write_types(out: &mut String, types: &Vec<Type>)
    ensures
        final(out)@ == old(out)@ + joined(render_all(types_model(types@)), ", "@),
    decreases types,
{
    let ghost parts = render_all(types_model(types@));
    let ghost start = out@;
    let mut i: usize = 0;
    assert(out@ =~= start + joined(parts.subrange(0, 0), ", "@));
    while i < types.len()
        invariant
            i <= types.len(),
            parts == render_all(types_model(types@)),
            out@ == start + joined(parts.subrange(0, i as int), ", "@),
        decreases types.len() - i,
    {
        proof {
            lemma_joined_step(parts, ", "@, i as int);
        }
        if i > 0 {
            out.append(", ");
        }
        write_type(out, &types[i]);
        assert(out@ =~= start + joined(parts.subrange(0, i + 1), ", "@));
        i += 1;
    }
    assert(parts.subrange(0, types.len() as int) =~= parts);
}

fn write_insides(out: &mut String, types: &Vec<Type>)
    requires
        all_literals(types_model(types@)),
    ensures
        final(out)@ == old(out)@ + joined(
            Seq::new(types@.len(), |i: int| inside_of(types_model(types@)[i])),
            ", "@,
        ),
{
    let ghost ts = types_model(types@);
    let ghost parts = Seq::new(types@.len(), |i: int| inside_of(ts[i]));
    let ghost start = out@;
    let mut i: usize = 0;
    assert(out@ =~= start + joined(parts.subrange(0, 0), ", "@));
    while i < types.len()
        invariant
            i <= types.len(),
            ts == types_model(types@),
            all_literals(ts),
            parts == Seq::new(types@.len(), |i: int| inside_of(ts[i])),
            out@ == start + joined(parts.subrange(0, i as int), ", "@),
        decreases types.len() - i,
    {
        proof {
            lemma_joined_step(parts, ", "@, i as int);
            assert(ts[i as int] is Literal);
        }
        if i > 0 {
            out.append(", ");
        }
        match &types[i] {
            Type::Literal(l) => {
                display_type_literal_inside(out, l);
            },
            _ => {},
        }
        assert(out@ =~= start + joined(parts.subrange(0, i + 1), ", "@));
        i += 1;
    }
    assert(parts.subrange(0, types.len() as int) =~= parts);
}

fn write_function(out: &mut String, func: &Function)
    ensures
        final(out)@ == old(out)@ + render_function(func@),
    decreases func,
{
    let ghost f = func@;
    let n = if func.arg_names.len() <= func.args.len() {
        func.arg_names.len()
    } else {
        func.args.len()
    };
    let ghost parts = render_params(f.names, f.params);
    out.append("(");
    let ghost start = out@;
    let mut i: usize = 0;
    assert(out@ =~= start + joined(parts.subrange(0, 0), ", "@));
    while i < n
        invariant
            i <= n,
            n == shorter(f.names.len(), f.params.len()),
            n <= func.arg_names.len(),
            n <= func.args.len(),
            f == func@,
            parts.len() == n,
            forall|j: int| 0 <= j < n ==> #[trigger] parts[j] == f.names[j] + ": "@ + render(
                f.params[j],
            ),
            out@ == start + joined(parts.subrange(0, i as int), ", "@),
        decreases n - i,
    {
        proof {
            lemma_joined_step(parts, ", "@, i as int);
        }
        if i > 0 {
            out.append(", ");
        }
        let ghost before = out@;
        out.append(func.arg_names[i].as_str());
        out.append(": ");
        write_type(out, &func.args[i]);
        assert(out@ =~= before + parts[i as int]);
        assert(out@ =~= start + joined(parts.subrange(0, i + 1), ", "@));
        i += 1;
    }
    assert(parts.subrange(0, n as int) =~= parts);
    out.append(") -> ");
    write_type(out, &func.ret);
    proof {
        reveal_with_fuel(type_model, 2);
        assert(out@ =~= old(out)@ + ("("@ + joined(parts, ", "@) + ") -> "@ + render(*f.ret)));
    }
}

fn write_type(out: &mut String, t: &Type)
    ensures
        final(out)@ == old(out)@ + render(t@),
    decreases t,
{
    match t {
        Type::Never => out.append("Never"),
        Type::Any => out.append("Any"),
        Type::Unknown => out.append("Unknown"),
        Type::String => out.append("str"),
        Type::Int => out.append("int"),
        Type::Float => out.append("float"),
        Type::Bool => out.append("bool"),
        Type::NoneType => out.append("None"),
        Type::Ellipsis => out.append("..."),
        Type::Tuple(types) => {
            out.append("tuple[");
            write_types(out, types);
            out.append("]");
            assert(out@ =~= old(out)@ + render(t@));
        },
        Type::Literal(l) => write_literal(out, l),
        Type::Function(func) => write_function(out, func),
        Type::PartialFunction(_) => out.append("Partial Func"),
        Type::Class(cls) => {
            proof {
                reveal_with_fuel(type_model, 2);
            }
            out.append("type[");
            out.append(cls.name.as_str());
            out.append("]");
            assert(out@ =~= old(out)@ + render(t@));
        },
        Type::Union(types) => {
            if only_literals(types) {
                out.append("Literal[");
                write_insides(out, types);
            } else {
                out.append("Union[");
                write_types(out, types);
            }
            out.append("]");
            assert(out@ =~= old(out)@ + render(t@));
        },
        Type::Module(name, _) => {
            out.append("module[");
            out.append(name.as_str());
            out.append("]");
            assert(out@ =~= old(out)@ + render(t@));
        },
    }
}

impl TypeLiteral {
    /// The literal as a type, in its canonical text: `Literal[..]`.
    pub fn to_string(&self) -> (r: String)
        ensures
            r@ == render_literal(self@),
    {
        let mut out = String::new();
        write_literal(&mut out, self);
        assert(out@ =~= render_literal(self@));
        out
    }
}

impl Function {
    /// The signature in its canonical text: `(name: type, ..) -> result`.
    pub fn to_string(&self) -> (r: String)
        ensures
            r@ == render_function(self@),
    {
        let mut out = String::new();
        write_function(&mut out, self);
        assert(out@ =~= render_function(self@));
        out
    }
}

impl Class {
    /// The class in its canonical text: `type[Name]`.
    pub fn to_string(&self) -> (r: String)
        ensures
            r@ == "type["@ + self@.name + "]"@,
    {
        let mut out = String::new();
        out.append("type[");
        out.append(self.name.as_str());
        out.append("]");
        assert(out@ =~= "type["@ + self@.name + "]"@);
        out
    }
}

impl Type {
    /// The type in its canonical text.
    pub fn to_string(&self) -> (r: String)
        ensures
            r@ == render(self@),
    {
        let mut out = String::new();
        write_type(&mut out, self);
        assert(out@ =~= render(self@));
        out
    }
}

} // verus!
