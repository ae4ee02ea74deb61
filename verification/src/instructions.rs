use vstd::prelude::*;

use crate::text::{dec_str, u64_text};
use crate::types::Type;

verus! {

/// The full instruction catalog as a mathematical table: for each entry its
/// name, its operand types in order, and its result type. Fixed data, never
/// computed or extended at run time.
pub open spec fn instruction_table() -> Seq<(Seq<char>, Seq<Type>, Type)> {
    seq![
        ("f32.eq"@, seq![Type::F32, Type::F32], Type::I32),
        ("f32.ne"@, seq![Type::F32, Type::F32], Type::I32),
        ("f32.lt"@, seq![Type::F32, Type::F32], Type::I32),
        ("f32.gt"@, seq![Type::F32, Type::F32], Type::I32),
        ("f32.le"@, seq![Type::F32, Type::F32], Type::I32),
        ("f32.ge"@, seq![Type::F32, Type::F32], Type::I32),
        ("f64.eq"@, seq![Type::F64, Type::F64], Type::I32),
        ("f64.ne"@, seq![Type::F64, Type::F64], Type::I32),
        ("f64.lt"@, seq![Type::F64, Type::F64], Type::I32),
        ("f64.gt"@, seq![Type::F64, Type::F64], Type::I32),
        ("f64.le"@, seq![Type::F64, Type::F64], Type::I32),
        ("f64.ge"@, seq![Type::F64, Type::F64], Type::I32),
        ("f32.abs"@, seq![Type::F32], Type::F32),
        ("f32.neg"@, seq![Type::F32], Type::F32),
        ("f32.ceil"@, seq![Type::F32], Type::F32),
        ("f32.floor"@, seq![Type::F32], Type::F32),
        ("f32.trunc"@, seq![Type::F32], Type::F32),
        ("f32.nearest"@, seq![Type::F32], Type::F32),
        ("f32.sqrt"@, seq![Type::F32], Type::F32),
        ("f32.add"@, seq![Type::F32, Type::F32], Type::F32),
        ("f32.sub"@, seq![Type::F32, Type::F32], Type::F32),
        ("f32.mul"@, seq![Type::F32, Type::F32], Type::F32),
        ("f32.div"@, seq![Type::F32, Type::F32], Type::F32),
        ("f32.min"@, seq![Type::F32, Type::F32], Type::F32),
        ("f32.max"@, seq![Type::F32, Type::F32], Type::F32),
        ("f32.copysign"@, seq![Type::F32, Type::F32], Type::F32),
        ("f64.abs"@, seq![Type::F64], Type::F64),
        ("f64.neg"@, seq![Type::F64], Type::F64),
        ("f64.ceil"@, seq![Type::F64], Type::F64),
        ("f64.floor"@, seq![Type::F64], Type::F64),
        ("f64.trunc"@, seq![Type::F64], Type::F64),
        ("f64.nearest"@, seq![Type::F64], Type::F64),
        ("f64.sqrt"@, seq![Type::F64], Type::F64),
        ("f64.add"@, seq![Type::F64, Type::F64], Type::F64),
        ("f64.sub"@, seq![Type::F64, Type::F64], Type::F64),
        ("f64.mul"@, seq![Type::F64, Type::F64], Type::F64),
        ("f64.div"@, seq![Type::F64, Type::F64], Type::F64),
        ("f64.min"@, seq![Type::F64, Type::F64], Type::F64),
        ("f64.max"@, seq![Type::F64, Type::F64], Type::F64),
        ("f64.copysign"@, seq![Type::F64, Type::F64], Type::F64),
        ("i32.trunc_f32_s"@, seq![Type::F32], Type::I32),
        ("i32.trunc_f32_u"@, seq![Type::F32], Type::I32),
        ("i32.trunc_f64_s"@, seq![Type::F64], Type::I32),
        ("i32.trunc_f64_u"@, seq![Type::F64], Type::I32),
        ("i64.trunc_f32_s"@, seq![Type::F32], Type::I64),
        ("i64.trunc_f32_u"@, seq![Type::F32], Type::I64),
        ("i64.trunc_f64_s"@, seq![Type::F64], Type::I64),
        ("i64.trunc_f64_u"@, seq![Type::F64], Type::I64),
        ("f32.convert_i32_s"@, seq![Type::I32], Type::F32),
        ("f32.convert_i32_u"@, seq![Type::I32], Type::F32),
        ("f32.convert_i64_s"@, seq![Type::I64], Type::F32),
        ("f32.convert_i64_u"@, seq![Type::I64], Type::F32),
        ("f32.demote_f64"@, seq![Type::F64], Type::F32),
        ("f64.convert_i32_s"@, seq![Type::I32], Type::F64),
        ("f64.convert_i32_u"@, seq![Type::I32], Type::F64),
        ("f64.convert_i64_s"@, seq![Type::I64], Type::F64),
        ("f64.convert_i64_u"@, seq![Type::I64], Type::F64),
        ("f64.promote_f32"@, seq![Type::F32], Type::F64),
        ("i32.reinterpret_f32"@, seq![Type::F32], Type::I32),
        ("i64.reinterpret_f64"@, seq![Type::F64], Type::I64),
        ("f32.reinterpret_i32"@, seq![Type::I32], Type::F32),
        ("f64.reinterpret_i64"@, seq![Type::I64], Type::F64),
        ("i32.trunc_sat_f32_s"@, seq![Type::F32], Type::I32),
        ("i32.trunc_sat_f32_u"@, seq![Type::F32], Type::I32),
        ("i32.trunc_sat_f64_s"@, seq![Type::F64], Type::I32),
        ("i32.trunc_sat_f64_u"@, seq![Type::F64], Type::I32),
        ("i64.trunc_sat_f32_s"@, seq![Type::F32], Type::I64),
        ("i64.trunc_sat_f32_u"@, seq![Type::F32], Type::I64),
        ("i64.trunc_sat_f64_s"@, seq![Type::F64], Type::I64),
        ("i64.trunc_sat_f64_u"@, seq![Type::F64], Type::I64),
    ]
}

/// The instruction catalog: comparisons, unary and binary arithmetic,
/// truncating and saturating conversions, integer-to-float conversions, and
/// same-width reinterpretation casts, over 32- and 64-bit widths.
#[verifier::rlimit(100)]
pub fn float_instructions() -> (r: [(&'static str, Vec<Type>, Type); 70])
    ensures
        r@.map_values(|e: (&'static str, Vec<Type>, Type)| (e.0@, e.1@, e.2))
            == instruction_table(),
{
    let r: [(&'static str, Vec<Type>, Type); 70] = [
        ("f32.eq", two(Type::F32, Type::F32), Type::I32),
        ("f32.ne", two(Type::F32, Type::F32), Type::I32),
        ("f32.lt", two(Type::F32, Type::F32), Type::I32),
        ("f32.gt", two(Type::F32, Type::F32), Type::I32),
        ("f32.le", two(Type::F32, Type::F32), Type::I32),
        ("f32.ge", two(Type::F32, Type::F32), Type::I32),
        ("f64.eq", two(Type::F64, Type::F64), Type::I32),
        ("f64.ne", two(Type::F64, Type::F64), Type::I32),
        ("f64.lt", two(Type::F64, Type::F64), Type::I32),
        ("f64.gt", two(Type::F64, Type::F64), Type::I32),
        ("f64.le", two(Type::F64, Type::F64), Type::I32),
        ("f64.ge", two(Type::F64, Type::F64), Type::I32),
        ("f32.abs", one(Type::F32), Type::F32),
        ("f32.neg", one(Type::F32), Type::F32),
        ("f32.ceil", one(Type::F32), Type::F32),
        ("f32.floor", one(Type::F32), Type::F32),
        ("f32.trunc", one(Type::F32), Type::F32),
        ("f32.nearest", one(Type::F32), Type::F32),
        ("f32.sqrt", one(Type::F32), Type::F32),
        ("f32.add", two(Type::F32, Type::F32), Type::F32),
        ("f32.sub", two(Type::F32, Type::F32), Type::F32),
        ("f32.mul", two(Type::F32, Type::F32), Type::F32),
        ("f32.div", two(Type::F32, Type::F32), Type::F32),
        ("f32.min", two(Type::F32, Type::F32), Type::F32),
        ("f32.max", two(Type::F32, Type::F32), Type::F32),
        ("f32.copysign", two(Type::F32, Type::F32), Type::F32),
        ("f64.abs", one(Type::F64), Type::F64),
        ("f64.neg", one(Type::F64), Type::F64),
        ("f64.ceil", one(Type::F64), Type::F64),
        ("f64.floor", one(Type::F64), Type::F64),
        ("f64.trunc", one(Type::F64), Type::F64),
        ("f64.nearest", one(Type::F64), Type::F64),
        ("f64.sqrt", one(Type::F64), Type::F64),
        ("f64.add", two(Type::F64, Type::F64), Type::F64),
        ("f64.sub", two(Type::F64, Type::F64), Type::F64),
        ("f64.mul", two(Type::F64, Type::F64), Type::F64),
        ("f64.div", two(Type::F64, Type::F64), Type::F64),
        ("f64.min", two(Type::F64, Type::F64), Type::F64),
        ("f64.max", two(Type::F64, Type::F64), Type::F64),
        ("f64.copysign", two(Type::F64, Type::F64), Type::F64),
        ("i32.trunc_f32_s", one(Type::F32), Type::I32),
        ("i32.trunc_f32_u", one(Type::F32), Type::I32),
        ("i32.trunc_f64_s", one(Type::F64), Type::I32),
        ("i32.trunc_f64_u", one(Type::F64), Type::I32),
        ("i64.trunc_f32_s", one(Type::F32), Type::I64),
        ("i64.trunc_f32_u", one(Type::F32), Type::I64),
        ("i64.trunc_f64_s", one(Type::F64), Type::I64),
        ("i64.trunc_f64_u", one(Type::F64), Type::I64),
        ("f32.convert_i32_s", one(Type::I32), Type::F32),
        ("f32.convert_i32_u", one(Type::I32), Type::F32),
        ("f32.convert_i64_s", one(Type::I64), Type::F32),
        ("f32.convert_i64_u", one(Type::I64), Type::F32),
        ("f32.demote_f64", one(Type::F64), Type::F32),
        ("f64.convert_i32_s", one(Type::I32), Type::F64),
        ("f64.convert_i32_u", one(Type::I32), Type::F64),
        ("f64.convert_i64_s", one(Type::I64), Type::F64),
        ("f64.convert_i64_u", one(Type::I64), Type::F64),
        ("f64.promote_f32", one(Type::F32), Type::F64),
        ("i32.reinterpret_f32", one(Type::F32), Type::I32),
        ("i64.reinterpret_f64", one(Type::F64), Type::I64),
        ("f32.reinterpret_i32", one(Type::I32), Type::F32),
        ("f64.reinterpret_i64", one(Type::I64), Type::F64),
        ("i32.trunc_sat_f32_s", one(Type::F32), Type::I32),
        ("i32.trunc_sat_f32_u", one(Type::F32), Type::I32),
        ("i32.trunc_sat_f64_s", one(Type::F64), Type::I32),
        ("i32.trunc_sat_f64_u", one(Type::F64), Type::I32),
        ("i64.trunc_sat_f32_s", one(Type::F32), Type::I64),
        ("i64.trunc_sat_f32_u", one(Type::F32), Type::I64),
        ("i64.trunc_sat_f64_s", one(Type::F64), Type::I64),
        ("i64.trunc_sat_f64_u", one(Type::F64), Type::I64),
    ];
    proof {
        assert(r@.map_values(|e: (&'static str, Vec<Type>, Type)| (e.0@, e.1@, e.2))
            =~= instruction_table());
    }
    r
}

/// The parameter declarations of an exported function, one `(param ...)`
/// group per operand slot, for the first `n` slots.
pub open spec fn wat_params_spec(inputs: Seq<Type>, n: int) -> Seq<char>
    decreases n,
{
    if n <= 0 {
        Seq::empty()
    } else {
        wat_params_spec(inputs, n - 1) + "(param $x"@ + dec_str((n - 1) as nat) + " "@
            + inputs[n - 1].text_spec() + ")"@
    }
}

/// The argument list that forwards the first `n` parameters to the operation.
pub open spec fn wat_args_spec(inputs: Seq<Type>, n: int) -> Seq<char>
    decreases n,
{
    if n <= 0 {
        Seq::empty()
    } else {
        wat_args_spec(inputs, n - 1) + "(get_local $x"@ + dec_str((n - 1) as nat) + ")"@
    }
}

/// The text of one exported function that just applies the given operation.
pub open spec fn wat_fn_spec(op: Seq<char>, inputs: Seq<Type>, output: Type) -> Seq<char> {
    "\n        (func (export \""@ + op + "\") "@ + wat_params_spec(inputs, inputs.len() as int)
        + " (result "@ + output.text_spec() + ")\n        ("@ + op + " "@ + wat_args_spec(
        inputs,
        inputs.len() as int,
    ) + "))\n        "@
}

/// The text of a module holding one exported function per given instruction,
/// up to entry `n`, before the closing parenthesis.
pub open spec fn wat_module_body_spec(
    instrs: Seq<(&'static str, Vec<Type>, Type)>,
    n: int,
) -> Seq<char>
    decreases n,
{
    if n <= 0 {
        "(module "@
    } else {
        wat_module_body_spec(instrs, n - 1) + wat_fn_spec(
            instrs[n - 1].0@,
            instrs[n - 1].1@,
            instrs[n - 1].2,
        )
    }
}

/// The full module text for a sequence of instructions.
pub open spec fn wat_module_text_spec(instrs: Seq<(&'static str, Vec<Type>, Type)>) -> Seq<char> {
    wat_module_body_spec(instrs, instrs.len() as int) + ")"@
}

/// The binary WebAssembly encoding of a piece of module text, as the text
/// format defines it; a function of the text alone.
pub uninterp spec fn wasm_of(wat: Seq<char>) -> Seq<u8>;

/// Whether a piece of module text parses as WebAssembly text format; like the
/// encoding itself, a function of the text alone.
pub uninterp spec fn wat_parses(wat: Seq<char>) -> bool;

/// Relies on wasmer::wat2wasm: translates WebAssembly text into its binary
/// encoding; whether it succeeds, and what it returns, depend on the text
/// alone, and an error is returned rather than raised.
#[verifier::external_body]
fn wat_to_wasm(text: &str) -> (r: Result<Vec<u8>, String>)
    ensures
        r is Ok <==> wat_parses(text@),
        r matches Ok(b) ==> b@ == wasm_of(text@),
{
    match wasmer::wat2wasm(text.as_bytes()) {
        Ok(c) => Ok(c.into_owned()),
        Err(e) => Err(e.to_string()),
    }
}

/// Returns the WAT for an exported function that just calls the given operation.
pub fn create_wat_fn(operation: &str, inputs: &[Type], output: Type) -> (r: String)
    ensures
        r@ == wat_fn_spec(operation@, inputs@, output),
{
    let mut params = String::new();
    let mut args = String::new();
    let mut i: usize = 0;
    while i < inputs.len()
        invariant
            i <= inputs@.len(),
            params@ == wat_params_spec(inputs@, i as int),
            args@ == wat_args_spec(inputs@, i as int),
        decreases inputs@.len() - i,
    {
        let it = u64_text(i as u64);
        params.append("(param $x");
        params.append(it.as_str());
        params.append(" ");
        params.append(inputs[i].text());
        params.append(")");
        args.append("(get_local $x");
        args.append(it.as_str());
        args.append(")");
        i += 1;
        proof {
            assert(params@ =~= wat_params_spec(inputs@, i as int));
            assert(args@ =~= wat_args_spec(inputs@, i as int));
        }
    }
    let mut r = String::from_str("\n        (func (export \"");
    r.append(operation);
    r.append("\") ");
    r.append(params.as_str());
    r.append(" (result ");
    r.append(output.text());
    r.append(")\n        (");
    r.append(operation);
    r.append(" ");
    r.append(args.as_str());
    r.append("))\n        ");
    proof {
        assert(r@ =~= wat_fn_spec(operation@, inputs@, output));
    }
    r
}

/// Creates the binary of a module containing one exported function per
/// instruction given; an error if the engine cannot encode the text.
pub fn create_wat_module(instrs: &[(&'static str, Vec<Type>, Type)]) -> (r: Result<
    Vec<u8>,
    String,
>)
    ensures
        r is Ok <==> wat_parses(wat_module_text_spec(instrs@)),
        r matches Ok(b) ==> b@ == wasm_of(wat_module_text_spec(instrs@)),
{
    let mut module = String::from_str("(module ");
    let mut i: usize = 0;
    while i < instrs.len()
        invariant
            i <= instrs@.len(),
            module@ == wat_module_body_spec(instrs@, i as int),
        decreases instrs@.len() - i,
    {
        let e = &instrs[i];
        let f = create_wat_fn(e.0, e.1.as_slice(), e.2);
        module.append(f.as_str());
        i += 1;
        proof {
            assert(module@ =~= wat_module_body_spec(instrs@, i as int));
        }
    }
    module.append(")");
    proof {
        assert(module@ =~= wat_module_text_spec(instrs@));
    }
    wat_to_wasm(module.as_str())
}

fn one(a: Type) -> (v: Vec<Type>)
    ensures
        v@ == seq![a],
{
    let mut v: Vec<Type> = Vec::new();
    v.push(a);
    proof {
        assert(v@ =~= seq![a]);
    }
    v
}

fn two(a: Type, b: Type) -> (v: Vec<Type>)
    ensures
        v@ == seq![a, b],
{
    let mut v: Vec<Type> = Vec::new();
    v.push(a);
    v.push(b);
    proof {
        assert(v@ =~= seq![a, b]);
    }
    v
}

} // verus!
