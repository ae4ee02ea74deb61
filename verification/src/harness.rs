use vstd::prelude::*;

use crate::float::{Class, Classifier};
use crate::text::{dec_str, i64_text, int_str, u64_text};
use crate::types::{Transposable, Type, TypedValue};

verus! {

/// A programming error in the run itself, found before any trial output.
#[derive(Debug, Clone, Copy, PartialEq, Eq, Structural)]
pub enum HarnessError {
    /// An instruction declares more operands than the fixed report width holds.
    CatalogArity,
}

impl HarnessError {
    pub fn text(&self) -> (r: &'static str)
        ensures
            *self == HarnessError::CatalogArity ==> r@ == "too many parameters"@,
    {
        match self {
            HarnessError::CatalogArity => "too many parameters",
        }
    }
}

/// The one observable result of invoking an instruction once: either a value
/// or a trap with its description.
#[derive(Debug, Clone, PartialEq, Eq)]
pub enum Outcome {
    Value(TypedValue),
    Trap(String),
}

/// One trial, ready to be serialized as one report row.
#[derive(Debug, Clone)]
pub struct TrialRecord {
    pub instruction: String,
    pub params: Vec<TypedValue>,
    pub outcome: Outcome,
}

/// The decimal text of a value. A float-typed value is rendered from its bits
/// outside this library, and that text is passed in; integer values are
/// rendered here.
pub open spec fn value_text_spec(v: TypedValue, float_text: Seq<char>) -> Seq<char> {
    match v {
        TypedValue::I32(x) => int_str(x as int),
        TypedValue::I64(x) => int_str(x as int),
        TypedValue::F32(_) => float_text,
        TypedValue::F64(_) => float_text,
    }
}

/// The three report columns of one operand: value, raw bits, class.
pub open spec fn param_cols_spec(v: TypedValue, float_text: Seq<char>) -> Seq<char> {
    value_text_spec(v, float_text) + ","@ + dec_str(v.bits_spec() as nat) + ","@
        + v.class_spec().text_spec()
}

/// The operand half of a row, padded to the fixed two-operand width.
pub open spec fn params_part_spec(ps: Seq<TypedValue>, float_texts: Seq<Seq<char>>) -> Seq<char>
    recommends
        ps.len() <= 2,
        float_texts.len() == ps.len(),
{
    if ps.len() == 0 {
        ",,,"@
    } else if ps.len() == 1 {
        param_cols_spec(ps[0], float_texts[0]) + ",,"@
    } else {
        param_cols_spec(ps[0], float_texts[0]) + ","@ + param_cols_spec(ps[1], float_texts[1])
    }
}

/// The result half of a row: three value-or-trap columns, spread symmetrically
/// so that a trap shows up in each of them instead of tearing the row.
pub open spec fn result_part_spec(o: Outcome, float_text: Seq<char>) -> Seq<char> {
    match o {
        Outcome::Value(v) => "Ok(\""@ + value_text_spec(v, float_text) + "\")"@ + ","@ + "Ok(\""@
            + dec_str(v.bits_spec() as nat) + "\")"@ + ","@ + "Ok("@ + v.class_spec().text_spec()
            + ")"@,
        Outcome::Trap(d) => "Err("@ + d@ + ")"@ + ","@ + "Err("@ + d@ + ")"@ + ","@ + "Err("@ + d@
            + ")"@,
    }
}

/// One full report row for one trial.
pub open spec fn row_spec(
    instr: Seq<char>,
    ps: Seq<TypedValue>,
    float_texts: Seq<Seq<char>>,
    o: Outcome,
    result_float_text: Seq<char>,
) -> Seq<char> {
    instr + ","@ + params_part_spec(ps, float_texts) + ","@ + result_part_spec(
        o,
        result_float_text,
    )
}

/// The header row naming every column once.
pub fn report_header() -> (r: &'static str)
    ensures
        r@
            == "Instruction,Param1,Param1(as bits),Param1 Class,Param2,Param2(as bits),Param2 Class,Result,Result(as bits),Result Class"@,
{
    "Instruction,Param1,Param1(as bits),Param1 Class,Param2,Param2(as bits),Param2 Class,Result,Result(as bits),Result Class"
}

/// Renders one value as its three report columns: decimal text, raw bits as
/// unsigned decimal, and the class of the bits. Integer bits are classified
/// too, as if they were float storage. The decimal text of a float value
/// cannot be computed here and is taken from `float_text`; for an integer
/// value `float_text` is ignored.
pub fn format_value(value: &TypedValue, float_text: &str) -> (r: (String, String, Class))
    ensures
        r.0@ == value_text_spec(*value, float_text@),
        r.1@ == dec_str(value.bits_spec() as nat),
        r.2 == value.class_spec(),
{
    match value {
        TypedValue::I32(v) => (i64_text(*v as i64), u64_text(*v as u32 as u64), (*v as u32).classify()),
        TypedValue::I64(v) => (i64_text(*v), u64_text(*v as u64), (*v as u64).classify()),
        TypedValue::F32(b) => (String::from_str(float_text), u64_text(*b as u64), (*b).classify()),
        TypedValue::F64(b) => (String::from_str(float_text), u64_text(*b), (*b).classify()),
    }
}

fn param_cols(v: &TypedValue, float_text: &str) -> (out: String)
    ensures
        out@ == param_cols_spec(*v, float_text@),
{
    let (vs, bs, c) = format_value(v, float_text);
    let mut out = vs;
    out.append(",");
    out.append(bs.as_str());
    out.append(",");
    out.append(c.text());
    proof {
        assert(out@ =~= param_cols_spec(*v, float_text@));
    }
    out
}

fn render_str_col(r: &Result<String, String>) -> (out: String)
    ensures
        r matches Ok(s) ==> out@ == "Ok(\""@ + s@ + "\")"@,
        r matches Err(e) ==> out@ == "Err("@ + e@ + ")"@,
{
    match r {
        Ok(s) => {
            let mut out = String::from_str("Ok(\"");
            out.append(s.as_str());
            out.append("\")");
            out
        },
        Err(e) => {
            let mut out = String::from_str("Err(");
            out.append(e.as_str());
            out.append(")");
            out
        },
    }
}

fn render_class_col(r: &Result<Class, String>) -> (out: String)
    ensures
        r matches Ok(c) ==> out@ == "Ok("@ + c.text_spec() + ")"@,
        r matches Err(e) ==> out@ == "Err("@ + e@ + ")"@,
{
    match r {
        Ok(c) => {
            let mut out = String::from_str("Ok(");
            out.append(c.text());
            out.append(")");
            out
        },
        Err(e) => {
            let mut out = String::from_str("Err(");
            out.append(e.as_str());
            out.append(")");
            out
        },
    }
}

/// Serializes one trial as one report row. Operand slots beyond the trial's
/// arity stay in the row as empty fields, keeping the column count fixed.
/// Decimal texts of float-typed values are passed in, one per operand and one
/// for a result value (ignored wherever the value is not float-typed).
#[verifier::rlimit(100)]
pub fn serialize_record(
    rec: &TrialRecord,
    param_float_texts: &Vec<String>,
    result_float_text: &str,
) -> (row: String)
    requires
        rec.params@.len() <= 2,
        param_float_texts@.len() == rec.params@.len(),
    ensures
        row@ == row_spec(
            rec.instruction@,
            rec.params@,
            param_float_texts@.map_values(|s: String| s@),
            rec.outcome,
            result_float_text@,
        ),
{
    let ghost fts = param_float_texts@.map_values(|s: String| s@);
    let mut row = rec.instruction.clone();
    row.append(",");
    if rec.params.len() == 0 {
        row.append(",,,");
    } else if rec.params.len() == 1 {
        let t0 = param_cols(&rec.params[0], param_float_texts[0].as_str());
        row.append(t0.as_str());
        row.append(",,");
    } else {
        let t0 = param_cols(&rec.params[0], param_float_texts[0].as_str());
        let t1 = param_cols(&rec.params[1], param_float_texts[1].as_str());
        row.append(t0.as_str());
        row.append(",");
        row.append(t1.as_str());
    }
    row.append(",");
    let ghost head = rec.instruction@ + ","@ + params_part_spec(rec.params@, fts) + ","@;
    proof {
        assert(row@ =~= head);
    }

    let result: Result<(String, String, Class), String> = match &rec.outcome {
        Outcome::Value(v) => Ok(format_value(v, result_float_text)),
        Outcome::Trap(d) => Err(d.clone()),
    };
    let ghost result_spec = result;
    let (rv, rb, rc) = result.transpose();
    proof {
        match &rec.outcome {
            Outcome::Value(v) => {
                assert(rv matches Ok(s) && s@ == value_text_spec(*v, result_float_text@));
                assert(rb matches Ok(s) && s@ == dec_str(v.bits_spec() as nat));
                assert(rc matches Ok(c) && c == v.class_spec());
            },
            Outcome::Trap(d) => {
                assert(result_spec matches Err(e) && e@ == d@);
                assert(rv matches Err(e0) && e0@ == d@);
                assert(rb matches Err(e1) && e1@ == d@);
                assert(rc matches Err(e2) && e2@ == d@);
            },
        }
    }
    let cv = render_str_col(&rv);
    let cb = render_str_col(&rb);
    let cc = render_class_col(&rc);
    row.append(cv.as_str());
    row.append(",");
    row.append(cb.as_str());
    row.append(",");
    row.append(cc.as_str());
    proof {
        let tail = result_part_spec(rec.outcome, result_float_text@);
        assert(cv@ + ","@ + cb@ + ","@ + cc@ =~= tail);
        assert(row@ =~= head + tail);
        assert(row@ =~= row_spec(
            rec.instruction@,
            rec.params@,
            fts,
            rec.outcome,
            result_float_text@,
        ));
    }
    row
}

/// Checks every catalog entry against the report's fixed two-operand width,
/// before any trial runs or any row is printed.
pub fn check_catalog_arity(instrs: &[(&'static str, Vec<Type>, Type)]) -> (r: Result<
    (),
    HarnessError,
>)
    ensures
        r is Ok <==> (forall|i: int|
            0 <= i < instrs@.len() ==> (#[trigger] instrs@[i].1)@.len() <= 2),
        r is Err ==> r == Err::<(), HarnessError>(HarnessError::CatalogArity),
{
    let mut i: usize = 0;
    while i < instrs.len()
        invariant
            i <= instrs@.len(),
            forall|j: int| 0 <= j < i ==> (#[trigger] instrs@[j].1)@.len() <= 2,
        decreases instrs@.len() - i,
    {
        if instrs[i].1.len() > 2 {
            return Err(HarnessError::CatalogArity);
        }
        i += 1;
    }
    Ok(())
}

/// Draws one value per operand slot, in slot order, advancing the random
/// stream exactly once run through.
pub fn generate_params(inputs: &[Type], rand: &mut rand_chacha::ChaCha20Rng) -> (ps: Vec<
    TypedValue,
>)
    ensures
        ps@.len() == inputs@.len(),
        forall|i: int| 0 <= i < ps@.len() ==> inputs@[i].matches(#[trigger] ps@[i]),
{
    let mut ps: Vec<TypedValue> = Vec::new();
    let mut i: usize = 0;
    while i < inputs.len()
        invariant
            i <= inputs@.len(),
            ps@.len() == i,
            forall|j: int| 0 <= j < i ==> inputs@[j].matches(#[trigger] ps@[j]),
        decreases inputs@.len() - i,
    {
        let v = inputs[i].random_value(rand);
        ps.push(v);
        i += 1;
    }
    ps
}

} // verus!
