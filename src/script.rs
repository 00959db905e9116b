use vstd::prelude::*;

use crate::prompt::PromptResult;

verus! {

/// A prompt result as the script sees it: a string, a boolean, a number, an array
/// of numbers, or nil.
#[derive(Debug, Clone, PartialEq, Eq)]
pub enum ScriptValue {
    Nil,
    Boolean(bool),
    Integer(usize),
    String(String),
    Array(Vec<usize>),
}

/// The script value that stands for a prompt result.
pub open spec fn to_script_spec(r: PromptResult) -> ScriptValue {
    match r {
        PromptResult::String(s) => ScriptValue::String(s),
        PromptResult::Boolean(b) => ScriptValue::Boolean(b),
        PromptResult::Index(i) => ScriptValue::Integer(i),
        PromptResult::Indices(v) => ScriptValue::Array(v),
        PromptResult::Cancelled => ScriptValue::Nil,
    }
}

/// The prompt result that a script value stands for.
pub open spec fn from_script_spec(v: ScriptValue) -> PromptResult {
    match v {
        ScriptValue::String(s) => PromptResult::String(s),
        ScriptValue::Boolean(b) => PromptResult::Boolean(b),
        ScriptValue::Integer(i) => PromptResult::Index(i),
        ScriptValue::Array(v) => PromptResult::Indices(v),
        ScriptValue::Nil => PromptResult::Cancelled,
    }
}

/// Marshals a prompt result into the script's representation.
pub fn to_script(r: PromptResult) -> (v: ScriptValue)
    ensures
        v == to_script_spec(r),
{
    match r {
        PromptResult::String(s) => ScriptValue::String(s),
        PromptResult::Boolean(b) => ScriptValue::Boolean(b),
        PromptResult::Index(i) => ScriptValue::Integer(i),
        PromptResult::Indices(v) => ScriptValue::Array(v),
        PromptResult::Cancelled => ScriptValue::Nil,
    }
}

/// Reads a prompt result back from the script's representation.
pub fn from_script(v: ScriptValue) -> (r: PromptResult)
    ensures
        r == from_script_spec(v),
{
    match v {
        ScriptValue::String(s) => PromptResult::String(s),
        ScriptValue::Boolean(b) => PromptResult::Boolean(b),
        ScriptValue::Integer(i) => PromptResult::Index(i),
        ScriptValue::Array(v) => PromptResult::Indices(v),
        ScriptValue::Nil => PromptResult::Cancelled,
    }
}

/// Marshaling a prompt result to the script and back gives the same tag and payload,
/// and so does the way round from the script's side.
pub proof fn lemma_marshal_round_trip(r: PromptResult, v: ScriptValue)
    ensures
        from_script_spec(to_script_spec(r)) == r,
        to_script_spec(from_script_spec(v)) == v,
{
}

} // verus!
