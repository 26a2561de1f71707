//! External tool invocations that the build decides on and the caller runs.
use vstd::prelude::*;
use vstd::string::StringExecFns;

verus! {

/// A program and its arguments, run with an empty environment.
#[derive(Debug, PartialEq, Eq)]
pub struct ToolCall {
    pub program: String,
    pub args: Vec<String>,
}

/// The mathematical value of a [`ToolCall`].
pub struct CallSpec {
    pub program: Seq<char>,
    pub args: Seq<Seq<char>>,
}

impl View for ToolCall {
    type V = CallSpec;

    open spec fn view(&self) -> CallSpec {
        CallSpec { program: self.program@, args: self.args@.map_values(|a: String| a@) }
    }
}

/// A list of arguments built from string slices.
pub fn args_of(parts: &Vec<&str>) -> (r: Vec<String>)
    ensures
        r@.map_values(|a: String| a@) == parts@.map_values(|p: &str| p@),
{
    let mut r: Vec<String> = Vec::new();
    let mut i: usize = 0;
    while i < parts.len()
        invariant
            i <= parts@.len(),
            r@.map_values(|a: String| a@) == parts@.subrange(0, i as int).map_values(|p: &str| p@),
        decreases parts@.len() - i,
    {
        let s = String::from_str(parts[i]);
        let ghost before = r@;
        r.push(s);
        assert(r@.map_values(|a: String| a@) =~= before.map_values(|a: String| a@).push(parts@[i as int]@));
        assert(parts@.subrange(0, i + 1) =~= parts@.subrange(0, i as int).push(parts@[i as int]));
        assert(r@.map_values(|a: String| a@) =~= parts@.subrange(0, i + 1).map_values(|p: &str| p@));
        i = i + 1;
    }
    assert(parts@.subrange(0, parts@.len() as int) =~= parts@);
    r
}

/// A call of `program` with the given arguments.
pub fn tool_call(program: &str, parts: &Vec<&str>) -> (r: ToolCall)
    ensures
        r@.program == program@,
        r@.args == parts@.map_values(|p: &str| p@),
{
    ToolCall { program: program.to_string(), args: args_of(parts) }
}

} // verus!
