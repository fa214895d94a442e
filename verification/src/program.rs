//! The entry point's logic: parsing the flag and producing the complete line
//! sequence of a run.

use crate::output::program_lines;
use crate::resource::{CallableResource, TaggedResource};
use vstd::prelude::*;

verus! {

/// What parsing yields for every possible argument text: exactly `"true"`
/// and `"false"` parse, to `true` and `false`; every other text is rejected.
pub open spec fn spec_parse_flag(s: Seq<char>) -> Option<bool> {
    if s == "true"@ {
        Some(true)
    } else if s == "false"@ {
        Some(false)
    } else {
        None
    }
}

/// Parses the one positional argument as a boolean flag, case-sensitively:
/// exactly `"true"` and `"false"` parse; anything else is rejected, which the
/// caller treats as a fatal condition.
pub fn parse_flag(arg: &str) -> (r: Option<bool>)
    ensures
        r == spec_parse_flag(arg@),
{
    let owned = arg.to_owned();
    if owned == String::from_str("true") {
        Some(true)
    } else if owned == String::from_str("false") {
        Some(false)
    } else {
        None
    }
}

/// Runs the whole program on an already-parsed flag and returns every line it
/// prints, in order: the chosen branch's markers, the end-of-body marker, and
/// the three teardown markers in reverse order of construction.
pub fn run(help: bool) -> (trace: Vec<String>)
    ensures
        trace.deep_view() == program_lines(help),
{
    let helper = CallableResource::default();
    let dog = TaggedResource::new(String::from_str("dog"));
    let mut trace: Vec<String> = Vec::new();
    let survivor: TaggedResource;
    if help {
        trace.push(String::from_str("calling helper()"));
        let (line, returned) = helper.invoke(dog);
        trace.push(line);
        trace.push(String::from_str("helper() returned"));
        survivor = returned;
    } else {
        trace.push(String::from_str("not calling helper()"));
        survivor = dog;
    }
    trace.push(String::from_str("end of main()"));
    trace.push(survivor.teardown());
    let (helper_line, inner) = helper.teardown();
    trace.push(helper_line);
    trace.push(inner.teardown());
    proof {
        assert(trace.deep_view() =~= program_lines(help));
    }
    trace
}

} // verus!
