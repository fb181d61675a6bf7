use vstd::prelude::*;

use crate::command::{args_of, program_of, substitute_placeholder, tokenize};
use crate::executor::{passes_through, plan_command, strategy_for, Invocation, Limits};

verus! {

/// Which way content moves, and so which of the two commands applies.
#[derive(Clone, Copy, Debug, PartialEq, Eq, Structural)]
pub enum Direction {
    /// From the working copy into storage (the clean command).
    ToStorage,
    /// From storage into the working copy (the smudge command).
    ToWorkingCopy,
}

/// A filter made of two command templates, one for each direction. An empty
/// template leaves content unchanged.
pub struct ProcessFilter {
    /// The template run on content going into storage.
    pub clean_cmd: String,
    /// The template run on content coming out of storage.
    pub smudge_cmd: String,
}

impl ProcessFilter {
    /// The template that applies in `direction`.
    pub open spec fn spec_command(&self, direction: Direction) -> Seq<char> {
        match direction {
            Direction::ToStorage => self.clean_cmd@,
            Direction::ToWorkingCopy => self.smudge_cmd@,
        }
    }

    /// A filter with the given clean and smudge templates.
    pub fn new(clean_cmd: &str, smudge_cmd: &str) -> (r: ProcessFilter)
        ensures
            r.clean_cmd@ == clean_cmd@,
            r.smudge_cmd@ == smudge_cmd@,
    {
        ProcessFilter {
            clean_cmd: String::from_str(clean_cmd),
            smudge_cmd: String::from_str(smudge_cmd),
        }
    }

    /// The template that applies in `direction`.
    pub fn command_for(&self, direction: Direction) -> (r: &str)
        ensures
            r@ == self.spec_command(direction),
    {
        match direction {
            Direction::ToStorage => self.clean_cmd.as_str(),
            Direction::ToWorkingCopy => self.smudge_cmd.as_str(),
        }
    }

    /// Splits a command template into its program and arguments, after
    /// putting `path` in place of each `%f`. A blank template gives an empty
    /// program and no arguments.
    pub fn parse_command(cmd: &str, path: &str) -> (r: (String, Vec<String>))
        ensures
            r.0@ == program_of(cmd@, path@),
            r.1.deep_view() == args_of(cmd@, path@),
    {
        let line = substitute_placeholder(cmd, path);
        let mut words = tokenize(line.as_str());
        if words.len() == 0 {
            return (String::new(), Vec::new());
        }
        let ghost before = words.deep_view();
        let program = words.remove(0);
        assert(words.deep_view() =~= before.drop_first());
        (program, words)
    }

    /// Decides what filtering a payload of `input_len` bytes in `direction`
    /// does: the template of that direction is planned with `path` put in.
    pub fn plan(&self, direction: Direction, path: &str, input_len: usize, limits: Limits) -> (r:
        Invocation)
        ensures
            (r is PassThrough) <==> passes_through(self.spec_command(direction), path@),
            r matches Invocation::Spawn { program, args, strategy } ==> {
                &&& program@ == program_of(self.spec_command(direction), path@)
                &&& args.deep_view() == args_of(self.spec_command(direction), path@)
                &&& strategy == strategy_for(input_len as nat, limits.stream_threshold as nat)
            },
    {
        plan_command(self.command_for(direction), path, input_len, limits)
    }
}

/// The configuration key of a filter's clean command: `filter.<name>.clean`.
pub fn clean_key(name: &str) -> (r: String)
    ensures
        r@ == "filter."@ + name@ + ".clean"@,
{
    let mut k = String::from_str("filter.");
    k.append(name);
    k.append(".clean");
    k
}

/// The configuration key of a filter's smudge command: `filter.<name>.smudge`.
pub fn smudge_key(name: &str) -> (r: String)
    ensures
        r@ == "filter."@ + name@ + ".smudge"@,
{
    let mut k = String::from_str("filter.");
    k.append(name);
    k.append(".smudge");
    k
}

/// The attribute that selects a filter in attribute files: `filter=<name>`.
pub fn filter_attribute(name: &str) -> (r: String)
    ensures
        r@ == "filter="@ + name@,
{
    let mut a = String::from_str("filter=");
    a.append(name);
    a
}

} // verus!
