//! Child processes: what is run, and what came back.

use vstd::prelude::*;
use crate::text::views;

verus! {

/// A program to run, with its arguments and the environment variables it gets.
#[derive(Debug)]
pub struct CommandSpec {
    pub program: String,
    pub args: Vec<String>,
    pub env: Vec<(String, String)>,
}

/// The mathematical content of a [`CommandSpec`].
pub struct CommandView {
    pub program: Seq<char>,
    pub args: Seq<Seq<char>>,
    pub env: Seq<(Seq<char>, Seq<char>)>,
}

impl View for CommandSpec {
    type V = CommandView;

    open spec fn view(&self) -> CommandView {
        CommandView {
            program: self.program@,
            args: views(self.args@),
            env: self.env@.map_values(|p: (String, String)| (p.0@, p.1@)),
        }
    }
}

/// How running a child process to completion ended.
#[derive(Debug)]
pub enum ProcessOutcome {
    /// The process ran and exited; `success` is whether its exit status was zero.
    Finished { success: bool, stdout: Vec<u8>, stderr: Vec<u8> },
    /// The process could not be started or waited for; `message` describes the error.
    Failed { message: String },
}

/// A command with no environment variables of its own.
pub fn command(program: &str, args: Vec<String>) -> (c: CommandSpec)
    ensures
        c@.program == program@,
        c@.args == views(args@),
        c@.env == Seq::<(Seq<char>, Seq<char>)>::empty(),
{
    let c = CommandSpec { program: String::from_str(program), args, env: Vec::new() };
    assert(c@.env =~= Seq::<(Seq<char>, Seq<char>)>::empty());
    c
}

/// A vector holding two strings.
pub fn strings2(a: &str, b: &str) -> (v: Vec<String>)
    ensures
        views(v@) == seq![a@, b@],
{
    let mut v = Vec::new();
    v.push(String::from_str(a));
    v.push(String::from_str(b));
    assert(views(v@) =~= seq![a@, b@]);
    v
}

/// A vector holding three strings.
pub fn strings3(a: &str, b: &str, c: &str) -> (v: Vec<String>)
    ensures
        views(v@) == seq![a@, b@, c@],
{
    let mut v = Vec::new();
    v.push(String::from_str(a));
    v.push(String::from_str(b));
    v.push(String::from_str(c));
    assert(views(v@) =~= seq![a@, b@, c@]);
    v
}

/// A copy of a vector of strings.
pub fn clone_strings(v: &Vec<String>) -> (r: Vec<String>)
    ensures
        r@ == v@,
{
    let mut r: Vec<String> = Vec::new();
    let n = v.len();
    for i in 0..n
        invariant
            n == v@.len(),
            r@ == v@.take(i as int),
    {
        r.push(v[i].clone());
        assert(r@ =~= v@.take(i + 1));
    }
    assert(v@.take(n as int) =~= v@);
    r
}

} // verus!
