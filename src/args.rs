//! Turning the command line and the environment into what to run.

use std::collections::VecDeque;
use vstd::prelude::*;
use vstd::string::StringExecFns;

use crate::decimal::{decimal_of, parse_decimal};

verus! {

/// The environment variable that holds the pause after each run, in seconds.
pub const WAIT_VAR: &'static str = "RUN_ONE_WAIT";

/// What to run on every iteration: a program, its arguments, passed on
/// verbatim, and an optional pause in seconds after each run.
#[derive(Debug)]
pub struct Cmd {
    pub cmd: String,
    pub args: Vec<String>,
    pub wait: Option<u64>,
}

impl Cmd {
    /// A command names a program.
    pub open spec fn wf(&self) -> bool {
        self.cmd@.len() > 0
    }
}

/// Why the command line does not describe a run.
#[derive(Debug, PartialEq, Eq, Structural)]
pub enum ParseError {
    /// Not even the name this program was invoked under is there.
    MissingProgramName,
    /// Nothing follows this program's own name to serve as the command.
    MissingCommand,
}

impl ParseError {
    pub open spec fn spec_message(&self) -> Seq<char> {
        match self {
            ParseError::MissingProgramName => "Unable to get the name of the program."@,
            ParseError::MissingCommand => "Unable to get the command."@,
        }
    }

    /// A sentence that describes the error.
    pub fn message(&self) -> (r: String)
        ensures
            r@ == self.spec_message(),
    {
        match self {
            ParseError::MissingProgramName => String::from_str("Unable to get the name of the program."),
            ParseError::MissingCommand => String::from_str("Unable to get the command."),
        }
    }
}

/// The value of the first pair whose key is `WAIT_VAR`; later pairs with the
/// same key do not count.
pub open spec fn wait_setting(vars: Seq<(String, String)>) -> Option<Seq<char>>
    decreases vars.len(),
{
    if vars.len() == 0 {
        None
    } else if vars[0].0@ == WAIT_VAR@ {
        Some(vars[0].1@)
    } else {
        wait_setting(vars.drop_first())
    }
}

/// The pause that the environment asks for: none where `WAIT_VAR` is unset
/// or does not hold a number of seconds.
pub open spec fn wait_of(vars: Seq<(String, String)>) -> Option<u64> {
    match wait_setting(vars) {
        Some(v) => decimal_of(v),
        None => None,
    }
}

/// The error that the command line `args` gives, if any: the first token is
/// this program's own name, the second the command, which must not be empty.
pub open spec fn command_error(args: Seq<String>) -> Option<ParseError> {
    if args.len() == 0 {
        Some(ParseError::MissingProgramName)
    } else if args.len() == 1 || args[1]@.len() == 0 {
        Some(ParseError::MissingCommand)
    } else {
        None
    }
}

/// `c` is what `args` and `vars` describe: the second token is the command,
/// the tokens after it are its arguments in order, and the pause is what the
/// environment asks for.
pub open spec fn describes(c: Cmd, args: Seq<String>, vars: Seq<(String, String)>) -> bool {
    &&& args.len() >= 2
    &&& c.cmd == args[1]
    &&& c.args@ == args.subrange(2, args.len() as int)
    &&& c.wait == wait_of(vars)
}

/// The diagnostic owed when `WAIT_VAR` is set to something that is not a
/// number of seconds; none where it is unset or holds a number.
pub open spec fn wait_notice_of(vars: Seq<(String, String)>) -> Option<Seq<char>> {
    match wait_setting(vars) {
        Some(v) => if decimal_of(v) is None {
            Some("Invalid value for RUN_ONE_WAIT: "@ + v)
        } else {
            None
        },
        None => None,
    }
}

/// The index of the first pair whose key is `WAIT_VAR`, if any.
fn find_wait(vars: &Vec<(String, String)>) -> (r: Option<usize>)
    ensures
        match r {
            Some(i) => i < vars@.len() && wait_setting(vars@) == Some(vars@[i as int].1@),
            None => wait_setting(vars@) is None,
        },
{
    let name = String::from_str(WAIT_VAR);
    let mut i: usize = 0;
    assert(vars@.subrange(0, vars@.len() as int) =~= vars@);
    while i < vars.len()
        invariant
            i <= vars@.len(),
            name@ == WAIT_VAR@,
            wait_setting(vars@) == wait_setting(vars@.subrange(i as int, vars@.len() as int)),
        decreases vars@.len() - i,
    {
        let ghost rest = vars@.subrange(i as int, vars@.len() as int);
        assert(rest.drop_first() =~= vars@.subrange(i + 1, vars@.len() as int));
        if vars[i].0 == name {
            return Some(i);
        }
        i = i + 1;
    }
    None
}

/// Says why the pause in `vars` is ignored, where it is.
pub fn wait_notice(vars: &Vec<(String, String)>) -> (r: Option<String>)
    ensures
        match r {
            Some(m) => wait_notice_of(vars@) == Some(m@),
            None => wait_notice_of(vars@) is None,
        },
{
    match find_wait(vars) {
        Some(i) => match parse_decimal(vars[i].1.as_str()) {
            Some(_) => None,
            None => Some(String::from_str("Invalid value for RUN_ONE_WAIT: ").concat(vars[i].1.as_str())),
        },
        None => None,
    }
}

/// Builds the command to run from the command line `args` and the
/// environment `vars`.
pub fn parse_args(mut args: VecDeque<String>, vars: Vec<(String, String)>) -> (r: Result<Cmd, ParseError>)
    ensures
        match command_error(args@) {
            Some(e) => r == Err::<Cmd, ParseError>(e),
            None => r matches Ok(c) && describes(c, args@, vars@),
        },
        r matches Ok(c) ==> c.wf(),
{
    let ghost all = args@;
    match args.pop_front() {
        Some(_) => {},
        None => return Err(ParseError::MissingProgramName),
    }
    let cmd = match args.pop_front() {
        Some(cmd) => cmd,
        None => return Err(ParseError::MissingCommand),
    };
    if cmd.as_str().is_empty() {
        return Err(ParseError::MissingCommand);
    }
    let wait = match find_wait(&vars) {
        Some(i) => parse_decimal(vars[i].1.as_str()),
        None => None,
    };
    let mut rest: Vec<String> = Vec::new();
    while args.len() > 0
        invariant
            all.len() >= 2,
            rest@ + args@ == all.subrange(2, all.len() as int),
        decreases args@.len(),
    {
        match args.pop_front() {
            Some(a) => {
                rest.push(a);
                assert(rest@ + args@ =~= all.subrange(2, all.len() as int));
            },
            None => {},
        }
    }
    assert(rest@ =~= rest@ + args@);
    Ok(Cmd { cmd, args: rest, wait })
}

} // verus!
