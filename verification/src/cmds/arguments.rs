//! The pieces that a command line for cargo is made of, and the run of the
//! program that it starts.

use vstd::prelude::*;
use vstd::string::*;
use crate::text::{join, joined, optional_text, texts};

verus! {

/// The name of the variable that tells the build the team number.
pub const TEAM_NUMBER_VARIABLE: &'static str = "FRC_TEAM_NUMBER";

/// The name of the variable in which cargo tells where it is.
pub const CARGO_VARIABLE: &'static str = "CARGO";

/// A program to start: its name or path, its arguments, and the team number
/// that goes into its environment as `FRC_TEAM_NUMBER`.
#[derive(Debug)]
pub struct Invocation {
    pub program: String,
    pub arguments: Vec<String>,
    pub team_number: String,
}

/// How the run of a program has ended.
#[derive(Debug, Clone, Copy, PartialEq, Eq, Structural)]
pub enum Run {
    /// The program could not be started.
    NotSpawned,
    /// The program was started, but its end could not be waited for.
    NotAwaited,
    /// The program has ended: with success or without, and with its exit
    /// code, where it has one.
    Exited { success: bool, code: Option<i32> },
}

/// The characters of a text that may be missing, or be named without a
/// value.
pub open spec fn nested_text(string: Option<Option<String>>) -> Option<Option<Seq<char>>> {
    match string {
        Some(inner) => Some(optional_text(inner)),
        None => None,
    }
}

/// The program to start: cargo where its variable says it is, else `cargo`.
pub open spec fn program_name(cargo: Option<Seq<char>>) -> Seq<char> {
    match cargo {
        Some(path) => path,
        None => "cargo"@,
    }
}

/// A switch: its name where it is on, nothing where it is off.
pub open spec fn switch(on: bool, name: Seq<char>) -> Seq<Seq<char>> {
    if on {
        seq![name]
    } else {
        Seq::empty()
    }
}

/// An option with a value: its name and the value, where there is one.
pub open spec fn valued(value: Option<Seq<char>>, name: Seq<char>) -> Seq<Seq<char>> {
    match value {
        Some(value) => seq![name, value],
        None => Seq::empty(),
    }
}

/// An option that may be given without a value: its name, and the value
/// where there is one.
pub open spec fn selected(value: Option<Option<Seq<char>>>, name: Seq<char>) -> Seq<Seq<char>> {
    match value {
        Some(Some(value)) => seq![name, value],
        Some(None) => seq![name],
        None => Seq::empty(),
    }
}

/// An option with several values: its name once and each value behind it,
/// where there is any.
pub open spec fn listed(values: Seq<Seq<char>>, name: Seq<char>) -> Seq<Seq<char>> {
    if values.len() == 0 {
        Seq::empty()
    } else {
        seq![name] + values
    }
}

/// An option with several values in one argument: its name and the values
/// with commas between them, where there is any.
pub open spec fn comma_listed(values: Seq<Seq<char>>, name: Seq<char>) -> Seq<Seq<char>> {
    if values.len() == 0 {
        Seq::empty()
    } else {
        seq![name, joined(values, ","@)]
    }
}

/// The setting that turns the configuration flag `cfg` on for the build.
pub open spec fn cfg_setting(cfg: Seq<char>) -> Seq<char> {
    "build.rustflags = [\"--cfg\", \""@ + cfg + "\"]"@
}

/// The two arguments that turn the configuration flag `cfg` on.
pub open spec fn cfg_option(cfg: Seq<char>) -> Seq<Seq<char>> {
    seq!["--config"@, cfg_setting(cfg)]
}

/// Pieces may be put together in any grouping.
pub proof fn lemma_grouping(a: Seq<Seq<char>>, b: Seq<Seq<char>>, c: Seq<Seq<char>>)
    ensures
        (a + b) + c == a + (b + c),
{
    assert((a + b) + c =~= a + (b + c));
}

/// The program to start.
pub fn program(cargo: Option<String>) -> (name: String)
    ensures
        name@ == program_name(optional_text(cargo)),
{
    match cargo {
        Some(path) => path,
        None => String::from_str("cargo"),
    }
}

/// Adds one argument.
pub fn push_argument(arguments: &mut Vec<String>, argument: &str)
    ensures
        texts(final(arguments)@) == texts(old(arguments)@) + seq![argument@],
{
    let ghost before = texts(arguments@);
    arguments.push(String::from_str(argument));
    assert(texts(arguments@) =~= before + seq![argument@]);
}

/// Adds a switch.
pub fn push_switch(arguments: &mut Vec<String>, on: bool, name: &str)
    ensures
        texts(final(arguments)@) == texts(old(arguments)@) + switch(on, name@),
{
    let ghost before = texts(arguments@);
    if on {
        push_argument(arguments, name);
    }
    assert(texts(arguments@) =~= before + switch(on, name@));
}

/// Adds an option with a value.
pub fn push_valued(arguments: &mut Vec<String>, value: &Option<String>, name: &str)
    ensures
        texts(final(arguments)@) == texts(old(arguments)@) + valued(optional_text(*value), name@),
{
    let ghost before = texts(arguments@);
    match value {
        Some(value) => {
            push_argument(arguments, name);
            push_argument(arguments, value.as_str());
        },
        None => {},
    }
    assert(texts(arguments@) =~= before + valued(optional_text(*value), name@));
}

/// Adds an option that may be given without a value.
pub fn push_selected(arguments: &mut Vec<String>, value: &Option<Option<String>>, name: &str)
    ensures
        texts(final(arguments)@) == texts(old(arguments)@) + selected(nested_text(*value), name@),
{
    let ghost before = texts(arguments@);
    match value {
        Some(inner) => {
            push_argument(arguments, name);
            match inner {
                Some(value) => {
                    push_argument(arguments, value.as_str());
                },
                None => {},
            }
        },
        None => {},
    }
    assert(texts(arguments@) =~= before + selected(nested_text(*value), name@));
}

/// Adds an option with several values, each an argument of its own.
pub fn push_listed(arguments: &mut Vec<String>, values: &Vec<String>, name: &str)
    ensures
        texts(final(arguments)@) == texts(old(arguments)@) + listed(texts(values@), name@),
{
    let ghost before = texts(arguments@);
    if values.len() > 0 {
        push_argument(arguments, name);
        let mut i: usize = 0;
        while i < values.len()
            invariant
                i <= values.len(),
                texts(arguments@) == before + seq![name@] + texts(values@).take(i as int),
            decreases values.len() - i,
        {
            push_argument(arguments, values[i].as_str());
            assert(texts(values@).take(i as int + 1) =~= texts(values@).take(i as int) + seq![
                values@[i as int]@,
            ]);
            i += 1;
        }
        assert(texts(values@).take(values.len() as int) =~= texts(values@));
    }
    assert(texts(arguments@) =~= before + listed(texts(values@), name@));
}

/// Adds an option with several values in one argument.
pub fn push_comma_listed(arguments: &mut Vec<String>, values: &Vec<String>, name: &str)
    ensures
        texts(final(arguments)@) == texts(old(arguments)@) + comma_listed(texts(values@), name@),
{
    let ghost before = texts(arguments@);
    if values.len() > 0 {
        push_argument(arguments, name);
        let all = join(values, ",");
        push_argument(arguments, all.as_str());
    }
    assert(texts(arguments@) =~= before + comma_listed(texts(values@), name@));
}

/// Adds the two arguments that turn the configuration flag `cfg` on.
pub fn cmd_config(arguments: &mut Vec<String>, cfg: &str)
    ensures
        texts(final(arguments)@) == texts(old(arguments)@) + cfg_option(cfg@),
{
    let ghost before = texts(arguments@);
    push_argument(arguments, "--config");
    let mut setting = String::from_str("build.rustflags = [\"--cfg\", \"");
    setting.append(cfg);
    setting.append("\"]");
    push_argument(arguments, setting.as_str());
    assert(texts(arguments@) =~= before + cfg_option(cfg@));
}

} // verus!
