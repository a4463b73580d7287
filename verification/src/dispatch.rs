//! From an argument list to an operation on the table, and to what the program
//! has to do next.
//!
//! Nothing here prints, writes a file or starts a process. A command changes
//! the table in memory and returns an [`Action`]; the program carries the action
//! out and, where it was a save, asks [`save_report`] for the line to print.

use vstd::prelude::*;
use vstd::string::*;
use crate::store::{as_map, has_name, put, without, Config, Entry, Listing};
use crate::text::{
    added_here, added_with_path, entry_line, not_found, reads, removed, save_error,
    spec_add_usage, spec_added_here, spec_added_with_path, spec_cwd_error, spec_entry_line,
    spec_not_found, spec_open_usage, spec_remove_usage, spec_removed, spec_save_error,
    spec_show_header, spec_show_usage, spec_usage, texts, usage,
};

verus! {

/// What the program has to do after a command.
#[derive(Debug, PartialEq, Eq)]
pub enum Action {
    /// Print these lines.
    Print(Vec<String>),
    /// Write the table to its file, then print this line if that went well.
    Save(String),
    /// Hand this path to the desktop to be opened.
    Launch(String),
}

/// An [`Action`] as mathematical values.
pub enum ActionView {
    Print(Seq<Seq<char>>),
    Save(Seq<char>),
    Launch(Seq<char>),
}

impl View for Action {
    type V = ActionView;

    open spec fn view(&self) -> ActionView {
        match self {
            Action::Print(lines) => ActionView::Print(texts(lines@)),
            Action::Save(done) => ActionView::Save(done@),
            Action::Launch(path) => ActionView::Launch(path@),
        }
    }
}

/// The text of a string that may be missing.
pub open spec fn text_of(s: Option<String>) -> Option<Seq<char>> {
    match s {
        Some(t) => Some(t@),
        None => None,
    }
}

/// One line to print, and nothing else to do.
pub open spec fn spec_say(line: Seq<char>) -> ActionView {
    ActionView::Print(seq![line])
}

fn say(line: String) -> (action: Action)
    ensures
        action@ == spec_say(line@),
{
    let mut lines: Vec<String> = Vec::new();
    lines.push(line);
    assert(texts(lines@) =~= seq![line@]);
    Action::Print(lines)
}

/// The path that an add stores: the working directory where the argument reads
/// `pwd`, the argument itself otherwise. None where the working directory is
/// asked for and not known.
pub open spec fn spec_add_path(args: Seq<Seq<char>>, cwd: Option<Seq<char>>) -> Option<Seq<char>>
    recommends
        args.len() == 4,
{
    if args[3] == "pwd"@ {
        cwd
    } else {
        Some(args[3])
    }
}

/// The listing after an add.
pub open spec fn spec_add_listing(args: Seq<Seq<char>>, cwd: Option<Seq<char>>, s: Listing) -> Listing {
    if args.len() != 4 {
        s
    } else {
        match spec_add_path(args, cwd) {
            Some(path) => put(s, args[2], path),
            None => s,
        }
    }
}

/// What an add asks the program to do.
pub open spec fn spec_add_action(args: Seq<Seq<char>>, cwd: Option<Seq<char>>) -> ActionView {
    if args.len() != 4 {
        spec_say(spec_add_usage())
    } else if args[3] == "pwd"@ {
        match cwd {
            Some(_) => ActionView::Save(spec_added_here(args[2])),
            None => spec_say(spec_cwd_error()),
        }
    } else {
        ActionView::Save(spec_added_with_path(args[2], args[3]))
    }
}

/// Adds a shortcut, or gives an existing name a new path.
///
/// `args` is the whole argument list: the program's name, the flag, the
/// shortcut's name and its path. Where the path reads `pwd`, the shortcut
/// stands for `cwd`, the working directory; `cwd` is `None` where it could not
/// be found out, and then nothing is stored. With any other number of
/// arguments the table is left alone and the usage line is printed.
pub fn add_command(args: &Vec<String>, cwd: Option<String>, config: &mut Config) -> (action: Action)
    ensures
        final(config).listing() == spec_add_listing(texts(args@), text_of(cwd), old(config).listing()),
        action@ == spec_add_action(texts(args@), text_of(cwd)),
{
    if args.len() != 4 {
        return say(String::from_str("Usage: summon <-add | -a> <command_name> <PATH>"));
    }
    let target = &args[2];
    let path = &args[3];
    if reads(path, "pwd") {
        match cwd {
            Some(here) => {
                config.insert(target.clone(), here);
                Action::Save(added_here(target))
            },
            None => say(String::from_str("Error getting current directory.")),
        }
    } else {
        config.insert(target.clone(), path.clone());
        Action::Save(added_with_path(target, path))
    }
}

/// The listing after a remove.
pub open spec fn spec_remove_listing(args: Seq<Seq<char>>, s: Listing) -> Listing {
    if args.len() != 3 {
        s
    } else {
        without(s, args[2])
    }
}

/// What a remove asks the program to do.
pub open spec fn spec_remove_action(args: Seq<Seq<char>>, s: Listing) -> ActionView {
    if args.len() != 3 {
        spec_say(spec_remove_usage())
    } else if has_name(s, args[2]) {
        ActionView::Save(spec_removed(args[2]))
    } else {
        spec_say(spec_not_found(args[2]))
    }
}

/// Removes a shortcut.
///
/// `args` is the whole argument list: the program's name, the flag and the
/// shortcut's name. A name that the table does not have is reported and the
/// table is left as it is, with nothing to save.
pub fn remove_command(args: &Vec<String>, config: &mut Config) -> (action: Action)
    ensures
        final(config).listing() == spec_remove_listing(texts(args@), old(config).listing()),
        action@ == spec_remove_action(texts(args@), old(config).listing()),
{
    if args.len() != 3 {
        return say(String::from_str("Usage: summon <-remove | -r> <command_name>"));
    }
    let target = &args[2];
    match config.remove(target) {
        Some(_) => Action::Save(removed(target)),
        None => say(not_found(target)),
    }
}

/// The lines that list a table: the header, then one line for each shortcut in
/// the order of the listing.
pub open spec fn spec_show_lines(s: Listing) -> Seq<Seq<char>> {
    seq![spec_show_header()] + s.map_values(|e: (Seq<char>, Seq<char>)| spec_entry_line(e.0, e.1))
}

/// What a show asks the program to do.
pub open spec fn spec_show_action(args: Seq<Seq<char>>, s: Listing) -> ActionView {
    if args.len() != 2 {
        spec_say(spec_show_usage())
    } else {
        ActionView::Print(spec_show_lines(s))
    }
}

/// Lists every shortcut with its path.
pub fn show_command(args: &Vec<String>, config: &Config) -> (action: Action)
    ensures
        action@ == spec_show_action(texts(args@), config.listing()),
{
    if args.len() != 2 {
        return say(String::from_str("Usage: summon <-show | -s>"));
    }
    let entries = config.entries();
    let mut lines: Vec<String> = Vec::new();
    lines.push(String::from_str("Present commands:"));
    let mut i: usize = 0;
    while i < entries.len()
        invariant
            i <= entries.len(),
            entries@.map_values(|e: Entry| e@) == config.listing(),
            lines.len() == i + 1,
            lines[0]@ == spec_show_header(),
            forall|k: int|
                0 <= k < i ==> (#[trigger] lines[k + 1])@ == spec_entry_line(
                    config.listing()[k].0,
                    config.listing()[k].1,
                ),
        decreases entries.len() - i,
    {
        assert(entries[i as int]@ == config.listing()[i as int]);
        let line = entry_line(&entries[i].name, &entries[i].path);
        lines.push(line);
        i += 1;
    }
    proof {
        let shown = spec_show_lines(config.listing());
        assert(texts(lines@).len() == shown.len());
        assert forall|k: int| 0 <= k < shown.len() implies texts(lines@)[k] == shown[k] by {
            if k > 0 {
                assert(lines[(k - 1) + 1]@ == shown[k]);
            }
        }
        assert(texts(lines@) =~= shown);
    }
    Action::Print(lines)
}

/// What an open asks the program to do.
pub open spec fn spec_open_action(args: Seq<Seq<char>>, s: Listing) -> ActionView {
    if args.len() != 2 {
        spec_say(spec_open_usage())
    } else if has_name(s, args[1]) {
        ActionView::Launch(as_map(s)[args[1]])
    } else {
        spec_say(spec_not_found(args[1]))
    }
}

/// Looks a shortcut up to have its path opened.
///
/// `args` is the whole argument list: the program's name and the shortcut's
/// name. A name that the table does not have is reported, and nothing is
/// opened.
pub fn open_file(args: &Vec<String>, config: &Config) -> (action: Action)
    ensures
        action@ == spec_open_action(texts(args@), config.listing()),
{
    if args.len() != 2 {
        return say(String::from_str("Usage: summon <command>"));
    }
    let command = &args[1];
    match config.get(command) {
        Some(path) => Action::Launch(path.clone()),
        None => say(not_found(command)),
    }
}

/// The operations that an argument list can select.
#[derive(Clone, Copy, Debug, PartialEq, Eq, Structural)]
pub enum Operation {
    /// No command was given: the summary of the command line is shown.
    Usage,
    Add,
    Remove,
    Show,
    /// Any other word is taken as the name of a shortcut to open.
    Open,
}

/// The operation that an argument list selects, by its second word alone.
pub open spec fn spec_select(args: Seq<Seq<char>>) -> Operation {
    if args.len() < 2 {
        Operation::Usage
    } else if args[1] == "-add"@ || args[1] == "-a"@ {
        Operation::Add
    } else if args[1] == "-remove"@ || args[1] == "-r"@ {
        Operation::Remove
    } else if args[1] == "-show"@ || args[1] == "-s"@ {
        Operation::Show
    } else {
        Operation::Open
    }
}

/// Selects the operation. `args` is the whole argument list, the program's
/// name first.
pub fn select(args: &Vec<String>) -> (operation: Operation)
    ensures
        operation == spec_select(texts(args@)),
{
    if args.len() < 2 {
        return Operation::Usage;
    }
    let command = &args[1];
    if reads(command, "-add") || reads(command, "-a") {
        Operation::Add
    } else if reads(command, "-remove") || reads(command, "-r") {
        Operation::Remove
    } else if reads(command, "-show") || reads(command, "-s") {
        Operation::Show
    } else {
        Operation::Open
    }
}

/// Whether the argument list asks for an add of the working directory, so
/// that the program has to find it out before it dispatches.
pub fn needs_working_directory(args: &Vec<String>) -> (needed: bool)
    ensures
        needed == (spec_select(texts(args@)) == Operation::Add && args.len() == 4 && texts(
            args@,
        )[3] == "pwd"@),
{
    match select(args) {
        Operation::Add => args.len() == 4 && reads(&args[3], "pwd"),
        _ => false,
    }
}

/// The listing after the selected operation.
pub open spec fn spec_dispatch_listing(
    args: Seq<Seq<char>>,
    cwd: Option<Seq<char>>,
    s: Listing,
) -> Listing {
    match spec_select(args) {
        Operation::Add => spec_add_listing(args, cwd, s),
        Operation::Remove => spec_remove_listing(args, s),
        _ => s,
    }
}

/// What the selected operation asks the program to do.
pub open spec fn spec_dispatch_action(
    args: Seq<Seq<char>>,
    cwd: Option<Seq<char>>,
    s: Listing,
) -> ActionView {
    match spec_select(args) {
        Operation::Usage => ActionView::Print(spec_usage()),
        Operation::Add => spec_add_action(args, cwd),
        Operation::Remove => spec_remove_action(args, s),
        Operation::Show => spec_show_action(args, s),
        Operation::Open => spec_open_action(args, s),
    }
}

/// Carries out on the table what the argument list asks for, and says what
/// the program has to do next.
///
/// `args` is the whole argument list, the program's name first. `cwd` is the
/// working directory, `None` where it is not known; only an add whose path
/// reads `pwd` looks at it.
pub fn dispatch(args: &Vec<String>, cwd: Option<String>, config: &mut Config) -> (action: Action)
    ensures
        final(config).listing() == spec_dispatch_listing(
            texts(args@),
            text_of(cwd),
            old(config).listing(),
        ),
        action@ == spec_dispatch_action(texts(args@), text_of(cwd), old(config).listing()),
{
    match select(args) {
        Operation::Usage => Action::Print(usage()),
        Operation::Add => add_command(args, cwd, config),
        Operation::Remove => remove_command(args, config),
        Operation::Show => show_command(args, config),
        Operation::Open => open_file(args, config),
    }
}

/// What a write gave, with the reason of a failure as its text.
pub open spec fn outcome_of(outcome: Result<(), String>) -> Result<(), Seq<char>> {
    match outcome {
        Ok(_) => Ok(()),
        Err(reason) => Err(reason@),
    }
}

/// The line to print once the program has tried to write the table: `done`
/// where the write went well, the failure with its reason otherwise.
pub open spec fn spec_save_report(outcome: Result<(), Seq<char>>, done: Seq<char>) -> Seq<char> {
    match outcome {
        Ok(_) => done,
        Err(reason) => spec_save_error(reason),
    }
}

/// The line to print after a [`Action::Save`] was carried out. `outcome` is
/// what the write gave, an error as its text; `done` is the line that the
/// action held.
pub fn save_report(outcome: Result<(), String>, done: String) -> (line: String)
    ensures
        line@ == spec_save_report(outcome_of(outcome), done@),
{
    match outcome {
        Ok(_) => done,
        Err(reason) => save_error(&reason),
    }
}

} // verus!
