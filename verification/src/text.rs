//! Every line of text that the program prints, as a function of what it names.
//!
//! Each line has a spec function that says what it reads, over sequences of
//! characters. The lines that hold a name or a path also have an executable
//! function that builds the string.

use vstd::prelude::*;
use vstd::string::*;

verus! {

/// The texts of a list of strings, one for one.
pub open spec fn texts(v: Seq<String>) -> Seq<Seq<char>> {
    v.map_values(|s: String| s@)
}

/// Whether the string reads exactly as the given text.
pub fn reads(s: &String, text: &str) -> (same: bool)
    ensures
        same == (s@ == text@),
{
    let other = String::from_str(text);
    *s == other
}

/// The summary of the command line, shown where no command is given.
pub open spec fn spec_usage() -> Seq<Seq<char>> {
    seq![
        "Usage:"@,
        "summon <command>"@,
        "summon <-add | -a> <command_name> <PATH|pwd>"@,
        "summon <-remove | -r> <command_name>"@,
        "summon <-show | -s>"@,
    ]
}

/// How to add a shortcut.
pub open spec fn spec_add_usage() -> Seq<char> {
    "Usage: summon <-add | -a> <command_name> <PATH>"@
}

/// How to remove a shortcut.
pub open spec fn spec_remove_usage() -> Seq<char> {
    "Usage: summon <-remove | -r> <command_name>"@
}

/// How to list the shortcuts.
pub open spec fn spec_show_usage() -> Seq<char> {
    "Usage: summon <-show | -s>"@
}

/// How to open a shortcut.
pub open spec fn spec_open_usage() -> Seq<char> {
    "Usage: summon <command>"@
}

/// The line above the list of shortcuts.
pub open spec fn spec_show_header() -> Seq<char> {
    "Present commands:"@
}

/// The line for a working directory that could not be found out.
pub open spec fn spec_cwd_error() -> Seq<char> {
    "Error getting current directory."@
}

/// The line for a path that could not be handed to the desktop.
pub open spec fn spec_open_error() -> Seq<char> {
    "Error: Failed to open file or folder."@
}

/// The line that confirms a shortcut added with a path written out.
pub open spec fn spec_added_with_path(name: Seq<char>, path: Seq<char>) -> Seq<char> {
    "Command '"@ + name + "' added with path '"@ + path + "'."@
}

/// The line that confirms a shortcut added for the working directory.
pub open spec fn spec_added_here(name: Seq<char>) -> Seq<char> {
    "Command '"@ + name + "' added with current directory as path."@
}

/// The line that confirms a shortcut removed.
pub open spec fn spec_removed(name: Seq<char>) -> Seq<char> {
    "Command '"@ + name + "' removed."@
}

/// The line for a name that the table does not have.
pub open spec fn spec_not_found(name: Seq<char>) -> Seq<char> {
    "Command '"@ + name + "' not found."@
}

/// The line that shows one shortcut.
pub open spec fn spec_entry_line(name: Seq<char>, path: Seq<char>) -> Seq<char> {
    name + " -> "@ + path
}

/// A path between double quotes, as it is handed to the desktop.
pub open spec fn spec_quoted(path: Seq<char>) -> Seq<char> {
    "\""@ + path + "\""@
}

/// The line for a table that could not be written, with the reason.
pub open spec fn spec_save_error(reason: Seq<char>) -> Seq<char> {
    "Error saving config: "@ + reason
}

/// The line for a table that could not be read, with the reason.
pub open spec fn spec_load_error(reason: Seq<char>) -> Seq<char> {
    "Error loading config.json: "@ + reason
}

/// The text `before`, then `middle`, then `after`.
fn between(before: &str, middle: &String, after: &str) -> (line: String)
    ensures
        line@ == before@ + middle@ + after@,
{
    let mut line = String::from_str(before);
    line.append(middle.as_str());
    line.append(after);
    line
}

/// Builds the summary of the command line, one string for each line.
pub fn usage() -> (lines: Vec<String>)
    ensures
        texts(lines@) == spec_usage(),
{
    let mut lines: Vec<String> = Vec::new();
    lines.push(String::from_str("Usage:"));
    lines.push(String::from_str("summon <command>"));
    lines.push(String::from_str("summon <-add | -a> <command_name> <PATH|pwd>"));
    lines.push(String::from_str("summon <-remove | -r> <command_name>"));
    lines.push(String::from_str("summon <-show | -s>"));
    assert(texts(lines@) =~= spec_usage());
    lines
}

/// Builds the line that confirms a shortcut added with a path written out.
pub fn added_with_path(name: &String, path: &String) -> (line: String)
    ensures
        line@ == spec_added_with_path(name@, path@),
{
    let mut line = between("Command '", name, "' added with path '");
    line.append(path.as_str());
    line.append("'.");
    line
}

/// Builds the line that confirms a shortcut added for the working directory.
pub fn added_here(name: &String) -> (line: String)
    ensures
        line@ == spec_added_here(name@),
{
    between("Command '", name, "' added with current directory as path.")
}

/// Builds the line that confirms a shortcut removed.
pub fn removed(name: &String) -> (line: String)
    ensures
        line@ == spec_removed(name@),
{
    between("Command '", name, "' removed.")
}

/// Builds the line for a name that the table does not have.
pub fn not_found(name: &String) -> (line: String)
    ensures
        line@ == spec_not_found(name@),
{
    between("Command '", name, "' not found.")
}

/// Builds the line that shows one shortcut.
pub fn entry_line(name: &String, path: &String) -> (line: String)
    ensures
        line@ == spec_entry_line(name@, path@),
{
    let mut line = name.clone();
    line.append(" -> ");
    line.append(path.as_str());
    line
}

/// Puts a path between double quotes.
pub fn quoted(path: &String) -> (text: String)
    ensures
        text@ == spec_quoted(path@),
{
    between("\"", path, "\"")
}

/// Builds the line for a table that could not be written.
pub fn save_error(reason: &String) -> (line: String)
    ensures
        line@ == spec_save_error(reason@),
{
    let mut line = String::from_str("Error saving config: ");
    line.append(reason.as_str());
    line
}

/// Builds the line for a table that could not be read.
pub fn load_error(reason: &String) -> (line: String)
    ensures
        line@ == spec_load_error(reason@),
{
    let mut line = String::from_str("Error loading config.json: ");
    line.append(reason.as_str());
    line
}

} // verus!
