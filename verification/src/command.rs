//! The commands the shell exposes to its frontend, and the table the
//! bootstrap registers them in. The frontend invokes a command by its wire
//! name; the host dispatcher routes the invocation through this table.

use vstd::prelude::*;
use crate::string_map::StringMap;

verus! {

/// A command the frontend may invoke across the process boundary. The shell
/// exposes exactly one.
#[derive(Clone, Copy, PartialEq, Eq, Structural, Debug)]
pub enum Command {
    /// Write a byte buffer to a filesystem path, whole-file.
    SaveBinaryFile,
}

/// A table from wire names to commands.
pub type CommandTable = StringMap<Command>;

/// The table the bootstrap registers: exactly one entry, the file-save
/// command under its wire name.
pub fn startup_commands() -> (table: CommandTable)
    ensures
        table@ == Map::<Seq<char>, Command>::empty().insert(
            "save_binary_file"@,
            Command::SaveBinaryFile,
        ),
{
    let mut table = StringMap::new();
    table.insert("save_binary_file".to_owned(), Command::SaveBinaryFile);
    table
}

/// Routes one invocation: the command registered under `name`, if any. The
/// dispatcher rejects a name that the table does not bind.
pub fn route(table: &CommandTable, name: &String) -> (found: Option<Command>)
    ensures
        match found {
            Some(command) => table@.contains_key(name@) && command == table@[name@],
            None => !table@.contains_key(name@),
        },
{
    match table.get(name) {
        Some(command) => Some(*command),
        None => None,
    }
}

} // verus!
