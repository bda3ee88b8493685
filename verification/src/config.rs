//! The binding table: which command a button runs under which program.

use crate::outside::{yaml_entries, yaml_error_text, yaml_mapping};
use vstd::prelude::*;

verus! {

/// Name of the program entry that holds the fallback bindings.
pub const DEFAULT_PROGRAM: &'static str = "_default";

/// The commands of one program, by button identity.
pub type Bindings = Map<Seq<char>, Seq<char>>;

/// The bindings of every program, by program name.
pub type Programs = Map<Seq<char>, Bindings>;

/// One button of one program and the command it runs.
#[derive(Debug, Clone, PartialEq, Eq)]
pub struct Binding {
    pub button: String,
    pub command: String,
}

/// One program and its bindings, as listed in a configuration.
#[derive(Debug, Clone, PartialEq, Eq)]
pub struct ProgramEntry {
    pub program: String,
    pub bindings: Vec<Binding>,
}

/// Why a configuration could not be loaded.
#[derive(Debug, Clone, PartialEq, Eq)]
pub enum ConfigLoadError {
    /// The text is not a mapping from program names to mappings from button
    /// identities to commands.
    Malformed { message: String },
    /// The configuration lacks the `_default` program.
    MissingDefault,
}

/// A command that was run wrote to its error stream.
#[derive(Debug, Clone, PartialEq, Eq)]
pub struct CommandExecutionError {
    /// The command that was run.
    pub command: String,
    /// What it wrote to its error stream.
    pub stderr: Vec<u8>,
}

/// The bindings that a list stands for. Where a button is listed more than
/// once, the last listing counts.
pub open spec fn bindings_of(bindings: Seq<Binding>) -> Bindings
    decreases bindings.len(),
{
    if bindings.len() == 0 {
        Map::empty()
    } else {
        bindings_of(bindings.drop_last()).insert(bindings.last().button@, bindings.last().command@)
    }
}

/// The table that a list of programs stands for. Where a program is listed
/// more than once, the last listing counts.
pub open spec fn programs_of(entries: Seq<ProgramEntry>) -> Programs
    decreases entries.len(),
{
    if entries.len() == 0 {
        Map::empty()
    } else {
        programs_of(entries.drop_last()).insert(
            entries.last().program@,
            bindings_of(entries.last().bindings@),
        )
    }
}

/// The command that `table` binds to `button` under `program` itself.
pub open spec fn bound_command(table: Programs, program: Seq<char>, button: Seq<char>) -> Option<
    Seq<char>,
> {
    if table.contains_key(program) && table[program].contains_key(button) {
        Some(table[program][button])
    } else {
        None
    }
}

/// The command that a press of `button` stands for while `program` has
/// focus: the program's own binding if it has one, else the binding of
/// `_default`, else the empty command.
pub open spec fn resolve(table: Programs, program: Seq<char>, button: Seq<char>) -> Seq<char> {
    match bound_command(table, program, button) {
        Some(command) => command,
        None => match bound_command(table, DEFAULT_PROGRAM@, button) {
            Some(command) => command,
            None => Seq::empty(),
        },
    }
}

/// The command that a press of `button` runs while `program` has focus:
/// the one it resolves to, unless that is the empty command, which runs
/// nothing.
pub open spec fn command_to_run(table: Programs, program: Seq<char>, button: Seq<char>) -> Option<
    Seq<char>,
> {
    let command = resolve(table, program, button);
    if command.len() > 0 {
        Some(command)
    } else {
        None
    }
}

proof fn lemma_binding_listed(bindings: Seq<Binding>, i: int, button: Seq<char>)
    requires
        0 <= i < bindings.len(),
        bindings[i].button@ == button,
        forall|j: int| i < j < bindings.len() ==> bindings[j].button@ != button,
    ensures
        bindings_of(bindings).contains_key(button),
        bindings_of(bindings)[button] == bindings[i].command@,
    decreases bindings.len(),
{
    if i < bindings.len() - 1 {
        lemma_binding_listed(bindings.drop_last(), i, button);
    }
}

proof fn lemma_binding_unlisted(bindings: Seq<Binding>, button: Seq<char>)
    requires
        forall|j: int| 0 <= j < bindings.len() ==> bindings[j].button@ != button,
    ensures
        !bindings_of(bindings).contains_key(button),
    decreases bindings.len(),
{
    if bindings.len() > 0 {
        lemma_binding_unlisted(bindings.drop_last(), button);
    }
}

proof fn lemma_program_listed(entries: Seq<ProgramEntry>, i: int, program: Seq<char>)
    requires
        0 <= i < entries.len(),
        entries[i].program@ == program,
        forall|j: int| i < j < entries.len() ==> entries[j].program@ != program,
    ensures
        programs_of(entries).contains_key(program),
        programs_of(entries)[program] == bindings_of(entries[i].bindings@),
    decreases entries.len(),
{
    if i < entries.len() - 1 {
        lemma_program_listed(entries.drop_last(), i, program);
    }
}

proof fn lemma_program_unlisted(entries: Seq<ProgramEntry>, program: Seq<char>)
    requires
        forall|j: int| 0 <= j < entries.len() ==> entries[j].program@ != program,
    ensures
        !programs_of(entries).contains_key(program),
    decreases entries.len(),
{
    if entries.len() > 0 {
        lemma_program_unlisted(entries.drop_last(), program);
    }
}

/// Finds the listing of `button` that counts.
fn find_binding<'a>(bindings: &'a Vec<Binding>, button: &String) -> (r: Option<&'a String>)
    ensures
        match r {
            Some(command) => bindings_of(bindings@).contains_key(button@) && bindings_of(
                bindings@,
            )[button@] == command@,
            None => !bindings_of(bindings@).contains_key(button@),
        },
{
    let mut i: usize = bindings.len();
    while i > 0
        invariant
            i <= bindings.len(),
            forall|j: int| i <= j < bindings.len() ==> bindings[j].button@ != button@,
        decreases i,
    {
        i -= 1;
        if bindings[i].button == *button {
            proof {
                lemma_binding_listed(bindings@, i as int, button@);
            }
            return Some(&bindings[i].command);
        }
    }
    proof {
        lemma_binding_unlisted(bindings@, button@);
    }
    None
}

/// Finds the listing of `program` that counts.
fn find_program<'a>(entries: &'a Vec<ProgramEntry>, program: &String) -> (r: Option<
    &'a ProgramEntry,
>)
    ensures
        match r {
            Some(entry) => programs_of(entries@).contains_key(program@) && programs_of(
                entries@,
            )[program@] == bindings_of(entry.bindings@),
            None => !programs_of(entries@).contains_key(program@),
        },
{
    let mut i: usize = entries.len();
    while i > 0
        invariant
            i <= entries.len(),
            forall|j: int| i <= j < entries.len() ==> entries[j].program@ != program@,
        decreases i,
    {
        i -= 1;
        if entries[i].program == *program {
            proof {
                lemma_program_listed(entries@, i as int, program@);
            }
            return Some(&entries[i]);
        }
    }
    proof {
        lemma_program_unlisted(entries@, program@);
    }
    None
}

/// A loaded configuration. It always holds the `_default` program.
pub struct BindingTable {
    entries: Vec<ProgramEntry>,
}

impl View for BindingTable {
    type V = Programs;

    closed spec fn view(&self) -> Programs {
        programs_of(self.entries@)
    }
}

impl BindingTable {
    #[verifier::type_invariant]
    spec fn holds_default(self) -> bool {
        programs_of(self.entries@).contains_key(DEFAULT_PROGRAM@)
    }

    /// Builds the table that `entries` stands for. The list must name the
    /// `_default` program.
    pub fn from_entries(entries: Vec<ProgramEntry>) -> (r: Result<BindingTable, ConfigLoadError>)
        ensures
            match r {
                Ok(table) => table@ == programs_of(entries@) && table@.contains_key(
                    DEFAULT_PROGRAM@,
                ),
                Err(e) => e is MissingDefault && !programs_of(entries@).contains_key(
                    DEFAULT_PROGRAM@,
                ),
            },
    {
        let default_program = DEFAULT_PROGRAM.to_owned();
        let listed = find_program(&entries, &default_program).is_some();
        if listed {
            Ok(BindingTable { entries })
        } else {
            Err(ConfigLoadError::MissingDefault)
        }
    }

    /// The command bound to `button` under `program` itself, if any.
    pub fn binding(&self, program: &String, button: &String) -> (r: Option<&String>)
        ensures
            match r {
                Some(command) => bound_command(self@, program@, button@) == Some(command@),
                None => bound_command(self@, program@, button@) is None,
            },
    {
        match find_program(&self.entries, program) {
            Some(entry) => find_binding(&entry.bindings, button),
            None => None,
        }
    }

    /// Resolves the command for `button` while `program` has focus: the
    /// program's own binding, else that of `_default`, else the empty
    /// command.
    pub fn command(&self, program: &String, button: &String) -> (command: &str)
        ensures
            command@ == resolve(self@, program@, button@),
            self@.contains_key(DEFAULT_PROGRAM@),
    {
        proof {
            use_type_invariant(self);
        }
        if let Some(own) = self.binding(program, button) {
            return own.as_str();
        }
        let default_program = DEFAULT_PROGRAM.to_owned();
        match self.binding(&default_program, button) {
            Some(fallback) => fallback.as_str(),
            None => {
                proof {
                    reveal_strlit("");
                }
                ""
            },
        }
    }
}

/// Looking a command up changes nothing and depends on nothing but the
/// table, the program and the button: any two look-ups of one button under
/// one program in one table give the same command.
pub proof fn lemma_resolve_is_stable(
    table: Programs,
    program: Seq<char>,
    button: Seq<char>,
    first: Seq<char>,
    second: Seq<char>,
)
    requires
        first == resolve(table, program, button),
        second == resolve(table, program, button),
    ensures
        first == second,
{
}

/// Loads the binding table from the text of a configuration: a YAML mapping
/// from program names to mappings from button identities to commands, which
/// must hold the `_default` program.
pub fn read_config(text: &str) -> (r: Result<BindingTable, ConfigLoadError>)
    ensures
        match yaml_mapping(text@) {
            Some(table) => if table.contains_key(DEFAULT_PROGRAM@) {
                r matches Ok(loaded) && loaded@ == table
            } else {
                r matches Err(e) && e is MissingDefault
            },
            None => r matches Err(e) && e is Malformed,
        },
{
    match yaml_entries(text) {
        Ok(entries) => BindingTable::from_entries(entries),
        Err(error) => Err(ConfigLoadError::Malformed { message: yaml_error_text(&error) }),
    }
}

/// Picks the command to run for a press of `button` while `program` has
/// focus. Running it is left to the caller, who hands what the command
/// wrote to its error stream to [`command_outcome`]. `None` means that
/// there is nothing to run.
pub fn run_command(config: &BindingTable, program: &String, button: &String) -> (r: Option<String>)
    ensures
        r.deep_view() == command_to_run(config@, program@, button@),
{
    let command = config.command(program, button);
    if command.is_empty() {
        None
    } else {
        Some(command.to_owned())
    }
}

/// Judges a finished command by its error stream: it succeeded exactly when
/// it wrote nothing there, whatever its exit status. The error holds the
/// command and what it wrote.
pub fn command_outcome(command: String, stderr: Vec<u8>) -> (r: Result<(), CommandExecutionError>)
    ensures
        match r {
            Ok(_) => stderr@.len() == 0,
            Err(e) => stderr@.len() > 0 && e.command@ == command@ && e.stderr@ == stderr@,
        },
{
    if stderr.len() == 0 {
        Ok(())
    } else {
        Err(CommandExecutionError { command, stderr })
    }
}

/// What the release of `button` does: nothing, so far. It always succeeds.
#[allow(unused_variables)]
pub fn stop_command(config: &BindingTable, button: &String) -> (r: Result<
    (),
    CommandExecutionError,
>)
    ensures
        r is Ok,
{
    Ok(())
}

} // verus!
