use vstd::prelude::*;
use vstd::string::StrSliceExecFns;
use vstd::utf8::{decode_utf8, valid_utf8};

verus! {

/// `ahash::AHashMap`, a hash map; nothing is known of a value of it but
/// what the functions below say.
#[verifier::external_type_specification]
#[verifier::external_body]
#[verifier::reject_recursive_types(K)]
#[verifier::reject_recursive_types(V)]
#[verifier::reject_recursive_types(S)]
pub struct ExAHashMap<K, V, S>(ahash::AHashMap<K, V, S>);

/// `ahash::RandomState`, the hasher of an `AHashMap`.
#[verifier::external_type_specification]
#[verifier::external_body]
pub struct ExRandomState(ahash::RandomState);

/// The table in which the listening commands are kept: for each identifier
/// the slot of its listener.
pub type ListenerMap = ahash::AHashMap<String, usize>;

/// What a [`ListenerMap`] stands for in contracts.
pub type ListenerSlots = Map<Seq<char>, usize>;

/// The contents of a listener table.
pub uninterp spec fn listener_slots(table: ListenerMap) -> ListenerSlots;

/// `ahash::AHashMap::new`: the new table holds nothing.
#[verifier::external_body]
fn slots_new() -> (table: ListenerMap)
    ensures
        listener_slots(table) == ListenerSlots::empty(),
{
    ahash::AHashMap::new()
}

/// `HashMap::contains_key`, reached through `AHashMap`'s `Deref`: whether the
/// table holds the identifier.
#[verifier::external_body]
fn slots_contains(table: &ListenerMap, identifier: &str) -> (found: bool)
    ensures
        found == listener_slots(*table).contains_key(identifier@),
{
    table.contains_key(identifier)
}

/// `ahash::AHashMap::insert`: the identifier now maps to the given slot, and
/// every other identifier is as before.
#[verifier::external_body]
fn slots_insert(table: &mut ListenerMap, identifier: String, slot: usize)
    ensures
        listener_slots(*final(table)) == listener_slots(*old(table)).insert(identifier@, slot),
{
    table.insert(identifier, slot);
}

/// `ahash::AHashMap::get`: the slot that the identifier maps to, if the
/// table holds it.
#[verifier::external_body]
fn slots_get(table: &ListenerMap, identifier: &str) -> (slot: Option<usize>)
    ensures
        slot is Some == listener_slots(*table).contains_key(identifier@),
        slot matches Some(s) ==> s == listener_slots(*table)[identifier@],
{
    table.get(identifier).copied()
}

/// `String::from_utf8`: the text that the bytes encode, where they are valid
/// UTF-8, and nothing where they are not.
#[verifier::external_body]
fn string_from_utf8(bytes: Vec<u8>) -> (text: Option<String>)
    ensures
        text is Some == valid_utf8(bytes@),
        text matches Some(s) ==> s@ == decode_utf8(bytes@),
{
    String::from_utf8(bytes).ok()
}

/// A command line handed to the shell: the program and its arguments.
pub struct ShellCommand {
    pub program: String,
    pub arguments: Vec<String>,
}

/// Whether `command` runs `cmd` through the shell: `sh -c <cmd>`.
pub open spec fn runs_through_shell(command: ShellCommand, cmd: Seq<char>) -> bool {
    &&& command.program@ == "sh"@
    &&& command.arguments@.len() == 2
    &&& command.arguments@[0]@ == "-c"@
    &&& command.arguments@[1]@ == cmd
}

/// `text` without its last character where that is a line feed, else `text`.
pub open spec fn without_trailing_newline(text: Seq<char>) -> Seq<char> {
    if text.len() > 0 && text.last() == '\n' {
        text.drop_last()
    } else {
        text
    }
}

/// What a command hands back to the script: nothing for an empty command, for
/// a command that could not be started (`spawned` is `None`), for output that
/// is not captured and for output that is not UTF-8; else the standard output
/// without one trailing line feed.
pub open spec fn command_output(cmd: Seq<char>, capture_output: bool, spawned: Option<Seq<u8>>)
    -> Option<Seq<char>> {
    match spawned {
        Some(stdout) if cmd.len() > 0 && capture_output && valid_utf8(stdout) => Some(
            without_trailing_newline(decode_utf8(stdout)),
        ),
        _ => None,
    }
}

/// One listening command: its identifier, the last line it wrote and whether
/// it still runs. Each listener is a value of its own, so that each can be
/// guarded by itself.
pub struct CommandListener {
    pub identifier: String,
    pub last_line: String,
    pub running: bool,
}

/// What a [`CommandListener`] stands for in contracts.
pub struct ListenerRecord {
    pub identifier: Seq<char>,
    pub last_line: Seq<char>,
    pub running: bool,
}

impl View for CommandListener {
    type V = ListenerRecord;

    open spec fn view(&self) -> ListenerRecord {
        ListenerRecord {
            identifier: self.identifier@,
            last_line: self.last_line@,
            running: self.running,
        }
    }
}

impl CommandListener {
    /// A listener that has read nothing yet and runs.
    pub fn new(identifier: String) -> (listener: Self)
        ensures
            listener@ == (ListenerRecord {
                identifier: identifier@,
                last_line: Seq::empty(),
                running: true,
            }),
    {
        CommandListener { identifier, last_line: String::new(), running: true }
    }

    /// Overwrites the last line with `line`.
    pub fn record_line(&mut self, line: String)
        ensures
            final(self)@ == (ListenerRecord { last_line: line@, ..old(self)@ }),
    {
        self.last_line = line;
    }

    /// Marks the listener as no longer running; its last line stays.
    pub fn finish(&mut self)
        ensures
            final(self)@ == (ListenerRecord { running: false, ..old(self)@ }),
    {
        self.running = false;
    }
}

/// The mathematical model of the table of listening commands: the slot of
/// each identifier, and the number of listeners that were started.
pub struct ListenerTable {
    pub slots: ListenerSlots,
    pub started: nat,
}

impl ListenerTable {
    /// The table without any listener.
    pub open spec fn empty() -> ListenerTable {
        ListenerTable { slots: Map::empty(), started: 0 }
    }

    /// Every slot was handed out, and no two identifiers share one.
    pub open spec fn wf(self) -> bool {
        &&& self.started <= usize::MAX
        &&& forall|id: Seq<char>| #[trigger]
            self.slots.contains_key(id) ==> self.slots[id] < self.started
        &&& forall|a: Seq<char>, b: Seq<char>|
            #![trigger self.slots[a], self.slots[b]]
            self.slots.contains_key(a) && self.slots.contains_key(b) && a != b ==> self.slots[a]
                != self.slots[b]
    }

    /// Whether a listening command can be started under `identifier`: the
    /// identifier is free, and a slot is left.
    pub open spec fn can_start(self, identifier: Seq<char>) -> bool {
        !self.slots.contains_key(identifier) && self.started < usize::MAX
    }

    /// The table after a listening command is started under `identifier`:
    /// as before where it cannot be started, else with the identifier
    /// entered under the next slot.
    pub open spec fn start(self, identifier: Seq<char>) -> ListenerTable {
        if self.can_start(identifier) {
            ListenerTable {
                slots: self.slots.insert(identifier, self.started as usize),
                started: self.started + 1,
            }
        } else {
            self
        }
    }
}

/// What comes of starting a listening command: the command line to spawn,
/// the listener to guard and to hand the lines to, and its slot.
pub struct StartedListener {
    pub command: ShellCommand,
    pub listener: CommandListener,
    pub slot: usize,
}

/// System-related utilities.
pub struct SystemUtils {
    /// All the listening commands.
    /// Each key is the unique identifier, whereas the value is the slot
    /// under which the listener is kept.
    listening_command_outputs: ListenerMap,
    /// The number of listening commands that were started.
    started: usize,
}

impl View for SystemUtils {
    type V = ListenerTable;

    closed spec fn view(&self) -> ListenerTable {
        ListenerTable {
            slots: listener_slots(self.listening_command_outputs),
            started: self.started as nat,
        }
    }
}

impl Default for SystemUtils {
    /// Utilities with no listening command.
    fn default() -> (utils: Self)
        ensures
            utils@ == ListenerTable::empty(),
    {
        SystemUtils::new()
    }
}

impl SystemUtils {
    /// Utilities with no listening command.
    pub fn new() -> (utils: Self)
        ensures
            utils@ == ListenerTable::empty(),
    {
        SystemUtils { listening_command_outputs: slots_new(), started: 0 }
    }

    /// The command line that runs `cmd` through the shell.
    pub fn shell(cmd: String) -> (command: ShellCommand)
        ensures
            runs_through_shell(command, cmd@),
    {
        let mut arguments: Vec<String> = Vec::new();
        arguments.push("-c".to_owned());
        arguments.push(cmd);
        ShellCommand { program: "sh".to_owned(), arguments }
    }

    /// The command line to spawn for `cmd`, or nothing for an empty command,
    /// which is never spawned.
    pub fn prepare(cmd: String) -> (command: Option<ShellCommand>)
        ensures
            command is None == (cmd@.len() == 0),
            command matches Some(c) ==> runs_through_shell(c, cmd@),
    {
        if cmd.as_str().is_empty() {
            None
        } else {
            Some(Self::shell(cmd))
        }
    }

    /// Removes one trailing line feed from `text`, if it ends in one.
    pub fn strip_trailing_newline(text: String) -> (stripped: String)
        ensures
            stripped@ == without_trailing_newline(text@),
    {
        let length: usize = text.as_str().unicode_len();
        if length > 0 && text.as_str().get_char(length - 1) == '\n' {
            text.as_str().substring_char(0, length - 1).to_owned()
        } else {
            text
        }
    }

    /// Executes a command and optionally returns the output if
    /// `capture_output` is `true`. If not, the output will always be `None`.
    ///
    /// The caller spawns what [`SystemUtils::prepare`] yields and hands in
    /// the standard output as `spawned`, or `None` where it could not spawn.
    pub fn execute(cmd: String, capture_output: bool, spawned: Option<Vec<u8>>) -> (output: Option<
        String,
    >)
        ensures
            match output {
                Some(text) => command_output(
                    cmd@,
                    capture_output,
                    match spawned {
                        Some(stdout) => Some(stdout@),
                        None => None,
                    },
                ) == Some(text@),
                None => command_output(
                    cmd@,
                    capture_output,
                    match spawned {
                        Some(stdout) => Some(stdout@),
                        None => None,
                    },
                ) is None,
            },
    {
        if cmd.as_str().is_empty() {
            return None;
        }
        let stdout = match spawned {
            Some(stdout) => stdout,
            None => {
                return None;
            },
        };
        if !capture_output {
            return None;
        }
        match string_from_utf8(stdout) {
            Some(text) => Some(Self::strip_trailing_newline(text)),
            None => None,
        }
    }

    /// Starts a new listening command instance.
    ///
    /// Where `identifier` is free it is entered under the next slot, and
    /// the command line to spawn comes back with a listener that has read
    /// nothing yet. Where it is taken, nothing changes and nothing is to be
    /// spawned.
    pub fn start_listening_command(&mut self, identifier: String, cmd: String) -> (started:
        Option<StartedListener>)
        requires
            old(self)@.wf(),
        ensures
            final(self)@.wf(),
            final(self)@ == old(self)@.start(identifier@),
            started is Some == old(self)@.can_start(identifier@),
            started matches Some(s) ==> {
                &&& runs_through_shell(s.command, cmd@)
                &&& s.listener@ == (ListenerRecord {
                    identifier: identifier@,
                    last_line: Seq::empty(),
                    running: true,
                })
                &&& s.slot == old(self)@.started
            },
    {
        proof {
            law_start_keeps_wf(self@, identifier@);
        }
        if slots_contains(&self.listening_command_outputs, identifier.as_str()) {
            return None;
        }
        if self.started == usize::MAX {
            return None;
        }
        let slot: usize = self.started;
        let listener = CommandListener::new(identifier.clone());
        slots_insert(&mut self.listening_command_outputs, identifier, slot);
        self.started = slot + 1;
        Some(StartedListener { command: Self::shell(cmd), listener, slot })
    }

    /// The slot of the listening command `identifier`, if there is one.
    pub fn slot_of(&self, identifier: &str) -> (slot: Option<usize>)
        ensures
            slot is Some == self@.slots.contains_key(identifier@),
            slot matches Some(s) ==> s == self@.slots[identifier@],
    {
        slots_get(&self.listening_command_outputs, identifier)
    }

    /// The number of listening commands that were started.
    pub fn len(&self) -> (count: usize)
        ensures
            count == self@.started,
    {
        self.started
    }

    /// Polls the last line of a listening command without waiting: where
    /// the listener could not be had at once (`listener` is `None`) there is
    /// no value.
    pub fn poll_listening_command(listener: Option<&CommandListener>) -> (line: Option<String>)
        ensures
            line is Some == listener is Some,
            line matches Some(l) ==> l@ == listener->0@.last_line,
    {
        match listener {
            Some(listener) => Some(listener.last_line.clone()),
            None => None,
        }
    }

    /// All the listening commands.
    /// Each key is the unique identifier, whereas the value is the slot
    /// under which the listener is kept.
    pub fn get_listening_command_outputs(&self) -> (table: &ListenerMap)
        ensures
            listener_slots(*table) == self@.slots,
    {
        &self.listening_command_outputs
    }
}

/// Starting a listening command under an identifier that is taken is a no-op:
/// the identifier keeps its slot, no slot is handed out, and no entry is
/// added.
pub proof fn law_second_listener_is_a_no_op(table: ListenerTable, identifier: Seq<char>)
    requires
        table.wf(),
        table.started < usize::MAX,
    ensures
        table.start(identifier).slots.contains_key(identifier),
        table.start(identifier).slots.dom() == table.slots.dom().insert(identifier),
        table.start(identifier).start(identifier) == table.start(identifier),
        !table.start(identifier).can_start(identifier),
{
    assert(table.start(identifier).slots.dom() =~= table.slots.dom().insert(identifier));
}

/// Starting a listening command keeps the table well formed.
pub proof fn law_start_keeps_wf(table: ListenerTable, identifier: Seq<char>)
    requires
        table.wf(),
    ensures
        table.start(identifier).wf(),
{
    let after = table.start(identifier);
    assert forall|a: Seq<char>, b: Seq<char>|
        after.slots.contains_key(a) && after.slots.contains_key(b) && a != b implies after.slots[a]
        != after.slots[b] by {
        if table.can_start(identifier) {
            if a != identifier && b != identifier {
                assert(table.slots[a] != table.slots[b]);
            } else if a == identifier {
                assert(table.slots[b] < table.started);
            } else {
                assert(table.slots[a] < table.started);
            }
        } else {
            assert(table.slots[a] != table.slots[b]);
        }
    }
}

/// Starting a listening command leaves every other listener its slot, and
/// no two listeners ever share one.
pub proof fn law_listeners_keep_their_slots(
    table: ListenerTable,
    identifier: Seq<char>,
    other: Seq<char>,
)
    requires
        table.wf(),
        table.slots.contains_key(other),
    ensures
        table.start(identifier).slots.contains_key(other),
        table.start(identifier).slots[other] == table.slots[other],
        other != identifier && table.start(identifier).slots.contains_key(identifier)
            ==> table.start(identifier).slots[identifier] != table.slots[other],
{
    law_start_keeps_wf(table, identifier);
    let after = table.start(identifier);
    if other != identifier && after.slots.contains_key(identifier) {
        assert(after.slots[identifier] != after.slots[other]);
    }
}

} // verus!
