//! The keyboard: scancodes queued by the interrupt handler, and the shell that turns the
//! decoded keys into a command line and runs its commands.
use vstd::prelude::*;

use crate::queue::{scancode_queue_capacity, scancode_queue_contents, scancode_queue_new, scancode_queue_pop, scancode_queue_push};
use crossbeam_queue::ArrayQueue;
use pc_keyboard::layouts::Us104Key;
use pc_keyboard::{KeyEvent, PS2Keyboard, ScancodeSet1};

verus! {

/// The PS/2 keyboard of `pc_keyboard`, with the US 104-key layout and scancode set 1: it
/// turns scancode bytes into key events and key events into keys, keeping the state of
/// multi-byte scancodes and of the modifier keys. Its state is the outside crate's own, so
/// the keyboard is held in a private field that Verus does not see into.
#[verifier::external_body]
pub struct Keyboard {
    kb: PS2Keyboard<Us104Key, ScancodeSet1>,
}

/// `pc_keyboard`'s key event: a key and whether it went down or up.
#[verifier::external_type_specification]
#[verifier::external_body]
pub struct ExKeyEvent(KeyEvent);

/// `pc_keyboard`'s error for a scancode it cannot decode.
#[verifier::external_type_specification]
#[verifier::external_body]
pub struct ExKeyboardError(pc_keyboard::Error);

impl Keyboard {
    /// `PS2Keyboard::new` with scancode set 1, the US 104-key layout, and control keys not
    /// turned into control characters.
    #[verifier::external_body]
    fn make() -> (r: Keyboard) {
        Keyboard { kb: PS2Keyboard::new(ScancodeSet1::new(), Us104Key, pc_keyboard::HandleControl::Ignore) }
    }

    /// A keyboard in its starting state: no scancode half read, no modifier held.
    pub fn new() -> (r: Keyboard) {
        Self::make()
    }

    /// `PS2Keyboard::add_byte`: feeds one scancode byte to the scancode decoder, which gives a
    /// key event once the bytes so far make one. What comes out depends on the bytes fed
    /// before, which the keyboard keeps; nothing is promised of it.
    #[verifier::external_body]
    fn add_byte(&mut self, byte: u8) -> (r: Result<Option<KeyEvent>, pc_keyboard::Error>) {
        self.kb.add_byte(byte)
    }

    /// `PS2Keyboard::process_keyevent`: turns a key event into a key, as the layout and the
    /// modifier keys held give it; none for a release or a modifier. It depends on the keys
    /// pressed before, which the keyboard keeps; nothing is promised of it.
    #[verifier::external_body]
    fn process_keyevent(&mut self, ev: KeyEvent) -> (r: Option<DecodedKey>) {
        match self.kb.process_keyevent(ev) {
            Some(pc_keyboard::DecodedKey::Unicode(c)) => Some(DecodedKey::Unicode(c)),
            Some(pc_keyboard::DecodedKey::RawKey(_)) => Some(DecodedKey::RawKey),
            None => None,
        }
    }
}

/// Decodes one scancode: it is fed to the keyboard, and the key event it completes, if any,
/// is turned into a key; a byte that completes no event, or that the keyboard refuses, gives
/// no key.
pub fn decode_scancode(kb: &mut Keyboard, scancode: u8) -> (r: Option<DecodedKey>) {
    match kb.add_byte(scancode) {
        Ok(Some(event)) => kb.process_keyevent(event),
        Ok(None) => None,
        Err(_) => None,
    }
}

/// How many scancodes wait at most; more are dropped.
pub const QUEUE_SIZE: usize = 100;

/// The scancodes received and not yet decoded, oldest first.
pub struct ScancodeStream {
    pub queue: ArrayQueue<u8>,
}

impl ScancodeStream {
    /// The scancodes waiting, oldest first.
    pub open spec fn pending(&self) -> Seq<u8> {
        scancode_queue_contents(self.queue)
    }

    /// The invariant: the queue was made for `QUEUE_SIZE` scancodes and holds no more.
    pub open spec fn wf(&self) -> bool {
        &&& scancode_queue_capacity(self.queue) == QUEUE_SIZE
        &&& self.pending().len() <= QUEUE_SIZE
    }

    /// An empty stream.
    pub fn new() -> (r: ScancodeStream)
        ensures
            r.wf(),
            r.pending() == Seq::<u8>::empty(),
    {
        ScancodeStream { queue: scancode_queue_new(QUEUE_SIZE) }
    }

    /// Queues `scancode`, from the keyboard interrupt, unless the queue is full; says whether
    /// it was queued.
    pub fn add_scancode(&mut self, scancode: u8) -> (r: bool)
        requires
            old(self).wf(),
        ensures
            final(self).wf(),
            r == (old(self).pending().len() < QUEUE_SIZE),
            r ==> final(self).pending() == old(self).pending().push(scancode),
            !r ==> final(self).pending() == old(self).pending(),
    {
        match scancode_queue_push(&mut self.queue, scancode) {
            Ok(()) => true,
            Err(_) => false,
        }
    }

    /// The oldest scancode waiting, if any; none means the task has to wait for a key.
    pub fn poll_next(&mut self) -> (r: Option<u8>)
        requires
            old(self).wf(),
        ensures
            final(self).wf(),
            old(self).pending().len() == 0 ==> r is None && final(self).pending() == old(self).pending(),
            old(self).pending().len() > 0 ==> r == Some(old(self).pending()[0]) && final(self).pending()
                == old(self).pending().drop_first(),
    {
        scancode_queue_pop(&mut self.queue)
    }
}

/// A key as the keyboard layout decodes it: a character, or a key that has none.
#[derive(Clone, Copy, Debug, PartialEq, Eq, Structural)]
pub enum DecodedKey {
    RawKey,
    Unicode(char),
}

/// The commands that the shell knows.
#[derive(Clone, Copy, Debug, PartialEq, Eq, Structural)]
pub enum Command {
    /// `lspci`: list the PCI devices.
    Lspci,
    /// `date`: show the date and time.
    Date,
    /// Anything else.
    Unknown,
}

/// What the shell does after a key.
#[derive(Clone, Copy, Debug, PartialEq, Eq, Structural)]
pub enum ShellAction {
    /// Nothing to show.
    Nothing,
    /// Show the character typed.
    Echo(char),
    /// The line was ended: run the command, then show a new prompt.
    Run(Command),
}

/// The command that the line `command` names.
pub open spec fn spec_command(command: Seq<char>) -> Command {
    if command == seq!['l', 's', 'p', 'c', 'i'] {
        Command::Lspci
    } else if command == seq!['d', 'a', 't', 'e'] {
        Command::Date
    } else {
        Command::Unknown
    }
}

fn chars_equal(a: &[char], b: &[char]) -> (r: bool)
    ensures
        r == (a@ == b@),
{
    if a.len() != b.len() {
        return false;
    }
    let mut i: usize = 0;
    while i < a.len()
        invariant
            a@.len() == b@.len(),
            i <= a@.len(),
            forall|j: int| 0 <= j < i ==> a@[j] == b@[j],
        decreases a@.len() - i,
    {
        if a[i] != b[i] {
            return false;
        }
        i = i + 1;
    }
    assert(a@ =~= b@);
    true
}

/// What the shell does with key `key` when its line holds `buf`, and the line after it.
pub open spec fn spec_handle_key(buf: Seq<char>, key: DecodedKey) -> (ShellAction, Seq<char>) {
    match key {
        DecodedKey::RawKey => (ShellAction::Nothing, buf),
        DecodedKey::Unicode(c) => if c == '\n' {
            (ShellAction::Run(spec_command(buf)), Seq::empty())
        } else {
            (ShellAction::Echo(c), buf.push(c))
        },
    }
}

/// The shell: the line typed so far.
pub struct Shell {
    pub text_buffer: Vec<char>,
}

impl Shell {
    /// A shell with an empty line.
    pub fn new() -> (r: Shell)
        ensures
            r.text_buffer@ == Seq::<char>::empty(),
    {
        Shell { text_buffer: Vec::new() }
    }

    /// Handles one scancode: it is decoded with `kb`; when it gives no key nothing happens,
    /// and otherwise the key is handled as `handle_key` handles it.
    pub fn handle_scancode(&mut self, kb: &mut Keyboard, scancode: u8) -> (r: (Option<DecodedKey>, ShellAction))
        ensures
            r.0 is None ==> r.1 == ShellAction::Nothing && final(self).text_buffer@ == old(self).text_buffer@,
            r.0 matches Some(key) ==> spec_handle_key(old(self).text_buffer@, key) == (r.1, final(self).text_buffer@),
    {
        match decode_scancode(kb, scancode) {
            Some(key) => {
                let action = self.handle_key(key);
                (Some(key), action)
            },
            None => (None, ShellAction::Nothing),
        }
    }

    /// Handles one key: a new line runs the line typed so far and starts an empty one; any
    /// other character is added to the line and shown; keys without a character are ignored.
    pub fn handle_key(&mut self, key: DecodedKey) -> (r: ShellAction)
        ensures
            key == DecodedKey::RawKey ==> r == ShellAction::Nothing
                && final(self).text_buffer@ == old(self).text_buffer@,
            key == DecodedKey::Unicode('\n') ==> r == ShellAction::Run(spec_command(old(self).text_buffer@))
                && final(self).text_buffer@ == Seq::<char>::empty(),
            forall|c: char|
                c != '\n' && key == DecodedKey::Unicode(c) ==> r == ShellAction::Echo(c)
                    && final(self).text_buffer@ == old(self).text_buffer@.push(c),
            spec_handle_key(old(self).text_buffer@, key) == (r, final(self).text_buffer@),
    {
        match key {
            DecodedKey::RawKey => ShellAction::Nothing,
            DecodedKey::Unicode(character) => {
                if character == '\n' {
                    let command = Self::handle_command(self.text_buffer.as_slice());
                    self.text_buffer.clear();
                    ShellAction::Run(command)
                } else {
                    self.text_buffer.push(character);
                    ShellAction::Echo(character)
                }
            },
        }
    }

    /// The command that the line `command` names.
    pub fn handle_command(command: &[char]) -> (r: Command)
        ensures
            r == spec_command(command@),
    {
        let lspci = ['l', 's', 'p', 'c', 'i'];
        let date = ['d', 'a', 't', 'e'];
        assert(lspci@ =~= seq!['l', 's', 'p', 'c', 'i']);
        assert(date@ =~= seq!['d', 'a', 't', 'e']);
        if chars_equal(command, lspci.as_slice()) {
            Command::Lspci
        } else if chars_equal(command, date.as_slice()) {
            Command::Date
        } else {
            Command::Unknown
        }
    }
}

} // verus!
