//! The classifier that runs inside the hook callback.
//!
//! One callback invocation is a short dialogue. The library says what to do
//! next ([`Instruction`]); the host does it and reports what it saw
//! ([`Observation`]). The dialogue opens with [`begin`] and goes on with
//! [`advance`] until the instruction is [`Instruction::Finish`]. The host
//! touches nothing that it was not told to: not the event's data before
//! [`Instruction::ReadKey`], and no other thread's input queue before
//! [`Instruction::AttachInput`].

use vstd::prelude::*;
use crate::command::{control_command, control_entry, Command, CommandView};
use crate::translate::{decode_translation, translated_text};

verus! {

/// The hook code that asks the callback to process the event.
pub const HC_ACTION: i32 = 0;

/// The message identifier of a key-down.
pub const WM_KEYDOWN: usize = 0x100;

/// Virtual key code of the left Control key, the index of its entry in a
/// keyboard state snapshot.
pub const VK_LCONTROL: usize = 162;

/// Number of entries in a keyboard state snapshot.
pub const SNAPSHOT_LEN: usize = 256;

/// What the operating system hands to the callback: the hook code, the
/// message identifier and, in the event's data, the virtual key code.
#[derive(Debug, Clone, Copy, PartialEq, Eq, Structural)]
pub struct KeyNotice {
    pub code: i32,
    pub message: usize,
    pub key: u32,
}

/// What becomes of the event.
#[derive(Debug, Clone, PartialEq, Eq)]
pub enum Disposition {
    /// No command; the event goes on to its normal destination.
    Forward,
    /// The command is emitted and the event goes no further.
    Swallow(Command),
}

impl View for Disposition {
    type V = Option<CommandView>;

    open spec fn view(&self) -> Option<CommandView> {
        match self {
            Disposition::Forward => None,
            Disposition::Swallow(command) => Some(command@),
        }
    }
}

impl Disposition {
    /// Whether the event is kept from its normal destination.
    pub fn suppresses(&self) -> (suppressed: bool)
        ensures
            suppressed == self@.is_some(),
    {
        match self {
            Disposition::Forward => false,
            Disposition::Swallow(_) => true,
        }
    }

    /// The command to emit, if any.
    pub fn command(self) -> (emitted: Option<Command>)
        ensures
            emitted.is_some() == self@.is_some(),
            emitted matches Some(command) ==> self@ == Some(command@),
    {
        match self {
            Disposition::Forward => None,
            Disposition::Swallow(command) => Some(command),
        }
    }
}

/// Where one callback invocation stands.
#[derive(Debug, Clone, Copy, PartialEq, Eq, Structural)]
pub enum Stage {
    /// The key code of the event was asked for.
    Identifying,
    /// The attach to the focused thread's input queue was asked for.
    Attaching { key: u32 },
    /// The keyboard state snapshot was asked for; the attach is outstanding.
    Reading { key: u32 },
    /// The detach was asked for after the snapshot.
    Detaching { key: u32, control_held: bool },
    /// The layout translation was asked for.
    Translating { key: u32 },
    /// The detach was asked for because the host answered out of turn.
    Abandoning,
    /// The disposition was given.
    Settled,
}

/// What the host is to do next.
#[derive(Debug, Clone, PartialEq, Eq)]
pub enum Instruction {
    /// Read the virtual key code from the event's data.
    ReadKey,
    /// Attach the callback thread's input queue to that of the thread that
    /// owns the focused window, and report whether that worked.
    AttachInput,
    /// Read the keyboard state snapshot.
    ReadKeyboardState,
    /// Detach the callback thread's input queue again.
    DetachInput,
    /// Resolve the focused thread's layout, map the key to its scan code and
    /// translate it under the snapshot just read.
    Translate { key: u32 },
    /// Emit the command, if there is one, and return to the operating system.
    Finish(Disposition),
}

/// The mathematical value of an [`Instruction`].
pub enum InstructionView {
    ReadKey,
    AttachInput,
    ReadKeyboardState,
    DetachInput,
    Translate { key: u32 },
    Finish(Option<CommandView>),
}

impl View for Instruction {
    type V = InstructionView;

    open spec fn view(&self) -> InstructionView {
        match self {
            Instruction::ReadKey => InstructionView::ReadKey,
            Instruction::AttachInput => InstructionView::AttachInput,
            Instruction::ReadKeyboardState => InstructionView::ReadKeyboardState,
            Instruction::DetachInput => InstructionView::DetachInput,
            Instruction::Translate { key } => InstructionView::Translate { key: *key },
            Instruction::Finish(disposition) => InstructionView::Finish(disposition@),
        }
    }
}

/// What the host reports after carrying out an instruction.
pub enum Observation<'a> {
    /// The virtual key code of the event.
    Key(u32),
    /// The attach was tried; `true` if it worked.
    Attached(bool),
    /// The keyboard state snapshot.
    Snapshot(&'a [u8; 256]),
    /// The detach was done.
    Detached,
    /// The translation reported `count` code units, written to `units`.
    Translated { count: i32, units: &'a [u16] },
}

/// The mathematical value of an [`Observation`].
pub enum Event {
    Key(u32),
    Attached(bool),
    Snapshot(Seq<u8>),
    Detached,
    Translated { count: i32, units: Seq<u16> },
}

impl<'a> View for Observation<'a> {
    type V = Event;

    open spec fn view(&self) -> Event {
        match self {
            Observation::Key(key) => Event::Key(*key),
            Observation::Attached(ok) => Event::Attached(*ok),
            Observation::Snapshot(state) => Event::Snapshot(state@),
            Observation::Detached => Event::Detached,
            Observation::Translated { count, units } => Event::Translated {
                count: *count,
                units: units@,
            },
        }
    }
}

/// The left Control key counts as held when its entry has any bit set
/// beyond the toggle bit.
pub open spec fn left_control_held(snapshot: Seq<u8>) -> bool {
    snapshot.len() > VK_LCONTROL && snapshot[VK_LCONTROL as int] > 1
}

/// A notice is a key-down to process when the hook code asks for action and
/// the message is a key-down.
pub open spec fn is_key_down(code: i32, message: usize) -> bool {
    code == HC_ACTION && message == WM_KEYDOWN
}

/// The literal command that a translation stands for, if it has text.
pub open spec fn literal_of(count: i32, units: Seq<u16>) -> Option<CommandView> {
    match translated_text(count, units) {
        Some(text) => Some(CommandView::Literal(text)),
        None => None,
    }
}

/// The first move: anything but a key-down is forwarded unread, and for a
/// key-down the key code is asked for.
pub open spec fn opening(code: i32, message: usize) -> (Stage, InstructionView) {
    if is_key_down(code, message) {
        (Stage::Identifying, InstructionView::ReadKey)
    } else {
        (Stage::Settled, InstructionView::Finish(None))
    }
}

/// The next move. A key of the control table is swallowed at once; any
/// other key starts the query of the focused application's keyboard state.
/// An answer out of turn ends the dialogue with the event forwarded, after a
/// detach where an attach is still outstanding.
pub open spec fn step(stage: Stage, event: Event) -> (Stage, InstructionView) {
    match (stage, event) {
        (Stage::Identifying, Event::Key(key)) => if control_entry(key).is_some() {
            (Stage::Settled, InstructionView::Finish(control_entry(key)))
        } else {
            (Stage::Attaching { key }, InstructionView::AttachInput)
        },
        (Stage::Attaching { key }, Event::Attached(_)) => (
            Stage::Reading { key },
            InstructionView::ReadKeyboardState,
        ),
        (Stage::Reading { key }, Event::Snapshot(snapshot)) => (
            Stage::Detaching { key, control_held: left_control_held(snapshot) },
            InstructionView::DetachInput,
        ),
        (Stage::Detaching { key, control_held }, Event::Detached) => if control_held {
            (Stage::Settled, InstructionView::Finish(None))
        } else {
            (Stage::Translating { key }, InstructionView::Translate { key })
        },
        (Stage::Translating { key }, Event::Translated { count, units }) => (
            Stage::Settled,
            InstructionView::Finish(literal_of(count, units)),
        ),
        (Stage::Attaching { .. }, _) | (Stage::Reading { .. }, _) => (
            Stage::Abandoning,
            InstructionView::DetachInput,
        ),
        _ => (Stage::Settled, InstructionView::Finish(None)),
    }
}

/// Opens the dialogue for one call of the hook, with the hook code and the
/// message identifier that the operating system passed.
pub fn begin(code: i32, message: usize) -> (next: (Stage, Instruction))
    ensures
        (next.0, next.1@) == opening(code, message),
{
    if code == HC_ACTION && message == WM_KEYDOWN {
        (Stage::Identifying, Instruction::ReadKey)
    } else {
        (Stage::Settled, Instruction::Finish(Disposition::Forward))
    }
}

/// Takes the host's report and says what to do next.
pub fn advance(stage: Stage, observation: &Observation) -> (next: (Stage, Instruction))
    ensures
        (next.0, next.1@) == step(stage, observation@),
{
    match (stage, observation) {
        (Stage::Identifying, Observation::Key(key)) => match control_command(*key) {
            Some(command) => (Stage::Settled, Instruction::Finish(Disposition::Swallow(command))),
            None => (Stage::Attaching { key: *key }, Instruction::AttachInput),
        },
        (Stage::Attaching { key }, Observation::Attached(_)) => (
            Stage::Reading { key },
            Instruction::ReadKeyboardState,
        ),
        (Stage::Reading { key }, Observation::Snapshot(snapshot)) => {
            let control_held = snapshot[VK_LCONTROL] > 1;
            (Stage::Detaching { key, control_held }, Instruction::DetachInput)
        },
        (Stage::Detaching { key, control_held }, Observation::Detached) => {
            if control_held {
                (Stage::Settled, Instruction::Finish(Disposition::Forward))
            } else {
                (Stage::Translating { key }, Instruction::Translate { key })
            }
        },
        (Stage::Translating { key }, Observation::Translated { count, units }) => {
            match decode_translation(*count, units) {
                Some(text) => (
                    Stage::Settled,
                    Instruction::Finish(Disposition::Swallow(Command::Literal(text))),
                ),
                None => (Stage::Settled, Instruction::Finish(Disposition::Forward)),
            }
        },
        (Stage::Attaching { .. }, _) | (Stage::Reading { .. }, _) => (
            Stage::Abandoning,
            Instruction::DetachInput,
        ),
        _ => (Stage::Settled, Instruction::Finish(Disposition::Forward)),
    }
}

/// The disposition of an event, given what the host would observe on the
/// way: the keyboard state snapshot and the translation. A key of the
/// control table is decided before either is looked at, and the left Control
/// key before the translation.
pub open spec fn classification(
    notice: KeyNotice,
    snapshot: Seq<u8>,
    count: i32,
    units: Seq<u16>,
) -> Option<CommandView> {
    if !is_key_down(notice.code, notice.message) {
        None
    } else if control_entry(notice.key).is_some() {
        control_entry(notice.key)
    } else if left_control_held(snapshot) {
        None
    } else {
        literal_of(count, units)
    }
}

/// Runs the whole dialogue for one notice against observations made
/// beforehand, as a host with a simulated keyboard would.
pub fn classify(
    notice: KeyNotice,
    attached: bool,
    snapshot: &[u8; 256],
    count: i32,
    units: &[u16],
) -> (disposition: Disposition)
    ensures
        disposition@ == classification(notice, snapshot@, count, units@),
{
    let (stage, instruction) = begin(notice.code, notice.message);
    if let Instruction::Finish(disposition) = instruction {
        return disposition;
    }
    let (stage, instruction) = advance(stage, &Observation::Key(notice.key));
    if let Instruction::Finish(disposition) = instruction {
        return disposition;
    }
    let (stage, _) = advance(stage, &Observation::Attached(attached));
    let (stage, _) = advance(stage, &Observation::Snapshot(snapshot));
    let (stage, instruction) = advance(stage, &Observation::Detached);
    if let Instruction::Finish(disposition) = instruction {
        return disposition;
    }
    let (_, instruction) = advance(stage, &Observation::Translated { count, units });
    match instruction {
        Instruction::Finish(disposition) => disposition,
        _ => Disposition::Forward,
    }
}

} // verus!
