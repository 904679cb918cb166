//! The decisions of the OS integration service.
//!
//! One native thread owns the system's hotkey and clipboard notifications.
//! It takes commands from other threads (register a hotkey, set the
//! clipboard, add a clipboard listener) and messages from the system (a
//! hotkey fired, the clipboard changed). `ServiceState` decides, for each of
//! them, what the thread does; the thread performs it.
use vstd::prelude::*;
use crate::actions::Effect;
use crate::text::str_eq;

verus! {

/// Modifier keys that can be combined with a hotkey.
#[derive(PartialEq, Eq, Structural, Clone, Copy, Debug)]
pub enum Modifier {
    NoModifier,
    Alt,
    Ctrl,
    Shift,
    Win,
}

impl Modifier {
    /// The modifier's flag in the system's hotkey call.
    pub open spec fn code(self) -> u32 {
        match self {
            Modifier::NoModifier => 0,
            Modifier::Alt => 1,
            Modifier::Ctrl => 2,
            Modifier::Shift => 4,
            Modifier::Win => 8,
        }
    }

    pub fn v(self) -> (r: u32)
        ensures
            r == self.code(),
    {
        match self {
            Modifier::NoModifier => 0,
            Modifier::Alt => 1,
            Modifier::Ctrl => 2,
            Modifier::Shift => 4,
            Modifier::Win => 8,
        }
    }
}

/// Keys that a hotkey can be bound to.
#[derive(PartialEq, Eq, Structural, Clone, Copy, Debug)]
pub enum Key {
    Return,
    Control,
    Alt,
    Shift,
    F1,
    A,
    B,
    C,
    D,
    E,
    F,
    G,
    H,
    I,
    J,
    K,
    L,
    M,
    N,
    O,
    P,
    Q,
    R,
    S,
    T,
    U,
    V,
    W,
    X,
    Y,
    Z,
}

impl Key {
    /// The key's virtual-key code: the system's codes for the named keys,
    /// the upper-case ASCII code for a letter.
    pub open spec fn code(self) -> u32 {
        match self {
            Key::Return => 0x0d,
            Key::Control => 0x11,
            Key::Alt => 0x12,
            Key::Shift => 0x10,
            Key::F1 => 0x70,
            Key::A => 65,
            Key::B => 66,
            Key::C => 67,
            Key::D => 68,
            Key::E => 69,
            Key::F => 70,
            Key::G => 71,
            Key::H => 72,
            Key::I => 73,
            Key::J => 74,
            Key::K => 75,
            Key::L => 76,
            Key::M => 77,
            Key::N => 78,
            Key::O => 79,
            Key::P => 80,
            Key::Q => 81,
            Key::R => 82,
            Key::S => 83,
            Key::T => 84,
            Key::U => 85,
            Key::V => 86,
            Key::W => 87,
            Key::X => 88,
            Key::Y => 89,
            Key::Z => 90,
        }
    }

    pub fn v(self) -> (r: u32)
        ensures
            r == self.code(),
    {
        match self {
            Key::Return => 0x0d,
            Key::Control => 0x11,
            Key::Alt => 0x12,
            Key::Shift => 0x10,
            Key::F1 => 0x70,
            Key::A => 65,
            Key::B => 66,
            Key::C => 67,
            Key::D => 68,
            Key::E => 69,
            Key::F => 70,
            Key::G => 71,
            Key::H => 72,
            Key::I => 73,
            Key::J => 74,
            Key::K => 75,
            Key::L => 76,
            Key::M => 77,
            Key::N => 78,
            Key::O => 79,
            Key::P => 80,
            Key::Q => 81,
            Key::R => 82,
            Key::S => 83,
            Key::T => 84,
            Key::U => 85,
            Key::V => 86,
            Key::W => 87,
            Key::X => 88,
            Key::Y => 89,
            Key::Z => 90,
        }
    }
}

/// The system's message number for a fired hotkey.
pub const WM_HOTKEY: u32 = 0x0312;

/// The system's message number for a clipboard change.
pub const WM_CLIPBOARDUPDATE: u32 = 0x031d;

/// The message that only wakes the service thread to look at its commands.
pub const WAKE_MESSAGE: u32 = 30000;

/// A system message as the service sees it.
#[derive(PartialEq, Eq, Structural, Clone, Copy, Debug)]
pub enum ReceivedMessage {
    Hotkey { id: i32 },
    ClipboardUpdate,
    Nothing,
}

/// Reads a system message: its number, and the parameter that carries a
/// hotkey's id.
pub fn classify_message(message: u32, wparam: u64) -> (r: ReceivedMessage)
    ensures
        message == WM_HOTKEY ==> r == (ReceivedMessage::Hotkey { id: wparam as i32 }),
        message == WM_CLIPBOARDUPDATE ==> r == ReceivedMessage::ClipboardUpdate,
        message != WM_HOTKEY && message != WM_CLIPBOARDUPDATE ==> r == ReceivedMessage::Nothing,
{
    if message == WM_HOTKEY {
        ReceivedMessage::Hotkey { id: wparam as i32 }
    } else if message == WM_CLIPBOARDUPDATE {
        ReceivedMessage::ClipboardUpdate
    } else {
        ReceivedMessage::Nothing
    }
}

/// A request to the service thread from another thread.
#[derive(Debug)]
pub enum ServiceCommand {
    HotkeyRegister { id: i32, modifiers: u32, vk: u32 },
    SetClipboard { text: String },
    /// A new clipboard listener; `current` is what the clipboard held when
    /// the command was taken, if it held text.
    AddClipboardListener { current: Option<String> },
}

/// The command that registers hotkey `id` for `key` with `modifiers`.
pub fn hotkey_command(id: i32, key: Key, modifiers: Modifier) -> (r: ServiceCommand)
    ensures
        r matches ServiceCommand::HotkeyRegister { id: i, modifiers: m, vk: k } && i == id && m
            == modifiers.code() && k == key.code(),
{
    ServiceCommand::HotkeyRegister { id, modifiers: modifiers.v(), vk: key.v() }
}

/// The service command that an entry's effect asks for: a clipboard write
/// for a copy, nothing for any other effect.
pub fn clipboard_request(effect: Effect) -> (r: Option<ServiceCommand>)
    ensures
        match effect {
            Effect::SetClipboard(t) => r matches Some(c) && command_view(c)
                == CommandView::SetClipboard(t@),
            _ => r is None,
        },
{
    match effect {
        Effect::SetClipboard(text) => Some(ServiceCommand::SetClipboard { text }),
        _ => None,
    }
}

/// What the service thread does next.
#[derive(PartialEq, Eq, Debug)]
pub enum ServiceAction {
    /// Call the handler registered for this hotkey id.
    InvokeHotkey(i32),
    /// Register the hotkey with the system.
    RegisterOsHotkey { id: i32, modifiers: u32, vk: u32 },
    /// Ask the system for clipboard notifications.
    ArmClipboardWatch,
    /// Write this text to the system clipboard.
    WriteClipboard(String),
    /// Call every clipboard listener with this text.
    NotifyListeners(String),
    Nothing,
}

/// A service action with its texts as character sequences.
pub enum ActionView {
    InvokeHotkey(i32),
    RegisterOsHotkey { id: i32, modifiers: u32, vk: u32 },
    ArmClipboardWatch,
    WriteClipboard(Seq<char>),
    NotifyListeners(Seq<char>),
    Nothing,
}

pub open spec fn action_view(a: ServiceAction) -> ActionView {
    match a {
        ServiceAction::InvokeHotkey(id) => ActionView::InvokeHotkey(id),
        ServiceAction::RegisterOsHotkey { id, modifiers, vk } => ActionView::RegisterOsHotkey {
            id,
            modifiers,
            vk,
        },
        ServiceAction::ArmClipboardWatch => ActionView::ArmClipboardWatch,
        ServiceAction::WriteClipboard(t) => ActionView::WriteClipboard(t@),
        ServiceAction::NotifyListeners(t) => ActionView::NotifyListeners(t@),
        ServiceAction::Nothing => ActionView::Nothing,
    }
}

/// A service command with its texts as character sequences.
pub enum CommandView {
    HotkeyRegister { id: i32, modifiers: u32, vk: u32 },
    SetClipboard(Seq<char>),
    AddClipboardListener(Option<Seq<char>>),
}

pub open spec fn command_view(c: ServiceCommand) -> CommandView {
    match c {
        ServiceCommand::HotkeyRegister { id, modifiers, vk } => CommandView::HotkeyRegister {
            id,
            modifiers,
            vk,
        },
        ServiceCommand::SetClipboard { text } => CommandView::SetClipboard(text@),
        ServiceCommand::AddClipboardListener { current } => CommandView::AddClipboardListener(
            match current {
                Some(c) => Some(c@),
                None => None,
            },
        ),
    }
}

/// The service's state: registered hotkey ids, the number of clipboard
/// listeners, and the clipboard text whose change notice is not passed on.
pub struct ServiceView {
    pub hotkeys: Set<i32>,
    pub listeners: nat,
    pub baseline: Seq<char>,
}

/// The state and action that follow command `c` in state `s`.
pub open spec fn command_step(s: ServiceView, c: CommandView) -> (ServiceView, ActionView) {
    match c {
        CommandView::HotkeyRegister { id, modifiers, vk } => (
            ServiceView { hotkeys: s.hotkeys.insert(id), ..s },
            ActionView::RegisterOsHotkey { id, modifiers, vk },
        ),
        CommandView::SetClipboard(t) => (
            ServiceView { baseline: t, ..s },
            ActionView::WriteClipboard(t),
        ),
        CommandView::AddClipboardListener(current) => if s.listeners == 0 {
            (
                ServiceView {
                    listeners: 1,
                    baseline: match current {
                        Some(c) => c,
                        None => Seq::empty(),
                    },
                    ..s
                },
                ActionView::ArmClipboardWatch,
            )
        } else {
            (ServiceView { listeners: s.listeners + 1, ..s }, ActionView::Nothing)
        },
    }
}

/// The state and action that follow system message `m` in state `s`, where
/// the clipboard holds `clipboard`.
pub open spec fn message_step(s: ServiceView, m: ReceivedMessage, clipboard: Option<Seq<char>>) -> (
    ServiceView,
    ActionView,
) {
    match m {
        ReceivedMessage::Hotkey { id } => (
            s,
            if s.hotkeys.contains(id) {
                ActionView::InvokeHotkey(id)
            } else {
                ActionView::Nothing
            },
        ),
        ReceivedMessage::ClipboardUpdate => (
            ServiceView { baseline: Seq::empty(), ..s },
            match clipboard {
                Some(t) => if t != s.baseline {
                    ActionView::NotifyListeners(t)
                } else {
                    ActionView::Nothing
                },
                None => ActionView::Nothing,
            },
        ),
        ReceivedMessage::Nothing => (s, ActionView::Nothing),
    }
}

pub open spec fn opt_view(o: Option<&str>) -> Option<Seq<char>> {
    match o {
        Some(t) => Some(t@),
        None => None,
    }
}

/// What the service thread keeps: the hotkey ids it has handlers for, how
/// many clipboard listeners there are, and the clipboard text that it set
/// itself (or found when the first listener came), whose change notice is
/// not passed on.
#[derive(Debug)]
pub struct ServiceState {
    pub hotkeys: Vec<i32>,
    pub listeners: usize,
    pub last_set_clipboard: String,
}

impl View for ServiceState {
    type V = ServiceView;

    open spec fn view(&self) -> ServiceView {
        ServiceView {
            hotkeys: self.hotkeys@.to_set(),
            listeners: self.listeners as nat,
            baseline: self.last_set_clipboard@,
        }
    }
}

impl ServiceState {
    pub fn new() -> (r: Self)
        ensures
            r@.hotkeys.is_empty(),
            r@.listeners == 0,
            r@.baseline.len() == 0,
    {
        let r = ServiceState { hotkeys: Vec::new(), listeners: 0, last_set_clipboard: String::new() };
        assert(r@.hotkeys =~= Set::empty());
        r
    }

    fn has_hotkey(&self, id: i32) -> (r: bool)
        ensures
            r == self.hotkeys@.contains(id),
    {
        let mut i: usize = 0;
        while i < self.hotkeys.len()
            invariant
                i <= self.hotkeys@.len(),
                forall|k: int| 0 <= k < i ==> self.hotkeys@[k] != id,
            decreases self.hotkeys@.len() - i,
        {
            if self.hotkeys[i] == id {
                return true;
            }
            i = i + 1;
        }
        false
    }

    /// Takes a command from another thread. The caller must not add a
    /// listener beyond the largest count a `usize` holds.
    pub fn on_command(&mut self, command: ServiceCommand) -> (r: ServiceAction)
        requires
            old(self).listeners < usize::MAX,
        ensures
            (final(self)@, action_view(r)) == command_step(old(self)@, command_view(command)),
    {
        let ghost cv = command_view(command);
        match command {
            ServiceCommand::HotkeyRegister { id, modifiers, vk } => {
                if !self.has_hotkey(id) {
                    self.hotkeys.push(id);
                    proof {
                        let before = old(self).hotkeys@;
                        assert forall|x: i32| #[trigger] self.hotkeys@.contains(x) <==> (
                        before.contains(x) || x == id) by {
                            if self.hotkeys@.contains(x) {
                                let i = choose|i: int|
                                    0 <= i < self.hotkeys@.len() && self.hotkeys@[i] == x;
                                if i < before.len() {
                                    assert(before[i] == x);
                                }
                            }
                            if before.contains(x) {
                                let i = choose|i: int| 0 <= i < before.len() && before[i] == x;
                                assert(self.hotkeys@[i] == x);
                            }
                            if x == id {
                                assert(self.hotkeys@[before.len() as int] == x);
                            }
                        }
                    }
                }
                proof {
                    assert(self.hotkeys@.to_set() =~= old(self).hotkeys@.to_set().insert(id));
                }
                ServiceAction::RegisterOsHotkey { id, modifiers, vk }
            },
            ServiceCommand::SetClipboard { text } => {
                self.last_set_clipboard = text.clone();
                ServiceAction::WriteClipboard(text)
            },
            ServiceCommand::AddClipboardListener { current } => {
                let first = self.listeners == 0;
                self.listeners = self.listeners + 1;
                if first {
                    self.last_set_clipboard = match current {
                        Some(c) => c,
                        None => String::new(),
                    };
                    ServiceAction::ArmClipboardWatch
                } else {
                    ServiceAction::Nothing
                }
            },
        }
    }

    /// Takes a message from the system; for a clipboard change, `clipboard`
    /// is the text the clipboard now holds, if any.
    pub fn on_message(&mut self, message: ReceivedMessage, clipboard: Option<&str>) -> (r:
        ServiceAction)
        ensures
            (final(self)@, action_view(r)) == message_step(old(self)@, message, opt_view(clipboard)),
    {
        match message {
            ReceivedMessage::Hotkey { id } => {
                if self.has_hotkey(id) {
                    ServiceAction::InvokeHotkey(id)
                } else {
                    ServiceAction::Nothing
                }
            },
            ReceivedMessage::ClipboardUpdate => {
                let r = match clipboard {
                    Some(t) => {
                        if str_eq(t, self.last_set_clipboard.as_str()) {
                            ServiceAction::Nothing
                        } else {
                            ServiceAction::NotifyListeners(String::from_str(t))
                        }
                    },
                    None => ServiceAction::Nothing,
                };
                self.last_set_clipboard = String::new();
                r
            },
            ReceivedMessage::Nothing => ServiceAction::Nothing,
        }
    }
}

/// Setting the clipboard writes exactly the chosen text, and the change
/// notice that this write causes reaches no listener.
pub proof fn lemma_own_write_not_echoed(s: ServiceView, text: Seq<char>)
    ensures
        command_step(s, CommandView::SetClipboard(text)).1 == ActionView::WriteClipboard(text),
        message_step(
            command_step(s, CommandView::SetClipboard(text)).0,
            ReceivedMessage::ClipboardUpdate,
            Some(text),
        ).1 == ActionView::Nothing,
{
}

/// A change notice passes on the text of any change that the service did
/// not make itself.
pub proof fn lemma_foreign_change_notified(s: ServiceView, text: Seq<char>)
    requires
        text != s.baseline,
    ensures
        message_step(s, ReceivedMessage::ClipboardUpdate, Some(text)).1
            == ActionView::NotifyListeners(text),
{
}

/// The state and the actions that follow commands `cmds`, in order, from `s`.
pub open spec fn run_commands(s: ServiceView, cmds: Seq<CommandView>) -> (
    ServiceView,
    Seq<ActionView>,
)
    decreases cmds.len(),
{
    if cmds.len() == 0 {
        (s, Seq::empty())
    } else {
        let before = run_commands(s, cmds.drop_last());
        let step = command_step(before.0, cmds.last());
        (step.0, before.1.push(step.1))
    }
}

/// The text of the last clipboard write among `actions`, if any.
pub open spec fn last_write(actions: Seq<ActionView>) -> Option<Seq<char>>
    decreases actions.len(),
{
    if actions.len() == 0 {
        None
    } else {
        match actions.last() {
            ActionView::WriteClipboard(t) => Some(t),
            _ => last_write(actions.drop_last()),
        }
    }
}

/// The text of the last request to set the clipboard among `cmds`, if any.
pub open spec fn last_set(cmds: Seq<CommandView>) -> Option<Seq<char>>
    decreases cmds.len(),
{
    if cmds.len() == 0 {
        None
    } else {
        match cmds.last() {
            CommandView::SetClipboard(t) => Some(t),
            _ => last_set(cmds.drop_last()),
        }
    }
}

/// Whatever the commands, the clipboard is last written with the text of
/// the most recent request to set it, and never where none was made.
pub proof fn lemma_last_write_is_last_set(s: ServiceView, cmds: Seq<CommandView>)
    ensures
        last_write(run_commands(s, cmds).1) == last_set(cmds),
    decreases cmds.len(),
{
    if cmds.len() > 0 {
        lemma_last_write_is_last_set(s, cmds.drop_last());
        let before = run_commands(s, cmds.drop_last());
        let acts = run_commands(s, cmds).1;
        assert(acts.drop_last() =~= before.1);
    }
}

} // verus!
