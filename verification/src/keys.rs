//! Key presses and the messages they stand for.
use vstd::prelude::*;

verus! {

/// The bit that the terminal backend sets in a key's modifier set for the
/// Control key.
pub const CONTROL: u8 = 0b0000_0010;

/// The keys the prompt reacts to; every other key is `Other`.
#[derive(Clone, Copy, Debug, PartialEq, Eq, Structural)]
pub enum KeyCode {
    Char(char),
    Backspace,
    Enter,
    Left,
    Right,
    Up,
    Down,
    Other,
}

/// Whether a key went down, repeats, or went up.
#[derive(Clone, Copy, Debug, PartialEq, Eq, Structural)]
pub enum KeyEventKind {
    Press,
    Repeat,
    Release,
}

/// A key event: the key, the set of held modifiers as bits, and its kind.
#[derive(Clone, Copy, Debug, PartialEq, Eq, Structural)]
pub struct KeyInput {
    pub code: KeyCode,
    pub modifiers: u8,
    pub kind: KeyEventKind,
}

/// What the user asks the application to do.
#[derive(Clone, Copy, Debug, PartialEq, Eq, Structural)]
pub enum Message {
    Quit,
    Input(char),
    RemoveChar,
    PrevChar,
    NextChar,
    Enter,
    ListPrev,
    ListNext,
}

/// The message a key stands for: `q` and Control-`c` quit, Backspace
/// deletes, the arrows move in the list (Up is `ListNext`, Down is
/// `ListPrev`) and in the text, Enter confirms, and any other char that
/// is pressed is typed. Anything else means nothing.
pub open spec fn key_message(key: KeyInput) -> Option<Message> {
    match key.code {
        KeyCode::Char(c) => {
            if c == 'q' {
                Some(Message::Quit)
            } else if (c == 'c' || c == 'C') && key.modifiers == CONTROL {
                Some(Message::Quit)
            } else if key.kind == KeyEventKind::Press {
                Some(Message::Input(c))
            } else {
                None
            }
        },
        KeyCode::Backspace => Some(Message::RemoveChar),
        KeyCode::Up => Some(Message::ListNext),
        KeyCode::Down => Some(Message::ListPrev),
        KeyCode::Left => Some(Message::PrevChar),
        KeyCode::Right => Some(Message::NextChar),
        KeyCode::Enter => Some(Message::Enter),
        KeyCode::Other => None,
    }
}

/// A pressed char key types that char, whatever modifiers are held, unless
/// it is `q` or Control-`c`: Shift with a capital letter types the capital.
pub proof fn law_pressed_char_is_typed(key: KeyInput, c: char)
    requires
        key.code == KeyCode::Char(c),
        c != 'q',
        !((c == 'c' || c == 'C') && key.modifiers == CONTROL),
        key.kind == KeyEventKind::Press,
    ensures
        key_message(key) == Some(Message::Input(c)),
{
}

/// A char key that repeats or is released types nothing, unless it is `q`
/// or Control-`c`, which quit.
pub proof fn law_unpressed_char_types_nothing(key: KeyInput, c: char)
    requires
        key.code == KeyCode::Char(c),
        key.kind != KeyEventKind::Press,
    ensures
        c == 'q' ==> key_message(key) == Some(Message::Quit),
        c != 'q' && !((c == 'c' || c == 'C') && key.modifiers == CONTROL) ==> key_message(key)
            is None,
{
}

/// `q` quits however it arrives, and so does `c` or `C` with exactly the
/// Control modifier held; the other keys mean the same whatever modifiers
/// are held and however they arrive.
pub proof fn law_key_bindings(key: KeyInput)
    ensures
        key.code == KeyCode::Char('q') ==> key_message(key) == Some(Message::Quit),
        (key.code == KeyCode::Char('c') || key.code == KeyCode::Char('C')) && key.modifiers
            == CONTROL ==> key_message(key) == Some(Message::Quit),
        key.code == KeyCode::Backspace ==> key_message(key) == Some(Message::RemoveChar),
        key.code == KeyCode::Up ==> key_message(key) == Some(Message::ListNext),
        key.code == KeyCode::Down ==> key_message(key) == Some(Message::ListPrev),
        key.code == KeyCode::Left ==> key_message(key) == Some(Message::PrevChar),
        key.code == KeyCode::Right ==> key_message(key) == Some(Message::NextChar),
        key.code == KeyCode::Enter ==> key_message(key) == Some(Message::Enter),
        key.code == KeyCode::Other ==> key_message(key) is None,
{
}

/// Maps a key event to the message it stands for.
pub fn handle_key(key_event: KeyInput) -> (msg: Option<Message>)
    ensures
        msg == key_message(key_event),
{
    match key_event.code {
        KeyCode::Char(c) => {
            if c == 'q' {
                Some(Message::Quit)
            } else if (c == 'c' || c == 'C') && key_event.modifiers == CONTROL {
                Some(Message::Quit)
            } else {
                match key_event.kind {
                    KeyEventKind::Press => Some(Message::Input(c)),
                    _ => None,
                }
            }
        },
        KeyCode::Backspace => Some(Message::RemoveChar),
        KeyCode::Up => Some(Message::ListNext),
        KeyCode::Down => Some(Message::ListPrev),
        KeyCode::Left => Some(Message::PrevChar),
        KeyCode::Right => Some(Message::NextChar),
        KeyCode::Enter => Some(Message::Enter),
        KeyCode::Other => None,
    }
}

} // verus!
