//! The input simulator: from the keys and clicks that a client asks for to
//! the sequence of key and mouse actions that brings them about.
//!
//! The simulator plans; whoever drives it performs the actions in order.

use crate::dispatch::texts_of;
use crate::outside::{lowercased, to_lowercase};
use crate::text::{
    chars_of, join2, same_text, split, split_text, starts_with, starts_with_text, trim,
    trim_text,
};
use crate::{ErrorKind, ErrorV, TauriMcpError};
use vstd::prelude::*;

verus! {

/// The pause after each key action, in milliseconds.
pub const KEY_PAUSE_MS: u64 = 10;

/// The pause after the pointer was moved, in milliseconds.
pub const MOVE_PAUSE_MS: u64 = 50;

/// A key of the keyboard.
#[derive(Debug, PartialEq, Eq, Clone, Copy, Structural)]
pub enum Key {
    Unicode(char),
    Return,
    Tab,
    Space,
    Backspace,
    Escape,
    Delete,
    Home,
    End,
    PageUp,
    PageDown,
    LeftArrow,
    RightArrow,
    UpArrow,
    DownArrow,
    F1,
    F2,
    F3,
    F4,
    F5,
    F6,
    F7,
    F8,
    F9,
    F10,
    F11,
    F12,
    Meta,
    Control,
    Alt,
    Shift,
}

/// What is done to a key or a button.
#[derive(Debug, PartialEq, Eq, Clone, Copy, Structural)]
pub enum Direction {
    Press,
    Release,
    Click,
}

/// A button of the mouse.
#[derive(Debug, PartialEq, Eq, Clone, Copy, Structural)]
pub enum MouseButton {
    Left,
    Right,
    Middle,
}

/// One step of simulated input.
#[derive(Debug, PartialEq, Eq, Clone, Copy, Structural)]
pub enum InputAction {
    /// Press, release or click a key.
    Key { key: Key, direction: Direction },
    /// Type one character.
    Text { character: char },
    /// Move the pointer to a place on the screen.
    MoveMouse { x: i32, y: i32 },
    /// Press, release or click a button of the mouse.
    Button { button: MouseButton, direction: Direction },
    /// Turn the wheel.
    Scroll { delta: i32 },
    /// Wait.
    Pause { millis: u64 },
}

/// The error of kind `Input` with the given detail.
pub open spec fn input_error(detail: Seq<char>) -> ErrorV {
    ErrorV { kind: ErrorKind::Input, detail }
}

/// Whether `c` is one of the letters `a` to `z`.
pub open spec fn is_lower_letter(c: char) -> bool {
    'a' <= c && c <= 'z'
}

/// The key that `name` names: a letter stands for itself, and the other
/// keys have one or two names each.
pub open spec fn key_of(name: Seq<char>) -> Result<Key, ErrorV> {
    if name.len() == 1 && is_lower_letter(name[0]) {
        Ok(Key::Unicode(name[0]))
    } else if name == "enter"@ || name == "return"@ {
        Ok(Key::Return)
    } else if name == "tab"@ {
        Ok(Key::Tab)
    } else if name == "space"@ {
        Ok(Key::Space)
    } else if name == "backspace"@ {
        Ok(Key::Backspace)
    } else if name == "escape"@ || name == "esc"@ {
        Ok(Key::Escape)
    } else if name == "delete"@ || name == "del"@ {
        Ok(Key::Delete)
    } else if name == "home"@ {
        Ok(Key::Home)
    } else if name == "end"@ {
        Ok(Key::End)
    } else if name == "pageup"@ {
        Ok(Key::PageUp)
    } else if name == "pagedown"@ {
        Ok(Key::PageDown)
    } else if name == "left"@ {
        Ok(Key::LeftArrow)
    } else if name == "right"@ {
        Ok(Key::RightArrow)
    } else if name == "up"@ {
        Ok(Key::UpArrow)
    } else if name == "down"@ {
        Ok(Key::DownArrow)
    } else if name == "f1"@ {
        Ok(Key::F1)
    } else if name == "f2"@ {
        Ok(Key::F2)
    } else if name == "f3"@ {
        Ok(Key::F3)
    } else if name == "f4"@ {
        Ok(Key::F4)
    } else if name == "f5"@ {
        Ok(Key::F5)
    } else if name == "f6"@ {
        Ok(Key::F6)
    } else if name == "f7"@ {
        Ok(Key::F7)
    } else if name == "f8"@ {
        Ok(Key::F8)
    } else if name == "f9"@ {
        Ok(Key::F9)
    } else if name == "f10"@ {
        Ok(Key::F10)
    } else if name == "f11"@ {
        Ok(Key::F11)
    } else if name == "f12"@ {
        Ok(Key::F12)
    } else {
        Err(input_error("Unknown key: "@ + name))
    }
}

/// The modifier key that `name` names.
pub open spec fn modifier_of(name: Seq<char>) -> Result<Key, ErrorV> {
    if name == "cmd"@ || name == "meta"@ {
        Ok(Key::Meta)
    } else if name == "ctrl"@ || name == "control"@ {
        Ok(Key::Control)
    } else if name == "alt"@ || name == "option"@ {
        Ok(Key::Alt)
    } else if name == "shift"@ {
        Ok(Key::Shift)
    } else {
        Err(input_error("Unknown modifier key: "@ + name))
    }
}

/// The modifier keys that `names` name, in order; the first name that names
/// none is reported.
pub open spec fn modifiers_of(names: Seq<Seq<char>>) -> Result<Seq<Key>, ErrorV>
    decreases names.len(),
{
    if names.len() == 0 {
        Ok(Seq::empty())
    } else {
        match modifiers_of(names.drop_last()) {
            Err(e) => Err(e),
            Ok(keys) => match modifier_of(names.last()) {
                Ok(key) => Ok(keys.push(key)),
                Err(e) => Err(e),
            },
        }
    }
}

/// Each of `keys` pressed, in order, with a pause after each.
pub open spec fn presses(keys: Seq<Key>) -> Seq<InputAction>
    decreases keys.len(),
{
    if keys.len() == 0 {
        Seq::empty()
    } else {
        presses(keys.drop_last()) + seq![
            InputAction::Key { key: keys.last(), direction: Direction::Press },
            InputAction::Pause { millis: KEY_PAUSE_MS },
        ]
    }
}

/// Each of `keys` released, the last first, with a pause after each.
pub open spec fn releases(keys: Seq<Key>) -> Seq<InputAction>
    decreases keys.len(),
{
    if keys.len() == 0 {
        Seq::empty()
    } else {
        seq![
            InputAction::Key { key: keys.last(), direction: Direction::Release },
            InputAction::Pause { millis: KEY_PAUSE_MS },
        ] + releases(keys.drop_last())
    }
}

/// The actions of a key combination: the modifiers go down in order, the
/// main key is clicked, and the modifiers come up in reverse order.
pub open spec fn combination_actions(modifiers: Seq<Key>, main: Key) -> Seq<InputAction> {
    presses(modifiers) + seq![
        InputAction::Key { key: main, direction: Direction::Click },
        InputAction::Pause { millis: KEY_PAUSE_MS },
    ] + releases(modifiers)
}

/// The actions of the key combination whose parts have the names `names`:
/// all but the last name a modifier, the last names the main key.  Without
/// a name there is no combination.
pub open spec fn combination_of_names(names: Seq<Seq<char>>) -> Result<Seq<InputAction>, ErrorV> {
    if names.len() == 0 {
        Err(input_error("Invalid key combination: "@))
    } else {
        match modifiers_of(names.drop_last()) {
            Err(e) => Err(e),
            Ok(modifiers) => match key_of(names.last()) {
                Ok(main) => Ok(combination_actions(modifiers, main)),
                Err(e) => Err(e),
            },
        }
    }
}

/// The name that a part of a key combination stands for: the part without
/// the white space around it, in lower case.
pub open spec fn part_name(part: Seq<char>) -> Seq<char> {
    lowercased(trim_text(part))
}

/// The names of the parts of `combination`, which `+` separates.
pub open spec fn part_names(combination: Seq<char>) -> Seq<Seq<char>> {
    Seq::new(
        split_text(combination, '+').len(),
        |i: int| part_name(split_text(combination, '+')[i]),
    )
}

/// The actions of the key combination `combination`, which needs two parts
/// at least.
pub open spec fn combination_spec(combination: Seq<char>) -> Result<Seq<InputAction>, ErrorV> {
    if split_text(combination, '+').len() < 2 {
        Err(input_error("Invalid key combination: "@ + combination))
    } else {
        combination_of_names(part_names(combination))
    }
}

/// Each character of `text` typed, with a pause after each.
pub open spec fn typing(text: Seq<char>) -> Seq<InputAction>
    decreases text.len(),
{
    if text.len() == 0 {
        Seq::empty()
    } else {
        typing(text.drop_last()) + seq![
            InputAction::Text { character: text.last() },
            InputAction::Pause { millis: KEY_PAUSE_MS },
        ]
    }
}

/// The actions that send `keys`: a key combination where `keys` begins with
/// `cmd+` or `ctrl+`, and else each character typed.
pub open spec fn keyboard_spec(keys: Seq<char>) -> Result<Seq<InputAction>, ErrorV> {
    if starts_with_text(keys, "cmd+"@) || starts_with_text(keys, "ctrl+"@) {
        combination_spec(keys)
    } else {
        Ok(typing(keys))
    }
}

/// The button that the lower-case name `name` names.
pub open spec fn button_of(name: Seq<char>) -> Option<MouseButton> {
    if name == "left"@ {
        Some(MouseButton::Left)
    } else if name == "right"@ {
        Some(MouseButton::Right)
    } else if name == "middle"@ {
        Some(MouseButton::Middle)
    } else {
        None
    }
}

/// The actions of a click at a place: the pointer moves there, waits, and
/// the button is clicked.
pub open spec fn click_actions(x: i32, y: i32, button: MouseButton) -> Seq<InputAction> {
    seq![
        InputAction::MoveMouse { x, y },
        InputAction::Pause { millis: MOVE_PAUSE_MS },
        InputAction::Button { button, direction: Direction::Click },
    ]
}

/// The actions of a click with the button that `button` names, whatever its
/// case.
pub open spec fn click_spec(x: i32, y: i32, button: Seq<char>) -> Result<Seq<InputAction>, ErrorV> {
    match button_of(lowercased(button)) {
        Some(b) => Ok(click_actions(x, y, b)),
        None => Err(input_error("Invalid mouse button: "@ + button)),
    }
}

/// The actions of turning the wheel at a place.
pub open spec fn scroll_actions(x: i32, y: i32, delta: i32) -> Seq<InputAction> {
    seq![
        InputAction::MoveMouse { x, y },
        InputAction::Pause { millis: MOVE_PAUSE_MS },
        InputAction::Scroll { delta },
    ]
}

/// The value of a plan: the actions, or the error.
pub open spec fn plan_view(r: Result<Vec<InputAction>, TauriMcpError>) -> Result<
    Seq<InputAction>,
    ErrorV,
> {
    match r {
        Ok(actions) => Ok(actions@),
        Err(e) => Err(e@),
    }
}

/// The key that `s` names.
pub fn string_to_key(s: &str) -> (r: Result<Key, TauriMcpError>)
    ensures
        match r {
            Ok(key) => key_of(s@) == Ok::<Key, ErrorV>(key),
            Err(e) => key_of(s@) == Err::<Key, ErrorV>(e@),
        },
{
    let cs = chars_of(s);
    if cs.len() == 1 && 'a' <= cs[0] && cs[0] <= 'z' {
        Ok(Key::Unicode(cs[0]))
    } else if same_text(s, "enter") || same_text(s, "return") {
        Ok(Key::Return)
    } else if same_text(s, "tab") {
        Ok(Key::Tab)
    } else if same_text(s, "space") {
        Ok(Key::Space)
    } else if same_text(s, "backspace") {
        Ok(Key::Backspace)
    } else if same_text(s, "escape") || same_text(s, "esc") {
        Ok(Key::Escape)
    } else if same_text(s, "delete") || same_text(s, "del") {
        Ok(Key::Delete)
    } else if same_text(s, "home") {
        Ok(Key::Home)
    } else if same_text(s, "end") {
        Ok(Key::End)
    } else if same_text(s, "pageup") {
        Ok(Key::PageUp)
    } else if same_text(s, "pagedown") {
        Ok(Key::PageDown)
    } else if same_text(s, "left") {
        Ok(Key::LeftArrow)
    } else if same_text(s, "right") {
        Ok(Key::RightArrow)
    } else if same_text(s, "up") {
        Ok(Key::UpArrow)
    } else if same_text(s, "down") {
        Ok(Key::DownArrow)
    } else if same_text(s, "f1") {
        Ok(Key::F1)
    } else if same_text(s, "f2") {
        Ok(Key::F2)
    } else if same_text(s, "f3") {
        Ok(Key::F3)
    } else if same_text(s, "f4") {
        Ok(Key::F4)
    } else if same_text(s, "f5") {
        Ok(Key::F5)
    } else if same_text(s, "f6") {
        Ok(Key::F6)
    } else if same_text(s, "f7") {
        Ok(Key::F7)
    } else if same_text(s, "f8") {
        Ok(Key::F8)
    } else if same_text(s, "f9") {
        Ok(Key::F9)
    } else if same_text(s, "f10") {
        Ok(Key::F10)
    } else if same_text(s, "f11") {
        Ok(Key::F11)
    } else if same_text(s, "f12") {
        Ok(Key::F12)
    } else {
        Err(TauriMcpError::InputError(join2("Unknown key: ", s)))
    }
}

/// The modifier key that `s` names.
pub fn string_to_modifier(s: &str) -> (r: Result<Key, TauriMcpError>)
    ensures
        match r {
            Ok(key) => modifier_of(s@) == Ok::<Key, ErrorV>(key),
            Err(e) => modifier_of(s@) == Err::<Key, ErrorV>(e@),
        },
{
    if same_text(s, "cmd") || same_text(s, "meta") {
        Ok(Key::Meta)
    } else if same_text(s, "ctrl") || same_text(s, "control") {
        Ok(Key::Control)
    } else if same_text(s, "alt") || same_text(s, "option") {
        Ok(Key::Alt)
    } else if same_text(s, "shift") {
        Ok(Key::Shift)
    } else {
        Err(TauriMcpError::InputError(join2("Unknown modifier key: ", s)))
    }
}

/// The actions of the key combination whose parts have the names `names`.
pub fn key_combination(names: &Vec<String>) -> (r: Result<Vec<InputAction>, TauriMcpError>)
    ensures
        plan_view(r) == combination_of_names(texts_of(names@)),
{
    if names.len() == 0 {
        return Err(TauriMcpError::InputError("Invalid key combination: ".to_owned()));
    }
    let ghost all = texts_of(names@);
    let last: usize = names.len() - 1;
    let ghost given = all.drop_last();
    let mut modifiers: Vec<Key> = Vec::new();
    let mut i: usize = 0;
    proof {
        assert(given.take(0) =~= Seq::<Seq<char>>::empty());
    }
    while i < last
        invariant
            i <= last,
            last == names@.len() - 1,
            all == texts_of(names@),
            given == all.drop_last(),
            modifiers_of(given.take(i as int)) == Ok::<Seq<Key>, ErrorV>(modifiers@),
        decreases last - i,
    {
        proof {
            assert(given.take(i + 1).drop_last() =~= given.take(i as int));
            assert(given.take(i + 1).last() == names@[i as int]@);
        }
        match string_to_modifier(names[i].as_str()) {
            Ok(key) => {
                modifiers.push(key);
            },
            Err(e) => {
                proof {
                    lemma_modifier_error_stays(given, i + 1);
                }
                return Err(e);
            },
        }
        i += 1;
    }
    proof {
        assert(given.take(i as int) =~= given);
        assert(all.last() == names@[last as int]@);
    }
    let main = match string_to_key(names[last].as_str()) {
        Ok(key) => key,
        Err(e) => {
            return Err(e);
        },
    };
    let mut actions: Vec<InputAction> = Vec::new();
    let mut k: usize = 0;
    proof {
        assert(modifiers@.take(0) =~= Seq::<Key>::empty());
    }
    while k < modifiers.len()
        invariant
            k <= modifiers.len(),
            actions@ == presses(modifiers@.take(k as int)),
        decreases modifiers.len() - k,
    {
        proof {
            assert(modifiers@.take(k + 1).drop_last() =~= modifiers@.take(k as int));
            assert(modifiers@.take(k + 1).last() == modifiers@[k as int]);
        }
        let ghost before = actions@;
        actions.push(InputAction::Key { key: modifiers[k], direction: Direction::Press });
        actions.push(InputAction::Pause { millis: KEY_PAUSE_MS });
        proof {
            assert(actions@ =~= before + seq![
                InputAction::Key { key: modifiers@[k as int], direction: Direction::Press },
                InputAction::Pause { millis: KEY_PAUSE_MS },
            ]);
        }
        k += 1;
    }
    proof {
        assert(modifiers@.take(k as int) =~= modifiers@);
    }
    let ghost down = actions@;
    actions.push(InputAction::Key { key: main, direction: Direction::Click });
    actions.push(InputAction::Pause { millis: KEY_PAUSE_MS });
    let ghost clicked = actions@;
    proof {
        assert(clicked =~= down + seq![
            InputAction::Key { key: main, direction: Direction::Click },
            InputAction::Pause { millis: KEY_PAUSE_MS },
        ]);
    }
    let mut k: usize = modifiers.len();
    proof {
        lemma_releases_split(modifiers@, k as int);
        assert(modifiers@.take(k as int) =~= modifiers@);
        assert(releases(modifiers@.skip(k as int)) =~= Seq::<InputAction>::empty());
        assert(clicked + releases(modifiers@) =~= actions@ + releases(modifiers@.take(k as int)));
    }
    while k > 0
        invariant
            k <= modifiers.len(),
            clicked + releases(modifiers@) == actions@ + releases(modifiers@.take(k as int)),
        decreases k,
    {
        k -= 1;
        proof {
            assert(modifiers@.take(k + 1).drop_last() =~= modifiers@.take(k as int));
            assert(modifiers@.take(k + 1).last() == modifiers@[k as int]);
        }
        let ghost before = actions@;
        actions.push(InputAction::Key { key: modifiers[k], direction: Direction::Release });
        actions.push(InputAction::Pause { millis: KEY_PAUSE_MS });
        proof {
            let step = seq![
                InputAction::Key { key: modifiers@[k as int], direction: Direction::Release },
                InputAction::Pause { millis: KEY_PAUSE_MS },
            ];
            assert(actions@ =~= before + step);
            assert(before + releases(modifiers@.take(k + 1)) =~= (before + step) + releases(
                modifiers@.take(k as int),
            ));
        }
    }
    proof {
        assert(releases(modifiers@.take(0)) =~= Seq::<InputAction>::empty());
        assert(actions@ =~= clicked + releases(modifiers@));
    }
    Ok(actions)
}

/// Once a name names no modifier, the names that follow change nothing of
/// the error.
proof fn lemma_modifier_error_stays(names: Seq<Seq<char>>, upto: int)
    requires
        0 <= upto <= names.len(),
        modifiers_of(names.take(upto)) is Err,
    ensures
        modifiers_of(names) == modifiers_of(names.take(upto)),
    decreases names.len() - upto,
{
    if upto < names.len() {
        assert(names.take(upto + 1).drop_last() =~= names.take(upto));
        lemma_modifier_error_stays(names, upto + 1);
    } else {
        assert(names.take(upto) =~= names);
    }
}

/// The releases of keys do not depend on how the keys are cut in two.
proof fn lemma_releases_split(keys: Seq<Key>, at: int)
    requires
        0 <= at <= keys.len(),
    ensures
        releases(keys) == releases(keys.skip(at)) + releases(keys.take(at)),
    decreases keys.len() - at,
{
    if at == keys.len() {
        assert(keys.skip(at) =~= Seq::<Key>::empty());
        assert(keys.take(at) =~= keys);
        assert(releases(keys.skip(at)) + releases(keys) =~= releases(keys));
    } else {
        lemma_releases_split(keys.drop_last(), at);
        let rest = keys.drop_last();
        assert(rest.take(at) =~= keys.take(at));
        assert(keys.skip(at).drop_last() =~= rest.skip(at));
        assert(keys.skip(at).last() == keys.last());
        let step = seq![
            InputAction::Key { key: keys.last(), direction: Direction::Release },
            InputAction::Pause { millis: KEY_PAUSE_MS },
        ];
        assert(releases(keys) == step + releases(rest));
        assert(releases(keys.skip(at)) == step + releases(rest.skip(at)));
        assert(step + (releases(rest.skip(at)) + releases(rest.take(at))) =~= (step + releases(
            rest.skip(at),
        )) + releases(keys.take(at)));
    }
}

/// Adds the typing of `character` to `actions`.
fn type_one(actions: &mut Vec<InputAction>, character: char)
    ensures
        final(actions)@ == old(actions)@ + seq![
            InputAction::Text { character },
            InputAction::Pause { millis: KEY_PAUSE_MS },
        ],
{
    let ghost before = actions@;
    actions.push(InputAction::Text { character });
    actions.push(InputAction::Pause { millis: KEY_PAUSE_MS });
    proof {
        assert(actions@ =~= before + seq![
            InputAction::Text { character },
            InputAction::Pause { millis: KEY_PAUSE_MS },
        ]);
    }
}

/// Each character of `text` typed, with a pause after each.
fn type_each(text: &Vec<char>) -> (actions: Vec<InputAction>)
    ensures
        actions@ == typing(text@),
{
    let mut actions: Vec<InputAction> = Vec::new();
    let mut i: usize = 0;
    proof {
        assert(text@.take(0) =~= Seq::<char>::empty());
    }
    while i < text.len()
        invariant
            i <= text.len(),
            actions@ == typing(text@.take(i as int)),
        decreases text.len() - i,
    {
        proof {
            assert(text@.take(i + 1).drop_last() =~= text@.take(i as int));
            assert(text@.take(i + 1).last() == text@[i as int]);
        }
        type_one(&mut actions, text[i]);
        i += 1;
    }
    proof {
        assert(text@.take(i as int) =~= text@);
    }
    actions
}

/// The simulator of keyboard and mouse input.
pub struct InputSimulator {}

impl InputSimulator {
    /// The simulator.
    pub fn new() -> (s: InputSimulator) {
        InputSimulator {  }
    }

    /// The actions of the key combination `combination`.
    pub fn send_key_combination(&self, combination: &str) -> (r: Result<
        Vec<InputAction>,
        TauriMcpError,
    >)
        ensures
            plan_view(r) == combination_spec(combination@),
    {
        let parts = split(combination, '+');
        if parts.len() < 2 {
            return Err(
                TauriMcpError::InputError(join2("Invalid key combination: ", combination)),
            );
        }
        let mut names: Vec<String> = Vec::new();
        let mut i: usize = 0;
        while i < parts.len()
            invariant
                i <= parts.len(),
                names@.len() == i,
                parts@.len() == split_text(combination@, '+').len(),
                forall|j: int|
                    0 <= j < parts@.len() ==> parts@[j]@ == #[trigger] split_text(
                        combination@,
                        '+',
                    )[j],
                forall|j: int|
                    0 <= j < i ==> names@[j]@ == part_name(split_text(combination@, '+')[j]),
            decreases parts.len() - i,
        {
            let name = to_lowercase(trim(parts[i].as_str()));
            names.push(name);
            i += 1;
        }
        proof {
            assert(texts_of(names@) =~= part_names(combination@));
        }
        key_combination(&names)
    }

    /// The actions that send `keys` to the application: a key combination
    /// where `keys` begins with `cmd+` or `ctrl+`, and else each character
    /// typed.
    pub fn send_keyboard_input(&self, process_id: &str, keys: &str) -> (r: Result<
        Vec<InputAction>,
        TauriMcpError,
    >)
        ensures
            plan_view(r) == keyboard_spec(keys@),
    {
        if starts_with(keys, "cmd+") || starts_with(keys, "ctrl+") {
            return self.send_key_combination(keys);
        }
        let cs = chars_of(keys);
        Ok(type_each(&cs))
    }

    /// The button that `button` names, whatever its case.
    pub fn mouse_button(&self, button: &str) -> (r: Option<MouseButton>)
        ensures
            r == button_of(lowercased(button@)),
    {
        let name = to_lowercase(button);
        if same_text(name.as_str(), "left") {
            Some(MouseButton::Left)
        } else if same_text(name.as_str(), "right") {
            Some(MouseButton::Right)
        } else if same_text(name.as_str(), "middle") {
            Some(MouseButton::Middle)
        } else {
            None
        }
    }

    /// The actions of a click at `(x, y)` with the button that `button`
    /// names.
    pub fn send_mouse_click(&self, process_id: &str, x: i32, y: i32, button: &str) -> (r: Result<
        Vec<InputAction>,
        TauriMcpError,
    >)
        ensures
            plan_view(r) == click_spec(x, y, button@),
    {
        match self.mouse_button(button) {
            None => Err(TauriMcpError::InputError(join2("Invalid mouse button: ", button))),
            Some(b) => {
                let mut actions: Vec<InputAction> = Vec::new();
                actions.push(InputAction::MoveMouse { x, y });
                actions.push(InputAction::Pause { millis: MOVE_PAUSE_MS });
                actions.push(InputAction::Button { button: b, direction: Direction::Click });
                proof {
                    assert(actions@ =~= click_actions(x, y, b));
                }
                Ok(actions)
            },
        }
    }

    /// The actions of moving the pointer to `(x, y)`.
    pub fn send_mouse_move(&self, process_id: &str, x: i32, y: i32) -> (r: Result<
        Vec<InputAction>,
        TauriMcpError,
    >)
        ensures
            r is Ok,
            r->Ok_0@ == seq![InputAction::MoveMouse { x, y }],
    {
        let mut actions: Vec<InputAction> = Vec::new();
        actions.push(InputAction::MoveMouse { x, y });
        proof {
            assert(actions@ =~= seq![InputAction::MoveMouse { x, y }]);
        }
        Ok(actions)
    }

    /// The actions of turning the wheel by `delta` at `(x, y)`.
    pub fn send_mouse_scroll(&self, process_id: &str, x: i32, y: i32, delta: i32) -> (r: Result<
        Vec<InputAction>,
        TauriMcpError,
    >)
        ensures
            r is Ok,
            r->Ok_0@ == scroll_actions(x, y, delta),
    {
        let mut actions: Vec<InputAction> = Vec::new();
        actions.push(InputAction::MoveMouse { x, y });
        actions.push(InputAction::Pause { millis: MOVE_PAUSE_MS });
        actions.push(InputAction::Scroll { delta });
        proof {
            assert(actions@ =~= scroll_actions(x, y, delta));
        }
        Ok(actions)
    }
}

/// In a key combination every key that goes down comes up again: the
/// actions hold two for each modifier going down, two for the main key, and
/// two for each modifier coming up.
pub proof fn lemma_combination_is_balanced(modifiers: Seq<Key>, main: Key)
    ensures
        presses(modifiers).len() == 2 * modifiers.len(),
        releases(modifiers).len() == 2 * modifiers.len(),
        combination_actions(modifiers, main).len() == 4 * modifiers.len() + 2,
        combination_actions(modifiers, main)[2 * modifiers.len() as int] == (InputAction::Key {
            key: main,
            direction: Direction::Click,
        }),
    decreases modifiers.len(),
{
    if modifiers.len() > 0 {
        lemma_combination_is_balanced(modifiers.drop_last(), main);
    }
}

} // verus!
