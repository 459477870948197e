//! Keyboard, mouse, gamepad and touch: what the layer decides from the
//! plain values that the native library reports.

use vstd::prelude::*;
use crate::native::NativeCall;
use crate::sys::{GamepadButton, KeyboardKey};

verus! {

/// Which of the modifier keys are down. The fields stand, in their
/// order, for the left and right shift, control, alt and super keys.
#[derive(Debug, Clone, Copy, PartialEq, Eq, Structural)]
pub struct Modifiers {
    pub shift: bool,
    pub right_shift: bool,
    pub ctrl: bool,
    pub right_ctrl: bool,
    pub alt: bool,
    pub right_alt: bool,
    pub super_key: bool,
    pub right_super_key: bool,
}

/// A key together with the modifier keys that have to be down with it.
#[derive(Debug, Clone, Copy)]
pub struct CompoundKey {
    pub key: KeyboardKey,
    pub shift: bool,
    pub right_shift: bool,
    pub ctrl: bool,
    pub right_ctrl: bool,
    pub alt: bool,
    pub right_alt: bool,
    pub super_key: bool,
    pub right_super_key: bool,
}

impl CompoundKey {
    /// The key alone: no modifier is asked for.
    pub fn new(key: KeyboardKey) -> (r: Self)
        ensures
            r.key == key,
            r.wanted() == (Modifiers {
                shift: false,
                right_shift: false,
                ctrl: false,
                right_ctrl: false,
                alt: false,
                right_alt: false,
                super_key: false,
                right_super_key: false,
            }),
    {
        CompoundKey {
            key,
            shift: false,
            right_shift: false,
            ctrl: false,
            right_ctrl: false,
            alt: false,
            right_alt: false,
            super_key: false,
            right_super_key: false,
        }
    }

    /// The modifiers that the compound key asks for.
    pub open spec fn wanted(&self) -> Modifiers {
        Modifiers {
            shift: self.shift,
            right_shift: self.right_shift,
            ctrl: self.ctrl,
            right_ctrl: self.right_ctrl,
            alt: self.alt,
            right_alt: self.right_alt,
            super_key: self.super_key,
            right_super_key: self.right_super_key,
        }
    }

    /// The compound key is pressed when its key has just been pressed
    /// and every modifier that it asks for is down. Modifiers that it
    /// does not ask for may be down or not.
    pub open spec fn spec_is_pressed(&self, key_pressed: bool, down: Modifiers) -> bool {
        &&& key_pressed
        &&& self.shift ==> down.shift
        &&& self.right_shift ==> down.right_shift
        &&& self.ctrl ==> down.ctrl
        &&& self.right_ctrl ==> down.right_ctrl
        &&& self.alt ==> down.alt
        &&& self.right_alt ==> down.right_alt
        &&& self.super_key ==> down.super_key
        &&& self.right_super_key ==> down.right_super_key
    }

    /// Whether the compound key is pressed, given whether its key has
    /// just been pressed and which modifier keys are down.
    pub fn is_pressed(&self, key_pressed: bool, down: &Modifiers) -> (r: bool)
        ensures
            r == self.spec_is_pressed(key_pressed, *down),
    {
        if !key_pressed {
            return false;
        }
        if self.shift && !down.shift {
            return false;
        }
        if self.right_shift && !down.right_shift {
            return false;
        }
        if self.ctrl && !down.ctrl {
            return false;
        }
        if self.right_ctrl && !down.right_ctrl {
            return false;
        }
        if self.alt && !down.alt {
            return false;
        }
        if self.right_alt && !down.right_alt {
            return false;
        }
        if self.super_key && !down.super_key {
            return false;
        }
        if self.right_super_key && !down.right_super_key {
            return false;
        }
        true
    }
}

/// Where the queue of pressed keys ends in what was polled: at the
/// first zero, or at the end where there is none.
pub open spec fn is_queue_end(codes: Seq<i32>, n: int) -> bool {
    &&& 0 <= n <= codes.len()
    &&& forall|k: int| 0 <= k < n ==> codes[k] != 0
    &&& n < codes.len() ==> codes[n] == 0
}

/// The key that a polled code stands for, if it stands for one.
pub open spec fn key_of(code: i32) -> Option<KeyboardKey> {
    if code < 0 {
        None
    } else {
        KeyboardKey::spec_from_value(code as u32)
    }
}

/// The keys that the codes stand for, in their order; a code that
/// stands for no key is left out.
pub open spec fn keys_of(codes: Seq<i32>) -> Seq<KeyboardKey>
    decreases codes.len(),
{
    if codes.len() == 0 {
        Seq::empty()
    } else {
        let rest = keys_of(codes.drop_last());
        match key_of(codes.last()) {
            Some(key) => rest.push(key),
            None => rest,
        }
    }
}

/// Whether `code` is a Unicode scalar value.
pub open spec fn is_scalar(code: u32) -> bool {
    code <= 0xD7FF || (0xE000 <= code && code <= 0x10FFFF)
}

/// Whether `c` is the character that a polled code stands for: the one
/// with that code, or a question mark for a code that is no Unicode
/// scalar value.
pub open spec fn is_char_of(code: i32, c: char) -> bool {
    if code >= 0 && is_scalar(code as u32) {
        c as u32 == code as u32
    } else {
        c == '?'
    }
}

/// `char::from_u32` of the standard library: the character with the
/// given code, which exists exactly for the Unicode scalar values.
#[verifier::external_body]
fn char_from_u32(code: u32) -> (r: Option<char>)
    ensures
        r is Some <==> is_scalar(code),
        r matches Some(c) ==> c as u32 == code,
{
    char::from_u32(code)
}

impl KeyboardKey {
    /// The keys that were pressed, from the codes that polling the
    /// native queue gave, in their order. The queue ends at the first
    /// zero; what follows it is not read.
    pub fn get_pressed_keys(codes: &Vec<i32>) -> (r: Vec<KeyboardKey>)
        ensures
            exists|n: int| is_queue_end(codes@, n) && r@ == keys_of(codes@.take(n)),
            forall|n: int| is_queue_end(codes@, n) ==> r@ == keys_of(codes@.take(n)),
    {
        let mut keys: Vec<KeyboardKey> = Vec::new();
        let mut i: usize = 0;
        assert(codes@.take(0) =~= Seq::<i32>::empty());
        while i < codes.len() && codes[i] != 0
            invariant
                0 <= i <= codes@.len(),
                forall|k: int| 0 <= k < i ==> codes@[k] != 0,
                keys@ == keys_of(codes@.take(i as int)),
            decreases codes@.len() - i,
        {
            let code = codes[i];
            assert(codes@.take(i + 1).drop_last() =~= codes@.take(i as int));
            assert(codes@.take(i + 1).last() == code);
            if code > 0 {
                match KeyboardKey::from_value(code as u32) {
                    Some(key) => {
                        keys.push(key);
                    },
                    None => {},
                }
            }
            i += 1;
        }
        assert(is_queue_end(codes@, i as int));
        assert forall|n: int| is_queue_end(codes@, n) implies keys@ == keys_of(codes@.take(n)) by {
            if n < i {
                assert(codes@[n] == 0);
            } else if n > i {
                assert(codes@[i as int] != 0);
            }
        }
        keys
    }

    /// The characters that were typed, from the codes that polling the
    /// native queue gave, in their order. The queue ends at the first
    /// zero; what follows it is not read.
    pub fn get_pressed_chars(codes: &Vec<i32>) -> (r: Vec<char>)
        ensures
            is_queue_end(codes@, r@.len() as int),
            forall|k: int| 0 <= k < r@.len() ==> is_char_of(codes@[k], #[trigger] r@[k]),
    {
        let mut chars: Vec<char> = Vec::new();
        let mut i: usize = 0;
        while i < codes.len() && codes[i] != 0
            invariant
                0 <= i <= codes@.len(),
                chars@.len() == i,
                forall|k: int| 0 <= k < i ==> codes@[k] != 0,
                forall|k: int| 0 <= k < i ==> is_char_of(codes@[k], #[trigger] chars@[k]),
            decreases codes@.len() - i,
        {
            let code = codes[i];
            let c = if code > 0 {
                match char_from_u32(code as u32) {
                    Some(c) => c,
                    None => '?',
                }
            } else {
                '?'
            };
            chars.push(c);
            i += 1;
        }
        chars
    }
}

/// A gamepad, by its number.
#[derive(Debug, Clone, Copy, PartialEq, Eq, Structural)]
pub struct Gamepad(pub u32);

impl Gamepad {
    /// The button that a polled code stands for. The native library
    /// reports -1 where no button was pressed.
    pub open spec fn button_of(code: i32) -> Option<GamepadButton> {
        if code < 0 {
            None
        } else {
            GamepadButton::spec_from_value(code as u32)
        }
    }

    /// The button that was pressed last, from the code that the native
    /// library reports.
    pub fn last_button_pressed(&self, code: i32) -> (r: Option<GamepadButton>)
        ensures
            r == Self::button_of(code),
    {
        if code < 0 {
            None
        } else {
            GamepadButton::from_value(code as u32)
        }
    }
}

/// The mouse.
#[derive(Debug, Clone, Copy)]
pub struct Mouse;

impl Mouse {
    /// Moves the mouse to `x` and leaves it at the height `y`, which is
    /// where it is now.
    pub fn set_x(x: i32, y: i32) -> (r: NativeCall)
        ensures
            r == (NativeCall::SetMousePosition { x, y }),
    {
        NativeCall::SetMousePosition { x, y }
    }

    /// Moves the mouse to `y` and leaves it at `x`, which is where it is
    /// now.
    pub fn set_y(x: i32, y: i32) -> (r: NativeCall)
        ensures
            r == (NativeCall::SetMousePosition { x, y }),
    {
        NativeCall::SetMousePosition { x, y }
    }
}

/// The touch screen.
#[derive(Debug, Clone, Copy)]
pub struct Touch;

/// One of the points at which the screen is touched, by its number.
#[derive(Debug, Clone, Copy, PartialEq, Eq, Structural)]
pub struct TouchPoint(u32);

impl Touch {
    /// The touch points, numbered from 0, for the count that the native
    /// library reports; none where the count is not positive.
    pub fn touch_points(count: i32) -> (r: Vec<TouchPoint>)
        ensures
            r@.len() == if count > 0 {
                count as int
            } else {
                0
            },
            forall|i: int| 0 <= i < r@.len() ==> (#[trigger] r@[i]).spec_id() == i,
    {
        let mut points: Vec<TouchPoint> = Vec::new();
        let mut i: i32 = 0;
        while i < count
            invariant
                0 <= i,
                count > 0 ==> i <= count,
                count <= 0 ==> i == 0,
                points@.len() == i,
                forall|k: int| 0 <= k < points@.len() ==> (#[trigger] points@[k]).spec_id() == k,
            decreases count - i,
        {
            points.push(TouchPoint(i as u32));
            i += 1;
        }
        points
    }
}

impl TouchPoint {
    /// The number of the point.
    pub closed spec fn spec_id(&self) -> u32 {
        self.0
    }

    pub fn id(&self) -> (r: u32)
        ensures
            r == self.spec_id(),
    {
        self.0
    }
}

} // verus!
