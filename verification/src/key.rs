//! Translation of virtual keys into the characters that the main window reads.
//!
//! Printable characters reach the window as character messages and need no
//! translation. The keys below do not, so each gets a place in the code space
//! of the main window: the control characters keep their usual values, and the
//! arrows take the values `0xF700` to `0xF703`, which no printable character
//! has.

use vstd::prelude::*;

verus! {

/// The Enter key.
pub const VK_RETURN: i32 = 0x0D;

/// Either Shift key.
pub const VK_SHIFT: i32 = 0x10;

/// Either Control key.
pub const VK_CONTROL: i32 = 0x11;

/// Either Alt key.
pub const VK_MENU: i32 = 0x12;

/// The left arrow.
pub const VK_LEFT: i32 = 0x25;

/// The up arrow.
pub const VK_UP: i32 = 0x26;

/// The right arrow.
pub const VK_RIGHT: i32 = 0x27;

/// The down arrow.
pub const VK_DOWN: i32 = 0x28;

/// The Delete key.
pub const VK_DELETE: i32 = 0x2E;

/// The virtual key that a key message names in its first payload: the low 32
/// bits of `wparam`, read as a signed number.
pub open spec fn virtual_key(wparam: usize) -> i32 {
    wparam as i32
}

/// The character that `key` stands for in the code space of the main window,
/// or `None` for a key that has no place there.
pub open spec fn translate(key: i32) -> Option<usize> {
    if key == VK_RETURN {
        Some(0x000Ausize)
    } else if key == VK_SHIFT {
        Some(0x0010usize)
    } else if key == VK_CONTROL {
        Some(0x0011usize)
    } else if key == VK_MENU {
        Some(0x0012usize)
    } else if key == VK_DELETE {
        Some(0x007Fusize)
    } else if key == VK_UP {
        Some(0xF700usize)
    } else if key == VK_DOWN {
        Some(0xF701usize)
    } else if key == VK_LEFT {
        Some(0xF702usize)
    } else if key == VK_RIGHT {
        Some(0xF703usize)
    } else {
        None
    }
}

/// Translates the virtual key that a key message carries in `key`.
///
/// The result depends on nothing but `key`, and every value of `key` has one:
/// a key outside the table gives `None`, which is no error.
pub fn virtual_key_to_char(key: usize) -> (character: Option<usize>)
    ensures
        character == translate(virtual_key(key)),
{
    let code: i32 = #[verifier::truncate] (key as i32);
    if code == VK_RETURN {
        Some(0x000A)
    } else if code == VK_SHIFT {
        Some(0x0010)
    } else if code == VK_CONTROL {
        Some(0x0011)
    } else if code == VK_MENU {
        Some(0x0012)
    } else if code == VK_DELETE {
        Some(0x007F)
    } else if code == VK_UP {
        Some(0xF700)
    } else if code == VK_DOWN {
        Some(0xF701)
    } else if code == VK_LEFT {
        Some(0xF702)
    } else if code == VK_RIGHT {
        Some(0xF703)
    } else {
        None
    }
}

/// A payload below 2^31 names the virtual key of the same value.
pub proof fn lemma_virtual_key_of_small_payload(wparam: usize)
    requires
        wparam <= i32::MAX,
    ensures
        virtual_key(wparam) == wparam,
{
}

/// Two payloads that agree in their low 32 bits name the same virtual key, and
/// so translate alike. In particular one payload always translates to the same
/// character.
pub proof fn lemma_translate_reads_low_bits(a: usize, b: usize)
    requires
        a as int % 0x1_0000_0000 == b as int % 0x1_0000_0000,
    ensures
        virtual_key(a) == virtual_key(b),
        translate(virtual_key(a)) == translate(virtual_key(b)),
{
    let x = a as u64;
    let y = b as u64;
    assert(x as i32 == y as i32) by (bit_vector)
        requires
            x % 0x1_0000_0000 == y % 0x1_0000_0000,
    ;
    assert(x as i32 == a as i32) by (bit_vector)
        requires
            x == a as u64,
    ;
    assert(y as i32 == b as i32) by (bit_vector)
        requires
            y == b as u64,
    ;
}

/// The keys that translate are the nine of the table and no others, and what
/// they translate to is a control character below `0x80` or one of the four
/// arrow values.
pub proof fn lemma_translated_keys(key: i32)
    ensures
        translate(key) matches Some(character) ==> {
            ||| character == 0x000A
            ||| 0x0010 <= character <= 0x0012
            ||| character == 0x007F
            ||| 0xF700 <= character <= 0xF703
        },
        translate(key) is Some <==> {
            ||| key == VK_RETURN
            ||| key == VK_SHIFT
            ||| key == VK_CONTROL
            ||| key == VK_MENU
            ||| key == VK_DELETE
            ||| key == VK_UP
            ||| key == VK_DOWN
            ||| key == VK_LEFT
            ||| key == VK_RIGHT
        },
{
}

} // verus!
