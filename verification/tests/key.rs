use message_window::key::{
    virtual_key_to_char, VK_CONTROL, VK_DELETE, VK_DOWN, VK_LEFT, VK_MENU, VK_RETURN, VK_RIGHT,
    VK_SHIFT, VK_UP,
};

#[test]
fn virtual_key_values() {
    assert_eq!(VK_RETURN, 0x0D);
    assert_eq!(VK_SHIFT, 0x10);
    assert_eq!(VK_CONTROL, 0x11);
    assert_eq!(VK_MENU, 0x12);
    assert_eq!(VK_LEFT, 0x25);
    assert_eq!(VK_UP, 0x26);
    assert_eq!(VK_RIGHT, 0x27);
    assert_eq!(VK_DOWN, 0x28);
    assert_eq!(VK_DELETE, 0x2E);
}

#[test]
fn enter_is_line_feed() {
    assert_eq!(virtual_key_to_char(VK_RETURN as usize), Some(0x000A));
    assert_eq!(virtual_key_to_char(0x0D), Some(10));
}

#[test]
fn modifiers_keep_their_codes() {
    assert_eq!(virtual_key_to_char(VK_SHIFT as usize), Some(0x0010));
    assert_eq!(virtual_key_to_char(VK_CONTROL as usize), Some(0x0011));
    assert_eq!(virtual_key_to_char(VK_MENU as usize), Some(0x0012));
}

#[test]
fn delete_is_del() {
    assert_eq!(virtual_key_to_char(VK_DELETE as usize), Some(0x007F));
    assert_eq!(virtual_key_to_char(0x2E), Some(127));
}

#[test]
fn arrows_take_function_key_values() {
    assert_eq!(virtual_key_to_char(VK_UP as usize), Some(0xF700));
    assert_eq!(virtual_key_to_char(VK_DOWN as usize), Some(0xF701));
    assert_eq!(virtual_key_to_char(VK_LEFT as usize), Some(0xF702));
    assert_eq!(virtual_key_to_char(VK_RIGHT as usize), Some(0xF703));
}

#[test]
fn arrows_by_number() {
    assert_eq!(virtual_key_to_char(0x25), Some(0xF702));
    assert_eq!(virtual_key_to_char(0x26), Some(0xF700));
    assert_eq!(virtual_key_to_char(0x27), Some(0xF703));
    assert_eq!(virtual_key_to_char(0x28), Some(0xF701));
}

#[test]
fn other_keys_have_no_translation() {
    assert_eq!(virtual_key_to_char(0), None);
    assert_eq!(virtual_key_to_char(0x08), None);
    assert_eq!(virtual_key_to_char(0x1B), None);
    assert_eq!(virtual_key_to_char(0x20), None);
    assert_eq!(virtual_key_to_char(0x41), None);
    assert_eq!(virtual_key_to_char(0x70), None);
    assert_eq!(virtual_key_to_char(0x0A), None);
    assert_eq!(virtual_key_to_char(0x7F), None);
    assert_eq!(virtual_key_to_char(0xF700), None);
}

#[test]
fn neighbours_of_table_keys_have_no_translation() {
    for key in [0x0C, 0x0E, 0x0F, 0x13, 0x24, 0x29, 0x2D, 0x2F] {
        assert_eq!(virtual_key_to_char(key), None);
    }
}

#[test]
fn exactly_nine_keys_translate() {
    let mapped = (0..0x1_0000usize)
        .filter(|key| virtual_key_to_char(*key).is_some())
        .count();
    assert_eq!(mapped, 9);
}

#[test]
fn translation_is_repeatable() {
    for key in 0..0x200usize {
        assert_eq!(virtual_key_to_char(key), virtual_key_to_char(key));
    }
}

#[test]
fn only_the_low_32_bits_name_the_key() {
    let high = 1u64 << 32;
    if let Ok(offset) = usize::try_from(high) {
        assert_eq!(virtual_key_to_char(offset + 0x0D), Some(0x000A));
        assert_eq!(virtual_key_to_char(offset * 7 + 0x2E), Some(0x007F));
        assert_eq!(virtual_key_to_char(offset + 0x41), None);
    }
}

#[test]
fn bit_31_is_part_of_the_key() {
    assert_eq!(virtual_key_to_char(0x8000_000D), None);
    assert_eq!(virtual_key_to_char(0xFFFF_FF0D), None);
    assert_eq!(virtual_key_to_char(0x0001_000D), None);
}
