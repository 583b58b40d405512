use physim::window::{Color, ConfigFlags, KeyboardKey, MouseButton};

#[test]
fn flags_combine_into_one_word() {
    let word = ConfigFlags::FlagWindowResizable.bitor(ConfigFlags::FlagMsaa4xHint);
    assert_eq!(word, 0x24);
    assert_eq!(ConfigFlags::FlagVsyncHint.bitor(ConfigFlags::FlagVsyncHint), 0x40);
    assert_eq!(ConfigFlags::FlagInterlacedHint.bits(), 0x10000);
}

#[test]
fn keys_carry_their_codes() {
    assert_eq!(KeyboardKey::KeyNull.code(), 0);
    assert_eq!(KeyboardKey::KeyR.code(), 82);
    assert_eq!(KeyboardKey::KeyGrave.code(), 96);
    assert_eq!(KeyboardKey::KeyA.code(), 65);
    assert_eq!(KeyboardKey::KeyD.code(), 68);
    assert_eq!(KeyboardKey::KeyW.code(), 87);
    assert_eq!(KeyboardKey::KeyS.code(), 83);
    assert_eq!(KeyboardKey::KeyVolumeDown.code(), 25);
}

#[test]
fn mouse_buttons_carry_their_indices() {
    assert_eq!(MouseButton::MouseButtonLeft.code(), 0);
    assert_eq!(MouseButton::MouseButtonBack.code(), 6);
}

#[test]
fn colors_compare_by_channel() {
    let a = Color { r: 40, g: 44, b: 52, a: 255 };
    let b = Color { r: 40, g: 44, b: 52, a: 255 };
    assert!(a == b);
    assert!(a != Color { r: 40, g: 44, b: 52, a: 0 });
}
