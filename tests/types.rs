use libretro_rs::{RetroDevice, Device, DevicePort, GameType, JoypadButton, MemoryType, PixelFormat, Region};

#[test]
fn device_codes_round_trip() {
    assert_eq!(Device::try_from(0u32), Ok(Device::NoDevice));
    assert_eq!(Device::try_from(1u32), Ok(Device::Joypad));
    assert_eq!(Device::try_from(2u32), Ok(Device::Mouse));
    assert_eq!(Device::try_from(3u32), Ok(Device::Keyboard));
    assert_eq!(Device::try_from(4u32), Ok(Device::LightGun));
    assert_eq!(Device::try_from(5u32), Ok(Device::Analog));
    assert_eq!(Device::try_from(6u32), Ok(Device::Pointer));
}

#[test]
fn unknown_device_code_is_rejected() {
    assert_eq!(Device::try_from(7u32), Err(()));
    assert_eq!(Device::try_from(u32::MAX), Err(()));
}

#[test]
fn joypad_button_ids() {
    assert_eq!(u32::from(JoypadButton::B), 0);
    assert_eq!(u32::from(JoypadButton::Y), 1);
    assert_eq!(u32::from(JoypadButton::Select), 2);
    assert_eq!(u32::from(JoypadButton::Start), 3);
    assert_eq!(u32::from(JoypadButton::Up), 4);
    assert_eq!(u32::from(JoypadButton::Down), 5);
    assert_eq!(u32::from(JoypadButton::Left), 6);
    assert_eq!(u32::from(JoypadButton::Right), 7);
    assert_eq!(u32::from(JoypadButton::A), 8);
    assert_eq!(u32::from(JoypadButton::X), 9);
    assert_eq!(u32::from(JoypadButton::L1), 10);
    assert_eq!(u32::from(JoypadButton::R1), 11);
    assert_eq!(u32::from(JoypadButton::L2), 12);
    assert_eq!(u32::from(JoypadButton::R2), 13);
    assert_eq!(u32::from(JoypadButton::L3), 14);
    assert_eq!(u32::from(JoypadButton::R3), 15);
}

#[test]
fn region_and_pixel_format_codes() {
    assert_eq!(u32::from(Region::NTSC), 0);
    assert_eq!(u32::from(Region::PAL), 1);
    assert_eq!(u32::from(PixelFormat::RGB1555), 0);
    assert_eq!(u32::from(PixelFormat::XRGB8888), 1);
    assert_eq!(u32::from(PixelFormat::RGB565), 2);
}

#[test]
fn defaults_of_enums() {
    assert_eq!(Device::default(), Device::NoDevice);
    assert_eq!(JoypadButton::default(), JoypadButton::B);
    assert_eq!(Region::default(), Region::NTSC);
    assert_eq!(PixelFormat::default(), PixelFormat::RGB1555);
}

#[test]
fn numeric_identifiers_round_trip() {
    assert_eq!(GameType::new(9).into_inner(), 9);
    assert_eq!(u32::from(GameType::from(4u32)), 4);
    assert_eq!(MemoryType::new(2).into_inner(), 2);
    assert_eq!(u32::from(MemoryType::from(3u32)), 3);
    assert_eq!(DevicePort::new(1).into_inner(), 1);
    assert_eq!(u8::from(DevicePort::from(255u8)), 255);
    assert!(DevicePort::new(0) < DevicePort::new(1));
}

#[test]
fn known_device_codes_convert_directly() {
    assert_eq!(RetroDevice::from(0), Device::NoDevice);
    assert_eq!(RetroDevice::from(1), Device::Joypad);
    assert_eq!(Device::from(4), Device::LightGun);
    assert_eq!(Device::from(6), Device::Pointer);
}
