use shell::graphics::{GraphicsConfig, GraphicsContext, PowerPreference};
use shell::input::{translate_key, VirtualKeyCode};
use shell::window::WindowFlags;

#[test]
fn key_table_maps_platform_codes() {
    assert_eq!(translate_key(0), VirtualKeyCode::Key1);
    assert_eq!(translate_key(9), VirtualKeyCode::Key0);
    assert_eq!(translate_key(10), VirtualKeyCode::A);
    assert_eq!(translate_key(36), VirtualKeyCode::Escape);
    assert_eq!(translate_key(74), VirtualKeyCode::Backspace);
    assert_eq!(translate_key(75), VirtualKeyCode::Enter);
    assert_eq!(translate_key(80), VirtualKeyCode::Keypad0);
    assert_eq!(translate_key(115), VirtualKeyCode::LMenu);
    assert_eq!(translate_key(137), VirtualKeyCode::Rbracket);
    assert_eq!(translate_key(146), VirtualKeyCode::Tab);
}

#[test]
fn unmapped_and_out_of_range_codes_are_invalid() {
    assert_eq!(translate_key(77), VirtualKeyCode::Invalid);
    assert_eq!(translate_key(162), VirtualKeyCode::Invalid);
    assert_eq!(translate_key(163), VirtualKeyCode::Invalid);
    assert_eq!(translate_key(u32::MAX), VirtualKeyCode::Invalid);
}

#[test]
fn default_flags_are_resizable_and_visible() {
    let f = WindowFlags::default();
    assert_eq!(f.bits(), 0x3);
    assert!(f.contains(WindowFlags::resizable()));
    assert!(f.contains(WindowFlags::visible()));
    assert!(!f.contains(WindowFlags::transparent()));
    assert!(!f.contains(WindowFlags::always_on_top()));
    let g = f.union(WindowFlags::always_on_top());
    assert_eq!(g.bits(), 0xb);
    assert_eq!(WindowFlags::from_bits_truncate(0xff).bits(), 0xf);
    assert_eq!(WindowFlags::empty().bits(), 0);
}

#[test]
fn swapchain_images_rotate_and_resize_restarts() {
    let config = GraphicsConfig { debug_mode: true, power_preference: PowerPreference::HiPower };
    let ctx = GraphicsContext::new(&config);
    assert_eq!(ctx.config(), config);
    assert_eq!(GraphicsConfig::default().power_preference, PowerPreference::DontCare);
    let mut surface = ctx.create_surface();
    assert_eq!(surface.get_next_image().present().index, 0);
    let img = surface.get_next_image();
    assert_eq!(img.get_image().index, 1);
    assert_eq!(img.present().index, 1);
    assert_eq!(surface.get_next_image().present().index, 0);
    surface.resize();
    assert_eq!(surface.get_next_image().present().index, 0);
}
