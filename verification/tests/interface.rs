use chip8::interface::Interface;

#[test]
fn it_should_initialize_the_interface_dark_and_with_no_key_held() {
    let interface: Interface = Interface::initialize();

    assert_eq!(2048, interface.get_buffer().len());
    for color in interface.get_buffer().iter() {
        assert_eq!(Interface::BLACK, *color);
    }
    for key_code in 0..16 {
        assert_eq!(false, interface.is_pressed(key_code));
        assert_eq!(true, interface.is_not_pressed(key_code));
    }
    assert_eq!(None, interface.get_pressed_key());
}

#[test]
fn it_should_name_the_dimensions_and_the_colours() {
    assert_eq!("Chip-8", Interface::TITLE);
    assert_eq!(64, Interface::WIDTH);
    assert_eq!(32, Interface::HEIGHT);
    assert_eq!(0, Interface::BLACK);
    assert_eq!(0xFFFFFF, Interface::WHITE);
}

#[test]
fn it_should_turn_a_dark_pixel_on_without_a_collision() {
    let mut interface: Interface = Interface::initialize();

    let collided: bool = interface.draw_pixel(true, 5, 2);

    assert_eq!(false, collided);
    assert_eq!(Interface::WHITE, interface.get_buffer()[5 + 2 * 64]);
    assert_eq!(Interface::BLACK, interface.get_buffer()[4 + 2 * 64]);
    assert_eq!(Interface::BLACK, interface.get_buffer()[6 + 2 * 64]);
    assert_eq!(Interface::BLACK, interface.get_buffer()[5 + 64]);
}

#[test]
fn it_should_turn_a_lit_pixel_off_with_a_collision() {
    let mut interface: Interface = Interface::initialize();

    interface.draw_pixel(true, 5, 2);
    let collided: bool = interface.draw_pixel(true, 5, 2);

    assert_eq!(true, collided);
    assert_eq!(Interface::BLACK, interface.get_buffer()[5 + 2 * 64]);
}

#[test]
fn it_should_keep_a_lit_pixel_when_the_bit_is_off() {
    let mut interface: Interface = Interface::initialize();

    interface.draw_pixel(true, 63, 31);
    let collided: bool = interface.draw_pixel(false, 63, 31);

    assert_eq!(false, collided);
    assert_eq!(Interface::WHITE, interface.get_buffer()[2047]);
}

#[test]
fn it_should_report_a_collision_when_a_dark_pixel_meets_an_off_bit() {
    let mut interface: Interface = Interface::initialize();

    let collided: bool = interface.draw_pixel(false, 0, 0);

    assert_eq!(true, collided);
    assert_eq!(Interface::BLACK, interface.get_buffer()[0]);
}

#[test]
fn it_should_clear_every_pixel_and_keep_the_keys() {
    let mut interface: Interface = Interface::initialize();

    interface.draw_pixel(true, 0, 0);
    interface.draw_pixel(true, 63, 31);
    interface.draw_pixel(true, 10, 20);
    interface.set_key(0x4, true);

    interface.clear();

    for color in interface.get_buffer().iter() {
        assert_eq!(Interface::BLACK, *color);
    }
    assert_eq!(true, interface.is_pressed(0x4));
}

#[test]
fn it_should_record_the_keys_that_are_held_down() {
    let mut interface: Interface = Interface::initialize();

    interface.set_key(0xB, true);

    assert_eq!(true, interface.is_pressed(0xB));
    assert_eq!(false, interface.is_not_pressed(0xB));
    assert_eq!(false, interface.is_pressed(0xA));
    assert_eq!(true, interface.is_not_pressed(0xA));

    interface.set_key(0xB, false);

    assert_eq!(false, interface.is_pressed(0xB));
    assert_eq!(true, interface.is_not_pressed(0xB));
}

#[test]
fn it_should_get_the_lowest_key_that_is_held_down() {
    let mut interface: Interface = Interface::initialize();

    interface.set_key(0xF, true);
    assert_eq!(Some(0xF), interface.get_pressed_key());

    interface.set_key(0x3, true);
    interface.set_key(0x9, true);
    assert_eq!(Some(0x3), interface.get_pressed_key());

    interface.set_key(0x0, true);
    assert_eq!(Some(0x0), interface.get_pressed_key());

    interface.set_key(0x0, false);
    interface.set_key(0x3, false);
    assert_eq!(Some(0x9), interface.get_pressed_key());
}

#[test]
fn it_should_keep_the_pixels_when_a_key_changes() {
    let mut interface: Interface = Interface::initialize();

    interface.draw_pixel(true, 7, 7);
    interface.set_key(0x1, true);

    assert_eq!(Interface::WHITE, interface.get_buffer()[7 + 7 * 64]);
}
