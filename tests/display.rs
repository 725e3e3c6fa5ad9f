use chip8::display::{map_chip_display, Display};

#[test]
fn drawing_twice_erases_and_collides() {
    let mut d = Display::new();
    assert!(!d.draw_sprite(3, 10, 0xA5));
    assert_eq!(d.screen[3][10], 1);
    assert_eq!(d.screen[3][11], 0);
    assert_eq!(d.screen[3][12], 1);
    assert_eq!(d.screen[3][17], 1);
    assert!(d.draw_sprite(3, 10, 0xA5));
    for c in 0..64 {
        assert_eq!(d.screen[3][c], 0);
    }
}

#[test]
fn sprite_is_clipped_at_the_right_edge() {
    let mut d = Display::new();
    assert!(!d.draw_sprite(0, 60, 0xFF));
    for c in 60..64 {
        assert_eq!(d.screen[0][c], 1);
    }
    for c in 0..4 {
        assert_eq!(d.screen[0][c], 0);
    }
    assert_eq!(d.screen[1][0], 0);
}

#[test]
fn coordinates_wrap_before_drawing() {
    let mut d = Display::new();
    assert!(!d.draw_sprite(33, 65, 0x80));
    assert_eq!(d.screen[1][1], 1);
}

#[test]
fn setting_a_cell_is_no_collision() {
    let mut d = Display::new();
    assert!(!d.draw_sprite(5, 0, 0xF0));
    assert!(!d.draw_sprite(5, 0, 0x0F));
    for c in 0..8 {
        assert_eq!(d.screen[5][c], 1);
    }
    assert!(d.draw_sprite(5, 4, 0x80));
    assert_eq!(d.screen[5][4], 0);
}

#[test]
fn hidden_pixels_do_not_collide() {
    let mut d = Display::new();
    assert!(!d.draw_sprite(0, 60, 0x0F));
    assert!(!d.draw_sprite(0, 60, 0x0F));
}

#[test]
fn reset_clears_every_cell() {
    let mut d = Display::new();
    d.draw_sprite(31, 63, 0xFF);
    d.draw_sprite(0, 0, 0xFF);
    d.reset();
    for r in 0..32 {
        for c in 0..64 {
            assert_eq!(d.screen[r][c], 0);
        }
    }
}

#[test]
fn rgb_image_of_the_screen() {
    let mut d = Display::new();
    d.draw_sprite(1, 2, 0x80);
    let img = map_chip_display(&d);
    assert_eq!(img.len(), 32 * 64 * 3);
    let at = (64 + 2) * 3;
    assert_eq!(&img[at..at + 3], &[255, 255, 255]);
    assert_eq!(&img[at - 3..at], &[0, 0, 0]);
    assert_eq!(img.iter().filter(|b| **b == 255).count(), 3);
}
