use meet4k::camera::{Camera, Setting, Step};
use meet4k::protocol::{to_be_bytes, to_le_bytes, from_le_bytes, FRAME_LEN};

fn frame(bytes: &[u8]) -> Vec<u8> {
    let mut data = vec![0u8; FRAME_LEN];
    data[..bytes.len()].copy_from_slice(bytes);
    data
}

fn write(bytes: &[u8]) -> Step {
    Step::Write { unit: 6, selector: 6, data: frame(bytes) }
}

#[test]
fn effect_commands_send_their_bytes() {
    let c = Camera::new();
    assert_eq!(c.effect_off(), vec![write(&[0x00, 0x01, 0x00])]);
    assert_eq!(c.effect_bg(), vec![write(&[0x00, 0x01, 0x01])]);
    assert_eq!(c.effect_track(), vec![write(&[0x00, 0x01, 0x02])]);
}

#[test]
fn plain_settings_send_their_bytes() {
    let c = Camera::new();
    assert_eq!(c.hdr_off(), vec![write(&[0x01, 0x01, 0x00])]);
    assert_eq!(c.hdr_on(), vec![write(&[0x01, 0x01, 0x01])]);
    assert_eq!(c.face_ae_off(), vec![write(&[0x03, 0x01, 0x00])]);
    assert_eq!(c.face_ae_on(), vec![write(&[0x03, 0x01, 0x01])]);
    assert_eq!(c.angle_65(), vec![write(&[0x04, 0x01, 0x02])]);
    assert_eq!(c.angle_78(), vec![write(&[0x01, 0x01, 0x01])]);
    assert_eq!(c.angle_85(), vec![write(&[0x01, 0x01, 0x00])]);
    assert_eq!(c.bg_solid(), vec![write(&[0x05, 0x01, 0x01])]);
    assert_eq!(c.bg_bitmap(), vec![write(&[0x05, 0x01, 0x11])]);
    assert_eq!(c.bg_blur(), vec![write(&[0x05, 0x01, 0x12])]);
    assert_eq!(c.button_default(), vec![write(&[0x07, 0x01, 0x00])]);
    assert_eq!(c.button_rotate(), vec![write(&[0x07, 0x01, 0x01])]);
    assert_eq!(c.noise_reduction_off(), vec![write(&[0x0a, 0x01, 0x00])]);
    assert_eq!(c.noise_reduction_on(), vec![write(&[0x0a, 0x01, 0x01])]);
    assert_eq!(c.bg_solid_blue(), vec![write(&[0x10, 0x01, 0x00])]);
    assert_eq!(c.bg_solid_green(), vec![write(&[0x10, 0x01, 0x01])]);
    assert_eq!(c.bg_solid_red(), vec![write(&[0x10, 0x01, 0x02])]);
    assert_eq!(c.bg_solid_black(), vec![write(&[0x10, 0x01, 0x03])]);
    assert_eq!(c.bg_solid_white(), vec![write(&[0x10, 0x01, 0x04])]);
    assert_eq!(c.auto_frame_group(), vec![write(&[0x0d, 0x02, 0x00, 0xff])]);
    assert_eq!(c.auto_frame_face(), vec![write(&[0x0d, 0x02, 0x01, 0x00])]);
    assert_eq!(c.auto_frame_body(), vec![write(&[0x0d, 0x02, 0x01, 0x01])]);
}

#[test]
fn every_frame_is_sixty_bytes() {
    let c = Camera::new();
    for step in c.bg_bitmap_n_now(7).into_iter().chain(c.sleep(65535)) {
        match step {
            Step::Write { unit, selector, data } => {
                assert_eq!((unit, selector), (6, 6));
                assert_eq!(data.len(), 60);
            }
            other => panic!("unexpected step {:?}", other),
        }
    }
}

#[test]
fn blur_level_is_capped_at_64() {
    let c = Camera::new();
    assert_eq!(c.blur_level(30), vec![write(&[0x06, 0x01, 30])]);
    assert_eq!(c.blur_level(64), vec![write(&[0x06, 0x01, 64])]);
    assert_eq!(c.blur_level(65), vec![write(&[0x06, 0x01, 64])]);
    assert_eq!(c.blur_level(255), vec![write(&[0x06, 0x01, 64])]);
    assert_eq!(c.blur_level(0), vec![write(&[0x06, 0x01, 0])]);
}

#[test]
fn sleep_is_little_endian() {
    let c = Camera::new();
    assert_eq!(c.sleep(30), vec![write(&[0x0b, 0x02, 0x1e, 0x00])]);
    assert_eq!(c.sleep(120), vec![write(&[0x0b, 0x02, 0x78, 0x00])]);
    assert_eq!(c.sleep(600), vec![write(&[0x0b, 0x02, 0x58, 0x02])]);
}

#[test]
fn bitmap_number_is_big_endian() {
    let c = Camera::new();
    assert_eq!(c.bg_bitmap_n(0), vec![write(&[0x0e, 0x02, 0x00, 0x00])]);
    assert_eq!(c.bg_bitmap_n(1), vec![write(&[0x0e, 0x02, 0x00, 0x01])]);
    assert_eq!(c.bg_bitmap_n(2), vec![write(&[0x0e, 0x02, 0x00, 0x02])]);
    assert_eq!(c.bg_bitmap_n(0x1234), vec![write(&[0x0e, 0x02, 0x12, 0x34])]);
}

#[test]
fn now_commands_add_their_prerequisites() {
    let c = Camera::new();
    let bg = write(&[0x00, 0x01, 0x01]);
    let track = write(&[0x00, 0x01, 0x02]);
    let solid = write(&[0x05, 0x01, 0x01]);
    let bitmap = write(&[0x05, 0x01, 0x11]);
    let blur = write(&[0x05, 0x01, 0x12]);
    assert_eq!(c.bg_solid_now(), vec![solid.duplicate(), bg.duplicate()]);
    assert_eq!(c.bg_bitmap_now(), vec![bitmap.duplicate(), bg.duplicate()]);
    assert_eq!(c.bg_blur_now(), vec![blur.duplicate(), bg.duplicate()]);
    assert_eq!(
        c.bg_solid_green_now(),
        vec![write(&[0x10, 0x01, 0x01]), solid.duplicate(), bg.duplicate()]
    );
    assert_eq!(
        c.bg_solid_blue_now(),
        vec![write(&[0x10, 0x01, 0x00]), solid.duplicate(), bg.duplicate()]
    );
    assert_eq!(
        c.bg_solid_red_now(),
        vec![write(&[0x10, 0x01, 0x02]), solid.duplicate(), bg.duplicate()]
    );
    assert_eq!(
        c.bg_solid_black_now(),
        vec![write(&[0x10, 0x01, 0x03]), solid.duplicate(), bg.duplicate()]
    );
    assert_eq!(
        c.bg_solid_white_now(),
        vec![write(&[0x10, 0x01, 0x04]), solid.duplicate(), bg.duplicate()]
    );
    assert_eq!(
        c.blur_level_now(100),
        vec![write(&[0x06, 0x01, 64]), blur.duplicate(), bg.duplicate()]
    );
    assert_eq!(
        c.bg_bitmap_n_now(3),
        vec![write(&[0x0e, 0x02, 0x00, 0x03]), bitmap.duplicate(), bg.duplicate()]
    );
    assert_eq!(c.auto_frame_group_now(), vec![write(&[0x0d, 0x02, 0x00, 0xff]), track.duplicate()]);
    assert_eq!(c.auto_frame_face_now(), vec![write(&[0x0d, 0x02, 0x01, 0x00]), track.duplicate()]);
    assert_eq!(c.auto_frame_body_now(), vec![write(&[0x0d, 0x02, 0x01, 0x01]), track.duplicate()]);
}

#[test]
fn apply_now_without_prerequisites_is_apply() {
    let c = Camera::new();
    assert_eq!(c.apply_now(&Setting::HdrOn), c.apply(&Setting::HdrOn));
    assert_eq!(c.apply_now(&Setting::Sleep(9)), c.sleep(9));
    assert_eq!(c.apply_now(&Setting::BlurLevel(12)), c.blur_level_now(12));
    assert_eq!(c.apply(&Setting::BgBitmapN(4)), c.bg_bitmap_n(4));
}

#[test]
fn raw_commands_are_zero_padded() {
    let c = Camera::new();
    assert_eq!(c.send_cmd_66(&[0x00, 0x01, 0x02]), vec![write(&[0x00, 0x01, 0x02])]);
    assert_eq!(c.send_cmd_66(&[]), vec![write(&[])]);
    let full: Vec<u8> = (0..60).map(|i| i as u8).collect();
    assert_eq!(c.send_cmd_66(&full), vec![Step::Write { unit: 6, selector: 6, data: full.clone() }]);
}

#[test]
fn info_and_dump_steps() {
    let c = Camera::new();
    assert_eq!(c.info(), vec![Step::Info]);
    assert_eq!(c.dump(), vec![Step::Read { unit: 6, selector: 6, len: 60 }]);
}

#[test]
fn byte_orders_match_std() {
    for n in [0u16, 1, 30, 120, 255, 256, 600, 0x1234, 65535] {
        assert_eq!(to_le_bytes(n), n.to_le_bytes());
        assert_eq!(to_be_bytes(n), n.to_be_bytes());
        assert_eq!(from_le_bytes(n.to_le_bytes()), n);
    }
}
