use meet4k::camera::{Camera, Step};
use meet4k::command::{CommandError, IntErrorKind};
use meet4k::error::Errno;
use meet4k::session::{Abort, Order, Session};

fn words(list: &[&str]) -> Vec<String> {
    list.iter().map(|s| s.to_string()).collect()
}

#[test]
fn runs_commands_in_order_then_done() {
    let camera = Camera::new();
    let w = words(&["effect-off", "get", "hdr-on"]);
    let (s, o) = Session::new(&w, &camera);
    assert_eq!(o, Order::Run { plan: camera.effect_off(), show: false });
    assert!(s.running());
    let (s, o) = s.after(&camera, Ok(()));
    assert_eq!(o, Order::Run { plan: vec![Step::Read { unit: 6, selector: 6, len: 60 }], show: true });
    let (s, o) = s.after(&camera, Ok(()));
    assert_eq!(o, Order::Run { plan: camera.hdr_on(), show: false });
    let (s, o) = s.after(&camera, Ok(()));
    assert_eq!(o, Order::Done);
    assert!(!s.running());
}

#[test]
fn bad_word_is_rejected_after_the_commands_before_it() {
    let camera = Camera::new();
    let w = words(&["angle-65", "bg-blur", "bg-blur-lvl=30", "effect-bg"]);
    let (s, o) = Session::new(&w, &camera);
    assert_eq!(o, Order::Run { plan: camera.angle_65(), show: false });
    let (s, o) = s.after(&camera, Ok(()));
    assert_eq!(o, Order::Run { plan: camera.bg_blur(), show: false });
    let (s, o) = s.after(&camera, Ok(()));
    assert_eq!(o, Order::Reject { word: 2, error: CommandError::Unrecognized { name_len: 11 } });
    assert!(!s.running());
}

#[test]
fn bad_number_is_rejected_at_once() {
    let camera = Camera::new();
    let w = words(&["sleep=x", "effect-bg"]);
    let (_, o) = Session::new(&w, &camera);
    assert_eq!(o, Order::Reject { word: 0, error: CommandError::BadNumber(IntErrorKind::InvalidDigit) });
}

#[test]
fn device_failure_aborts() {
    let camera = Camera::new();
    let w = words(&["effect-off", "hdr-on"]);
    let (s, _) = Session::new(&w, &camera);
    let (_, o) = s.after(&camera, Err(Errno(5)));
    assert_eq!(o, Order::Abort(Abort::Failed(Errno(5))));
}

#[test]
fn oversized_hex_aborts() {
    let camera = Camera::new();
    let long = format!("hex={}", "00".repeat(61));
    let w = vec!["hdr-off".to_string(), long];
    let (s, _) = Session::new(&w, &camera);
    let (_, o) = s.after(&camera, Ok(()));
    assert_eq!(o, Order::Abort(Abort::Oversized(61)));
}

#[test]
fn no_words_is_done() {
    let camera = Camera::new();
    let (_, o) = Session::new(&[], &camera);
    assert_eq!(o, Order::Done);
}

#[test]
fn readme_blur_example_runs() {
    let camera = Camera::new();
    let w = words(&["angle-65", "bg-blur", "bg-blur-leve=30"]);
    let (s, o) = Session::new(&w, &camera);
    assert_eq!(o, Order::Run { plan: camera.angle_65(), show: false });
    let (s, o) = s.after(&camera, Ok(()));
    assert_eq!(o, Order::Run { plan: camera.bg_blur(), show: false });
    let (s, o) = s.after(&camera, Ok(()));
    assert_eq!(o, Order::Run { plan: camera.blur_level(30), show: false });
    let (_, o) = s.after(&camera, Ok(()));
    assert_eq!(o, Order::Done);
}
