use meet4k::camera::{Action, Camera, Query, Stage, Step};
use meet4k::error::Errno;

/// A camera that reports `size` as every control's length and answers every
/// request with `answer`, recording the requests it gets.
struct FakeDevice {
    size: u16,
    answer: Result<(), Errno>,
    length_answer: Result<(), Errno>,
    log: Vec<(u8, u8, Query, Vec<u8>)>,
    described: usize,
}

impl FakeDevice {
    fn new(size: u16) -> FakeDevice {
        FakeDevice { size, answer: Ok(()), length_answer: Ok(()), log: vec![], described: 0 }
    }

    /// Runs `plan` to its end and returns the outcome and, for a refusal, the size.
    fn run(&mut self, plan: Vec<Step>) -> (Result<(), Errno>, Option<usize>) {
        let camera = Camera::new();
        assert_eq!(camera.stage(), Stage::Idle);
        let (mut camera, mut action) = camera.start(plan);
        loop {
            match action {
                Action::Describe => {
                    assert_eq!(camera.stage(), Stage::Describing);
                    self.described += 1;
                    let r = camera.on_reply(self.answer);
                    camera = r.0;
                    action = r.1;
                }
                Action::Query { unit, selector, query, data } => {
                    self.log.push((unit, selector, query, data.clone()));
                    if query == Query::GetLen {
                        assert_eq!(camera.stage(), Stage::Sizing);
                        assert_eq!(data, vec![0, 0]);
                        let reply = self.length_answer.map(|_| self.size.to_le_bytes());
                        let r = camera.on_length(reply);
                        camera = r.0;
                        action = r.1;
                    } else {
                        assert_eq!(camera.stage(), Stage::Querying);
                        let r = camera.on_reply(self.answer);
                        camera = r.0;
                        action = r.1;
                    }
                }
                Action::Refused { size, error } => {
                    assert_eq!(camera.stage(), Stage::Idle);
                    return (Err(error), Some(size));
                }
                Action::Completed(r) => {
                    assert_eq!(camera.stage(), Stage::Idle);
                    return (r, None);
                }
            }
        }
    }
}

fn frame(bytes: &[u8]) -> Vec<u8> {
    let mut data = vec![0u8; 60];
    data[..bytes.len()].copy_from_slice(bytes);
    data
}

#[test]
fn query_codes_are_uvc_codes() {
    assert_eq!(Query::GetLen.code(), 0x85);
    assert_eq!(Query::GetCur.code(), 0x81);
    assert_eq!(Query::SetCur.code(), 0x01);
}

#[test]
fn each_write_asks_the_length_first() {
    let mut dev = FakeDevice::new(60);
    let plan = Camera::new().bg_solid_blue_now();
    assert_eq!(dev.run(plan), (Ok(()), None));
    assert_eq!(
        dev.log,
        vec![
            (6, 6, Query::GetLen, vec![0, 0]),
            (6, 6, Query::SetCur, frame(&[0x10, 0x01, 0x00])),
            (6, 6, Query::GetLen, vec![0, 0]),
            (6, 6, Query::SetCur, frame(&[0x05, 0x01, 0x01])),
            (6, 6, Query::GetLen, vec![0, 0]),
            (6, 6, Query::SetCur, frame(&[0x00, 0x01, 0x01])),
        ]
    );
}

#[test]
fn write_longer_than_control_is_refused() {
    let mut dev = FakeDevice::new(59);
    let plan = Camera::new().effect_off();
    assert_eq!(dev.run(plan), (Err(Errno(1)), Some(59)));
    assert_eq!(dev.log, vec![(6, 6, Query::GetLen, vec![0, 0])]);
}

#[test]
fn larger_control_accepts_write() {
    let mut dev = FakeDevice::new(300);
    assert_eq!(dev.run(Camera::new().hdr_on()), (Ok(()), None));
    assert_eq!(dev.log.len(), 2);
}

#[test]
fn read_needs_control_no_longer_than_buffer() {
    let mut dev = FakeDevice::new(61);
    assert_eq!(dev.run(Camera::new().dump()), (Err(Errno(1)), Some(61)));
    let mut dev = FakeDevice::new(60);
    assert_eq!(dev.run(Camera::new().dump()), (Ok(()), None));
    assert_eq!(dev.log[1], (6, 6, Query::GetCur, vec![0u8; 60]));
    let mut dev = FakeDevice::new(2);
    assert_eq!(dev.run(Camera::new().dump()), (Ok(()), None));
}

#[test]
fn failure_stops_the_command() {
    let mut dev = FakeDevice::new(60);
    dev.answer = Err(Errno(5));
    assert_eq!(dev.run(Camera::new().blur_level_now(10)), (Err(Errno(5)), None));
    assert_eq!(dev.log.len(), 2);
}

#[test]
fn length_failure_stops_the_command() {
    let mut dev = FakeDevice::new(60);
    dev.length_answer = Err(Errno(19));
    assert_eq!(dev.run(Camera::new().bg_bitmap_now()), (Err(Errno(19)), None));
    assert_eq!(dev.log.len(), 1);
}

#[test]
fn info_is_described() {
    let mut dev = FakeDevice::new(60);
    assert_eq!(dev.run(Camera::new().info()), (Ok(()), None));
    assert_eq!(dev.described, 1);
    assert!(dev.log.is_empty());
    let mut dev = FakeDevice::new(60);
    dev.answer = Err(Errno(2));
    assert_eq!(dev.run(Camera::new().info()), (Err(Errno(2)), None));
}

#[test]
fn empty_plan_completes_at_once() {
    let (camera, action) = Camera::new().start(vec![]);
    assert_eq!(action, Action::Completed(Ok(())));
    assert_eq!(camera.stage(), Stage::Idle);
}

#[test]
fn length_reply_is_little_endian() {
    let (camera, _) = Camera::new().start(Camera::new().effect_bg());
    let (camera, action) = camera.on_length(Ok([0x3c, 0x00]));
    assert_eq!(camera.stage(), Stage::Querying);
    assert!(matches!(action, Action::Query { query: Query::SetCur, .. }));
    let (camera, _) = Camera::new().start(Camera::new().effect_bg());
    let (camera2, action) = camera.on_length(Ok([0x00, 0x01]));
    assert_eq!(camera2.stage(), Stage::Querying);
    assert!(matches!(action, Action::Query { query: Query::SetCur, .. }));
    let (camera, _) = Camera::new().start(Camera::new().effect_bg());
    let (_, action) = camera.on_length(Ok([0x3b, 0x00]));
    assert_eq!(action, Action::Refused { size: 59, error: Errno(1) });
}

#[test]
fn now_form_makes_the_requests_of_the_commands_in_turn() {
    let c = Camera::new();
    for size in [60u16, 59] {
        let mut joined = FakeDevice::new(size);
        let joined_end = joined.run(c.bg_solid_green_now());
        let mut separate = FakeDevice::new(size);
        let mut separate_end = (Ok(()), None);
        for plan in [c.bg_solid_green(), c.bg_solid(), c.effect_bg()] {
            separate_end = separate.run(plan);
            if separate_end.0.is_err() {
                break;
            }
        }
        assert_eq!(joined.log, separate.log);
        assert_eq!(joined_end, separate_end);
    }
    let mut joined = FakeDevice::new(60);
    joined.answer = Err(Errno(4));
    let mut separate = FakeDevice::new(60);
    separate.answer = Err(Errno(4));
    assert_eq!(joined.run(c.bg_solid_white_now()), separate.run(c.bg_solid_white()));
    assert_eq!(joined.log, separate.log);
}
