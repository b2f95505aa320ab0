use meet4k::camera::{Camera, Setting, Step};
use meet4k::command::{cmd, cmds, Command, CommandError, IntErrorKind};
use meet4k::error::Errno;

fn number_kind(text: &str) -> Result<u16, IntErrorKind> {
    match cmd(&format!("sleep={}", text)) {
        Ok(Command::Apply(Setting::Sleep(n))) => Ok(n),
        Err(CommandError::BadNumber(k)) => Err(k),
        other => panic!("unexpected {:?}", other),
    }
}

fn std_kind(text: &str) -> Result<u16, IntErrorKind> {
    match text.parse::<u16>() {
        Ok(n) => Ok(n),
        Err(e) => Err(match e.kind() {
            std::num::IntErrorKind::Empty => IntErrorKind::Empty,
            std::num::IntErrorKind::InvalidDigit => IntErrorKind::InvalidDigit,
            std::num::IntErrorKind::PosOverflow => IntErrorKind::PosOverflow,
            other => panic!("unexpected kind {:?}", other),
        }),
    }
}

#[test]
fn fixed_names() {
    assert_eq!(cmd("info"), Ok(Command::Info));
    assert_eq!(cmd("get"), Ok(Command::Dump));
    assert_eq!(cmd("effect-off"), Ok(Command::Apply(Setting::EffectOff)));
    assert_eq!(cmd("effect-track"), Ok(Command::Apply(Setting::EffectTrack)));
    assert_eq!(cmd("bg-solid!"), Ok(Command::ApplyNow(Setting::BgSolid)));
    assert_eq!(cmd("bg-solid-green!"), Ok(Command::ApplyNow(Setting::BgSolidGreen)));
    assert_eq!(cmd("auto-frame-body"), Ok(Command::Apply(Setting::AutoFrameBody)));
    assert_eq!(cmd("noise-reduction-on"), Ok(Command::Apply(Setting::NoiseReductionOn)));
    assert_eq!(cmd("angle-65"), Ok(Command::Apply(Setting::Angle65)));
}

#[test]
fn argument_of_fixed_command_is_ignored() {
    assert_eq!(cmd("effect-off=17"), Ok(Command::Apply(Setting::EffectOff)));
    assert_eq!(cmd("hdr-on="), Ok(Command::Apply(Setting::HdrOn)));
    assert_eq!(cmd("info=a=b"), Ok(Command::Info));
}

#[test]
fn numeric_commands() {
    assert_eq!(cmd("bg-blur-level=30"), Ok(Command::Apply(Setting::BlurLevel(30))));
    assert_eq!(cmd("bg-blur-leve=30"), Ok(Command::Apply(Setting::BlurLevel(30))));
    assert_eq!(cmd("bg-blur-leve"), Err(CommandError::MissingArgument));
    assert_eq!(cmd("bg-blur-level!=255"), Ok(Command::ApplyNow(Setting::BlurLevel(255))));
    assert_eq!(cmd("bg-blur-level=256"), Err(CommandError::BadNumber(IntErrorKind::PosOverflow)));
    assert_eq!(cmd("bg-bitmap-n=2"), Ok(Command::Apply(Setting::BgBitmapN(2))));
    assert_eq!(cmd("bg-bitmap-n!=65535"), Ok(Command::ApplyNow(Setting::BgBitmapN(65535))));
    assert_eq!(cmd("sleep=600"), Ok(Command::Apply(Setting::Sleep(600))));
    assert_eq!(cmd("sleep=+7"), Ok(Command::Apply(Setting::Sleep(7))));
    assert_eq!(cmd("sleep=65536"), Err(CommandError::BadNumber(IntErrorKind::PosOverflow)));
    assert_eq!(cmd("sleep=-1"), Err(CommandError::BadNumber(IntErrorKind::InvalidDigit)));
    assert_eq!(cmd("sleep="), Err(CommandError::BadNumber(IntErrorKind::Empty)));
    assert_eq!(cmd("sleep"), Err(CommandError::MissingArgument));
    assert_eq!(cmd("bg-blur-level"), Err(CommandError::MissingArgument));
    assert_eq!(cmd("bg-blur-level=1=2"), Err(CommandError::BadNumber(IntErrorKind::InvalidDigit)));
}

#[test]
fn numbers_parse_as_std_does() {
    let cases = [
        "", "+", "-", "0", "00", "+0", "-0", "7", "+65535", "65535", "65536", "0065535",
        "99999", "999999a", "a99999", "12a", " 1", "1 ", "+-1", "++1", "6553a", "70000x",
    ];
    for text in cases {
        assert_eq!(number_kind(text), std_kind(text), "text {:?}", text);
    }
    for n in (0u32..70000).step_by(97) {
        let text = n.to_string();
        assert_eq!(number_kind(&text), std_kind(&text), "text {:?}", text);
    }
}

#[test]
fn blur_level_parses_as_u8() {
    for text in ["0", "64", "255", "256", "+3", "1000", "x"] {
        let expected = text.parse::<u8>();
        match (cmd(&format!("bg-blur-level={}", text)), expected) {
            (Ok(Command::Apply(Setting::BlurLevel(v))), Ok(w)) => assert_eq!(v, w),
            (Err(CommandError::BadNumber(_)), Err(_)) => {}
            (got, want) => panic!("{:?} versus {:?}", got, want),
        }
    }
}

#[test]
fn hex_command() {
    assert_eq!(cmd("hex=000100"), Ok(Command::Hex(vec![0x00, 0x01, 0x00])));
    assert_eq!(cmd("hex=0d020101"), Ok(Command::Hex(vec![0x0d, 0x02, 0x01, 0x01])));
    assert_eq!(cmd("hex=aBcD"), Ok(Command::Hex(vec![0xab, 0xcd])));
    assert_eq!(cmd("hex="), Ok(Command::Hex(vec![])));
    assert_eq!(cmd("hex=0"), Err(CommandError::BadHex));
    assert_eq!(cmd("hex=0g"), Err(CommandError::BadHex));
    assert_eq!(cmd("hex"), Err(CommandError::MissingArgument));
}

#[test]
fn unknown_names() {
    assert_eq!(cmd("bogus"), Err(CommandError::Unrecognized { name_len: 5 }));
    assert_eq!(cmd("foo=1"), Err(CommandError::Unrecognized { name_len: 3 }));
    assert_eq!(cmd(""), Err(CommandError::Unrecognized { name_len: 0 }));
    assert_eq!(cmd("=effect-off"), Err(CommandError::Unrecognized { name_len: 0 }));
    assert_eq!(cmd("Effect-Off"), Err(CommandError::Unrecognized { name_len: 10 }));
    assert_eq!(cmd("bg-solid-green !"), Err(CommandError::Unrecognized { name_len: 16 }));
}

#[test]
fn every_error_is_invalid_argument() {
    let einval = nix::errno::Errno::EINVAL as i32;
    for e in [
        CommandError::MissingArgument,
        CommandError::BadHex,
        CommandError::BadNumber(IntErrorKind::Empty),
        CommandError::Unrecognized { name_len: 2 },
    ] {
        assert_eq!(e.errno(), Errno(einval));
    }
}

#[test]
fn words_stop_at_the_first_failure() {
    let words: Vec<String> = ["effect-bg", "bogus", "hdr-on"].iter().map(|s| s.to_string()).collect();
    let (commands, failure) = cmds(&words);
    assert_eq!(commands, vec![Command::Apply(Setting::EffectBg)]);
    assert_eq!(failure, Some(CommandError::Unrecognized { name_len: 5 }));
}

#[test]
fn words_in_order() {
    let words: Vec<String> =
        ["angle-65", "bg-blur", "bg-blur-level=30", "hex=000102", "hex=0d020101"].iter().map(|s| s.to_string()).collect();
    let (commands, failure) = cmds(&words);
    assert_eq!(
        commands,
        vec![
            Command::Apply(Setting::Angle65),
            Command::Apply(Setting::BgBlur),
            Command::Apply(Setting::BlurLevel(30)),
            Command::Hex(vec![0x00, 0x01, 0x02]),
            Command::Hex(vec![0x0d, 0x02, 0x01, 0x01]),
        ]
    );
    assert_eq!(failure, None);
    assert_eq!(cmds(&[]), (vec![], None));
}

#[test]
fn concatenated_words_read_as_one_line() {
    let a: Vec<String> = ["effect-off", "sleep=30"].iter().map(|s| s.to_string()).collect();
    let b: Vec<String> = ["hdr-on", "sleep=x", "info"].iter().map(|s| s.to_string()).collect();
    let all: Vec<String> = a.iter().chain(b.iter()).cloned().collect();
    let (ca, fa) = cmds(&a);
    let (cb, fb) = cmds(&b);
    let (call, fall) = cmds(&all);
    assert_eq!(fa, None);
    let mut joined = ca;
    joined.extend(cb);
    assert_eq!(call, joined);
    assert_eq!(fall, fb);
}

#[test]
fn plans_of_commands() {
    let c = Camera::new();
    assert_eq!(c.plan(&Command::Info), vec![Step::Info]);
    assert_eq!(c.plan(&Command::Dump), c.dump());
    assert_eq!(c.plan(&Command::ApplyNow(Setting::BgSolidRed)), c.bg_solid_red_now());
    assert_eq!(c.plan(&Command::Apply(Setting::BgSolidRed)), c.bg_solid_red());
    assert_eq!(c.plan(&Command::Hex(vec![0, 1, 2])), c.send_cmd_66(&[0, 1, 2]));
    assert!(Command::Hex(vec![0; 60]).fits());
    assert!(!Command::Hex(vec![0; 61]).fits());
    assert!(Command::Dump.fits());
}
