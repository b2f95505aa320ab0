//! The command vocabulary: words of the form `name` or `name=argument`, each
//! naming one camera command.
use vstd::prelude::*;
use vstd::slice::slice_subrange;
use vstd::string::StringSliceAdditionalSpecFns;
use vstd::utf8::encode_utf8;

use crate::camera::{Camera, Setting, Step, StepView, dump_step, now_plan, setting_plan, write_step};
use crate::error::Errno;
use crate::protocol::{FRAME_LEN, frame};

verus! {

/// The byte `=`, which ends a command's name.
pub const EQUALS: u8 = 0x3d;

/// The byte `+`, which may stand before a number.
pub const PLUS: u8 = 0x2b;

/// The byte `-`.
pub const MINUS: u8 = 0x2d;

/// The byte `0`.
pub const ZERO: u8 = 0x30;

/// The byte `9`.
pub const NINE: u8 = 0x39;

/// Why a decimal number did not parse.
#[derive(Clone, Copy, Debug, PartialEq, Eq, Structural)]
pub enum IntErrorKind {
    /// There was no text.
    Empty,
    /// A byte is not a decimal digit.
    InvalidDigit,
    /// The number is too large for its type.
    PosOverflow,
}

/// Why a command word names no command. Each makes the command fail with
/// the "invalid argument" error.
#[derive(Clone, Copy, Debug, PartialEq, Eq, Structural)]
pub enum CommandError {
    /// The command takes an argument and none was given.
    MissingArgument,
    /// The argument is not a number of the command's range.
    BadNumber(IntErrorKind),
    /// The argument of `hex` is not hexadecimal bytes.
    BadHex,
    /// No command has this name; it is the first `name_len` bytes of the word.
    Unrecognized { name_len: usize },
}

/// A command of the vocabulary.
#[derive(Debug, PartialEq, Eq)]
pub enum Command {
    /// `info`: show what the camera reports about itself.
    Info,
    /// `get`: read the settings control back and show it.
    Dump,
    /// Make one setting.
    Apply(Setting),
    /// Make one setting and the settings it needs to take effect (the name ends in `!`).
    ApplyNow(Setting),
    /// `hex=...`: write these bytes to the settings control.
    Hex(Vec<u8>),
}

/// A `Command` as a mathematical value.
pub enum CommandView {
    Info,
    Dump,
    Apply(Setting),
    ApplyNow(Setting),
    Hex(Seq<u8>),
}

impl DeepView for Command {
    type V = CommandView;

    open spec fn deep_view(&self) -> CommandView {
        match self {
            Command::Info => CommandView::Info,
            Command::Dump => CommandView::Dump,
            Command::Apply(s) => CommandView::Apply(*s),
            Command::ApplyNow(s) => CommandView::ApplyNow(*s),
            Command::Hex(data) => CommandView::Hex(data@),
        }
    }
}

/// A parse result as a mathematical value.
pub open spec fn result_view(r: Result<Command, CommandError>) -> Result<CommandView, CommandError> {
    match r {
        Ok(c) => Ok(c.deep_view()),
        Err(e) => Err(e),
    }
}

/// Whether a byte is a decimal digit.
pub open spec fn is_digit(b: u8) -> bool {
    ZERO <= b <= NINE
}

/// The value of decimal digits `d` read after the value `acc`, as long as it
/// stays at most `max`: the first byte that is not a digit, or that makes the
/// value exceed `max`, decides the error.
pub open spec fn accumulate(d: Seq<u8>, acc: nat, max: nat) -> Result<nat, IntErrorKind>
    decreases d.len(),
{
    if d.len() == 0 {
        Ok(acc)
    } else if !is_digit(d[0]) {
        Err(IntErrorKind::InvalidDigit)
    } else if acc * 10 + (d[0] - ZERO) > max {
        Err(IntErrorKind::PosOverflow)
    } else {
        accumulate(d.drop_first(), (acc * 10 + (d[0] - ZERO)) as nat, max)
    }
}

/// The unsigned decimal number that text `s` writes, for a type whose largest
/// value is `max`: digits, optionally after one `+`.
pub open spec fn parse_unsigned(s: Seq<u8>, max: nat) -> Result<nat, IntErrorKind> {
    if s.len() == 0 {
        Err(IntErrorKind::Empty)
    } else if s.len() == 1 && (s[0] == PLUS || s[0] == MINUS) {
        Err(IntErrorKind::InvalidDigit)
    } else if s[0] == PLUS {
        accumulate(s.drop_first(), 0, max)
    } else {
        accumulate(s, 0, max)
    }
}

/// The value of a hexadecimal digit.
pub open spec fn hex_digit(c: u8) -> Option<u8> {
    if 0x30 <= c <= 0x39 {
        Some((c - 0x30) as u8)
    } else if 0x41 <= c <= 0x46 {
        Some((c - 0x41 + 10) as u8)
    } else if 0x61 <= c <= 0x66 {
        Some((c - 0x61 + 10) as u8)
    } else {
        None
    }
}

/// Whether `t` is hexadecimal text: an even number of hexadecimal digits.
pub open spec fn is_hex_text(t: Seq<u8>) -> bool {
    t.len() % 2 == 0 && forall|i: int| 0 <= i < t.len() ==> (#[trigger] hex_digit(t[i])) is Some
}

/// The bytes that hexadecimal text `t` writes, two digits per byte, the
/// more significant digit first.
pub open spec fn hex_bytes(t: Seq<u8>) -> Seq<u8> {
    Seq::new(
        t.len() / 2,
        |i: int| (16 * hex_digit(t[2 * i])->0 + hex_digit(t[2 * i + 1])->0) as u8,
    )
}

/// `hex::decode`, on text bytes: the bytes that the text writes, or `None`
/// when it is not an even number of hexadecimal digits (upper or lower case).
#[verifier::external_body]
fn hex_decode(text: &[u8]) -> (r: Option<Vec<u8>>)
    ensures
        r is Some <==> is_hex_text(text@),
        r matches Some(bytes) ==> bytes@ == hex_bytes(text@),
{
    hex::decode(text).ok()
}

/// `nix::errno::Errno::EINVAL`: the platform's "invalid argument" error number.
/// Its value differs between platforms, and nothing here states it.
#[verifier::external_body]
fn invalid_argument() -> (code: i32) {
    nix::errno::Errno::EINVAL as i32
}

impl CommandError {
    /// The error a command fails with when its word names no command: the
    /// platform's "invalid argument" error, whatever the reason.
    pub fn errno(&self) -> (e: Errno) {
        Errno(invalid_argument())
    }
}

/// Whether `e` is where the name of command word `t` ends: at its first `=`,
/// or at its end when it has none.
pub open spec fn is_name_end(t: Seq<u8>, e: int) -> bool {
    &&& 0 <= e <= t.len()
    &&& forall|j: int| 0 <= j < e ==> t[j] != EQUALS
    &&& (e == t.len() || t[e] == EQUALS)
}

/// Where the name of command word `t` ends.
pub open spec fn name_end(t: Seq<u8>) -> int {
    choose|e: int| is_name_end(t, e)
}

/// The argument of command word `t`: what follows its first `=`, if it has one.
pub open spec fn argument(t: Seq<u8>) -> Option<Seq<u8>> {
    if name_end(t) < t.len() {
        Some(t.skip(name_end(t) + 1))
    } else {
        None
    }
}

/// A command word's name ends at one place only.
pub(crate) proof fn lemma_name_end(t: Seq<u8>, e: int)
    requires
        is_name_end(t, e),
    ensures
        name_end(t) == e,
{
    assert(is_name_end(t, e));
    let f = name_end(t);
    assert(is_name_end(t, f));
    if f < e {
        assert(t[f] != EQUALS);
    }
    if e < f {
        assert(t[e] != EQUALS);
    }
}

/// The command without argument that `name` names.
#[verifier::opaque]
pub open spec fn fixed_command(name: Seq<u8>) -> Option<CommandView> {
    if name == "info".spec_bytes() {
        Some(CommandView::Info)
    } else if name == "get".spec_bytes() {
        Some(CommandView::Dump)
    } else if name == "effect-off".spec_bytes() {
        Some(CommandView::Apply(Setting::EffectOff))
    } else if name == "effect-bg".spec_bytes() {
        Some(CommandView::Apply(Setting::EffectBg))
    } else if name == "effect-track".spec_bytes() {
        Some(CommandView::Apply(Setting::EffectTrack))
    } else if name == "hdr-off".spec_bytes() {
        Some(CommandView::Apply(Setting::HdrOff))
    } else if name == "hdr-on".spec_bytes() {
        Some(CommandView::Apply(Setting::HdrOn))
    } else if name == "face-ae-off".spec_bytes() {
        Some(CommandView::Apply(Setting::FaceAeOff))
    } else if name == "face-ae-on".spec_bytes() {
        Some(CommandView::Apply(Setting::FaceAeOn))
    } else if name == "angle-65".spec_bytes() {
        Some(CommandView::Apply(Setting::Angle65))
    } else if name == "angle-78".spec_bytes() {
        Some(CommandView::Apply(Setting::Angle78))
    } else if name == "angle-85".spec_bytes() {
        Some(CommandView::Apply(Setting::Angle85))
    } else if name == "bg-solid".spec_bytes() {
        Some(CommandView::Apply(Setting::BgSolid))
    } else if name == "bg-solid!".spec_bytes() {
        Some(CommandView::ApplyNow(Setting::BgSolid))
    } else if name == "bg-bitmap".spec_bytes() {
        Some(CommandView::Apply(Setting::BgBitmap))
    } else if name == "bg-bitmap!".spec_bytes() {
        Some(CommandView::ApplyNow(Setting::BgBitmap))
    } else if name == "bg-blur".spec_bytes() {
        Some(CommandView::Apply(Setting::BgBlur))
    } else if name == "bg-blur!".spec_bytes() {
        Some(CommandView::ApplyNow(Setting::BgBlur))
    } else if name == "button-default".spec_bytes() {
        Some(CommandView::Apply(Setting::ButtonDefault))
    } else if name == "button-rotate".spec_bytes() {
        Some(CommandView::Apply(Setting::ButtonRotate))
    } else if name == "noise-reduction-off".spec_bytes() {
        Some(CommandView::Apply(Setting::NoiseReductionOff))
    } else if name == "noise-reduction-on".spec_bytes() {
        Some(CommandView::Apply(Setting::NoiseReductionOn))
    } else if name == "bg-solid-blue".spec_bytes() {
        Some(CommandView::Apply(Setting::BgSolidBlue))
    } else if name == "bg-solid-blue!".spec_bytes() {
        Some(CommandView::ApplyNow(Setting::BgSolidBlue))
    } else if name == "bg-solid-green".spec_bytes() {
        Some(CommandView::Apply(Setting::BgSolidGreen))
    } else if name == "bg-solid-green!".spec_bytes() {
        Some(CommandView::ApplyNow(Setting::BgSolidGreen))
    } else if name == "bg-solid-red".spec_bytes() {
        Some(CommandView::Apply(Setting::BgSolidRed))
    } else if name == "bg-solid-red!".spec_bytes() {
        Some(CommandView::ApplyNow(Setting::BgSolidRed))
    } else if name == "bg-solid-black".spec_bytes() {
        Some(CommandView::Apply(Setting::BgSolidBlack))
    } else if name == "bg-solid-black!".spec_bytes() {
        Some(CommandView::ApplyNow(Setting::BgSolidBlack))
    } else if name == "bg-solid-white".spec_bytes() {
        Some(CommandView::Apply(Setting::BgSolidWhite))
    } else if name == "bg-solid-white!".spec_bytes() {
        Some(CommandView::ApplyNow(Setting::BgSolidWhite))
    } else if name == "auto-frame-group".spec_bytes() {
        Some(CommandView::Apply(Setting::AutoFrameGroup))
    } else if name == "auto-frame-group!".spec_bytes() {
        Some(CommandView::ApplyNow(Setting::AutoFrameGroup))
    } else if name == "auto-frame-face".spec_bytes() {
        Some(CommandView::Apply(Setting::AutoFrameFace))
    } else if name == "auto-frame-face!".spec_bytes() {
        Some(CommandView::ApplyNow(Setting::AutoFrameFace))
    } else if name == "auto-frame-body".spec_bytes() {
        Some(CommandView::Apply(Setting::AutoFrameBody))
    } else if name == "auto-frame-body!".spec_bytes() {
        Some(CommandView::ApplyNow(Setting::AutoFrameBody))
    } else {
        None
    }
}

/// The number that argument `arg` of a numeric command writes, at most `max`.
pub open spec fn numeric_argument(arg: Option<Seq<u8>>, max: nat) -> Result<nat, CommandError> {
    match arg {
        None => Err(CommandError::MissingArgument),
        Some(a) => match parse_unsigned(a, max) {
            Ok(v) => Ok(v),
            Err(k) => Err(CommandError::BadNumber(k)),
        },
    }
}

/// The command with a numeric argument that `name` names, with argument `arg`.
/// `bg-blur-leve` is accepted as another spelling of `bg-blur-level`.
#[verifier::opaque]
pub open spec fn numeric_command(name: Seq<u8>, arg: Option<Seq<u8>>) -> Option<Result<CommandView, CommandError>> {
    if name == "bg-blur-level".spec_bytes() {
        Some(match numeric_argument(arg, 255) {
            Ok(v) => Ok(CommandView::Apply(Setting::BlurLevel(v as u8))),
            Err(e) => Err(e),
        })
    } else if name == "bg-blur-leve".spec_bytes() {
        Some(match numeric_argument(arg, 255) {
            Ok(v) => Ok(CommandView::Apply(Setting::BlurLevel(v as u8))),
            Err(e) => Err(e),
        })
    } else if name == "bg-blur-level!".spec_bytes() {
        Some(match numeric_argument(arg, 255) {
            Ok(v) => Ok(CommandView::ApplyNow(Setting::BlurLevel(v as u8))),
            Err(e) => Err(e),
        })
    } else if name == "bg-bitmap-n".spec_bytes() {
        Some(match numeric_argument(arg, 65535) {
            Ok(v) => Ok(CommandView::Apply(Setting::BgBitmapN(v as u16))),
            Err(e) => Err(e),
        })
    } else if name == "bg-bitmap-n!".spec_bytes() {
        Some(match numeric_argument(arg, 65535) {
            Ok(v) => Ok(CommandView::ApplyNow(Setting::BgBitmapN(v as u16))),
            Err(e) => Err(e),
        })
    } else if name == "sleep".spec_bytes() {
        Some(match numeric_argument(arg, 65535) {
            Ok(v) => Ok(CommandView::Apply(Setting::Sleep(v as u16))),
            Err(e) => Err(e),
        })
    } else {
        None
    }
}

/// The command `hex` with argument `arg`.
pub open spec fn hex_argument(arg: Option<Seq<u8>>) -> Result<CommandView, CommandError> {
    match arg {
        None => Err(CommandError::MissingArgument),
        Some(a) => if is_hex_text(a) {
            Ok(CommandView::Hex(hex_bytes(a)))
        } else {
            Err(CommandError::BadHex)
        },
    }
}

/// The command that word `text` names. A command without an argument ignores
/// an argument given to it.
pub open spec fn parse_command(text: Seq<u8>) -> Result<CommandView, CommandError> {
    let end = name_end(text);
    let name = text.take(end);
    match fixed_command(name) {
        Some(c) => Ok(c),
        None => match numeric_command(name, argument(text)) {
            Some(r) => r,
            None => if name == "hex".spec_bytes() {
                hex_argument(argument(text))
            } else {
                Err(CommandError::Unrecognized { name_len: end as usize })
            },
        },
    }
}

/// Where the name of `text` ends.
fn find_name_end(text: &[u8]) -> (e: usize)
    ensures
        e == name_end(text@),
        is_name_end(text@, e as int),
{
    let mut i: usize = 0;
    while i < text.len()
        invariant
            i <= text@.len(),
            forall|j: int| 0 <= j < i ==> text@[j] != EQUALS,
        ensures
            i <= text@.len(),
            forall|j: int| 0 <= j < i ==> text@[j] != EQUALS,
            i == text@.len() || text@[i as int] == EQUALS,
        decreases text@.len() - i,
    {
        if text[i] == EQUALS {
            break;
        }
        i = i + 1;
    }
    proof {
        lemma_name_end(text@, i as int);
    }
    i
}

/// Whether the first `end` bytes of `text` are the bytes of `name`.
fn name_is(text: &[u8], end: usize, name: &str) -> (r: bool)
    requires
        end <= text@.len(),
    ensures
        r == (text@.take(end as int) == name.spec_bytes()),
{
    let other = name.as_bytes();
    if other.len() != end {
        assert(text@.take(end as int).len() != other@.len());
        return false;
    }
    let mut i: usize = 0;
    while i < end
        invariant
            i <= end,
            end <= text@.len(),
            other@.len() == end,
            other@ == name.spec_bytes(),
            forall|j: int| 0 <= j < i ==> text@[j] == other@[j],
        decreases end - i,
    {
        if text[i] != other[i] {
            assert(text@.take(end as int)[i as int] != other@[i as int]);
            return false;
        }
        i = i + 1;
    }
    assert(text@.take(end as int) =~= other@);
    true
}

/// The unsigned decimal number that `text` writes from byte `from` on, at most `max`.
fn parse_decimal(text: &[u8], from: usize, max: u32) -> (r: Result<u32, IntErrorKind>)
    requires
        from <= text@.len(),
        max <= 65535,
    ensures
        match r {
            Ok(v) => parse_unsigned(text@.skip(from as int), max as nat) == Ok::<nat, IntErrorKind>(v as nat) && v <= max,
            Err(k) => parse_unsigned(text@.skip(from as int), max as nat) == Err::<nat, IntErrorKind>(k),
        },
{
    let len = text.len();
    let ghost s = text@.skip(from as int);
    if from == len {
        return Err(IntErrorKind::Empty);
    }
    let first = text[from];
    if from + 1 == len && (first == PLUS || first == MINUS) {
        return Err(IntErrorKind::InvalidDigit);
    }
    let mut i: usize = if first == PLUS { from + 1 } else { from };
    proof {
        assert(s.drop_first() =~= text@.skip(from + 1));
        assert(s =~= text@.skip(from as int));
    }
    let ghost start = i as int;
    assert(parse_unsigned(s, max as nat) == accumulate(text@.skip(start), 0, max as nat));
    let mut acc: u32 = 0;
    while i < len
        invariant
            start <= i <= len,
            s == text@.skip(from as int),
            parse_unsigned(s, max as nat) == accumulate(text@.skip(start), 0, max as nat),
            len == text@.len(),
            acc <= max,
            max <= 65535,
            accumulate(text@.skip(start), 0, max as nat) == accumulate(
                text@.skip(i as int),
                acc as nat,
                max as nat,
            ),
        decreases len - i,
    {
        let c = text[i];
        assert(text@.skip(i as int)[0] == c);
        if c < ZERO || c > NINE {
            return Err(IntErrorKind::InvalidDigit);
        }
        let next = acc * 10 + (c - ZERO) as u32;
        if next > max {
            return Err(IntErrorKind::PosOverflow);
        }
        assert(text@.skip(i as int).drop_first() =~= text@.skip(i + 1));
        acc = next;
        i = i + 1;
    }
    Ok(acc)
}

/// The numeric argument of command word `text`, whose name ends at `end`.
fn read_number(text: &[u8], end: usize, max: u32) -> (r: Result<u32, CommandError>)
    requires
        is_name_end(text@, end as int),
        max <= 65535,
    ensures
        match r {
            Ok(v) => numeric_argument(argument(text@), max as nat) == Ok::<nat, CommandError>(v as nat) && v <= max,
            Err(e) => numeric_argument(argument(text@), max as nat) == Err::<nat, CommandError>(e),
        },
{
    proof {
        lemma_name_end(text@, end as int);
    }
    if end == text.len() {
        return Err(CommandError::MissingArgument);
    }
    match parse_decimal(text, end + 1, max) {
        Ok(v) => Ok(v),
        Err(k) => Err(CommandError::BadNumber(k)),
    }
}

/// The `hex` command with the argument of command word `text`, whose name ends at `end`.
fn read_hex(text: &[u8], end: usize) -> (r: Result<Command, CommandError>)
    requires
        is_name_end(text@, end as int),
    ensures
        result_view(r) == hex_argument(argument(text@)),
{
    proof {
        lemma_name_end(text@, end as int);
    }
    if end == text.len() {
        return Err(CommandError::MissingArgument);
    }
    let arg = slice_subrange(text, end + 1, text.len());
    assert(arg@ =~= text@.skip(end + 1));
    match hex_decode(arg) {
        Some(data) => Ok(Command::Hex(data)),
        None => Err(CommandError::BadHex),
    }
}

/// The command without argument that the name of `text` names, if any.
fn fixed(text: &[u8], end: usize) -> (r: Option<Command>)
    requires
        end <= text@.len(),
    ensures
        match r {
            Some(c) => fixed_command(text@.take(end as int)) == Some(c.deep_view()),
            None => fixed_command(text@.take(end as int)) is None,
        },
{
    reveal(fixed_command);
    if name_is(text, end, "info") {
        return Some(Command::Info);
    }
    if name_is(text, end, "get") {
        return Some(Command::Dump);
    }
    if name_is(text, end, "effect-off") {
        return Some(Command::Apply(Setting::EffectOff));
    }
    if name_is(text, end, "effect-bg") {
        return Some(Command::Apply(Setting::EffectBg));
    }
    if name_is(text, end, "effect-track") {
        return Some(Command::Apply(Setting::EffectTrack));
    }
    if name_is(text, end, "hdr-off") {
        return Some(Command::Apply(Setting::HdrOff));
    }
    if name_is(text, end, "hdr-on") {
        return Some(Command::Apply(Setting::HdrOn));
    }
    if name_is(text, end, "face-ae-off") {
        return Some(Command::Apply(Setting::FaceAeOff));
    }
    if name_is(text, end, "face-ae-on") {
        return Some(Command::Apply(Setting::FaceAeOn));
    }
    if name_is(text, end, "angle-65") {
        return Some(Command::Apply(Setting::Angle65));
    }
    if name_is(text, end, "angle-78") {
        return Some(Command::Apply(Setting::Angle78));
    }
    if name_is(text, end, "angle-85") {
        return Some(Command::Apply(Setting::Angle85));
    }
    if name_is(text, end, "bg-solid") {
        return Some(Command::Apply(Setting::BgSolid));
    }
    if name_is(text, end, "bg-solid!") {
        return Some(Command::ApplyNow(Setting::BgSolid));
    }
    if name_is(text, end, "bg-bitmap") {
        return Some(Command::Apply(Setting::BgBitmap));
    }
    if name_is(text, end, "bg-bitmap!") {
        return Some(Command::ApplyNow(Setting::BgBitmap));
    }
    if name_is(text, end, "bg-blur") {
        return Some(Command::Apply(Setting::BgBlur));
    }
    if name_is(text, end, "bg-blur!") {
        return Some(Command::ApplyNow(Setting::BgBlur));
    }
    if name_is(text, end, "button-default") {
        return Some(Command::Apply(Setting::ButtonDefault));
    }
    if name_is(text, end, "button-rotate") {
        return Some(Command::Apply(Setting::ButtonRotate));
    }
    if name_is(text, end, "noise-reduction-off") {
        return Some(Command::Apply(Setting::NoiseReductionOff));
    }
    if name_is(text, end, "noise-reduction-on") {
        return Some(Command::Apply(Setting::NoiseReductionOn));
    }
    if name_is(text, end, "bg-solid-blue") {
        return Some(Command::Apply(Setting::BgSolidBlue));
    }
    if name_is(text, end, "bg-solid-blue!") {
        return Some(Command::ApplyNow(Setting::BgSolidBlue));
    }
    if name_is(text, end, "bg-solid-green") {
        return Some(Command::Apply(Setting::BgSolidGreen));
    }
    if name_is(text, end, "bg-solid-green!") {
        return Some(Command::ApplyNow(Setting::BgSolidGreen));
    }
    if name_is(text, end, "bg-solid-red") {
        return Some(Command::Apply(Setting::BgSolidRed));
    }
    if name_is(text, end, "bg-solid-red!") {
        return Some(Command::ApplyNow(Setting::BgSolidRed));
    }
    if name_is(text, end, "bg-solid-black") {
        return Some(Command::Apply(Setting::BgSolidBlack));
    }
    if name_is(text, end, "bg-solid-black!") {
        return Some(Command::ApplyNow(Setting::BgSolidBlack));
    }
    if name_is(text, end, "bg-solid-white") {
        return Some(Command::Apply(Setting::BgSolidWhite));
    }
    if name_is(text, end, "bg-solid-white!") {
        return Some(Command::ApplyNow(Setting::BgSolidWhite));
    }
    if name_is(text, end, "auto-frame-group") {
        return Some(Command::Apply(Setting::AutoFrameGroup));
    }
    if name_is(text, end, "auto-frame-group!") {
        return Some(Command::ApplyNow(Setting::AutoFrameGroup));
    }
    if name_is(text, end, "auto-frame-face") {
        return Some(Command::Apply(Setting::AutoFrameFace));
    }
    if name_is(text, end, "auto-frame-face!") {
        return Some(Command::ApplyNow(Setting::AutoFrameFace));
    }
    if name_is(text, end, "auto-frame-body") {
        return Some(Command::Apply(Setting::AutoFrameBody));
    }
    if name_is(text, end, "auto-frame-body!") {
        return Some(Command::ApplyNow(Setting::AutoFrameBody));
    }
    None
}

/// The numeric command that the name of `text` names, with its argument, if any.
fn numeric(text: &[u8], end: usize) -> (r: Option<Result<Command, CommandError>>)
    requires
        is_name_end(text@, end as int),
    ensures
        match r {
            Some(c) => numeric_command(text@.take(end as int), argument(text@)) == Some(result_view(c)),
            None => numeric_command(text@.take(end as int), argument(text@)) is None,
        },
{
    reveal(numeric_command);
    if name_is(text, end, "bg-blur-level") {
        return Some(
            match read_number(text, end, 255) {
                Ok(v) => Ok(Command::Apply(Setting::BlurLevel(v as u8))),
                Err(e) => Err(e),
            },
        );
    }
    if name_is(text, end, "bg-blur-leve") {
        return Some(
            match read_number(text, end, 255) {
                Ok(v) => Ok(Command::Apply(Setting::BlurLevel(v as u8))),
                Err(e) => Err(e),
            },
        );
    }
    if name_is(text, end, "bg-blur-level!") {
        return Some(
            match read_number(text, end, 255) {
                Ok(v) => Ok(Command::ApplyNow(Setting::BlurLevel(v as u8))),
                Err(e) => Err(e),
            },
        );
    }
    if name_is(text, end, "bg-bitmap-n") {
        return Some(
            match read_number(text, end, 65535) {
                Ok(v) => Ok(Command::Apply(Setting::BgBitmapN(v as u16))),
                Err(e) => Err(e),
            },
        );
    }
    if name_is(text, end, "bg-bitmap-n!") {
        return Some(
            match read_number(text, end, 65535) {
                Ok(v) => Ok(Command::ApplyNow(Setting::BgBitmapN(v as u16))),
                Err(e) => Err(e),
            },
        );
    }
    if name_is(text, end, "sleep") {
        return Some(
            match read_number(text, end, 65535) {
                Ok(v) => Ok(Command::Apply(Setting::Sleep(v as u16))),
                Err(e) => Err(e),
            },
        );
    }
    None
}

/// The command that the word `text` names, or why it names none.
pub fn cmd(text: &str) -> (r: Result<Command, CommandError>)
    ensures
        result_view(r) == parse_command(text.spec_bytes()),
{
    let bytes = text.as_bytes();
    let end = find_name_end(bytes);
    if let Some(c) = fixed(bytes, end) {
        return Ok(c);
    }
    if let Some(r) = numeric(bytes, end) {
        return r;
    }
    if name_is(bytes, end, "hex") {
        return read_hex(bytes, end);
    }
    Err(CommandError::Unrecognized { name_len: end })
}

/// Whether command `c` can be sent: the bytes of `hex` must fit one frame.
pub open spec fn command_fits(c: CommandView) -> bool {
    match c {
        CommandView::Hex(data) => data.len() <= FRAME_LEN,
        _ => true,
    }
}

/// The steps of command `c`.
pub open spec fn command_plan(c: CommandView) -> Seq<StepView> {
    match c {
        CommandView::Info => seq![StepView::Info],
        CommandView::Dump => seq![dump_step()],
        CommandView::Apply(s) => setting_plan(s),
        CommandView::ApplyNow(s) => now_plan(s),
        CommandView::Hex(data) => seq![write_step(frame(data, seq![]))],
    }
}

impl Command {
    /// Whether this command can be sent: the bytes of `hex` must fit one frame.
    pub fn fits(&self) -> (b: bool)
        ensures
            b == command_fits(self.deep_view()),
    {
        match self {
            Command::Hex(data) => data.len() <= FRAME_LEN,
            _ => true,
        }
    }
}

impl Camera {
    /// The steps of command `c`.
    pub fn plan(&self, c: &Command) -> (plan: Vec<Step>)
        requires
            command_fits(c.deep_view()),
        ensures
            plan.deep_view() == command_plan(c.deep_view()),
    {
        match c {
            Command::Info => self.info(),
            Command::Dump => self.dump(),
            Command::Apply(s) => self.apply(s),
            Command::ApplyNow(s) => self.apply_now(s),
            Command::Hex(data) => self.send_cmd_66(data.as_slice()),
        }
    }
}

/// The bytes of command word `w`.
pub open spec fn word_bytes(w: String) -> Seq<u8> {
    encode_utf8(w@)
}

/// The commands that words `words` name, in order, up to the first word that
/// names none, and why that word names none.
pub open spec fn parse_words(words: Seq<Seq<u8>>) -> (Seq<CommandView>, Option<CommandError>)
    decreases words.len(),
{
    if words.len() == 0 {
        (seq![], None)
    } else {
        match parse_command(words[0]) {
            Err(e) => (seq![], Some(e)),
            Ok(c) => {
                let rest = parse_words(words.drop_first());
                (seq![c] + rest.0, rest.1)
            },
        }
    }
}

/// The commands that the command line words `words` name, in the order they
/// are to run, up to the first word that names none, and why that word names
/// none: the words after it are not read.
pub fn cmds(words: &[String]) -> (r: (Vec<Command>, Option<CommandError>))
    ensures
        (r.0.deep_view(), r.1) == parse_words(words@.map_values(|w: String| word_bytes(w))),
{
    let ghost all = words@.map_values(|w: String| word_bytes(w));
    let mut commands: Vec<Command> = Vec::new();
    let mut i: usize = 0;
    assert(all.skip(0) =~= all);
    assert(commands.deep_view() =~= seq![]);
    while i < words.len()
        invariant
            i <= words@.len(),
            all == words@.map_values(|w: String| word_bytes(w)),
            parse_words(all) == (
                commands.deep_view() + parse_words(all.skip(i as int)).0,
                parse_words(all.skip(i as int)).1,
            ),
        decreases words@.len() - i,
    {
        let word = words[i].as_str();
        let parsed = cmd(word);
        assert(all.skip(i as int)[0] == word.spec_bytes());
        assert(all.skip(i as int).drop_first() =~= all.skip(i + 1));
        match parsed {
            Ok(c) => {
                let ghost before = commands.deep_view();
                commands.push(c);
                assert(commands.deep_view() =~= before + seq![c.deep_view()]);
                assert(before + (seq![c.deep_view()] + parse_words(all.skip(i + 1)).0) =~= commands.deep_view()
                    + parse_words(all.skip(i + 1)).0);
            },
            Err(e) => {
                assert(commands.deep_view() + seq![] =~= commands.deep_view());
                return (commands, Some(e));
            },
        }
        i = i + 1;
    }
    assert(all.skip(i as int) =~= seq![]);
    assert(commands.deep_view() + seq![] =~= commands.deep_view());
    (commands, None)
}

} // verus!
