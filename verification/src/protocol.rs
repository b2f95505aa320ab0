//! The byte commands of the camera's settings unit and the frames that carry them.
use vstd::prelude::*;

verus! {

/// Every settings frame written to the camera is this many bytes long.
pub const FRAME_LEN: usize = 60;

/// The UVC extension unit that takes the settings commands.
pub const SETTINGS_UNIT: u8 = 0x6;

/// The control selector of that unit that takes the settings commands.
pub const SETTINGS_SELECTOR: u8 = 0x6;

/// The highest background blur level the camera accepts.
pub const MAX_BLUR_LEVEL: u8 = 64;

pub const CAMERA_EFFECT_OFF: [u8; 3] = [0x0, 0x01, 0x0];
pub const CAMERA_EFFECT_BG: [u8; 3] = [0x0, 0x01, 0x1];
pub const CAMERA_EFFECT_TRACK: [u8; 3] = [0x0, 0x01, 0x2];

pub const CAMERA_HDR_OFF: [u8; 3] = [0x01, 0x01, 0x00];
pub const CAMERA_HDR_ON: [u8; 3] = [0x01, 0x01, 0x01];

pub const CAMERA_FACE_AE_OFF: [u8; 3] = [0x03, 0x01, 0x00];
pub const CAMERA_FACE_AE_ON: [u8; 3] = [0x03, 0x01, 0x01];

pub const CAMERA_ANGLE_65: [u8; 3] = [0x04, 0x01, 0x02];
pub const CAMERA_ANGLE_78: [u8; 3] = [0x01, 0x01, 0x01];
pub const CAMERA_ANGLE_85: [u8; 3] = [0x01, 0x01, 0x00];

pub const CAMERA_BG_SOLID: [u8; 3] = [0x05, 0x01, 0x01];
pub const CAMERA_BG_BITMAP: [u8; 3] = [0x05, 0x01, 0x11];
pub const CAMERA_BG_BLUR: [u8; 3] = [0x05, 0x01, 0x12];

/// Followed by one byte: the blur level.
pub const CAMERA_BG_BLUR_LEVEL: [u8; 2] = [0x06, 0x01];

pub const CAMERA_BUTTON_DEFAULT: [u8; 3] = [0x07, 0x01, 0x00];
pub const CAMERA_BUTTON_ROTATE: [u8; 3] = [0x07, 0x01, 0x01];

pub const CAMERA_NOISE_REDUCTION_OFF: [u8; 3] = [0x0a, 0x01, 0x00];
pub const CAMERA_NOISE_REDUCTION_ON: [u8; 3] = [0x0a, 0x01, 0x01];

pub const CAMERA_BG_SOLID_BLUE: [u8; 3] = [0x10, 0x01, 0x00];
pub const CAMERA_BG_SOLID_GREEN: [u8; 3] = [0x10, 0x01, 0x01];
pub const CAMERA_BG_SOLID_RED: [u8; 3] = [0x10, 0x01, 0x02];
pub const CAMERA_BG_SOLID_BLACK: [u8; 3] = [0x10, 0x01, 0x03];
pub const CAMERA_BG_SOLID_WHITE: [u8; 3] = [0x10, 0x01, 0x04];

pub const CAMERA_AUTO_FRAME_GROUP: [u8; 4] = [0x0d, 0x02, 0x00, 0xff];
pub const CAMERA_AUTO_FRAME_FACE: [u8; 4] = [0x0d, 0x02, 0x01, 0x00];
pub const CAMERA_AUTO_FRAME_BODY: [u8; 4] = [0x0d, 0x02, 0x01, 0x01];

/// Followed by two bytes, big endian: the number of the background image.
pub const CAMERA_BG_BITMAP_N: [u8; 2] = [0x0e, 0x02];

/// Followed by two bytes, little endian: the auto-sleep delay in seconds.
pub const CAMERA_SLEEP_S: [u8; 2] = [0x0b, 0x02];

/// The frame that carries command bytes `cmd` and parameter bytes `param`:
/// the two in that order, then zeros up to the frame length.
pub open spec fn frame(cmd: Seq<u8>, param: Seq<u8>) -> Seq<u8> {
    cmd + param + Seq::new((FRAME_LEN - cmd.len() - param.len()) as nat, |_i: int| 0u8)
}

/// The two bytes of `n`, least significant first.
pub open spec fn le_bytes(n: u16) -> Seq<u8> {
    seq![(n % 256) as u8, (n / 256) as u8]
}

/// The two bytes of `n`, most significant first.
pub open spec fn be_bytes(n: u16) -> Seq<u8> {
    seq![(n / 256) as u8, (n % 256) as u8]
}

/// The number that two bytes encode, least significant first.
pub open spec fn from_le(b0: u8, b1: u8) -> nat {
    (b0 + 256 * b1) as nat
}

/// The number that two bytes encode, most significant first.
pub open spec fn from_be(b0: u8, b1: u8) -> nat {
    (256 * b0 + b1) as nat
}

/// The two bytes of `n`, least significant first.
pub fn to_le_bytes(n: u16) -> (b: [u8; 2])
    ensures
        b@ == le_bytes(n),
{
    [(n % 256) as u8, (n / 256) as u8]
}

/// The two bytes of `n`, most significant first.
pub fn to_be_bytes(n: u16) -> (b: [u8; 2])
    ensures
        b@ == be_bytes(n),
{
    [(n / 256) as u8, (n % 256) as u8]
}

/// The number that two bytes encode, least significant first.
pub fn from_le_bytes(b: [u8; 2]) -> (n: u16)
    ensures
        n == from_le(b[0], b[1]),
{
    b[0] as u16 + 256 * (b[1] as u16)
}

/// The bytes `cmd` then `param`, zero-filled up to the frame length.
pub fn fill_frame(cmd: &[u8], param: &[u8]) -> (data: Vec<u8>)
    requires
        cmd@.len() + param@.len() <= FRAME_LEN,
    ensures
        data@ == frame(cmd@, param@),
{
    let mut data: Vec<u8> = Vec::new();
    let mut i: usize = 0;
    while i < cmd.len()
        invariant
            i <= cmd@.len(),
            data@ == cmd@.take(i as int),
        decreases cmd@.len() - i,
    {
        data.push(cmd[i]);
        i = i + 1;
        assert(data@ == cmd@.take(i as int));
    }
    let mut j: usize = 0;
    while j < param.len()
        invariant
            i == cmd@.len(),
            j <= param@.len(),
            data@ == cmd@ + param@.take(j as int),
        decreases param@.len() - j,
    {
        data.push(param[j]);
        j = j + 1;
        assert(data@ == cmd@ + param@.take(j as int));
    }
    assert(param@.take(j as int) == param@);
    let ghost filled = data@;
    while data.len() < FRAME_LEN
        invariant
            filled == cmd@ + param@,
            filled.len() <= data@.len() <= FRAME_LEN,
            data@.take(filled.len() as int) == filled,
            forall|k: int| filled.len() <= k < data@.len() ==> data@[k] == 0u8,
        decreases FRAME_LEN - data@.len(),
    {
        data.push(0u8);
    }
    assert(data@ == frame(cmd@, param@));
    data
}

} // verus!
