//! The command names of the vocabulary, byte by byte, and what each names.
use vstd::prelude::*;
use vstd::string::StringSliceAdditionalSpecFns;
use vstd::utf8::{is_ascii_chars, is_ascii_chars_encode_utf8};

use crate::camera::Setting;
use crate::command::{
    CommandError, CommandView, EQUALS, argument, fixed_command, hex_bytes, is_hex_text, is_name_end,
    lemma_name_end, name_end, numeric_argument, numeric_command, parse_command, parse_unsigned,
};

verus! {

/// The byte `!`, which ends the name of a command that makes its setting take effect.
pub const BANG: u8 = 0x21;

/// A word made of a name without `=`, then `=`, then `t`: its name is that
/// name and its argument `t`.
pub proof fn lemma_word_split(n: Seq<u8>, t: Seq<u8>)
    requires
        forall|j: int| 0 <= j < n.len() ==> #[trigger] n[j] != EQUALS,
    ensures
        name_end(n + seq![EQUALS] + t) == n.len(),
        (n + seq![EQUALS] + t).take(n.len() as int) == n,
        argument(n + seq![EQUALS] + t) == Some(t),
{
    let w = n + seq![EQUALS] + t;
    assert forall|j: int| 0 <= j < n.len() implies w[j] != EQUALS by {
        assert(w[j] == n[j]);
    }
    assert(w[n.len() as int] == EQUALS);
    assert(is_name_end(w, n.len() as int));
    lemma_name_end(w, n.len() as int);
    assert(w.take(n.len() as int) =~= n);
    assert(w.skip((n.len() + 1) as int) =~= t);
}

/// A word that is a name without `=`: its name is all of it and it has no argument.
pub proof fn lemma_word_name_only(n: Seq<u8>)
    requires
        forall|j: int| 0 <= j < n.len() ==> #[trigger] n[j] != EQUALS,
    ensures
        name_end(n) == n.len(),
        n.take(n.len() as int) == n,
        argument(n) is None,
{
    assert(is_name_end(n, n.len() as int));
    lemma_name_end(n, n.len() as int);
    assert(n.take(n.len() as int) =~= n);
}

/// The bytes of the command name `info`, one by one.
pub proof fn lemma_bytes_info()
    ensures
        "info".spec_bytes().len() == 4,
        "info".spec_bytes()[0] == 0x69u8,
        "info".spec_bytes()[1] == 0x6eu8,
        "info".spec_bytes()[2] == 0x66u8,
        "info".spec_bytes()[3] == 0x6fu8,
        forall|j: int| 0 <= j < 4 ==> #[trigger] "info".spec_bytes()[j] != EQUALS,
{
    reveal_strlit("info");
    assert(is_ascii_chars("info"@));
    is_ascii_chars_encode_utf8("info"@);
    assert forall|j: int| 0 <= j < 4 implies #[trigger] "info".spec_bytes()[j] != EQUALS by {
        assert(j == 0 || j == 1 || j == 2 || j == 3);
    }
}

/// The bytes of the command name `get`, one by one.
pub proof fn lemma_bytes_get()
    ensures
        "get".spec_bytes().len() == 3,
        "get".spec_bytes()[0] == 0x67u8,
        "get".spec_bytes()[1] == 0x65u8,
        "get".spec_bytes()[2] == 0x74u8,
        forall|j: int| 0 <= j < 3 ==> #[trigger] "get".spec_bytes()[j] != EQUALS,
{
    reveal_strlit("get");
    assert(is_ascii_chars("get"@));
    is_ascii_chars_encode_utf8("get"@);
    assert forall|j: int| 0 <= j < 3 implies #[trigger] "get".spec_bytes()[j] != EQUALS by {
        assert(j == 0 || j == 1 || j == 2);
    }
}

/// The bytes of the command name `effect-off`, one by one.
pub proof fn lemma_bytes_effect_off()
    ensures
        "effect-off".spec_bytes().len() == 10,
        "effect-off".spec_bytes()[0] == 0x65u8,
        "effect-off".spec_bytes()[1] == 0x66u8,
        "effect-off".spec_bytes()[2] == 0x66u8,
        "effect-off".spec_bytes()[3] == 0x65u8,
        "effect-off".spec_bytes()[4] == 0x63u8,
        "effect-off".spec_bytes()[5] == 0x74u8,
        "effect-off".spec_bytes()[6] == 0x2du8,
        "effect-off".spec_bytes()[7] == 0x6fu8,
        "effect-off".spec_bytes()[8] == 0x66u8,
        "effect-off".spec_bytes()[9] == 0x66u8,
        forall|j: int| 0 <= j < 10 ==> #[trigger] "effect-off".spec_bytes()[j] != EQUALS,
{
    reveal_strlit("effect-off");
    assert(is_ascii_chars("effect-off"@));
    is_ascii_chars_encode_utf8("effect-off"@);
    assert forall|j: int| 0 <= j < 10 implies #[trigger] "effect-off".spec_bytes()[j] != EQUALS by {
        assert(j == 0 || j == 1 || j == 2 || j == 3 || j == 4 || j == 5 || j == 6 || j == 7 || j == 8 || j == 9);
    }
}

/// The bytes of the command name `effect-bg`, one by one.
pub proof fn lemma_bytes_effect_bg()
    ensures
        "effect-bg".spec_bytes().len() == 9,
        "effect-bg".spec_bytes()[0] == 0x65u8,
        "effect-bg".spec_bytes()[1] == 0x66u8,
        "effect-bg".spec_bytes()[2] == 0x66u8,
        "effect-bg".spec_bytes()[3] == 0x65u8,
        "effect-bg".spec_bytes()[4] == 0x63u8,
        "effect-bg".spec_bytes()[5] == 0x74u8,
        "effect-bg".spec_bytes()[6] == 0x2du8,
        "effect-bg".spec_bytes()[7] == 0x62u8,
        "effect-bg".spec_bytes()[8] == 0x67u8,
        forall|j: int| 0 <= j < 9 ==> #[trigger] "effect-bg".spec_bytes()[j] != EQUALS,
{
    reveal_strlit("effect-bg");
    assert(is_ascii_chars("effect-bg"@));
    is_ascii_chars_encode_utf8("effect-bg"@);
    assert forall|j: int| 0 <= j < 9 implies #[trigger] "effect-bg".spec_bytes()[j] != EQUALS by {
        assert(j == 0 || j == 1 || j == 2 || j == 3 || j == 4 || j == 5 || j == 6 || j == 7 || j == 8);
    }
}

/// The bytes of the command name `effect-track`, one by one.
pub proof fn lemma_bytes_effect_track()
    ensures
        "effect-track".spec_bytes().len() == 12,
        "effect-track".spec_bytes()[0] == 0x65u8,
        "effect-track".spec_bytes()[1] == 0x66u8,
        "effect-track".spec_bytes()[2] == 0x66u8,
        "effect-track".spec_bytes()[3] == 0x65u8,
        "effect-track".spec_bytes()[4] == 0x63u8,
        "effect-track".spec_bytes()[5] == 0x74u8,
        "effect-track".spec_bytes()[6] == 0x2du8,
        "effect-track".spec_bytes()[7] == 0x74u8,
        "effect-track".spec_bytes()[8] == 0x72u8,
        "effect-track".spec_bytes()[9] == 0x61u8,
        "effect-track".spec_bytes()[10] == 0x63u8,
        "effect-track".spec_bytes()[11] == 0x6bu8,
        forall|j: int| 0 <= j < 12 ==> #[trigger] "effect-track".spec_bytes()[j] != EQUALS,
{
    reveal_strlit("effect-track");
    assert(is_ascii_chars("effect-track"@));
    is_ascii_chars_encode_utf8("effect-track"@);
    assert forall|j: int| 0 <= j < 12 implies #[trigger] "effect-track".spec_bytes()[j] != EQUALS by {
        assert(j == 0 || j == 1 || j == 2 || j == 3 || j == 4 || j == 5 || j == 6 || j == 7 || j == 8 || j == 9 || j == 10 || j == 11);
    }
}

/// The bytes of the command name `hdr-off`, one by one.
pub proof fn lemma_bytes_hdr_off()
    ensures
        "hdr-off".spec_bytes().len() == 7,
        "hdr-off".spec_bytes()[0] == 0x68u8,
        "hdr-off".spec_bytes()[1] == 0x64u8,
        "hdr-off".spec_bytes()[2] == 0x72u8,
        "hdr-off".spec_bytes()[3] == 0x2du8,
        "hdr-off".spec_bytes()[4] == 0x6fu8,
        "hdr-off".spec_bytes()[5] == 0x66u8,
        "hdr-off".spec_bytes()[6] == 0x66u8,
        forall|j: int| 0 <= j < 7 ==> #[trigger] "hdr-off".spec_bytes()[j] != EQUALS,
{
    reveal_strlit("hdr-off");
    assert(is_ascii_chars("hdr-off"@));
    is_ascii_chars_encode_utf8("hdr-off"@);
    assert forall|j: int| 0 <= j < 7 implies #[trigger] "hdr-off".spec_bytes()[j] != EQUALS by {
        assert(j == 0 || j == 1 || j == 2 || j == 3 || j == 4 || j == 5 || j == 6);
    }
}

/// The bytes of the command name `hdr-on`, one by one.
pub proof fn lemma_bytes_hdr_on()
    ensures
        "hdr-on".spec_bytes().len() == 6,
        "hdr-on".spec_bytes()[0] == 0x68u8,
        "hdr-on".spec_bytes()[1] == 0x64u8,
        "hdr-on".spec_bytes()[2] == 0x72u8,
        "hdr-on".spec_bytes()[3] == 0x2du8,
        "hdr-on".spec_bytes()[4] == 0x6fu8,
        "hdr-on".spec_bytes()[5] == 0x6eu8,
        forall|j: int| 0 <= j < 6 ==> #[trigger] "hdr-on".spec_bytes()[j] != EQUALS,
{
    reveal_strlit("hdr-on");
    assert(is_ascii_chars("hdr-on"@));
    is_ascii_chars_encode_utf8("hdr-on"@);
    assert forall|j: int| 0 <= j < 6 implies #[trigger] "hdr-on".spec_bytes()[j] != EQUALS by {
        assert(j == 0 || j == 1 || j == 2 || j == 3 || j == 4 || j == 5);
    }
}

/// The bytes of the command name `face-ae-off`, one by one.
pub proof fn lemma_bytes_face_ae_off()
    ensures
        "face-ae-off".spec_bytes().len() == 11,
        "face-ae-off".spec_bytes()[0] == 0x66u8,
        "face-ae-off".spec_bytes()[1] == 0x61u8,
        "face-ae-off".spec_bytes()[2] == 0x63u8,
        "face-ae-off".spec_bytes()[3] == 0x65u8,
        "face-ae-off".spec_bytes()[4] == 0x2du8,
        "face-ae-off".spec_bytes()[5] == 0x61u8,
        "face-ae-off".spec_bytes()[6] == 0x65u8,
        "face-ae-off".spec_bytes()[7] == 0x2du8,
        "face-ae-off".spec_bytes()[8] == 0x6fu8,
        "face-ae-off".spec_bytes()[9] == 0x66u8,
        "face-ae-off".spec_bytes()[10] == 0x66u8,
        forall|j: int| 0 <= j < 11 ==> #[trigger] "face-ae-off".spec_bytes()[j] != EQUALS,
{
    reveal_strlit("face-ae-off");
    assert(is_ascii_chars("face-ae-off"@));
    is_ascii_chars_encode_utf8("face-ae-off"@);
    assert forall|j: int| 0 <= j < 11 implies #[trigger] "face-ae-off".spec_bytes()[j] != EQUALS by {
        assert(j == 0 || j == 1 || j == 2 || j == 3 || j == 4 || j == 5 || j == 6 || j == 7 || j == 8 || j == 9 || j == 10);
    }
}

/// The bytes of the command name `face-ae-on`, one by one.
pub proof fn lemma_bytes_face_ae_on()
    ensures
        "face-ae-on".spec_bytes().len() == 10,
        "face-ae-on".spec_bytes()[0] == 0x66u8,
        "face-ae-on".spec_bytes()[1] == 0x61u8,
        "face-ae-on".spec_bytes()[2] == 0x63u8,
        "face-ae-on".spec_bytes()[3] == 0x65u8,
        "face-ae-on".spec_bytes()[4] == 0x2du8,
        "face-ae-on".spec_bytes()[5] == 0x61u8,
        "face-ae-on".spec_bytes()[6] == 0x65u8,
        "face-ae-on".spec_bytes()[7] == 0x2du8,
        "face-ae-on".spec_bytes()[8] == 0x6fu8,
        "face-ae-on".spec_bytes()[9] == 0x6eu8,
        forall|j: int| 0 <= j < 10 ==> #[trigger] "face-ae-on".spec_bytes()[j] != EQUALS,
{
    reveal_strlit("face-ae-on");
    assert(is_ascii_chars("face-ae-on"@));
    is_ascii_chars_encode_utf8("face-ae-on"@);
    assert forall|j: int| 0 <= j < 10 implies #[trigger] "face-ae-on".spec_bytes()[j] != EQUALS by {
        assert(j == 0 || j == 1 || j == 2 || j == 3 || j == 4 || j == 5 || j == 6 || j == 7 || j == 8 || j == 9);
    }
}

/// The bytes of the command name `angle-65`, one by one.
pub proof fn lemma_bytes_angle_65()
    ensures
        "angle-65".spec_bytes().len() == 8,
        "angle-65".spec_bytes()[0] == 0x61u8,
        "angle-65".spec_bytes()[1] == 0x6eu8,
        "angle-65".spec_bytes()[2] == 0x67u8,
        "angle-65".spec_bytes()[3] == 0x6cu8,
        "angle-65".spec_bytes()[4] == 0x65u8,
        "angle-65".spec_bytes()[5] == 0x2du8,
        "angle-65".spec_bytes()[6] == 0x36u8,
        "angle-65".spec_bytes()[7] == 0x35u8,
        forall|j: int| 0 <= j < 8 ==> #[trigger] "angle-65".spec_bytes()[j] != EQUALS,
{
    reveal_strlit("angle-65");
    assert(is_ascii_chars("angle-65"@));
    is_ascii_chars_encode_utf8("angle-65"@);
    assert forall|j: int| 0 <= j < 8 implies #[trigger] "angle-65".spec_bytes()[j] != EQUALS by {
        assert(j == 0 || j == 1 || j == 2 || j == 3 || j == 4 || j == 5 || j == 6 || j == 7);
    }
}

/// The bytes of the command name `angle-78`, one by one.
pub proof fn lemma_bytes_angle_78()
    ensures
        "angle-78".spec_bytes().len() == 8,
        "angle-78".spec_bytes()[0] == 0x61u8,
        "angle-78".spec_bytes()[1] == 0x6eu8,
        "angle-78".spec_bytes()[2] == 0x67u8,
        "angle-78".spec_bytes()[3] == 0x6cu8,
        "angle-78".spec_bytes()[4] == 0x65u8,
        "angle-78".spec_bytes()[5] == 0x2du8,
        "angle-78".spec_bytes()[6] == 0x37u8,
        "angle-78".spec_bytes()[7] == 0x38u8,
        forall|j: int| 0 <= j < 8 ==> #[trigger] "angle-78".spec_bytes()[j] != EQUALS,
{
    reveal_strlit("angle-78");
    assert(is_ascii_chars("angle-78"@));
    is_ascii_chars_encode_utf8("angle-78"@);
    assert forall|j: int| 0 <= j < 8 implies #[trigger] "angle-78".spec_bytes()[j] != EQUALS by {
        assert(j == 0 || j == 1 || j == 2 || j == 3 || j == 4 || j == 5 || j == 6 || j == 7);
    }
}

/// The bytes of the command name `angle-85`, one by one.
pub proof fn lemma_bytes_angle_85()
    ensures
        "angle-85".spec_bytes().len() == 8,
        "angle-85".spec_bytes()[0] == 0x61u8,
        "angle-85".spec_bytes()[1] == 0x6eu8,
        "angle-85".spec_bytes()[2] == 0x67u8,
        "angle-85".spec_bytes()[3] == 0x6cu8,
        "angle-85".spec_bytes()[4] == 0x65u8,
        "angle-85".spec_bytes()[5] == 0x2du8,
        "angle-85".spec_bytes()[6] == 0x38u8,
        "angle-85".spec_bytes()[7] == 0x35u8,
        forall|j: int| 0 <= j < 8 ==> #[trigger] "angle-85".spec_bytes()[j] != EQUALS,
{
    reveal_strlit("angle-85");
    assert(is_ascii_chars("angle-85"@));
    is_ascii_chars_encode_utf8("angle-85"@);
    assert forall|j: int| 0 <= j < 8 implies #[trigger] "angle-85".spec_bytes()[j] != EQUALS by {
        assert(j == 0 || j == 1 || j == 2 || j == 3 || j == 4 || j == 5 || j == 6 || j == 7);
    }
}

/// The bytes of the command name `bg-solid`, one by one.
pub proof fn lemma_bytes_bg_solid()
    ensures
        "bg-solid".spec_bytes().len() == 8,
        "bg-solid".spec_bytes()[0] == 0x62u8,
        "bg-solid".spec_bytes()[1] == 0x67u8,
        "bg-solid".spec_bytes()[2] == 0x2du8,
        "bg-solid".spec_bytes()[3] == 0x73u8,
        "bg-solid".spec_bytes()[4] == 0x6fu8,
        "bg-solid".spec_bytes()[5] == 0x6cu8,
        "bg-solid".spec_bytes()[6] == 0x69u8,
        "bg-solid".spec_bytes()[7] == 0x64u8,
        forall|j: int| 0 <= j < 8 ==> #[trigger] "bg-solid".spec_bytes()[j] != EQUALS,
{
    reveal_strlit("bg-solid");
    assert(is_ascii_chars("bg-solid"@));
    is_ascii_chars_encode_utf8("bg-solid"@);
    assert forall|j: int| 0 <= j < 8 implies #[trigger] "bg-solid".spec_bytes()[j] != EQUALS by {
        assert(j == 0 || j == 1 || j == 2 || j == 3 || j == 4 || j == 5 || j == 6 || j == 7);
    }
}

/// The bytes of the command name `bg-solid!`, one by one.
pub proof fn lemma_bytes_bg_solid_now()
    ensures
        "bg-solid!".spec_bytes().len() == 9,
        "bg-solid!".spec_bytes()[0] == 0x62u8,
        "bg-solid!".spec_bytes()[1] == 0x67u8,
        "bg-solid!".spec_bytes()[2] == 0x2du8,
        "bg-solid!".spec_bytes()[3] == 0x73u8,
        "bg-solid!".spec_bytes()[4] == 0x6fu8,
        "bg-solid!".spec_bytes()[5] == 0x6cu8,
        "bg-solid!".spec_bytes()[6] == 0x69u8,
        "bg-solid!".spec_bytes()[7] == 0x64u8,
        "bg-solid!".spec_bytes()[8] == 0x21u8,
        forall|j: int| 0 <= j < 9 ==> #[trigger] "bg-solid!".spec_bytes()[j] != EQUALS,
{
    reveal_strlit("bg-solid!");
    assert(is_ascii_chars("bg-solid!"@));
    is_ascii_chars_encode_utf8("bg-solid!"@);
    assert forall|j: int| 0 <= j < 9 implies #[trigger] "bg-solid!".spec_bytes()[j] != EQUALS by {
        assert(j == 0 || j == 1 || j == 2 || j == 3 || j == 4 || j == 5 || j == 6 || j == 7 || j == 8);
    }
}

/// The bytes of the command name `bg-bitmap`, one by one.
pub proof fn lemma_bytes_bg_bitmap()
    ensures
        "bg-bitmap".spec_bytes().len() == 9,
        "bg-bitmap".spec_bytes()[0] == 0x62u8,
        "bg-bitmap".spec_bytes()[1] == 0x67u8,
        "bg-bitmap".spec_bytes()[2] == 0x2du8,
        "bg-bitmap".spec_bytes()[3] == 0x62u8,
        "bg-bitmap".spec_bytes()[4] == 0x69u8,
        "bg-bitmap".spec_bytes()[5] == 0x74u8,
        "bg-bitmap".spec_bytes()[6] == 0x6du8,
        "bg-bitmap".spec_bytes()[7] == 0x61u8,
        "bg-bitmap".spec_bytes()[8] == 0x70u8,
        forall|j: int| 0 <= j < 9 ==> #[trigger] "bg-bitmap".spec_bytes()[j] != EQUALS,
{
    reveal_strlit("bg-bitmap");
    assert(is_ascii_chars("bg-bitmap"@));
    is_ascii_chars_encode_utf8("bg-bitmap"@);
    assert forall|j: int| 0 <= j < 9 implies #[trigger] "bg-bitmap".spec_bytes()[j] != EQUALS by {
        assert(j == 0 || j == 1 || j == 2 || j == 3 || j == 4 || j == 5 || j == 6 || j == 7 || j == 8);
    }
}

/// The bytes of the command name `bg-bitmap!`, one by one.
pub proof fn lemma_bytes_bg_bitmap_now()
    ensures
        "bg-bitmap!".spec_bytes().len() == 10,
        "bg-bitmap!".spec_bytes()[0] == 0x62u8,
        "bg-bitmap!".spec_bytes()[1] == 0x67u8,
        "bg-bitmap!".spec_bytes()[2] == 0x2du8,
        "bg-bitmap!".spec_bytes()[3] == 0x62u8,
        "bg-bitmap!".spec_bytes()[4] == 0x69u8,
        "bg-bitmap!".spec_bytes()[5] == 0x74u8,
        "bg-bitmap!".spec_bytes()[6] == 0x6du8,
        "bg-bitmap!".spec_bytes()[7] == 0x61u8,
        "bg-bitmap!".spec_bytes()[8] == 0x70u8,
        "bg-bitmap!".spec_bytes()[9] == 0x21u8,
        forall|j: int| 0 <= j < 10 ==> #[trigger] "bg-bitmap!".spec_bytes()[j] != EQUALS,
{
    reveal_strlit("bg-bitmap!");
    assert(is_ascii_chars("bg-bitmap!"@));
    is_ascii_chars_encode_utf8("bg-bitmap!"@);
    assert forall|j: int| 0 <= j < 10 implies #[trigger] "bg-bitmap!".spec_bytes()[j] != EQUALS by {
        assert(j == 0 || j == 1 || j == 2 || j == 3 || j == 4 || j == 5 || j == 6 || j == 7 || j == 8 || j == 9);
    }
}

/// The bytes of the command name `bg-blur`, one by one.
pub proof fn lemma_bytes_bg_blur()
    ensures
        "bg-blur".spec_bytes().len() == 7,
        "bg-blur".spec_bytes()[0] == 0x62u8,
        "bg-blur".spec_bytes()[1] == 0x67u8,
        "bg-blur".spec_bytes()[2] == 0x2du8,
        "bg-blur".spec_bytes()[3] == 0x62u8,
        "bg-blur".spec_bytes()[4] == 0x6cu8,
        "bg-blur".spec_bytes()[5] == 0x75u8,
        "bg-blur".spec_bytes()[6] == 0x72u8,
        forall|j: int| 0 <= j < 7 ==> #[trigger] "bg-blur".spec_bytes()[j] != EQUALS,
{
    reveal_strlit("bg-blur");
    assert(is_ascii_chars("bg-blur"@));
    is_ascii_chars_encode_utf8("bg-blur"@);
    assert forall|j: int| 0 <= j < 7 implies #[trigger] "bg-blur".spec_bytes()[j] != EQUALS by {
        assert(j == 0 || j == 1 || j == 2 || j == 3 || j == 4 || j == 5 || j == 6);
    }
}

/// The bytes of the command name `bg-blur!`, one by one.
pub proof fn lemma_bytes_bg_blur_now()
    ensures
        "bg-blur!".spec_bytes().len() == 8,
        "bg-blur!".spec_bytes()[0] == 0x62u8,
        "bg-blur!".spec_bytes()[1] == 0x67u8,
        "bg-blur!".spec_bytes()[2] == 0x2du8,
        "bg-blur!".spec_bytes()[3] == 0x62u8,
        "bg-blur!".spec_bytes()[4] == 0x6cu8,
        "bg-blur!".spec_bytes()[5] == 0x75u8,
        "bg-blur!".spec_bytes()[6] == 0x72u8,
        "bg-blur!".spec_bytes()[7] == 0x21u8,
        forall|j: int| 0 <= j < 8 ==> #[trigger] "bg-blur!".spec_bytes()[j] != EQUALS,
{
    reveal_strlit("bg-blur!");
    assert(is_ascii_chars("bg-blur!"@));
    is_ascii_chars_encode_utf8("bg-blur!"@);
    assert forall|j: int| 0 <= j < 8 implies #[trigger] "bg-blur!".spec_bytes()[j] != EQUALS by {
        assert(j == 0 || j == 1 || j == 2 || j == 3 || j == 4 || j == 5 || j == 6 || j == 7);
    }
}

/// The bytes of the command name `button-default`, one by one.
pub proof fn lemma_bytes_button_default()
    ensures
        "button-default".spec_bytes().len() == 14,
        "button-default".spec_bytes()[0] == 0x62u8,
        "button-default".spec_bytes()[1] == 0x75u8,
        "button-default".spec_bytes()[2] == 0x74u8,
        "button-default".spec_bytes()[3] == 0x74u8,
        "button-default".spec_bytes()[4] == 0x6fu8,
        "button-default".spec_bytes()[5] == 0x6eu8,
        "button-default".spec_bytes()[6] == 0x2du8,
        "button-default".spec_bytes()[7] == 0x64u8,
        "button-default".spec_bytes()[8] == 0x65u8,
        "button-default".spec_bytes()[9] == 0x66u8,
        "button-default".spec_bytes()[10] == 0x61u8,
        "button-default".spec_bytes()[11] == 0x75u8,
        "button-default".spec_bytes()[12] == 0x6cu8,
        "button-default".spec_bytes()[13] == 0x74u8,
        forall|j: int| 0 <= j < 14 ==> #[trigger] "button-default".spec_bytes()[j] != EQUALS,
{
    reveal_strlit("button-default");
    assert(is_ascii_chars("button-default"@));
    is_ascii_chars_encode_utf8("button-default"@);
    assert forall|j: int| 0 <= j < 14 implies #[trigger] "button-default".spec_bytes()[j] != EQUALS by {
        assert(j == 0 || j == 1 || j == 2 || j == 3 || j == 4 || j == 5 || j == 6 || j == 7 || j == 8 || j == 9 || j == 10 || j == 11 || j == 12 || j == 13);
    }
}

/// The bytes of the command name `button-rotate`, one by one.
pub proof fn lemma_bytes_button_rotate()
    ensures
        "button-rotate".spec_bytes().len() == 13,
        "button-rotate".spec_bytes()[0] == 0x62u8,
        "button-rotate".spec_bytes()[1] == 0x75u8,
        "button-rotate".spec_bytes()[2] == 0x74u8,
        "button-rotate".spec_bytes()[3] == 0x74u8,
        "button-rotate".spec_bytes()[4] == 0x6fu8,
        "button-rotate".spec_bytes()[5] == 0x6eu8,
        "button-rotate".spec_bytes()[6] == 0x2du8,
        "button-rotate".spec_bytes()[7] == 0x72u8,
        "button-rotate".spec_bytes()[8] == 0x6fu8,
        "button-rotate".spec_bytes()[9] == 0x74u8,
        "button-rotate".spec_bytes()[10] == 0x61u8,
        "button-rotate".spec_bytes()[11] == 0x74u8,
        "button-rotate".spec_bytes()[12] == 0x65u8,
        forall|j: int| 0 <= j < 13 ==> #[trigger] "button-rotate".spec_bytes()[j] != EQUALS,
{
    reveal_strlit("button-rotate");
    assert(is_ascii_chars("button-rotate"@));
    is_ascii_chars_encode_utf8("button-rotate"@);
    assert forall|j: int| 0 <= j < 13 implies #[trigger] "button-rotate".spec_bytes()[j] != EQUALS by {
        assert(j == 0 || j == 1 || j == 2 || j == 3 || j == 4 || j == 5 || j == 6 || j == 7 || j == 8 || j == 9 || j == 10 || j == 11 || j == 12);
    }
}

/// The bytes of the command name `noise-reduction-off`, one by one.
pub proof fn lemma_bytes_noise_reduction_off()
    ensures
        "noise-reduction-off".spec_bytes().len() == 19,
        "noise-reduction-off".spec_bytes()[0] == 0x6eu8,
        "noise-reduction-off".spec_bytes()[1] == 0x6fu8,
        "noise-reduction-off".spec_bytes()[2] == 0x69u8,
        "noise-reduction-off".spec_bytes()[3] == 0x73u8,
        "noise-reduction-off".spec_bytes()[4] == 0x65u8,
        "noise-reduction-off".spec_bytes()[5] == 0x2du8,
        "noise-reduction-off".spec_bytes()[6] == 0x72u8,
        "noise-reduction-off".spec_bytes()[7] == 0x65u8,
        "noise-reduction-off".spec_bytes()[8] == 0x64u8,
        "noise-reduction-off".spec_bytes()[9] == 0x75u8,
        "noise-reduction-off".spec_bytes()[10] == 0x63u8,
        "noise-reduction-off".spec_bytes()[11] == 0x74u8,
        "noise-reduction-off".spec_bytes()[12] == 0x69u8,
        "noise-reduction-off".spec_bytes()[13] == 0x6fu8,
        "noise-reduction-off".spec_bytes()[14] == 0x6eu8,
        "noise-reduction-off".spec_bytes()[15] == 0x2du8,
        "noise-reduction-off".spec_bytes()[16] == 0x6fu8,
        "noise-reduction-off".spec_bytes()[17] == 0x66u8,
        "noise-reduction-off".spec_bytes()[18] == 0x66u8,
        forall|j: int| 0 <= j < 19 ==> #[trigger] "noise-reduction-off".spec_bytes()[j] != EQUALS,
{
    reveal_strlit("noise-reduction-off");
    assert(is_ascii_chars("noise-reduction-off"@));
    is_ascii_chars_encode_utf8("noise-reduction-off"@);
    assert forall|j: int| 0 <= j < 19 implies #[trigger] "noise-reduction-off".spec_bytes()[j] != EQUALS by {
        assert(j == 0 || j == 1 || j == 2 || j == 3 || j == 4 || j == 5 || j == 6 || j == 7 || j == 8 || j == 9 || j == 10 || j == 11 || j == 12 || j == 13 || j == 14 || j == 15 || j == 16 || j == 17 || j == 18);
    }
}

/// The bytes of the command name `noise-reduction-on`, one by one.
pub proof fn lemma_bytes_noise_reduction_on()
    ensures
        "noise-reduction-on".spec_bytes().len() == 18,
        "noise-reduction-on".spec_bytes()[0] == 0x6eu8,
        "noise-reduction-on".spec_bytes()[1] == 0x6fu8,
        "noise-reduction-on".spec_bytes()[2] == 0x69u8,
        "noise-reduction-on".spec_bytes()[3] == 0x73u8,
        "noise-reduction-on".spec_bytes()[4] == 0x65u8,
        "noise-reduction-on".spec_bytes()[5] == 0x2du8,
        "noise-reduction-on".spec_bytes()[6] == 0x72u8,
        "noise-reduction-on".spec_bytes()[7] == 0x65u8,
        "noise-reduction-on".spec_bytes()[8] == 0x64u8,
        "noise-reduction-on".spec_bytes()[9] == 0x75u8,
        "noise-reduction-on".spec_bytes()[10] == 0x63u8,
        "noise-reduction-on".spec_bytes()[11] == 0x74u8,
        "noise-reduction-on".spec_bytes()[12] == 0x69u8,
        "noise-reduction-on".spec_bytes()[13] == 0x6fu8,
        "noise-reduction-on".spec_bytes()[14] == 0x6eu8,
        "noise-reduction-on".spec_bytes()[15] == 0x2du8,
        "noise-reduction-on".spec_bytes()[16] == 0x6fu8,
        "noise-reduction-on".spec_bytes()[17] == 0x6eu8,
        forall|j: int| 0 <= j < 18 ==> #[trigger] "noise-reduction-on".spec_bytes()[j] != EQUALS,
{
    reveal_strlit("noise-reduction-on");
    assert(is_ascii_chars("noise-reduction-on"@));
    is_ascii_chars_encode_utf8("noise-reduction-on"@);
    assert forall|j: int| 0 <= j < 18 implies #[trigger] "noise-reduction-on".spec_bytes()[j] != EQUALS by {
        assert(j == 0 || j == 1 || j == 2 || j == 3 || j == 4 || j == 5 || j == 6 || j == 7 || j == 8 || j == 9 || j == 10 || j == 11 || j == 12 || j == 13 || j == 14 || j == 15 || j == 16 || j == 17);
    }
}

/// The bytes of the command name `bg-solid-blue`, one by one.
pub proof fn lemma_bytes_bg_solid_blue()
    ensures
        "bg-solid-blue".spec_bytes().len() == 13,
        "bg-solid-blue".spec_bytes()[0] == 0x62u8,
        "bg-solid-blue".spec_bytes()[1] == 0x67u8,
        "bg-solid-blue".spec_bytes()[2] == 0x2du8,
        "bg-solid-blue".spec_bytes()[3] == 0x73u8,
        "bg-solid-blue".spec_bytes()[4] == 0x6fu8,
        "bg-solid-blue".spec_bytes()[5] == 0x6cu8,
        "bg-solid-blue".spec_bytes()[6] == 0x69u8,
        "bg-solid-blue".spec_bytes()[7] == 0x64u8,
        "bg-solid-blue".spec_bytes()[8] == 0x2du8,
        "bg-solid-blue".spec_bytes()[9] == 0x62u8,
        "bg-solid-blue".spec_bytes()[10] == 0x6cu8,
        "bg-solid-blue".spec_bytes()[11] == 0x75u8,
        "bg-solid-blue".spec_bytes()[12] == 0x65u8,
        forall|j: int| 0 <= j < 13 ==> #[trigger] "bg-solid-blue".spec_bytes()[j] != EQUALS,
{
    reveal_strlit("bg-solid-blue");
    assert(is_ascii_chars("bg-solid-blue"@));
    is_ascii_chars_encode_utf8("bg-solid-blue"@);
    assert forall|j: int| 0 <= j < 13 implies #[trigger] "bg-solid-blue".spec_bytes()[j] != EQUALS by {
        assert(j == 0 || j == 1 || j == 2 || j == 3 || j == 4 || j == 5 || j == 6 || j == 7 || j == 8 || j == 9 || j == 10 || j == 11 || j == 12);
    }
}

/// The bytes of the command name `bg-solid-blue!`, one by one.
pub proof fn lemma_bytes_bg_solid_blue_now()
    ensures
        "bg-solid-blue!".spec_bytes().len() == 14,
        "bg-solid-blue!".spec_bytes()[0] == 0x62u8,
        "bg-solid-blue!".spec_bytes()[1] == 0x67u8,
        "bg-solid-blue!".spec_bytes()[2] == 0x2du8,
        "bg-solid-blue!".spec_bytes()[3] == 0x73u8,
        "bg-solid-blue!".spec_bytes()[4] == 0x6fu8,
        "bg-solid-blue!".spec_bytes()[5] == 0x6cu8,
        "bg-solid-blue!".spec_bytes()[6] == 0x69u8,
        "bg-solid-blue!".spec_bytes()[7] == 0x64u8,
        "bg-solid-blue!".spec_bytes()[8] == 0x2du8,
        "bg-solid-blue!".spec_bytes()[9] == 0x62u8,
        "bg-solid-blue!".spec_bytes()[10] == 0x6cu8,
        "bg-solid-blue!".spec_bytes()[11] == 0x75u8,
        "bg-solid-blue!".spec_bytes()[12] == 0x65u8,
        "bg-solid-blue!".spec_bytes()[13] == 0x21u8,
        forall|j: int| 0 <= j < 14 ==> #[trigger] "bg-solid-blue!".spec_bytes()[j] != EQUALS,
{
    reveal_strlit("bg-solid-blue!");
    assert(is_ascii_chars("bg-solid-blue!"@));
    is_ascii_chars_encode_utf8("bg-solid-blue!"@);
    assert forall|j: int| 0 <= j < 14 implies #[trigger] "bg-solid-blue!".spec_bytes()[j] != EQUALS by {
        assert(j == 0 || j == 1 || j == 2 || j == 3 || j == 4 || j == 5 || j == 6 || j == 7 || j == 8 || j == 9 || j == 10 || j == 11 || j == 12 || j == 13);
    }
}

/// The bytes of the command name `bg-solid-green`, one by one.
pub proof fn lemma_bytes_bg_solid_green()
    ensures
        "bg-solid-green".spec_bytes().len() == 14,
        "bg-solid-green".spec_bytes()[0] == 0x62u8,
        "bg-solid-green".spec_bytes()[1] == 0x67u8,
        "bg-solid-green".spec_bytes()[2] == 0x2du8,
        "bg-solid-green".spec_bytes()[3] == 0x73u8,
        "bg-solid-green".spec_bytes()[4] == 0x6fu8,
        "bg-solid-green".spec_bytes()[5] == 0x6cu8,
        "bg-solid-green".spec_bytes()[6] == 0x69u8,
        "bg-solid-green".spec_bytes()[7] == 0x64u8,
        "bg-solid-green".spec_bytes()[8] == 0x2du8,
        "bg-solid-green".spec_bytes()[9] == 0x67u8,
        "bg-solid-green".spec_bytes()[10] == 0x72u8,
        "bg-solid-green".spec_bytes()[11] == 0x65u8,
        "bg-solid-green".spec_bytes()[12] == 0x65u8,
        "bg-solid-green".spec_bytes()[13] == 0x6eu8,
        forall|j: int| 0 <= j < 14 ==> #[trigger] "bg-solid-green".spec_bytes()[j] != EQUALS,
{
    reveal_strlit("bg-solid-green");
    assert(is_ascii_chars("bg-solid-green"@));
    is_ascii_chars_encode_utf8("bg-solid-green"@);
    assert forall|j: int| 0 <= j < 14 implies #[trigger] "bg-solid-green".spec_bytes()[j] != EQUALS by {
        assert(j == 0 || j == 1 || j == 2 || j == 3 || j == 4 || j == 5 || j == 6 || j == 7 || j == 8 || j == 9 || j == 10 || j == 11 || j == 12 || j == 13);
    }
}

/// The bytes of the command name `bg-solid-green!`, one by one.
pub proof fn lemma_bytes_bg_solid_green_now()
    ensures
        "bg-solid-green!".spec_bytes().len() == 15,
        "bg-solid-green!".spec_bytes()[0] == 0x62u8,
        "bg-solid-green!".spec_bytes()[1] == 0x67u8,
        "bg-solid-green!".spec_bytes()[2] == 0x2du8,
        "bg-solid-green!".spec_bytes()[3] == 0x73u8,
        "bg-solid-green!".spec_bytes()[4] == 0x6fu8,
        "bg-solid-green!".spec_bytes()[5] == 0x6cu8,
        "bg-solid-green!".spec_bytes()[6] == 0x69u8,
        "bg-solid-green!".spec_bytes()[7] == 0x64u8,
        "bg-solid-green!".spec_bytes()[8] == 0x2du8,
        "bg-solid-green!".spec_bytes()[9] == 0x67u8,
        "bg-solid-green!".spec_bytes()[10] == 0x72u8,
        "bg-solid-green!".spec_bytes()[11] == 0x65u8,
        "bg-solid-green!".spec_bytes()[12] == 0x65u8,
        "bg-solid-green!".spec_bytes()[13] == 0x6eu8,
        "bg-solid-green!".spec_bytes()[14] == 0x21u8,
        forall|j: int| 0 <= j < 15 ==> #[trigger] "bg-solid-green!".spec_bytes()[j] != EQUALS,
{
    reveal_strlit("bg-solid-green!");
    assert(is_ascii_chars("bg-solid-green!"@));
    is_ascii_chars_encode_utf8("bg-solid-green!"@);
    assert forall|j: int| 0 <= j < 15 implies #[trigger] "bg-solid-green!".spec_bytes()[j] != EQUALS by {
        assert(j == 0 || j == 1 || j == 2 || j == 3 || j == 4 || j == 5 || j == 6 || j == 7 || j == 8 || j == 9 || j == 10 || j == 11 || j == 12 || j == 13 || j == 14);
    }
}

/// The bytes of the command name `bg-solid-red`, one by one.
pub proof fn lemma_bytes_bg_solid_red()
    ensures
        "bg-solid-red".spec_bytes().len() == 12,
        "bg-solid-red".spec_bytes()[0] == 0x62u8,
        "bg-solid-red".spec_bytes()[1] == 0x67u8,
        "bg-solid-red".spec_bytes()[2] == 0x2du8,
        "bg-solid-red".spec_bytes()[3] == 0x73u8,
        "bg-solid-red".spec_bytes()[4] == 0x6fu8,
        "bg-solid-red".spec_bytes()[5] == 0x6cu8,
        "bg-solid-red".spec_bytes()[6] == 0x69u8,
        "bg-solid-red".spec_bytes()[7] == 0x64u8,
        "bg-solid-red".spec_bytes()[8] == 0x2du8,
        "bg-solid-red".spec_bytes()[9] == 0x72u8,
        "bg-solid-red".spec_bytes()[10] == 0x65u8,
        "bg-solid-red".spec_bytes()[11] == 0x64u8,
        forall|j: int| 0 <= j < 12 ==> #[trigger] "bg-solid-red".spec_bytes()[j] != EQUALS,
{
    reveal_strlit("bg-solid-red");
    assert(is_ascii_chars("bg-solid-red"@));
    is_ascii_chars_encode_utf8("bg-solid-red"@);
    assert forall|j: int| 0 <= j < 12 implies #[trigger] "bg-solid-red".spec_bytes()[j] != EQUALS by {
        assert(j == 0 || j == 1 || j == 2 || j == 3 || j == 4 || j == 5 || j == 6 || j == 7 || j == 8 || j == 9 || j == 10 || j == 11);
    }
}

/// The bytes of the command name `bg-solid-red!`, one by one.
pub proof fn lemma_bytes_bg_solid_red_now()
    ensures
        "bg-solid-red!".spec_bytes().len() == 13,
        "bg-solid-red!".spec_bytes()[0] == 0x62u8,
        "bg-solid-red!".spec_bytes()[1] == 0x67u8,
        "bg-solid-red!".spec_bytes()[2] == 0x2du8,
        "bg-solid-red!".spec_bytes()[3] == 0x73u8,
        "bg-solid-red!".spec_bytes()[4] == 0x6fu8,
        "bg-solid-red!".spec_bytes()[5] == 0x6cu8,
        "bg-solid-red!".spec_bytes()[6] == 0x69u8,
        "bg-solid-red!".spec_bytes()[7] == 0x64u8,
        "bg-solid-red!".spec_bytes()[8] == 0x2du8,
        "bg-solid-red!".spec_bytes()[9] == 0x72u8,
        "bg-solid-red!".spec_bytes()[10] == 0x65u8,
        "bg-solid-red!".spec_bytes()[11] == 0x64u8,
        "bg-solid-red!".spec_bytes()[12] == 0x21u8,
        forall|j: int| 0 <= j < 13 ==> #[trigger] "bg-solid-red!".spec_bytes()[j] != EQUALS,
{
    reveal_strlit("bg-solid-red!");
    assert(is_ascii_chars("bg-solid-red!"@));
    is_ascii_chars_encode_utf8("bg-solid-red!"@);
    assert forall|j: int| 0 <= j < 13 implies #[trigger] "bg-solid-red!".spec_bytes()[j] != EQUALS by {
        assert(j == 0 || j == 1 || j == 2 || j == 3 || j == 4 || j == 5 || j == 6 || j == 7 || j == 8 || j == 9 || j == 10 || j == 11 || j == 12);
    }
}

/// The bytes of the command name `bg-solid-black`, one by one.
pub proof fn lemma_bytes_bg_solid_black()
    ensures
        "bg-solid-black".spec_bytes().len() == 14,
        "bg-solid-black".spec_bytes()[0] == 0x62u8,
        "bg-solid-black".spec_bytes()[1] == 0x67u8,
        "bg-solid-black".spec_bytes()[2] == 0x2du8,
        "bg-solid-black".spec_bytes()[3] == 0x73u8,
        "bg-solid-black".spec_bytes()[4] == 0x6fu8,
        "bg-solid-black".spec_bytes()[5] == 0x6cu8,
        "bg-solid-black".spec_bytes()[6] == 0x69u8,
        "bg-solid-black".spec_bytes()[7] == 0x64u8,
        "bg-solid-black".spec_bytes()[8] == 0x2du8,
        "bg-solid-black".spec_bytes()[9] == 0x62u8,
        "bg-solid-black".spec_bytes()[10] == 0x6cu8,
        "bg-solid-black".spec_bytes()[11] == 0x61u8,
        "bg-solid-black".spec_bytes()[12] == 0x63u8,
        "bg-solid-black".spec_bytes()[13] == 0x6bu8,
        forall|j: int| 0 <= j < 14 ==> #[trigger] "bg-solid-black".spec_bytes()[j] != EQUALS,
{
    reveal_strlit("bg-solid-black");
    assert(is_ascii_chars("bg-solid-black"@));
    is_ascii_chars_encode_utf8("bg-solid-black"@);
    assert forall|j: int| 0 <= j < 14 implies #[trigger] "bg-solid-black".spec_bytes()[j] != EQUALS by {
        assert(j == 0 || j == 1 || j == 2 || j == 3 || j == 4 || j == 5 || j == 6 || j == 7 || j == 8 || j == 9 || j == 10 || j == 11 || j == 12 || j == 13);
    }
}

/// The bytes of the command name `bg-solid-black!`, one by one.
pub proof fn lemma_bytes_bg_solid_black_now()
    ensures
        "bg-solid-black!".spec_bytes().len() == 15,
        "bg-solid-black!".spec_bytes()[0] == 0x62u8,
        "bg-solid-black!".spec_bytes()[1] == 0x67u8,
        "bg-solid-black!".spec_bytes()[2] == 0x2du8,
        "bg-solid-black!".spec_bytes()[3] == 0x73u8,
        "bg-solid-black!".spec_bytes()[4] == 0x6fu8,
        "bg-solid-black!".spec_bytes()[5] == 0x6cu8,
        "bg-solid-black!".spec_bytes()[6] == 0x69u8,
        "bg-solid-black!".spec_bytes()[7] == 0x64u8,
        "bg-solid-black!".spec_bytes()[8] == 0x2du8,
        "bg-solid-black!".spec_bytes()[9] == 0x62u8,
        "bg-solid-black!".spec_bytes()[10] == 0x6cu8,
        "bg-solid-black!".spec_bytes()[11] == 0x61u8,
        "bg-solid-black!".spec_bytes()[12] == 0x63u8,
        "bg-solid-black!".spec_bytes()[13] == 0x6bu8,
        "bg-solid-black!".spec_bytes()[14] == 0x21u8,
        forall|j: int| 0 <= j < 15 ==> #[trigger] "bg-solid-black!".spec_bytes()[j] != EQUALS,
{
    reveal_strlit("bg-solid-black!");
    assert(is_ascii_chars("bg-solid-black!"@));
    is_ascii_chars_encode_utf8("bg-solid-black!"@);
    assert forall|j: int| 0 <= j < 15 implies #[trigger] "bg-solid-black!".spec_bytes()[j] != EQUALS by {
        assert(j == 0 || j == 1 || j == 2 || j == 3 || j == 4 || j == 5 || j == 6 || j == 7 || j == 8 || j == 9 || j == 10 || j == 11 || j == 12 || j == 13 || j == 14);
    }
}

/// The bytes of the command name `bg-solid-white`, one by one.
pub proof fn lemma_bytes_bg_solid_white()
    ensures
        "bg-solid-white".spec_bytes().len() == 14,
        "bg-solid-white".spec_bytes()[0] == 0x62u8,
        "bg-solid-white".spec_bytes()[1] == 0x67u8,
        "bg-solid-white".spec_bytes()[2] == 0x2du8,
        "bg-solid-white".spec_bytes()[3] == 0x73u8,
        "bg-solid-white".spec_bytes()[4] == 0x6fu8,
        "bg-solid-white".spec_bytes()[5] == 0x6cu8,
        "bg-solid-white".spec_bytes()[6] == 0x69u8,
        "bg-solid-white".spec_bytes()[7] == 0x64u8,
        "bg-solid-white".spec_bytes()[8] == 0x2du8,
        "bg-solid-white".spec_bytes()[9] == 0x77u8,
        "bg-solid-white".spec_bytes()[10] == 0x68u8,
        "bg-solid-white".spec_bytes()[11] == 0x69u8,
        "bg-solid-white".spec_bytes()[12] == 0x74u8,
        "bg-solid-white".spec_bytes()[13] == 0x65u8,
        forall|j: int| 0 <= j < 14 ==> #[trigger] "bg-solid-white".spec_bytes()[j] != EQUALS,
{
    reveal_strlit("bg-solid-white");
    assert(is_ascii_chars("bg-solid-white"@));
    is_ascii_chars_encode_utf8("bg-solid-white"@);
    assert forall|j: int| 0 <= j < 14 implies #[trigger] "bg-solid-white".spec_bytes()[j] != EQUALS by {
        assert(j == 0 || j == 1 || j == 2 || j == 3 || j == 4 || j == 5 || j == 6 || j == 7 || j == 8 || j == 9 || j == 10 || j == 11 || j == 12 || j == 13);
    }
}

/// The bytes of the command name `bg-solid-white!`, one by one.
pub proof fn lemma_bytes_bg_solid_white_now()
    ensures
        "bg-solid-white!".spec_bytes().len() == 15,
        "bg-solid-white!".spec_bytes()[0] == 0x62u8,
        "bg-solid-white!".spec_bytes()[1] == 0x67u8,
        "bg-solid-white!".spec_bytes()[2] == 0x2du8,
        "bg-solid-white!".spec_bytes()[3] == 0x73u8,
        "bg-solid-white!".spec_bytes()[4] == 0x6fu8,
        "bg-solid-white!".spec_bytes()[5] == 0x6cu8,
        "bg-solid-white!".spec_bytes()[6] == 0x69u8,
        "bg-solid-white!".spec_bytes()[7] == 0x64u8,
        "bg-solid-white!".spec_bytes()[8] == 0x2du8,
        "bg-solid-white!".spec_bytes()[9] == 0x77u8,
        "bg-solid-white!".spec_bytes()[10] == 0x68u8,
        "bg-solid-white!".spec_bytes()[11] == 0x69u8,
        "bg-solid-white!".spec_bytes()[12] == 0x74u8,
        "bg-solid-white!".spec_bytes()[13] == 0x65u8,
        "bg-solid-white!".spec_bytes()[14] == 0x21u8,
        forall|j: int| 0 <= j < 15 ==> #[trigger] "bg-solid-white!".spec_bytes()[j] != EQUALS,
{
    reveal_strlit("bg-solid-white!");
    assert(is_ascii_chars("bg-solid-white!"@));
    is_ascii_chars_encode_utf8("bg-solid-white!"@);
    assert forall|j: int| 0 <= j < 15 implies #[trigger] "bg-solid-white!".spec_bytes()[j] != EQUALS by {
        assert(j == 0 || j == 1 || j == 2 || j == 3 || j == 4 || j == 5 || j == 6 || j == 7 || j == 8 || j == 9 || j == 10 || j == 11 || j == 12 || j == 13 || j == 14);
    }
}

/// The bytes of the command name `auto-frame-group`, one by one.
pub proof fn lemma_bytes_auto_frame_group()
    ensures
        "auto-frame-group".spec_bytes().len() == 16,
        "auto-frame-group".spec_bytes()[0] == 0x61u8,
        "auto-frame-group".spec_bytes()[1] == 0x75u8,
        "auto-frame-group".spec_bytes()[2] == 0x74u8,
        "auto-frame-group".spec_bytes()[3] == 0x6fu8,
        "auto-frame-group".spec_bytes()[4] == 0x2du8,
        "auto-frame-group".spec_bytes()[5] == 0x66u8,
        "auto-frame-group".spec_bytes()[6] == 0x72u8,
        "auto-frame-group".spec_bytes()[7] == 0x61u8,
        "auto-frame-group".spec_bytes()[8] == 0x6du8,
        "auto-frame-group".spec_bytes()[9] == 0x65u8,
        "auto-frame-group".spec_bytes()[10] == 0x2du8,
        "auto-frame-group".spec_bytes()[11] == 0x67u8,
        "auto-frame-group".spec_bytes()[12] == 0x72u8,
        "auto-frame-group".spec_bytes()[13] == 0x6fu8,
        "auto-frame-group".spec_bytes()[14] == 0x75u8,
        "auto-frame-group".spec_bytes()[15] == 0x70u8,
        forall|j: int| 0 <= j < 16 ==> #[trigger] "auto-frame-group".spec_bytes()[j] != EQUALS,
{
    reveal_strlit("auto-frame-group");
    assert(is_ascii_chars("auto-frame-group"@));
    is_ascii_chars_encode_utf8("auto-frame-group"@);
    assert forall|j: int| 0 <= j < 16 implies #[trigger] "auto-frame-group".spec_bytes()[j] != EQUALS by {
        assert(j == 0 || j == 1 || j == 2 || j == 3 || j == 4 || j == 5 || j == 6 || j == 7 || j == 8 || j == 9 || j == 10 || j == 11 || j == 12 || j == 13 || j == 14 || j == 15);
    }
}

/// The bytes of the command name `auto-frame-group!`, one by one.
pub proof fn lemma_bytes_auto_frame_group_now()
    ensures
        "auto-frame-group!".spec_bytes().len() == 17,
        "auto-frame-group!".spec_bytes()[0] == 0x61u8,
        "auto-frame-group!".spec_bytes()[1] == 0x75u8,
        "auto-frame-group!".spec_bytes()[2] == 0x74u8,
        "auto-frame-group!".spec_bytes()[3] == 0x6fu8,
        "auto-frame-group!".spec_bytes()[4] == 0x2du8,
        "auto-frame-group!".spec_bytes()[5] == 0x66u8,
        "auto-frame-group!".spec_bytes()[6] == 0x72u8,
        "auto-frame-group!".spec_bytes()[7] == 0x61u8,
        "auto-frame-group!".spec_bytes()[8] == 0x6du8,
        "auto-frame-group!".spec_bytes()[9] == 0x65u8,
        "auto-frame-group!".spec_bytes()[10] == 0x2du8,
        "auto-frame-group!".spec_bytes()[11] == 0x67u8,
        "auto-frame-group!".spec_bytes()[12] == 0x72u8,
        "auto-frame-group!".spec_bytes()[13] == 0x6fu8,
        "auto-frame-group!".spec_bytes()[14] == 0x75u8,
        "auto-frame-group!".spec_bytes()[15] == 0x70u8,
        "auto-frame-group!".spec_bytes()[16] == 0x21u8,
        forall|j: int| 0 <= j < 17 ==> #[trigger] "auto-frame-group!".spec_bytes()[j] != EQUALS,
{
    reveal_strlit("auto-frame-group!");
    assert(is_ascii_chars("auto-frame-group!"@));
    is_ascii_chars_encode_utf8("auto-frame-group!"@);
    assert forall|j: int| 0 <= j < 17 implies #[trigger] "auto-frame-group!".spec_bytes()[j] != EQUALS by {
        assert(j == 0 || j == 1 || j == 2 || j == 3 || j == 4 || j == 5 || j == 6 || j == 7 || j == 8 || j == 9 || j == 10 || j == 11 || j == 12 || j == 13 || j == 14 || j == 15 || j == 16);
    }
}

/// The bytes of the command name `auto-frame-face`, one by one.
pub proof fn lemma_bytes_auto_frame_face()
    ensures
        "auto-frame-face".spec_bytes().len() == 15,
        "auto-frame-face".spec_bytes()[0] == 0x61u8,
        "auto-frame-face".spec_bytes()[1] == 0x75u8,
        "auto-frame-face".spec_bytes()[2] == 0x74u8,
        "auto-frame-face".spec_bytes()[3] == 0x6fu8,
        "auto-frame-face".spec_bytes()[4] == 0x2du8,
        "auto-frame-face".spec_bytes()[5] == 0x66u8,
        "auto-frame-face".spec_bytes()[6] == 0x72u8,
        "auto-frame-face".spec_bytes()[7] == 0x61u8,
        "auto-frame-face".spec_bytes()[8] == 0x6du8,
        "auto-frame-face".spec_bytes()[9] == 0x65u8,
        "auto-frame-face".spec_bytes()[10] == 0x2du8,
        "auto-frame-face".spec_bytes()[11] == 0x66u8,
        "auto-frame-face".spec_bytes()[12] == 0x61u8,
        "auto-frame-face".spec_bytes()[13] == 0x63u8,
        "auto-frame-face".spec_bytes()[14] == 0x65u8,
        forall|j: int| 0 <= j < 15 ==> #[trigger] "auto-frame-face".spec_bytes()[j] != EQUALS,
{
    reveal_strlit("auto-frame-face");
    assert(is_ascii_chars("auto-frame-face"@));
    is_ascii_chars_encode_utf8("auto-frame-face"@);
    assert forall|j: int| 0 <= j < 15 implies #[trigger] "auto-frame-face".spec_bytes()[j] != EQUALS by {
        assert(j == 0 || j == 1 || j == 2 || j == 3 || j == 4 || j == 5 || j == 6 || j == 7 || j == 8 || j == 9 || j == 10 || j == 11 || j == 12 || j == 13 || j == 14);
    }
}

/// The bytes of the command name `auto-frame-face!`, one by one.
pub proof fn lemma_bytes_auto_frame_face_now()
    ensures
        "auto-frame-face!".spec_bytes().len() == 16,
        "auto-frame-face!".spec_bytes()[0] == 0x61u8,
        "auto-frame-face!".spec_bytes()[1] == 0x75u8,
        "auto-frame-face!".spec_bytes()[2] == 0x74u8,
        "auto-frame-face!".spec_bytes()[3] == 0x6fu8,
        "auto-frame-face!".spec_bytes()[4] == 0x2du8,
        "auto-frame-face!".spec_bytes()[5] == 0x66u8,
        "auto-frame-face!".spec_bytes()[6] == 0x72u8,
        "auto-frame-face!".spec_bytes()[7] == 0x61u8,
        "auto-frame-face!".spec_bytes()[8] == 0x6du8,
        "auto-frame-face!".spec_bytes()[9] == 0x65u8,
        "auto-frame-face!".spec_bytes()[10] == 0x2du8,
        "auto-frame-face!".spec_bytes()[11] == 0x66u8,
        "auto-frame-face!".spec_bytes()[12] == 0x61u8,
        "auto-frame-face!".spec_bytes()[13] == 0x63u8,
        "auto-frame-face!".spec_bytes()[14] == 0x65u8,
        "auto-frame-face!".spec_bytes()[15] == 0x21u8,
        forall|j: int| 0 <= j < 16 ==> #[trigger] "auto-frame-face!".spec_bytes()[j] != EQUALS,
{
    reveal_strlit("auto-frame-face!");
    assert(is_ascii_chars("auto-frame-face!"@));
    is_ascii_chars_encode_utf8("auto-frame-face!"@);
    assert forall|j: int| 0 <= j < 16 implies #[trigger] "auto-frame-face!".spec_bytes()[j] != EQUALS by {
        assert(j == 0 || j == 1 || j == 2 || j == 3 || j == 4 || j == 5 || j == 6 || j == 7 || j == 8 || j == 9 || j == 10 || j == 11 || j == 12 || j == 13 || j == 14 || j == 15);
    }
}

/// The bytes of the command name `auto-frame-body`, one by one.
pub proof fn lemma_bytes_auto_frame_body()
    ensures
        "auto-frame-body".spec_bytes().len() == 15,
        "auto-frame-body".spec_bytes()[0] == 0x61u8,
        "auto-frame-body".spec_bytes()[1] == 0x75u8,
        "auto-frame-body".spec_bytes()[2] == 0x74u8,
        "auto-frame-body".spec_bytes()[3] == 0x6fu8,
        "auto-frame-body".spec_bytes()[4] == 0x2du8,
        "auto-frame-body".spec_bytes()[5] == 0x66u8,
        "auto-frame-body".spec_bytes()[6] == 0x72u8,
        "auto-frame-body".spec_bytes()[7] == 0x61u8,
        "auto-frame-body".spec_bytes()[8] == 0x6du8,
        "auto-frame-body".spec_bytes()[9] == 0x65u8,
        "auto-frame-body".spec_bytes()[10] == 0x2du8,
        "auto-frame-body".spec_bytes()[11] == 0x62u8,
        "auto-frame-body".spec_bytes()[12] == 0x6fu8,
        "auto-frame-body".spec_bytes()[13] == 0x64u8,
        "auto-frame-body".spec_bytes()[14] == 0x79u8,
        forall|j: int| 0 <= j < 15 ==> #[trigger] "auto-frame-body".spec_bytes()[j] != EQUALS,
{
    reveal_strlit("auto-frame-body");
    assert(is_ascii_chars("auto-frame-body"@));
    is_ascii_chars_encode_utf8("auto-frame-body"@);
    assert forall|j: int| 0 <= j < 15 implies #[trigger] "auto-frame-body".spec_bytes()[j] != EQUALS by {
        assert(j == 0 || j == 1 || j == 2 || j == 3 || j == 4 || j == 5 || j == 6 || j == 7 || j == 8 || j == 9 || j == 10 || j == 11 || j == 12 || j == 13 || j == 14);
    }
}

/// The bytes of the command name `auto-frame-body!`, one by one.
pub proof fn lemma_bytes_auto_frame_body_now()
    ensures
        "auto-frame-body!".spec_bytes().len() == 16,
        "auto-frame-body!".spec_bytes()[0] == 0x61u8,
        "auto-frame-body!".spec_bytes()[1] == 0x75u8,
        "auto-frame-body!".spec_bytes()[2] == 0x74u8,
        "auto-frame-body!".spec_bytes()[3] == 0x6fu8,
        "auto-frame-body!".spec_bytes()[4] == 0x2du8,
        "auto-frame-body!".spec_bytes()[5] == 0x66u8,
        "auto-frame-body!".spec_bytes()[6] == 0x72u8,
        "auto-frame-body!".spec_bytes()[7] == 0x61u8,
        "auto-frame-body!".spec_bytes()[8] == 0x6du8,
        "auto-frame-body!".spec_bytes()[9] == 0x65u8,
        "auto-frame-body!".spec_bytes()[10] == 0x2du8,
        "auto-frame-body!".spec_bytes()[11] == 0x62u8,
        "auto-frame-body!".spec_bytes()[12] == 0x6fu8,
        "auto-frame-body!".spec_bytes()[13] == 0x64u8,
        "auto-frame-body!".spec_bytes()[14] == 0x79u8,
        "auto-frame-body!".spec_bytes()[15] == 0x21u8,
        forall|j: int| 0 <= j < 16 ==> #[trigger] "auto-frame-body!".spec_bytes()[j] != EQUALS,
{
    reveal_strlit("auto-frame-body!");
    assert(is_ascii_chars("auto-frame-body!"@));
    is_ascii_chars_encode_utf8("auto-frame-body!"@);
    assert forall|j: int| 0 <= j < 16 implies #[trigger] "auto-frame-body!".spec_bytes()[j] != EQUALS by {
        assert(j == 0 || j == 1 || j == 2 || j == 3 || j == 4 || j == 5 || j == 6 || j == 7 || j == 8 || j == 9 || j == 10 || j == 11 || j == 12 || j == 13 || j == 14 || j == 15);
    }
}

/// The bytes of the command name `bg-blur-level`, one by one.
pub proof fn lemma_bytes_bg_blur_level()
    ensures
        "bg-blur-level".spec_bytes().len() == 13,
        "bg-blur-level".spec_bytes()[0] == 0x62u8,
        "bg-blur-level".spec_bytes()[1] == 0x67u8,
        "bg-blur-level".spec_bytes()[2] == 0x2du8,
        "bg-blur-level".spec_bytes()[3] == 0x62u8,
        "bg-blur-level".spec_bytes()[4] == 0x6cu8,
        "bg-blur-level".spec_bytes()[5] == 0x75u8,
        "bg-blur-level".spec_bytes()[6] == 0x72u8,
        "bg-blur-level".spec_bytes()[7] == 0x2du8,
        "bg-blur-level".spec_bytes()[8] == 0x6cu8,
        "bg-blur-level".spec_bytes()[9] == 0x65u8,
        "bg-blur-level".spec_bytes()[10] == 0x76u8,
        "bg-blur-level".spec_bytes()[11] == 0x65u8,
        "bg-blur-level".spec_bytes()[12] == 0x6cu8,
        forall|j: int| 0 <= j < 13 ==> #[trigger] "bg-blur-level".spec_bytes()[j] != EQUALS,
{
    reveal_strlit("bg-blur-level");
    assert(is_ascii_chars("bg-blur-level"@));
    is_ascii_chars_encode_utf8("bg-blur-level"@);
    assert forall|j: int| 0 <= j < 13 implies #[trigger] "bg-blur-level".spec_bytes()[j] != EQUALS by {
        assert(j == 0 || j == 1 || j == 2 || j == 3 || j == 4 || j == 5 || j == 6 || j == 7 || j == 8 || j == 9 || j == 10 || j == 11 || j == 12);
    }
}

/// The bytes of the command name `bg-blur-leve`, one by one.
pub proof fn lemma_bytes_bg_blur_leve()
    ensures
        "bg-blur-leve".spec_bytes().len() == 12,
        "bg-blur-leve".spec_bytes()[0] == 0x62u8,
        "bg-blur-leve".spec_bytes()[1] == 0x67u8,
        "bg-blur-leve".spec_bytes()[2] == 0x2du8,
        "bg-blur-leve".spec_bytes()[3] == 0x62u8,
        "bg-blur-leve".spec_bytes()[4] == 0x6cu8,
        "bg-blur-leve".spec_bytes()[5] == 0x75u8,
        "bg-blur-leve".spec_bytes()[6] == 0x72u8,
        "bg-blur-leve".spec_bytes()[7] == 0x2du8,
        "bg-blur-leve".spec_bytes()[8] == 0x6cu8,
        "bg-blur-leve".spec_bytes()[9] == 0x65u8,
        "bg-blur-leve".spec_bytes()[10] == 0x76u8,
        "bg-blur-leve".spec_bytes()[11] == 0x65u8,
        forall|j: int| 0 <= j < 12 ==> #[trigger] "bg-blur-leve".spec_bytes()[j] != EQUALS,
{
    reveal_strlit("bg-blur-leve");
    assert(is_ascii_chars("bg-blur-leve"@));
    is_ascii_chars_encode_utf8("bg-blur-leve"@);
    assert forall|j: int| 0 <= j < 12 implies #[trigger] "bg-blur-leve".spec_bytes()[j] != EQUALS by {
        assert(j == 0 || j == 1 || j == 2 || j == 3 || j == 4 || j == 5 || j == 6 || j == 7 || j == 8 || j == 9 || j == 10 || j == 11);
    }
}

/// The bytes of the command name `bg-blur-level!`, one by one.
pub proof fn lemma_bytes_bg_blur_level_now()
    ensures
        "bg-blur-level!".spec_bytes().len() == 14,
        "bg-blur-level!".spec_bytes()[0] == 0x62u8,
        "bg-blur-level!".spec_bytes()[1] == 0x67u8,
        "bg-blur-level!".spec_bytes()[2] == 0x2du8,
        "bg-blur-level!".spec_bytes()[3] == 0x62u8,
        "bg-blur-level!".spec_bytes()[4] == 0x6cu8,
        "bg-blur-level!".spec_bytes()[5] == 0x75u8,
        "bg-blur-level!".spec_bytes()[6] == 0x72u8,
        "bg-blur-level!".spec_bytes()[7] == 0x2du8,
        "bg-blur-level!".spec_bytes()[8] == 0x6cu8,
        "bg-blur-level!".spec_bytes()[9] == 0x65u8,
        "bg-blur-level!".spec_bytes()[10] == 0x76u8,
        "bg-blur-level!".spec_bytes()[11] == 0x65u8,
        "bg-blur-level!".spec_bytes()[12] == 0x6cu8,
        "bg-blur-level!".spec_bytes()[13] == 0x21u8,
        forall|j: int| 0 <= j < 14 ==> #[trigger] "bg-blur-level!".spec_bytes()[j] != EQUALS,
{
    reveal_strlit("bg-blur-level!");
    assert(is_ascii_chars("bg-blur-level!"@));
    is_ascii_chars_encode_utf8("bg-blur-level!"@);
    assert forall|j: int| 0 <= j < 14 implies #[trigger] "bg-blur-level!".spec_bytes()[j] != EQUALS by {
        assert(j == 0 || j == 1 || j == 2 || j == 3 || j == 4 || j == 5 || j == 6 || j == 7 || j == 8 || j == 9 || j == 10 || j == 11 || j == 12 || j == 13);
    }
}

/// The bytes of the command name `bg-bitmap-n`, one by one.
pub proof fn lemma_bytes_bg_bitmap_n()
    ensures
        "bg-bitmap-n".spec_bytes().len() == 11,
        "bg-bitmap-n".spec_bytes()[0] == 0x62u8,
        "bg-bitmap-n".spec_bytes()[1] == 0x67u8,
        "bg-bitmap-n".spec_bytes()[2] == 0x2du8,
        "bg-bitmap-n".spec_bytes()[3] == 0x62u8,
        "bg-bitmap-n".spec_bytes()[4] == 0x69u8,
        "bg-bitmap-n".spec_bytes()[5] == 0x74u8,
        "bg-bitmap-n".spec_bytes()[6] == 0x6du8,
        "bg-bitmap-n".spec_bytes()[7] == 0x61u8,
        "bg-bitmap-n".spec_bytes()[8] == 0x70u8,
        "bg-bitmap-n".spec_bytes()[9] == 0x2du8,
        "bg-bitmap-n".spec_bytes()[10] == 0x6eu8,
        forall|j: int| 0 <= j < 11 ==> #[trigger] "bg-bitmap-n".spec_bytes()[j] != EQUALS,
{
    reveal_strlit("bg-bitmap-n");
    assert(is_ascii_chars("bg-bitmap-n"@));
    is_ascii_chars_encode_utf8("bg-bitmap-n"@);
    assert forall|j: int| 0 <= j < 11 implies #[trigger] "bg-bitmap-n".spec_bytes()[j] != EQUALS by {
        assert(j == 0 || j == 1 || j == 2 || j == 3 || j == 4 || j == 5 || j == 6 || j == 7 || j == 8 || j == 9 || j == 10);
    }
}

/// The bytes of the command name `bg-bitmap-n!`, one by one.
pub proof fn lemma_bytes_bg_bitmap_n_now()
    ensures
        "bg-bitmap-n!".spec_bytes().len() == 12,
        "bg-bitmap-n!".spec_bytes()[0] == 0x62u8,
        "bg-bitmap-n!".spec_bytes()[1] == 0x67u8,
        "bg-bitmap-n!".spec_bytes()[2] == 0x2du8,
        "bg-bitmap-n!".spec_bytes()[3] == 0x62u8,
        "bg-bitmap-n!".spec_bytes()[4] == 0x69u8,
        "bg-bitmap-n!".spec_bytes()[5] == 0x74u8,
        "bg-bitmap-n!".spec_bytes()[6] == 0x6du8,
        "bg-bitmap-n!".spec_bytes()[7] == 0x61u8,
        "bg-bitmap-n!".spec_bytes()[8] == 0x70u8,
        "bg-bitmap-n!".spec_bytes()[9] == 0x2du8,
        "bg-bitmap-n!".spec_bytes()[10] == 0x6eu8,
        "bg-bitmap-n!".spec_bytes()[11] == 0x21u8,
        forall|j: int| 0 <= j < 12 ==> #[trigger] "bg-bitmap-n!".spec_bytes()[j] != EQUALS,
{
    reveal_strlit("bg-bitmap-n!");
    assert(is_ascii_chars("bg-bitmap-n!"@));
    is_ascii_chars_encode_utf8("bg-bitmap-n!"@);
    assert forall|j: int| 0 <= j < 12 implies #[trigger] "bg-bitmap-n!".spec_bytes()[j] != EQUALS by {
        assert(j == 0 || j == 1 || j == 2 || j == 3 || j == 4 || j == 5 || j == 6 || j == 7 || j == 8 || j == 9 || j == 10 || j == 11);
    }
}

/// The bytes of the command name `sleep`, one by one.
pub proof fn lemma_bytes_sleep()
    ensures
        "sleep".spec_bytes().len() == 5,
        "sleep".spec_bytes()[0] == 0x73u8,
        "sleep".spec_bytes()[1] == 0x6cu8,
        "sleep".spec_bytes()[2] == 0x65u8,
        "sleep".spec_bytes()[3] == 0x65u8,
        "sleep".spec_bytes()[4] == 0x70u8,
        forall|j: int| 0 <= j < 5 ==> #[trigger] "sleep".spec_bytes()[j] != EQUALS,
{
    reveal_strlit("sleep");
    assert(is_ascii_chars("sleep"@));
    is_ascii_chars_encode_utf8("sleep"@);
    assert forall|j: int| 0 <= j < 5 implies #[trigger] "sleep".spec_bytes()[j] != EQUALS by {
        assert(j == 0 || j == 1 || j == 2 || j == 3 || j == 4);
    }
}

/// The bytes of the command name `hex`, one by one.
pub proof fn lemma_bytes_hex()
    ensures
        "hex".spec_bytes().len() == 3,
        "hex".spec_bytes()[0] == 0x68u8,
        "hex".spec_bytes()[1] == 0x65u8,
        "hex".spec_bytes()[2] == 0x78u8,
        forall|j: int| 0 <= j < 3 ==> #[trigger] "hex".spec_bytes()[j] != EQUALS,
{
    reveal_strlit("hex");
    assert(is_ascii_chars("hex"@));
    is_ascii_chars_encode_utf8("hex"@);
    assert forall|j: int| 0 <= j < 3 implies #[trigger] "hex".spec_bytes()[j] != EQUALS by {
        assert(j == 0 || j == 1 || j == 2);
    }
}

proof fn lemma_fixed_info()
    ensures
        fixed_command("info".spec_bytes()) == Some(CommandView::Info),
{
    lemma_bytes_info();
    reveal(fixed_command);
}

proof fn lemma_fixed_get()
    ensures
        fixed_command("get".spec_bytes()) == Some(CommandView::Dump),
{
    lemma_bytes_get();
    lemma_bytes_info();
    reveal(fixed_command);
}

proof fn lemma_fixed_effect_off()
    ensures
        fixed_command("effect-off".spec_bytes()) == Some(CommandView::Apply(Setting::EffectOff)),
{
    lemma_bytes_effect_off();
    lemma_bytes_info();
    lemma_bytes_get();
    reveal(fixed_command);
}

proof fn lemma_fixed_effect_bg()
    ensures
        fixed_command("effect-bg".spec_bytes()) == Some(CommandView::Apply(Setting::EffectBg)),
{
    lemma_bytes_effect_bg();
    lemma_bytes_info();
    lemma_bytes_get();
    lemma_bytes_effect_off();
    reveal(fixed_command);
}

proof fn lemma_fixed_effect_track()
    ensures
        fixed_command("effect-track".spec_bytes()) == Some(CommandView::Apply(Setting::EffectTrack)),
{
    lemma_bytes_effect_track();
    lemma_bytes_info();
    lemma_bytes_get();
    lemma_bytes_effect_off();
    lemma_bytes_effect_bg();
    reveal(fixed_command);
}

proof fn lemma_fixed_hdr_off()
    ensures
        fixed_command("hdr-off".spec_bytes()) == Some(CommandView::Apply(Setting::HdrOff)),
{
    lemma_bytes_hdr_off();
    lemma_bytes_info();
    lemma_bytes_get();
    lemma_bytes_effect_off();
    lemma_bytes_effect_bg();
    lemma_bytes_effect_track();
    reveal(fixed_command);
}

proof fn lemma_fixed_hdr_on()
    ensures
        fixed_command("hdr-on".spec_bytes()) == Some(CommandView::Apply(Setting::HdrOn)),
{
    lemma_bytes_hdr_on();
    lemma_bytes_info();
    lemma_bytes_get();
    lemma_bytes_effect_off();
    lemma_bytes_effect_bg();
    lemma_bytes_effect_track();
    lemma_bytes_hdr_off();
    reveal(fixed_command);
}

proof fn lemma_fixed_face_ae_off()
    ensures
        fixed_command("face-ae-off".spec_bytes()) == Some(CommandView::Apply(Setting::FaceAeOff)),
{
    lemma_bytes_face_ae_off();
    lemma_bytes_info();
    lemma_bytes_get();
    lemma_bytes_effect_off();
    lemma_bytes_effect_bg();
    lemma_bytes_effect_track();
    lemma_bytes_hdr_off();
    lemma_bytes_hdr_on();
    reveal(fixed_command);
}

proof fn lemma_fixed_face_ae_on()
    ensures
        fixed_command("face-ae-on".spec_bytes()) == Some(CommandView::Apply(Setting::FaceAeOn)),
{
    lemma_bytes_face_ae_on();
    lemma_bytes_info();
    lemma_bytes_get();
    lemma_bytes_effect_off();
    lemma_bytes_effect_bg();
    lemma_bytes_effect_track();
    lemma_bytes_hdr_off();
    lemma_bytes_hdr_on();
    lemma_bytes_face_ae_off();
    reveal(fixed_command);
}

proof fn lemma_fixed_angle_65()
    ensures
        fixed_command("angle-65".spec_bytes()) == Some(CommandView::Apply(Setting::Angle65)),
{
    lemma_bytes_angle_65();
    lemma_bytes_info();
    lemma_bytes_get();
    lemma_bytes_effect_off();
    lemma_bytes_effect_bg();
    lemma_bytes_effect_track();
    lemma_bytes_hdr_off();
    lemma_bytes_hdr_on();
    lemma_bytes_face_ae_off();
    lemma_bytes_face_ae_on();
    reveal(fixed_command);
}

proof fn lemma_fixed_angle_78()
    ensures
        fixed_command("angle-78".spec_bytes()) == Some(CommandView::Apply(Setting::Angle78)),
{
    lemma_bytes_angle_78();
    lemma_bytes_info();
    lemma_bytes_get();
    lemma_bytes_effect_off();
    lemma_bytes_effect_bg();
    lemma_bytes_effect_track();
    lemma_bytes_hdr_off();
    lemma_bytes_hdr_on();
    lemma_bytes_face_ae_off();
    lemma_bytes_face_ae_on();
    lemma_bytes_angle_65();
    reveal(fixed_command);
}

proof fn lemma_fixed_angle_85()
    ensures
        fixed_command("angle-85".spec_bytes()) == Some(CommandView::Apply(Setting::Angle85)),
{
    lemma_bytes_angle_85();
    lemma_bytes_info();
    lemma_bytes_get();
    lemma_bytes_effect_off();
    lemma_bytes_effect_bg();
    lemma_bytes_effect_track();
    lemma_bytes_hdr_off();
    lemma_bytes_hdr_on();
    lemma_bytes_face_ae_off();
    lemma_bytes_face_ae_on();
    lemma_bytes_angle_65();
    lemma_bytes_angle_78();
    reveal(fixed_command);
}

proof fn lemma_fixed_bg_solid()
    ensures
        fixed_command("bg-solid".spec_bytes()) == Some(CommandView::Apply(Setting::BgSolid)),
{
    lemma_bytes_bg_solid();
    lemma_bytes_info();
    lemma_bytes_get();
    lemma_bytes_effect_off();
    lemma_bytes_effect_bg();
    lemma_bytes_effect_track();
    lemma_bytes_hdr_off();
    lemma_bytes_hdr_on();
    lemma_bytes_face_ae_off();
    lemma_bytes_face_ae_on();
    lemma_bytes_angle_65();
    lemma_bytes_angle_78();
    lemma_bytes_angle_85();
    reveal(fixed_command);
}

proof fn lemma_fixed_bg_solid_now()
    ensures
        fixed_command("bg-solid!".spec_bytes()) == Some(CommandView::ApplyNow(Setting::BgSolid)),
{
    lemma_bytes_bg_solid_now();
    lemma_bytes_info();
    lemma_bytes_get();
    lemma_bytes_effect_off();
    lemma_bytes_effect_bg();
    lemma_bytes_effect_track();
    lemma_bytes_hdr_off();
    lemma_bytes_hdr_on();
    lemma_bytes_face_ae_off();
    lemma_bytes_face_ae_on();
    lemma_bytes_angle_65();
    lemma_bytes_angle_78();
    lemma_bytes_angle_85();
    lemma_bytes_bg_solid();
    reveal(fixed_command);
}

proof fn lemma_fixed_bg_bitmap()
    ensures
        fixed_command("bg-bitmap".spec_bytes()) == Some(CommandView::Apply(Setting::BgBitmap)),
{
    lemma_bytes_bg_bitmap();
    lemma_bytes_info();
    lemma_bytes_get();
    lemma_bytes_effect_off();
    lemma_bytes_effect_bg();
    lemma_bytes_effect_track();
    lemma_bytes_hdr_off();
    lemma_bytes_hdr_on();
    lemma_bytes_face_ae_off();
    lemma_bytes_face_ae_on();
    lemma_bytes_angle_65();
    lemma_bytes_angle_78();
    lemma_bytes_angle_85();
    lemma_bytes_bg_solid();
    lemma_bytes_bg_solid_now();
    reveal(fixed_command);
}

proof fn lemma_fixed_bg_bitmap_now()
    ensures
        fixed_command("bg-bitmap!".spec_bytes()) == Some(CommandView::ApplyNow(Setting::BgBitmap)),
{
    lemma_bytes_bg_bitmap_now();
    lemma_bytes_info();
    lemma_bytes_get();
    lemma_bytes_effect_off();
    lemma_bytes_effect_bg();
    lemma_bytes_effect_track();
    lemma_bytes_hdr_off();
    lemma_bytes_hdr_on();
    lemma_bytes_face_ae_off();
    lemma_bytes_face_ae_on();
    lemma_bytes_angle_65();
    lemma_bytes_angle_78();
    lemma_bytes_angle_85();
    lemma_bytes_bg_solid();
    lemma_bytes_bg_solid_now();
    lemma_bytes_bg_bitmap();
    reveal(fixed_command);
}

proof fn lemma_fixed_bg_blur()
    ensures
        fixed_command("bg-blur".spec_bytes()) == Some(CommandView::Apply(Setting::BgBlur)),
{
    lemma_bytes_bg_blur();
    lemma_bytes_info();
    lemma_bytes_get();
    lemma_bytes_effect_off();
    lemma_bytes_effect_bg();
    lemma_bytes_effect_track();
    lemma_bytes_hdr_off();
    lemma_bytes_hdr_on();
    lemma_bytes_face_ae_off();
    lemma_bytes_face_ae_on();
    lemma_bytes_angle_65();
    lemma_bytes_angle_78();
    lemma_bytes_angle_85();
    lemma_bytes_bg_solid();
    lemma_bytes_bg_solid_now();
    lemma_bytes_bg_bitmap();
    lemma_bytes_bg_bitmap_now();
    reveal(fixed_command);
}

proof fn lemma_fixed_bg_blur_now()
    ensures
        fixed_command("bg-blur!".spec_bytes()) == Some(CommandView::ApplyNow(Setting::BgBlur)),
{
    lemma_bytes_bg_blur_now();
    lemma_bytes_info();
    lemma_bytes_get();
    lemma_bytes_effect_off();
    lemma_bytes_effect_bg();
    lemma_bytes_effect_track();
    lemma_bytes_hdr_off();
    lemma_bytes_hdr_on();
    lemma_bytes_face_ae_off();
    lemma_bytes_face_ae_on();
    lemma_bytes_angle_65();
    lemma_bytes_angle_78();
    lemma_bytes_angle_85();
    lemma_bytes_bg_solid();
    lemma_bytes_bg_solid_now();
    lemma_bytes_bg_bitmap();
    lemma_bytes_bg_bitmap_now();
    lemma_bytes_bg_blur();
    reveal(fixed_command);
}

proof fn lemma_fixed_button_default()
    ensures
        fixed_command("button-default".spec_bytes()) == Some(CommandView::Apply(Setting::ButtonDefault)),
{
    lemma_bytes_button_default();
    lemma_bytes_info();
    lemma_bytes_get();
    lemma_bytes_effect_off();
    lemma_bytes_effect_bg();
    lemma_bytes_effect_track();
    lemma_bytes_hdr_off();
    lemma_bytes_hdr_on();
    lemma_bytes_face_ae_off();
    lemma_bytes_face_ae_on();
    lemma_bytes_angle_65();
    lemma_bytes_angle_78();
    lemma_bytes_angle_85();
    lemma_bytes_bg_solid();
    lemma_bytes_bg_solid_now();
    lemma_bytes_bg_bitmap();
    lemma_bytes_bg_bitmap_now();
    lemma_bytes_bg_blur();
    lemma_bytes_bg_blur_now();
    reveal(fixed_command);
}

proof fn lemma_fixed_button_rotate()
    ensures
        fixed_command("button-rotate".spec_bytes()) == Some(CommandView::Apply(Setting::ButtonRotate)),
{
    lemma_bytes_button_rotate();
    lemma_bytes_info();
    lemma_bytes_get();
    lemma_bytes_effect_off();
    lemma_bytes_effect_bg();
    lemma_bytes_effect_track();
    lemma_bytes_hdr_off();
    lemma_bytes_hdr_on();
    lemma_bytes_face_ae_off();
    lemma_bytes_face_ae_on();
    lemma_bytes_angle_65();
    lemma_bytes_angle_78();
    lemma_bytes_angle_85();
    lemma_bytes_bg_solid();
    lemma_bytes_bg_solid_now();
    lemma_bytes_bg_bitmap();
    lemma_bytes_bg_bitmap_now();
    lemma_bytes_bg_blur();
    lemma_bytes_bg_blur_now();
    lemma_bytes_button_default();
    reveal(fixed_command);
}

proof fn lemma_fixed_noise_reduction_off()
    ensures
        fixed_command("noise-reduction-off".spec_bytes()) == Some(CommandView::Apply(Setting::NoiseReductionOff)),
{
    lemma_bytes_noise_reduction_off();
    lemma_bytes_info();
    lemma_bytes_get();
    lemma_bytes_effect_off();
    lemma_bytes_effect_bg();
    lemma_bytes_effect_track();
    lemma_bytes_hdr_off();
    lemma_bytes_hdr_on();
    lemma_bytes_face_ae_off();
    lemma_bytes_face_ae_on();
    lemma_bytes_angle_65();
    lemma_bytes_angle_78();
    lemma_bytes_angle_85();
    lemma_bytes_bg_solid();
    lemma_bytes_bg_solid_now();
    lemma_bytes_bg_bitmap();
    lemma_bytes_bg_bitmap_now();
    lemma_bytes_bg_blur();
    lemma_bytes_bg_blur_now();
    lemma_bytes_button_default();
    lemma_bytes_button_rotate();
    reveal(fixed_command);
}

proof fn lemma_fixed_noise_reduction_on()
    ensures
        fixed_command("noise-reduction-on".spec_bytes()) == Some(CommandView::Apply(Setting::NoiseReductionOn)),
{
    lemma_bytes_noise_reduction_on();
    lemma_bytes_info();
    lemma_bytes_get();
    lemma_bytes_effect_off();
    lemma_bytes_effect_bg();
    lemma_bytes_effect_track();
    lemma_bytes_hdr_off();
    lemma_bytes_hdr_on();
    lemma_bytes_face_ae_off();
    lemma_bytes_face_ae_on();
    lemma_bytes_angle_65();
    lemma_bytes_angle_78();
    lemma_bytes_angle_85();
    lemma_bytes_bg_solid();
    lemma_bytes_bg_solid_now();
    lemma_bytes_bg_bitmap();
    lemma_bytes_bg_bitmap_now();
    lemma_bytes_bg_blur();
    lemma_bytes_bg_blur_now();
    lemma_bytes_button_default();
    lemma_bytes_button_rotate();
    lemma_bytes_noise_reduction_off();
    reveal(fixed_command);
}

proof fn lemma_fixed_bg_solid_blue()
    ensures
        fixed_command("bg-solid-blue".spec_bytes()) == Some(CommandView::Apply(Setting::BgSolidBlue)),
{
    lemma_bytes_bg_solid_blue();
    lemma_bytes_info();
    lemma_bytes_get();
    lemma_bytes_effect_off();
    lemma_bytes_effect_bg();
    lemma_bytes_effect_track();
    lemma_bytes_hdr_off();
    lemma_bytes_hdr_on();
    lemma_bytes_face_ae_off();
    lemma_bytes_face_ae_on();
    lemma_bytes_angle_65();
    lemma_bytes_angle_78();
    lemma_bytes_angle_85();
    lemma_bytes_bg_solid();
    lemma_bytes_bg_solid_now();
    lemma_bytes_bg_bitmap();
    lemma_bytes_bg_bitmap_now();
    lemma_bytes_bg_blur();
    lemma_bytes_bg_blur_now();
    lemma_bytes_button_default();
    lemma_bytes_button_rotate();
    lemma_bytes_noise_reduction_off();
    lemma_bytes_noise_reduction_on();
    reveal(fixed_command);
}

proof fn lemma_fixed_bg_solid_blue_now()
    ensures
        fixed_command("bg-solid-blue!".spec_bytes()) == Some(CommandView::ApplyNow(Setting::BgSolidBlue)),
{
    lemma_bytes_bg_solid_blue_now();
    lemma_bytes_info();
    lemma_bytes_get();
    lemma_bytes_effect_off();
    lemma_bytes_effect_bg();
    lemma_bytes_effect_track();
    lemma_bytes_hdr_off();
    lemma_bytes_hdr_on();
    lemma_bytes_face_ae_off();
    lemma_bytes_face_ae_on();
    lemma_bytes_angle_65();
    lemma_bytes_angle_78();
    lemma_bytes_angle_85();
    lemma_bytes_bg_solid();
    lemma_bytes_bg_solid_now();
    lemma_bytes_bg_bitmap();
    lemma_bytes_bg_bitmap_now();
    lemma_bytes_bg_blur();
    lemma_bytes_bg_blur_now();
    lemma_bytes_button_default();
    lemma_bytes_button_rotate();
    lemma_bytes_noise_reduction_off();
    lemma_bytes_noise_reduction_on();
    lemma_bytes_bg_solid_blue();
    reveal(fixed_command);
}

proof fn lemma_fixed_bg_solid_green()
    ensures
        fixed_command("bg-solid-green".spec_bytes()) == Some(CommandView::Apply(Setting::BgSolidGreen)),
{
    lemma_bytes_bg_solid_green();
    lemma_bytes_info();
    lemma_bytes_get();
    lemma_bytes_effect_off();
    lemma_bytes_effect_bg();
    lemma_bytes_effect_track();
    lemma_bytes_hdr_off();
    lemma_bytes_hdr_on();
    lemma_bytes_face_ae_off();
    lemma_bytes_face_ae_on();
    lemma_bytes_angle_65();
    lemma_bytes_angle_78();
    lemma_bytes_angle_85();
    lemma_bytes_bg_solid();
    lemma_bytes_bg_solid_now();
    lemma_bytes_bg_bitmap();
    lemma_bytes_bg_bitmap_now();
    lemma_bytes_bg_blur();
    lemma_bytes_bg_blur_now();
    lemma_bytes_button_default();
    lemma_bytes_button_rotate();
    lemma_bytes_noise_reduction_off();
    lemma_bytes_noise_reduction_on();
    lemma_bytes_bg_solid_blue();
    lemma_bytes_bg_solid_blue_now();
    reveal(fixed_command);
}

proof fn lemma_fixed_bg_solid_green_now()
    ensures
        fixed_command("bg-solid-green!".spec_bytes()) == Some(CommandView::ApplyNow(Setting::BgSolidGreen)),
{
    lemma_bytes_bg_solid_green_now();
    lemma_bytes_info();
    lemma_bytes_get();
    lemma_bytes_effect_off();
    lemma_bytes_effect_bg();
    lemma_bytes_effect_track();
    lemma_bytes_hdr_off();
    lemma_bytes_hdr_on();
    lemma_bytes_face_ae_off();
    lemma_bytes_face_ae_on();
    lemma_bytes_angle_65();
    lemma_bytes_angle_78();
    lemma_bytes_angle_85();
    lemma_bytes_bg_solid();
    lemma_bytes_bg_solid_now();
    lemma_bytes_bg_bitmap();
    lemma_bytes_bg_bitmap_now();
    lemma_bytes_bg_blur();
    lemma_bytes_bg_blur_now();
    lemma_bytes_button_default();
    lemma_bytes_button_rotate();
    lemma_bytes_noise_reduction_off();
    lemma_bytes_noise_reduction_on();
    lemma_bytes_bg_solid_blue();
    lemma_bytes_bg_solid_blue_now();
    lemma_bytes_bg_solid_green();
    reveal(fixed_command);
}

proof fn lemma_fixed_bg_solid_red()
    ensures
        fixed_command("bg-solid-red".spec_bytes()) == Some(CommandView::Apply(Setting::BgSolidRed)),
{
    lemma_bytes_bg_solid_red();
    lemma_bytes_info();
    lemma_bytes_get();
    lemma_bytes_effect_off();
    lemma_bytes_effect_bg();
    lemma_bytes_effect_track();
    lemma_bytes_hdr_off();
    lemma_bytes_hdr_on();
    lemma_bytes_face_ae_off();
    lemma_bytes_face_ae_on();
    lemma_bytes_angle_65();
    lemma_bytes_angle_78();
    lemma_bytes_angle_85();
    lemma_bytes_bg_solid();
    lemma_bytes_bg_solid_now();
    lemma_bytes_bg_bitmap();
    lemma_bytes_bg_bitmap_now();
    lemma_bytes_bg_blur();
    lemma_bytes_bg_blur_now();
    lemma_bytes_button_default();
    lemma_bytes_button_rotate();
    lemma_bytes_noise_reduction_off();
    lemma_bytes_noise_reduction_on();
    lemma_bytes_bg_solid_blue();
    lemma_bytes_bg_solid_blue_now();
    lemma_bytes_bg_solid_green();
    lemma_bytes_bg_solid_green_now();
    reveal(fixed_command);
}

proof fn lemma_fixed_bg_solid_red_now()
    ensures
        fixed_command("bg-solid-red!".spec_bytes()) == Some(CommandView::ApplyNow(Setting::BgSolidRed)),
{
    lemma_bytes_bg_solid_red_now();
    lemma_bytes_info();
    lemma_bytes_get();
    lemma_bytes_effect_off();
    lemma_bytes_effect_bg();
    lemma_bytes_effect_track();
    lemma_bytes_hdr_off();
    lemma_bytes_hdr_on();
    lemma_bytes_face_ae_off();
    lemma_bytes_face_ae_on();
    lemma_bytes_angle_65();
    lemma_bytes_angle_78();
    lemma_bytes_angle_85();
    lemma_bytes_bg_solid();
    lemma_bytes_bg_solid_now();
    lemma_bytes_bg_bitmap();
    lemma_bytes_bg_bitmap_now();
    lemma_bytes_bg_blur();
    lemma_bytes_bg_blur_now();
    lemma_bytes_button_default();
    lemma_bytes_button_rotate();
    lemma_bytes_noise_reduction_off();
    lemma_bytes_noise_reduction_on();
    lemma_bytes_bg_solid_blue();
    lemma_bytes_bg_solid_blue_now();
    lemma_bytes_bg_solid_green();
    lemma_bytes_bg_solid_green_now();
    lemma_bytes_bg_solid_red();
    reveal(fixed_command);
}

proof fn lemma_fixed_bg_solid_black()
    ensures
        fixed_command("bg-solid-black".spec_bytes()) == Some(CommandView::Apply(Setting::BgSolidBlack)),
{
    lemma_bytes_bg_solid_black();
    lemma_bytes_info();
    lemma_bytes_get();
    lemma_bytes_effect_off();
    lemma_bytes_effect_bg();
    lemma_bytes_effect_track();
    lemma_bytes_hdr_off();
    lemma_bytes_hdr_on();
    lemma_bytes_face_ae_off();
    lemma_bytes_face_ae_on();
    lemma_bytes_angle_65();
    lemma_bytes_angle_78();
    lemma_bytes_angle_85();
    lemma_bytes_bg_solid();
    lemma_bytes_bg_solid_now();
    lemma_bytes_bg_bitmap();
    lemma_bytes_bg_bitmap_now();
    lemma_bytes_bg_blur();
    lemma_bytes_bg_blur_now();
    lemma_bytes_button_default();
    lemma_bytes_button_rotate();
    lemma_bytes_noise_reduction_off();
    lemma_bytes_noise_reduction_on();
    lemma_bytes_bg_solid_blue();
    lemma_bytes_bg_solid_blue_now();
    lemma_bytes_bg_solid_green();
    lemma_bytes_bg_solid_green_now();
    lemma_bytes_bg_solid_red();
    lemma_bytes_bg_solid_red_now();
    reveal(fixed_command);
}

proof fn lemma_fixed_bg_solid_black_now()
    ensures
        fixed_command("bg-solid-black!".spec_bytes()) == Some(CommandView::ApplyNow(Setting::BgSolidBlack)),
{
    lemma_bytes_bg_solid_black_now();
    lemma_bytes_info();
    lemma_bytes_get();
    lemma_bytes_effect_off();
    lemma_bytes_effect_bg();
    lemma_bytes_effect_track();
    lemma_bytes_hdr_off();
    lemma_bytes_hdr_on();
    lemma_bytes_face_ae_off();
    lemma_bytes_face_ae_on();
    lemma_bytes_angle_65();
    lemma_bytes_angle_78();
    lemma_bytes_angle_85();
    lemma_bytes_bg_solid();
    lemma_bytes_bg_solid_now();
    lemma_bytes_bg_bitmap();
    lemma_bytes_bg_bitmap_now();
    lemma_bytes_bg_blur();
    lemma_bytes_bg_blur_now();
    lemma_bytes_button_default();
    lemma_bytes_button_rotate();
    lemma_bytes_noise_reduction_off();
    lemma_bytes_noise_reduction_on();
    lemma_bytes_bg_solid_blue();
    lemma_bytes_bg_solid_blue_now();
    lemma_bytes_bg_solid_green();
    lemma_bytes_bg_solid_green_now();
    lemma_bytes_bg_solid_red();
    lemma_bytes_bg_solid_red_now();
    lemma_bytes_bg_solid_black();
    reveal(fixed_command);
}

proof fn lemma_fixed_bg_solid_white()
    ensures
        fixed_command("bg-solid-white".spec_bytes()) == Some(CommandView::Apply(Setting::BgSolidWhite)),
{
    lemma_bytes_bg_solid_white();
    lemma_bytes_info();
    lemma_bytes_get();
    lemma_bytes_effect_off();
    lemma_bytes_effect_bg();
    lemma_bytes_effect_track();
    lemma_bytes_hdr_off();
    lemma_bytes_hdr_on();
    lemma_bytes_face_ae_off();
    lemma_bytes_face_ae_on();
    lemma_bytes_angle_65();
    lemma_bytes_angle_78();
    lemma_bytes_angle_85();
    lemma_bytes_bg_solid();
    lemma_bytes_bg_solid_now();
    lemma_bytes_bg_bitmap();
    lemma_bytes_bg_bitmap_now();
    lemma_bytes_bg_blur();
    lemma_bytes_bg_blur_now();
    lemma_bytes_button_default();
    lemma_bytes_button_rotate();
    lemma_bytes_noise_reduction_off();
    lemma_bytes_noise_reduction_on();
    lemma_bytes_bg_solid_blue();
    lemma_bytes_bg_solid_blue_now();
    lemma_bytes_bg_solid_green();
    lemma_bytes_bg_solid_green_now();
    lemma_bytes_bg_solid_red();
    lemma_bytes_bg_solid_red_now();
    lemma_bytes_bg_solid_black();
    lemma_bytes_bg_solid_black_now();
    reveal(fixed_command);
}

proof fn lemma_fixed_bg_solid_white_now()
    ensures
        fixed_command("bg-solid-white!".spec_bytes()) == Some(CommandView::ApplyNow(Setting::BgSolidWhite)),
{
    lemma_bytes_bg_solid_white_now();
    lemma_bytes_info();
    lemma_bytes_get();
    lemma_bytes_effect_off();
    lemma_bytes_effect_bg();
    lemma_bytes_effect_track();
    lemma_bytes_hdr_off();
    lemma_bytes_hdr_on();
    lemma_bytes_face_ae_off();
    lemma_bytes_face_ae_on();
    lemma_bytes_angle_65();
    lemma_bytes_angle_78();
    lemma_bytes_angle_85();
    lemma_bytes_bg_solid();
    lemma_bytes_bg_solid_now();
    lemma_bytes_bg_bitmap();
    lemma_bytes_bg_bitmap_now();
    lemma_bytes_bg_blur();
    lemma_bytes_bg_blur_now();
    lemma_bytes_button_default();
    lemma_bytes_button_rotate();
    lemma_bytes_noise_reduction_off();
    lemma_bytes_noise_reduction_on();
    lemma_bytes_bg_solid_blue();
    lemma_bytes_bg_solid_blue_now();
    lemma_bytes_bg_solid_green();
    lemma_bytes_bg_solid_green_now();
    lemma_bytes_bg_solid_red();
    lemma_bytes_bg_solid_red_now();
    lemma_bytes_bg_solid_black();
    lemma_bytes_bg_solid_black_now();
    lemma_bytes_bg_solid_white();
    reveal(fixed_command);
}

proof fn lemma_fixed_auto_frame_group()
    ensures
        fixed_command("auto-frame-group".spec_bytes()) == Some(CommandView::Apply(Setting::AutoFrameGroup)),
{
    lemma_bytes_auto_frame_group();
    lemma_bytes_info();
    lemma_bytes_get();
    lemma_bytes_effect_off();
    lemma_bytes_effect_bg();
    lemma_bytes_effect_track();
    lemma_bytes_hdr_off();
    lemma_bytes_hdr_on();
    lemma_bytes_face_ae_off();
    lemma_bytes_face_ae_on();
    lemma_bytes_angle_65();
    lemma_bytes_angle_78();
    lemma_bytes_angle_85();
    lemma_bytes_bg_solid();
    lemma_bytes_bg_solid_now();
    lemma_bytes_bg_bitmap();
    lemma_bytes_bg_bitmap_now();
    lemma_bytes_bg_blur();
    lemma_bytes_bg_blur_now();
    lemma_bytes_button_default();
    lemma_bytes_button_rotate();
    lemma_bytes_noise_reduction_off();
    lemma_bytes_noise_reduction_on();
    lemma_bytes_bg_solid_blue();
    lemma_bytes_bg_solid_blue_now();
    lemma_bytes_bg_solid_green();
    lemma_bytes_bg_solid_green_now();
    lemma_bytes_bg_solid_red();
    lemma_bytes_bg_solid_red_now();
    lemma_bytes_bg_solid_black();
    lemma_bytes_bg_solid_black_now();
    lemma_bytes_bg_solid_white();
    lemma_bytes_bg_solid_white_now();
    reveal(fixed_command);
}

proof fn lemma_fixed_auto_frame_group_now()
    ensures
        fixed_command("auto-frame-group!".spec_bytes()) == Some(CommandView::ApplyNow(Setting::AutoFrameGroup)),
{
    lemma_bytes_auto_frame_group_now();
    lemma_bytes_info();
    lemma_bytes_get();
    lemma_bytes_effect_off();
    lemma_bytes_effect_bg();
    lemma_bytes_effect_track();
    lemma_bytes_hdr_off();
    lemma_bytes_hdr_on();
    lemma_bytes_face_ae_off();
    lemma_bytes_face_ae_on();
    lemma_bytes_angle_65();
    lemma_bytes_angle_78();
    lemma_bytes_angle_85();
    lemma_bytes_bg_solid();
    lemma_bytes_bg_solid_now();
    lemma_bytes_bg_bitmap();
    lemma_bytes_bg_bitmap_now();
    lemma_bytes_bg_blur();
    lemma_bytes_bg_blur_now();
    lemma_bytes_button_default();
    lemma_bytes_button_rotate();
    lemma_bytes_noise_reduction_off();
    lemma_bytes_noise_reduction_on();
    lemma_bytes_bg_solid_blue();
    lemma_bytes_bg_solid_blue_now();
    lemma_bytes_bg_solid_green();
    lemma_bytes_bg_solid_green_now();
    lemma_bytes_bg_solid_red();
    lemma_bytes_bg_solid_red_now();
    lemma_bytes_bg_solid_black();
    lemma_bytes_bg_solid_black_now();
    lemma_bytes_bg_solid_white();
    lemma_bytes_bg_solid_white_now();
    lemma_bytes_auto_frame_group();
    reveal(fixed_command);
}

proof fn lemma_fixed_auto_frame_face()
    ensures
        fixed_command("auto-frame-face".spec_bytes()) == Some(CommandView::Apply(Setting::AutoFrameFace)),
{
    lemma_bytes_auto_frame_face();
    lemma_bytes_info();
    lemma_bytes_get();
    lemma_bytes_effect_off();
    lemma_bytes_effect_bg();
    lemma_bytes_effect_track();
    lemma_bytes_hdr_off();
    lemma_bytes_hdr_on();
    lemma_bytes_face_ae_off();
    lemma_bytes_face_ae_on();
    lemma_bytes_angle_65();
    lemma_bytes_angle_78();
    lemma_bytes_angle_85();
    lemma_bytes_bg_solid();
    lemma_bytes_bg_solid_now();
    lemma_bytes_bg_bitmap();
    lemma_bytes_bg_bitmap_now();
    lemma_bytes_bg_blur();
    lemma_bytes_bg_blur_now();
    lemma_bytes_button_default();
    lemma_bytes_button_rotate();
    lemma_bytes_noise_reduction_off();
    lemma_bytes_noise_reduction_on();
    lemma_bytes_bg_solid_blue();
    lemma_bytes_bg_solid_blue_now();
    lemma_bytes_bg_solid_green();
    lemma_bytes_bg_solid_green_now();
    lemma_bytes_bg_solid_red();
    lemma_bytes_bg_solid_red_now();
    lemma_bytes_bg_solid_black();
    lemma_bytes_bg_solid_black_now();
    lemma_bytes_bg_solid_white();
    lemma_bytes_bg_solid_white_now();
    lemma_bytes_auto_frame_group();
    lemma_bytes_auto_frame_group_now();
    reveal(fixed_command);
}

proof fn lemma_fixed_auto_frame_face_now()
    ensures
        fixed_command("auto-frame-face!".spec_bytes()) == Some(CommandView::ApplyNow(Setting::AutoFrameFace)),
{
    lemma_bytes_auto_frame_face_now();
    lemma_bytes_info();
    lemma_bytes_get();
    lemma_bytes_effect_off();
    lemma_bytes_effect_bg();
    lemma_bytes_effect_track();
    lemma_bytes_hdr_off();
    lemma_bytes_hdr_on();
    lemma_bytes_face_ae_off();
    lemma_bytes_face_ae_on();
    lemma_bytes_angle_65();
    lemma_bytes_angle_78();
    lemma_bytes_angle_85();
    lemma_bytes_bg_solid();
    lemma_bytes_bg_solid_now();
    lemma_bytes_bg_bitmap();
    lemma_bytes_bg_bitmap_now();
    lemma_bytes_bg_blur();
    lemma_bytes_bg_blur_now();
    lemma_bytes_button_default();
    lemma_bytes_button_rotate();
    lemma_bytes_noise_reduction_off();
    lemma_bytes_noise_reduction_on();
    lemma_bytes_bg_solid_blue();
    lemma_bytes_bg_solid_blue_now();
    lemma_bytes_bg_solid_green();
    lemma_bytes_bg_solid_green_now();
    lemma_bytes_bg_solid_red();
    lemma_bytes_bg_solid_red_now();
    lemma_bytes_bg_solid_black();
    lemma_bytes_bg_solid_black_now();
    lemma_bytes_bg_solid_white();
    lemma_bytes_bg_solid_white_now();
    lemma_bytes_auto_frame_group();
    lemma_bytes_auto_frame_group_now();
    lemma_bytes_auto_frame_face();
    reveal(fixed_command);
}

proof fn lemma_fixed_auto_frame_body()
    ensures
        fixed_command("auto-frame-body".spec_bytes()) == Some(CommandView::Apply(Setting::AutoFrameBody)),
{
    lemma_bytes_auto_frame_body();
    lemma_bytes_info();
    lemma_bytes_get();
    lemma_bytes_effect_off();
    lemma_bytes_effect_bg();
    lemma_bytes_effect_track();
    lemma_bytes_hdr_off();
    lemma_bytes_hdr_on();
    lemma_bytes_face_ae_off();
    lemma_bytes_face_ae_on();
    lemma_bytes_angle_65();
    lemma_bytes_angle_78();
    lemma_bytes_angle_85();
    lemma_bytes_bg_solid();
    lemma_bytes_bg_solid_now();
    lemma_bytes_bg_bitmap();
    lemma_bytes_bg_bitmap_now();
    lemma_bytes_bg_blur();
    lemma_bytes_bg_blur_now();
    lemma_bytes_button_default();
    lemma_bytes_button_rotate();
    lemma_bytes_noise_reduction_off();
    lemma_bytes_noise_reduction_on();
    lemma_bytes_bg_solid_blue();
    lemma_bytes_bg_solid_blue_now();
    lemma_bytes_bg_solid_green();
    lemma_bytes_bg_solid_green_now();
    lemma_bytes_bg_solid_red();
    lemma_bytes_bg_solid_red_now();
    lemma_bytes_bg_solid_black();
    lemma_bytes_bg_solid_black_now();
    lemma_bytes_bg_solid_white();
    lemma_bytes_bg_solid_white_now();
    lemma_bytes_auto_frame_group();
    lemma_bytes_auto_frame_group_now();
    lemma_bytes_auto_frame_face();
    lemma_bytes_auto_frame_face_now();
    reveal(fixed_command);
}

proof fn lemma_fixed_auto_frame_body_now()
    ensures
        fixed_command("auto-frame-body!".spec_bytes()) == Some(CommandView::ApplyNow(Setting::AutoFrameBody)),
{
    lemma_bytes_auto_frame_body_now();
    lemma_bytes_info();
    lemma_bytes_get();
    lemma_bytes_effect_off();
    lemma_bytes_effect_bg();
    lemma_bytes_effect_track();
    lemma_bytes_hdr_off();
    lemma_bytes_hdr_on();
    lemma_bytes_face_ae_off();
    lemma_bytes_face_ae_on();
    lemma_bytes_angle_65();
    lemma_bytes_angle_78();
    lemma_bytes_angle_85();
    lemma_bytes_bg_solid();
    lemma_bytes_bg_solid_now();
    lemma_bytes_bg_bitmap();
    lemma_bytes_bg_bitmap_now();
    lemma_bytes_bg_blur();
    lemma_bytes_bg_blur_now();
    lemma_bytes_button_default();
    lemma_bytes_button_rotate();
    lemma_bytes_noise_reduction_off();
    lemma_bytes_noise_reduction_on();
    lemma_bytes_bg_solid_blue();
    lemma_bytes_bg_solid_blue_now();
    lemma_bytes_bg_solid_green();
    lemma_bytes_bg_solid_green_now();
    lemma_bytes_bg_solid_red();
    lemma_bytes_bg_solid_red_now();
    lemma_bytes_bg_solid_black();
    lemma_bytes_bg_solid_black_now();
    lemma_bytes_bg_solid_white();
    lemma_bytes_bg_solid_white_now();
    lemma_bytes_auto_frame_group();
    lemma_bytes_auto_frame_group_now();
    lemma_bytes_auto_frame_face();
    lemma_bytes_auto_frame_face_now();
    lemma_bytes_auto_frame_body();
    reveal(fixed_command);
}

proof fn lemma_numeric_bg_blur_level()
    ensures
        fixed_command("bg-blur-level".spec_bytes()) is None,
        forall|arg: Option<Seq<u8>>|
            #[trigger] numeric_command("bg-blur-level".spec_bytes(), arg) == Some(
                match numeric_argument(arg, 255) {
                    Ok(v) => Ok(CommandView::Apply(Setting::BlurLevel(v as u8))),
                    Err(e) => Err::<CommandView, CommandError>(e),
                },
            ),
{
    lemma_bytes_bg_blur_level();
    lemma_bytes_info();
    lemma_bytes_get();
    lemma_bytes_effect_off();
    lemma_bytes_effect_bg();
    lemma_bytes_effect_track();
    lemma_bytes_hdr_off();
    lemma_bytes_hdr_on();
    lemma_bytes_face_ae_off();
    lemma_bytes_face_ae_on();
    lemma_bytes_angle_65();
    lemma_bytes_angle_78();
    lemma_bytes_angle_85();
    lemma_bytes_bg_solid();
    lemma_bytes_bg_solid_now();
    lemma_bytes_bg_bitmap();
    lemma_bytes_bg_bitmap_now();
    lemma_bytes_bg_blur();
    lemma_bytes_bg_blur_now();
    lemma_bytes_button_default();
    lemma_bytes_button_rotate();
    lemma_bytes_noise_reduction_off();
    lemma_bytes_noise_reduction_on();
    lemma_bytes_bg_solid_blue();
    lemma_bytes_bg_solid_blue_now();
    lemma_bytes_bg_solid_green();
    lemma_bytes_bg_solid_green_now();
    lemma_bytes_bg_solid_red();
    lemma_bytes_bg_solid_red_now();
    lemma_bytes_bg_solid_black();
    lemma_bytes_bg_solid_black_now();
    lemma_bytes_bg_solid_white();
    lemma_bytes_bg_solid_white_now();
    lemma_bytes_auto_frame_group();
    lemma_bytes_auto_frame_group_now();
    lemma_bytes_auto_frame_face();
    lemma_bytes_auto_frame_face_now();
    lemma_bytes_auto_frame_body();
    lemma_bytes_auto_frame_body_now();
    reveal(fixed_command);
    reveal(numeric_command);
}

proof fn lemma_numeric_bg_blur_leve()
    ensures
        fixed_command("bg-blur-leve".spec_bytes()) is None,
        forall|arg: Option<Seq<u8>>|
            #[trigger] numeric_command("bg-blur-leve".spec_bytes(), arg) == Some(
                match numeric_argument(arg, 255) {
                    Ok(v) => Ok(CommandView::Apply(Setting::BlurLevel(v as u8))),
                    Err(e) => Err::<CommandView, CommandError>(e),
                },
            ),
{
    lemma_bytes_bg_blur_leve();
    lemma_bytes_info();
    lemma_bytes_get();
    lemma_bytes_effect_off();
    lemma_bytes_effect_bg();
    lemma_bytes_effect_track();
    lemma_bytes_hdr_off();
    lemma_bytes_hdr_on();
    lemma_bytes_face_ae_off();
    lemma_bytes_face_ae_on();
    lemma_bytes_angle_65();
    lemma_bytes_angle_78();
    lemma_bytes_angle_85();
    lemma_bytes_bg_solid();
    lemma_bytes_bg_solid_now();
    lemma_bytes_bg_bitmap();
    lemma_bytes_bg_bitmap_now();
    lemma_bytes_bg_blur();
    lemma_bytes_bg_blur_now();
    lemma_bytes_button_default();
    lemma_bytes_button_rotate();
    lemma_bytes_noise_reduction_off();
    lemma_bytes_noise_reduction_on();
    lemma_bytes_bg_solid_blue();
    lemma_bytes_bg_solid_blue_now();
    lemma_bytes_bg_solid_green();
    lemma_bytes_bg_solid_green_now();
    lemma_bytes_bg_solid_red();
    lemma_bytes_bg_solid_red_now();
    lemma_bytes_bg_solid_black();
    lemma_bytes_bg_solid_black_now();
    lemma_bytes_bg_solid_white();
    lemma_bytes_bg_solid_white_now();
    lemma_bytes_auto_frame_group();
    lemma_bytes_auto_frame_group_now();
    lemma_bytes_auto_frame_face();
    lemma_bytes_auto_frame_face_now();
    lemma_bytes_auto_frame_body();
    lemma_bytes_auto_frame_body_now();
    lemma_bytes_bg_blur_level();
    reveal(fixed_command);
    reveal(numeric_command);
}

proof fn lemma_numeric_bg_blur_level_now()
    ensures
        fixed_command("bg-blur-level!".spec_bytes()) is None,
        forall|arg: Option<Seq<u8>>|
            #[trigger] numeric_command("bg-blur-level!".spec_bytes(), arg) == Some(
                match numeric_argument(arg, 255) {
                    Ok(v) => Ok(CommandView::ApplyNow(Setting::BlurLevel(v as u8))),
                    Err(e) => Err::<CommandView, CommandError>(e),
                },
            ),
{
    lemma_bytes_bg_blur_level_now();
    lemma_bytes_info();
    lemma_bytes_get();
    lemma_bytes_effect_off();
    lemma_bytes_effect_bg();
    lemma_bytes_effect_track();
    lemma_bytes_hdr_off();
    lemma_bytes_hdr_on();
    lemma_bytes_face_ae_off();
    lemma_bytes_face_ae_on();
    lemma_bytes_angle_65();
    lemma_bytes_angle_78();
    lemma_bytes_angle_85();
    lemma_bytes_bg_solid();
    lemma_bytes_bg_solid_now();
    lemma_bytes_bg_bitmap();
    lemma_bytes_bg_bitmap_now();
    lemma_bytes_bg_blur();
    lemma_bytes_bg_blur_now();
    lemma_bytes_button_default();
    lemma_bytes_button_rotate();
    lemma_bytes_noise_reduction_off();
    lemma_bytes_noise_reduction_on();
    lemma_bytes_bg_solid_blue();
    lemma_bytes_bg_solid_blue_now();
    lemma_bytes_bg_solid_green();
    lemma_bytes_bg_solid_green_now();
    lemma_bytes_bg_solid_red();
    lemma_bytes_bg_solid_red_now();
    lemma_bytes_bg_solid_black();
    lemma_bytes_bg_solid_black_now();
    lemma_bytes_bg_solid_white();
    lemma_bytes_bg_solid_white_now();
    lemma_bytes_auto_frame_group();
    lemma_bytes_auto_frame_group_now();
    lemma_bytes_auto_frame_face();
    lemma_bytes_auto_frame_face_now();
    lemma_bytes_auto_frame_body();
    lemma_bytes_auto_frame_body_now();
    lemma_bytes_bg_blur_level();
    lemma_bytes_bg_blur_leve();
    reveal(fixed_command);
    reveal(numeric_command);
}

proof fn lemma_numeric_bg_bitmap_n()
    ensures
        fixed_command("bg-bitmap-n".spec_bytes()) is None,
        forall|arg: Option<Seq<u8>>|
            #[trigger] numeric_command("bg-bitmap-n".spec_bytes(), arg) == Some(
                match numeric_argument(arg, 65535) {
                    Ok(v) => Ok(CommandView::Apply(Setting::BgBitmapN(v as u16))),
                    Err(e) => Err::<CommandView, CommandError>(e),
                },
            ),
{
    lemma_bytes_bg_bitmap_n();
    lemma_bytes_info();
    lemma_bytes_get();
    lemma_bytes_effect_off();
    lemma_bytes_effect_bg();
    lemma_bytes_effect_track();
    lemma_bytes_hdr_off();
    lemma_bytes_hdr_on();
    lemma_bytes_face_ae_off();
    lemma_bytes_face_ae_on();
    lemma_bytes_angle_65();
    lemma_bytes_angle_78();
    lemma_bytes_angle_85();
    lemma_bytes_bg_solid();
    lemma_bytes_bg_solid_now();
    lemma_bytes_bg_bitmap();
    lemma_bytes_bg_bitmap_now();
    lemma_bytes_bg_blur();
    lemma_bytes_bg_blur_now();
    lemma_bytes_button_default();
    lemma_bytes_button_rotate();
    lemma_bytes_noise_reduction_off();
    lemma_bytes_noise_reduction_on();
    lemma_bytes_bg_solid_blue();
    lemma_bytes_bg_solid_blue_now();
    lemma_bytes_bg_solid_green();
    lemma_bytes_bg_solid_green_now();
    lemma_bytes_bg_solid_red();
    lemma_bytes_bg_solid_red_now();
    lemma_bytes_bg_solid_black();
    lemma_bytes_bg_solid_black_now();
    lemma_bytes_bg_solid_white();
    lemma_bytes_bg_solid_white_now();
    lemma_bytes_auto_frame_group();
    lemma_bytes_auto_frame_group_now();
    lemma_bytes_auto_frame_face();
    lemma_bytes_auto_frame_face_now();
    lemma_bytes_auto_frame_body();
    lemma_bytes_auto_frame_body_now();
    lemma_bytes_bg_blur_level();
    lemma_bytes_bg_blur_leve();
    lemma_bytes_bg_blur_level_now();
    reveal(fixed_command);
    reveal(numeric_command);
}

proof fn lemma_numeric_bg_bitmap_n_now()
    ensures
        fixed_command("bg-bitmap-n!".spec_bytes()) is None,
        forall|arg: Option<Seq<u8>>|
            #[trigger] numeric_command("bg-bitmap-n!".spec_bytes(), arg) == Some(
                match numeric_argument(arg, 65535) {
                    Ok(v) => Ok(CommandView::ApplyNow(Setting::BgBitmapN(v as u16))),
                    Err(e) => Err::<CommandView, CommandError>(e),
                },
            ),
{
    lemma_bytes_bg_bitmap_n_now();
    lemma_bytes_info();
    lemma_bytes_get();
    lemma_bytes_effect_off();
    lemma_bytes_effect_bg();
    lemma_bytes_effect_track();
    lemma_bytes_hdr_off();
    lemma_bytes_hdr_on();
    lemma_bytes_face_ae_off();
    lemma_bytes_face_ae_on();
    lemma_bytes_angle_65();
    lemma_bytes_angle_78();
    lemma_bytes_angle_85();
    lemma_bytes_bg_solid();
    lemma_bytes_bg_solid_now();
    lemma_bytes_bg_bitmap();
    lemma_bytes_bg_bitmap_now();
    lemma_bytes_bg_blur();
    lemma_bytes_bg_blur_now();
    lemma_bytes_button_default();
    lemma_bytes_button_rotate();
    lemma_bytes_noise_reduction_off();
    lemma_bytes_noise_reduction_on();
    lemma_bytes_bg_solid_blue();
    lemma_bytes_bg_solid_blue_now();
    lemma_bytes_bg_solid_green();
    lemma_bytes_bg_solid_green_now();
    lemma_bytes_bg_solid_red();
    lemma_bytes_bg_solid_red_now();
    lemma_bytes_bg_solid_black();
    lemma_bytes_bg_solid_black_now();
    lemma_bytes_bg_solid_white();
    lemma_bytes_bg_solid_white_now();
    lemma_bytes_auto_frame_group();
    lemma_bytes_auto_frame_group_now();
    lemma_bytes_auto_frame_face();
    lemma_bytes_auto_frame_face_now();
    lemma_bytes_auto_frame_body();
    lemma_bytes_auto_frame_body_now();
    lemma_bytes_bg_blur_level();
    lemma_bytes_bg_blur_leve();
    lemma_bytes_bg_blur_level_now();
    lemma_bytes_bg_bitmap_n();
    reveal(fixed_command);
    reveal(numeric_command);
}

proof fn lemma_numeric_sleep()
    ensures
        fixed_command("sleep".spec_bytes()) is None,
        forall|arg: Option<Seq<u8>>|
            #[trigger] numeric_command("sleep".spec_bytes(), arg) == Some(
                match numeric_argument(arg, 65535) {
                    Ok(v) => Ok(CommandView::Apply(Setting::Sleep(v as u16))),
                    Err(e) => Err::<CommandView, CommandError>(e),
                },
            ),
{
    lemma_bytes_sleep();
    lemma_bytes_info();
    lemma_bytes_get();
    lemma_bytes_effect_off();
    lemma_bytes_effect_bg();
    lemma_bytes_effect_track();
    lemma_bytes_hdr_off();
    lemma_bytes_hdr_on();
    lemma_bytes_face_ae_off();
    lemma_bytes_face_ae_on();
    lemma_bytes_angle_65();
    lemma_bytes_angle_78();
    lemma_bytes_angle_85();
    lemma_bytes_bg_solid();
    lemma_bytes_bg_solid_now();
    lemma_bytes_bg_bitmap();
    lemma_bytes_bg_bitmap_now();
    lemma_bytes_bg_blur();
    lemma_bytes_bg_blur_now();
    lemma_bytes_button_default();
    lemma_bytes_button_rotate();
    lemma_bytes_noise_reduction_off();
    lemma_bytes_noise_reduction_on();
    lemma_bytes_bg_solid_blue();
    lemma_bytes_bg_solid_blue_now();
    lemma_bytes_bg_solid_green();
    lemma_bytes_bg_solid_green_now();
    lemma_bytes_bg_solid_red();
    lemma_bytes_bg_solid_red_now();
    lemma_bytes_bg_solid_black();
    lemma_bytes_bg_solid_black_now();
    lemma_bytes_bg_solid_white();
    lemma_bytes_bg_solid_white_now();
    lemma_bytes_auto_frame_group();
    lemma_bytes_auto_frame_group_now();
    lemma_bytes_auto_frame_face();
    lemma_bytes_auto_frame_face_now();
    lemma_bytes_auto_frame_body();
    lemma_bytes_auto_frame_body_now();
    lemma_bytes_bg_blur_level();
    lemma_bytes_bg_blur_leve();
    lemma_bytes_bg_blur_level_now();
    lemma_bytes_bg_bitmap_n();
    lemma_bytes_bg_bitmap_n_now();
    reveal(fixed_command);
    reveal(numeric_command);
}

proof fn lemma_hex_name()
    ensures
        fixed_command("hex".spec_bytes()) is None,
        forall|arg: Option<Seq<u8>>| (#[trigger] numeric_command("hex".spec_bytes(), arg)) is None,
{
    lemma_bytes_hex();
    lemma_bytes_info();
    lemma_bytes_get();
    lemma_bytes_effect_off();
    lemma_bytes_effect_bg();
    lemma_bytes_effect_track();
    lemma_bytes_hdr_off();
    lemma_bytes_hdr_on();
    lemma_bytes_face_ae_off();
    lemma_bytes_face_ae_on();
    lemma_bytes_angle_65();
    lemma_bytes_angle_78();
    lemma_bytes_angle_85();
    lemma_bytes_bg_solid();
    lemma_bytes_bg_solid_now();
    lemma_bytes_bg_bitmap();
    lemma_bytes_bg_bitmap_now();
    lemma_bytes_bg_blur();
    lemma_bytes_bg_blur_now();
    lemma_bytes_button_default();
    lemma_bytes_button_rotate();
    lemma_bytes_noise_reduction_off();
    lemma_bytes_noise_reduction_on();
    lemma_bytes_bg_solid_blue();
    lemma_bytes_bg_solid_blue_now();
    lemma_bytes_bg_solid_green();
    lemma_bytes_bg_solid_green_now();
    lemma_bytes_bg_solid_red();
    lemma_bytes_bg_solid_red_now();
    lemma_bytes_bg_solid_black();
    lemma_bytes_bg_solid_black_now();
    lemma_bytes_bg_solid_white();
    lemma_bytes_bg_solid_white_now();
    lemma_bytes_auto_frame_group();
    lemma_bytes_auto_frame_group_now();
    lemma_bytes_auto_frame_face();
    lemma_bytes_auto_frame_face_now();
    lemma_bytes_auto_frame_body();
    lemma_bytes_auto_frame_body_now();
    lemma_bytes_bg_blur_level();
    lemma_bytes_bg_blur_leve();
    lemma_bytes_bg_blur_level_now();
    lemma_bytes_bg_bitmap_n();
    lemma_bytes_bg_bitmap_n_now();
    lemma_bytes_sleep();
    reveal(fixed_command);
    reveal(numeric_command);
}

proof fn lemma_parse_info()
    ensures
        parse_command("info".spec_bytes()) == Ok::<CommandView, CommandError>(CommandView::Info),
        forall|t: Seq<u8>|
            #[trigger] parse_command("info".spec_bytes() + seq![EQUALS] + t) == Ok::<CommandView, CommandError>(CommandView::Info),
{
    lemma_bytes_info();
    lemma_fixed_info();
    lemma_word_name_only("info".spec_bytes());
    assert forall|t: Seq<u8>|
        #[trigger] parse_command("info".spec_bytes() + seq![EQUALS] + t) == Ok::<CommandView, CommandError>(CommandView::Info) by {
        lemma_word_split("info".spec_bytes(), t);
    }
}

proof fn lemma_parse_get()
    ensures
        parse_command("get".spec_bytes()) == Ok::<CommandView, CommandError>(CommandView::Dump),
        forall|t: Seq<u8>|
            #[trigger] parse_command("get".spec_bytes() + seq![EQUALS] + t) == Ok::<CommandView, CommandError>(CommandView::Dump),
{
    lemma_bytes_get();
    lemma_fixed_get();
    lemma_word_name_only("get".spec_bytes());
    assert forall|t: Seq<u8>|
        #[trigger] parse_command("get".spec_bytes() + seq![EQUALS] + t) == Ok::<CommandView, CommandError>(CommandView::Dump) by {
        lemma_word_split("get".spec_bytes(), t);
    }
}

proof fn lemma_parse_effect_off()
    ensures
        parse_command("effect-off".spec_bytes()) == Ok::<CommandView, CommandError>(CommandView::Apply(Setting::EffectOff)),
        forall|t: Seq<u8>|
            #[trigger] parse_command("effect-off".spec_bytes() + seq![EQUALS] + t) == Ok::<CommandView, CommandError>(CommandView::Apply(Setting::EffectOff)),
{
    lemma_bytes_effect_off();
    lemma_fixed_effect_off();
    lemma_word_name_only("effect-off".spec_bytes());
    assert forall|t: Seq<u8>|
        #[trigger] parse_command("effect-off".spec_bytes() + seq![EQUALS] + t) == Ok::<CommandView, CommandError>(CommandView::Apply(Setting::EffectOff)) by {
        lemma_word_split("effect-off".spec_bytes(), t);
    }
}

proof fn lemma_parse_effect_bg()
    ensures
        parse_command("effect-bg".spec_bytes()) == Ok::<CommandView, CommandError>(CommandView::Apply(Setting::EffectBg)),
        forall|t: Seq<u8>|
            #[trigger] parse_command("effect-bg".spec_bytes() + seq![EQUALS] + t) == Ok::<CommandView, CommandError>(CommandView::Apply(Setting::EffectBg)),
{
    lemma_bytes_effect_bg();
    lemma_fixed_effect_bg();
    lemma_word_name_only("effect-bg".spec_bytes());
    assert forall|t: Seq<u8>|
        #[trigger] parse_command("effect-bg".spec_bytes() + seq![EQUALS] + t) == Ok::<CommandView, CommandError>(CommandView::Apply(Setting::EffectBg)) by {
        lemma_word_split("effect-bg".spec_bytes(), t);
    }
}

proof fn lemma_parse_effect_track()
    ensures
        parse_command("effect-track".spec_bytes()) == Ok::<CommandView, CommandError>(CommandView::Apply(Setting::EffectTrack)),
        forall|t: Seq<u8>|
            #[trigger] parse_command("effect-track".spec_bytes() + seq![EQUALS] + t) == Ok::<CommandView, CommandError>(CommandView::Apply(Setting::EffectTrack)),
{
    lemma_bytes_effect_track();
    lemma_fixed_effect_track();
    lemma_word_name_only("effect-track".spec_bytes());
    assert forall|t: Seq<u8>|
        #[trigger] parse_command("effect-track".spec_bytes() + seq![EQUALS] + t) == Ok::<CommandView, CommandError>(CommandView::Apply(Setting::EffectTrack)) by {
        lemma_word_split("effect-track".spec_bytes(), t);
    }
}

proof fn lemma_parse_hdr_off()
    ensures
        parse_command("hdr-off".spec_bytes()) == Ok::<CommandView, CommandError>(CommandView::Apply(Setting::HdrOff)),
        forall|t: Seq<u8>|
            #[trigger] parse_command("hdr-off".spec_bytes() + seq![EQUALS] + t) == Ok::<CommandView, CommandError>(CommandView::Apply(Setting::HdrOff)),
{
    lemma_bytes_hdr_off();
    lemma_fixed_hdr_off();
    lemma_word_name_only("hdr-off".spec_bytes());
    assert forall|t: Seq<u8>|
        #[trigger] parse_command("hdr-off".spec_bytes() + seq![EQUALS] + t) == Ok::<CommandView, CommandError>(CommandView::Apply(Setting::HdrOff)) by {
        lemma_word_split("hdr-off".spec_bytes(), t);
    }
}

proof fn lemma_parse_hdr_on()
    ensures
        parse_command("hdr-on".spec_bytes()) == Ok::<CommandView, CommandError>(CommandView::Apply(Setting::HdrOn)),
        forall|t: Seq<u8>|
            #[trigger] parse_command("hdr-on".spec_bytes() + seq![EQUALS] + t) == Ok::<CommandView, CommandError>(CommandView::Apply(Setting::HdrOn)),
{
    lemma_bytes_hdr_on();
    lemma_fixed_hdr_on();
    lemma_word_name_only("hdr-on".spec_bytes());
    assert forall|t: Seq<u8>|
        #[trigger] parse_command("hdr-on".spec_bytes() + seq![EQUALS] + t) == Ok::<CommandView, CommandError>(CommandView::Apply(Setting::HdrOn)) by {
        lemma_word_split("hdr-on".spec_bytes(), t);
    }
}

proof fn lemma_parse_face_ae_off()
    ensures
        parse_command("face-ae-off".spec_bytes()) == Ok::<CommandView, CommandError>(CommandView::Apply(Setting::FaceAeOff)),
        forall|t: Seq<u8>|
            #[trigger] parse_command("face-ae-off".spec_bytes() + seq![EQUALS] + t) == Ok::<CommandView, CommandError>(CommandView::Apply(Setting::FaceAeOff)),
{
    lemma_bytes_face_ae_off();
    lemma_fixed_face_ae_off();
    lemma_word_name_only("face-ae-off".spec_bytes());
    assert forall|t: Seq<u8>|
        #[trigger] parse_command("face-ae-off".spec_bytes() + seq![EQUALS] + t) == Ok::<CommandView, CommandError>(CommandView::Apply(Setting::FaceAeOff)) by {
        lemma_word_split("face-ae-off".spec_bytes(), t);
    }
}

proof fn lemma_parse_face_ae_on()
    ensures
        parse_command("face-ae-on".spec_bytes()) == Ok::<CommandView, CommandError>(CommandView::Apply(Setting::FaceAeOn)),
        forall|t: Seq<u8>|
            #[trigger] parse_command("face-ae-on".spec_bytes() + seq![EQUALS] + t) == Ok::<CommandView, CommandError>(CommandView::Apply(Setting::FaceAeOn)),
{
    lemma_bytes_face_ae_on();
    lemma_fixed_face_ae_on();
    lemma_word_name_only("face-ae-on".spec_bytes());
    assert forall|t: Seq<u8>|
        #[trigger] parse_command("face-ae-on".spec_bytes() + seq![EQUALS] + t) == Ok::<CommandView, CommandError>(CommandView::Apply(Setting::FaceAeOn)) by {
        lemma_word_split("face-ae-on".spec_bytes(), t);
    }
}

proof fn lemma_parse_angle_65()
    ensures
        parse_command("angle-65".spec_bytes()) == Ok::<CommandView, CommandError>(CommandView::Apply(Setting::Angle65)),
        forall|t: Seq<u8>|
            #[trigger] parse_command("angle-65".spec_bytes() + seq![EQUALS] + t) == Ok::<CommandView, CommandError>(CommandView::Apply(Setting::Angle65)),
{
    lemma_bytes_angle_65();
    lemma_fixed_angle_65();
    lemma_word_name_only("angle-65".spec_bytes());
    assert forall|t: Seq<u8>|
        #[trigger] parse_command("angle-65".spec_bytes() + seq![EQUALS] + t) == Ok::<CommandView, CommandError>(CommandView::Apply(Setting::Angle65)) by {
        lemma_word_split("angle-65".spec_bytes(), t);
    }
}

proof fn lemma_parse_angle_78()
    ensures
        parse_command("angle-78".spec_bytes()) == Ok::<CommandView, CommandError>(CommandView::Apply(Setting::Angle78)),
        forall|t: Seq<u8>|
            #[trigger] parse_command("angle-78".spec_bytes() + seq![EQUALS] + t) == Ok::<CommandView, CommandError>(CommandView::Apply(Setting::Angle78)),
{
    lemma_bytes_angle_78();
    lemma_fixed_angle_78();
    lemma_word_name_only("angle-78".spec_bytes());
    assert forall|t: Seq<u8>|
        #[trigger] parse_command("angle-78".spec_bytes() + seq![EQUALS] + t) == Ok::<CommandView, CommandError>(CommandView::Apply(Setting::Angle78)) by {
        lemma_word_split("angle-78".spec_bytes(), t);
    }
}

proof fn lemma_parse_angle_85()
    ensures
        parse_command("angle-85".spec_bytes()) == Ok::<CommandView, CommandError>(CommandView::Apply(Setting::Angle85)),
        forall|t: Seq<u8>|
            #[trigger] parse_command("angle-85".spec_bytes() + seq![EQUALS] + t) == Ok::<CommandView, CommandError>(CommandView::Apply(Setting::Angle85)),
{
    lemma_bytes_angle_85();
    lemma_fixed_angle_85();
    lemma_word_name_only("angle-85".spec_bytes());
    assert forall|t: Seq<u8>|
        #[trigger] parse_command("angle-85".spec_bytes() + seq![EQUALS] + t) == Ok::<CommandView, CommandError>(CommandView::Apply(Setting::Angle85)) by {
        lemma_word_split("angle-85".spec_bytes(), t);
    }
}

proof fn lemma_parse_bg_solid()
    ensures
        parse_command("bg-solid".spec_bytes()) == Ok::<CommandView, CommandError>(CommandView::Apply(Setting::BgSolid)),
        forall|t: Seq<u8>|
            #[trigger] parse_command("bg-solid".spec_bytes() + seq![EQUALS] + t) == Ok::<CommandView, CommandError>(CommandView::Apply(Setting::BgSolid)),
{
    lemma_bytes_bg_solid();
    lemma_fixed_bg_solid();
    lemma_word_name_only("bg-solid".spec_bytes());
    assert forall|t: Seq<u8>|
        #[trigger] parse_command("bg-solid".spec_bytes() + seq![EQUALS] + t) == Ok::<CommandView, CommandError>(CommandView::Apply(Setting::BgSolid)) by {
        lemma_word_split("bg-solid".spec_bytes(), t);
    }
}

proof fn lemma_parse_bg_solid_now()
    ensures
        parse_command("bg-solid!".spec_bytes()) == Ok::<CommandView, CommandError>(CommandView::ApplyNow(Setting::BgSolid)),
        forall|t: Seq<u8>|
            #[trigger] parse_command("bg-solid!".spec_bytes() + seq![EQUALS] + t) == Ok::<CommandView, CommandError>(CommandView::ApplyNow(Setting::BgSolid)),
{
    lemma_bytes_bg_solid_now();
    lemma_fixed_bg_solid_now();
    lemma_word_name_only("bg-solid!".spec_bytes());
    assert forall|t: Seq<u8>|
        #[trigger] parse_command("bg-solid!".spec_bytes() + seq![EQUALS] + t) == Ok::<CommandView, CommandError>(CommandView::ApplyNow(Setting::BgSolid)) by {
        lemma_word_split("bg-solid!".spec_bytes(), t);
    }
}

proof fn lemma_parse_bg_bitmap()
    ensures
        parse_command("bg-bitmap".spec_bytes()) == Ok::<CommandView, CommandError>(CommandView::Apply(Setting::BgBitmap)),
        forall|t: Seq<u8>|
            #[trigger] parse_command("bg-bitmap".spec_bytes() + seq![EQUALS] + t) == Ok::<CommandView, CommandError>(CommandView::Apply(Setting::BgBitmap)),
{
    lemma_bytes_bg_bitmap();
    lemma_fixed_bg_bitmap();
    lemma_word_name_only("bg-bitmap".spec_bytes());
    assert forall|t: Seq<u8>|
        #[trigger] parse_command("bg-bitmap".spec_bytes() + seq![EQUALS] + t) == Ok::<CommandView, CommandError>(CommandView::Apply(Setting::BgBitmap)) by {
        lemma_word_split("bg-bitmap".spec_bytes(), t);
    }
}

proof fn lemma_parse_bg_bitmap_now()
    ensures
        parse_command("bg-bitmap!".spec_bytes()) == Ok::<CommandView, CommandError>(CommandView::ApplyNow(Setting::BgBitmap)),
        forall|t: Seq<u8>|
            #[trigger] parse_command("bg-bitmap!".spec_bytes() + seq![EQUALS] + t) == Ok::<CommandView, CommandError>(CommandView::ApplyNow(Setting::BgBitmap)),
{
    lemma_bytes_bg_bitmap_now();
    lemma_fixed_bg_bitmap_now();
    lemma_word_name_only("bg-bitmap!".spec_bytes());
    assert forall|t: Seq<u8>|
        #[trigger] parse_command("bg-bitmap!".spec_bytes() + seq![EQUALS] + t) == Ok::<CommandView, CommandError>(CommandView::ApplyNow(Setting::BgBitmap)) by {
        lemma_word_split("bg-bitmap!".spec_bytes(), t);
    }
}

proof fn lemma_parse_bg_blur()
    ensures
        parse_command("bg-blur".spec_bytes()) == Ok::<CommandView, CommandError>(CommandView::Apply(Setting::BgBlur)),
        forall|t: Seq<u8>|
            #[trigger] parse_command("bg-blur".spec_bytes() + seq![EQUALS] + t) == Ok::<CommandView, CommandError>(CommandView::Apply(Setting::BgBlur)),
{
    lemma_bytes_bg_blur();
    lemma_fixed_bg_blur();
    lemma_word_name_only("bg-blur".spec_bytes());
    assert forall|t: Seq<u8>|
        #[trigger] parse_command("bg-blur".spec_bytes() + seq![EQUALS] + t) == Ok::<CommandView, CommandError>(CommandView::Apply(Setting::BgBlur)) by {
        lemma_word_split("bg-blur".spec_bytes(), t);
    }
}

proof fn lemma_parse_bg_blur_now()
    ensures
        parse_command("bg-blur!".spec_bytes()) == Ok::<CommandView, CommandError>(CommandView::ApplyNow(Setting::BgBlur)),
        forall|t: Seq<u8>|
            #[trigger] parse_command("bg-blur!".spec_bytes() + seq![EQUALS] + t) == Ok::<CommandView, CommandError>(CommandView::ApplyNow(Setting::BgBlur)),
{
    lemma_bytes_bg_blur_now();
    lemma_fixed_bg_blur_now();
    lemma_word_name_only("bg-blur!".spec_bytes());
    assert forall|t: Seq<u8>|
        #[trigger] parse_command("bg-blur!".spec_bytes() + seq![EQUALS] + t) == Ok::<CommandView, CommandError>(CommandView::ApplyNow(Setting::BgBlur)) by {
        lemma_word_split("bg-blur!".spec_bytes(), t);
    }
}

proof fn lemma_parse_button_default()
    ensures
        parse_command("button-default".spec_bytes()) == Ok::<CommandView, CommandError>(CommandView::Apply(Setting::ButtonDefault)),
        forall|t: Seq<u8>|
            #[trigger] parse_command("button-default".spec_bytes() + seq![EQUALS] + t) == Ok::<CommandView, CommandError>(CommandView::Apply(Setting::ButtonDefault)),
{
    lemma_bytes_button_default();
    lemma_fixed_button_default();
    lemma_word_name_only("button-default".spec_bytes());
    assert forall|t: Seq<u8>|
        #[trigger] parse_command("button-default".spec_bytes() + seq![EQUALS] + t) == Ok::<CommandView, CommandError>(CommandView::Apply(Setting::ButtonDefault)) by {
        lemma_word_split("button-default".spec_bytes(), t);
    }
}

proof fn lemma_parse_button_rotate()
    ensures
        parse_command("button-rotate".spec_bytes()) == Ok::<CommandView, CommandError>(CommandView::Apply(Setting::ButtonRotate)),
        forall|t: Seq<u8>|
            #[trigger] parse_command("button-rotate".spec_bytes() + seq![EQUALS] + t) == Ok::<CommandView, CommandError>(CommandView::Apply(Setting::ButtonRotate)),
{
    lemma_bytes_button_rotate();
    lemma_fixed_button_rotate();
    lemma_word_name_only("button-rotate".spec_bytes());
    assert forall|t: Seq<u8>|
        #[trigger] parse_command("button-rotate".spec_bytes() + seq![EQUALS] + t) == Ok::<CommandView, CommandError>(CommandView::Apply(Setting::ButtonRotate)) by {
        lemma_word_split("button-rotate".spec_bytes(), t);
    }
}

proof fn lemma_parse_noise_reduction_off()
    ensures
        parse_command("noise-reduction-off".spec_bytes()) == Ok::<CommandView, CommandError>(CommandView::Apply(Setting::NoiseReductionOff)),
        forall|t: Seq<u8>|
            #[trigger] parse_command("noise-reduction-off".spec_bytes() + seq![EQUALS] + t) == Ok::<CommandView, CommandError>(CommandView::Apply(Setting::NoiseReductionOff)),
{
    lemma_bytes_noise_reduction_off();
    lemma_fixed_noise_reduction_off();
    lemma_word_name_only("noise-reduction-off".spec_bytes());
    assert forall|t: Seq<u8>|
        #[trigger] parse_command("noise-reduction-off".spec_bytes() + seq![EQUALS] + t) == Ok::<CommandView, CommandError>(CommandView::Apply(Setting::NoiseReductionOff)) by {
        lemma_word_split("noise-reduction-off".spec_bytes(), t);
    }
}

proof fn lemma_parse_noise_reduction_on()
    ensures
        parse_command("noise-reduction-on".spec_bytes()) == Ok::<CommandView, CommandError>(CommandView::Apply(Setting::NoiseReductionOn)),
        forall|t: Seq<u8>|
            #[trigger] parse_command("noise-reduction-on".spec_bytes() + seq![EQUALS] + t) == Ok::<CommandView, CommandError>(CommandView::Apply(Setting::NoiseReductionOn)),
{
    lemma_bytes_noise_reduction_on();
    lemma_fixed_noise_reduction_on();
    lemma_word_name_only("noise-reduction-on".spec_bytes());
    assert forall|t: Seq<u8>|
        #[trigger] parse_command("noise-reduction-on".spec_bytes() + seq![EQUALS] + t) == Ok::<CommandView, CommandError>(CommandView::Apply(Setting::NoiseReductionOn)) by {
        lemma_word_split("noise-reduction-on".spec_bytes(), t);
    }
}

proof fn lemma_parse_bg_solid_blue()
    ensures
        parse_command("bg-solid-blue".spec_bytes()) == Ok::<CommandView, CommandError>(CommandView::Apply(Setting::BgSolidBlue)),
        forall|t: Seq<u8>|
            #[trigger] parse_command("bg-solid-blue".spec_bytes() + seq![EQUALS] + t) == Ok::<CommandView, CommandError>(CommandView::Apply(Setting::BgSolidBlue)),
{
    lemma_bytes_bg_solid_blue();
    lemma_fixed_bg_solid_blue();
    lemma_word_name_only("bg-solid-blue".spec_bytes());
    assert forall|t: Seq<u8>|
        #[trigger] parse_command("bg-solid-blue".spec_bytes() + seq![EQUALS] + t) == Ok::<CommandView, CommandError>(CommandView::Apply(Setting::BgSolidBlue)) by {
        lemma_word_split("bg-solid-blue".spec_bytes(), t);
    }
}

proof fn lemma_parse_bg_solid_blue_now()
    ensures
        parse_command("bg-solid-blue!".spec_bytes()) == Ok::<CommandView, CommandError>(CommandView::ApplyNow(Setting::BgSolidBlue)),
        forall|t: Seq<u8>|
            #[trigger] parse_command("bg-solid-blue!".spec_bytes() + seq![EQUALS] + t) == Ok::<CommandView, CommandError>(CommandView::ApplyNow(Setting::BgSolidBlue)),
{
    lemma_bytes_bg_solid_blue_now();
    lemma_fixed_bg_solid_blue_now();
    lemma_word_name_only("bg-solid-blue!".spec_bytes());
    assert forall|t: Seq<u8>|
        #[trigger] parse_command("bg-solid-blue!".spec_bytes() + seq![EQUALS] + t) == Ok::<CommandView, CommandError>(CommandView::ApplyNow(Setting::BgSolidBlue)) by {
        lemma_word_split("bg-solid-blue!".spec_bytes(), t);
    }
}

proof fn lemma_parse_bg_solid_green()
    ensures
        parse_command("bg-solid-green".spec_bytes()) == Ok::<CommandView, CommandError>(CommandView::Apply(Setting::BgSolidGreen)),
        forall|t: Seq<u8>|
            #[trigger] parse_command("bg-solid-green".spec_bytes() + seq![EQUALS] + t) == Ok::<CommandView, CommandError>(CommandView::Apply(Setting::BgSolidGreen)),
{
    lemma_bytes_bg_solid_green();
    lemma_fixed_bg_solid_green();
    lemma_word_name_only("bg-solid-green".spec_bytes());
    assert forall|t: Seq<u8>|
        #[trigger] parse_command("bg-solid-green".spec_bytes() + seq![EQUALS] + t) == Ok::<CommandView, CommandError>(CommandView::Apply(Setting::BgSolidGreen)) by {
        lemma_word_split("bg-solid-green".spec_bytes(), t);
    }
}

proof fn lemma_parse_bg_solid_green_now()
    ensures
        parse_command("bg-solid-green!".spec_bytes()) == Ok::<CommandView, CommandError>(CommandView::ApplyNow(Setting::BgSolidGreen)),
        forall|t: Seq<u8>|
            #[trigger] parse_command("bg-solid-green!".spec_bytes() + seq![EQUALS] + t) == Ok::<CommandView, CommandError>(CommandView::ApplyNow(Setting::BgSolidGreen)),
{
    lemma_bytes_bg_solid_green_now();
    lemma_fixed_bg_solid_green_now();
    lemma_word_name_only("bg-solid-green!".spec_bytes());
    assert forall|t: Seq<u8>|
        #[trigger] parse_command("bg-solid-green!".spec_bytes() + seq![EQUALS] + t) == Ok::<CommandView, CommandError>(CommandView::ApplyNow(Setting::BgSolidGreen)) by {
        lemma_word_split("bg-solid-green!".spec_bytes(), t);
    }
}

proof fn lemma_parse_bg_solid_red()
    ensures
        parse_command("bg-solid-red".spec_bytes()) == Ok::<CommandView, CommandError>(CommandView::Apply(Setting::BgSolidRed)),
        forall|t: Seq<u8>|
            #[trigger] parse_command("bg-solid-red".spec_bytes() + seq![EQUALS] + t) == Ok::<CommandView, CommandError>(CommandView::Apply(Setting::BgSolidRed)),
{
    lemma_bytes_bg_solid_red();
    lemma_fixed_bg_solid_red();
    lemma_word_name_only("bg-solid-red".spec_bytes());
    assert forall|t: Seq<u8>|
        #[trigger] parse_command("bg-solid-red".spec_bytes() + seq![EQUALS] + t) == Ok::<CommandView, CommandError>(CommandView::Apply(Setting::BgSolidRed)) by {
        lemma_word_split("bg-solid-red".spec_bytes(), t);
    }
}

proof fn lemma_parse_bg_solid_red_now()
    ensures
        parse_command("bg-solid-red!".spec_bytes()) == Ok::<CommandView, CommandError>(CommandView::ApplyNow(Setting::BgSolidRed)),
        forall|t: Seq<u8>|
            #[trigger] parse_command("bg-solid-red!".spec_bytes() + seq![EQUALS] + t) == Ok::<CommandView, CommandError>(CommandView::ApplyNow(Setting::BgSolidRed)),
{
    lemma_bytes_bg_solid_red_now();
    lemma_fixed_bg_solid_red_now();
    lemma_word_name_only("bg-solid-red!".spec_bytes());
    assert forall|t: Seq<u8>|
        #[trigger] parse_command("bg-solid-red!".spec_bytes() + seq![EQUALS] + t) == Ok::<CommandView, CommandError>(CommandView::ApplyNow(Setting::BgSolidRed)) by {
        lemma_word_split("bg-solid-red!".spec_bytes(), t);
    }
}

proof fn lemma_parse_bg_solid_black()
    ensures
        parse_command("bg-solid-black".spec_bytes()) == Ok::<CommandView, CommandError>(CommandView::Apply(Setting::BgSolidBlack)),
        forall|t: Seq<u8>|
            #[trigger] parse_command("bg-solid-black".spec_bytes() + seq![EQUALS] + t) == Ok::<CommandView, CommandError>(CommandView::Apply(Setting::BgSolidBlack)),
{
    lemma_bytes_bg_solid_black();
    lemma_fixed_bg_solid_black();
    lemma_word_name_only("bg-solid-black".spec_bytes());
    assert forall|t: Seq<u8>|
        #[trigger] parse_command("bg-solid-black".spec_bytes() + seq![EQUALS] + t) == Ok::<CommandView, CommandError>(CommandView::Apply(Setting::BgSolidBlack)) by {
        lemma_word_split("bg-solid-black".spec_bytes(), t);
    }
}

proof fn lemma_parse_bg_solid_black_now()
    ensures
        parse_command("bg-solid-black!".spec_bytes()) == Ok::<CommandView, CommandError>(CommandView::ApplyNow(Setting::BgSolidBlack)),
        forall|t: Seq<u8>|
            #[trigger] parse_command("bg-solid-black!".spec_bytes() + seq![EQUALS] + t) == Ok::<CommandView, CommandError>(CommandView::ApplyNow(Setting::BgSolidBlack)),
{
    lemma_bytes_bg_solid_black_now();
    lemma_fixed_bg_solid_black_now();
    lemma_word_name_only("bg-solid-black!".spec_bytes());
    assert forall|t: Seq<u8>|
        #[trigger] parse_command("bg-solid-black!".spec_bytes() + seq![EQUALS] + t) == Ok::<CommandView, CommandError>(CommandView::ApplyNow(Setting::BgSolidBlack)) by {
        lemma_word_split("bg-solid-black!".spec_bytes(), t);
    }
}

proof fn lemma_parse_bg_solid_white()
    ensures
        parse_command("bg-solid-white".spec_bytes()) == Ok::<CommandView, CommandError>(CommandView::Apply(Setting::BgSolidWhite)),
        forall|t: Seq<u8>|
            #[trigger] parse_command("bg-solid-white".spec_bytes() + seq![EQUALS] + t) == Ok::<CommandView, CommandError>(CommandView::Apply(Setting::BgSolidWhite)),
{
    lemma_bytes_bg_solid_white();
    lemma_fixed_bg_solid_white();
    lemma_word_name_only("bg-solid-white".spec_bytes());
    assert forall|t: Seq<u8>|
        #[trigger] parse_command("bg-solid-white".spec_bytes() + seq![EQUALS] + t) == Ok::<CommandView, CommandError>(CommandView::Apply(Setting::BgSolidWhite)) by {
        lemma_word_split("bg-solid-white".spec_bytes(), t);
    }
}

proof fn lemma_parse_bg_solid_white_now()
    ensures
        parse_command("bg-solid-white!".spec_bytes()) == Ok::<CommandView, CommandError>(CommandView::ApplyNow(Setting::BgSolidWhite)),
        forall|t: Seq<u8>|
            #[trigger] parse_command("bg-solid-white!".spec_bytes() + seq![EQUALS] + t) == Ok::<CommandView, CommandError>(CommandView::ApplyNow(Setting::BgSolidWhite)),
{
    lemma_bytes_bg_solid_white_now();
    lemma_fixed_bg_solid_white_now();
    lemma_word_name_only("bg-solid-white!".spec_bytes());
    assert forall|t: Seq<u8>|
        #[trigger] parse_command("bg-solid-white!".spec_bytes() + seq![EQUALS] + t) == Ok::<CommandView, CommandError>(CommandView::ApplyNow(Setting::BgSolidWhite)) by {
        lemma_word_split("bg-solid-white!".spec_bytes(), t);
    }
}

proof fn lemma_parse_auto_frame_group()
    ensures
        parse_command("auto-frame-group".spec_bytes()) == Ok::<CommandView, CommandError>(CommandView::Apply(Setting::AutoFrameGroup)),
        forall|t: Seq<u8>|
            #[trigger] parse_command("auto-frame-group".spec_bytes() + seq![EQUALS] + t) == Ok::<CommandView, CommandError>(CommandView::Apply(Setting::AutoFrameGroup)),
{
    lemma_bytes_auto_frame_group();
    lemma_fixed_auto_frame_group();
    lemma_word_name_only("auto-frame-group".spec_bytes());
    assert forall|t: Seq<u8>|
        #[trigger] parse_command("auto-frame-group".spec_bytes() + seq![EQUALS] + t) == Ok::<CommandView, CommandError>(CommandView::Apply(Setting::AutoFrameGroup)) by {
        lemma_word_split("auto-frame-group".spec_bytes(), t);
    }
}

proof fn lemma_parse_auto_frame_group_now()
    ensures
        parse_command("auto-frame-group!".spec_bytes()) == Ok::<CommandView, CommandError>(CommandView::ApplyNow(Setting::AutoFrameGroup)),
        forall|t: Seq<u8>|
            #[trigger] parse_command("auto-frame-group!".spec_bytes() + seq![EQUALS] + t) == Ok::<CommandView, CommandError>(CommandView::ApplyNow(Setting::AutoFrameGroup)),
{
    lemma_bytes_auto_frame_group_now();
    lemma_fixed_auto_frame_group_now();
    lemma_word_name_only("auto-frame-group!".spec_bytes());
    assert forall|t: Seq<u8>|
        #[trigger] parse_command("auto-frame-group!".spec_bytes() + seq![EQUALS] + t) == Ok::<CommandView, CommandError>(CommandView::ApplyNow(Setting::AutoFrameGroup)) by {
        lemma_word_split("auto-frame-group!".spec_bytes(), t);
    }
}

proof fn lemma_parse_auto_frame_face()
    ensures
        parse_command("auto-frame-face".spec_bytes()) == Ok::<CommandView, CommandError>(CommandView::Apply(Setting::AutoFrameFace)),
        forall|t: Seq<u8>|
            #[trigger] parse_command("auto-frame-face".spec_bytes() + seq![EQUALS] + t) == Ok::<CommandView, CommandError>(CommandView::Apply(Setting::AutoFrameFace)),
{
    lemma_bytes_auto_frame_face();
    lemma_fixed_auto_frame_face();
    lemma_word_name_only("auto-frame-face".spec_bytes());
    assert forall|t: Seq<u8>|
        #[trigger] parse_command("auto-frame-face".spec_bytes() + seq![EQUALS] + t) == Ok::<CommandView, CommandError>(CommandView::Apply(Setting::AutoFrameFace)) by {
        lemma_word_split("auto-frame-face".spec_bytes(), t);
    }
}

proof fn lemma_parse_auto_frame_face_now()
    ensures
        parse_command("auto-frame-face!".spec_bytes()) == Ok::<CommandView, CommandError>(CommandView::ApplyNow(Setting::AutoFrameFace)),
        forall|t: Seq<u8>|
            #[trigger] parse_command("auto-frame-face!".spec_bytes() + seq![EQUALS] + t) == Ok::<CommandView, CommandError>(CommandView::ApplyNow(Setting::AutoFrameFace)),
{
    lemma_bytes_auto_frame_face_now();
    lemma_fixed_auto_frame_face_now();
    lemma_word_name_only("auto-frame-face!".spec_bytes());
    assert forall|t: Seq<u8>|
        #[trigger] parse_command("auto-frame-face!".spec_bytes() + seq![EQUALS] + t) == Ok::<CommandView, CommandError>(CommandView::ApplyNow(Setting::AutoFrameFace)) by {
        lemma_word_split("auto-frame-face!".spec_bytes(), t);
    }
}

proof fn lemma_parse_auto_frame_body()
    ensures
        parse_command("auto-frame-body".spec_bytes()) == Ok::<CommandView, CommandError>(CommandView::Apply(Setting::AutoFrameBody)),
        forall|t: Seq<u8>|
            #[trigger] parse_command("auto-frame-body".spec_bytes() + seq![EQUALS] + t) == Ok::<CommandView, CommandError>(CommandView::Apply(Setting::AutoFrameBody)),
{
    lemma_bytes_auto_frame_body();
    lemma_fixed_auto_frame_body();
    lemma_word_name_only("auto-frame-body".spec_bytes());
    assert forall|t: Seq<u8>|
        #[trigger] parse_command("auto-frame-body".spec_bytes() + seq![EQUALS] + t) == Ok::<CommandView, CommandError>(CommandView::Apply(Setting::AutoFrameBody)) by {
        lemma_word_split("auto-frame-body".spec_bytes(), t);
    }
}

proof fn lemma_parse_auto_frame_body_now()
    ensures
        parse_command("auto-frame-body!".spec_bytes()) == Ok::<CommandView, CommandError>(CommandView::ApplyNow(Setting::AutoFrameBody)),
        forall|t: Seq<u8>|
            #[trigger] parse_command("auto-frame-body!".spec_bytes() + seq![EQUALS] + t) == Ok::<CommandView, CommandError>(CommandView::ApplyNow(Setting::AutoFrameBody)),
{
    lemma_bytes_auto_frame_body_now();
    lemma_fixed_auto_frame_body_now();
    lemma_word_name_only("auto-frame-body!".spec_bytes());
    assert forall|t: Seq<u8>|
        #[trigger] parse_command("auto-frame-body!".spec_bytes() + seq![EQUALS] + t) == Ok::<CommandView, CommandError>(CommandView::ApplyNow(Setting::AutoFrameBody)) by {
        lemma_word_split("auto-frame-body!".spec_bytes(), t);
    }
}

proof fn lemma_parse_bg_blur_level()
    ensures
        parse_command("bg-blur-level".spec_bytes()) == Err::<CommandView, CommandError>(CommandError::MissingArgument),
        forall|t: Seq<u8>|
            #[trigger] parse_command("bg-blur-level".spec_bytes() + seq![EQUALS] + t) == match parse_unsigned(t, 255) {
                Ok(v) => Ok(CommandView::Apply(Setting::BlurLevel(v as u8))),
                Err(k) => Err::<CommandView, CommandError>(CommandError::BadNumber(k)),
            },
{
    lemma_bytes_bg_blur_level();
    lemma_numeric_bg_blur_level();
    lemma_word_name_only("bg-blur-level".spec_bytes());
    assert(numeric_command("bg-blur-level".spec_bytes(), None::<Seq<u8>>) == Some(Err::<CommandView, CommandError>(CommandError::MissingArgument)));
    assert forall|t: Seq<u8>|
        #[trigger] parse_command("bg-blur-level".spec_bytes() + seq![EQUALS] + t) == match parse_unsigned(t, 255) {
            Ok(v) => Ok(CommandView::Apply(Setting::BlurLevel(v as u8))),
            Err(k) => Err::<CommandView, CommandError>(CommandError::BadNumber(k)),
        } by {
        lemma_word_split("bg-blur-level".spec_bytes(), t);
        assert(numeric_command("bg-blur-level".spec_bytes(), Some(t)) == Some(match numeric_argument(Some(t), 255) {
            Ok(v) => Ok(CommandView::Apply(Setting::BlurLevel(v as u8))),
            Err(e) => Err::<CommandView, CommandError>(e),
        }));
    }
}

proof fn lemma_parse_bg_blur_leve()
    ensures
        parse_command("bg-blur-leve".spec_bytes()) == Err::<CommandView, CommandError>(CommandError::MissingArgument),
        forall|t: Seq<u8>|
            #[trigger] parse_command("bg-blur-leve".spec_bytes() + seq![EQUALS] + t) == match parse_unsigned(t, 255) {
                Ok(v) => Ok(CommandView::Apply(Setting::BlurLevel(v as u8))),
                Err(k) => Err::<CommandView, CommandError>(CommandError::BadNumber(k)),
            },
{
    lemma_bytes_bg_blur_leve();
    lemma_numeric_bg_blur_leve();
    lemma_word_name_only("bg-blur-leve".spec_bytes());
    assert(numeric_command("bg-blur-leve".spec_bytes(), None::<Seq<u8>>) == Some(Err::<CommandView, CommandError>(CommandError::MissingArgument)));
    assert forall|t: Seq<u8>|
        #[trigger] parse_command("bg-blur-leve".spec_bytes() + seq![EQUALS] + t) == match parse_unsigned(t, 255) {
            Ok(v) => Ok(CommandView::Apply(Setting::BlurLevel(v as u8))),
            Err(k) => Err::<CommandView, CommandError>(CommandError::BadNumber(k)),
        } by {
        lemma_word_split("bg-blur-leve".spec_bytes(), t);
        assert(numeric_command("bg-blur-leve".spec_bytes(), Some(t)) == Some(match numeric_argument(Some(t), 255) {
            Ok(v) => Ok(CommandView::Apply(Setting::BlurLevel(v as u8))),
            Err(e) => Err::<CommandView, CommandError>(e),
        }));
    }
}

proof fn lemma_parse_bg_blur_level_now()
    ensures
        parse_command("bg-blur-level!".spec_bytes()) == Err::<CommandView, CommandError>(CommandError::MissingArgument),
        forall|t: Seq<u8>|
            #[trigger] parse_command("bg-blur-level!".spec_bytes() + seq![EQUALS] + t) == match parse_unsigned(t, 255) {
                Ok(v) => Ok(CommandView::ApplyNow(Setting::BlurLevel(v as u8))),
                Err(k) => Err::<CommandView, CommandError>(CommandError::BadNumber(k)),
            },
{
    lemma_bytes_bg_blur_level_now();
    lemma_numeric_bg_blur_level_now();
    lemma_word_name_only("bg-blur-level!".spec_bytes());
    assert(numeric_command("bg-blur-level!".spec_bytes(), None::<Seq<u8>>) == Some(Err::<CommandView, CommandError>(CommandError::MissingArgument)));
    assert forall|t: Seq<u8>|
        #[trigger] parse_command("bg-blur-level!".spec_bytes() + seq![EQUALS] + t) == match parse_unsigned(t, 255) {
            Ok(v) => Ok(CommandView::ApplyNow(Setting::BlurLevel(v as u8))),
            Err(k) => Err::<CommandView, CommandError>(CommandError::BadNumber(k)),
        } by {
        lemma_word_split("bg-blur-level!".spec_bytes(), t);
        assert(numeric_command("bg-blur-level!".spec_bytes(), Some(t)) == Some(match numeric_argument(Some(t), 255) {
            Ok(v) => Ok(CommandView::ApplyNow(Setting::BlurLevel(v as u8))),
            Err(e) => Err::<CommandView, CommandError>(e),
        }));
    }
}

proof fn lemma_parse_bg_bitmap_n()
    ensures
        parse_command("bg-bitmap-n".spec_bytes()) == Err::<CommandView, CommandError>(CommandError::MissingArgument),
        forall|t: Seq<u8>|
            #[trigger] parse_command("bg-bitmap-n".spec_bytes() + seq![EQUALS] + t) == match parse_unsigned(t, 65535) {
                Ok(v) => Ok(CommandView::Apply(Setting::BgBitmapN(v as u16))),
                Err(k) => Err::<CommandView, CommandError>(CommandError::BadNumber(k)),
            },
{
    lemma_bytes_bg_bitmap_n();
    lemma_numeric_bg_bitmap_n();
    lemma_word_name_only("bg-bitmap-n".spec_bytes());
    assert(numeric_command("bg-bitmap-n".spec_bytes(), None::<Seq<u8>>) == Some(Err::<CommandView, CommandError>(CommandError::MissingArgument)));
    assert forall|t: Seq<u8>|
        #[trigger] parse_command("bg-bitmap-n".spec_bytes() + seq![EQUALS] + t) == match parse_unsigned(t, 65535) {
            Ok(v) => Ok(CommandView::Apply(Setting::BgBitmapN(v as u16))),
            Err(k) => Err::<CommandView, CommandError>(CommandError::BadNumber(k)),
        } by {
        lemma_word_split("bg-bitmap-n".spec_bytes(), t);
        assert(numeric_command("bg-bitmap-n".spec_bytes(), Some(t)) == Some(match numeric_argument(Some(t), 65535) {
            Ok(v) => Ok(CommandView::Apply(Setting::BgBitmapN(v as u16))),
            Err(e) => Err::<CommandView, CommandError>(e),
        }));
    }
}

proof fn lemma_parse_bg_bitmap_n_now()
    ensures
        parse_command("bg-bitmap-n!".spec_bytes()) == Err::<CommandView, CommandError>(CommandError::MissingArgument),
        forall|t: Seq<u8>|
            #[trigger] parse_command("bg-bitmap-n!".spec_bytes() + seq![EQUALS] + t) == match parse_unsigned(t, 65535) {
                Ok(v) => Ok(CommandView::ApplyNow(Setting::BgBitmapN(v as u16))),
                Err(k) => Err::<CommandView, CommandError>(CommandError::BadNumber(k)),
            },
{
    lemma_bytes_bg_bitmap_n_now();
    lemma_numeric_bg_bitmap_n_now();
    lemma_word_name_only("bg-bitmap-n!".spec_bytes());
    assert(numeric_command("bg-bitmap-n!".spec_bytes(), None::<Seq<u8>>) == Some(Err::<CommandView, CommandError>(CommandError::MissingArgument)));
    assert forall|t: Seq<u8>|
        #[trigger] parse_command("bg-bitmap-n!".spec_bytes() + seq![EQUALS] + t) == match parse_unsigned(t, 65535) {
            Ok(v) => Ok(CommandView::ApplyNow(Setting::BgBitmapN(v as u16))),
            Err(k) => Err::<CommandView, CommandError>(CommandError::BadNumber(k)),
        } by {
        lemma_word_split("bg-bitmap-n!".spec_bytes(), t);
        assert(numeric_command("bg-bitmap-n!".spec_bytes(), Some(t)) == Some(match numeric_argument(Some(t), 65535) {
            Ok(v) => Ok(CommandView::ApplyNow(Setting::BgBitmapN(v as u16))),
            Err(e) => Err::<CommandView, CommandError>(e),
        }));
    }
}

proof fn lemma_parse_sleep()
    ensures
        parse_command("sleep".spec_bytes()) == Err::<CommandView, CommandError>(CommandError::MissingArgument),
        forall|t: Seq<u8>|
            #[trigger] parse_command("sleep".spec_bytes() + seq![EQUALS] + t) == match parse_unsigned(t, 65535) {
                Ok(v) => Ok(CommandView::Apply(Setting::Sleep(v as u16))),
                Err(k) => Err::<CommandView, CommandError>(CommandError::BadNumber(k)),
            },
{
    lemma_bytes_sleep();
    lemma_numeric_sleep();
    lemma_word_name_only("sleep".spec_bytes());
    assert(numeric_command("sleep".spec_bytes(), None::<Seq<u8>>) == Some(Err::<CommandView, CommandError>(CommandError::MissingArgument)));
    assert forall|t: Seq<u8>|
        #[trigger] parse_command("sleep".spec_bytes() + seq![EQUALS] + t) == match parse_unsigned(t, 65535) {
            Ok(v) => Ok(CommandView::Apply(Setting::Sleep(v as u16))),
            Err(k) => Err::<CommandView, CommandError>(CommandError::BadNumber(k)),
        } by {
        lemma_word_split("sleep".spec_bytes(), t);
        assert(numeric_command("sleep".spec_bytes(), Some(t)) == Some(match numeric_argument(Some(t), 65535) {
            Ok(v) => Ok(CommandView::Apply(Setting::Sleep(v as u16))),
            Err(e) => Err::<CommandView, CommandError>(e),
        }));
    }
}

proof fn lemma_parse_hex()
    ensures
        parse_command("hex".spec_bytes()) == Err::<CommandView, CommandError>(CommandError::MissingArgument),
        forall|t: Seq<u8>|
            #[trigger] parse_command("hex".spec_bytes() + seq![EQUALS] + t) == if is_hex_text(t) {
                Ok::<CommandView, CommandError>(CommandView::Hex(hex_bytes(t)))
            } else {
                Err(CommandError::BadHex)
            },
{
    lemma_bytes_hex();
    lemma_hex_name();
    lemma_word_name_only("hex".spec_bytes());
    assert(numeric_command("hex".spec_bytes(), None::<Seq<u8>>) is None);
    assert forall|t: Seq<u8>|
        #[trigger] parse_command("hex".spec_bytes() + seq![EQUALS] + t) == if is_hex_text(t) {
            Ok::<CommandView, CommandError>(CommandView::Hex(hex_bytes(t)))
        } else {
            Err(CommandError::BadHex)
        } by {
        lemma_word_split("hex".spec_bytes(), t);
        assert(numeric_command("hex".spec_bytes(), Some(t)) is None);
    }
}

proof fn lemma_bang_bg_solid()
    ensures
        match parse_command("bg-solid".spec_bytes()) {
            Ok(CommandView::Apply(s)) => parse_command("bg-solid".spec_bytes() + seq![BANG])
                == Ok::<CommandView, CommandError>(CommandView::ApplyNow(s)),
            _ => false,
        },
{
    lemma_parse_bg_solid();
    lemma_parse_bg_solid_now();
    lemma_bytes_bg_solid();
    lemma_bytes_bg_solid_now();
    assert("bg-solid!".spec_bytes() =~= "bg-solid".spec_bytes() + seq![BANG]);
}

proof fn lemma_bang_bg_bitmap()
    ensures
        match parse_command("bg-bitmap".spec_bytes()) {
            Ok(CommandView::Apply(s)) => parse_command("bg-bitmap".spec_bytes() + seq![BANG])
                == Ok::<CommandView, CommandError>(CommandView::ApplyNow(s)),
            _ => false,
        },
{
    lemma_parse_bg_bitmap();
    lemma_parse_bg_bitmap_now();
    lemma_bytes_bg_bitmap();
    lemma_bytes_bg_bitmap_now();
    assert("bg-bitmap!".spec_bytes() =~= "bg-bitmap".spec_bytes() + seq![BANG]);
}

proof fn lemma_bang_bg_blur()
    ensures
        match parse_command("bg-blur".spec_bytes()) {
            Ok(CommandView::Apply(s)) => parse_command("bg-blur".spec_bytes() + seq![BANG])
                == Ok::<CommandView, CommandError>(CommandView::ApplyNow(s)),
            _ => false,
        },
{
    lemma_parse_bg_blur();
    lemma_parse_bg_blur_now();
    lemma_bytes_bg_blur();
    lemma_bytes_bg_blur_now();
    assert("bg-blur!".spec_bytes() =~= "bg-blur".spec_bytes() + seq![BANG]);
}

proof fn lemma_bang_bg_solid_blue()
    ensures
        match parse_command("bg-solid-blue".spec_bytes()) {
            Ok(CommandView::Apply(s)) => parse_command("bg-solid-blue".spec_bytes() + seq![BANG])
                == Ok::<CommandView, CommandError>(CommandView::ApplyNow(s)),
            _ => false,
        },
{
    lemma_parse_bg_solid_blue();
    lemma_parse_bg_solid_blue_now();
    lemma_bytes_bg_solid_blue();
    lemma_bytes_bg_solid_blue_now();
    assert("bg-solid-blue!".spec_bytes() =~= "bg-solid-blue".spec_bytes() + seq![BANG]);
}

proof fn lemma_bang_bg_solid_green()
    ensures
        match parse_command("bg-solid-green".spec_bytes()) {
            Ok(CommandView::Apply(s)) => parse_command("bg-solid-green".spec_bytes() + seq![BANG])
                == Ok::<CommandView, CommandError>(CommandView::ApplyNow(s)),
            _ => false,
        },
{
    lemma_parse_bg_solid_green();
    lemma_parse_bg_solid_green_now();
    lemma_bytes_bg_solid_green();
    lemma_bytes_bg_solid_green_now();
    assert("bg-solid-green!".spec_bytes() =~= "bg-solid-green".spec_bytes() + seq![BANG]);
}

proof fn lemma_bang_bg_solid_red()
    ensures
        match parse_command("bg-solid-red".spec_bytes()) {
            Ok(CommandView::Apply(s)) => parse_command("bg-solid-red".spec_bytes() + seq![BANG])
                == Ok::<CommandView, CommandError>(CommandView::ApplyNow(s)),
            _ => false,
        },
{
    lemma_parse_bg_solid_red();
    lemma_parse_bg_solid_red_now();
    lemma_bytes_bg_solid_red();
    lemma_bytes_bg_solid_red_now();
    assert("bg-solid-red!".spec_bytes() =~= "bg-solid-red".spec_bytes() + seq![BANG]);
}

proof fn lemma_bang_bg_solid_black()
    ensures
        match parse_command("bg-solid-black".spec_bytes()) {
            Ok(CommandView::Apply(s)) => parse_command("bg-solid-black".spec_bytes() + seq![BANG])
                == Ok::<CommandView, CommandError>(CommandView::ApplyNow(s)),
            _ => false,
        },
{
    lemma_parse_bg_solid_black();
    lemma_parse_bg_solid_black_now();
    lemma_bytes_bg_solid_black();
    lemma_bytes_bg_solid_black_now();
    assert("bg-solid-black!".spec_bytes() =~= "bg-solid-black".spec_bytes() + seq![BANG]);
}

proof fn lemma_bang_bg_solid_white()
    ensures
        match parse_command("bg-solid-white".spec_bytes()) {
            Ok(CommandView::Apply(s)) => parse_command("bg-solid-white".spec_bytes() + seq![BANG])
                == Ok::<CommandView, CommandError>(CommandView::ApplyNow(s)),
            _ => false,
        },
{
    lemma_parse_bg_solid_white();
    lemma_parse_bg_solid_white_now();
    lemma_bytes_bg_solid_white();
    lemma_bytes_bg_solid_white_now();
    assert("bg-solid-white!".spec_bytes() =~= "bg-solid-white".spec_bytes() + seq![BANG]);
}

proof fn lemma_bang_auto_frame_group()
    ensures
        match parse_command("auto-frame-group".spec_bytes()) {
            Ok(CommandView::Apply(s)) => parse_command("auto-frame-group".spec_bytes() + seq![BANG])
                == Ok::<CommandView, CommandError>(CommandView::ApplyNow(s)),
            _ => false,
        },
{
    lemma_parse_auto_frame_group();
    lemma_parse_auto_frame_group_now();
    lemma_bytes_auto_frame_group();
    lemma_bytes_auto_frame_group_now();
    assert("auto-frame-group!".spec_bytes() =~= "auto-frame-group".spec_bytes() + seq![BANG]);
}

proof fn lemma_bang_auto_frame_face()
    ensures
        match parse_command("auto-frame-face".spec_bytes()) {
            Ok(CommandView::Apply(s)) => parse_command("auto-frame-face".spec_bytes() + seq![BANG])
                == Ok::<CommandView, CommandError>(CommandView::ApplyNow(s)),
            _ => false,
        },
{
    lemma_parse_auto_frame_face();
    lemma_parse_auto_frame_face_now();
    lemma_bytes_auto_frame_face();
    lemma_bytes_auto_frame_face_now();
    assert("auto-frame-face!".spec_bytes() =~= "auto-frame-face".spec_bytes() + seq![BANG]);
}

proof fn lemma_bang_auto_frame_body()
    ensures
        match parse_command("auto-frame-body".spec_bytes()) {
            Ok(CommandView::Apply(s)) => parse_command("auto-frame-body".spec_bytes() + seq![BANG])
                == Ok::<CommandView, CommandError>(CommandView::ApplyNow(s)),
            _ => false,
        },
{
    lemma_parse_auto_frame_body();
    lemma_parse_auto_frame_body_now();
    lemma_bytes_auto_frame_body();
    lemma_bytes_auto_frame_body_now();
    assert("auto-frame-body!".spec_bytes() =~= "auto-frame-body".spec_bytes() + seq![BANG]);
}

proof fn lemma_bang_bg_blur_level()
    ensures
        forall|t: Seq<u8>|
            match #[trigger] parse_command("bg-blur-level".spec_bytes() + seq![EQUALS] + t) {
                Ok(CommandView::Apply(s)) => parse_command("bg-blur-level".spec_bytes() + seq![BANG, EQUALS] + t)
                    == Ok::<CommandView, CommandError>(CommandView::ApplyNow(s)),
                Err(e) => parse_command("bg-blur-level".spec_bytes() + seq![BANG, EQUALS] + t) == Err::<
                    CommandView,
                    CommandError,
                >(e),
                _ => false,
            },
{
    lemma_parse_bg_blur_level();
    lemma_parse_bg_blur_level_now();
    lemma_bytes_bg_blur_level();
    lemma_bytes_bg_blur_level_now();
    assert("bg-blur-level!".spec_bytes() =~= "bg-blur-level".spec_bytes() + seq![BANG]);
    assert forall|t: Seq<u8>|
        match #[trigger] parse_command("bg-blur-level".spec_bytes() + seq![EQUALS] + t) {
            Ok(CommandView::Apply(s)) => parse_command("bg-blur-level".spec_bytes() + seq![BANG, EQUALS] + t)
                == Ok::<CommandView, CommandError>(CommandView::ApplyNow(s)),
            Err(e) => parse_command("bg-blur-level".spec_bytes() + seq![BANG, EQUALS] + t) == Err::<
                CommandView,
                CommandError,
            >(e),
            _ => false,
        } by {
        assert("bg-blur-level".spec_bytes() + seq![BANG, EQUALS] + t =~= "bg-blur-level!".spec_bytes() + seq![EQUALS] + t);
    }
}

proof fn lemma_bang_bg_bitmap_n()
    ensures
        forall|t: Seq<u8>|
            match #[trigger] parse_command("bg-bitmap-n".spec_bytes() + seq![EQUALS] + t) {
                Ok(CommandView::Apply(s)) => parse_command("bg-bitmap-n".spec_bytes() + seq![BANG, EQUALS] + t)
                    == Ok::<CommandView, CommandError>(CommandView::ApplyNow(s)),
                Err(e) => parse_command("bg-bitmap-n".spec_bytes() + seq![BANG, EQUALS] + t) == Err::<
                    CommandView,
                    CommandError,
                >(e),
                _ => false,
            },
{
    lemma_parse_bg_bitmap_n();
    lemma_parse_bg_bitmap_n_now();
    lemma_bytes_bg_bitmap_n();
    lemma_bytes_bg_bitmap_n_now();
    assert("bg-bitmap-n!".spec_bytes() =~= "bg-bitmap-n".spec_bytes() + seq![BANG]);
    assert forall|t: Seq<u8>|
        match #[trigger] parse_command("bg-bitmap-n".spec_bytes() + seq![EQUALS] + t) {
            Ok(CommandView::Apply(s)) => parse_command("bg-bitmap-n".spec_bytes() + seq![BANG, EQUALS] + t)
                == Ok::<CommandView, CommandError>(CommandView::ApplyNow(s)),
            Err(e) => parse_command("bg-bitmap-n".spec_bytes() + seq![BANG, EQUALS] + t) == Err::<
                CommandView,
                CommandError,
            >(e),
            _ => false,
        } by {
        assert("bg-bitmap-n".spec_bytes() + seq![BANG, EQUALS] + t =~= "bg-bitmap-n!".spec_bytes() + seq![EQUALS] + t);
    }
}


/// Each command name without argument names its own command, with or
/// without an argument after `=`, which it ignores: `angle-78` sets the 78
/// degree view, `bg-solid-black` the black background, `auto-frame-face`
/// single-face tracking, and so on through the vocabulary.
pub proof fn law_command_names()
    ensures
        parse_command("info".spec_bytes()) == Ok::<CommandView, CommandError>(CommandView::Info),
        forall|t: Seq<u8>|
            #[trigger] parse_command("info".spec_bytes() + seq![EQUALS] + t) == Ok::<CommandView, CommandError>(CommandView::Info),
        parse_command("get".spec_bytes()) == Ok::<CommandView, CommandError>(CommandView::Dump),
        forall|t: Seq<u8>|
            #[trigger] parse_command("get".spec_bytes() + seq![EQUALS] + t) == Ok::<CommandView, CommandError>(CommandView::Dump),
        parse_command("effect-off".spec_bytes()) == Ok::<CommandView, CommandError>(CommandView::Apply(Setting::EffectOff)),
        forall|t: Seq<u8>|
            #[trigger] parse_command("effect-off".spec_bytes() + seq![EQUALS] + t) == Ok::<CommandView, CommandError>(CommandView::Apply(Setting::EffectOff)),
        parse_command("effect-bg".spec_bytes()) == Ok::<CommandView, CommandError>(CommandView::Apply(Setting::EffectBg)),
        forall|t: Seq<u8>|
            #[trigger] parse_command("effect-bg".spec_bytes() + seq![EQUALS] + t) == Ok::<CommandView, CommandError>(CommandView::Apply(Setting::EffectBg)),
        parse_command("effect-track".spec_bytes()) == Ok::<CommandView, CommandError>(CommandView::Apply(Setting::EffectTrack)),
        forall|t: Seq<u8>|
            #[trigger] parse_command("effect-track".spec_bytes() + seq![EQUALS] + t) == Ok::<CommandView, CommandError>(CommandView::Apply(Setting::EffectTrack)),
        parse_command("hdr-off".spec_bytes()) == Ok::<CommandView, CommandError>(CommandView::Apply(Setting::HdrOff)),
        forall|t: Seq<u8>|
            #[trigger] parse_command("hdr-off".spec_bytes() + seq![EQUALS] + t) == Ok::<CommandView, CommandError>(CommandView::Apply(Setting::HdrOff)),
        parse_command("hdr-on".spec_bytes()) == Ok::<CommandView, CommandError>(CommandView::Apply(Setting::HdrOn)),
        forall|t: Seq<u8>|
            #[trigger] parse_command("hdr-on".spec_bytes() + seq![EQUALS] + t) == Ok::<CommandView, CommandError>(CommandView::Apply(Setting::HdrOn)),
        parse_command("face-ae-off".spec_bytes()) == Ok::<CommandView, CommandError>(CommandView::Apply(Setting::FaceAeOff)),
        forall|t: Seq<u8>|
            #[trigger] parse_command("face-ae-off".spec_bytes() + seq![EQUALS] + t) == Ok::<CommandView, CommandError>(CommandView::Apply(Setting::FaceAeOff)),
        parse_command("face-ae-on".spec_bytes()) == Ok::<CommandView, CommandError>(CommandView::Apply(Setting::FaceAeOn)),
        forall|t: Seq<u8>|
            #[trigger] parse_command("face-ae-on".spec_bytes() + seq![EQUALS] + t) == Ok::<CommandView, CommandError>(CommandView::Apply(Setting::FaceAeOn)),
        parse_command("angle-65".spec_bytes()) == Ok::<CommandView, CommandError>(CommandView::Apply(Setting::Angle65)),
        forall|t: Seq<u8>|
            #[trigger] parse_command("angle-65".spec_bytes() + seq![EQUALS] + t) == Ok::<CommandView, CommandError>(CommandView::Apply(Setting::Angle65)),
        parse_command("angle-78".spec_bytes()) == Ok::<CommandView, CommandError>(CommandView::Apply(Setting::Angle78)),
        forall|t: Seq<u8>|
            #[trigger] parse_command("angle-78".spec_bytes() + seq![EQUALS] + t) == Ok::<CommandView, CommandError>(CommandView::Apply(Setting::Angle78)),
        parse_command("angle-85".spec_bytes()) == Ok::<CommandView, CommandError>(CommandView::Apply(Setting::Angle85)),
        forall|t: Seq<u8>|
            #[trigger] parse_command("angle-85".spec_bytes() + seq![EQUALS] + t) == Ok::<CommandView, CommandError>(CommandView::Apply(Setting::Angle85)),
        parse_command("bg-solid".spec_bytes()) == Ok::<CommandView, CommandError>(CommandView::Apply(Setting::BgSolid)),
        forall|t: Seq<u8>|
            #[trigger] parse_command("bg-solid".spec_bytes() + seq![EQUALS] + t) == Ok::<CommandView, CommandError>(CommandView::Apply(Setting::BgSolid)),
        parse_command("bg-solid!".spec_bytes()) == Ok::<CommandView, CommandError>(CommandView::ApplyNow(Setting::BgSolid)),
        forall|t: Seq<u8>|
            #[trigger] parse_command("bg-solid!".spec_bytes() + seq![EQUALS] + t) == Ok::<CommandView, CommandError>(CommandView::ApplyNow(Setting::BgSolid)),
        parse_command("bg-bitmap".spec_bytes()) == Ok::<CommandView, CommandError>(CommandView::Apply(Setting::BgBitmap)),
        forall|t: Seq<u8>|
            #[trigger] parse_command("bg-bitmap".spec_bytes() + seq![EQUALS] + t) == Ok::<CommandView, CommandError>(CommandView::Apply(Setting::BgBitmap)),
        parse_command("bg-bitmap!".spec_bytes()) == Ok::<CommandView, CommandError>(CommandView::ApplyNow(Setting::BgBitmap)),
        forall|t: Seq<u8>|
            #[trigger] parse_command("bg-bitmap!".spec_bytes() + seq![EQUALS] + t) == Ok::<CommandView, CommandError>(CommandView::ApplyNow(Setting::BgBitmap)),
        parse_command("bg-blur".spec_bytes()) == Ok::<CommandView, CommandError>(CommandView::Apply(Setting::BgBlur)),
        forall|t: Seq<u8>|
            #[trigger] parse_command("bg-blur".spec_bytes() + seq![EQUALS] + t) == Ok::<CommandView, CommandError>(CommandView::Apply(Setting::BgBlur)),
        parse_command("bg-blur!".spec_bytes()) == Ok::<CommandView, CommandError>(CommandView::ApplyNow(Setting::BgBlur)),
        forall|t: Seq<u8>|
            #[trigger] parse_command("bg-blur!".spec_bytes() + seq![EQUALS] + t) == Ok::<CommandView, CommandError>(CommandView::ApplyNow(Setting::BgBlur)),
        parse_command("button-default".spec_bytes()) == Ok::<CommandView, CommandError>(CommandView::Apply(Setting::ButtonDefault)),
        forall|t: Seq<u8>|
            #[trigger] parse_command("button-default".spec_bytes() + seq![EQUALS] + t) == Ok::<CommandView, CommandError>(CommandView::Apply(Setting::ButtonDefault)),
        parse_command("button-rotate".spec_bytes()) == Ok::<CommandView, CommandError>(CommandView::Apply(Setting::ButtonRotate)),
        forall|t: Seq<u8>|
            #[trigger] parse_command("button-rotate".spec_bytes() + seq![EQUALS] + t) == Ok::<CommandView, CommandError>(CommandView::Apply(Setting::ButtonRotate)),
        parse_command("noise-reduction-off".spec_bytes()) == Ok::<CommandView, CommandError>(CommandView::Apply(Setting::NoiseReductionOff)),
        forall|t: Seq<u8>|
            #[trigger] parse_command("noise-reduction-off".spec_bytes() + seq![EQUALS] + t) == Ok::<CommandView, CommandError>(CommandView::Apply(Setting::NoiseReductionOff)),
        parse_command("noise-reduction-on".spec_bytes()) == Ok::<CommandView, CommandError>(CommandView::Apply(Setting::NoiseReductionOn)),
        forall|t: Seq<u8>|
            #[trigger] parse_command("noise-reduction-on".spec_bytes() + seq![EQUALS] + t) == Ok::<CommandView, CommandError>(CommandView::Apply(Setting::NoiseReductionOn)),
        parse_command("bg-solid-blue".spec_bytes()) == Ok::<CommandView, CommandError>(CommandView::Apply(Setting::BgSolidBlue)),
        forall|t: Seq<u8>|
            #[trigger] parse_command("bg-solid-blue".spec_bytes() + seq![EQUALS] + t) == Ok::<CommandView, CommandError>(CommandView::Apply(Setting::BgSolidBlue)),
        parse_command("bg-solid-blue!".spec_bytes()) == Ok::<CommandView, CommandError>(CommandView::ApplyNow(Setting::BgSolidBlue)),
        forall|t: Seq<u8>|
            #[trigger] parse_command("bg-solid-blue!".spec_bytes() + seq![EQUALS] + t) == Ok::<CommandView, CommandError>(CommandView::ApplyNow(Setting::BgSolidBlue)),
        parse_command("bg-solid-green".spec_bytes()) == Ok::<CommandView, CommandError>(CommandView::Apply(Setting::BgSolidGreen)),
        forall|t: Seq<u8>|
            #[trigger] parse_command("bg-solid-green".spec_bytes() + seq![EQUALS] + t) == Ok::<CommandView, CommandError>(CommandView::Apply(Setting::BgSolidGreen)),
        parse_command("bg-solid-green!".spec_bytes()) == Ok::<CommandView, CommandError>(CommandView::ApplyNow(Setting::BgSolidGreen)),
        forall|t: Seq<u8>|
            #[trigger] parse_command("bg-solid-green!".spec_bytes() + seq![EQUALS] + t) == Ok::<CommandView, CommandError>(CommandView::ApplyNow(Setting::BgSolidGreen)),
        parse_command("bg-solid-red".spec_bytes()) == Ok::<CommandView, CommandError>(CommandView::Apply(Setting::BgSolidRed)),
        forall|t: Seq<u8>|
            #[trigger] parse_command("bg-solid-red".spec_bytes() + seq![EQUALS] + t) == Ok::<CommandView, CommandError>(CommandView::Apply(Setting::BgSolidRed)),
        parse_command("bg-solid-red!".spec_bytes()) == Ok::<CommandView, CommandError>(CommandView::ApplyNow(Setting::BgSolidRed)),
        forall|t: Seq<u8>|
            #[trigger] parse_command("bg-solid-red!".spec_bytes() + seq![EQUALS] + t) == Ok::<CommandView, CommandError>(CommandView::ApplyNow(Setting::BgSolidRed)),
        parse_command("bg-solid-black".spec_bytes()) == Ok::<CommandView, CommandError>(CommandView::Apply(Setting::BgSolidBlack)),
        forall|t: Seq<u8>|
            #[trigger] parse_command("bg-solid-black".spec_bytes() + seq![EQUALS] + t) == Ok::<CommandView, CommandError>(CommandView::Apply(Setting::BgSolidBlack)),
        parse_command("bg-solid-black!".spec_bytes()) == Ok::<CommandView, CommandError>(CommandView::ApplyNow(Setting::BgSolidBlack)),
        forall|t: Seq<u8>|
            #[trigger] parse_command("bg-solid-black!".spec_bytes() + seq![EQUALS] + t) == Ok::<CommandView, CommandError>(CommandView::ApplyNow(Setting::BgSolidBlack)),
        parse_command("bg-solid-white".spec_bytes()) == Ok::<CommandView, CommandError>(CommandView::Apply(Setting::BgSolidWhite)),
        forall|t: Seq<u8>|
            #[trigger] parse_command("bg-solid-white".spec_bytes() + seq![EQUALS] + t) == Ok::<CommandView, CommandError>(CommandView::Apply(Setting::BgSolidWhite)),
        parse_command("bg-solid-white!".spec_bytes()) == Ok::<CommandView, CommandError>(CommandView::ApplyNow(Setting::BgSolidWhite)),
        forall|t: Seq<u8>|
            #[trigger] parse_command("bg-solid-white!".spec_bytes() + seq![EQUALS] + t) == Ok::<CommandView, CommandError>(CommandView::ApplyNow(Setting::BgSolidWhite)),
        parse_command("auto-frame-group".spec_bytes()) == Ok::<CommandView, CommandError>(CommandView::Apply(Setting::AutoFrameGroup)),
        forall|t: Seq<u8>|
            #[trigger] parse_command("auto-frame-group".spec_bytes() + seq![EQUALS] + t) == Ok::<CommandView, CommandError>(CommandView::Apply(Setting::AutoFrameGroup)),
        parse_command("auto-frame-group!".spec_bytes()) == Ok::<CommandView, CommandError>(CommandView::ApplyNow(Setting::AutoFrameGroup)),
        forall|t: Seq<u8>|
            #[trigger] parse_command("auto-frame-group!".spec_bytes() + seq![EQUALS] + t) == Ok::<CommandView, CommandError>(CommandView::ApplyNow(Setting::AutoFrameGroup)),
        parse_command("auto-frame-face".spec_bytes()) == Ok::<CommandView, CommandError>(CommandView::Apply(Setting::AutoFrameFace)),
        forall|t: Seq<u8>|
            #[trigger] parse_command("auto-frame-face".spec_bytes() + seq![EQUALS] + t) == Ok::<CommandView, CommandError>(CommandView::Apply(Setting::AutoFrameFace)),
        parse_command("auto-frame-face!".spec_bytes()) == Ok::<CommandView, CommandError>(CommandView::ApplyNow(Setting::AutoFrameFace)),
        forall|t: Seq<u8>|
            #[trigger] parse_command("auto-frame-face!".spec_bytes() + seq![EQUALS] + t) == Ok::<CommandView, CommandError>(CommandView::ApplyNow(Setting::AutoFrameFace)),
        parse_command("auto-frame-body".spec_bytes()) == Ok::<CommandView, CommandError>(CommandView::Apply(Setting::AutoFrameBody)),
        forall|t: Seq<u8>|
            #[trigger] parse_command("auto-frame-body".spec_bytes() + seq![EQUALS] + t) == Ok::<CommandView, CommandError>(CommandView::Apply(Setting::AutoFrameBody)),
        parse_command("auto-frame-body!".spec_bytes()) == Ok::<CommandView, CommandError>(CommandView::ApplyNow(Setting::AutoFrameBody)),
        forall|t: Seq<u8>|
            #[trigger] parse_command("auto-frame-body!".spec_bytes() + seq![EQUALS] + t) == Ok::<CommandView, CommandError>(CommandView::ApplyNow(Setting::AutoFrameBody)),
{
    lemma_parse_info();
    lemma_parse_get();
    lemma_parse_effect_off();
    lemma_parse_effect_bg();
    lemma_parse_effect_track();
    lemma_parse_hdr_off();
    lemma_parse_hdr_on();
    lemma_parse_face_ae_off();
    lemma_parse_face_ae_on();
    lemma_parse_angle_65();
    lemma_parse_angle_78();
    lemma_parse_angle_85();
    lemma_parse_bg_solid();
    lemma_parse_bg_solid_now();
    lemma_parse_bg_bitmap();
    lemma_parse_bg_bitmap_now();
    lemma_parse_bg_blur();
    lemma_parse_bg_blur_now();
    lemma_parse_button_default();
    lemma_parse_button_rotate();
    lemma_parse_noise_reduction_off();
    lemma_parse_noise_reduction_on();
    lemma_parse_bg_solid_blue();
    lemma_parse_bg_solid_blue_now();
    lemma_parse_bg_solid_green();
    lemma_parse_bg_solid_green_now();
    lemma_parse_bg_solid_red();
    lemma_parse_bg_solid_red_now();
    lemma_parse_bg_solid_black();
    lemma_parse_bg_solid_black_now();
    lemma_parse_bg_solid_white();
    lemma_parse_bg_solid_white_now();
    lemma_parse_auto_frame_group();
    lemma_parse_auto_frame_group_now();
    lemma_parse_auto_frame_face();
    lemma_parse_auto_frame_face_now();
    lemma_parse_auto_frame_body();
    lemma_parse_auto_frame_body_now();
}

/// Each command name with a numeric argument takes the number that its
/// argument writes, within the range of its setting, and fails without one.
pub proof fn law_numeric_names()
    ensures
        parse_command("bg-blur-level".spec_bytes()) == Err::<CommandView, CommandError>(CommandError::MissingArgument),
        forall|t: Seq<u8>|
            #[trigger] parse_command("bg-blur-level".spec_bytes() + seq![EQUALS] + t) == match parse_unsigned(t, 255) {
                Ok(v) => Ok(CommandView::Apply(Setting::BlurLevel(v as u8))),
                Err(k) => Err::<CommandView, CommandError>(CommandError::BadNumber(k)),
            },
        parse_command("bg-blur-leve".spec_bytes()) == Err::<CommandView, CommandError>(CommandError::MissingArgument),
        forall|t: Seq<u8>|
            #[trigger] parse_command("bg-blur-leve".spec_bytes() + seq![EQUALS] + t) == match parse_unsigned(t, 255) {
                Ok(v) => Ok(CommandView::Apply(Setting::BlurLevel(v as u8))),
                Err(k) => Err::<CommandView, CommandError>(CommandError::BadNumber(k)),
            },
        parse_command("bg-blur-level!".spec_bytes()) == Err::<CommandView, CommandError>(CommandError::MissingArgument),
        forall|t: Seq<u8>|
            #[trigger] parse_command("bg-blur-level!".spec_bytes() + seq![EQUALS] + t) == match parse_unsigned(t, 255) {
                Ok(v) => Ok(CommandView::ApplyNow(Setting::BlurLevel(v as u8))),
                Err(k) => Err::<CommandView, CommandError>(CommandError::BadNumber(k)),
            },
        parse_command("bg-bitmap-n".spec_bytes()) == Err::<CommandView, CommandError>(CommandError::MissingArgument),
        forall|t: Seq<u8>|
            #[trigger] parse_command("bg-bitmap-n".spec_bytes() + seq![EQUALS] + t) == match parse_unsigned(t, 65535) {
                Ok(v) => Ok(CommandView::Apply(Setting::BgBitmapN(v as u16))),
                Err(k) => Err::<CommandView, CommandError>(CommandError::BadNumber(k)),
            },
        parse_command("bg-bitmap-n!".spec_bytes()) == Err::<CommandView, CommandError>(CommandError::MissingArgument),
        forall|t: Seq<u8>|
            #[trigger] parse_command("bg-bitmap-n!".spec_bytes() + seq![EQUALS] + t) == match parse_unsigned(t, 65535) {
                Ok(v) => Ok(CommandView::ApplyNow(Setting::BgBitmapN(v as u16))),
                Err(k) => Err::<CommandView, CommandError>(CommandError::BadNumber(k)),
            },
        parse_command("sleep".spec_bytes()) == Err::<CommandView, CommandError>(CommandError::MissingArgument),
        forall|t: Seq<u8>|
            #[trigger] parse_command("sleep".spec_bytes() + seq![EQUALS] + t) == match parse_unsigned(t, 65535) {
                Ok(v) => Ok(CommandView::Apply(Setting::Sleep(v as u16))),
                Err(k) => Err::<CommandView, CommandError>(CommandError::BadNumber(k)),
            },
{
    lemma_parse_bg_blur_level();
    lemma_parse_bg_blur_leve();
    lemma_parse_bg_blur_level_now();
    lemma_parse_bg_bitmap_n();
    lemma_parse_bg_bitmap_n_now();
    lemma_parse_sleep();
}

/// `hex` takes the bytes that its argument writes, and fails without one or
/// on an argument that is not hexadecimal bytes.
pub proof fn law_hex_name()
    ensures
        parse_command("hex".spec_bytes()) == Err::<CommandView, CommandError>(CommandError::MissingArgument),
        forall|t: Seq<u8>|
            #[trigger] parse_command("hex".spec_bytes() + seq![EQUALS] + t) == if is_hex_text(t) {
                Ok::<CommandView, CommandError>(CommandView::Hex(hex_bytes(t)))
            } else {
                Err(CommandError::BadHex)
            },
{
    lemma_parse_hex();
}

/// A trailing `!` on a name makes the same setting as the name alone, and then
/// the settings it needs to take effect; with a numeric argument, the same
/// number, and the same failure where the argument is not a number.
pub proof fn law_bang_forms()
    ensures
        match parse_command("bg-solid".spec_bytes()) {
            Ok(CommandView::Apply(s)) => parse_command("bg-solid".spec_bytes() + seq![BANG])
                == Ok::<CommandView, CommandError>(CommandView::ApplyNow(s)),
            _ => false,
        },
        match parse_command("bg-bitmap".spec_bytes()) {
            Ok(CommandView::Apply(s)) => parse_command("bg-bitmap".spec_bytes() + seq![BANG])
                == Ok::<CommandView, CommandError>(CommandView::ApplyNow(s)),
            _ => false,
        },
        match parse_command("bg-blur".spec_bytes()) {
            Ok(CommandView::Apply(s)) => parse_command("bg-blur".spec_bytes() + seq![BANG])
                == Ok::<CommandView, CommandError>(CommandView::ApplyNow(s)),
            _ => false,
        },
        match parse_command("bg-solid-blue".spec_bytes()) {
            Ok(CommandView::Apply(s)) => parse_command("bg-solid-blue".spec_bytes() + seq![BANG])
                == Ok::<CommandView, CommandError>(CommandView::ApplyNow(s)),
            _ => false,
        },
        match parse_command("bg-solid-green".spec_bytes()) {
            Ok(CommandView::Apply(s)) => parse_command("bg-solid-green".spec_bytes() + seq![BANG])
                == Ok::<CommandView, CommandError>(CommandView::ApplyNow(s)),
            _ => false,
        },
        match parse_command("bg-solid-red".spec_bytes()) {
            Ok(CommandView::Apply(s)) => parse_command("bg-solid-red".spec_bytes() + seq![BANG])
                == Ok::<CommandView, CommandError>(CommandView::ApplyNow(s)),
            _ => false,
        },
        match parse_command("bg-solid-black".spec_bytes()) {
            Ok(CommandView::Apply(s)) => parse_command("bg-solid-black".spec_bytes() + seq![BANG])
                == Ok::<CommandView, CommandError>(CommandView::ApplyNow(s)),
            _ => false,
        },
        match parse_command("bg-solid-white".spec_bytes()) {
            Ok(CommandView::Apply(s)) => parse_command("bg-solid-white".spec_bytes() + seq![BANG])
                == Ok::<CommandView, CommandError>(CommandView::ApplyNow(s)),
            _ => false,
        },
        match parse_command("auto-frame-group".spec_bytes()) {
            Ok(CommandView::Apply(s)) => parse_command("auto-frame-group".spec_bytes() + seq![BANG])
                == Ok::<CommandView, CommandError>(CommandView::ApplyNow(s)),
            _ => false,
        },
        match parse_command("auto-frame-face".spec_bytes()) {
            Ok(CommandView::Apply(s)) => parse_command("auto-frame-face".spec_bytes() + seq![BANG])
                == Ok::<CommandView, CommandError>(CommandView::ApplyNow(s)),
            _ => false,
        },
        match parse_command("auto-frame-body".spec_bytes()) {
            Ok(CommandView::Apply(s)) => parse_command("auto-frame-body".spec_bytes() + seq![BANG])
                == Ok::<CommandView, CommandError>(CommandView::ApplyNow(s)),
            _ => false,
        },
        forall|t: Seq<u8>|
            match #[trigger] parse_command("bg-blur-level".spec_bytes() + seq![EQUALS] + t) {
                Ok(CommandView::Apply(s)) => parse_command("bg-blur-level".spec_bytes() + seq![BANG, EQUALS] + t)
                    == Ok::<CommandView, CommandError>(CommandView::ApplyNow(s)),
                Err(e) => parse_command("bg-blur-level".spec_bytes() + seq![BANG, EQUALS] + t) == Err::<
                    CommandView,
                    CommandError,
                >(e),
                _ => false,
            },
        forall|t: Seq<u8>|
            match #[trigger] parse_command("bg-bitmap-n".spec_bytes() + seq![EQUALS] + t) {
                Ok(CommandView::Apply(s)) => parse_command("bg-bitmap-n".spec_bytes() + seq![BANG, EQUALS] + t)
                    == Ok::<CommandView, CommandError>(CommandView::ApplyNow(s)),
                Err(e) => parse_command("bg-bitmap-n".spec_bytes() + seq![BANG, EQUALS] + t) == Err::<
                    CommandView,
                    CommandError,
                >(e),
                _ => false,
            },
{
    lemma_bang_bg_solid();
    lemma_bang_bg_bitmap();
    lemma_bang_bg_blur();
    lemma_bang_bg_solid_blue();
    lemma_bang_bg_solid_green();
    lemma_bang_bg_solid_red();
    lemma_bang_bg_solid_black();
    lemma_bang_bg_solid_white();
    lemma_bang_auto_frame_group();
    lemma_bang_auto_frame_face();
    lemma_bang_auto_frame_body();
    lemma_bang_bg_blur_level();
    lemma_bang_bg_bitmap_n();
}

} // verus!
