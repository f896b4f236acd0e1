//! Report decoding: one fixed-length binary report from the controller is
//! turned into a typed `DS4State` snapshot. The byte layout is the wire
//! contract of the device family and is reproduced bit-exactly here.

use vstd::prelude::*;

verus! {

/// One immutable snapshot of the controller: directional flags, face-button
/// flags, shoulder/trigger flags (with the two analog trigger bytes), system
/// flags and the four 8-bit analog stick samples.
#[derive(Debug, Clone, Copy, PartialEq, Eq, Structural)]
pub struct DS4State {
    pub left: bool,
    pub up: bool,
    pub right: bool,
    pub down: bool,
    pub square: bool,
    pub triangle: bool,
    pub circle: bool,
    pub cross: bool,
    pub l1: bool,
    pub l2: bool,
    pub l2_analog: u8,
    pub l3: bool,
    pub r1: bool,
    pub r2: bool,
    pub r2_analog: u8,
    pub r3: bool,
    pub select: bool,
    pub start: bool,
    pub touchpad: bool,
    pub ps: bool,
    pub lsx: u8,
    pub lsy: u8,
    pub rsx: u8,
    pub rsy: u8,
}

/// The snapshot that the processing loop starts from before any report has
/// been decoded: every flag released, every analog sample zero.
pub open spec fn initial_spec() -> DS4State {
    DS4State {
        left: false,
        up: false,
        right: false,
        down: false,
        square: false,
        triangle: false,
        circle: false,
        cross: false,
        l1: false,
        l2: false,
        l2_analog: 0,
        l3: false,
        r1: false,
        r2: false,
        r2_analog: 0,
        r3: false,
        select: false,
        start: false,
        touchpad: false,
        ps: false,
        lsx: 0,
        lsy: 0,
        rsx: 0,
        rsy: 0,
    }
}

/// Directional-pad decoding of the low nibble of byte 5: codes 0..=7 walk
/// clockwise from Up through the diagonals; 8..=15 mean neutral.
pub open spec fn dpad_up(b5: u8) -> bool {
    let code = b5 & 0x0f;
    code == 0 || code == 1 || code == 7
}

pub open spec fn dpad_right(b5: u8) -> bool {
    let code = b5 & 0x0f;
    code == 1 || code == 2 || code == 3
}

pub open spec fn dpad_down(b5: u8) -> bool {
    let code = b5 & 0x0f;
    code == 3 || code == 4 || code == 5
}

pub open spec fn dpad_left(b5: u8) -> bool {
    let code = b5 & 0x0f;
    code == 5 || code == 6 || code == 7
}

/// True when the masked bit of the byte is set.
pub open spec fn bit_set(b: u8, mask: u8) -> bool {
    b & mask != 0
}

/// The snapshot encoded by the seven meaningful report bytes: the four stick
/// samples from bytes 1..=4, directions and face buttons from byte 5,
/// shoulder buttons and stick clicks from byte 6, system buttons from byte 7.
/// Fields with no source in the report layout stay at their initial value.
pub open spec fn decoded_fields(
    lsx: u8,
    lsy: u8,
    rsx: u8,
    rsy: u8,
    b5: u8,
    b6: u8,
    b7: u8,
) -> DS4State {
    DS4State {
        left: dpad_left(b5),
        up: dpad_up(b5),
        right: dpad_right(b5),
        down: dpad_down(b5),
        square: bit_set(b5, 0x10),
        cross: bit_set(b5, 0x20),
        circle: bit_set(b5, 0x40),
        triangle: bit_set(b5, 0x80),
        l1: bit_set(b6, 0x01),
        r1: bit_set(b6, 0x02),
        l2: bit_set(b6, 0x04),
        r2: bit_set(b6, 0x08),
        l3: bit_set(b6, 0x40),
        r3: bit_set(b6, 0x80),
        ps: bit_set(b7, 0x01),
        touchpad: bit_set(b7, 0x02),
        select: false,
        start: false,
        l2_analog: 0,
        r2_analog: 0,
        lsx: lsx,
        lsy: lsy,
        rsx: rsx,
        rsy: rsy,
    }
}

/// The snapshot encoded by a full report buffer. All bytes outside 1..=7 are
/// reserved and ignored.
pub open spec fn decoded(bytes: Seq<u8>) -> DS4State
    recommends
        bytes.len() >= 8,
{
    decoded_fields(bytes[1], bytes[2], bytes[3], bytes[4], bytes[5], bytes[6], bytes[7])
}

/// A report that could not be decoded. The only structural failure of the
/// wire format is a buffer of the wrong length; every bit pattern of a
/// correctly sized buffer is legal input.
#[derive(Debug, Clone, Copy, PartialEq, Eq, Structural)]
pub enum DecodeError {
    WrongLength { actual: usize },
}

impl DS4State {
    /// The all-released snapshot used as the retained state before the first
    /// report arrives.
    pub fn initial_state() -> (s: Self)
        ensures
            s == initial_spec(),
    {
        DS4State {
            left: false,
            up: false,
            right: false,
            down: false,
            square: false,
            triangle: false,
            circle: false,
            cross: false,
            l1: false,
            l2: false,
            l2_analog: 0,
            l3: false,
            r1: false,
            r2: false,
            r2_analog: 0,
            r3: false,
            select: false,
            start: false,
            touchpad: false,
            ps: false,
            lsx: 0,
            lsy: 0,
            rsx: 0,
            rsy: 0,
        }
    }

    /// Decodes one full 64-byte report buffer into a snapshot.
    pub fn from_report(buf: &[u8; 64]) -> (s: Self)
        ensures
            s == decoded(buf@),
    {
        Self::decode_fields_exec(buf[1], buf[2], buf[3], buf[4], buf[5], buf[6], buf[7])
    }

    /// Decodes the seven meaningful bytes of a report.
    fn decode_fields_exec(lsx: u8, lsy: u8, rsx: u8, rsy: u8, b5: u8, b6: u8, b7: u8) -> (s: Self)
        ensures
            s == decoded_fields(lsx, lsy, rsx, rsy, b5, b6, b7),
    {
        let mut up = false;
        let mut right = false;
        let mut down = false;
        let mut left = false;
        match b5 & 0x0f {
            0 => up = true,
            2 => right = true,
            4 => down = true,
            6 => left = true,
            1 => {
                up = true;
                right = true;
            },
            3 => {
                right = true;
                down = true;
            },
            5 => {
                down = true;
                left = true;
            },
            7 => {
                left = true;
                up = true;
            },
            _ => (),
        }

        let square = b5 & 0x10 != 0;
        let cross = b5 & 0x20 != 0;
        let circle = b5 & 0x40 != 0;
        let triangle = b5 & 0x80 != 0;

        let l1 = b6 & 0x01 != 0;
        let r1 = b6 & 0x02 != 0;
        let l2 = b6 & 0x04 != 0;
        let r2 = b6 & 0x08 != 0;
        let l3 = b6 & 0x40 != 0;
        let r3 = b6 & 0x80 != 0;

        let ps = b7 & 0x01 != 0;
        let touchpad = b7 & 0x02 != 0;

        DS4State {
            left,
            up,
            right,
            down,
            square,
            cross,
            circle,
            triangle,
            l1,
            r1,
            l2,
            r2,
            l3,
            r3,
            ps,
            touchpad,
            select: false,
            start: false,
            l2_analog: 0,
            r2_analog: 0,
            lsx,
            lsy,
            rsx,
            rsy,
        }
    }
}

/// Decodes a report buffer of arbitrary length: a buffer of exactly 64 bytes
/// yields its snapshot, any other length is rejected with the offending
/// length, and nothing else ever fails.
pub fn decode(buf: &[u8]) -> (r: Result<DS4State, DecodeError>)
    ensures
        buf@.len() == 64 <==> r is Ok,
        r is Ok ==> r->Ok_0 == decoded(buf@),
        r is Err ==> r->Err_0 == (DecodeError::WrongLength { actual: buf@.len() as usize }),
{
    if buf.len() != 64 {
        return Err(DecodeError::WrongLength { actual: buf.len() });
    }
    Ok(DS4State::decode_fields_exec(buf[1], buf[2], buf[3], buf[4], buf[5], buf[6], buf[7]))
}

/// The two members of a directional pair are never reported pressed at once:
/// every nibble code sets at most one of up/down and at most one of
/// left/right.
pub proof fn lemma_decoded_directions_exclusive(bytes: Seq<u8>)
    ensures
        !(decoded(bytes).up && decoded(bytes).down),
        !(decoded(bytes).left && decoded(bytes).right),
{
}

/// A report whose byte 5 has low nibble 6 decodes to Left pressed and the
/// other three directional flags released.
pub proof fn lemma_decode_left_nibble(bytes: Seq<u8>)
    requires
        bytes.len() >= 8,
        bytes[5] & 0x0f == 6,
    ensures
        decoded(bytes).left,
        !decoded(bytes).up,
        !decoded(bytes).right,
        !decoded(bytes).down,
{
}

/// A report whose byte 5 is 0xF0 decodes to all four face buttons pressed;
/// its low nibble 0 encodes the Up direction, so the other three directional
/// flags are released.
pub proof fn lemma_decode_all_face_buttons(bytes: Seq<u8>)
    requires
        bytes.len() >= 8,
        bytes[5] == 0xF0,
    ensures
        decoded(bytes).square,
        decoded(bytes).cross,
        decoded(bytes).circle,
        decoded(bytes).triangle,
        decoded(bytes).up,
        !decoded(bytes).right,
        !decoded(bytes).down,
        !decoded(bytes).left,
{
    assert(0xF0u8 & 0x10 != 0 && 0xF0u8 & 0x20 != 0 && 0xF0u8 & 0x40 != 0 && 0xF0u8 & 0x80 != 0)
        by (bit_vector);
    assert(0xF0u8 & 0x0f == 0) by (bit_vector);
}

} // verus!
