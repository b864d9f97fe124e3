//! Wire format of the HT16K33 display controller: the one-time power-up
//! command bytes and the 17-byte frame payload that carries a bitmap.
//!
//! The driver is a stateless transform from bitmaps to bytes. Putting the
//! bytes on the two-wire bus (and ignoring a failed write) is the caller's
//! business; this module only fixes what the bytes are.

use vstd::prelude::*;
use crate::bitmap::{Bitmap, SIDE};

verus! {

/// Fixed 7-bit bus address of the display controller.
pub const DEVICE_ADDR: u8 = 0x70;

/// Command byte: turn the controller's internal oscillator on.
pub const CMD_OSCILLATOR_ON: u8 = 0x21;

/// Command byte: display output on, no blinking.
pub const CMD_DISPLAY_ON: u8 = 0x81;

/// Command prefix: set brightness; the low four bits carry the level.
pub const CMD_BRIGHTNESS: u8 = 0xE0;

/// First register of the controller's display RAM.
pub const DISPLAY_RAM: u8 = 0x00;

/// The brightest of the controller's sixteen dimming levels.
pub const MAX_BRIGHTNESS: u8 = 0x0F;

/// Milliseconds the caller lets the controller settle after each power-up
/// command write.
pub const SETTLE_DELAY_MS: u16 = 10;

/// The 17-byte frame payload for the given row bytes: the display-RAM
/// register address, then one pair per row, low byte the row's column mask
/// and high byte always zero (the matrix is only eight columns wide).
pub open spec fn frame_payload(rows: Seq<u8>) -> Seq<u8> {
    Seq::new(
        17,
        |i: int|
            if i == 0 {
                DISPLAY_RAM
            } else if (i - 1) % 2 == 0 {
                rows[(i - 1) / 2]
            } else {
                0u8
            },
    )
}

/// The row bytes carried by a frame payload: the low byte of each pair.
pub open spec fn payload_rows(payload: Seq<u8>) -> Seq<u8> {
    Seq::new(SIDE as nat, |y: int| payload[1 + 2 * y])
}

/// The payload is a lossless encoding: every row byte of a bitmap can be
/// read back from the pair that carries it.
pub proof fn lemma_frame_payload_round_trip(rows: Seq<u8>)
    requires
        rows.len() == SIDE,
    ensures
        payload_rows(frame_payload(rows)) =~= rows,
{
}

/// The brightness command for a dimming level: the level's four bits OR-ed
/// into the fixed command prefix.
pub fn brightness_command(level: u8) -> (r: u8)
    requires
        level <= MAX_BRIGHTNESS,
    ensures
        r == (CMD_BRIGHTNESS | level),
{
    CMD_BRIGHTNESS | level
}

/// The three command bytes of the power-up sequence, in the order they must
/// be written: oscillator on, display on without blinking, brightness at the
/// maximum level. Each is a one-byte bus write followed by a settling delay.
pub fn init_commands() -> (r: Vec<u8>)
    ensures
        r@.len() == 3,
        r@[0] == CMD_OSCILLATOR_ON,
        r@[1] == CMD_DISPLAY_ON,
        r@[2] == (CMD_BRIGHTNESS | MAX_BRIGHTNESS),
{
    let mut r: Vec<u8> = Vec::new();
    r.push(CMD_OSCILLATOR_ON);
    r.push(CMD_DISPLAY_ON);
    r.push(brightness_command(MAX_BRIGHTNESS));
    r
}

/// Serializes a bitmap into the single bus write that refreshes the whole
/// display. Serialization is deterministic: the same bitmap always yields
/// the same seventeen bytes.
pub fn serialize_frame(b: &Bitmap) -> (r: Vec<u8>)
    requires
        b.wf(),
    ensures
        r@.len() == 17,
        r@ == frame_payload(b@),
{
    let mut r: Vec<u8> = Vec::new();
    r.push(DISPLAY_RAM);
    let mut y: u8 = 0;
    while y < 8
        invariant
            b.wf(),
            y <= 8,
            r@.len() == 1 + 2 * y,
            forall|j: int| 0 <= j < r@.len() ==> r@[j] == frame_payload(b@)[j],
        decreases 8 - y,
    {
        r.push(b.row(y));
        r.push(0);
        y += 1;
    }
    proof {
        assert(r@ =~= frame_payload(b@));
    }
    r
}

} // verus!
