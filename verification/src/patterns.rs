//! The static frame source: a flip-flop that alternates between two fixed
//! images, a heart and a smiley face, one per multi-second hold.

use vstd::prelude::*;
use crate::bitmap::Bitmap;

verus! {

/// Milliseconds each pattern is held on the display before the flip.
pub const PATTERN_HOLD_MS: u16 = 3000;

/// Row bytes of the heart image.
pub open spec fn heart_rows() -> Seq<u8> {
    seq![0x66u8, 0xFFu8, 0xFFu8, 0xFFu8, 0x7Eu8, 0x3Cu8, 0x18u8, 0x00u8]
}

/// Row bytes of the smiley-face image.
pub open spec fn smiley_rows() -> Seq<u8> {
    seq![0x3Cu8, 0x42u8, 0xA5u8, 0x81u8, 0xA5u8, 0x99u8, 0x42u8, 0x3Cu8]
}

/// The image selected by the flip-flop.
pub open spec fn pattern_rows(show_heart: bool) -> Seq<u8> {
    if show_heart {
        heart_rows()
    } else {
        smiley_rows()
    }
}

/// The image shown on the n-th cycle, counting from zero: the cycle starts
/// with the heart and flips once per cycle.
pub open spec fn pattern_at(n: nat) -> Seq<u8> {
    pattern_rows(n % 2 == 0)
}

/// The cycle has period two: every second frame repeats.
pub proof fn lemma_pattern_period(n: nat)
    ensures
        pattern_at(n + 2) == pattern_at(n),
{
}

/// Only the two fixed images ever appear: no cycle emits a third pattern.
pub proof fn lemma_pattern_only_two(n: nat)
    ensures
        pattern_at(n) == heart_rows() || pattern_at(n) == smiley_rows(),
{
}

/// The alternation is strict: consecutive cycles never show the same image.
pub proof fn lemma_pattern_alternates(n: nat)
    ensures
        pattern_at(n + 1) != pattern_at(n),
{
    assert((n + 1) % 2 != n % 2);
    if pattern_at(n + 1) == pattern_at(n) {
        assert(heart_rows()[0] == smiley_rows()[0]);
        assert(false);
    }
}

/// A flip-flop that advances from the heart through the parity of the cycle
/// count: a state that agrees with cycle `n` agrees with cycle `n + 1` after
/// one flip. Together with `PatternCycle::new` (which agrees with cycle 0)
/// this pins every frame the cycle emits to `pattern_at`.
pub proof fn lemma_flip_tracks_parity(n: nat, show_heart: bool)
    requires
        show_heart == (n % 2 == 0),
    ensures
        !show_heart == ((n + 1) % 2 == 0),
{
}

/// The heart image as a bitmap.
pub fn heart() -> (r: Bitmap)
    ensures
        r.wf(),
        r@ == heart_rows(),
{
    let mut b = Bitmap::new();
    b.set_row(0, 0x66);
    b.set_row(1, 0xFF);
    b.set_row(2, 0xFF);
    b.set_row(3, 0xFF);
    b.set_row(4, 0x7E);
    b.set_row(5, 0x3C);
    b.set_row(6, 0x18);
    proof {
        assert(b@ =~= heart_rows());
    }
    b
}

/// The smiley-face image as a bitmap.
pub fn smiley() -> (r: Bitmap)
    ensures
        r.wf(),
        r@ == smiley_rows(),
{
    let mut b = Bitmap::new();
    b.set_row(0, 0x3C);
    b.set_row(1, 0x42);
    b.set_row(2, 0xA5);
    b.set_row(3, 0x81);
    b.set_row(4, 0xA5);
    b.set_row(5, 0x99);
    b.set_row(6, 0x42);
    b.set_row(7, 0x3C);
    proof {
        assert(b@ =~= smiley_rows());
    }
    b
}

/// The static frame source. Each display cycle shows `current`, holds for
/// the fixed interval, then calls `advance`.
pub struct PatternCycle {
    /// True while the heart is the image to show.
    pub show_heart: bool,
}

impl PatternCycle {
    /// A fresh cycle, which shows the heart first.
    pub fn new() -> (r: PatternCycle)
        ensures
            r.show_heart,
    {
        PatternCycle { show_heart: true }
    }

    /// The bitmap to hand to the display driver this cycle.
    pub fn current(&self) -> (r: Bitmap)
        ensures
            r.wf(),
            r@ == pattern_rows(self.show_heart),
    {
        if self.show_heart {
            heart()
        } else {
            smiley()
        }
    }

    /// Flips to the other image for the next cycle.
    pub fn advance(&mut self)
        ensures
            final(self).show_heart == !old(self).show_heart,
    {
        self.show_heart = !self.show_heart;
    }
}

} // verus!
