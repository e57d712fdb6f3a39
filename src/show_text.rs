use vstd::prelude::*;

verus! {

/// How long a notice stays on screen, in milliseconds.
pub const NOTICE_TIME: i64 = 2000;

/// A short notice shown at `(x, y)` (in pixels) for `time` more
/// milliseconds.
pub struct ShowText {
    pub text: String,
    pub time: i64,
    pub x: i64,
    pub y: i64,
}

impl ShowText {
    /// `text`, shown for `NOTICE_TIME` milliseconds near the top left.
    pub fn new(text: String) -> (r: ShowText)
        ensures
            r.text == text,
            r.time == NOTICE_TIME,
            r.x == 20,
            r.y == 40,
    {
        ShowText { text, time: NOTICE_TIME, x: 20, y: 40 }
    }

    /// No notice.
    pub fn empty() -> (r: ShowText)
        ensures
            r.text@.len() == 0,
            r.time == 0,
            r.x == 0,
            r.y == 0,
    {
        ShowText { text: String::new(), time: 0, x: 0, y: 0 }
    }

    /// Whether the notice shows in a frame of `delta` milliseconds; the time
    /// left counts down while it shows.
    pub fn tick(&mut self, delta: u32) -> (r: bool)
        requires
            old(self).time <= NOTICE_TIME,
        ensures
            r == (old(self).time > 0),
            final(self).time == if r {
                old(self).time - delta
            } else {
                old(self).time as int
            },
            final(self).time <= NOTICE_TIME,
            final(self).text == old(self).text,
            final(self).x == old(self).x,
            final(self).y == old(self).y,
    {
        if self.time > 0 {
            self.time = self.time - delta as i64;
            true
        } else {
            false
        }
    }
}

} // verus!
