use vstd::prelude::*;

verus! {

/// What the pulse logic knows of a LED: the brightness at which it is fully on.
pub struct Led {
    max_brightness: u32,
}

impl Led {
    pub closed spec fn max(self) -> u32 {
        self.max_brightness
    }

    /// A LED whose full brightness is `max_brightness`.
    pub fn new(max_brightness: u32) -> (r: Led)
        ensures
            r.max() == max_brightness,
    {
        Led { max_brightness }
    }

    /// The brightness that shows a pulse state: full when on, zero when off.
    pub fn brightness_for(&self, on: bool) -> (r: u32)
        ensures
            r == if on {
                self.max()
            } else {
                0
            },
    {
        if on {
            self.max_brightness
        } else {
            0
        }
    }
}

} // verus!
