//! Scroll offsets for the article screen: two independent axes, each holding
//! an offset and a step multiplier. A scroll step adds or subtracts the
//! requested magnitude and then reapplies the multiplier, so a factor greater
//! than one makes the offset grow geometrically across repeated presses.

use vstd::prelude::*;

verus! {

/// Directions that move the vertical axis.
pub enum ScrollDirectionVertical {
    Up,
    Down,
}

/// Directions that move the horizontal axis.
pub enum ScrollDirectionHorizontal {
    Left,
    Right,
}

/// The vertical scroll axis: current offset and step multiplier.
#[derive(Debug, Clone)]
pub struct ScrollUnitVertical {
    pub value: u16,
    pub factor: u16,
}

/// The horizontal scroll axis: current offset and step multiplier.
#[derive(Debug, Clone)]
pub struct ScrollUnitHorizontal {
    pub value: u16,
    pub factor: u16,
}

/// The result of one scroll step on an axis with offset `v` and factor `f`:
/// the magnitude `m` is added (increase) or subtracted (decrease), and the
/// factor is reapplied to the sum. `None` when the subtraction would go below
/// zero or the new offset would not fit in `u16`; the offset is then left
/// unchanged.
pub open spec fn scroll_step(v: int, f: int, m: int, increase: bool) -> Option<int> {
    if increase {
        if v + m <= u16::MAX && (v + m) * f <= u16::MAX {
            Some((v + m) * f)
        } else {
            None
        }
    } else {
        if 0 <= v - m && (v - m) * f <= u16::MAX {
            Some((v - m) * f)
        } else {
            None
        }
    }
}

/// One scroll axis: an offset that a key event moves by a magnitude in one of
/// two directions, and that a reset key returns to zero.
pub trait ScrollableUnit<Direction>: Sized {
    /// The current offset of the axis.
    spec fn spec_value(&self) -> u16;

    /// The step multiplier of the axis.
    spec fn spec_factor(&self) -> u16;

    /// Whether the given direction increases the offset.
    spec fn increases(direction: &Direction) -> bool;

    fn scroll(&mut self, value: u16, direction: Direction) -> (r: Result<(), String>)
        ensures
            final(self).spec_factor() == old(self).spec_factor(),
            (match scroll_step(
                old(self).spec_value() as int,
                old(self).spec_factor() as int,
                value as int,
                Self::increases(&direction),
            ) {
                Some(nv) => r is Ok && final(self).spec_value() == nv,
                None => r is Err && final(self).spec_value() == old(self).spec_value(),
            }),
    ;

    fn reset(&mut self)
        ensures
            final(self).spec_value() == 0,
            final(self).spec_factor() == old(self).spec_factor(),
    ;
}

impl ScrollableUnit<ScrollDirectionVertical> for ScrollUnitVertical {
    open spec fn spec_value(&self) -> u16 {
        self.value
    }

    open spec fn spec_factor(&self) -> u16 {
        self.factor
    }

    open spec fn increases(direction: &ScrollDirectionVertical) -> bool {
        direction is Down
    }

    fn scroll(&mut self, value: u16, direction: ScrollDirectionVertical) -> (r: Result<(), String>) {
        let base = match direction {
            ScrollDirectionVertical::Up => self.value.checked_sub(value),
            ScrollDirectionVertical::Down => self.value.checked_add(value),
        };
        match base {
            Some(sum) => match sum.checked_mul(self.factor) {
                Some(nv) => {
                    self.value = nv;
                    Ok(())
                },
                None => Err("scroll offset does not fit".to_owned()),
            },
            None => Err("scroll offset out of range".to_owned()),
        }
    }

    fn reset(&mut self) {
        self.value = 0;
    }
}

impl ScrollableUnit<ScrollDirectionHorizontal> for ScrollUnitHorizontal {
    open spec fn spec_value(&self) -> u16 {
        self.value
    }

    open spec fn spec_factor(&self) -> u16 {
        self.factor
    }

    open spec fn increases(direction: &ScrollDirectionHorizontal) -> bool {
        direction is Right
    }

    fn scroll(&mut self, value: u16, direction: ScrollDirectionHorizontal) -> (r: Result<(), String>) {
        let base = match direction {
            ScrollDirectionHorizontal::Left => self.value.checked_sub(value),
            ScrollDirectionHorizontal::Right => self.value.checked_add(value),
        };
        match base {
            Some(sum) => match sum.checked_mul(self.factor) {
                Some(nv) => {
                    self.value = nv;
                    Ok(())
                },
                None => Err("scroll offset does not fit".to_owned()),
            },
            None => Err("scroll offset out of range".to_owned()),
        }
    }

    fn reset(&mut self) {
        self.value = 0;
    }
}

impl Default for ScrollUnitVertical {
    fn default() -> (r: Self)
        ensures
            r.value == 0,
            r.factor == 1,
    {
        Self { value: 0, factor: 1 }
    }
}

impl Default for ScrollUnitHorizontal {
    fn default() -> (r: Self)
        ensures
            r.value == 0,
            r.factor == 1,
    {
        Self { value: 0, factor: 1 }
    }
}

/// Both scroll axes of the article screen.
#[derive(Debug, Clone)]
pub struct ScrollState {
    pub vertical: ScrollUnitVertical,
    pub horizontal: ScrollUnitHorizontal,
}

impl ScrollState {
    /// Return both offsets to zero; the multipliers are kept.
    pub fn reset(&mut self)
        ensures
            final(self).vertical.value == 0,
            final(self).horizontal.value == 0,
            final(self).vertical.factor == old(self).vertical.factor,
            final(self).horizontal.factor == old(self).horizontal.factor,
    {
        self.vertical.reset();
        self.horizontal.reset();
    }

    /// The pair of offsets, vertical then horizontal, as the display widget
    /// takes them.
    pub fn offsets(&self) -> (r: (u16, u16))
        ensures
            r.0 == self.vertical.value,
            r.1 == self.horizontal.value,
    {
        (self.vertical.value, self.horizontal.value)
    }
}

} // verus!
