//! Maps evdev pointer input to the core X11 button numbers and state mask.
use vstd::prelude::*;

verus! {

/// XI2 reserves valuators 0 and 1 for relative pointer X and Y.
pub const X_POINTER_HORIZONTAL_SCROLL_VALUATOR: u16 = 2;

/// The vertical scroll valuator follows pointer X/Y and horizontal scrolling.
pub const X_POINTER_VERTICAL_SCROLL_VALUATOR: u16 = 3;

#[derive(Clone, Copy, Debug, Default, PartialEq, Eq, Structural)]
pub struct XCorePointerMapper {
    pub button_state: u16,
    pub horizontal_scroll_v120: i32,
    pub vertical_scroll_v120: i32,
}

#[derive(Clone, Copy, Debug, PartialEq, Eq, Structural)]
pub struct XScrollAxisUpdate {
    pub button: u8,
    pub horizontal_position_v120: Option<i32>,
    pub vertical_position_v120: Option<i32>,
}

/// The core button and state-mask bit an evdev button code maps to; the side
/// buttons map to 8 and 9 and carry no mask bit.
pub open spec fn evdev_button_mapping(evdev_button: u32) -> Option<(u8, u16)> {
    if evdev_button == 272 {
        Some((1u8, 256u16))
    } else if evdev_button == 274 {
        Some((2u8, 512u16))
    } else if evdev_button == 273 {
        Some((3u8, 1024u16))
    } else if evdev_button == 275 {
        Some((8u8, 0u16))
    } else if evdev_button == 276 {
        Some((9u8, 0u16))
    } else {
        None
    }
}

/// The emulated scroll button for a wheel step: vertical wins over
/// horizontal, and a negative step scrolls up or left.
pub open spec fn axis_button(horizontal_v120: i32, vertical_v120: i32) -> Option<u8> {
    if vertical_v120 < 0 {
        Some(4u8)
    } else if vertical_v120 > 0 {
        Some(5u8)
    } else if horizontal_v120 < 0 {
        Some(6u8)
    } else if horizontal_v120 > 0 {
        Some(7u8)
    } else {
        None
    }
}

/// `a + b`, held to the `i32` range.
pub open spec fn saturating_add_i32(a: i32, b: i32) -> i32 {
    if a + b > i32::MAX {
        i32::MAX
    } else if a + b < i32::MIN {
        i32::MIN
    } else {
        (a + b) as i32
    }
}

/// The state-mask bit of a core button, for the buttons that have one.
pub open spec fn core_button_mask_of(button: u8) -> u16 {
    if button <= 5 {
        (1u16 << ((button + 7) as u16)) as u16
    } else {
        0
    }
}

/// Pressing and releasing a button clears its state bit and leaves the
/// others as they were.
pub proof fn law_button_press_release_clears_bit(state: u16, mask: u16)
    ensures
        ((state | mask) & !mask) == state & !mask,
{
    assert(((state | mask) & !mask) == state & !mask) by (bit_vector);
}

fn saturating_add(a: i32, b: i32) -> (sum: i32)
    ensures
        sum == saturating_add_i32(a, b),
{
    let wide = a as i64 + b as i64;
    if wide > i32::MAX as i64 {
        i32::MAX
    } else if wide < i32::MIN as i64 {
        i32::MIN
    } else {
        wide as i32
    }
}

impl XCorePointerMapper {
    fn core_button_mask(button: u8) -> (mask: u16)
        ensures
            mask == core_button_mask_of(button),
    {
        if button <= 5 {
            1u16 << (button + 7) as u16
        } else {
            0
        }
    }

    pub fn new() -> (mapper: Self)
        ensures
            mapper.button_state == 0,
            mapper.horizontal_scroll_v120 == 0,
            mapper.vertical_scroll_v120 == 0,
    {
        XCorePointerMapper { button_state: 0, horizontal_scroll_v120: 0, vertical_scroll_v120: 0 }
    }

    pub fn state(self) -> (state: u16)
        ensures
            state == self.button_state,
    {
        self.button_state
    }

    pub fn horizontal_scroll_position_v120(self) -> (position: i32)
        ensures
            position == self.horizontal_scroll_v120,
    {
        self.horizontal_scroll_v120
    }

    pub fn vertical_scroll_position_v120(self) -> (position: i32)
        ensures
            position == self.vertical_scroll_v120,
    {
        self.vertical_scroll_v120
    }

    /// Maps an evdev button transition to its core button and the button
    /// state before the transition, and records the transition.
    pub fn map_evdev_button(&mut self, evdev_button: u32, pressed: bool) -> (mapped: Option<
        (u8, u16),
    >)
        ensures
            match evdev_button_mapping(evdev_button) {
                None => mapped is None && *final(self) == *old(self),
                Some((button, mask)) => {
                    &&& mapped == Some((button, old(self).button_state))
                    &&& final(self).button_state == if pressed {
                        old(self).button_state | mask
                    } else {
                        old(self).button_state & !mask
                    }
                    &&& final(self).horizontal_scroll_v120 == old(self).horizontal_scroll_v120
                    &&& final(self).vertical_scroll_v120 == old(self).vertical_scroll_v120
                },
            },
    {
        let (button, mask): (u8, u16) = if evdev_button == 272 {
            (1, 256)
        } else if evdev_button == 274 {
            (2, 512)
        } else if evdev_button == 273 {
            (3, 1024)
        } else if evdev_button == 275 {
            (8, 0)
        } else if evdev_button == 276 {
            (9, 0)
        } else {
            return None;
        };
        let state = self.button_state;
        if pressed {
            self.button_state = self.button_state | mask;
        } else {
            self.button_state = self.button_state & !mask;
        }
        Some((button, state))
    }

    pub fn map_axis_to_button(horizontal_v120: i32, vertical_v120: i32) -> (button: Option<u8>)
        ensures
            button == axis_button(horizontal_v120, vertical_v120),
    {
        if vertical_v120 < 0 {
            Some(4)
        } else if vertical_v120 > 0 {
            Some(5)
        } else if horizontal_v120 < 0 {
            Some(6)
        } else if horizontal_v120 > 0 {
            Some(7)
        } else {
            None
        }
    }

    /// Maps one wheel step to its emulated button and accumulates each
    /// nonzero axis into the running scroll position, reporting the new
    /// position of each axis that moved.
    pub fn map_axis(&mut self, horizontal_v120: i32, vertical_v120: i32) -> (update: Option<
        XScrollAxisUpdate,
    >)
        ensures
            match axis_button(horizontal_v120, vertical_v120) {
                None => update is None && *final(self) == *old(self),
                Some(button) => {
                    let h = if horizontal_v120 != 0 {
                        saturating_add_i32(old(self).horizontal_scroll_v120, horizontal_v120)
                    } else {
                        old(self).horizontal_scroll_v120
                    };
                    let v = if vertical_v120 != 0 {
                        saturating_add_i32(old(self).vertical_scroll_v120, vertical_v120)
                    } else {
                        old(self).vertical_scroll_v120
                    };
                    &&& final(self).button_state == old(self).button_state
                    &&& final(self).horizontal_scroll_v120 == h
                    &&& final(self).vertical_scroll_v120 == v
                    &&& update == Some(
                        XScrollAxisUpdate {
                            button,
                            horizontal_position_v120: if horizontal_v120 != 0 {
                                Some(h)
                            } else {
                                None
                            },
                            vertical_position_v120: if vertical_v120 != 0 {
                                Some(v)
                            } else {
                                None
                            },
                        },
                    )
                },
            },
    {
        let button = match Self::map_axis_to_button(horizontal_v120, vertical_v120) {
            Some(button) => button,
            None => return None,
        };
        let horizontal_position_v120 = if horizontal_v120 != 0 {
            self.horizontal_scroll_v120 = saturating_add(self.horizontal_scroll_v120, horizontal_v120);
            Some(self.horizontal_scroll_v120)
        } else {
            None
        };
        let vertical_position_v120 = if vertical_v120 != 0 {
            self.vertical_scroll_v120 = saturating_add(self.vertical_scroll_v120, vertical_v120);
            Some(self.vertical_scroll_v120)
        } else {
            None
        };
        Some(XScrollAxisUpdate { button, horizontal_position_v120, vertical_position_v120 })
    }

    /// The button state reported with the release of an emulated button.
    pub fn axis_release_state(self, button: u8) -> (state: u16)
        ensures
            state == self.button_state | core_button_mask_of(button),
    {
        self.button_state | Self::core_button_mask(button)
    }
}

/// The evdev buttons follow the core numbering: `BTN_LEFT` (272) is core
/// button 1, `BTN_MIDDLE` (274) is button 2 and `BTN_RIGHT` (273) is button
/// 3, each with its own state bit (`Button1Mask` 1 << 8, `Button2Mask`
/// 1 << 9, `Button3Mask` 1 << 10); `BTN_SIDE` (275) and `BTN_EXTRA` (276)
/// are buttons 8 and 9 with no state bit; no other code is a button. Any
/// button with a state bit carries the bit of its own number.
pub proof fn law_evdev_buttons_follow_the_core_numbering(evdev_button: u32)
    ensures
        evdev_button_mapping(evdev_button) is Some <==> 272 <= evdev_button <= 276,
        evdev_button == 272 ==> evdev_button_mapping(evdev_button) == Some((1u8, 1u16 << 8u16)),
        evdev_button == 274 ==> evdev_button_mapping(evdev_button) == Some((2u8, 1u16 << 9u16)),
        evdev_button == 273 ==> evdev_button_mapping(evdev_button) == Some((3u8, 1u16 << 10u16)),
        evdev_button == 275 ==> evdev_button_mapping(evdev_button) == Some((8u8, 0u16)),
        evdev_button == 276 ==> evdev_button_mapping(evdev_button) == Some((9u8, 0u16)),
        evdev_button_mapping(evdev_button) matches Some((button, mask)) ==> mask
            == core_button_mask_of(button),
{
    assert(1u16 << 8u16 == 256u16) by (bit_vector);
    assert(1u16 << 9u16 == 512u16) by (bit_vector);
    assert(1u16 << 10u16 == 1024u16) by (bit_vector);
    assert(core_button_mask_of(1) == 256u16) by {
        assert((1u16 << 8u16) as u16 == 256u16) by (bit_vector);
    }
    assert(core_button_mask_of(2) == 512u16) by {
        assert((1u16 << 9u16) as u16 == 512u16) by (bit_vector);
    }
    assert(core_button_mask_of(3) == 1024u16) by {
        assert((1u16 << 10u16) as u16 == 1024u16) by (bit_vector);
    }
}

/// Pressing an evdev button sets the state bit of the core button it maps
/// to and releasing it clears that bit, leaving every other bit as it was:
/// the state after a transition has the button's bit exactly when the
/// button is down.
pub proof fn law_button_transition_sets_its_own_bit(state: u16, evdev_button: u32, pressed: bool)
    requires
        evdev_button_mapping(evdev_button) is Some,
    ensures
        ({
            let (button, mask) = evdev_button_mapping(evdev_button)->0;
            let after = if pressed { state | mask } else { state & !mask };
            &&& mask == core_button_mask_of(button)
            &&& (button <= 3 ==> (after & mask != 0) == pressed)
            &&& after & !mask == state & !mask
        }),
{
    law_evdev_buttons_follow_the_core_numbering(evdev_button);
    let (button, mask) = evdev_button_mapping(evdev_button)->0;
    assert((state | 256u16) & 256u16 != 0 && (state & !256u16) & 256u16 == 0) by (bit_vector);
    assert((state | 512u16) & 512u16 != 0 && (state & !512u16) & 512u16 == 0) by (bit_vector);
    assert((state | 1024u16) & 1024u16 != 0 && (state & !1024u16) & 1024u16 == 0) by (bit_vector);
    assert(forall|m: u16| ((state | m) & !m) == state & !m && ((state & !m) & !m) == state & !m)
        by (bit_vector);
}

} // verus!
