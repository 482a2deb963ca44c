//! Keyboard configuration and keycode/modifier mapping.
//!
//! The client-visible keymap is compiled once from the session's RMLVO names
//! and reduced here to the core X11 wire representation, so that core and XKB
//! replies describe the same map the per-seat state machines use.
use vstd::prelude::*;
use vstd::utf8::encode_utf8;

verus! {

pub const XKB_RMLVO_FIELD_MAX_BYTES: usize = 128;

pub const XKB_DEFAULT_REPEAT_DELAY_MSEC: u16 = 660;

pub const XKB_DEFAULT_REPEAT_INTERVAL_MSEC: u16 = 40;

#[derive(Debug, PartialEq, Eq)]
pub struct XkbRmlvoConfig {
    pub rules: String,
    pub model: String,
    pub layout: String,
    pub variant: String,
    pub options: String,
}

/// The five names, as characters.
pub open spec fn rmlvo_view(config: &XkbRmlvoConfig) -> (
    Seq<char>,
    Seq<char>,
    Seq<char>,
    Seq<char>,
    Seq<char>,
) {
    (config.rules@, config.model@, config.layout@, config.variant@, config.options@)
}

/// Whether one name is short enough and free of NUL bytes.
pub open spec fn rmlvo_field_valid(value: Seq<char>) -> bool {
    encode_utf8(value).len() <= XKB_RMLVO_FIELD_MAX_BYTES && !encode_utf8(value).contains(0u8)
}

/// Whether a configuration may be handed to the keymap compiler: every name
/// valid, and rules, model and layout present.
pub open spec fn rmlvo_valid(config: &XkbRmlvoConfig) -> bool {
    &&& rmlvo_field_valid(config.rules@)
    &&& rmlvo_field_valid(config.model@)
    &&& rmlvo_field_valid(config.layout@)
    &&& rmlvo_field_valid(config.variant@)
    &&& rmlvo_field_valid(config.options@)
    &&& encode_utf8(config.rules@).len() > 0
    &&& encode_utf8(config.model@).len() > 0
    &&& encode_utf8(config.layout@).len() > 0
}

impl Default for XkbRmlvoConfig {
    /// The deterministic evdev/pc105/us configuration.
    fn default() -> (config: Self)
        ensures
            config.rules@ == "evdev"@,
            config.model@ == "pc105"@,
            config.layout@ == "us"@,
            config.variant@ == ""@,
            config.options@ == ""@,
    {
        XkbRmlvoConfig {
            rules: "evdev".to_owned(),
            model: "pc105".to_owned(),
            layout: "us".to_owned(),
            variant: "".to_owned(),
            options: "".to_owned(),
        }
    }
}

fn field_valid(value: &String) -> (valid: bool)
    ensures
        valid == rmlvo_field_valid(value@),
{
    let bytes = value.as_str().as_bytes();
    if bytes.len() > XKB_RMLVO_FIELD_MAX_BYTES {
        return false;
    }
    let mut i: usize = 0;
    while i < bytes.len()
        invariant
            bytes@ == encode_utf8(value@),
            i <= bytes@.len(),
            forall|j: int| 0 <= j < i ==> bytes@[j] != 0u8,
        decreases bytes@.len() - i,
    {
        if bytes[i] == 0 {
            assert(bytes@[i as int] == 0u8);
            return false;
        }
        i = i + 1;
    }
    true
}

fn field_present(value: &String) -> (present: bool)
    ensures
        present == (encode_utf8(value@).len() > 0),
{
    value.as_str().as_bytes().len() > 0
}

/// A copy of a configuration.
pub fn copy_config(config: &XkbRmlvoConfig) -> (copy: XkbRmlvoConfig)
    ensures
        rmlvo_view(&copy) == rmlvo_view(config),
{
    XkbRmlvoConfig {
        rules: config.rules.clone(),
        model: config.model.clone(),
        layout: config.layout.clone(),
        variant: config.variant.clone(),
        options: config.options.clone(),
    }
}

impl XkbRmlvoConfig {
    pub fn validate(&self) -> (result: Result<(), XkbKeyboardError>)
        ensures
            result == if rmlvo_valid(self) {
                Ok::<(), XkbKeyboardError>(())
            } else {
                Err(XkbKeyboardError::InvalidConfiguration)
            },
    {
        if !field_valid(&self.rules) || !field_valid(&self.model) || !field_valid(&self.layout)
            || !field_valid(&self.variant) || !field_valid(&self.options) {
            return Err(XkbKeyboardError::InvalidConfiguration);
        }
        if !field_present(&self.rules) || !field_present(&self.model) || !field_present(
            &self.layout,
        ) {
            return Err(XkbKeyboardError::InvalidConfiguration);
        }
        Ok(())
    }
}

#[derive(Clone, Copy, Debug, PartialEq, Eq, Structural)]
pub enum XkbKeyboardError {
    InvalidConfiguration,
    KeymapCompilationFailed,
}

/// What the keymap compiler reports for one keycode: the keysyms bound at
/// shift levels 0 and 1 of the first layout, and whether the key repeats.
#[derive(Clone, Debug, PartialEq, Eq)]
pub struct XkbCompiledKey {
    pub level0: Vec<u32>,
    pub level1: Vec<u32>,
    pub repeats: bool,
}

/// The number of core keycodes, 8 through 255.
pub const XKB_CORE_KEYCODE_COUNT: usize = 248;

/// The core modifier bit each modifier keycode of the default map drives.
pub open spec fn default_modifier_map() -> Seq<(u8, u8)> {
    seq![
        (50u8, 1u8),
        (62u8, 1u8),
        (66u8, 2u8),
        (37u8, 4u8),
        (105u8, 4u8),
        (64u8, 8u8),
        (108u8, 8u8),
        (77u8, 16u8),
        (133u8, 64u8),
        (134u8, 64u8),
    ]
}

/// The base and shifted keysym a compiled key contributes.
pub open spec fn compiled_keysym_pair(key: XkbCompiledKey) -> Seq<u32> {
    let base: u32 = if key.level0@.len() > 0 {
        key.level0@[0]
    } else {
        0
    };
    let shifted: u32 = if key.level1@.len() > 0 {
        key.level1@[0]
    } else {
        base
    };
    seq![base, shifted]
}

/// Immutable, client-visible description compiled from the session RMLVO.
#[derive(Debug)]
pub struct XkbKeymapSnapshot {
    config: XkbRmlvoConfig,
    min_keycode: u8,
    max_keycode: u8,
    keysyms: Vec<[u32; 2]>,
    repeatable: Vec<bool>,
    modifier_map: Vec<(u8, u8)>,
}

/// The base and shifted keysym of keycode `keycode` in a snapshot that starts
/// at `min_keycode`; NoSymbol outside it.
pub open spec fn keysym_pair_at(keysyms: Seq<[u32; 2]>, min_keycode: u8, keycode: u8) -> Seq<u32> {
    if keycode >= min_keycode && keycode - min_keycode < keysyms.len() {
        keysyms[keycode - min_keycode]@
    } else {
        seq![0u32, 0u32]
    }
}

/// `first + offset`, held to the `u8` range.
pub open spec fn saturating_add_u8(first: u8, offset: int) -> u8 {
    if first + offset > 255 {
        255
    } else {
        (first + offset) as u8
    }
}

/// The core GetKeyboardMapping answer: two keysyms for each of `count`
/// keycodes from `first_keycode` on.
pub open spec fn core_mapping_of(
    keysyms: Seq<[u32; 2]>,
    min_keycode: u8,
    first_keycode: u8,
    count: int,
) -> Seq<u32>
    decreases count,
{
    if count <= 0 {
        Seq::empty()
    } else {
        core_mapping_of(keysyms, min_keycode, first_keycode, count - 1) + keysym_pair_at(
            keysyms,
            min_keycode,
            saturating_add_u8(first_keycode, count - 1),
        )
    }
}

/// Whether the key an evdev code names repeats in a snapshot.
pub open spec fn evdev_repeats_in(repeatable: Seq<bool>, min_keycode: u8, evdev_keycode: u32) -> bool {
    let keycode = evdev_keycode + 8;
    if keycode <= 255 && keycode >= min_keycode && keycode - min_keycode < repeatable.len() {
        repeatable[keycode - min_keycode]
    } else {
        false
    }
}

impl XkbKeymapSnapshot {
    /// One entry per keycode of the range, and the range within `u8`.
    #[verifier::type_invariant]
    closed spec fn wf(self) -> bool {
        &&& self.min_keycode <= self.max_keycode
        &&& self.keysyms@.len() == self.max_keycode - self.min_keycode + 1
        &&& self.repeatable@.len() == self.max_keycode - self.min_keycode + 1
    }

    pub closed spec fn spec_config(&self) -> (Seq<char>, Seq<char>, Seq<char>, Seq<char>, Seq<char>) {
        rmlvo_view(&self.config)
    }

    pub closed spec fn spec_min_keycode(&self) -> u8 {
        self.min_keycode
    }

    pub closed spec fn spec_max_keycode(&self) -> u8 {
        self.max_keycode
    }

    pub closed spec fn spec_keysyms(&self) -> Seq<[u32; 2]> {
        self.keysyms@
    }

    pub closed spec fn spec_repeatable(&self) -> Seq<bool> {
        self.repeatable@
    }

    pub closed spec fn spec_modifier_map(&self) -> Seq<(u8, u8)> {
        self.modifier_map@
    }

    /// Reduces a compiled keymap to the full 8..=255 core keycode range:
    /// `keys[i]` describes keycode `8 + i`. Each keycode gets its first
    /// level-0 keysym (NoSymbol where there is none) and its first level-1
    /// keysym (the level-0 one where there is none), whether it repeats, and
    /// the fixed modifier map. The configuration is validated first.
    pub fn from_compiled_keys(config: &XkbRmlvoConfig, keys: &[XkbCompiledKey]) -> (snapshot: Result<
        Self,
        XkbKeyboardError,
    >)
        requires
            keys@.len() == XKB_CORE_KEYCODE_COUNT,
        ensures
            !rmlvo_valid(config) ==> snapshot == Err::<Self, XkbKeyboardError>(
                XkbKeyboardError::InvalidConfiguration,
            ),
            rmlvo_valid(config) ==> (snapshot matches Ok(s) && {
                &&& s.spec_config() == rmlvo_view(config)
                &&& s.spec_min_keycode() == 8
                &&& s.spec_max_keycode() == 255
                &&& s.spec_keysyms().len() == XKB_CORE_KEYCODE_COUNT
                &&& forall|i: int|
                    0 <= i < XKB_CORE_KEYCODE_COUNT ==> #[trigger] s.spec_keysyms()[i]@
                        == compiled_keysym_pair(keys@[i])
                &&& s.spec_repeatable().len() == XKB_CORE_KEYCODE_COUNT
                &&& forall|i: int|
                    0 <= i < XKB_CORE_KEYCODE_COUNT ==> #[trigger] s.spec_repeatable()[i]
                        == keys@[i].repeats
                &&& s.spec_modifier_map() == default_modifier_map()
            }),
    {
        config.validate()?;
        let min_keycode: u8 = 8;
        let max_keycode: u8 = 255;
        let mut keysyms: Vec<[u32; 2]> = Vec::new();
        let mut repeatable: Vec<bool> = Vec::new();
        let mut i: usize = 0;
        while i < keys.len()
            invariant
                keys@.len() == XKB_CORE_KEYCODE_COUNT,
                i <= keys@.len(),
                keysyms@.len() == i,
                repeatable@.len() == i,
                forall|j: int| 0 <= j < i ==> #[trigger] keysyms@[j]@ == compiled_keysym_pair(keys@[j]),
                forall|j: int| 0 <= j < i ==> #[trigger] repeatable@[j] == keys@[j].repeats,
            decreases keys@.len() - i,
        {
            let key = &keys[i];
            let base: u32 = if key.level0.len() > 0 {
                key.level0[0]
            } else {
                0
            };
            let shifted: u32 = if key.level1.len() > 0 {
                key.level1[0]
            } else {
                base
            };
            let pair = [base, shifted];
            assert(pair@ =~= compiled_keysym_pair(keys@[i as int]));
            keysyms.push(pair);
            repeatable.push(key.repeats);
            i = i + 1;
        }
        let modifier_map: Vec<(u8, u8)> = vec![
            (50, 1),
            (62, 1),
            (66, 2),
            (37, 4),
            (105, 4),
            (64, 8),
            (108, 8),
            (77, 16),
            (133, 64),
            (134, 64),
        ];
        assert(modifier_map@ =~= default_modifier_map());
        Ok(
            XkbKeymapSnapshot {
                config: copy_config(config),
                min_keycode,
                max_keycode,
                keysyms,
                repeatable,
                modifier_map,
            },
        )
    }

    pub fn config(&self) -> (config: &XkbRmlvoConfig)
        ensures
            rmlvo_view(config) == self.spec_config(),
    {
        &self.config
    }

    /// The core keysym table for `count` keycodes from `first_keycode` on,
    /// two keysyms per keycode, NoSymbol outside the snapshot.
    pub fn core_mapping(&self, first_keycode: u8, count: u8) -> (mapping: Vec<u32>)
        ensures
            mapping@ == core_mapping_of(
                self.spec_keysyms(),
                self.spec_min_keycode(),
                first_keycode,
                count as int,
            ),
    {
        proof {
            use_type_invariant(self);
        }
        let mut result: Vec<u32> = Vec::new();
        let mut offset: u8 = 0;
        while offset < count
            invariant
                offset <= count,
                self.keysyms@.len() == self.max_keycode - self.min_keycode + 1,
                result@ == core_mapping_of(
                    self.keysyms@,
                    self.min_keycode,
                    first_keycode,
                    offset as int,
                ),
            decreases count - offset,
        {
            let keycode: u8 = if first_keycode as u16 + offset as u16 > 255 {
                255
            } else {
                first_keycode + offset
            };
            let pair: [u32; 2] = if keycode >= self.min_keycode && ((keycode - self.min_keycode)
                as usize) < self.keysyms.len() {
                self.keysyms[(keycode - self.min_keycode) as usize]
            } else {
                [0, 0]
            };
            let ghost before = result@;
            result.push(pair[0]);
            result.push(pair[1]);
            proof {
                assert(keycode == saturating_add_u8(first_keycode, offset as int));
                assert(pair@ =~= keysym_pair_at(self.keysyms@, self.min_keycode, keycode));
                assert(result@ =~= before + pair@);
            }
            offset = offset + 1;
        }
        result
    }

    pub fn xkb_keysyms(&self) -> (keysyms: Vec<[u32; 2]>)
        ensures
            keysyms@ == self.spec_keysyms(),
    {
        let mut out: Vec<[u32; 2]> = Vec::new();
        let mut i: usize = 0;
        while i < self.keysyms.len()
            invariant
                i <= self.keysyms@.len(),
                out@ =~= self.keysyms@.subrange(0, i as int),
            decreases self.keysyms@.len() - i,
        {
            out.push(self.keysyms[i]);
            i = i + 1;
        }
        assert(self.keysyms@.subrange(0, self.keysyms@.len() as int) =~= self.keysyms@);
        out
    }

    pub fn modifier_map(&self) -> (map: Vec<(u8, u8)>)
        ensures
            map@ == self.spec_modifier_map(),
    {
        let mut out: Vec<(u8, u8)> = Vec::new();
        let mut i: usize = 0;
        while i < self.modifier_map.len()
            invariant
                i <= self.modifier_map@.len(),
                out@ =~= self.modifier_map@.subrange(0, i as int),
            decreases self.modifier_map@.len() - i,
        {
            out.push(self.modifier_map[i]);
            i = i + 1;
        }
        assert(self.modifier_map@.subrange(0, self.modifier_map@.len() as int)
            =~= self.modifier_map@);
        out
    }

    /// Whether the key an evdev code names repeats; false for a code outside
    /// the snapshot.
    pub fn evdev_key_repeats(&self, evdev_keycode: u32) -> (repeats: bool)
        ensures
            repeats == evdev_repeats_in(
                self.spec_repeatable(),
                self.spec_min_keycode(),
                evdev_keycode,
            ),
    {
        if evdev_keycode > 247 {
            return false;
        }
        let keycode = (evdev_keycode + 8) as u8;
        if keycode < self.min_keycode {
            return false;
        }
        let index = (keycode - self.min_keycode) as usize;
        if index < self.repeatable.len() {
            self.repeatable[index]
        } else {
            false
        }
    }

    pub fn min_keycode(&self) -> (keycode: u8)
        ensures
            keycode == self.spec_min_keycode(),
    {
        self.min_keycode
    }

    pub fn max_keycode(&self) -> (keycode: u8)
        ensures
            keycode == self.spec_max_keycode(),
    {
        self.max_keycode
    }
}

/// The evdev code's core keycode, when it has one in 8..=255.
pub open spec fn evdev_to_x_keycode(evdev_keycode: u32) -> Option<u8> {
    if evdev_keycode + 8 <= 255 {
        Some((evdev_keycode + 8) as u8)
    } else {
        None
    }
}

/// The core keycode of an evdev key code, where it has one in 8..=255.
pub fn evdev_to_core_keycode(evdev_keycode: u32) -> (keycode: Option<u8>)
    ensures
        keycode == evdev_to_x_keycode(evdev_keycode),
{
    if evdev_keycode > 247 {
        None
    } else {
        Some((evdev_keycode + 8) as u8)
    }
}

/// The eight core modifier bits of an XKB effective modifier mask.
pub open spec fn core_modifier_bits(mods: u32) -> u16 {
    (mods & 0xffu32) as u16
}

pub fn core_modifier_mask_from_xkb(mods: u32) -> (mask: u16)
    ensures
        mask == core_modifier_bits(mods),
        mask <= 0xff,
{
    let low = mods & 0xff;
    assert(low <= 0xff) by (bit_vector)
        requires
            low == mods & 0xff,
    ;
    low as u16
}

#[derive(Clone, Copy, Debug, Default, PartialEq, Eq, Structural)]
pub struct XCoreKeyboardMapper {
    pub shift: u8,
    pub control: u8,
    pub alt: u8,
    pub caps_lock: bool,
}

/// The core modifier mask: Shift, Lock, Control and Mod1.
pub open spec fn core_modifier_mask(mapper: XCoreKeyboardMapper) -> u16 {
    (if mapper.shift > 0 {
        1u16
    } else {
        0u16
    }) | (if mapper.caps_lock {
        2u16
    } else {
        0u16
    }) | (if mapper.control > 0 {
        4u16
    } else {
        0u16
    }) | (if mapper.alt > 0 {
        8u16
    } else {
        0u16
    })
}

/// `bits` with `bit` set on a press and cleared on a release.
pub open spec fn modifier_bits_after(bits: u8, bit: u8, pressed: bool) -> u8 {
    if pressed {
        bits | bit
    } else {
        bits & !bit
    }
}

/// The mapper after a key transition: left/right Shift, Control and Alt
/// each drive their own bit, and a Caps Lock press toggles the lock.
pub open spec fn core_mapper_after(
    mapper: XCoreKeyboardMapper,
    evdev_keycode: u32,
    pressed: bool,
) -> XCoreKeyboardMapper {
    if evdev_keycode == 42 {
        XCoreKeyboardMapper { shift: modifier_bits_after(mapper.shift, 1, pressed), ..mapper }
    } else if evdev_keycode == 54 {
        XCoreKeyboardMapper { shift: modifier_bits_after(mapper.shift, 2, pressed), ..mapper }
    } else if evdev_keycode == 29 {
        XCoreKeyboardMapper { control: modifier_bits_after(mapper.control, 1, pressed), ..mapper }
    } else if evdev_keycode == 97 {
        XCoreKeyboardMapper { control: modifier_bits_after(mapper.control, 2, pressed), ..mapper }
    } else if evdev_keycode == 56 {
        XCoreKeyboardMapper { alt: modifier_bits_after(mapper.alt, 1, pressed), ..mapper }
    } else if evdev_keycode == 100 {
        XCoreKeyboardMapper { alt: modifier_bits_after(mapper.alt, 2, pressed), ..mapper }
    } else if evdev_keycode == 58 && pressed {
        XCoreKeyboardMapper { caps_lock: !mapper.caps_lock, ..mapper }
    } else {
        mapper
    }
}

/// Pressing and then releasing a modifier key clears that key's bit and
/// leaves the other modifiers as they were.
pub proof fn law_modifier_press_release_clears_key(mapper: XCoreKeyboardMapper, evdev_keycode: u32)
    requires
        evdev_keycode == 42 || evdev_keycode == 54 || evdev_keycode == 29 || evdev_keycode == 97
            || evdev_keycode == 56 || evdev_keycode == 100,
    ensures
        ({
            let after = core_mapper_after(
                core_mapper_after(mapper, evdev_keycode, true),
                evdev_keycode,
                false,
            );
            let bit: u8 = if evdev_keycode == 42 || evdev_keycode == 29 || evdev_keycode == 56 {
                1
            } else {
                2
            };
            &&& after.caps_lock == mapper.caps_lock
            &&& (evdev_keycode == 42 || evdev_keycode == 54) ==> after.shift == mapper.shift & !bit
                && after.control == mapper.control && after.alt == mapper.alt
            &&& (evdev_keycode == 29 || evdev_keycode == 97) ==> after.control == mapper.control
                & !bit && after.shift == mapper.shift && after.alt == mapper.alt
            &&& (evdev_keycode == 56 || evdev_keycode == 100) ==> after.alt == mapper.alt & !bit
                && after.shift == mapper.shift && after.control == mapper.control
        }),
{
    assert(forall|b: u8, bit: u8| #[trigger] ((b | bit) & !bit) == b & !bit) by (bit_vector);
}

/// Caps Lock toggles on a press and ignores its release: two presses
/// restore it.
pub proof fn law_caps_lock_toggles(mapper: XCoreKeyboardMapper)
    ensures
        core_mapper_after(mapper, 58, true).caps_lock == !mapper.caps_lock,
        core_mapper_after(mapper, 58, false) == mapper,
        core_mapper_after(core_mapper_after(mapper, 58, true), 58, true) == mapper,
{
}

fn update_modifier_bit(bits: &mut u8, bit: u8, pressed: bool)
    ensures
        *final(bits) == modifier_bits_after(*old(bits), bit, pressed),
{
    if pressed {
        *bits = *bits | bit;
    } else {
        *bits = *bits & !bit;
    }
}

impl XCoreKeyboardMapper {
    pub fn new() -> (mapper: Self)
        ensures
            mapper == (XCoreKeyboardMapper { shift: 0, control: 0, alt: 0, caps_lock: false }),
    {
        XCoreKeyboardMapper { shift: 0, control: 0, alt: 0, caps_lock: false }
    }

    /// Maps an evdev key transition to its core keycode and the modifier
    /// mask before it. Keycode 0 is ignored outright; a code with no core
    /// keycode still updates the modifiers but is not reported.
    pub fn map_evdev_key(&mut self, evdev_keycode: u32, pressed: bool) -> (mapped: Option<(u8, u16)>)
        ensures
            evdev_keycode == 0 ==> mapped is None && *final(self) == *old(self),
            evdev_keycode != 0 ==> {
                &&& *final(self) == core_mapper_after(*old(self), evdev_keycode, pressed)
                &&& mapped == match evdev_to_x_keycode(evdev_keycode) {
                    Some(keycode) => Some((keycode, core_modifier_mask(*old(self)))),
                    None => None,
                }
            },
    {
        if evdev_keycode == 0 {
            return None;
        }
        let state = self.modifier_mask();
        if evdev_keycode == 42 {
            update_modifier_bit(&mut self.shift, 1, pressed);
        } else if evdev_keycode == 54 {
            update_modifier_bit(&mut self.shift, 2, pressed);
        } else if evdev_keycode == 29 {
            update_modifier_bit(&mut self.control, 1, pressed);
        } else if evdev_keycode == 97 {
            update_modifier_bit(&mut self.control, 2, pressed);
        } else if evdev_keycode == 56 {
            update_modifier_bit(&mut self.alt, 1, pressed);
        } else if evdev_keycode == 100 {
            update_modifier_bit(&mut self.alt, 2, pressed);
        } else if evdev_keycode == 58 && pressed {
            self.caps_lock = !self.caps_lock;
        }
        if evdev_keycode > 247 {
            return None;
        }
        Some(((evdev_keycode + 8) as u8, state))
    }

    pub fn modifier_mask(self) -> (mask: u16)
        ensures
            mask == core_modifier_mask(self),
    {
        (if self.shift > 0 {
            1u16
        } else {
            0u16
        }) | (if self.caps_lock {
            2u16
        } else {
            0u16
        }) | (if self.control > 0 {
            4u16
        } else {
            0u16
        }) | (if self.alt > 0 {
            8u16
        } else {
            0u16
        })
    }
}

/// The two bits a left/right modifier pair keeps: bit 1 while the left key
/// is held, bit 2 while the right key is.
pub open spec fn held_bits(left: bool, right: bool) -> u8 {
    (if left {
        1u8
    } else {
        0u8
    }) | (if right {
        2u8
    } else {
        0u8
    })
}

proof fn lemma_held_bits_after(left: bool, right: bool, pressed: bool)
    ensures
        modifier_bits_after(held_bits(left, right), 1, pressed) == held_bits(pressed, right),
        modifier_bits_after(held_bits(left, right), 2, pressed) == held_bits(left, pressed),
        (held_bits(left, right) > 0) == (left || right),
{
    let b = held_bits(left, right);
    assert(b == held_bits(left, right));
    if left {
        if right {
            assert(b == 3u8) by (bit_vector)
                requires
                    b == (1u8 | 2u8),
            ;
        } else {
            assert(b == 1u8) by (bit_vector)
                requires
                    b == (1u8 | 0u8),
            ;
        }
    } else {
        if right {
            assert(b == 2u8) by (bit_vector)
                requires
                    b == (0u8 | 2u8),
            ;
        } else {
            assert(b == 0u8) by (bit_vector)
                requires
                    b == (0u8 | 0u8),
            ;
        }
    }
    assert(held_bits(true, true) == 3u8) by (bit_vector);
    assert(held_bits(true, false) == 1u8) by (bit_vector);
    assert(held_bits(false, true) == 2u8) by (bit_vector);
    assert(held_bits(false, false) == 0u8) by (bit_vector);
    assert((3u8 | 1u8) == 3u8 && (3u8 & !1u8) == 2u8 && (3u8 | 2u8) == 3u8 && (3u8 & !2u8) == 1u8)
        by (bit_vector);
    assert((1u8 | 1u8) == 1u8 && (1u8 & !1u8) == 0u8 && (1u8 | 2u8) == 3u8 && (1u8 & !2u8) == 1u8)
        by (bit_vector);
    assert((2u8 | 1u8) == 3u8 && (2u8 & !1u8) == 2u8 && (2u8 | 2u8) == 2u8 && (2u8 & !2u8) == 0u8)
        by (bit_vector);
    assert((0u8 | 1u8) == 1u8 && (0u8 & !1u8) == 0u8 && (0u8 | 2u8) == 2u8 && (0u8 & !2u8) == 0u8)
        by (bit_vector);
}

/// The mapper after a sequence of key transitions, each an evdev code and
/// whether it was a press, applied in order.
pub open spec fn mapper_after_events(mapper: XCoreKeyboardMapper, events: Seq<(u32, bool)>) -> XCoreKeyboardMapper
    decreases events.len(),
{
    if events.len() == 0 {
        mapper
    } else {
        core_mapper_after(
            mapper_after_events(mapper, events.drop_last()),
            events.last().0,
            events.last().1,
        )
    }
}

/// Whether `key`'s latest transition in `events` is a press.
pub open spec fn key_held(events: Seq<(u32, bool)>, key: u32) -> bool
    decreases events.len(),
{
    if events.len() == 0 {
        false
    } else if events.last().0 == key {
        events.last().1
    } else {
        key_held(events.drop_last(), key)
    }
}

/// How many presses of `key` `events` holds.
pub open spec fn key_presses(events: Seq<(u32, bool)>, key: u32) -> nat
    decreases events.len(),
{
    if events.len() == 0 {
        0
    } else if events.last().0 == key && events.last().1 {
        key_presses(events.drop_last(), key) + 1
    } else {
        key_presses(events.drop_last(), key)
    }
}

proof fn lemma_mapper_after_events(events: Seq<(u32, bool)>)
    ensures
        ({
            let m = mapper_after_events(
                XCoreKeyboardMapper { shift: 0, control: 0, alt: 0, caps_lock: false },
                events,
            );
            &&& m.shift == held_bits(key_held(events, 42), key_held(events, 54))
            &&& m.control == held_bits(key_held(events, 29), key_held(events, 97))
            &&& m.alt == held_bits(key_held(events, 56), key_held(events, 100))
            &&& m.caps_lock == (key_presses(events, 58) % 2 == 1)
        }),
    decreases events.len(),
{
    if events.len() == 0 {
        assert(held_bits(false, false) == 0u8) by (bit_vector);
    } else {
        let prefix = events.drop_last();
        lemma_mapper_after_events(prefix);
        lemma_held_bits_after(key_held(prefix, 42), key_held(prefix, 54), events.last().1);
        lemma_held_bits_after(key_held(prefix, 29), key_held(prefix, 97), events.last().1);
        lemma_held_bits_after(key_held(prefix, 56), key_held(prefix, 100), events.last().1);
    }
}

/// The core modifier mask a mapper fresh from `new()` reports after any
/// sequence of key transitions: Shift while either Shift key's latest
/// transition is a press, Control and Mod1 likewise for the Control and Alt
/// keys, and Lock after an odd number of Caps Lock presses. No other bit is
/// ever set.
pub proof fn law_modifier_mask_follows_held_keys(events: Seq<(u32, bool)>)
    ensures
        ({
            let mask = core_modifier_mask(
                mapper_after_events(
                    XCoreKeyboardMapper { shift: 0, control: 0, alt: 0, caps_lock: false },
                    events,
                ),
            );
            &&& mask == (if key_held(events, 42) || key_held(events, 54) {
                1u16
            } else {
                0u16
            }) | (if key_presses(events, 58) % 2 == 1 {
                2u16
            } else {
                0u16
            }) | (if key_held(events, 29) || key_held(events, 97) {
                4u16
            } else {
                0u16
            }) | (if key_held(events, 56) || key_held(events, 100) {
                8u16
            } else {
                0u16
            })
            &&& mask & !0xFu16 == 0
        }),
{
    lemma_mapper_after_events(events);
    lemma_held_bits_after(key_held(events, 42), key_held(events, 54), true);
    lemma_held_bits_after(key_held(events, 29), key_held(events, 97), true);
    lemma_held_bits_after(key_held(events, 56), key_held(events, 100), true);
    let m = mapper_after_events(
        XCoreKeyboardMapper { shift: 0, control: 0, alt: 0, caps_lock: false },
        events,
    );
    let a = m.shift > 0;
    let b = m.caps_lock;
    let c = m.control > 0;
    let d = m.alt > 0;
    assert(((if a { 1u16 } else { 0u16 }) | (if b { 2u16 } else { 0u16 }) | (if c { 4u16 } else {
        0u16
    }) | (if d { 8u16 } else { 0u16 })) & !0xFu16 == 0) by (bit_vector);
}

/// The modifier bit of core modifier `index`: Shift, Lock, Control, Mod1
/// to Mod5.
pub open spec fn modifier_bit(index: int) -> u8 {
    seq![1u8, 2u8, 4u8, 8u8, 16u8, 32u8, 64u8, 128u8][index]
}

/// The keycodes `map` assigns the modifier `bit`, in map order.
pub open spec fn keycodes_for(map: Seq<(u8, u8)>, bit: u8) -> Seq<u8>
    decreases map.len(),
{
    if map.len() == 0 {
        Seq::empty()
    } else if map.last().1 == bit {
        keycodes_for(map.drop_last(), bit).push(map.last().0)
    } else {
        keycodes_for(map.drop_last(), bit)
    }
}

/// The first two of `keycodes`, zero where there are fewer.
pub open spec fn first_two(keycodes: Seq<u8>) -> Seq<u8> {
    seq![
        if keycodes.len() > 0 {
            keycodes[0]
        } else {
            0u8
        },
        if keycodes.len() > 1 {
            keycodes[1]
        } else {
            0u8
        },
    ]
}

/// The core GetModifierMapping table of the first `count` modifiers: two
/// keycodes per modifier, the first two the map assigns it.
pub open spec fn modifier_mapping_upto(map: Seq<(u8, u8)>, count: int) -> Seq<u8>
    decreases count,
{
    if count <= 0 {
        Seq::empty()
    } else {
        modifier_mapping_upto(map, count - 1) + first_two(keycodes_for(map, modifier_bit(count - 1)))
    }
}

/// The core GetModifierMapping table: two keycodes for each of the eight
/// modifiers, drawn from the same modifier map XKB replies carry.
pub open spec fn modifier_mapping_of(map: Seq<(u8, u8)>) -> Seq<u8> {
    modifier_mapping_upto(map, 8)
}

fn first_two_keycodes(map: &Vec<(u8, u8)>, bit: u8) -> (pair: (u8, u8))
    ensures
        seq![pair.0, pair.1] == first_two(keycodes_for(map@, bit)),
{
    let mut first: u8 = 0;
    let mut second: u8 = 0;
    let mut found: usize = 0;
    let mut i: usize = 0;
    while i < map.len()
        invariant
            i <= map@.len(),
            found <= 2,
            found == (if keycodes_for(map@.take(i as int), bit).len() >= 2 {
                2
            } else {
                keycodes_for(map@.take(i as int), bit).len()
            }),
            seq![first, second] == first_two(keycodes_for(map@.take(i as int), bit)),
        decreases map@.len() - i,
    {
        proof {
            assert(map@.take(i + 1).drop_last() == map@.take(i as int));
            assert(map@.take(i + 1).last() == map@[i as int]);
        }
        let (keycode, mask) = map[i];
        if mask == bit {
            if found == 0 {
                first = keycode;
                found = 1;
            } else if found == 1 {
                second = keycode;
                found = 2;
            }
        }
        i = i + 1;
    }
    assert(map@.take(map@.len() as int) == map@);
    (first, second)
}

/// The core modifier table of `map`.
pub fn modifier_mapping(map: &Vec<(u8, u8)>) -> (keycodes: Vec<u8>)
    ensures
        keycodes@ == modifier_mapping_of(map@),
{
    let bits: [u8; 8] = [1, 2, 4, 8, 16, 32, 64, 128];
    let mut out: Vec<u8> = Vec::new();
    let mut i: usize = 0;
    while i < 8
        invariant
            i <= 8,
            bits@ == seq![1u8, 2u8, 4u8, 8u8, 16u8, 32u8, 64u8, 128u8],
            out@ == modifier_mapping_upto(map@, i as int),
        decreases 8 - i,
    {
        let (first, second) = first_two_keycodes(map, bits[i]);
        assert(bits@[i as int] == modifier_bit(i as int));
        out.push(first);
        out.push(second);
        i = i + 1;
    }
    out
}

proof fn lemma_keycodes_for_members(map: Seq<(u8, u8)>, bit: u8, j: int)
    requires
        0 <= j < keycodes_for(map, bit).len(),
    ensures
        map.contains((keycodes_for(map, bit)[j], bit)),
    decreases map.len(),
{
    let rest = keycodes_for(map.drop_last(), bit);
    if map.last().1 == bit && j == rest.len() {
        assert(map[map.len() - 1] == (keycodes_for(map, bit)[j], bit));
    } else {
        lemma_keycodes_for_members(map.drop_last(), bit, j);
        let k = choose|k: int| 0 <= k < map.drop_last().len() && map.drop_last()[k] == (
            keycodes_for(map, bit)[j],
            bit,
        );
        assert(map[k] == map.drop_last()[k]);
    }
}

proof fn lemma_modifier_mapping_upto(map: Seq<(u8, u8)>, count: int, i: int, j: int)
    requires
        0 <= i < count <= 8,
        0 <= j < 2,
    ensures
        modifier_mapping_upto(map, count).len() == 2 * count,
        modifier_mapping_upto(map, count)[2 * i + j] == first_two(keycodes_for(map, modifier_bit(i)))[j],
    decreases count,
{
    let rest = modifier_mapping_upto(map, count - 1);
    let last = first_two(keycodes_for(map, modifier_bit(count - 1)));
    assert(modifier_mapping_upto(map, count) == rest + last);
    if count - 1 > 0 {
        if i < count - 1 {
            lemma_modifier_mapping_upto(map, count - 1, i, j);
        } else {
            lemma_modifier_mapping_upto(map, count - 1, 0, 0);
        }
    } else {
        assert(rest.len() == 0);
    }
    assert(rest.len() == 2 * (count - 1));
    if i < count - 1 {
        assert((rest + last)[2 * i + j] == rest[2 * i + j]);
    } else {
        assert((rest + last)[2 * i + j] == last[j]);
    }
}

/// Every keycode the core modifier table lists for a modifier is one the
/// modifier map, which XKB replies carry, assigns that modifier.
pub proof fn law_modifier_mapping_comes_from_the_map(map: Seq<(u8, u8)>, i: int, j: int)
    requires
        0 <= i < 8,
        0 <= j < 2,
    ensures
        modifier_mapping_of(map).len() == 16,
        modifier_mapping_of(map)[2 * i + j] != 0 ==> map.contains(
            (modifier_mapping_of(map)[2 * i + j], modifier_bit(i)),
        ),
{
    lemma_modifier_mapping_upto(map, 8, i, j);
    let keycodes = keycodes_for(map, modifier_bit(i));
    if modifier_mapping_of(map)[2 * i + j] != 0 {
        lemma_keycodes_for_members(map, modifier_bit(i), j);
    }
}

proof fn lemma_core_mapping_of(keysyms: Seq<[u32; 2]>, min_keycode: u8, first_keycode: u8, count: int, i: int)
    requires
        0 <= i < count,
    ensures
        core_mapping_of(keysyms, min_keycode, first_keycode, count).len() == 2 * count,
        core_mapping_of(keysyms, min_keycode, first_keycode, count).subrange(2 * i, 2 * i + 2)
            == keysym_pair_at(keysyms, min_keycode, saturating_add_u8(first_keycode, i)),
    decreases count,
{
    let rest = core_mapping_of(keysyms, min_keycode, first_keycode, count - 1);
    let pair = keysym_pair_at(keysyms, min_keycode, saturating_add_u8(first_keycode, count - 1));
    if keysyms.len() > 0 {
    }
    assert(pair.len() == 2) by {
        let k = saturating_add_u8(first_keycode, count - 1);
        if k >= min_keycode && k - min_keycode < keysyms.len() {
            assert(keysyms[k - min_keycode]@.len() == 2);
        }
    }
    if i < count - 1 {
        lemma_core_mapping_of(keysyms, min_keycode, first_keycode, count - 1, i);
        assert((rest + pair).subrange(2 * i, 2 * i + 2) == rest.subrange(2 * i, 2 * i + 2));
    } else {
        if count - 1 > 0 {
            lemma_core_mapping_of(keysyms, min_keycode, first_keycode, count - 1, 0);
        }
        assert((rest + pair).subrange(2 * i, 2 * i + 2) == pair);
    }
}

/// The core keysym table lists, for each keycode it covers, exactly the
/// keysym pair the XKB keysym table holds for that keycode.
pub proof fn law_core_mapping_reads_the_xkb_keysyms(
    keysyms: Seq<[u32; 2]>,
    min_keycode: u8,
    first_keycode: u8,
    count: int,
    i: int,
)
    requires
        0 <= i < count,
        min_keycode <= first_keycode + i < min_keycode + keysyms.len(),
        first_keycode + i <= 255,
    ensures
        core_mapping_of(keysyms, min_keycode, first_keycode, count).len() == 2 * count,
        core_mapping_of(keysyms, min_keycode, first_keycode, count).subrange(2 * i, 2 * i + 2)
            == keysyms[first_keycode + i - min_keycode]@,
{
    lemma_core_mapping_of(keysyms, min_keycode, first_keycode, count, i);
}

} // verus!
