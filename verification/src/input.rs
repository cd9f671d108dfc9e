//! Per-frame keyboard and mouse wheel state of the agent, and the rules that
//! decide how raw input is normalised and whether it reaches the game.
use vstd::prelude::*;

verus! {

/// Number of virtual key codes tracked.
pub const KEYSPACE_SIZE: usize = 256;

/// Raw input flag: the scan code carries the E0 prefix.
pub const RI_KEY_E0: u16 = 2;
/// Raw input flag: the scan code carries the E1 prefix.
pub const RI_KEY_E1: u16 = 4;
/// Raw mouse button flag: the event carries a wheel delta.
pub const RI_MOUSE_WHEEL: u16 = 0x0400;

pub const VK_ESCAPE: u16 = 0x1B;
pub const VK_SHIFT: u16 = 0x10;
pub const VK_CONTROL: u16 = 0x11;
pub const VK_MENU: u16 = 0x12;
pub const VK_LSHIFT: u16 = 0xA0;
pub const VK_LCONTROL: u16 = 0xA2;
pub const VK_RCONTROL: u16 = 0xA3;
pub const VK_LMENU: u16 = 0xA4;
pub const VK_RMENU: u16 = 0xA5;

/// Which input devices are kept from reaching the game.
#[derive(PartialEq, Eq, Structural, Clone, Copy, Debug)]
pub enum InputBlockMode {
    Unblocked,
    KeyboardAndMouse,
    Gamepad,
}

impl Default for InputBlockMode {
    fn default() -> (m: Self)
        ensures
            m == InputBlockMode::Unblocked,
    {
        InputBlockMode::Unblocked
    }
}

/// Whether keyboard and mouse input is withheld from the game in this mode.
pub fn blocks_keyboard_and_mouse(mode: InputBlockMode) -> (b: bool)
    ensures
        b == (mode == InputBlockMode::KeyboardAndMouse),
{
    match mode {
        InputBlockMode::Unblocked => false,
        InputBlockMode::KeyboardAndMouse => true,
        InputBlockMode::Gamepad => false,
    }
}

/// Scan code of a raw keyboard event with its E0 and E1 prefixes folded in.
pub open spec fn extended_scan_code_of(make_code: u16, flags: u16) -> u32 {
    let sc = make_code as u32;
    let sc = if flags & RI_KEY_E0 != 0 {
        sc | 0xE000
    } else {
        sc
    };
    if flags & RI_KEY_E1 != 0 {
        sc | 0xE100
    } else {
        sc
    }
}

/// Scan code of a raw keyboard event with its E0 and E1 prefixes folded in,
/// as the keyboard layout translates it.
pub fn extended_scan_code(make_code: u16, flags: u16) -> (sc: u32)
    ensures
        sc == extended_scan_code_of(make_code, flags),
{
    let mut sc = make_code as u32;
    if flags & RI_KEY_E0 != 0 {
        sc = sc | 0xE000;
    }
    if flags & RI_KEY_E1 != 0 {
        sc = sc | 0xE100;
    }
    sc
}

/// The virtual key of a raw keyboard event, telling left and right modifier
/// keys apart. `mapped` is the virtual key the keyboard layout gives for the
/// event's extended scan code, 0 when it gives none.
pub open spec fn normalized_vk(vkey: u16, mapped: u16, flags: u16) -> u16 {
    if vkey == VK_SHIFT {
        if mapped != 0 {
            mapped
        } else {
            VK_LSHIFT
        }
    } else if vkey == VK_CONTROL {
        if flags & RI_KEY_E0 != 0 {
            VK_RCONTROL
        } else {
            VK_LCONTROL
        }
    } else if vkey == VK_MENU {
        if flags & RI_KEY_E0 != 0 {
            VK_RMENU
        } else {
            VK_LMENU
        }
    } else if mapped != 0 {
        mapped
    } else {
        vkey
    }
}

/// The virtual key of a raw keyboard event, telling left and right modifier
/// keys apart; `mapped` is the keyboard layout's translation of the event's
/// extended scan code.
pub fn normalize_vk(vkey: u16, mapped: u16, flags: u16) -> (vk: u16)
    ensures
        vk == normalized_vk(vkey, mapped, flags),
{
    if vkey == VK_SHIFT {
        if mapped != 0 {
            mapped
        } else {
            VK_LSHIFT
        }
    } else if vkey == VK_CONTROL {
        if flags & RI_KEY_E0 != 0 {
            VK_RCONTROL
        } else {
            VK_LCONTROL
        }
    } else if vkey == VK_MENU {
        if flags & RI_KEY_E0 != 0 {
            VK_RMENU
        } else {
            VK_LMENU
        }
    } else if mapped != 0 {
        mapped
    } else {
        vkey
    }
}

/// A raw input event as far as the blocking rule reads it.
#[derive(PartialEq, Eq, Structural, Clone, Copy, Debug)]
pub enum RawInputKind {
    Mouse,
    /// A keyboard event with its normalised virtual key.
    Keyboard { key: u16 },
    Other,
}

/// Whether a raw input event is withheld from the game: while keyboard and
/// mouse are blocked, every event is, except the escape key.
pub fn raw_input_blocked(block_keyboard_and_mouse: bool, kind: RawInputKind) -> (blocked: bool)
    ensures
        blocked == (block_keyboard_and_mouse && kind != (RawInputKind::Keyboard { key: VK_ESCAPE })),
{
    match kind {
        RawInputKind::Keyboard { key } => block_keyboard_and_mouse && key != VK_ESCAPE,
        _ => block_keyboard_and_mouse,
    }
}

/// The wheel delta a raw mouse event carries, if its button flags say it
/// carries one; the button data is the delta as a signed 16-bit value.
pub fn mouse_wheel_delta(button_flags: u16, button_data: u16) -> (d: Option<i16>)
    ensures
        d == if button_flags & RI_MOUSE_WHEEL != 0 {
            Some(button_data as i16)
        } else {
            None::<i16>
        },
{
    if button_flags & RI_MOUSE_WHEEL != 0 {
        Some(button_data as i16)
    } else {
        None
    }
}

/// Abstract state of the input tracker.
pub struct InputView {
    /// Keys held down this frame.
    pub pressed: Seq<bool>,
    /// Keys that went down this frame.
    pub down: Seq<bool>,
    /// Keys that went up this frame.
    pub up: Seq<bool>,
    /// Mouse wheel delta of this frame.
    pub wheel: i16,
}

/// Whether the keyboard state byte of a key says the key is held down.
pub open spec fn key_byte_down(b: u8) -> bool {
    (b & 0x80u8) != 0
}

/// The wheel delta a frame ends with: the last wheel event, or 0.
pub open spec fn last_wheel(events: Seq<i16>) -> i16 {
    if events.len() == 0 {
        0
    } else {
        events.last()
    }
}

/// Keyboard and mouse wheel state of one frame.
pub struct Input {
    keypress: Vec<bool>,
    keydown: Vec<bool>,
    keyup: Vec<bool>,
    mousewheel_delta: i16,
}

impl View for Input {
    type V = InputView;

    closed spec fn view(&self) -> InputView {
        InputView {
            pressed: self.keypress@,
            down: self.keydown@,
            up: self.keyup@,
            wheel: self.mousewheel_delta,
        }
    }
}

impl Input {
    /// The tracker covers the whole key space.
    pub open spec fn wf(&self) -> bool {
        &&& self@.pressed.len() == KEYSPACE_SIZE
        &&& self@.down.len() == KEYSPACE_SIZE
        &&& self@.up.len() == KEYSPACE_SIZE
    }

    /// A key that went down is held, a key that went up is not.
    pub open spec fn edges_consistent(&self) -> bool {
        &&& forall|i: int| 0 <= i < KEYSPACE_SIZE && #[trigger] self@.down[i] ==> self@.pressed[i]
        &&& forall|i: int| 0 <= i < KEYSPACE_SIZE && #[trigger] self@.up[i] ==> !self@.pressed[i]
    }

    /// A tracker with no key held and no wheel movement.
    pub fn new() -> (input: Self)
        ensures
            input.wf(),
            forall|i: int|
                0 <= i < KEYSPACE_SIZE ==> !(#[trigger] input@.pressed[i]) && !input@.down[i]
                    && !input@.up[i],
            input@.wheel == 0,
    {
        Input {
            keypress: vec![false; KEYSPACE_SIZE],
            keydown: vec![false; KEYSPACE_SIZE],
            keyup: vec![false; KEYSPACE_SIZE],
            mousewheel_delta: 0,
        }
    }

    /// Advances the tracker by one frame.
    ///
    /// `keyboard_state` holds one state byte per virtual key as the operating
    /// system reports it; `wheel_events` are the wheel deltas received since
    /// the last frame, oldest first. When the game window is not focused,
    /// every key is released and the wheel is still.
    pub fn update(&mut self, focused: bool, keyboard_state: &[u8], wheel_events: &[i16])
        requires
            old(self).wf(),
            keyboard_state@.len() == KEYSPACE_SIZE,
        ensures
            final(self).wf(),
            final(self).edges_consistent(),
            focused ==> final(self)@.wheel == last_wheel(wheel_events@),
            !focused ==> final(self)@.wheel == 0,
            forall|i: int|
                0 <= i < KEYSPACE_SIZE ==> #[trigger] final(self)@.pressed[i] == (focused
                    && key_byte_down(keyboard_state@[i])),
            forall|i: int|
                0 <= i < KEYSPACE_SIZE ==> #[trigger] final(self)@.down[i] == (focused
                    && key_byte_down(keyboard_state@[i]) && !old(self)@.pressed[i]),
            forall|i: int|
                0 <= i < KEYSPACE_SIZE ==> #[trigger] final(self)@.up[i] == (focused
                    && !key_byte_down(keyboard_state@[i]) && old(self)@.pressed[i]),
    {
        self.mousewheel_delta = 0;
        if !focused {
            let mut i: usize = 0;
            while i < KEYSPACE_SIZE
                invariant
                    0 <= i <= KEYSPACE_SIZE,
                    self.keypress@.len() == KEYSPACE_SIZE,
                    self.keydown@.len() == KEYSPACE_SIZE,
                    self.keyup@.len() == KEYSPACE_SIZE,
                    self.mousewheel_delta == 0,
                    forall|j: int| 0 <= j < i ==> !(#[trigger] self.keypress@[j]),
                    forall|j: int| 0 <= j < i ==> !(#[trigger] self.keydown@[j]),
                    forall|j: int| 0 <= j < i ==> !(#[trigger] self.keyup@[j]),
                decreases KEYSPACE_SIZE - i,
            {
                self.keypress.set(i, false);
                self.keydown.set(i, false);
                self.keyup.set(i, false);
                i += 1;
            }
            return;
        }
        let ghost prev = self.keypress@;
        let mut i: usize = 0;
        while i < KEYSPACE_SIZE
            invariant
                0 <= i <= KEYSPACE_SIZE,
                keyboard_state@.len() == KEYSPACE_SIZE,
                prev.len() == KEYSPACE_SIZE,
                self.keypress@.len() == KEYSPACE_SIZE,
                self.keydown@.len() == KEYSPACE_SIZE,
                self.keyup@.len() == KEYSPACE_SIZE,
                self.mousewheel_delta == 0,
                forall|j: int| i <= j < KEYSPACE_SIZE ==> #[trigger] self.keypress@[j] == prev[j],
                forall|j: int|
                    0 <= j < i ==> #[trigger] self.keypress@[j] == key_byte_down(
                        keyboard_state@[j],
                    ),
                forall|j: int|
                    0 <= j < i ==> #[trigger] self.keydown@[j] == (key_byte_down(keyboard_state@[j])
                        && !prev[j]),
                forall|j: int|
                    0 <= j < i ==> #[trigger] self.keyup@[j] == (!key_byte_down(keyboard_state@[j])
                        && prev[j]),
            decreases KEYSPACE_SIZE - i,
        {
            let byte = keyboard_state[i];
            let down_now = (byte & 0x80) != 0;
            assert(down_now == key_byte_down(keyboard_state@[i as int]));
            let down_prev = self.keypress[i];
            assert(down_prev == prev[i as int]);
            self.keypress.set(i, down_now);
            self.keydown.set(i, down_now && !down_prev);
            self.keyup.set(i, !down_now && down_prev);
            i += 1;
        }
        let n = wheel_events.len();
        if n > 0 {
            self.mousewheel_delta = wheel_events[n - 1];
        }
    }

    /// Whether the key is held down this frame.
    pub fn key_pressed(&self, key: i32) -> (b: bool)
        requires
            self.wf(),
            0 <= key < KEYSPACE_SIZE,
        ensures
            b == self@.pressed[key as int],
    {
        self.keypress[key as usize]
    }

    /// Whether the key went down this frame.
    pub fn key_down(&self, key: i32) -> (b: bool)
        requires
            self.wf(),
            0 <= key < KEYSPACE_SIZE,
        ensures
            b == self@.down[key as int],
    {
        self.keydown[key as usize]
    }

    /// Whether the key went up this frame.
    pub fn key_up(&self, key: i32) -> (b: bool)
        requires
            self.wf(),
            0 <= key < KEYSPACE_SIZE,
        ensures
            b == self@.up[key as int],
    {
        self.keyup[key as usize]
    }

    /// Mouse wheel delta of this frame.
    pub fn mousewheel_delta(&self) -> (d: i16)
        ensures
            d == self@.wheel,
    {
        self.mousewheel_delta
    }
}

} // verus!
