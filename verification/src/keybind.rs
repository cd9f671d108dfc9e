//! Key bindings of the agent: which bound actions fire in a frame, and which
//! freecam movement keys are held.
use vstd::prelude::*;
use crate::input::{Input, InputView, KEYSPACE_SIZE};
use crate::protocol::{KeybindInput, KeybindMapping, OutboundGameControlEvent};

verus! {

/// Virtual key codes of the fixed freecam controls.
pub const VK_W: i32 = 0x57;
pub const VK_S: i32 = 0x53;
pub const VK_D: i32 = 0x44;
pub const VK_A: i32 = 0x41;
pub const VK_E: i32 = 0x45;
pub const VK_Q: i32 = 0x51;
pub const VK_M: i32 = 0x4D;
pub const VK_N: i32 = 0x4E;
pub const VK_LMENU: i32 = 0xA4;
pub const VK_LCONTROL: i32 = 0xA2;

/// Wheel delta of one notch of the mouse wheel.
pub const WHEEL_DELTA: i16 = 120;

/// A binding whose key code lies in the tracked key space.
pub open spec fn input_code_valid(b: KeybindInput) -> bool {
    match b {
        KeybindInput::KeyPressed(code) => 0 <= code < KEYSPACE_SIZE,
        KeybindInput::KeyDown(code) => 0 <= code < KEYSPACE_SIZE,
        _ => true,
    }
}

/// An optional binding whose key code, if any, is valid.
pub open spec fn binding_code_valid(b: Option<KeybindInput>) -> bool {
    match b {
        Some(k) => input_code_valid(k),
        None => true,
    }
}

/// Every binding of the mapping names a valid key code.
pub open spec fn mapping_codes_valid(m: KeybindMapping) -> bool {
    &&& binding_code_valid(m.create_keyframe)
    &&& binding_code_valid(m.play_path)
    &&& binding_code_valid(m.toggle_freecam)
    &&& binding_code_valid(m.toggle_freecam_lock)
    &&& binding_code_valid(m.toggle_hud)
    &&& binding_code_valid(m.toggle_debug_pause)
    &&& binding_code_valid(m.toggle_game_speed)
    &&& binding_code_valid(m.increase_fov)
    &&& binding_code_valid(m.decrease_fov)
}

/// Whether the input triggers the binding in this frame.
pub open spec fn binding_active(iv: InputView, b: KeybindInput) -> bool {
    match b {
        KeybindInput::KeyPressed(code) => iv.pressed[code as int],
        KeybindInput::KeyDown(code) => iv.down[code as int],
        KeybindInput::ScrollUp => iv.wheel > 0,
        KeybindInput::ScrollDown => iv.wheel < 0,
    }
}

/// Whether an optional binding is present and triggered.
pub open spec fn optional_binding_active(iv: InputView, b: Option<KeybindInput>) -> bool {
    match b {
        Some(k) => binding_active(iv, k),
        None => false,
    }
}

pub open spec fn abs_wheel(w: i16) -> int {
    if w < 0 {
        -w
    } else {
        w as int
    }
}

/// Whole wheel notches in a wheel delta.
pub open spec fn scroll_ticks(w: i16) -> int {
    abs_wheel(w) / (WHEEL_DELTA as int)
}

pub open spec fn repeat_event(e: OutboundGameControlEvent, n: int) -> Seq<OutboundGameControlEvent> {
    Seq::new(n as nat, |_i: int| e)
}

/// Events one binding emits in a frame: none when unbound or inactive, one
/// per wheel notch for a wheel binding, else one.
pub open spec fn binding_events(
    iv: InputView,
    b: Option<KeybindInput>,
    e: OutboundGameControlEvent,
) -> Seq<OutboundGameControlEvent> {
    match b {
        None => Seq::empty(),
        Some(k) => if !binding_active(iv, k) {
            Seq::empty()
        } else if k == KeybindInput::ScrollUp || k == KeybindInput::ScrollDown {
            repeat_event(e, scroll_ticks(iv.wheel))
        } else {
            seq![e]
        },
    }
}

/// Events a list of bindings emits in a frame, in list order.
pub open spec fn bindings_events(
    iv: InputView,
    bs: Seq<(Option<KeybindInput>, OutboundGameControlEvent)>,
) -> Seq<OutboundGameControlEvent>
    decreases bs.len(),
{
    if bs.len() == 0 {
        Seq::empty()
    } else {
        bindings_events(iv, bs.drop_last()) + binding_events(iv, bs.last().0, bs.last().1)
    }
}

/// A list of bindings can be evaluated without a key index out of range and
/// without negating the most negative wheel delta.
pub open spec fn bindings_evaluable(
    iv: InputView,
    bs: Seq<(Option<KeybindInput>, OutboundGameControlEvent)>,
) -> bool {
    &&& forall|i: int| 0 <= i < bs.len() ==> binding_code_valid(#[trigger] bs[i].0)
    &&& iv.wheel == i16::MIN ==> forall|i: int|
        0 <= i < bs.len() ==> #[trigger] bs[i].0 != Some(KeybindInput::ScrollDown)
}

/// Bindings checked every frame, in the order they are checked.
pub open spec fn general_bindings(m: KeybindMapping) -> Seq<
    (Option<KeybindInput>, OutboundGameControlEvent),
> {
    seq![
        (m.play_path, OutboundGameControlEvent::PlayPath),
        (m.toggle_freecam, OutboundGameControlEvent::ToggleFreecam),
        (m.toggle_debug_pause, OutboundGameControlEvent::ToggleDebugPause),
        (m.toggle_game_speed, OutboundGameControlEvent::ToggleGameSpeed),
        (m.toggle_hud, OutboundGameControlEvent::ToggleHud),
    ]
}

/// Bindings checked while the freecam is active, in the order they are checked.
pub open spec fn freecam_bindings(m: KeybindMapping) -> Seq<
    (Option<KeybindInput>, OutboundGameControlEvent),
> {
    seq![
        (m.create_keyframe, OutboundGameControlEvent::CreateKeyframe),
        (m.toggle_freecam_lock, OutboundGameControlEvent::ToggleFreecamLock),
    ]
}

/// Speed modifier held during freecam movement.
#[derive(PartialEq, Eq, Structural, Clone, Copy, Debug)]
pub enum SpeedModifier {
    Normal,
    Fast,
    Slow,
}

/// Freecam controls held in a frame. Each axis is +1, 0 or -1.
#[derive(PartialEq, Eq, Structural, Clone, Copy, Debug)]
pub struct FreeCamKeys {
    pub forward: i8,
    pub right: i8,
    pub up: i8,
    pub roll: i8,
    /// Field of view steps of one degree each.
    pub fov_steps: i8,
    pub speed: SpeedModifier,
}

/// Value of an axis driven by a positive and a negative control.
pub open spec fn axis(positive: bool, negative: bool) -> int {
    (if positive {
        1int
    } else {
        0int
    }) - (if negative {
        1int
    } else {
        0int
    })
}

/// The freecam controls the input holds under the mapping.
pub open spec fn freecam_keys_of(iv: InputView, m: KeybindMapping) -> FreeCamKeys {
    FreeCamKeys {
        forward: axis(iv.pressed[VK_W as int], iv.pressed[VK_S as int]) as i8,
        right: axis(iv.pressed[VK_D as int], iv.pressed[VK_A as int]) as i8,
        up: axis(iv.pressed[VK_E as int], iv.pressed[VK_Q as int]) as i8,
        roll: axis(iv.pressed[VK_M as int], iv.pressed[VK_N as int]) as i8,
        fov_steps: axis(
            optional_binding_active(iv, m.increase_fov),
            optional_binding_active(iv, m.decrease_fov),
        ) as i8,
        speed: if iv.pressed[VK_LCONTROL as int] {
            SpeedModifier::Slow
        } else if iv.pressed[VK_LMENU as int] {
            SpeedModifier::Fast
        } else {
            SpeedModifier::Normal
        },
    }
}

/// Applies the key bindings to the input of a frame.
#[derive(PartialEq, Eq, Structural, Clone, Copy, Debug)]
pub struct Keybinds {
    pub mapping: KeybindMapping,
}

impl Keybinds {
    pub fn from_mapping(mapping: KeybindMapping) -> (k: Self)
        ensures
            k.mapping == mapping,
    {
        Keybinds { mapping }
    }

    pub fn set_mapping(&mut self, mapping: KeybindMapping)
        ensures
            final(self).mapping == mapping,
    {
        self.mapping = mapping;
    }

    /// Events of the bindings checked every frame.
    pub fn execute_general_bindings(&self, input: &Input) -> (events: Vec<OutboundGameControlEvent>)
        requires
            input.wf(),
            bindings_evaluable(input@, general_bindings(self.mapping)),
        ensures
            events@ == bindings_events(input@, general_bindings(self.mapping)),
    {
        let bindings = vec![
            (self.mapping.play_path, OutboundGameControlEvent::PlayPath),
            (self.mapping.toggle_freecam, OutboundGameControlEvent::ToggleFreecam),
            (self.mapping.toggle_debug_pause, OutboundGameControlEvent::ToggleDebugPause),
            (self.mapping.toggle_game_speed, OutboundGameControlEvent::ToggleGameSpeed),
            (self.mapping.toggle_hud, OutboundGameControlEvent::ToggleHud),
        ];
        assert(bindings@ == general_bindings(self.mapping));
        Self::execute_bindings(input, &bindings)
    }

    /// Events of the bindings checked while the freecam is active.
    pub fn execute_freecam_bindings(&self, input: &Input) -> (events: Vec<OutboundGameControlEvent>)
        requires
            input.wf(),
            bindings_evaluable(input@, freecam_bindings(self.mapping)),
        ensures
            events@ == bindings_events(input@, freecam_bindings(self.mapping)),
    {
        let bindings = vec![
            (self.mapping.create_keyframe, OutboundGameControlEvent::CreateKeyframe),
            (self.mapping.toggle_freecam_lock, OutboundGameControlEvent::ToggleFreecamLock),
        ];
        assert(bindings@ == freecam_bindings(self.mapping));
        Self::execute_bindings(input, &bindings)
    }

    /// Events of a list of bindings, in list order.
    pub fn execute_bindings(
        input: &Input,
        bindings: &Vec<(Option<KeybindInput>, OutboundGameControlEvent)>,
    ) -> (events: Vec<OutboundGameControlEvent>)
        requires
            input.wf(),
            bindings_evaluable(input@, bindings@),
        ensures
            events@ == bindings_events(input@, bindings@),
    {
        let mut events: Vec<OutboundGameControlEvent> = Vec::new();
        let mut i: usize = 0;
        while i < bindings.len()
            invariant
                0 <= i <= bindings@.len(),
                input.wf(),
                bindings_evaluable(input@, bindings@),
                events@ == bindings_events(input@, bindings@.take(i as int)),
            decreases bindings@.len() - i,
        {
            let (binding, event) = bindings[i];
            assert(bindings@.take(i + 1).drop_last() == bindings@.take(i as int));
            assert(binding_code_valid(bindings@[i as int].0));
            let ghost before = events@;
            match binding {
                None => {},
                Some(b) => {
                    if Self::input_active(input, &b) {
                        match b {
                            KeybindInput::ScrollUp | KeybindInput::ScrollDown => {
                                let w = input.mousewheel_delta();
                                assert(w == i16::MIN ==> b != KeybindInput::ScrollDown);
                                let a: i16 = if w < 0 {
                                    -w
                                } else {
                                    w
                                };
                                let ticks: i16 = a / WHEEL_DELTA;
                                let mut t: i16 = 0;
                                while t < ticks
                                    invariant
                                        0 <= t <= ticks,
                                        ticks == scroll_ticks(input@.wheel),
                                        events@ == before + repeat_event(event, t as int),
                                    decreases ticks - t,
                                {
                                    events.push(event);
                                    t += 1;
                                    assert(events@ == before + repeat_event(event, t as int));
                                }
                            },
                            _ => {
                                events.push(event);
                            },
                        }
                    }
                },
            }
            assert(events@ == before + binding_events(input@, binding, event));
            i += 1;
        }
        assert(bindings@.take(bindings@.len() as int) == bindings@);
        events
    }

    /// Whether the input triggers the binding in this frame.
    pub fn input_active(input: &Input, binding: &KeybindInput) -> (b: bool)
        requires
            input.wf(),
            input_code_valid(*binding),
        ensures
            b == binding_active(input@, *binding),
    {
        match binding {
            KeybindInput::KeyPressed(code) => input.key_pressed(*code),
            KeybindInput::KeyDown(code) => input.key_down(*code),
            KeybindInput::ScrollUp => input.mousewheel_delta() > 0,
            KeybindInput::ScrollDown => input.mousewheel_delta() < 0,
        }
    }

    fn optional_input_active(input: &Input, binding: &Option<KeybindInput>) -> (b: bool)
        requires
            input.wf(),
            binding_code_valid(*binding),
        ensures
            b == optional_binding_active(input@, *binding),
    {
        match binding {
            Some(k) => Self::input_active(input, k),
            None => false,
        }
    }

    /// The freecam controls held in this frame.
    pub fn make_freecam_input(&self, input: &Input) -> (keys: FreeCamKeys)
        requires
            input.wf(),
            binding_code_valid(self.mapping.increase_fov),
            binding_code_valid(self.mapping.decrease_fov),
        ensures
            keys == freecam_keys_of(input@, self.mapping),
    {
        let mut keys = FreeCamKeys {
            forward: 0,
            right: 0,
            up: 0,
            roll: 0,
            fov_steps: 0,
            speed: SpeedModifier::Normal,
        };
        if input.key_pressed(VK_W) {
            keys.forward = keys.forward + 1;
        }
        if input.key_pressed(VK_S) {
            keys.forward = keys.forward - 1;
        }
        if input.key_pressed(VK_D) {
            keys.right = keys.right + 1;
        }
        if input.key_pressed(VK_A) {
            keys.right = keys.right - 1;
        }
        if input.key_pressed(VK_E) {
            keys.up = keys.up + 1;
        }
        if input.key_pressed(VK_Q) {
            keys.up = keys.up - 1;
        }
        // Tilt
        if input.key_pressed(VK_M) {
            keys.roll = keys.roll + 1;
        }
        if input.key_pressed(VK_N) {
            keys.roll = keys.roll - 1;
        }
        // Field of view control
        if Self::optional_input_active(input, &self.mapping.increase_fov) {
            keys.fov_steps = keys.fov_steps + 1;
        }
        if Self::optional_input_active(input, &self.mapping.decrease_fov) {
            keys.fov_steps = keys.fov_steps - 1;
        }
        // Speed modifiers
        if input.key_pressed(VK_LMENU) {
            keys.speed = SpeedModifier::Fast;
        }
        if input.key_pressed(VK_LCONTROL) {
            keys.speed = SpeedModifier::Slow;
        }
        keys
    }
}

/// A wheel binding fires once per whole notch the wheel turned its way in the
/// frame (a notch is a delta of 120), and never when the wheel turned the
/// other way or not at all; scrolling up and scrolling down by the same amount
/// fire the same number of times.
pub proof fn lemma_scroll_bindings_fire_once_per_notch(iv: InputView, e: OutboundGameControlEvent)
    ensures
        iv.wheel > 0 ==> binding_events(iv, Some(KeybindInput::ScrollUp), e).len() == (iv.wheel
            as int) / 120,
        iv.wheel < 0 ==> binding_events(iv, Some(KeybindInput::ScrollDown), e).len() == (-(
        iv.wheel as int)) / 120,
        iv.wheel <= 0 ==> binding_events(iv, Some(KeybindInput::ScrollUp), e).len() == 0,
        iv.wheel >= 0 ==> binding_events(iv, Some(KeybindInput::ScrollDown), e).len() == 0,
        forall|i: int|
            0 <= i < binding_events(iv, Some(KeybindInput::ScrollUp), e).len() ==> #[trigger]
            binding_events(iv, Some(KeybindInput::ScrollUp), e)[i] == e,
        forall|i: int|
            0 <= i < binding_events(iv, Some(KeybindInput::ScrollDown), e).len() ==> #[trigger]
            binding_events(iv, Some(KeybindInput::ScrollDown), e)[i] == e,
{
}

/// Scrolling up by some amount fires an up binding as often as scrolling down
/// by the same amount fires a down binding.
pub proof fn lemma_scroll_up_and_down_agree(
    up: InputView,
    down: InputView,
    e: OutboundGameControlEvent,
)
    requires
        up.wheel > 0,
        down.wheel as int == -(up.wheel as int),
    ensures
        binding_events(up, Some(KeybindInput::ScrollUp), e).len() == binding_events(
            down,
            Some(KeybindInput::ScrollDown),
            e,
        ).len(),
        binding_events(up, Some(KeybindInput::ScrollUp), e).len() >= 1 <==> up.wheel >= 120,
{
}

/// Each freecam axis is +1 while only its positive key is held, -1 while only
/// its negative key is held, and 0 while both or neither are: W/S move
/// forward/back, D/A right/left, E/Q up/down, M/N roll, and the bound field
/// of view keys widen or narrow. Left Ctrl slows the camera, else left Alt
/// speeds it up.
pub proof fn lemma_freecam_axes(iv: InputView, m: KeybindMapping)
    ensures
        ({
            let k = freecam_keys_of(iv, m);
            let p = iv.pressed;
            &&& k.forward == (if p[0x57] && !p[0x53] { 1i8 } else if p[0x53] && !p[0x57] { -1i8 } else { 0i8 })
            &&& k.right == (if p[0x44] && !p[0x41] { 1i8 } else if p[0x41] && !p[0x44] { -1i8 } else { 0i8 })
            &&& k.up == (if p[0x45] && !p[0x51] { 1i8 } else if p[0x51] && !p[0x45] { -1i8 } else { 0i8 })
            &&& k.roll == (if p[0x4D] && !p[0x4E] { 1i8 } else if p[0x4E] && !p[0x4D] { -1i8 } else { 0i8 })
            &&& k.fov_steps == (if optional_binding_active(iv, m.increase_fov)
                && !optional_binding_active(iv, m.decrease_fov) {
                1i8
            } else if optional_binding_active(iv, m.decrease_fov)
                && !optional_binding_active(iv, m.increase_fov) {
                -1i8
            } else {
                0i8
            })
            &&& k.speed == (if p[0xA2] {
                SpeedModifier::Slow
            } else if p[0xA4] {
                SpeedModifier::Fast
            } else {
                SpeedModifier::Normal
            })
        }),
{
}

} // verus!
