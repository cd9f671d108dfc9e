//! Settings of the control panel: the stored settings formats, the key
//! binding editor and the names under which keys are shown.
use vstd::prelude::*;
use crate::protocol::{
    KeybindInput, KeybindMapping, SettingsData, default_keybind_mapping, F32_TEN_BITS,
};

verus! {

/// `std::io::Error`, carried by settings errors.
#[verifier::external_type_specification]
#[verifier::external_body]
pub struct ExIoError(std::io::Error);

/// Why settings could not be loaded or stored.
#[derive(Debug)]
pub enum SettingsError {
    /// No configuration directory is known for the user.
    NoConfigPath,
    /// The stored settings are not valid JSON of a known format.
    Json,
    Io(std::io::Error),
}

/// Settings as the first version of the tool stored them.
#[derive(PartialEq, Eq, Structural, Clone, Copy, Debug)]
pub struct SettingsDataV1 {
    pub apply_gamespeed_only_when_playback_mode_active: bool,
    pub enabling_playback_disables_freecam: bool,
    pub playback_start_restarts_path: bool,
    pub keybinds: KeybindMapping,
}

/// Settings after migration from the first version: the first version's
/// values are dropped for the current defaults.
pub open spec fn migrated_settings(v: SettingsDataV1) -> SettingsData {
    SettingsData {
        time_between_created_keyframes_bits: F32_TEN_BITS,
        keybinds: default_keybind_mapping(),
    }
}

impl From<SettingsDataV1> for SettingsData {
    fn from(v: SettingsDataV1) -> (s: SettingsData) {
        SettingsData {
            time_between_created_keyframes_bits: F32_TEN_BITS,
            keybinds: KeybindMapping::default(),
        }
    }
}

impl vstd::std_specs::convert::FromSpecImpl<SettingsDataV1> for SettingsData {
    open spec fn obeys_from_spec() -> bool {
        true
    }

    open spec fn from_spec(v: SettingsDataV1) -> SettingsData {
        migrated_settings(v)
    }
}

/// Settings as stored, tagged with their format version.
#[derive(PartialEq, Eq, Structural, Clone, Copy, Debug)]
pub enum SettingsFormat {
    V1(SettingsDataV1),
    V2(SettingsData),
}

/// The current settings a stored format stands for.
pub open spec fn current_settings(f: SettingsFormat) -> SettingsData {
    match f {
        SettingsFormat::V1(v) => migrated_settings(v),
        SettingsFormat::V2(v) => v,
    }
}

impl From<SettingsFormat> for SettingsData {
    fn from(f: SettingsFormat) -> (s: SettingsData) {
        match f {
            SettingsFormat::V1(v) => SettingsData::from(v),
            SettingsFormat::V2(v) => v,
        }
    }
}

impl vstd::std_specs::convert::FromSpecImpl<SettingsFormat> for SettingsData {
    open spec fn obeys_from_spec() -> bool {
        true
    }

    open spec fn from_spec(f: SettingsFormat) -> SettingsData {
        current_settings(f)
    }
}

/// The settings loaded from a settings file whose contents parsed to
/// `parsed` (`None` when they did not parse), or `None` when there is no
/// settings file yet: no file gives the defaults, unparsable contents give
/// `Json`.
pub fn loaded_settings(file_exists: bool, parsed: Option<SettingsFormat>) -> (r: Result<
    SettingsData,
    SettingsError,
>)
    ensures
        !file_exists ==> (r matches Ok(s) && s == crate::protocol::default_settings_data()),
        file_exists ==> match parsed {
            Some(f) => (r matches Ok(s) && s == current_settings(f)),
            None => (r matches Err(SettingsError::Json)),
        },
{
    if !file_exists {
        return Ok(SettingsData::default());
    }
    match parsed {
        Some(f) => Ok(SettingsData::from(f)),
        None => Err(SettingsError::Json),
    }
}

/// The form in which settings are stored.
pub fn stored_format(data: &SettingsData) -> (f: SettingsFormat)
    ensures
        f == SettingsFormat::V2(*data),
{
    SettingsFormat::V2(*data)
}

/// The actions whose binding the editor can change.
#[derive(PartialEq, Eq, Structural, Clone, Copy, Debug)]
pub enum ListeningKeybind {
    CreateKeyframe,
    PlayPath,
    ToggleFreecam,
    ToggleHud,
    ToggleDebugPause,
    ToggleGameSpeed,
    IncreaseFov,
    DecreaseFov,
    ToggleFreecamLock,
}

/// The binding of an action.
pub open spec fn binding_of(m: KeybindMapping, a: ListeningKeybind) -> Option<KeybindInput> {
    match a {
        ListeningKeybind::CreateKeyframe => m.create_keyframe,
        ListeningKeybind::PlayPath => m.play_path,
        ListeningKeybind::ToggleFreecam => m.toggle_freecam,
        ListeningKeybind::ToggleHud => m.toggle_hud,
        ListeningKeybind::ToggleDebugPause => m.toggle_debug_pause,
        ListeningKeybind::ToggleGameSpeed => m.toggle_game_speed,
        ListeningKeybind::IncreaseFov => m.increase_fov,
        ListeningKeybind::DecreaseFov => m.decrease_fov,
        ListeningKeybind::ToggleFreecamLock => m.toggle_freecam_lock,
    }
}

/// The mapping with the binding of one action replaced.
pub open spec fn with_binding(m: KeybindMapping, a: ListeningKeybind, b: Option<KeybindInput>) -> KeybindMapping {
    match a {
        ListeningKeybind::CreateKeyframe => KeybindMapping { create_keyframe: b, ..m },
        ListeningKeybind::PlayPath => KeybindMapping { play_path: b, ..m },
        ListeningKeybind::ToggleFreecam => KeybindMapping { toggle_freecam: b, ..m },
        ListeningKeybind::ToggleHud => KeybindMapping { toggle_hud: b, ..m },
        ListeningKeybind::ToggleDebugPause => KeybindMapping { toggle_debug_pause: b, ..m },
        ListeningKeybind::ToggleGameSpeed => KeybindMapping { toggle_game_speed: b, ..m },
        ListeningKeybind::IncreaseFov => KeybindMapping { increase_fov: b, ..m },
        ListeningKeybind::DecreaseFov => KeybindMapping { decrease_fov: b, ..m },
        ListeningKeybind::ToggleFreecamLock => KeybindMapping { toggle_freecam_lock: b, ..m },
    }
}

/// Replacing a binding changes that binding and no other.
pub proof fn lemma_with_binding_reads_back(
    m: KeybindMapping,
    a: ListeningKeybind,
    b: Option<KeybindInput>,
    other: ListeningKeybind,
)
    ensures
        binding_of(with_binding(m, a, b), a) == b,
        other != a ==> binding_of(with_binding(m, a, b), other) == binding_of(m, other),
{
}

/// What a binding row of the editor asks for.
#[derive(PartialEq, Eq, Structural, Clone, Copy, Debug)]
pub enum KeybindRequest {
    Remove,
    StartBinding,
}

/// Keys the binding editor can capture.
#[derive(PartialEq, Eq, Structural, Clone, Copy, Debug)]
pub enum Key {
    A,
    B,
    C,
    D,
    E,
    F,
    G,
    H,
    I,
    J,
    K,
    L,
    M,
    N,
    O,
    P,
    Q,
    R,
    S,
    T,
    U,
    V,
    W,
    X,
    Y,
    Z,
    Num0,
    Num1,
    Num2,
    Num3,
    Num4,
    Num5,
    Num6,
    Num7,
    Num8,
    Num9,
    Enter,
    Tab,
    Backspace,
    Insert,
    Delete,
    Home,
    End,
    PageUp,
    PageDown,
    ArrowLeft,
    ArrowUp,
    ArrowRight,
    ArrowDown,
    Space,
    F1,
    F2,
    F3,
    F4,
    F5,
    F6,
    F7,
    F8,
    F9,
    F10,
    F11,
    F12,
    F13,
    F14,
    F15,
    F16,
    F17,
    F18,
    F19,
    F20,
    F21,
    F22,
    F23,
    F24,
}

/// Virtual key code of a key.
pub open spec fn key_vk(k: Key) -> i32 {
    match k {
        Key::A => 0x41,
        Key::B => 0x42,
        Key::C => 0x43,
        Key::D => 0x44,
        Key::E => 0x45,
        Key::F => 0x46,
        Key::G => 0x47,
        Key::H => 0x48,
        Key::I => 0x49,
        Key::J => 0x4A,
        Key::K => 0x4B,
        Key::L => 0x4C,
        Key::M => 0x4D,
        Key::N => 0x4E,
        Key::O => 0x4F,
        Key::P => 0x50,
        Key::Q => 0x51,
        Key::R => 0x52,
        Key::S => 0x53,
        Key::T => 0x54,
        Key::U => 0x55,
        Key::V => 0x56,
        Key::W => 0x57,
        Key::X => 0x58,
        Key::Y => 0x59,
        Key::Z => 0x5A,
        Key::Num0 => 0x60,
        Key::Num1 => 0x61,
        Key::Num2 => 0x62,
        Key::Num3 => 0x63,
        Key::Num4 => 0x64,
        Key::Num5 => 0x65,
        Key::Num6 => 0x66,
        Key::Num7 => 0x67,
        Key::Num8 => 0x68,
        Key::Num9 => 0x69,
        Key::Enter => 0x0D,
        Key::Tab => 0x09,
        Key::Backspace => 0x08,
        Key::Insert => 0x2D,
        Key::Delete => 0x2E,
        Key::Home => 0x24,
        Key::End => 0x23,
        Key::PageUp => 0x21,
        Key::PageDown => 0x22,
        Key::ArrowLeft => 0x25,
        Key::ArrowUp => 0x26,
        Key::ArrowRight => 0x27,
        Key::ArrowDown => 0x28,
        Key::Space => 0x20,
        Key::F1 => 0x70,
        Key::F2 => 0x71,
        Key::F3 => 0x72,
        Key::F4 => 0x73,
        Key::F5 => 0x74,
        Key::F6 => 0x75,
        Key::F7 => 0x76,
        Key::F8 => 0x77,
        Key::F9 => 0x78,
        Key::F10 => 0x79,
        Key::F11 => 0x7A,
        Key::F12 => 0x7B,
        Key::F13 => 0x7C,
        Key::F14 => 0x7D,
        Key::F15 => 0x7E,
        Key::F16 => 0x7F,
        Key::F17 => 0x80,
        Key::F18 => 0x81,
        Key::F19 => 0x82,
        Key::F20 => 0x83,
        Key::F21 => 0x84,
        Key::F22 => 0x85,
        Key::F23 => 0x86,
        Key::F24 => 0x87,
    }
}

/// Virtual key code of a key.
pub fn egui_key_to_vk(key: Key) -> (vk: i32)
    ensures
        vk == key_vk(key),
{
    match key {
        Key::A => 0x41,
        Key::B => 0x42,
        Key::C => 0x43,
        Key::D => 0x44,
        Key::E => 0x45,
        Key::F => 0x46,
        Key::G => 0x47,
        Key::H => 0x48,
        Key::I => 0x49,
        Key::J => 0x4A,
        Key::K => 0x4B,
        Key::L => 0x4C,
        Key::M => 0x4D,
        Key::N => 0x4E,
        Key::O => 0x4F,
        Key::P => 0x50,
        Key::Q => 0x51,
        Key::R => 0x52,
        Key::S => 0x53,
        Key::T => 0x54,
        Key::U => 0x55,
        Key::V => 0x56,
        Key::W => 0x57,
        Key::X => 0x58,
        Key::Y => 0x59,
        Key::Z => 0x5A,
        Key::Num0 => 0x60,
        Key::Num1 => 0x61,
        Key::Num2 => 0x62,
        Key::Num3 => 0x63,
        Key::Num4 => 0x64,
        Key::Num5 => 0x65,
        Key::Num6 => 0x66,
        Key::Num7 => 0x67,
        Key::Num8 => 0x68,
        Key::Num9 => 0x69,
        Key::Enter => 0x0D,
        Key::Tab => 0x09,
        Key::Backspace => 0x08,
        Key::Insert => 0x2D,
        Key::Delete => 0x2E,
        Key::Home => 0x24,
        Key::End => 0x23,
        Key::PageUp => 0x21,
        Key::PageDown => 0x22,
        Key::ArrowLeft => 0x25,
        Key::ArrowUp => 0x26,
        Key::ArrowRight => 0x27,
        Key::ArrowDown => 0x28,
        Key::Space => 0x20,
        Key::F1 => 0x70,
        Key::F2 => 0x71,
        Key::F3 => 0x72,
        Key::F4 => 0x73,
        Key::F5 => 0x74,
        Key::F6 => 0x75,
        Key::F7 => 0x76,
        Key::F8 => 0x77,
        Key::F9 => 0x78,
        Key::F10 => 0x79,
        Key::F11 => 0x7A,
        Key::F12 => 0x7B,
        Key::F13 => 0x7C,
        Key::F14 => 0x7D,
        Key::F15 => 0x7E,
        Key::F16 => 0x7F,
        Key::F17 => 0x80,
        Key::F18 => 0x81,
        Key::F19 => 0x82,
        Key::F20 => 0x83,
        Key::F21 => 0x84,
        Key::F22 => 0x85,
        Key::F23 => 0x86,
        Key::F24 => 0x87,
    }
}

/// Name under which a virtual key code is shown.
pub open spec fn vk_label(vk: i32) -> Seq<char> {
    match vk {
        0x41 => "A"@,
        0x42 => "B"@,
        0x43 => "C"@,
        0x44 => "D"@,
        0x45 => "E"@,
        0x46 => "F"@,
        0x47 => "G"@,
        0x48 => "H"@,
        0x49 => "I"@,
        0x4A => "J"@,
        0x4B => "K"@,
        0x4C => "L"@,
        0x4D => "M"@,
        0x4E => "N"@,
        0x4F => "O"@,
        0x50 => "P"@,
        0x51 => "Q"@,
        0x52 => "R"@,
        0x53 => "S"@,
        0x54 => "T"@,
        0x55 => "U"@,
        0x56 => "V"@,
        0x57 => "W"@,
        0x58 => "X"@,
        0x59 => "Y"@,
        0x5A => "Z"@,
        0x60 => "Num0"@,
        0x61 => "Num1"@,
        0x62 => "Num2"@,
        0x63 => "Num3"@,
        0x64 => "Num4"@,
        0x65 => "Num5"@,
        0x66 => "Num6"@,
        0x67 => "Num7"@,
        0x68 => "Num8"@,
        0x69 => "Num9"@,
        0x1B => "Escape"@,
        0x0D => "Enter"@,
        0x09 => "Tab"@,
        0x08 => "Backspace"@,
        0x2D => "Insert"@,
        0x2E => "Delete"@,
        0x24 => "Home"@,
        0x23 => "End"@,
        0x21 => "PageUp"@,
        0x22 => "PageDown"@,
        0x25 => "ArrowLeft"@,
        0x26 => "ArrowUp"@,
        0x27 => "ArrowRight"@,
        0x28 => "ArrowDown"@,
        0x20 => "Space"@,
        0x70 => "F1"@,
        0x71 => "F2"@,
        0x72 => "F3"@,
        0x73 => "F4"@,
        0x74 => "F5"@,
        0x75 => "F6"@,
        0x76 => "F7"@,
        0x77 => "F8"@,
        0x78 => "F9"@,
        0x79 => "F10"@,
        0x7A => "F11"@,
        0x7B => "F12"@,
        0x7C => "F13"@,
        0x7D => "F14"@,
        0x7E => "F15"@,
        0x7F => "F16"@,
        0x80 => "F17"@,
        0x81 => "F18"@,
        0x82 => "F19"@,
        0x83 => "F20"@,
        0x84 => "F21"@,
        0x85 => "F22"@,
        0x86 => "F23"@,
        0x87 => "F24"@,
        _ => "Unknown"@,
    }
}

/// Name under which a binding input is shown.
pub open spec fn input_label(input: KeybindInput) -> Seq<char> {
    match input {
        KeybindInput::ScrollDown => "Scroll down"@,
        KeybindInput::ScrollUp => "Scroll up"@,
        KeybindInput::KeyPressed(vk) => vk_label(vk),
        KeybindInput::KeyDown(vk) => vk_label(vk),
    }
}

fn vk_name(vk: i32) -> (s: &'static str)
    ensures
        s@ == vk_label(vk),
{
    match vk {
        0x41 => "A",
        0x42 => "B",
        0x43 => "C",
        0x44 => "D",
        0x45 => "E",
        0x46 => "F",
        0x47 => "G",
        0x48 => "H",
        0x49 => "I",
        0x4A => "J",
        0x4B => "K",
        0x4C => "L",
        0x4D => "M",
        0x4E => "N",
        0x4F => "O",
        0x50 => "P",
        0x51 => "Q",
        0x52 => "R",
        0x53 => "S",
        0x54 => "T",
        0x55 => "U",
        0x56 => "V",
        0x57 => "W",
        0x58 => "X",
        0x59 => "Y",
        0x5A => "Z",
        0x60 => "Num0",
        0x61 => "Num1",
        0x62 => "Num2",
        0x63 => "Num3",
        0x64 => "Num4",
        0x65 => "Num5",
        0x66 => "Num6",
        0x67 => "Num7",
        0x68 => "Num8",
        0x69 => "Num9",
        0x1B => "Escape",
        0x0D => "Enter",
        0x09 => "Tab",
        0x08 => "Backspace",
        0x2D => "Insert",
        0x2E => "Delete",
        0x24 => "Home",
        0x23 => "End",
        0x21 => "PageUp",
        0x22 => "PageDown",
        0x25 => "ArrowLeft",
        0x26 => "ArrowUp",
        0x27 => "ArrowRight",
        0x28 => "ArrowDown",
        0x20 => "Space",
        0x70 => "F1",
        0x71 => "F2",
        0x72 => "F3",
        0x73 => "F4",
        0x74 => "F5",
        0x75 => "F6",
        0x76 => "F7",
        0x77 => "F8",
        0x78 => "F9",
        0x79 => "F10",
        0x7A => "F11",
        0x7B => "F12",
        0x7C => "F13",
        0x7D => "F14",
        0x7E => "F15",
        0x7F => "F16",
        0x80 => "F17",
        0x81 => "F18",
        0x82 => "F19",
        0x83 => "F20",
        0x84 => "F21",
        0x85 => "F22",
        0x86 => "F23",
        0x87 => "F24",
        _ => "Unknown",
    }
}

/// Name under which a binding input is shown.
pub fn format_input(input: &KeybindInput) -> (s: &'static str)
    ensures
        s@ == input_label(*input),
{
    match input {
        KeybindInput::ScrollDown => "Scroll down",
        KeybindInput::ScrollUp => "Scroll up",
        KeybindInput::KeyPressed(vk) => vk_name(*vk),
        KeybindInput::KeyDown(vk) => vk_name(*vk),
    }
}

/// Text of the button of a binding row.
pub open spec fn binding_button_label(listening: bool, v: Option<KeybindInput>) -> Seq<char> {
    if listening {
        "Listening for input"@
    } else {
        match v {
            None => "Unbound"@,
            Some(i) => input_label(i),
        }
    }
}

/// Text of the button of a binding row.
pub fn binding_label(listening: bool, v: &Option<KeybindInput>) -> (s: &'static str)
    ensures
        s@ == binding_button_label(listening, *v),
{
    match (listening, v) {
        (true, _) => "Listening for input",
        (false, None) => "Unbound",
        (false, Some(i)) => format_input(i),
    }
}

/// The binding editor: the bindings being edited and the action, if any,
/// whose new binding it waits for.
#[derive(PartialEq, Eq, Structural, Clone, Copy, Debug)]
pub struct KeybindEditor {
    pub mapping: KeybindMapping,
    pub listening: Option<ListeningKeybind>,
}

/// The input the editor catches in a frame: the last captured key that was
/// pressed, else the scroll direction, if any.
pub open spec fn caught_input(pressed: Seq<Key>, scroll_sign: i8) -> Option<KeybindInput> {
    if pressed.len() > 0 {
        Some(KeybindInput::KeyDown(key_vk(pressed.last())))
    } else if scroll_sign > 0 {
        Some(KeybindInput::ScrollUp)
    } else if scroll_sign < 0 {
        Some(KeybindInput::ScrollDown)
    } else {
        None
    }
}

/// The editor after a frame of input.
pub open spec fn captured(e: KeybindEditor, escape: bool, pressed: Seq<Key>, scroll_sign: i8) -> KeybindEditor {
    match e.listening {
        None => e,
        Some(a) => match caught_input(pressed, scroll_sign) {
            Some(i) => KeybindEditor { mapping: with_binding(e.mapping, a, Some(i)), listening: None },
            None => KeybindEditor { listening: if escape { None } else { e.listening }, ..e },
        },
    }
}

impl KeybindEditor {
    pub fn new(mapping: KeybindMapping) -> (e: Self)
        ensures
            e.mapping == mapping,
            e.listening.is_none(),
    {
        KeybindEditor { mapping, listening: None }
    }

    /// The binding of an action.
    pub fn binding(&self, action: ListeningKeybind) -> (b: Option<KeybindInput>)
        ensures
            b == binding_of(self.mapping, action),
    {
        match action {
            ListeningKeybind::CreateKeyframe => self.mapping.create_keyframe,
            ListeningKeybind::PlayPath => self.mapping.play_path,
            ListeningKeybind::ToggleFreecam => self.mapping.toggle_freecam,
            ListeningKeybind::ToggleHud => self.mapping.toggle_hud,
            ListeningKeybind::ToggleDebugPause => self.mapping.toggle_debug_pause,
            ListeningKeybind::ToggleGameSpeed => self.mapping.toggle_game_speed,
            ListeningKeybind::IncreaseFov => self.mapping.increase_fov,
            ListeningKeybind::DecreaseFov => self.mapping.decrease_fov,
            ListeningKeybind::ToggleFreecamLock => self.mapping.toggle_freecam_lock,
        }
    }

    fn set_binding(&mut self, action: ListeningKeybind, b: Option<KeybindInput>)
        ensures
            *final(self) == (KeybindEditor { mapping: with_binding(old(self).mapping, action, b), ..*old(self) }),
    {
        match action {
            ListeningKeybind::CreateKeyframe => self.mapping.create_keyframe = b,
            ListeningKeybind::PlayPath => self.mapping.play_path = b,
            ListeningKeybind::ToggleFreecam => self.mapping.toggle_freecam = b,
            ListeningKeybind::ToggleHud => self.mapping.toggle_hud = b,
            ListeningKeybind::ToggleDebugPause => self.mapping.toggle_debug_pause = b,
            ListeningKeybind::ToggleGameSpeed => self.mapping.toggle_game_speed = b,
            ListeningKeybind::IncreaseFov => self.mapping.increase_fov = b,
            ListeningKeybind::DecreaseFov => self.mapping.decrease_fov = b,
            ListeningKeybind::ToggleFreecamLock => self.mapping.toggle_freecam_lock = b,
        }
    }

    /// Applies the request of an action's row: start waiting for its new
    /// binding, or unbind it.
    pub fn keybind_column(&mut self, action: ListeningKeybind, request: KeybindRequest)
        ensures
            request == KeybindRequest::StartBinding ==> *final(self) == (KeybindEditor {
                listening: Some(action),
                ..*old(self)
            }),
            request == KeybindRequest::Remove ==> *final(self) == (KeybindEditor {
                mapping: with_binding(old(self).mapping, action, None),
                ..*old(self)
            }),
    {
        match request {
            KeybindRequest::StartBinding => self.listening = Some(action),
            KeybindRequest::Remove => self.set_binding(action, None),
        }
    }

    /// Whether the editor waits for the new binding of this action.
    pub fn is_listening(&self, action: ListeningKeybind) -> (b: bool)
        ensures
            b == (self.listening == Some(action)),
    {
        match self.listening {
            Some(a) => a == action,
            None => false,
        }
    }

    /// Feeds a frame of input to the editor: whether escape was pressed, the
    /// captured keys that were pressed in the order they were checked, and
    /// the sign of the scroll movement. While the editor waits, escape stops
    /// the wait, and a caught input becomes the action's binding.
    pub fn capture(&mut self, escape_pressed: bool, pressed_keys: &Vec<Key>, scroll_sign: i8)
        ensures
            *final(self) == captured(*old(self), escape_pressed, pressed_keys@, scroll_sign),
    {
        let action = match self.listening {
            Some(a) => a,
            None => return,
        };
        if escape_pressed {
            self.listening = None;
        }
        let n = pressed_keys.len();
        let caught = if n > 0 {
            Some(KeybindInput::KeyDown(egui_key_to_vk(pressed_keys[n - 1])))
        } else if scroll_sign > 0 {
            Some(KeybindInput::ScrollUp)
        } else if scroll_sign < 0 {
            Some(KeybindInput::ScrollDown)
        } else {
            None
        };
        if let Some(input) = caught {
            self.set_binding(action, Some(input));
            self.listening = None;
        }
    }
}

/// A key caught by the editor is shown under its own name.
pub proof fn lemma_captured_key_label(k: Key)
    ensures
        input_label(KeybindInput::KeyDown(key_vk(k))) == key_label(k),
{
}

/// Name of a key.
pub open spec fn key_label(k: Key) -> Seq<char> {
    match k {
        Key::A => "A"@,
        Key::B => "B"@,
        Key::C => "C"@,
        Key::D => "D"@,
        Key::E => "E"@,
        Key::F => "F"@,
        Key::G => "G"@,
        Key::H => "H"@,
        Key::I => "I"@,
        Key::J => "J"@,
        Key::K => "K"@,
        Key::L => "L"@,
        Key::M => "M"@,
        Key::N => "N"@,
        Key::O => "O"@,
        Key::P => "P"@,
        Key::Q => "Q"@,
        Key::R => "R"@,
        Key::S => "S"@,
        Key::T => "T"@,
        Key::U => "U"@,
        Key::V => "V"@,
        Key::W => "W"@,
        Key::X => "X"@,
        Key::Y => "Y"@,
        Key::Z => "Z"@,
        Key::Num0 => "Num0"@,
        Key::Num1 => "Num1"@,
        Key::Num2 => "Num2"@,
        Key::Num3 => "Num3"@,
        Key::Num4 => "Num4"@,
        Key::Num5 => "Num5"@,
        Key::Num6 => "Num6"@,
        Key::Num7 => "Num7"@,
        Key::Num8 => "Num8"@,
        Key::Num9 => "Num9"@,
        Key::Enter => "Enter"@,
        Key::Tab => "Tab"@,
        Key::Backspace => "Backspace"@,
        Key::Insert => "Insert"@,
        Key::Delete => "Delete"@,
        Key::Home => "Home"@,
        Key::End => "End"@,
        Key::PageUp => "PageUp"@,
        Key::PageDown => "PageDown"@,
        Key::ArrowLeft => "ArrowLeft"@,
        Key::ArrowUp => "ArrowUp"@,
        Key::ArrowRight => "ArrowRight"@,
        Key::ArrowDown => "ArrowDown"@,
        Key::Space => "Space"@,
        Key::F1 => "F1"@,
        Key::F2 => "F2"@,
        Key::F3 => "F3"@,
        Key::F4 => "F4"@,
        Key::F5 => "F5"@,
        Key::F6 => "F6"@,
        Key::F7 => "F7"@,
        Key::F8 => "F8"@,
        Key::F9 => "F9"@,
        Key::F10 => "F10"@,
        Key::F11 => "F11"@,
        Key::F12 => "F12"@,
        Key::F13 => "F13"@,
        Key::F14 => "F14"@,
        Key::F15 => "F15"@,
        Key::F16 => "F16"@,
        Key::F17 => "F17"@,
        Key::F18 => "F18"@,
        Key::F19 => "F19"@,
        Key::F20 => "F20"@,
        Key::F21 => "F21"@,
        Key::F22 => "F22"@,
        Key::F23 => "F23"@,
        Key::F24 => "F24"@,
    }
}

} // verus!
