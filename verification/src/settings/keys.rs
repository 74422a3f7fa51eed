//! The keys that the editor listens to.

use vstd::prelude::*;

verus! {

/// A key of the keyboard, by its place.
#[derive(Clone, Copy, Debug, PartialEq, Eq, Structural, Hash)]
pub enum KeyCode {
    Backquote,
    Backslash,
    BracketLeft,
    BracketRight,
    Comma,
    Digit0,
    Digit1,
    Digit2,
    Digit3,
    Digit4,
    Digit5,
    Digit6,
    Digit7,
    Digit8,
    Digit9,
    Equal,
    KeyA,
    KeyB,
    KeyC,
    KeyD,
    KeyE,
    KeyF,
    KeyG,
    KeyH,
    KeyI,
    KeyJ,
    KeyK,
    KeyL,
    KeyM,
    KeyN,
    KeyO,
    KeyP,
    KeyQ,
    KeyR,
    KeyS,
    KeyT,
    KeyU,
    KeyV,
    KeyW,
    KeyX,
    KeyY,
    KeyZ,
    Minus,
    Period,
    Quote,
    Semicolon,
    Slash,
    AltLeft,
    AltRight,
    Backspace,
    CapsLock,
    ContextMenu,
    ControlLeft,
    ControlRight,
    Enter,
    SuperLeft,
    SuperRight,
    ShiftLeft,
    ShiftRight,
    Space,
    Tab,
    Delete,
    End,
    Home,
    Insert,
    PageDown,
    PageUp,
    ArrowDown,
    ArrowLeft,
    ArrowRight,
    ArrowUp,
    NumLock,
    Numpad0,
    Numpad1,
    Numpad2,
    Numpad3,
    Numpad4,
    Numpad5,
    Numpad6,
    Numpad7,
    Numpad8,
    Numpad9,
    NumpadAdd,
    NumpadDecimal,
    NumpadDivide,
    NumpadEnter,
    NumpadMultiply,
    NumpadSubtract,
    Escape,
    PrintScreen,
    ScrollLock,
    Pause,
    F1,
    F2,
    F3,
    F4,
    F5,
    F6,
    F7,
    F8,
    F9,
    F10,
    F11,
    F12,
}

/// The modifier keys that are held down.
#[derive(Clone, Copy, Debug, PartialEq, Eq, Structural, Hash)]
pub struct KeyboardModifiers {
    pub alt: bool,
    pub shift: bool,
    pub control: bool,
    pub system: bool,
}

impl KeyboardModifiers {
    /// No modifier key.
    pub open spec fn none() -> KeyboardModifiers {
        KeyboardModifiers { alt: false, shift: false, control: false, system: false }
    }
}

impl Default for KeyboardModifiers {
    fn default() -> (m: KeyboardModifiers)
        ensures
            m == KeyboardModifiers::none(),
    {
        KeyboardModifiers { alt: false, shift: false, control: false, system: false }
    }
}

/// A key with modifiers that calls for an action once when pressed.
#[derive(Clone, Copy, Debug, PartialEq, Eq, Structural, Hash)]
pub enum HotKey {
    NotSet,
    Bound { code: KeyCode, modifiers: KeyboardModifiers },
}

impl HotKey {
    /// The key alone.
    pub open spec fn plain(code: KeyCode) -> HotKey {
        HotKey::Bound { code, modifiers: KeyboardModifiers::none() }
    }

    /// The key with the control key held down.
    pub open spec fn with_ctrl(code: KeyCode) -> HotKey {
        HotKey::Bound { code, modifiers: KeyboardModifiers { control: true, ..KeyboardModifiers::none() } }
    }

    /// The key alone.
    pub fn from_key_code(code: KeyCode) -> (k: HotKey)
        ensures
            k == HotKey::plain(code),
    {
        HotKey::Bound { code, modifiers: KeyboardModifiers::default() }
    }

    /// The key with the control key held down.
    pub fn ctrl_key(code: KeyCode) -> (k: HotKey)
        ensures
            k == HotKey::with_ctrl(code),
    {
        HotKey::Bound {
            code,
            modifiers: KeyboardModifiers { alt: false, shift: false, control: true, system: false },
        }
    }
}

/// A key that acts for as long as it is held down.
#[derive(Clone, Copy, Debug, PartialEq, Eq, Structural, Hash)]
pub enum KeyBinding {
    NotSet,
    Bound(KeyCode),
}

impl KeyBinding {
    pub fn from_key_code(code: KeyCode) -> (k: KeyBinding)
        ensures
            k == KeyBinding::Bound(code),
    {
        KeyBinding::Bound(code)
    }
}

/// The keys of the editor of terrains.
#[derive(Clone, Copy, Debug, PartialEq, Eq, Structural)]
pub struct TerrainKeyBindings {
    pub modify_height_map_mode: HotKey,
    pub draw_on_mask_mode: HotKey,
    pub flatten_slopes_mode: HotKey,
    pub increase_brush_size: HotKey,
    pub decrease_brush_size: HotKey,
    pub increase_brush_opacity: HotKey,
    pub decrease_brush_opacity: HotKey,
    pub prev_layer: HotKey,
    pub next_layer: HotKey,
}

/// The keys of the editor.
#[derive(Clone, Copy, Debug, PartialEq, Eq, Structural)]
pub struct KeyBindings {
    pub move_forward: KeyBinding,
    pub move_back: KeyBinding,
    pub move_left: KeyBinding,
    pub move_right: KeyBinding,
    pub move_up: KeyBinding,
    pub move_down: KeyBinding,
    pub speed_up: KeyBinding,
    pub slow_down: KeyBinding,
    pub undo: HotKey,
    pub redo: HotKey,
    pub enable_select_mode: HotKey,
    pub enable_move_mode: HotKey,
    pub enable_rotate_mode: HotKey,
    pub enable_scale_mode: HotKey,
    pub enable_navmesh_mode: HotKey,
    pub enable_terrain_mode: HotKey,
    pub save_scene: HotKey,
    pub save_scene_as: HotKey,
    pub save_all_scenes: HotKey,
    pub load_scene: HotKey,
    pub copy_selection: HotKey,
    pub paste: HotKey,
    pub new_scene: HotKey,
    pub close_scene: HotKey,
    pub remove_selection: HotKey,
    pub focus: HotKey,
    pub terrain_key_bindings: TerrainKeyBindings,
    pub run_game: HotKey,
}

/// The key that saves the scene under a new name where the settings name
/// none: S with shift and control.
pub fn default_save_scene_as_hotkey() -> (k: HotKey)
    ensures
        k == (HotKey::Bound {
            code: KeyCode::KeyS,
            modifiers: KeyboardModifiers { shift: true, control: true, ..KeyboardModifiers::none() },
        }),
{
    HotKey::Bound {
        code: KeyCode::KeyS,
        modifiers: KeyboardModifiers { alt: false, shift: true, control: true, system: false },
    }
}

/// The key that saves all scenes where the settings name none: S with alt
/// and control.
pub fn default_save_all_scenes_hotkey() -> (k: HotKey)
    ensures
        k == (HotKey::Bound {
            code: KeyCode::KeyS,
            modifiers: KeyboardModifiers { alt: true, control: true, ..KeyboardModifiers::none() },
        }),
{
    HotKey::Bound {
        code: KeyCode::KeyS,
        modifiers: KeyboardModifiers { alt: true, shift: false, control: true, system: false },
    }
}

/// The key that brings the selection into view where the settings name
/// none: F.
pub fn default_focus_hotkey() -> (k: HotKey)
    ensures
        k == HotKey::plain(KeyCode::KeyF),
{
    HotKey::from_key_code(KeyCode::KeyF)
}

/// The key that runs the game where the settings name none: F5.
pub fn default_run_hotkey() -> (k: HotKey)
    ensures
        k == HotKey::plain(KeyCode::F5),
{
    HotKey::from_key_code(KeyCode::F5)
}

impl TerrainKeyBindings {
    /// The keys of the editor of terrains where the settings name none.
    pub open spec fn standard() -> TerrainKeyBindings {
        TerrainKeyBindings {
            modify_height_map_mode: HotKey::plain(KeyCode::F1),
            draw_on_mask_mode: HotKey::plain(KeyCode::F2),
            flatten_slopes_mode: HotKey::plain(KeyCode::F3),
            increase_brush_size: HotKey::plain(KeyCode::BracketRight),
            decrease_brush_size: HotKey::plain(KeyCode::BracketLeft),
            increase_brush_opacity: HotKey::plain(KeyCode::Period),
            decrease_brush_opacity: HotKey::plain(KeyCode::Comma),
            prev_layer: HotKey::plain(KeyCode::Semicolon),
            next_layer: HotKey::plain(KeyCode::Quote),
        }
    }
}

/// The keys of the editor of terrains where the settings name none.
pub fn default_terrain_key_bindings() -> (k: TerrainKeyBindings)
    ensures
        k == TerrainKeyBindings::standard(),
{
    TerrainKeyBindings {
        modify_height_map_mode: HotKey::from_key_code(KeyCode::F1),
        draw_on_mask_mode: HotKey::from_key_code(KeyCode::F2),
        flatten_slopes_mode: HotKey::from_key_code(KeyCode::F3),
        increase_brush_size: HotKey::from_key_code(KeyCode::BracketRight),
        decrease_brush_size: HotKey::from_key_code(KeyCode::BracketLeft),
        increase_brush_opacity: HotKey::from_key_code(KeyCode::Period),
        decrease_brush_opacity: HotKey::from_key_code(KeyCode::Comma),
        prev_layer: HotKey::from_key_code(KeyCode::Semicolon),
        next_layer: HotKey::from_key_code(KeyCode::Quote),
    }
}

impl KeyBindings {
    /// The keys of the editor as it comes: W, S, A, D, E and Q move the
    /// camera, control and shift change its speed; control with Z, Y, S, L,
    /// C, V, N and Q undoes, redoes, saves, loads, copies, pastes, opens and
    /// closes; the digits 1 to 6 choose the tool; delete removes.
    pub open spec fn standard() -> KeyBindings {
        KeyBindings {
            move_forward: KeyBinding::Bound(KeyCode::KeyW),
            move_back: KeyBinding::Bound(KeyCode::KeyS),
            move_left: KeyBinding::Bound(KeyCode::KeyA),
            move_right: KeyBinding::Bound(KeyCode::KeyD),
            move_up: KeyBinding::Bound(KeyCode::KeyE),
            move_down: KeyBinding::Bound(KeyCode::KeyQ),
            speed_up: KeyBinding::Bound(KeyCode::ControlLeft),
            slow_down: KeyBinding::Bound(KeyCode::ShiftLeft),
            undo: HotKey::with_ctrl(KeyCode::KeyZ),
            redo: HotKey::with_ctrl(KeyCode::KeyY),
            enable_select_mode: HotKey::plain(KeyCode::Digit1),
            enable_move_mode: HotKey::plain(KeyCode::Digit2),
            enable_rotate_mode: HotKey::plain(KeyCode::Digit3),
            enable_scale_mode: HotKey::plain(KeyCode::Digit4),
            enable_navmesh_mode: HotKey::plain(KeyCode::Digit5),
            enable_terrain_mode: HotKey::plain(KeyCode::Digit6),
            save_scene: HotKey::with_ctrl(KeyCode::KeyS),
            save_scene_as: HotKey::Bound {
                code: KeyCode::KeyS,
                modifiers: KeyboardModifiers {
                    shift: true,
                    control: true,
                    ..KeyboardModifiers::none()
                },
            },
            save_all_scenes: HotKey::Bound {
                code: KeyCode::KeyS,
                modifiers: KeyboardModifiers { alt: true, control: true, ..KeyboardModifiers::none() },
            },
            load_scene: HotKey::with_ctrl(KeyCode::KeyL),
            copy_selection: HotKey::with_ctrl(KeyCode::KeyC),
            paste: HotKey::with_ctrl(KeyCode::KeyV),
            new_scene: HotKey::with_ctrl(KeyCode::KeyN),
            close_scene: HotKey::with_ctrl(KeyCode::KeyQ),
            remove_selection: HotKey::plain(KeyCode::Delete),
            focus: HotKey::plain(KeyCode::KeyF),
            terrain_key_bindings: TerrainKeyBindings::standard(),
            run_game: HotKey::plain(KeyCode::F5),
        }
    }
}

impl Default for KeyBindings {
    fn default() -> (k: KeyBindings)
        ensures
            k == KeyBindings::standard(),
    {
        KeyBindings {
            move_forward: KeyBinding::from_key_code(KeyCode::KeyW),
            move_back: KeyBinding::from_key_code(KeyCode::KeyS),
            move_left: KeyBinding::from_key_code(KeyCode::KeyA),
            move_right: KeyBinding::from_key_code(KeyCode::KeyD),
            move_up: KeyBinding::from_key_code(KeyCode::KeyE),
            move_down: KeyBinding::from_key_code(KeyCode::KeyQ),
            speed_up: KeyBinding::from_key_code(KeyCode::ControlLeft),
            slow_down: KeyBinding::from_key_code(KeyCode::ShiftLeft),
            undo: HotKey::ctrl_key(KeyCode::KeyZ),
            redo: HotKey::ctrl_key(KeyCode::KeyY),
            enable_select_mode: HotKey::from_key_code(KeyCode::Digit1),
            enable_move_mode: HotKey::from_key_code(KeyCode::Digit2),
            enable_rotate_mode: HotKey::from_key_code(KeyCode::Digit3),
            enable_scale_mode: HotKey::from_key_code(KeyCode::Digit4),
            enable_navmesh_mode: HotKey::from_key_code(KeyCode::Digit5),
            enable_terrain_mode: HotKey::from_key_code(KeyCode::Digit6),
            save_scene: HotKey::ctrl_key(KeyCode::KeyS),
            save_scene_as: default_save_scene_as_hotkey(),
            save_all_scenes: default_save_all_scenes_hotkey(),
            load_scene: HotKey::ctrl_key(KeyCode::KeyL),
            copy_selection: HotKey::ctrl_key(KeyCode::KeyC),
            paste: HotKey::ctrl_key(KeyCode::KeyV),
            new_scene: HotKey::ctrl_key(KeyCode::KeyN),
            close_scene: HotKey::ctrl_key(KeyCode::KeyQ),
            remove_selection: HotKey::from_key_code(KeyCode::Delete),
            focus: default_focus_hotkey(),
            terrain_key_bindings: default_terrain_key_bindings(),
            run_game: default_run_hotkey(),
        }
    }
}

} // verus!
