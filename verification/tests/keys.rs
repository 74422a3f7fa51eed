use editor_core::settings::keys::{
    default_focus_hotkey, default_run_hotkey, default_save_all_scenes_hotkey,
    default_save_scene_as_hotkey, default_terrain_key_bindings, HotKey, KeyBinding, KeyBindings,
    KeyCode, KeyboardModifiers,
};

fn plain(code: KeyCode) -> HotKey {
    HotKey::Bound {
        code,
        modifiers: KeyboardModifiers {
            alt: false,
            shift: false,
            control: false,
            system: false,
        },
    }
}

fn ctrl(code: KeyCode) -> HotKey {
    HotKey::Bound {
        code,
        modifiers: KeyboardModifiers {
            alt: false,
            shift: false,
            control: true,
            system: false,
        },
    }
}

#[test]
fn hot_keys_are_made_of_a_key_and_modifiers() {
    assert_eq!(HotKey::from_key_code(KeyCode::KeyF), plain(KeyCode::KeyF));
    assert_eq!(HotKey::ctrl_key(KeyCode::KeyZ), ctrl(KeyCode::KeyZ));
    assert_eq!(
        KeyBinding::from_key_code(KeyCode::KeyW),
        KeyBinding::Bound(KeyCode::KeyW)
    );
    assert_eq!(
        KeyboardModifiers::default(),
        KeyboardModifiers {
            alt: false,
            shift: false,
            control: false,
            system: false
        }
    );
}

#[test]
fn the_keys_for_saving_hold_modifiers() {
    assert_eq!(
        default_save_scene_as_hotkey(),
        HotKey::Bound {
            code: KeyCode::KeyS,
            modifiers: KeyboardModifiers {
                alt: false,
                shift: true,
                control: true,
                system: false
            }
        }
    );
    assert_eq!(
        default_save_all_scenes_hotkey(),
        HotKey::Bound {
            code: KeyCode::KeyS,
            modifiers: KeyboardModifiers {
                alt: true,
                shift: false,
                control: true,
                system: false
            }
        }
    );
    assert_eq!(default_focus_hotkey(), plain(KeyCode::KeyF));
    assert_eq!(default_run_hotkey(), plain(KeyCode::F5));
}

#[test]
fn the_keys_of_the_terrain_editor() {
    let t = default_terrain_key_bindings();
    assert_eq!(t.modify_height_map_mode, plain(KeyCode::F1));
    assert_eq!(t.draw_on_mask_mode, plain(KeyCode::F2));
    assert_eq!(t.flatten_slopes_mode, plain(KeyCode::F3));
    assert_eq!(t.increase_brush_size, plain(KeyCode::BracketRight));
    assert_eq!(t.decrease_brush_size, plain(KeyCode::BracketLeft));
    assert_eq!(t.increase_brush_opacity, plain(KeyCode::Period));
    assert_eq!(t.decrease_brush_opacity, plain(KeyCode::Comma));
    assert_eq!(t.prev_layer, plain(KeyCode::Semicolon));
    assert_eq!(t.next_layer, plain(KeyCode::Quote));
}

#[test]
fn the_keys_of_the_editor_as_it_comes() {
    let k = KeyBindings::default();
    assert_eq!(k.move_forward, KeyBinding::Bound(KeyCode::KeyW));
    assert_eq!(k.move_back, KeyBinding::Bound(KeyCode::KeyS));
    assert_eq!(k.move_left, KeyBinding::Bound(KeyCode::KeyA));
    assert_eq!(k.move_right, KeyBinding::Bound(KeyCode::KeyD));
    assert_eq!(k.move_up, KeyBinding::Bound(KeyCode::KeyE));
    assert_eq!(k.move_down, KeyBinding::Bound(KeyCode::KeyQ));
    assert_eq!(k.speed_up, KeyBinding::Bound(KeyCode::ControlLeft));
    assert_eq!(k.slow_down, KeyBinding::Bound(KeyCode::ShiftLeft));
    assert_eq!(k.undo, ctrl(KeyCode::KeyZ));
    assert_eq!(k.redo, ctrl(KeyCode::KeyY));
    assert_eq!(k.enable_select_mode, plain(KeyCode::Digit1));
    assert_eq!(k.enable_move_mode, plain(KeyCode::Digit2));
    assert_eq!(k.enable_rotate_mode, plain(KeyCode::Digit3));
    assert_eq!(k.enable_scale_mode, plain(KeyCode::Digit4));
    assert_eq!(k.enable_navmesh_mode, plain(KeyCode::Digit5));
    assert_eq!(k.enable_terrain_mode, plain(KeyCode::Digit6));
    assert_eq!(k.save_scene, ctrl(KeyCode::KeyS));
    assert_eq!(k.save_scene_as, default_save_scene_as_hotkey());
    assert_eq!(k.save_all_scenes, default_save_all_scenes_hotkey());
    assert_eq!(k.load_scene, ctrl(KeyCode::KeyL));
    assert_eq!(k.copy_selection, ctrl(KeyCode::KeyC));
    assert_eq!(k.paste, ctrl(KeyCode::KeyV));
    assert_eq!(k.new_scene, ctrl(KeyCode::KeyN));
    assert_eq!(k.close_scene, ctrl(KeyCode::KeyQ));
    assert_eq!(k.remove_selection, plain(KeyCode::Delete));
    assert_eq!(k.focus, plain(KeyCode::KeyF));
    assert_eq!(k.terrain_key_bindings, default_terrain_key_bindings());
    assert_eq!(k.run_game, plain(KeyCode::F5));
}
