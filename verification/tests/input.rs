use toy_engine::engine::{BuildError, Engine, EngineBuilder};
use toy_engine::input::{ElementState, InputEvent, InputSystem, KeyToggler};
use toy_engine::renderer::frontend::overlay::{
    buffer_action, draw_list_offsets, render_draw_list, BufferAction, DrawCommand,
    DrawListOffset, DrawListSize, IndexedDraw,
};

const KEY_W: u32 = 32;
const KEY_Z: u32 = 35;

fn key(state: ElementState, code: u32) -> InputEvent {
    InputEvent::KeyboardInput { state, virtual_keycode: Some(code) }
}

fn up() -> u32 {
    1.0f32.to_bits()
}

fn down() -> u32 {
    (-1.0f32).to_bits()
}

#[test]
fn nothing_is_taken_in_without_the_focus() {
    let mut input = InputSystem::new();
    input.on_event(&key(ElementState::Pressed, KEY_W));
    input.on_event(&InputEvent::MouseWheel { x: Some(up()), y: Some(down()) });
    assert!(!input.is_key_pressed(KEY_W));
    assert!(input.is_key_released(KEY_W));
    assert_eq!(input.mouse_scoll_x(), 0);
    assert_eq!(input.mouse_scoll_y(), 0);
}

#[test]
fn keys_are_followed_with_the_focus() {
    let mut input = InputSystem::new();
    input.on_event(&InputEvent::Focused(true));
    input.on_event(&key(ElementState::Pressed, KEY_W));
    assert!(input.is_key_pressed(KEY_W));
    assert!(!input.is_key_released(KEY_W));
    assert!(!input.is_key_pressed(KEY_Z));
    assert!(input.is_key_released(KEY_Z));
    input.on_event(&key(ElementState::Released, KEY_W));
    assert!(!input.is_key_pressed(KEY_W));
    assert!(input.is_key_released(KEY_W));
    input.on_event(&InputEvent::KeyboardInput {
        state: ElementState::Pressed,
        virtual_keycode: None,
    });
    input.on_event(&InputEvent::Other);
    assert!(!input.is_key_pressed(KEY_W));
}

#[test]
fn losing_the_focus_forgets_keys_and_wheel() {
    let mut input = InputSystem::new();
    input.on_event(&InputEvent::Focused(true));
    input.on_event(&key(ElementState::Pressed, KEY_W));
    input.on_event(&InputEvent::MouseWheel { x: None, y: Some(down()) });
    input.on_event(&InputEvent::Focused(false));
    assert!(!input.is_key_pressed(KEY_W));
    assert_eq!(input.mouse_scoll_y(), 0);
    input.on_event(&InputEvent::Focused(true));
    assert!(!input.is_key_pressed(KEY_W));
}

#[test]
fn the_wheel_is_forgotten_at_the_end_of_a_tick() {
    let mut input = InputSystem::new();
    input.on_event(&InputEvent::Focused(true));
    input.on_event(&key(ElementState::Pressed, KEY_Z));
    input.on_event(&InputEvent::MouseWheel { x: Some(up()), y: None });
    assert_eq!(input.mouse_scoll_x(), up());
    assert_eq!(input.mouse_scoll_y(), 0);
    input.on_event(&InputEvent::MouseWheel { x: None, y: Some(down()) });
    assert_eq!(input.mouse_scoll_x(), up());
    assert_eq!(f32::from_bits(input.mouse_scoll_y()), -1.0);
    input.on_event(&InputEvent::MainEventsCleared);
    assert_eq!(input.mouse_scoll_x(), 0);
    assert_eq!(input.mouse_scoll_y(), 0);
    assert!(input.is_key_pressed(KEY_Z));
    input.on_event(&InputEvent::MouseWheel { x: Some(up()), y: Some(up()) });
    input.reset();
    assert_eq!(input.mouse_scoll_x(), 0);
    assert_eq!(input.mouse_scoll_y(), 0);
}

#[test]
fn draw_lists_lie_one_behind_the_other() {
    let lists = vec![
        DrawListSize { vertices: 4, indices: 6 },
        DrawListSize { vertices: 0, indices: 0 },
        DrawListSize { vertices: 10, indices: 30 },
        DrawListSize { vertices: 1, indices: 3 },
    ];
    assert_eq!(
        draw_list_offsets(&lists),
        vec![
            DrawListOffset { vertex_base: 0, index_base: 0 },
            DrawListOffset { vertex_base: 4, index_base: 6 },
            DrawListOffset { vertex_base: 4, index_base: 6 },
            DrawListOffset { vertex_base: 14, index_base: 36 },
        ]
    );
    assert_eq!(draw_list_offsets(&vec![]), vec![]);
}

#[test]
fn a_buffer_is_used_again_where_it_holds_the_data() {
    assert_eq!(buffer_action(None, 0), BufferAction::Create);
    assert_eq!(buffer_action(None, 10), BufferAction::Create);
    assert_eq!(buffer_action(Some(9), 10), BufferAction::Replace);
    assert_eq!(buffer_action(Some(10), 10), BufferAction::Reuse);
    assert_eq!(buffer_action(Some(11), 10), BufferAction::Reuse);
}

#[test]
fn clipped_commands_are_passed_over_but_counted() {
    let commands = vec![
        DrawCommand { count: 6, visible: true },
        DrawCommand { count: 12, visible: false },
        DrawCommand { count: 3, visible: true },
    ];
    let offset = DrawListOffset { vertex_base: 14, index_base: 36 };
    assert_eq!(
        render_draw_list(&commands, offset),
        vec![
            IndexedDraw { index_count: 6, first_index: 36, vertex_offset: 14 },
            IndexedDraw { index_count: 3, first_index: 54, vertex_offset: 14 },
        ]
    );
    assert_eq!(render_draw_list(&vec![], offset), vec![]);
}

#[test]
fn an_engine_needs_an_application_and_a_window_builder() {
    let built = EngineBuilder::new(7u32).build();
    let engine: Engine<u32> = built.ok().unwrap();
    assert_eq!(engine.application, Some(7));
    assert!(engine.window_builder.is_some());
    let missing = EngineBuilder::new(7u32).with_application(None).build();
    assert_eq!(missing.err(), Some(BuildError::AppIsNone));
    let missing = EngineBuilder::new(7u32).with_window_builder(None).build();
    assert_eq!(missing.err(), Some(BuildError::WindowBuilderIsNone));
    let missing = EngineBuilder::new(7u32)
        .with_application(None)
        .with_window_builder(None)
        .build();
    assert_eq!(missing.err(), Some(BuildError::AppIsNone));
    let replaced = EngineBuilder::new(7u32).with_application(Some(8)).build();
    assert_eq!(replaced.ok().unwrap().application, Some(8));
}

#[test]
fn a_toggler_fires_once_per_press() {
    let mut input = InputSystem::new();
    let mut toggler = KeyToggler::new(KEY_W);
    assert_eq!(toggler, KeyToggler { key: KEY_W, pressed: false });
    assert!(!toggler.on_update(&input));
    input.on_event(&InputEvent::Focused(true));
    input.on_event(&key(ElementState::Pressed, KEY_W));
    assert!(toggler.on_update(&input));
    assert!(toggler.pressed);
    assert!(!toggler.on_update(&input));
    assert!(toggler.pressed);
    input.on_event(&key(ElementState::Released, KEY_W));
    assert!(!toggler.on_update(&input));
    assert!(!toggler.pressed);
    input.on_event(&key(ElementState::Pressed, KEY_W));
    assert!(toggler.on_update(&input));
    input.on_event(&InputEvent::Focused(false));
    assert!(!toggler.on_update(&input));
    assert!(!toggler.pressed);
}
