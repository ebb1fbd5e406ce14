//! The state of the keyboard and of the mouse wheel, as the window's events
//! tell it.

use std::collections::HashMap;
use vstd::prelude::*;

use crate::component::F32_ZERO;

verus! {

broadcast use vstd::std_specs::hash::group_hash_axioms;

/// Whether a key is down or up.
#[derive(Clone, Copy, Debug, PartialEq, Eq, Structural)]
pub enum ElementState {
    Pressed,
    Released,
}

/// What an event of the window means to the input system. A key is named
/// by its code.
#[derive(Clone, Copy, Debug, PartialEq, Eq, Structural)]
pub enum InputEvent {
    /// The window gained or lost the focus.
    Focused(bool),
    /// All events of this tick have been handed out.
    MainEventsCleared,
    /// A key went down or up; it has no code where the platform knows none.
    KeyboardInput { state: ElementState, virtual_keycode: Option<u32> },
    /// The wheel moved by lines. Each direction holds the sign of the
    /// movement, as the bit pattern of a float, where the wheel moved in
    /// it.
    MouseWheel { x: Option<u32>, y: Option<u32> },
    /// Any other event.
    Other,
}

/// What the input system knows.
pub ghost struct InputState {
    pub focused: bool,
    pub keyboard: Map<u32, ElementState>,
    pub scroll_x: u32,
    pub scroll_y: u32,
}

/// The state after an event. Without the focus only a change of focus is
/// taken in; losing the focus forgets the keys and the wheel. The wheel is
/// forgotten at the end of every tick.
pub open spec fn after_event(state: InputState, event: InputEvent) -> InputState {
    match event {
        InputEvent::Focused(focused) => if focused {
            InputState { focused, ..state }
        } else {
            InputState {
                focused,
                keyboard: Map::empty(),
                scroll_x: F32_ZERO,
                scroll_y: F32_ZERO,
            }
        },
        _ => if !state.focused {
            state
        } else {
            match event {
                InputEvent::MainEventsCleared => InputState {
                    scroll_x: F32_ZERO,
                    scroll_y: F32_ZERO,
                    ..state
                },
                InputEvent::KeyboardInput { state: key_state, virtual_keycode: Some(code) } => {
                    InputState { keyboard: state.keyboard.insert(code, key_state), ..state }
                },
                InputEvent::MouseWheel { x, y } => InputState {
                    scroll_x: match x {
                        Some(sign) => sign,
                        None => state.scroll_x,
                    },
                    scroll_y: match y {
                        Some(sign) => sign,
                        None => state.scroll_y,
                    },
                    ..state
                },
                _ => state,
            }
        },
    }
}

/// The direction of the mouse wheel, each axis the bit pattern of a float.
#[derive(Clone, Copy, Debug, PartialEq, Eq, Structural)]
pub struct ScrollState {
    pub x: u32,
    pub y: u32,
}

/// Follows the keyboard and the mouse wheel while the window has the focus.
pub struct InputSystem {
    focused: bool,
    keyboard: HashMap<u32, ElementState>,
    scroll_state: ScrollState,
}

impl View for InputSystem {
    type V = InputState;

    closed spec fn view(&self) -> InputState {
        InputState {
            focused: self.focused,
            keyboard: self.keyboard@,
            scroll_x: self.scroll_state.x,
            scroll_y: self.scroll_state.y,
        }
    }
}

impl InputSystem {
    /// An input system without the focus, that knows no key and no
    /// movement of the wheel.
    pub fn new() -> (input: Self)
        ensures
            input@ == (InputState {
                focused: false,
                keyboard: Map::empty(),
                scroll_x: F32_ZERO,
                scroll_y: F32_ZERO,
            }),
    {
        InputSystem {
            focused: false,
            keyboard: HashMap::new(),
            scroll_state: ScrollState { x: F32_ZERO, y: F32_ZERO },
        }
    }

    /// Forgets the movement of the wheel.
    pub fn reset(&mut self)
        ensures
            final(self)@ == (InputState { scroll_x: F32_ZERO, scroll_y: F32_ZERO, ..old(self)@ }),
    {
        self.scroll_state = ScrollState { x: F32_ZERO, y: F32_ZERO };
    }

    /// Takes in an event.
    pub fn on_event(&mut self, event: &InputEvent)
        ensures
            final(self)@ == after_event(old(self)@, *event),
    {
        match *event {
            InputEvent::Focused(focused) => {
                self.focused = focused;
                if !focused {
                    self.keyboard.clear();
                    self.scroll_state = ScrollState { x: F32_ZERO, y: F32_ZERO };
                }
                return ;
            },
            _ => {},
        }
        if !self.focused {
            return ;
        }
        match *event {
            InputEvent::MainEventsCleared => self.reset(),
            InputEvent::KeyboardInput { state, virtual_keycode } => {
                match virtual_keycode {
                    Some(keycode) => {
                        self.keyboard.insert(keycode, state);
                    },
                    None => {},
                }
            },
            InputEvent::MouseWheel { x, y } => {
                match x {
                    Some(sign) => {
                        self.scroll_state.x = sign;
                    },
                    None => {},
                }
                match y {
                    Some(sign) => {
                        self.scroll_state.y = sign;
                    },
                    None => {},
                }
            },
            _ => {},
        }
    }

    /// Whether the key is known to be down.
    pub fn is_key_pressed(&self, key: u32) -> (pressed: bool)
        ensures
            pressed == (self@.keyboard.contains_key(key) && self@.keyboard[key]
                == ElementState::Pressed),
    {
        match self.keyboard.get(&key) {
            Some(state) => *state == ElementState::Pressed,
            None => false,
        }
    }

    /// Whether the key is not known to be down.
    pub fn is_key_released(&self, key: u32) -> (released: bool)
        ensures
            released == (self@.keyboard.contains_key(key) ==> self@.keyboard[key]
                == ElementState::Released),
    {
        match self.keyboard.get(&key) {
            Some(state) => *state == ElementState::Released,
            None => true,
        }
    }

    /// The horizontal direction of the wheel in this tick.
    pub fn mouse_scoll_x(&self) -> (sign: u32)
        ensures
            sign == self@.scroll_x,
    {
        self.scroll_state.x
    }

    /// The vertical direction of the wheel in this tick.
    pub fn mouse_scoll_y(&self) -> (sign: u32)
        ensures
            sign == self@.scroll_y,
    {
        self.scroll_state.y
    }
}

/// Fires once each time a key goes down.
#[derive(Clone, Copy, Debug, PartialEq, Eq, Structural)]
pub struct KeyToggler {
    /// The code of the key.
    pub key: u32,
    /// Whether the key was down when last looked at.
    pub pressed: bool,
}

impl KeyToggler {
    /// A toggler for a key that is taken to be up.
    pub fn new(key: u32) -> (toggler: Self)
        ensures
            toggler == (KeyToggler { key, pressed: false }),
    {
        KeyToggler { key, pressed: false }
    }

    /// Looks at the key. Fires where the key is down and was not down when
    /// last looked at.
    pub fn on_update(&mut self, input: &InputSystem) -> (fired: bool)
        ensures
            final(self).key == old(self).key,
            final(self).pressed == (input@.keyboard.contains_key(old(self).key)
                && input@.keyboard[old(self).key] == ElementState::Pressed),
            fired == (final(self).pressed && !old(self).pressed),
    {
        let mut fired = false;
        if input.is_key_pressed(self.key) && !self.pressed {
            self.pressed = true;
            fired = true;
        }
        if input.is_key_released(self.key) && self.pressed {
            self.pressed = false;
        }
        fired
    }
}

} // verus!
