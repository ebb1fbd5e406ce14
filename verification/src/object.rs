//! Game objects: what the application puts into the scene.

use vstd::prelude::*;

use crate::component::{Color, Transform, Vector3, Vector4};

verus! {

/// An object of the scene: a placement and a color. It is drawn as one quad.
/// Two objects are equal where all their components have the same bit
/// patterns.
#[derive(Clone, Copy, Debug, PartialEq, Eq, Structural)]
pub struct GameObject {
    pub transform: Transform,
    pub color: Color,
}

impl GameObject {
    /// The object that `new` and `default` make: placed by the identity,
    /// transparent black.
    pub open spec fn initial() -> GameObject {
        GameObject { transform: Transform::identity(), color: Color::transparent() }
    }

    pub fn new() -> (object: Self)
        ensures
            object == GameObject::initial(),
    {
        GameObject { transform: Transform::new(), color: Color::new() }
    }

    /// The same object at another position.
    pub fn with_position(self, position: Vector3) -> (object: Self)
        ensures
            object == (GameObject {
                transform: Transform { position, ..self.transform },
                ..self
            }),
    {
        GameObject { transform: Transform { position, ..self.transform }, ..self }
    }

    /// The same object with another rotation.
    pub fn with_rotation(self, rotation: Vector3) -> (object: Self)
        ensures
            object == (GameObject {
                transform: Transform { rotation, ..self.transform },
                ..self
            }),
    {
        GameObject { transform: Transform { rotation, ..self.transform }, ..self }
    }

    /// The same object at another scale.
    pub fn with_scale(self, scale: Vector3) -> (object: Self)
        ensures
            object == (GameObject { transform: Transform { scale, ..self.transform }, ..self }),
    {
        GameObject { transform: Transform { scale, ..self.transform }, ..self }
    }

    /// The same object in another color.
    pub fn with_color(self, color: Vector4) -> (object: Self)
        ensures
            object == (GameObject { color: Color { color }, ..self }),
    {
        GameObject { color: Color { color }, ..self }
    }
}

impl Default for GameObject {
    fn default() -> (object: Self)
        ensures
            object == GameObject::initial(),
    {
        GameObject::new()
    }
}

} // verus!
