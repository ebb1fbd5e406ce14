//! What the engine hands to the application in each of its callbacks.

use std::time::Duration;
use vstd::prelude::*;

use winit::window::WindowBuilder;

use crate::object::GameObject;

verus! {

/// `winit::window::WindowBuilder`: the attributes of a window to be,
/// carried as they are. Nothing is said of what it holds.
#[verifier::external_type_specification]
#[verifier::external_body]
pub struct ExWindowBuilder(WindowBuilder);

/// Calls `winit::window::WindowBuilder::new`, which gives a builder with
/// winit's default attributes. Nothing is said of them here.
#[verifier::external_body]
fn default_window_builder() -> WindowBuilder {
    WindowBuilder::new()
}

/// Why an engine could not be built.
#[derive(Clone, Copy, Debug, PartialEq, Eq, Structural)]
pub enum BuildError {
    /// The builder holds no application.
    AppIsNone,
    /// The builder holds no window builder.
    WindowBuilderIsNone,
}

/// Gathers what an engine is made of: an application, which is most often
/// a `Box<dyn Application>`, and the builder of its window.
pub struct EngineBuilder<A> {
    pub app: Option<A>,
    pub wb: Option<WindowBuilder>,
}

/// An application and the builder of its window, ready to run.
pub struct Engine<A> {
    pub application: Option<A>,
    pub window_builder: Option<WindowBuilder>,
}

impl<A> EngineBuilder<A> {
    /// A builder with the application and a window builder of default
    /// attributes.
    pub fn new(app: A) -> (builder: Self)
        ensures
            builder.app == Some(app),
            builder.wb is Some,
    {
        EngineBuilder { app: Some(app), wb: Some(default_window_builder()) }
    }

    /// The same builder with another application, or none.
    pub fn with_application(self, app: Option<A>) -> (builder: Self)
        ensures
            builder.app == app,
            builder.wb == self.wb,
    {
        EngineBuilder { app, wb: self.wb }
    }

    /// The same builder with another window builder, or none.
    pub fn with_window_builder(self, wb: Option<WindowBuilder>) -> (builder: Self)
        ensures
            builder.app == self.app,
            builder.wb == wb,
    {
        EngineBuilder { app: self.app, wb }
    }

    /// The engine, where the builder holds an application and a window
    /// builder.
    pub fn build(self) -> (engine: Result<Engine<A>, BuildError>)
        ensures
            match engine {
                Ok(engine) => {
                    &&& self.app is Some
                    &&& self.wb is Some
                    &&& engine.application == self.app
                    &&& engine.window_builder == self.wb
                },
                Err(e) => e == if self.app is None {
                    BuildError::AppIsNone
                } else {
                    BuildError::WindowBuilderIsNone
                } && (self.app is None || self.wb is None),
            },
    {
        let app = match self.app {
            Some(app) => app,
            None => {
                return Err(BuildError::AppIsNone);
            },
        };
        let wb = match self.wb {
            Some(wb) => wb,
            None => {
                return Err(BuildError::WindowBuilderIsNone);
            },
        };
        Ok(Engine::new(app, wb))
    }
}

impl<A> Engine<A> {
    /// An engine for the application, with a window from the builder.
    pub fn new(app: A, wb: WindowBuilder) -> (engine: Self)
        ensures
            engine.application == Some(app),
            engine.window_builder == Some(wb),
    {
        Engine { application: Some(app), window_builder: Some(wb) }
    }
}

/// The application's view of the engine during one callback: the objects of
/// the scene, to which it may add, and the time since the last frame. What
/// is added through the context is in the scene once the context is gone.
pub struct ApplicationContext<'a> {
    pub objects: &'a mut Vec<GameObject>,
    pub delta_time: Duration,
}

impl<'a> ApplicationContext<'a> {
    pub fn new(objects: &'a mut Vec<GameObject>, delta_time: Duration) -> (ctx: Self)
        ensures
            *ctx.objects == *old(objects),
            *final(ctx.objects) == *final(objects),
            ctx.delta_time == delta_time,
    {
        ApplicationContext { objects, delta_time }
    }

    /// The time since the last frame.
    pub fn delta_time(&self) -> (delta: Duration)
        ensures
            delta == self.delta_time,
    {
        self.delta_time
    }

    /// Adds an object to the scene, behind those that are there.
    pub fn add_object(&mut self, object: GameObject)
        ensures
            final(self).objects@ == old(self).objects@.push(object),
            *final(final(self).objects) == *final(old(self).objects),
            final(self).delta_time == old(self).delta_time,
    {
        self.objects.push(object);
    }
}

/// What an application does when the engine starts and before each frame.
pub trait Application {
    fn on_init(&mut self, ctx: ApplicationContext);

    fn on_update(&mut self, ctx: ApplicationContext);
}

} // verus!
