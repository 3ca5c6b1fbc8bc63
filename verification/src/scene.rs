//! The scene lifecycle state machine.
//!
//! A scene slot is always exactly one of two things: an `Unloaded` factory
//! that has not been invoked yet, or a `Loaded` live instance. The driver
//! constructs lazily (`Unloaded` becomes `Loaded` on first access), and a
//! scene's update step can demand a transition, which retires the live
//! instance. The instance types are parameters: the crate never looks
//! inside a factory `F` or a scene `S`, it only sequences them.

use vstd::prelude::*;

verus! {

/// The transition directive a scene's update step returns.
pub enum SceneEvent<F, S> {
    /// Retire the current scene and go back to `Unloaded` with this
    /// factory; the next access constructs from it.
    ChangeScene(F),
    /// Retire the current scene and replace it with this already-built
    /// instance, without passing through `Unloaded`.
    SetScene(S),
    /// Keep the current scene.
    Empty,
}

impl<F, S> Default for SceneEvent<F, S> {
    /// The do-nothing directive.
    fn default() -> (e: Self)
        ensures
            e is Empty,
    {
        SceneEvent::Empty
    }
}

/// Exactly one of: a factory not yet invoked, or a live scene instance.
pub enum SceneState<F, S> {
    Unloaded(F),
    Loaded(S),
}

impl<F, S> SceneState<F, S> {
    /// Whether a live instance is loaded. The driver must check this (and
    /// construct if not) before calling `loaded`.
    pub fn is_loaded(&self) -> (r: bool)
        ensures
            r == (self is Loaded),
    {
        match self {
            SceneState::Loaded(_) => true,
            SceneState::Unloaded(_) => false,
        }
    }

    /// Borrow the live instance. Calling this while `Unloaded` is a
    /// driver-ordering bug, ruled out by the `requires`: the driver
    /// guarantees lazy construction happens before any access.
    pub fn loaded(&mut self) -> (r: &mut S)
        requires
            *old(self) is Loaded,
        ensures
            *r == (*old(self))->Loaded_0,
            *final(self) == SceneState::<F, S>::Loaded(*final(r)),
    {
        match self {
            SceneState::Loaded(t) => t,
            SceneState::Unloaded(_) => unreached(),
        }
    }

    /// Law: apply a scene-transition directive to a loaded slot.
    ///
    /// Returns the next state and the retired instance, if any:
    /// `ChangeScene(f)` retires the live instance and leaves `Unloaded(f)`;
    /// `SetScene(s)` retires the live instance and leaves `Loaded(s)`;
    /// `Empty` retires nothing and leaves the state unchanged. The caller
    /// owns the retired instance and owes it exactly one `exit()` call
    /// before dropping it.
    pub fn transition(self, directive: SceneEvent<F, S>) -> (r: (SceneState<F, S>, Option<S>))
        requires
            self is Loaded,
        ensures
            directive is Empty ==> r.0 == self && r.1 is None,
            (directive matches SceneEvent::ChangeScene(f)
                ==> r.0 == SceneState::<F, S>::Unloaded(f) && r.1 == Some(self->Loaded_0)),
            (directive matches SceneEvent::SetScene(s)
                ==> r.0 == SceneState::<F, S>::Loaded(s) && r.1 == Some(self->Loaded_0)),
    {
        match directive {
            SceneEvent::ChangeScene(f) => {
                let retired = match self {
                    SceneState::Loaded(t) => t,
                    SceneState::Unloaded(_) => unreached(),
                };
                (SceneState::Unloaded(f), Some(retired))
            },
            SceneEvent::SetScene(s) => {
                let retired = match self {
                    SceneState::Loaded(t) => t,
                    SceneState::Unloaded(_) => unreached(),
                };
                (SceneState::Loaded(s), Some(retired))
            },
            SceneEvent::Empty => (self, None),
        }
    }
}

} // verus!
