//! The world, view and projection matrices of one scene.

use vstd::prelude::*;
use crate::matrix::Matrix4;

verus! {

/// The three matrices that take a vertex from model space to clip space.
///
/// `view` and `projection` are fixed when the state is made. `world` is
/// replaced as a whole at every update, so it never depends on the updates
/// that came before.
#[derive(Debug)]
pub struct TransformState<T> {
    world: Matrix4<T>,
    view: Matrix4<T>,
    projection: Matrix4<T>,
}

impl<T: Copy> TransformState<T> {
    /// The model-to-world matrix.
    pub closed spec fn world(&self) -> Matrix4<T> {
        self.world
    }

    /// The world-to-camera matrix.
    pub closed spec fn view(&self) -> Matrix4<T> {
        self.view
    }

    /// The camera-to-clip matrix.
    pub closed spec fn projection(&self) -> Matrix4<T> {
        self.projection
    }

    /// This state with `rotation` in place of its world matrix.
    pub closed spec fn updated(&self, rotation: Matrix4<T>) -> Self {
        TransformState { world: rotation, view: self.view, projection: self.projection }
    }

    /// A state that views through `view` and `projection` a model left where
    /// it is: the world matrix is the identity over `zero` and `one`.
    pub fn new(zero: T, one: T, view: Matrix4<T>, projection: Matrix4<T>) -> (state: Self)
        ensures
            state.world().is_identity(zero, one),
            state.view() == view,
            state.projection() == projection,
    {
        TransformState { world: Matrix4::identity(zero, one), view, projection }
    }

    /// Replaces the world matrix by `rotation`.
    pub fn update(&mut self, rotation: Matrix4<T>)
        ensures
            *final(self) == old(self).updated(rotation),
            final(self).world() == rotation,
            final(self).view() == old(self).view(),
            final(self).projection() == old(self).projection(),
    {
        self.world = rotation;
    }

    /// The world matrix, flattened in column-major order.
    pub fn get_world(&self) -> (cells: &[T])
        ensures
            cells@ == self.world()@,
    {
        self.world.as_slice()
    }

    /// The view matrix, flattened in column-major order.
    pub fn get_view(&self) -> (cells: &[T])
        ensures
            cells@ == self.view()@,
    {
        self.view.as_slice()
    }

    /// The projection matrix, flattened in column-major order.
    pub fn get_projection(&self) -> (cells: &[T])
        ensures
            cells@ == self.projection()@,
    {
        self.projection.as_slice()
    }

    /// World, view and projection, in this order, each flattened in column-major order.
    pub fn read(&self) -> (cells: (&[T], &[T], &[T]))
        ensures
            cells.0@ == self.world()@,
            cells.1@ == self.view()@,
            cells.2@ == self.projection()@,
    {
        (self.world.as_slice(), self.view.as_slice(), self.projection.as_slice())
    }

    /// What an update changes: the world matrix becomes the rotation, and
    /// the camera stays as it was made.
    pub proof fn lemma_updated(self, rotation: Matrix4<T>)
        ensures
            self.updated(rotation).world() == rotation,
            self.updated(rotation).view() == self.view(),
            self.updated(rotation).projection() == self.projection(),
    {
    }

    /// An update does not accumulate: after two updates the state is what the
    /// second alone would have made of it.
    pub proof fn lemma_update_replaces(self, first: Matrix4<T>, second: Matrix4<T>)
        ensures
            self.updated(first).updated(second) == self.updated(second),
    {
    }

    /// Updating twice with one rotation is updating once.
    pub proof fn lemma_update_is_idempotent(self, rotation: Matrix4<T>)
        ensures
            self.updated(rotation).updated(rotation) == self.updated(rotation),
    {
    }
}

} // verus!
