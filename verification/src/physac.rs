//! The 2D physics world.

use vstd::prelude::*;
use crate::context::{Context, Subsystem};
use crate::native::NativeCall;
use crate::shapes::Shape2DKind;

verus! {

/// The guard of the physics world: while it exists, its lock is
/// held.
pub struct Physics {
    started: bool,
}

impl Physics {
    /// Whether taking the lock turned physics on.
    pub closed spec fn turned_on(&self) -> bool {
        self.started
    }

    /// The guard for a world that was enabled, or not, when its lock was
    /// taken.
    pub(crate) fn get(ready: bool) -> (r: Self)
        ensures
            r.turned_on() == !ready,
    {
        Physics { started: !ready }
    }

    /// The native call to make once the guard exists: the one that
    /// turns physics on, if it was off.
    pub fn begin_call(&self) -> (r: Option<NativeCall>)
        ensures
            r == if self.turned_on() {
                Some(NativeCall::InitPhysics)
            } else {
                None::<NativeCall>
            },
    {
        if self.started {
            Some(NativeCall::InitPhysics)
        } else {
            None
        }
    }

    /// Ends the guard: frees the lock and, if physics is on, returns
    /// the call that turns it off.
    pub fn end(self, context: &mut Context) -> (r: Option<NativeCall>)
        ensures
            r == if old(context)@.physics_on {
                Some(NativeCall::ClosePhysics)
            } else {
                None::<NativeCall>
            },
            final(context)@ == old(context)@.released(Subsystem::Physics),
    {
        if context.release_physics() {
            Some(NativeCall::ClosePhysics)
        } else {
            None
        }
    }
}

/// The shape that a physics body with so many vertices is drawn as: a
/// pixel, a line, a triangle or a rectangle for one to four of them, a
/// regular polygon for more, and nothing for none.
pub open spec fn spec_shape_of(vertices: usize) -> Option<Shape2DKind> {
    if vertices == 0 {
        None
    } else if vertices == 1 {
        Some(Shape2DKind::Pixel)
    } else if vertices == 2 {
        Some(Shape2DKind::Line { thick: false })
    } else if vertices == 3 {
        Some(Shape2DKind::Triangle)
    } else if vertices == 4 {
        Some(Shape2DKind::Rectangle { rotated: false })
    } else {
        Some(Shape2DKind::Polygon)
    }
}

pub fn shape_of(vertices: usize) -> (r: Option<Shape2DKind>)
    ensures
        r == spec_shape_of(vertices),
{
    match vertices {
        0 => None,
        1 => Some(Shape2DKind::Pixel),
        2 => Some(Shape2DKind::Line { thick: false }),
        3 => Some(Shape2DKind::Triangle),
        4 => Some(Shape2DKind::Rectangle { rotated: false }),
        _ => Some(Shape2DKind::Polygon),
    }
}

} // verus!
