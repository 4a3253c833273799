use vstd::prelude::*;

verus! {

/// How far, in units of `speed * deltatime`, the free-fly camera moves along
/// its front vector and along its right vector for one keyboard direction.
#[derive(Debug, Clone, Copy, PartialEq, Eq, Structural)]
pub struct MoveSigns {
    pub front: i8,
    pub right: i8,
}

/// Forward (`z == 1`) moves along the front vector, backward (`z == -1`)
/// against it; any other value leaves it.
pub open spec fn front_sign(z: i8) -> int {
    if z == 1 {
        1
    } else if z == -1 {
        -1
    } else {
        0
    }
}

/// `x == -1` moves along the right vector, `x == 1` against it; any other
/// value leaves it.
pub open spec fn right_sign(x: i8) -> int {
    if x == -1 {
        1
    } else if x == 1 {
        -1
    } else {
        0
    }
}

/// The movement for a direction whose components are `x` and `z`.
pub fn movement_signs(x: i8, z: i8) -> (r: MoveSigns)
    ensures
        r.front == front_sign(z),
        r.right == right_sign(x),
{
    let mut front: i8 = 0;
    let mut right: i8 = 0;
    if z == 1 {
        front = front + 1;
    }
    if z == -1 {
        front = front - 1;
    }
    if x == -1 {
        right = right + 1;
    }
    if x == 1 {
        right = right - 1;
    }
    MoveSigns { front, right }
}

} // verus!
