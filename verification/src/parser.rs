//! Turning a movement vector into a gesture direction.
use vstd::prelude::*;
use crate::gesture::{GestureDir, Point};

verus! {

/// Absolute value.
pub open spec fn abs(v: int) -> int {
    if v < 0 { -v } else { v }
}

/// The 4-direction classification of a movement by (dx, dy) in screen coordinates
/// (y grows downward): the dominant axis wins, and a tie goes to the vertical axis,
/// with no movement at all counting as Up.
pub open spec fn direction4(dx: int, dy: int) -> GestureDir {
    if abs(dx) > abs(dy) {
        if dx > 0 { GestureDir::Right } else { GestureDir::Left }
    } else {
        if dy <= 0 { GestureDir::Up } else { GestureDir::Down }
    }
}

/// The 4-direction classification never yields a diagonal.
pub proof fn lemma_direction4_is_cardinal(dx: int, dy: int)
    ensures
        !direction4(dx, dy).spec_is_diagonal(),
        direction4(dx, dy).spec_to_cardinal() == direction4(dx, dy),
{
}

/// Calculate 4-direction gesture from a vector
pub fn calculate_4direction(vector: &Point) -> (r: GestureDir)
    requires
        vector.x != i32::MIN,
        vector.y != i32::MIN,
    ensures
        r == direction4(vector.x as int, vector.y as int),
{
    let dx = vector.x;
    let dy = -vector.y;  // Invert Y because screen coordinates have Y pointing down
    if dx >= 0 && dy >= 0 {
        if dx > dy { GestureDir::Right } else { GestureDir::Up }
    } else if dx <= 0 && dy >= 0 {
        if -dx > dy { GestureDir::Left } else { GestureDir::Up }
    } else if dx <= 0 && dy <= 0 {
        if -dx > -dy { GestureDir::Left } else { GestureDir::Down }
    } else {
        if dx > -dy { GestureDir::Right } else { GestureDir::Down }
    }
}

/// The same classification on 64-bit components, for movements whose components
/// need not fit a `Point`.
pub fn direction4_of(dx: i64, dy: i64) -> (r: GestureDir)
    requires
        dx != i64::MIN,
        dy != i64::MIN,
    ensures
        r == direction4(dx as int, dy as int),
{
    let ax = if dx < 0 { -dx } else { dx };
    let ay = if dy < 0 { -dy } else { dy };
    if ax > ay {
        if dx > 0 { GestureDir::Right } else { GestureDir::Left }
    } else {
        if dy <= 0 { GestureDir::Up } else { GestureDir::Down }
    }
}

/// A direction seen in a mirror held along the vertical axis: left and right swap.
pub open spec fn mirrored_left_right(d: GestureDir) -> GestureDir {
    match d {
        GestureDir::Left => GestureDir::Right,
        GestureDir::Right => GestureDir::Left,
        GestureDir::UpLeft => GestureDir::UpRight,
        GestureDir::UpRight => GestureDir::UpLeft,
        GestureDir::DownLeft => GestureDir::DownRight,
        GestureDir::DownRight => GestureDir::DownLeft,
        _ => d,
    }
}

/// A direction seen in a mirror held along the horizontal axis: up and down swap.
pub open spec fn mirrored_up_down(d: GestureDir) -> GestureDir {
    match d {
        GestureDir::Up => GestureDir::Down,
        GestureDir::Down => GestureDir::Up,
        GestureDir::UpLeft => GestureDir::DownLeft,
        GestureDir::DownLeft => GestureDir::UpLeft,
        GestureDir::UpRight => GestureDir::DownRight,
        GestureDir::DownRight => GestureDir::UpRight,
        _ => d,
    }
}

/// What a 4-direction stroke is, on screen (y grows downward): a movement whose
/// vertical part is at least as long as its horizontal part is Down when it goes down
/// the screen and Up when it goes up, whatever its horizontal part; a movement whose
/// horizontal part is longer is Right when it goes right and Left when it goes left.
pub proof fn lemma_direction4_follows_the_longer_axis(dx: int, dy: int)
    ensures
        abs(dx) <= abs(dy) && dy > 0 ==> direction4(dx, dy) == GestureDir::Down,
        abs(dx) <= abs(dy) && dy < 0 ==> direction4(dx, dy) == GestureDir::Up,
        abs(dx) > abs(dy) && dx > 0 ==> direction4(dx, dy) == GestureDir::Right,
        abs(dx) > abs(dy) && dx < 0 ==> direction4(dx, dy) == GestureDir::Left,
{
}

/// The 4-direction classification is symmetric: mirroring a movement left to right
/// mirrors its direction left to right, and mirroring a movement (other than none at
/// all) up to down mirrors its direction up to down.
pub proof fn lemma_direction4_mirrors(dx: int, dy: int)
    ensures
        direction4(-dx, dy) == mirrored_left_right(direction4(dx, dy)),
        (dx, dy) != (0int, 0int) ==> direction4(dx, -dy) == mirrored_up_down(direction4(dx, dy)),
{
}

/// Stretching a movement keeps its 4-direction classification.
pub proof fn lemma_direction4_ignores_length(dx: int, dy: int, k: int)
    requires
        k > 0,
    ensures
        direction4(k * dx, k * dy) == direction4(dx, dy),
{
    assert(abs(k * dx) == k * abs(dx)) by (nonlinear_arith)
        requires
            k > 0,
    ;
    assert(abs(k * dy) == k * abs(dy)) by (nonlinear_arith)
        requires
            k > 0,
    ;
    assert(abs(dx) > abs(dy) <==> k * abs(dx) > k * abs(dy)) by (nonlinear_arith)
        requires
            k > 0,
    ;
    assert(dx > 0 <==> k * dx > 0) by (nonlinear_arith)
        requires
            k > 0,
    ;
    assert(dy <= 0 <==> k * dy <= 0) by (nonlinear_arith)
        requires
            k > 0,
    ;
}

} // verus!
