// Collision handling and motion for a two-paddle Pong field, on integer coordinates.
//
// `geometry`: circles, axis-aligned rectangles and which face a circle strikes.
// `response`: how the ball's velocity turns on a strike, and one tick over all colliders.
// `motion`: velocity integration and clamped paddle movement.
// `arena`: the field's walls, paddles and ball.
// `laws`: properties that relate these functions.
// `units`: the fixed-point units that positions, speeds and time are counted in.

pub mod arena;
pub mod geometry;
pub mod laws;
pub mod motion;
pub mod response;
pub mod units;
