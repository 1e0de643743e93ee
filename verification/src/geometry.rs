//! Pixel geometry of a detection: the bounding box of a face, its center, and the
//! position of that center as a fraction of the frame.

use vstd::prelude::*;
use crate::servo_controller::{AxisCommand, MAX_ANGLE};

verus! {

/// A detected face in frame-pixel coordinates.
#[derive(Debug, Clone, Copy, PartialEq, Eq)]
pub struct BoundingBox {
    pub x: i32,
    pub y: i32,
    pub width: u32,
    pub height: u32,
}

/// `value` limited to the range from 0 to `limit`.
pub open spec fn clamp_to(value: int, limit: int) -> int {
    if value < 0 {
        0
    } else if value > limit {
        limit
    } else {
        value
    }
}

/// The angle that stands for the fraction `numerator / denominator` of the axis range,
/// rounded down.
pub open spec fn angle_of(numerator: int, denominator: int) -> int {
    numerator * (MAX_ANGLE as int) / denominator
}

impl BoundingBox {
    /// Horizontal pixel coordinate of the center of the box.
    pub open spec fn center_x(self) -> int {
        self.x + self.width / 2
    }

    /// Vertical pixel coordinate of the center of the box.
    pub open spec fn center_y(self) -> int {
        self.y + self.height / 2
    }

    /// Whether the center of the box lies inside a frame of the given size.
    pub open spec fn centered_within(self, width: u32, height: u32) -> bool {
        0 <= self.center_x() <= width && 0 <= self.center_y() <= height
    }
}

/// Center of a face as a fraction of the frame: `x / width` and `y / height`, both between
/// 0 and 1. Values of this type come from [`normalized_center`] only.
#[derive(Debug, Clone, Copy, PartialEq, Eq)]
pub struct NormalizedPosition {
    x: u32,
    width: u32,
    y: u32,
    height: u32,
}

/// Mathematical model of a [`NormalizedPosition`]: the two fractions `x / width` and
/// `y / height`.
pub struct PositionView {
    pub x: int,
    pub width: int,
    pub y: int,
    pub height: int,
}

impl PositionView {
    /// Both fractions are defined and lie between 0 and 1.
    pub open spec fn in_unit_square(self) -> bool {
        &&& 0 <= self.x <= self.width
        &&& 0 <= self.y <= self.height
        &&& 0 < self.width
        &&& 0 < self.height
    }

    /// The position at which the center of `face` lies in a frame of the given size. A
    /// center outside the frame is moved to the nearest edge.
    pub open spec fn of_center(face: BoundingBox, width: u32, height: u32) -> PositionView {
        PositionView {
            x: clamp_to(face.center_x(), width as int),
            width: width as int,
            y: clamp_to(face.center_y(), height as int),
            height: height as int,
        }
    }

    /// The actuator command that points both axes at this position.
    pub open spec fn axis_command(self) -> AxisCommand {
        AxisCommand {
            x: Some(angle_of(self.x, self.width) as u8),
            y: Some(angle_of(self.y, self.height) as u8),
        }
    }
}

impl View for NormalizedPosition {
    type V = PositionView;

    closed spec fn view(&self) -> PositionView {
        PositionView {
            x: self.x as int,
            width: self.width as int,
            y: self.y as int,
            height: self.height as int,
        }
    }
}

/// A fraction between 0 and 1 maps to an angle between 0 and `MAX_ANGLE`.
pub proof fn lemma_angle_in_range(numerator: int, denominator: int)
    requires
        0 <= numerator <= denominator,
        0 < denominator,
    ensures
        0 <= angle_of(numerator, denominator) <= MAX_ANGLE,
{
    assert(0 <= numerator * 180 <= denominator * 180) by (nonlinear_arith)
        requires
            0 <= numerator <= denominator,
    ;
    assert(0 <= (numerator * 180) / denominator <= 180) by (nonlinear_arith)
        requires
            0 <= numerator * 180 <= denominator * 180,
            0 < denominator,
    ;
}

/// The command that points the axes at a position in the frame asks for both axes, and
/// for angles between 0 and `MAX_ANGLE`: 0 at the left and upper edge of the frame,
/// `MAX_ANGLE` at the right and lower edge.
pub proof fn lemma_axis_command_in_range(position: PositionView)
    requires
        position.in_unit_square(),
    ensures
        position.axis_command().in_range(),
        position.axis_command().x == Some(angle_of(position.x, position.width) as u8),
        position.axis_command().y == Some(angle_of(position.y, position.height) as u8),
        position.x == 0 ==> position.axis_command().x == Some(0u8),
        position.x == position.width ==> position.axis_command().x == Some(MAX_ANGLE),
        position.y == 0 ==> position.axis_command().y == Some(0u8),
        position.y == position.height ==> position.axis_command().y == Some(MAX_ANGLE),
{
    lemma_angle_in_range(position.x, position.width);
    lemma_angle_in_range(position.y, position.height);
    assert(position.width * 180 / position.width == 180) by (nonlinear_arith)
        requires
            position.width > 0,
    ;
    assert(position.height * 180 / position.height == 180) by (nonlinear_arith)
        requires
            position.height > 0,
    ;
}

impl NormalizedPosition {
    #[verifier::type_invariant]
    spec fn bounded(self) -> bool {
        &&& self.x <= self.width
        &&& self.y <= self.height
        &&& 0 < self.width
        &&& 0 < self.height
    }

    /// Numerator of the horizontal fraction.
    pub fn x_numerator(&self) -> (n: u32)
        ensures
            n == self@.x,
            self@.in_unit_square(),
    {
        proof {
            use_type_invariant(self);
        }
        self.x
    }

    /// Denominator of the horizontal fraction: the width of the frame.
    pub fn x_denominator(&self) -> (n: u32)
        ensures
            n == self@.width,
            n > 0,
    {
        proof {
            use_type_invariant(self);
        }
        self.width
    }

    /// Numerator of the vertical fraction.
    pub fn y_numerator(&self) -> (n: u32)
        ensures
            n == self@.y,
            self@.in_unit_square(),
    {
        proof {
            use_type_invariant(self);
        }
        self.y
    }

    /// Denominator of the vertical fraction: the height of the frame.
    pub fn y_denominator(&self) -> (n: u32)
        ensures
            n == self@.height,
            n > 0,
    {
        proof {
            use_type_invariant(self);
        }
        self.height
    }

    /// Scales the position to the range of the two axes.
    pub fn to_axis_command(&self) -> (command: AxisCommand)
        ensures
            command == self@.axis_command(),
            self@.in_unit_square(),
            command.x.unwrap() <= MAX_ANGLE,
            command.y.unwrap() <= MAX_ANGLE,
    {
        proof {
            use_type_invariant(self);
            lemma_angle_in_range(self.x as int, self.width as int);
            lemma_angle_in_range(self.y as int, self.height as int);
        }
        let x: u64 = (self.x as u64) * 180 / (self.width as u64);
        let y: u64 = (self.y as u64) * 180 / (self.height as u64);
        AxisCommand { x: Some(x as u8), y: Some(y as u8) }
    }
}

/// One coordinate of a center, limited to the frame.
fn clamp_center(origin: i32, extent: u32, limit: u32) -> (c: u32)
    ensures
        c == clamp_to(origin + extent / 2, limit as int),
{
    let center: i64 = origin as i64 + (extent / 2) as i64;
    if center < 0 {
        0
    } else if center > limit as i64 {
        limit
    } else {
        center as u32
    }
}

/// The center of `face`, `(x + width / 2, y + height / 2)`, as a fraction of a frame of
/// `width` by `height` pixels. There is no such fraction for a frame without pixels.
pub fn normalized_center(face: BoundingBox, width: u32, height: u32) -> (position: Option<
    NormalizedPosition,
>)
    ensures
        position is None <==> (width == 0 || height == 0),
        position matches Some(p) ==> p@ == PositionView::of_center(face, width, height)
            && p@.in_unit_square(),
{
    if width == 0 || height == 0 {
        return None;
    }
    let x: u32 = clamp_center(face.x, face.width, width);
    let y: u32 = clamp_center(face.y, face.height, height);
    Some(NormalizedPosition { x, width, y, height })
}

/// Where the center of the box lies inside the frame, the position is that center
/// divided by the size of the frame, with nothing moved.
pub proof fn lemma_center_inside_is_exact(face: BoundingBox, width: u32, height: u32)
    requires
        face.centered_within(width, height),
    ensures
        PositionView::of_center(face, width, height).x == face.x + face.width / 2,
        PositionView::of_center(face, width, height).y == face.y + face.height / 2,
        PositionView::of_center(face, width, height).width == width,
        PositionView::of_center(face, width, height).height == height,
{
}

} // verus!
