//! The orbit-camera controller, over exact fixed-point state.
//!
//! Angles are millidegrees, distances milliunits: every sensitivity,
//! step, bound and preset of the controller is a whole number of
//! thousandths, so the accumulated state is exact. The GPU edge divides
//! by 1000 when it builds matrices.
//!
//! Orbit rotation is a pitch around local X and a yaw around local Y,
//! accumulated from pointer-drag deltas at 0.05 degrees per pixel. Zoom
//! is the eye distance along the view axis, stepped by 0.5 units and
//! clamped to [1, 100]. Pan accumulates in camera-local space; the view
//! is `lookAt(0, 0, zoom) * rotX(pitch) * rotY(yaw) *
//! translate(inverse(rotation) * pan)`, so panning follows the screen,
//! not the world axes. The light and eye positions handed to shading are
//! canonical positions transformed by the *forward* rotation; that
//! asymmetry against the pan is deliberate and carried in the frame
//! description as explicit rotation senses.

use vstd::prelude::*;

verus! {

/// Drag sensitivity: 0.05 degrees per pixel, in millidegrees.
pub const DRAG_SENSITIVITY_MDEG_PER_PX: i64 = 50;

/// Zoom step per discrete zoom input: 0.5 units.
pub const ZOOM_STEP_MILLI: i64 = 500;

/// Lower zoom bound: 1 unit. Never zero or below.
pub const ZOOM_MIN_MILLI: i64 = 1_000;

/// Upper zoom bound: 100 units.
pub const ZOOM_MAX_MILLI: i64 = 100_000;

/// Pan step per arrow input: 0.1 units.
pub const PAN_STEP_MILLI: i64 = 100;

/// The isometric home preset: pitch 35.264 degrees, yaw -45 degrees.
pub const HOME_PITCH_MDEG: i64 = 35_264;

pub const HOME_YAW_MDEG: i64 = -45_000;

/// Eye distance every preset snaps to: 15 units.
pub const PRESET_ZOOM_MILLI: i64 = 15_000;

/// Accumulator bound for angles and pan offsets. Input deltas are far
/// smaller, so an update never overflows; an accumulator saturates here
/// (about four billion degrees) instead of wrapping.
pub const ACCUM_LIMIT: i64 = 4_000_000_000_000;

/// Bound on pointer client coordinates, and so on drag deltas.
pub const COORD_LIMIT: i64 = 2_147_483_648;

pub open spec fn spec_clamp(v: int, lo: int, hi: int) -> int {
    if v < lo {
        lo
    } else if v > hi {
        hi
    } else {
        v
    }
}

/// Clamps `v` into the inclusive range `[lo, hi]`.
pub fn clamp_i64(v: i64, lo: i64, hi: i64) -> (r: i64)
    requires
        lo <= hi,
    ensures
        r as int == spec_clamp(v as int, lo as int, hi as int),
{
    if v < lo {
        lo
    } else if v > hi {
        hi
    } else {
        v
    }
}

/// The orbit-camera state: pitch/yaw in millidegrees, pan offset and
/// eye distance in milliunits.
#[derive(Clone, Copy, Debug, PartialEq, Eq, Structural)]
pub struct CameraState {
    pub pitch_mdeg: i64,
    pub yaw_mdeg: i64,
    pub pan_x_milli: i64,
    pub pan_y_milli: i64,
    pub pan_z_milli: i64,
    pub zoom_milli: i64,
}

impl CameraState {
    /// Accumulators bounded, zoom within its clamp range.
    pub open spec fn wf(self) -> bool {
        &&& -ACCUM_LIMIT <= self.pitch_mdeg <= ACCUM_LIMIT
        &&& -ACCUM_LIMIT <= self.yaw_mdeg <= ACCUM_LIMIT
        &&& -ACCUM_LIMIT <= self.pan_x_milli <= ACCUM_LIMIT
        &&& -ACCUM_LIMIT <= self.pan_y_milli <= ACCUM_LIMIT
        &&& -ACCUM_LIMIT <= self.pan_z_milli <= ACCUM_LIMIT
        &&& ZOOM_MIN_MILLI <= self.zoom_milli <= ZOOM_MAX_MILLI
    }

    pub open spec fn spec_initial() -> CameraState {
        CameraState {
            pitch_mdeg: HOME_PITCH_MDEG,
            yaw_mdeg: HOME_YAW_MDEG,
            pan_x_milli: 0,
            pan_y_milli: 0,
            pan_z_milli: 0,
            zoom_milli: PRESET_ZOOM_MILLI,
        }
    }

    /// The startup state: the home orientation, centered, 15 units out.
    pub fn initial() -> (r: CameraState)
        ensures
            r == CameraState::spec_initial(),
            r.wf(),
    {
        CameraState {
            pitch_mdeg: HOME_PITCH_MDEG,
            yaw_mdeg: HOME_YAW_MDEG,
            pan_x_milli: 0,
            pan_y_milli: 0,
            pan_z_milli: 0,
            zoom_milli: PRESET_ZOOM_MILLI,
        }
    }
}

/// The camera after a pointer drag of `(dx, dy)` pixels: pitch follows
/// the vertical delta, yaw the horizontal one.
pub open spec fn spec_drag(s: CameraState, dx: int, dy: int) -> CameraState {
    CameraState {
        pitch_mdeg: spec_clamp(
            s.pitch_mdeg + dy * DRAG_SENSITIVITY_MDEG_PER_PX,
            -ACCUM_LIMIT as int,
            ACCUM_LIMIT as int,
        ) as i64,
        yaw_mdeg: spec_clamp(
            s.yaw_mdeg + dx * DRAG_SENSITIVITY_MDEG_PER_PX,
            -ACCUM_LIMIT as int,
            ACCUM_LIMIT as int,
        ) as i64,
        ..s
    }
}

impl CameraState {
    /// Accumulates a pointer drag into the orbit rotation.
    pub fn rotate_by_drag(&mut self, dx: i64, dy: i64)
        requires
            old(self).wf(),
            -2 * COORD_LIMIT <= dx <= 2 * COORD_LIMIT,
            -2 * COORD_LIMIT <= dy <= 2 * COORD_LIMIT,
        ensures
            *final(self) == spec_drag(*old(self), dx as int, dy as int),
            final(self).wf(),
    {
        self.pitch_mdeg = clamp_i64(
            self.pitch_mdeg + dy * DRAG_SENSITIVITY_MDEG_PER_PX,
            -ACCUM_LIMIT,
            ACCUM_LIMIT,
        );
        self.yaw_mdeg = clamp_i64(
            self.yaw_mdeg + dx * DRAG_SENSITIVITY_MDEG_PER_PX,
            -ACCUM_LIMIT,
            ACCUM_LIMIT,
        );
    }
}

/// A symbolic key input.
#[derive(Clone, Copy, Debug, PartialEq, Eq, Structural)]
pub enum Key {
    ArrowUp,
    ArrowDown,
    ArrowLeft,
    ArrowRight,
    Key1,
    Key2,
    Key3,
    Key4,
    Other,
}

/// A preset: rotation snapped, pan cleared, zoom back to 15 units.
pub open spec fn spec_preset(pitch_mdeg: i64, yaw_mdeg: i64) -> CameraState {
    CameraState {
        pitch_mdeg: pitch_mdeg,
        yaw_mdeg: yaw_mdeg,
        pan_x_milli: 0,
        pan_y_milli: 0,
        pan_z_milli: 0,
        zoom_milli: PRESET_ZOOM_MILLI,
    }
}

pub open spec fn spec_pan_clamp(v: int) -> i64 {
    spec_clamp(v, -ACCUM_LIMIT as int, ACCUM_LIMIT as int) as i64
}

/// The camera after one key input. Shifted vertical arrows zoom, other
/// arrows pan by 0.1 units in view-local space, the digit keys snap to
/// the presets: front, side, top, isometric home.
pub open spec fn spec_on_key(s: CameraState, key: Key, shift: bool) -> CameraState {
    if shift && key is ArrowUp {
        CameraState {
            zoom_milli: spec_clamp(
                s.zoom_milli - ZOOM_STEP_MILLI,
                ZOOM_MIN_MILLI as int,
                ZOOM_MAX_MILLI as int,
            ) as i64,
            ..s
        }
    } else if shift && key is ArrowDown {
        CameraState {
            zoom_milli: spec_clamp(
                s.zoom_milli + ZOOM_STEP_MILLI,
                ZOOM_MIN_MILLI as int,
                ZOOM_MAX_MILLI as int,
            ) as i64,
            ..s
        }
    } else {
        match key {
            Key::ArrowLeft => CameraState {
                pan_x_milli: spec_pan_clamp(s.pan_x_milli - PAN_STEP_MILLI),
                ..s
            },
            Key::ArrowRight => CameraState {
                pan_x_milli: spec_pan_clamp(s.pan_x_milli + PAN_STEP_MILLI),
                ..s
            },
            Key::ArrowUp => CameraState {
                pan_y_milli: spec_pan_clamp(s.pan_y_milli + PAN_STEP_MILLI),
                ..s
            },
            Key::ArrowDown => CameraState {
                pan_y_milli: spec_pan_clamp(s.pan_y_milli - PAN_STEP_MILLI),
                ..s
            },
            Key::Key1 => spec_preset(0i64, 0i64),
            Key::Key2 => spec_preset(0i64, -90_000i64),
            Key::Key3 => spec_preset(90_000i64, 0i64),
            Key::Key4 => spec_preset(HOME_PITCH_MDEG, HOME_YAW_MDEG),
            Key::Other => s,
        }
    }
}

impl CameraState {
    /// Applies one key input.
    pub fn on_key(&mut self, key: Key, shift: bool)
        requires
            old(self).wf(),
        ensures
            *final(self) == spec_on_key(*old(self), key, shift),
            final(self).wf(),
    {
        if shift && matches!(key, Key::ArrowUp) {
            self.zoom_milli = clamp_i64(
                self.zoom_milli - ZOOM_STEP_MILLI,
                ZOOM_MIN_MILLI,
                ZOOM_MAX_MILLI,
            );
        } else if shift && matches!(key, Key::ArrowDown) {
            self.zoom_milli = clamp_i64(
                self.zoom_milli + ZOOM_STEP_MILLI,
                ZOOM_MIN_MILLI,
                ZOOM_MAX_MILLI,
            );
        } else {
            match key {
                Key::ArrowLeft => {
                    self.pan_x_milli = clamp_i64(
                        self.pan_x_milli - PAN_STEP_MILLI,
                        -ACCUM_LIMIT,
                        ACCUM_LIMIT,
                    );
                },
                Key::ArrowRight => {
                    self.pan_x_milli = clamp_i64(
                        self.pan_x_milli + PAN_STEP_MILLI,
                        -ACCUM_LIMIT,
                        ACCUM_LIMIT,
                    );
                },
                Key::ArrowUp => {
                    self.pan_y_milli = clamp_i64(
                        self.pan_y_milli + PAN_STEP_MILLI,
                        -ACCUM_LIMIT,
                        ACCUM_LIMIT,
                    );
                },
                Key::ArrowDown => {
                    self.pan_y_milli = clamp_i64(
                        self.pan_y_milli - PAN_STEP_MILLI,
                        -ACCUM_LIMIT,
                        ACCUM_LIMIT,
                    );
                },
                Key::Key1 => {
                    *self = CameraState {
                        pitch_mdeg: 0,
                        yaw_mdeg: 0,
                        pan_x_milli: 0,
                        pan_y_milli: 0,
                        pan_z_milli: 0,
                        zoom_milli: PRESET_ZOOM_MILLI,
                    };
                },
                Key::Key2 => {
                    *self = CameraState {
                        pitch_mdeg: 0,
                        yaw_mdeg: -90_000,
                        pan_x_milli: 0,
                        pan_y_milli: 0,
                        pan_z_milli: 0,
                        zoom_milli: PRESET_ZOOM_MILLI,
                    };
                },
                Key::Key3 => {
                    *self = CameraState {
                        pitch_mdeg: 90_000,
                        yaw_mdeg: 0,
                        pan_x_milli: 0,
                        pan_y_milli: 0,
                        pan_z_milli: 0,
                        zoom_milli: PRESET_ZOOM_MILLI,
                    };
                },
                Key::Key4 => {
                    *self = CameraState {
                        pitch_mdeg: HOME_PITCH_MDEG,
                        yaw_mdeg: HOME_YAW_MDEG,
                        pan_x_milli: 0,
                        pan_y_milli: 0,
                        pan_z_milli: 0,
                        zoom_milli: PRESET_ZOOM_MILLI,
                    };
                },
                Key::Other => {},
            }
        }
    }
}

/// Zoom clamp law: from any well-formed state one zoom step lands in
/// `[min, max]`; at the minimum, zooming in changes nothing, and at the
/// maximum, zooming out changes nothing. Repeated zoom inputs therefore
/// never drive the distance past either bound.
pub proof fn lemma_zoom_clamp(s: CameraState)
    requires
        s.wf(),
    ensures
        ZOOM_MIN_MILLI <= spec_on_key(s, Key::ArrowUp, true).zoom_milli <= ZOOM_MAX_MILLI,
        ZOOM_MIN_MILLI <= spec_on_key(s, Key::ArrowDown, true).zoom_milli <= ZOOM_MAX_MILLI,
        s.zoom_milli == ZOOM_MIN_MILLI ==> spec_on_key(s, Key::ArrowUp, true) == s,
        s.zoom_milli == ZOOM_MAX_MILLI ==> spec_on_key(s, Key::ArrowDown, true) == s,
{
}

/// The pointer-drag state: whether a drag is live and the last seen
/// client position.
#[derive(Clone, Copy, Debug, PartialEq, Eq, Structural)]
pub struct PointerState {
    pub dragging: bool,
    pub last_x: i64,
    pub last_y: i64,
}

impl PointerState {
    pub open spec fn wf(self) -> bool {
        &&& -COORD_LIMIT <= self.last_x <= COORD_LIMIT
        &&& -COORD_LIMIT <= self.last_y <= COORD_LIMIT
    }

    pub fn initial() -> (r: PointerState)
        ensures
            r == (PointerState { dragging: false, last_x: 0, last_y: 0 }),
            r.wf(),
    {
        PointerState { dragging: false, last_x: 0, last_y: 0 }
    }

    /// A press starts a drag at the given client position.
    pub fn on_pointer_down(&mut self, x: i64, y: i64)
        requires
            -COORD_LIMIT <= x <= COORD_LIMIT,
            -COORD_LIMIT <= y <= COORD_LIMIT,
        ensures
            *final(self) == (PointerState { dragging: true, last_x: x, last_y: y }),
            final(self).wf(),
    {
        self.dragging = true;
        self.last_x = x;
        self.last_y = y;
    }

    /// A release ends the drag; the last position is kept.
    pub fn on_pointer_up(&mut self)
        ensures
            *final(self) == (PointerState { dragging: false, ..*old(self) }),
    {
        self.dragging = false;
    }
}

/// A pointer move during a drag rotates the camera by the delta from
/// the last position and re-anchors there; outside a drag it does
/// nothing.
pub fn on_pointer_move(pointer: &mut PointerState, camera: &mut CameraState, x: i64, y: i64)
    requires
        old(pointer).wf(),
        old(camera).wf(),
        -COORD_LIMIT <= x <= COORD_LIMIT,
        -COORD_LIMIT <= y <= COORD_LIMIT,
    ensures
        final(pointer).wf(),
        final(camera).wf(),
        old(pointer).dragging ==> {
            &&& *final(camera) == spec_drag(
                *old(camera),
                x - old(pointer).last_x,
                y - old(pointer).last_y,
            )
            &&& *final(pointer) == (PointerState { dragging: true, last_x: x, last_y: y })
        },
        !old(pointer).dragging ==> {
            &&& *final(camera) == *old(camera)
            &&& *final(pointer) == *old(pointer)
        },
{
    if pointer.dragging {
        let dx = x - pointer.last_x;
        let dy = y - pointer.last_y;
        camera.rotate_by_drag(dx, dy);
        pointer.last_x = x;
        pointer.last_y = y;
    }
}

/// Which way a canonical vector is carried into the current orbit
/// frame: by the rotation itself or by its inverse.
#[derive(Clone, Copy, Debug, PartialEq, Eq, Structural)]
pub enum RotationSense {
    Forward,
    Inverse,
}

/// An exact milliunit vector.
#[derive(Clone, Copy, Debug, PartialEq, Eq, Structural)]
pub struct Vec3Milli {
    pub x: i64,
    pub y: i64,
    pub z: i64,
}

/// Canonical light position: `(0, 5, 5)`.
pub const LIGHT_Y_MILLI: i64 = 5_000;

pub const LIGHT_Z_MILLI: i64 = 5_000;

/// Canonical shading eye position: `(0, 0, 2)`.
pub const EYE_Z_MILLI: i64 = 2_000;

/// Everything one frame needs from the camera, exact. The view matrix
/// is `lookAt((0, 0, zoom), origin, +Y) * rotX(pitch) * rotY(yaw) *
/// translate(p)` where `p` is `pan` carried by `pan_sense`; the shading
/// light and eye are the canonical vectors carried by their senses.
#[derive(Clone, Copy, Debug, PartialEq, Eq, Structural)]
pub struct FrameTransforms {
    pub pitch_mdeg: i64,
    pub yaw_mdeg: i64,
    pub eye_distance_milli: i64,
    pub pan_milli: Vec3Milli,
    pub pan_sense: RotationSense,
    pub light_canonical_milli: Vec3Milli,
    pub light_sense: RotationSense,
    pub eye_canonical_milli: Vec3Milli,
    pub eye_sense: RotationSense,
}

pub open spec fn spec_frame_transforms(s: CameraState) -> FrameTransforms {
    FrameTransforms {
        pitch_mdeg: s.pitch_mdeg,
        yaw_mdeg: s.yaw_mdeg,
        eye_distance_milli: s.zoom_milli,
        pan_milli: Vec3Milli { x: s.pan_x_milli, y: s.pan_y_milli, z: s.pan_z_milli },
        pan_sense: RotationSense::Inverse,
        light_canonical_milli: Vec3Milli { x: 0, y: LIGHT_Y_MILLI, z: LIGHT_Z_MILLI },
        light_sense: RotationSense::Forward,
        eye_canonical_milli: Vec3Milli { x: 0, y: 0, z: EYE_Z_MILLI },
        eye_sense: RotationSense::Forward,
    }
}

/// The frame description for the current camera state. The pan is
/// carried by the inverse rotation — panning "up" stays "up on screen"
/// whatever the orientation — while light and eye are carried by the
/// forward rotation, so the light orbits with the camera.
pub fn frame_transforms(camera: &CameraState) -> (t: FrameTransforms)
    ensures
        t == spec_frame_transforms(*camera),
        t.pan_sense is Inverse,
        t.light_sense is Forward,
        t.eye_sense is Forward,
{
    FrameTransforms {
        pitch_mdeg: camera.pitch_mdeg,
        yaw_mdeg: camera.yaw_mdeg,
        eye_distance_milli: camera.zoom_milli,
        pan_milli: Vec3Milli {
            x: camera.pan_x_milli,
            y: camera.pan_y_milli,
            z: camera.pan_z_milli,
        },
        pan_sense: RotationSense::Inverse,
        light_canonical_milli: Vec3Milli { x: 0, y: LIGHT_Y_MILLI, z: LIGHT_Z_MILLI },
        light_sense: RotationSense::Forward,
        eye_canonical_milli: Vec3Milli { x: 0, y: 0, z: EYE_Z_MILLI },
        eye_sense: RotationSense::Forward,
    }
}

} // verus!

