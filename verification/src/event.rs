//! Input events: their sources, actions, axes, key codes and flag words, how the raw values of
//! an event are read, and the index iterations over pointers and history.
use crate::raw::RawEnum;
use vstd::prelude::*;

verus! {

#[derive(Copy, Clone, Debug, PartialEq, Eq, Hash, Structural)]
pub enum Source {
    Unknown,
    Keyboard,
    Dpad,
    Gamepad,
    Touchscreen,
    Mouse,
    Stylus,
    BluetoothStylus,
    Trackball,
    MouseRelative,
    Touchpad,
    TouchNavigation,
    Joystick,
    RotaryEncoder,
    Any,
}

impl RawEnum for Source {
    open spec fn spec_code(self) -> int {
        match self {
            Source::Unknown => 0,
            Source::Keyboard => 257,
            Source::Dpad => 513,
            Source::Gamepad => 1025,
            Source::Touchscreen => 4098,
            Source::Mouse => 8194,
            Source::Stylus => 16386,
            Source::BluetoothStylus => 49154,
            Source::Trackball => 65540,
            Source::MouseRelative => 131076,
            Source::Touchpad => 1048584,
            Source::TouchNavigation => 2097152,
            Source::Joystick => 16777232,
            Source::RotaryEncoder => 4194304,
            Source::Any => 4294967040,
        }
    }

    open spec fn spec_from_code(code: int) -> Option<Self> {
        if code == 0 {
            Some(Source::Unknown)
        } else if code == 257 {
            Some(Source::Keyboard)
        } else if code == 513 {
            Some(Source::Dpad)
        } else if code == 1025 {
            Some(Source::Gamepad)
        } else if code == 4098 {
            Some(Source::Touchscreen)
        } else if code == 8194 {
            Some(Source::Mouse)
        } else if code == 16386 {
            Some(Source::Stylus)
        } else if code == 49154 {
            Some(Source::BluetoothStylus)
        } else if code == 65540 {
            Some(Source::Trackball)
        } else if code == 131076 {
            Some(Source::MouseRelative)
        } else if code == 1048584 {
            Some(Source::Touchpad)
        } else if code == 2097152 {
            Some(Source::TouchNavigation)
        } else if code == 16777232 {
            Some(Source::Joystick)
        } else if code == 4194304 {
            Some(Source::RotaryEncoder)
        } else if code == 4294967040 {
            Some(Source::Any)
        } else {
            None
        }
    }

    fn try_from_code(code: i64) -> (r: Option<Self>) {
        match code {
            0 => Some(Source::Unknown),
            257 => Some(Source::Keyboard),
            513 => Some(Source::Dpad),
            1025 => Some(Source::Gamepad),
            4098 => Some(Source::Touchscreen),
            8194 => Some(Source::Mouse),
            16386 => Some(Source::Stylus),
            49154 => Some(Source::BluetoothStylus),
            65540 => Some(Source::Trackball),
            131076 => Some(Source::MouseRelative),
            1048584 => Some(Source::Touchpad),
            2097152 => Some(Source::TouchNavigation),
            16777232 => Some(Source::Joystick),
            4194304 => Some(Source::RotaryEncoder),
            4294967040 => Some(Source::Any),
            _ => None,
        }
    }

    proof fn lemma_code_round_trip(self) {
    }

    proof fn lemma_from_code_inverse(code: int) {
    }
}

impl Source {
    /// Each variant's code is the value that the NDK's headers give its constant, so decoding
    /// that value gives the variant and encoding the variant gives the value. The constants are
    /// the `AINPUT_SOURCE_*` ones.
    pub proof fn lemma_ndk_codes()
        ensures
            Source::Unknown.spec_code() == 0,
            Source::Keyboard.spec_code() == 257,
            Source::Dpad.spec_code() == 513,
            Source::Gamepad.spec_code() == 1025,
            Source::Touchscreen.spec_code() == 4098,
            Source::Mouse.spec_code() == 8194,
            Source::Stylus.spec_code() == 16386,
            Source::BluetoothStylus.spec_code() == 49154,
            Source::Trackball.spec_code() == 65540,
            Source::MouseRelative.spec_code() == 131076,
            Source::Touchpad.spec_code() == 1048584,
            Source::TouchNavigation.spec_code() == 2097152,
            Source::Joystick.spec_code() == 16777232,
            Source::RotaryEncoder.spec_code() == 4194304,
            Source::Any.spec_code() == 4294967040,
            Source::spec_from_code(0) == Some(Source::Unknown),
            Source::spec_from_code(257) == Some(Source::Keyboard),
            Source::spec_from_code(513) == Some(Source::Dpad),
            Source::spec_from_code(1025) == Some(Source::Gamepad),
            Source::spec_from_code(4098) == Some(Source::Touchscreen),
            Source::spec_from_code(8194) == Some(Source::Mouse),
            Source::spec_from_code(16386) == Some(Source::Stylus),
            Source::spec_from_code(49154) == Some(Source::BluetoothStylus),
            Source::spec_from_code(65540) == Some(Source::Trackball),
            Source::spec_from_code(131076) == Some(Source::MouseRelative),
            Source::spec_from_code(1048584) == Some(Source::Touchpad),
            Source::spec_from_code(2097152) == Some(Source::TouchNavigation),
            Source::spec_from_code(16777232) == Some(Source::Joystick),
            Source::spec_from_code(4194304) == Some(Source::RotaryEncoder),
            Source::spec_from_code(4294967040) == Some(Source::Any),
    {
    }
}

impl Source {
    /// The variant that the raw code `value` stands for, if any.
    pub fn try_from_raw(value: u32) -> (r: Option<Self>)
        ensures
            r == Self::spec_from_code(value as int),
    {
        match value {
            0 => Some(Source::Unknown),
            257 => Some(Source::Keyboard),
            513 => Some(Source::Dpad),
            1025 => Some(Source::Gamepad),
            4098 => Some(Source::Touchscreen),
            8194 => Some(Source::Mouse),
            16386 => Some(Source::Stylus),
            49154 => Some(Source::BluetoothStylus),
            65540 => Some(Source::Trackball),
            131076 => Some(Source::MouseRelative),
            1048584 => Some(Source::Touchpad),
            2097152 => Some(Source::TouchNavigation),
            16777232 => Some(Source::Joystick),
            4194304 => Some(Source::RotaryEncoder),
            4294967040 => Some(Source::Any),
            _ => None,
        }
    }

    /// The raw code of this variant.
    pub fn into_raw(self) -> (r: u32)
        ensures
            r as int == self.spec_code(),
    {
        match self {
            Source::Unknown => 0,
            Source::Keyboard => 257,
            Source::Dpad => 513,
            Source::Gamepad => 1025,
            Source::Touchscreen => 4098,
            Source::Mouse => 8194,
            Source::Stylus => 16386,
            Source::BluetoothStylus => 49154,
            Source::Trackball => 65540,
            Source::MouseRelative => 131076,
            Source::Touchpad => 1048584,
            Source::TouchNavigation => 2097152,
            Source::Joystick => 16777232,
            Source::RotaryEncoder => 4194304,
            Source::Any => 4294967040,
        }
    }
}

#[derive(Copy, Clone, Debug, PartialEq, Eq, Hash, Structural)]
pub enum MotionAction {
    Down,
    Up,
    Move,
    Cancel,
    Outside,
    PointerDown,
    PointerUp,
    HoverMove,
    Scroll,
    HoverEnter,
    HoverExit,
    ButtonPress,
    ButtonRelease,
}

impl RawEnum for MotionAction {
    open spec fn spec_code(self) -> int {
        match self {
            MotionAction::Down => 0,
            MotionAction::Up => 1,
            MotionAction::Move => 2,
            MotionAction::Cancel => 3,
            MotionAction::Outside => 4,
            MotionAction::PointerDown => 5,
            MotionAction::PointerUp => 6,
            MotionAction::HoverMove => 7,
            MotionAction::Scroll => 8,
            MotionAction::HoverEnter => 9,
            MotionAction::HoverExit => 10,
            MotionAction::ButtonPress => 11,
            MotionAction::ButtonRelease => 12,
        }
    }

    open spec fn spec_from_code(code: int) -> Option<Self> {
        if code == 0 {
            Some(MotionAction::Down)
        } else if code == 1 {
            Some(MotionAction::Up)
        } else if code == 2 {
            Some(MotionAction::Move)
        } else if code == 3 {
            Some(MotionAction::Cancel)
        } else if code == 4 {
            Some(MotionAction::Outside)
        } else if code == 5 {
            Some(MotionAction::PointerDown)
        } else if code == 6 {
            Some(MotionAction::PointerUp)
        } else if code == 7 {
            Some(MotionAction::HoverMove)
        } else if code == 8 {
            Some(MotionAction::Scroll)
        } else if code == 9 {
            Some(MotionAction::HoverEnter)
        } else if code == 10 {
            Some(MotionAction::HoverExit)
        } else if code == 11 {
            Some(MotionAction::ButtonPress)
        } else if code == 12 {
            Some(MotionAction::ButtonRelease)
        } else {
            None
        }
    }

    fn try_from_code(code: i64) -> (r: Option<Self>) {
        match code {
            0 => Some(MotionAction::Down),
            1 => Some(MotionAction::Up),
            2 => Some(MotionAction::Move),
            3 => Some(MotionAction::Cancel),
            4 => Some(MotionAction::Outside),
            5 => Some(MotionAction::PointerDown),
            6 => Some(MotionAction::PointerUp),
            7 => Some(MotionAction::HoverMove),
            8 => Some(MotionAction::Scroll),
            9 => Some(MotionAction::HoverEnter),
            10 => Some(MotionAction::HoverExit),
            11 => Some(MotionAction::ButtonPress),
            12 => Some(MotionAction::ButtonRelease),
            _ => None,
        }
    }

    proof fn lemma_code_round_trip(self) {
    }

    proof fn lemma_from_code_inverse(code: int) {
    }
}

impl MotionAction {
    /// Each variant's code is the value that the NDK's headers give its constant, so decoding
    /// that value gives the variant and encoding the variant gives the value. The constants are
    /// the `AMOTION_EVENT_ACTION_*` ones.
    pub proof fn lemma_ndk_codes()
        ensures
            MotionAction::Down.spec_code() == 0,
            MotionAction::Up.spec_code() == 1,
            MotionAction::Move.spec_code() == 2,
            MotionAction::Cancel.spec_code() == 3,
            MotionAction::Outside.spec_code() == 4,
            MotionAction::PointerDown.spec_code() == 5,
            MotionAction::PointerUp.spec_code() == 6,
            MotionAction::HoverMove.spec_code() == 7,
            MotionAction::Scroll.spec_code() == 8,
            MotionAction::HoverEnter.spec_code() == 9,
            MotionAction::HoverExit.spec_code() == 10,
            MotionAction::ButtonPress.spec_code() == 11,
            MotionAction::ButtonRelease.spec_code() == 12,
            MotionAction::spec_from_code(0) == Some(MotionAction::Down),
            MotionAction::spec_from_code(1) == Some(MotionAction::Up),
            MotionAction::spec_from_code(2) == Some(MotionAction::Move),
            MotionAction::spec_from_code(3) == Some(MotionAction::Cancel),
            MotionAction::spec_from_code(4) == Some(MotionAction::Outside),
            MotionAction::spec_from_code(5) == Some(MotionAction::PointerDown),
            MotionAction::spec_from_code(6) == Some(MotionAction::PointerUp),
            MotionAction::spec_from_code(7) == Some(MotionAction::HoverMove),
            MotionAction::spec_from_code(8) == Some(MotionAction::Scroll),
            MotionAction::spec_from_code(9) == Some(MotionAction::HoverEnter),
            MotionAction::spec_from_code(10) == Some(MotionAction::HoverExit),
            MotionAction::spec_from_code(11) == Some(MotionAction::ButtonPress),
            MotionAction::spec_from_code(12) == Some(MotionAction::ButtonRelease),
    {
    }
}

impl MotionAction {
    /// The variant that the raw code `value` stands for, if any.
    pub fn try_from_raw(value: u32) -> (r: Option<Self>)
        ensures
            r == Self::spec_from_code(value as int),
    {
        match value {
            0 => Some(MotionAction::Down),
            1 => Some(MotionAction::Up),
            2 => Some(MotionAction::Move),
            3 => Some(MotionAction::Cancel),
            4 => Some(MotionAction::Outside),
            5 => Some(MotionAction::PointerDown),
            6 => Some(MotionAction::PointerUp),
            7 => Some(MotionAction::HoverMove),
            8 => Some(MotionAction::Scroll),
            9 => Some(MotionAction::HoverEnter),
            10 => Some(MotionAction::HoverExit),
            11 => Some(MotionAction::ButtonPress),
            12 => Some(MotionAction::ButtonRelease),
            _ => None,
        }
    }

    /// The raw code of this variant.
    pub fn into_raw(self) -> (r: u32)
        ensures
            r as int == self.spec_code(),
    {
        match self {
            MotionAction::Down => 0,
            MotionAction::Up => 1,
            MotionAction::Move => 2,
            MotionAction::Cancel => 3,
            MotionAction::Outside => 4,
            MotionAction::PointerDown => 5,
            MotionAction::PointerUp => 6,
            MotionAction::HoverMove => 7,
            MotionAction::Scroll => 8,
            MotionAction::HoverEnter => 9,
            MotionAction::HoverExit => 10,
            MotionAction::ButtonPress => 11,
            MotionAction::ButtonRelease => 12,
        }
    }
}

#[derive(Copy, Clone, Debug, PartialEq, Eq, Hash, Structural)]
pub enum Axis {
    X,
    Y,
    Pressure,
    Size,
    TouchMajor,
    TouchMinor,
    ToolMajor,
    ToolMinor,
    Orientation,
    Vscroll,
    Hscroll,
    Z,
    Rx,
    Ry,
    Rz,
    HatX,
    HatY,
    Ltrigger,
    Rtrigger,
    Throttle,
    Rudder,
    Wheel,
    Gas,
    Brake,
    Distance,
    Tilt,
    Scroll,
    RelativeX,
    RelativeY,
    Generic1,
    Generic2,
    Generic3,
    Generic4,
    Generic5,
    Generic6,
    Generic7,
    Generic8,
    Generic9,
    Generic10,
    Generic11,
    Generic12,
    Generic13,
    Generic14,
    Generic15,
    Generic16,
}

impl RawEnum for Axis {
    open spec fn spec_code(self) -> int {
        match self {
            Axis::X => 0,
            Axis::Y => 1,
            Axis::Pressure => 2,
            Axis::Size => 3,
            Axis::TouchMajor => 4,
            Axis::TouchMinor => 5,
            Axis::ToolMajor => 6,
            Axis::ToolMinor => 7,
            Axis::Orientation => 8,
            Axis::Vscroll => 9,
            Axis::Hscroll => 10,
            Axis::Z => 11,
            Axis::Rx => 12,
            Axis::Ry => 13,
            Axis::Rz => 14,
            Axis::HatX => 15,
            Axis::HatY => 16,
            Axis::Ltrigger => 17,
            Axis::Rtrigger => 18,
            Axis::Throttle => 19,
            Axis::Rudder => 20,
            Axis::Wheel => 21,
            Axis::Gas => 22,
            Axis::Brake => 23,
            Axis::Distance => 24,
            Axis::Tilt => 25,
            Axis::Scroll => 26,
            Axis::RelativeX => 27,
            Axis::RelativeY => 28,
            Axis::Generic1 => 32,
            Axis::Generic2 => 33,
            Axis::Generic3 => 34,
            Axis::Generic4 => 35,
            Axis::Generic5 => 36,
            Axis::Generic6 => 37,
            Axis::Generic7 => 38,
            Axis::Generic8 => 39,
            Axis::Generic9 => 40,
            Axis::Generic10 => 41,
            Axis::Generic11 => 42,
            Axis::Generic12 => 43,
            Axis::Generic13 => 44,
            Axis::Generic14 => 45,
            Axis::Generic15 => 46,
            Axis::Generic16 => 47,
        }
    }

    open spec fn spec_from_code(code: int) -> Option<Self> {
        if code == 0 {
            Some(Axis::X)
        } else if code == 1 {
            Some(Axis::Y)
        } else if code == 2 {
            Some(Axis::Pressure)
        } else if code == 3 {
            Some(Axis::Size)
        } else if code == 4 {
            Some(Axis::TouchMajor)
        } else if code == 5 {
            Some(Axis::TouchMinor)
        } else if code == 6 {
            Some(Axis::ToolMajor)
        } else if code == 7 {
            Some(Axis::ToolMinor)
        } else if code == 8 {
            Some(Axis::Orientation)
        } else if code == 9 {
            Some(Axis::Vscroll)
        } else if code == 10 {
            Some(Axis::Hscroll)
        } else if code == 11 {
            Some(Axis::Z)
        } else if code == 12 {
            Some(Axis::Rx)
        } else if code == 13 {
            Some(Axis::Ry)
        } else if code == 14 {
            Some(Axis::Rz)
        } else if code == 15 {
            Some(Axis::HatX)
        } else if code == 16 {
            Some(Axis::HatY)
        } else if code == 17 {
            Some(Axis::Ltrigger)
        } else if code == 18 {
            Some(Axis::Rtrigger)
        } else if code == 19 {
            Some(Axis::Throttle)
        } else if code == 20 {
            Some(Axis::Rudder)
        } else if code == 21 {
            Some(Axis::Wheel)
        } else if code == 22 {
            Some(Axis::Gas)
        } else if code == 23 {
            Some(Axis::Brake)
        } else if code == 24 {
            Some(Axis::Distance)
        } else if code == 25 {
            Some(Axis::Tilt)
        } else if code == 26 {
            Some(Axis::Scroll)
        } else if code == 27 {
            Some(Axis::RelativeX)
        } else if code == 28 {
            Some(Axis::RelativeY)
        } else if code == 32 {
            Some(Axis::Generic1)
        } else if code == 33 {
            Some(Axis::Generic2)
        } else if code == 34 {
            Some(Axis::Generic3)
        } else if code == 35 {
            Some(Axis::Generic4)
        } else if code == 36 {
            Some(Axis::Generic5)
        } else if code == 37 {
            Some(Axis::Generic6)
        } else if code == 38 {
            Some(Axis::Generic7)
        } else if code == 39 {
            Some(Axis::Generic8)
        } else if code == 40 {
            Some(Axis::Generic9)
        } else if code == 41 {
            Some(Axis::Generic10)
        } else if code == 42 {
            Some(Axis::Generic11)
        } else if code == 43 {
            Some(Axis::Generic12)
        } else if code == 44 {
            Some(Axis::Generic13)
        } else if code == 45 {
            Some(Axis::Generic14)
        } else if code == 46 {
            Some(Axis::Generic15)
        } else if code == 47 {
            Some(Axis::Generic16)
        } else {
            None
        }
    }

    fn try_from_code(code: i64) -> (r: Option<Self>) {
        match code {
            0 => Some(Axis::X),
            1 => Some(Axis::Y),
            2 => Some(Axis::Pressure),
            3 => Some(Axis::Size),
            4 => Some(Axis::TouchMajor),
            5 => Some(Axis::TouchMinor),
            6 => Some(Axis::ToolMajor),
            7 => Some(Axis::ToolMinor),
            8 => Some(Axis::Orientation),
            9 => Some(Axis::Vscroll),
            10 => Some(Axis::Hscroll),
            11 => Some(Axis::Z),
            12 => Some(Axis::Rx),
            13 => Some(Axis::Ry),
            14 => Some(Axis::Rz),
            15 => Some(Axis::HatX),
            16 => Some(Axis::HatY),
            17 => Some(Axis::Ltrigger),
            18 => Some(Axis::Rtrigger),
            19 => Some(Axis::Throttle),
            20 => Some(Axis::Rudder),
            21 => Some(Axis::Wheel),
            22 => Some(Axis::Gas),
            23 => Some(Axis::Brake),
            24 => Some(Axis::Distance),
            25 => Some(Axis::Tilt),
            26 => Some(Axis::Scroll),
            27 => Some(Axis::RelativeX),
            28 => Some(Axis::RelativeY),
            32 => Some(Axis::Generic1),
            33 => Some(Axis::Generic2),
            34 => Some(Axis::Generic3),
            35 => Some(Axis::Generic4),
            36 => Some(Axis::Generic5),
            37 => Some(Axis::Generic6),
            38 => Some(Axis::Generic7),
            39 => Some(Axis::Generic8),
            40 => Some(Axis::Generic9),
            41 => Some(Axis::Generic10),
            42 => Some(Axis::Generic11),
            43 => Some(Axis::Generic12),
            44 => Some(Axis::Generic13),
            45 => Some(Axis::Generic14),
            46 => Some(Axis::Generic15),
            47 => Some(Axis::Generic16),
            _ => None,
        }
    }

    proof fn lemma_code_round_trip(self) {
    }

    proof fn lemma_from_code_inverse(code: int) {
    }
}

impl Axis {
    /// Each variant's code is the value that the NDK's headers give its constant, so decoding
    /// that value gives the variant and encoding the variant gives the value. The constants are
    /// the `AMOTION_EVENT_AXIS_*` ones.
    pub proof fn lemma_ndk_codes()
        ensures
            Axis::X.spec_code() == 0,
            Axis::Y.spec_code() == 1,
            Axis::Pressure.spec_code() == 2,
            Axis::Size.spec_code() == 3,
            Axis::TouchMajor.spec_code() == 4,
            Axis::TouchMinor.spec_code() == 5,
            Axis::ToolMajor.spec_code() == 6,
            Axis::ToolMinor.spec_code() == 7,
            Axis::Orientation.spec_code() == 8,
            Axis::Vscroll.spec_code() == 9,
            Axis::Hscroll.spec_code() == 10,
            Axis::Z.spec_code() == 11,
            Axis::Rx.spec_code() == 12,
            Axis::Ry.spec_code() == 13,
            Axis::Rz.spec_code() == 14,
            Axis::HatX.spec_code() == 15,
            Axis::HatY.spec_code() == 16,
            Axis::Ltrigger.spec_code() == 17,
            Axis::Rtrigger.spec_code() == 18,
            Axis::Throttle.spec_code() == 19,
            Axis::Rudder.spec_code() == 20,
            Axis::Wheel.spec_code() == 21,
            Axis::Gas.spec_code() == 22,
            Axis::Brake.spec_code() == 23,
            Axis::Distance.spec_code() == 24,
            Axis::Tilt.spec_code() == 25,
            Axis::Scroll.spec_code() == 26,
            Axis::RelativeX.spec_code() == 27,
            Axis::RelativeY.spec_code() == 28,
            Axis::Generic1.spec_code() == 32,
            Axis::Generic2.spec_code() == 33,
            Axis::Generic3.spec_code() == 34,
            Axis::Generic4.spec_code() == 35,
            Axis::Generic5.spec_code() == 36,
            Axis::Generic6.spec_code() == 37,
            Axis::Generic7.spec_code() == 38,
            Axis::Generic8.spec_code() == 39,
            Axis::Generic9.spec_code() == 40,
            Axis::Generic10.spec_code() == 41,
            Axis::Generic11.spec_code() == 42,
            Axis::Generic12.spec_code() == 43,
            Axis::Generic13.spec_code() == 44,
            Axis::Generic14.spec_code() == 45,
            Axis::Generic15.spec_code() == 46,
            Axis::Generic16.spec_code() == 47,
            Axis::spec_from_code(0) == Some(Axis::X),
            Axis::spec_from_code(1) == Some(Axis::Y),
            Axis::spec_from_code(2) == Some(Axis::Pressure),
            Axis::spec_from_code(3) == Some(Axis::Size),
            Axis::spec_from_code(4) == Some(Axis::TouchMajor),
            Axis::spec_from_code(5) == Some(Axis::TouchMinor),
            Axis::spec_from_code(6) == Some(Axis::ToolMajor),
            Axis::spec_from_code(7) == Some(Axis::ToolMinor),
            Axis::spec_from_code(8) == Some(Axis::Orientation),
            Axis::spec_from_code(9) == Some(Axis::Vscroll),
            Axis::spec_from_code(10) == Some(Axis::Hscroll),
            Axis::spec_from_code(11) == Some(Axis::Z),
            Axis::spec_from_code(12) == Some(Axis::Rx),
            Axis::spec_from_code(13) == Some(Axis::Ry),
            Axis::spec_from_code(14) == Some(Axis::Rz),
            Axis::spec_from_code(15) == Some(Axis::HatX),
            Axis::spec_from_code(16) == Some(Axis::HatY),
            Axis::spec_from_code(17) == Some(Axis::Ltrigger),
            Axis::spec_from_code(18) == Some(Axis::Rtrigger),
            Axis::spec_from_code(19) == Some(Axis::Throttle),
            Axis::spec_from_code(20) == Some(Axis::Rudder),
            Axis::spec_from_code(21) == Some(Axis::Wheel),
            Axis::spec_from_code(22) == Some(Axis::Gas),
            Axis::spec_from_code(23) == Some(Axis::Brake),
            Axis::spec_from_code(24) == Some(Axis::Distance),
            Axis::spec_from_code(25) == Some(Axis::Tilt),
            Axis::spec_from_code(26) == Some(Axis::Scroll),
            Axis::spec_from_code(27) == Some(Axis::RelativeX),
            Axis::spec_from_code(28) == Some(Axis::RelativeY),
            Axis::spec_from_code(32) == Some(Axis::Generic1),
            Axis::spec_from_code(33) == Some(Axis::Generic2),
            Axis::spec_from_code(34) == Some(Axis::Generic3),
            Axis::spec_from_code(35) == Some(Axis::Generic4),
            Axis::spec_from_code(36) == Some(Axis::Generic5),
            Axis::spec_from_code(37) == Some(Axis::Generic6),
            Axis::spec_from_code(38) == Some(Axis::Generic7),
            Axis::spec_from_code(39) == Some(Axis::Generic8),
            Axis::spec_from_code(40) == Some(Axis::Generic9),
            Axis::spec_from_code(41) == Some(Axis::Generic10),
            Axis::spec_from_code(42) == Some(Axis::Generic11),
            Axis::spec_from_code(43) == Some(Axis::Generic12),
            Axis::spec_from_code(44) == Some(Axis::Generic13),
            Axis::spec_from_code(45) == Some(Axis::Generic14),
            Axis::spec_from_code(46) == Some(Axis::Generic15),
            Axis::spec_from_code(47) == Some(Axis::Generic16),
    {
    }
}

impl Axis {
    /// The variant that the raw code `value` stands for, if any.
    pub fn try_from_raw(value: u32) -> (r: Option<Self>)
        ensures
            r == Self::spec_from_code(value as int),
    {
        match value {
            0 => Some(Axis::X),
            1 => Some(Axis::Y),
            2 => Some(Axis::Pressure),
            3 => Some(Axis::Size),
            4 => Some(Axis::TouchMajor),
            5 => Some(Axis::TouchMinor),
            6 => Some(Axis::ToolMajor),
            7 => Some(Axis::ToolMinor),
            8 => Some(Axis::Orientation),
            9 => Some(Axis::Vscroll),
            10 => Some(Axis::Hscroll),
            11 => Some(Axis::Z),
            12 => Some(Axis::Rx),
            13 => Some(Axis::Ry),
            14 => Some(Axis::Rz),
            15 => Some(Axis::HatX),
            16 => Some(Axis::HatY),
            17 => Some(Axis::Ltrigger),
            18 => Some(Axis::Rtrigger),
            19 => Some(Axis::Throttle),
            20 => Some(Axis::Rudder),
            21 => Some(Axis::Wheel),
            22 => Some(Axis::Gas),
            23 => Some(Axis::Brake),
            24 => Some(Axis::Distance),
            25 => Some(Axis::Tilt),
            26 => Some(Axis::Scroll),
            27 => Some(Axis::RelativeX),
            28 => Some(Axis::RelativeY),
            32 => Some(Axis::Generic1),
            33 => Some(Axis::Generic2),
            34 => Some(Axis::Generic3),
            35 => Some(Axis::Generic4),
            36 => Some(Axis::Generic5),
            37 => Some(Axis::Generic6),
            38 => Some(Axis::Generic7),
            39 => Some(Axis::Generic8),
            40 => Some(Axis::Generic9),
            41 => Some(Axis::Generic10),
            42 => Some(Axis::Generic11),
            43 => Some(Axis::Generic12),
            44 => Some(Axis::Generic13),
            45 => Some(Axis::Generic14),
            46 => Some(Axis::Generic15),
            47 => Some(Axis::Generic16),
            _ => None,
        }
    }

    /// The raw code of this variant.
    pub fn into_raw(self) -> (r: u32)
        ensures
            r as int == self.spec_code(),
    {
        match self {
            Axis::X => 0,
            Axis::Y => 1,
            Axis::Pressure => 2,
            Axis::Size => 3,
            Axis::TouchMajor => 4,
            Axis::TouchMinor => 5,
            Axis::ToolMajor => 6,
            Axis::ToolMinor => 7,
            Axis::Orientation => 8,
            Axis::Vscroll => 9,
            Axis::Hscroll => 10,
            Axis::Z => 11,
            Axis::Rx => 12,
            Axis::Ry => 13,
            Axis::Rz => 14,
            Axis::HatX => 15,
            Axis::HatY => 16,
            Axis::Ltrigger => 17,
            Axis::Rtrigger => 18,
            Axis::Throttle => 19,
            Axis::Rudder => 20,
            Axis::Wheel => 21,
            Axis::Gas => 22,
            Axis::Brake => 23,
            Axis::Distance => 24,
            Axis::Tilt => 25,
            Axis::Scroll => 26,
            Axis::RelativeX => 27,
            Axis::RelativeY => 28,
            Axis::Generic1 => 32,
            Axis::Generic2 => 33,
            Axis::Generic3 => 34,
            Axis::Generic4 => 35,
            Axis::Generic5 => 36,
            Axis::Generic6 => 37,
            Axis::Generic7 => 38,
            Axis::Generic8 => 39,
            Axis::Generic9 => 40,
            Axis::Generic10 => 41,
            Axis::Generic11 => 42,
            Axis::Generic12 => 43,
            Axis::Generic13 => 44,
            Axis::Generic14 => 45,
            Axis::Generic15 => 46,
            Axis::Generic16 => 47,
        }
    }
}

#[derive(Copy, Clone, Debug, PartialEq, Eq, Hash, Structural)]
pub enum KeyAction {
    Down,
    Up,
    Multiple,
}

impl RawEnum for KeyAction {
    open spec fn spec_code(self) -> int {
        match self {
            KeyAction::Down => 0,
            KeyAction::Up => 1,
            KeyAction::Multiple => 2,
        }
    }

    open spec fn spec_from_code(code: int) -> Option<Self> {
        if code == 0 {
            Some(KeyAction::Down)
        } else if code == 1 {
            Some(KeyAction::Up)
        } else if code == 2 {
            Some(KeyAction::Multiple)
        } else {
            None
        }
    }

    fn try_from_code(code: i64) -> (r: Option<Self>) {
        match code {
            0 => Some(KeyAction::Down),
            1 => Some(KeyAction::Up),
            2 => Some(KeyAction::Multiple),
            _ => None,
        }
    }

    proof fn lemma_code_round_trip(self) {
    }

    proof fn lemma_from_code_inverse(code: int) {
    }
}

impl KeyAction {
    /// Each variant's code is the value that the NDK's headers give its constant, so decoding
    /// that value gives the variant and encoding the variant gives the value. The constants are
    /// the `AKEY_EVENT_ACTION_*` ones.
    pub proof fn lemma_ndk_codes()
        ensures
            KeyAction::Down.spec_code() == 0,
            KeyAction::Up.spec_code() == 1,
            KeyAction::Multiple.spec_code() == 2,
            KeyAction::spec_from_code(0) == Some(KeyAction::Down),
            KeyAction::spec_from_code(1) == Some(KeyAction::Up),
            KeyAction::spec_from_code(2) == Some(KeyAction::Multiple),
    {
    }
}

impl KeyAction {
    /// The variant that the raw code `value` stands for, if any.
    pub fn try_from_raw(value: u32) -> (r: Option<Self>)
        ensures
            r == Self::spec_from_code(value as int),
    {
        match value {
            0 => Some(KeyAction::Down),
            1 => Some(KeyAction::Up),
            2 => Some(KeyAction::Multiple),
            _ => None,
        }
    }

    /// The raw code of this variant.
    pub fn into_raw(self) -> (r: u32)
        ensures
            r as int == self.spec_code(),
    {
        match self {
            KeyAction::Down => 0,
            KeyAction::Up => 1,
            KeyAction::Multiple => 2,
        }
    }
}

#[derive(Copy, Clone, Debug, PartialEq, Eq, Hash, Structural)]
pub enum Keycode {
    Unknown,
    SoftLeft,
    SoftRight,
    Home,
    Back,
    Call,
    Endcall,
    Keycode0,
    Keycode1,
    Keycode2,
    Keycode3,
    Keycode4,
    Keycode5,
    Keycode6,
    Keycode7,
    Keycode8,
    Keycode9,
    Star,
    Pound,
    DpadUp,
    DpadDown,
    DpadLeft,
    DpadRight,
    DpadCenter,
    VolumeUp,
    VolumeDown,
    Power,
    Camera,
    Clear,
    A,
    B,
    C,
    D,
    E,
    F,
    G,
    H,
    I,
    J,
    K,
    L,
    M,
    N,
    O,
    P,
    Q,
    R,
    S,
    T,
    U,
    V,
    W,
    X,
    Y,
    Z,
    Comma,
    Period,
    AltLeft,
    AltRight,
    ShiftLeft,
    ShiftRight,
    Tab,
    Space,
    Sym,
    Explorer,
    Envelope,
    Enter,
    Del,
    Grave,
    Minus,
    Equals,
    LeftBracket,
    RightBracket,
    Backslash,
    Semicolon,
    Apostrophe,
    Slash,
    At,
    Num,
    Headsethook,
    Focus,
    Plus,
    Menu,
    Notification,
    Search,
    MediaPlayPause,
    MediaStop,
    MediaNext,
    MediaPrevious,
    MediaRewind,
    MediaFastForward,
    Mute,
    PageUp,
    PageDown,
    Pictsymbols,
    SwitchCharset,
    ButtonA,
    ButtonB,
    ButtonC,
    ButtonX,
    ButtonY,
    ButtonZ,
    ButtonL1,
    ButtonR1,
    ButtonL2,
    ButtonR2,
    ButtonThumbl,
    ButtonThumbr,
    ButtonStart,
    ButtonSelect,
    ButtonMode,
    Escape,
    ForwardDel,
    CtrlLeft,
    CtrlRight,
    CapsLock,
    ScrollLock,
    MetaLeft,
    MetaRight,
    Function,
    Sysrq,
    Break,
    MoveHome,
    MoveEnd,
    Insert,
    Forward,
    MediaPlay,
    MediaPause,
    MediaClose,
    MediaEject,
    MediaRecord,
    F1,
    F2,
    F3,
    F4,
    F5,
    F6,
    F7,
    F8,
    F9,
    F10,
    F11,
    F12,
    NumLock,
    Numpad0,
    Numpad1,
    Numpad2,
    Numpad3,
    Numpad4,
    Numpad5,
    Numpad6,
    Numpad7,
    Numpad8,
    Numpad9,
    NumpadDivide,
    NumpadMultiply,
    NumpadSubtract,
    NumpadAdd,
    NumpadDot,
    NumpadComma,
    NumpadEnter,
    NumpadEquals,
    NumpadLeftParen,
    NumpadRightParen,
    VolumeMute,
    Info,
    ChannelUp,
    ChannelDown,
    ZoomIn,
    ZoomOut,
    Tv,
    Window,
    Guide,
    Dvr,
    Bookmark,
    Captions,
    Settings,
    TvPower,
    TvInput,
    StbPower,
    StbInput,
    AvrPower,
    AvrInput,
    ProgRed,
    ProgGreen,
    ProgYellow,
    ProgBlue,
    AppSwitch,
    Button1,
    Button2,
    Button3,
    Button4,
    Button5,
    Button6,
    Button7,
    Button8,
    Button9,
    Button10,
    Button11,
    Button12,
    Button13,
    Button14,
    Button15,
    Button16,
    LanguageSwitch,
    MannerMode,
    Keycode3dMode,
    Contacts,
    Calendar,
    Music,
    Calculator,
    ZenkakuHankaku,
    Eisu,
    Muhenkan,
    Henkan,
    KatakanaHiragana,
    Yen,
    Ro,
    Kana,
    Assist,
    BrightnessDown,
    BrightnessUp,
    MediaAudioTrack,
    Sleep,
    Wakeup,
    Pairing,
    MediaTopMenu,
    Keycode11,
    Keycode12,
    LastChannel,
    TvDataService,
    VoiceAssist,
    TvRadioService,
    TvTeletext,
    TvNumberEntry,
    TvTerrestrialAnalog,
    TvTerrestrialDigital,
    TvSatellite,
    TvSatelliteBs,
    TvSatelliteCs,
    TvSatelliteService,
    TvNetwork,
    TvAntennaCable,
    TvInputHdmi1,
    TvInputHdmi2,
    TvInputHdmi3,
    TvInputHdmi4,
    TvInputComposite1,
    TvInputComposite2,
    TvInputComponent1,
    TvInputComponent2,
    TvInputVga1,
    TvAudioDescription,
    TvAudioDescriptionMixUp,
    TvAudioDescriptionMixDown,
    TvZoomMode,
    TvContentsMenu,
    TvMediaContextMenu,
    TvTimerProgramming,
    Help,
    NavigatePrevious,
    NavigateNext,
    NavigateIn,
    NavigateOut,
    StemPrimary,
    Stem1,
    Stem2,
    Stem3,
    DpadUpLeft,
    DpadDownLeft,
    DpadUpRight,
    DpadDownRight,
    MediaSkipForward,
    MediaSkipBackward,
    MediaStepForward,
    MediaStepBackward,
    SoftSleep,
    Cut,
    Copy,
    Paste,
    SystemNavigationUp,
    SystemNavigationDown,
    SystemNavigationLeft,
    SystemNavigationRight,
    AllApps,
    Refresh,
    ThumbsUp,
    ThumbsDown,
    ProfileSwitch,
}

impl RawEnum for Keycode {
    open spec fn spec_code(self) -> int {
        match self {
            Keycode::Unknown => 0,
            Keycode::SoftLeft => 1,
            Keycode::SoftRight => 2,
            Keycode::Home => 3,
            Keycode::Back => 4,
            Keycode::Call => 5,
            Keycode::Endcall => 6,
            Keycode::Keycode0 => 7,
            Keycode::Keycode1 => 8,
            Keycode::Keycode2 => 9,
            Keycode::Keycode3 => 10,
            Keycode::Keycode4 => 11,
            Keycode::Keycode5 => 12,
            Keycode::Keycode6 => 13,
            Keycode::Keycode7 => 14,
            Keycode::Keycode8 => 15,
            Keycode::Keycode9 => 16,
            Keycode::Star => 17,
            Keycode::Pound => 18,
            Keycode::DpadUp => 19,
            Keycode::DpadDown => 20,
            Keycode::DpadLeft => 21,
            Keycode::DpadRight => 22,
            Keycode::DpadCenter => 23,
            Keycode::VolumeUp => 24,
            Keycode::VolumeDown => 25,
            Keycode::Power => 26,
            Keycode::Camera => 27,
            Keycode::Clear => 28,
            Keycode::A => 29,
            Keycode::B => 30,
            Keycode::C => 31,
            Keycode::D => 32,
            Keycode::E => 33,
            Keycode::F => 34,
            Keycode::G => 35,
            Keycode::H => 36,
            Keycode::I => 37,
            Keycode::J => 38,
            Keycode::K => 39,
            Keycode::L => 40,
            Keycode::M => 41,
            Keycode::N => 42,
            Keycode::O => 43,
            Keycode::P => 44,
            Keycode::Q => 45,
            Keycode::R => 46,
            Keycode::S => 47,
            Keycode::T => 48,
            Keycode::U => 49,
            Keycode::V => 50,
            Keycode::W => 51,
            Keycode::X => 52,
            Keycode::Y => 53,
            Keycode::Z => 54,
            Keycode::Comma => 55,
            Keycode::Period => 56,
            Keycode::AltLeft => 57,
            Keycode::AltRight => 58,
            Keycode::ShiftLeft => 59,
            Keycode::ShiftRight => 60,
            Keycode::Tab => 61,
            Keycode::Space => 62,
            Keycode::Sym => 63,
            Keycode::Explorer => 64,
            Keycode::Envelope => 65,
            Keycode::Enter => 66,
            Keycode::Del => 67,
            Keycode::Grave => 68,
            Keycode::Minus => 69,
            Keycode::Equals => 70,
            Keycode::LeftBracket => 71,
            Keycode::RightBracket => 72,
            Keycode::Backslash => 73,
            Keycode::Semicolon => 74,
            Keycode::Apostrophe => 75,
            Keycode::Slash => 76,
            Keycode::At => 77,
            Keycode::Num => 78,
            Keycode::Headsethook => 79,
            Keycode::Focus => 80,
            Keycode::Plus => 81,
            Keycode::Menu => 82,
            Keycode::Notification => 83,
            Keycode::Search => 84,
            Keycode::MediaPlayPause => 85,
            Keycode::MediaStop => 86,
            Keycode::MediaNext => 87,
            Keycode::MediaPrevious => 88,
            Keycode::MediaRewind => 89,
            Keycode::MediaFastForward => 90,
            Keycode::Mute => 91,
            Keycode::PageUp => 92,
            Keycode::PageDown => 93,
            Keycode::Pictsymbols => 94,
            Keycode::SwitchCharset => 95,
            Keycode::ButtonA => 96,
            Keycode::ButtonB => 97,
            Keycode::ButtonC => 98,
            Keycode::ButtonX => 99,
            Keycode::ButtonY => 100,
            Keycode::ButtonZ => 101,
            Keycode::ButtonL1 => 102,
            Keycode::ButtonR1 => 103,
            Keycode::ButtonL2 => 104,
            Keycode::ButtonR2 => 105,
            Keycode::ButtonThumbl => 106,
            Keycode::ButtonThumbr => 107,
            Keycode::ButtonStart => 108,
            Keycode::ButtonSelect => 109,
            Keycode::ButtonMode => 110,
            Keycode::Escape => 111,
            Keycode::ForwardDel => 112,
            Keycode::CtrlLeft => 113,
            Keycode::CtrlRight => 114,
            Keycode::CapsLock => 115,
            Keycode::ScrollLock => 116,
            Keycode::MetaLeft => 117,
            Keycode::MetaRight => 118,
            Keycode::Function => 119,
            Keycode::Sysrq => 120,
            Keycode::Break => 121,
            Keycode::MoveHome => 122,
            Keycode::MoveEnd => 123,
            Keycode::Insert => 124,
            Keycode::Forward => 125,
            Keycode::MediaPlay => 126,
            Keycode::MediaPause => 127,
            Keycode::MediaClose => 128,
            Keycode::MediaEject => 129,
            Keycode::MediaRecord => 130,
            Keycode::F1 => 131,
            Keycode::F2 => 132,
            Keycode::F3 => 133,
            Keycode::F4 => 134,
            Keycode::F5 => 135,
            Keycode::F6 => 136,
            Keycode::F7 => 137,
            Keycode::F8 => 138,
            Keycode::F9 => 139,
            Keycode::F10 => 140,
            Keycode::F11 => 141,
            Keycode::F12 => 142,
            Keycode::NumLock => 143,
            Keycode::Numpad0 => 144,
            Keycode::Numpad1 => 145,
            Keycode::Numpad2 => 146,
            Keycode::Numpad3 => 147,
            Keycode::Numpad4 => 148,
            Keycode::Numpad5 => 149,
            Keycode::Numpad6 => 150,
            Keycode::Numpad7 => 151,
            Keycode::Numpad8 => 152,
            Keycode::Numpad9 => 153,
            Keycode::NumpadDivide => 154,
            Keycode::NumpadMultiply => 155,
            Keycode::NumpadSubtract => 156,
            Keycode::NumpadAdd => 157,
            Keycode::NumpadDot => 158,
            Keycode::NumpadComma => 159,
            Keycode::NumpadEnter => 160,
            Keycode::NumpadEquals => 161,
            Keycode::NumpadLeftParen => 162,
            Keycode::NumpadRightParen => 163,
            Keycode::VolumeMute => 164,
            Keycode::Info => 165,
            Keycode::ChannelUp => 166,
            Keycode::ChannelDown => 167,
            Keycode::ZoomIn => 168,
            Keycode::ZoomOut => 169,
            Keycode::Tv => 170,
            Keycode::Window => 171,
            Keycode::Guide => 172,
            Keycode::Dvr => 173,
            Keycode::Bookmark => 174,
            Keycode::Captions => 175,
            Keycode::Settings => 176,
            Keycode::TvPower => 177,
            Keycode::TvInput => 178,
            Keycode::StbPower => 179,
            Keycode::StbInput => 180,
            Keycode::AvrPower => 181,
            Keycode::AvrInput => 182,
            Keycode::ProgRed => 183,
            Keycode::ProgGreen => 184,
            Keycode::ProgYellow => 185,
            Keycode::ProgBlue => 186,
            Keycode::AppSwitch => 187,
            Keycode::Button1 => 188,
            Keycode::Button2 => 189,
            Keycode::Button3 => 190,
            Keycode::Button4 => 191,
            Keycode::Button5 => 192,
            Keycode::Button6 => 193,
            Keycode::Button7 => 194,
            Keycode::Button8 => 195,
            Keycode::Button9 => 196,
            Keycode::Button10 => 197,
            Keycode::Button11 => 198,
            Keycode::Button12 => 199,
            Keycode::Button13 => 200,
            Keycode::Button14 => 201,
            Keycode::Button15 => 202,
            Keycode::Button16 => 203,
            Keycode::LanguageSwitch => 204,
            Keycode::MannerMode => 205,
            Keycode::Keycode3dMode => 206,
            Keycode::Contacts => 207,
            Keycode::Calendar => 208,
            Keycode::Music => 209,
            Keycode::Calculator => 210,
            Keycode::ZenkakuHankaku => 211,
            Keycode::Eisu => 212,
            Keycode::Muhenkan => 213,
            Keycode::Henkan => 214,
            Keycode::KatakanaHiragana => 215,
            Keycode::Yen => 216,
            Keycode::Ro => 217,
            Keycode::Kana => 218,
            Keycode::Assist => 219,
            Keycode::BrightnessDown => 220,
            Keycode::BrightnessUp => 221,
            Keycode::MediaAudioTrack => 222,
            Keycode::Sleep => 223,
            Keycode::Wakeup => 224,
            Keycode::Pairing => 225,
            Keycode::MediaTopMenu => 226,
            Keycode::Keycode11 => 227,
            Keycode::Keycode12 => 228,
            Keycode::LastChannel => 229,
            Keycode::TvDataService => 230,
            Keycode::VoiceAssist => 231,
            Keycode::TvRadioService => 232,
            Keycode::TvTeletext => 233,
            Keycode::TvNumberEntry => 234,
            Keycode::TvTerrestrialAnalog => 235,
            Keycode::TvTerrestrialDigital => 236,
            Keycode::TvSatellite => 237,
            Keycode::TvSatelliteBs => 238,
            Keycode::TvSatelliteCs => 239,
            Keycode::TvSatelliteService => 240,
            Keycode::TvNetwork => 241,
            Keycode::TvAntennaCable => 242,
            Keycode::TvInputHdmi1 => 243,
            Keycode::TvInputHdmi2 => 244,
            Keycode::TvInputHdmi3 => 245,
            Keycode::TvInputHdmi4 => 246,
            Keycode::TvInputComposite1 => 247,
            Keycode::TvInputComposite2 => 248,
            Keycode::TvInputComponent1 => 249,
            Keycode::TvInputComponent2 => 250,
            Keycode::TvInputVga1 => 251,
            Keycode::TvAudioDescription => 252,
            Keycode::TvAudioDescriptionMixUp => 253,
            Keycode::TvAudioDescriptionMixDown => 254,
            Keycode::TvZoomMode => 255,
            Keycode::TvContentsMenu => 256,
            Keycode::TvMediaContextMenu => 257,
            Keycode::TvTimerProgramming => 258,
            Keycode::Help => 259,
            Keycode::NavigatePrevious => 260,
            Keycode::NavigateNext => 261,
            Keycode::NavigateIn => 262,
            Keycode::NavigateOut => 263,
            Keycode::StemPrimary => 264,
            Keycode::Stem1 => 265,
            Keycode::Stem2 => 266,
            Keycode::Stem3 => 267,
            Keycode::DpadUpLeft => 268,
            Keycode::DpadDownLeft => 269,
            Keycode::DpadUpRight => 270,
            Keycode::DpadDownRight => 271,
            Keycode::MediaSkipForward => 272,
            Keycode::MediaSkipBackward => 273,
            Keycode::MediaStepForward => 274,
            Keycode::MediaStepBackward => 275,
            Keycode::SoftSleep => 276,
            Keycode::Cut => 277,
            Keycode::Copy => 278,
            Keycode::Paste => 279,
            Keycode::SystemNavigationUp => 280,
            Keycode::SystemNavigationDown => 281,
            Keycode::SystemNavigationLeft => 282,
            Keycode::SystemNavigationRight => 283,
            Keycode::AllApps => 284,
            Keycode::Refresh => 285,
            Keycode::ThumbsUp => 286,
            Keycode::ThumbsDown => 287,
            Keycode::ProfileSwitch => 288,
        }
    }

    open spec fn spec_from_code(code: int) -> Option<Self> {
        if code == 0 {
            Some(Keycode::Unknown)
        } else if code == 1 {
            Some(Keycode::SoftLeft)
        } else if code == 2 {
            Some(Keycode::SoftRight)
        } else if code == 3 {
            Some(Keycode::Home)
        } else if code == 4 {
            Some(Keycode::Back)
        } else if code == 5 {
            Some(Keycode::Call)
        } else if code == 6 {
            Some(Keycode::Endcall)
        } else if code == 7 {
            Some(Keycode::Keycode0)
        } else if code == 8 {
            Some(Keycode::Keycode1)
        } else if code == 9 {
            Some(Keycode::Keycode2)
        } else if code == 10 {
            Some(Keycode::Keycode3)
        } else if code == 11 {
            Some(Keycode::Keycode4)
        } else if code == 12 {
            Some(Keycode::Keycode5)
        } else if code == 13 {
            Some(Keycode::Keycode6)
        } else if code == 14 {
            Some(Keycode::Keycode7)
        } else if code == 15 {
            Some(Keycode::Keycode8)
        } else if code == 16 {
            Some(Keycode::Keycode9)
        } else if code == 17 {
            Some(Keycode::Star)
        } else if code == 18 {
            Some(Keycode::Pound)
        } else if code == 19 {
            Some(Keycode::DpadUp)
        } else if code == 20 {
            Some(Keycode::DpadDown)
        } else if code == 21 {
            Some(Keycode::DpadLeft)
        } else if code == 22 {
            Some(Keycode::DpadRight)
        } else if code == 23 {
            Some(Keycode::DpadCenter)
        } else if code == 24 {
            Some(Keycode::VolumeUp)
        } else if code == 25 {
            Some(Keycode::VolumeDown)
        } else if code == 26 {
            Some(Keycode::Power)
        } else if code == 27 {
            Some(Keycode::Camera)
        } else if code == 28 {
            Some(Keycode::Clear)
        } else if code == 29 {
            Some(Keycode::A)
        } else if code == 30 {
            Some(Keycode::B)
        } else if code == 31 {
            Some(Keycode::C)
        } else if code == 32 {
            Some(Keycode::D)
        } else if code == 33 {
            Some(Keycode::E)
        } else if code == 34 {
            Some(Keycode::F)
        } else if code == 35 {
            Some(Keycode::G)
        } else if code == 36 {
            Some(Keycode::H)
        } else if code == 37 {
            Some(Keycode::I)
        } else if code == 38 {
            Some(Keycode::J)
        } else if code == 39 {
            Some(Keycode::K)
        } else if code == 40 {
            Some(Keycode::L)
        } else if code == 41 {
            Some(Keycode::M)
        } else if code == 42 {
            Some(Keycode::N)
        } else if code == 43 {
            Some(Keycode::O)
        } else if code == 44 {
            Some(Keycode::P)
        } else if code == 45 {
            Some(Keycode::Q)
        } else if code == 46 {
            Some(Keycode::R)
        } else if code == 47 {
            Some(Keycode::S)
        } else if code == 48 {
            Some(Keycode::T)
        } else if code == 49 {
            Some(Keycode::U)
        } else if code == 50 {
            Some(Keycode::V)
        } else if code == 51 {
            Some(Keycode::W)
        } else if code == 52 {
            Some(Keycode::X)
        } else if code == 53 {
            Some(Keycode::Y)
        } else if code == 54 {
            Some(Keycode::Z)
        } else if code == 55 {
            Some(Keycode::Comma)
        } else if code == 56 {
            Some(Keycode::Period)
        } else if code == 57 {
            Some(Keycode::AltLeft)
        } else if code == 58 {
            Some(Keycode::AltRight)
        } else if code == 59 {
            Some(Keycode::ShiftLeft)
        } else if code == 60 {
            Some(Keycode::ShiftRight)
        } else if code == 61 {
            Some(Keycode::Tab)
        } else if code == 62 {
            Some(Keycode::Space)
        } else if code == 63 {
            Some(Keycode::Sym)
        } else if code == 64 {
            Some(Keycode::Explorer)
        } else if code == 65 {
            Some(Keycode::Envelope)
        } else if code == 66 {
            Some(Keycode::Enter)
        } else if code == 67 {
            Some(Keycode::Del)
        } else if code == 68 {
            Some(Keycode::Grave)
        } else if code == 69 {
            Some(Keycode::Minus)
        } else if code == 70 {
            Some(Keycode::Equals)
        } else if code == 71 {
            Some(Keycode::LeftBracket)
        } else if code == 72 {
            Some(Keycode::RightBracket)
        } else if code == 73 {
            Some(Keycode::Backslash)
        } else if code == 74 {
            Some(Keycode::Semicolon)
        } else if code == 75 {
            Some(Keycode::Apostrophe)
        } else if code == 76 {
            Some(Keycode::Slash)
        } else if code == 77 {
            Some(Keycode::At)
        } else if code == 78 {
            Some(Keycode::Num)
        } else if code == 79 {
            Some(Keycode::Headsethook)
        } else if code == 80 {
            Some(Keycode::Focus)
        } else if code == 81 {
            Some(Keycode::Plus)
        } else if code == 82 {
            Some(Keycode::Menu)
        } else if code == 83 {
            Some(Keycode::Notification)
        } else if code == 84 {
            Some(Keycode::Search)
        } else if code == 85 {
            Some(Keycode::MediaPlayPause)
        } else if code == 86 {
            Some(Keycode::MediaStop)
        } else if code == 87 {
            Some(Keycode::MediaNext)
        } else if code == 88 {
            Some(Keycode::MediaPrevious)
        } else if code == 89 {
            Some(Keycode::MediaRewind)
        } else if code == 90 {
            Some(Keycode::MediaFastForward)
        } else if code == 91 {
            Some(Keycode::Mute)
        } else if code == 92 {
            Some(Keycode::PageUp)
        } else if code == 93 {
            Some(Keycode::PageDown)
        } else if code == 94 {
            Some(Keycode::Pictsymbols)
        } else if code == 95 {
            Some(Keycode::SwitchCharset)
        } else if code == 96 {
            Some(Keycode::ButtonA)
        } else if code == 97 {
            Some(Keycode::ButtonB)
        } else if code == 98 {
            Some(Keycode::ButtonC)
        } else if code == 99 {
            Some(Keycode::ButtonX)
        } else if code == 100 {
            Some(Keycode::ButtonY)
        } else if code == 101 {
            Some(Keycode::ButtonZ)
        } else if code == 102 {
            Some(Keycode::ButtonL1)
        } else if code == 103 {
            Some(Keycode::ButtonR1)
        } else if code == 104 {
            Some(Keycode::ButtonL2)
        } else if code == 105 {
            Some(Keycode::ButtonR2)
        } else if code == 106 {
            Some(Keycode::ButtonThumbl)
        } else if code == 107 {
            Some(Keycode::ButtonThumbr)
        } else if code == 108 {
            Some(Keycode::ButtonStart)
        } else if code == 109 {
            Some(Keycode::ButtonSelect)
        } else if code == 110 {
            Some(Keycode::ButtonMode)
        } else if code == 111 {
            Some(Keycode::Escape)
        } else if code == 112 {
            Some(Keycode::ForwardDel)
        } else if code == 113 {
            Some(Keycode::CtrlLeft)
        } else if code == 114 {
            Some(Keycode::CtrlRight)
        } else if code == 115 {
            Some(Keycode::CapsLock)
        } else if code == 116 {
            Some(Keycode::ScrollLock)
        } else if code == 117 {
            Some(Keycode::MetaLeft)
        } else if code == 118 {
            Some(Keycode::MetaRight)
        } else if code == 119 {
            Some(Keycode::Function)
        } else if code == 120 {
            Some(Keycode::Sysrq)
        } else if code == 121 {
            Some(Keycode::Break)
        } else if code == 122 {
            Some(Keycode::MoveHome)
        } else if code == 123 {
            Some(Keycode::MoveEnd)
        } else if code == 124 {
            Some(Keycode::Insert)
        } else if code == 125 {
            Some(Keycode::Forward)
        } else if code == 126 {
            Some(Keycode::MediaPlay)
        } else if code == 127 {
            Some(Keycode::MediaPause)
        } else if code == 128 {
            Some(Keycode::MediaClose)
        } else if code == 129 {
            Some(Keycode::MediaEject)
        } else if code == 130 {
            Some(Keycode::MediaRecord)
        } else if code == 131 {
            Some(Keycode::F1)
        } else if code == 132 {
            Some(Keycode::F2)
        } else if code == 133 {
            Some(Keycode::F3)
        } else if code == 134 {
            Some(Keycode::F4)
        } else if code == 135 {
            Some(Keycode::F5)
        } else if code == 136 {
            Some(Keycode::F6)
        } else if code == 137 {
            Some(Keycode::F7)
        } else if code == 138 {
            Some(Keycode::F8)
        } else if code == 139 {
            Some(Keycode::F9)
        } else if code == 140 {
            Some(Keycode::F10)
        } else if code == 141 {
            Some(Keycode::F11)
        } else if code == 142 {
            Some(Keycode::F12)
        } else if code == 143 {
            Some(Keycode::NumLock)
        } else if code == 144 {
            Some(Keycode::Numpad0)
        } else if code == 145 {
            Some(Keycode::Numpad1)
        } else if code == 146 {
            Some(Keycode::Numpad2)
        } else if code == 147 {
            Some(Keycode::Numpad3)
        } else if code == 148 {
            Some(Keycode::Numpad4)
        } else if code == 149 {
            Some(Keycode::Numpad5)
        } else if code == 150 {
            Some(Keycode::Numpad6)
        } else if code == 151 {
            Some(Keycode::Numpad7)
        } else if code == 152 {
            Some(Keycode::Numpad8)
        } else if code == 153 {
            Some(Keycode::Numpad9)
        } else if code == 154 {
            Some(Keycode::NumpadDivide)
        } else if code == 155 {
            Some(Keycode::NumpadMultiply)
        } else if code == 156 {
            Some(Keycode::NumpadSubtract)
        } else if code == 157 {
            Some(Keycode::NumpadAdd)
        } else if code == 158 {
            Some(Keycode::NumpadDot)
        } else if code == 159 {
            Some(Keycode::NumpadComma)
        } else if code == 160 {
            Some(Keycode::NumpadEnter)
        } else if code == 161 {
            Some(Keycode::NumpadEquals)
        } else if code == 162 {
            Some(Keycode::NumpadLeftParen)
        } else if code == 163 {
            Some(Keycode::NumpadRightParen)
        } else if code == 164 {
            Some(Keycode::VolumeMute)
        } else if code == 165 {
            Some(Keycode::Info)
        } else if code == 166 {
            Some(Keycode::ChannelUp)
        } else if code == 167 {
            Some(Keycode::ChannelDown)
        } else if code == 168 {
            Some(Keycode::ZoomIn)
        } else if code == 169 {
            Some(Keycode::ZoomOut)
        } else if code == 170 {
            Some(Keycode::Tv)
        } else if code == 171 {
            Some(Keycode::Window)
        } else if code == 172 {
            Some(Keycode::Guide)
        } else if code == 173 {
            Some(Keycode::Dvr)
        } else if code == 174 {
            Some(Keycode::Bookmark)
        } else if code == 175 {
            Some(Keycode::Captions)
        } else if code == 176 {
            Some(Keycode::Settings)
        } else if code == 177 {
            Some(Keycode::TvPower)
        } else if code == 178 {
            Some(Keycode::TvInput)
        } else if code == 179 {
            Some(Keycode::StbPower)
        } else if code == 180 {
            Some(Keycode::StbInput)
        } else if code == 181 {
            Some(Keycode::AvrPower)
        } else if code == 182 {
            Some(Keycode::AvrInput)
        } else if code == 183 {
            Some(Keycode::ProgRed)
        } else if code == 184 {
            Some(Keycode::ProgGreen)
        } else if code == 185 {
            Some(Keycode::ProgYellow)
        } else if code == 186 {
            Some(Keycode::ProgBlue)
        } else if code == 187 {
            Some(Keycode::AppSwitch)
        } else if code == 188 {
            Some(Keycode::Button1)
        } else if code == 189 {
            Some(Keycode::Button2)
        } else if code == 190 {
            Some(Keycode::Button3)
        } else if code == 191 {
            Some(Keycode::Button4)
        } else if code == 192 {
            Some(Keycode::Button5)
        } else if code == 193 {
            Some(Keycode::Button6)
        } else if code == 194 {
            Some(Keycode::Button7)
        } else if code == 195 {
            Some(Keycode::Button8)
        } else if code == 196 {
            Some(Keycode::Button9)
        } else if code == 197 {
            Some(Keycode::Button10)
        } else if code == 198 {
            Some(Keycode::Button11)
        } else if code == 199 {
            Some(Keycode::Button12)
        } else if code == 200 {
            Some(Keycode::Button13)
        } else if code == 201 {
            Some(Keycode::Button14)
        } else if code == 202 {
            Some(Keycode::Button15)
        } else if code == 203 {
            Some(Keycode::Button16)
        } else if code == 204 {
            Some(Keycode::LanguageSwitch)
        } else if code == 205 {
            Some(Keycode::MannerMode)
        } else if code == 206 {
            Some(Keycode::Keycode3dMode)
        } else if code == 207 {
            Some(Keycode::Contacts)
        } else if code == 208 {
            Some(Keycode::Calendar)
        } else if code == 209 {
            Some(Keycode::Music)
        } else if code == 210 {
            Some(Keycode::Calculator)
        } else if code == 211 {
            Some(Keycode::ZenkakuHankaku)
        } else if code == 212 {
            Some(Keycode::Eisu)
        } else if code == 213 {
            Some(Keycode::Muhenkan)
        } else if code == 214 {
            Some(Keycode::Henkan)
        } else if code == 215 {
            Some(Keycode::KatakanaHiragana)
        } else if code == 216 {
            Some(Keycode::Yen)
        } else if code == 217 {
            Some(Keycode::Ro)
        } else if code == 218 {
            Some(Keycode::Kana)
        } else if code == 219 {
            Some(Keycode::Assist)
        } else if code == 220 {
            Some(Keycode::BrightnessDown)
        } else if code == 221 {
            Some(Keycode::BrightnessUp)
        } else if code == 222 {
            Some(Keycode::MediaAudioTrack)
        } else if code == 223 {
            Some(Keycode::Sleep)
        } else if code == 224 {
            Some(Keycode::Wakeup)
        } else if code == 225 {
            Some(Keycode::Pairing)
        } else if code == 226 {
            Some(Keycode::MediaTopMenu)
        } else if code == 227 {
            Some(Keycode::Keycode11)
        } else if code == 228 {
            Some(Keycode::Keycode12)
        } else if code == 229 {
            Some(Keycode::LastChannel)
        } else if code == 230 {
            Some(Keycode::TvDataService)
        } else if code == 231 {
            Some(Keycode::VoiceAssist)
        } else if code == 232 {
            Some(Keycode::TvRadioService)
        } else if code == 233 {
            Some(Keycode::TvTeletext)
        } else if code == 234 {
            Some(Keycode::TvNumberEntry)
        } else if code == 235 {
            Some(Keycode::TvTerrestrialAnalog)
        } else if code == 236 {
            Some(Keycode::TvTerrestrialDigital)
        } else if code == 237 {
            Some(Keycode::TvSatellite)
        } else if code == 238 {
            Some(Keycode::TvSatelliteBs)
        } else if code == 239 {
            Some(Keycode::TvSatelliteCs)
        } else if code == 240 {
            Some(Keycode::TvSatelliteService)
        } else if code == 241 {
            Some(Keycode::TvNetwork)
        } else if code == 242 {
            Some(Keycode::TvAntennaCable)
        } else if code == 243 {
            Some(Keycode::TvInputHdmi1)
        } else if code == 244 {
            Some(Keycode::TvInputHdmi2)
        } else if code == 245 {
            Some(Keycode::TvInputHdmi3)
        } else if code == 246 {
            Some(Keycode::TvInputHdmi4)
        } else if code == 247 {
            Some(Keycode::TvInputComposite1)
        } else if code == 248 {
            Some(Keycode::TvInputComposite2)
        } else if code == 249 {
            Some(Keycode::TvInputComponent1)
        } else if code == 250 {
            Some(Keycode::TvInputComponent2)
        } else if code == 251 {
            Some(Keycode::TvInputVga1)
        } else if code == 252 {
            Some(Keycode::TvAudioDescription)
        } else if code == 253 {
            Some(Keycode::TvAudioDescriptionMixUp)
        } else if code == 254 {
            Some(Keycode::TvAudioDescriptionMixDown)
        } else if code == 255 {
            Some(Keycode::TvZoomMode)
        } else if code == 256 {
            Some(Keycode::TvContentsMenu)
        } else if code == 257 {
            Some(Keycode::TvMediaContextMenu)
        } else if code == 258 {
            Some(Keycode::TvTimerProgramming)
        } else if code == 259 {
            Some(Keycode::Help)
        } else if code == 260 {
            Some(Keycode::NavigatePrevious)
        } else if code == 261 {
            Some(Keycode::NavigateNext)
        } else if code == 262 {
            Some(Keycode::NavigateIn)
        } else if code == 263 {
            Some(Keycode::NavigateOut)
        } else if code == 264 {
            Some(Keycode::StemPrimary)
        } else if code == 265 {
            Some(Keycode::Stem1)
        } else if code == 266 {
            Some(Keycode::Stem2)
        } else if code == 267 {
            Some(Keycode::Stem3)
        } else if code == 268 {
            Some(Keycode::DpadUpLeft)
        } else if code == 269 {
            Some(Keycode::DpadDownLeft)
        } else if code == 270 {
            Some(Keycode::DpadUpRight)
        } else if code == 271 {
            Some(Keycode::DpadDownRight)
        } else if code == 272 {
            Some(Keycode::MediaSkipForward)
        } else if code == 273 {
            Some(Keycode::MediaSkipBackward)
        } else if code == 274 {
            Some(Keycode::MediaStepForward)
        } else if code == 275 {
            Some(Keycode::MediaStepBackward)
        } else if code == 276 {
            Some(Keycode::SoftSleep)
        } else if code == 277 {
            Some(Keycode::Cut)
        } else if code == 278 {
            Some(Keycode::Copy)
        } else if code == 279 {
            Some(Keycode::Paste)
        } else if code == 280 {
            Some(Keycode::SystemNavigationUp)
        } else if code == 281 {
            Some(Keycode::SystemNavigationDown)
        } else if code == 282 {
            Some(Keycode::SystemNavigationLeft)
        } else if code == 283 {
            Some(Keycode::SystemNavigationRight)
        } else if code == 284 {
            Some(Keycode::AllApps)
        } else if code == 285 {
            Some(Keycode::Refresh)
        } else if code == 286 {
            Some(Keycode::ThumbsUp)
        } else if code == 287 {
            Some(Keycode::ThumbsDown)
        } else if code == 288 {
            Some(Keycode::ProfileSwitch)
        } else {
            None
        }
    }

    fn try_from_code(code: i64) -> (r: Option<Self>) {
        match code {
            0 => Some(Keycode::Unknown),
            1 => Some(Keycode::SoftLeft),
            2 => Some(Keycode::SoftRight),
            3 => Some(Keycode::Home),
            4 => Some(Keycode::Back),
            5 => Some(Keycode::Call),
            6 => Some(Keycode::Endcall),
            7 => Some(Keycode::Keycode0),
            8 => Some(Keycode::Keycode1),
            9 => Some(Keycode::Keycode2),
            10 => Some(Keycode::Keycode3),
            11 => Some(Keycode::Keycode4),
            12 => Some(Keycode::Keycode5),
            13 => Some(Keycode::Keycode6),
            14 => Some(Keycode::Keycode7),
            15 => Some(Keycode::Keycode8),
            16 => Some(Keycode::Keycode9),
            17 => Some(Keycode::Star),
            18 => Some(Keycode::Pound),
            19 => Some(Keycode::DpadUp),
            20 => Some(Keycode::DpadDown),
            21 => Some(Keycode::DpadLeft),
            22 => Some(Keycode::DpadRight),
            23 => Some(Keycode::DpadCenter),
            24 => Some(Keycode::VolumeUp),
            25 => Some(Keycode::VolumeDown),
            26 => Some(Keycode::Power),
            27 => Some(Keycode::Camera),
            28 => Some(Keycode::Clear),
            29 => Some(Keycode::A),
            30 => Some(Keycode::B),
            31 => Some(Keycode::C),
            32 => Some(Keycode::D),
            33 => Some(Keycode::E),
            34 => Some(Keycode::F),
            35 => Some(Keycode::G),
            36 => Some(Keycode::H),
            37 => Some(Keycode::I),
            38 => Some(Keycode::J),
            39 => Some(Keycode::K),
            40 => Some(Keycode::L),
            41 => Some(Keycode::M),
            42 => Some(Keycode::N),
            43 => Some(Keycode::O),
            44 => Some(Keycode::P),
            45 => Some(Keycode::Q),
            46 => Some(Keycode::R),
            47 => Some(Keycode::S),
            48 => Some(Keycode::T),
            49 => Some(Keycode::U),
            50 => Some(Keycode::V),
            51 => Some(Keycode::W),
            52 => Some(Keycode::X),
            53 => Some(Keycode::Y),
            54 => Some(Keycode::Z),
            55 => Some(Keycode::Comma),
            56 => Some(Keycode::Period),
            57 => Some(Keycode::AltLeft),
            58 => Some(Keycode::AltRight),
            59 => Some(Keycode::ShiftLeft),
            60 => Some(Keycode::ShiftRight),
            61 => Some(Keycode::Tab),
            62 => Some(Keycode::Space),
            63 => Some(Keycode::Sym),
            64 => Some(Keycode::Explorer),
            65 => Some(Keycode::Envelope),
            66 => Some(Keycode::Enter),
            67 => Some(Keycode::Del),
            68 => Some(Keycode::Grave),
            69 => Some(Keycode::Minus),
            70 => Some(Keycode::Equals),
            71 => Some(Keycode::LeftBracket),
            72 => Some(Keycode::RightBracket),
            73 => Some(Keycode::Backslash),
            74 => Some(Keycode::Semicolon),
            75 => Some(Keycode::Apostrophe),
            76 => Some(Keycode::Slash),
            77 => Some(Keycode::At),
            78 => Some(Keycode::Num),
            79 => Some(Keycode::Headsethook),
            80 => Some(Keycode::Focus),
            81 => Some(Keycode::Plus),
            82 => Some(Keycode::Menu),
            83 => Some(Keycode::Notification),
            84 => Some(Keycode::Search),
            85 => Some(Keycode::MediaPlayPause),
            86 => Some(Keycode::MediaStop),
            87 => Some(Keycode::MediaNext),
            88 => Some(Keycode::MediaPrevious),
            89 => Some(Keycode::MediaRewind),
            90 => Some(Keycode::MediaFastForward),
            91 => Some(Keycode::Mute),
            92 => Some(Keycode::PageUp),
            93 => Some(Keycode::PageDown),
            94 => Some(Keycode::Pictsymbols),
            95 => Some(Keycode::SwitchCharset),
            96 => Some(Keycode::ButtonA),
            97 => Some(Keycode::ButtonB),
            98 => Some(Keycode::ButtonC),
            99 => Some(Keycode::ButtonX),
            100 => Some(Keycode::ButtonY),
            101 => Some(Keycode::ButtonZ),
            102 => Some(Keycode::ButtonL1),
            103 => Some(Keycode::ButtonR1),
            104 => Some(Keycode::ButtonL2),
            105 => Some(Keycode::ButtonR2),
            106 => Some(Keycode::ButtonThumbl),
            107 => Some(Keycode::ButtonThumbr),
            108 => Some(Keycode::ButtonStart),
            109 => Some(Keycode::ButtonSelect),
            110 => Some(Keycode::ButtonMode),
            111 => Some(Keycode::Escape),
            112 => Some(Keycode::ForwardDel),
            113 => Some(Keycode::CtrlLeft),
            114 => Some(Keycode::CtrlRight),
            115 => Some(Keycode::CapsLock),
            116 => Some(Keycode::ScrollLock),
            117 => Some(Keycode::MetaLeft),
            118 => Some(Keycode::MetaRight),
            119 => Some(Keycode::Function),
            120 => Some(Keycode::Sysrq),
            121 => Some(Keycode::Break),
            122 => Some(Keycode::MoveHome),
            123 => Some(Keycode::MoveEnd),
            124 => Some(Keycode::Insert),
            125 => Some(Keycode::Forward),
            126 => Some(Keycode::MediaPlay),
            127 => Some(Keycode::MediaPause),
            128 => Some(Keycode::MediaClose),
            129 => Some(Keycode::MediaEject),
            130 => Some(Keycode::MediaRecord),
            131 => Some(Keycode::F1),
            132 => Some(Keycode::F2),
            133 => Some(Keycode::F3),
            134 => Some(Keycode::F4),
            135 => Some(Keycode::F5),
            136 => Some(Keycode::F6),
            137 => Some(Keycode::F7),
            138 => Some(Keycode::F8),
            139 => Some(Keycode::F9),
            140 => Some(Keycode::F10),
            141 => Some(Keycode::F11),
            142 => Some(Keycode::F12),
            143 => Some(Keycode::NumLock),
            144 => Some(Keycode::Numpad0),
            145 => Some(Keycode::Numpad1),
            146 => Some(Keycode::Numpad2),
            147 => Some(Keycode::Numpad3),
            148 => Some(Keycode::Numpad4),
            149 => Some(Keycode::Numpad5),
            150 => Some(Keycode::Numpad6),
            151 => Some(Keycode::Numpad7),
            152 => Some(Keycode::Numpad8),
            153 => Some(Keycode::Numpad9),
            154 => Some(Keycode::NumpadDivide),
            155 => Some(Keycode::NumpadMultiply),
            156 => Some(Keycode::NumpadSubtract),
            157 => Some(Keycode::NumpadAdd),
            158 => Some(Keycode::NumpadDot),
            159 => Some(Keycode::NumpadComma),
            160 => Some(Keycode::NumpadEnter),
            161 => Some(Keycode::NumpadEquals),
            162 => Some(Keycode::NumpadLeftParen),
            163 => Some(Keycode::NumpadRightParen),
            164 => Some(Keycode::VolumeMute),
            165 => Some(Keycode::Info),
            166 => Some(Keycode::ChannelUp),
            167 => Some(Keycode::ChannelDown),
            168 => Some(Keycode::ZoomIn),
            169 => Some(Keycode::ZoomOut),
            170 => Some(Keycode::Tv),
            171 => Some(Keycode::Window),
            172 => Some(Keycode::Guide),
            173 => Some(Keycode::Dvr),
            174 => Some(Keycode::Bookmark),
            175 => Some(Keycode::Captions),
            176 => Some(Keycode::Settings),
            177 => Some(Keycode::TvPower),
            178 => Some(Keycode::TvInput),
            179 => Some(Keycode::StbPower),
            180 => Some(Keycode::StbInput),
            181 => Some(Keycode::AvrPower),
            182 => Some(Keycode::AvrInput),
            183 => Some(Keycode::ProgRed),
            184 => Some(Keycode::ProgGreen),
            185 => Some(Keycode::ProgYellow),
            186 => Some(Keycode::ProgBlue),
            187 => Some(Keycode::AppSwitch),
            188 => Some(Keycode::Button1),
            189 => Some(Keycode::Button2),
            190 => Some(Keycode::Button3),
            191 => Some(Keycode::Button4),
            192 => Some(Keycode::Button5),
            193 => Some(Keycode::Button6),
            194 => Some(Keycode::Button7),
            195 => Some(Keycode::Button8),
            196 => Some(Keycode::Button9),
            197 => Some(Keycode::Button10),
            198 => Some(Keycode::Button11),
            199 => Some(Keycode::Button12),
            200 => Some(Keycode::Button13),
            201 => Some(Keycode::Button14),
            202 => Some(Keycode::Button15),
            203 => Some(Keycode::Button16),
            204 => Some(Keycode::LanguageSwitch),
            205 => Some(Keycode::MannerMode),
            206 => Some(Keycode::Keycode3dMode),
            207 => Some(Keycode::Contacts),
            208 => Some(Keycode::Calendar),
            209 => Some(Keycode::Music),
            210 => Some(Keycode::Calculator),
            211 => Some(Keycode::ZenkakuHankaku),
            212 => Some(Keycode::Eisu),
            213 => Some(Keycode::Muhenkan),
            214 => Some(Keycode::Henkan),
            215 => Some(Keycode::KatakanaHiragana),
            216 => Some(Keycode::Yen),
            217 => Some(Keycode::Ro),
            218 => Some(Keycode::Kana),
            219 => Some(Keycode::Assist),
            220 => Some(Keycode::BrightnessDown),
            221 => Some(Keycode::BrightnessUp),
            222 => Some(Keycode::MediaAudioTrack),
            223 => Some(Keycode::Sleep),
            224 => Some(Keycode::Wakeup),
            225 => Some(Keycode::Pairing),
            226 => Some(Keycode::MediaTopMenu),
            227 => Some(Keycode::Keycode11),
            228 => Some(Keycode::Keycode12),
            229 => Some(Keycode::LastChannel),
            230 => Some(Keycode::TvDataService),
            231 => Some(Keycode::VoiceAssist),
            232 => Some(Keycode::TvRadioService),
            233 => Some(Keycode::TvTeletext),
            234 => Some(Keycode::TvNumberEntry),
            235 => Some(Keycode::TvTerrestrialAnalog),
            236 => Some(Keycode::TvTerrestrialDigital),
            237 => Some(Keycode::TvSatellite),
            238 => Some(Keycode::TvSatelliteBs),
            239 => Some(Keycode::TvSatelliteCs),
            240 => Some(Keycode::TvSatelliteService),
            241 => Some(Keycode::TvNetwork),
            242 => Some(Keycode::TvAntennaCable),
            243 => Some(Keycode::TvInputHdmi1),
            244 => Some(Keycode::TvInputHdmi2),
            245 => Some(Keycode::TvInputHdmi3),
            246 => Some(Keycode::TvInputHdmi4),
            247 => Some(Keycode::TvInputComposite1),
            248 => Some(Keycode::TvInputComposite2),
            249 => Some(Keycode::TvInputComponent1),
            250 => Some(Keycode::TvInputComponent2),
            251 => Some(Keycode::TvInputVga1),
            252 => Some(Keycode::TvAudioDescription),
            253 => Some(Keycode::TvAudioDescriptionMixUp),
            254 => Some(Keycode::TvAudioDescriptionMixDown),
            255 => Some(Keycode::TvZoomMode),
            256 => Some(Keycode::TvContentsMenu),
            257 => Some(Keycode::TvMediaContextMenu),
            258 => Some(Keycode::TvTimerProgramming),
            259 => Some(Keycode::Help),
            260 => Some(Keycode::NavigatePrevious),
            261 => Some(Keycode::NavigateNext),
            262 => Some(Keycode::NavigateIn),
            263 => Some(Keycode::NavigateOut),
            264 => Some(Keycode::StemPrimary),
            265 => Some(Keycode::Stem1),
            266 => Some(Keycode::Stem2),
            267 => Some(Keycode::Stem3),
            268 => Some(Keycode::DpadUpLeft),
            269 => Some(Keycode::DpadDownLeft),
            270 => Some(Keycode::DpadUpRight),
            271 => Some(Keycode::DpadDownRight),
            272 => Some(Keycode::MediaSkipForward),
            273 => Some(Keycode::MediaSkipBackward),
            274 => Some(Keycode::MediaStepForward),
            275 => Some(Keycode::MediaStepBackward),
            276 => Some(Keycode::SoftSleep),
            277 => Some(Keycode::Cut),
            278 => Some(Keycode::Copy),
            279 => Some(Keycode::Paste),
            280 => Some(Keycode::SystemNavigationUp),
            281 => Some(Keycode::SystemNavigationDown),
            282 => Some(Keycode::SystemNavigationLeft),
            283 => Some(Keycode::SystemNavigationRight),
            284 => Some(Keycode::AllApps),
            285 => Some(Keycode::Refresh),
            286 => Some(Keycode::ThumbsUp),
            287 => Some(Keycode::ThumbsDown),
            288 => Some(Keycode::ProfileSwitch),
            _ => None,
        }
    }

    proof fn lemma_code_round_trip(self) {
    }

    proof fn lemma_from_code_inverse(code: int) {
    }
}

impl Keycode {
    /// Each variant's code is the value that the NDK's headers give its constant, so decoding
    /// that value gives the variant and encoding the variant gives the value. The constants are
    /// the `AKEYCODE_*` ones.
    pub proof fn lemma_ndk_codes()
        ensures
            Keycode::Unknown.spec_code() == 0,
            Keycode::SoftLeft.spec_code() == 1,
            Keycode::SoftRight.spec_code() == 2,
            Keycode::Home.spec_code() == 3,
            Keycode::Back.spec_code() == 4,
            Keycode::Call.spec_code() == 5,
            Keycode::Endcall.spec_code() == 6,
            Keycode::Keycode0.spec_code() == 7,
            Keycode::Keycode1.spec_code() == 8,
            Keycode::Keycode2.spec_code() == 9,
            Keycode::Keycode3.spec_code() == 10,
            Keycode::Keycode4.spec_code() == 11,
            Keycode::Keycode5.spec_code() == 12,
            Keycode::Keycode6.spec_code() == 13,
            Keycode::Keycode7.spec_code() == 14,
            Keycode::Keycode8.spec_code() == 15,
            Keycode::Keycode9.spec_code() == 16,
            Keycode::Star.spec_code() == 17,
            Keycode::Pound.spec_code() == 18,
            Keycode::DpadUp.spec_code() == 19,
            Keycode::DpadDown.spec_code() == 20,
            Keycode::DpadLeft.spec_code() == 21,
            Keycode::DpadRight.spec_code() == 22,
            Keycode::DpadCenter.spec_code() == 23,
            Keycode::VolumeUp.spec_code() == 24,
            Keycode::VolumeDown.spec_code() == 25,
            Keycode::Power.spec_code() == 26,
            Keycode::Camera.spec_code() == 27,
            Keycode::Clear.spec_code() == 28,
            Keycode::A.spec_code() == 29,
            Keycode::B.spec_code() == 30,
            Keycode::C.spec_code() == 31,
            Keycode::D.spec_code() == 32,
            Keycode::E.spec_code() == 33,
            Keycode::F.spec_code() == 34,
            Keycode::G.spec_code() == 35,
            Keycode::H.spec_code() == 36,
            Keycode::I.spec_code() == 37,
            Keycode::J.spec_code() == 38,
            Keycode::K.spec_code() == 39,
            Keycode::L.spec_code() == 40,
            Keycode::M.spec_code() == 41,
            Keycode::N.spec_code() == 42,
            Keycode::O.spec_code() == 43,
            Keycode::P.spec_code() == 44,
            Keycode::Q.spec_code() == 45,
            Keycode::R.spec_code() == 46,
            Keycode::S.spec_code() == 47,
            Keycode::T.spec_code() == 48,
            Keycode::U.spec_code() == 49,
            Keycode::V.spec_code() == 50,
            Keycode::W.spec_code() == 51,
            Keycode::X.spec_code() == 52,
            Keycode::Y.spec_code() == 53,
            Keycode::Z.spec_code() == 54,
            Keycode::Comma.spec_code() == 55,
            Keycode::Period.spec_code() == 56,
            Keycode::AltLeft.spec_code() == 57,
            Keycode::AltRight.spec_code() == 58,
            Keycode::ShiftLeft.spec_code() == 59,
            Keycode::ShiftRight.spec_code() == 60,
            Keycode::Tab.spec_code() == 61,
            Keycode::Space.spec_code() == 62,
            Keycode::Sym.spec_code() == 63,
            Keycode::Explorer.spec_code() == 64,
            Keycode::Envelope.spec_code() == 65,
            Keycode::Enter.spec_code() == 66,
            Keycode::Del.spec_code() == 67,
            Keycode::Grave.spec_code() == 68,
            Keycode::Minus.spec_code() == 69,
            Keycode::Equals.spec_code() == 70,
            Keycode::LeftBracket.spec_code() == 71,
            Keycode::RightBracket.spec_code() == 72,
            Keycode::Backslash.spec_code() == 73,
            Keycode::Semicolon.spec_code() == 74,
            Keycode::Apostrophe.spec_code() == 75,
            Keycode::Slash.spec_code() == 76,
            Keycode::At.spec_code() == 77,
            Keycode::Num.spec_code() == 78,
            Keycode::Headsethook.spec_code() == 79,
            Keycode::Focus.spec_code() == 80,
            Keycode::Plus.spec_code() == 81,
            Keycode::Menu.spec_code() == 82,
            Keycode::Notification.spec_code() == 83,
            Keycode::Search.spec_code() == 84,
            Keycode::MediaPlayPause.spec_code() == 85,
            Keycode::MediaStop.spec_code() == 86,
            Keycode::MediaNext.spec_code() == 87,
            Keycode::MediaPrevious.spec_code() == 88,
            Keycode::MediaRewind.spec_code() == 89,
            Keycode::MediaFastForward.spec_code() == 90,
            Keycode::Mute.spec_code() == 91,
            Keycode::PageUp.spec_code() == 92,
            Keycode::PageDown.spec_code() == 93,
            Keycode::Pictsymbols.spec_code() == 94,
            Keycode::SwitchCharset.spec_code() == 95,
            Keycode::ButtonA.spec_code() == 96,
            Keycode::ButtonB.spec_code() == 97,
            Keycode::ButtonC.spec_code() == 98,
            Keycode::ButtonX.spec_code() == 99,
            Keycode::ButtonY.spec_code() == 100,
            Keycode::ButtonZ.spec_code() == 101,
            Keycode::ButtonL1.spec_code() == 102,
            Keycode::ButtonR1.spec_code() == 103,
            Keycode::ButtonL2.spec_code() == 104,
            Keycode::ButtonR2.spec_code() == 105,
            Keycode::ButtonThumbl.spec_code() == 106,
            Keycode::ButtonThumbr.spec_code() == 107,
            Keycode::ButtonStart.spec_code() == 108,
            Keycode::ButtonSelect.spec_code() == 109,
            Keycode::ButtonMode.spec_code() == 110,
            Keycode::Escape.spec_code() == 111,
            Keycode::ForwardDel.spec_code() == 112,
            Keycode::CtrlLeft.spec_code() == 113,
            Keycode::CtrlRight.spec_code() == 114,
            Keycode::CapsLock.spec_code() == 115,
            Keycode::ScrollLock.spec_code() == 116,
            Keycode::MetaLeft.spec_code() == 117,
            Keycode::MetaRight.spec_code() == 118,
            Keycode::Function.spec_code() == 119,
            Keycode::Sysrq.spec_code() == 120,
            Keycode::Break.spec_code() == 121,
            Keycode::MoveHome.spec_code() == 122,
            Keycode::MoveEnd.spec_code() == 123,
            Keycode::Insert.spec_code() == 124,
            Keycode::Forward.spec_code() == 125,
            Keycode::MediaPlay.spec_code() == 126,
            Keycode::MediaPause.spec_code() == 127,
            Keycode::MediaClose.spec_code() == 128,
            Keycode::MediaEject.spec_code() == 129,
            Keycode::MediaRecord.spec_code() == 130,
            Keycode::F1.spec_code() == 131,
            Keycode::F2.spec_code() == 132,
            Keycode::F3.spec_code() == 133,
            Keycode::F4.spec_code() == 134,
            Keycode::F5.spec_code() == 135,
            Keycode::F6.spec_code() == 136,
            Keycode::F7.spec_code() == 137,
            Keycode::F8.spec_code() == 138,
            Keycode::F9.spec_code() == 139,
            Keycode::F10.spec_code() == 140,
            Keycode::F11.spec_code() == 141,
            Keycode::F12.spec_code() == 142,
            Keycode::NumLock.spec_code() == 143,
            Keycode::Numpad0.spec_code() == 144,
            Keycode::Numpad1.spec_code() == 145,
            Keycode::Numpad2.spec_code() == 146,
            Keycode::Numpad3.spec_code() == 147,
            Keycode::Numpad4.spec_code() == 148,
            Keycode::Numpad5.spec_code() == 149,
            Keycode::Numpad6.spec_code() == 150,
            Keycode::Numpad7.spec_code() == 151,
            Keycode::Numpad8.spec_code() == 152,
            Keycode::Numpad9.spec_code() == 153,
            Keycode::NumpadDivide.spec_code() == 154,
            Keycode::NumpadMultiply.spec_code() == 155,
            Keycode::NumpadSubtract.spec_code() == 156,
            Keycode::NumpadAdd.spec_code() == 157,
            Keycode::NumpadDot.spec_code() == 158,
            Keycode::NumpadComma.spec_code() == 159,
            Keycode::NumpadEnter.spec_code() == 160,
            Keycode::NumpadEquals.spec_code() == 161,
            Keycode::NumpadLeftParen.spec_code() == 162,
            Keycode::NumpadRightParen.spec_code() == 163,
            Keycode::VolumeMute.spec_code() == 164,
            Keycode::Info.spec_code() == 165,
            Keycode::ChannelUp.spec_code() == 166,
            Keycode::ChannelDown.spec_code() == 167,
            Keycode::ZoomIn.spec_code() == 168,
            Keycode::ZoomOut.spec_code() == 169,
            Keycode::Tv.spec_code() == 170,
            Keycode::Window.spec_code() == 171,
            Keycode::Guide.spec_code() == 172,
            Keycode::Dvr.spec_code() == 173,
            Keycode::Bookmark.spec_code() == 174,
            Keycode::Captions.spec_code() == 175,
            Keycode::Settings.spec_code() == 176,
            Keycode::TvPower.spec_code() == 177,
            Keycode::TvInput.spec_code() == 178,
            Keycode::StbPower.spec_code() == 179,
            Keycode::StbInput.spec_code() == 180,
            Keycode::AvrPower.spec_code() == 181,
            Keycode::AvrInput.spec_code() == 182,
            Keycode::ProgRed.spec_code() == 183,
            Keycode::ProgGreen.spec_code() == 184,
            Keycode::ProgYellow.spec_code() == 185,
            Keycode::ProgBlue.spec_code() == 186,
            Keycode::AppSwitch.spec_code() == 187,
            Keycode::Button1.spec_code() == 188,
            Keycode::Button2.spec_code() == 189,
            Keycode::Button3.spec_code() == 190,
            Keycode::Button4.spec_code() == 191,
            Keycode::Button5.spec_code() == 192,
            Keycode::Button6.spec_code() == 193,
            Keycode::Button7.spec_code() == 194,
            Keycode::Button8.spec_code() == 195,
            Keycode::Button9.spec_code() == 196,
            Keycode::Button10.spec_code() == 197,
            Keycode::Button11.spec_code() == 198,
            Keycode::Button12.spec_code() == 199,
            Keycode::Button13.spec_code() == 200,
            Keycode::Button14.spec_code() == 201,
            Keycode::Button15.spec_code() == 202,
            Keycode::Button16.spec_code() == 203,
            Keycode::LanguageSwitch.spec_code() == 204,
            Keycode::MannerMode.spec_code() == 205,
            Keycode::Keycode3dMode.spec_code() == 206,
            Keycode::Contacts.spec_code() == 207,
            Keycode::Calendar.spec_code() == 208,
            Keycode::Music.spec_code() == 209,
            Keycode::Calculator.spec_code() == 210,
            Keycode::ZenkakuHankaku.spec_code() == 211,
            Keycode::Eisu.spec_code() == 212,
            Keycode::Muhenkan.spec_code() == 213,
            Keycode::Henkan.spec_code() == 214,
            Keycode::KatakanaHiragana.spec_code() == 215,
            Keycode::Yen.spec_code() == 216,
            Keycode::Ro.spec_code() == 217,
            Keycode::Kana.spec_code() == 218,
            Keycode::Assist.spec_code() == 219,
            Keycode::BrightnessDown.spec_code() == 220,
            Keycode::BrightnessUp.spec_code() == 221,
            Keycode::MediaAudioTrack.spec_code() == 222,
            Keycode::Sleep.spec_code() == 223,
            Keycode::Wakeup.spec_code() == 224,
            Keycode::Pairing.spec_code() == 225,
            Keycode::MediaTopMenu.spec_code() == 226,
            Keycode::Keycode11.spec_code() == 227,
            Keycode::Keycode12.spec_code() == 228,
            Keycode::LastChannel.spec_code() == 229,
            Keycode::TvDataService.spec_code() == 230,
            Keycode::VoiceAssist.spec_code() == 231,
            Keycode::TvRadioService.spec_code() == 232,
            Keycode::TvTeletext.spec_code() == 233,
            Keycode::TvNumberEntry.spec_code() == 234,
            Keycode::TvTerrestrialAnalog.spec_code() == 235,
            Keycode::TvTerrestrialDigital.spec_code() == 236,
            Keycode::TvSatellite.spec_code() == 237,
            Keycode::TvSatelliteBs.spec_code() == 238,
            Keycode::TvSatelliteCs.spec_code() == 239,
            Keycode::TvSatelliteService.spec_code() == 240,
            Keycode::TvNetwork.spec_code() == 241,
            Keycode::TvAntennaCable.spec_code() == 242,
            Keycode::TvInputHdmi1.spec_code() == 243,
            Keycode::TvInputHdmi2.spec_code() == 244,
            Keycode::TvInputHdmi3.spec_code() == 245,
            Keycode::TvInputHdmi4.spec_code() == 246,
            Keycode::TvInputComposite1.spec_code() == 247,
            Keycode::TvInputComposite2.spec_code() == 248,
            Keycode::TvInputComponent1.spec_code() == 249,
            Keycode::TvInputComponent2.spec_code() == 250,
            Keycode::TvInputVga1.spec_code() == 251,
            Keycode::TvAudioDescription.spec_code() == 252,
            Keycode::TvAudioDescriptionMixUp.spec_code() == 253,
            Keycode::TvAudioDescriptionMixDown.spec_code() == 254,
            Keycode::TvZoomMode.spec_code() == 255,
            Keycode::TvContentsMenu.spec_code() == 256,
            Keycode::TvMediaContextMenu.spec_code() == 257,
            Keycode::TvTimerProgramming.spec_code() == 258,
            Keycode::Help.spec_code() == 259,
            Keycode::NavigatePrevious.spec_code() == 260,
            Keycode::NavigateNext.spec_code() == 261,
            Keycode::NavigateIn.spec_code() == 262,
            Keycode::NavigateOut.spec_code() == 263,
            Keycode::StemPrimary.spec_code() == 264,
            Keycode::Stem1.spec_code() == 265,
            Keycode::Stem2.spec_code() == 266,
            Keycode::Stem3.spec_code() == 267,
            Keycode::DpadUpLeft.spec_code() == 268,
            Keycode::DpadDownLeft.spec_code() == 269,
            Keycode::DpadUpRight.spec_code() == 270,
            Keycode::DpadDownRight.spec_code() == 271,
            Keycode::MediaSkipForward.spec_code() == 272,
            Keycode::MediaSkipBackward.spec_code() == 273,
            Keycode::MediaStepForward.spec_code() == 274,
            Keycode::MediaStepBackward.spec_code() == 275,
            Keycode::SoftSleep.spec_code() == 276,
            Keycode::Cut.spec_code() == 277,
            Keycode::Copy.spec_code() == 278,
            Keycode::Paste.spec_code() == 279,
            Keycode::SystemNavigationUp.spec_code() == 280,
            Keycode::SystemNavigationDown.spec_code() == 281,
            Keycode::SystemNavigationLeft.spec_code() == 282,
            Keycode::SystemNavigationRight.spec_code() == 283,
            Keycode::AllApps.spec_code() == 284,
            Keycode::Refresh.spec_code() == 285,
            Keycode::ThumbsUp.spec_code() == 286,
            Keycode::ThumbsDown.spec_code() == 287,
            Keycode::ProfileSwitch.spec_code() == 288,
            Keycode::spec_from_code(0) == Some(Keycode::Unknown),
            Keycode::spec_from_code(1) == Some(Keycode::SoftLeft),
            Keycode::spec_from_code(2) == Some(Keycode::SoftRight),
            Keycode::spec_from_code(3) == Some(Keycode::Home),
            Keycode::spec_from_code(4) == Some(Keycode::Back),
            Keycode::spec_from_code(5) == Some(Keycode::Call),
            Keycode::spec_from_code(6) == Some(Keycode::Endcall),
            Keycode::spec_from_code(7) == Some(Keycode::Keycode0),
            Keycode::spec_from_code(8) == Some(Keycode::Keycode1),
            Keycode::spec_from_code(9) == Some(Keycode::Keycode2),
            Keycode::spec_from_code(10) == Some(Keycode::Keycode3),
            Keycode::spec_from_code(11) == Some(Keycode::Keycode4),
            Keycode::spec_from_code(12) == Some(Keycode::Keycode5),
            Keycode::spec_from_code(13) == Some(Keycode::Keycode6),
            Keycode::spec_from_code(14) == Some(Keycode::Keycode7),
            Keycode::spec_from_code(15) == Some(Keycode::Keycode8),
            Keycode::spec_from_code(16) == Some(Keycode::Keycode9),
            Keycode::spec_from_code(17) == Some(Keycode::Star),
            Keycode::spec_from_code(18) == Some(Keycode::Pound),
            Keycode::spec_from_code(19) == Some(Keycode::DpadUp),
            Keycode::spec_from_code(20) == Some(Keycode::DpadDown),
            Keycode::spec_from_code(21) == Some(Keycode::DpadLeft),
            Keycode::spec_from_code(22) == Some(Keycode::DpadRight),
            Keycode::spec_from_code(23) == Some(Keycode::DpadCenter),
            Keycode::spec_from_code(24) == Some(Keycode::VolumeUp),
            Keycode::spec_from_code(25) == Some(Keycode::VolumeDown),
            Keycode::spec_from_code(26) == Some(Keycode::Power),
            Keycode::spec_from_code(27) == Some(Keycode::Camera),
            Keycode::spec_from_code(28) == Some(Keycode::Clear),
            Keycode::spec_from_code(29) == Some(Keycode::A),
            Keycode::spec_from_code(30) == Some(Keycode::B),
            Keycode::spec_from_code(31) == Some(Keycode::C),
            Keycode::spec_from_code(32) == Some(Keycode::D),
            Keycode::spec_from_code(33) == Some(Keycode::E),
            Keycode::spec_from_code(34) == Some(Keycode::F),
            Keycode::spec_from_code(35) == Some(Keycode::G),
            Keycode::spec_from_code(36) == Some(Keycode::H),
            Keycode::spec_from_code(37) == Some(Keycode::I),
            Keycode::spec_from_code(38) == Some(Keycode::J),
            Keycode::spec_from_code(39) == Some(Keycode::K),
            Keycode::spec_from_code(40) == Some(Keycode::L),
            Keycode::spec_from_code(41) == Some(Keycode::M),
            Keycode::spec_from_code(42) == Some(Keycode::N),
            Keycode::spec_from_code(43) == Some(Keycode::O),
            Keycode::spec_from_code(44) == Some(Keycode::P),
            Keycode::spec_from_code(45) == Some(Keycode::Q),
            Keycode::spec_from_code(46) == Some(Keycode::R),
            Keycode::spec_from_code(47) == Some(Keycode::S),
            Keycode::spec_from_code(48) == Some(Keycode::T),
            Keycode::spec_from_code(49) == Some(Keycode::U),
            Keycode::spec_from_code(50) == Some(Keycode::V),
            Keycode::spec_from_code(51) == Some(Keycode::W),
            Keycode::spec_from_code(52) == Some(Keycode::X),
            Keycode::spec_from_code(53) == Some(Keycode::Y),
            Keycode::spec_from_code(54) == Some(Keycode::Z),
            Keycode::spec_from_code(55) == Some(Keycode::Comma),
            Keycode::spec_from_code(56) == Some(Keycode::Period),
            Keycode::spec_from_code(57) == Some(Keycode::AltLeft),
            Keycode::spec_from_code(58) == Some(Keycode::AltRight),
            Keycode::spec_from_code(59) == Some(Keycode::ShiftLeft),
            Keycode::spec_from_code(60) == Some(Keycode::ShiftRight),
            Keycode::spec_from_code(61) == Some(Keycode::Tab),
            Keycode::spec_from_code(62) == Some(Keycode::Space),
            Keycode::spec_from_code(63) == Some(Keycode::Sym),
            Keycode::spec_from_code(64) == Some(Keycode::Explorer),
            Keycode::spec_from_code(65) == Some(Keycode::Envelope),
            Keycode::spec_from_code(66) == Some(Keycode::Enter),
            Keycode::spec_from_code(67) == Some(Keycode::Del),
            Keycode::spec_from_code(68) == Some(Keycode::Grave),
            Keycode::spec_from_code(69) == Some(Keycode::Minus),
            Keycode::spec_from_code(70) == Some(Keycode::Equals),
            Keycode::spec_from_code(71) == Some(Keycode::LeftBracket),
            Keycode::spec_from_code(72) == Some(Keycode::RightBracket),
            Keycode::spec_from_code(73) == Some(Keycode::Backslash),
            Keycode::spec_from_code(74) == Some(Keycode::Semicolon),
            Keycode::spec_from_code(75) == Some(Keycode::Apostrophe),
            Keycode::spec_from_code(76) == Some(Keycode::Slash),
            Keycode::spec_from_code(77) == Some(Keycode::At),
            Keycode::spec_from_code(78) == Some(Keycode::Num),
            Keycode::spec_from_code(79) == Some(Keycode::Headsethook),
            Keycode::spec_from_code(80) == Some(Keycode::Focus),
            Keycode::spec_from_code(81) == Some(Keycode::Plus),
            Keycode::spec_from_code(82) == Some(Keycode::Menu),
            Keycode::spec_from_code(83) == Some(Keycode::Notification),
            Keycode::spec_from_code(84) == Some(Keycode::Search),
            Keycode::spec_from_code(85) == Some(Keycode::MediaPlayPause),
            Keycode::spec_from_code(86) == Some(Keycode::MediaStop),
            Keycode::spec_from_code(87) == Some(Keycode::MediaNext),
            Keycode::spec_from_code(88) == Some(Keycode::MediaPrevious),
            Keycode::spec_from_code(89) == Some(Keycode::MediaRewind),
            Keycode::spec_from_code(90) == Some(Keycode::MediaFastForward),
            Keycode::spec_from_code(91) == Some(Keycode::Mute),
            Keycode::spec_from_code(92) == Some(Keycode::PageUp),
            Keycode::spec_from_code(93) == Some(Keycode::PageDown),
            Keycode::spec_from_code(94) == Some(Keycode::Pictsymbols),
            Keycode::spec_from_code(95) == Some(Keycode::SwitchCharset),
            Keycode::spec_from_code(96) == Some(Keycode::ButtonA),
            Keycode::spec_from_code(97) == Some(Keycode::ButtonB),
            Keycode::spec_from_code(98) == Some(Keycode::ButtonC),
            Keycode::spec_from_code(99) == Some(Keycode::ButtonX),
            Keycode::spec_from_code(100) == Some(Keycode::ButtonY),
            Keycode::spec_from_code(101) == Some(Keycode::ButtonZ),
            Keycode::spec_from_code(102) == Some(Keycode::ButtonL1),
            Keycode::spec_from_code(103) == Some(Keycode::ButtonR1),
            Keycode::spec_from_code(104) == Some(Keycode::ButtonL2),
            Keycode::spec_from_code(105) == Some(Keycode::ButtonR2),
            Keycode::spec_from_code(106) == Some(Keycode::ButtonThumbl),
            Keycode::spec_from_code(107) == Some(Keycode::ButtonThumbr),
            Keycode::spec_from_code(108) == Some(Keycode::ButtonStart),
            Keycode::spec_from_code(109) == Some(Keycode::ButtonSelect),
            Keycode::spec_from_code(110) == Some(Keycode::ButtonMode),
            Keycode::spec_from_code(111) == Some(Keycode::Escape),
            Keycode::spec_from_code(112) == Some(Keycode::ForwardDel),
            Keycode::spec_from_code(113) == Some(Keycode::CtrlLeft),
            Keycode::spec_from_code(114) == Some(Keycode::CtrlRight),
            Keycode::spec_from_code(115) == Some(Keycode::CapsLock),
            Keycode::spec_from_code(116) == Some(Keycode::ScrollLock),
            Keycode::spec_from_code(117) == Some(Keycode::MetaLeft),
            Keycode::spec_from_code(118) == Some(Keycode::MetaRight),
            Keycode::spec_from_code(119) == Some(Keycode::Function),
            Keycode::spec_from_code(120) == Some(Keycode::Sysrq),
            Keycode::spec_from_code(121) == Some(Keycode::Break),
            Keycode::spec_from_code(122) == Some(Keycode::MoveHome),
            Keycode::spec_from_code(123) == Some(Keycode::MoveEnd),
            Keycode::spec_from_code(124) == Some(Keycode::Insert),
            Keycode::spec_from_code(125) == Some(Keycode::Forward),
            Keycode::spec_from_code(126) == Some(Keycode::MediaPlay),
            Keycode::spec_from_code(127) == Some(Keycode::MediaPause),
            Keycode::spec_from_code(128) == Some(Keycode::MediaClose),
            Keycode::spec_from_code(129) == Some(Keycode::MediaEject),
            Keycode::spec_from_code(130) == Some(Keycode::MediaRecord),
            Keycode::spec_from_code(131) == Some(Keycode::F1),
            Keycode::spec_from_code(132) == Some(Keycode::F2),
            Keycode::spec_from_code(133) == Some(Keycode::F3),
            Keycode::spec_from_code(134) == Some(Keycode::F4),
            Keycode::spec_from_code(135) == Some(Keycode::F5),
            Keycode::spec_from_code(136) == Some(Keycode::F6),
            Keycode::spec_from_code(137) == Some(Keycode::F7),
            Keycode::spec_from_code(138) == Some(Keycode::F8),
            Keycode::spec_from_code(139) == Some(Keycode::F9),
            Keycode::spec_from_code(140) == Some(Keycode::F10),
            Keycode::spec_from_code(141) == Some(Keycode::F11),
            Keycode::spec_from_code(142) == Some(Keycode::F12),
            Keycode::spec_from_code(143) == Some(Keycode::NumLock),
            Keycode::spec_from_code(144) == Some(Keycode::Numpad0),
            Keycode::spec_from_code(145) == Some(Keycode::Numpad1),
            Keycode::spec_from_code(146) == Some(Keycode::Numpad2),
            Keycode::spec_from_code(147) == Some(Keycode::Numpad3),
            Keycode::spec_from_code(148) == Some(Keycode::Numpad4),
            Keycode::spec_from_code(149) == Some(Keycode::Numpad5),
            Keycode::spec_from_code(150) == Some(Keycode::Numpad6),
            Keycode::spec_from_code(151) == Some(Keycode::Numpad7),
            Keycode::spec_from_code(152) == Some(Keycode::Numpad8),
            Keycode::spec_from_code(153) == Some(Keycode::Numpad9),
            Keycode::spec_from_code(154) == Some(Keycode::NumpadDivide),
            Keycode::spec_from_code(155) == Some(Keycode::NumpadMultiply),
            Keycode::spec_from_code(156) == Some(Keycode::NumpadSubtract),
            Keycode::spec_from_code(157) == Some(Keycode::NumpadAdd),
            Keycode::spec_from_code(158) == Some(Keycode::NumpadDot),
            Keycode::spec_from_code(159) == Some(Keycode::NumpadComma),
            Keycode::spec_from_code(160) == Some(Keycode::NumpadEnter),
            Keycode::spec_from_code(161) == Some(Keycode::NumpadEquals),
            Keycode::spec_from_code(162) == Some(Keycode::NumpadLeftParen),
            Keycode::spec_from_code(163) == Some(Keycode::NumpadRightParen),
            Keycode::spec_from_code(164) == Some(Keycode::VolumeMute),
            Keycode::spec_from_code(165) == Some(Keycode::Info),
            Keycode::spec_from_code(166) == Some(Keycode::ChannelUp),
            Keycode::spec_from_code(167) == Some(Keycode::ChannelDown),
            Keycode::spec_from_code(168) == Some(Keycode::ZoomIn),
            Keycode::spec_from_code(169) == Some(Keycode::ZoomOut),
            Keycode::spec_from_code(170) == Some(Keycode::Tv),
            Keycode::spec_from_code(171) == Some(Keycode::Window),
            Keycode::spec_from_code(172) == Some(Keycode::Guide),
            Keycode::spec_from_code(173) == Some(Keycode::Dvr),
            Keycode::spec_from_code(174) == Some(Keycode::Bookmark),
            Keycode::spec_from_code(175) == Some(Keycode::Captions),
            Keycode::spec_from_code(176) == Some(Keycode::Settings),
            Keycode::spec_from_code(177) == Some(Keycode::TvPower),
            Keycode::spec_from_code(178) == Some(Keycode::TvInput),
            Keycode::spec_from_code(179) == Some(Keycode::StbPower),
            Keycode::spec_from_code(180) == Some(Keycode::StbInput),
            Keycode::spec_from_code(181) == Some(Keycode::AvrPower),
            Keycode::spec_from_code(182) == Some(Keycode::AvrInput),
            Keycode::spec_from_code(183) == Some(Keycode::ProgRed),
            Keycode::spec_from_code(184) == Some(Keycode::ProgGreen),
            Keycode::spec_from_code(185) == Some(Keycode::ProgYellow),
            Keycode::spec_from_code(186) == Some(Keycode::ProgBlue),
            Keycode::spec_from_code(187) == Some(Keycode::AppSwitch),
            Keycode::spec_from_code(188) == Some(Keycode::Button1),
            Keycode::spec_from_code(189) == Some(Keycode::Button2),
            Keycode::spec_from_code(190) == Some(Keycode::Button3),
            Keycode::spec_from_code(191) == Some(Keycode::Button4),
            Keycode::spec_from_code(192) == Some(Keycode::Button5),
            Keycode::spec_from_code(193) == Some(Keycode::Button6),
            Keycode::spec_from_code(194) == Some(Keycode::Button7),
            Keycode::spec_from_code(195) == Some(Keycode::Button8),
            Keycode::spec_from_code(196) == Some(Keycode::Button9),
            Keycode::spec_from_code(197) == Some(Keycode::Button10),
            Keycode::spec_from_code(198) == Some(Keycode::Button11),
            Keycode::spec_from_code(199) == Some(Keycode::Button12),
            Keycode::spec_from_code(200) == Some(Keycode::Button13),
            Keycode::spec_from_code(201) == Some(Keycode::Button14),
            Keycode::spec_from_code(202) == Some(Keycode::Button15),
            Keycode::spec_from_code(203) == Some(Keycode::Button16),
            Keycode::spec_from_code(204) == Some(Keycode::LanguageSwitch),
            Keycode::spec_from_code(205) == Some(Keycode::MannerMode),
            Keycode::spec_from_code(206) == Some(Keycode::Keycode3dMode),
            Keycode::spec_from_code(207) == Some(Keycode::Contacts),
            Keycode::spec_from_code(208) == Some(Keycode::Calendar),
            Keycode::spec_from_code(209) == Some(Keycode::Music),
            Keycode::spec_from_code(210) == Some(Keycode::Calculator),
            Keycode::spec_from_code(211) == Some(Keycode::ZenkakuHankaku),
            Keycode::spec_from_code(212) == Some(Keycode::Eisu),
            Keycode::spec_from_code(213) == Some(Keycode::Muhenkan),
            Keycode::spec_from_code(214) == Some(Keycode::Henkan),
            Keycode::spec_from_code(215) == Some(Keycode::KatakanaHiragana),
            Keycode::spec_from_code(216) == Some(Keycode::Yen),
            Keycode::spec_from_code(217) == Some(Keycode::Ro),
            Keycode::spec_from_code(218) == Some(Keycode::Kana),
            Keycode::spec_from_code(219) == Some(Keycode::Assist),
            Keycode::spec_from_code(220) == Some(Keycode::BrightnessDown),
            Keycode::spec_from_code(221) == Some(Keycode::BrightnessUp),
            Keycode::spec_from_code(222) == Some(Keycode::MediaAudioTrack),
            Keycode::spec_from_code(223) == Some(Keycode::Sleep),
            Keycode::spec_from_code(224) == Some(Keycode::Wakeup),
            Keycode::spec_from_code(225) == Some(Keycode::Pairing),
            Keycode::spec_from_code(226) == Some(Keycode::MediaTopMenu),
            Keycode::spec_from_code(227) == Some(Keycode::Keycode11),
            Keycode::spec_from_code(228) == Some(Keycode::Keycode12),
            Keycode::spec_from_code(229) == Some(Keycode::LastChannel),
            Keycode::spec_from_code(230) == Some(Keycode::TvDataService),
            Keycode::spec_from_code(231) == Some(Keycode::VoiceAssist),
            Keycode::spec_from_code(232) == Some(Keycode::TvRadioService),
            Keycode::spec_from_code(233) == Some(Keycode::TvTeletext),
            Keycode::spec_from_code(234) == Some(Keycode::TvNumberEntry),
            Keycode::spec_from_code(235) == Some(Keycode::TvTerrestrialAnalog),
            Keycode::spec_from_code(236) == Some(Keycode::TvTerrestrialDigital),
            Keycode::spec_from_code(237) == Some(Keycode::TvSatellite),
            Keycode::spec_from_code(238) == Some(Keycode::TvSatelliteBs),
            Keycode::spec_from_code(239) == Some(Keycode::TvSatelliteCs),
            Keycode::spec_from_code(240) == Some(Keycode::TvSatelliteService),
            Keycode::spec_from_code(241) == Some(Keycode::TvNetwork),
            Keycode::spec_from_code(242) == Some(Keycode::TvAntennaCable),
            Keycode::spec_from_code(243) == Some(Keycode::TvInputHdmi1),
            Keycode::spec_from_code(244) == Some(Keycode::TvInputHdmi2),
            Keycode::spec_from_code(245) == Some(Keycode::TvInputHdmi3),
            Keycode::spec_from_code(246) == Some(Keycode::TvInputHdmi4),
            Keycode::spec_from_code(247) == Some(Keycode::TvInputComposite1),
            Keycode::spec_from_code(248) == Some(Keycode::TvInputComposite2),
            Keycode::spec_from_code(249) == Some(Keycode::TvInputComponent1),
            Keycode::spec_from_code(250) == Some(Keycode::TvInputComponent2),
            Keycode::spec_from_code(251) == Some(Keycode::TvInputVga1),
            Keycode::spec_from_code(252) == Some(Keycode::TvAudioDescription),
            Keycode::spec_from_code(253) == Some(Keycode::TvAudioDescriptionMixUp),
            Keycode::spec_from_code(254) == Some(Keycode::TvAudioDescriptionMixDown),
            Keycode::spec_from_code(255) == Some(Keycode::TvZoomMode),
            Keycode::spec_from_code(256) == Some(Keycode::TvContentsMenu),
            Keycode::spec_from_code(257) == Some(Keycode::TvMediaContextMenu),
            Keycode::spec_from_code(258) == Some(Keycode::TvTimerProgramming),
            Keycode::spec_from_code(259) == Some(Keycode::Help),
            Keycode::spec_from_code(260) == Some(Keycode::NavigatePrevious),
            Keycode::spec_from_code(261) == Some(Keycode::NavigateNext),
            Keycode::spec_from_code(262) == Some(Keycode::NavigateIn),
            Keycode::spec_from_code(263) == Some(Keycode::NavigateOut),
            Keycode::spec_from_code(264) == Some(Keycode::StemPrimary),
            Keycode::spec_from_code(265) == Some(Keycode::Stem1),
            Keycode::spec_from_code(266) == Some(Keycode::Stem2),
            Keycode::spec_from_code(267) == Some(Keycode::Stem3),
            Keycode::spec_from_code(268) == Some(Keycode::DpadUpLeft),
            Keycode::spec_from_code(269) == Some(Keycode::DpadDownLeft),
            Keycode::spec_from_code(270) == Some(Keycode::DpadUpRight),
            Keycode::spec_from_code(271) == Some(Keycode::DpadDownRight),
            Keycode::spec_from_code(272) == Some(Keycode::MediaSkipForward),
            Keycode::spec_from_code(273) == Some(Keycode::MediaSkipBackward),
            Keycode::spec_from_code(274) == Some(Keycode::MediaStepForward),
            Keycode::spec_from_code(275) == Some(Keycode::MediaStepBackward),
            Keycode::spec_from_code(276) == Some(Keycode::SoftSleep),
            Keycode::spec_from_code(277) == Some(Keycode::Cut),
            Keycode::spec_from_code(278) == Some(Keycode::Copy),
            Keycode::spec_from_code(279) == Some(Keycode::Paste),
            Keycode::spec_from_code(280) == Some(Keycode::SystemNavigationUp),
            Keycode::spec_from_code(281) == Some(Keycode::SystemNavigationDown),
            Keycode::spec_from_code(282) == Some(Keycode::SystemNavigationLeft),
            Keycode::spec_from_code(283) == Some(Keycode::SystemNavigationRight),
            Keycode::spec_from_code(284) == Some(Keycode::AllApps),
            Keycode::spec_from_code(285) == Some(Keycode::Refresh),
            Keycode::spec_from_code(286) == Some(Keycode::ThumbsUp),
            Keycode::spec_from_code(287) == Some(Keycode::ThumbsDown),
            Keycode::spec_from_code(288) == Some(Keycode::ProfileSwitch),
    {
    }
}

impl Keycode {
    /// The variant that the raw code `value` stands for, if any.
    pub fn try_from_raw(value: u32) -> (r: Option<Self>)
        ensures
            r == Self::spec_from_code(value as int),
    {
        match value {
            0 => Some(Keycode::Unknown),
            1 => Some(Keycode::SoftLeft),
            2 => Some(Keycode::SoftRight),
            3 => Some(Keycode::Home),
            4 => Some(Keycode::Back),
            5 => Some(Keycode::Call),
            6 => Some(Keycode::Endcall),
            7 => Some(Keycode::Keycode0),
            8 => Some(Keycode::Keycode1),
            9 => Some(Keycode::Keycode2),
            10 => Some(Keycode::Keycode3),
            11 => Some(Keycode::Keycode4),
            12 => Some(Keycode::Keycode5),
            13 => Some(Keycode::Keycode6),
            14 => Some(Keycode::Keycode7),
            15 => Some(Keycode::Keycode8),
            16 => Some(Keycode::Keycode9),
            17 => Some(Keycode::Star),
            18 => Some(Keycode::Pound),
            19 => Some(Keycode::DpadUp),
            20 => Some(Keycode::DpadDown),
            21 => Some(Keycode::DpadLeft),
            22 => Some(Keycode::DpadRight),
            23 => Some(Keycode::DpadCenter),
            24 => Some(Keycode::VolumeUp),
            25 => Some(Keycode::VolumeDown),
            26 => Some(Keycode::Power),
            27 => Some(Keycode::Camera),
            28 => Some(Keycode::Clear),
            29 => Some(Keycode::A),
            30 => Some(Keycode::B),
            31 => Some(Keycode::C),
            32 => Some(Keycode::D),
            33 => Some(Keycode::E),
            34 => Some(Keycode::F),
            35 => Some(Keycode::G),
            36 => Some(Keycode::H),
            37 => Some(Keycode::I),
            38 => Some(Keycode::J),
            39 => Some(Keycode::K),
            40 => Some(Keycode::L),
            41 => Some(Keycode::M),
            42 => Some(Keycode::N),
            43 => Some(Keycode::O),
            44 => Some(Keycode::P),
            45 => Some(Keycode::Q),
            46 => Some(Keycode::R),
            47 => Some(Keycode::S),
            48 => Some(Keycode::T),
            49 => Some(Keycode::U),
            50 => Some(Keycode::V),
            51 => Some(Keycode::W),
            52 => Some(Keycode::X),
            53 => Some(Keycode::Y),
            54 => Some(Keycode::Z),
            55 => Some(Keycode::Comma),
            56 => Some(Keycode::Period),
            57 => Some(Keycode::AltLeft),
            58 => Some(Keycode::AltRight),
            59 => Some(Keycode::ShiftLeft),
            60 => Some(Keycode::ShiftRight),
            61 => Some(Keycode::Tab),
            62 => Some(Keycode::Space),
            63 => Some(Keycode::Sym),
            64 => Some(Keycode::Explorer),
            65 => Some(Keycode::Envelope),
            66 => Some(Keycode::Enter),
            67 => Some(Keycode::Del),
            68 => Some(Keycode::Grave),
            69 => Some(Keycode::Minus),
            70 => Some(Keycode::Equals),
            71 => Some(Keycode::LeftBracket),
            72 => Some(Keycode::RightBracket),
            73 => Some(Keycode::Backslash),
            74 => Some(Keycode::Semicolon),
            75 => Some(Keycode::Apostrophe),
            76 => Some(Keycode::Slash),
            77 => Some(Keycode::At),
            78 => Some(Keycode::Num),
            79 => Some(Keycode::Headsethook),
            80 => Some(Keycode::Focus),
            81 => Some(Keycode::Plus),
            82 => Some(Keycode::Menu),
            83 => Some(Keycode::Notification),
            84 => Some(Keycode::Search),
            85 => Some(Keycode::MediaPlayPause),
            86 => Some(Keycode::MediaStop),
            87 => Some(Keycode::MediaNext),
            88 => Some(Keycode::MediaPrevious),
            89 => Some(Keycode::MediaRewind),
            90 => Some(Keycode::MediaFastForward),
            91 => Some(Keycode::Mute),
            92 => Some(Keycode::PageUp),
            93 => Some(Keycode::PageDown),
            94 => Some(Keycode::Pictsymbols),
            95 => Some(Keycode::SwitchCharset),
            96 => Some(Keycode::ButtonA),
            97 => Some(Keycode::ButtonB),
            98 => Some(Keycode::ButtonC),
            99 => Some(Keycode::ButtonX),
            100 => Some(Keycode::ButtonY),
            101 => Some(Keycode::ButtonZ),
            102 => Some(Keycode::ButtonL1),
            103 => Some(Keycode::ButtonR1),
            104 => Some(Keycode::ButtonL2),
            105 => Some(Keycode::ButtonR2),
            106 => Some(Keycode::ButtonThumbl),
            107 => Some(Keycode::ButtonThumbr),
            108 => Some(Keycode::ButtonStart),
            109 => Some(Keycode::ButtonSelect),
            110 => Some(Keycode::ButtonMode),
            111 => Some(Keycode::Escape),
            112 => Some(Keycode::ForwardDel),
            113 => Some(Keycode::CtrlLeft),
            114 => Some(Keycode::CtrlRight),
            115 => Some(Keycode::CapsLock),
            116 => Some(Keycode::ScrollLock),
            117 => Some(Keycode::MetaLeft),
            118 => Some(Keycode::MetaRight),
            119 => Some(Keycode::Function),
            120 => Some(Keycode::Sysrq),
            121 => Some(Keycode::Break),
            122 => Some(Keycode::MoveHome),
            123 => Some(Keycode::MoveEnd),
            124 => Some(Keycode::Insert),
            125 => Some(Keycode::Forward),
            126 => Some(Keycode::MediaPlay),
            127 => Some(Keycode::MediaPause),
            128 => Some(Keycode::MediaClose),
            129 => Some(Keycode::MediaEject),
            130 => Some(Keycode::MediaRecord),
            131 => Some(Keycode::F1),
            132 => Some(Keycode::F2),
            133 => Some(Keycode::F3),
            134 => Some(Keycode::F4),
            135 => Some(Keycode::F5),
            136 => Some(Keycode::F6),
            137 => Some(Keycode::F7),
            138 => Some(Keycode::F8),
            139 => Some(Keycode::F9),
            140 => Some(Keycode::F10),
            141 => Some(Keycode::F11),
            142 => Some(Keycode::F12),
            143 => Some(Keycode::NumLock),
            144 => Some(Keycode::Numpad0),
            145 => Some(Keycode::Numpad1),
            146 => Some(Keycode::Numpad2),
            147 => Some(Keycode::Numpad3),
            148 => Some(Keycode::Numpad4),
            149 => Some(Keycode::Numpad5),
            150 => Some(Keycode::Numpad6),
            151 => Some(Keycode::Numpad7),
            152 => Some(Keycode::Numpad8),
            153 => Some(Keycode::Numpad9),
            154 => Some(Keycode::NumpadDivide),
            155 => Some(Keycode::NumpadMultiply),
            156 => Some(Keycode::NumpadSubtract),
            157 => Some(Keycode::NumpadAdd),
            158 => Some(Keycode::NumpadDot),
            159 => Some(Keycode::NumpadComma),
            160 => Some(Keycode::NumpadEnter),
            161 => Some(Keycode::NumpadEquals),
            162 => Some(Keycode::NumpadLeftParen),
            163 => Some(Keycode::NumpadRightParen),
            164 => Some(Keycode::VolumeMute),
            165 => Some(Keycode::Info),
            166 => Some(Keycode::ChannelUp),
            167 => Some(Keycode::ChannelDown),
            168 => Some(Keycode::ZoomIn),
            169 => Some(Keycode::ZoomOut),
            170 => Some(Keycode::Tv),
            171 => Some(Keycode::Window),
            172 => Some(Keycode::Guide),
            173 => Some(Keycode::Dvr),
            174 => Some(Keycode::Bookmark),
            175 => Some(Keycode::Captions),
            176 => Some(Keycode::Settings),
            177 => Some(Keycode::TvPower),
            178 => Some(Keycode::TvInput),
            179 => Some(Keycode::StbPower),
            180 => Some(Keycode::StbInput),
            181 => Some(Keycode::AvrPower),
            182 => Some(Keycode::AvrInput),
            183 => Some(Keycode::ProgRed),
            184 => Some(Keycode::ProgGreen),
            185 => Some(Keycode::ProgYellow),
            186 => Some(Keycode::ProgBlue),
            187 => Some(Keycode::AppSwitch),
            188 => Some(Keycode::Button1),
            189 => Some(Keycode::Button2),
            190 => Some(Keycode::Button3),
            191 => Some(Keycode::Button4),
            192 => Some(Keycode::Button5),
            193 => Some(Keycode::Button6),
            194 => Some(Keycode::Button7),
            195 => Some(Keycode::Button8),
            196 => Some(Keycode::Button9),
            197 => Some(Keycode::Button10),
            198 => Some(Keycode::Button11),
            199 => Some(Keycode::Button12),
            200 => Some(Keycode::Button13),
            201 => Some(Keycode::Button14),
            202 => Some(Keycode::Button15),
            203 => Some(Keycode::Button16),
            204 => Some(Keycode::LanguageSwitch),
            205 => Some(Keycode::MannerMode),
            206 => Some(Keycode::Keycode3dMode),
            207 => Some(Keycode::Contacts),
            208 => Some(Keycode::Calendar),
            209 => Some(Keycode::Music),
            210 => Some(Keycode::Calculator),
            211 => Some(Keycode::ZenkakuHankaku),
            212 => Some(Keycode::Eisu),
            213 => Some(Keycode::Muhenkan),
            214 => Some(Keycode::Henkan),
            215 => Some(Keycode::KatakanaHiragana),
            216 => Some(Keycode::Yen),
            217 => Some(Keycode::Ro),
            218 => Some(Keycode::Kana),
            219 => Some(Keycode::Assist),
            220 => Some(Keycode::BrightnessDown),
            221 => Some(Keycode::BrightnessUp),
            222 => Some(Keycode::MediaAudioTrack),
            223 => Some(Keycode::Sleep),
            224 => Some(Keycode::Wakeup),
            225 => Some(Keycode::Pairing),
            226 => Some(Keycode::MediaTopMenu),
            227 => Some(Keycode::Keycode11),
            228 => Some(Keycode::Keycode12),
            229 => Some(Keycode::LastChannel),
            230 => Some(Keycode::TvDataService),
            231 => Some(Keycode::VoiceAssist),
            232 => Some(Keycode::TvRadioService),
            233 => Some(Keycode::TvTeletext),
            234 => Some(Keycode::TvNumberEntry),
            235 => Some(Keycode::TvTerrestrialAnalog),
            236 => Some(Keycode::TvTerrestrialDigital),
            237 => Some(Keycode::TvSatellite),
            238 => Some(Keycode::TvSatelliteBs),
            239 => Some(Keycode::TvSatelliteCs),
            240 => Some(Keycode::TvSatelliteService),
            241 => Some(Keycode::TvNetwork),
            242 => Some(Keycode::TvAntennaCable),
            243 => Some(Keycode::TvInputHdmi1),
            244 => Some(Keycode::TvInputHdmi2),
            245 => Some(Keycode::TvInputHdmi3),
            246 => Some(Keycode::TvInputHdmi4),
            247 => Some(Keycode::TvInputComposite1),
            248 => Some(Keycode::TvInputComposite2),
            249 => Some(Keycode::TvInputComponent1),
            250 => Some(Keycode::TvInputComponent2),
            251 => Some(Keycode::TvInputVga1),
            252 => Some(Keycode::TvAudioDescription),
            253 => Some(Keycode::TvAudioDescriptionMixUp),
            254 => Some(Keycode::TvAudioDescriptionMixDown),
            255 => Some(Keycode::TvZoomMode),
            256 => Some(Keycode::TvContentsMenu),
            257 => Some(Keycode::TvMediaContextMenu),
            258 => Some(Keycode::TvTimerProgramming),
            259 => Some(Keycode::Help),
            260 => Some(Keycode::NavigatePrevious),
            261 => Some(Keycode::NavigateNext),
            262 => Some(Keycode::NavigateIn),
            263 => Some(Keycode::NavigateOut),
            264 => Some(Keycode::StemPrimary),
            265 => Some(Keycode::Stem1),
            266 => Some(Keycode::Stem2),
            267 => Some(Keycode::Stem3),
            268 => Some(Keycode::DpadUpLeft),
            269 => Some(Keycode::DpadDownLeft),
            270 => Some(Keycode::DpadUpRight),
            271 => Some(Keycode::DpadDownRight),
            272 => Some(Keycode::MediaSkipForward),
            273 => Some(Keycode::MediaSkipBackward),
            274 => Some(Keycode::MediaStepForward),
            275 => Some(Keycode::MediaStepBackward),
            276 => Some(Keycode::SoftSleep),
            277 => Some(Keycode::Cut),
            278 => Some(Keycode::Copy),
            279 => Some(Keycode::Paste),
            280 => Some(Keycode::SystemNavigationUp),
            281 => Some(Keycode::SystemNavigationDown),
            282 => Some(Keycode::SystemNavigationLeft),
            283 => Some(Keycode::SystemNavigationRight),
            284 => Some(Keycode::AllApps),
            285 => Some(Keycode::Refresh),
            286 => Some(Keycode::ThumbsUp),
            287 => Some(Keycode::ThumbsDown),
            288 => Some(Keycode::ProfileSwitch),
            _ => None,
        }
    }

    /// The raw code of this variant.
    pub fn into_raw(self) -> (r: u32)
        ensures
            r as int == self.spec_code(),
    {
        match self {
            Keycode::Unknown => 0,
            Keycode::SoftLeft => 1,
            Keycode::SoftRight => 2,
            Keycode::Home => 3,
            Keycode::Back => 4,
            Keycode::Call => 5,
            Keycode::Endcall => 6,
            Keycode::Keycode0 => 7,
            Keycode::Keycode1 => 8,
            Keycode::Keycode2 => 9,
            Keycode::Keycode3 => 10,
            Keycode::Keycode4 => 11,
            Keycode::Keycode5 => 12,
            Keycode::Keycode6 => 13,
            Keycode::Keycode7 => 14,
            Keycode::Keycode8 => 15,
            Keycode::Keycode9 => 16,
            Keycode::Star => 17,
            Keycode::Pound => 18,
            Keycode::DpadUp => 19,
            Keycode::DpadDown => 20,
            Keycode::DpadLeft => 21,
            Keycode::DpadRight => 22,
            Keycode::DpadCenter => 23,
            Keycode::VolumeUp => 24,
            Keycode::VolumeDown => 25,
            Keycode::Power => 26,
            Keycode::Camera => 27,
            Keycode::Clear => 28,
            Keycode::A => 29,
            Keycode::B => 30,
            Keycode::C => 31,
            Keycode::D => 32,
            Keycode::E => 33,
            Keycode::F => 34,
            Keycode::G => 35,
            Keycode::H => 36,
            Keycode::I => 37,
            Keycode::J => 38,
            Keycode::K => 39,
            Keycode::L => 40,
            Keycode::M => 41,
            Keycode::N => 42,
            Keycode::O => 43,
            Keycode::P => 44,
            Keycode::Q => 45,
            Keycode::R => 46,
            Keycode::S => 47,
            Keycode::T => 48,
            Keycode::U => 49,
            Keycode::V => 50,
            Keycode::W => 51,
            Keycode::X => 52,
            Keycode::Y => 53,
            Keycode::Z => 54,
            Keycode::Comma => 55,
            Keycode::Period => 56,
            Keycode::AltLeft => 57,
            Keycode::AltRight => 58,
            Keycode::ShiftLeft => 59,
            Keycode::ShiftRight => 60,
            Keycode::Tab => 61,
            Keycode::Space => 62,
            Keycode::Sym => 63,
            Keycode::Explorer => 64,
            Keycode::Envelope => 65,
            Keycode::Enter => 66,
            Keycode::Del => 67,
            Keycode::Grave => 68,
            Keycode::Minus => 69,
            Keycode::Equals => 70,
            Keycode::LeftBracket => 71,
            Keycode::RightBracket => 72,
            Keycode::Backslash => 73,
            Keycode::Semicolon => 74,
            Keycode::Apostrophe => 75,
            Keycode::Slash => 76,
            Keycode::At => 77,
            Keycode::Num => 78,
            Keycode::Headsethook => 79,
            Keycode::Focus => 80,
            Keycode::Plus => 81,
            Keycode::Menu => 82,
            Keycode::Notification => 83,
            Keycode::Search => 84,
            Keycode::MediaPlayPause => 85,
            Keycode::MediaStop => 86,
            Keycode::MediaNext => 87,
            Keycode::MediaPrevious => 88,
            Keycode::MediaRewind => 89,
            Keycode::MediaFastForward => 90,
            Keycode::Mute => 91,
            Keycode::PageUp => 92,
            Keycode::PageDown => 93,
            Keycode::Pictsymbols => 94,
            Keycode::SwitchCharset => 95,
            Keycode::ButtonA => 96,
            Keycode::ButtonB => 97,
            Keycode::ButtonC => 98,
            Keycode::ButtonX => 99,
            Keycode::ButtonY => 100,
            Keycode::ButtonZ => 101,
            Keycode::ButtonL1 => 102,
            Keycode::ButtonR1 => 103,
            Keycode::ButtonL2 => 104,
            Keycode::ButtonR2 => 105,
            Keycode::ButtonThumbl => 106,
            Keycode::ButtonThumbr => 107,
            Keycode::ButtonStart => 108,
            Keycode::ButtonSelect => 109,
            Keycode::ButtonMode => 110,
            Keycode::Escape => 111,
            Keycode::ForwardDel => 112,
            Keycode::CtrlLeft => 113,
            Keycode::CtrlRight => 114,
            Keycode::CapsLock => 115,
            Keycode::ScrollLock => 116,
            Keycode::MetaLeft => 117,
            Keycode::MetaRight => 118,
            Keycode::Function => 119,
            Keycode::Sysrq => 120,
            Keycode::Break => 121,
            Keycode::MoveHome => 122,
            Keycode::MoveEnd => 123,
            Keycode::Insert => 124,
            Keycode::Forward => 125,
            Keycode::MediaPlay => 126,
            Keycode::MediaPause => 127,
            Keycode::MediaClose => 128,
            Keycode::MediaEject => 129,
            Keycode::MediaRecord => 130,
            Keycode::F1 => 131,
            Keycode::F2 => 132,
            Keycode::F3 => 133,
            Keycode::F4 => 134,
            Keycode::F5 => 135,
            Keycode::F6 => 136,
            Keycode::F7 => 137,
            Keycode::F8 => 138,
            Keycode::F9 => 139,
            Keycode::F10 => 140,
            Keycode::F11 => 141,
            Keycode::F12 => 142,
            Keycode::NumLock => 143,
            Keycode::Numpad0 => 144,
            Keycode::Numpad1 => 145,
            Keycode::Numpad2 => 146,
            Keycode::Numpad3 => 147,
            Keycode::Numpad4 => 148,
            Keycode::Numpad5 => 149,
            Keycode::Numpad6 => 150,
            Keycode::Numpad7 => 151,
            Keycode::Numpad8 => 152,
            Keycode::Numpad9 => 153,
            Keycode::NumpadDivide => 154,
            Keycode::NumpadMultiply => 155,
            Keycode::NumpadSubtract => 156,
            Keycode::NumpadAdd => 157,
            Keycode::NumpadDot => 158,
            Keycode::NumpadComma => 159,
            Keycode::NumpadEnter => 160,
            Keycode::NumpadEquals => 161,
            Keycode::NumpadLeftParen => 162,
            Keycode::NumpadRightParen => 163,
            Keycode::VolumeMute => 164,
            Keycode::Info => 165,
            Keycode::ChannelUp => 166,
            Keycode::ChannelDown => 167,
            Keycode::ZoomIn => 168,
            Keycode::ZoomOut => 169,
            Keycode::Tv => 170,
            Keycode::Window => 171,
            Keycode::Guide => 172,
            Keycode::Dvr => 173,
            Keycode::Bookmark => 174,
            Keycode::Captions => 175,
            Keycode::Settings => 176,
            Keycode::TvPower => 177,
            Keycode::TvInput => 178,
            Keycode::StbPower => 179,
            Keycode::StbInput => 180,
            Keycode::AvrPower => 181,
            Keycode::AvrInput => 182,
            Keycode::ProgRed => 183,
            Keycode::ProgGreen => 184,
            Keycode::ProgYellow => 185,
            Keycode::ProgBlue => 186,
            Keycode::AppSwitch => 187,
            Keycode::Button1 => 188,
            Keycode::Button2 => 189,
            Keycode::Button3 => 190,
            Keycode::Button4 => 191,
            Keycode::Button5 => 192,
            Keycode::Button6 => 193,
            Keycode::Button7 => 194,
            Keycode::Button8 => 195,
            Keycode::Button9 => 196,
            Keycode::Button10 => 197,
            Keycode::Button11 => 198,
            Keycode::Button12 => 199,
            Keycode::Button13 => 200,
            Keycode::Button14 => 201,
            Keycode::Button15 => 202,
            Keycode::Button16 => 203,
            Keycode::LanguageSwitch => 204,
            Keycode::MannerMode => 205,
            Keycode::Keycode3dMode => 206,
            Keycode::Contacts => 207,
            Keycode::Calendar => 208,
            Keycode::Music => 209,
            Keycode::Calculator => 210,
            Keycode::ZenkakuHankaku => 211,
            Keycode::Eisu => 212,
            Keycode::Muhenkan => 213,
            Keycode::Henkan => 214,
            Keycode::KatakanaHiragana => 215,
            Keycode::Yen => 216,
            Keycode::Ro => 217,
            Keycode::Kana => 218,
            Keycode::Assist => 219,
            Keycode::BrightnessDown => 220,
            Keycode::BrightnessUp => 221,
            Keycode::MediaAudioTrack => 222,
            Keycode::Sleep => 223,
            Keycode::Wakeup => 224,
            Keycode::Pairing => 225,
            Keycode::MediaTopMenu => 226,
            Keycode::Keycode11 => 227,
            Keycode::Keycode12 => 228,
            Keycode::LastChannel => 229,
            Keycode::TvDataService => 230,
            Keycode::VoiceAssist => 231,
            Keycode::TvRadioService => 232,
            Keycode::TvTeletext => 233,
            Keycode::TvNumberEntry => 234,
            Keycode::TvTerrestrialAnalog => 235,
            Keycode::TvTerrestrialDigital => 236,
            Keycode::TvSatellite => 237,
            Keycode::TvSatelliteBs => 238,
            Keycode::TvSatelliteCs => 239,
            Keycode::TvSatelliteService => 240,
            Keycode::TvNetwork => 241,
            Keycode::TvAntennaCable => 242,
            Keycode::TvInputHdmi1 => 243,
            Keycode::TvInputHdmi2 => 244,
            Keycode::TvInputHdmi3 => 245,
            Keycode::TvInputHdmi4 => 246,
            Keycode::TvInputComposite1 => 247,
            Keycode::TvInputComposite2 => 248,
            Keycode::TvInputComponent1 => 249,
            Keycode::TvInputComponent2 => 250,
            Keycode::TvInputVga1 => 251,
            Keycode::TvAudioDescription => 252,
            Keycode::TvAudioDescriptionMixUp => 253,
            Keycode::TvAudioDescriptionMixDown => 254,
            Keycode::TvZoomMode => 255,
            Keycode::TvContentsMenu => 256,
            Keycode::TvMediaContextMenu => 257,
            Keycode::TvTimerProgramming => 258,
            Keycode::Help => 259,
            Keycode::NavigatePrevious => 260,
            Keycode::NavigateNext => 261,
            Keycode::NavigateIn => 262,
            Keycode::NavigateOut => 263,
            Keycode::StemPrimary => 264,
            Keycode::Stem1 => 265,
            Keycode::Stem2 => 266,
            Keycode::Stem3 => 267,
            Keycode::DpadUpLeft => 268,
            Keycode::DpadDownLeft => 269,
            Keycode::DpadUpRight => 270,
            Keycode::DpadDownRight => 271,
            Keycode::MediaSkipForward => 272,
            Keycode::MediaSkipBackward => 273,
            Keycode::MediaStepForward => 274,
            Keycode::MediaStepBackward => 275,
            Keycode::SoftSleep => 276,
            Keycode::Cut => 277,
            Keycode::Copy => 278,
            Keycode::Paste => 279,
            Keycode::SystemNavigationUp => 280,
            Keycode::SystemNavigationDown => 281,
            Keycode::SystemNavigationLeft => 282,
            Keycode::SystemNavigationRight => 283,
            Keycode::AllApps => 284,
            Keycode::Refresh => 285,
            Keycode::ThumbsUp => 286,
            Keycode::ThumbsDown => 287,
            Keycode::ProfileSwitch => 288,
        }
    }
}

/// The bit of `MetaState::alt_on`.
pub const AMETA_ALT_ON: u32 = 2;

/// The bit of `MetaState::alt_left_on`.
pub const AMETA_ALT_LEFT_ON: u32 = 16;

/// The bit of `MetaState::alt_right_on`.
pub const AMETA_ALT_RIGHT_ON: u32 = 32;

/// The bit of `MetaState::shift_on`.
pub const AMETA_SHIFT_ON: u32 = 1;

/// The bit of `MetaState::shift_left_on`.
pub const AMETA_SHIFT_LEFT_ON: u32 = 64;

/// The bit of `MetaState::shift_right_on`.
pub const AMETA_SHIFT_RIGHT_ON: u32 = 128;

/// The bit of `MetaState::sym_on`.
pub const AMETA_SYM_ON: u32 = 4;

/// The bit of `MetaState::function_on`.
pub const AMETA_FUNCTION_ON: u32 = 8;

/// The bit of `MetaState::ctrl_on`.
pub const AMETA_CTRL_ON: u32 = 4096;

/// The bit of `MetaState::ctrl_left_on`.
pub const AMETA_CTRL_LEFT_ON: u32 = 8192;

/// The bit of `MetaState::ctrl_right_on`.
pub const AMETA_CTRL_RIGHT_ON: u32 = 16384;

/// The bit of `MetaState::meta_on`.
pub const AMETA_META_ON: u32 = 65536;

/// The bit of `MetaState::meta_left_on`.
pub const AMETA_META_LEFT_ON: u32 = 131072;

/// The bit of `MetaState::meta_right_on`.
pub const AMETA_META_RIGHT_ON: u32 = 262144;

/// The bit of `MetaState::caps_lock_on`.
pub const AMETA_CAPS_LOCK_ON: u32 = 1048576;

/// The bit of `MetaState::num_lock_on`.
pub const AMETA_NUM_LOCK_ON: u32 = 2097152;

/// The bit of `MetaState::scroll_lock_on`.
pub const AMETA_SCROLL_LOCK_ON: u32 = 4194304;

/// The state of the meta keys (such as shift and alt) when an input event happened.
#[derive(Copy, Clone, Debug, PartialEq, Eq, Structural)]
pub struct MetaState(pub u32);

impl MetaState {
    pub fn alt_on(self) -> (r: bool)
        ensures
            r == (self.0 & AMETA_ALT_ON != 0),
    {
        self.0 & AMETA_ALT_ON != 0
    }

    pub fn alt_left_on(self) -> (r: bool)
        ensures
            r == (self.0 & AMETA_ALT_LEFT_ON != 0),
    {
        self.0 & AMETA_ALT_LEFT_ON != 0
    }

    pub fn alt_right_on(self) -> (r: bool)
        ensures
            r == (self.0 & AMETA_ALT_RIGHT_ON != 0),
    {
        self.0 & AMETA_ALT_RIGHT_ON != 0
    }

    pub fn shift_on(self) -> (r: bool)
        ensures
            r == (self.0 & AMETA_SHIFT_ON != 0),
    {
        self.0 & AMETA_SHIFT_ON != 0
    }

    pub fn shift_left_on(self) -> (r: bool)
        ensures
            r == (self.0 & AMETA_SHIFT_LEFT_ON != 0),
    {
        self.0 & AMETA_SHIFT_LEFT_ON != 0
    }

    pub fn shift_right_on(self) -> (r: bool)
        ensures
            r == (self.0 & AMETA_SHIFT_RIGHT_ON != 0),
    {
        self.0 & AMETA_SHIFT_RIGHT_ON != 0
    }

    pub fn sym_on(self) -> (r: bool)
        ensures
            r == (self.0 & AMETA_SYM_ON != 0),
    {
        self.0 & AMETA_SYM_ON != 0
    }

    pub fn function_on(self) -> (r: bool)
        ensures
            r == (self.0 & AMETA_FUNCTION_ON != 0),
    {
        self.0 & AMETA_FUNCTION_ON != 0
    }

    pub fn ctrl_on(self) -> (r: bool)
        ensures
            r == (self.0 & AMETA_CTRL_ON != 0),
    {
        self.0 & AMETA_CTRL_ON != 0
    }

    pub fn ctrl_left_on(self) -> (r: bool)
        ensures
            r == (self.0 & AMETA_CTRL_LEFT_ON != 0),
    {
        self.0 & AMETA_CTRL_LEFT_ON != 0
    }

    pub fn ctrl_right_on(self) -> (r: bool)
        ensures
            r == (self.0 & AMETA_CTRL_RIGHT_ON != 0),
    {
        self.0 & AMETA_CTRL_RIGHT_ON != 0
    }

    pub fn meta_on(self) -> (r: bool)
        ensures
            r == (self.0 & AMETA_META_ON != 0),
    {
        self.0 & AMETA_META_ON != 0
    }

    pub fn meta_left_on(self) -> (r: bool)
        ensures
            r == (self.0 & AMETA_META_LEFT_ON != 0),
    {
        self.0 & AMETA_META_LEFT_ON != 0
    }

    pub fn meta_right_on(self) -> (r: bool)
        ensures
            r == (self.0 & AMETA_META_RIGHT_ON != 0),
    {
        self.0 & AMETA_META_RIGHT_ON != 0
    }

    pub fn caps_lock_on(self) -> (r: bool)
        ensures
            r == (self.0 & AMETA_CAPS_LOCK_ON != 0),
    {
        self.0 & AMETA_CAPS_LOCK_ON != 0
    }

    pub fn num_lock_on(self) -> (r: bool)
        ensures
            r == (self.0 & AMETA_NUM_LOCK_ON != 0),
    {
        self.0 & AMETA_NUM_LOCK_ON != 0
    }

    pub fn scroll_lock_on(self) -> (r: bool)
        ensures
            r == (self.0 & AMETA_SCROLL_LOCK_ON != 0),
    {
        self.0 & AMETA_SCROLL_LOCK_ON != 0
    }
}

/// The bit of `ButtonState::primary`.
pub const AMOTION_EVENT_BUTTON_PRIMARY: u32 = 1;

/// The bit of `ButtonState::secondary`.
pub const AMOTION_EVENT_BUTTON_SECONDARY: u32 = 2;

/// The bit of `ButtonState::teriary`.
pub const AMOTION_EVENT_BUTTON_TERTIARY: u32 = 4;

/// The bit of `ButtonState::back`.
pub const AMOTION_EVENT_BUTTON_BACK: u32 = 8;

/// The bit of `ButtonState::forward`.
pub const AMOTION_EVENT_BUTTON_FORWARD: u32 = 16;

/// The bit of `ButtonState::stylus_primary`.
pub const AMOTION_EVENT_BUTTON_STYLUS_PRIMARY: u32 = 32;

/// The bit of `ButtonState::stylus_secondary`.
pub const AMOTION_EVENT_BUTTON_STYLUS_SECONDARY: u32 = 64;

/// The state of the buttons of a motion event.
#[derive(Copy, Clone, Debug, PartialEq, Eq, Structural)]
pub struct ButtonState(pub u32);

impl ButtonState {
    pub fn primary(self) -> (r: bool)
        ensures
            r == (self.0 & AMOTION_EVENT_BUTTON_PRIMARY != 0),
    {
        self.0 & AMOTION_EVENT_BUTTON_PRIMARY != 0
    }

    pub fn secondary(self) -> (r: bool)
        ensures
            r == (self.0 & AMOTION_EVENT_BUTTON_SECONDARY != 0),
    {
        self.0 & AMOTION_EVENT_BUTTON_SECONDARY != 0
    }

    pub fn teriary(self) -> (r: bool)
        ensures
            r == (self.0 & AMOTION_EVENT_BUTTON_TERTIARY != 0),
    {
        self.0 & AMOTION_EVENT_BUTTON_TERTIARY != 0
    }

    pub fn back(self) -> (r: bool)
        ensures
            r == (self.0 & AMOTION_EVENT_BUTTON_BACK != 0),
    {
        self.0 & AMOTION_EVENT_BUTTON_BACK != 0
    }

    pub fn forward(self) -> (r: bool)
        ensures
            r == (self.0 & AMOTION_EVENT_BUTTON_FORWARD != 0),
    {
        self.0 & AMOTION_EVENT_BUTTON_FORWARD != 0
    }

    pub fn stylus_primary(self) -> (r: bool)
        ensures
            r == (self.0 & AMOTION_EVENT_BUTTON_STYLUS_PRIMARY != 0),
    {
        self.0 & AMOTION_EVENT_BUTTON_STYLUS_PRIMARY != 0
    }

    pub fn stylus_secondary(self) -> (r: bool)
        ensures
            r == (self.0 & AMOTION_EVENT_BUTTON_STYLUS_SECONDARY != 0),
    {
        self.0 & AMOTION_EVENT_BUTTON_STYLUS_SECONDARY != 0
    }
}

/// The bit of `EdgeFlags::top`.
pub const AMOTION_EVENT_EDGE_FLAG_TOP: u32 = 1;

/// The bit of `EdgeFlags::bottom`.
pub const AMOTION_EVENT_EDGE_FLAG_BOTTOM: u32 = 2;

/// The bit of `EdgeFlags::left`.
pub const AMOTION_EVENT_EDGE_FLAG_LEFT: u32 = 4;

/// The bit of `EdgeFlags::right`.
pub const AMOTION_EVENT_EDGE_FLAG_RIGHT: u32 = 8;

/// The screen edges that a motion event touched.
#[derive(Copy, Clone, Debug, PartialEq, Eq, Structural)]
pub struct EdgeFlags(pub u32);

impl EdgeFlags {
    pub fn top(self) -> (r: bool)
        ensures
            r == (self.0 & AMOTION_EVENT_EDGE_FLAG_TOP != 0),
    {
        self.0 & AMOTION_EVENT_EDGE_FLAG_TOP != 0
    }

    pub fn bottom(self) -> (r: bool)
        ensures
            r == (self.0 & AMOTION_EVENT_EDGE_FLAG_BOTTOM != 0),
    {
        self.0 & AMOTION_EVENT_EDGE_FLAG_BOTTOM != 0
    }

    pub fn left(self) -> (r: bool)
        ensures
            r == (self.0 & AMOTION_EVENT_EDGE_FLAG_LEFT != 0),
    {
        self.0 & AMOTION_EVENT_EDGE_FLAG_LEFT != 0
    }

    pub fn right(self) -> (r: bool)
        ensures
            r == (self.0 & AMOTION_EVENT_EDGE_FLAG_RIGHT != 0),
    {
        self.0 & AMOTION_EVENT_EDGE_FLAG_RIGHT != 0
    }
}

/// The bit of `MotionEventFlags::window_is_obscured`.
pub const AMOTION_EVENT_FLAG_WINDOW_IS_OBSCURED: u32 = 1;

/// The flags of a motion event.
#[derive(Copy, Clone, Debug, PartialEq, Eq, Structural)]
pub struct MotionEventFlags(pub u32);

impl MotionEventFlags {
    pub fn window_is_obscured(self) -> (r: bool)
        ensures
            r == (self.0 & AMOTION_EVENT_FLAG_WINDOW_IS_OBSCURED != 0),
    {
        self.0 & AMOTION_EVENT_FLAG_WINDOW_IS_OBSCURED != 0
    }
}

/// The bit of `KeyEventFlags::cancelled`.
pub const AKEY_EVENT_FLAG_CANCELED: u32 = 32;

/// The bit of `KeyEventFlags::cancelled_long_press`.
pub const AKEY_EVENT_FLAG_CANCELED_LONG_PRESS: u32 = 256;

/// The bit of `KeyEventFlags::editor_action`.
pub const AKEY_EVENT_FLAG_EDITOR_ACTION: u32 = 16;

/// The bit of `KeyEventFlags::fallback`.
pub const AKEY_EVENT_FLAG_FALLBACK: u32 = 1024;

/// The bit of `KeyEventFlags::from_system`.
pub const AKEY_EVENT_FLAG_FROM_SYSTEM: u32 = 8;

/// The bit of `KeyEventFlags::keep_touch_mode`.
pub const AKEY_EVENT_FLAG_KEEP_TOUCH_MODE: u32 = 4;

/// The bit of `KeyEventFlags::long_press`.
pub const AKEY_EVENT_FLAG_LONG_PRESS: u32 = 128;

/// The bit of `KeyEventFlags::soft_keyboard`.
pub const AKEY_EVENT_FLAG_SOFT_KEYBOARD: u32 = 2;

/// The bit of `KeyEventFlags::tracking`.
pub const AKEY_EVENT_FLAG_TRACKING: u32 = 512;

/// The bit of `KeyEventFlags::virtual_hard_key`.
pub const AKEY_EVENT_FLAG_VIRTUAL_HARD_KEY: u32 = 64;

/// The bit of `KeyEventFlags::woke_here`.
pub const AKEY_EVENT_FLAG_WOKE_HERE: u32 = 1;

/// The flags of a key event.
#[derive(Copy, Clone, Debug, PartialEq, Eq, Structural)]
pub struct KeyEventFlags(pub u32);

impl KeyEventFlags {
    pub fn cancelled(&self) -> (r: bool)
        ensures
            r == (self.0 & AKEY_EVENT_FLAG_CANCELED != 0),
    {
        self.0 & AKEY_EVENT_FLAG_CANCELED != 0
    }

    pub fn cancelled_long_press(&self) -> (r: bool)
        ensures
            r == (self.0 & AKEY_EVENT_FLAG_CANCELED_LONG_PRESS != 0),
    {
        self.0 & AKEY_EVENT_FLAG_CANCELED_LONG_PRESS != 0
    }

    pub fn editor_action(&self) -> (r: bool)
        ensures
            r == (self.0 & AKEY_EVENT_FLAG_EDITOR_ACTION != 0),
    {
        self.0 & AKEY_EVENT_FLAG_EDITOR_ACTION != 0
    }

    pub fn fallback(&self) -> (r: bool)
        ensures
            r == (self.0 & AKEY_EVENT_FLAG_FALLBACK != 0),
    {
        self.0 & AKEY_EVENT_FLAG_FALLBACK != 0
    }

    pub fn from_system(&self) -> (r: bool)
        ensures
            r == (self.0 & AKEY_EVENT_FLAG_FROM_SYSTEM != 0),
    {
        self.0 & AKEY_EVENT_FLAG_FROM_SYSTEM != 0
    }

    pub fn keep_touch_mode(&self) -> (r: bool)
        ensures
            r == (self.0 & AKEY_EVENT_FLAG_KEEP_TOUCH_MODE != 0),
    {
        self.0 & AKEY_EVENT_FLAG_KEEP_TOUCH_MODE != 0
    }

    pub fn long_press(&self) -> (r: bool)
        ensures
            r == (self.0 & AKEY_EVENT_FLAG_LONG_PRESS != 0),
    {
        self.0 & AKEY_EVENT_FLAG_LONG_PRESS != 0
    }

    pub fn soft_keyboard(&self) -> (r: bool)
        ensures
            r == (self.0 & AKEY_EVENT_FLAG_SOFT_KEYBOARD != 0),
    {
        self.0 & AKEY_EVENT_FLAG_SOFT_KEYBOARD != 0
    }

    pub fn tracking(&self) -> (r: bool)
        ensures
            r == (self.0 & AKEY_EVENT_FLAG_TRACKING != 0),
    {
        self.0 & AKEY_EVENT_FLAG_TRACKING != 0
    }

    pub fn virtual_hard_key(&self) -> (r: bool)
        ensures
            r == (self.0 & AKEY_EVENT_FLAG_VIRTUAL_HARD_KEY != 0),
    {
        self.0 & AKEY_EVENT_FLAG_VIRTUAL_HARD_KEY != 0
    }

    pub fn woke_here(&self) -> (r: bool)
        ensures
            r == (self.0 & AKEY_EVENT_FLAG_WOKE_HERE != 0),
    {
        self.0 & AKEY_EVENT_FLAG_WOKE_HERE != 0
    }
}

/// The mask of the action code within a motion event's action.
pub const AMOTION_EVENT_ACTION_MASK: u32 = 0xff;

/// The mask of the pointer index within a motion event's action.
pub const AMOTION_EVENT_ACTION_POINTER_INDEX_MASK: u32 = 0xff00;

/// How far the pointer index is shifted within a motion event's action.
pub const AMOTION_EVENT_ACTION_POINTER_INDEX_SHIFT: u32 = 8;

/// The source of an input event; a source that names no variant is `Unknown`.
pub fn source_from_raw(source: i32) -> (r: Source)
    ensures
        Source::spec_from_code((source as u32) as int) is Some ==> Some(r) == Source::spec_from_code(
            (source as u32) as int,
        ),
        Source::spec_from_code((source as u32) as int) is None ==> r == Source::Unknown,
{
    match Source::try_from_raw(source as u32) {
        Some(s) => s,
        None => Source::Unknown,
    }
}

/// The action code of a motion event's raw action: the bits under the action mask, which must
/// name a `MotionAction`.
pub fn motion_action_from_raw(action: i32) -> (r: MotionAction)
    requires
        MotionAction::spec_from_code(((action as u32) & AMOTION_EVENT_ACTION_MASK) as int) is Some,
    ensures
        Some(r) == MotionAction::spec_from_code(((action as u32) & AMOTION_EVENT_ACTION_MASK) as int),
{
    match MotionAction::try_from_raw((action as u32) & AMOTION_EVENT_ACTION_MASK) {
        Some(a) => a,
        None => MotionAction::Down,
    }
}

/// The pointer index of a motion event's raw action, which is meaningful for the pointer-down
/// and pointer-up actions.
pub fn pointer_index_from_raw(action: i32) -> (r: usize)
    ensures
        r == (((action as u32) & AMOTION_EVENT_ACTION_POINTER_INDEX_MASK)
            >> AMOTION_EVENT_ACTION_POINTER_INDEX_SHIFT) as usize,
        r < 256,
{
    let bits = action as u32;
    let index = (bits & AMOTION_EVENT_ACTION_POINTER_INDEX_MASK) >> AMOTION_EVENT_ACTION_POINTER_INDEX_SHIFT;
    assert(index < 256) by (bit_vector)
        requires
            index == (bits & 0xff00u32) >> 8u32,
    ;
    index as usize
}

/// The action of a key event's raw action, which must name a `KeyAction`.
pub fn key_action_from_raw(action: i32) -> (r: KeyAction)
    requires
        KeyAction::spec_from_code((action as u32) as int) is Some,
    ensures
        Some(r) == KeyAction::spec_from_code((action as u32) as int),
{
    match KeyAction::try_from_raw(action as u32) {
        Some(a) => a,
        None => KeyAction::Down,
    }
}

/// The key code of a key event; a code that names no variant is `Unknown`.
pub fn keycode_from_raw(keycode: i32) -> (r: Keycode)
    ensures
        Keycode::spec_from_code((keycode as u32) as int) is Some ==> Some(r) == Keycode::spec_from_code(
            (keycode as u32) as int,
        ),
        Keycode::spec_from_code((keycode as u32) as int) is None ==> r == Keycode::Unknown,
{
    match Keycode::try_from_raw(keycode as u32) {
        Some(k) => k,
        None => Keycode::Unknown,
    }
}

/// The indices of the pointers of a motion event that an iteration still has to hand out, in
/// increasing order.
#[derive(Debug)]
pub struct PointersIter {
    next_index: usize,
    count: usize,
}

impl PointersIter {
    #[verifier::type_invariant]
    closed spec fn inv(self) -> bool {
        self.next_index <= self.count
    }

    /// The pointer indices still to come.
    pub closed spec fn remaining(self) -> Seq<usize> {
        Seq::new((self.count - self.next_index) as nat, |i: int| (self.next_index + i) as usize)
    }

    /// An iteration over the pointers `0..count`.
    pub fn new(count: usize) -> (r: Self)
        ensures
            r.remaining() == Seq::new(count as nat, |i: int| i as usize),
    {
        let r = PointersIter { next_index: 0, count };
        assert(r.remaining() =~= Seq::new(count as nat, |i: int| i as usize));
        r
    }

    /// Hands out the next pointer index, if any is left.
    pub fn next(&mut self) -> (r: Option<usize>)
        ensures
            old(self).remaining().len() == 0 ==> r is None && final(self).remaining() == old(
                self,
            ).remaining(),
            old(self).remaining().len() > 0 ==> r == Some(old(self).remaining()[0])
                && final(self).remaining() == old(self).remaining().drop_first(),
    {
        proof {
            use_type_invariant(&*self);
        }
        if self.next_index < self.count {
            let index = self.next_index;
            self.next_index = self.next_index + 1;
            assert(self.remaining() =~= old(self).remaining().drop_first());
            Some(index)
        } else {
            None
        }
    }

    /// The number of pointer indices still to come.
    pub fn len(&self) -> (r: usize)
        ensures
            r == self.remaining().len(),
    {
        proof {
            use_type_invariant(self);
        }
        self.count - self.next_index
    }
}

/// The indices of the historical events of a motion event that an iteration still has to hand
/// out, from either end.
#[derive(Debug)]
pub struct HistoricalMotionEventsIter {
    next_history_index: usize,
    history_size: usize,
}

impl HistoricalMotionEventsIter {
    #[verifier::type_invariant]
    closed spec fn inv(self) -> bool {
        self.next_history_index <= self.history_size
    }

    /// The history indices still to come, in increasing order.
    pub closed spec fn remaining(self) -> Seq<usize> {
        Seq::new(
            (self.history_size - self.next_history_index) as nat,
            |i: int| (self.next_history_index + i) as usize,
        )
    }

    /// An iteration over the history indices `0..history_size`.
    pub fn new(history_size: usize) -> (r: Self)
        ensures
            r.remaining() == Seq::new(history_size as nat, |i: int| i as usize),
    {
        let r = HistoricalMotionEventsIter { next_history_index: 0, history_size };
        assert(r.remaining() =~= Seq::new(history_size as nat, |i: int| i as usize));
        r
    }

    /// Hands out the lowest history index still to come, if any is left.
    pub fn next(&mut self) -> (r: Option<usize>)
        ensures
            old(self).remaining().len() == 0 ==> r is None && final(self).remaining() == old(
                self,
            ).remaining(),
            old(self).remaining().len() > 0 ==> r == Some(old(self).remaining()[0])
                && final(self).remaining() == old(self).remaining().drop_first(),
    {
        proof {
            use_type_invariant(&*self);
        }
        if self.next_history_index < self.history_size {
            let index = self.next_history_index;
            self.next_history_index = self.next_history_index + 1;
            assert(self.remaining() =~= old(self).remaining().drop_first());
            Some(index)
        } else {
            None
        }
    }

    /// Hands out the highest history index still to come, if any is left.
    pub fn next_back(&mut self) -> (r: Option<usize>)
        ensures
            old(self).remaining().len() == 0 ==> r is None && final(self).remaining() == old(
                self,
            ).remaining(),
            old(self).remaining().len() > 0 ==> r == Some(old(self).remaining().last())
                && final(self).remaining() == old(self).remaining().drop_last(),
    {
        proof {
            use_type_invariant(&*self);
        }
        if self.next_history_index < self.history_size {
            self.history_size = self.history_size - 1;
            assert(self.remaining() =~= old(self).remaining().drop_last());
            Some(self.history_size)
        } else {
            None
        }
    }

    /// The number of history indices still to come.
    pub fn len(&self) -> (r: usize)
        ensures
            r == self.remaining().len(),
    {
        proof {
            use_type_invariant(self);
        }
        self.history_size - self.next_history_index
    }
}

/// What a walk over the history indices hands out, call by call, and the indices still to come
/// after it: `ends[k]` says whether the `k`-th call is `next` (`true`) or `next_back` (`false`),
/// and each call takes what its contract gives from the indices still to come.
pub open spec fn spec_history_walk(remaining: Seq<usize>, ends: Seq<bool>) -> (Seq<Option<usize>>, Seq<usize>)
    decreases ends.len(),
{
    if ends.len() == 0 {
        (Seq::empty(), remaining)
    } else {
        let step: (Option<usize>, Seq<usize>) = if remaining.len() == 0 {
            (None, remaining)
        } else if ends[0] {
            (Some(remaining[0]), remaining.drop_first())
        } else {
            (Some(remaining.last()), remaining.drop_last())
        };
        let tail = spec_history_walk(step.1, ends.drop_first());
        (seq![step.0] + tail.0, tail.1)
    }
}

/// How many of the first `k` calls of a walk are `next` calls.
pub open spec fn spec_front_calls(ends: Seq<bool>, k: int) -> int
    decreases k,
{
    if k <= 0 || ends.len() == 0 {
        0
    } else {
        (if ends[0] { 1int } else { 0int }) + spec_front_calls(ends.drop_first(), k - 1)
    }
}

/// The indices `lo..hi`, in increasing order.
spec fn spec_index_range(lo: int, hi: int) -> Seq<usize> {
    Seq::new((hi - lo) as nat, |i: int| (lo + i) as usize)
}

/// Counting one more call adds one exactly where that call is a `next` call.
proof fn lemma_front_calls_step(ends: Seq<bool>, k: int)
    requires
        0 <= k < ends.len(),
    ensures
        spec_front_calls(ends, k + 1) == spec_front_calls(ends, k) + (if ends[k] { 1int } else { 0int }),
        0 <= spec_front_calls(ends, k) <= k,
    decreases k,
{
    let rest = ends.drop_first();
    assert(spec_front_calls(ends, k + 1) == (if ends[0] { 1int } else { 0int }) + spec_front_calls(
        rest,
        k,
    ));
    if k > 0 {
        lemma_front_calls_step(rest, k - 1);
        assert(rest[k - 1] == ends[k]);
        assert(spec_front_calls(ends, k) == (if ends[0] { 1int } else { 0int }) + spec_front_calls(
            rest,
            k - 1,
        ));
    }
}

/// The numbers of `next` calls and of `next_back` calls both grow with the number of calls.
proof fn lemma_front_calls_monotone(ends: Seq<bool>, a: int, b: int)
    requires
        0 <= a <= b <= ends.len(),
    ensures
        0 <= spec_front_calls(ends, a) <= spec_front_calls(ends, b),
        a - spec_front_calls(ends, a) <= b - spec_front_calls(ends, b),
        spec_front_calls(ends, b) <= b,
    decreases b - a,
{
    if a < b {
        lemma_front_calls_monotone(ends, a, b - 1);
        lemma_front_calls_step(ends, b - 1);
    } else if b > 0 {
        lemma_front_calls_step(ends, b - 1);
    }
}

/// A walk over the indices `lo..hi`: the `k`-th call hands out the next index from the front or
/// from the back while any is left, and `None` afterwards.
proof fn lemma_walk_range(lo: int, hi: int, ends: Seq<bool>)
    requires
        0 <= lo <= hi <= usize::MAX,
    ensures
        ({
            let walk = spec_history_walk(spec_index_range(lo, hi), ends);
            let m = if hi - lo < ends.len() { hi - lo } else { ends.len() as int };
            &&& walk.0.len() == ends.len()
            &&& forall|k: int|
                0 <= k < m ==> walk.0[k] == Some(
                    (if ends[k] {
                        lo + spec_front_calls(ends, k)
                    } else {
                        hi - 1 - (k - spec_front_calls(ends, k))
                    }) as usize,
                )
            &&& forall|k: int| m <= k < ends.len() ==> walk.0[k] is None
            &&& walk.1 == spec_index_range(
                lo + spec_front_calls(ends, m),
                hi - (m - spec_front_calls(ends, m)),
            )
        }),
    decreases ends.len(),
{
    let range = spec_index_range(lo, hi);
    if ends.len() == 0 {
        return;
    }
    let rest_ends = ends.drop_first();
    let m = if hi - lo < ends.len() { hi - lo } else { ends.len() as int };
    let walk = spec_history_walk(range, ends);
    if hi == lo {
        lemma_walk_range(lo, hi, rest_ends);
        let tail = spec_history_walk(range, rest_ends);
        assert(walk.0 == seq![None::<usize>] + tail.0);
        assert forall|k: int| m <= k < ends.len() implies walk.0[k] is None by {
            if k > 0 {
                assert(walk.0[k] == tail.0[k - 1]);
            }
        }
    } else if ends[0] {
        let rest = spec_index_range(lo + 1, hi);
        assert(range.drop_first() =~= rest);
        lemma_walk_range(lo + 1, hi, rest_ends);
        let tail = spec_history_walk(rest, rest_ends);
        assert(walk.0 == seq![Some(lo as usize)] + tail.0);
        assert forall|k: int| 0 <= k < m implies walk.0[k] == Some(
            (if ends[k] {
                lo + spec_front_calls(ends, k)
            } else {
                hi - 1 - (k - spec_front_calls(ends, k))
            }) as usize,
        ) by {
            if k > 0 {
                assert(walk.0[k] == tail.0[k - 1]);
                assert(rest_ends[k - 1] == ends[k]);
                assert(spec_front_calls(ends, k) == 1 + spec_front_calls(rest_ends, k - 1));
            }
        }
        assert forall|k: int| m <= k < ends.len() implies walk.0[k] is None by {
            assert(walk.0[k] == tail.0[k - 1]);
        }
        assert(spec_front_calls(ends, m) == 1 + spec_front_calls(rest_ends, m - 1));
    } else {
        let rest = spec_index_range(lo, hi - 1);
        assert(range.drop_last() =~= rest);
        lemma_walk_range(lo, hi - 1, rest_ends);
        let tail = spec_history_walk(rest, rest_ends);
        assert(walk.0 == seq![Some((hi - 1) as usize)] + tail.0);
        assert forall|k: int| 0 <= k < m implies walk.0[k] == Some(
            (if ends[k] {
                lo + spec_front_calls(ends, k)
            } else {
                hi - 1 - (k - spec_front_calls(ends, k))
            }) as usize,
        ) by {
            if k > 0 {
                assert(walk.0[k] == tail.0[k - 1]);
                assert(rest_ends[k - 1] == ends[k]);
                assert(spec_front_calls(ends, k) == spec_front_calls(rest_ends, k - 1));
            }
        }
        assert forall|k: int| m <= k < ends.len() implies walk.0[k] is None by {
            assert(walk.0[k] == tail.0[k - 1]);
        }
        assert(spec_front_calls(ends, m) == spec_front_calls(rest_ends, m - 1));
    }
}

/// Any walk over the history of a motion event with `n` historical events, in any order of
/// `next` and `next_back` calls: while indices are left, a `next` call hands out the lowest one
/// (counting up from 0, oldest first) and a `next_back` call the highest one (counting down from
/// `n - 1`); once all `n` are handed out, every call gives `None`. The indices still to come are
/// those between the two ends, so their number is the number not yet handed out; no index is
/// handed out twice, and every index taken from the front lies below every index taken from
/// the back.
pub proof fn lemma_history_walk(n: usize, ends: Seq<bool>)
    ensures
        ({
            let walk = spec_history_walk(Seq::new(n as nat, |i: int| i as usize), ends);
            let m = if n < ends.len() { n as int } else { ends.len() as int };
            &&& walk.0.len() == ends.len()
            &&& forall|k: int|
                0 <= k < m ==> walk.0[k] == Some(
                    (if ends[k] {
                        spec_front_calls(ends, k)
                    } else {
                        n - 1 - (k - spec_front_calls(ends, k))
                    }) as usize,
                )
            &&& forall|k: int| m <= k < ends.len() ==> walk.0[k] is None
            &&& walk.1 == Seq::new(
                (n - m) as nat,
                |i: int| (spec_front_calls(ends, m) + i) as usize,
            )
            &&& forall|k1: int, k2: int|
                0 <= k1 < k2 < m ==> walk.0[k1] != walk.0[k2]
            &&& forall|k1: int, k2: int|
                0 <= k1 < m && 0 <= k2 < m && ends[k1] && !ends[k2] ==> walk.0[k1]->0 < walk.0[k2]->0
        }),
{
    let start = Seq::new(n as nat, |i: int| i as usize);
    assert(start =~= spec_index_range(0, n as int));
    lemma_walk_range(0, n as int, ends);
    let walk = spec_history_walk(start, ends);
    let m = if n < ends.len() { n as int } else { ends.len() as int };
    lemma_front_calls_monotone(ends, m, m);
    assert(walk.1 =~= Seq::new((n - m) as nat, |i: int| (spec_front_calls(ends, m) + i) as usize));
    assert forall|k1: int, k2: int|
        0 <= k1 < m && 0 <= k2 < m && ends[k1] && !ends[k2] implies walk.0[k1]->0 < walk.0[k2]->0 by {
        lemma_front_calls_step(ends, k1);
        lemma_front_calls_step(ends, k2);
        lemma_front_calls_monotone(ends, k1 + 1, m);
        lemma_front_calls_monotone(ends, k2 + 1, m);
    }
    assert forall|k1: int, k2: int| 0 <= k1 < k2 < m implies walk.0[k1] != walk.0[k2] by {
        lemma_front_calls_step(ends, k1);
        lemma_front_calls_step(ends, k2);
        lemma_front_calls_monotone(ends, k1 + 1, k2);
        lemma_front_calls_monotone(ends, k1 + 1, m);
        lemma_front_calls_monotone(ends, k2 + 1, m);
    }
}

/// The indices of the pointers of one historical event that an iteration still has to hand
/// out, in increasing order.
#[derive(Debug)]
pub struct HistoricalPointersIter {
    history_index: usize,
    next_pointer_index: usize,
    pointer_count: usize,
}

impl HistoricalPointersIter {
    #[verifier::type_invariant]
    closed spec fn inv(self) -> bool {
        self.next_pointer_index <= self.pointer_count
    }

    /// The pointer indices still to come.
    pub closed spec fn remaining(self) -> Seq<usize> {
        Seq::new(
            (self.pointer_count - self.next_pointer_index) as nat,
            |i: int| (self.next_pointer_index + i) as usize,
        )
    }

    /// The historical event whose pointers are handed out.
    pub closed spec fn spec_history_index(self) -> usize {
        self.history_index
    }

    /// An iteration over the pointers `0..pointer_count` of the historical event
    /// `history_index`.
    pub fn new(history_index: usize, pointer_count: usize) -> (r: Self)
        ensures
            r.remaining() == Seq::new(pointer_count as nat, |i: int| i as usize),
            r.spec_history_index() == history_index,
    {
        let r = HistoricalPointersIter { history_index, next_pointer_index: 0, pointer_count };
        assert(r.remaining() =~= Seq::new(pointer_count as nat, |i: int| i as usize));
        r
    }

    /// The historical event whose pointers are handed out.
    pub fn history_index(&self) -> (r: usize)
        ensures
            r == self.spec_history_index(),
    {
        self.history_index
    }

    /// Hands out the next pointer index, if any is left.
    pub fn next(&mut self) -> (r: Option<usize>)
        ensures
            old(self).remaining().len() == 0 ==> r is None && final(self).remaining() == old(
                self,
            ).remaining(),
            old(self).remaining().len() > 0 ==> r == Some(old(self).remaining()[0])
                && final(self).remaining() == old(self).remaining().drop_first(),
            final(self).spec_history_index() == old(self).spec_history_index(),
    {
        proof {
            use_type_invariant(&*self);
        }
        if self.next_pointer_index < self.pointer_count {
            let index = self.next_pointer_index;
            self.next_pointer_index = self.next_pointer_index + 1;
            assert(self.remaining() =~= old(self).remaining().drop_first());
            Some(index)
        } else {
            None
        }
    }

    /// The number of pointer indices still to come.
    pub fn len(&self) -> (r: usize)
        ensures
            r == self.remaining().len(),
    {
        proof {
            use_type_invariant(self);
        }
        self.pointer_count - self.next_pointer_index
    }
}

/// The NDK's constants used here have the values that its headers give them.
pub proof fn lemma_ndk_constants()
    ensures
        AMETA_ALT_ON == 2,
        AMETA_ALT_LEFT_ON == 16,
        AMETA_ALT_RIGHT_ON == 32,
        AMETA_SHIFT_ON == 1,
        AMETA_SHIFT_LEFT_ON == 64,
        AMETA_SHIFT_RIGHT_ON == 128,
        AMETA_SYM_ON == 4,
        AMETA_FUNCTION_ON == 8,
        AMETA_CTRL_ON == 4096,
        AMETA_CTRL_LEFT_ON == 8192,
        AMETA_CTRL_RIGHT_ON == 16384,
        AMETA_META_ON == 65536,
        AMETA_META_LEFT_ON == 131072,
        AMETA_META_RIGHT_ON == 262144,
        AMETA_CAPS_LOCK_ON == 1048576,
        AMETA_NUM_LOCK_ON == 2097152,
        AMETA_SCROLL_LOCK_ON == 4194304,
        AMOTION_EVENT_BUTTON_PRIMARY == 1,
        AMOTION_EVENT_BUTTON_SECONDARY == 2,
        AMOTION_EVENT_BUTTON_TERTIARY == 4,
        AMOTION_EVENT_BUTTON_BACK == 8,
        AMOTION_EVENT_BUTTON_FORWARD == 16,
        AMOTION_EVENT_BUTTON_STYLUS_PRIMARY == 32,
        AMOTION_EVENT_BUTTON_STYLUS_SECONDARY == 64,
        AMOTION_EVENT_EDGE_FLAG_TOP == 1,
        AMOTION_EVENT_EDGE_FLAG_BOTTOM == 2,
        AMOTION_EVENT_EDGE_FLAG_LEFT == 4,
        AMOTION_EVENT_EDGE_FLAG_RIGHT == 8,
        AMOTION_EVENT_FLAG_WINDOW_IS_OBSCURED == 1,
        AKEY_EVENT_FLAG_CANCELED == 32,
        AKEY_EVENT_FLAG_CANCELED_LONG_PRESS == 256,
        AKEY_EVENT_FLAG_EDITOR_ACTION == 16,
        AKEY_EVENT_FLAG_FALLBACK == 1024,
        AKEY_EVENT_FLAG_FROM_SYSTEM == 8,
        AKEY_EVENT_FLAG_KEEP_TOUCH_MODE == 4,
        AKEY_EVENT_FLAG_LONG_PRESS == 128,
        AKEY_EVENT_FLAG_SOFT_KEYBOARD == 2,
        AKEY_EVENT_FLAG_TRACKING == 512,
        AKEY_EVENT_FLAG_VIRTUAL_HARD_KEY == 64,
        AKEY_EVENT_FLAG_WOKE_HERE == 1,
        AMOTION_EVENT_ACTION_MASK == 0xff,
        AMOTION_EVENT_ACTION_POINTER_INDEX_MASK == 0xff00,
        AMOTION_EVENT_ACTION_POINTER_INDEX_SHIFT == 8,
{
}

} // verus!
