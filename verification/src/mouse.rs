//! The PS/2 mouse packet decoder: a byte-by-byte state machine.
//!
//! The device first acknowledges with 0xfa, then streams packets of
//! three bytes. The first byte carries the button bits and the sign
//! flags and must match the fixed pattern that keeps the stream in sync;
//! the other two are the x and y movements, sign-extended through the
//! flags in byte 0. Reading the bytes from the controller port and
//! drawing the pointer are the caller's side.

use vstd::prelude::*;

verus! {

/// The three mouse buttons, decoded from bits 2:0 of a packet's first
/// byte.
#[derive(Debug, Clone, Copy, PartialEq, Eq, Structural)]
pub struct MouseButtons {
    pub left: bool,
    pub center: bool,
    pub right: bool,
}

impl MouseButtons {
    pub fn new() -> (r: Self)
        ensures
            r == (MouseButtons { left: false, center: false, right: false }),
    {
        Self { left: false, right: false, center: false }
    }

    pub fn purse_data(data: u32) -> (r: Self)
        ensures
            r == spec_buttons(data),
    {
        Self { left: data & 0x01u32 != 0, right: data & 0x02u32 != 0, center: data & 0x04u32 != 0 }
    }
}

/// The buttons encoded in a packet's first byte: left is bit 0, right is
/// bit 1, center is bit 2.
pub open spec fn spec_buttons(data: u32) -> MouseButtons {
    MouseButtons { left: data & 0x01u32 != 0, center: data & 0x04u32 != 0, right: data & 0x02u32 != 0 }
}

/// How many bytes of the current packet have arrived, or that the
/// acknowledge byte is still awaited.
#[derive(Debug, Clone, Copy, PartialEq, Eq, Structural)]
pub enum DevicePhase {
    Init,
    NoData,
    OneData,
    TwoData,
    ThreeData,
}

/// A decoded movement, in screen coordinates: y grows downwards, so the
/// device's y movement comes out negated.
#[derive(Debug, Clone, Copy, PartialEq, Eq, Structural)]
pub struct Coord {
    pub x: isize,
    pub y: isize,
}

/// The mathematical state of the decoder.
pub struct DeviceView {
    pub data: Seq<u32>,
    pub phase: DevicePhase,
    pub speed_x: i32,
    pub speed_y: i32,
    pub buttons: MouseButtons,
}

/// A byte that starts a packet: bits 7:6 clear and bit 3 set, the
/// pattern that keeps the decoder in sync with the stream.
pub open spec fn spec_correct_first_byte(data: u32) -> bool {
    data & 0xc8u32 == 0x08u32
}

/// One step of the byte state machine: the acknowledge 0xfa arms the
/// decoder, a valid first byte opens a packet, the next two bytes fill
/// it, and a full packet absorbs nothing more until it is parsed.
pub open spec fn spec_put_data(v: DeviceView, data: u32) -> DeviceView {
    match v.phase {
        DevicePhase::Init => if data == 0xfau32 {
            DeviceView { phase: DevicePhase::NoData, ..v }
        } else {
            v
        },
        DevicePhase::NoData => if spec_correct_first_byte(data) {
            DeviceView { data: v.data.update(0, data), phase: DevicePhase::OneData, ..v }
        } else {
            v
        },
        DevicePhase::OneData => DeviceView {
            data: v.data.update(1, data),
            phase: DevicePhase::TwoData,
            ..v
        },
        DevicePhase::TwoData => DeviceView {
            data: v.data.update(2, data),
            phase: DevicePhase::ThreeData,
            ..v
        },
        DevicePhase::ThreeData => v,
    }
}

/// A stored byte sign-extended through its flag: with the flag set the
/// byte means `b - 256`, otherwise `b` itself.
pub open spec fn spec_extended(flag: bool, b: u32) -> int {
    if flag {
        b - 256
    } else {
        b as int
    }
}

/// Parsing a full packet: buttons from byte 0, x from byte 1 extended
/// through flag bit 4, y from byte 2 extended through flag bit 5 and
/// negated into screen coordinates; the decoder then waits for the next
/// packet's first byte.
pub open spec fn spec_purse_data(v: DeviceView) -> DeviceView {
    DeviceView {
        data: v.data,
        phase: DevicePhase::NoData,
        speed_x: spec_extended(v.data[0] & 0x10u32 != 0, v.data[1]) as i32,
        speed_y: (-spec_extended(v.data[0] & 0x20u32 != 0, v.data[2])) as i32,
        buttons: spec_buttons(v.data[0]),
    }
}

/// The byte-stream decoder for one mouse device.
#[derive(Debug)]
pub struct Device {
    data_from_device: [u32; 3],
    phase: DevicePhase,
    speed_x: i32,
    speed_y: i32,
    buttons: MouseButtons,
}

impl View for Device {
    type V = DeviceView;

    closed spec fn view(&self) -> DeviceView {
        DeviceView {
            data: self.data_from_device@,
            phase: self.phase,
            speed_x: self.speed_x,
            speed_y: self.speed_y,
            buttons: self.buttons,
        }
    }
}

impl Device {
    /// The stored bytes came off an 8-bit port, so each is below 256.
    pub open spec fn wf(&self) -> bool {
        &&& self@.data.len() == 3
        &&& forall|i: int| 0 <= i < 3 ==> self@.data[i] <= 0xffu32
    }

    pub fn new() -> (r: Self)
        ensures
            r.wf(),
            r@.data =~= seq![0u32, 0u32, 0u32],
            r@.phase == DevicePhase::Init,
            r@.speed_x == 0,
            r@.speed_y == 0,
            r@.buttons == (MouseButtons { left: false, center: false, right: false }),
    {
        Self {
            data_from_device: [0u32, 0u32, 0u32],
            phase: DevicePhase::Init,
            speed_x: 0,
            speed_y: 0,
            buttons: MouseButtons::new(),
        }
    }

    /// A full packet is ready to parse.
    pub fn data_available(&self) -> (r: bool)
        ensures
            r <==> self@.phase == DevicePhase::ThreeData,
    {
        self.phase == DevicePhase::ThreeData
    }

    /// Feeds one byte from the device into the state machine. The byte
    /// comes off an 8-bit data port.
    pub fn put_data(&mut self, data: u32)
        requires
            old(self).wf(),
            data <= 0xffu32,
        ensures
            final(self).wf(),
            final(self)@ == spec_put_data(old(self)@, data),
    {
        match self.phase {
            DevicePhase::Init => {
                if data == 0xfau32 {
                    self.phase = DevicePhase::NoData;
                }
            },
            DevicePhase::NoData => {
                if Self::is_correct_first_byte_from_device(data) {
                    self.data_from_device[0] = data;
                    self.phase = DevicePhase::OneData;
                }
            },
            DevicePhase::OneData => {
                self.data_from_device[1] = data;
                self.phase = DevicePhase::TwoData;
            },
            DevicePhase::TwoData => {
                self.data_from_device[2] = data;
                self.phase = DevicePhase::ThreeData;
            },
            DevicePhase::ThreeData => {},
        }
    }

    pub fn is_correct_first_byte_from_device(data: u32) -> (r: bool)
        ensures
            r == spec_correct_first_byte(data),
    {
        data & 0xc8u32 == 0x08u32
    }

    fn clear_stack(&mut self)
        ensures
            final(self)@ == (DeviceView { phase: DevicePhase::NoData, ..old(self)@ }),
    {
        self.phase = DevicePhase::NoData;
    }

    /// Parses the stored packet into buttons and movement, exactly as
    /// `spec_purse_data` says, and arms the decoder for the next packet.
    pub fn purse_data(&mut self)
        requires
            old(self).wf(),
        ensures
            final(self).wf(),
            final(self)@ == spec_purse_data(old(self)@),
    {
        self.buttons = MouseButtons::purse_data(self.data_from_device[0]);
        let b1 = self.data_from_device[1];
        let b2 = self.data_from_device[2];
        let mut sx: i32 = b1 as i32;
        let mut sy: i32 = b2 as i32;

        if self.data_from_device[0] & 0x10u32 != 0 {
            assert(b1 <= 0xffu32 ==> ((b1 | 0xffffff00u32) as i32) == b1 - 256) by (bit_vector);
            sx = ((sx as u32) | 0xffffff00u32) as i32;
        }

        if self.data_from_device[0] & 0x20u32 != 0 {
            assert(b2 <= 0xffu32 ==> ((b2 | 0xffffff00u32) as i32) == b2 - 256) by (bit_vector);
            sy = ((sy as u32) | 0xffffff00u32) as i32;
        }

        self.speed_x = sx;
        self.speed_y = -sy;

        self.clear_stack();
    }

    /// The last parsed movement.
    pub fn get_speed(&self) -> (r: Coord)
        ensures
            r.x == self@.speed_x as isize,
            r.y == self@.speed_y as isize,
    {
        Coord { x: self.speed_x as isize, y: self.speed_y as isize }
    }

    pub fn buttons(&self) -> (r: MouseButtons)
        ensures
            r == self@.buttons,
    {
        self.buttons
    }
}

} // verus!
