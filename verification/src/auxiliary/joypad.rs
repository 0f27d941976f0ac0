use vstd::prelude::*;

verus! {

pub const JOYPAD_ADDR: u16 = 0xFF00;

pub const A_OR_RIGHT_BIT: u8 = 0x00;
pub const B_OR_LEFT_BIT: u8 = 0x01;
pub const SELECT_OR_UP_BIT: u8 = 0x02;
pub const START_OR_DOWN_BIT: u8 = 0x03;

pub const SELECT_DIRECTIONS_BIT: u8 = 0x04;
pub const SELECT_ACTIONS_BIT: u8 = 0x05;

#[derive(Debug, Clone, Copy, PartialEq, Eq, Structural)]
pub enum JoypadButton {
    Start,
    Select,
    A,
    B,
    Up,
    Down,
    Left,
    Right,
}

/// The four button lines read through P1: a pressed button reads as 0.
pub open spec fn lines(b0: bool, b1: bool, b2: bool, b3: bool) -> u8 {
    (if b0 { 0u8 } else { 1u8 }) | (if b1 { 0u8 } else { 2u8 }) | (if b2 { 0u8 } else { 4u8 })
        | (if b3 { 0u8 } else { 8u8 })
}

/// FF00 — P1/JOYP: the buttons' state and which group is selected.
#[derive(Debug, Clone, Copy, Default, PartialEq, Eq, Structural)]
pub struct Joypad {
    pub start: bool,
    pub select: bool,
    pub a: bool,
    pub b: bool,
    pub up: bool,
    pub down: bool,
    pub left: bool,
    pub right: bool,
    pub directions_selected: bool,
    pub actions_selected: bool,
}

/// The byte P1 reads as: the action buttons when they are selected, else
/// the directions when those are selected, else 0xCF.
pub open spec fn joypad_byte(j: Joypad) -> u8 {
    if j.actions_selected {
        lines(j.a, j.b, j.select, j.start)
    } else if j.directions_selected {
        lines(j.right, j.left, j.up, j.down)
    } else {
        0xCF
    }
}

/// The joypad after a button changed state.
pub open spec fn joypad_after(j: Joypad, button: JoypadButton, is_pressed: bool) -> Joypad {
    match button {
        JoypadButton::Start => Joypad { start: is_pressed, ..j },
        JoypadButton::Select => Joypad { select: is_pressed, ..j },
        JoypadButton::A => Joypad { a: is_pressed, ..j },
        JoypadButton::B => Joypad { b: is_pressed, ..j },
        JoypadButton::Up => Joypad { up: is_pressed, ..j },
        JoypadButton::Down => Joypad { down: is_pressed, ..j },
        JoypadButton::Left => Joypad { left: is_pressed, ..j },
        JoypadButton::Right => Joypad { right: is_pressed, ..j },
    }
}

/// The joypad with nothing pressed and nothing selected.
pub open spec fn released() -> Joypad {
    Joypad {
        start: false,
        select: false,
        a: false,
        b: false,
        up: false,
        down: false,
        left: false,
        right: false,
        directions_selected: false,
        actions_selected: false,
    }
}

impl Joypad {
    pub fn handle(&mut self, button: JoypadButton, is_pressed: bool)
        ensures
            *final(self) == joypad_after(*old(self), button, is_pressed),
    {
        match button {
            JoypadButton::Start => self.start = is_pressed,
            JoypadButton::Select => self.select = is_pressed,
            JoypadButton::A => self.a = is_pressed,
            JoypadButton::B => self.b = is_pressed,
            JoypadButton::Up => self.up = is_pressed,
            JoypadButton::Down => self.down = is_pressed,
            JoypadButton::Left => self.left = is_pressed,
            JoypadButton::Right => self.right = is_pressed,
        }
    }

    pub fn get_byte(&self) -> (r: u8)
        ensures
            r == joypad_byte(*self),
    {
        if self.actions_selected {
            (if self.a { 0u8 } else { 1u8 }) | (if self.b { 0u8 } else { 2u8 }) | (if self.select {
                0u8
            } else {
                4u8
            }) | (if self.start { 0u8 } else { 8u8 })
        } else if self.directions_selected {
            (if self.right { 0u8 } else { 1u8 }) | (if self.left { 0u8 } else { 2u8 }) | (
            if self.up {
                0u8
            } else {
                4u8
            }) | (if self.down { 0u8 } else { 8u8 })
        } else {
            0xCF
        }
    }

    /// A clear bit 4 selects the directions, a clear bit 5 the actions.
    pub fn set_byte(&mut self, value: u8)
        ensures
            *final(self) == (Joypad {
                directions_selected: value & 0x10 == 0,
                actions_selected: value & 0x20 == 0,
                ..*old(self)
            }),
    {
        self.directions_selected = (value & 0x10) == 0;
        self.actions_selected = (value & 0x20) == 0;
    }

    pub fn reset(&mut self)
        ensures
            *final(self) == released(),
    {
        self.start = false;
        self.select = false;
        self.a = false;
        self.b = false;
        self.up = false;
        self.down = false;
        self.left = false;
        self.right = false;
        self.directions_selected = false;
        self.actions_selected = false;
    }
}

/// Line `k` of P1 reads 0 exactly when the `k`-th button of the group is
/// pressed.
proof fn lemma_lines_bits(b0: bool, b1: bool, b2: bool, b3: bool)
    ensures
        (lines(b0, b1, b2, b3) & 1 == 0) == b0,
        (lines(b0, b1, b2, b3) & 2 == 0) == b1,
        (lines(b0, b1, b2, b3) & 4 == 0) == b2,
        (lines(b0, b1, b2, b3) & 8 == 0) == b3,
{
    let x0: u8 = if b0 { 0u8 } else { 1u8 };
    let x1: u8 = if b1 { 0u8 } else { 2u8 };
    let x2: u8 = if b2 { 0u8 } else { 4u8 };
    let x3: u8 = if b3 { 0u8 } else { 8u8 };
    assert(((x0 | x1 | x2 | x3) & 1 == 0) == (x0 == 0) && ((x0 | x1 | x2 | x3) & 2 == 0) == (x1
        == 0) && ((x0 | x1 | x2 | x3) & 4 == 0) == (x2 == 0) && ((x0 | x1 | x2 | x3) & 8 == 0) == (
    x3 == 0)) by (bit_vector)
        requires
            x0 == 0 || x0 == 1,
            x1 == 0 || x1 == 2,
            x2 == 0 || x2 == 4,
            x3 == 0 || x3 == 8,
    ;
}

/// P1 reads the selected group with a pressed button as a clear bit. With
/// the actions selected: bit 0 A, bit 1 B, bit 2 Select, bit 3 Start. With
/// only the directions selected: bit 0 Right, bit 1 Left, bit 2 Up, bit 3
/// Down. With nothing selected P1 reads 0xCF.
pub proof fn lemma_joypad_lines(j: Joypad)
    ensures
        j.actions_selected ==> (joypad_byte(j) & 1 == 0) == j.a && (joypad_byte(j) & 2 == 0) == j.b
            && (joypad_byte(j) & 4 == 0) == j.select && (joypad_byte(j) & 8 == 0) == j.start,
        !j.actions_selected && j.directions_selected ==> (joypad_byte(j) & 1 == 0) == j.right && (
        joypad_byte(j) & 2 == 0) == j.left && (joypad_byte(j) & 4 == 0) == j.up && (joypad_byte(j)
            & 8 == 0) == j.down,
        !j.actions_selected && !j.directions_selected ==> joypad_byte(j) == 0xCF,
{
    lemma_lines_bits(j.a, j.b, j.select, j.start);
    lemma_lines_bits(j.right, j.left, j.up, j.down);
}

/// With the actions selected, pressing a button clears its line in P1 and
/// releasing it sets the line again; with nothing selected P1 reads 0xCF.
pub proof fn lemma_joypad_reads_buttons(j: Joypad, pressed: bool)
    ensures
        j.actions_selected ==> (joypad_byte(joypad_after(j, JoypadButton::A, pressed)) & 1 == 0)
            == pressed,
        j.actions_selected ==> (joypad_byte(joypad_after(j, JoypadButton::Start, pressed)) & 8
            == 0) == pressed,
        !j.actions_selected && j.directions_selected ==> (joypad_byte(
            joypad_after(j, JoypadButton::Down, pressed),
        ) & 8 == 0) == pressed,
        !j.actions_selected && !j.directions_selected ==> joypad_byte(j) == 0xCF,
{
    lemma_joypad_lines(joypad_after(j, JoypadButton::A, pressed));
    lemma_joypad_lines(joypad_after(j, JoypadButton::Start, pressed));
    lemma_joypad_lines(joypad_after(j, JoypadButton::Down, pressed));
}

} // verus!
