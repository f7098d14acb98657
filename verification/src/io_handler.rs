//! The ports of the cabinet: buttons and DIP switches to read, the shift
//! register and the sound board to write to.

use crate::audio::{Audio, Channels, SoundCommand};
use crate::emulator::Error;
use crate::port::Port;
use crate::shift_register::{window, ShiftRegister};
use vstd::prelude::*;

verus! {

/// The keys that the cabinet knows, and one for all others.
#[derive(Clone, Copy, Debug, PartialEq, Eq)]
pub enum Key {
    Num1,
    A,
    D,
    Space,
    Num2,
    J,
    L,
    RShift,
    Other,
}

/// Which buttons are held down.
#[derive(Clone, Copy, Debug, PartialEq, Eq)]
pub struct Buttons {
    pub p1_start: bool,
    pub p1_left: bool,
    pub p1_right: bool,
    pub p1_shoot: bool,
    pub p2_start: bool,
    pub p2_left: bool,
    pub p2_right: bool,
    pub p2_shoot: bool,
}

/// What the ports of the cabinet are to the game and to the host.
pub struct IoModel {
    pub buttons: Buttons,
    pub channels: Channels,
    /// The bits in the shift register.
    pub register: u16,
    /// The offset of the shift register, from 0 to 7.
    pub offset: u8,
    /// The number of ships set on the DIP switches, from 0 to 3.
    pub dip_shipnum: u8,
    pub dip_extraship_point: bool,
    /// The sound commands that the host has not taken yet.
    pub commands: Seq<SoundCommand>,
}

/// `weight` where `set` holds, else 0.
pub open spec fn bit(set: bool, weight: int) -> int {
    if set {
        weight
    } else {
        0
    }
}

impl Buttons {
    /// No button held down.
    pub open spec fn released() -> Buttons {
        Buttons {
            p1_start: false,
            p1_left: false,
            p1_right: false,
            p1_shoot: false,
            p2_start: false,
            p2_left: false,
            p2_right: false,
            p2_shoot: false,
        }
    }

    /// The buttons after `key` was pressed or released.
    pub open spec fn with_key(self, key: Key, value: bool) -> Buttons {
        match key {
            Key::Num1 => Buttons { p1_start: value, ..self },
            Key::A => Buttons { p1_left: value, ..self },
            Key::D => Buttons { p1_right: value, ..self },
            Key::Space => Buttons { p1_shoot: value, ..self },
            Key::Num2 => Buttons { p2_start: value, ..self },
            Key::J => Buttons { p2_left: value, ..self },
            Key::L => Buttons { p2_right: value, ..self },
            Key::RShift => Buttons { p2_shoot: value, ..self },
            Key::Other => self,
        }
    }
}

impl IoModel {
    /// The byte of port 1: bits 0 and 3 set, the start buttons in bits 1
    /// and 2, the first player's shot, left and right in bits 4 to 6.
    pub open spec fn port1(self) -> u8 {
        (9 + bit(self.buttons.p2_start, 2) + bit(self.buttons.p1_start, 4) + bit(
            self.buttons.p1_shoot,
            16,
        ) + bit(self.buttons.p1_left, 32) + bit(self.buttons.p1_right, 64)) as u8
    }

    /// The byte of port 2: bit 7 set, the two low bits of the ship count
    /// swapped in bits 0 and 1, the extra ship switch in bit 3, the second
    /// player's shot, left and right in bits 4 to 6.
    pub open spec fn port2(self) -> u8 {
        (128 + (self.dip_shipnum as int / 2) % 2 + 2 * (self.dip_shipnum as int % 2) + bit(
            self.dip_extraship_point,
            8,
        ) + bit(self.buttons.p2_shoot, 16) + bit(self.buttons.p2_left, 32) + bit(
            self.buttons.p2_right,
            64,
        )) as u8
    }

    /// The byte that a read of a port gives; 0 for a port that is not
    /// there.
    pub open spec fn input(self, port_num: u8) -> u8 {
        if port_num == 1 {
            self.port1()
        } else if port_num == 2 {
            self.port2()
        } else if port_num == 3 {
            window(self.register, self.offset)
        } else {
            0
        }
    }

    /// The ports after a write; a write to a port that is not there
    /// changes nothing.
    pub open spec fn after_output(self, port_num: u8, value: u8) -> IoModel {
        if port_num == 2 {
            IoModel { offset: value % 8, ..self }
        } else if port_num == 3 {
            IoModel {
                channels: self.channels.after_port3(value),
                commands: self.commands + self.channels.commands_port3(value),
                ..self
            }
        } else if port_num == 4 {
            IoModel {
                register: (value as int * 256 + self.register as int / 256) as u16,
                ..self
            }
        } else if port_num == 5 {
            IoModel {
                channels: self.channels.after_port5(value),
                commands: self.commands + self.channels.commands_port5(value),
                ..self
            }
        } else {
            self
        }
    }
}

proof fn lemma_button_bits(b1: u8, b2: u8, b4: u8, b5: u8, b6: u8)
    by (bit_vector)
    requires
        b1 == 0 || b1 == 2,
        b2 == 0 || b2 == 4,
        b4 == 0 || b4 == 16,
        b5 == 0 || b5 == 32,
        b6 == 0 || b6 == 64,
    ensures
        0b00001001u8 | b1 | b2 | b4 | b5 | b6 == 9 + b1 + b2 + b4 + b5 + b6,
{
}

proof fn lemma_switch_bits(dip: u8, b3: u8, b4: u8, b5: u8, b6: u8)
    by (bit_vector)
    requires
        b3 == 0 || b3 == 8,
        b4 == 0 || b4 == 16,
        b5 == 0 || b5 == 32,
        b6 == 0 || b6 == 64,
    ensures
        0b10000000u8 | ((dip & 0b10) >> 1) | ((dip & 0b01) << 1) | b3 | b4 | b5 | b6 == 128 + (dip
            / 2) % 2 + 2 * (dip % 2) + b3 + b4 + b5 + b6,
{
}

/// The ports of the cabinet, as the processor reaches them.
pub struct IoHandler {
    buttons: Buttons,
    audio: Audio,
    shift_regster: ShiftRegister,
    dip_shipnum: u8,
    dip_extraship_point: bool,
    commands: Vec<SoundCommand>,
}

impl IoHandler {
    /// What the ports hold.
    pub closed spec fn view(&self) -> IoModel {
        IoModel {
            buttons: self.buttons,
            channels: self.audio@,
            register: self.shift_regster.register(),
            offset: self.shift_regster.offset(),
            dip_shipnum: self.dip_shipnum,
            dip_extraship_point: self.dip_extraship_point,
            commands: self.commands@,
        }
    }

    /// Sets the cabinet up with its DIP switches: the number of ships,
    /// which must not be above 3, and the extra ship switch.
    pub fn try_new(dip_settings: (u8, bool)) -> (outcome: Result<Self, Error>)
        ensures
            dip_settings.0 > 3 ==> (outcome matches Err(error) && error
                == Error::InvalidDipInput),
            dip_settings.0 <= 3 ==> (outcome matches Ok(handler) && handler@ == (IoModel {
                buttons: Buttons::released(),
                channels: Channels::silent(),
                register: 0,
                offset: 0,
                dip_shipnum: dip_settings.0,
                dip_extraship_point: dip_settings.1,
                commands: Seq::empty(),
            })),
    {
        if dip_settings.0 > 3 {
            return Err(Error::InvalidDipInput);
        }
        Ok(
            Self {
                buttons: Buttons {
                    p1_start: false,
                    p1_left: false,
                    p1_right: false,
                    p1_shoot: false,
                    p2_start: false,
                    p2_left: false,
                    p2_right: false,
                    p2_shoot: false,
                },
                audio: Audio::new(),
                shift_regster: ShiftRegister::new(),
                dip_shipnum: dip_settings.0,
                dip_extraship_point: dip_settings.1,
                commands: Vec::new(),
            },
        )
    }

    /// Presses or releases the button that a key stands for.
    pub fn set_key(&mut self, key: Key, value: bool)
        ensures
            final(self)@ == (IoModel {
                buttons: old(self)@.buttons.with_key(key, value),
                ..old(self)@
            }),
    {
        let mut buttons = self.buttons;
        match key {
            Key::Num1 => buttons.p1_start = value,
            Key::A => buttons.p1_left = value,
            Key::D => buttons.p1_right = value,
            Key::Space => buttons.p1_shoot = value,
            Key::Num2 => buttons.p2_start = value,
            Key::J => buttons.p2_left = value,
            Key::L => buttons.p2_right = value,
            Key::RShift => buttons.p2_shoot = value,
            _ => {},
        }
        assert(buttons == self.buttons.with_key(key, value));
        self.buttons = buttons;
    }

    /// Hands over the sound commands that the game has given since the
    /// last call, oldest first.
    pub fn take_commands(&mut self) -> (commands: Vec<SoundCommand>)
        ensures
            commands@ == old(self)@.commands,
            final(self)@ == (IoModel { commands: Seq::empty(), ..old(self)@ }),
    {
        let mut commands = Vec::new();
        std::mem::swap(&mut commands, &mut self.commands);
        commands
    }
}

impl Port for IoHandler {
    fn read_in(&self, port_num: u8) -> (value: u8)
        ensures
            value == self@.input(port_num),
    {
        match port_num {
            1 => {
                let b1: u8 = if self.buttons.p2_start { 0b10 } else { 0 };
                let b2: u8 = if self.buttons.p1_start { 0b100 } else { 0 };
                let b4: u8 = if self.buttons.p1_shoot { 0b10000 } else { 0 };
                let b5: u8 = if self.buttons.p1_left { 0b100000 } else { 0 };
                let b6: u8 = if self.buttons.p1_right { 0b1000000 } else { 0 };
                proof {
                    lemma_button_bits(b1, b2, b4, b5, b6);
                }
                // Insert bits from state
                0b00001001 | b1 | b2 | b4 | b5 | b6
            },
            2 => {
                let b3: u8 = if self.dip_extraship_point { 0b1000 } else { 0 };
                let b4: u8 = if self.buttons.p2_shoot { 0b10000 } else { 0 };
                let b5: u8 = if self.buttons.p2_left { 0b100000 } else { 0 };
                let b6: u8 = if self.buttons.p2_right { 0b1000000 } else { 0 };
                proof {
                    lemma_switch_bits(self.dip_shipnum, b3, b4, b5, b6);
                }
                // Insert bits from state
                0b10000000 | ((self.dip_shipnum & 0b10) >> 1) | ((self.dip_shipnum & 0b01) << 1)
                    | b3 | b4 | b5 | b6
            },
            3 => self.shift_regster.read(),
            _ => 0,
        }
    }

    fn write_out(&mut self, port_num: u8, value: u8)
        ensures
            final(self)@ == old(self)@.after_output(port_num, value),
    {
        match port_num {
            2 => self.shift_regster.set_offset(value),
            3 => self.audio.play_port3(value, &mut self.commands),
            4 => self.shift_regster.insert(value),
            5 => self.audio.play_port5(value, &mut self.commands),
            _ => {},
        }
    }
}

} // verus!
