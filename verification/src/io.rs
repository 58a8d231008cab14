//! I/O port controller: two player/system status bytes, the DIP-switch
//! configuration bits baked into port 2, and the hardware shift register
//! reached through the three 8080 I/O ports the game uses.

use vstd::prelude::*;
use crate::shift_register::ShiftRegister;

verus! {

pub const PORT1: u8 = 0x01;
pub const DEFAULT_PORT1: u8 = 0x01;
pub const PORT2: u8 = 0x02;
pub const DEFAULT_PORT2: u8 = 0x00;
pub const PORT3: u8 = 0x03;

pub const SR_OFFSET_PORT: u8 = 0x02;
pub const SR_DATA_PORT: u8 = 0x04;
pub const SOUND_A_PORT: u8 = 0x03;
pub const SOUND_B_PORT: u8 = 0x05;
pub const WATCHDOG_PORT: u8 = 0x06;

pub const COIN_BIT: u8 = 0x00;
pub const TILT_BIT: u8 = 0x02;
pub const P2START_BIT: u8 = 0x01;
pub const P1START_BIT: u8 = 0x02;
pub const P1SHOOT_BIT: u8 = 0x04;
pub const P1LEFT_BIT: u8 = 0x05;
pub const P1RIGHT_BIT: u8 = 0x06;
pub const P2SHOOT_BIT: u8 = 0x04;
pub const P2LEFT_BIT: u8 = 0x05;
pub const P2RIGHT_BIT: u8 = 0x06;

pub const LIVES_MASK: u8 = 0x03;
pub const BONUS_LIFE_MASK: u8 = 0x08;
pub const COIN_INFO_MASK: u8 = 0x80;

/// Discrete control events the host reports, press or release.
#[derive(Clone, Copy, Debug)]
pub enum Ev {
    Coin,
    Tilt,
    P1Start,
    P1Shoot,
    P1Left,
    P1Right,
    P2Start,
    P2Shoot,
    P2Left,
    P2Right,
}

/// Whether the event's input bit lives on port 1 (otherwise port 2).
pub open spec fn ev_on_port1(ev: Ev) -> bool {
    match ev {
        Ev::Coin => true,
        Ev::Tilt => false,
        Ev::P1Start => true,
        Ev::P1Shoot => true,
        Ev::P1Left => true,
        Ev::P1Right => true,
        Ev::P2Start => true,
        Ev::P2Shoot => false,
        Ev::P2Left => false,
        Ev::P2Right => false,
    }
}

/// The fixed bit position of the event on its port.
pub open spec fn ev_bit(ev: Ev) -> u8 {
    match ev {
        Ev::Coin => COIN_BIT,
        Ev::Tilt => TILT_BIT,
        Ev::P1Start => P1START_BIT,
        Ev::P1Shoot => P1SHOOT_BIT,
        Ev::P1Left => P1LEFT_BIT,
        Ev::P1Right => P1RIGHT_BIT,
        Ev::P2Start => P2START_BIT,
        Ev::P2Shoot => P2SHOOT_BIT,
        Ev::P2Left => P2LEFT_BIT,
        Ev::P2Right => P2RIGHT_BIT,
    }
}

/// The level the bit takes for a press/release: the coin switch is active
/// low (bit cleared when pressed), every other event is active high.
pub open spec fn ev_level(ev: Ev, pressed: bool) -> bool {
    match ev {
        Ev::Coin => !pressed,
        _ => pressed,
    }
}

/// The port byte with one bit driven to `on`.
pub open spec fn with_bit(port: u8, bit: u8, on: bool) -> u8 {
    if on {
        port | (1u8 << bit)
    } else {
        port & !(1u8 << bit)
    }
}

/// The byte with the bits of `m` all set or all cleared.
pub open spec fn masked(data: u8, m: u8, set_or_clear: bool) -> u8 {
    if set_or_clear {
        data | m
    } else {
        data & !m
    }
}

/// Sets or clears the masked bits of a configuration byte.
pub fn mask(data: u8, bits: u8, set_or_clear: bool) -> (r: u8)
    ensures
        r == masked(data, bits, set_or_clear),
{
    if set_or_clear {
        data | bits
    } else {
        data & !bits
    }
}

/// The 2-bit lives field encoding a requested lives count: 0 through 3 give
/// field 0, then one more life per step, clamped at field 3.
pub open spec fn lives_field(lives: u8) -> u8 {
    if lives <= 3 {
        0
    } else if lives == 4 {
        1
    } else if lives == 5 {
        2
    } else {
        3
    }
}

/// Port 2 with its lives field replaced by the encoding of `lives`.
pub open spec fn port2_with_lives(port2: u8, lives: u8) -> u8 {
    (port2 & !LIVES_MASK) | lives_field(lives)
}

/// The lives count a port-2 byte decodes to: field 0 through 3 give 3
/// through 6 lives.
pub open spec fn lives_of(port2: u8) -> u8 {
    ((port2 & LIVES_MASK) + 3) as u8
}

/// The I/O controller: the two status ports and the shift register.
pub struct IO {
    pub port1: u8,
    pub port2: u8,
    pub sr: ShiftRegister,
}

impl IO {
    pub open spec fn wf(self) -> bool {
        self.sr.wf()
    }

    /// What an input-port read returns: the two status bytes, the shift
    /// register's window, and the floating-bus sentinel for any other id.
    pub open spec fn read_spec(self, id: u8) -> u8 {
        if id == PORT1 {
            self.port1
        } else if id == PORT2 {
            self.port2
        } else if id == PORT3 {
            self.sr.window()
        } else {
            0xFF
        }
    }

    /// A controller with the given starting port bytes and a cleared shift
    /// register.
    pub fn new(port1: u8, port2: u8) -> (r: IO)
        ensures
            r.port1 == port1,
            r.port2 == port2,
            r.sr == (ShiftRegister { value: 0, offset: 0 }),
            r.wf(),
    {
        IO { port1, port2, sr: ShiftRegister::default() }
    }

    /// Drives the input bit of one control event: the coin bit with
    /// inverted polarity, every other bit high on press and low on release.
    pub fn ui_event(&mut self, ev: Ev, pressed: bool)
        ensures
            final(self).sr == old(self).sr,
            ev_on_port1(ev) ==> final(self).port1 == with_bit(
                old(self).port1,
                ev_bit(ev),
                ev_level(ev, pressed),
            ) && final(self).port2 == old(self).port2,
            !ev_on_port1(ev) ==> final(self).port2 == with_bit(
                old(self).port2,
                ev_bit(ev),
                ev_level(ev, pressed),
            ) && final(self).port1 == old(self).port1,
    {
        let (on_port1, bit, set): (bool, u8, bool) = match ev {
            Ev::Coin => (true, COIN_BIT, !pressed),
            Ev::Tilt => (false, TILT_BIT, pressed),
            Ev::P1Start => (true, P1START_BIT, pressed),
            Ev::P1Shoot => (true, P1SHOOT_BIT, pressed),
            Ev::P1Left => (true, P1LEFT_BIT, pressed),
            Ev::P1Right => (true, P1RIGHT_BIT, pressed),
            Ev::P2Start => (true, P2START_BIT, pressed),
            Ev::P2Shoot => (false, P2SHOOT_BIT, pressed),
            Ev::P2Left => (false, P2LEFT_BIT, pressed),
            Ev::P2Right => (false, P2RIGHT_BIT, pressed),
        };
        let m: u8 = 1u8 << bit;
        if on_port1 {
            if set {
                self.port1 = self.port1 | m;
            } else {
                self.port1 = self.port1 & !m;
            }
        } else {
            if set {
                self.port2 = self.port2 | m;
            } else {
                self.port2 = self.port2 & !m;
            }
        }
    }

    /// The bonus-life threshold the DIP switches select: 1000 points with
    /// the lowered-threshold bit set, 1500 otherwise.
    pub fn bonus_life(&self) -> (r: u16)
        ensures
            r == (if self.port2 & BONUS_LIFE_MASK == BONUS_LIFE_MASK {
                1000u16
            } else {
                1500u16
            }),
    {
        if self.port2 & BONUS_LIFE_MASK == BONUS_LIFE_MASK {
            1000
        } else {
            1500
        }
    }

    /// Sets or clears the lowered bonus-life threshold bit.
    pub fn lower_bonus_life(self, value: bool) -> (r: IO)
        ensures
            r.port2 == masked(self.port2, BONUS_LIFE_MASK, value),
            r.port1 == self.port1,
            r.sr == self.sr,
    {
        let state = mask(self.port2, BONUS_LIFE_MASK, value);
        IO { port2: state, ..self }
    }

    /// Whether the coin-information display is enabled: the stored bit is
    /// inverted, clear means enabled.
    pub fn coin_info(&self) -> (r: bool)
        ensures
            r == (self.port2 & COIN_INFO_MASK == 0),
    {
        self.port2 & COIN_INFO_MASK == 0x00
    }

    /// Enables or disables the coin-information display (stored inverted).
    pub fn coin_info_set(self, value: bool) -> (r: IO)
        ensures
            r.port2 == masked(self.port2, COIN_INFO_MASK, !value),
            r.port1 == self.port1,
            r.sr == self.sr,
    {
        let state = mask(self.port2, COIN_INFO_MASK, !value);
        IO { port2: state, ..self }
    }

    /// Disables the coin-information display.
    pub fn coin_info_off(self) -> (r: IO)
        ensures
            r.port2 == masked(self.port2, COIN_INFO_MASK, true),
            r.port1 == self.port1,
            r.sr == self.sr,
    {
        self.coin_info_set(false)
    }

    /// Replaces the 2-bit lives field of port 2 with the encoding of the
    /// requested count, clamped to the range the switches can express.
    pub fn change_lives(self, lives: u8) -> (r: IO)
        ensures
            r.port2 == port2_with_lives(self.port2, lives),
            r.port1 == self.port1,
            r.sr == self.sr,
    {
        let old_port2 = self.port2;
        let l: u8 = match lives {
            0 | 1 | 2 | 3 => 0,
            4 => 1,
            5 => 2,
            6 => 3,
            _ => 3,
        };
        IO { port2: (old_port2 & !LIVES_MASK) | l, ..self }
    }

    /// Decodes the stored lives field back to the 3-to-6 lives count.
    pub fn lives(&self) -> (r: u8)
        ensures
            r == lives_of(self.port2),
    {
        proof {
            let p = self.port2;
            assert(p & LIVES_MASK <= 3) by (bit_vector);
        }
        match self.port2 & LIVES_MASK {
            0 => 3,
            1 => 4,
            2 => 5,
            _ => 6,
        }
    }

    /// An input-port read by the CPU: port ids 1 and 2 return the status
    /// bytes, id 3 the shift-register window; any other id floats the bus
    /// and returns the sentinel.
    pub fn read(&self, id: u8) -> (r: u8)
        requires
            self.wf(),
        ensures
            r == self.read_spec(id),
    {
        if id == PORT1 {
            self.port1
        } else if id == PORT2 {
            self.port2
        } else if id == PORT3 {
            self.sr.get()
        } else {
            0xFF
        }
    }

    /// An output-port write by the CPU: the shift-data port pushes into the
    /// shift register, the shift-offset port sets its window; the sound and
    /// watchdog ports are accepted and discarded, as is any unknown id.
    pub fn send(&mut self, id: u8, data: u8)
        ensures
            final(self).port1 == old(self).port1,
            final(self).port2 == old(self).port2,
            final(self).sr == (if id == SR_DATA_PORT {
                old(self).sr.pushed(data)
            } else if id == SR_OFFSET_PORT {
                old(self).sr.with_offset(data)
            } else {
                old(self).sr
            }),
    {
        if id == SR_DATA_PORT {
            self.sr.push(data);
        } else if id == SR_OFFSET_PORT {
            self.sr.set_offset(data);
        } else if id == SOUND_A_PORT || id == SOUND_B_PORT {
            // sound hardware is out of scope: accepted and discarded
        } else if id == WATCHDOG_PORT {
            // watchdog hardware is out of scope: accepted and discarded
        } else {
            // unknown port: the write floats and is discarded
        }
    }
}

impl Default for IO {
    /// The power-on controller state: port 1 with its always-set bit, port
    /// 2 all clear.
    fn default() -> (r: Self)
        ensures
            r.port1 == DEFAULT_PORT1,
            r.port2 == DEFAULT_PORT2,
            r.sr == (ShiftRegister { value: 0, offset: 0 }),
            r.wf(),
    {
        IO::new(DEFAULT_PORT1, DEFAULT_PORT2)
    }
}

/// Writing a lives count and reading it back gives the clamped count:
/// anything up to 3 reads back as 3, 4 and 5 read back exactly, and 6 or
/// more reads back as 6 — decoding is the exact inverse of encoding.
pub proof fn lemma_lives_round_trip(port2: u8, lives: u8)
    ensures
        lives_of(port2_with_lives(port2, lives)) == (if lives <= 3 {
            3
        } else if lives >= 6 {
            6
        } else {
            lives
        }),
{
    let f = lives_field(lives);
    assert(((port2 & !LIVES_MASK) | f) & LIVES_MASK == f) by (bit_vector)
        requires
            f <= 3,
    ;
}

} // verus!
