use vstd::prelude::*;
use crate::gui::{key_index, key_slot, GameBoyKey};
use crate::mmu::{MemHandler, MemRead, MemWrite};

verus! {

/// Joypad register (0xFF00).
///
/// Writing selects which group to read:
///   bit 5 = 0 → select action  buttons (A, B, Select, Start)
///   bit 4 = 0 → select direction buttons (Right, Left, Up, Down)
///
/// Reading returns the state of the selected group (active-low: 0 = pressed).
///   bits 3-0: Down/Start, Up/Select, Left/B, Right/A
pub struct Joypad {
    /// Which group is selected (bits 5-4 of last write)
    pub select: u8,
    /// Whether each button is held, by `key_index`
    pub keys: [bool; 8],
    /// Previous combined key byte — used to detect new presses for interrupt
    pub prev_keys: u8,
}

impl Joypad {
    /// Both groups de-selected, all buttons released.
    /// The state at power-on: no group selected, every button released.
    pub open spec fn fresh(self) -> bool {
        &&& self.select == 0x30
        &&& self.prev_keys == 0x0F
        &&& forall|i: int| 0 <= i < 8 ==> !self.keys[i]
    }

    pub fn new() -> (r: Self)
        ensures
            r.fresh(),
    {
        Self { select: 0x30, keys: [false; 8], prev_keys: 0x0F }
    }

    /// Record whether `key` is held.
    pub fn set_key(&mut self, key: GameBoyKey, pressed: bool)
        ensures
            *final(self) == (Joypad {
                keys: vstd::array::spec_array_update(old(self).keys, key_index(key), pressed),
                ..*old(self)
            }),
    {
        let i = key_slot(key);
        self.keys[i] = pressed;
    }

    /// Whether line `bit` (0-3) of the selected groups reads as pressed.
    pub open spec fn line_pressed(self, bit: int) -> bool {
        (self.select & 0x20 == 0 && self.keys[4 + bit]) || (self.select & 0x10 == 0 && self.keys[bit])
    }

    /// The low nibble for the selected groups: bit n is 0 when a selected
    /// button on line n is held.
    pub open spec fn keys_nibble(self) -> u8 {
        (15 - (if self.line_pressed(0) { 1int } else { 0 }) - (if self.line_pressed(1) { 2int } else { 0 })
            - (if self.line_pressed(2) { 4int } else { 0 }) - (if self.line_pressed(3) { 8int } else { 0 })) as u8
    }

    /// Returns the current low nibble (bits 3-0) for the selected group.
    /// Bits are active-low: 0 = pressed.
    fn read_keys(&self) -> (r: u8)
        ensures
            r == self.keys_nibble(),
    {
        let action = self.select & 0x20 == 0;
        let direction = self.select & 0x10 == 0;
        let mut nibble: u8 = 0x0F;  // all released
        // Right / A
        if (action && self.keys[4]) || (direction && self.keys[0]) {
            nibble = nibble - 1;
        }
        // Left / B
        if (action && self.keys[5]) || (direction && self.keys[1]) {
            nibble = nibble - 2;
        }
        // Up / Select
        if (action && self.keys[6]) || (direction && self.keys[2]) {
            nibble = nibble - 4;
        }
        // Down / Start
        if (action && self.keys[7]) || (direction && self.keys[3]) {
            nibble = nibble - 8;
        }
        nibble
    }

    /// Check whether any newly-pressed key should trigger a joypad interrupt:
    /// a line that read released last time reads pressed now.
    /// Returns true if an interrupt should be requested.
    pub fn poll_interrupt(&mut self) -> (r: bool)
        ensures
            *final(self) == (Joypad { prev_keys: old(self).keys_nibble(), ..*old(self) }),
            r == (old(self).prev_keys & !old(self).keys_nibble() != 0),
    {
        let current = self.read_keys();
        // A falling edge on any bit (1→0 means key pressed) triggers the interrupt
        let newly_pressed = self.prev_keys & !current;
        self.prev_keys = current;
        newly_pressed != 0
    }

    /// 0xFF00 reads the selection bits, the key nibble and the unused top
    /// bits set; other addresses pass through.
    pub open spec fn read_spec(&self, addr: u16) -> MemRead {
        if addr == 0xFF00 {
            MemRead::Replace((self.select & 0x30) | self.keys_nibble() | 0xC0)
        } else {
            MemRead::PassThrough
        }
    }

    /// 0xFF00 keeps the selection bits 5-4 of the value; other addresses pass.
    pub open spec fn write_spec(&self, addr: u16, value: u8) -> (Joypad, MemWrite) {
        if addr == 0xFF00 {
            (Joypad { select: value & 0x30, ..*self }, MemWrite::Block)
        } else {
            (*self, MemWrite::PassThrough)
        }
    }
}

impl MemHandler for Joypad {
    open spec fn inv(&self) -> bool {
        true
    }

    fn on_read(&self, addr: u16) -> (r: MemRead)
        ensures
            r == self.read_spec(addr),
    {
        if addr == 0xFF00 {
            // Upper bits: select bits (return what was written), lower nibble: key state
            let value = (self.select & 0x30) | self.read_keys() | 0xC0;
            MemRead::Replace(value)
        } else {
            MemRead::PassThrough
        }
    }

    fn on_write(&mut self, addr: u16, value: u8) -> (r: MemWrite)
        ensures
            (*final(self), r) == old(self).write_spec(addr, value),
    {
        if addr == 0xFF00 {
            self.select = value & 0x30;
            MemWrite::Block
        } else {
            MemWrite::PassThrough
        }
    }
}

/// The joypad interrupt is edge-triggered: polling again with no button
/// change raises nothing.
pub proof fn lemma_poll_is_edge_triggered(j: Joypad)
    ensures
        ({
            let polled = Joypad { prev_keys: j.keys_nibble(), ..j };
            polled.prev_keys & !polled.keys_nibble() == 0
        }),
{
    let n = j.keys_nibble();
    assert(n & !n == 0) by (bit_vector);
}

/// The key lines are active low: line `bit` of 0xFF00 reads 0 exactly when
/// a held button of a selected group sits on it.
pub proof fn lemma_keys_active_low(j: Joypad, bit: u8)
    requires
        bit < 4,
    ensures
        j.keys_nibble() & (1u8 << bit) == 0 <==> j.line_pressed(bit as int),
{
    let b0 = j.line_pressed(0);
    let b1 = j.line_pressed(1);
    let b2 = j.line_pressed(2);
    let b3 = j.line_pressed(3);
    let n = j.keys_nibble();
    assert((n & (1u8 << bit) == 0) == (if bit == 0 { b0 } else if bit == 1 { b1 } else if bit == 2 { b2 } else { b3 })) by (bit_vector)
        requires
            bit < 4,
            n == (15 - (if b0 { 1u8 } else { 0u8 }) - (if b1 { 2u8 } else { 0u8 }) - (if b2 { 4u8 } else { 0u8 }) - (if b3 { 8u8 } else { 0u8 })) as u8,
    ;
}

/// What 0xFF00 reads: the top two bits set, bits 5-4 the selection last
/// written, and the low four lines active low. With the action group
/// selected (bit 5 clear) line 0 carries A, line 1 B, line 2 Select and
/// line 3 Start; with the direction group selected (bit 4 clear) line 0
/// carries Right, line 1 Left, line 2 Up and line 3 Down. A line reads 0
/// exactly when a button of a selected group on it is held.
#[verifier::spinoff_prover]
pub proof fn lemma_register_lines(j: Joypad)
    ensures
        ({
            let act = j.select & 0x20 == 0;
            let dir = j.select & 0x10 == 0;
            j.read_spec(0xFF00) matches MemRead::Replace(v) && {
                &&& v & 0xF0 == 0xC0 | (j.select & 0x30)
                &&& (v & 0x01 == 0 <==> (act && j.keys[key_index(GameBoyKey::A)]) || (dir
                    && j.keys[key_index(GameBoyKey::Right)]))
                &&& (v & 0x02 == 0 <==> (act && j.keys[key_index(GameBoyKey::B)]) || (dir
                    && j.keys[key_index(GameBoyKey::Left)]))
                &&& (v & 0x04 == 0 <==> (act && j.keys[key_index(GameBoyKey::Select)]) || (dir
                    && j.keys[key_index(GameBoyKey::Up)]))
                &&& (v & 0x08 == 0 <==> (act && j.keys[key_index(GameBoyKey::Start)]) || (dir
                    && j.keys[key_index(GameBoyKey::Down)]))
            }
        }),
{
    lemma_keys_active_low(j, 0);
    lemma_keys_active_low(j, 1);
    lemma_keys_active_low(j, 2);
    lemma_keys_active_low(j, 3);
    let n = j.keys_nibble();
    let sel = j.select;
    let v = (sel & 0x30) | n | 0xC0;
    assert(n <= 15);
    assert(v & 0xF0 == 0xC0 | (sel & 0x30) && v & 0x01 == n & (1u8 << 0u8) && v & 0x02 == n & (1u8
        << 1u8) && v & 0x04 == n & (1u8 << 2u8) && v & 0x08 == n & (1u8 << 3u8)) by (bit_vector)
        requires
            n <= 15,
            v == (sel & 0x30) | n | 0xC0,
    ;
}

} // verus!
