//! Board-side decisions of the Cardputer-Adv: how the TCA8418 keyboard's key
//! events become input events, and what the codec and IMU report.

use vstd::prelude::*;

use crate::text::{hex_lower, push_hex_lower, push_str};

verus! {

/// A user input the menus react to.
#[derive(Debug, Clone, Copy, PartialEq, Eq, Structural)]
pub enum InputEvent {
    Select,
    Back,
    Backspace,
    Up,
    Down,
    Left,
    Right,
    Char(char),
}

/// Key code of the Backspace key in the key map.
pub const KEY_BACKSPACE: u8 = 0x2A;

/// Key code of the Enter key in the key map.
pub const KEY_ENTER: u8 = 0x28;

/// Key code of the left Shift key in the key map.
pub const KEY_LEFT_SHIFT: u8 = 0x81;

/// Key code of the Fn key in the key map.
pub const KEY_FN: u8 = 0xFF;

/// Row and column of the key behind a TCA8418 key number (1..=8 in the units
/// digit, 0..=6 in the tens digit); `None` for any other number.
pub open spec fn physical_key(value: u8) -> Option<(usize, usize)> {
    let units = value % 10;
    let tens = value / 10;
    if !(1 <= units && units <= 8) || tens > 6 {
        None
    } else {
        let unit_zero = (units - 1) as int;
        Some(((unit_zero % 4) as usize, (tens * 2 + unit_zero / 4) as usize))
    }
}

pub fn map_raw_key_to_physical(value: u8) -> (r: Option<(usize, usize)>)
    ensures
        r == physical_key(value),
        r matches Some((row, col)) ==> row < 4 && col < 14,
{
    let units = value % 10;
    let tens = value / 10;
    if !(1 <= units && units <= 8) || tens > 6 {
        return None;
    }
    let unit_zero = units - 1;
    let row = (unit_zero % 4) as usize;
    let col = (tens * 2 + unit_zero / 4) as usize;
    Some((row, col))
}

/// The key map of the Cardputer-Adv keyboard, row by row.
pub open spec fn key_row(row: int) -> Seq<u8> {
    if row == 0 {
        seq![0x60u8, 0x31, 0x32, 0x33, 0x34, 0x35, 0x36, 0x37, 0x38, 0x39, 0x30, 0x2D, 0x3D, 0x2A]
    } else if row == 1 {
        seq![0x2Bu8, 0x71, 0x77, 0x65, 0x72, 0x74, 0x79, 0x75, 0x69, 0x6F, 0x70, 0x5B, 0x5D, 0x5C]
    } else if row == 2 {
        seq![0xFFu8, 0x81, 0x61, 0x73, 0x64, 0x66, 0x67, 0x68, 0x6A, 0x6B, 0x6C, 0x3B, 0x27, 0x28]
    } else {
        seq![0x80u8, 0x83, 0x82, 0x7A, 0x78, 0x63, 0x76, 0x62, 0x6E, 0x6D, 0x2C, 0x2E, 0x2F, 0x20]
    }
}

/// The key code at a row and column of the key map, if inside it.
pub open spec fn key_at(row: usize, col: usize) -> Option<u8> {
    if row < 4 && col < 14 {
        Some(key_row(row as int)[col as int])
    } else {
        None
    }
}

pub fn key_value(row: usize, col: usize) -> (r: Option<u8>)
    ensures
        r == key_at(row, col),
{
    if row >= 4 || col >= 14 {
        return None;
    }
    let keys: [u8; 14] = if row == 0 {
        [0x60, 0x31, 0x32, 0x33, 0x34, 0x35, 0x36, 0x37, 0x38, 0x39, 0x30, 0x2D, 0x3D, 0x2A]
    } else if row == 1 {
        [0x2B, 0x71, 0x77, 0x65, 0x72, 0x74, 0x79, 0x75, 0x69, 0x6F, 0x70, 0x5B, 0x5D, 0x5C]
    } else if row == 2 {
        [0xFF, 0x81, 0x61, 0x73, 0x64, 0x66, 0x67, 0x68, 0x6A, 0x6B, 0x6C, 0x3B, 0x27, 0x28]
    } else {
        [0x80, 0x83, 0x82, 0x7A, 0x78, 0x63, 0x76, 0x62, 0x6E, 0x6D, 0x2C, 0x2E, 0x2F, 0x20]
    };
    assert(keys@ =~= key_row(row as int));
    Some(keys[col])
}

/// The character a key types with Shift held, or the key's own character.
pub open spec fn shifted(value: char, shift_pressed: bool) -> char {
    if !shift_pressed {
        value
    } else if 'a' <= value && value <= 'z' {
        ((value as u32) - 32) as char
    } else {
        match value {
            '1' => '!',
            '2' => '@',
            '3' => '#',
            '4' => '$',
            '5' => '%',
            '6' => '^',
            '7' => '&',
            '8' => '*',
            '9' => '(',
            '0' => ')',
            '-' => '_',
            '=' => '+',
            '[' => '{',
            ']' => '}',
            '\\' => '|',
            '\'' => '"',
            '`' => '~',
            ',' => '<',
            '.' => '>',
            '/' => '?',
            ';' => ':',
            _ => value,
        }
    }
}

pub fn apply_shift(value: char, shift_pressed: bool) -> (r: char)
    ensures
        r == shifted(value, shift_pressed),
{
    if !shift_pressed {
        return value;
    }
    if 'a' <= value && value <= 'z' {
        return crate::text::char_to_ascii_upper(value);
    }
    match value {
        '1' => '!',
        '2' => '@',
        '3' => '#',
        '4' => '$',
        '5' => '%',
        '6' => '^',
        '7' => '&',
        '8' => '*',
        '9' => '(',
        '0' => ')',
        '-' => '_',
        '=' => '+',
        '[' => '{',
        ']' => '}',
        '\\' => '|',
        '\'' => '"',
        '`' => '~',
        ',' => '<',
        '.' => '>',
        '/' => '?',
        ';' => ':',
        _ => value,
    }
}

/// Which modifier keys are held.
#[derive(Debug, Clone, Copy, PartialEq, Eq, Structural)]
pub struct KeyState {
    pub fn_pressed: bool,
    pub shift_pressed: bool,
}

/// The input a pressed key gives with the modifiers in `state`.
pub open spec fn pressed_key_input(key: u8, col: usize, state: KeyState) -> Option<InputEvent> {
    if key == KEY_ENTER && col == 13 {
        Some(InputEvent::Select)
    } else if key == KEY_BACKSPACE && col == 13 {
        Some(InputEvent::Backspace)
    } else if key == 0x60 {
        if state.shift_pressed { Some(InputEvent::Char('~')) } else { Some(InputEvent::Back) }
    } else if key == 0x3B {
        if state.shift_pressed { Some(InputEvent::Char(':')) } else { Some(InputEvent::Up) }
    } else if key == 0x2C {
        if state.shift_pressed {
            Some(InputEvent::Char('<'))
        } else if state.fn_pressed {
            Some(InputEvent::Left)
        } else {
            Some(InputEvent::Up)
        }
    } else if key == 0x2E {
        if state.shift_pressed { Some(InputEvent::Char('>')) } else { Some(InputEvent::Down) }
    } else if key == 0x2F {
        if state.shift_pressed {
            Some(InputEvent::Char('?'))
        } else if state.fn_pressed {
            Some(InputEvent::Right)
        } else {
            Some(InputEvent::Down)
        }
    } else if 0x20 <= key && key <= 0x7E {
        Some(InputEvent::Char(shifted(key as char, state.shift_pressed)))
    } else {
        None
    }
}

/// One key event (key number, pressed or released): the modifiers after it
/// and the input it gives.
pub open spec fn key_event(state: KeyState, value: u8, pressed: bool) -> (KeyState, Option<
    InputEvent,
>) {
    match physical_key(value) {
        None => (state, None),
        Some((row, col)) => match key_at(row, col) {
            None => (state, None),
            Some(key) => if key == KEY_FN {
                (KeyState { fn_pressed: pressed, ..state }, None)
            } else if key == KEY_LEFT_SHIFT {
                (KeyState { shift_pressed: pressed, ..state }, None)
            } else if !pressed {
                (state, None)
            } else {
                (state, pressed_key_input(key, col, state))
            },
        },
    }
}

/// A batch of raw events read from the key FIFO: bit 7 set for a press, the
/// key number in the low seven bits. The result is the last input any of them
/// gave.
pub open spec fn key_events(state: KeyState, events: Seq<u8>) -> (KeyState, Option<InputEvent>)
    decreases events.len(),
{
    if events.len() == 0 {
        (state, None)
    } else {
        let (s, last) = key_events(state, events.drop_last());
        let e = events.last();
        let (s2, input) = key_event(s, e % 128, e >= 128);
        (s2, if input is Some { input } else { last })
    }
}

/// Modifier tracking of the TCA8418 keyboard.
pub struct Tca8418Keyboard {
    fn_pressed: bool,
    shift_pressed: bool,
}

impl View for Tca8418Keyboard {
    type V = KeyState;

    closed spec fn view(&self) -> KeyState {
        KeyState { fn_pressed: self.fn_pressed, shift_pressed: self.shift_pressed }
    }
}

impl Tca8418Keyboard {
    /// A keyboard with no modifier held.
    pub fn released() -> (r: Self)
        ensures
            r@ == (KeyState { fn_pressed: false, shift_pressed: false }),
    {
        Tca8418Keyboard { fn_pressed: false, shift_pressed: false }
    }

    /// Applies one key event and returns the input it gives, if any.
    pub fn map_key_event(&mut self, value: u8, pressed: bool) -> (r: Option<InputEvent>)
        ensures
            (final(self)@, r) == key_event(old(self)@, value, pressed),
    {
        let (row, col) = match map_raw_key_to_physical(value) {
            Some(p) => p,
            None => return None,
        };
        let key = match key_value(row, col) {
            Some(k) => k,
            None => return None,
        };
        if key == KEY_FN {
            self.fn_pressed = pressed;
            return None;
        }
        if key == KEY_LEFT_SHIFT {
            self.shift_pressed = pressed;
            return None;
        }
        if !pressed {
            return None;
        }
        if key == KEY_ENTER && col == 13 {
            Some(InputEvent::Select)
        } else if key == KEY_BACKSPACE && col == 13 {
            Some(InputEvent::Backspace)
        } else if key == 0x60 {
            if self.shift_pressed {
                Some(InputEvent::Char('~'))
            } else {
                Some(InputEvent::Back)
            }
        } else if key == 0x3B {
            if self.shift_pressed {
                Some(InputEvent::Char(':'))
            } else {
                Some(InputEvent::Up)
            }
        } else if key == 0x2C {
            if self.shift_pressed {
                Some(InputEvent::Char('<'))
            } else if self.fn_pressed {
                Some(InputEvent::Left)
            } else {
                Some(InputEvent::Up)
            }
        } else if key == 0x2E {
            if self.shift_pressed {
                Some(InputEvent::Char('>'))
            } else {
                Some(InputEvent::Down)
            }
        } else if key == 0x2F {
            if self.shift_pressed {
                Some(InputEvent::Char('?'))
            } else if self.fn_pressed {
                Some(InputEvent::Right)
            } else {
                Some(InputEvent::Down)
            }
        } else if 0x20 <= key && key <= 0x7E {
            Some(InputEvent::Char(apply_shift(key as char, self.shift_pressed)))
        } else {
            None
        }
    }

    /// Applies the raw events of one FIFO read in order and returns the last
    /// input they gave.
    pub fn decode_events(&mut self, events: &Vec<u8>) -> (r: Option<InputEvent>)
        ensures
            (final(self)@, r) == key_events(old(self)@, events@),
    {
        let mut selected: Option<InputEvent> = None;
        let mut i: usize = 0;
        while i < events.len()
            invariant
                i <= events.len(),
                (self@, selected) == key_events(old(self)@, events@.take(i as int)),
            decreases events.len() - i,
        {
            let event = events[i];
            assert(events@.take(i + 1).drop_last() =~= events@.take(i as int));
            assert(events@.take(i + 1).last() == event);
            let pressed = event >= 128;
            let value = event % 128;
            match self.map_key_event(value, pressed) {
                Some(input) => {
                    selected = Some(input);
                },
                None => {},
            }
            i += 1;
        }
        assert(events@.take(events.len() as int) =~= events@);
        selected
    }
}

/// What the audio codec reports.
#[derive(Debug, Clone, Copy, PartialEq, Eq)]
pub struct AudioStatus {
    pub codec_present: bool,
    pub codec_name: &'static str,
    pub codec_address: Option<u8>,
    pub speaker_ready: bool,
    pub microphone_ready: bool,
}

/// I2C address of the ES8311 codec.
pub const ES8311_ADDR: u8 = 0x18;

impl AudioStatus {
    /// The report when no codec answered.
    pub fn missing() -> (r: Self)
        ensures
            !r.codec_present,
            r.codec_name@ == "ES8311"@,
            r.codec_address is None,
            !r.speaker_ready,
            !r.microphone_ready,
    {
        AudioStatus {
            codec_present: false,
            codec_name: "ES8311",
            codec_address: None,
            speaker_ready: false,
            microphone_ready: false,
        }
    }
}

/// The ES8311 codec: which of its paths are enabled.
#[derive(Debug, Clone, Copy, PartialEq, Eq, Structural)]
pub struct Es8311Codec {
    speaker_ready: bool,
    microphone_ready: bool,
}

impl Es8311Codec {
    /// A codec that answered its probe, with both paths still disabled.
    pub fn probed() -> (r: Self)
        ensures
            !r.speaker_enabled(),
            !r.microphone_enabled(),
    {
        Es8311Codec { speaker_ready: false, microphone_ready: false }
    }

    pub closed spec fn speaker_enabled(&self) -> bool {
        self.speaker_ready
    }

    pub closed spec fn microphone_enabled(&self) -> bool {
        self.microphone_ready
    }

    /// Records that the speaker path was enabled or disabled.
    pub fn set_speaker_ready(&mut self, ready: bool)
        ensures
            final(self).speaker_enabled() == ready,
            final(self).microphone_enabled() == old(self).microphone_enabled(),
    {
        self.speaker_ready = ready;
    }

    /// Records that the microphone path was enabled or disabled.
    pub fn set_microphone_ready(&mut self, ready: bool)
        ensures
            final(self).microphone_enabled() == ready,
            final(self).speaker_enabled() == old(self).speaker_enabled(),
    {
        self.microphone_ready = ready;
    }

    /// The report of a present codec.
    pub fn status(&self) -> (r: AudioStatus)
        ensures
            r.codec_present,
            r.codec_name@ == "ES8311"@,
            r.codec_address == Some(ES8311_ADDR),
            r.speaker_ready == self.speaker_enabled(),
            r.microphone_ready == self.microphone_enabled(),
    {
        AudioStatus {
            codec_present: true,
            codec_name: "ES8311",
            codec_address: Some(ES8311_ADDR),
            speaker_ready: self.speaker_ready,
            microphone_ready: self.microphone_ready,
        }
    }
}

/// What the IMU reports.
#[derive(Debug, Clone, Copy, PartialEq, Eq)]
pub struct ImuStatus {
    pub present: bool,
    pub name: &'static str,
    pub address: Option<u8>,
    pub chip_id: Option<u8>,
}

impl ImuStatus {
    /// The report when no IMU answered.
    pub fn missing() -> (r: Self)
        ensures
            !r.present,
            r.name@ == "BMI270"@,
            r.address is None,
            r.chip_id is None,
    {
        ImuStatus { present: false, name: "BMI270", address: None, chip_id: None }
    }
}

/// Chip id a BMI270 answers with.
pub const BMI270_CHIP_ID: u8 = 0x24;

/// A BMI270 found on the bus.
#[derive(Debug, Clone, Copy, PartialEq, Eq, Structural)]
pub struct Bmi270 {
    address: u8,
    chip_id: u8,
}

pub open spec fn unexpected_chip_message(address: u8, chip_id: u8) -> Seq<char> {
    "bmi270 unexpected chip id 0x"@ + hex_lower(chip_id as nat, 2) + " at 0x"@ + hex_lower(
        address as nat,
        2,
    )
}

impl Bmi270 {
    pub closed spec fn spec_address(&self) -> u8 {
        self.address
    }

    pub closed spec fn spec_chip_id(&self) -> u8 {
        self.chip_id
    }

    /// Accepts the chip id read at `address` when it is the BMI270's; the
    /// error names both otherwise.
    pub fn check_chip_id(address: u8, chip_id: u8) -> (r: Result<Bmi270, String>)
        ensures
            chip_id == BMI270_CHIP_ID <==> r is Ok,
            r matches Ok(dev) ==> dev.spec_address() == address && dev.spec_chip_id() == chip_id,
            r matches Err(msg) ==> msg@ == unexpected_chip_message(address, chip_id),
    {
        if chip_id == BMI270_CHIP_ID {
            return Ok(Bmi270 { address, chip_id });
        }
        let mut msg = "bmi270 unexpected chip id 0x".to_owned();
        push_hex_lower(&mut msg, chip_id as u64, 2);
        push_str(&mut msg, " at 0x");
        push_hex_lower(&mut msg, address as u64, 2);
        Err(msg)
    }

    /// The report of this IMU.
    pub fn status(&self) -> (r: ImuStatus)
        ensures
            r.present,
            r.name@ == "BMI270"@,
            r.address == Some(self.spec_address()),
            r.chip_id == Some(self.spec_chip_id()),
    {
        ImuStatus {
            present: true,
            name: "BMI270",
            address: Some(self.address),
            chip_id: Some(self.chip_id),
        }
    }
}

/// The ES8311 DAC volume register for a speaker volume in percent: 0 for
/// silence up to 0xBF (0 dB) at 100, proportionally; volumes above 100 count
/// as 100.
pub open spec fn dac_volume(percent: u8) -> u8 {
    ((if percent > 100 {
        100
    } else {
        percent as int
    }) * 0xBF / 100) as u8
}

pub fn dac_volume_register(percent: u8) -> (r: u8)
    ensures
        r == dac_volume(percent),
{
    let capped: u32 = if percent > 100 {
        100
    } else {
        percent as u32
    };
    (capped * 0xBF / 100) as u8
}

/// Width of the startup progress bar, in pixels.
pub const STARTUP_PROGRESS_WIDTH: u32 = 184;

/// How much of the startup progress bar is filled for a stage `progress`
/// percent of the way through; progress above 100 counts as 100.
pub open spec fn startup_fill(progress: u8) -> u32 {
    (STARTUP_PROGRESS_WIDTH * (if progress > 100 {
        100
    } else {
        progress as int
    }) / 100) as u32
}

pub fn startup_progress_fill(progress: u8) -> (r: u32)
    ensures
        r == startup_fill(progress),
        r <= STARTUP_PROGRESS_WIDTH,
{
    let capped: u32 = if progress > 100 {
        100
    } else {
        progress as u32
    };
    STARTUP_PROGRESS_WIDTH * capped / 100
}

/// The digit keys, in the order of the keyboard's top row.
pub open spec fn digit_keys() -> Seq<char> {
    seq!['1', '2', '3', '4', '5', '6', '7', '8', '9', '0']
}

/// The symbols those keys carry on a US layout.
pub open spec fn shifted_digit_symbols() -> Seq<char> {
    seq!['!', '@', '#', '$', '%', '^', '&', '*', '(', ')']
}

/// With Shift held, each digit key types the US-layout symbol on it (1..9
/// and 0 give ! @ # $ % ^ & * ( ) in turn), a letter types its capital, and
/// every other character outside the shifted punctuation types itself;
/// without Shift every key types itself.
pub proof fn law_shift_gives_us_layout(i: int, c: char)
    requires
        0 <= i < 10,
    ensures
        shifted(digit_keys()[i], true) == shifted_digit_symbols()[i],
        'a' <= c <= 'z' ==> shifted(c, true) as u32 == (c as u32) - 32,
        shifted(c, false) == c,
        !('a' <= c <= 'z') && !digit_keys().contains(c) && !seq![
            '-',
            '=',
            '[',
            ']',
            '\\',
            '\'',
            '`',
            ',',
            '.',
            '/',
            ';',
        ].contains(c) ==> shifted(c, true) == c,
{
    let d = digit_keys();
    let p = seq!['-', '=', '[', ']', '\\', '\'', '`', ',', '.', '/', ';'];
    if !('a' <= c <= 'z') && !d.contains(c) && !p.contains(c) {
        assert(d[0] == '1' && d[1] == '2' && d[2] == '3' && d[3] == '4' && d[4] == '5');
        assert(d[5] == '6' && d[6] == '7' && d[7] == '8' && d[8] == '9' && d[9] == '0');
        assert(p[0] == '-' && p[1] == '=' && p[2] == '[' && p[3] == ']' && p[4] == '\\');
        assert(p[5] == '\'' && p[6] == '`' && p[7] == ',' && p[8] == '.' && p[9] == '/' && p[10]
            == ';');
    }
}

} // verus!
