use vstd::prelude::*;
use vstd::string::*;

use crate::color::Color;
use crate::cue::{Cue, RampRatio, CHANNELS};
use vstd::arithmetic::div_mod::lemma_fundamental_div_mod;
use vstd::std_specs::vec::vec_index_mut;

verus! {

/// The rejected inputs of the accessor layer: every way a call on an [`Iris`]
/// can be refused instead of changing or reading a cue.
#[derive(Clone, Copy, PartialEq, Eq, Structural, Debug)]
pub enum AccessError {
    /// A setter was called while no cue is active.
    NoActiveCue,
    /// A timing parameter that must stay positive was handed a zero.
    ZeroValue,
    /// A color string did not have the canonical `#rrggbb` shape.
    InvalidColor,
}

/// The lowercase hex digit for one value below 16.
pub open spec fn nibble_char(n: int) -> char {
    if n == 0 {
        '0'
    } else if n == 1 {
        '1'
    } else if n == 2 {
        '2'
    } else if n == 3 {
        '3'
    } else if n == 4 {
        '4'
    } else if n == 5 {
        '5'
    } else if n == 6 {
        '6'
    } else if n == 7 {
        '7'
    } else if n == 8 {
        '8'
    } else if n == 9 {
        '9'
    } else if n == 10 {
        'a'
    } else if n == 11 {
        'b'
    } else if n == 12 {
        'c'
    } else if n == 13 {
        'd'
    } else if n == 14 {
        'e'
    } else {
        'f'
    }
}

/// Whether a character is a hex digit, in either case.
pub open spec fn is_hex_digit(c: char) -> bool {
    (48 <= c as int && c as int <= 57)  // '0' ..= '9'
    || (97 <= c as int && c as int <= 102)  // 'a' ..= 'f'
    || (65 <= c as int && c as int <= 70)  // 'A' ..= 'F'
}

/// The value of one hex digit, in either case.
pub open spec fn nibble_val(c: char) -> int {
    if 48 <= c as int && c as int <= 57 {
        c as int - 48
    } else if 97 <= c as int && c as int <= 102 {
        c as int - 87
    } else if 65 <= c as int && c as int <= 70 {
        c as int - 55
    } else {
        0
    }
}

/// The canonical hex form of a color: `#` followed by six lowercase hex
/// digits, two per channel, in RGB order.
pub open spec fn hex_color_chars(c: Color) -> Seq<char> {
    seq![
        '#',
        nibble_char(c.red as int / 16),
        nibble_char(c.red as int % 16),
        nibble_char(c.green as int / 16),
        nibble_char(c.green as int % 16),
        nibble_char(c.blue as int / 16),
        nibble_char(c.blue as int % 16),
    ]
}

/// Whether a string is an acceptable hex form of a color: a `#` followed by
/// exactly six hex digits of either case.
pub open spec fn valid_hex_color_chars(s: Seq<char>) -> bool {
    s.len() == 7 && s[0] == '#' && (forall|i: int| 1 <= i < 7 ==> is_hex_digit(#[trigger] s[i]))
}

/// The color an acceptable hex string denotes.
pub open spec fn hex_color_value(s: Seq<char>) -> Color {
    Color {
        red: (nibble_val(s[1]) * 16 + nibble_val(s[2])) as u8,
        green: (nibble_val(s[3]) * 16 + nibble_val(s[4])) as u8,
        blue: (nibble_val(s[5]) * 16 + nibble_val(s[6])) as u8,
    }
}

/// The error hex::decode reports for a rejected string.
#[verifier::external_type_specification]
#[verifier::external_body]
pub struct ExFromHexError(hex::FromHexError);

/// Relies on hex::encode: each byte becomes two lowercase hex digits, high
/// nibble first, in order.
#[verifier::external_body]
fn hex_encode_call(bytes: &[u8]) -> (s: String)
    ensures
        s@.len() == 2 * bytes@.len(),
        forall|i: int|
            0 <= i < bytes@.len() ==> s@[2 * i] == nibble_char((#[trigger] bytes@[i]) as int / 16)
                && s@[2 * i + 1] == nibble_char(bytes@[i] as int % 16),
{
    hex::encode(bytes)
}

/// Relies on hex::decode: it succeeds exactly on even-length strings of hex
/// digits of either case, and then returns one byte per digit pair, high
/// nibble first.
///
/// hex::decode reads the UTF-8 bytes of the string, while this contract
/// speaks of its characters; the two views agree. A string of hex digits is
/// ASCII, so its bytes coincide with its characters, and any other string
/// is rejected byte-wise too: a non-ASCII character contributes only bytes
/// at or above 0x80, which are no hex digits.
#[verifier::external_body]
fn hex_decode_call(s: &str) -> (r: Result<Vec<u8>, hex::FromHexError>)
    ensures
        r is Ok <==> (s@.len() % 2 == 0 && (forall|i: int|
            0 <= i < s@.len() ==> is_hex_digit(#[trigger] s@[i]))),
        r is Ok ==> r->Ok_0@.len() == s@.len() / 2,
        r is Ok ==> forall|i: int|
            0 <= i < r->Ok_0@.len() ==> (#[trigger] r->Ok_0@[i]) as int == nibble_val(s@[2 * i])
                * 16 + nibble_val(s@[2 * i + 1]),
{
    hex::decode(s)
}

/// Convert a [`Color`] to its canonical hex string.
pub fn to_hex(color: Color) -> (s: String)
    ensures
        s@ == hex_color_chars(color),
{
    let bytes: Vec<u8> = vec![color.red, color.green, color.blue];
    let encoded = hex_encode_call(bytes.as_slice());
    let mut output = String::from_str("#");
    output.append(encoded.as_str());
    proof {
        reveal_strlit("#");
        assert(bytes@[0] == color.red);
        assert(bytes@[1] == color.green);
        assert(bytes@[2] == color.blue);
        assert(output@ =~= hex_color_chars(color));
    }
    output
}

/// Parse the hex form of a color. Returns the color for a `#` followed by
/// six hex digits of either case, and nothing for every other string.
pub fn from_hex(string: String) -> (r: Option<Color>)
    ensures
        r == (if valid_hex_color_chars(string@) {
            Some(hex_color_value(string@))
        } else {
            None::<Color>
        }),
{
    let n = string.as_str().unicode_len();
    if n != 7 {
        return None;
    }
    let first = string.as_str().get_char(0);
    if first != '#' {
        proof {
            reveal_strlit("#");
        }
        return None;
    }
    proof {
        reveal_strlit("#");
    }
    let tail = string.as_str().substring_char(1, 7);
    match hex_decode_call(tail) {
        Ok(bytes) => {
            proof {
                assert(forall|i: int| 0 <= i < 6 ==> tail@[i] == string@[i + 1]);
            }
            Some(Color::new(bytes[0], bytes[1], bytes[2]))
        },
        Err(_) => {
            proof {
                assert(!valid_hex_color_chars(string@)) by {
                    assert(tail@.len() == 6);
                    if valid_hex_color_chars(string@) {
                        assert(forall|i: int|
                            0 <= i < 6 ==> is_hex_digit(#[trigger] tail@[i])) by {
                            assert(forall|i: int| 0 <= i < 6 ==> tail@[i] == string@[i + 1]);
                        }
                    }
                }
            }
            None
        },
    }
}

/// Owns a collection of [`Cue`]s and tracks which one, if any, is currently
/// active. All field accessors below act on the active cue; the getters fall
/// back to the defaults of [`Cue::default`] when none is active, and the
/// setters refuse to act instead.
pub struct Iris {
    cues: Vec<Cue>,
    current: Option<usize>,
}

impl Iris {
    /// The cues this collection holds, for use in contracts.
    pub closed spec fn cues_view(self) -> Seq<Cue> {
        self.cues@
    }

    /// The index of the active cue, if one is active, for use in contracts.
    pub closed spec fn active_view(self) -> Option<int> {
        match self.current {
            Some(i) => Some(i as int),
            None => None,
        }
    }

    /// The structural invariant: an active index points into the collection.
    pub closed spec fn wf(self) -> bool {
        match self.current {
            Some(i) => i < self.cues@.len(),
            None => true,
        }
    }

    pub fn new() -> (iris: Iris)
        ensures
            iris.wf(),
            iris.cues_view() =~= Seq::<Cue>::empty(),
            iris.active_view() is None,
    {
        Iris { cues: Vec::new(), current: None }
    }

    /// Append a fresh cue, the white breathing preset, to the collection.
    /// It does not become active.
    pub fn add_cue(&mut self)
        requires
            old(self).wf(),
        ensures
            final(self).wf(),
            final(self).active_view() == old(self).active_view(),
            final(self).cues_view().len() == old(self).cues_view().len() + 1,
            forall|i: int|
                0 <= i < old(self).cues_view().len() ==> #[trigger] final(self).cues_view()[i]
                    == old(self).cues_view()[i],
            final(self).cues_view().last().wf(),
            final(self).cues_view().last().is_white_breathing(),
    {
        self.cues.push(Cue::white_breathing());
    }

    /// Remove the cue at `id`.
    ///
    /// The active selection follows the surviving cues: an active cue
    /// behind the removed one stays active under its new index, and
    /// removing the active cue itself deactivates it. That last point is
    /// this collection's defined behaviour, not an accident: the
    /// collection owns its cues, so a selection that outlived its cue
    /// would dangle, and every later accessor call would have to fault on
    /// it; deactivating keeps the invariant that an active index always
    /// points into the collection.
    pub fn delete_cue(&mut self, id: usize)
        requires
            old(self).wf(),
            id < old(self).cues_view().len(),
        ensures
            final(self).wf(),
            final(self).cues_view() =~= old(self).cues_view().remove(id as int),
            final(self).active_view() == (match old(self).active_view() {
                Some(a) => if a == id {
                    None::<int>
                } else if a > id {
                    Some(a - 1)
                } else {
                    Some(a)
                },
                None => None::<int>,
            }),
    {
        self.cues.remove(id);
        match self.current {
            Some(a) => {
                if a == id {
                    self.current = None;
                } else if a > id {
                    self.current = Some(a - 1);
                }
            },
            None => {},
        }
    }

    /// Make the cue at `id` the active one.
    pub fn launch_cue(&mut self, id: usize)
        requires
            old(self).wf(),
            id < old(self).cues_view().len(),
        ensures
            final(self).wf(),
            final(self).cues_view() == old(self).cues_view(),
            final(self).active_view() == Some(id as int),
    {
        self.current = Some(id);
    }

    pub fn num_cues(&self) -> (n: usize)
        ensures
            n == self.cues_view().len(),
    {
        self.cues.len()
    }

    pub fn current_cue_id(&self) -> (id: Option<usize>)
        ensures
            id == (match self.active_view() {
                Some(i) => Some(i as usize),
                None => None::<usize>,
            }),
    {
        self.current
    }

    /// The hex form of the active cue's color for one LED at a given time,
    /// or the off color, black in its canonical hex form, when no cue is
    /// active.
    pub fn current_color(&self, time_ms: u32, channel: u8) -> (s: String)
        requires
            self.wf(),
            channel < CHANNELS,
        ensures
            s@ == (match self.active_view() {
                Some(i) => hex_color_chars(
                    self.cues_view()[i].current_color_spec(time_ms as int, channel),
                ),
                None => hex_color_chars(Color { red: 0, green: 0, blue: 0 }),
            }),
    {
        match self.current {
            Some(i) => to_hex(self.cues[i].current_color(time_ms, channel)),
            None => to_hex(Color::black()),
        }
    }

    /// Number of channels. Currently returns a constant value, but this may
    /// be changed in the future.
    pub fn num_channels(&self) -> (n: u8)
        ensures
            n == CHANNELS,
    {
        CHANNELS
    }

    /// Whether the LED `num` of the active cue is enabled; every LED of the
    /// default cue is.
    pub fn channel(&self, num: usize) -> (b: bool)
        requires
            self.wf(),
            num < 12,
        ensures
            b == (match self.active_view() {
                Some(i) => self.cues_view()[i].channels@[num as int],
                None => true,
            }),
    {
        match self.current {
            Some(i) => self.cues[i].channels[num],
            None => true,
        }
    }

    /// Enable or disable the LED `num` of the active cue.
    pub fn set_channel(&mut self, num: usize, value: bool) -> (r: Result<(), AccessError>)
        requires
            old(self).wf(),
            num < 12,
        ensures
            final(self).wf(),
            final(self).active_view() == old(self).active_view(),
            match old(self).active_view() {
                Some(i) => r == Ok::<(), AccessError>(()) && final(self).cues_view() =~= old(
                    self,
                ).cues_view().update(
                    i,
                    (Cue {
                        channels: vstd::array::spec_array_update(
                            old(self).cues_view()[i].channels,
                            num as int,
                            value,
                        ),
                        ..old(self).cues_view()[i]
                    }),
                ),
                None => r == Err::<(), AccessError>(AccessError::NoActiveCue) && *final(self) == *old(self),
            },
    {
        match self.current {
            Some(i) => {
                let cue = vec_index_mut(&mut self.cues, i);
                cue.channels[num] = value;
                Ok(())
            },
            None => Err(AccessError::NoActiveCue),
        }
    }

    /// Whether the active cue plays in reverse; the default cue does not.
    pub fn reverse(&self) -> (b: bool)
        requires
            self.wf(),
        ensures
            b == (match self.active_view() {
                Some(i) => self.cues_view()[i].reverse,
                None => false,
            }),
    {
        match self.current {
            Some(i) => self.cues[i].reverse,
            None => false,
        }
    }

    /// Set the reverse flag of the active cue.
    pub fn set_reverse(&mut self, value: bool) -> (r: Result<(), AccessError>)
        requires
            old(self).wf(),
        ensures
            final(self).wf(),
            final(self).active_view() == old(self).active_view(),
            match old(self).active_view() {
                Some(i) => r == Ok::<(), AccessError>(()) && final(self).cues_view() =~= old(
                    self,
                ).cues_view().update(i, (Cue { reverse: value, ..old(self).cues_view()[i] })),
                None => r == Err::<(), AccessError>(AccessError::NoActiveCue) && *final(self) == *old(self),
            },
    {
        match self.current {
            Some(i) => {
                vec_index_mut(&mut self.cues, i).reverse = value;
                Ok(())
            },
            None => Err(AccessError::NoActiveCue),
        }
    }

    /// The time divisor of the active cue; the default cue's is 12.
    pub fn time_divisor(&self) -> (v: u8)
        requires
            self.wf(),
        ensures
            v == (match self.active_view() {
                Some(i) => self.cues_view()[i].time_divisor,
                None => 12u8,
            }),
    {
        match self.current {
            Some(i) => self.cues[i].time_divisor,
            None => 12,
        }
    }

    /// Set the time divisor of the active cue. Zero would make the phase
    /// offset undefined, so it is refused.
    pub fn set_time_divisor(&mut self, value: u8) -> (r: Result<(), AccessError>)
        requires
            old(self).wf(),
        ensures
            final(self).wf(),
            final(self).active_view() == old(self).active_view(),
            match old(self).active_view() {
                Some(i) => if value == 0 {
                    r == Err::<(), AccessError>(AccessError::ZeroValue) && *final(self) == *old(self)
                } else {
                    r == Ok::<(), AccessError>(()) && final(self).cues_view() =~= old(
                        self,
                    ).cues_view().update(
                        i,
                        (Cue { time_divisor: value, ..old(self).cues_view()[i] }),
                    )
                },
                None => r == Err::<(), AccessError>(AccessError::NoActiveCue) && *final(self) == *old(self),
            },
    {
        match self.current {
            Some(i) => {
                if value == 0 {
                    Err(AccessError::ZeroValue)
                } else {
                    vec_index_mut(&mut self.cues, i).time_divisor = value;
                    Ok(())
                }
            },
            None => Err(AccessError::NoActiveCue),
        }
    }

    /// The animation period of the active cue in milliseconds; the default
    /// cue's is 1000.
    pub fn duration_ms(&self) -> (d: u16)
        requires
            self.wf(),
        ensures
            d == (match self.active_view() {
                Some(i) => self.cues_view()[i].duration_ms,
                None => 1000u16,
            }),
    {
        match self.current {
            Some(i) => self.cues[i].duration_ms,
            None => 1000,
        }
    }

    /// Set the animation period of the active cue. A zero period would stop
    /// the animation from being defined, so it is refused.
    pub fn set_duration_ms(&mut self, value: u16) -> (r: Result<(), AccessError>)
        requires
            old(self).wf(),
        ensures
            final(self).wf(),
            final(self).active_view() == old(self).active_view(),
            match old(self).active_view() {
                Some(i) => if value == 0 {
                    r == Err::<(), AccessError>(AccessError::ZeroValue) && *final(self) == *old(self)
                } else {
                    r == Ok::<(), AccessError>(()) && final(self).cues_view() =~= old(
                        self,
                    ).cues_view().update(
                        i,
                        (Cue { duration_ms: value, ..old(self).cues_view()[i] }),
                    )
                },
                None => r == Err::<(), AccessError>(AccessError::NoActiveCue) && *final(self) == *old(self),
            },
    {
        match self.current {
            Some(i) => {
                if value == 0 {
                    Err(AccessError::ZeroValue)
                } else {
                    vec_index_mut(&mut self.cues, i).duration_ms = value;
                    Ok(())
                }
            },
            None => Err(AccessError::NoActiveCue),
        }
    }

    /// The ramp ratio of the active cue; the default cue's is 128/256.
    pub fn ramp_ratio(&self) -> (q: RampRatio)
        requires
            self.wf(),
        ensures
            q == (match self.active_view() {
                Some(i) => self.cues_view()[i].ramp_ratio,
                None => RampRatio(128),
            }),
    {
        match self.current {
            Some(i) => self.cues[i].ramp_ratio,
            None => RampRatio::from_bits(128),
        }
    }

    /// Set the ramp ratio of the active cue.
    pub fn set_ramp_ratio(&mut self, value: RampRatio) -> (r: Result<(), AccessError>)
        requires
            old(self).wf(),
        ensures
            final(self).wf(),
            final(self).active_view() == old(self).active_view(),
            match old(self).active_view() {
                Some(i) => r == Ok::<(), AccessError>(()) && final(self).cues_view() =~= old(
                    self,
                ).cues_view().update(i, (Cue { ramp_ratio: value, ..old(self).cues_view()[i] })),
                None => r == Err::<(), AccessError>(AccessError::NoActiveCue) && *final(self) == *old(self),
            },
    {
        match self.current {
            Some(i) => {
                vec_index_mut(&mut self.cues, i).ramp_ratio = value;
                Ok(())
            },
            None => Err(AccessError::NoActiveCue),
        }
    }

    /// The hex form of the active cue's start color; the default cue's is
    /// black.
    pub fn start_color(&self) -> (s: String)
        requires
            self.wf(),
        ensures
            s@ == (match self.active_view() {
                Some(i) => hex_color_chars(self.cues_view()[i].start_color),
                None => hex_color_chars(Color { red: 0, green: 0, blue: 0 }),
            }),
    {
        match self.current {
            Some(i) => to_hex(self.cues[i].start_color),
            None => to_hex(Color::black()),
        }
    }

    /// Set the start color of the active cue from its hex form; a string
    /// without the canonical shape is refused.
    pub fn set_start_color(&mut self, value: String) -> (r: Result<(), AccessError>)
        requires
            old(self).wf(),
        ensures
            final(self).wf(),
            final(self).active_view() == old(self).active_view(),
            match old(self).active_view() {
                Some(i) => if valid_hex_color_chars(value@) {
                    r == Ok::<(), AccessError>(()) && final(self).cues_view() =~= old(
                        self,
                    ).cues_view().update(
                        i,
                        (Cue { start_color: hex_color_value(value@), ..old(self).cues_view()[i] }),
                    )
                } else {
                    r == Err::<(), AccessError>(AccessError::InvalidColor) && *final(self) == *old(self)
                },
                None => r == Err::<(), AccessError>(AccessError::NoActiveCue) && *final(self) == *old(self),
            },
    {
        match self.current {
            Some(i) => {
                match from_hex(value) {
                    Some(color) => {
                        vec_index_mut(&mut self.cues, i).start_color = color;
                        Ok(())
                    },
                    None => Err(AccessError::InvalidColor),
                }
            },
            None => Err(AccessError::NoActiveCue),
        }
    }

    /// The hex form of the active cue's end color; the default cue's is
    /// black.
    pub fn end_color(&self) -> (s: String)
        requires
            self.wf(),
        ensures
            s@ == (match self.active_view() {
                Some(i) => hex_color_chars(self.cues_view()[i].end_color),
                None => hex_color_chars(Color { red: 0, green: 0, blue: 0 }),
            }),
    {
        match self.current {
            Some(i) => to_hex(self.cues[i].end_color),
            None => to_hex(Color::black()),
        }
    }

    /// Set the end color of the active cue from its hex form; a string
    /// without the canonical shape is refused.
    pub fn set_end_color(&mut self, value: String) -> (r: Result<(), AccessError>)
        requires
            old(self).wf(),
        ensures
            final(self).wf(),
            final(self).active_view() == old(self).active_view(),
            match old(self).active_view() {
                Some(i) => if valid_hex_color_chars(value@) {
                    r == Ok::<(), AccessError>(()) && final(self).cues_view() =~= old(
                        self,
                    ).cues_view().update(
                        i,
                        (Cue { end_color: hex_color_value(value@), ..old(self).cues_view()[i] }),
                    )
                } else {
                    r == Err::<(), AccessError>(AccessError::InvalidColor) && *final(self) == *old(self)
                },
                None => r == Err::<(), AccessError>(AccessError::NoActiveCue) && *final(self) == *old(self),
            },
    {
        match self.current {
            Some(i) => {
                match from_hex(value) {
                    Some(color) => {
                        vec_index_mut(&mut self.cues, i).end_color = color;
                        Ok(())
                    },
                    None => Err(AccessError::InvalidColor),
                }
            },
            None => Err(AccessError::NoActiveCue),
        }
    }
}

/// Every color survives the round trip through its hex form: the canonical
/// string is acceptable, and parsing it gives the color back.
pub proof fn lemma_hex_round_trip(c: Color)
    ensures
        valid_hex_color_chars(hex_color_chars(c)),
        hex_color_value(hex_color_chars(c)) == c,
{
    assert forall|n: int| 0 <= n < 16 implies is_hex_digit(nibble_char(n)) && nibble_val(
        nibble_char(n),
    ) == n by {
        if n == 10 {
            assert('a' as int == 97);
        }
    }
    lemma_fundamental_div_mod(c.red as int, 16);
    lemma_fundamental_div_mod(c.green as int, 16);
    lemma_fundamental_div_mod(c.blue as int, 16);
}

} // verus!
