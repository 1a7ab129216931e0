use vstd::prelude::*;
use vstd::string::StrSliceExecFns;

verus! {

/// The fewest and the most reference lines that can be drawn.
pub const MIN_COUNT: u32 = 1;
pub const MAX_COUNT: u32 = 31;

pub open spec fn is_hex_digit(c: char) -> bool {
    ||| '0' <= c <= '9'
    ||| 'a' <= c <= 'f'
    ||| 'A' <= c <= 'F'
}

/// A colour written as `#` and six hexadecimal digits.
pub open spec fn is_hex_color(s: Seq<char>) -> bool {
    &&& s.len() == 7
    &&& s[0] == '#'
    &&& forall|i: int| 1 <= i < 7 ==> is_hex_digit(#[trigger] s[i])
}

/// The hexadecimal digits are exactly the characters with codes 48 to 57
/// (`0`-`9`), 65 to 70 (`A`-`F`) and 97 to 102 (`a`-`f`); a colour is seven
/// characters, `#` first.
pub proof fn hex_digits_by_code(c: char, s: Seq<char>)
    ensures
        is_hex_digit(c) == ((48 <= c as u32 <= 57) || (65 <= c as u32 <= 70) || (97 <= c as u32
            <= 102)),
        is_hex_color(s) ==> s.len() == 7 && s[0] == '#',
{
}

fn hex_digit(c: char) -> (b: bool)
    ensures
        b == is_hex_digit(c),
{
    ('0' <= c && c <= '9') || ('a' <= c && c <= 'f') || ('A' <= c && c <= 'F')
}

/// Whether the line colour is `#` followed by six hexadecimal digits.
pub fn valid_color(color: &str) -> (b: bool)
    ensures
        b == is_hex_color(color@),
{
    if color.unicode_len() != 7 {
        return false;
    }
    if color.get_char(0) != '#' {
        return false;
    }
    let mut i: usize = 1;
    while i < 7
        invariant
            color@.len() == 7,
            color@[0] == '#',
            1 <= i <= 7,
            forall|j: int| 1 <= j < i ==> is_hex_digit(#[trigger] color@[j]),
        decreases 7 - i,
    {
        if !hex_digit(color.get_char(i)) {
            return false;
        }
        i += 1;
    }
    true
}

/// Whether the number of lines is between [`MIN_COUNT`] and [`MAX_COUNT`].
pub fn valid_count(count: u32) -> (b: bool)
    ensures
        b == (MIN_COUNT <= count <= MAX_COUNT),
{
    MIN_COUNT <= count && count <= MAX_COUNT
}

/// The last coordinate at which a window still fits, `room` pixels after the
/// start of the work area, held at the largest `i32`.
pub open spec fn last_start(start: i32, room: i32) -> int {
    if start + room > i32::MAX {
        i32::MAX as int
    } else {
        start + room
    }
}

/// A coordinate held between `start` and [`last_start`].
pub open spec fn clamped(position: int, start: i32, room: i32) -> int {
    if position < start {
        start as int
    } else if position > last_start(start, room) {
        last_start(start, room)
    } else {
        position
    }
}

/// Moves a saved window coordinate into the work area that starts at `start`
/// and leaves `room` pixels beyond the window's size (never negative): the
/// coordinate is held between `start` and `start + room`.
pub fn clamp_position(position: i32, start: i32, room: i32) -> (r: i32)
    requires
        room >= 0,
    ensures
        r == clamped(position as int, start, room),
{
    let sum: i64 = start as i64 + room as i64;
    let last: i32 = if sum > i32::MAX as i64 {
        i32::MAX
    } else {
        sum as i32
    };
    if position < start {
        start
    } else if position > last {
        last
    } else {
        position
    }
}

/// The last start is the start plus the room, held at the largest `i32`.
pub proof fn last_start_saturates(start: i32, room: i32)
    requires
        room >= 0,
    ensures
        last_start(start, room) <= start + room,
        last_start(start, room) <= i32::MAX,
        last_start(start, room) == start + room || last_start(start, room) == i32::MAX,
        last_start(start, room) >= start,
{
}

/// Clamping moves a coordinate to the nearest coordinate of the allowed
/// range: no coordinate between `start` and [`last_start`] is closer to it.
pub proof fn clamping_is_nearest(position: int, start: i32, room: i32, other: int)
    requires
        room >= 0,
        start <= other <= last_start(start, room),
    ensures
        (if clamped(position, start, room) >= position {
            clamped(position, start, room) - position
        } else {
            position - clamped(position, start, room)
        }) <= (if other >= position {
            other - position
        } else {
            position - other
        }),
{
}

/// A restored window always starts within its work area, a position already
/// inside is kept, and restoring twice changes nothing more.
pub proof fn clamping_keeps_windows_in_the_area(position: int, start: i32, room: i32)
    requires
        room >= 0,
    ensures
        start <= clamped(position, start, room) <= last_start(start, room),
        start <= position <= last_start(start, room) ==> clamped(position, start, room) == position,
        clamped(clamped(position, start, room), start, room) == clamped(position, start, room),
{
}

} // verus!
