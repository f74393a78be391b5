//! Fixed-width display frames.
//!
//! The display runs in a terminal mode with exactly 64 addressable cells
//! (four rows of sixteen 8x8 characters), and every render overwrites the
//! whole buffer; a frame shorter or longer than 64 characters would make
//! the content crawl across the panel. A frame shows the elapsed time and
//! the target time as `hh:mm:ss` fields at fixed offsets, padded with
//! spaces.
//!
//! The buffer itself is arrayvec's `ArrayString`, a stack-allocated string
//! with a fixed byte capacity; its contents are named by the
//! uninterpreted [`text_of`] and reached only through the trusted wrappers
//! below. Everything else — the digit splitting, the layout, the exact 64
//! characters — is verified.

use vstd::prelude::*;
use vstd::utf8::is_ascii_chars;
use arrayvec::ArrayString;

verus! {

/// How many character cells the display has, and so how long every frame is.
pub const FRAME_CELLS: usize = 64;

#[verifier::external_type_specification]
#[verifier::external_body]
pub struct ExArrayString<const CAP: usize>(ArrayString<CAP>);

/// What an `ArrayString<64>` holds, as a sequence of characters.
pub uninterp spec fn text_of(s: ArrayString<64>) -> Seq<char>;

/// Relies on arrayvec's `ArrayString::new`: a fresh buffer is empty.
#[verifier::external_body]
fn buf_new() -> (r: ArrayString<64>)
    ensures
        text_of(r) == Seq::<char>::empty(),
{
    ArrayString::new()
}

/// Relies on arrayvec's `ArrayString::push`: appends one character. It
/// panics only when the remaining byte capacity cannot hold the
/// character's UTF-8 form; the buffer holds 64 bytes, and with everything
/// in it ASCII — one byte per character — fewer than 64 characters leave
/// room, so the inputs admitted here cannot panic.
#[verifier::external_body]
fn buf_push(buf: &mut ArrayString<64>, c: char)
    requires
        text_of(*old(buf)).len() < 64,
        is_ascii_chars(text_of(*old(buf))),
        c <= '\u{7f}',
    ensures
        text_of(*final(buf)) == text_of(*old(buf)).push(c),
{
    buf.push(c);
}

/// Relies on arrayvec's `ArrayString::as_str`: a view of the whole buffer.
#[verifier::external_body]
fn buf_as_str(buf: &ArrayString<64>) -> (r: &str)
    ensures
        r@ == text_of(*buf),
{
    buf.as_str()
}

/// Hours shown for `t` seconds: whole hours, modulo a day.
pub open spec fn hours_of(t: u16) -> int {
    (t as int / 3600) % 24
}

/// Minutes shown for `t` seconds: whole minutes, modulo an hour.
pub open spec fn minutes_of(t: u16) -> int {
    (t as int / 60) % 60
}

/// Seconds shown for `t` seconds.
pub open spec fn seconds_of(t: u16) -> int {
    t as int % 60
}

/// Split a duration in seconds into the `(hours, minutes, seconds)` shown
/// on the display. Minutes and hours are reduced modulo their unit, so
/// `3661` yields `(1, 1, 1)` and every field fits its two-digit cell.
pub fn time_digits(time: u16) -> (hms: (u8, u8, u8))
    ensures
        hms.0 == hours_of(time),
        hms.1 == minutes_of(time),
        hms.2 == seconds_of(time),
        hms.0 < 24,
        hms.1 < 60,
        hms.2 < 60,
{
    let hours: u16 = (time / 3600) % 24;
    let minutes: u16 = (time / 60) % 60;
    let seconds: u16 = time % 60;
    (hours as u8, minutes as u8, seconds as u8)
}

/// The character for one decimal digit.
pub open spec fn digit_char(d: int) -> char {
    ((0x30 + d) as u32) as char
}

/// A value under 100 as exactly two decimal digit characters.
pub open spec fn two_digit_chars(v: int) -> Seq<char> {
    seq![digit_char(v / 10), digit_char(v % 10)]
}

/// An `hh:mm:ss` field: eight characters.
pub open spec fn clock_chars(t: u16) -> Seq<char> {
    two_digit_chars(hours_of(t)) + seq![':'] + two_digit_chars(minutes_of(t)) + seq![':']
        + two_digit_chars(seconds_of(t))
}

/// `n` space characters.
pub open spec fn spaces(n: nat) -> Seq<char> {
    Seq::new(n, |i: int| ' ')
}

/// The whole frame: the elapsed field indented four cells on the first
/// row, the target field ending four cells before the end of the last
/// row, spaces everywhere else.
pub open spec fn frame_chars(elapsed: u16, target: u16) -> Seq<char> {
    spaces(4) + clock_chars(elapsed) + spaces(40) + clock_chars(target) + spaces(4)
}

/// Law: a frame is always exactly [`FRAME_CELLS`] characters, whatever
/// the two durations are.
pub proof fn lemma_frame_len(elapsed: u16, target: u16)
    ensures
        frame_chars(elapsed, target).len() == FRAME_CELLS,
{
}

fn push_spaces(buf: &mut ArrayString<64>, n: usize)
    requires
        is_ascii_chars(text_of(*old(buf))),
        text_of(*old(buf)).len() + n <= 64,
    ensures
        text_of(*final(buf)) == text_of(*old(buf)) + spaces(n as nat),
        is_ascii_chars(text_of(*final(buf))),
{
    proof {
        assert(text_of(*buf) =~= text_of(*old(buf)) + spaces(0));
    }
    let mut i: usize = 0;
    while i < n
        invariant
            i <= n,
            text_of(*buf) == text_of(*old(buf)) + spaces(i as nat),
            is_ascii_chars(text_of(*buf)),
            text_of(*old(buf)).len() + n <= 64,
        decreases n - i,
    {
        buf_push(buf, ' ');
        i = i + 1;
        proof {
            assert(text_of(*buf) =~= text_of(*old(buf)) + spaces(i as nat));
        }
    }
}

fn push_two_digits(buf: &mut ArrayString<64>, v: u8)
    requires
        v < 100,
        is_ascii_chars(text_of(*old(buf))),
        text_of(*old(buf)).len() + 2 <= 64,
    ensures
        text_of(*final(buf)) == text_of(*old(buf)) + two_digit_chars(v as int),
        is_ascii_chars(text_of(*final(buf))),
{
    let tens: char = (0x30u8 + v / 10) as char;
    let ones: char = (0x30u8 + v % 10) as char;
    assert(tens == digit_char(v as int / 10));
    assert(ones == digit_char(v as int % 10));
    buf_push(buf, tens);
    buf_push(buf, ones);
    proof {
        assert(text_of(*buf) =~= text_of(*old(buf)) + two_digit_chars(v as int));
    }
}

fn push_clock(buf: &mut ArrayString<64>, t: u16)
    requires
        is_ascii_chars(text_of(*old(buf))),
        text_of(*old(buf)).len() + 8 <= 64,
    ensures
        text_of(*final(buf)) == text_of(*old(buf)) + clock_chars(t),
        is_ascii_chars(text_of(*final(buf))),
{
    let (hours, minutes, seconds) = time_digits(t);
    push_two_digits(buf, hours);
    buf_push(buf, ':');
    push_two_digits(buf, minutes);
    buf_push(buf, ':');
    push_two_digits(buf, seconds);
    proof {
        assert(text_of(*buf) =~= text_of(*old(buf)) + clock_chars(t));
    }
}

/// One rendered frame, ready to hand to the display.
pub struct DisplayFrame {
    buf: ArrayString<64>,
}

impl DisplayFrame {
    /// The frame's characters.
    pub closed spec fn text(self) -> Seq<char> {
        text_of(self.buf)
    }

    /// The frame as a string slice, for the display write.
    pub fn as_str(&self) -> (s: &str)
        ensures
            s@ == self.text(),
    {
        buf_as_str(&self.buf)
    }
}

/// Render one frame from a snapshot of the countdown: the elapsed and
/// target times as `hh:mm:ss` at their fixed offsets, everything else
/// spaces, exactly [`FRAME_CELLS`] characters in all.
pub fn format_time(elapsed: u16, target: u16) -> (f: DisplayFrame)
    ensures
        f.text() == frame_chars(elapsed, target),
        f.text().len() == FRAME_CELLS,
{
    let mut buf = buf_new();
    push_spaces(&mut buf, 4);
    push_clock(&mut buf, elapsed);
    push_spaces(&mut buf, 40);
    push_clock(&mut buf, target);
    push_spaces(&mut buf, 4);
    proof {
        assert(text_of(buf) =~= frame_chars(elapsed, target));
    }
    DisplayFrame { buf }
}

} // verus!
