//! Host command frames.
//!
//! A frame is one read from the host stream: a mode marker, `w` (write only)
//! or `r` (write then read), followed by the 16-bit words to send over the
//! bus, each as two bytes, most significant first.
use vstd::prelude::*;
use vstd::string::StringSliceAdditionalSpecFns;
use crate::diagnostic::{decimal, error_line, error_line_of, push_all, push_decimal};

verus! {

/// Marker of a write-only frame: `w`.
pub const MODE_WRITE: u8 = 0x77;

/// Marker of a write-then-read frame: `r`.
pub const MODE_WRITE_READ: u8 = 0x72;

/// Text of the diagnostic for an unknown mode marker, before the marker.
pub const INVALID_MODE_TEXT: &'static str = "mode invalid. mode must be b'w'(119) or b'r'(114): mode=";

/// Text of the diagnostic for a frame of even length, before the length.
pub const INVALID_COUNT_TEXT: &'static str = "count is invalid. count must be odd: count=";

/// What to do with the replies of the bus.
#[derive(Clone, Copy, PartialEq, Eq, Structural, Debug)]
pub enum Mode {
    /// Send every word, discard the replies.
    Write,
    /// Send every word, keep every reply and send them back.
    WriteRead,
}

/// The mode that a marker byte names, if any.
pub open spec fn mode_of(marker: u8) -> Option<Mode> {
    if marker == MODE_WRITE {
        Some(Mode::Write)
    } else if marker == MODE_WRITE_READ {
        Some(Mode::WriteRead)
    } else {
        None
    }
}

/// The 16-bit word whose bytes, most significant first, are `hi` and `lo`.
pub open spec fn word_of(hi: u8, lo: u8) -> u16 {
    (hi * 0x100 + lo) as u16
}

/// The two bytes of `w`, most significant first.
pub open spec fn bytes_of(w: u16) -> Seq<u8> {
    seq![(w / 0x100) as u8, (w % 0x100) as u8]
}

/// The `i`-th word of a frame's payload.
pub open spec fn frame_word(frame: Seq<u8>, i: int) -> u16 {
    word_of(frame[1 + 2 * i], frame[2 + 2 * i])
}

/// The words that a frame of odd length carries after its marker.
pub open spec fn frame_words(frame: Seq<u8>) -> Seq<u16> {
    Seq::new(((frame.len() - 1) / 2) as nat, |i: int| frame_word(frame, i))
}

/// A frame that the parser turns down.
#[derive(Clone, Copy, PartialEq, Eq, Structural, Debug)]
pub enum FrameError {
    /// The first byte is no mode marker.
    InvalidMode { mode: u8 },
    /// The frame's length is even, so its payload is no whole number of words.
    InvalidCount { count: usize },
}

/// The text that describes a frame error.
pub open spec fn frame_error_text(e: FrameError) -> Seq<u8> {
    match e {
        FrameError::InvalidMode { mode } => INVALID_MODE_TEXT.spec_bytes() + decimal(mode as nat),
        FrameError::InvalidCount { count } => INVALID_COUNT_TEXT.spec_bytes() + decimal(
            count as nat,
        ),
    }
}

impl FrameError {
    /// The text that describes this error.
    pub fn text(&self) -> (r: Vec<u8>)
        ensures
            r@ == frame_error_text(*self),
    {
        let mut out: Vec<u8> = Vec::new();
        match *self {
            FrameError::InvalidMode { mode } => {
                push_all(&mut out, INVALID_MODE_TEXT.as_bytes());
                push_decimal(&mut out, mode as usize);
            },
            FrameError::InvalidCount { count } => {
                push_all(&mut out, INVALID_COUNT_TEXT.as_bytes());
                push_decimal(&mut out, count);
            },
        }
        out
    }

    /// The diagnostic line that reports this error to the host.
    pub fn diagnostic(&self) -> (r: Vec<u8>)
        ensures
            r@ == error_line(frame_error_text(*self)),
    {
        let t = self.text();
        error_line_of(t.as_slice())
    }
}

/// A request decoded from a valid frame.
pub struct CommandRequest {
    pub mode: Mode,
    pub words: Vec<u16>,
}

/// What the parser made of one read from the host.
pub enum Parsed {
    /// Fewer than two bytes: nothing to do yet.
    Incomplete,
    /// A valid frame.
    Request(CommandRequest),
    /// An invalid frame.
    Invalid(FrameError),
}

/// The word whose bytes, most significant first, are `hi` and `lo`.
pub fn make_word(hi: u8, lo: u8) -> (r: u16)
    ensures
        r == word_of(hi, lo),
{
    let h = hi as u16;
    let l = lo as u16;
    assert((h << 8u16) | l == h * 0x100 + l) by (bit_vector)
        requires
            h < 0x100,
            l < 0x100,
    ;
    (h << 8u16) | l
}

/// Appends the two bytes of `w`, most significant first, to `out`.
pub fn push_word(out: &mut Vec<u8>, w: u16)
    ensures
        final(out)@ == old(out)@ + bytes_of(w),
{
    assert((w >> 8u16) == w / 0x100) by (bit_vector);
    assert((w & 0xff) == w % 0x100) by (bit_vector);
    out.push((w >> 8u16) as u8);
    out.push((w & 0xff) as u8);
    proof {
        assert(out@ =~= old(out)@ + bytes_of(w));
    }
}

/// Decodes one read from the host.
///
/// Fewer than two bytes are no frame yet. Otherwise the first byte must be a
/// mode marker and the length odd, checked in that order; the words are then
/// the payload's byte pairs, most significant byte first.
pub fn parse_frame(frame: &[u8]) -> (r: Parsed)
    ensures
        frame@.len() < 2 <==> r is Incomplete,
        frame@.len() >= 2 && frame@.len() % 2 == 0 ==> r is Invalid,
        frame@.len() >= 2 && mode_of(frame@[0]) is None ==> r == Parsed::Invalid(
            FrameError::InvalidMode { mode: frame@[0] },
        ),
        frame@.len() >= 2 && mode_of(frame@[0]) is Some && frame@.len() % 2 == 0 ==> r
            == Parsed::Invalid(FrameError::InvalidCount { count: frame@.len() as usize }),
        frame@.len() >= 2 && mode_of(frame@[0]) is Some && frame@.len() % 2 == 1 ==> (
        r matches Parsed::Request(req) && req.mode == mode_of(frame@[0])->0 && req.words@
            == frame_words(frame@)),
{
    let count = frame.len();
    if count < 2 {
        return Parsed::Incomplete;
    }
    let marker = frame[0];
    let mode = if marker == MODE_WRITE {
        Mode::Write
    } else if marker == MODE_WRITE_READ {
        Mode::WriteRead
    } else {
        return Parsed::Invalid(FrameError::InvalidMode { mode: marker });
    };
    if count % 2 == 0 {
        return Parsed::Invalid(FrameError::InvalidCount { count });
    }
    let n = (count - 1) / 2;
    let mut words: Vec<u16> = Vec::new();
    let mut i: usize = 0;
    while i < n
        invariant
            n == (frame@.len() - 1) / 2,
            2 * n + 1 == frame@.len(),
            count == frame@.len(),
            frame@.len() % 2 == 1,
            i <= n,
            words@ == frame_words(frame@).take(i as int),
        decreases n - i,
    {
        let w = make_word(frame[2 * i + 1], frame[2 * i + 2]);
        words.push(w);
        i = i + 1;
        proof {
            assert(words@ =~= frame_words(frame@).take(i as int));
        }
    }
    proof {
        assert(words@ =~= frame_words(frame@));
    }
    Parsed::Request(CommandRequest { mode, words })
}

} // verus!
