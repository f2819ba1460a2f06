//! Diagnostic lines for the host: a fixed-capacity writer that stops at its
//! boundary instead of overflowing, and the decimal rendering of numbers.
use vstd::prelude::*;

verus! {

/// Capacity of the diagnostic writer, in bytes.
pub const DIAGNOSTIC_CAPACITY: usize = 128;

/// The first byte of every diagnostic line.
pub const ERROR_MARK: u8 = 0x45;

/// The bytes that end every line sent to the host: `\r\n`.
pub open spec fn line_end() -> Seq<u8> {
    seq![0x0du8, 0x0au8]
}

/// What the writer keeps of `s`: the first `DIAGNOSTIC_CAPACITY` bytes.
pub open spec fn clip(s: Seq<u8>) -> Seq<u8> {
    if s.len() <= DIAGNOSTIC_CAPACITY {
        s
    } else {
        s.take(DIAGNOSTIC_CAPACITY as int)
    }
}

/// The line that reports `text`: the error mark and as much of `text` as the
/// writer holds, then the line end.
pub open spec fn error_line(text: Seq<u8>) -> Seq<u8> {
    clip(seq![ERROR_MARK] + text) + line_end()
}

/// The decimal digits of `n` in ASCII, most significant first, without
/// leading zeros.
pub open spec fn decimal(n: nat) -> Seq<u8>
    decreases n,
{
    if n < 10 {
        seq![(n + 0x30) as u8]
    } else {
        decimal(n / 10).push((n % 10 + 0x30) as u8)
    }
}

/// Appends the decimal digits of `n` to `out`.
pub fn push_decimal(out: &mut Vec<u8>, n: usize)
    ensures
        final(out)@ == old(out)@ + decimal(n as nat),
    decreases n,
{
    if n >= 10 {
        push_decimal(out, n / 10);
    }
    out.push((n % 10 + 0x30) as u8);
    proof {
        assert(out@ =~= old(out)@ + decimal(n as nat));
    }
}

/// Appends every byte of `s` to `out`.
pub fn push_all(out: &mut Vec<u8>, s: &[u8])
    ensures
        final(out)@ == old(out)@ + s@,
{
    let mut i: usize = 0;
    while i < s.len()
        invariant
            i <= s@.len(),
            out@ == old(out)@ + s@.take(i as int),
        decreases s@.len() - i,
    {
        out.push(s[i]);
        i = i + 1;
        proof {
            assert(out@ =~= old(out)@ + s@.take(i as int));
        }
    }
    proof {
        assert(s@.take(i as int) =~= s@);
    }
}

/// A buffer of at most `DIAGNOSTIC_CAPACITY` bytes whose writes stop at the
/// boundary: what does not fit is left out and the write reports it.
pub struct DiagnosticWriter {
    buf: Vec<u8>,
}

impl View for DiagnosticWriter {
    type V = Seq<u8>;

    closed spec fn view(&self) -> Seq<u8> {
        self.buf@
    }
}

impl DiagnosticWriter {
    /// An empty writer.
    pub fn new() -> (r: DiagnosticWriter)
        ensures
            r@ == Seq::<u8>::empty(),
    {
        DiagnosticWriter { buf: Vec::new() }
    }

    /// Writes as much of `s` as fits; returns whether all of it did.
    pub fn write_bytes(&mut self, s: &[u8]) -> (r: bool)
        requires
            old(self)@.len() <= DIAGNOSTIC_CAPACITY,
        ensures
            final(self)@ == clip(old(self)@ + s@),
            r == (old(self)@.len() + s@.len() <= DIAGNOSTIC_CAPACITY),
    {
        let room = DIAGNOSTIC_CAPACITY - self.buf.len();
        let n = if s.len() < room {
            s.len()
        } else {
            room
        };
        let mut i: usize = 0;
        while i < n
            invariant
                n <= s@.len(),
                old(self)@.len() + n <= DIAGNOSTIC_CAPACITY,
                i <= n,
                self.buf@ == old(self)@ + s@.take(i as int),
            decreases n - i,
        {
            self.buf.push(s[i]);
            i = i + 1;
            proof {
                assert(self.buf@ =~= old(self)@ + s@.take(i as int));
            }
        }
        proof {
            assert(self.buf@ =~= clip(old(self)@ + s@));
        }
        n == s.len()
    }

    /// The bytes written so far.
    pub fn contents(&self) -> (r: Vec<u8>)
        ensures
            r@ == self@,
    {
        self.buf.clone()
    }
}

/// The line that reports `text`, built in a diagnostic writer.
pub fn error_line_of(text: &[u8]) -> (r: Vec<u8>)
    ensures
        r@ == error_line(text@),
{
    let mut w = DiagnosticWriter::new();
    let mark: [u8; 1] = [ERROR_MARK];
    w.write_bytes(&mark);
    w.write_bytes(text);
    let mut line = w.contents();
    line.push(0x0d);
    line.push(0x0a);
    proof {
        assert(mark@ =~= seq![ERROR_MARK]);
        assert(clip(clip(seq![ERROR_MARK]) + text@) =~= clip(seq![ERROR_MARK] + text@));
        assert(line@ =~= error_line(text@));
    }
    line
}

} // verus!
