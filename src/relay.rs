//! The relay: runs a command request as a sequence of word exchanges.
//!
//! The bus stays outside. The relay names the word to exchange next, takes
//! back what the exchange gave, and once no word is left (or an exchange has
//! failed) names the response for the host. Words go out strictly in order,
//! one at a time; the first failed exchange ends the request.
use vstd::prelude::*;
use vstd::string::StringSliceAdditionalSpecFns;
use crate::diagnostic::{decimal, error_line, error_line_of, push_all, push_decimal};
use crate::frame::{
    bytes_of, frame_error_text, frame_words, mode_of, parse_frame, push_word, CommandRequest,
    FrameError, Mode, Parsed, MODE_WRITE_READ,
};

verus! {

/// The response to a write-only request that went through.
pub const WRITE_ACK: &'static str = "OOK\r\n";

/// First byte of the response to a write-then-read request: `O`.
pub const REPLY_MARK: u8 = 0x4f;

/// Text of the diagnostic for a failed exchange, before the word's index.
pub const EXCHANGE_FAULT_TEXT: &'static str = "spi exchange error at word ";

/// A failed word exchange on the bus.
#[derive(Clone, Copy, PartialEq, Eq, Structural, Debug)]
pub struct BusFault;

/// The relay in the abstract: the request's mode, its words (where replies
/// replace the words sent in write-then-read mode), how many exchanges have
/// gone through, and whether the last one failed.
pub struct RelayState {
    pub mode: Mode,
    pub words: Seq<u16>,
    pub done: nat,
    pub failed: bool,
}

impl RelayState {
    /// A word is still to be exchanged.
    pub open spec fn pending(self) -> bool {
        !self.failed && self.done < self.words.len()
    }
}

/// The relay before its first exchange.
pub open spec fn relay_start(mode: Mode, words: Seq<u16>) -> RelayState {
    RelayState { mode, words, done: 0, failed: false }
}

/// The relay after the bus gave `outcome` for the pending word; a relay with
/// no pending word ignores it.
pub open spec fn relay_step(s: RelayState, outcome: Result<u16, BusFault>) -> RelayState {
    if !s.pending() {
        s
    } else {
        match outcome {
            Ok(reply) => RelayState {
                words: if s.mode == Mode::WriteRead {
                    s.words.update(s.done as int, reply)
                } else {
                    s.words
                },
                done: s.done + 1,
                ..s
            },
            Err(_) => RelayState { failed: true, ..s },
        }
    }
}

/// The relay after the bus gave `outcomes`, one by one.
pub open spec fn relay_run(s: RelayState, outcomes: Seq<Result<u16, BusFault>>) -> RelayState
    decreases outcomes.len(),
{
    if outcomes.len() == 0 {
        s
    } else {
        relay_run(relay_step(s, outcomes[0]), outcomes.drop_first())
    }
}

/// How many exchanges the relay asks for when the bus gives `outcomes`.
pub open spec fn exchanges_issued(s: RelayState, outcomes: Seq<Result<u16, BusFault>>) -> nat
    decreases outcomes.len(),
{
    if outcomes.len() == 0 || !s.pending() {
        0
    } else {
        1 + exchanges_issued(relay_step(s, outcomes[0]), outcomes.drop_first())
    }
}

/// The bytes of `words`, each most significant byte first.
pub open spec fn reply_bytes(words: Seq<u16>) -> Seq<u8>
    decreases words.len(),
{
    if words.len() == 0 {
        Seq::empty()
    } else {
        reply_bytes(words.drop_last()) + bytes_of(words.last())
    }
}

/// The response of a relay with no pending word: the diagnostic of the failed
/// exchange, the acknowledgement of a write-only request, or the reply mark
/// followed by the replies of a write-then-read request.
pub open spec fn relay_response(s: RelayState) -> Seq<u8> {
    if s.failed {
        error_line(EXCHANGE_FAULT_TEXT.spec_bytes() + decimal(s.done))
    } else if s.mode == Mode::Write {
        WRITE_ACK.spec_bytes()
    } else {
        seq![REPLY_MARK] + reply_bytes(s.words)
    }
}

/// What the relay asks for next.
pub enum RelayAction {
    /// Exchange this word on the bus and report the outcome.
    Exchange(u16),
    /// Send these bytes to the host; the request is over.
    Respond(Vec<u8>),
}

/// A request being relayed. In write-then-read mode each reply overwrites, in
/// place, the word whose exchange produced it.
pub struct Relay {
    mode: Mode,
    words: Vec<u16>,
    done: usize,
    failed: bool,
}

impl View for Relay {
    type V = RelayState;

    closed spec fn view(&self) -> RelayState {
        RelayState {
            mode: self.mode,
            words: self.words@,
            done: self.done as nat,
            failed: self.failed,
        }
    }
}

impl Relay {
    /// A relay for `request`, before its first exchange.
    pub fn new(request: CommandRequest) -> (r: Relay)
        ensures
            r@ == relay_start(request.mode, request.words@),
    {
        Relay { mode: request.mode, words: request.words, done: 0, failed: false }
    }

    /// Whether a word is still to be exchanged.
    pub fn is_pending(&self) -> (r: bool)
        ensures
            r == self@.pending(),
    {
        !self.failed && self.done < self.words.len()
    }

    /// The word to exchange next, or the response once no word is pending.
    pub fn action(&self) -> (r: RelayAction)
        ensures
            match r {
                RelayAction::Exchange(w) => self@.pending() && w == self@.words[self@.done as int],
                RelayAction::Respond(bytes) => !self@.pending() && bytes@ == relay_response(
                    self@,
                ),
            },
    {
        if self.is_pending() {
            RelayAction::Exchange(self.words[self.done])
        } else {
            RelayAction::Respond(self.response())
        }
    }

    /// The response of a relay with no pending word.
    fn response(&self) -> (r: Vec<u8>)
        requires
            !self@.pending(),
        ensures
            r@ == relay_response(self@),
    {
        if self.failed {
            let mut text: Vec<u8> = Vec::new();
            push_all(&mut text, EXCHANGE_FAULT_TEXT.as_bytes());
            push_decimal(&mut text, self.done);
            return error_line_of(text.as_slice());
        }
        let mut out: Vec<u8> = Vec::new();
        match self.mode {
            Mode::Write => {
                push_all(&mut out, WRITE_ACK.as_bytes());
            },
            Mode::WriteRead => {
                out.push(REPLY_MARK);
                let mut i: usize = 0;
                while i < self.words.len()
                    invariant
                        i <= self.words@.len(),
                        out@ == seq![REPLY_MARK] + reply_bytes(self.words@.take(i as int)),
                    decreases self.words@.len() - i,
                {
                    push_word(&mut out, self.words[i]);
                    proof {
                        assert(self.words@.take(i + 1).drop_last() =~= self.words@.take(i as int));
                    }
                    i = i + 1;
                    proof {
                        assert(out@ =~= seq![REPLY_MARK] + reply_bytes(
                            self.words@.take(i as int),
                        ));
                    }
                }
                proof {
                    assert(self.words@.take(i as int) =~= self.words@);
                }
            },
        }
        out
    }

    /// Takes in what the bus gave for the pending word. Without a pending
    /// word (all words done, or an exchange already failed) nothing changes.
    pub fn on_exchange(&mut self, outcome: Result<u16, BusFault>)
        ensures
            final(self)@ == relay_step(old(self)@, outcome),
    {
        if self.failed || self.done >= self.words.len() {
            return ;
        }
        match outcome {
            Ok(reply) => {
                let d = self.done;
                if self.mode == Mode::WriteRead {
                    self.words.set(d, reply);
                }
                self.done = d + 1;
            },
            Err(_) => {
                self.failed = true;
            },
        }
        proof {
            assert(self@ =~= relay_step(old(self)@, outcome));
        }
    }
}

/// A frame that the relay runs: two bytes or more, a mode marker first, and
/// an odd length.
pub open spec fn frame_is_valid(frame: Seq<u8>) -> bool {
    frame.len() >= 2 && mode_of(frame[0]) is Some && frame.len() % 2 == 1
}

/// Why a frame of two bytes or more is not valid: the marker is checked
/// before the length.
pub open spec fn frame_error(frame: Seq<u8>) -> FrameError {
    if mode_of(frame[0]) is None {
        FrameError::InvalidMode { mode: frame[0] }
    } else {
        FrameError::InvalidCount { count: frame.len() as usize }
    }
}

/// What one read from the host leads to.
pub enum Cycle {
    /// Too few bytes: no response and no exchange; wait for the next read.
    Idle,
    /// An invalid frame: send this diagnostic line and no exchange.
    Respond(Vec<u8>),
    /// A valid frame: relay it.
    Run(Relay),
}

/// Starts the handling of one read from the host.
pub fn start_cycle(frame: &[u8]) -> (r: Cycle)
    ensures
        frame@.len() < 2 ==> r is Idle,
        frame@.len() >= 2 && !frame_is_valid(frame@) ==> (r matches Cycle::Respond(line)
            && line@ == error_line(frame_error_text(frame_error(frame@)))),
        frame_is_valid(frame@) ==> (r matches Cycle::Run(relay) && relay@ == relay_start(
            mode_of(frame@[0])->0,
            frame_words(frame@),
        )),
{
    match parse_frame(frame) {
        Parsed::Incomplete => Cycle::Idle,
        Parsed::Invalid(e) => Cycle::Respond(e.diagnostic()),
        Parsed::Request(request) => Cycle::Run(Relay::new(request)),
    }
}

/// The outcomes of exchanges that all went through, with these replies.
pub open spec fn all_replied(replies: Seq<u16>) -> Seq<Result<u16, BusFault>> {
    replies.map_values(|w: u16| Ok::<u16, BusFault>(w))
}

/// A relay with no pending word stays as it is and asks for no exchange.
proof fn lemma_run_idle(s: RelayState, outcomes: Seq<Result<u16, BusFault>>)
    requires
        !s.pending(),
    ensures
        relay_run(s, outcomes) == s,
        exchanges_issued(s, outcomes) == 0,
    decreases outcomes.len(),
{
    if outcomes.len() > 0 {
        lemma_run_idle(relay_step(s, outcomes[0]), outcomes.drop_first());
    }
}

/// Replies to every remaining word bring the relay to the end of its words,
/// with the replies in place of the words in write-then-read mode.
proof fn lemma_run_replies(s: RelayState, replies: Seq<u16>)
    requires
        !s.failed,
        s.done + replies.len() == s.words.len(),
    ensures
        ({
            let t = relay_run(s, all_replied(replies));
            &&& t.mode == s.mode
            &&& !t.failed
            &&& t.done == s.words.len()
            &&& t.words == if s.mode == Mode::WriteRead {
                s.words.take(s.done as int) + replies
            } else {
                s.words
            }
        }),
    decreases replies.len(),
{
    if replies.len() == 0 {
        assert(s.words.take(s.done as int) + replies =~= s.words);
    } else {
        let outcomes = all_replied(replies);
        let next = relay_step(s, outcomes[0]);
        assert(outcomes.drop_first() =~= all_replied(replies.drop_first()));
        lemma_run_replies(next, replies.drop_first());
        if s.mode == Mode::WriteRead {
            assert(next.words.take(next.done as int) + replies.drop_first() =~= s.words.take(
                s.done as int,
            ) + replies);
        }
    }
}

/// Each word gives two bytes.
proof fn lemma_reply_bytes_len(words: Seq<u16>)
    ensures
        reply_bytes(words).len() == 2 * words.len(),
    decreases words.len(),
{
    if words.len() > 0 {
        lemma_reply_bytes_len(words.drop_last());
    }
}

/// A valid write-then-read frame of one word or more, whose exchanges all go
/// through, gets a response of exactly one byte more than two per word: the
/// reply mark, then the replies in the order of the words.
pub proof fn lemma_write_read_response(frame: Seq<u8>, replies: Seq<u16>)
    requires
        frame.len() >= 3,
        frame.len() % 2 == 1,
        frame[0] == MODE_WRITE_READ,
        replies.len() == (frame.len() - 1) / 2,
    ensures
        ({
            let s = relay_run(relay_start(Mode::WriteRead, frame_words(frame)), all_replied(replies));
            &&& !s.pending()
            &&& relay_response(s).len() == 1 + 2 * replies.len()
            &&& relay_response(s).len() == frame.len()
            &&& relay_response(s)[0] == REPLY_MARK
            &&& relay_response(s) == seq![REPLY_MARK] + reply_bytes(replies)
        }),
{
    let s0 = relay_start(Mode::WriteRead, frame_words(frame));
    lemma_run_replies(s0, replies);
    assert(s0.words.take(0) + replies =~= replies);
    lemma_reply_bytes_len(replies);
}

/// When the bus fails on the exchange of word `i`, the words after it are
/// never exchanged: exactly `i + 1` exchanges are asked for, whatever the bus
/// would have answered later, and the response reports word `i`.
pub proof fn lemma_fail_fast(
    mode: Mode,
    words: Seq<u16>,
    outcomes: Seq<Result<u16, BusFault>>,
    i: int,
)
    requires
        0 <= i < words.len(),
        i < outcomes.len(),
        outcomes[i] is Err,
        forall|j: int| 0 <= j < i ==> outcomes[j] is Ok,
    ensures
        exchanges_issued(relay_start(mode, words), outcomes) == i + 1,
        relay_run(relay_start(mode, words), outcomes).failed,
        relay_run(relay_start(mode, words), outcomes).done == i,
        relay_response(relay_run(relay_start(mode, words), outcomes)) == error_line(
            EXCHANGE_FAULT_TEXT.spec_bytes() + decimal(i as nat),
        ),
{
    lemma_fault_from(relay_start(mode, words), outcomes, i);
}

/// `lemma_fail_fast` from any state that has not failed.
proof fn lemma_fault_from(s: RelayState, outcomes: Seq<Result<u16, BusFault>>, i: int)
    requires
        !s.failed,
        0 <= i,
        s.done + i < s.words.len(),
        i < outcomes.len(),
        outcomes[i] is Err,
        forall|j: int| 0 <= j < i ==> outcomes[j] is Ok,
    ensures
        exchanges_issued(s, outcomes) == i + 1,
        relay_run(s, outcomes).failed,
        relay_run(s, outcomes).done == s.done + i,
    decreases i,
{
    let next = relay_step(s, outcomes[0]);
    if i == 0 {
        lemma_run_idle(next, outcomes.drop_first());
    } else {
        assert(outcomes[0] is Ok);
        assert forall|j: int| 0 <= j < i - 1 implies outcomes.drop_first()[j] is Ok by {
            assert(outcomes.drop_first()[j] == outcomes[j + 1]);
        }
        lemma_fault_from(next, outcomes.drop_first(), i - 1);
    }
}

} // verus!
