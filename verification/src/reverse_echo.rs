//! The serial "reverse a string" program: every received byte is echoed;
//! bytes are gathered in a 32-byte line buffer until a carriage return,
//! which sends the line back reversed; a byte that does not fit reports the
//! buffer as an overflow and empties it.

use vstd::prelude::*;
use crate::buffers::{line_as_slice, line_bytes, line_clear, line_new, line_push, reversed, copied};

verus! {

/// The carriage return that ends a line (`b'\r'`).
pub const CARRIAGE_RETURN: u8 = 13;

/// How many bytes the line buffer holds.
pub const LINE_CAPACITY: usize = 32;

/// What the program sends after echoing the received byte.
#[derive(Clone, Debug, PartialEq, Eq)]
pub enum Reply {
    /// Nothing more: the byte was stored.
    Echo,
    /// A new line, these bytes (the stored line reversed), a new line.
    Reversed(Vec<u8>),
    /// The overflow error message quoting these bytes (the stored line).
    Overflow(Vec<u8>),
}

/// The model of a [`Reply`].
pub enum ReplyModel {
    Echo,
    Reversed(Seq<u8>),
    Overflow(Seq<u8>),
}

impl View for Reply {
    type V = ReplyModel;

    open spec fn view(&self) -> ReplyModel {
        match self {
            Reply::Echo => ReplyModel::Echo,
            Reply::Reversed(bytes) => ReplyModel::Reversed(bytes@),
            Reply::Overflow(bytes) => ReplyModel::Overflow(bytes@),
        }
    }
}

/// The reply to `byte` when `line` is stored.
pub open spec fn reply_to(line: Seq<u8>, byte: u8) -> ReplyModel {
    if byte == CARRIAGE_RETURN {
        ReplyModel::Reversed(line.reverse())
    } else if line.len() < LINE_CAPACITY {
        ReplyModel::Echo
    } else {
        ReplyModel::Overflow(line)
    }
}

/// The stored line after `byte` arrives when `line` is stored.
pub open spec fn line_after(line: Seq<u8>, byte: u8) -> Seq<u8> {
    if byte == CARRIAGE_RETURN {
        Seq::empty()
    } else if line.len() < LINE_CAPACITY {
        line.push(byte)
    } else {
        Seq::empty()
    }
}

/// The stored line after `input` arrives, byte by byte, on an empty line.
pub open spec fn line_after_all(input: Seq<u8>) -> Seq<u8>
    decreases input.len(),
{
    if input.len() == 0 {
        Seq::empty()
    } else {
        line_after(line_after_all(input.drop_last()), input.last())
    }
}

/// The stored line never holds more than 32 bytes, whatever arrives.
pub proof fn lemma_line_within_capacity(line: Seq<u8>, byte: u8)
    ensures
        line_after(line, byte).len() <= LINE_CAPACITY,
{
}

/// Whatever input arrives on an empty line, the stored line holds at most
/// 32 bytes.
pub proof fn lemma_line_after_all_within_capacity(input: Seq<u8>)
    ensures
        line_after_all(input).len() <= LINE_CAPACITY,
    decreases input.len(),
{
    if input.len() > 0 {
        lemma_line_after_all_within_capacity(input.drop_last());
    }
}

/// A line of at most 32 bytes without a carriage return is stored as it
/// came, and the carriage return that follows it sends it back reversed and
/// empties the buffer.
pub proof fn lemma_short_line_reversed(line: Seq<u8>)
    requires
        line.len() <= LINE_CAPACITY,
        forall|i: int| 0 <= i < line.len() ==> line[i] != CARRIAGE_RETURN,
    ensures
        line_after_all(line) == line,
        reply_to(line_after_all(line), CARRIAGE_RETURN) == ReplyModel::Reversed(line.reverse()),
        line_after_all(line.push(CARRIAGE_RETURN)) == Seq::<u8>::empty(),
    decreases line.len(),
{
    if line.len() > 0 {
        lemma_short_line_reversed(line.drop_last());
        assert(line.drop_last().push(line.last()) == line);
    }
    assert(line.push(CARRIAGE_RETURN).drop_last() == line);
}

/// A byte that finds 32 bytes stored (and is no carriage return) reports
/// those 32 bytes as an overflow and empties the buffer; the byte itself
/// is dropped.
pub proof fn lemma_full_line_overflows(line: Seq<u8>, byte: u8)
    requires
        line.len() == LINE_CAPACITY,
        byte != CARRIAGE_RETURN,
    ensures
        reply_to(line, byte) == ReplyModel::Overflow(line),
        line_after(line, byte) == Seq::<u8>::empty(),
{
}

/// While the line holds fewer than 32 bytes, a byte other than the carriage
/// return is stored at the end of the line and answered by its echo alone:
/// no error, nothing reset.
pub proof fn lemma_byte_below_capacity_is_stored(line: Seq<u8>, byte: u8)
    requires
        line.len() < LINE_CAPACITY,
        byte != CARRIAGE_RETURN,
    ensures
        reply_to(line, byte) == ReplyModel::Echo,
        line_after(line, byte) == line.push(byte),
{
}

/// An overflow is reported only for a byte other than the carriage return
/// that finds 32 bytes stored, and it quotes exactly the stored line.
pub proof fn lemma_overflow_only_when_full(line: Seq<u8>, byte: u8)
    ensures
        (reply_to(line, byte) is Overflow) ==> byte != CARRIAGE_RETURN && line.len()
            >= LINE_CAPACITY,
        reply_to(line, byte) matches ReplyModel::Overflow(r) ==> r == line,
{
}

/// Every byte of a line of at most 32 bytes without a carriage return, sent
/// on an empty buffer, is answered by its echo alone, and the bytes before
/// it are stored in order.
pub proof fn lemma_short_line_echoed(input: Seq<u8>, i: int)
    requires
        input.len() <= LINE_CAPACITY,
        forall|k: int| 0 <= k < input.len() ==> input[k] != CARRIAGE_RETURN,
        0 <= i < input.len(),
    ensures
        line_after_all(input.take(i)) == input.take(i),
        reply_to(line_after_all(input.take(i)), input[i]) == ReplyModel::Echo,
{
    lemma_short_line_reversed(input.take(i));
}

/// The state of the program: the line received so far.
pub struct ReverseEcho {
    buffer: heapless::Vec<u8, 32>,
}

impl View for ReverseEcho {
    type V = Seq<u8>;

    closed spec fn view(&self) -> Seq<u8> {
        line_bytes(self.buffer)
    }
}

impl ReverseEcho {
    /// The program at start: nothing stored.
    pub fn new() -> (r: Self)
        ensures
            r@ == Seq::<u8>::empty(),
    {
        ReverseEcho { buffer: line_new() }
    }

    /// Handles one received byte.
    pub fn receive(&mut self, byte: u8) -> (reply: Reply)
        ensures
            reply@ == reply_to(old(self)@, byte),
            final(self)@ == line_after(old(self)@, byte),
            byte != CARRIAGE_RETURN && old(self)@.len() < LINE_CAPACITY ==> reply@
                == ReplyModel::Echo && final(self)@ == old(self)@.push(byte),
            (reply@ is Reversed) <==> byte == CARRIAGE_RETURN,
            reply@ matches ReplyModel::Reversed(r) ==> r == old(self)@.reverse(),
            (reply@ is Overflow) ==> byte != CARRIAGE_RETURN && old(self)@.len() >= LINE_CAPACITY,
            reply@ matches ReplyModel::Overflow(r) ==> r == old(self)@,
            !(reply@ is Echo) ==> final(self)@ == Seq::<u8>::empty(),
    {
        if byte == CARRIAGE_RETURN {
            let line = reversed(line_as_slice(&self.buffer));
            line_clear(&mut self.buffer);
            Reply::Reversed(line)
        } else {
            match line_push(&mut self.buffer, byte) {
                Ok(()) => Reply::Echo,
                Err(_) => {
                    let line = copied(line_as_slice(&self.buffer));
                    line_clear(&mut self.buffer);
                    Reply::Overflow(line)
                },
            }
        }
    }
}

} // verus!
