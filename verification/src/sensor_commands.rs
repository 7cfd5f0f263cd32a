//! The serial command reader of the I2C program: received bytes are echoed
//! and gathered in a 3-byte command buffer; a carriage return runs the
//! command (`acc` reads the accelerometer, `mag` the magnetometer, anything
//! else is reported as unknown), and a byte that does not fit reports an
//! overflow and empties the buffer.

use vstd::prelude::*;
use crate::buffers::{command_as_slice, command_bytes, command_clear, command_new, command_push, copied};
use crate::reverse_echo::CARRIAGE_RETURN;

verus! {

/// How many bytes the command buffer holds.
pub const COMMAND_CAPACITY: usize = 3;

/// A sensor that a command reads.
#[derive(Clone, Copy, Debug, PartialEq, Eq, Structural)]
pub enum Sensor {
    Accelerometer,
    Magnetometer,
}

/// The bytes of the command `acc`.
pub open spec fn acc_word() -> Seq<u8> {
    seq![97u8, 99u8, 99u8]
}

/// The bytes of the command `mag`.
pub open spec fn mag_word() -> Seq<u8> {
    seq![109u8, 97u8, 103u8]
}

/// The sensor that `word` names, if any.
pub open spec fn sensor_named(word: Seq<u8>) -> Option<Sensor> {
    if word == acc_word() {
        Some(Sensor::Accelerometer)
    } else if word == mag_word() {
        Some(Sensor::Magnetometer)
    } else {
        None
    }
}

/// Which sensor the command `word` reads: `acc` (bytes 97, 99, 99) the
/// accelerometer, `mag` (bytes 109, 97, 103) the magnetometer, any other
/// word none.
pub fn parse_command(word: &[u8]) -> (sensor: Option<Sensor>)
    ensures
        sensor == sensor_named(word@),
        sensor == Some(Sensor::Accelerometer) <==> word@ =~= seq![97u8, 99u8, 99u8],
        sensor == Some(Sensor::Magnetometer) <==> word@ =~= seq![109u8, 97u8, 103u8],
{
    if word.len() == 3 && word[0] == 97 && word[1] == 99 && word[2] == 99 {
        assert(word@ == acc_word());
        Some(Sensor::Accelerometer)
    } else if word.len() == 3 && word[0] == 109 && word[1] == 97 && word[2] == 103 {
        assert(word@ == mag_word());
        Some(Sensor::Magnetometer)
    } else {
        proof {
            if word@ == acc_word() {
                assert(word@[0] == 97u8 && word@[1] == 99u8 && word@[2] == 99u8);
            }
            if word@ == mag_word() {
                assert(word@[0] == 109u8 && word@[1] == 97u8 && word@[2] == 103u8);
            }
        }
        None
    }
}

/// What the program does after echoing the received byte.
#[derive(Clone, Debug, PartialEq, Eq)]
pub enum CommandReply {
    /// Nothing more: the byte was stored.
    Echo,
    /// A new line, then the reading of this sensor.
    Read(Sensor),
    /// A new line, then the unknown-command error quoting these bytes.
    Unknown(Vec<u8>),
    /// The buffer-overflow error.
    Overflow,
}

/// The model of a [`CommandReply`].
pub enum CommandReplyModel {
    Echo,
    Read(Sensor),
    Unknown(Seq<u8>),
    Overflow,
}

impl View for CommandReply {
    type V = CommandReplyModel;

    open spec fn view(&self) -> CommandReplyModel {
        match self {
            CommandReply::Echo => CommandReplyModel::Echo,
            CommandReply::Read(sensor) => CommandReplyModel::Read(*sensor),
            CommandReply::Unknown(word) => CommandReplyModel::Unknown(word@),
            CommandReply::Overflow => CommandReplyModel::Overflow,
        }
    }
}

/// The reply to `byte` when `word` is stored.
pub open spec fn command_reply_to(word: Seq<u8>, byte: u8) -> CommandReplyModel {
    if byte == CARRIAGE_RETURN {
        match sensor_named(word) {
            Some(sensor) => CommandReplyModel::Read(sensor),
            None => CommandReplyModel::Unknown(word),
        }
    } else if word.len() < COMMAND_CAPACITY {
        CommandReplyModel::Echo
    } else {
        CommandReplyModel::Overflow
    }
}

/// The stored word after `byte` arrives when `word` is stored.
pub open spec fn word_after(word: Seq<u8>, byte: u8) -> Seq<u8> {
    if byte == CARRIAGE_RETURN {
        Seq::empty()
    } else if word.len() < COMMAND_CAPACITY {
        word.push(byte)
    } else {
        Seq::empty()
    }
}

/// The stored word after `input` arrives, byte by byte, on an empty buffer.
pub open spec fn word_after_all(input: Seq<u8>) -> Seq<u8>
    decreases input.len(),
{
    if input.len() == 0 {
        Seq::empty()
    } else {
        word_after(word_after_all(input.drop_last()), input.last())
    }
}

/// The stored word never holds more than 3 bytes, whatever arrives.
pub proof fn lemma_word_within_capacity(input: Seq<u8>)
    ensures
        word_after_all(input).len() <= COMMAND_CAPACITY,
    decreases input.len(),
{
    if input.len() > 0 {
        lemma_word_within_capacity(input.drop_last());
    }
}

/// A word of at most 3 bytes without a carriage return, sent on an empty
/// buffer and ended by a carriage return, runs as a command: it reads the
/// sensor it names, or is reported as unknown; the buffer is then empty.
pub proof fn lemma_short_word_runs(word: Seq<u8>)
    requires
        word.len() <= COMMAND_CAPACITY,
        forall|i: int| 0 <= i < word.len() ==> word[i] != CARRIAGE_RETURN,
    ensures
        word_after_all(word) == word,
        command_reply_to(word_after_all(word), CARRIAGE_RETURN) == match sensor_named(word) {
            Some(sensor) => CommandReplyModel::Read(sensor),
            None => CommandReplyModel::Unknown(word),
        },
        word_after_all(word.push(CARRIAGE_RETURN)) == Seq::<u8>::empty(),
    decreases word.len(),
{
    if word.len() > 0 {
        lemma_short_word_runs(word.drop_last());
        assert(word.drop_last().push(word.last()) == word);
    }
    assert(word.push(CARRIAGE_RETURN).drop_last() == word);
}

/// A fourth byte without a carriage return reports an overflow and empties
/// the buffer; the byte is dropped, so a longer word never runs as a
/// command.
pub proof fn lemma_long_word_overflows(word: Seq<u8>, byte: u8)
    requires
        word.len() == COMMAND_CAPACITY,
        byte != CARRIAGE_RETURN,
    ensures
        command_reply_to(word, byte) == CommandReplyModel::Overflow,
        word_after(word, byte) == Seq::<u8>::empty(),
{
}

/// While the word holds fewer than 3 bytes, a byte other than the carriage
/// return is stored at the end of the word and answered by its echo alone:
/// no error, nothing reset.
pub proof fn lemma_byte_below_capacity_is_stored(word: Seq<u8>, byte: u8)
    requires
        word.len() < COMMAND_CAPACITY,
        byte != CARRIAGE_RETURN,
    ensures
        command_reply_to(word, byte) == CommandReplyModel::Echo,
        word_after(word, byte) == word.push(byte),
{
}

/// An overflow is reported only for a byte other than the carriage return
/// that finds 3 bytes stored; a carriage return always runs the stored word,
/// as a sensor reading or as an unknown command quoting exactly that word.
pub proof fn lemma_overflow_only_when_full(word: Seq<u8>, byte: u8)
    ensures
        (command_reply_to(word, byte) is Overflow) ==> byte != CARRIAGE_RETURN && word.len()
            >= COMMAND_CAPACITY,
        byte == CARRIAGE_RETURN ==> (command_reply_to(word, byte) is Read || command_reply_to(
            word,
            byte,
        ) is Unknown),
        command_reply_to(word, byte) matches CommandReplyModel::Unknown(w) ==> w == word,
{
}

/// Every byte of a word of at most 3 bytes without a carriage return, sent
/// on an empty buffer, is answered by its echo alone, and the bytes before
/// it are stored in order.
pub proof fn lemma_short_word_echoed(input: Seq<u8>, i: int)
    requires
        input.len() <= COMMAND_CAPACITY,
        forall|k: int| 0 <= k < input.len() ==> input[k] != CARRIAGE_RETURN,
        0 <= i < input.len(),
    ensures
        word_after_all(input.take(i)) == input.take(i),
        command_reply_to(word_after_all(input.take(i)), input[i]) == CommandReplyModel::Echo,
{
    lemma_short_word_runs(input.take(i));
}

/// The state of the program: the command received so far.
pub struct CommandReader {
    buffer: heapless::Vec<u8, 3>,
}

impl View for CommandReader {
    type V = Seq<u8>;

    closed spec fn view(&self) -> Seq<u8> {
        command_bytes(self.buffer)
    }
}

impl CommandReader {
    /// The program at start: nothing stored.
    pub fn new() -> (r: Self)
        ensures
            r@ == Seq::<u8>::empty(),
    {
        CommandReader { buffer: command_new() }
    }

    /// Handles one received byte.
    pub fn receive(&mut self, byte: u8) -> (reply: CommandReply)
        ensures
            reply@ == command_reply_to(old(self)@, byte),
            final(self)@ == word_after(old(self)@, byte),
            byte != CARRIAGE_RETURN && old(self)@.len() < COMMAND_CAPACITY ==> reply@
                == CommandReplyModel::Echo && final(self)@ == old(self)@.push(byte),
            (reply@ is Overflow) ==> byte != CARRIAGE_RETURN && old(self)@.len()
                >= COMMAND_CAPACITY,
            (reply@ is Read || reply@ is Unknown) <==> byte == CARRIAGE_RETURN,
            reply@ matches CommandReplyModel::Unknown(w) ==> w == old(self)@,
            old(self)@ =~= seq![97u8, 99u8, 99u8] && byte == CARRIAGE_RETURN ==> reply@
                == CommandReplyModel::Read(Sensor::Accelerometer),
            old(self)@ =~= seq![109u8, 97u8, 103u8] && byte == CARRIAGE_RETURN ==> reply@
                == CommandReplyModel::Read(Sensor::Magnetometer),
            !(reply@ is Echo) ==> final(self)@ == Seq::<u8>::empty(),
    {
        if byte == CARRIAGE_RETURN {
            let word = command_as_slice(&self.buffer);
            let reply = match parse_command(word) {
                Some(sensor) => CommandReply::Read(sensor),
                None => CommandReply::Unknown(copied(word)),
            };
            command_clear(&mut self.buffer);
            reply
        } else {
            match command_push(&mut self.buffer, byte) {
                Ok(()) => CommandReply::Echo,
                Err(_) => {
                    command_clear(&mut self.buffer);
                    CommandReply::Overflow
                },
            }
        }
    }
}

} // verus!
