//! The dump as a state machine.
//!
//! A session never touches the bus or the output itself. It tells its caller
//! what to do next (an [`Action`]) and is told what came of it (an
//! [`Event`]). Every exchange is strictly sequential: one query, one answer,
//! one word stored, address after address, until the window is exhausted or
//! something fails.

use vstd::prelude::*;
use vstd::utf8::{decode_utf8, valid_utf8};
use crate::command::{peek_command, spec_peek_command, spec_trigger_command, trigger_command};
use crate::error::DumpError;
use crate::range::AddressRange;
use crate::response::{
    response_text,
    spec_number_text,
    spec_word,
    spec_word_bytes,
    word_bytes,
    word_from_number,
};

verus! {

/// Size in bytes of the buffer that an answer is read into.
pub const FRAME_CAPACITY: usize = 16;

/// What a session is waiting for.
#[derive(Clone, Copy, Debug, PartialEq, Eq)]
pub enum Phase {
    /// The setup command is on its way.
    Arming,
    /// The query for the current address is on its way.
    Querying,
    /// The answer for the current address is awaited.
    Reading,
    /// The answer's text is being read as a number.
    Parsing,
    /// `word`, read at the current address, is being stored.
    Storing { word: u16 },
    /// All words are stored and are being committed.
    Flushing,
    /// The dump is complete.
    Finished,
    /// The dump was given up.
    Failed { error: DumpError },
}

/// The state of one dump.
#[derive(Clone, Copy, Debug, PartialEq, Eq)]
pub struct DumpSession {
    /// The window being read.
    pub range: AddressRange,
    /// Number of words stored so far.
    pub words_done: usize,
    /// Number of bytes stored so far.
    pub bytes_written: usize,
    /// What the session is waiting for.
    pub phase: Phase,
}

/// What the caller reports to the session.
#[derive(Debug, PartialEq, Eq)]
pub enum Event {
    /// The command was sent.
    Sent,
    /// An answer arrived; these are its bytes.
    Frame(Vec<u8>),
    /// The text read as a number; this is the number, truncated towards zero.
    Number(i32),
    /// The word was stored.
    Written,
    /// The stored words were committed.
    Flushed,
    /// What was asked for could not be done.
    Failed,
}

/// What the session asks of the caller.
#[derive(Debug, PartialEq, Eq)]
pub enum Action {
    /// Send these bytes to the instrument.
    Send(Vec<u8>),
    /// Read one answer from the instrument.
    ReadFrame,
    /// Read this text as a real number and truncate it towards zero.
    Parse(String),
    /// Append these two bytes to the output.
    Write([u8; 2]),
    /// Commit the output.
    Flush,
    /// Nothing is left to do; so many bytes were stored.
    Finish(usize),
    /// Stop; the dump failed for this reason.
    Abort(DumpError),
}

/// An [`Event`] with its bytes as a sequence.
pub enum EventView {
    Sent,
    Frame(Seq<u8>),
    Number(i32),
    Written,
    Flushed,
    Failed,
}

/// An [`Action`] with its bytes and text as sequences.
pub enum ActionView {
    Send(Seq<u8>),
    ReadFrame,
    Parse(Seq<char>),
    Write(Seq<u8>),
    Flush,
    Finish(usize),
    Abort(DumpError),
}

impl View for Event {
    type V = EventView;

    open spec fn view(&self) -> EventView {
        match *self {
            Event::Sent => EventView::Sent,
            Event::Frame(bytes) => EventView::Frame(bytes@),
            Event::Number(value) => EventView::Number(value),
            Event::Written => EventView::Written,
            Event::Flushed => EventView::Flushed,
            Event::Failed => EventView::Failed,
        }
    }
}

impl View for Action {
    type V = ActionView;

    open spec fn view(&self) -> ActionView {
        match *self {
            Action::Send(bytes) => ActionView::Send(bytes@),
            Action::ReadFrame => ActionView::ReadFrame,
            Action::Parse(text) => ActionView::Parse(text@),
            Action::Write(bytes) => ActionView::Write(bytes@),
            Action::Flush => ActionView::Flush,
            Action::Finish(count) => ActionView::Finish(count),
            Action::Abort(error) => ActionView::Abort(error),
        }
    }
}

impl DumpSession {
    /// The counters agree with each other and with the phase.
    pub open spec fn wf(&self) -> bool {
        &&& self.range.wf()
        &&& self.words_done <= self.range.spec_len()
        &&& self.bytes_written == 2 * self.words_done
        &&& match self.phase {
            Phase::Arming => self.words_done == 0,
            Phase::Querying | Phase::Reading | Phase::Parsing | Phase::Storing { .. } =>
                self.words_done < self.range.spec_len(),
            Phase::Flushing | Phase::Finished => self.words_done == self.range.spec_len(),
            Phase::Failed { .. } => true,
        }
    }

    /// The address that the session is working on.
    pub open spec fn spec_address(&self) -> u16 {
        self.range.spec_address_at(self.words_done as int) as u16
    }

    /// The session of a dump that has just begun.
    pub open spec fn spec_start(range: AddressRange) -> DumpSession {
        DumpSession { range, words_done: 0, bytes_written: 0, phase: Phase::Arming }
    }

    /// The session turns to querying its current address.
    pub open spec fn spec_query(self) -> (DumpSession, ActionView) {
        (
            DumpSession { phase: Phase::Querying, ..self },
            ActionView::Send(spec_peek_command(self.spec_address())),
        )
    }

    /// The session gives up with `error`.
    pub open spec fn spec_fail(self, error: DumpError) -> (DumpSession, ActionView) {
        (DumpSession { phase: Phase::Failed { error }, ..self }, ActionView::Abort(error))
    }

    /// The session after `event`, and what it asks for next. An event that
    /// does not report the success of what was asked for counts as its
    /// failure.
    pub open spec fn spec_step(self, event: EventView) -> (DumpSession, ActionView) {
        match self.phase {
            Phase::Arming => match event {
                EventView::Sent => self.spec_query(),
                _ => self.spec_fail(DumpError::BusWriteFailed { query: None }),
            },
            Phase::Querying => match event {
                EventView::Sent => (
                    DumpSession { phase: Phase::Reading, ..self },
                    ActionView::ReadFrame,
                ),
                _ => self.spec_fail(
                    DumpError::BusWriteFailed { query: Some(self.spec_address()) },
                ),
            },
            Phase::Reading => match event {
                EventView::Frame(bytes) => if valid_utf8(bytes) {
                    (
                        DumpSession { phase: Phase::Parsing, ..self },
                        ActionView::Parse(spec_number_text(decode_utf8(bytes))),
                    )
                } else {
                    self.spec_fail(DumpError::ResponseParseFailed { address: self.spec_address() })
                },
                _ => self.spec_fail(DumpError::BusReadFailed { address: self.spec_address() }),
            },
            Phase::Parsing => match event {
                EventView::Number(value) => (
                    DumpSession { phase: Phase::Storing { word: spec_word(value) }, ..self },
                    ActionView::Write(spec_word_bytes(spec_word(value))),
                ),
                _ => self.spec_fail(
                    DumpError::ResponseParseFailed { address: self.spec_address() },
                ),
            },
            Phase::Storing { .. } => match event {
                EventView::Written => {
                    let stored = DumpSession {
                        words_done: (self.words_done + 1) as usize,
                        bytes_written: (self.bytes_written + 2) as usize,
                        ..self
                    };
                    if stored.words_done < self.range.spec_len() {
                        stored.spec_query()
                    } else {
                        (DumpSession { phase: Phase::Flushing, ..stored }, ActionView::Flush)
                    }
                },
                _ => self.spec_fail(DumpError::OutputWriteFailed { address: self.spec_address() }),
            },
            Phase::Flushing => match event {
                EventView::Flushed => (
                    DumpSession { phase: Phase::Finished, ..self },
                    ActionView::Finish(self.bytes_written),
                ),
                _ => self.spec_fail(DumpError::OutputFlushFailed),
            },
            Phase::Finished => (self, ActionView::Finish(self.bytes_written)),
            Phase::Failed { error } => (self, ActionView::Abort(error)),
        }
    }

    /// Begins a dump of `range`: the session, and the setup command to send.
    pub fn start(range: AddressRange) -> (r: (DumpSession, Action))
        requires
            range.wf(),
        ensures
            r.0 == DumpSession::spec_start(range),
            r.0.wf(),
            r.1@ == ActionView::Send(spec_trigger_command()),
    {
        (
            DumpSession { range, words_done: 0, bytes_written: 0, phase: Phase::Arming },
            Action::Send(trigger_command()),
        )
    }

    /// The address that the session is working on.
    pub fn address(&self) -> (a: u16)
        requires
            self.wf(),
            self.words_done < self.range.spec_len(),
        ensures
            a == self.spec_address(),
            a == self.range.spec_addresses()[self.words_done as int],
    {
        self.range.address_at(self.words_done)
    }

    fn query(&mut self) -> (action: Action)
        requires
            old(self).range.wf(),
            old(self).words_done < old(self).range.spec_len(),
        ensures
            (*final(self), action@) == old(self).spec_query(),
    {
        let address: u16 = self.range.address_at(self.words_done);
        self.phase = Phase::Querying;
        Action::Send(peek_command(address))
    }

    fn fail(&mut self, error: DumpError) -> (action: Action)
        ensures
            (*final(self), action@) == old(self).spec_fail(error),
    {
        self.phase = Phase::Failed { error };
        Action::Abort(error)
    }

    /// Takes in what came of the last action and says what to do next.
    pub fn step(&mut self, event: Event) -> (action: Action)
        requires
            old(self).wf(),
        ensures
            *final(self) == old(self).spec_step(event@).0,
            action@ == old(self).spec_step(event@).1,
            final(self).wf(),
    {
        match self.phase {
            Phase::Arming => match event {
                Event::Sent => self.query(),
                _ => self.fail(DumpError::BusWriteFailed { query: None }),
            },
            Phase::Querying => match event {
                Event::Sent => {
                    self.phase = Phase::Reading;
                    Action::ReadFrame
                },
                _ => {
                    let address: u16 = self.address();
                    self.fail(DumpError::BusWriteFailed { query: Some(address) })
                },
            },
            Phase::Reading => match event {
                Event::Frame(bytes) => match response_text(bytes.as_slice()) {
                    Some(text) => {
                        self.phase = Phase::Parsing;
                        Action::Parse(text)
                    },
                    None => {
                        let address: u16 = self.address();
                        self.fail(DumpError::ResponseParseFailed { address })
                    },
                },
                _ => {
                    let address: u16 = self.address();
                    self.fail(DumpError::BusReadFailed { address })
                },
            },
            Phase::Parsing => match event {
                Event::Number(value) => {
                    let word: u16 = word_from_number(value);
                    self.phase = Phase::Storing { word };
                    Action::Write(word_bytes(word))
                },
                _ => {
                    let address: u16 = self.address();
                    self.fail(DumpError::ResponseParseFailed { address })
                },
            },
            Phase::Storing { .. } => match event {
                Event::Written => {
                    self.words_done = self.words_done + 1;
                    self.bytes_written = self.bytes_written + 2;
                    if self.words_done < self.range.len() {
                        self.query()
                    } else {
                        self.phase = Phase::Flushing;
                        Action::Flush
                    }
                },
                _ => {
                    let address: u16 = self.address();
                    self.fail(DumpError::OutputWriteFailed { address })
                },
            },
            Phase::Flushing => match event {
                Event::Flushed => {
                    self.phase = Phase::Finished;
                    Action::Finish(self.bytes_written)
                },
                _ => self.fail(DumpError::OutputFlushFailed),
            },
            Phase::Finished => Action::Finish(self.bytes_written),
            Phase::Failed { error } => Action::Abort(error),
        }
    }
}

} // verus!
