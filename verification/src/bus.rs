//! One request/response exchange on the half-duplex line, as the decisions
//! that the owner of the port has to take: what to write, what each outcome
//! of a write or a read means, and when the exchange is over.
//!
//! The port itself is not here. Its owner writes the frame of `Sending`,
//! reports what the write returned, then reads and reports each read to
//! `Receiving` until that says the exchange is done.

use crate::packets;
use crate::packets::{decoded, is_complete, Request, Status, StatusView};
use vstd::prelude::*;

verus! {

/// `std::io::ErrorKind`, the category of an I/O error. Nothing is said of
/// what a value holds: the kinds are carried from the port to the caller.
#[verifier::external_type_specification]
#[verifier::external_body]
pub struct ExIoErrorKind(std::io::ErrorKind);

/// `serial::ErrorKind`, the category of a serial port error. Nothing is said
/// of what a value holds: the kinds are carried from the port to the caller.
#[verifier::external_type_specification]
#[verifier::external_body]
pub struct ExSerialErrorKind(serial::ErrorKind);

/// Size of the window that one read of the line fills at most.
pub const SCRATCH_LEN: usize = 128;

/// Categories of errors that can occur when interacting with the bus.
#[derive(Debug, Clone, Copy, PartialEq, Eq)]
pub enum Error {
    /// The port could not be opened or configured.
    SerialError(serial::ErrorKind),
    /// A read of the line failed.
    ReadError(std::io::ErrorKind),
    /// The write of the request failed.
    WriteError(std::io::ErrorKind),
    /// Not all data went over the line: the write was short, or the line
    /// ended before a whole frame had arrived.
    TransferError,
    /// A whole frame arrived and did not decode.
    DataError(packets::Error),
}

/// A line on which one request is answered by one status.
pub trait HalfDuplex {
    fn exchange(&mut self, p: &Request) -> Result<Status, Error>;
}

/// What a decoded buffer means to the caller of an exchange.
pub open spec fn delivered(buffer: Seq<u8>) -> Result<StatusView, Error> {
    match decoded(buffer) {
        Ok(status) => Ok(status),
        Err(e) => Err(Error::DataError(e)),
    }
}

/// An exchange whose request is being written to the line.
pub struct Sending {
    frame: Vec<u8>,
}

/// An exchange that waits for bytes of the response.
pub struct Receiving {
    buffer: Vec<u8>,
}

/// What follows a read of the line.
pub enum Step {
    /// No whole frame yet: pause for about a millisecond, then read again.
    Pause(Receiving),
    /// The exchange is over, with this result.
    Done(Result<Status, Error>),
}

/// A `Step` as a mathematical value.
pub ghost enum StepView {
    Pause(Seq<u8>),
    Done(Result<StatusView, Error>),
}

/// What follows from the outcome of the write of a frame of `expected`
/// bytes: the bytes received so far, none, or the error that ends the
/// exchange.
pub open spec fn after_write(expected: nat, outcome: Result<usize, std::io::ErrorKind>) -> Result<
    Seq<u8>,
    Error,
> {
    match outcome {
        Err(kind) => Err(Error::WriteError(kind)),
        Ok(written) => if written == expected {
            Ok(Seq::<u8>::empty())
        } else {
            Err(Error::TransferError)
        },
    }
}

/// What follows when a read delivers `chunk` and `buffer` has been received
/// before it. No bytes at all mean that the line has ended.
pub open spec fn after_chunk(buffer: Seq<u8>, chunk: Seq<u8>) -> StepView {
    if chunk.len() == 0 {
        StepView::Done(Err(Error::TransferError))
    } else if is_complete(buffer + chunk) {
        StepView::Done(delivered(buffer + chunk))
    } else {
        StepView::Pause(buffer + chunk)
    }
}

/// What follows from the outcome of a read when `buffer` has been received
/// before it.
pub open spec fn after_read(buffer: Seq<u8>, outcome: Result<&[u8], std::io::ErrorKind>) -> StepView {
    match outcome {
        Err(kind) => StepView::Done(Err(Error::ReadError(kind))),
        Ok(chunk) => after_chunk(buffer, chunk@),
    }
}

/// The bytes of `chunks`, one chunk after the other.
pub open spec fn joined(chunks: Seq<Seq<u8>>) -> Seq<u8>
    decreases chunks.len(),
{
    if chunks.len() == 0 {
        Seq::<u8>::empty()
    } else {
        chunks.first() + joined(chunks.drop_first())
    }
}

/// What follows when successive reads deliver `chunks` and `buffer` has been
/// received before them: the first step that ends the exchange, or the pause
/// after the last chunk.
pub open spec fn after_chunks(buffer: Seq<u8>, chunks: Seq<Seq<u8>>) -> StepView
    decreases chunks.len(),
{
    if chunks.len() == 0 {
        StepView::Pause(buffer)
    } else {
        match after_chunk(buffer, chunks.first()) {
            StepView::Pause(next) => after_chunks(next, chunks.drop_first()),
            StepView::Done(result) => StepView::Done(result),
        }
    }
}

impl View for Sending {
    type V = Seq<u8>;

    closed spec fn view(&self) -> Seq<u8> {
        self.frame@
    }
}

impl View for Receiving {
    type V = Seq<u8>;

    closed spec fn view(&self) -> Seq<u8> {
        self.buffer@
    }
}

impl View for Step {
    type V = StepView;

    open spec fn view(&self) -> StepView {
        match *self {
            Step::Pause(receiving) => StepView::Pause(receiving@),
            Step::Done(Ok(status)) => StepView::Done(Ok(status@)),
            Step::Done(Err(e)) => StepView::Done(Err(e)),
        }
    }
}

impl Sending {
    /// Begins an exchange: encodes the request.
    pub fn new(request: &Request) -> (sending: Sending)
        ensures
            sending@ == request.wire(),
    {
        Sending { frame: request.serialized() }
    }

    /// The bytes to write to the line, all at once.
    pub fn frame(&self) -> (bytes: &[u8])
        ensures
            bytes@ == self@,
    {
        self.frame.as_slice()
    }

    /// Takes the outcome of the write: the number of bytes written, or the
    /// kind of the I/O error. Anything but the whole frame ends the
    /// exchange; there is no second attempt.
    pub fn written(self, outcome: Result<usize, std::io::ErrorKind>) -> (next: Result<
        Receiving,
        Error,
    >)
        ensures
            match next {
                Ok(receiving) => after_write(self@.len(), outcome) == Ok::<Seq<u8>, Error>(
                    receiving@,
                ),
                Err(e) => after_write(self@.len(), outcome) == Err::<Seq<u8>, Error>(e),
            },
    {
        match outcome {
            Err(kind) => Err(Error::WriteError(kind)),
            Ok(len) => {
                if len != self.frame.len() {
                    Err(Error::TransferError)
                } else {
                    Ok(Receiving { buffer: Vec::new() })
                }
            },
        }
    }
}

impl Receiving {
    /// While an exchange waits, what has arrived is not yet a whole frame.
    #[verifier::type_invariant]
    spec fn incomplete(self) -> bool {
        !is_complete(self.buffer@)
    }

    /// The bytes that have arrived so far.
    pub fn buffer(&self) -> (bytes: &[u8])
        ensures
            bytes@ == self@,
    {
        self.buffer.as_slice()
    }

    /// Takes the outcome of a read: the bytes that it delivered, or the kind
    /// of the I/O error. A read of no bytes means that the line has ended.
    pub fn received(self, outcome: Result<&[u8], std::io::ErrorKind>) -> (step: Step)
        ensures
            step@ == after_read(self@, outcome),
    {
        proof {
            use_type_invariant(&self);
        }
        match outcome {
            Err(kind) => Step::Done(Err(Error::ReadError(kind))),
            Ok(chunk) => {
                if chunk.len() == 0 {
                    return Step::Done(Err(Error::TransferError));
                }
                let ghost before = self.buffer@;
                let mut output = self.buffer;
                output.extend_from_slice(chunk);
                proof {
                    assert(output@ =~= before + chunk@);
                }
                if Status::is_constructible_from(output.as_slice()) {
                    match Status::from_bytes(output.as_slice()) {
                        Ok(status) => Step::Done(Ok(status)),
                        Err(e) => Step::Done(Err(Error::DataError(e))),
                    }
                } else {
                    Step::Pause(Receiving { buffer: output })
                }
            },
        }
    }
}

/// The text that `Debug` gives for a kind of I/O error.
pub uninterp spec fn io_kind_text(kind: std::io::ErrorKind) -> Seq<char>;

/// The text that `Debug` gives for a kind of serial port error.
pub uninterp spec fn serial_kind_text(kind: serial::ErrorKind) -> Seq<char>;

/// `Debug` of `std::io::ErrorKind`, through `format!`: the text depends on
/// the kind alone, and is called `io_kind_text` in contracts.
#[verifier::external_body]
fn io_kind_debug(kind: std::io::ErrorKind) -> (text: String)
    ensures
        text@ == io_kind_text(kind),
{
    format!("{:?}", kind)
}

/// `Debug` of `serial::ErrorKind`, through `format!`: the text depends on
/// the kind alone, and is called `serial_kind_text` in contracts.
#[verifier::external_body]
fn serial_kind_debug(kind: serial::ErrorKind) -> (text: String)
    ensures
        text@ == serial_kind_text(kind),
{
    format!("{:?}", kind)
}

impl Error {
    /// The error in words.
    pub open spec fn message_text(self) -> Seq<char> {
        match self {
            Error::SerialError(kind) => "serial error occured: "@ + serial_kind_text(kind),
            Error::ReadError(kind) => "read failed: "@ + io_kind_text(kind),
            Error::WriteError(kind) => "write failed: "@ + io_kind_text(kind),
            Error::DataError(e) => "cannot parse response: "@ + e.name()@,
            Error::TransferError => "not all data transferred"@,
        }
    }

    /// Describes the error in words, for people.
    pub fn message(&self) -> (text: String)
        ensures
            text@ == self.message_text(),
    {
        match *self {
            Error::SerialError(kind) => {
                let detail = serial_kind_debug(kind);
                String::from_str("serial error occured: ").concat(detail.as_str())
            },
            Error::ReadError(kind) => {
                let detail = io_kind_debug(kind);
                String::from_str("read failed: ").concat(detail.as_str())
            },
            Error::WriteError(kind) => {
                let detail = io_kind_debug(kind);
                String::from_str("write failed: ").concat(detail.as_str())
            },
            Error::DataError(e) => String::from_str("cannot parse response: ").concat(e.name()),
            Error::TransferError => String::from_str("not all data transferred"),
        }
    }
}

/// An exchange hands a buffer to the decoder only once it is complete, so
/// the one fault of the data that it can report is a wrong checksum.
pub proof fn lemma_data_error_is_invalid_crc(buffer: Seq<u8>, chunk: Seq<u8>, e: packets::Error)
    requires
        after_chunk(buffer, chunk) == StepView::Done(Err(Error::DataError(e))),
    ensures
        e == packets::Error::InvalidCrc,
{
}

/// A pause keeps all that had arrived and adds the new bytes behind it: the
/// buffer only grows.
pub proof fn lemma_pause_appends(buffer: Seq<u8>, chunk: Seq<u8>, next: Seq<u8>)
    requires
        after_chunk(buffer, chunk) == StepView::Pause(next),
    ensures
        next == buffer + chunk,
        next.len() > buffer.len(),
        !is_complete(next),
{
}

/// However the line cuts a frame into reads of at least one byte each, an
/// exchange that takes those reads in turn ends with what the whole frame
/// decodes to.
pub proof fn lemma_frame_arrives_whole(buffer: Seq<u8>, chunks: Seq<Seq<u8>>)
    requires
        chunks.len() > 0,
        forall|i: int| 0 <= i < chunks.len() ==> chunks[i].len() > 0,
        is_complete(buffer + joined(chunks)),
    ensures
        after_chunks(buffer, chunks) == StepView::Done(delivered(buffer + joined(chunks))),
    decreases chunks.len(),
{
    let whole = buffer + joined(chunks);
    let first = chunks.first();
    let rest = chunks.drop_first();
    let next = buffer + first;
    assert(whole =~= next + joined(rest));
    if rest.len() == 0 {
        assert(next =~= whole);
    } else {
        assert(rest.first() == chunks[1]);
        assert(joined(rest).len() > 0);
        assert(whole.take(next.len() as int) =~= next);
        assert(whole.take(whole.len() as int) =~= whole);
        if is_complete(next) {
            packets::lemma_complete_prefix_is_unique(whole, next.len() as int, whole.len() as int);
        }
        assert forall|i: int| 0 <= i < rest.len() implies rest[i].len() > 0 by {
            assert(rest[i] == chunks[i + 1]);
        }
        lemma_frame_arrives_whole(next, rest);
    }
}

} // verus!
