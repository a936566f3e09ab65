//! Wire format of the bus: request frames, status frames and their checksum.
//!
//! Every frame has the same shape: two marker bytes, the device id, a
//! declared length, one byte that is the instruction of a request or the
//! error field of a status, a body, and a checksum over everything after the
//! markers.

use vstd::prelude::*;

verus! {

/// The value of each of the two marker bytes that open a frame.
pub const MARKER: u8 = 0xff;

/// Length of the shortest frame: markers, id, declared length, one
/// instruction or error byte, checksum.
pub const MIN_FRAME_LEN: usize = 6;

/// Why a buffer is not a valid status frame.
#[derive(Debug, Clone, Copy, PartialEq, Eq, Structural)]
pub enum Error {
    /// The buffer is shorter than the shortest frame, or its length is not
    /// the one it declares.
    PacketTooShort,
    /// Kept for structural faults other than length and checksum; nothing
    /// reports it at present.
    MalformedPacket,
    /// The last byte is not the checksum of the bytes between the markers
    /// and itself.
    InvalidCrc,
}

impl Error {
    /// The name of the error.
    #[verifier::when_used_as_spec(spec_name)]
    pub fn name(&self) -> (name: &'static str)
        ensures
            name == self.spec_name(),
    {
        match *self {
            Error::PacketTooShort => "PacketTooShort",
            Error::MalformedPacket => "MalformedPacket",
            Error::InvalidCrc => "InvalidCrc",
        }
    }

    /// The name of the error.
    pub open spec fn spec_name(&self) -> &'static str {
        match *self {
            Error::PacketTooShort => "PacketTooShort",
            Error::MalformedPacket => "MalformedPacket",
            Error::InvalidCrc => "InvalidCrc",
        }
    }
}

/// A request addressed to the device `id`.
#[derive(Debug)]
pub enum Request {
    Ping { id: u8 },
    Read { id: u8, addr: u8, len: u8 },
    Write { id: u8, addr: u8, data: Vec<u8> },
}

/// The response of a device.
#[derive(Debug, PartialEq)]
pub struct Status {
    pub id: u8,
    /// Bit field of the alarm conditions that the device reports.
    pub error: u8,
    pub data: Vec<u8>,
}

/// A status as a mathematical value.
pub ghost struct StatusView {
    pub id: u8,
    pub error: u8,
    pub data: Seq<u8>,
}

impl View for Status {
    type V = StatusView;

    open spec fn view(&self) -> StatusView {
        StatusView { id: self.id, error: self.error, data: self.data@ }
    }
}

/// Sum of all bytes of `data`, as a mathematical integer.
pub open spec fn byte_sum(data: Seq<u8>) -> int
    decreases data.len(),
{
    if data.len() == 0 {
        0
    } else {
        byte_sum(data.drop_last()) + data.last() as int
    }
}

/// The checksum of `data`: the one's complement of the sum of its bytes
/// modulo 256.
pub open spec fn checksum(data: Seq<u8>) -> u8 {
    (255 - byte_sum(data) % 256) as u8
}

/// The length byte of a frame whose body has `body_len` bytes: two more than
/// the body, kept to one byte.
pub open spec fn length_byte(body_len: nat) -> u8 {
    ((body_len + 2) % 256) as u8
}

/// The frame that carries `body` to or from the device `id`, with `kind` as
/// its instruction or error byte and `length` as its declared length.
pub open spec fn frame(id: u8, length: u8, kind: u8, body: Seq<u8>) -> Seq<u8> {
    let covered = seq![id, length, kind] + body;
    seq![MARKER, MARKER] + covered + seq![checksum(covered)]
}

/// The total length that `buffer` declares for itself, once it is long
/// enough to be asked.
pub open spec fn declared_total(buffer: Seq<u8>) -> Option<usize> {
    if buffer.len() < MIN_FRAME_LEN {
        None
    } else {
        Some((buffer[3] + 4) as usize)
    }
}

/// Whether `buffer` is exactly one frame by its length: at least the
/// shortest frame, and as long as it declares. The checksum plays no part.
pub open spec fn is_complete(buffer: Seq<u8>) -> bool {
    buffer.len() >= MIN_FRAME_LEN && buffer.len() == buffer[3] + 4
}

/// The bytes of a complete frame that its checksum covers.
pub open spec fn covered(buffer: Seq<u8>) -> Seq<u8> {
    buffer.subrange(2, buffer.len() - 1)
}

/// What a buffer decodes to.
pub open spec fn decoded(buffer: Seq<u8>) -> Result<StatusView, Error> {
    if !is_complete(buffer) {
        Err(Error::PacketTooShort)
    } else if buffer.last() != checksum(covered(buffer)) {
        Err(Error::InvalidCrc)
    } else {
        Ok(StatusView { id: buffer[2], error: buffer[4], data: buffer.subrange(5, buffer.len() - 1) })
    }
}

/// Computes the checksum of `data`.
pub fn crc_data(data: &[u8]) -> (sum: u8)
    ensures
        sum == checksum(data@),
{
    let mut sum: u8 = 0;
    let mut i: usize = 0;
    while i < data.len()
        invariant
            i <= data.len(),
            sum as int == byte_sum(data@.take(i as int)) % 256,
        decreases data.len() - i,
    {
        proof {
            assert(data@.take(i + 1).drop_last() =~= data@.take(i as int));
        }
        sum = sum.wrapping_add(data[i]);
        i += 1;
    }
    proof {
        assert(data@.take(i as int) =~= data@);
        assert(!sum == 255 - sum) by (bit_vector);
    }
    !sum
}

/// Computes the checksum of a frame under construction or under test: of
/// everything in `serialized` after the two markers.
fn crc(serialized: &[u8]) -> (sum: u8)
    requires
        serialized@.len() >= 2,
    ensures
        sum == checksum(serialized@.skip(2)),
{
    let len = serialized.len();
    proof {
        assert(serialized@.subrange(2, len as int) =~= serialized@.skip(2));
    }
    crc_data(&serialized[2..len])
}

impl Status {
    /// Decodes a status frame.
    pub fn from_bytes(serialized: &[u8]) -> (result: Result<Status, Error>)
        ensures
            match result {
                Ok(status) => decoded(serialized@) == Ok::<StatusView, Error>(status@),
                Err(e) => decoded(serialized@) == Err::<StatusView, Error>(e),
            },
            result is Ok ==> result->Ok_0.data@.len() + 2 == serialized@[3],
    {
        if !Status::is_constructible_from(serialized) {
            return Err(Error::PacketTooShort);
        }
        let len = serialized.len();
        let actual_crc = crc(&serialized[0..len - 1]);
        let declared_crc = serialized[len - 1];
        proof {
            assert(serialized@.subrange(0, len - 1).skip(2) =~= covered(serialized@));
        }
        if declared_crc != actual_crc {
            return Err(Error::InvalidCrc);
        }
        let data = vstd::slice::slice_to_vec(&serialized[5..len - 1]);
        Ok(Status { id: serialized[2], error: serialized[4], data })
    }

    /// Whether `serialized` is exactly one frame by its length.
    pub fn is_constructible_from(serialized: &[u8]) -> (complete: bool)
        ensures
            complete == is_complete(serialized@),
    {
        let len = serialized.len();
        match Status::extract_declared_length(serialized) {
            Some(declared_len) => len == declared_len,
            None => false,
        }
    }

    /// The total length that `serialized` declares, if it is long enough to
    /// hold a frame at all.
    fn extract_declared_length(serialized: &[u8]) -> (declared: Option<usize>)
        ensures
            declared == declared_total(serialized@),
    {
        let len = serialized.len();
        if len < MIN_FRAME_LEN {
            None
        } else {
            Some(serialized[3] as usize + 4)
        }
    }
}

impl Request {
    /// The device that the request is addressed to.
    pub open spec fn target(&self) -> u8 {
        match *self {
            Request::Ping { id } => id,
            Request::Read { id, .. } => id,
            Request::Write { id, .. } => id,
        }
    }

    /// The instruction byte of the request.
    pub open spec fn instruction(&self) -> u8 {
        match *self {
            Request::Ping { .. } => 0x01,
            Request::Read { .. } => 0x02,
            Request::Write { .. } => 0x03,
        }
    }

    /// What follows the instruction byte in the frame.
    pub open spec fn body(&self) -> Seq<u8> {
        match *self {
            Request::Ping { .. } => Seq::<u8>::empty(),
            Request::Read { addr, len, .. } => seq![addr, len],
            Request::Write { addr, data, .. } => seq![addr] + data@,
        }
    }

    /// The request as it goes over the line.
    pub open spec fn wire(&self) -> Seq<u8> {
        frame(self.target(), length_byte(self.body().len()), self.instruction(), self.body())
    }

    fn id_byte(&self) -> (id: u8)
        ensures
            id == self.target(),
    {
        match self {
            Request::Ping { id } => *id,
            Request::Write { id, .. } => *id,
            Request::Read { id, .. } => *id,
        }
    }

    fn instruction_byte(&self) -> (instruction: u8)
        ensures
            instruction == self.instruction(),
    {
        match self {
            Request::Ping { .. } => 0x01,
            Request::Read { .. } => 0x02,
            Request::Write { .. } => 0x03,
        }
    }

    fn len_byte(&self) -> (length: u8)
        ensures
            length == length_byte(self.body().len()),
    {
        match self {
            Request::Ping { .. } => 2,
            Request::Read { .. } => 4,
            Request::Write { data, .. } => {
                let low = (data.len() % 256) as u8;
                low.wrapping_add(3)
            },
        }
    }

    /// Encodes the request as one frame.
    pub fn serialized(&self) -> (bytes: Vec<u8>)
        ensures
            bytes@ == self.wire(),
    {
        let mut v: Vec<u8> = Vec::new();
        v.push(MARKER);
        v.push(MARKER);
        v.push(self.id_byte());
        v.push(self.len_byte());
        v.push(self.instruction_byte());
        match self {
            Request::Write { addr, data, .. } => {
                v.push(*addr);
                v.extend_from_slice(data.as_slice());
            },
            Request::Read { addr, len, .. } => {
                v.push(*addr);
                v.push(*len);
            },
            Request::Ping { .. } => {},
        }
        let ghost head = seq![self.target(), length_byte(self.body().len()), self.instruction()];
        proof {
            assert(v@ =~= seq![MARKER, MARKER] + (head + self.body()));
            assert(v@.skip(2) =~= head + self.body());
        }
        let crc = crc(v.as_slice());
        v.push(crc);
        proof {
            assert(v@ =~= self.wire());
        }
        v
    }
}

/// Decoding undoes framing: a frame built around an error byte and a body
/// short enough for the length byte decodes to exactly that id, error byte
/// and body.
pub proof fn lemma_decode_inverts_frame(id: u8, kind: u8, body: Seq<u8>)
    requires
        body.len() + 2 <= 255,
    ensures
        decoded(frame(id, length_byte(body.len()), kind, body)) == Ok::<StatusView, Error>(
            StatusView { id, error: kind, data: body },
        ),
{
    let length = length_byte(body.len());
    let buffer = frame(id, length, kind, body);
    let payload = seq![id, length, kind] + body;
    assert(buffer.len() == body.len() + 6);
    assert(buffer[3] == length);
    assert(covered(buffer) =~= payload);
    assert(buffer.subrange(5, buffer.len() - 1) =~= body);
}

/// A request whose body fits the length byte goes over the line as a frame
/// that declares its own length and carries a valid checksum.
pub proof fn lemma_wire_is_well_formed(request: Request)
    requires
        request.body().len() + 2 <= 255,
    ensures
        is_complete(request.wire()),
        request.wire()[3] == request.body().len() + 2,
        request.wire().last() == checksum(covered(request.wire())),
{
    lemma_decode_inverts_frame(request.target(), request.instruction(), request.body());
}

/// Decoding fails for two reasons only, the length and the checksum:
/// `MalformedPacket` is never the answer.
pub proof fn lemma_malformed_is_never_reported(buffer: Seq<u8>)
    ensures
        decoded(buffer) != Err::<StatusView, Error>(Error::MalformedPacket),
{
}

/// Of the prefixes of one stream of bytes, at most one is a complete frame:
/// completeness holds at the declared length, not before and not after.
pub proof fn lemma_complete_prefix_is_unique(stream: Seq<u8>, m: int, n: int)
    requires
        0 <= m <= stream.len(),
        0 <= n <= stream.len(),
        is_complete(stream.take(m)),
        is_complete(stream.take(n)),
    ensures
        m == n,
{
    assert(stream.take(m)[3] == stream[3]);
    assert(stream.take(n)[3] == stream[3]);
}

/// A frame that decodes stops decoding when its last byte is replaced by
/// any other value: the checksum no longer matches.
pub proof fn lemma_altered_checksum_is_rejected(buffer: Seq<u8>, last: u8)
    requires
        decoded(buffer) is Ok,
        last != buffer.last(),
    ensures
        decoded(buffer.update(buffer.len() - 1, last)) == Err::<StatusView, Error>(
            Error::InvalidCrc,
        ),
{
    let altered = buffer.update(buffer.len() - 1, last);
    assert(covered(altered) =~= covered(buffer));
}

} // verus!
