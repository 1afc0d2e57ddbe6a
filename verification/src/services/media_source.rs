//! A decoded audio payload as a randomly seekable byte source.
//!
//! One buffer with one cursor serves two protocols. The blocking protocol is
//! [`GoogleTtsMediaSource::read`] and [`GoogleTtsMediaSource::seek`]. The
//! cooperative protocol is [`GoogleTtsMediaSource::poll_read`],
//! [`GoogleTtsMediaSource::start_seek`] and
//! [`GoogleTtsMediaSource::poll_complete`]; since the payload is resident,
//! each of them completes at once.
//!
//! The two protocols read alike but seek differently. A blocking seek admits
//! the positions `0..=len` only. A cooperative seek admits every position
//! that a `usize` can hold, so it can leave the cursor past the end of the
//! data, where reads of either protocol hand out nothing. See
//! [`lemma_start_seek_is_laxer`].

use crate::services::decoder::{decode_standard, decoded_len, standard_base64_decoding};
use crate::services::read_buf;
use crate::services::read_buf::{read_buf_capacity, read_buf_filled, read_buf_remaining};
use tokio::io::ReadBuf;
use vstd::prelude::*;

verus! {

/// Which rule a refused seek broke.
#[derive(Debug, Clone, Copy, PartialEq, Eq, Structural)]
pub enum SeekFault {
    /// Blocking seek: the target lies before the first byte.
    NegativePosition,
    /// Blocking seek: the target lies past the end of the data.
    BeyondEof,
    /// Cooperative seek: the target lies before the first byte.
    BeforeStart,
    /// Cooperative seek: the target does not fit in a position.
    BeyondEnd,
}

/// Why an operation on a media source failed.
#[derive(Debug, Clone, Copy, PartialEq, Eq, Structural)]
pub enum MediaSourceError {
    /// The payload is not standard padded base64.
    Decode,
    /// The requested position is not admitted; the source is unchanged.
    InvalidSeek(SeekFault),
    /// The operation is deliberately not offered.
    Unsupported,
}

impl MediaSourceError {
    /// The text that describes the error.
    pub open spec fn spec_message(self) -> Seq<char> {
        match self {
            MediaSourceError::Decode => "Base64 decode error"@,
            MediaSourceError::InvalidSeek(SeekFault::NegativePosition) =>
                "Invalid seek to a negative position"@,
            MediaSourceError::InvalidSeek(SeekFault::BeyondEof) => "Invalid seek beyond EOF"@,
            MediaSourceError::InvalidSeek(SeekFault::BeforeStart) => "Seek before the start"@,
            MediaSourceError::InvalidSeek(SeekFault::BeyondEnd) => "Seek beyond the end"@,
            MediaSourceError::Unsupported => "Operation is not supported"@,
        }
    }

    /// A one-line description of the error.
    pub fn message(&self) -> (text: String)
        ensures
            text@ == self.spec_message(),
    {
        match self {
            MediaSourceError::Decode => "Base64 decode error".to_string(),
            MediaSourceError::InvalidSeek(SeekFault::NegativePosition) =>
                "Invalid seek to a negative position".to_string(),
            MediaSourceError::InvalidSeek(SeekFault::BeyondEof) =>
                "Invalid seek beyond EOF".to_string(),
            MediaSourceError::InvalidSeek(SeekFault::BeforeStart) =>
                "Seek before the start".to_string(),
            MediaSourceError::InvalidSeek(SeekFault::BeyondEnd) =>
                "Seek beyond the end".to_string(),
            MediaSourceError::Unsupported => "Operation is not supported".to_string(),
        }
    }
}

/// Where a seek is measured from.
#[derive(Debug, Clone, Copy, PartialEq, Eq, Structural)]
pub enum SeekFrom {
    /// An absolute offset from the first byte.
    Start(u64),
    /// A signed offset from the end of the data.
    End(i64),
    /// A signed offset from the current position.
    Current(i64),
}

/// Mathematical model of a media source: the payload and the cursor into it.
pub struct AudioBuffer {
    pub bytes: Seq<u8>,
    pub position: nat,
}

impl AudioBuffer {
    /// Total number of payload bytes.
    pub open spec fn len(self) -> nat {
        self.bytes.len()
    }

    /// The cursor points into the payload or just past its last byte.
    pub open spec fn in_bounds(self) -> bool {
        self.position <= self.bytes.len()
    }

    /// Number of bytes between the cursor and the end; zero once the cursor
    /// is at or past the end.
    pub open spec fn remaining(self) -> nat {
        if self.position <= self.bytes.len() {
            (self.bytes.len() - self.position) as nat
        } else {
            0
        }
    }

    /// Number of bytes a read that asks for `n` bytes hands out.
    pub open spec fn read_len(self, n: nat) -> nat {
        if n <= self.remaining() {
            n
        } else {
            self.remaining()
        }
    }

    /// The bytes a read that asks for `n` bytes hands out.
    pub open spec fn read_bytes(self, n: nat) -> Seq<u8> {
        if self.position <= self.bytes.len() {
            self.bytes.subrange(self.position as int, (self.position + self.read_len(n)) as int)
        } else {
            Seq::empty()
        }
    }

    /// The buffer after a read that asked for `n` bytes.
    pub open spec fn after_read(self, n: nat) -> AudioBuffer {
        AudioBuffer { bytes: self.bytes, position: self.position + self.read_len(n) }
    }

    /// The same payload with the cursor at `position`.
    pub open spec fn at(self, position: nat) -> AudioBuffer {
        AudioBuffer { bytes: self.bytes, position }
    }

    /// The absolute position that `pos` asks for, as an unbounded integer.
    pub open spec fn seek_target(self, pos: SeekFrom) -> int {
        match pos {
            SeekFrom::Start(offset) => offset as int,
            SeekFrom::End(offset) => self.bytes.len() + offset,
            SeekFrom::Current(offset) => self.position + offset,
        }
    }

    /// Outcome of a blocking seek: the target must lie in `0..=len`.
    pub open spec fn seek(self, pos: SeekFrom) -> Result<AudioBuffer, MediaSourceError> {
        let target = self.seek_target(pos);
        if target < 0 {
            Err(MediaSourceError::InvalidSeek(SeekFault::NegativePosition))
        } else if target > self.bytes.len() {
            Err(MediaSourceError::InvalidSeek(SeekFault::BeyondEof))
        } else {
            Ok(self.at(target as nat))
        }
    }

    /// Outcome of a cooperative seek: the target must only be representable
    /// as a position, so it may lie past the end of the data.
    pub open spec fn start_seek(self, pos: SeekFrom) -> Result<AudioBuffer, MediaSourceError> {
        let target = self.seek_target(pos);
        if target < 0 {
            Err(MediaSourceError::InvalidSeek(SeekFault::BeforeStart))
        } else if target > usize::MAX {
            Err(MediaSourceError::InvalidSeek(SeekFault::BeyondEnd))
        } else {
            Ok(self.at(target as nat))
        }
    }
}

/// A decoded audio payload held in memory, with a cursor.
pub struct GoogleTtsMediaSource {
    pub audio_data: Vec<u8>,
    pub position: usize,
}

impl View for GoogleTtsMediaSource {
    type V = AudioBuffer;

    open spec fn view(&self) -> AudioBuffer {
        AudioBuffer { bytes: self.audio_data@, position: self.position as nat }
    }
}

impl GoogleTtsMediaSource {
    /// Decodes a standard, padded base64 payload into a source whose cursor
    /// is at the first byte. Fails with [`MediaSourceError::Decode`] exactly
    /// when the text is not such an encoding.
    pub fn new(base64_audio_content: String) -> (r: Result<Self, MediaSourceError>)
        ensures
            match r {
                Ok(source) => standard_base64_decoding(base64_audio_content@) == Some(
                    source@.bytes,
                ) && source@.position == 0 && base64_audio_content@.len() % 4 == 0
                    && source@.len() == decoded_len(base64_audio_content@),
                Err(e) => e == MediaSourceError::Decode && standard_base64_decoding(
                    base64_audio_content@,
                ) is None,
            },
    {
        Self::from_decoded(decode_standard(base64_audio_content))
    }

    /// Wraps the outcome of decoding a payload: the decoded bytes become a
    /// source whose cursor is at the first byte, and any decoding failure
    /// becomes [`MediaSourceError::Decode`].
    pub fn from_decoded(decoded: Result<Vec<u8>, std::io::Error>) -> (r: Result<
        Self,
        MediaSourceError,
    >)
        ensures
            match decoded {
                Ok(bytes) => r is Ok && r->Ok_0.audio_data == bytes && r->Ok_0.position == 0,
                Err(_) => r is Err && r->Err_0 == MediaSourceError::Decode,
            },
    {
        match decoded {
            Ok(audio_data) => Ok(GoogleTtsMediaSource { audio_data, position: 0 }),
            Err(_) => Err(MediaSourceError::Decode),
        }
    }

    /// Blocking seek. Commits the new position and returns it when the target
    /// lies in `0..=len`; otherwise fails and leaves the source unchanged.
    pub fn seek(&mut self, pos: SeekFrom) -> (r: Result<u64, MediaSourceError>)
        ensures
            match old(self)@.seek(pos) {
                Ok(buffer) => r is Ok && r->Ok_0 == buffer.position && final(self)@ == buffer,
                Err(e) => r is Err && r->Err_0 == e && *final(self) == *old(self),
            },
    {
        let len = self.audio_data.len();
        let target: i128 = match pos {
            SeekFrom::Start(offset) => offset as i128,
            SeekFrom::End(offset) => len as i128 + offset as i128,
            SeekFrom::Current(offset) => self.position as i128 + offset as i128,
        };
        if target < 0 {
            Err(MediaSourceError::InvalidSeek(SeekFault::NegativePosition))
        } else if target > len as i128 {
            Err(MediaSourceError::InvalidSeek(SeekFault::BeyondEof))
        } else {
            self.position = target as usize;
            Ok(target as u64)
        }
    }

    /// Cooperative seek, first phase. Commits the new position when the target
    /// is representable as a position, even past the end of the data;
    /// otherwise fails and leaves the source unchanged.
    ///
    /// Unlike [`GoogleTtsMediaSource::seek`], this does not compare the target
    /// with the length of the data: a cursor placed past the end makes later
    /// reads hand out nothing.
    pub fn start_seek(&mut self, position: SeekFrom) -> (r: Result<(), MediaSourceError>)
        ensures
            match old(self)@.start_seek(position) {
                Ok(buffer) => r is Ok && final(self)@ == buffer,
                Err(e) => r is Err && r->Err_0 == e && *final(self) == *old(self),
            },
    {
        let len = self.audio_data.len();
        let target: i128 = match position {
            SeekFrom::Start(offset) => offset as i128,
            SeekFrom::End(offset) => len as i128 + offset as i128,
            SeekFrom::Current(offset) => self.position as i128 + offset as i128,
        };
        if target < 0 {
            Err(MediaSourceError::InvalidSeek(SeekFault::BeforeStart))
        } else if target > usize::MAX as i128 {
            Err(MediaSourceError::InvalidSeek(SeekFault::BeyondEnd))
        } else {
            self.position = target as usize;
            Ok(())
        }
    }

    /// Cooperative seek, second phase: reports the committed position.
    pub fn poll_complete(&self) -> (position: u64)
        ensures
            position == self@.position,
    {
        self.position as u64
    }

    /// Blocking read. Copies the bytes at the cursor into the front of `buf`,
    /// as many as remain and fit, advances the cursor past them and returns
    /// their number. The rest of `buf` keeps its contents.
    pub fn read(&mut self, buf: &mut [u8]) -> (copied: usize)
        ensures
            copied == old(self)@.read_len(old(buf)@.len()),
            final(self)@ == old(self)@.after_read(old(buf)@.len()),
            final(buf)@ == old(self)@.read_bytes(old(buf)@.len()) + old(buf)@.subrange(
                copied as int,
                old(buf)@.len() as int,
            ),
    {
        let len = self.audio_data.len();
        let available = if self.position <= len {
            len - self.position
        } else {
            0
        };
        let to_read = if buf.len() <= available {
            buf.len()
        } else {
            available
        };
        let mut i: usize = 0;
        while i < to_read
            invariant
                i <= to_read,
                to_read <= buf@.len(),
                len == self.audio_data@.len(),
                to_read == 0 || self.position + to_read <= len,
                *self == *old(self),
                buf@.len() == old(buf)@.len(),
                forall|k: int| 0 <= k < i ==> buf@[k] == self.audio_data@[self.position + k],
                forall|k: int| i <= k < buf@.len() ==> buf@[k] == old(buf)@[k],
            decreases to_read - i,
        {
            buf[i] = self.audio_data[self.position + i];
            i = i + 1;
        }
        proof {
            let asked = old(buf)@.len();
            assert(to_read == old(self)@.read_len(asked));
            assert(buf@ =~= old(self)@.read_bytes(asked) + old(buf)@.subrange(
                to_read as int,
                asked as int,
            ));
        }
        self.position = self.position + to_read;
        to_read
    }

    /// Cooperative read. Appends the bytes at the cursor to the filled region
    /// of `buf`, as many as remain and fit in the room `buf` has left, and
    /// advances the cursor past them. It always completes at once.
    pub fn poll_read(&mut self, buf: &mut ReadBuf<'_>)
        ensures
            final(self)@ == old(self)@.after_read(read_buf_remaining(old(buf))),
            read_buf_filled(final(buf)) == read_buf_filled(old(buf)) + old(self)@.read_bytes(
                read_buf_remaining(old(buf)),
            ),
            read_buf_capacity(final(buf)) == read_buf_capacity(old(buf)),
    {
        let len = self.audio_data.len();
        let available = if self.position <= len {
            len - self.position
        } else {
            0
        };
        let room = read_buf::remaining(buf);
        let to_read = if room <= available {
            room
        } else {
            available
        };
        if to_read > 0 {
            let chunk = vstd::slice::slice_subrange(
                self.audio_data.as_slice(),
                self.position,
                self.position + to_read,
            );
            read_buf::put_slice(buf, chunk);
            self.position = self.position + to_read;
        } else {
            assert(read_buf_filled(buf) + Seq::<u8>::empty() =~= read_buf_filled(buf));
            assert(old(self)@.read_bytes(read_buf_remaining(old(buf))) =~= Seq::<u8>::empty());
        }
    }

    /// Total length of the payload, which is always known.
    pub fn byte_len(&self) -> (len: Option<u64>)
        ensures
            len == Some(self@.len() as u64),
    {
        Some(self.audio_data.len() as u64)
    }

    /// Random access is always offered.
    pub fn is_seekable(&self) -> (seekable: bool)
        ensures
            seekable,
    {
        true
    }

    /// Resuming a broken stream at a byte offset is deliberately not offered:
    /// this always fails and leaves the source unchanged.
    pub fn try_resume(&mut self, offset: u64) -> (r: Result<GoogleTtsMediaSource, MediaSourceError>)
        ensures
            r is Err,
            r->Err_0 == MediaSourceError::Unsupported,
            *final(self) == *old(self),
    {
        Err(MediaSourceError::Unsupported)
    }
}

impl Clone for GoogleTtsMediaSource {
    /// An independent copy: the same bytes and the same cursor.
    fn clone(&self) -> (copy: Self)
        ensures
            copy@ == self@,
    {
        GoogleTtsMediaSource { audio_data: self.audio_data.clone(), position: self.position }
    }
}

/// A blocking seek to an absolute position succeeds exactly when the position
/// is at most the length of the data, the end itself included, and then the
/// cursor is at that position; one byte further it is refused.
pub proof fn lemma_seek_start(buffer: AudioBuffer, p: u64)
    ensures
        p <= buffer.len() ==> buffer.seek(SeekFrom::Start(p)) is Ok && buffer.seek(
            SeekFrom::Start(p),
        )->Ok_0 == buffer.at(p as nat),
        p > buffer.len() ==> buffer.seek(SeekFrom::Start(p)) is Err && buffer.seek(
            SeekFrom::Start(p),
        )->Err_0 == MediaSourceError::InvalidSeek(SeekFault::BeyondEof),
{
}

/// A read that follows a blocking seek to the absolute position `p` hands out
/// the `min(n, len - p)` bytes that start at `p` and leaves the cursor just
/// past them.
pub proof fn lemma_read_after_seek(buffer: AudioBuffer, p: u64, n: nat)
    requires
        p <= buffer.len(),
    ensures
        buffer.seek(SeekFrom::Start(p)) is Ok,
        ({
            let sought = buffer.seek(SeekFrom::Start(p))->Ok_0;
            let returned = sought.read_len(n);
            &&& returned == if n <= buffer.len() - p {
                n as int
            } else {
                buffer.len() - p
            }
            &&& sought.read_bytes(n) == buffer.bytes.subrange(p as int, p + returned)
            &&& sought.read_bytes(n).len() == returned
            &&& sought.after_read(n) == buffer.at((p + returned) as nat)
        }),
{
}

/// Reading zero bytes hands out nothing and leaves the buffer as it was,
/// wherever the cursor is.
pub proof fn lemma_read_nothing(buffer: AudioBuffer)
    ensures
        buffer.read_len(0) == 0,
        buffer.read_bytes(0) == Seq::<u8>::empty(),
        buffer.after_read(0) == buffer,
{
    assert(buffer.read_bytes(0) =~= Seq::<u8>::empty());
}

/// A relative seek never wraps: for every signed offset, from the end or from
/// the cursor, a blocking seek either lands exactly on the sum, which then
/// lies within the data, or is refused because the sum does not.
pub proof fn lemma_relative_seek_is_exact(buffer: AudioBuffer, offset: i64)
    ensures
        match buffer.seek(SeekFrom::End(offset)) {
            Ok(sought) => sought.bytes == buffer.bytes && sought.position == buffer.len() + offset
                && sought.in_bounds(),
            Err(e) => e is InvalidSeek && !(0 <= buffer.len() + offset <= buffer.len()),
        },
        match buffer.seek(SeekFrom::Current(offset)) {
            Ok(sought) => sought.bytes == buffer.bytes && sought.position == buffer.position
                + offset && sought.in_bounds(),
            Err(e) => e is InvalidSeek && !(0 <= buffer.position + offset <= buffer.len()),
        },
{
}

/// The same holds of the cooperative seek, measured against what a position
/// can represent instead of the length of the data.
pub proof fn lemma_relative_start_seek_is_exact(buffer: AudioBuffer, offset: i64)
    ensures
        match buffer.start_seek(SeekFrom::End(offset)) {
            Ok(sought) => sought.bytes == buffer.bytes && sought.position == buffer.len() + offset
                && sought.position <= usize::MAX,
            Err(e) => e is InvalidSeek && !(0 <= buffer.len() + offset <= usize::MAX),
        },
        match buffer.start_seek(SeekFrom::Current(offset)) {
            Ok(sought) => sought.bytes == buffer.bytes && sought.position == buffer.position
                + offset && sought.position <= usize::MAX,
            Err(e) => e is InvalidSeek && !(0 <= buffer.position + offset <= usize::MAX),
        },
{
}

/// The blocking protocol keeps the cursor within the data: every successful
/// blocking seek puts it there, and a read never moves it out.
pub proof fn lemma_blocking_keeps_cursor_in_bounds(buffer: AudioBuffer, pos: SeekFrom, n: nat)
    ensures
        buffer.seek(pos) is Ok ==> buffer.seek(pos)->Ok_0.in_bounds(),
        buffer.in_bounds() ==> buffer.after_read(n).in_bounds(),
{
}

/// The two protocols differ only in strictness: whatever the blocking seek
/// admits, the cooperative seek admits with the same result, and what the
/// cooperative seek admits beyond that puts the cursor past the end of the
/// data, where a read hands out nothing and does not move it.
pub proof fn lemma_start_seek_is_laxer(buffer: AudioBuffer, pos: SeekFrom, n: nat)
    requires
        buffer.len() <= usize::MAX,
    ensures
        buffer.seek(pos) is Ok ==> buffer.start_seek(pos) == buffer.seek(pos),
        buffer.start_seek(pos) is Ok && buffer.seek(pos) is Err ==> {
            let sought = buffer.start_seek(pos)->Ok_0;
            &&& sought.position > buffer.len()
            &&& sought.read_len(n) == 0
            &&& sought.read_bytes(n) == Seq::<u8>::empty()
            &&& sought.after_read(n) == sought
        },
{
}

} // verus!
