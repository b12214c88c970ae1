//! Assembling one contiguous frame out of the planes of a camera buffer.

use vstd::prelude::*;
use vstd::slice::slice_subrange;

verus! {

/// What can be wrong with the camera buffer of a stream.
#[derive(Debug, Clone, Copy, PartialEq, Eq, Structural)]
pub enum CameraError {
    BufferTooLarge,
    BufferTooSmall,
    NoBufferForStream,
}

impl CameraError {
    /// The text that describes the error.
    pub open spec fn text(self) -> Seq<char> {
        match self {
            CameraError::BufferTooLarge => "Buffer is too large"@,
            CameraError::BufferTooSmall => "Buffer is too small"@,
            CameraError::NoBufferForStream => "Could not find buffer for the given stream"@,
        }
    }

    /// Describes the error to a person.
    pub fn message(&self) -> (text: String)
        ensures
            text@ == self.text(),
            *self is BufferTooLarge ==> text@ == "Buffer is too large"@,
            *self is BufferTooSmall ==> text@ == "Buffer is too small"@,
            *self is NoBufferForStream ==> text@ == "Could not find buffer for the given stream"@,
    {
        match self {
            CameraError::BufferTooLarge => "Buffer is too large".to_owned(),
            CameraError::BufferTooSmall => "Buffer is too small".to_owned(),
            CameraError::NoBufferForStream => {
                "Could not find buffer for the given stream".to_owned()
            },
        }
    }
}

/// Why no frame could be read out of a completed request.
#[derive(Debug, Clone, Copy, PartialEq, Eq, Structural)]
pub enum ReadError {
    /// The request holds no buffer of the stream.
    NoBuffer,
    /// The planes hold more bytes than the frame.
    TooLarge,
    /// The planes hold fewer bytes than the frame.
    NotFilled,
}

impl ReadError {
    /// The text that describes the error.
    pub open spec fn text(self) -> Seq<char> {
        match self {
            ReadError::NoBuffer => "No buffer for this stream in this request."@,
            ReadError::TooLarge => "Buffer is to large, skipping this image"@,
            ReadError::NotFilled => "Buffer was not filled, skipping this image"@,
        }
    }

    /// Describes the error to a person.
    pub fn message(&self) -> (text: String)
        ensures
            text@ == self.text(),
            *self is NoBuffer ==> text@ == "No buffer for this stream in this request."@,
            *self is TooLarge ==> text@ == "Buffer is to large, skipping this image"@,
            *self is NotFilled ==> text@ == "Buffer was not filled, skipping this image"@,
    {
        match self {
            ReadError::NoBuffer => "No buffer for this stream in this request.".to_owned(),
            ReadError::TooLarge => "Buffer is to large, skipping this image".to_owned(),
            ReadError::NotFilled => "Buffer was not filled, skipping this image".to_owned(),
        }
    }
}

/// One stream's buffer of a completed request.
pub struct CompletedBuffer<'a> {
    /// The mapped memory of each plane.
    pub planes: Vec<&'a [u8]>,
    /// How many bytes the camera wrote to each plane, from its start.
    pub bytes_used: Vec<u32>,
}

/// The sum of the byte counts.
pub open spec fn total(bytes_used: Seq<u32>) -> nat
    decreases bytes_used.len(),
{
    if bytes_used.len() == 0 {
        0
    } else {
        total(bytes_used.drop_last()) + bytes_used.last() as nat
    }
}

/// The written part of each plane, one after the other.
pub open spec fn joined(planes: Seq<&[u8]>, bytes_used: Seq<u32>) -> Seq<u8>
    decreases bytes_used.len(),
{
    if bytes_used.len() == 0 {
        Seq::empty()
    } else {
        let last = bytes_used.len() - 1;
        joined(planes, bytes_used.drop_last()) + planes[last]@.take(bytes_used[last] as int)
    }
}

impl<'a> CompletedBuffer<'a> {
    /// Whether every plane that fits into a frame of `frame_size` bytes, behind
    /// the planes before it, is mapped and at least as long as its byte count says.
    pub open spec fn readable(self, frame_size: nat) -> bool {
        forall|i: int|
            0 <= i < self.bytes_used@.len() && #[trigger] total(self.bytes_used@.take(i + 1))
                <= frame_size ==> i < self.planes@.len() && self.bytes_used@[i]
                <= self.planes@[i]@.len()
    }

    /// Tells whether `read_camera_buffer` may be called on this buffer.
    pub fn is_readable(&self, frame_size: u32) -> (result: bool)
        ensures
            result == self.readable(frame_size as nat),
    {
        let size: usize = frame_size as usize;
        let mut filled: usize = 0;
        let mut i: usize = 0;
        while i < self.bytes_used.len()
            invariant
                size == frame_size,
                i <= self.bytes_used@.len(),
                filled <= size,
                filled == total(self.bytes_used@.take(i as int)),
                forall|j: int|
                    0 <= j < i ==> j < self.planes@.len() && #[trigger] self.bytes_used@[j]
                        <= self.planes@[j]@.len(),
            decreases self.bytes_used@.len() - i,
        {
            let bytes_used: usize = self.bytes_used[i] as usize;
            proof {
                assert(self.bytes_used@.take(i + 1).drop_last() =~= self.bytes_used@.take(
                    i as int,
                ));
                assert(total(self.bytes_used@.take(i + 1)) == filled + bytes_used);
            }
            if bytes_used > size - filled {
                assert forall|j: int|
                    0 <= j < self.bytes_used@.len() && #[trigger] total(
                        self.bytes_used@.take(j + 1),
                    ) <= frame_size implies j < self.planes@.len() && self.bytes_used@[j]
                    <= self.planes@[j]@.len() by {
                    if j >= i {
                        lemma_total_monotonic(self.bytes_used@, i + 1, j + 1);
                    }
                }
                return true;
            }
            if i >= self.planes.len() || bytes_used > self.planes[i].len() {
                return false;
            }
            filled += bytes_used;
            i += 1;
        }
        true
    }
}

/// A longer list of byte counts has no smaller sum.
proof fn lemma_total_monotonic(bytes_used: Seq<u32>, i: int, j: int)
    requires
        0 <= i <= j <= bytes_used.len(),
    ensures
        total(bytes_used.take(i)) <= total(bytes_used.take(j)),
    decreases j - i,
{
    if i < j {
        lemma_total_monotonic(bytes_used, i, j - 1);
        assert(bytes_used.take(j).drop_last() =~= bytes_used.take(j - 1));
    }
}

/// Copies the written part of each plane into one frame of `frame_size` bytes.
///
/// The frame is refused when the planes hold more or fewer bytes than that, and
/// when the request holds no buffer of the stream.
pub fn read_camera_buffer(frame_size: u32, buffer: Option<CompletedBuffer<'_>>) -> (result: Result<
    Vec<u8>,
    ReadError,
>)
    requires
        buffer matches Some(b) ==> b.readable(frame_size as nat),
    ensures
        buffer is None ==> result == Err::<Vec<u8>, _>(ReadError::NoBuffer),
        buffer matches Some(b) ==> {
            let written = total(b.bytes_used@);
            &&& written > frame_size ==> result == Err::<Vec<u8>, _>(ReadError::TooLarge)
            &&& written < frame_size ==> result == Err::<Vec<u8>, _>(ReadError::NotFilled)
            &&& written == frame_size ==> (result matches Ok(data) && data@.len() == frame_size
                && data@ == joined(b.planes@, b.bytes_used@))
        },
{
    let filled = match buffer {
        Some(filled) => filled,
        None => return Err(ReadError::NoBuffer),
    };
    let size: usize = frame_size as usize;
    let mut data: Vec<u8> = Vec::with_capacity(size);
    let mut i: usize = 0;
    while i < filled.bytes_used.len()
        invariant
            buffer == Some(filled),
            size == frame_size,
            i <= filled.bytes_used@.len(),
            data@.len() <= size,
            data@.len() == total(filled.bytes_used@.take(i as int)),
            data@ == joined(filled.planes@, filled.bytes_used@.take(i as int)),
            filled.readable(size as nat),
        decreases filled.bytes_used@.len() - i,
    {
        let bytes_used: usize = filled.bytes_used[i] as usize;
        proof {
            assert(filled.bytes_used@.take(i + 1).drop_last() =~= filled.bytes_used@.take(
                i as int,
            ));
            assert(total(filled.bytes_used@.take(i + 1)) == data@.len() + bytes_used);
        }
        if bytes_used > size - data.len() {
            proof {
                lemma_total_monotonic(
                    filled.bytes_used@,
                    i + 1,
                    filled.bytes_used@.len() as int,
                );
                assert(filled.bytes_used@.take(filled.bytes_used@.len() as int)
                    =~= filled.bytes_used@);
            }
            return Err(ReadError::TooLarge);
        }
        let ghost before = data@;
        data.extend_from_slice(slice_subrange(filled.planes[i], 0, bytes_used));
        assert(data@ =~= before + filled.planes@[i as int]@.take(bytes_used as int));
        i += 1;
    }
    assert(filled.bytes_used@.take(i as int) =~= filled.bytes_used@);
    if data.len() != size {
        return Err(ReadError::NotFilled);
    }
    Ok(data)
}

/// The prefix of `bytes_used` that is joined has the length of its sum, as long
/// as each plane holds its written bytes.
proof fn lemma_joined_prefix_len(planes: Seq<&[u8]>, bytes_used: Seq<u32>, n: int)
    requires
        0 <= n <= bytes_used.len(),
        forall|i: int|
            0 <= i < n ==> #[trigger] bytes_used[i] <= planes[i]@.len(),
    ensures
        joined(planes, bytes_used.take(n)).len() == total(bytes_used.take(n)),
    decreases n,
{
    if n > 0 {
        lemma_joined_prefix_len(planes, bytes_used, n - 1);
        assert(bytes_used.take(n).drop_last() =~= bytes_used.take(n - 1));
    }
}

/// A buffer that is readable for a frame as large as everything written to it
/// has all its planes mapped and long enough.
proof fn lemma_readable_planes(buffer: CompletedBuffer<'_>)
    requires
        buffer.readable(total(buffer.bytes_used@)),
    ensures
        buffer.bytes_used@.len() <= buffer.planes@.len(),
        forall|i: int|
            0 <= i < buffer.bytes_used@.len() ==> #[trigger] buffer.bytes_used@[i]
                <= buffer.planes@[i]@.len(),
{
    let used = buffer.bytes_used@;
    assert(used.take(used.len() as int) =~= used);
    assert forall|i: int| 0 <= i < used.len() implies i < buffer.planes@.len()
        && #[trigger] used[i] <= buffer.planes@[i]@.len() by {
        lemma_total_monotonic(used, i + 1, used.len() as int);
        assert(total(used.take(i + 1)) <= total(used));
    }
    if used.len() > 0 {
        let last = used.len() - 1;
        assert(used[last] <= buffer.planes@[last]@.len());
    }
}

/// A frame that is read has exactly as many bytes as were written to its planes.
pub proof fn law_frame_is_full(buffer: CompletedBuffer<'_>)
    requires
        buffer.readable(total(buffer.bytes_used@)),
    ensures
        joined(buffer.planes@, buffer.bytes_used@).len() == total(buffer.bytes_used@),
{
    let used = buffer.bytes_used@;
    lemma_readable_planes(buffer);
    lemma_joined_prefix_len(buffer.planes@, used, used.len() as int);
    assert(used.take(used.len() as int) =~= used);
}

/// Byte `k` of plane `i` stands in the frame behind everything written to the
/// planes before it.
pub proof fn law_plane_placement(buffer: CompletedBuffer<'_>, i: int, k: int)
    requires
        buffer.readable(total(buffer.bytes_used@)),
        0 <= i < buffer.bytes_used@.len(),
        0 <= k < buffer.bytes_used@[i],
    ensures
        total(buffer.bytes_used@.take(i)) + k < joined(buffer.planes@, buffer.bytes_used@).len(),
        joined(buffer.planes@, buffer.bytes_used@)[total(buffer.bytes_used@.take(i)) + k]
            == buffer.planes@[i]@[k],
{
    let used = buffer.bytes_used@;
    lemma_readable_planes(buffer);
    lemma_placement_prefix(buffer.planes@, used, used.len() as int, i, k);
    assert(used.take(used.len() as int) =~= used);
}

proof fn lemma_placement_prefix(
    planes: Seq<&[u8]>,
    bytes_used: Seq<u32>,
    n: int,
    i: int,
    k: int,
)
    requires
        0 <= i < n <= bytes_used.len(),
        0 <= k < bytes_used[i],
        forall|j: int|
            0 <= j < n ==> #[trigger] bytes_used[j] <= planes[j]@.len(),
    ensures
        total(bytes_used.take(i)) + k < joined(planes, bytes_used.take(n)).len(),
        joined(planes, bytes_used.take(n))[total(bytes_used.take(i)) + k] == planes[i]@[k],
    decreases n,
{
    assert(bytes_used.take(n).drop_last() =~= bytes_used.take(n - 1));
    lemma_joined_prefix_len(planes, bytes_used, n - 1);
    if i < n - 1 {
        lemma_placement_prefix(planes, bytes_used, n - 1, i, k);
    }
}

/// What lies in a plane behind its written bytes has no part in the frame.
pub proof fn law_unwritten_bytes_ignored(
    one: Seq<&[u8]>,
    other: Seq<&[u8]>,
    bytes_used: Seq<u32>,
)
    requires
        forall|i: int|
            0 <= i < bytes_used.len() ==> #[trigger] one[i]@.take(bytes_used[i] as int)
                == other[i]@.take(bytes_used[i] as int),
    ensures
        joined(one, bytes_used) == joined(other, bytes_used),
    decreases bytes_used.len(),
{
    if bytes_used.len() > 0 {
        assert forall|i: int| 0 <= i < bytes_used.drop_last().len() implies #[trigger] one[i]@.take(
            bytes_used.drop_last()[i] as int,
        ) == other[i]@.take(bytes_used.drop_last()[i] as int) by {
            assert(one[i]@.take(bytes_used[i] as int) == other[i]@.take(bytes_used[i] as int));
        }
        law_unwritten_bytes_ignored(one, other, bytes_used.drop_last());
        let last = bytes_used.len() - 1;
        assert(one[last]@.take(bytes_used[last] as int) == other[last]@.take(
            bytes_used[last] as int,
        ));
    }
}

/// A plane to which nothing was written has no part in the frame, wherever it
/// stands among the planes.
pub proof fn law_empty_plane_ignored(
    planes: Seq<&[u8]>,
    bytes_used: Seq<u32>,
    i: int,
    plane: &[u8],
)
    requires
        0 <= i <= bytes_used.len() <= planes.len(),
    ensures
        total(bytes_used.insert(i, 0)) == total(bytes_used),
        joined(planes.insert(i, plane), bytes_used.insert(i, 0)) == joined(planes, bytes_used),
    decreases bytes_used.len() - i,
{
    let wider = bytes_used.insert(i, 0);
    let with_plane = planes.insert(i, plane);
    if i == bytes_used.len() {
        assert(wider.drop_last() =~= bytes_used);
        assert(with_plane[i]@.take(0) =~= Seq::<u8>::empty());
        assert forall|j: int| 0 <= j < bytes_used.len() implies #[trigger] with_plane[j]@.take(
            bytes_used[j] as int,
        ) == planes[j]@.take(bytes_used[j] as int) by {
            assert(with_plane[j] == planes[j]);
        }
        law_unwritten_bytes_ignored(with_plane, planes, bytes_used);
        assert(joined(planes, bytes_used) + Seq::<u8>::empty() =~= joined(planes, bytes_used));
    } else {
        let last = bytes_used.len() - 1;
        assert(wider.drop_last() =~= bytes_used.drop_last().insert(i, 0));
        assert(wider.last() == bytes_used.last());
        assert(with_plane[last + 1] == planes[last]);
        law_empty_plane_ignored(planes, bytes_used.drop_last(), i, plane);
    }
}

/// What was written to the planes adds up, one plane after the other.
pub proof fn law_written_bytes_add_up(first: Seq<u32>, later: Seq<u32>, bytes: u32)
    ensures
        total(Seq::empty()) == 0,
        total(seq![bytes]) == bytes,
        total(first + later) == total(first) + total(later),
    decreases later.len(),
{
    assert(seq![bytes].drop_last() =~= Seq::<u32>::empty());
    assert(total(seq![bytes]) == total(Seq::<u32>::empty()) + bytes);
    if later.len() == 0 {
        assert(first + later =~= first);
    } else {
        law_written_bytes_add_up(first, later.drop_last(), bytes);
        assert((first + later).drop_last() =~= first + later.drop_last());
    }
}

/// Whether the first `n` planes are mapped and hold what was written to them.
pub open spec fn planes_hold(buffer: CompletedBuffer<'_>, n: int) -> bool {
    forall|i: int|
        0 <= i < n ==> i < buffer.planes@.len() && #[trigger] buffer.bytes_used@[i]
            <= buffer.planes@[i]@.len()
}

/// A buffer can be read when its first `n` planes are mapped and hold what was written
/// to them, if those are all its planes or the next one does not fit into the frame
/// any more. A plane that is missing or too short makes it unreadable, if all up to
/// that plane fits.
pub proof fn law_planes_needed_up_to_frame(
    buffer: CompletedBuffer<'_>,
    frame_size: nat,
    n: int,
)
    requires
        0 <= n <= buffer.bytes_used@.len(),
    ensures
        planes_hold(buffer, n) && (n == buffer.bytes_used@.len() || total(
            buffer.bytes_used@.take(n + 1),
        ) > frame_size) ==> buffer.readable(frame_size),
        n < buffer.bytes_used@.len() && total(buffer.bytes_used@.take(n + 1)) <= frame_size && (n
            >= buffer.planes@.len() || buffer.bytes_used@[n] > buffer.planes@[n]@.len())
            ==> !buffer.readable(frame_size),
{
    let used = buffer.bytes_used@;
    if planes_hold(buffer, n) && (n == used.len() || total(used.take(n + 1)) > frame_size) {
        assert forall|i: int|
            0 <= i < used.len() && #[trigger] total(used.take(i + 1)) <= frame_size implies i
            < buffer.planes@.len() && used[i] <= buffer.planes@[i]@.len() by {
            if i >= n {
                lemma_total_monotonic(used, n + 1, i + 1);
            } else {
                assert(used[i] <= buffer.planes@[i]@.len());
            }
        }
    }
}

/// A buffer that can be read into a frame can be read into any smaller one.
pub proof fn law_readable_for_smaller_frame(
    buffer: CompletedBuffer<'_>,
    frame_size: nat,
    smaller: nat,
)
    requires
        buffer.readable(frame_size),
        smaller <= frame_size,
    ensures
        buffer.readable(smaller),
{
}

/// Two errors that read the same are the same, among the errors of a camera buffer and
/// among the reasons why no frame could be read.
pub proof fn law_texts_tell_errors_apart(
    one: CameraError,
    other: CameraError,
    reason: ReadError,
    other_reason: ReadError,
)
    ensures
        one.text() == other.text() ==> one == other,
        reason.text() == other_reason.text() ==> reason == other_reason,
{
    reveal_strlit("Buffer is too large");
    reveal_strlit("Buffer is too small");
    reveal_strlit("Could not find buffer for the given stream");
    reveal_strlit("No buffer for this stream in this request.");
    reveal_strlit("Buffer is to large, skipping this image");
    reveal_strlit("Buffer was not filled, skipping this image");
    assert("Buffer is too large"@[14] == 'l' && "Buffer is too small"@[14] == 's');
    assert("Could not find buffer for the given stream"@.len() == 42);
    assert("No buffer for this stream in this request."@[0] == 'N');
    assert("Buffer was not filled, skipping this image"@[0] == 'B');
    assert("Buffer is to large, skipping this image"@.len() == 39);
}

} // verus!
