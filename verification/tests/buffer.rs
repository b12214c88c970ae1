use camstream::buffer::{read_camera_buffer, CompletedBuffer};
use camstream::{CameraError, ReadError};

fn buffer<'a>(planes: &[&'a [u8]], bytes_used: &[u32]) -> CompletedBuffer<'a> {
    CompletedBuffer {
        planes: planes.to_vec(),
        bytes_used: bytes_used.to_vec(),
    }
}

#[test]
fn planes_are_joined_up_to_their_written_bytes() {
    let filled = buffer(&[&[1, 2, 3, 4], &[5, 6, 7]], &[3, 2]);
    assert!(filled.is_readable(5));
    assert_eq!(read_camera_buffer(5, Some(filled)), Ok(vec![1, 2, 3, 5, 6]));
}

#[test]
fn frame_has_the_size_that_was_asked_for() {
    let luma = vec![16u8; 12];
    let chroma = vec![128u8; 6];
    let data = read_camera_buffer(18, Some(buffer(&[&luma, &chroma], &[12, 6]))).unwrap();
    assert_eq!(data.len(), 18);
    assert_eq!(data[11], 16);
    assert_eq!(data[12], 128);
}

#[test]
fn byte_of_a_plane_stands_behind_the_planes_before_it() {
    let data = read_camera_buffer(6, Some(buffer(&[&[1, 1], &[2, 2, 2], &[9, 8]], &[2, 3, 1])));
    assert_eq!(data.unwrap()[2 + 3], 9);
}

#[test]
fn unwritten_bytes_have_no_part_in_the_frame() {
    let one = read_camera_buffer(3, Some(buffer(&[&[1, 2, 77], &[3, 78]], &[2, 1])));
    let other = read_camera_buffer(3, Some(buffer(&[&[1, 2, 0, 0], &[3]], &[2, 1])));
    assert_eq!(one, other);
}

#[test]
fn too_many_bytes_are_refused() {
    let filled = buffer(&[&[1, 2, 3], &[4, 5]], &[3, 2]);
    assert!(filled.is_readable(4));
    assert_eq!(read_camera_buffer(4, Some(filled)), Err(ReadError::TooLarge));
}

#[test]
fn too_few_bytes_are_refused() {
    let filled = buffer(&[&[1, 2, 3], &[4, 5]], &[3, 1]);
    assert_eq!(read_camera_buffer(5, Some(filled)), Err(ReadError::NotFilled));
}

#[test]
fn missing_buffer_is_an_error() {
    assert_eq!(read_camera_buffer(5, None), Err(ReadError::NoBuffer));
}

#[test]
fn frame_without_bytes_needs_no_planes() {
    assert_eq!(read_camera_buffer(0, Some(buffer(&[], &[]))), Ok(vec![]));
    assert_eq!(
        read_camera_buffer(1, Some(buffer(&[], &[]))),
        Err(ReadError::NotFilled)
    );
}

#[test]
fn planes_behind_a_full_frame_are_not_looked_at() {
    // The second plane is too large for the frame, so it need not be mapped.
    let filled = buffer(&[&[1, 2]], &[2, 4_000_000_000]);
    assert!(filled.is_readable(2));
    assert_eq!(read_camera_buffer(2, Some(filled)), Err(ReadError::TooLarge));
}

#[test]
fn sums_beyond_32_bits_are_refused() {
    let filled = buffer(&[&[]], &[u32::MAX, u32::MAX]);
    assert!(!filled.is_readable(u32::MAX));
    assert!(filled.is_readable(7));
    assert_eq!(read_camera_buffer(7, Some(filled)), Err(ReadError::TooLarge));
}

#[test]
fn short_or_missing_planes_are_not_readable() {
    assert!(!buffer(&[&[1, 2]], &[3]).is_readable(3));
    assert!(!buffer(&[&[1, 2]], &[2, 1]).is_readable(3));
    assert!(buffer(&[&[1, 2]], &[3]).is_readable(2));
    assert!(buffer(&[&[1, 2], &[3]], &[2, 1]).is_readable(3));
}

#[test]
fn errors_describe_themselves() {
    assert_eq!(CameraError::BufferTooLarge.message(), "Buffer is too large");
    assert_eq!(CameraError::BufferTooSmall.message(), "Buffer is too small");
    assert_eq!(
        CameraError::NoBufferForStream.message(),
        "Could not find buffer for the given stream"
    );
}

#[test]
fn failed_reads_describe_themselves() {
    let message = |frame_size: u32, buffer: Option<CompletedBuffer<'_>>| {
        read_camera_buffer(frame_size, buffer).unwrap_err().message()
    };
    assert_eq!(
        message(4, Some(buffer(&[&[1, 2, 3], &[4, 5]], &[3, 2]))),
        "Buffer is to large, skipping this image"
    );
    assert_eq!(
        message(6, Some(buffer(&[&[1, 2, 3], &[4, 5, 6]], &[3, 2]))),
        "Buffer was not filled, skipping this image"
    );
    assert_eq!(message(6, None), "No buffer for this stream in this request.");
}

#[test]
fn empty_plane_has_no_part_in_the_frame() {
    for planes in [
        buffer(&[&[1, 2], &[3]], &[2, 1]),
        buffer(&[&[9], &[1, 2], &[3]], &[0, 2, 1]),
        buffer(&[&[1, 2], &[9], &[3]], &[2, 0, 1]),
        buffer(&[&[1, 2], &[3], &[9]], &[2, 1, 0]),
    ] {
        assert_eq!(read_camera_buffer(3, Some(planes)), Ok(vec![1, 2, 3]));
    }
}
