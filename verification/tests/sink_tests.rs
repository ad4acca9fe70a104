use scanproto::FrameFormat;
use scanproto::ImageSink;
use scanproto::ScanParameters;

#[test]
fn header_encodes_geometry_and_depth() {
    // 4 RGB pixels of 8 bits need 12 bytes; the device pads to 16.
    let params = ScanParameters {
        format: FrameFormat::Rgb,
        pixels_per_line: 4,
        bytes_per_line: 16,
        lines: 2,
        depth: 8,
    };
    let mut sink = ImageSink::new(&params);
    sink.write_header();
    assert_eq!(sink.header(), &b"P6\n4 2\n255\n".to_vec());
}

#[test]
fn header_max_sample_follows_depth_one() {
    let params = ScanParameters {
        format: FrameFormat::Gray,
        pixels_per_line: 8,
        bytes_per_line: 1,
        lines: 1,
        depth: 1,
    };
    let mut sink = ImageSink::new(&params);
    sink.write_header();
    assert_eq!(sink.header(), &b"P6\n8 1\n1\n".to_vec());
}

#[test]
fn write_samples_strips_row_padding() {
    // Rows of 6 bytes, of which 4 carry samples (4 gray pixels of 8 bits
    // in a 6-byte stride).
    let params = ScanParameters {
        format: FrameFormat::Gray,
        pixels_per_line: 4,
        bytes_per_line: 6,
        lines: 2,
        depth: 8,
    };
    let mut sink = ImageSink::new(&params);
    sink.write_header();
    sink.write_samples(&vec![1, 2, 3, 4, 90, 91, 5, 6, 7, 8, 92, 93]);
    assert_eq!(sink.samples(), &vec![1, 2, 3, 4, 5, 6, 7, 8]);
    assert_eq!(sink.received(), 12);
}

#[test]
fn stripping_respects_chunk_boundaries() {
    // The same two padded rows, delivered in awkward pieces: the padding
    // must still be stripped, wherever the chunks were cut.
    let params = ScanParameters {
        format: FrameFormat::Gray,
        pixels_per_line: 4,
        bytes_per_line: 6,
        lines: 2,
        depth: 8,
    };
    let mut sink = ImageSink::new(&params);
    sink.write_header();
    sink.write_samples(&vec![1]);
    sink.write_samples(&vec![2, 3]);
    sink.write_samples(&vec![4, 90]);
    sink.write_samples(&vec![]);
    sink.write_samples(&vec![91, 5, 6, 7]);
    sink.write_samples(&vec![8, 92, 93]);
    assert_eq!(sink.samples(), &vec![1, 2, 3, 4, 5, 6, 7, 8]);
    assert_eq!(sink.received(), 12);
}

#[test]
fn unpadded_rows_pass_through_whole() {
    let params = ScanParameters {
        format: FrameFormat::Rgb,
        pixels_per_line: 2,
        bytes_per_line: 6,
        lines: 2,
        depth: 8,
    };
    let mut sink = ImageSink::new(&params);
    sink.write_header();
    sink.write_samples(&vec![10, 20, 30, 40, 50, 60, 70, 80, 90, 100, 110, 120]);
    assert_eq!(sink.samples(), &vec![10, 20, 30, 40, 50, 60, 70, 80, 90, 100, 110, 120]);
}

#[test]
fn sixteen_bit_rows_use_two_bytes_per_sample() {
    // 3 gray pixels of 16 bits need 6 bytes; stride 8 leaves 2 padding
    // bytes per row.
    let params = ScanParameters {
        format: FrameFormat::Gray,
        pixels_per_line: 3,
        bytes_per_line: 8,
        lines: 1,
        depth: 16,
    };
    let mut sink = ImageSink::new(&params);
    sink.write_header();
    assert_eq!(sink.header(), &b"P6\n3 1\n65535\n".to_vec());
    sink.write_samples(&vec![1, 2, 3, 4, 5, 6, 99, 98]);
    assert_eq!(sink.samples(), &vec![1, 2, 3, 4, 5, 6]);
}
