use zenavif::gain_map::{gain_map_layout, GainMapError, GainMapLayout};
use zenavif::obu::{sequence_header, without_delimiter};
use zenavif::settings::GainMapConfig;

/// A reduced still-picture sequence header OBU: profile 0, 64x48, 8-bit
/// 4:2:0, full range.
const SEQ_HEADER_64X48: [u8; 11] = [0x0A, 0x09, 0x18, 0x3f, 0xc0, 0x0f, 0xc0, 0x0b, 0xc0, 0x10, 0x80];

fn gain_map(av1: &[u8], w: u32, h: u32, depth: u8) -> GainMapConfig {
    GainMapConfig { av1_data: av1.to_vec(), width: w, height: h, bit_depth: depth, metadata: vec![] }
}

#[test]
fn delimiter_is_stripped_only_when_present() {
    assert_eq!(without_delimiter(&[0x12, 0x00, 0x0A, 0x01]), &[0x0A, 0x01]);
    assert_eq!(without_delimiter(&[0x12, 0x01, 0x0A]), &[0x12, 0x01, 0x0A]);
    assert_eq!(without_delimiter(&[0x12]), &[0x12]);
    assert_eq!(without_delimiter(&[]), &[] as &[u8]);
}

#[test]
fn sequence_header_found_after_other_obus() {
    let mut stream = vec![0x12, 0x00];
    stream.extend_from_slice(&SEQ_HEADER_64X48);
    // A frame OBU after it.
    stream.extend_from_slice(&[0x32, 0x02, 0xAA, 0xBB]);
    assert_eq!(sequence_header(&stream), Ok(&SEQ_HEADER_64X48[..]));
}

#[test]
fn sequence_header_with_multibyte_size() {
    // A padding OBU (type 15) with a two-byte LEB128 size of 130.
    let mut stream = vec![0x7A, 0x82, 0x01];
    stream.extend(std::iter::repeat(0u8).take(130));
    stream.extend_from_slice(&SEQ_HEADER_64X48);
    assert_eq!(sequence_header(&stream), Ok(&SEQ_HEADER_64X48[..]));
}

#[test]
fn sequence_header_errors() {
    assert!(sequence_header(&[]).is_err());
    // OBU without a size field stops the scan.
    assert!(sequence_header(&[0x08, 0x00]).is_err());
    // Size running past the end.
    assert!(sequence_header(&[0x0A, 0x05, 0x00]).is_err());
    // Unterminated LEB128.
    assert!(sequence_header(&[0x0A, 0x80]).is_err());
    // Only a temporal delimiter.
    assert!(sequence_header(&[0x12, 0x00]).is_err());
}

#[test]
fn sequence_header_with_extension_byte() {
    // Extension flag set (0x0E): one extension byte before the size.
    let stream = [0x0E, 0x00, 0x01, 0x55];
    assert_eq!(sequence_header(&stream), Ok(&stream[..]));
}

#[test]
fn gain_map_layout_reports_payload_layout() {
    let gm = gain_map(&SEQ_HEADER_64X48, 64, 48, 8);
    assert_eq!(
        gain_map_layout(&gm),
        Ok(GainMapLayout { subsampling_x: true, subsampling_y: true, monochrome: false })
    );
}

#[test]
fn gain_map_layout_refuses_mismatches() {
    let gm = gain_map(&SEQ_HEADER_64X48, 32, 48, 8);
    assert_eq!(
        gain_map_layout(&gm),
        Err(GainMapError::DimensionMismatch { declared_width: 32, declared_height: 48, payload_width: 64, payload_height: 48 })
    );
    let gm = gain_map(&SEQ_HEADER_64X48, 64, 48, 10);
    assert_eq!(gain_map_layout(&gm), Err(GainMapError::DepthMismatch { declared: 10, payload: 8 }));
    let gm = gain_map(&[0xFF, 0x00], 64, 48, 8);
    assert_eq!(gain_map_layout(&gm), Err(GainMapError::PayloadUnparsable));
}

#[test]
fn gain_map_refusal_messages() {
    assert_eq!(GainMapError::PayloadUnparsable.message(), "gain map AV1 payload failed to parse");
    let dims = GainMapError::DimensionMismatch { declared_width: 1, declared_height: 2, payload_width: 3, payload_height: 4 };
    assert_eq!(dims.message(), "gain map dimensions do not match its AV1 payload");
    let depth = GainMapError::DepthMismatch { declared: 8, payload: 10 };
    assert_eq!(depth.message(), "gain map bit depth does not match its AV1 payload");
}
