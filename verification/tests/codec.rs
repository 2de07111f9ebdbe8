use rusty_vision::codec::decoders::Decoder;
use rusty_vision::codec::encoders::Encoder;
use rusty_vision::codec::png::{
    assemble, be_bytes, be_value, create_chunk, decode, encode, paeth, read_chunks, read_header,
    scanlines, unfilter, unfilter_byte, unpack, Chunks, Header,
};
use rusty_vision::codec::{jpeg, Codec, ImageCodec, VideoCodec};
use rusty_vision::color::ColorSpace;
use rusty_vision::error::Error;
use rusty_vision::geometry::Shape;
use rusty_vision::image::Image;
use std::io::Read;

const SIGNATURE: [u8; 8] = [0x89, b'P', b'N', b'G', b'\r', b'\n', 0x1a, b'\n'];

fn header_bytes(width: u32, height: u32, bit_depth: u8, color_type: u8, interlace: u8) -> Vec<u8> {
    let mut bytes = Vec::new();
    bytes.extend_from_slice(&width.to_be_bytes());
    bytes.extend_from_slice(&height.to_be_bytes());
    bytes.extend_from_slice(&[bit_depth, color_type, 0, 0, interlace]);
    bytes
}

/// A zlib stream that holds `data` in one stored block.
fn stored(data: &[u8]) -> Vec<u8> {
    let (mut a, mut b) = (1u32, 0u32);
    for &byte in data {
        a = (a + byte as u32) % 65521;
        b = (b + a) % 65521;
    }
    let length = data.len() as u16;
    let mut stream = vec![0x78, 0x01, 0x01];
    stream.extend_from_slice(&length.to_le_bytes());
    stream.extend_from_slice(&(!length).to_le_bytes());
    stream.extend_from_slice(data);
    stream.extend_from_slice(&((b << 16) | a).to_be_bytes());
    stream
}

fn png(chunks: &[(&[u8; 4], Vec<u8>)]) -> Vec<u8> {
    let mut stream = SIGNATURE.to_vec();
    for (kind, data) in chunks {
        stream.extend_from_slice(&create_chunk(&kind[..], data));
    }
    stream
}

fn sample(width: usize, height: usize) -> Image {
    let data: Vec<u8> = (0..width * height * 3).map(|i| (i * 31 % 256) as u8).collect();
    Image::from_data(data, Shape::new(width, height, Some(3)), ColorSpace::RGB).unwrap()
}

#[test]
fn numbers_are_written_most_significant_byte_first() {
    assert_eq!(be_bytes(0x0102_0304), [1, 2, 3, 4]);
    assert_eq!(be_bytes(0), [0, 0, 0, 0]);
    assert_eq!(be_bytes(u32::MAX), [255, 255, 255, 255]);
    assert_eq!(be_bytes(1920), [0, 0, 7, 128]);
    assert_eq!(be_value(&[9, 1, 2, 3, 4], 1), 0x0102_0304);
    for value in [0u32, 1, 255, 256, 65_535, 0xdead_beef, u32::MAX] {
        assert_eq!(be_value(&be_bytes(value), 0), value);
        assert_eq!(be_bytes(value), value.to_be_bytes());
    }
}

#[test]
fn end_chunk_has_the_checksum_every_png_ends_with() {
    assert_eq!(
        create_chunk(b"IEND", &[]),
        vec![0, 0, 0, 0, b'I', b'E', b'N', b'D', 0xae, 0x42, 0x60, 0x82]
    );
}

#[test]
fn chunk_is_length_type_data_and_checksum() {
    let chunk = create_chunk(b"IDAT", &[1, 2, 3]);
    assert_eq!(&chunk[..4], &[0, 0, 0, 3]);
    assert_eq!(&chunk[4..8], b"IDAT");
    assert_eq!(&chunk[8..11], &[1, 2, 3]);
    assert_eq!(&chunk[11..], &crc32fast::hash(b"IDAT\x01\x02\x03").to_be_bytes());
    assert_eq!(chunk.len(), 15);
}

#[test]
fn scanlines_put_a_zero_before_every_row() {
    let image =
        Image::from_data((1..=12).collect(), Shape::new(2, 2, Some(3)), ColorSpace::RGB).unwrap();
    assert_eq!(scanlines(&image), vec![0, 1, 2, 3, 4, 5, 6, 0, 7, 8, 9, 10, 11, 12]);
    let empty = Image::new(Shape::new(3, 0, Some(3)), ColorSpace::RGB);
    assert_eq!(scanlines(&empty), Vec::<u8>::new());
}

#[test]
fn assembled_stream_is_signature_and_three_chunks() {
    let stream = assemble(3, 2, &[9, 8, 7]).unwrap();
    let mut expected = SIGNATURE.to_vec();
    expected.extend_from_slice(&create_chunk(b"IHDR", &[0, 0, 0, 3, 0, 0, 0, 2, 8, 2, 0, 0, 0]));
    expected.extend_from_slice(&create_chunk(b"IDAT", &[9, 8, 7]));
    expected.extend_from_slice(&create_chunk(b"IEND", &[]));
    assert_eq!(stream, expected);
    assert_eq!(stream.len(), 8 + 25 + 15 + 12);
}

#[test]
fn encoded_stream_holds_the_compressed_scanlines() {
    let image = sample(5, 4);
    let stream = encode(&image).unwrap();
    assert_eq!(&stream[..8], &SIGNATURE);
    assert_eq!(&stream[8..33], &create_chunk(b"IHDR", &header_bytes(5, 4, 8, 2, 0))[..]);
    let length = be_value(&stream, 33) as usize;
    assert_eq!(&stream[37..41], b"IDAT");
    let compressed = &stream[41..41 + length];
    assert_eq!(&stream[33..], &{
        let mut rest = create_chunk(b"IDAT", compressed);
        rest.extend_from_slice(&create_chunk(b"IEND", &[]));
        rest
    }[..]);
    let mut raw = Vec::new();
    flate2::read::ZlibDecoder::new(compressed).read_to_end(&mut raw).unwrap();
    assert_eq!(raw, scanlines(&image));
    assert_ne!(compressed, &scanlines(&image)[..]);
}

#[test]
fn blank_pixel_is_written_with_signature_and_header_chunk() {
    let image = Image::new(Shape::new(1, 1, Some(3)), ColorSpace::RGB);
    let stream = encode(&image).unwrap();
    assert_eq!(
        &stream[..33],
        &[
            0x89, 0x50, 0x4e, 0x47, 0x0d, 0x0a, 0x1a, 0x0a, 0, 0, 0, 13, 0x49, 0x48, 0x44, 0x52,
            0, 0, 0, 1, 0, 0, 0, 1, 8, 2, 0, 0, 0, 0x90, 0x77, 0x53, 0xde,
        ]
    );
}

#[test]
fn every_stream_ends_with_the_end_chunk() {
    for (width, height) in [(1, 1), (5, 4), (0, 0), (258, 3)] {
        let stream = encode(&sample(width, height)).unwrap();
        assert_eq!(
            &stream[stream.len() - 12..],
            &[0, 0, 0, 0, 0x49, 0x45, 0x4e, 0x44, 0xae, 0x42, 0x60, 0x82]
        );
        // Nothing stands between the header chunk, the data chunk and the end chunk.
        let length = be_value(&stream, 33) as usize;
        assert_eq!(stream.len(), 8 + 25 + 12 + length + 12);
    }
}

#[test]
fn header_holds_width_and_height_in_four_bytes_each() {
    let image = Image::new(Shape::new(258, 3, Some(3)), ColorSpace::RGB);
    let stream = encode(&image).unwrap();
    assert_eq!(&stream[16..29], &[0, 0, 1, 2, 0, 0, 0, 3, 8, 2, 0, 0, 0]);
}

#[test]
fn encodable_images_are_encoded() {
    for (width, height) in [(1, 1), (0, 7), (7, 0), (300, 2), (2, 300), (64, 64)] {
        for colorspace in [ColorSpace::RGB, ColorSpace::BGR, ColorSpace::YUV420P] {
            let image = Image::new(Shape::new(width, height, Some(3)), colorspace);
            assert!(encode(&image).is_ok(), "{width} x {height}");
        }
    }
}

#[test]
fn encoding_and_decoding_gives_the_image_back() {
    for (width, height) in [(1, 1), (5, 4), (64, 48), (3, 0), (0, 3), (1, 300)] {
        let image = sample(width, height);
        let decoded = decode(&encode(&image).unwrap()).unwrap();
        assert_eq!(decoded.width(), width);
        assert_eq!(decoded.height(), height);
        assert_eq!(decoded.shape(), image.shape());
        assert_eq!(decoded.colorspace(), ColorSpace::RGB);
        assert_eq!(decoded.slice(0, decoded.size()), image.slice(0, image.size()));
    }
}

#[test]
fn other_three_channel_images_are_written_as_truecolour() {
    let data: Vec<u8> = (0..24).collect();
    let image = Image::from_data(data, Shape::new(4, 2, Some(3)), ColorSpace::BGR).unwrap();
    let decoded = decode(&encode(&image).unwrap()).unwrap();
    assert_eq!(decoded.colorspace(), ColorSpace::RGB);
    assert_eq!(decoded.slice(0, 24), image.slice(0, 24));
}

#[test]
fn images_without_three_channels_are_not_encoded() {
    let rgba = Image::new(Shape::new(2, 2, Some(4)), ColorSpace::RGBA);
    assert!(matches!(encode(&rgba), Err(Error::ImageEncodeError(_))));
    let gray = Image::new(Shape::new(2, 2, Some(1)), ColorSpace::Gray);
    assert!(matches!(encode(&gray), Err(Error::ImageEncodeError(_))));
}

#[test]
fn decoding_reads_a_stream_made_by_hand() {
    let raw = [0, 1, 2, 3, 4, 5, 6, 0, 7, 8, 9, 10, 11, 12];
    let stream = png(&[
        (b"IHDR", header_bytes(2, 2, 8, 2, 0)),
        (b"IDAT", stored(&raw)),
        (b"IEND", vec![]),
    ]);
    let image = decode(&stream).unwrap();
    assert_eq!(image.shape(), Shape::new(2, 2, Some(3)));
    assert_eq!(image.colorspace(), ColorSpace::RGB);
    assert_eq!(image.slice(0, 12), &[1, 2, 3, 4, 5, 6, 7, 8, 9, 10, 11, 12]);
}

#[test]
fn data_chunks_are_joined_and_ancillary_chunks_skipped() {
    let compressed = stored(&[0, 1, 2, 3, 0, 4, 5, 6]);
    let (first, second) = compressed.split_at(5);
    let stream = png(&[
        (b"IHDR", header_bytes(1, 2, 8, 2, 0)),
        (b"tEXt", b"Comment\0none".to_vec()),
        (b"IDAT", first.to_vec()),
        (b"pHYs", vec![0; 9]),
        (b"IDAT", second.to_vec()),
        (b"IEND", vec![]),
        (b"IDAT", vec![1, 2, 3]),
    ]);
    let image = decode(&stream).unwrap();
    assert_eq!(image.shape(), Shape::new(1, 2, Some(3)));
    assert_eq!(image.slice(0, 6), &[1, 2, 3, 4, 5, 6]);
}

#[test]
fn palette_indices_are_expanded_to_colours() {
    let palette = vec![10, 11, 12, 20, 21, 22, 30, 31, 32];
    let stream = png(&[
        (b"IHDR", header_bytes(2, 2, 8, 3, 0)),
        (b"PLTE", palette),
        (b"IDAT", stored(&[0, 2, 0, 0, 1, 1])),
        (b"IEND", vec![]),
    ]);
    let image = decode(&stream).unwrap();
    assert_eq!(image.shape(), Shape::new(2, 2, Some(3)));
    assert_eq!(image.colorspace(), ColorSpace::RGB);
    assert_eq!(image.slice(0, 12), &[30, 31, 32, 10, 11, 12, 20, 21, 22, 20, 21, 22]);
}

#[test]
fn index_without_palette_entry_is_refused() {
    let stream = png(&[
        (b"IHDR", header_bytes(1, 1, 8, 3, 0)),
        (b"PLTE", vec![10, 11, 12]),
        (b"IDAT", stored(&[0, 1])),
        (b"IEND", vec![]),
    ]);
    assert!(matches!(decode(&stream), Err(Error::ImageDecodeError(_))));
    let no_palette = png(&[
        (b"IHDR", header_bytes(1, 1, 8, 3, 0)),
        (b"IDAT", stored(&[0, 0])),
        (b"IEND", vec![]),
    ]);
    assert!(matches!(decode(&no_palette), Err(Error::ImageDecodeError(_))));
}

#[test]
fn bad_signature_is_refused() {
    let mut stream = encode(&sample(2, 2)).unwrap();
    stream[1] = b'Q';
    assert!(matches!(decode(&stream), Err(Error::ImageDecodeError(_))));
    assert!(matches!(decode(&SIGNATURE[..7]), Err(Error::ImageDecodeError(_))));
    assert!(matches!(decode(&[]), Err(Error::ImageDecodeError(_))));
}

#[test]
fn truncated_stream_is_refused() {
    let stream = encode(&sample(2, 2)).unwrap();
    for length in [8, 12, 20, 33, 40, stream.len() - 12, stream.len() - 1] {
        assert!(
            matches!(decode(&stream[..length]), Err(Error::ImageDecodeError(_))),
            "a stream cut to {length} bytes"
        );
    }
}

#[test]
fn unknown_critical_chunk_is_refused() {
    let stream = png(&[
        (b"IHDR", header_bytes(1, 1, 8, 2, 0)),
        (b"ABCD", vec![1]),
        (b"IDAT", stored(&[0, 1, 2, 3])),
        (b"IEND", vec![]),
    ]);
    assert!(matches!(decode(&stream), Err(Error::ImageDecodeError(_))));
}

#[test]
fn missing_or_short_header_is_refused() {
    let headless = png(&[(b"IDAT", stored(&[0, 1, 2, 3])), (b"IEND", vec![])]);
    assert!(matches!(decode(&headless), Err(Error::ImageDecodeError(_))));
    let short = png(&[
        (b"IHDR", vec![0, 0, 0, 1, 0, 0, 0, 1, 8, 2, 0, 0]),
        (b"IDAT", stored(&[0, 1, 2, 3])),
        (b"IEND", vec![]),
    ]);
    assert!(matches!(decode(&short), Err(Error::ImageDecodeError(_))));
}

#[test]
fn unsupported_formats_are_refused() {
    for (bit_depth, color_type, interlace) in
        [(16, 2, 0), (8, 0, 0), (8, 4, 0), (8, 6, 0), (8, 2, 1), (4, 3, 0)]
    {
        let stream = png(&[
            (b"IHDR", header_bytes(1, 1, bit_depth, color_type, interlace)),
            (b"IDAT", stored(&[0, 1, 2, 3, 4, 5, 6, 7])),
            (b"IEND", vec![]),
        ]);
        assert!(
            matches!(decode(&stream), Err(Error::ImageDecodeError(_))),
            "depth {bit_depth}, colour type {color_type}, interlace {interlace}"
        );
    }
}

#[test]
fn sub_filter_adds_the_pixel_to_the_left() {
    let stream = png(&[
        (b"IHDR", header_bytes(3, 1, 8, 2, 0)),
        (b"IDAT", stored(&[1, 10, 20, 30, 1, 2, 3, 250, 240, 230])),
        (b"IEND", vec![]),
    ]);
    let image = decode(&stream).unwrap();
    assert_eq!(image.slice(0, 9), &[10, 20, 30, 11, 22, 33, 5, 6, 7]);
}

#[test]
fn up_filter_adds_the_pixel_above() {
    let stream = png(&[
        (b"IHDR", header_bytes(1, 3, 8, 2, 0)),
        (b"IDAT", stored(&[2, 10, 20, 30, 2, 1, 2, 3, 2, 250, 240, 230])),
        (b"IEND", vec![]),
    ]);
    let image = decode(&stream).unwrap();
    assert_eq!(image.slice(0, 9), &[10, 20, 30, 11, 22, 33, 5, 6, 7]);
}

#[test]
fn average_filter_adds_the_rounded_down_mean_of_left_and_above() {
    // Row 0: 10 21 | row 1 stored 1 1: first byte has only the byte above,
    // 10 / 2 = 5, so 6; second byte (6 + 21) / 2 = 13, so 14.
    let chunks = Chunks {
        header: Some(Header {
            width: 2,
            height: 2,
            bit_depth: 8,
            color_type: 3,
            compression: 0,
            filter: 0,
            interlace: 0,
        }),
        palette: (0..=255u8).flat_map(|v| [v, v, v]).collect(),
        data: vec![],
    };
    let image = unpack(&chunks, &[0, 10, 21, 3, 1, 1]).unwrap();
    assert_eq!(image.slice(0, 12), &[10, 10, 10, 21, 21, 21, 6, 6, 6, 14, 14, 14]);
}

#[test]
fn paeth_picks_the_neighbour_nearest_to_the_estimate() {
    assert_eq!(paeth(10, 20, 15), 15);
    assert_eq!(paeth(10, 20, 10), 20);
    assert_eq!(paeth(10, 20, 20), 10);
    assert_eq!(paeth(0, 0, 0), 0);
    assert_eq!(paeth(7, 7, 200), 7);
    assert_eq!(paeth(100, 50, 75), 75);
    assert_eq!(paeth(255, 0, 128), 128);
    assert_eq!(paeth(5, 5, 5), 5);
    assert_eq!(paeth(10, 30, 20), 20);
    assert_eq!(paeth(20, 10, 0), 20);
    assert_eq!(paeth(9, 9, 3), 9);
}

#[test]
fn filters_are_taken_off_byte_by_byte() {
    assert_eq!(unfilter_byte(0, 200, 1, 2, 3), 200);
    assert_eq!(unfilter_byte(1, 200, 100, 2, 3), 44);
    assert_eq!(unfilter_byte(2, 200, 1, 55, 3), 255);
    assert_eq!(unfilter_byte(3, 1, 255, 255, 3), 0);
    assert_eq!(unfilter_byte(3, 1, 4, 7, 3), 6);
    assert_eq!(unfilter_byte(4, 1, 10, 20, 15), 16);
}

#[test]
fn every_filter_is_undone() {
    let (width, height) = (7usize, 6usize);
    let image = sample(width, height);
    let pixels = image.slice(0, image.size()).to_vec();
    let stride = width * 3;
    let at = |row: isize, i: isize| -> i32 {
        if row < 0 || i < 0 {
            0
        } else {
            pixels[row as usize * stride + i as usize] as i32
        }
    };
    for pattern in [[0u8; 6], [1; 6], [2; 6], [3; 6], [4; 6], [4, 3, 2, 1, 0, 4]] {
        let mut raw = Vec::new();
        for (y, &filter) in pattern.iter().enumerate() {
            raw.push(filter);
            for i in 0..stride {
                let (row, i) = (y as isize, i as isize);
                let (a, b, c) = (at(row, i - 3), at(row - 1, i), at(row - 1, i - 3));
                let predicted = match filter {
                    0 => 0,
                    1 => a,
                    2 => b,
                    3 => (a + b) / 2,
                    _ => paeth(a as u8, b as u8, c as u8) as i32,
                };
                raw.push((at(row, i) - predicted).rem_euclid(256) as u8);
            }
        }
        assert_eq!(unfilter(&raw, stride, 3, height).unwrap(), pixels);
        let stream = png(&[
            (b"IHDR", header_bytes(width as u32, height as u32, 8, 2, 0)),
            (b"IDAT", stored(&raw)),
            (b"IEND", vec![]),
        ]);
        let decoded = decode(&stream).unwrap();
        assert_eq!(decoded.slice(0, decoded.size()), &pixels[..], "filters {pattern:?}");
    }
}

#[test]
fn a_stream_compressed_elsewhere_is_read() {
    // Rows with the sub and up filters, compressed by the compressor itself.
    let raw = [1u8, 10, 20, 30, 1, 1, 1, 2, 5, 5, 5, 5, 5, 5];
    let mut encoder =
        flate2::write::ZlibEncoder::new(Vec::new(), flate2::Compression::best());
    std::io::Write::write_all(&mut encoder, &raw).unwrap();
    let stream = png(&[
        (b"IHDR", header_bytes(2, 2, 8, 2, 0)),
        (b"IDAT", encoder.finish().unwrap()),
        (b"IEND", vec![]),
    ]);
    let image = decode(&stream).unwrap();
    assert_eq!(image.slice(0, 12), &[10, 20, 30, 11, 21, 31, 15, 25, 35, 16, 26, 36]);
}

#[test]
fn undefined_filters_are_refused() {
    for filter in [5u8, 6, 100, 255] {
        let stream = png(&[
            (b"IHDR", header_bytes(1, 2, 8, 2, 0)),
            (b"IDAT", stored(&[0, 1, 2, 3, filter, 4, 5, 6])),
            (b"IEND", vec![]),
        ]);
        assert!(matches!(decode(&stream), Err(Error::ImageDecodeError(_))));
        assert!(matches!(
            unfilter(&[0, 1, 2, 3, filter, 4, 5, 6], 3, 3, 2),
            Err(Error::ImageDecodeError(_))
        ));
    }
}

#[test]
fn corrupt_or_short_data_is_refused() {
    let corrupt = png(&[
        (b"IHDR", header_bytes(1, 1, 8, 2, 0)),
        (b"IDAT", vec![1, 2, 3, 4, 5, 6, 7]),
        (b"IEND", vec![]),
    ]);
    assert!(matches!(decode(&corrupt), Err(Error::ImageDecodeError(_))));
    let short = png(&[
        (b"IHDR", header_bytes(2, 2, 8, 2, 0)),
        (b"IDAT", stored(&[0, 1, 2, 3, 4, 5, 6, 0, 7, 8, 9])),
        (b"IEND", vec![]),
    ]);
    assert!(matches!(decode(&short), Err(Error::ImageDecodeError(_))));
    let empty = png(&[(b"IHDR", header_bytes(1, 1, 8, 2, 0)), (b"IEND", vec![])]);
    assert!(matches!(decode(&empty), Err(Error::ImageDecodeError(_))));
}

#[test]
fn chunks_are_collected_in_order() {
    let stream = png(&[
        (b"IHDR", header_bytes(7, 9, 8, 3, 0)),
        (b"PLTE", vec![1, 2, 3]),
        (b"IDAT", vec![4, 5]),
        (b"IDAT", vec![6]),
        (b"IEND", vec![]),
    ]);
    let chunks = read_chunks(&stream, 8).unwrap();
    assert_eq!(
        chunks.header,
        Some(Header {
            width: 7,
            height: 9,
            bit_depth: 8,
            color_type: 3,
            compression: 0,
            filter: 0,
            interlace: 0
        })
    );
    assert_eq!(chunks.palette, vec![1, 2, 3]);
    assert_eq!(chunks.data, vec![4, 5, 6]);
    assert_eq!(read_header(&header_bytes(7, 9, 8, 3, 0)), chunks.header.unwrap());
}

#[test]
fn unpacking_takes_the_filter_bytes_out() {
    let chunks = Chunks {
        header: Some(Header {
            width: 1,
            height: 2,
            bit_depth: 8,
            color_type: 2,
            compression: 0,
            filter: 0,
            interlace: 0,
        }),
        palette: vec![],
        data: vec![],
    };
    let image = unpack(&chunks, &[0, 1, 2, 3, 0, 4, 5, 6]).unwrap();
    assert_eq!(image.slice(0, 6), &[1, 2, 3, 4, 5, 6]);
    // Bytes behind the last row are passed over.
    let image = unpack(&chunks, &[0, 1, 2, 3, 0, 4, 5, 6, 9, 9]).unwrap();
    assert_eq!(image.slice(0, 6), &[1, 2, 3, 4, 5, 6]);
    assert!(matches!(unpack(&chunks, &[0, 1, 2, 3, 0, 4, 5]), Err(Error::ImageDecodeError(_))));
}

#[test]
fn codecs_dispatch_by_format() {
    let image = sample(3, 2);
    let stream = image.encode(Codec::Image(ImageCodec::PNG)).unwrap();
    assert_eq!(stream, encode(&image).unwrap());
    let decoded = Codec::Image(ImageCodec::PNG).decode(&stream).unwrap();
    assert_eq!(decoded.slice(0, 18), image.slice(0, 18));

    assert!(matches!(image.encode(Codec::Image(ImageCodec::JPG)), Err(Error::NotImplemented(_))));
    assert!(matches!(
        Codec::Image(ImageCodec::JPG).decode(&stream),
        Err(Error::NotImplemented(_))
    ));
    assert!(matches!(jpeg::encode(&image), Err(Error::NotImplemented(_))));
    assert!(matches!(jpeg::decode(&stream), Err(Error::NotImplemented(_))));
    assert!(matches!(
        image.encode(Codec::Video(VideoCodec::H264)),
        Err(Error::UnsupportedOperation(_))
    ));
    assert!(matches!(
        Codec::Video(VideoCodec::H265).decode(&stream),
        Err(Error::UnsupportedOperation(_))
    ));
}
