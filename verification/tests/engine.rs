use gud_gadget::codec::SetBuffer;
use gud_gadget::engine::{blit, PixelTransfer, TransferError};

fn header(x: u32, y: u32, width: u32, height: u32, length: u32) -> SetBuffer {
    SetBuffer { x, y, width, height, length, compression: 0, compressed_length: 0 }
}

fn run_transfer(h: SetBuffer, chunks: &[&[u8]], fb: &mut Vec<u8>, pitch: usize) {
    let mut t = PixelTransfer::begin(h).unwrap();
    for c in chunks {
        t.feed(&c.to_vec()).unwrap();
    }
    assert!(t.is_complete());
    t.finish(fb, pitch).unwrap();
}

#[test]
fn end_to_end_rectangle_lands_at_documented_offsets() {
    // SetBuffer{x:10, y:5, width:4, height:2, length:16, compression:0}
    // on a 2-bytes-per-pixel surface with pitch 100.
    let h = header(10, 5, 4, 2, 16);
    let payload: Vec<u8> = (0..16u8).map(|b| b.wrapping_add(1)).collect();
    let mut fb = vec![0xaau8; 700];
    run_transfer(h, &[&payload], &mut fb, 100);
    assert_eq!(&fb[5 * 100 + 20..5 * 100 + 28], &payload[0..8]);
    assert_eq!(&fb[6 * 100 + 20..6 * 100 + 28], &payload[8..16]);
    for (i, b) in fb.iter().enumerate() {
        let in_row5 = (520..528).contains(&i);
        let in_row6 = (620..628).contains(&i);
        if !in_row5 && !in_row6 {
            assert_eq!(*b, 0xaa, "byte {} outside the rectangle changed", i);
        }
    }
}

#[test]
fn reassembly_is_independent_of_chunk_boundaries() {
    let h = header(0, 0, 8, 2, 16);
    let payload: Vec<u8> = (100..116u8).collect();
    let pitch = 8;
    let chunkings: [&[&[u8]]; 4] = [
        &[&payload[..]],
        &[&payload[..1], &payload[1..]],
        &[&payload[..5], &payload[5..5], &payload[5..11], &payload[11..]],
        &[
            &payload[..2],
            &payload[2..4],
            &payload[4..6],
            &payload[6..8],
            &payload[8..10],
            &payload[10..12],
            &payload[12..14],
            &payload[14..16],
        ],
    ];
    let mut reference = vec![0u8; 16];
    run_transfer(h, chunkings[0], &mut reference, pitch);
    assert_eq!(reference, payload);
    for chunks in &chunkings[1..] {
        let mut fb = vec![0u8; 16];
        run_transfer(h, chunks, &mut fb, pitch);
        assert_eq!(fb, reference);
    }
}

#[test]
fn compressed_transfer_reproduces_the_original_bytes() {
    // 16x4 pixels at 2 bytes per pixel, compressible content.
    let mut payload = Vec::new();
    for row in 0..4u8 {
        for col in 0..32u8 {
            payload.push(row.wrapping_mul(3).wrapping_add(col / 8));
        }
    }
    assert_eq!(payload.len(), 128);
    let compressed = lz4::block::compress(&payload, None, false).unwrap();
    assert_ne!(compressed, payload);
    let h = SetBuffer {
        x: 1,
        y: 1,
        width: 16,
        height: 4,
        length: 128,
        compression: 1,
        compressed_length: compressed.len() as u32,
    };
    let pitch = 40;
    let mut fb = vec![0x55u8; 40 * 6];
    let mut t = PixelTransfer::begin(h).unwrap();
    t.feed(&compressed).unwrap();
    t.finish(&mut fb, pitch).unwrap();
    for row in 0..4usize {
        let dst = (1 + row) * pitch + 2;
        assert_eq!(&fb[dst..dst + 32], &payload[row * 32..(row + 1) * 32]);
    }
    assert_eq!(fb[0], 0x55);
    assert_eq!(fb[1 * pitch + 1], 0x55);
    assert_eq!(fb[1 * pitch + 34], 0x55);
}

#[test]
fn garbage_compressed_block_fails_to_decompress() {
    let h = SetBuffer {
        x: 0,
        y: 0,
        width: 4,
        height: 4,
        length: 16,
        compression: 1,
        compressed_length: 4,
    };
    let mut t = PixelTransfer::begin(h).unwrap();
    t.feed(&vec![0xff, 0xff, 0xff, 0xff]).unwrap();
    let mut fb = vec![0u8; 64];
    assert_eq!(t.finish(&mut fb, 4), Err(TransferError::Decompress));
    assert!(fb.iter().all(|b| *b == 0));
}

#[test]
fn zero_sized_rectangle_is_rejected() {
    assert_eq!(PixelTransfer::begin(header(0, 0, 0, 4, 16)).err(), Some(TransferError::BadDimensions));
    assert_eq!(PixelTransfer::begin(header(0, 0, 4, 0, 16)).err(), Some(TransferError::BadDimensions));
    assert_eq!(PixelTransfer::begin(header(0, 0, 4, 4, 0)).err(), Some(TransferError::BadDimensions));
}

#[test]
fn fractional_bytes_per_pixel_is_rejected() {
    // 17 bytes for 4x4 pixels is not a whole number of bytes per pixel.
    assert_eq!(PixelTransfer::begin(header(0, 0, 4, 4, 17)).err(), Some(TransferError::BadDimensions));
}

#[test]
fn oversized_compressed_declaration_is_rejected() {
    let h = SetBuffer {
        x: 0,
        y: 0,
        width: 1,
        height: 1,
        length: 0x8000_0000,
        compression: 1,
        compressed_length: 16,
    };
    assert_eq!(PixelTransfer::begin(h).err(), Some(TransferError::TooLarge));
    // Just past the decoder's input-size ceiling of 0x7e00_0000 bytes.
    let h = SetBuffer {
        x: 0,
        y: 0,
        width: 1,
        height: 1,
        length: 0x7e00_0001,
        compression: 1,
        compressed_length: 16,
    };
    assert_eq!(PixelTransfer::begin(h).err(), Some(TransferError::TooLarge));
}

#[test]
fn feeding_past_the_declared_length_is_an_overrun() {
    let mut t = PixelTransfer::begin(header(0, 0, 2, 2, 4)).unwrap();
    t.feed(&vec![1, 2, 3]).unwrap();
    assert_eq!(t.received(), 3);
    assert_eq!(t.feed(&vec![4, 5]), Err(TransferError::Overrun));
    // The rejected packet left the accumulated bytes unchanged.
    assert_eq!(t.received(), 3);
    t.feed(&vec![4]).unwrap();
    assert!(t.is_complete());
}

#[test]
fn finishing_early_reports_incomplete() {
    let mut t = PixelTransfer::begin(header(0, 0, 2, 2, 4)).unwrap();
    t.feed(&vec![1, 2]).unwrap();
    let mut fb = vec![0u8; 16];
    assert_eq!(t.finish(&mut fb, 4), Err(TransferError::Incomplete));
    assert!(fb.iter().all(|b| *b == 0));
}

#[test]
fn rectangle_outside_the_surface_is_rejected() {
    // Fits horizontally but not vertically.
    let mut t = PixelTransfer::begin(header(0, 3, 2, 2, 4)).unwrap();
    t.feed(&vec![1, 2, 3, 4]).unwrap();
    // Pitch 2: the last written byte would be byte 9, past 8 bytes.
    let mut fb = vec![0u8; 8];
    assert_eq!(t.finish(&mut fb, 2), Err(TransferError::OutOfBounds));
    // Fits vertically but not horizontally.
    let mut t = PixelTransfer::begin(header(1, 0, 2, 2, 4)).unwrap();
    t.feed(&vec![1, 2, 3, 4]).unwrap();
    let mut fb = vec![0u8; 8];
    assert_eq!(t.finish(&mut fb, 2), Err(TransferError::OutOfBounds));
}

#[test]
fn update_ending_inside_the_last_row_is_accepted() {
    // One 2-byte pixel at (0, 0) on a surface of 50 bytes with pitch
    // 100: only the last written byte must be in bounds, not a full
    // final row of pitch.
    let mut t = PixelTransfer::begin(header(0, 0, 1, 1, 2)).unwrap();
    t.feed(&vec![7, 8]).unwrap();
    let mut fb = vec![0u8; 50];
    t.finish(&mut fb, 100).unwrap();
    assert_eq!(&fb[0..2], &[7, 8]);
    assert!(fb[2..].iter().all(|b| *b == 0));
}

#[test]
fn update_ending_exactly_at_the_surface_end_is_accepted() {
    let mut t = PixelTransfer::begin(header(0, 3, 2, 2, 4)).unwrap();
    t.feed(&vec![1, 2, 3, 4]).unwrap();
    // Pitch 2: the last written byte is byte 9, so 10 bytes suffice.
    let mut fb = vec![0u8; 10];
    t.finish(&mut fb, 2).unwrap();
    assert_eq!(&fb[6..10], &[1, 2, 3, 4]);
}

#[test]
fn target_length_follows_compression_flag() {
    let t = PixelTransfer::begin(header(0, 0, 2, 2, 4)).unwrap();
    assert_eq!(t.target_bytes(), 4);
    let h = SetBuffer {
        x: 0,
        y: 0,
        width: 2,
        height: 2,
        length: 4,
        compression: 1,
        compressed_length: 9,
    };
    let t = PixelTransfer::begin(h).unwrap();
    assert_eq!(t.target_bytes(), 9);
}

#[test]
fn blit_handles_pitch_equal_to_row_width() {
    let src: Vec<u8> = (1..=12u8).collect();
    let mut fb = vec![0u8; 12];
    blit(&mut fb, 4, 0, 0, 2, 3, 2, &src);
    assert_eq!(fb, src);
}

#[test]
fn blit_respects_column_offset_and_pitch() {
    let src = vec![1u8, 2, 3, 4];
    let mut fb = vec![9u8; 10];
    // pitch 5, one pixel column at x=1, two rows, 2 bytes per pixel:
    // the column starts at byte offset x * bpp = 2 of each row
    blit(&mut fb, 5, 1, 0, 1, 2, 2, &src);
    assert_eq!(fb, vec![9, 9, 1, 2, 9, 9, 9, 3, 4, 9]);
}
