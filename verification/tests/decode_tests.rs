use parslay::cursor::{CursorManager, CursorType};
use parslay::decode::decode_cursor;
use parslay::error::DecodeError;

fn push_be32(out: &mut Vec<u8>, value: u32) {
    out.push((value >> 24) as u8);
    out.push((value >> 16) as u8);
    out.push((value >> 8) as u8);
    out.push(value as u8);
}

/// A well-formed cursor-theme file with one image chunk per entry of
/// `images`, each given as (nominal size, xhot, yhot).
fn theme_file(images: &[(u32, u32, u32)]) -> Vec<u8> {
    let mut out = vec![0x58, 0x63, 0x75, 0x72]; // magic
    push_be32(&mut out, 16); // header size
    push_be32(&mut out, 1); // version
    push_be32(&mut out, images.len() as u32); // table-of-contents length
    let mut pos = 16 + 12 * images.len() as u32;
    for (size, _, _) in images {
        push_be32(&mut out, 0xfffd0002); // entry type
        push_be32(&mut out, *size); // entry subtype: nominal size
        push_be32(&mut out, pos); // chunk position
        pos += 36 + size * size * 4;
    }
    for (size, xhot, yhot) in images {
        push_be32(&mut out, 36); // chunk header size
        push_be32(&mut out, 0xfffd0002); // chunk type
        push_be32(&mut out, *size); // subtype
        push_be32(&mut out, 1); // version
        push_be32(&mut out, *size); // width
        push_be32(&mut out, *size); // height
        push_be32(&mut out, *xhot);
        push_be32(&mut out, *yhot);
        push_be32(&mut out, 0); // delay
        for i in 0..(size * size * 4) {
            out.push(i as u8);
        }
    }
    out
}

#[test]
fn well_formed_chunk_decodes_with_hotspot() {
    let data = theme_file(&[(24, 7, 11)]);
    let img = decode_cursor(&data, 24).unwrap();
    assert_eq!(img.width, 24);
    assert_eq!(img.height, 24);
    assert_eq!(img.xhot, 7);
    assert_eq!(img.yhot, 11);
    assert_eq!(img.pixels.len(), 24 * 24 * 4);
    assert_eq!(img.pixels[0], 0);
    assert_eq!(img.pixels[5], 5);
}

#[test]
fn first_matching_size_wins() {
    let data = theme_file(&[(16, 1, 2), (24, 3, 5), (24, 8, 9)]);
    let img = decode_cursor(&data, 24).unwrap();
    assert_eq!(img.xhot, 3);
    assert_eq!(img.yhot, 5);
    let small = decode_cursor(&data, 16).unwrap();
    assert_eq!(small.xhot, 1);
    assert_eq!(small.yhot, 2);
}

#[test]
fn missing_magic_is_invalid_data() {
    let mut data = theme_file(&[(24, 7, 11)]);
    data[0] = 0x59;
    assert_eq!(decode_cursor(&data, 24), Err(DecodeError::InvalidData));
    let empty: Vec<u8> = vec![];
    assert_eq!(decode_cursor(&empty, 24), Err(DecodeError::InvalidData));
    let short = vec![0x58, 0x63, 0x75, 0x72, 0, 0];
    assert_eq!(decode_cursor(&short, 24), Err(DecodeError::InvalidData));
}

#[test]
fn truncated_table_is_invalid_data() {
    let mut data = theme_file(&[(24, 7, 11)]);
    data.truncate(20); // the announced table of contents no longer fits
    assert_eq!(decode_cursor(&data, 24), Err(DecodeError::InvalidData));
}

#[test]
fn no_matching_size_is_not_found() {
    let data = theme_file(&[(16, 1, 2), (48, 3, 4)]);
    assert_eq!(decode_cursor(&data, 24), Err(DecodeError::NotFound));
}

#[test]
fn truncated_pixels_are_skipped() {
    let mut data = theme_file(&[(24, 7, 11)]);
    data.truncate(data.len() - 8); // the chunk's pixel data is cut short
    assert_eq!(decode_cursor(&data, 24), Err(DecodeError::NotFound));
}

#[test]
fn manager_set_cursor_issues_one_request_per_shape() {
    let mut mgr = CursorManager::new();
    let arrow = theme_file(&[(24, 4, 4)]);
    let text = theme_file(&[(24, 12, 12)]);
    mgr.load_shape(CursorType::Arrow, &arrow, 24).unwrap();
    mgr.load_shape(CursorType::Text, &text, 24).unwrap();

    let first = mgr.set_cursor(CursorType::Text).unwrap();
    assert!(first.issue);
    assert_eq!(first.hotspot.x, 12);
    assert_eq!(first.hotspot.y, 12);
    // The second request for the same shape is free.
    let second = mgr.set_cursor(CursorType::Text).unwrap();
    assert!(!second.issue);
    assert_eq!(second.hotspot.x, 12);
    // A transition issues again.
    let third = mgr.set_cursor(CursorType::Arrow).unwrap();
    assert!(third.issue);
    assert_eq!(third.hotspot.x, 4);
}

#[test]
fn manager_refuses_unloaded_shape() {
    let mut mgr = CursorManager::new();
    let arrow = theme_file(&[(24, 4, 4)]);
    mgr.load_shape(CursorType::Arrow, &arrow, 24).unwrap();
    mgr.set_cursor(CursorType::Arrow).unwrap();
    assert_eq!(mgr.set_cursor(CursorType::Pointer), Err(DecodeError::NotFound));
    // The failed request leaves the applied shape alone.
    assert_eq!(mgr.current, CursorType::Arrow);
}

#[test]
fn failed_shape_load_degrades() {
    let mut mgr = CursorManager::new();
    let bad = vec![1, 2, 3];
    assert_eq!(
        mgr.load_shape(CursorType::Pointer, &bad, 24),
        Err(DecodeError::InvalidData)
    );
    assert_eq!(mgr.slots.len(), 0);
}

#[test]
fn standard_set_loads_and_applies_arrow() {
    let shapes = parslay::cursor::standard_shapes();
    let mut files: Vec<Vec<u8>> = Vec::new();
    for (i, _) in shapes.iter().enumerate() {
        if i == 1 {
            files.push(vec![1, 2, 3]); // the pointer shape's file is broken
        } else {
            files.push(theme_file(&[(24, i as u32, 2 * i as u32)]));
        }
    }
    let mut mgr = CursorManager::new();
    let loaded = mgr.load_standard(&files, 24);
    // Every shape but the broken one decoded, in order, and Arrow applied.
    assert_eq!(loaded.len(), shapes.len() - 1);
    assert_eq!(mgr.slots.len(), shapes.len() - 1);
    assert_eq!(loaded[0].shape, CursorType::Arrow);
    assert_eq!(loaded[1].shape, CursorType::Text);
    assert_eq!(loaded[0].image.xhot, 0);
    assert_eq!(loaded[1].image.yhot, 4);
    assert_eq!(mgr.current, CursorType::Arrow);
    // The broken shape degrades: requesting it keeps the arrow.
    assert!(mgr.set_cursor(CursorType::Pointer).is_err());
    assert_eq!(mgr.current, CursorType::Arrow);
    let change = mgr.set_cursor(CursorType::Text).unwrap();
    assert!(change.issue);
    assert_eq!(change.hotspot.x, 2);
}

#[test]
fn standard_shape_set() {
    let shapes = parslay::cursor::standard_shapes();
    assert_eq!(shapes.len(), 11);
    assert_eq!(shapes[0], CursorType::Arrow);
    assert!(shapes.contains(&CursorType::SWResize));
    assert!(!shapes.contains(&CursorType::Unknown));
    assert!(!shapes.contains(&CursorType::NSResize));
}
