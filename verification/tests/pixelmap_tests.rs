use recode::pixelmap::{channel_pixelmap, sample_uv_indices, uv_pixelmap, write_channels};
use recode::UV_TABLE_SIZE;

#[test]
fn test_uv_pixelmap_looks_up_chroma_pair() {
    // Table keyed by u * 256 + v; entry encodes the v byte.
    let table: Vec<u8> = (0..UV_TABLE_SIZE).map(|i| (i % 256) as u8).collect();
    // Two pixels, channel order alpha, y, u, v.
    let data: Vec<u8> = vec![1, 2, 3, 4, 5, 6, 7, 8];
    assert_eq!(uv_pixelmap(&data, &table), vec![4, 8]);
    // And a table that encodes the u byte instead.
    let table_u: Vec<u8> = (0..UV_TABLE_SIZE).map(|i| (i / 256) as u8).collect();
    assert_eq!(uv_pixelmap(&data, &table_u), vec![3, 7]);
}

#[test]
fn test_uv_pixelmap_generic_entries() {
    let table: Vec<(f64, f64)> =
        (0..UV_TABLE_SIZE).map(|i| ((i / 256) as f64, (i % 256) as f64)).collect();
    let data: Vec<u8> = vec![0, 0, 200, 100];
    assert_eq!(uv_pixelmap(&data, &table), vec![(200.0, 100.0)]);
}

#[test]
fn test_channel_pixelmap_luma() {
    // Luma remap table: add one, wrapping.
    let table: Vec<u8> = (0..256).map(|i| (i as u8).wrapping_add(1)).collect();
    let data: Vec<u8> = vec![9, 10, 11, 12, 13, 250, 15, 16];
    assert_eq!(channel_pixelmap(&data, 1, &table), vec![11, 251]);
}

#[test]
fn test_sample_uv_indices_stride() {
    // Pixels with chroma pairs (1,2), (3,4), (5,6): a stride of 2 samples
    // pixels 0 and 2.
    let data: Vec<u8> = vec![0, 0, 1, 2, 0, 0, 3, 4, 0, 0, 5, 6];
    assert_eq!(sample_uv_indices(&data, 2), vec![256 + 2, 5 * 256 + 6]);
    assert_eq!(sample_uv_indices(&data, 1), vec![256 + 2, 3 * 256 + 4, 5 * 256 + 6]);
    assert_eq!(sample_uv_indices(&data, 3), vec![256 + 2]);
    assert_eq!(sample_uv_indices(&data, 100), vec![256 + 2]);
}

#[test]
fn test_sample_uv_indices_empty() {
    let data: Vec<u8> = Vec::new();
    assert_eq!(sample_uv_indices(&data, 257), Vec::<usize>::new());
}

#[test]
fn test_write_channels_in_place() {
    let mut data: Vec<u8> = vec![255, 1, 2, 3, 128, 4, 5, 6];
    let ys = vec![10, 20];
    let us = vec![30, 40];
    let vs = vec![50, 60];
    write_channels(&mut data, &ys, &us, &vs);
    assert_eq!(data, vec![255, 10, 30, 50, 128, 20, 40, 60]);
}

#[test]
fn test_remap_then_write_back() {
    // One full per-pixel remap step: look up new chroma for each pixel and
    // write the channels back, leaving alpha untouched.
    let u_table: Vec<u8> = (0..UV_TABLE_SIZE).map(|i| ((i / 256) as u8).wrapping_add(2)).collect();
    let v_table: Vec<u8> = (0..UV_TABLE_SIZE).map(|i| ((i % 256) as u8).wrapping_add(3)).collect();
    let y_table: Vec<u8> = (0..256).map(|i| (255 - i) as u8).collect();
    let mut data: Vec<u8> = vec![7, 100, 50, 60, 9, 200, 70, 80];
    let ys = channel_pixelmap(&data, 1, &y_table);
    let us = uv_pixelmap(&data, &u_table);
    let vs = uv_pixelmap(&data, &v_table);
    write_channels(&mut data, &ys, &us, &vs);
    assert_eq!(data, vec![7, 155, 52, 63, 9, 55, 72, 83]);
}
