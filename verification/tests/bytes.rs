use romy_core::output::Image;
use romy_core::serial::{decode_sized_prefix, decode_with_size, encode_with_size, encoded_size};

#[test]
fn size_goes_in_front_least_significant_byte_first() {
    assert_eq!(encode_with_size(&[]), vec![0, 0, 0, 0, 0, 0, 0, 0]);
    assert_eq!(encode_with_size(&[7, 9, 11]), vec![3, 0, 0, 0, 0, 0, 0, 0, 7, 9, 11]);
    let long = vec![5u8; 0x1_02_03];
    let framed = encode_with_size(&long);
    assert_eq!(&framed[..8], &[3, 2, 1, 0, 0, 0, 0, 0]);
    assert_eq!(&framed[8..], long.as_slice());
}

#[test]
fn encoded_size_reads_the_first_eight_bytes() {
    assert_eq!(encoded_size(&[3, 0, 0, 0, 0, 0, 0, 0, 7, 9, 11]), Some(3));
    assert_eq!(encoded_size(&[1, 2, 3, 4, 5, 6, 7, 8]), Some(0x0807_0605_0403_0201));
    assert_eq!(encoded_size(&[0xff; 8]), Some(u64::MAX));
    assert_eq!(encoded_size(&[0, 0, 0, 0, 0, 0, 0, 1, 0xaa]), Some(1 << 56));
    assert_eq!(encoded_size(&[1, 2, 3, 4, 5, 6, 7]), None);
    assert_eq!(encoded_size(&[]), None);
}

#[test]
fn decode_with_size_skips_the_size() {
    assert_eq!(decode_with_size(&[3, 0, 0, 0, 0, 0, 0, 0, 7, 9, 11]), &[7, 9, 11]);
    assert_eq!(decode_with_size(&[0; 8]), &[] as &[u8]);
    // The size itself is not looked at.
    assert_eq!(decode_with_size(&[9, 9, 9, 9, 9, 9, 9, 9, 1]), &[1]);
}

#[test]
fn sized_prefix_takes_as_many_bytes_as_the_size_says() {
    assert_eq!(
        decode_sized_prefix(&[2, 0, 0, 0, 0, 0, 0, 0, 7, 9, 11]),
        Some(&[7u8, 9][..])
    );
    assert_eq!(decode_sized_prefix(&[0; 8]), Some(&[][..]));
    assert_eq!(decode_sized_prefix(&[4, 0, 0, 0, 0, 0, 0, 0, 7, 9, 11]), None);
    assert_eq!(decode_sized_prefix(&[0xff; 12]), None);
    assert_eq!(decode_sized_prefix(&[0; 7]), None);
}

#[test]
fn framing_round_trip() {
    let payload: Vec<u8> = (0..=255u8).collect();
    let framed = encode_with_size(&payload);
    assert_eq!(framed.len(), 8 + payload.len());
    assert_eq!(encoded_size(&framed), Some(256));
    assert_eq!(decode_with_size(&framed), payload.as_slice());
    let mut followed = framed.clone();
    followed.extend_from_slice(&[1, 2, 3]);
    assert_eq!(decode_sized_prefix(&followed), Some(payload.as_slice()));
}

#[test]
fn image_from_data_reads_little_endian_pixels() {
    let data = [
        0x01, 0x02, 0x03, 0x04, 0xff, 0x00, 0x00, 0x00, 0x00, 0x00, 0x00, 0x80, 0xff, 0xff, 0xff,
        0xff, 0xaa, 0xbb, 0xcc, 0xdd, 0x10, 0x20, 0x30, 0x40, 0x99,
    ];
    let image = Image::from_data(3, 2, &data);
    assert_eq!(image.width(), 3);
    assert_eq!(image.height(), 2);
    assert_eq!(
        image.pixels(),
        &[0x0403_0201, 0x0000_00ff, 0x8000_0000, 0xffff_ffff, 0xddcc_bbaa, 0x4030_2010]
    );
}

#[test]
fn image_from_no_data() {
    let image = Image::from_data(0, 5, &[]);
    assert_eq!(image.width(), 0);
    assert_eq!(image.height(), 5);
    assert!(image.pixels().is_empty());
}

#[test]
fn blank_image_and_set_pixel() {
    let mut image = Image::new(3, 2, 0xff00_00ff);
    assert_eq!(image.width(), 3);
    assert_eq!(image.height(), 2);
    assert_eq!(image.pixels(), &[0xff00_00ff; 6]);
    image.set_pixel(1, 1, 7);
    image.set_pixel(0, 0, 9);
    assert_eq!(image.pixels(), &[9, 0xff00_00ff, 0xff00_00ff, 0xff00_00ff, 7, 0xff00_00ff]);
    image.pixels_mut()[5] = 11;
    assert_eq!(image.pixels()[5], 11);
    assert_eq!(image.width(), 3);
}

#[test]
fn image_from_pixels_keeps_them() {
    let image = Image::from_pixels(2, 1, vec![1, 2]);
    assert_eq!(image.width(), 2);
    assert_eq!(image.height(), 1);
    assert_eq!(image.pixels(), &[1, 2]);
}
