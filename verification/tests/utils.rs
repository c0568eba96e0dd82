use usami::utils::{as_u32_vec, compute_mip_pyramid_levels, get_format_size};
use usami::vk;

#[test]
fn bytes_pack_into_little_endian_words() {
    assert_eq!(as_u32_vec(&[1, 2, 3, 4, 5, 6]), vec![0x04030201, 0x0605]);
    assert_eq!(as_u32_vec(&[0xff, 0xff, 0xff, 0xff]), vec![u32::MAX]);
    assert_eq!(as_u32_vec(&[]), Vec::<u32>::new());
    assert_eq!(as_u32_vec(&[7]), vec![7]);
}

#[test]
fn bytes_round_trip_through_words() {
    let data: Vec<u8> = (0..37u8).map(|b| b.wrapping_mul(13)).collect();
    let words = as_u32_vec(&data);
    let bytes: Vec<u8> = words.iter().flat_map(|w| w.to_le_bytes()).collect();
    assert_eq!(&bytes[..data.len()], data.as_slice());
    assert!(bytes[data.len()..].iter().all(|b| *b == 0));
}

#[test]
fn format_sizes() {
    assert_eq!(get_format_size(vk::FORMAT_R8_UNORM), 1);
    assert_eq!(get_format_size(vk::FORMAT_R8G8_UNORM), 2);
    assert_eq!(get_format_size(vk::FORMAT_R8G8B8_UNORM), 3);
    assert_eq!(get_format_size(vk::FORMAT_R8G8B8A8_UNORM), 4);
}

#[test]
fn mip_pyramid_levels() {
    assert_eq!(compute_mip_pyramid_levels(0, 0), 1);
    assert_eq!(compute_mip_pyramid_levels(1, 1), 1);
    assert_eq!(compute_mip_pyramid_levels(2, 1), 2);
    assert_eq!(compute_mip_pyramid_levels(256, 100), 9);
    assert_eq!(compute_mip_pyramid_levels(100, 255), 8);
    assert_eq!(compute_mip_pyramid_levels(1024, 1024), 11);
    assert_eq!(compute_mip_pyramid_levels(u32::MAX, 3), 32);
}

#[test]
fn mip_pyramid_levels_match_float_formula_for_image_sizes() {
    for m in 1..=16384u32 {
        let expected = (m as f32).log2().floor() as u32 + 1;
        assert_eq!(compute_mip_pyramid_levels(m, 1), expected, "side {m}");
    }
}
