use usami::nvshader::{
    check_nvuc_container, container_after_prefix, find_shader_data_offsets, find_zstd_header,
    get_shader_data, get_zstd_shader_blob, try_get_shader_data, ZstdBlobError,
    LOCAL_FILE_PREFIX_LEN, REMOTE_BLOB_PREFIX_LEN,
};

fn put_u16(buf: &mut Vec<u8>, at: usize, v: u16) {
    buf[at..at + 2].copy_from_slice(&v.to_le_bytes());
}

fn put_u32(buf: &mut Vec<u8>, at: usize, v: u32) {
    buf[at..at + 4].copy_from_slice(&v.to_le_bytes());
}

fn put_u64(buf: &mut Vec<u8>, at: usize, v: u64) {
    buf[at..at + 8].copy_from_slice(&v.to_le_bytes());
}

/// A container whose sections are given as (id, offset, size), padded to `len`.
fn container(sections: &[(u16, u64, u32)], len: usize) -> Vec<u8> {
    let mut buf = vec![0u8; len];
    put_u32(&mut buf, 0, 0x6375564e);
    put_u16(&mut buf, 8, sections.len() as u16);
    for (k, (id, offset, size)) in sections.iter().enumerate() {
        let entry = 32 + 32 * k;
        put_u16(&mut buf, entry, *id);
        put_u32(&mut buf, entry + 4, *size);
        put_u64(&mut buf, entry + 8, *offset);
    }
    for (i, b) in buf.iter_mut().enumerate().skip(32 + 32 * sections.len()) {
        *b = (i % 251) as u8;
    }
    buf
}

#[test]
fn zstd_header_found_at_first_occurrence() {
    let bin = [0u8, 1, 0x28, 0xb5, 0x2f, 0xfd, 7, 0x28, 0xb5, 0x2f, 0xfd];
    assert_eq!(find_zstd_header(&bin), Some(2));
}

#[test]
fn zstd_header_at_start_and_at_end() {
    assert_eq!(find_zstd_header(&[0x28, 0xb5, 0x2f, 0xfd]), Some(0));
    assert_eq!(find_zstd_header(&[9, 9, 0x28, 0xb5, 0x2f, 0xfd]), Some(2));
}

#[test]
fn zstd_header_absent() {
    assert_eq!(find_zstd_header(&[]), None);
    assert_eq!(find_zstd_header(&[0x28, 0xb5, 0x2f]), None);
    assert_eq!(find_zstd_header(&[0x28, 0xb5, 0x2f, 0xfc, 0xfd]), None);
}

#[test]
fn zstd_blob_decodes_from_the_magic_on() {
    let payload: Vec<u8> = (0..300u32).map(|i| (i * 7 % 256) as u8).collect();
    let compressed = zstd::stream::encode_all(payload.as_slice(), 3).unwrap();
    let mut bin = vec![1u8, 2, 3, 4, 5];
    bin.extend_from_slice(&compressed);
    let decoded = get_zstd_shader_blob(&bin).unwrap().unwrap();
    assert_eq!(decoded, payload);
}

#[test]
fn zstd_blob_without_magic_is_none() {
    assert!(matches!(get_zstd_shader_blob(&[1, 2, 3, 4, 5, 6]), Ok(None)));
}

#[test]
fn zstd_blob_that_does_not_decode_is_an_error() {
    let bin = [0u8, 0x28, 0xb5, 0x2f, 0xfd, 0xff, 0xff, 0xff, 0xff, 0xff, 0xff];
    assert!(matches!(get_zstd_shader_blob(&bin), Err(ZstdBlobError::DecodeFailed)));
}

#[test]
fn container_prefix_is_dropped() {
    let data: Vec<u8> = (0..12u8).collect();
    assert_eq!(container_after_prefix(&data, REMOTE_BLOB_PREFIX_LEN), vec![8, 9, 10, 11]);
    assert_eq!(container_after_prefix(&data, LOCAL_FILE_PREFIX_LEN), (4..12u8).collect::<Vec<u8>>());
    assert_eq!(container_after_prefix(&data, 12), Vec::<u8>::new());
}

#[test]
fn container_check() {
    let good = container(&[(1, 64, 4)], 68);
    assert!(check_nvuc_container(&good));
    let mut bad_magic = good.clone();
    bad_magic[0] = 0;
    assert!(!check_nvuc_container(&bad_magic));
    assert!(!check_nvuc_container(&good[..31]));
    // Two entries announced, the second one's fields run past the end.
    let mut truncated = container(&[(1, 64, 4)], 64);
    truncated[8] = 2;
    assert!(!check_nvuc_container(&truncated));
}

#[test]
fn offsets_of_header_code_and_mesh_header() {
    let buf = container(&[(0x2d, 160, 128), (0x1, 288, 16), (0x4d, 304, 8), (0x7, 0, 0)], 312);
    let (header, code, mesh) = find_shader_data_offsets(&buf).unwrap();
    let header = header.unwrap();
    assert_eq!((header.offset, header.size), (160, 128));
    assert_eq!((code.offset, code.size), (288, 16));
    let mesh = mesh.unwrap();
    assert_eq!((mesh.offset, mesh.size), (304, 8));
}

#[test]
fn offsets_last_section_of_an_id_wins() {
    let buf = container(&[(0x1, 100, 4), (0x1, 96, 8)], 104);
    let (header, code, mesh) = find_shader_data_offsets(&buf).unwrap();
    assert!(header.is_none());
    assert!(mesh.is_none());
    assert_eq!((code.offset, code.size), (96, 8));
}

#[test]
fn offsets_without_code_section() {
    let buf = container(&[(0x2d, 64, 96)], 160);
    assert!(find_shader_data_offsets(&buf).is_none());
    assert!(try_get_shader_data(&buf).is_none());
}

#[test]
fn shader_data_with_turing_header() {
    let mut buf = container(&[(0x2d, 96, 128), (0x1, 224, 16)], 240);
    // SPH version 4 in bits 5..10 of the first header word.
    put_u16(&mut buf, 96, 4 << 5);
    let (header, code, mesh) = get_shader_data(&buf);
    assert_eq!(header, buf[96..224].to_vec());
    assert_eq!(code, buf[224..240].to_vec());
    assert!(mesh.is_empty());
    assert_eq!(try_get_shader_data(&buf), Some((header, code, mesh)));
}

#[test]
fn shader_data_with_fermi_header_and_mesh_header() {
    let mut buf = container(&[(0x2d, 128, 96), (0x1, 224, 8), (0x4d, 100, 12)], 232);
    put_u16(&mut buf, 128, 3 << 5);
    let (header, code, mesh) = get_shader_data(&buf);
    assert_eq!(header, buf[128..224].to_vec());
    assert_eq!(code, buf[224..232].to_vec());
    assert_eq!(mesh, buf[100..112].to_vec());
}

#[test]
fn shader_data_without_header() {
    let buf = container(&[(0x1, 64, 8)], 80);
    let (header, code, mesh) = get_shader_data(&buf);
    assert!(header.is_empty());
    assert_eq!(code, buf[64..72].to_vec());
    assert!(mesh.is_empty());
}

#[test]
fn shader_data_header_size_must_match_version() {
    let mut buf = container(&[(0x2d, 96, 96), (0x1, 192, 16)], 208);
    put_u16(&mut buf, 96, 4 << 5);
    assert!(try_get_shader_data(&buf).is_none());
}

#[test]
fn shader_data_header_must_precede_code() {
    let mut buf = container(&[(0x2d, 96, 128), (0x1, 232, 8)], 240);
    put_u16(&mut buf, 96, 5 << 5);
    assert!(try_get_shader_data(&buf).is_none());
}

#[test]
fn shader_data_sections_must_be_inside() {
    let buf = container(&[(0x1, 64, 32)], 80);
    assert!(try_get_shader_data(&buf).is_none());
    let buf = container(&[(0x1, 64, 8), (0x4d, 70, 30)], 96);
    assert!(try_get_shader_data(&buf).is_none());
    let buf = container(&[(0x1, u64::MAX, 8)], 80);
    assert!(try_get_shader_data(&buf).is_none());
}

#[test]
fn shader_data_of_a_malformed_container() {
    assert!(try_get_shader_data(&[1, 2, 3]).is_none());
    let mut buf = container(&[(0x1, 64, 8)], 80);
    buf[1] = 0;
    assert!(try_get_shader_data(&buf).is_none());
}
