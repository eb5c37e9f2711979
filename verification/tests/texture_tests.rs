use meshview::texture::{decode_texture, TextureError};

fn crc32(data: &[u8]) -> u32 {
    let mut crc: u32 = 0xFFFF_FFFF;
    for &b in data {
        crc ^= b as u32;
        for _ in 0..8 {
            if crc & 1 != 0 {
                crc = (crc >> 1) ^ 0xEDB8_8320;
            } else {
                crc >>= 1;
            }
        }
    }
    !crc
}

fn adler32(data: &[u8]) -> u32 {
    let mut a: u32 = 1;
    let mut b: u32 = 0;
    for &x in data {
        a = (a + x as u32) % 65521;
        b = (b + a) % 65521;
    }
    (b << 16) | a
}

fn chunk(out: &mut Vec<u8>, ty: &[u8; 4], data: &[u8]) {
    out.extend_from_slice(&(data.len() as u32).to_be_bytes());
    out.extend_from_slice(ty);
    out.extend_from_slice(data);
    let mut crc_input = Vec::new();
    crc_input.extend_from_slice(ty);
    crc_input.extend_from_slice(data);
    out.extend_from_slice(&crc32(&crc_input).to_be_bytes());
}

/// A 2x1 eight-bit RGBA raster, one red and one blue pixel, packed as an
/// uncompressed portable-network-graphics stream.
fn tiny_raster() -> Vec<u8> {
    let mut png = vec![137, 80, 78, 71, 13, 10, 26, 10];
    let mut ihdr = Vec::new();
    ihdr.extend_from_slice(&2u32.to_be_bytes());
    ihdr.extend_from_slice(&1u32.to_be_bytes());
    ihdr.extend_from_slice(&[8, 6, 0, 0, 0]);
    chunk(&mut png, b"IHDR", &ihdr);
    let raw = [0u8, 255, 0, 0, 255, 0, 0, 255, 255];
    let mut idat = vec![0x78, 0x01, 0x01];
    idat.extend_from_slice(&(raw.len() as u16).to_le_bytes());
    idat.extend_from_slice(&(!(raw.len() as u16)).to_le_bytes());
    idat.extend_from_slice(&raw);
    idat.extend_from_slice(&adler32(&raw).to_be_bytes());
    chunk(&mut png, b"IDAT", &idat);
    chunk(&mut png, b"IEND", &[]);
    png
}

#[test]
fn decode_produces_the_rgba_pixels() {
    let img = decode_texture(&tiny_raster()).unwrap();
    assert_eq!(img.width, 2);
    assert_eq!(img.height, 1);
    assert_eq!(img.pixels, vec![255, 0, 0, 255, 0, 0, 255, 255]);
}

#[test]
fn unreadable_bytes_report_a_decode_failure() {
    let garbage = vec![0xDEu8, 0xAD, 0xBE, 0xEF, 0x00, 0x01, 0x02];
    assert!(matches!(decode_texture(&garbage), Err(TextureError::DecodeFailure)));
    assert!(matches!(decode_texture(&Vec::new()), Err(TextureError::DecodeFailure)));
    // A stream that merely opens like a raster but breaks off fails too.
    let mut cut = tiny_raster();
    cut.truncate(20);
    assert!(matches!(decode_texture(&cut), Err(TextureError::DecodeFailure)));
}
