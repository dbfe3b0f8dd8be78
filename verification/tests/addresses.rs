//! Socket-address images and Unix-domain addresses.

use tokio_iocp::net::sockaddr::{decode_v4, decode_v6, encode_v4, encode_v6};
use tokio_iocp::net::unix::UnixSocketAddr;
use tokio_iocp::IoError;

#[test]
fn v4_image_layout() {
    let image = encode_v4(&vec![127, 0, 0, 1], 8080);
    assert_eq!(
        image,
        vec![2, 0, 0x90, 0x1F, 127, 0, 0, 1, 0, 0, 0, 0, 0, 0, 0, 0]
    );
}

#[test]
fn v4_round_trip() {
    let image = encode_v4(&vec![192, 168, 0, 17], 443);
    let (ip, port) = decode_v4(&image).unwrap();
    assert_eq!(ip, vec![192, 168, 0, 17]);
    assert_eq!(port, 443);
}

#[test]
fn v4_rejects_other_families_and_short_images() {
    let v6 = encode_v6(&vec![0; 16], 80, 0, 0);
    assert_eq!(decode_v4(&v6), None);
    assert_eq!(decode_v4(&vec![2, 0, 0]), None);
}

#[test]
fn v6_round_trip() {
    let ip: Vec<u8> = (1..=16).collect();
    let image = encode_v6(&ip, 8443, 0x12345, 3);
    assert_eq!(image.len(), 28);
    let (ip2, port, flowinfo, scope_id) = decode_v6(&image).unwrap();
    assert_eq!(ip2, ip);
    assert_eq!(port, 8443);
    assert_eq!(flowinfo, 0x12345);
    assert_eq!(scope_id, 3);
}

#[test]
fn v6_rejects_the_v4_family() {
    let v4 = encode_v4(&vec![127, 0, 0, 1], 80);
    assert_eq!(decode_v6(&v4), None);
}

#[test]
fn unnamed_address() {
    let a = UnixSocketAddr::unnamed();
    assert!(a.is_unnamed());
    assert_eq!(a.as_pathname(), None);
    assert_eq!(a.as_abstract_namespace(), None);
}

#[test]
fn pathname_round_trip() {
    let a = UnixSocketAddr::from_pathname(b"/tmp/sock").unwrap();
    assert!(!a.is_unnamed());
    assert_eq!(a.as_pathname(), Some(b"/tmp/sock".to_vec()));
    assert_eq!(a.as_abstract_namespace(), None);
    assert_eq!(a.native_len(), 12);
}

#[test]
fn pathname_rejects_interior_zero_bytes() {
    let err = UnixSocketAddr::from_pathname(b"a\0b").unwrap_err();
    assert_eq!(err, IoError::InvalidInput);
}

#[test]
fn pathname_rejects_overlong_paths() {
    let long = vec![b'x'; 107];
    let err = UnixSocketAddr::from_pathname(&long).unwrap_err();
    assert_eq!(err, IoError::InvalidInput);
    // One byte shorter fits.
    let ok = UnixSocketAddr::from_pathname(&long[..106]).unwrap();
    assert_eq!(ok.as_pathname(), Some(long[..106].to_vec()));
}

#[test]
fn abstract_round_trip() {
    let a = UnixSocketAddr::from_abstract_namespace(b"hidden").unwrap();
    assert_eq!(a.as_abstract_namespace(), Some(b"hidden".to_vec()));
    assert_eq!(a.as_pathname(), None);
    assert!(!a.is_unnamed());
}

#[test]
fn abstract_rejects_overlong_names() {
    let long = vec![7u8; 107];
    let err = UnixSocketAddr::from_abstract_namespace(&long).unwrap_err();
    assert_eq!(err, IoError::InvalidInput);
}

#[test]
fn unix_native_image_round_trip() {
    let a = UnixSocketAddr::from_pathname(b"/run/pipe").unwrap();
    let image = a.to_native_bytes();
    assert_eq!(image.len(), 110);
    assert_eq!(&image[..2], &[1, 0]);
    let back = UnixSocketAddr::from_native_bytes(&image, a.native_len()).unwrap();
    assert_eq!(back.as_pathname(), Some(b"/run/pipe".to_vec()));
}

#[test]
fn unix_native_image_rejects_other_families() {
    let mut image = UnixSocketAddr::unnamed().to_native_bytes();
    image[0] = 2;
    assert!(UnixSocketAddr::from_native_bytes(&image, 4).is_none());
}
