//! Socket-address byte images.
//!
//! The kernel takes and returns addresses as fixed-layout records; these
//! functions build and read that layout as plain bytes. Two-byte and
//! four-byte fields lie in the image low byte first, matching the record's
//! in-memory form on this platform.

use vstd::prelude::*;

verus! {

/// The size of the largest address record any family needs; address
/// buffers for accept and receive-from are this large.
pub const MAX_ADDR_SIZE: usize = 128;

/// Address family of a version-4 internet address.
pub const AF_INET: u16 = 2;

/// Address family of a version-6 internet address.
pub const AF_INET6: u16 = 23;

/// Address family of a Unix-domain address.
pub const AF_UNIX: u16 = 1;

/// The two-byte field at offset `i` of an address image.
pub open spec fn spec_u16_at(bytes: Seq<u8>, i: int) -> int {
    bytes[i] + bytes[i + 1] * 256
}

/// The four-byte field at offset `i` of an address image.
pub open spec fn spec_u32_at(bytes: Seq<u8>, i: int) -> int {
    bytes[i] + bytes[i + 1] * 256 + bytes[i + 2] * 65536 + bytes[i + 3] * 16777216
}

/// The 16-byte image of a version-4 address: family, port, the four
/// address octets, and eight bytes of padding.
pub open spec fn spec_encode_v4(ip: Seq<u8>, port: u16) -> Seq<u8> {
    seq![
        (AF_INET % 256) as u8,
        (AF_INET / 256) as u8,
        (port % 256) as u8,
        (port / 256) as u8,
        ip[0],
        ip[1],
        ip[2],
        ip[3],
        0u8,
        0u8,
        0u8,
        0u8,
        0u8,
        0u8,
        0u8,
        0u8,
    ]
}

/// The 28-byte image of a version-6 address: family, port, flow
/// information, the sixteen address octets, and the scope.
pub open spec fn spec_encode_v6(ip: Seq<u8>, port: u16, flowinfo: u32, scope_id: u32) -> Seq<u8> {
    seq![
        (AF_INET6 % 256) as u8,
        (AF_INET6 / 256) as u8,
        (port % 256) as u8,
        (port / 256) as u8,
        (flowinfo % 256) as u8,
        (flowinfo / 256 % 256) as u8,
        (flowinfo / 65536 % 256) as u8,
        (flowinfo / 16777216) as u8,
        ip[0],
        ip[1],
        ip[2],
        ip[3],
        ip[4],
        ip[5],
        ip[6],
        ip[7],
        ip[8],
        ip[9],
        ip[10],
        ip[11],
        ip[12],
        ip[13],
        ip[14],
        ip[15],
        (scope_id % 256) as u8,
        (scope_id / 256 % 256) as u8,
        (scope_id / 65536 % 256) as u8,
        (scope_id / 16777216) as u8,
    ]
}

/// Builds the image of a version-4 address.
pub fn encode_v4(ip: &Vec<u8>, port: u16) -> (r: Vec<u8>)
    requires
        ip@.len() == 4,
    ensures
        r@ == spec_encode_v4(ip@, port),
{
    let mut r: Vec<u8> = Vec::new();
    r.push((AF_INET % 256) as u8);
    r.push((AF_INET / 256) as u8);
    r.push((port % 256) as u8);
    r.push((port / 256) as u8);
    r.push(ip[0]);
    r.push(ip[1]);
    r.push(ip[2]);
    r.push(ip[3]);
    r.push(0u8);
    r.push(0u8);
    r.push(0u8);
    r.push(0u8);
    r.push(0u8);
    r.push(0u8);
    r.push(0u8);
    r.push(0u8);
    proof {
        assert(r@ =~= spec_encode_v4(ip@, port));
    }
    r
}

/// Reads a version-4 address image: the port and the four address octets.
///
/// The read succeeds exactly when the image is large enough and declares
/// the version-4 family.
pub fn decode_v4(bytes: &Vec<u8>) -> (r: Option<(Vec<u8>, u16)>)
    ensures
        r is Some <==> (bytes@.len() >= 16 && spec_u16_at(bytes@, 0) == AF_INET as int),
        r is Some ==> {
            let (ip, port) = r.unwrap();
            &&& ip@ == bytes@.subrange(4, 8)
            &&& port as int == spec_u16_at(bytes@, 2)
        },
{
    if bytes.len() < 16 {
        return None;
    }
    let family: u16 = bytes[0] as u16 + bytes[1] as u16 * 256;
    if family != AF_INET {
        return None;
    }
    let port: u16 = bytes[2] as u16 + bytes[3] as u16 * 256;
    let mut ip: Vec<u8> = Vec::new();
    ip.push(bytes[4]);
    ip.push(bytes[5]);
    ip.push(bytes[6]);
    ip.push(bytes[7]);
    proof {
        assert(ip@ =~= bytes@.subrange(4, 8));
    }
    Some((ip, port))
}

/// Builds the image of a version-6 address.
pub fn encode_v6(ip: &Vec<u8>, port: u16, flowinfo: u32, scope_id: u32) -> (r: Vec<u8>)
    requires
        ip@.len() == 16,
    ensures
        r@ == spec_encode_v6(ip@, port, flowinfo, scope_id),
{
    let mut r: Vec<u8> = Vec::new();
    r.push((AF_INET6 % 256) as u8);
    r.push((AF_INET6 / 256) as u8);
    r.push((port % 256) as u8);
    r.push((port / 256) as u8);
    r.push((flowinfo % 256) as u8);
    r.push((flowinfo / 256 % 256) as u8);
    r.push((flowinfo / 65536 % 256) as u8);
    r.push((flowinfo / 16777216) as u8);
    r.push(ip[0]);
    r.push(ip[1]);
    r.push(ip[2]);
    r.push(ip[3]);
    r.push(ip[4]);
    r.push(ip[5]);
    r.push(ip[6]);
    r.push(ip[7]);
    r.push(ip[8]);
    r.push(ip[9]);
    r.push(ip[10]);
    r.push(ip[11]);
    r.push(ip[12]);
    r.push(ip[13]);
    r.push(ip[14]);
    r.push(ip[15]);
    r.push((scope_id % 256) as u8);
    r.push((scope_id / 256 % 256) as u8);
    r.push((scope_id / 65536 % 256) as u8);
    r.push((scope_id / 16777216) as u8);
    proof {
        assert(r@ =~= spec_encode_v6(ip@, port, flowinfo, scope_id));
    }
    r
}

/// Reads a version-6 address image: the address octets, port, flow
/// information and scope.
///
/// The read succeeds exactly when the image is large enough and declares
/// the version-6 family.
pub fn decode_v6(bytes: &Vec<u8>) -> (r: Option<(Vec<u8>, u16, u32, u32)>)
    ensures
        r is Some <==> (bytes@.len() >= 28 && spec_u16_at(bytes@, 0) == AF_INET6 as int),
        r is Some ==> {
            let (ip, port, flowinfo, scope_id) = r.unwrap();
            &&& ip@ == bytes@.subrange(8, 24)
            &&& port as int == spec_u16_at(bytes@, 2)
            &&& flowinfo as int == spec_u32_at(bytes@, 4)
            &&& scope_id as int == spec_u32_at(bytes@, 24)
        },
{
    if bytes.len() < 28 {
        return None;
    }
    let family: u16 = bytes[0] as u16 + bytes[1] as u16 * 256;
    if family != AF_INET6 {
        return None;
    }
    let port: u16 = bytes[2] as u16 + bytes[3] as u16 * 256;
    let flowinfo: u32 = read_u32_at(bytes, 4);
    let scope_id: u32 = read_u32_at(bytes, 24);
    let mut ip: Vec<u8> = Vec::new();
    let mut i: usize = 8;
    while i < 24
        invariant
            8 <= i <= 24,
            bytes@.len() >= 28,
            ip@.len() == i - 8,
            forall|j: int| 0 <= j < ip@.len() ==> ip@[j] == bytes@[j + 8],
        decreases 24 - i,
    {
        ip.push(bytes[i]);
        i = i + 1;
    }
    proof {
        assert(ip@ =~= bytes@.subrange(8, 24));
    }
    Some((ip, port, flowinfo, scope_id))
}

/// Reads the four-byte field at offset `i`.
fn read_u32_at(bytes: &Vec<u8>, i: usize) -> (r: u32)
    requires
        i + 4 <= bytes@.len(),
    ensures
        r as int == spec_u32_at(bytes@, i as int),
{
    proof {
        vstd::std_specs::vec::axiom_spec_len(bytes);
    }
    bytes[i] as u32 + bytes[i + 1] as u32 * 256 + bytes[i + 2] as u32 * 65536 + bytes[i + 3] as u32
        * 16777216
}

/// Round trip for version-4 images: the encoding declares the version-4
/// family in a 16-byte image, and reading it back gives the port and
/// octets it was built from.
pub proof fn lemma_v4_round_trip(ip: Seq<u8>, port: u16)
    requires
        ip.len() == 4,
    ensures
        spec_encode_v4(ip, port).len() == 16,
        spec_u16_at(spec_encode_v4(ip, port), 0) == AF_INET as int,
        spec_u16_at(spec_encode_v4(ip, port), 2) == port as int,
        spec_encode_v4(ip, port).subrange(4, 8) == ip,
{
    assert(spec_encode_v4(ip, port).subrange(4, 8) =~= ip);
}

/// Round trip for version-6 images: the encoding declares the version-6
/// family in a 28-byte image, and reading it back gives the fields it was
/// built from.
pub proof fn lemma_v6_round_trip(ip: Seq<u8>, port: u16, flowinfo: u32, scope_id: u32)
    requires
        ip.len() == 16,
    ensures
        spec_encode_v6(ip, port, flowinfo, scope_id).len() == 28,
        spec_u16_at(spec_encode_v6(ip, port, flowinfo, scope_id), 0) == AF_INET6 as int,
        spec_u16_at(spec_encode_v6(ip, port, flowinfo, scope_id), 2) == port as int,
        spec_u32_at(spec_encode_v6(ip, port, flowinfo, scope_id), 4) == flowinfo as int,
        spec_u32_at(spec_encode_v6(ip, port, flowinfo, scope_id), 24) == scope_id as int,
        spec_encode_v6(ip, port, flowinfo, scope_id).subrange(8, 24) == ip,
{
    let image = spec_encode_v6(ip, port, flowinfo, scope_id);
    assert(image.subrange(8, 24) =~= ip);
    assert(spec_u32_at(image, 4) == flowinfo as int) by {
        assert(image[4] == (flowinfo % 256) as u8);
        assert(image[5] == (flowinfo / 256 % 256) as u8);
        assert(image[6] == (flowinfo / 65536 % 256) as u8);
        assert(image[7] == (flowinfo / 16777216) as u8);
    }
    assert(spec_u32_at(image, 24) == scope_id as int) by {
        assert(image[24] == (scope_id % 256) as u8);
        assert(image[25] == (scope_id / 256 % 256) as u8);
        assert(image[26] == (scope_id / 65536 % 256) as u8);
        assert(image[27] == (scope_id / 16777216) as u8);
    }
}

} // verus!
