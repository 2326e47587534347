//! Messages travel over a connection as a four-byte big-endian length
//! followed by that many bytes of payload.
use vstd::prelude::*;

verus! {

/// The four big-endian bytes of `n`, most significant first.
pub open spec fn be_bytes(n: u32) -> Seq<u8> {
    seq![
        (n / 0x100_0000) as u8,
        ((n / 0x1_0000) % 0x100) as u8,
        ((n / 0x100) % 0x100) as u8,
        (n % 0x100) as u8,
    ]
}

/// The number that four big-endian bytes stand for.
pub open spec fn be_value(b: Seq<u8>) -> int
    recommends
        b.len() == 4,
{
    b[0] * 0x100_0000 + b[1] * 0x1_0000 + b[2] * 0x100 + b[3]
}

/// The header announcing a payload of `len` bytes.
pub fn frame_header(len: usize) -> (header: [u8; 4])
    requires
        len <= u32::MAX,
    ensures
        header@ == be_bytes(len as u32),
        header[0] == len / 0x100_0000,
        header[1] == (len / 0x1_0000) % 0x100,
        header[2] == (len / 0x100) % 0x100,
        header[3] == len % 0x100,
{
    let n: u32 = len as u32;
    [(n / 0x100_0000) as u8, ((n / 0x1_0000) % 0x100) as u8, ((n / 0x100) % 0x100) as u8, (n
        % 0x100) as u8]
}

/// The payload length that `header` announces.
pub fn frame_length(header: [u8; 4]) -> (len: usize)
    ensures
        len == be_value(header@),
        len == header[0] * 0x100_0000 + header[1] * 0x1_0000 + header[2] * 0x100 + header[3],
{
    let n: u32 = header[0] as u32 * 0x100_0000 + header[1] as u32 * 0x1_0000 + header[2] as u32
        * 0x100 + header[3] as u32;
    n as usize
}

/// Reading back the header of a payload gives the payload's length.
pub proof fn lemma_header_round_trip(n: u32)
    ensures
        be_value(be_bytes(n)) == n,
{
    assert(n / 0x100_0000 < 0x100) by (bit_vector);
    assert((n / 0x100_0000) * 0x100_0000 + ((n / 0x1_0000) % 0x100) * 0x1_0000 + ((n / 0x100)
        % 0x100) * 0x100 + n % 0x100 == n) by (bit_vector);
}

/// Every four bytes are the header of the length they announce.
pub proof fn lemma_length_round_trip(b: Seq<u8>)
    requires
        b.len() == 4,
    ensures
        0 <= be_value(b) <= u32::MAX,
        be_bytes(be_value(b) as u32) == b,
{
    let x0: u32 = b[0] as u32;
    let x1: u32 = b[1] as u32;
    let x2: u32 = b[2] as u32;
    let x3: u32 = b[3] as u32;
    assert(x0 * 0x100_0000 + x1 * 0x1_0000 + x2 * 0x100 + x3 <= 0xffff_ffff) by (bit_vector)
        requires
            x0 < 0x100,
            x1 < 0x100,
            x2 < 0x100,
            x3 < 0x100,
    ;
    let n: u32 = (x0 * 0x100_0000 + x1 * 0x1_0000 + x2 * 0x100 + x3) as u32;
    assert({
        &&& n / 0x100_0000 == x0
        &&& (n / 0x1_0000) % 0x100 == x1
        &&& (n / 0x100) % 0x100 == x2
        &&& n % 0x100 == x3
    }) by (bit_vector)
        requires
            x0 < 0x100,
            x1 < 0x100,
            x2 < 0x100,
            x3 < 0x100,
            n == x0 * 0x100_0000 + x1 * 0x1_0000 + x2 * 0x100 + x3,
    ;
    assert(be_bytes(n) =~= b);
}

/// A header is four bytes, the length's most significant byte first: each
/// byte holds the next eight bits of the length, from the top down.
pub proof fn lemma_header_is_big_endian(n: u32, b: Seq<u8>)
    requires
        b.len() == 4,
    ensures
        be_bytes(n).len() == 4,
        be_bytes(n)[0] == n / 0x100_0000,
        be_bytes(n)[1] == (n / 0x1_0000) % 0x100,
        be_bytes(n)[2] == (n / 0x100) % 0x100,
        be_bytes(n)[3] == n % 0x100,
        be_value(b) == b[0] * 0x100_0000 + b[1] * 0x1_0000 + b[2] * 0x100 + b[3],
{
    assert(n / 0x100_0000 < 0x100) by (bit_vector);
}

} // verus!
