use vstd::prelude::*;

verus! {

/// Container formats the engine recompresses.
#[allow(clippy::upper_case_acronyms)]
#[derive(Debug, Clone, Copy, PartialEq, Eq, Structural)]
pub enum ImageType {
    PNG,
    JPEG,
}

/// The eight-byte PNG file signature.
pub open spec fn png_signature() -> Seq<u8> {
    seq![0x89u8, 0x50u8, 0x4eu8, 0x47u8, 0x0du8, 0x0au8, 0x1au8, 0x0au8]
}

/// The JPEG start-of-image marker.
pub open spec fn jpeg_soi() -> Seq<u8> {
    seq![0xffu8, 0xd8u8]
}

/// The JPEG end-of-image marker.
pub open spec fn jpeg_eoi() -> Seq<u8> {
    seq![0xffu8, 0xd9u8]
}

/// A 32-bit value as four big-endian bytes.
pub open spec fn be32(x: u32) -> Seq<u8> {
    seq![(x >> 24u32) as u8, (x >> 16u32) as u8, (x >> 8u32) as u8, x as u8]
}

/// Length and type of a PNG IHDR chunk: thirteen data bytes follow.
pub open spec fn png_ihdr_head() -> Seq<u8> {
    seq![0u8, 0u8, 0u8, 13u8, 0x49u8, 0x48u8, 0x44u8, 0x52u8]
}

/// The PNG IEND chunk: empty data and its fixed checksum.
pub open spec fn png_iend() -> Seq<u8> {
    seq![0u8, 0u8, 0u8, 0u8, 0x49u8, 0x45u8, 0x4eu8, 0x44u8, 0xaeu8, 0x42u8, 0x60u8, 0x82u8]
}

/// `s` ends with the bytes of `p`.
pub open spec fn has_suffix(s: Seq<u8>, p: Seq<u8>) -> bool {
    p.len() <= s.len() && s.subrange(s.len() - p.len(), s.len() as int) == p
}

/// A complete 8-bit indexed PNG stream of the given sides: the signature,
/// then an IHDR chunk with those sides, bit depth 8 and colour type 3
/// (palette indices), and the IEND chunk last.
pub open spec fn indexed_png_framing(s: Seq<u8>, width: u32, height: u32) -> bool {
    &&& s.len() >= 38
    &&& has_prefix(s, png_signature())
    &&& s.subrange(8, 16) == png_ihdr_head()
    &&& s.subrange(16, 20) == be32(width)
    &&& s.subrange(20, 24) == be32(height)
    &&& s[24] == 8
    &&& s[25] == 3
    &&& has_suffix(s, png_iend())
}

/// `s` begins with the bytes of `p`.
pub open spec fn has_prefix(s: Seq<u8>, p: Seq<u8>) -> bool {
    p.len() <= s.len() && s.subrange(0, p.len() as int) == p
}

/// The format a buffer announces by its leading bytes; the PNG signature is tried first.
pub open spec fn format_of(s: Seq<u8>) -> Option<ImageType> {
    if has_prefix(s, png_signature()) {
        Some(ImageType::PNG)
    } else if has_prefix(s, jpeg_soi()) {
        Some(ImageType::JPEG)
    } else {
        None
    }
}

/// Whether `data` begins with `prefix`; reads no byte past `prefix.len()`.
pub fn starts_with(data: &[u8], prefix: &[u8]) -> (r: bool)
    ensures
        r == has_prefix(data@, prefix@),
{
    if prefix.len() > data.len() {
        return false;
    }
    let mut i: usize = 0;
    while i < prefix.len()
        invariant
            i <= prefix@.len() <= data@.len(),
            forall|k: int| 0 <= k < i ==> data@[k] == prefix@[k],
        decreases prefix@.len() - i,
    {
        if data[i] != prefix[i] {
            assert(data@.subrange(0, prefix@.len() as int)[i as int] != prefix@[i as int]);
            return false;
        }
        i += 1;
    }
    assert(data@.subrange(0, prefix@.len() as int) =~= prefix@);
    true
}

fn png_signature_bytes() -> (r: Vec<u8>)
    ensures
        r@ == png_signature(),
{
    let r = vec![0x89u8, 0x50u8, 0x4eu8, 0x47u8, 0x0du8, 0x0au8, 0x1au8, 0x0au8];
    assert(r@ =~= png_signature());
    r
}

fn jpeg_soi_bytes() -> (r: Vec<u8>)
    ensures
        r@ == jpeg_soi(),
{
    let r = vec![0xffu8, 0xd8u8];
    assert(r@ =~= jpeg_soi());
    r
}

impl ImageType {
    /// Sniffs the container format from the buffer's leading bytes.
    pub fn detect_type(data: &[u8]) -> (r: Option<ImageType>)
        ensures
            r == format_of(data@),
    {
        let png = png_signature_bytes();
        if starts_with(data, png.as_slice()) {
            Some(ImageType::PNG)
        } else {
            let soi = jpeg_soi_bytes();
            if starts_with(data, soi.as_slice()) {
                Some(ImageType::JPEG)
            } else {
                None
            }
        }
    }
}

/// A stream that opens with a format's leading bytes is sniffed as that
/// format: what the PNG encoder emits reads back as PNG, what the JPEG
/// encoder emits reads back as JPEG, and neither is empty.
pub proof fn lemma_leading_bytes_detected(s: Seq<u8>)
    ensures
        has_prefix(s, png_signature()) ==> format_of(s) == Some(ImageType::PNG) && s.len() >= 8,
        has_prefix(s, jpeg_soi()) ==> format_of(s) == Some(ImageType::JPEG) && s.len() >= 2,
{
    if has_prefix(s, jpeg_soi()) && has_prefix(s, png_signature()) {
        assert(s.subrange(0, 2)[0] == s[0]);
        assert(s.subrange(0, 8)[0] == s[0]);
        assert(false);
    }
}

} // verus!
