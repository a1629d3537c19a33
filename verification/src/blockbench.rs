//! The parts of a model project that are computed rather than written out:
//! its constants, the identifiers of its elements, and its textures.

use crate::hex::{hexadecimal, push_hexadecimal};
use crate::uv::CubeFaceUvs;
use vstd::prelude::*;
use vstd::string::*;

verus! {

/// The header of a model project.
#[derive(Clone, Copy, Debug)]
pub struct ProjectMeta {
    pub format_version: &'static str,
    pub model_format: &'static str,
    pub box_uv: bool,
}

impl Default for ProjectMeta {
    fn default() -> (meta: Self)
        ensures
            meta.format_version@ == "4.5"@,
            meta.model_format@ == "free"@,
            !meta.box_uv,
    {
        Self { format_version: "4.5", model_format: "free", box_uv: false }
    }
}

/// The 128-bit XXH3 hash of `input`, with seed zero.
pub uninterp spec fn xxh3_128_of(input: Seq<u8>) -> u128;

/// Calls `xxhash_rust::xxh3::xxh3_128`, which hashes its input and nothing
/// else.
#[verifier::external_body]
fn xxh3(input: &[u8]) -> (hash: u128)
    ensures
        hash == xxh3_128_of(input@),
{
    xxhash_rust::xxh3::xxh3_128(input)
}

/// Byte `index` of a 128-bit number, counted from its most significant byte.
pub open spec fn big_endian_byte(value: u128, index: int) -> u8 {
    ((value >> ((8 * (15 - index)) as u128)) & 0xff) as u8
}

/// The byte with its upper half set to the version of a random identifier.
pub open spec fn with_version_4(byte: u8) -> u8 {
    (byte & 0x0f) | 0x40
}

/// `bytes` are the big-endian bytes of `hash`, with the version of a random
/// identifier in the upper half of byte 6.
pub open spec fn is_uuid_of(bytes: Seq<u8>, hash: u128) -> bool {
    &&& bytes.len() == 16
    &&& forall|index: int|
        0 <= index < 16 && index != 6 ==> bytes[index] == big_endian_byte(hash, index)
    &&& bytes[6] == with_version_4(big_endian_byte(hash, 6))
}

/// The identifier that a 128-bit hash stands for.
pub fn uuid_from_hash(hash: u128) -> (bytes: [u8; 16])
    ensures
        is_uuid_of(bytes@, hash),
{
    let mut bytes: [u8; 16] = [0;16];
    let mut index: usize = 0;
    while index < 16
        invariant
            index <= 16,
            forall|k: int| 0 <= k < index ==> bytes@[k] == big_endian_byte(hash, k),
        decreases 16 - index,
    {
        let shift: u128 = (8 * (15 - index)) as u128;
        let byte: u128 = (hash >> shift) & 0xff;
        assert(byte <= 0xff) by (bit_vector)
            requires
                byte == (hash >> shift) & 0xff,
        ;
        bytes[index] = byte as u8;
        index += 1;
    }
    let sixth = bytes[6];
    bytes[6] = (sixth & 0x0f) | 0x40;
    bytes
}

/// The identifier of an element or texture: derived from its name alone, so
/// that the same name always gives the same identifier.
pub fn str_to_uuid(s: &str) -> (bytes: [u8; 16])
    ensures
        is_uuid_of(bytes@, xxh3_128_of(vstd::utf8::encode_utf8(s@))),
{
    uuid_from_hash(xxh3(s.as_bytes()))
}

/// The standard base64 encoding of `input`, with padding.
pub uninterp spec fn base64_of(input: Seq<u8>) -> Seq<char>;

/// The largest input that can be encoded: the encoding is a third longer
/// and must fit the machine's sizes.
pub open spec fn fits_base64(length: nat) -> bool {
    (length / 3) * 4 + 4 <= usize::MAX
}

/// Calls `Engine::encode` on the `STANDARD` engine of `base64`, which fails
/// only where the length of the encoding overflows.
#[verifier::external_body]
fn encode_base64(input: &[u8]) -> (encoded: String)
    requires
        fits_base64(input@.len()),
    ensures
        encoded@ == base64_of(input@),
{
    base64::Engine::encode(&base64::engine::general_purpose::STANDARD, input)
}

/// The data address of a PNG image with the given base64 encoding.
pub fn png_data_url(encoded: &str) -> (url: String)
    ensures
        url@ == "data:image/png;base64,"@ + encoded@,
{
    let mut url = String::from_str("data:image/png;base64,");
    url.append(encoded);
    url
}

/// A texture of a model project.
#[derive(Debug)]
pub struct RawProjectTexture {
    pub name: String,
    pub id: u32,
    pub path: &'static str,
    pub mode: &'static str,
    pub visible: bool,
    pub saved: bool,
    pub uuid: [u8; 16],
    pub source: String,
}

impl RawProjectTexture {
    /// The texture named `name` with the PNG image `source` embedded in it.
    pub fn new(name: String, id: u32, source: &[u8]) -> (texture: Self)
        requires
            fits_base64(source@.len()),
        ensures
            texture.name == name,
            texture.id == id,
            texture.path@ == ""@,
            texture.mode@ == "bitmap"@,
            texture.visible,
            !texture.saved,
            is_uuid_of(texture.uuid@, xxh3_128_of(vstd::utf8::encode_utf8(name@))),
            texture.source@ == "data:image/png;base64,"@ + base64_of(source@),
    {
        let uuid = str_to_uuid(name.as_str());
        let encoded = encode_base64(source);
        Self {
            path: "",
            uuid,
            name,
            id,
            mode: "bitmap",
            visible: true,
            saved: false,
            source: png_data_url(encoded.as_str()),
        }
    }

    /// Whether an image is short enough to be embedded.
    pub fn can_embed(source: &[u8]) -> (ok: bool)
        ensures
            ok == fits_base64(source@.len()),
    {
        source.len() / 3 <= (usize::MAX - 4) / 4
    }
}

/// Calls `Uuid::new_v4` and `Uuid::as_u64_pair`: the two halves of a fresh
/// random identifier. Nothing is claimed of them.
#[verifier::external_body]
fn random_pair() -> (pair: (u64, u64)) {
    uuid::Uuid::new_v4().as_u64_pair()
}

/// Two names made unique by a number each, written in hexadecimal behind
/// them.
pub fn numbered_names(a: &str, b: &str, numbers: (u64, u64)) -> (names: (String, String))
    ensures
        names.0@ == a@ + hexadecimal(numbers.0 as nat),
        names.1@ == b@ + hexadecimal(numbers.1 as nat),
{
    let mut first = String::from_str(a);
    push_hexadecimal(&mut first, numbers.0);
    let mut second = String::from_str(b);
    push_hexadecimal(&mut second, numbers.1);
    (first, second)
}

/// Two names for the vertices of a mesh, each followed by a random number
/// of its own.
pub fn random_names(a: &str, b: &str) -> (names: (String, String))
    ensures
        exists|numbers: (u64, u64)|
            names.0@ == a@ + #[trigger] hexadecimal(numbers.0 as nat) && names.1@ == b@
                + hexadecimal(numbers.1 as nat),
{
    let numbers = random_pair();
    numbered_names(a, b, numbers)
}

/// The texture rectangles of a box as a model project shows them: the top
/// face flipped both ways and the bottom face flipped horizontally.
pub fn project_face_uvs(faces: CubeFaceUvs) -> (shown: CubeFaceUvs)
    ensures
        shown == (CubeFaceUvs {
            north: faces.north,
            south: faces.south,
            east: faces.east,
            west: faces.west,
            up: faces.up.flipped_horizontally().flipped_vertically(),
            down: faces.down.flipped_horizontally(),
        }),
{
    CubeFaceUvs {
        north: faces.north,
        south: faces.south,
        east: faces.east,
        west: faces.west,
        up: faces.up.flip_horizontally().flip_vertically(),
        down: faces.down.flip_horizontally(),
    }
}

} // verus!
