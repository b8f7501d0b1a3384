//! Pull-based, content-addressed sharing of image assets.
//!
//! An asset owner records `{content id <-> local handle}` pairs in its
//! registry; a peer that meets a replicated reference it cannot resolve
//! asks the owner for the bytes, and the owner answers with the image in
//! an explicit wire form: raw bytes, dimensions, and one of a small fixed
//! set of pixel formats. Encoding fails cleanly on any format outside
//! that set, decoding rejects malformed payloads, and applying the same
//! payload twice leaves the mirror exactly as applying it once.

use vstd::prelude::*;
use vstd::arithmetic::div_mod::{
    lemma_fundamental_div_mod, lemma_small_mod,
};
use vstd::arithmetic::div_mod::lemma_multiply_divide_lt;
use std::collections::HashMap;

verus! {

broadcast use vstd::std_specs::hash::group_hash_axioms;

/// Width and height of an image, in pixels.
#[derive(Clone, Copy, Debug, PartialEq, Eq, Structural)]
pub struct UVec2 {
    pub x: u32,
    pub y: u32,
}

/// The texture formats an image asset may arrive in locally; only some
/// of them are safe to put on the wire.
#[derive(Clone, Copy, Debug, PartialEq, Eq, Structural)]
pub enum TextureFormat {
    R8Unorm,
    Rg8Unorm,
    Bgra8Unorm,
    Rgba8UnormSrgb,
    Bgra8UnormSrgb,
    Rgba16Uint,
    Depth24Plus,
    Bc1RgbaUnorm,
}

/// The small fixed set of pixel formats the wire encoding admits.
#[derive(Clone, Copy, Debug, PartialEq, Eq, Structural)]
pub enum SharableFormat {
    R8Unorm,
    Rg8Unorm,
    Bgra8Unorm,
    Rgba8UnormSrgb,
    Bgra8UnormSrgb,
}

/// Whether a local texture format may cross the wire.
pub open spec fn supported(f: TextureFormat) -> bool {
    match f {
        TextureFormat::R8Unorm => true,
        TextureFormat::Rg8Unorm => true,
        TextureFormat::Bgra8Unorm => true,
        TextureFormat::Rgba8UnormSrgb => true,
        TextureFormat::Bgra8UnormSrgb => true,
        _ => false,
    }
}

/// The wire form of a supported local format.
pub open spec fn wire_format_of(f: TextureFormat) -> SharableFormat {
    match f {
        TextureFormat::Rg8Unorm => SharableFormat::Rg8Unorm,
        TextureFormat::Bgra8Unorm => SharableFormat::Bgra8Unorm,
        TextureFormat::Rgba8UnormSrgb => SharableFormat::Rgba8UnormSrgb,
        TextureFormat::Bgra8UnormSrgb => SharableFormat::Bgra8UnormSrgb,
        _ => SharableFormat::R8Unorm,
    }
}

/// The local format a wire format decodes back to.
pub open spec fn texture_format_of(f: SharableFormat) -> TextureFormat {
    match f {
        SharableFormat::R8Unorm => TextureFormat::R8Unorm,
        SharableFormat::Rg8Unorm => TextureFormat::Rg8Unorm,
        SharableFormat::Bgra8Unorm => TextureFormat::Bgra8Unorm,
        SharableFormat::Rgba8UnormSrgb => TextureFormat::Rgba8UnormSrgb,
        SharableFormat::Bgra8UnormSrgb => TextureFormat::Bgra8UnormSrgb,
    }
}

/// A supported format survives the trip onto the wire and back.
pub proof fn lemma_format_round_trip(f: TextureFormat)
    requires
        supported(f),
    ensures
        texture_format_of(wire_format_of(f)) == f,
{
}

/// An image asset as this peer holds it: raw bytes, dimensions, and the
/// local texture format.
#[derive(Debug)]
pub struct Image {
    pub data: Vec<u8>,
    pub size: UVec2,
    pub format: TextureFormat,
}

/// Two images with the same bytes, dimensions and format.
pub open spec fn same_image(a: Image, b: Image) -> bool {
    a.data@ == b.data@ && a.size == b.size && a.format == b.format
}

/// The wire form of an image asset: an explicit format descriptor over
/// raw bytes.
#[derive(Debug)]
pub struct SharableImage {
    pub data: Vec<u8>,
    pub size: UVec2,
    pub format: SharableFormat,
}

/// What encoding an image yields: its bytes and dimensions under the
/// wire form of its format, or nothing when the format cannot cross.
pub open spec fn from_image_ok(image: Image, s: SharableImage) -> bool {
    &&& supported(image.format)
    &&& s.data@ == image.data@
    &&& s.size == image.size
    &&& s.format == wire_format_of(image.format)
}

/// What decoding a wire image yields: the same bytes and dimensions under
/// the local form of the wire format.
pub open spec fn to_image_ok(s: SharableImage, image: Image) -> bool {
    &&& image.data@ == s.data@
    &&& image.size == s.size
    &&& image.format == texture_format_of(s.format)
}

/// Wire round trip law: any image in a supported format can be encoded,
/// and decoding the encoding restores its exact bytes, dimensions and
/// format; an unsupported format never encodes at all.
pub proof fn lemma_image_round_trip(image: Image, s: SharableImage, back: Image)
    requires
        from_image_ok(image, s),
        to_image_ok(s, back),
    ensures
        same_image(back, image),
{
    lemma_format_round_trip(image.format);
}

/// Copy a byte buffer.
fn clone_bytes(v: &Vec<u8>) -> (r: Vec<u8>)
    ensures
        r@ == v@,
{
    let mut r: Vec<u8> = Vec::new();
    let mut i: usize = 0;
    while i < v.len()
        invariant
            i <= v@.len(),
            r@ =~= v@.take(i as int),
        decreases v@.len() - i,
    {
        r.push(v[i]);
        proof {
            assert(v@.take(i + 1) =~= v@.take(i as int).push(v@[i as int]));
        }
        i += 1;
    }
    proof {
        assert(v@.take(v@.len() as int) =~= v@);
    }
    r
}

impl SharableImage {
    /// Encode a local image for the wire; fails cleanly, returning
    /// nothing, when the source format is outside the supported set.
    pub fn from_image(image: &Image) -> (r: Option<SharableImage>)
        ensures
            match r {
                Some(s) => from_image_ok(*image, s),
                None => !supported(image.format),
            },
    {
        let format = match image.format {
            TextureFormat::R8Unorm => SharableFormat::R8Unorm,
            TextureFormat::Rg8Unorm => SharableFormat::Rg8Unorm,
            TextureFormat::Bgra8Unorm => SharableFormat::Bgra8Unorm,
            TextureFormat::Rgba8UnormSrgb => SharableFormat::Rgba8UnormSrgb,
            TextureFormat::Bgra8UnormSrgb => SharableFormat::Bgra8UnormSrgb,
            _ => {
                return None;
            },
        };
        let data = clone_bytes(&image.data);
        Some(SharableImage { data, size: image.size, format })
    }

    /// Decode this wire image into a local asset, leaving the wire copy
    /// in place.
    pub fn to_image(&self) -> (r: Image)
        ensures
            to_image_ok(*self, r),
    {
        let data = clone_bytes(&self.data);
        let format = match self.format {
            SharableFormat::R8Unorm => TextureFormat::R8Unorm,
            SharableFormat::Rg8Unorm => TextureFormat::Rg8Unorm,
            SharableFormat::Bgra8Unorm => TextureFormat::Bgra8Unorm,
            SharableFormat::Rgba8UnormSrgb => TextureFormat::Rgba8UnormSrgb,
            SharableFormat::Bgra8UnormSrgb => TextureFormat::Bgra8UnormSrgb,
        };
        Image { data, size: self.size, format }
    }

    /// Decode this wire image into a local asset, consuming it.
    pub fn into_image(self) -> (r: Image)
        ensures
            to_image_ok(self, r),
            r.data == self.data,
            r.size == self.size,
            r.format == texture_format_of(self.format),
    {
        let format = match self.format {
            SharableFormat::R8Unorm => TextureFormat::R8Unorm,
            SharableFormat::Rg8Unorm => TextureFormat::Rg8Unorm,
            SharableFormat::Bgra8Unorm => TextureFormat::Bgra8Unorm,
            SharableFormat::Rgba8UnormSrgb => TextureFormat::Rgba8UnormSrgb,
            SharableFormat::Bgra8UnormSrgb => TextureFormat::Bgra8UnormSrgb,
        };
        Image { data: self.data, size: self.size, format }
    }
}

impl Image {
    /// The wire form of this asset, when its format can cross.
    pub fn to_sharable(&self) -> (r: Option<SharableImage>)
        ensures
            match r {
                Some(s) => from_image_ok(*self, s),
                None => !supported(self.format),
            },
    {
        SharableImage::from_image(self)
    }

    /// A local asset rebuilt from its wire form.
    pub fn from_sharable(sharable: &SharableImage) -> (r: Image)
        ensures
            to_image_ok(*sharable, r),
    {
        sharable.to_image()
    }
}

/// How many bytes one pixel takes in each wire format.
pub open spec fn bytes_per_pixel(f: SharableFormat) -> int {
    match f {
        SharableFormat::R8Unorm => 1,
        SharableFormat::Rg8Unorm => 2,
        SharableFormat::Bgra8Unorm => 4,
        SharableFormat::Rgba8UnormSrgb => 4,
        SharableFormat::Bgra8UnormSrgb => 4,
    }
}

/// A wire image whose byte count matches its descriptor.
pub open spec fn wf_sharable(s: SharableImage) -> bool {
    s.data@.len() == bytes_per_pixel(s.format) * s.size.x * s.size.y
}

/// The byte tag of each wire format.
pub open spec fn format_tag(f: SharableFormat) -> u8 {
    match f {
        SharableFormat::R8Unorm => 0,
        SharableFormat::Rg8Unorm => 1,
        SharableFormat::Bgra8Unorm => 2,
        SharableFormat::Rgba8UnormSrgb => 3,
        SharableFormat::Bgra8UnormSrgb => 4,
    }
}

pub open spec fn valid_tag(t: u8) -> bool {
    t <= 4
}

pub open spec fn format_of_tag(t: u8) -> SharableFormat {
    if t == 0 {
        SharableFormat::R8Unorm
    } else if t == 1 {
        SharableFormat::Rg8Unorm
    } else if t == 2 {
        SharableFormat::Bgra8Unorm
    } else if t == 3 {
        SharableFormat::Rgba8UnormSrgb
    } else {
        SharableFormat::Bgra8UnormSrgb
    }
}

/// A tag survives the trip through the byte stream.
pub proof fn lemma_tag_round_trip(f: SharableFormat)
    ensures
        valid_tag(format_tag(f)),
        format_of_tag(format_tag(f)) == f,
{
}

/// The four little-endian bytes of a 32-bit value.
pub open spec fn le32(w: int) -> Seq<u8> {
    seq![
        (w % 256) as u8,
        ((w / 256) % 256) as u8,
        (((w / 256) / 256) % 256) as u8,
        ((((w / 256) / 256) / 256) % 256) as u8,
    ]
}

/// The value four little-endian bytes denote.
pub open spec fn le32_val(b: Seq<u8>) -> int {
    b[0] + b[1] * 256 + b[2] * 65536 + b[3] * 16777216
}

/// A 32-bit value survives the trip through its little-endian bytes.
pub proof fn lemma_le32_round_trip(w: int)
    requires
        0 <= w < 0x1_0000_0000,
    ensures
        le32_val(le32(w)) == w,
{
    let r1 = w / 256;
    let r2 = r1 / 256;
    let r3 = r2 / 256;
    lemma_fundamental_div_mod(w, 256);
    lemma_fundamental_div_mod(r1, 256);
    lemma_fundamental_div_mod(r2, 256);
    lemma_multiply_divide_lt(w, 0x100_0000, 256);
    lemma_multiply_divide_lt(r1, 0x1_0000, 256);
    lemma_multiply_divide_lt(r2, 0x100, 256);
    lemma_small_mod(r3 as nat, 256);
}

/// The byte stream an asset payload travels as: one format tag, the two
/// dimensions in little-endian order, then the raw bytes.
pub open spec fn encode_spec(s: SharableImage) -> Seq<u8> {
    seq![format_tag(s.format)] + le32(s.size.x as int) + le32(s.size.y as int) + s.data@
}

/// Whether a byte stream carries a well-formed asset payload.
pub open spec fn wire_parsable(b: Seq<u8>) -> bool {
    &&& b.len() >= 9
    &&& valid_tag(b[0])
    &&& b.len() - 9 == bytes_per_pixel(format_of_tag(b[0])) * le32_val(b.subrange(1, 5))
        * le32_val(b.subrange(5, 9))
}

/// Push the four little-endian bytes of `w`.
fn push_le32(out: &mut Vec<u8>, w: u32)
    ensures
        final(out)@ =~= old(out)@ + le32(w as int),
{
    let b0 = (w % 256) as u8;
    let r1 = w / 256;
    let b1 = (r1 % 256) as u8;
    let r2 = r1 / 256;
    let b2 = (r2 % 256) as u8;
    let r3 = r2 / 256;
    let b3 = (r3 % 256) as u8;
    out.push(b0);
    out.push(b1);
    out.push(b2);
    out.push(b3);
}

/// Encode a well-formed wire image into its byte stream.
pub fn encode_sharable(s: &SharableImage) -> (r: Vec<u8>)
    requires
        s.data@.len() <= usize::MAX - 9,
    ensures
        r@ =~= encode_spec(*s),
{
    let mut out: Vec<u8> = Vec::new();
    let tag: u8 = match s.format {
        SharableFormat::R8Unorm => 0,
        SharableFormat::Rg8Unorm => 1,
        SharableFormat::Bgra8Unorm => 2,
        SharableFormat::Rgba8UnormSrgb => 3,
        SharableFormat::Bgra8UnormSrgb => 4,
    };
    out.push(tag);
    push_le32(&mut out, s.size.x);
    push_le32(&mut out, s.size.y);
    let ghost header = out@;
    let mut i: usize = 0;
    while i < s.data.len()
        invariant
            i <= s.data@.len(),
            out@ =~= header + s.data@.take(i as int),
        decreases s.data@.len() - i,
    {
        out.push(s.data[i]);
        proof {
            assert(s.data@.take(i + 1) =~= s.data@.take(i as int).push(s.data@[i as int]));
        }
        i += 1;
    }
    proof {
        assert(s.data@.take(s.data@.len() as int) =~= s.data@);
    }
    out
}

/// Decode an asset payload's byte stream; a malformed stream — too
/// short, an unknown format tag, or a byte count that contradicts the
/// descriptor — is rejected, never misread.
pub fn decode_sharable(b: &[u8]) -> (r: Option<SharableImage>)
    ensures
        match r {
            Some(s) => {
                &&& wire_parsable(b@)
                &&& s.format == format_of_tag(b@[0])
                &&& s.size.x == le32_val(b@.subrange(1, 5))
                &&& s.size.y == le32_val(b@.subrange(5, 9))
                &&& s.data@ == b@.skip(9)
                &&& wf_sharable(s)
            },
            None => !wire_parsable(b@),
        },
{
    if b.len() < 9 {
        return None;
    }
    let tag = b[0];
    if tag > 4 {
        return None;
    }
    let format = if tag == 0 {
        SharableFormat::R8Unorm
    } else if tag == 1 {
        SharableFormat::Rg8Unorm
    } else if tag == 2 {
        SharableFormat::Bgra8Unorm
    } else if tag == 3 {
        SharableFormat::Rgba8UnormSrgb
    } else {
        SharableFormat::Bgra8UnormSrgb
    };
    let x: u32 = (b[1] as u32) + (b[2] as u32) * 256 + (b[3] as u32) * 65536 + (b[4] as u32)
        * 16777216;
    let y: u32 = (b[5] as u32) + (b[6] as u32) * 256 + (b[7] as u32) * 65536 + (b[8] as u32)
        * 16777216;
    proof {
        assert(x == le32_val(b@.subrange(1, 5)));
        assert(y == le32_val(b@.subrange(5, 9)));
    }
    let bpp: u64 = match format {
        SharableFormat::R8Unorm => 1,
        SharableFormat::Rg8Unorm => 2,
        _ => 4,
    };
    proof {
        vstd::arithmetic::mul::lemma_mul_upper_bound(bpp as int, 4, x as int, 0xFFFF_FFFF);
        vstd::arithmetic::mul::lemma_mul_nonnegative(bpp as int, x as int);
        vstd::arithmetic::mul::lemma_mul_upper_bound(
            (bpp as int) * (x as int),
            4 * 0xFFFF_FFFFint,
            y as int,
            0xFFFF_FFFF,
        );
        vstd::arithmetic::mul::lemma_mul_nonnegative((bpp as int) * (x as int), y as int);
    }
    let expected: u128 = (bpp as u128) * (x as u128) * (y as u128);
    if (b.len() - 9) as u128 != expected {
        return None;
    }
    let mut data: Vec<u8> = Vec::new();
    let mut i: usize = 9;
    while i < b.len()
        invariant
            9 <= i <= b@.len(),
            data@ =~= b@.subrange(9, i as int),
        decreases b@.len() - i,
    {
        data.push(b[i]);
        proof {
            assert(b@.subrange(9, i + 1) =~= b@.subrange(9, i as int).push(b@[i as int]));
        }
        i += 1;
    }
    proof {
        assert(b@.skip(9) =~= b@.subrange(9, b@.len() as int));
    }
    Some(SharableImage { data, size: UVec2 { x, y }, format })
}

/// Payload stream law: a well-formed wire image parses back out of its
/// own byte stream with its exact format, dimensions and bytes.
pub proof fn lemma_wire_round_trip(s: SharableImage)
    requires
        wf_sharable(s),
    ensures
        wire_parsable(encode_spec(s)),
        format_of_tag(encode_spec(s)[0]) == s.format,
        le32_val(encode_spec(s).subrange(1, 5)) == s.size.x,
        le32_val(encode_spec(s).subrange(5, 9)) == s.size.y,
        encode_spec(s).skip(9) =~= s.data@,
{
    let e = encode_spec(s);
    lemma_tag_round_trip(s.format);
    assert(e[0] == format_tag(s.format));
    assert(e.subrange(1, 5) =~= le32(s.size.x as int));
    assert(e.subrange(5, 9) =~= le32(s.size.y as int));
    lemma_le32_round_trip(s.size.x as int);
    lemma_le32_round_trip(s.size.y as int);
    assert(e.skip(9) =~= s.data@);
}

/// The bidirectional registry of shared assets this peer owns or has
/// resolved: content id to local handle and back, always mutually
/// inverse.
#[derive(Debug)]
pub struct SharedAssets {
    pub id_to_handle: HashMap<u128, u64>,
    pub handle_to_id: HashMap<u64, u128>,
}

impl SharedAssets {
    /// The two directions of the registry agree.
    pub open spec fn wf(self) -> bool {
        &&& forall|u: u128|
            self.id_to_handle@.contains_key(u) ==> {
                &&& self.handle_to_id@.contains_key(#[trigger] self.id_to_handle@[u])
                &&& self.handle_to_id@[self.id_to_handle@[u]] == u
            }
        &&& forall|h: u64|
            self.handle_to_id@.contains_key(h) ==> {
                &&& self.id_to_handle@.contains_key(#[trigger] self.handle_to_id@[h])
                &&& self.id_to_handle@[self.handle_to_id@[h]] == h
            }
    }
}

impl Default for SharedAssets {
    /// An empty registry.
    fn default() -> (r: SharedAssets)
        ensures
            r.id_to_handle@ == Map::<u128, u64>::empty(),
            r.handle_to_id@ == Map::<u64, u128>::empty(),
            r.wf(),
    {
        SharedAssets { id_to_handle: HashMap::new(), handle_to_id: HashMap::new() }
    }
}

/// Relies on uuid::Uuid::new_v4: draws a fresh random 128-bit content
/// identifier. Nothing is promised of the draw.
#[verifier::external_body]
fn mint_uuid() -> u128 {
    uuid::Uuid::new_v4().as_u128()
}

impl SharedAssets {
    /// Record the pair `{id <-> handle}`, dropping whatever either side
    /// was paired with before, so the registry stays mutually inverse.
    pub fn insert_pair(&mut self, id: u128, handle: u64)
        requires
            old(self).wf(),
        ensures
            final(self).wf(),
            final(self).id_to_handle@ == (if old(self).handle_to_id@.contains_key(handle) {
                old(self).id_to_handle@.remove(old(self).handle_to_id@[handle])
            } else {
                old(self).id_to_handle@
            }).insert(id, handle),
            final(self).handle_to_id@ == (if old(self).id_to_handle@.contains_key(id) {
                old(self).handle_to_id@.remove(old(self).id_to_handle@[id])
            } else {
                old(self).handle_to_id@
            }).insert(handle, id),
    {
        match self.handle_to_id.get(&handle) {
            Some(stale_id) => {
                let stale_id = *stale_id;
                self.id_to_handle.remove(&stale_id);
            },
            None => {},
        }
        match self.id_to_handle.get(&id) {
            Some(stale_handle) => {
                let stale_handle = *stale_handle;
                self.handle_to_id.remove(&stale_handle);
            },
            None => {},
        }
        self.id_to_handle.insert(id, handle);
        self.handle_to_id.insert(handle, id);
    }

    /// Owner-side loading of a shared asset: the asset is already loaded
    /// locally under `handle`; mint a fresh content id for it, record the
    /// pair, and return the id for embedding in replicated references.
    pub fn load_shared(&mut self, handle: u64) -> (id: u128)
        requires
            old(self).wf(),
        ensures
            final(self).wf(),
            final(self).id_to_handle@.contains_key(id),
            final(self).id_to_handle@[id] == handle,
            final(self).handle_to_id@.contains_key(handle),
            final(self).handle_to_id@[handle] == id,
    {
        let id = mint_uuid();
        self.insert_pair(id, handle);
        id
    }

    /// The local handle recorded for a content id, if this peer has one.
    pub fn handle_of(&self, id: u128) -> (r: Option<u64>)
        ensures
            match r {
                Some(h) => self.id_to_handle@.contains_key(id) && h == self.id_to_handle@[id],
                None => !self.id_to_handle@.contains_key(id),
            },
    {
        match self.id_to_handle.get(&id) {
            Some(h) => Some(*h),
            None => None,
        }
    }

    /// The content id recorded for a local handle, if it is shared.
    pub fn id_of(&self, handle: u64) -> (r: Option<u128>)
        ensures
            match r {
                Some(u) => self.handle_to_id@.contains_key(handle) && u
                    == self.handle_to_id@[handle],
                None => !self.handle_to_id@.contains_key(handle),
            },
    {
        match self.handle_to_id.get(&handle) {
            Some(u) => Some(*u),
            None => None,
        }
    }
}

/// A peer's local store of loaded image assets, by local handle.
#[derive(Debug)]
pub struct AssetStore(pub HashMap<u64, Image>);

impl AssetStore {
    pub fn new() -> (r: AssetStore)
        ensures
            r.0@ == Map::<u64, Image>::empty(),
    {
        AssetStore(HashMap::new())
    }

    /// Load an image under a local handle, as the asset server does for
    /// the owner at startup.
    pub fn insert(&mut self, handle: u64, image: Image)
        ensures
            final(self).0@ == old(self).0@.insert(handle, image),
    {
        self.0.insert(handle, image);
    }
}

/// A requesting peer's mirror of resolved shared assets, keyed by the
/// content id the placeholder handle is derived from.
#[derive(Debug)]
pub struct MirroredAssets(pub HashMap<u128, Image>);

impl MirroredAssets {
    pub fn new() -> (r: MirroredAssets)
        ensures
            r.0@ == Map::<u128, Image>::empty(),
    {
        MirroredAssets(HashMap::new())
    }

    /// Whether the content id is already resolved here.
    pub fn contains(&self, id: u128) -> (r: bool)
        ensures
            r == self.0@.contains_key(id),
    {
        self.0.contains_key(&id)
    }
}

/// A peer's plea for the bytes behind a content id it cannot resolve.
#[derive(Clone, Copy, Debug, PartialEq, Eq, Structural)]
pub struct RequestAssetMessage {
    pub id: u128,
}

impl RequestAssetMessage {
    pub fn new(uuid: u128) -> (r: RequestAssetMessage)
        ensures
            r.id == uuid,
    {
        RequestAssetMessage { id: uuid }
    }
}

/// The owner's answer: the content id and the asset in wire form.
#[derive(Debug)]
pub struct SendAssetMessage {
    pub id: u128,
    pub data: SharableImage,
}

/// Owner-side handling of one asset request: answer with the encoded
/// asset exactly when the id is shared here, its handle is loaded, and
/// its format can cross the wire; stay silent otherwise — an unknown id
/// is not an error, the asset may belong to another owner.
pub fn send_requested_asset(
    registry: &SharedAssets,
    store: &AssetStore,
    request: &RequestAssetMessage,
) -> (r: Option<SendAssetMessage>)
    ensures
        match r {
            Some(msg) => {
                &&& registry.id_to_handle@.contains_key(request.id)
                &&& store.0@.contains_key(registry.id_to_handle@[request.id])
                &&& supported(store.0@[registry.id_to_handle@[request.id]].format)
                &&& msg.id == request.id
                &&& from_image_ok(store.0@[registry.id_to_handle@[request.id]], msg.data)
            },
            None => {
                ||| !registry.id_to_handle@.contains_key(request.id)
                ||| !store.0@.contains_key(registry.id_to_handle@[request.id])
                ||| !supported(store.0@[registry.id_to_handle@[request.id]].format)
            },
        },
{
    let handle = match registry.handle_of(request.id) {
        Some(h) => h,
        None => {
            return None;
        },
    };
    let image = match store.0.get(&handle) {
        Some(img) => img,
        None => {
            return None;
        },
    };
    match image.to_sharable() {
        Some(sharable) => Some(SendAssetMessage { id: request.id, data: sharable }),
        None => None,
    }
}

/// Requester-side handling of one asset payload: decode it under its
/// embedded descriptor and store it under the content id, replacing the
/// placeholder — or an earlier copy, with equivalent content.
pub fn recieve_requested_asset(assets: &mut MirroredAssets, msg: SendAssetMessage)
    ensures
        final(assets).0@ == old(assets).0@.insert(
            msg.id,
            Image {
                data: msg.data.data,
                size: msg.data.size,
                format: texture_format_of(msg.data.format),
            },
        ),
{
    let id = msg.id;
    let image = msg.data.into_image();
    assets.0.insert(id, image);
}

/// Idempotence law: applying the same asset payload twice leaves the
/// mirror exactly as applying it once.
pub proof fn lemma_payload_idempotent(m: Map<u128, Image>, id: u128, image: Image)
    ensures
        m.insert(id, image).insert(id, image) =~= m.insert(id, image),
{
}

/// Requester-side pass over freshly replicated token entities: for each
/// shared-asset reference whose content id is not resolved locally, the
/// dependent systems proceed on a placeholder handle derived from the id,
/// and exactly one request for the bytes is emitted.
pub fn init_replicated_tokens(assets: &MirroredAssets, refs: &Vec<crate::protocol::SharedAsset>) -> (requests: Vec<
    RequestAssetMessage,
>)
    ensures
        requests@ =~= refs@.filter(
            |a: crate::protocol::SharedAsset| !assets.0@.contains_key(a.id),
        ).map_values(|a: crate::protocol::SharedAsset| RequestAssetMessage { id: a.id }),
{
    let mut requests: Vec<RequestAssetMessage> = Vec::new();
    let mut i: usize = 0;
    while i < refs.len()
        invariant
            i <= refs@.len(),
            requests@ =~= refs@.take(i as int).filter(
                |a: crate::protocol::SharedAsset| !assets.0@.contains_key(a.id),
            ).map_values(|a: crate::protocol::SharedAsset| RequestAssetMessage { id: a.id }),
        decreases refs@.len() - i,
    {
        proof {
            assert(refs@.take(i + 1).drop_last() =~= refs@.take(i as int));
            reveal_with_fuel(Seq::filter, 2);
        }
        let a = refs[i];
        if !assets.contains(a.id) {
            requests.push(RequestAssetMessage { id: a.id });
        }
        i += 1;
    }
    proof {
        assert(refs@.take(refs@.len() as int) =~= refs@);
    }
    requests
}

} // verus!
