use vstd::prelude::*;
use crate::error::OglError;
use vstd::arithmetic::div_mod::lemma_fundamental_div_mod_converse;

verus! {

/// Number of texture units a texture can be bound to.
pub const TEXTURE_UNITS: i32 = 8;

/// Number of faces of a cube map, in the order +X, -X, +Y, -Y, +Z, -Z.
pub const CUBE_FACES: usize = 6;

/// How a texture is sampled when minified; the mipmapped modes build mipmaps on upload.
#[derive(Debug, Clone, Copy, PartialEq, Eq, Structural)]
pub enum Texture2DFilter {
    Nearest,
    Linear,
    NearestMiMapNearest,
    NearestMiMapLinear,
    LinearMiMapNearest,
    LinearMiMapLinear,
}

impl Texture2DFilter {
    /// Whether this filter samples mipmaps, so that they must be generated on upload.
    pub fn generates_mipmaps(&self) -> (r: bool)
        ensures
            r == !(*self is Nearest || *self is Linear),
    {
        match self {
            Texture2DFilter::Nearest => false,
            Texture2DFilter::Linear => false,
            _ => true,
        }
    }
}

/// What the image decoder makes of encoded bytes: the pixel bytes, width, height and
/// channel count, or nothing when the bytes do not decode.
pub uninterp spec fn decoded_image(bytes: Seq<u8>) -> Option<(Seq<u8>, int, int, int)>;

/// An image as the decoder hands it over: rows from the top, `channels` bytes a pixel.
pub struct DecodedImage {
    pub data: Vec<u8>,
    pub width: usize,
    pub height: usize,
    pub channels: usize,
}

/// Relies on stb_image's `load_from_memory_with_depth` with no forced channel count and
/// high-dynamic-range images converted to 8 bits: it either fails or yields an 8-bit image
/// whose pixel bytes number width times height times channels.
#[verifier::external_body]
fn decode_image(buffer: &[u8]) -> (r: Option<DecodedImage>)
    ensures
        match r {
            Some(img) => decoded_image(buffer@) == Some(
                (img.data@, img.width as int, img.height as int, img.channels as int),
            ) && img.data@.len() == img.width * img.height * img.channels,
            None => decoded_image(buffer@) is None,
        },
{
    match stb_image::image::load_from_memory_with_depth(buffer, 0, true) {
        stb_image::image::LoadResult::ImageU8(img) => Some(
            DecodedImage { data: img.data, width: img.width, height: img.height, channels: img.depth },
        ),
        stb_image::image::LoadResult::ImageF32(_) => None,
        stb_image::image::LoadResult::Error(_) => None,
    }
}

/// The pixels of an image with its size and channel count.
pub struct ImageView {
    pub data: Seq<u8>,
    pub width: i32,
    pub height: i32,
    pub bpp: i32,
}

/// Whether decoded pixels make a texture: RGB or RGBA, sides that fit `i32`, and one byte
/// per channel of each pixel.
pub open spec fn image_fits(data: Seq<u8>, width: int, height: int, channels: int) -> bool {
    &&& channels == 3 || channels == 4
    &&& 0 <= width <= i32::MAX
    &&& 0 <= height <= i32::MAX
    &&& data.len() == width * height * channels
}

/// The image that decoded pixels make, if they fit.
pub open spec fn image_of(data: Seq<u8>, width: int, height: int, channels: int) -> Option<
    ImageView,
> {
    if image_fits(data, width, height, channels) {
        Some(ImageView { data, width: width as i32, height: height as i32, bpp: channels as i32 })
    } else {
        None
    }
}

/// The image that encoded bytes make, if they decode to one that fits.
pub open spec fn accepted_image(bytes: Seq<u8>) -> Option<ImageView> {
    match decoded_image(bytes) {
        Some((d, w, h, c)) => image_of(d, w, h, c),
        None => None,
    }
}

/// Rows of `row_len` bytes in reverse order: the last row first.
pub open spec fn flipped_rows(data: Seq<u8>, row_len: int, rows: int) -> Seq<u8> {
    Seq::new(
        (row_len * rows) as nat,
        |k: int| data[(rows - 1 - k / row_len) * row_len + k % row_len],
    )
}

/// An image turned upside down, so that its first row is the bottom one.
pub open spec fn flipped_image(img: ImageView) -> ImageView {
    ImageView {
        data: flipped_rows(img.data, img.width * img.bpp, img.height as int),
        ..img
    }
}

/// Reverses the order of the `rows` rows of `row_len` bytes in `data`.
pub fn flip_rows(data: &Vec<u8>, row_len: usize, rows: usize) -> (r: Vec<u8>)
    requires
        data@.len() == row_len * rows,
    ensures
        r@ == flipped_rows(data@, row_len as int, rows as int),
{
    let n = data.len();
    let mut out: Vec<u8> = Vec::new();
    let mut i: usize = 0;
    while i < rows
        invariant
            i <= rows,
            n == data@.len(),
            data@.len() == row_len * rows,
            out@.len() == i * row_len,
            forall|k: int|
                0 <= k < i * row_len ==> #[trigger] out@[k] == data@[(rows - 1 - k / row_len as int)
                    * row_len + k % row_len as int],
        decreases rows - i,
    {
        proof {
            assert((rows - 1 - i) * row_len + row_len == (rows - i) * row_len) by (nonlinear_arith)
                requires
                    i < rows,
            ;
            assert((rows - i) * row_len <= rows * row_len) by (nonlinear_arith)
                requires
                    i <= rows,
            ;
            assert(rows * row_len == row_len * rows) by (nonlinear_arith);
        }
        let src = (rows - 1 - i) * row_len;
        let mut j: usize = 0;
        while j < row_len
            invariant
                i < rows,
                j <= row_len,
                src == (rows - 1 - i) * row_len,
                src + row_len <= data@.len(),
                n == data@.len(),
                data@.len() == row_len * rows,
                out@.len() == i * row_len + j,
                forall|k: int|
                    0 <= k < i * row_len + j ==> #[trigger] out@[k] == data@[(rows - 1 - k
                        / row_len as int) * row_len + k % row_len as int],
            decreases row_len - j,
        {
            proof {
                let k = i * row_len + j;
                lemma_fundamental_div_mod_converse(k, row_len as int, i as int, j as int);
            }
            out.push(data[src + j]);
            j = j + 1;
        }
        proof {
            assert(i * row_len + row_len == (i + 1) * row_len) by (nonlinear_arith);
        }
        i = i + 1;
    }
    proof {
        assert(rows * row_len == row_len * rows) by (nonlinear_arith);
        assert(out@ =~= flipped_rows(data@, row_len as int, rows as int));
    }
    out
}

/// Checks decoded pixels and gives them back as an image, or `InvalidData` when they do not
/// make a texture.
pub fn check_image(image: DecodedImage) -> (r: Result<(Vec<u8>, i32, i32, i32), OglError>)
    ensures
        match image_of(image.data@, image.width as int, image.height as int, image.channels as int) {
            Some(v) => r matches Ok((d, w, h, c)) && d@ == v.data && w == v.width && h == v.height
                && c == v.bpp,
            None => r == Err::<(Vec<u8>, i32, i32, i32), OglError>(OglError::InvalidData),
        },
{
    if image.channels != 3 && image.channels != 4 {
        return Err(OglError::InvalidData);
    }
    if image.width > i32::MAX as usize || image.height > i32::MAX as usize {
        return Err(OglError::InvalidData);
    }
    let (w, h, c) = (image.width, image.height, image.channels);
    let len = image.data.len();
    match w.checked_mul(h) {
        Some(px) => match px.checked_mul(c) {
            Some(n) => {
                if n != len {
                    return Err(OglError::InvalidData);
                }
            },
            None => {
                return Err(OglError::InvalidData);
            },
        },
        None => {
            proof {
                assert(w * h * c >= w * h) by (nonlinear_arith)
                    requires
                        c >= 1,
                        w * h >= 0,
                ;
            }
            return Err(OglError::InvalidData);
        },
    }
    Ok((image.data, image.width as i32, image.height as i32, image.channels as i32))
}

/// Where a texture is to be bound: its texture unit, its texture object, and the sampler
/// uniform that receives the unit.
#[derive(Debug, Clone, Copy, PartialEq, Eq, Structural)]
pub struct TextureBinding {
    pub slot: i32,
    pub texture: u32,
    pub location: i32,
}

/// The binding of texture object `id` to unit `slot` for sampler `location`; units other
/// than `0..TEXTURE_UNITS` fail with `InvalidData`.
pub fn texture_binding(id: u32, slot: i32, location: i32) -> (r: Result<TextureBinding, OglError>)
    ensures
        0 <= slot < TEXTURE_UNITS ==> r == Ok::<TextureBinding, OglError>(
            TextureBinding { slot, texture: id, location },
        ),
        !(0 <= slot < TEXTURE_UNITS) ==> r == Err::<TextureBinding, OglError>(
            OglError::InvalidData,
        ),
{
    if 0 <= slot && slot < TEXTURE_UNITS {
        Ok(TextureBinding { slot, texture: id, location })
    } else {
        Err(OglError::InvalidData)
    }
}

/// A 2D texture: its pixels, bottom row first, and the texture object that holds them.
pub struct Texture2D {
    id: u32,
    data: Vec<u8>,
    width: i32,
    height: i32,
    bpp: i32,
}

/// What a 2D texture holds.
pub struct TextureView {
    pub id: u32,
    pub image: ImageView,
}

impl View for Texture2D {
    type V = TextureView;

    closed spec fn view(&self) -> TextureView {
        TextureView {
            id: self.id,
            image: ImageView {
                data: self.data@,
                width: self.width,
                height: self.height,
                bpp: self.bpp,
            },
        }
    }
}

impl Texture2D {
    /// An empty texture with no texture object.
    pub fn new() -> (r: Texture2D)
        ensures
            r@.id == 0,
            r@.image == (ImageView { data: Seq::empty(), width: 0, height: 0, bpp: 0 }),
    {
        Texture2D { id: 0, data: Vec::new(), width: 0, height: 0, bpp: 0 }
    }

    /// Decodes `buffer` and keeps its pixels turned bottom row first. Fails with
    /// `InvalidData`, changing nothing, when the bytes do not decode or the image is not
    /// RGB or RGBA.
    pub fn create_from_buffer(&mut self, buffer: &[u8]) -> (r: Result<(), OglError>)
        ensures
            match accepted_image(buffer@) {
                Some(img) => r is Ok && final(self)@.image == flipped_image(img)
                    && final(self)@.id == old(self)@.id,
                None => r == Err::<(), OglError>(OglError::InvalidData) && final(self)@ == old(self)@,
            },
    {
        match decode_image(buffer) {
            Some(image) => self.load_decoded(image),
            None => Err(OglError::InvalidData),
        }
    }

    /// Keeps decoded pixels, turned bottom row first. Fails with `InvalidData`, changing
    /// nothing, when they do not make an RGB or RGBA image.
    pub fn load_decoded(&mut self, image: DecodedImage) -> (r: Result<(), OglError>)
        ensures
            match image_of(image.data@, image.width as int, image.height as int, image.channels as int) {
                Some(img) => r is Ok && final(self)@.image == flipped_image(img)
                    && final(self)@.id == old(self)@.id,
                None => r == Err::<(), OglError>(OglError::InvalidData) && final(self)@ == old(self)@,
            },
    {
        let (data, width, height, bpp) = match check_image(image) {
            Ok(v) => v,
            Err(e) => {
                return Err(e);
            },
        };
        let ghost (w, h, c) = (width as int, height as int, bpp as int);
        let len = data.len();
        proof {
            assert(len == w * h * c);
            assert(w * h * c == (w * c) * h) by (nonlinear_arith);
        }
        let row_len: usize = if height == 0 {
            proof {
                assert(w * h * c == 0) by (nonlinear_arith)
                    requires
                        h == 0,
                ;
            }
            0
        } else {
            proof {
                assert(w * c <= (w * c) * h) by (nonlinear_arith)
                    requires
                        h >= 1,
                        w >= 0,
                        c >= 0,
                ;
            }
            (width as usize) * (bpp as usize)
        };
        let flipped = flip_rows(&data, row_len, height as usize);
        proof {
            if h == 0 {
                assert(flipped_rows(data@, row_len as int, h) =~= flipped_rows(data@, w * c, h));
            }
            assert(flipped@ =~= flipped_rows(data@, w * c, h));
        }
        self.data = flipped;
        self.width = width;
        self.height = height;
        self.bpp = bpp;
        Ok(())
    }

    /// Records the texture object that holds the pixels.
    pub fn set_id(&mut self, id: u32)
        ensures
            final(self)@ == (TextureView { id, ..old(self)@ }),
    {
        self.id = id;
    }

    pub fn width(&self) -> (r: i32)
        ensures
            r == self@.image.width,
    {
        self.width
    }

    pub fn height(&self) -> (r: i32)
        ensures
            r == self@.image.height,
    {
        self.height
    }

    pub fn bpp(&self) -> (r: i32)
        ensures
            r == self@.image.bpp,
    {
        self.bpp
    }

    pub fn data(&self) -> (r: &[u8])
        ensures
            r@ == self@.image.data,
    {
        self.data.as_slice()
    }

    pub fn id(&self) -> (r: u32)
        ensures
            r == self@.id,
    {
        self.id
    }

    /// Where to bind this texture: unit `slot` for sampler `location`. Units other than
    /// `0..TEXTURE_UNITS` fail with `InvalidData`.
    pub fn bind(&self, slot: i32, location: i32) -> (r: Result<TextureBinding, OglError>)
        ensures
            0 <= slot < TEXTURE_UNITS ==> r == Ok::<TextureBinding, OglError>(
                TextureBinding { slot, texture: self@.id, location },
            ),
            !(0 <= slot < TEXTURE_UNITS) ==> r == Err::<TextureBinding, OglError>(
                OglError::InvalidData,
            ),
    {
        texture_binding(self.id, slot, location)
    }
}

/// One face of a cube map, rows from the top.
pub struct CubeFace {
    pub data: Vec<u8>,
    pub width: i32,
    pub height: i32,
    pub bpp: i32,
}

impl CubeFace {
    /// An empty face.
    pub fn new() -> (r: CubeFace)
        ensures
            r.data@ == Seq::<u8>::empty(),
            r.width == 0,
            r.height == 0,
            r.bpp == 0,
    {
        CubeFace { data: Vec::new(), width: 0, height: 0, bpp: 0 }
    }

    pub open spec fn image(&self) -> ImageView {
        ImageView { data: self.data@, width: self.width, height: self.height, bpp: self.bpp }
    }

    /// The face that decoded pixels make, or `InvalidData` when they are not an RGB or
    /// RGBA image.
    pub fn from_decoded(image: DecodedImage) -> (r: Result<CubeFace, OglError>)
        ensures
            match image_of(image.data@, image.width as int, image.height as int, image.channels as int) {
                Some(img) => r matches Ok(f) && f.image() == img,
                None => r is Err && r == Err::<CubeFace, OglError>(OglError::InvalidData),
            },
    {
        match check_image(image) {
            Ok((data, width, height, bpp)) => Ok(CubeFace { data, width, height, bpp }),
            Err(e) => Err(e),
        }
    }
}

/// A cube-map texture: six faces and the texture object that holds them.
pub struct Texture2DCubeMap {
    id: u32,
    faces: Vec<CubeFace>,
}

/// What a cube map holds.
pub struct CubeMapView {
    pub id: u32,
    pub faces: Seq<ImageView>,
}

impl View for Texture2DCubeMap {
    type V = CubeMapView;

    closed spec fn view(&self) -> CubeMapView {
        CubeMapView { id: self.id, faces: self.faces@.map_values(|f: CubeFace| f.image()) }
    }
}

impl Texture2DCubeMap {
    /// Six faces, as every cube map has.
    pub closed spec fn wf(&self) -> bool {
        self.faces@.len() == CUBE_FACES
    }

    /// A cube map of six empty faces with no texture object.
    pub fn new() -> (r: Texture2DCubeMap)
        ensures
            r.wf(),
            r@.id == 0,
            r@.faces.len() == CUBE_FACES,
            forall|i: int|
                0 <= i < CUBE_FACES ==> #[trigger] r@.faces[i] == (ImageView {
                    data: Seq::empty(),
                    width: 0,
                    height: 0,
                    bpp: 0,
                }),
    {
        let mut faces: Vec<CubeFace> = Vec::new();
        let mut i: usize = 0;
        while i < CUBE_FACES
            invariant
                i <= CUBE_FACES,
                faces@.len() == i,
                forall|k: int|
                    0 <= k < i ==> (#[trigger] faces@[k]).image() == (ImageView {
                        data: Seq::empty(),
                        width: 0,
                        height: 0,
                        bpp: 0,
                    }),
            decreases CUBE_FACES - i,
        {
            faces.push(CubeFace::new());
            i = i + 1;
        }
        let r = Texture2DCubeMap { id: 0, faces };
        assert(r@.faces.len() == CUBE_FACES);
        r
    }

    /// Decodes the six faces, in the order +X, -X, +Y, -Y, +Z, -Z, from the first six
    /// buffers. Fails with `InvalidData`, changing nothing, when fewer than six buffers are
    /// given or any of the six does not decode to an RGB or RGBA image.
    pub fn create_from_buffer(&mut self, buffers: &[&[u8]]) -> (r: Result<(), OglError>)
        requires
            old(self).wf(),
        ensures
            final(self).wf(),
            r is Ok <==> buffers@.len() >= CUBE_FACES && forall|i: int|
                0 <= i < CUBE_FACES ==> #[trigger] accepted_image(buffers@[i]@) is Some,
            r is Ok ==> final(self)@.id == old(self)@.id && forall|i: int|
                0 <= i < CUBE_FACES ==> Some(#[trigger] final(self)@.faces[i]) == accepted_image(
                    buffers@[i]@,
                ),
            r is Err ==> r == Err::<(), OglError>(OglError::InvalidData) && final(self)@ == old(self)@,
    {
        if buffers.len() < CUBE_FACES {
            return Err(OglError::InvalidData);
        }
        let mut faces: Vec<CubeFace> = Vec::new();
        let mut i: usize = 0;
        while i < CUBE_FACES
            invariant
                i <= CUBE_FACES <= buffers@.len(),
                self.wf(),
                self@ == old(self)@,
                faces@.len() == i,
                forall|k: int|
                    0 <= k < i ==> Some((#[trigger] faces@[k]).image()) == accepted_image(
                        buffers@[k]@,
                    ),
            decreases CUBE_FACES - i,
        {
            let face = match decode_image(buffers[i]) {
                Some(image) => CubeFace::from_decoded(image),
                None => Err(OglError::InvalidData),
            };
            match face {
                Ok(f) => faces.push(f),
                Err(e) => {
                    assert(accepted_image(buffers@[i as int]@) is None);
                    return Err(e);
                },
            }
            i = i + 1;
        }
        self.faces = faces;
        assert(self@.faces.len() == CUBE_FACES);
        assert forall|i: int| 0 <= i < CUBE_FACES implies #[trigger] accepted_image(buffers@[i]@) is Some
            && Some(self@.faces[i]) == accepted_image(buffers@[i]@) by {
            assert(Some(faces@[i].image()) == accepted_image(buffers@[i]@));
        }
        Ok(())
    }

    fn face(&self, i: usize) -> (r: &CubeFace)
        requires
            self.wf(),
            i < CUBE_FACES,
        ensures
            r.image() == self@.faces[i as int],
    {
        &self.faces[i]
    }

    /// The +X face.
    pub fn right(&self) -> (r: &CubeFace)
        requires
            self.wf(),
        ensures
            r.image() == self@.faces[0],
    {
        self.face(0)
    }

    /// The -X face.
    pub fn left(&self) -> (r: &CubeFace)
        requires
            self.wf(),
        ensures
            r.image() == self@.faces[1],
    {
        self.face(1)
    }

    /// The +Y face.
    pub fn top(&self) -> (r: &CubeFace)
        requires
            self.wf(),
        ensures
            r.image() == self@.faces[2],
    {
        self.face(2)
    }

    /// The -Y face.
    pub fn bottom(&self) -> (r: &CubeFace)
        requires
            self.wf(),
        ensures
            r.image() == self@.faces[3],
    {
        self.face(3)
    }

    /// The +Z face.
    pub fn back(&self) -> (r: &CubeFace)
        requires
            self.wf(),
        ensures
            r.image() == self@.faces[4],
    {
        self.face(4)
    }

    /// The -Z face.
    pub fn front(&self) -> (r: &CubeFace)
        requires
            self.wf(),
        ensures
            r.image() == self@.faces[5],
    {
        self.face(5)
    }

    pub fn id(&self) -> (r: u32)
        ensures
            r == self@.id,
    {
        self.id
    }

    /// Records the texture object that holds the faces.
    pub fn set_id(&mut self, id: u32)
        requires
            old(self).wf(),
        ensures
            final(self).wf(),
            final(self)@ == (CubeMapView { id, ..old(self)@ }),
    {
        self.id = id;
    }

    /// Where to bind this cube map: unit `slot` for sampler `location`. Units other than
    /// `0..TEXTURE_UNITS` fail with `InvalidData`.
    pub fn bind(&self, slot: i32, location: i32) -> (r: Result<TextureBinding, OglError>)
        ensures
            0 <= slot < TEXTURE_UNITS ==> r == Ok::<TextureBinding, OglError>(
                TextureBinding { slot, texture: self@.id, location },
            ),
            !(0 <= slot < TEXTURE_UNITS) ==> r == Err::<TextureBinding, OglError>(
                OglError::InvalidData,
            ),
    {
        texture_binding(self.id, slot, location)
    }
}

} // verus!
