//! Images and the textures made of them, cached by the path of the image file.
//!
//! Reading the file is left to the caller. Decoding its bytes is the `image`
//! crate's work and turning pixels into a texture is `egui`'s; this module
//! decides when either happens and keeps what came out of it.

use vstd::prelude::*;
use vstd::hash_map::StringHashMap;
use crate::editor::StarEditor;
use crate::number::{is_number, number};

verus! {

/// `egui::TextureHandle`: a texture that the context keeps for as long as a
/// handle to it lives. The library stores and hands out such handles and
/// never looks inside one.
#[verifier::external_type_specification]
#[verifier::external_body]
pub struct ExTextureHandle(egui::TextureHandle);

/// `egui::Context`, which allocates the textures. The library only passes
/// it on.
#[verifier::external_type_specification]
#[verifier::external_body]
pub struct ExContext(egui::Context);

/// `image::DynamicImage`: a picture as the decoder hands it out, with
/// samples of eight or sixteen bits or floating-point samples. The library
/// passes it on and asks it for its floating-point samples.
#[verifier::external_type_specification]
#[verifier::external_body]
pub struct ExDynamicImage(image::DynamicImage);

/// `egui::ColorImage`: the pixels of a picture in the form that a texture
/// is made of. The library only passes it on.
#[verifier::external_type_specification]
#[verifier::external_body]
pub struct ExColorImage(egui::ColorImage);

/// The encodings of the floating-point samples that a picture holds, in
/// the order of its buffer. A picture with integer samples holds none.
pub uninterp spec fn float_samples(picture: image::DynamicImage) -> Seq<u32>;

/// Four samples for each pixel, no more and no fewer.
pub open spec fn fits(width: u32, height: u32, len: nat) -> bool {
    len == 4 * width * height
}

/// Whether every encoding stands for a number.
pub open spec fn are_numbers(samples: Seq<u32>) -> bool {
    forall|i: int| 0 <= i < samples.len() ==> is_number(#[trigger] samples[i])
}

/// Whether a picture can be brought to eight-bit samples: none of its
/// floating-point samples is anything but a number. A picture with integer
/// samples always can.
pub open spec fn convertible(picture: image::DynamicImage) -> bool {
    are_numbers(float_samples(picture))
}

/// Whether a texture is made of what decoding gave: there is a picture, and
/// it can be brought to eight-bit samples.
pub open spec fn gives_texture(decoded: Option<image::DynamicImage>) -> bool {
    decoded is Some && convertible(decoded->0)
}

/// A decoded picture as a mathematical value.
#[verifier::ext_equal]
pub struct PixelModel {
    pub width: usize,
    pub height: usize,
    pub rgba: Seq<u8>,
}

/// A decoded picture: rows of pixels from the top, each pixel as its red,
/// green, blue and alpha sample.
#[derive(Debug)]
pub struct PixelImage {
    width: usize,
    height: usize,
    rgba: Vec<u8>,
}

impl View for PixelImage {
    type V = PixelModel;

    closed spec fn view(&self) -> PixelModel {
        PixelModel { width: self.width, height: self.height, rgba: self.rgba@ }
    }
}

/// The picture that the samples make, if there are as many as its size asks for.
pub open spec fn framed(width: u32, height: u32, rgba: Seq<u8>) -> Option<PixelModel> {
    if fits(width, height, rgba.len()) {
        Some(PixelModel { width: width as usize, height: height as usize, rgba })
    } else {
        None
    }
}

/// Calls the `image` crate's reader on `bytes`, with the format that
/// `ImageFormat::from_path` takes from the extension of `path`, and hands on
/// what `decode` returns. The contract claims that the empty path gives no
/// picture: it has no extension, and without a format `decode` returns an
/// error. Nothing else is stated of the outcome. Whether a content decodes
/// can depend on the memory that the machine has to give, and the samples
/// can differ from machine to machine in their last bit.
#[verifier::external_body]
fn decode(path: &str, bytes: &[u8]) -> (decoded: Option<image::DynamicImage>)
    ensures
        path@.len() == 0 ==> decoded is None,
{
    let mut reader = image::io::Reader::new(std::io::Cursor::new(bytes));
    if let Ok(format) = image::ImageFormat::from_path(path) {
        reader.set_format(format);
    }
    match reader.decode() {
        Ok(picture) => Some(picture),
        Err(_) => None,
    }
}

/// Reads the buffer of a picture with floating-point samples through
/// `ImageBuffer::as_raw` and hands out the encoding of each sample. The
/// contract gives what is handed out its name.
#[verifier::external_body]
fn float_samples_of(picture: &image::DynamicImage) -> (samples: Vec<u32>)
    ensures
        samples@ == float_samples(*picture),
{
    match picture {
        image::DynamicImage::ImageRgb32F(buffer) => buffer.as_raw().iter().map(|s| s.to_bits()).collect(),
        image::DynamicImage::ImageRgba32F(buffer) => buffer.as_raw().iter().map(|s| s.to_bits()).collect(),
        _ => Vec::new(),
    }
}

/// Calls `DynamicImage::to_rgba8`, which brings each sample to eight bits
/// and panics on a floating-point sample that is not a number: the contract
/// asks that the picture holds none. It claims that the buffer handed out
/// holds four samples for each pixel of the size handed out, which is how
/// the conversion allocates it.
#[verifier::external_body]
fn to_rgba(picture: &image::DynamicImage) -> (converted: (u32, u32, Vec<u8>))
    requires
        convertible(*picture),
    ensures
        match converted {
            (width, height, rgba) => fits(width, height, rgba@.len()),
        },
{
    let rgba = picture.to_rgba8();
    (rgba.width(), rgba.height(), rgba.into_raw())
}

/// Calls `egui::ColorImage::from_rgba_unmultiplied`, which panics unless the
/// buffer holds four samples for each pixel: the contract asks for that and
/// promises nothing about the image made.
#[verifier::external_body]
fn color_image(image: &PixelImage) -> (colors: egui::ColorImage)
    requires
        image.wf(),
{
    egui::ColorImage::from_rgba_unmultiplied([image.width, image.height], image.rgba.as_slice())
}

/// Calls `egui::Context::load_texture` with the default texture options. The
/// handle depends on what the context has allocated before, so nothing is
/// promised about it.
#[verifier::external_body]
fn upload(ctx: &egui::Context, name: &str, colors: egui::ColorImage) -> (handle: egui::TextureHandle) {
    ctx.load_texture(name, colors, Default::default())
}

/// Whether every encoding stands for a number.
fn all_numbers(samples: &Vec<u32>) -> (all: bool)
    ensures
        all == are_numbers(samples@),
{
    let mut i: usize = 0;
    while i < samples.len()
        invariant
            i <= samples.len(),
            forall|k: int| 0 <= k < i ==> is_number(#[trigger] samples@[k]),
        decreases samples.len() - i,
    {
        if !number(samples[i]) {
            return false;
        }
        i += 1;
    }
    true
}

impl PixelImage {
    /// Every picture holds exactly the samples of its pixels.
    pub open spec fn wf(&self) -> bool {
        self@.rgba.len() == 4 * self@.width * self@.height
    }

    /// Frames a sample buffer as a picture of the given size. The buffer is
    /// refused when its length is not four times the number of pixels.
    pub fn from_rgba(width: u32, height: u32, rgba: Vec<u8>) -> (image: Option<PixelImage>)
        ensures
            image is Some == fits(width, height, rgba@.len()),
            image is Some ==> image->0.wf() && Some(image->0@) == framed(width, height, rgba@),
    {
        assert(0 <= width * height <= 0xFFFF_FFFF * 0xFFFF_FFFF) by (nonlinear_arith)
            requires
                0 <= width <= 0xFFFF_FFFF,
                0 <= height <= 0xFFFF_FFFF,
        ;
        assert(4 * width * height == 4 * (width * height)) by (nonlinear_arith);
        let pixels: u128 = (width as u128) * (height as u128);
        let wanted: u128 = 4 * pixels;
        if rgba.len() as u128 == wanted {
            Some(PixelImage { width: width as usize, height: height as usize, rgba })
        } else {
            None
        }
    }

    /// Brings a decoded picture to eight-bit samples of red, green, blue and
    /// alpha. A picture with integer samples always converts. One with
    /// floating-point samples converts unless a sample is not a number.
    pub fn from_picture(picture: &image::DynamicImage) -> (image: Option<PixelImage>)
        ensures
            image is Some == convertible(*picture),
            image is Some ==> image->0.wf(),
    {
        let samples = float_samples_of(picture);
        if all_numbers(&samples) {
            let (width, height, rgba) = to_rgba(picture);
            PixelImage::from_rgba(width, height, rgba)
        } else {
            None
        }
    }

    /// The number of pixels in a row.
    pub fn width(&self) -> (width: usize)
        ensures
            width == self@.width,
    {
        self.width
    }

    /// The number of rows.
    pub fn height(&self) -> (height: usize)
        ensures
            height == self@.height,
    {
        self.height
    }

    /// The samples, row by row.
    pub fn rgba(&self) -> (rgba: &[u8])
        ensures
            rgba@ == self@.rgba,
    {
        self.rgba.as_slice()
    }
}

/// Decodes the content of the image file at `path`, in the format that the
/// extension of the path names, and brings the picture to eight-bit samples.
/// There is no picture where the content does not decode, nor where a
/// floating-point sample is not a number. The empty path names no format, so
/// it never gives a picture.
pub fn decode_image(path: &str, bytes: &[u8]) -> (image: Option<PixelImage>)
    ensures
        path@.len() == 0 ==> image is None,
        image is Some ==> image->0.wf(),
{
    match decode(path, bytes) {
        Some(picture) => PixelImage::from_picture(&picture),
        None => None,
    }
}

/// Makes the texture named `name` of what decoding gave. There is a texture
/// exactly when there is a picture that can be brought to eight-bit samples.
pub fn make_texture(decoded: Option<image::DynamicImage>, name: &str, ctx: &egui::Context) -> (handle:
    Option<egui::TextureHandle>)
    ensures
        handle is Some == gives_texture(decoded),
{
    match decoded {
        Some(picture) => match PixelImage::from_picture(&picture) {
            Some(image) => Some(upload(ctx, name, color_image(&image))),
            None => None,
        },
        None => None,
    }
}

impl StarEditor {
    /// Makes a texture of the image file at `path` with content `bytes`,
    /// tagged with the path. There is no texture where the content does not
    /// decode, nor where a floating-point sample is not a number. The empty
    /// path names no format, so it never gives a texture.
    pub fn load_image(path: &str, bytes: &[u8], ctx: &egui::Context) -> (handle: Option<
        egui::TextureHandle,
    >)
        ensures
            path@.len() == 0 ==> handle is None,
    {
        make_texture(decode(path, bytes), path, ctx)
    }
}

/// `after` is `before` with one more entry, for `path`; no other entry has
/// come, gone or changed.
pub open spec fn grown_by(
    before: Map<Seq<char>, egui::TextureHandle>,
    after: Map<Seq<char>, egui::TextureHandle>,
    path: Seq<char>,
) -> bool {
    &&& !before.contains_key(path)
    &&& after.dom() == before.dom().insert(path)
    &&& forall|p: Seq<char>| before.contains_key(p) ==> after[p] == before[p]
}

/// The cache after the texture made for `path` was handed in: a path that
/// is cached keeps its texture, and where no texture was made nothing is
/// added.
pub open spec fn stored(
    before: Map<Seq<char>, egui::TextureHandle>,
    path: Seq<char>,
    texture: Option<egui::TextureHandle>,
) -> Map<Seq<char>, egui::TextureHandle> {
    if before.contains_key(path) || texture is None {
        before
    } else {
        before.insert(path, texture->0)
    }
}

/// What asking for the texture of `path` can do to the cache, `read` telling
/// whether the file's content was there to decode: a path that is cached, or
/// whose file was not read, leaves the cache as it is, and so does the empty
/// path, which names no format; any other path is added to it if its content
/// gives a picture.
pub open spec fn loads(
    before: Map<Seq<char>, egui::TextureHandle>,
    path: Seq<char>,
    read: bool,
    after: Map<Seq<char>, egui::TextureHandle>,
) -> bool {
    if before.contains_key(path) || !read || path.len() == 0 {
        after == before
    } else {
        after == before || grown_by(before, after, path)
    }
}

/// The textures of the image files that were asked for, by path. An entry
/// stays as it is for as long as the cache lives.
pub struct TextureCache {
    entries: StringHashMap<egui::TextureHandle>,
}

impl View for TextureCache {
    type V = Map<Seq<char>, egui::TextureHandle>;

    closed spec fn view(&self) -> Map<Seq<char>, egui::TextureHandle> {
        self.entries@
    }
}

impl TextureCache {
    /// The cache without any texture.
    pub fn new() -> (cache: TextureCache)
        ensures
            cache@ == Map::<Seq<char>, egui::TextureHandle>::empty(),
    {
        TextureCache { entries: StringHashMap::new() }
    }

    /// Whether the texture of `path` is cached.
    pub fn contains(&self, path: &str) -> (cached: bool)
        ensures
            cached == self@.contains_key(path@),
    {
        self.entries.contains_key(path)
    }

    /// The cached texture of `path`.
    pub fn get(&self, path: &str) -> (handle: Option<&egui::TextureHandle>)
        ensures
            handle is Some == self@.contains_key(path@),
            handle is Some ==> *handle->0 == self@[path@],
    {
        self.entries.get(path)
    }

    /// Takes the texture that was made for `path`, if one was, and answers
    /// with the texture of `path`. A cached texture is kept and handed out;
    /// the one taken is then dropped.
    pub fn store(&mut self, path: &str, texture: Option<egui::TextureHandle>) -> (handle: Option<
        &egui::TextureHandle,
    >)
        ensures
            final(self)@ == stored(old(self)@, path@, texture),
            final(self)@ == old(self)@ || grown_by(old(self)@, final(self)@, path@),
            handle is Some == final(self)@.contains_key(path@),
            handle is Some ==> *handle->0 == final(self)@[path@],
    {
        if !self.entries.contains_key(path) {
            if let Some(made) = texture {
                self.entries.insert(path.to_owned(), made);
                assert(self@.dom() =~= old(self)@.dom().insert(path@));
            }
        }
        self.entries.get(path)
    }

    /// Takes what decoding the file at `path` gave and answers with the
    /// texture of `path`. A cached texture is handed out as it is and the
    /// picture is not looked at. Otherwise the texture made of the picture is
    /// cached; where there is no picture, or none that can be brought to
    /// eight-bit samples, nothing is cached and there is no texture.
    pub fn load_decoded(
        &mut self,
        path: &str,
        decoded: Option<image::DynamicImage>,
        ctx: &egui::Context,
    ) -> (handle: Option<&egui::TextureHandle>)
        ensures
            final(self)@.contains_key(path@) == (old(self)@.contains_key(path@) || gives_texture(
                decoded,
            )),
            final(self)@ == old(self)@ || grown_by(old(self)@, final(self)@, path@),
            handle is Some == final(self)@.contains_key(path@),
            handle is Some ==> *handle->0 == final(self)@[path@],
    {
        if self.entries.contains_key(path) {
            self.entries.get(path)
        } else {
            self.store(path, make_texture(decoded, path, ctx))
        }
    }

    /// Takes what reading the file at `path` gave and answers with the
    /// texture of `path`. A cached texture is handed out as it is and the
    /// content is not looked at. Otherwise the content is decoded and the
    /// texture made of it is cached; where the file was not read or gives no
    /// picture, nothing is cached and there is no texture.
    pub fn finish_load(&mut self, path: &str, bytes: Option<Vec<u8>>, ctx: &egui::Context) -> (handle:
        Option<&egui::TextureHandle>)
        ensures
            loads(old(self)@, path@, bytes is Some, final(self)@),
            handle is Some == final(self)@.contains_key(path@),
            handle is Some ==> *handle->0 == final(self)@[path@],
    {
        if self.entries.contains_key(path) {
            self.entries.get(path)
        } else {
            match bytes {
                Some(content) => self.load_decoded(path, decode(path, content.as_slice()), ctx),
                None => None,
            }
        }
    }

    /// The texture of `path`: the cached one, or else the one made of the
    /// file's content, which `read` fetches. `read` is called only for a path
    /// that is not cached, and then once.
    pub fn get_or_load<F>(&mut self, path: &str, ctx: &egui::Context, read: F) -> (handle: Option<
        &egui::TextureHandle,
    >) where F: FnOnce(&str) -> Option<Vec<u8>>
        requires
            !old(self)@.contains_key(path@) ==> read.requires((path,)),
        ensures
            old(self)@.contains_key(path@) ==> final(self)@ == old(self)@,
            !old(self)@.contains_key(path@) ==> exists|bytes: Option<Vec<u8>>|
                read.ensures((path,), bytes) && #[trigger] loads(
                    old(self)@,
                    path@,
                    bytes is Some,
                    final(self)@,
                ),
            handle is Some == final(self)@.contains_key(path@),
            handle is Some ==> *handle->0 == final(self)@[path@],
    {
        if self.entries.contains_key(path) {
            self.entries.get(path)
        } else {
            let bytes = read(path);
            self.finish_load(path, bytes, ctx)
        }
    }
}

/// Once a path is cached, asking for it again changes nothing, whatever the
/// file then holds: the texture handed out the second time is the cached one.
pub proof fn lemma_cached_texture_is_kept(
    before: Map<Seq<char>, egui::TextureHandle>,
    path: Seq<char>,
    read: bool,
    after: Map<Seq<char>, egui::TextureHandle>,
)
    requires
        before.contains_key(path),
        loads(before, path, read, after),
    ensures
        after == before,
        after[path] == before[path],
{
}

/// A path that the first request cached is found there by the second, which
/// leaves the cache alone.
pub proof fn lemma_loaded_once(
    before: Map<Seq<char>, egui::TextureHandle>,
    path: Seq<char>,
    between: Map<Seq<char>, egui::TextureHandle>,
    read_again: bool,
    after: Map<Seq<char>, egui::TextureHandle>,
)
    requires
        grown_by(before, between, path),
        loads(between, path, read_again, after),
    ensures
        between.contains_key(path),
        after == between,
{
}

/// No request ever removes or replaces an entry.
pub proof fn lemma_entries_are_kept(
    before: Map<Seq<char>, egui::TextureHandle>,
    path: Seq<char>,
    read: bool,
    after: Map<Seq<char>, egui::TextureHandle>,
    other: Seq<char>,
)
    requires
        loads(before, path, read, after),
        before.contains_key(other),
    ensures
        after.contains_key(other),
        after[other] == before[other],
{
}

} // verus!
