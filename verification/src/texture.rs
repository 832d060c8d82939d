//! Textures: decoding an image, describing the device image, its view and
//! its sampler, and staging the pixels for the one copy that fills it.

use vstd::prelude::*;

use crate::buffer::{copy_bytes, Buffer, BufferUsage, BufferView};
use crate::error::{ImageDefect, RenderError};
use crate::format::{TextureFormat, TextureUsage};
use crate::dds::{check_surface, surface_defect};
use crate::png::{check_stream, has_signature, is_png, stream_defect};

verus! {

/// Width, height and depth of an image, in texels.
#[derive(Clone, Copy, Debug, PartialEq, Eq, Structural)]
pub struct Extent3d {
    pub width: u32,
    pub height: u32,
    pub depth: u32,
}

/// A texel position within an image.
#[derive(Clone, Copy, Debug, PartialEq, Eq, Structural)]
pub struct Origin3d {
    pub x: u32,
    pub y: u32,
    pub z: u32,
}

/// The number of axes of an image.
#[derive(Clone, Copy, Debug, PartialEq, Eq, Structural)]
pub enum TextureDimension {
    D1,
    D2,
    D3,
}

/// The shape in which a view presents an image to shaders.
#[derive(Clone, Copy, Debug, PartialEq, Eq, Structural)]
pub enum TextureViewDimension {
    D1,
    D2,
    D2Array,
    Cube,
    CubeArray,
    D3,
}

/// The part of an image a view shows.
#[derive(Clone, Copy, Debug, PartialEq, Eq, Structural)]
pub enum TextureAspect {
    All,
    StencilOnly,
    DepthOnly,
}

/// What a sampler does with coordinates outside the image.
#[derive(Clone, Copy, Debug, PartialEq, Eq, Structural)]
pub enum AddressMode {
    ClampToEdge,
    Repeat,
    MirrorRepeat,
}

/// How a sampler chooses among neighbouring texels.
#[derive(Clone, Copy, Debug, PartialEq, Eq, Structural)]
pub enum FilterMode {
    Nearest,
    Linear,
}

/// The comparison a sampler applies to what it reads.
#[derive(Clone, Copy, Debug, PartialEq, Eq, Structural)]
pub enum CompareFunction {
    Never,
    Less,
    Equal,
    LessEqual,
    Greater,
    NotEqual,
    GreaterEqual,
    Always,
}

/// The device image, as the device is asked to create it.
#[derive(Clone, Copy, Debug, PartialEq, Eq, Structural)]
pub struct TextureDescriptor {
    pub size: Extent3d,
    pub array_layer_count: u32,
    pub mip_level_count: u32,
    pub sample_count: u32,
    pub dimension: TextureDimension,
    pub format: TextureFormat,
    pub usage: TextureUsage,
}

/// The view through which shaders read the whole image.
#[derive(Clone, Copy, Debug, PartialEq, Eq, Structural)]
pub struct TextureViewDescriptor {
    pub format: TextureFormat,
    pub dimension: TextureViewDimension,
    pub aspect: TextureAspect,
    pub base_mip_level: u32,
    pub level_count: u32,
    pub base_array_layer: u32,
    pub array_layer_count: u32,
}

/// How shaders sample the image.  The level-of-detail clamps are whole
/// numbers of mip levels.
#[derive(Clone, Copy, Debug, PartialEq, Eq, Structural)]
pub struct SamplerDescriptor {
    pub address_mode_u: AddressMode,
    pub address_mode_v: AddressMode,
    pub address_mode_w: AddressMode,
    pub mag_filter: FilterMode,
    pub min_filter: FilterMode,
    pub mipmap_filter: FilterMode,
    pub lod_min_clamp: i32,
    pub lod_max_clamp: i32,
    pub compare: CompareFunction,
}

/// Where in the staging buffer the pixels of a copy lie.
#[derive(Clone, Copy, Debug, PartialEq, Eq, Structural)]
pub struct BufferCopyView {
    pub offset: u64,
    pub bytes_per_row: u32,
    pub rows_per_image: u32,
}

/// Where in the image the pixels of a copy go.
#[derive(Clone, Copy, Debug, PartialEq, Eq, Structural)]
pub struct TextureCopyView {
    pub mip_level: u32,
    pub array_layer: u32,
    pub origin: Origin3d,
}

/// A texture resource: the image, the view onto it and the sampler for it.
#[derive(Clone, Copy, Debug, PartialEq, Eq, Structural)]
pub struct Texture {
    pub texture: TextureDescriptor,
    pub view: TextureViewDescriptor,
    pub sampler: SamplerDescriptor,
}

/// The mathematical content of a [`TextureUpload`].
pub struct TextureUploadView {
    pub staging: BufferView,
    pub source: BufferCopyView,
    pub destination: TextureCopyView,
    pub copy_size: Extent3d,
}

/// The one copy command that fills a texture from a staging buffer.  The
/// texture is ready only after the caller has submitted it to the queue.
#[derive(Clone, Debug, PartialEq, Eq)]
pub struct TextureUpload {
    pub staging: Buffer,
    pub source: BufferCopyView,
    pub destination: TextureCopyView,
    pub copy_size: Extent3d,
}

impl View for TextureUpload {
    type V = TextureUploadView;

    open spec fn view(&self) -> TextureUploadView {
        TextureUploadView {
            staging: self.staging@,
            source: self.source,
            destination: self.destination,
            copy_size: self.copy_size,
        }
    }
}

/// The mathematical content of a [`DecodedImage`].
pub struct DecodedImageView {
    pub width: u32,
    pub height: u32,
    pub rgba8: Option<Seq<u8>>,
}

/// An image after decoding: its dimensions and, when its samples are 8-bit
/// red, green, blue and alpha, those samples row by row.
#[derive(Clone, Debug, PartialEq, Eq)]
pub struct DecodedImage {
    pub width: u32,
    pub height: u32,
    pub rgba8: Option<Vec<u8>>,
}

impl View for DecodedImage {
    type V = DecodedImageView;

    open spec fn view(&self) -> DecodedImageView {
        DecodedImageView {
            width: self.width,
            height: self.height,
            rgba8: match self.rgba8 {
                Some(samples) => Some(samples@),
                None => None,
            },
        }
    }
}

/// What the image decoder makes of a byte blob: the image, or nothing when
/// the bytes are not an image it can read.
pub uninterp spec fn decoded(bytes: Seq<u8>) -> Option<DecodedImageView>;

/// What keeps a byte blob from being handed to the decoder, if anything
/// does.  A PNG stream and a DDS surface are looked over, each in its own
/// way; bytes that start otherwise are turned away.
///
/// The decoder would take such bytes for other containers.  As it reads
/// them, JPEG, WebP, Radiance HDR, PNM and farbfeld never hold 8-bit RGBA
/// samples, so nothing is lost with them.  GIF, BMP, ICO and TIFF can, but
/// it is not known on which inputs their decoders return, so they stay out.
pub open spec fn container_defect(bytes: Seq<u8>) -> Option<ImageDefect> {
    if has_signature(bytes) {
        stream_defect(bytes)
    } else {
        surface_defect(bytes)
    }
}

/// Looks a byte blob over before it is decoded.
pub fn check_container(bytes: &[u8]) -> (r: Option<ImageDefect>)
    ensures
        r == container_defect(bytes@),
{
    if is_png(bytes) {
        check_stream(bytes)
    } else {
        check_surface(bytes)
    }
}

/// Decodes a PNG stream or a DDS surface that [`check_container`] has let
/// through.
///
/// Calls `image::load_from_memory`, then reads the dimensions and, through
/// `DynamicImage::as_rgba8`, the samples when they are stored as 8-bit RGBA.
/// Trusted: on bytes without a defect the decoder returns, with an image or
/// with an error, and the outcome is a function of the bytes alone, named
/// [`decoded`].
#[verifier::external_body]
fn decode(bytes: &[u8]) -> (r: Option<DecodedImage>)
    requires
        container_defect(bytes@) is None,
    ensures
        r matches Some(img) ==> decoded(bytes@) == Some(img@),
        r is None ==> decoded(bytes@) is None,
{
    match image::load_from_memory(bytes) {
        Ok(img) => {
            let (width, height) = image::GenericImageView::dimensions(&img);
            let rgba8 = match img.as_rgba8() {
                Some(samples) => Some(samples.clone().into_raw()),
                None => None,
            };
            Some(DecodedImage { width, height, rgba8 })
        },
        Err(_) => None,
    }
}

/// The sampler every texture of this renderer uses: clamped at the edges,
/// smooth when magnified, nearest texel otherwise, never comparing.
pub open spec fn texture_sampler() -> SamplerDescriptor {
    SamplerDescriptor {
        address_mode_u: AddressMode::ClampToEdge,
        address_mode_v: AddressMode::ClampToEdge,
        address_mode_w: AddressMode::ClampToEdge,
        mag_filter: FilterMode::Linear,
        min_filter: FilterMode::Nearest,
        mipmap_filter: FilterMode::Nearest,
        lod_min_clamp: -100i32,
        lod_max_clamp: 100,
        compare: CompareFunction::Always,
    }
}

/// The texture resource for an image of the given size: one layer, one mip
/// level, one sample, sRGB colour, sampled by shaders and filled by a copy.
pub open spec fn texture_for(width: u32, height: u32) -> Texture {
    Texture {
        texture: TextureDescriptor {
            size: Extent3d { width, height, depth: 1 },
            array_layer_count: 1,
            mip_level_count: 1,
            sample_count: 1,
            dimension: TextureDimension::D2,
            format: TextureFormat::Rgba8UnormSrgb,
            usage: TextureUsage::sampled_copy_target(),
        },
        view: TextureViewDescriptor {
            format: TextureFormat::Rgba8UnormSrgb,
            dimension: TextureViewDimension::D2,
            aspect: TextureAspect::All,
            base_mip_level: 0,
            level_count: 1,
            base_array_layer: 0,
            array_layer_count: 1,
        },
        sampler: texture_sampler(),
    }
}

/// The copy that fills a texture of the given size from its samples: rows
/// of four bytes per texel, from the start of the staging buffer to the
/// origin of the first mip level.
pub open spec fn upload_for(width: u32, height: u32, samples: Seq<u8>) -> TextureUploadView {
    TextureUploadView {
        staging: BufferView { usage: BufferUsage::CopySrc, contents: samples },
        source: BufferCopyView {
            offset: 0,
            bytes_per_row: (4 * width) as u32,
            rows_per_image: height,
        },
        destination: TextureCopyView {
            mip_level: 0,
            array_layer: 0,
            origin: Origin3d { x: 0, y: 0, z: 0 },
        },
        copy_size: Extent3d { width, height, depth: 1 },
    }
}

/// What keeps a decoded image from becoming a texture, if anything does.
pub open spec fn image_defect(img: DecodedImageView) -> Option<ImageDefect> {
    match img.rgba8 {
        None => Some(ImageDefect::UnsupportedFormat),
        Some(samples) => if 4 * img.width > u32::MAX {
            Some(ImageDefect::TooLarge)
        } else if samples.len() != 4 * img.width * img.height {
            Some(ImageDefect::SizeMismatch)
        } else {
            None
        },
    }
}

/// The texture and its upload for a decoded image, or the reason there is
/// none.
pub open spec fn texture_from_image(img: DecodedImageView) -> Result<
    (Texture, TextureUploadView),
    RenderError,
> {
    match image_defect(img) {
        Some(defect) => Err(RenderError::ImageDecodeError(defect)),
        None => Ok(
            (
                texture_for(img.width, img.height),
                upload_for(img.width, img.height, img.rgba8->Some_0),
            ),
        ),
    }
}

/// The texture and its upload for an image file's bytes, or the reason
/// there is none.
pub open spec fn texture_from_bytes(bytes: Seq<u8>) -> Result<
    (Texture, TextureUploadView),
    RenderError,
> {
    match container_defect(bytes) {
        Some(defect) => Err(RenderError::ImageDecodeError(defect)),
        None => match decoded(bytes) {
            None => Err(RenderError::ImageDecodeError(ImageDefect::Malformed)),
            Some(img) => texture_from_image(img),
        },
    }
}

/// Whether an exec result carries what the mathematical result says.
pub open spec fn upload_result_is(
    r: Result<(Texture, TextureUpload), RenderError>,
    expected: Result<(Texture, TextureUploadView), RenderError>,
) -> bool {
    match r {
        Ok((texture, upload)) => expected == Ok::<(Texture, TextureUploadView), RenderError>(
            (texture, upload@),
        ),
        Err(e) => expected == Err::<(Texture, TextureUploadView), RenderError>(e),
    }
}

impl Texture {
    /// Decodes an image file and describes the texture that shows it.
    ///
    /// The bytes are looked over first: what is neither a PNG stream nor a
    /// DDS surface, or declares an image too large for this machine, is
    /// turned away with the defect [`container_defect`] names and never
    /// reaches the decoder.  Bytes the decoder cannot read give
    /// `ImageDecodeError(Malformed)`; what decodes is handed to
    /// [`Texture::from_image`], whatever the file stored: an image that the
    /// decoder expands to 8-bit RGBA becomes a texture as one stored so.  On
    /// any error there is no texture at all.
    pub fn from_bytes(bytes: &[u8]) -> (r: Result<(Texture, TextureUpload), RenderError>)
        ensures
            upload_result_is(r, texture_from_bytes(bytes@)),
    {
        match check_container(bytes) {
            Some(defect) => Err(RenderError::ImageDecodeError(defect)),
            None => match decode(bytes) {
                None => Err(RenderError::ImageDecodeError(ImageDefect::Malformed)),
                Some(img) => Texture::from_image(&img),
            },
        }
    }

    /// Describes the texture that shows a decoded image, and the copy that
    /// fills it.
    ///
    /// The image must hold 8-bit RGBA samples, four bytes for each texel of
    /// its width times its height, and a row must fit the copy command.
    /// Then the texture has the extent of the image at depth one, and the
    /// upload stages exactly the samples, with a row pitch of four bytes
    /// times the width.  The caller submits the upload; nothing is submitted
    /// here.
    pub fn from_image(img: &DecodedImage) -> (r: Result<(Texture, TextureUpload), RenderError>)
        ensures
            upload_result_is(r, texture_from_image(img@)),
            r matches Ok((texture, upload)) ==> texture.texture.size == (Extent3d {
                width: img.width,
                height: img.height,
                depth: 1,
            }) && upload.copy_size == texture.texture.size && upload.source.bytes_per_row == 4
                * img.width,
    {
        let samples = match &img.rgba8 {
            None => {
                return Err(RenderError::ImageDecodeError(ImageDefect::UnsupportedFormat));
            },
            Some(samples) => samples,
        };
        if img.width > u32::MAX / 4 {
            return Err(RenderError::ImageDecodeError(ImageDefect::TooLarge));
        }
        let bytes_per_row: u32 = 4 * img.width;
        assert(bytes_per_row as u64 * img.height as u64 <= 0xffff_ffff * 0xffff_ffff)
            by (nonlinear_arith)
            requires
                bytes_per_row <= 0xffff_ffff,
                img.height <= 0xffff_ffff,
        ;
        let expected: u64 = bytes_per_row as u64 * img.height as u64;
        if samples.len() as u64 != expected {
            return Err(RenderError::ImageDecodeError(ImageDefect::SizeMismatch));
        }
        let size = Extent3d { width: img.width, height: img.height, depth: 1 };
        let texture = Texture {
            texture: TextureDescriptor {
                size,
                array_layer_count: 1,
                mip_level_count: 1,
                sample_count: 1,
                dimension: TextureDimension::D2,
                format: TextureFormat::Rgba8UnormSrgb,
                usage: TextureUsage {
                    copy_src: false,
                    copy_dst: true,
                    sampled: true,
                    storage: false,
                    output_attachment: false,
                },
            },
            view: TextureViewDescriptor {
                format: TextureFormat::Rgba8UnormSrgb,
                dimension: TextureViewDimension::D2,
                aspect: TextureAspect::All,
                base_mip_level: 0,
                level_count: 1,
                base_array_layer: 0,
                array_layer_count: 1,
            },
            sampler: SamplerDescriptor {
                address_mode_u: AddressMode::ClampToEdge,
                address_mode_v: AddressMode::ClampToEdge,
                address_mode_w: AddressMode::ClampToEdge,
                mag_filter: FilterMode::Linear,
                min_filter: FilterMode::Nearest,
                mipmap_filter: FilterMode::Nearest,
                lod_min_clamp: -100,
                lod_max_clamp: 100,
                compare: CompareFunction::Always,
            },
        };
        let upload = TextureUpload {
            staging: Buffer::from_vec(copy_bytes(samples.as_slice()), BufferUsage::CopySrc),
            source: BufferCopyView { offset: 0, bytes_per_row, rows_per_image: img.height },
            destination: TextureCopyView {
                mip_level: 0,
                array_layer: 0,
                origin: Origin3d { x: 0, y: 0, z: 0 },
            },
            copy_size: size,
        };
        Ok((texture, upload))
    }
}

/// An image of well-formed 8-bit RGBA samples always becomes a texture, and
/// the texture has exactly the extent of the image, one texel deep.
pub proof fn lemma_rgba_image_gives_texture(img: DecodedImageView)
    requires
        img.rgba8 matches Some(samples) && samples.len() == 4 * img.width * img.height,
        4 * img.width <= u32::MAX,
    ensures
        texture_from_image(img) matches Ok((texture, upload)) && texture.texture.size == (Extent3d {
            width: img.width,
            height: img.height,
            depth: 1,
        }) && upload.copy_size == texture.texture.size && upload.staging.contents
            == img.rgba8->Some_0 && upload.source.bytes_per_row == 4 * img.width,
{
}

/// Bytes that decode to well-formed 8-bit RGBA samples of some width and
/// height give a texture of exactly that width and height, one texel deep.
pub proof fn lemma_rgba_bytes_give_texture(bytes: Seq<u8>, width: u32, height: u32)
    requires
        container_defect(bytes) is None,
        decoded(bytes) matches Some(img) && img.width == width && img.height == height && (
        img.rgba8 matches Some(samples) && samples.len() == 4 * width * height),
        4 * width <= u32::MAX,
    ensures
        texture_from_bytes(bytes) matches Ok((texture, upload)) && texture.texture.size
            == (Extent3d { width, height, depth: 1 }) && upload.copy_size == texture.texture.size,
{
    lemma_rgba_image_gives_texture(decoded(bytes)->Some_0);
}

/// Bytes that are turned away or do not decode give no texture, only the
/// decoding error.
pub proof fn lemma_malformed_bytes_give_no_texture(bytes: Seq<u8>)
    requires
        container_defect(bytes) is Some || decoded(bytes) is None,
    ensures
        texture_from_bytes(bytes) matches Err(RenderError::ImageDecodeError(_)),
        container_defect(bytes) matches Some(defect) ==> texture_from_bytes(bytes) == Err::<
            (Texture, TextureUploadView),
            RenderError,
        >(RenderError::ImageDecodeError(defect)),
        container_defect(bytes) is None ==> texture_from_bytes(bytes) == Err::<
            (Texture, TextureUploadView),
            RenderError,
        >(RenderError::ImageDecodeError(ImageDefect::Malformed)),
{
}

} // verus!
