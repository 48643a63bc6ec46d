pub mod color;
pub mod extract;
pub mod frame;
pub mod progress;
pub mod sampler;
pub mod utils;

use vstd::prelude::*;

use crate::color::{color_at, color_of_bytes, Color};
use crate::extract::{Context, CtxView, Handler};
use crate::frame::Frame;
use crate::progress::{listen, milestones_upto, send_signal, signal_channel, ProgressTracker};
use rayon::iter::{IndexedParallelIterator, ParallelIterator};
use rayon::slice::ParallelSlice;

verus! {

#[verifier::external_type_specification]
#[verifier::external_body]
pub struct ExDynamicImage(image::DynamicImage);

#[verifier::external_type_specification]
#[verifier::external_body]
pub struct ExImageError(image::ImageError);

#[verifier::external_type_specification]
#[verifier::external_body]
pub struct ExThreadPool(rayon::ThreadPool);

#[verifier::external_type_specification]
#[verifier::external_body]
pub struct ExThreadPoolBuildError(rayon::ThreadPoolBuildError);

/// A source image for a run: either a decoded handle, or the error its
/// decoding failed with, carried along so the engine can reject it before any
/// worker starts.
#[derive(Debug)]
pub enum Image {
    Handle(image::DynamicImage),
    Error(image::ImageError),
}

impl From<image::DynamicImage> for Image {
    fn from(img: image::DynamicImage) -> (r: Image) {
        Image::Handle(img)
    }
}

impl vstd::std_specs::convert::FromSpecImpl<image::DynamicImage> for Image {
    open spec fn obeys_from_spec() -> bool {
        true
    }

    open spec fn from_spec(img: image::DynamicImage) -> Image {
        Image::Handle(img)
    }
}

/// The engine's typed failures. Every one is fatal to its run: there is no
/// retry and no per-pixel recovery.
#[derive(Debug)]
pub enum EngineError {
    /// The source image could not be decoded.
    Decode(image::ImageError),
    /// The source image has zero area; no per-pixel quantity survives it.
    EmptyImage,
    /// The assembled output buffer could not be encoded.
    Encode(image::ImageError),
    /// The worker pool could not be constructed.
    PoolConstruction(rayon::ThreadPoolBuildError),
}

/// Relies on rayon's ThreadPoolBuilder: `build` with no explicit thread count
/// sizes the pool to the host's available parallelism, and
/// `use_current_thread` lets the calling thread take part. Nothing further is
/// assumed of the pool value or of when construction fails.
#[verifier::external_body]
fn build_thread_pool() -> (r: Result<rayon::ThreadPool, rayon::ThreadPoolBuildError>) {
    rayon::ThreadPoolBuilder::new().use_current_thread().build()
}

/// The RGBA8 normal form of a decoded image: its width, its height, and its
/// raw bytes, four per pixel in row-major order. Conversion is a pure
/// function of the decoded image value alone.
pub uninterp spec fn rgba8_norm(img: image::DynamicImage) -> (u32, u32, Seq<u8>);

/// Relies on image's DynamicImage::to_rgba8, ImageBuffer::dimensions and
/// ImageBuffer::into_raw: converting a decoded image is deterministic in the
/// image value, keeps its dimensions, and yields a freshly allocated RGBA8
/// buffer holding exactly `width * height` four-byte pixels.
#[verifier::external_body]
fn convert_to_rgba8_bytes(img: &image::DynamicImage) -> (r: (u32, u32, Vec<u8>))
    ensures
        r.0 == rgba8_norm(*img).0,
        r.1 == rgba8_norm(*img).1,
        r.2@ == rgba8_norm(*img).2,
        r.2@.len() == r.0 as int * r.1 as int * 4,
{
    let buf = img.to_rgba8();
    let (width, height) = buf.dimensions();
    (width, height, buf.into_raw())
}

/// What the PNG encoder produces for an RGBA8 buffer of the given dimensions.
pub uninterp spec fn png_encoding(data: Seq<u8>, width: u32, height: u32) -> Seq<u8>;

/// Relies on image::write_buffer_with_format with the PNG format: the encoder
/// writes one complete PNG stream into the cursor, a deterministic function
/// of the pixel bytes and the dimensions alone. Under this function's
/// `requires` it cannot fail: zero dimensions are the header's only
/// rejection, eight-bit RGBA is a valid combination, the image data is split
/// into bounded IDAT chunks, and a write into an in-memory cursor never
/// errors.
#[verifier::external_body]
fn encode_png(data: &Vec<u8>, width: u32, height: u32) -> (r: Result<Vec<u8>, image::ImageError>)
    requires
        width > 0,
        height > 0,
        data@.len() == width as int * height as int * 4,
    ensures
        r is Ok,
        r matches Ok(png) ==> png@ == png_encoding(data@, width, height),
{
    let mut cursor = std::io::Cursor::new(Vec::new());
    let r = image::write_buffer_with_format(
        &mut cursor,
        data.as_slice(),
        width,
        height,
        image::ColorType::Rgba8,
        image::ImageOutputFormat::Png,
    );
    match r {
        Ok(()) => Ok(cursor.into_inner()),
        Err(e) => Err(e),
    }
}

/// The extraction context the engine builds for linear pixel index `i` of a
/// `width` by `height` RGBA8 buffer whose pixel `i` holds `color`.
pub open spec fn ctx_at<U>(uniforms: U, width: u32, height: u32, color: Color, i: int) -> CtxView<
    U,
> {
    CtxView {
        x: (i % width as int) as u32,
        y: (i / width as int) as u32,
        width,
        height,
        color,
        uniforms,
    }
}

/// A linear pixel index below `width * height` decomposes into an in-range
/// column `i % width` and row `i / width`.
pub proof fn lemma_linear_index(width: int, height: int, i: int)
    requires
        0 < width,
        0 < height,
        0 <= i < width * height,
    ensures
        0 <= i % width < width,
        0 <= i / width < height,
{
    assert(0 <= i % width < width && 0 <= i / width < height) by (nonlinear_arith)
        requires
            0 < width,
            0 < height,
            0 <= i < width * height,
    ;
}

/// One pixel's evaluation, exactly as each worker performs it: recover the
/// coordinate from the linear chunk index, build the extraction context,
/// dispatch the transform, signal the progress reporter, and emit the output
/// pixel's four bytes.
fn shade_pixel<A, U, H: Handler<A, U>>(
    handler: &H,
    uniforms: &U,
    width: u32,
    height: u32,
    idx: usize,
    chunk: &[u8],
    tx: &std::sync::mpsc::Sender<()>,
) -> (out: [u8; 4])
    requires
        width > 0,
        height > 0,
        (idx as int) < width as int * height as int,
        chunk@.len() == 4,
        forall|ctx: CtxView<U>|
            ctx.wf() && ctx.uniforms == *uniforms ==> #[trigger] handler.pre(ctx),
    ensures
        handler.post(
            ctx_at(*uniforms, width, height, color_of_bytes(chunk@), idx as int),
            color_of_bytes(out@),
        ),
{
    proof {
        lemma_linear_index(width as int, height as int, idx as int);
    }
    let x = (idx % width as usize) as u32;
    let y = (idx / width as usize) as u32;
    let color = Color { r: chunk[0], g: chunk[1], b: chunk[2], a: chunk[3] };
    let ctx = Context::new(x, y, width, height, color, uniforms);
    let out_color = handler.handle(&ctx);
    send_signal(tx);
    let out: [u8; 4] = [out_color.r, out_color.g, out_color.b, out_color.a];
    proof {
        assert(color_of_bytes(out@) == out_color);
        assert(ctx@ == ctx_at(*uniforms, width, height, color_of_bytes(chunk@), idx as int));
    }
    out
}

/// Relies on rayon (ThreadPool::install, par_chunks, enumerate, map,
/// collect): `par_chunks(4)` splits the buffer into one four-byte chunk per
/// pixel in linear order, `enumerate` pairs each chunk with its index, and
/// collecting the indexed `map` into a `Vec` keeps each mapped result at its
/// chunk's index, with `shade_pixel` applied to every chunk exactly once;
/// `install` only runs the whole job inside the given pool.
#[verifier::external_body]
fn par_shade<A, U, H>(
    pool: &rayon::ThreadPool,
    handler: &H,
    uniforms: &U,
    width: u32,
    height: u32,
    data: &Vec<u8>,
    tx: &std::sync::mpsc::Sender<()>,
) -> (out: Vec<[u8; 4]>) where U: Sync, H: Handler<A, U> + Sync
    requires
        width > 0,
        height > 0,
        data@.len() == width as int * height as int * 4,
        forall|ctx: CtxView<U>|
            ctx.wf() && ctx.uniforms == *uniforms ==> #[trigger] handler.pre(ctx),
    ensures
        out@.len() == width as int * height as int,
        forall|i: int|
            0 <= i < out@.len() ==> #[trigger] handler.post(
                ctx_at(
                    *uniforms,
                    width,
                    height,
                    color_of_bytes(data@.subrange(4 * i, 4 * i + 4)),
                    i,
                ),
                color_of_bytes(out@[i]@),
            ),
{
    pool.install(|| {
        data.par_chunks(4)
            .enumerate()
            .map(|(idx, chunk)| shade_pixel(handler, uniforms, width, height, idx, chunk, tx))
            .collect()
    })
}

/// The engine: owns the run's shared uniform state and a worker pool sized to
/// the host's parallelism. The view of an engine is its uniform state.
#[derive(Debug)]
pub struct App<U> {
    uniforms: U,
    pool: rayon::ThreadPool,
}

impl<U> View for App<U> {
    type V = U;

    closed spec fn view(&self) -> U {
        self.uniforms
    }
}

/// Everything a successful run yields: the engine handed back for reuse, the
/// RGBA8-normalized source, the assembled output frame, the output's PNG
/// encoding, and the progress reporter's final count and milestones.
#[derive(Debug)]
pub struct RunOutput<U> {
    pub engine: App<U>,
    pub source: Frame,
    pub output: Frame,
    pub png: Vec<u8>,
    pub progress: ProgressTracker,
    pub milestones: Vec<u64>,
}

impl<U> App<U> {
    /// Builds an engine around `uniforms` with a worker pool sized to the
    /// host's available parallelism; fails only if pool construction itself
    /// fails.
    pub fn new(uniforms: U) -> (r: Result<App<U>, EngineError>)
        ensures
            r matches Ok(app) ==> app@ == uniforms,
            r matches Err(e) ==> e matches EngineError::PoolConstruction(_),
    {
        match build_thread_pool() {
            Ok(pool) => Ok(App { uniforms, pool }),
            Err(e) => Err(EngineError::PoolConstruction(e)),
        }
    }

    /// Rebinds the engine to new uniform state, keeping the same pool; no
    /// completed run is affected.
    pub fn set_uniforms(self, uniforms: U) -> (r: App<U>)
        ensures
            r@ == uniforms,
    {
        App { uniforms, ..self }
    }

    /// Shades every pixel of `frame` through the dispatch layer, in parallel,
    /// and assembles the output bytes in row-major pixel order.
    fn process<A, H: Handler<A, U> + Sync>(
        &self,
        frame: &Frame,
        handler: &H,
        tx: &std::sync::mpsc::Sender<()>,
    ) -> (out: Vec<u8>) where U: Sync
        requires
            frame.wf(),
            frame.width > 0,
            frame.height > 0,
            forall|ctx: CtxView<U>|
                ctx.wf() && ctx.uniforms == self@ ==> #[trigger] handler.pre(ctx),
        ensures
            out@.len() == frame.data@.len(),
            forall|i: int|
                0 <= i < frame.pixel_count() ==> #[trigger] handler.post(
                    ctx_at(self@, frame.width, frame.height, frame.pixel(i), i),
                    color_at(out@, i),
                ),
    {
        let shaded = par_shade(
            &self.pool,
            handler,
            &self.uniforms,
            frame.width,
            frame.height,
            &frame.data,
            tx,
        );
        let mut out: Vec<u8> = Vec::new();
        let mut k: usize = 0;
        while k < shaded.len()
            invariant
                k <= shaded@.len(),
                out@.len() == 4 * k,
                forall|i: int|
                    0 <= i < k ==> out@[4 * i] == shaded@[i]@[0] && out@[4 * i + 1]
                        == shaded@[i]@[1] && out@[4 * i + 2] == shaded@[i]@[2] && out@[4 * i + 3]
                        == shaded@[i]@[3],
            decreases shaded@.len() - k,
        {
            let px = shaded[k];
            out.push(px[0]);
            out.push(px[1]);
            out.push(px[2]);
            out.push(px[3]);
            k = k + 1;
        }
        proof {
            assert forall|i: int| 0 <= i < frame.pixel_count() implies #[trigger] handler.post(
                ctx_at(self@, frame.width, frame.height, frame.pixel(i), i),
                color_at(out@, i),
            ) by {
                assert(color_of_bytes(frame.data@.subrange(4 * i, 4 * i + 4)) == frame.pixel(i));
                assert(color_at(out@, i) == color_of_bytes(shaded@[i]@));
            }
        }
        out
    }

    /// The single orchestration entry point: normalize the source to RGBA8,
    /// reject an empty image, shade every pixel in parallel while feeding the
    /// progress reporter, drain the reporter, encode the assembled output as
    /// PNG, and hand the engine back for the next run.
    pub fn run<A, H>(self, image: Image, fragment: H) -> (r: Result<RunOutput<U>, EngineError>) where
        U: Sync,
        H: Handler<A, U> + Sync,

        requires
            forall|ctx: CtxView<U>|
                ctx.wf() && ctx.uniforms == self@ ==> #[trigger] fragment.pre(ctx),
        ensures
            image matches Image::Error(e) ==> r == Err::<RunOutput<U>, EngineError>(
                EngineError::Decode(e),
            ),
            r matches Err(EngineError::Decode(_)) ==> image matches Image::Error(_),
            r matches Err(EngineError::Encode(_)) ==> image matches Image::Handle(_),
            !(r matches Err(EngineError::PoolConstruction(_))),
            image matches Image::Handle(h) ==> ({
                &&& (r matches Err(EngineError::EmptyImage)) <==> (rgba8_norm(h).0 == 0
                    || rgba8_norm(h).1 == 0)
                &&& rgba8_norm(h).0 > 0 && rgba8_norm(h).1 > 0 ==> r is Ok
                &&& r matches Ok(o) ==> o.source.width == rgba8_norm(h).0 && o.source.height
                    == rgba8_norm(h).1 && o.source.data@ == rgba8_norm(h).2
            }),
            r matches Ok(o) ==> ({
                &&& o.engine@ == self@
                &&& o.source.wf()
                &&& o.source.width > 0
                &&& o.source.height > 0
                &&& o.output.wf()
                &&& o.output.width == o.source.width
                &&& o.output.height == o.source.height
                &&& forall|i: int|
                    0 <= i < o.source.pixel_count() ==> #[trigger] fragment.post(
                        ctx_at(self@, o.source.width, o.source.height, o.source.pixel(i), i),
                        o.output.pixel(i),
                    )
                &&& o.png@ == png_encoding(o.output.data@, o.output.width, o.output.height)
                &&& o.progress.wf()
                &&& o.progress.expected == o.source.pixel_count()
                &&& o.milestones@ == milestones_upto(o.progress.expected, o.progress.done as nat)
            }),
    {
        let img = match image {
            Image::Handle(img) => img,
            Image::Error(e) => { return Err(EngineError::Decode(e)) },
        };
        let (width, height, bytes) = convert_to_rgba8_bytes(&img);
        if width == 0 || height == 0 {
            return Err(EngineError::EmptyImage);
        }
        let frame = Frame { width, height, data: bytes };
        proof {
            assert(width as int * height as int <= u32::MAX as int * u32::MAX as int)
                by (nonlinear_arith)
                requires
                    width <= u32::MAX,
                    height <= u32::MAX,
            ;
            assert(1 <= width as int * height as int) by (nonlinear_arith)
                requires
                    1 <= width,
                    1 <= height,
            ;
        }
        let expected: u64 = width as u64 * height as u64;
        let (tx, rx) = signal_channel();
        let shaded_bytes = self.process(&frame, &fragment, &tx);
        let (tracker, milestones) = listen(&rx, expected);
        let output = Frame { width, height, data: shaded_bytes };
        match encode_png(&output.data, width, height) {
            Ok(png) => Ok(
                RunOutput {
                    engine: self,
                    source: frame,
                    output,
                    png,
                    progress: tracker,
                    milestones,
                },
            ),
            Err(e) => Err(EngineError::Encode(e)),
        }
    }
}

/// For a transform that can only hand back its input color — the identity
/// transform — the engine's per-pixel relation forces the output buffer to be
/// byte-for-byte identical to the RGBA8-normalized input.
pub proof fn lemma_identity_transform_is_lossless<A, U, H: Handler<A, U>>(
    fragment: H,
    uniforms: U,
    source: Frame,
    output: Frame,
)
    requires
        source.wf(),
        source.width > 0,
        source.height > 0,
        output.wf(),
        output.width == source.width,
        output.height == source.height,
        forall|ctx: CtxView<U>, out: Color| #[trigger] fragment.post(ctx, out) ==> out == ctx.color,
        forall|i: int|
            0 <= i < source.pixel_count() ==> #[trigger] fragment.post(
                ctx_at(uniforms, source.width, source.height, source.pixel(i), i),
                output.pixel(i),
            ),
    ensures
        output.data@ == source.data@,
{
    assert forall|j: int| 0 <= j < output.data@.len() implies output.data@[j]
        == source.data@[j] by {
        let i = j / 4;
        let c = j % 4;
        assert(j == 4 * i + c && 0 <= c < 4 && 0 <= i < source.pixel_count()) by (nonlinear_arith)
            requires
                0 <= j < source.pixel_count() * 4,
                i == j / 4,
                c == j % 4,
        ;
        assert(fragment.post(
            ctx_at(uniforms, source.width, source.height, source.pixel(i), i),
            output.pixel(i),
        ));
        assert(output.pixel(i) == source.pixel(i));
    }
    assert(output.data@ =~= source.data@);
}

} // verus!
