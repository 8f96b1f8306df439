//! The integer parts of comparing a native screenshot with a rendered
//! replica: decoding both images, bringing them to a common size, the
//! per-pixel pass (absolute channel differences, pixels over the mismatch
//! threshold, the red heatmap), and encoding the heatmap.
use vstd::prelude::*;
use crate::native_format::{base64_standard, encode_base64};
use crate::text::to_owned_string;

verus! {

/// Which similarity metric drives the headline score.
#[derive(Debug, Clone, Copy, PartialEq, Eq, Structural)]
pub enum Metric {
    /// Structural similarity on luma: tolerant of anti-aliasing, sub-pixel
    /// and scale artifacts. The default.
    Ssim,
    /// One minus the mean absolute error over 255: cheaper, harsher on
    /// colour shifts.
    Mae,
}

impl Default for Metric {
    fn default() -> (r: Self)
        ensures
            r == Metric::Ssim,
    {
        Metric::Ssim
    }
}

/// The name a report gives its metric.
pub open spec fn metric_name(m: Metric) -> Seq<char> {
    match m {
        Metric::Ssim => "ssim"@,
        Metric::Mae => "mae"@,
    }
}

impl Metric {
    /// `ssim` or `mae`.
    pub fn name(&self) -> (r: &'static str)
        ensures
            r@ == metric_name(*self),
    {
        match self {
            Metric::Ssim => "ssim",
            Metric::Mae => "mae",
        }
    }
}

/// How a comparison runs.
#[derive(Debug, Clone, Copy)]
pub struct DiffOptions {
    pub metric: Metric,
    /// A pixel counts as mismatched when its largest channel difference
    /// exceeds this.
    pub per_pixel_threshold: u8,
    /// Cap on the longer edge of the common canvas.
    pub max_edge: u32,
}

impl Default for DiffOptions {
    fn default() -> (r: Self)
        ensures
            r.metric == Metric::Ssim,
            r.per_pixel_threshold == 16,
            r.max_edge == 1024,
    {
        DiffOptions { metric: Metric::Ssim, per_pixel_threshold: 16, max_edge: 1024 }
    }
}

// ---------------------------------------------------------------------------
// Images

/// An RGBA8 image: width, height and row-major pixel bytes.
#[derive(Debug)]
pub struct RgbaPixels {
    pub width: u32,
    pub height: u32,
    pub data: Vec<u8>,
}

/// Four bytes per pixel, nothing more.
pub open spec fn rgba_wf(width: u32, height: u32, len: nat) -> bool {
    len == 4 * width * height
}

impl RgbaPixels {
    pub open spec fn wf(&self) -> bool {
        rgba_wf(self.width, self.height, self.data@.len())
    }
}

/// Name for what `image::load_from_memory` followed by `to_rgba8` gives for
/// a byte string: width, height and pixel bytes, or the text of its error.
pub uninterp spec fn decoded_rgba(bytes: Seq<u8>) -> Result<(u32, u32, Seq<u8>), Seq<char>>;

/// Decodes an image with `image::load_from_memory` and converts it with
/// `to_rgba8`. Trusted: the outcome depends on the bytes alone, and a decoded
/// image holds four bytes per pixel (the decoder's buffer is sized from its
/// dimensions, and the conversion allocates one of the same size).
#[verifier::external_body]
fn decode_rgba(bytes: &[u8]) -> (r: Result<RgbaPixels, String>)
    ensures
        match r {
            Ok(p) => decoded_rgba(bytes@) == Ok::<_, Seq<char>>((p.width, p.height, p.data@)) && p.wf(),
            Err(e) => decoded_rgba(bytes@) == Err::<(u32, u32, Seq<u8>), _>(e@),
        },
{
    match image::load_from_memory(bytes) {
        Ok(img) => {
            let i = img.to_rgba8();
            Ok(RgbaPixels { width: i.width(), height: i.height(), data: i.into_raw() })
        },
        Err(e) => Err(e.to_string()),
    }
}

/// Name for what `image::imageops::resize` with the triangle filter gives
/// for an RGBA image resized to a target width and height: its pixel bytes.
pub uninterp spec fn resized_rgba(width: u32, height: u32, data: Seq<u8>, tw: u32, th: u32) -> Seq<u8>;

/// The buffers a resize allocates fit in memory: the intermediate image of
/// 32-bit float channels (source width by target height) and the result.
pub open spec fn resize_fits(width: u32, tw: u32, th: u32) -> bool {
    16 * width * th <= isize::MAX && 16 * tw * th <= isize::MAX
}

/// Resizes with `image::imageops::resize` and `FilterType::Triangle`.
/// Trusted: the pixels depend on the image and the target size alone, and
/// the result holds four bytes per pixel of the target size (every branch of
/// the resize allocates its output from the target dimensions). The resize
/// panics when a buffer it allocates overflows; the bound on the sizes
/// leaves that out.
#[verifier::external_body]
fn resize_rgba(img: &RgbaPixels, tw: u32, th: u32) -> (r: Vec<u8>)
    requires
        img.wf(),
        resize_fits(img.width, tw, th),
    ensures
        r@ == resized_rgba(img.width, img.height, img.data@, tw, th),
        rgba_wf(tw, th, r@.len()),
{
    let buf = image::RgbaImage::from_raw(img.width, img.height, img.data.clone()).unwrap();
    image::imageops::resize(&buf, tw, th, image::imageops::FilterType::Triangle).into_raw()
}

/// Name for the PNG bytes `DynamicImage::write_to` with `ImageFormat::Png`
/// produces for an RGBA image, or the text of its error.
pub uninterp spec fn png_encoded(width: u32, height: u32, data: Seq<u8>) -> Result<Seq<u8>, Seq<char>>;

/// Encodes an RGBA image as PNG with `DynamicImage::write_to`. Trusted: the
/// outcome depends on the image alone.
#[verifier::external_body]
fn encode_png(width: u32, height: u32, data: Vec<u8>) -> (r: Result<Vec<u8>, String>)
    requires
        rgba_wf(width, height, data@.len()),
    ensures
        match r {
            Ok(p) => png_encoded(width, height, data@) == Ok::<_, Seq<char>>(p@),
            Err(e) => png_encoded(width, height, data@) == Err::<Seq<u8>, _>(e@),
        },
{
    let img = image::RgbaImage::from_raw(width, height, data).unwrap();
    let mut png: Vec<u8> = Vec::new();
    match image::DynamicImage::ImageRgba8(img).write_to(&mut std::io::Cursor::new(&mut png), image::ImageFormat::Png) {
        Ok(()) => Ok(png),
        Err(e) => Err(e.to_string()),
    }
}

/// Decodes both images of a comparison: the first failure is reported as
/// the image that could not be decoded.
pub fn decode_pair(a: &[u8], b: &[u8]) -> (r: Result<(RgbaPixels, RgbaPixels), String>)
    ensures
        decoded_rgba(a@) is Err ==> (r matches Err(m) && m@ == "decoding first image"@),
        decoded_rgba(a@) is Ok && decoded_rgba(b@) is Err ==> (r matches Err(m) && m@ == "decoding second image"@),
        decoded_rgba(a@) is Ok && decoded_rgba(b@) is Ok ==> (r matches Ok((x, y))
            && decoded_rgba(a@) == Ok::<_, Seq<char>>((x.width, x.height, x.data@))
            && decoded_rgba(b@) == Ok::<_, Seq<char>>((y.width, y.height, y.data@))
            && x.wf() && y.wf()),
{
    let x = match decode_rgba(a) {
        Ok(x) => x,
        Err(_) => { return Err(to_owned_string("decoding first image")); },
    };
    let y = match decode_rgba(b) {
        Ok(y) => y,
        Err(_) => { return Err(to_owned_string("decoding second image")); },
    };
    Ok((x, y))
}

/// An image at the target size: a copy when it already has it, else resized.
pub fn resize_if_needed(img: &RgbaPixels, tw: u32, th: u32) -> (r: RgbaPixels)
    requires
        img.wf(),
        resize_fits(img.width, tw, th),
    ensures
        r.width == tw,
        r.height == th,
        r.wf(),
        img.width == tw && img.height == th ==> r.data@ == img.data@,
        !(img.width == tw && img.height == th) ==> r.data@ == resized_rgba(img.width, img.height, img.data@, tw, th),
{
    if img.width == tw && img.height == th {
        RgbaPixels { width: tw, height: th, data: img.data.clone() }
    } else {
        RgbaPixels { width: tw, height: th, data: resize_rgba(img, tw, th) }
    }
}

// ---------------------------------------------------------------------------
// The per-pixel pass

/// The absolute difference of two channel values.
pub open spec fn absdiff(x: u8, y: u8) -> nat {
    if x >= y { (x - y) as nat } else { (y - x) as nat }
}

/// The largest of three numbers.
pub open spec fn max3(x: nat, y: nat, z: nat) -> nat {
    if x >= y && x >= z { x } else if y >= z { y } else { z }
}

/// The summed red, green and blue differences of pixel `i`.
pub open spec fn px_sum(a: Seq<u8>, b: Seq<u8>, i: int) -> nat {
    absdiff(a[4 * i], b[4 * i]) + absdiff(a[4 * i + 1], b[4 * i + 1]) + absdiff(a[4 * i + 2], b[4 * i + 2])
}

/// The largest of the red, green and blue differences of pixel `i`.
pub open spec fn px_max(a: Seq<u8>, b: Seq<u8>, i: int) -> nat {
    max3(absdiff(a[4 * i], b[4 * i]), absdiff(a[4 * i + 1], b[4 * i + 1]), absdiff(a[4 * i + 2], b[4 * i + 2]))
}

/// The summed differences of the first `n` pixels.
pub open spec fn sum_upto(a: Seq<u8>, b: Seq<u8>, n: nat) -> nat
    decreases n,
{
    if n == 0 { 0 } else { sum_upto(a, b, (n - 1) as nat) + px_sum(a, b, n - 1) }
}

/// How many of the first `n` pixels have a difference over the threshold.
pub open spec fn mismatch_upto(a: Seq<u8>, b: Seq<u8>, t: u8, n: nat) -> nat
    decreases n,
{
    if n == 0 { 0 } else { mismatch_upto(a, b, t, (n - 1) as nat) + if px_max(a, b, n - 1) > t { 1nat } else { 0nat } }
}

/// The heatmap of the first `n` pixels: opaque red, as bright as the
/// pixel's largest channel difference.
pub open spec fn heatmap_upto(a: Seq<u8>, b: Seq<u8>, n: nat) -> Seq<u8>
    decreases n,
{
    if n == 0 {
        Seq::empty()
    } else {
        heatmap_upto(a, b, (n - 1) as nat) + seq![px_max(a, b, n - 1) as u8, 0u8, 0u8, 255u8]
    }
}

/// Pixel `i` of an RGBA buffer is opaque black.
pub open spec fn opaque_black_at(h: Seq<u8>, i: int) -> bool {
    h[4 * i] == 0 && h[4 * i + 1] == 0 && h[4 * i + 2] == 0 && h[4 * i + 3] == 255
}

/// Identical images differ nowhere: the summed difference and the mismatch
/// count are zero, and every heatmap pixel is opaque black.
pub proof fn law_identical_images_have_no_difference(a: Seq<u8>, t: u8, n: nat)
    requires
        4 * n <= a.len(),
    ensures
        sum_upto(a, a, n) == 0,
        mismatch_upto(a, a, t, n) == 0,
        heatmap_upto(a, a, n).len() == 4 * n,
        forall|i: int| 0 <= i < n ==> #[trigger] opaque_black_at(heatmap_upto(a, a, n), i),
    decreases n,
{
    if n > 0 {
        let m = (n - 1) as nat;
        law_identical_images_have_no_difference(a, t, m);
        let h = heatmap_upto(a, a, m);
        let hn = heatmap_upto(a, a, n);
        assert(px_max(a, a, m as int) == 0);
        assert forall|i: int| 0 <= i < n implies #[trigger] opaque_black_at(hn, i) by {
            if i < m {
                assert(opaque_black_at(h, i));
                assert(hn[4 * i] == h[4 * i]);
                assert(hn[4 * i + 1] == h[4 * i + 1]);
                assert(hn[4 * i + 2] == h[4 * i + 2]);
                assert(hn[4 * i + 3] == h[4 * i + 3]);
            }
        }
    }
}

/// Pixel `m` extends the pass as follows, for every pair of images and every
/// threshold: the summed difference grows by the red, green and blue
/// absolute differences of the pixel; the mismatch count grows by one
/// exactly when one of those three differences exceeds the threshold; and
/// the heatmap gains one opaque red pixel whose red byte is the largest of
/// the three differences (at least each of them, and equal to one of them).
pub proof fn law_pixel_pass_step(a: Seq<u8>, b: Seq<u8>, t: u8, m: nat)
    requires
        4 * m + 4 <= a.len(),
        a.len() == b.len(),
    ensures
        ({
            let k: int = 4 * m as int;
            let dr: int = if a[k] >= b[k] { a[k] - b[k] } else { b[k] - a[k] };
            let dg: int = if a[k + 1] >= b[k + 1] { a[k + 1] - b[k + 1] } else { b[k + 1] - a[k + 1] };
            let db: int = if a[k + 2] >= b[k + 2] { a[k + 2] - b[k + 2] } else { b[k + 2] - a[k + 2] };
            let h = heatmap_upto(a, b, m + 1);
            &&& sum_upto(a, b, m + 1) == sum_upto(a, b, m) + dr + dg + db
            &&& mismatch_upto(a, b, t, m + 1) == mismatch_upto(a, b, t, m)
                    + if dr > t || dg > t || db > t { 1int } else { 0int }
            &&& h.len() == heatmap_upto(a, b, m).len() + 4
            &&& h.take(heatmap_upto(a, b, m).len() as int) == heatmap_upto(a, b, m)
            &&& dr <= h[k] && dg <= h[k] && db <= h[k]
            &&& (h[k] == dr || h[k] == dg || h[k] == db)
            &&& h[k + 1] == 0 && h[k + 2] == 0 && h[k + 3] == 255
        }),
{
    lemma_heatmap_len(a, b, m);
    let h0 = heatmap_upto(a, b, m);
    let h = heatmap_upto(a, b, m + 1);
    assert(h =~= h0 + seq![px_max(a, b, m as int) as u8, 0u8, 0u8, 255u8]);
    assert(h.take(h0.len() as int) =~= h0);
}

/// What the per-pixel pass measures.
#[derive(Debug)]
pub struct PixelPass {
    /// The summed absolute red, green and blue differences.
    pub sum_abs: u64,
    /// The number of pixels whose largest channel difference exceeds the
    /// threshold.
    pub mismatched: u64,
    /// The RGBA heatmap.
    pub heatmap: Vec<u8>,
}

proof fn lemma_sum_bound(a: Seq<u8>, b: Seq<u8>, n: nat)
    ensures
        sum_upto(a, b, n) <= 765 * n,
    decreases n,
{
    if n > 0 {
        lemma_sum_bound(a, b, (n - 1) as nat);
    }
}

proof fn lemma_mismatch_bound(a: Seq<u8>, b: Seq<u8>, t: u8, n: nat)
    ensures
        mismatch_upto(a, b, t, n) <= n,
    decreases n,
{
    if n > 0 {
        lemma_mismatch_bound(a, b, t, (n - 1) as nat);
    }
}

fn absdiff_exec(x: u8, y: u8) -> (r: u8)
    ensures
        r == absdiff(x, y),
{
    if x >= y { x - y } else { y - x }
}

/// Walks two images of the same size pixel by pixel (alpha ignored): sums
/// the absolute channel differences, counts the pixels whose largest
/// difference exceeds the threshold, and paints the heatmap.
pub fn pixel_pass(a: &Vec<u8>, b: &Vec<u8>, threshold: u8) -> (r: PixelPass)
    requires
        a@.len() == b@.len(),
        a@.len() % 4 == 0,
        765 * (a@.len() / 4) <= u64::MAX,
    ensures
        r.sum_abs == sum_upto(a@, b@, a@.len() / 4),
        r.mismatched == mismatch_upto(a@, b@, threshold, a@.len() / 4),
        r.heatmap@ == heatmap_upto(a@, b@, a@.len() / 4),
{
    let n: usize = a.len() / 4;
    let mut sum_abs: u64 = 0;
    let mut mismatched: u64 = 0;
    let mut heat: Vec<u8> = Vec::new();
    let mut i: usize = 0;
    let mut k: usize = 0;
    proof { assert(4 * n == a@.len()); }
    while i < n
        invariant
            n == a@.len() / 4,
            4 * n == a@.len(),
            a@.len() <= usize::MAX,
            a@.len() == b@.len(),
            a@.len() % 4 == 0,
            765 * n <= u64::MAX,
            i <= n,
            k == 4 * i,
            sum_abs == sum_upto(a@, b@, i as nat),
            mismatched == mismatch_upto(a@, b@, threshold, i as nat),
            heat@ == heatmap_upto(a@, b@, i as nat),
        decreases n - i,
    {
        proof {
            lemma_sum_bound(a@, b@, (i + 1) as nat);
            lemma_mismatch_bound(a@, b@, threshold, i as nat);
            assert(765 * (i + 1) <= 765 * n) by (nonlinear_arith)
                requires i + 1 <= n;
        }
        let dr = absdiff_exec(a[k], b[k]);
        let dg = absdiff_exec(a[k + 1], b[k + 1]);
        let db = absdiff_exec(a[k + 2], b[k + 2]);
        sum_abs = sum_abs + dr as u64 + dg as u64 + db as u64;
        let dmax: u8 = if dr >= dg && dr >= db { dr } else if dg >= db { dg } else { db };
        if dmax > threshold {
            mismatched = mismatched + 1;
        }
        heat.push(dmax);
        heat.push(0);
        heat.push(0);
        heat.push(255);
        proof {
            assert(heat@ =~= heatmap_upto(a@, b@, i as nat) + seq![px_max(a@, b@, i as int) as u8, 0u8, 0u8, 255u8]);
        }
        i = i + 1;
        k = k + 4;
    }
    PixelPass { sum_abs, mismatched, heatmap: heat }
}

/// What comparing two decoded images on a common canvas measures.
pub open spec fn canvas_pass_ok(a: RgbaPixels, b: RgbaPixels, tw: u32, th: u32) -> bool {
    resize_fits(a.width, tw, th) && resize_fits(b.width, tw, th) && 765 * tw * th <= u64::MAX
}

/// The pixels of an image brought to the canvas.
pub open spec fn on_canvas(img: RgbaPixels, tw: u32, th: u32) -> Seq<u8> {
    if img.width == tw && img.height == th { img.data@ } else { resized_rgba(img.width, img.height, img.data@, tw, th) }
}

/// Brings both images to the `tw` by `th` canvas and runs the per-pixel pass
/// on them, giving the two canvas images and the pass; canvases whose
/// buffers or difference sum would not fit the machine are refused.
pub fn diff_on_canvas(a: &RgbaPixels, b: &RgbaPixels, tw: u32, th: u32, threshold: u8) -> (r: Result<(RgbaPixels, RgbaPixels, PixelPass), String>)
    requires
        a.wf(),
        b.wf(),
    ensures
        !canvas_pass_ok(*a, *b, tw, th) ==> (r matches Err(m) && m@ == "images too large to compare"@),
        canvas_pass_ok(*a, *b, tw, th) ==> (r matches Ok((ca, cb, p)) && {
            let x = on_canvas(*a, tw, th);
            let y = on_canvas(*b, tw, th);
            let n = (tw * th) as nat;
            &&& ca.width == tw && ca.height == th && ca.data@ == x && ca.wf()
            &&& cb.width == tw && cb.height == th && cb.data@ == y && cb.wf()
            &&& x.len() == 4 * n
            &&& p.sum_abs == sum_upto(x, y, n)
            &&& p.mismatched == mismatch_upto(x, y, threshold, n)
            &&& p.heatmap@ == heatmap_upto(x, y, n)
            &&& rgba_wf(tw, th, p.heatmap@.len())
        }),
{
    proof {
        assert(tw as u128 * th as u128 <= 0xffff_ffff * 0xffff_ffff) by (nonlinear_arith)
            requires tw <= 0xffff_ffff, th <= 0xffff_ffff;
        assert(a.width as u128 * th as u128 <= 0xffff_ffff * 0xffff_ffff) by (nonlinear_arith)
            requires a.width <= 0xffff_ffff, th <= 0xffff_ffff;
        assert(b.width as u128 * th as u128 <= 0xffff_ffff * 0xffff_ffff) by (nonlinear_arith)
            requires b.width <= 0xffff_ffff, th <= 0xffff_ffff;
    }
    let area: u128 = tw as u128 * th as u128;
    let wa: u128 = a.width as u128 * th as u128;
    let wb: u128 = b.width as u128 * th as u128;
    let fits_a: bool = 16 * wa <= isize::MAX as u128;
    let fits_b: bool = 16 * wb <= isize::MAX as u128;
    let fits_out: bool = 16 * area <= isize::MAX as u128;
    proof {
        assert(16 * a.width * th == 16 * wa) by (nonlinear_arith) requires wa == a.width * th;
        assert(16 * b.width * th == 16 * wb) by (nonlinear_arith) requires wb == b.width * th;
        assert(16 * tw * th == 16 * area) by (nonlinear_arith) requires area == tw * th;
        assert(765 * tw * th == 765 * area) by (nonlinear_arith) requires area == tw * th;
    }
    if !(fits_a && fits_b && fits_out && 765 * area <= u64::MAX as u128) {
        return Err(to_owned_string("images too large to compare"));
    }
    let x = resize_if_needed(a, tw, th);
    let y = resize_if_needed(b, tw, th);
    proof {
        assert(x.data@.len() == 4 * (tw * th)) by (nonlinear_arith)
            requires x.data@.len() == 4 * tw * th;
        assert(x.data@.len() / 4 == tw * th);
        assert(x.data@.len() % 4 == 0);
    }
    let p = pixel_pass(&x.data, &y.data, threshold);
    proof {
        assert(p.heatmap@.len() == 4 * (tw * th)) by {
            lemma_heatmap_len(x.data@, y.data@, (tw * th) as nat);
        }
        assert(rgba_wf(tw, th, p.heatmap@.len())) by (nonlinear_arith)
            requires p.heatmap@.len() == 4 * (tw * th);
    }
    Ok((x, y, p))
}

proof fn lemma_heatmap_len(a: Seq<u8>, b: Seq<u8>, n: nat)
    ensures
        heatmap_upto(a, b, n).len() == 4 * n,
    decreases n,
{
    if n > 0 {
        lemma_heatmap_len(a, b, (n - 1) as nat);
    }
}

/// The heatmap of a comparison as base64 PNG; a failed encoding is reported
/// as such, and so is a PNG too large to encode as text.
pub fn heatmap_png_b64(width: u32, height: u32, heat: Vec<u8>) -> (r: Result<String, String>)
    requires
        rgba_wf(width, height, heat@.len()),
    ensures
        match png_encoded(width, height, heat@) {
            Ok(p) => if p.len() <= isize::MAX / 2 {
                r matches Ok(s) && s@ == base64_standard(p)
            } else {
                r matches Err(m) && m@ == "encoding diff heatmap PNG"@
            },
            Err(_) => r matches Err(m) && m@ == "encoding diff heatmap PNG"@,
        },
{
    match encode_png(width, height, heat) {
        Ok(png) => {
            if png.len() <= isize::MAX as usize / 2 {
                Ok(encode_base64(png.as_slice()))
            } else {
                Err(to_owned_string("encoding diff heatmap PNG"))
            }
        },
        Err(_) => Err(to_owned_string("encoding diff heatmap PNG")),
    }
}

} // verus!
