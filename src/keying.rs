use vstd::prelude::*;
use crate::engine::random_u8;
use crate::raster::{ConvertError, KeyColor, RasterImage};

verus! {

/// The row sampled in the `k`-th place: top, 1/4, 1/2, 3/4 of the height, bottom.
pub open spec fn sample_row(h: int, k: int) -> int {
    if k == 0 {
        0
    } else if k == 1 {
        h / 4
    } else if k == 2 {
        h / 2
    } else if k == 3 {
        (3 * h) / 4
    } else {
        h - 1
    }
}

/// Zero-alpha pixels among the first `n` pixels of row `y`.
pub open spec fn row_transparent(img: &RasterImage, y: int, n: int) -> nat
    decreases n,
{
    if n <= 0 {
        0
    } else {
        row_transparent(img, y, n - 1) + (if img.alpha_at(n - 1, y) == 0 { 1nat } else { 0nat })
    }
}

/// Zero-alpha pixels over the first `k` sampled rows (a row sampled twice counts twice).
pub open spec fn sampled_transparent(img: &RasterImage, k: int) -> nat
    decreases k,
{
    if k <= 0 {
        0
    } else {
        sampled_transparent(img, k - 1) + row_transparent(img, sample_row(img.height as int, k - 1), img.width as int)
    }
}

/// Whether `count` transparent pixels reach the keying threshold, a fifth of twice the width (not rounded).
pub open spec fn reaches_key_threshold(count: int, width: int) -> bool {
    5 * count >= 2 * width
}

/// Whether transparency keying is triggered for `img`.
pub open spec fn needs_keying(img: &RasterImage) -> bool {
    img.width > 0 && img.height > 0
        && reaches_key_threshold(sampled_transparent(img, 5) as int, img.width as int)
}

/// The key candidates in the order they are tried: red, green, blue, yellow,
/// cyan, magenta, then the random ones.
pub open spec fn key_candidates(random: Seq<KeyColor>) -> Seq<KeyColor> {
    seq![
        KeyColor { r: 255, g: 0, b: 0 },
        KeyColor { r: 0, g: 255, b: 0 },
        KeyColor { r: 0, g: 0, b: 255 },
        KeyColor { r: 255, g: 255, b: 0 },
        KeyColor { r: 0, g: 255, b: 255 },
        KeyColor { r: 255, g: 0, b: 255 },
    ] + random
}

/// `c` is the first of `candidates` that does not occur in `img`.
pub open spec fn is_first_unused(img: &RasterImage, candidates: Seq<KeyColor>, c: KeyColor) -> bool {
    !img.has_color(c) && exists|j: int|
        0 <= j < candidates.len() && candidates[j] == c
            && forall|i: int| 0 <= i < j ==> img.has_color(#[trigger] candidates[i])
}

/// Every one of `candidates` occurs in `img`.
pub open spec fn all_used(img: &RasterImage, candidates: Seq<KeyColor>) -> bool {
    forall|j: int| 0 <= j < candidates.len() ==> img.has_color(#[trigger] candidates[j])
}

/// `after` is `before` with the color of every zero-alpha pixel replaced by `key`.
pub open spec fn is_keyed(after: &RasterImage, before: &RasterImage, key: KeyColor) -> bool {
    after.wf() && after.width == before.width && after.height == before.height
        && forall|i: int, c: int| 0 <= i < before.num_pixels() && 0 <= c < 4
            ==> #[trigger] after.channel(i, c) == keyed_channel(before, key, i, c)
}

/// The `c`-th color channel of the key color (`c < 3`).
pub open spec fn key_channel(key: KeyColor, c: int) -> u8 {
    if c == 0 {
        key.r
    } else if c == 1 {
        key.g
    } else {
        key.b
    }
}

/// Channel `c` of pixel `i` once `key` has replaced the color of the transparent pixels.
pub open spec fn keyed_channel(img: &RasterImage, key: KeyColor, i: int, c: int) -> u8 {
    if c < 3 && img.channel(i, 3) == 0 {
        key_channel(key, c)
    } else {
        img.channel(i, c)
    }
}

proof fn lemma_row_transparent_monotone(img: &RasterImage, y: int, n: int, m: int)
    requires
        0 <= n <= m,
    ensures
        row_transparent(img, y, n) <= row_transparent(img, y, m),
    decreases m - n,
{
    if n < m {
        lemma_row_transparent_monotone(img, y, n, m - 1);
    }
}

proof fn lemma_sampled_monotone(img: &RasterImage, k: int, l: int)
    requires
        0 <= k <= l,
    ensures
        sampled_transparent(img, k) <= sampled_transparent(img, l),
    decreases l - k,
{
    if k < l {
        lemma_sampled_monotone(img, k, l - 1);
    }
}

fn sample_row_of(height: usize, k: usize) -> (y: usize)
    requires
        height >= 1,
        3 * height <= usize::MAX,
        k < 5,
    ensures
        y == sample_row(height as int, k as int),
        y < height,
{
    if k == 0 {
        0
    } else if k == 1 {
        height / 4
    } else if k == 2 {
        height / 2
    } else if k == 3 {
        3 * height / 4
    } else {
        height - 1
    }
}

/// Whether some pixel of `img` has the color channels of `color`.
pub fn color_exists_in_image(img: &RasterImage, color: KeyColor) -> (r: bool)
    requires
        img.wf(),
    ensures
        r == img.has_color(color),
{
    let len: usize = img.pixels.len();
    let n: usize = len / 4;
    assert(n == img.num_pixels());
    let mut i: usize = 0;
    while i < n
        invariant
            img.wf(),
            n == img.num_pixels(),
            4 * n == img.pixels@.len(),
            4 * n <= usize::MAX,
            i <= n,
            forall|j: int| 0 <= j < i ==> #[trigger] img.color_of(j) != color,
        decreases n - i,
    {
        let p: usize = 4 * i;
        if img.pixels[p] == color.r && img.pixels[p + 1] == color.g && img.pixels[p + 2] == color.b {
            assert(img.color_of(i as int) == color);
            return true;
        }
        assert(img.color_of(i as int) != color);
        i = i + 1;
    }
    false
}

/// Whether transparency keying is needed: walks the five sampled rows and
/// answers true as soon as the count of zero-alpha pixels reaches the threshold.
pub fn should_key_image(img: &RasterImage) -> (r: bool)
    requires
        img.wf(),
    ensures
        r == needs_keying(img),
{
    let w: usize = img.width;
    let h: usize = img.height;
    if w == 0 || h == 0 {
        return false;
    }
    proof {
        assert(h <= w * h) by (nonlinear_arith) requires w >= 1;
        assert(w <= w * h) by (nonlinear_arith) requires h >= 1;
    }
    let len: usize = img.pixels.len();
    assert(4 * (w * h) == len);
    let twice_width: usize = w * 2;
    let mut count: usize = 0;
    let mut k: usize = 0;
    while k < 5
        invariant
            img.wf(),
            w == img.width,
            h == img.height,
            w >= 1,
            h >= 1,
            h <= w * h,
            4 * (w * h) <= usize::MAX,
            twice_width == 2 * w,
            k <= 5,
            count == sampled_transparent(img, k as int),
            5 * count < twice_width,
        decreases 5 - k,
    {
        let y: usize = sample_row_of(h, k);
        let mut x: usize = 0;
        while x < w
            invariant
                img.wf(),
                w == img.width,
                h == img.height,
                w >= 1,
                h >= 1,
                y < h,
                4 * (w * h) <= usize::MAX,
                y == sample_row(h as int, k as int),
                twice_width == 2 * w,
                k < 5,
                x <= w,
                count == sampled_transparent(img, k as int) + row_transparent(img, y as int, x as int),
                5 * count < twice_width,
            decreases w - x,
        {
            proof {
                assert(y * w + x < w * h) by (nonlinear_arith) requires y < h, x < w;
            }
            let p: usize = 4 * (y * w + x) + 3;
            if img.pixels[p] == 0 {
                count = count + 1;
            }
            assert(count == sampled_transparent(img, k as int) + row_transparent(img, y as int, x + 1));
            if count * 5 >= twice_width {
                proof {
                    lemma_row_transparent_monotone(img, y as int, x + 1, w as int);
                    lemma_sampled_monotone(img, k + 1, 5);
                }
                return true;
            }
            x = x + 1;
        }
        k = k + 1;
    }
    false
}

/// The first key candidate (six fixed saturated colors, then `random`) that
/// does not occur in `img`.
pub fn find_unused_color_in_image(img: &RasterImage, random: &Vec<KeyColor>) -> (r: Result<KeyColor, ConvertError>)
    requires
        img.wf(),
    ensures
        match r {
            Ok(c) => is_first_unused(img, key_candidates(random@), c),
            Err(e) => e == ConvertError::KeyColorExhausted && all_used(img, key_candidates(random@)),
        },
{
    let mut candidates: Vec<KeyColor> = vec![
        KeyColor { r: 255, g: 0, b: 0 },
        KeyColor { r: 0, g: 255, b: 0 },
        KeyColor { r: 0, g: 0, b: 255 },
        KeyColor { r: 255, g: 255, b: 0 },
        KeyColor { r: 0, g: 255, b: 255 },
        KeyColor { r: 255, g: 0, b: 255 },
    ];
    let mut t: usize = 0;
    while t < random.len()
        invariant
            t <= random@.len(),
            candidates@ == key_candidates(random@).take(6 + t),
        decreases random@.len() - t,
    {
        candidates.push(random[t]);
        t = t + 1;
        assert(candidates@ =~= key_candidates(random@).take(6 + t));
    }
    assert(candidates@ =~= key_candidates(random@));
    let mut j: usize = 0;
    while j < candidates.len()
        invariant
            img.wf(),
            candidates@ == key_candidates(random@),
            j <= candidates@.len(),
            forall|i: int| 0 <= i < j ==> img.has_color(#[trigger] key_candidates(random@)[i]),
        decreases candidates@.len() - j,
    {
        let c: KeyColor = candidates[j];
        if !color_exists_in_image(img, c) {
            return Ok(c);
        }
        j = j + 1;
    }
    Err(ConvertError::KeyColorExhausted)
}

/// Overwrites the color channels of every zero-alpha pixel with `key`; alpha
/// and all other pixels are kept.
pub fn apply_keying(img: &mut RasterImage, key: KeyColor)
    requires
        old(img).wf(),
    ensures
        is_keyed(final(img), old(img), key),
{
    let ghost before = *img;
    let len: usize = img.pixels.len();
    let n: usize = len / 4;
    assert(4 * n == img.pixels@.len());
    let mut i: usize = 0;
    while i < n
        invariant
            img.wf(),
            img.width == before.width,
            img.height == before.height,
            before.wf(),
            n == before.num_pixels(),
            4 * n == img.pixels@.len(),
            4 * n <= usize::MAX,
            i <= n,
            forall|q: int, c: int| 0 <= q < i && 0 <= c < 4
                ==> #[trigger] img.channel(q, c) == keyed_channel(&before, key, q, c),
            forall|q: int, c: int| i <= q < n && 0 <= c < 4
                ==> #[trigger] img.channel(q, c) == before.channel(q, c),
        decreases n - i,
    {
        let ghost mid = *img;
        let p: usize = 4 * i;
        if img.pixels[p + 3] == 0 {
            img.pixels.set(p, key.r);
            img.pixels.set(p + 1, key.g);
            img.pixels.set(p + 2, key.b);
        }
        proof {
            assert forall|q: int, c: int| 0 <= q < i + 1 && 0 <= c < 4
                implies #[trigger] img.channel(q, c) == keyed_channel(&before, key, q, c) by {
                assert(img.channel(q, c) == img.pixels@[4 * q + c]);
                if q == i {
                    assert(mid.channel(q, 3) == before.channel(q, 3));
                } else {
                    assert(mid.channel(q, c) == keyed_channel(&before, key, q, c));
                    assert(img.pixels@[4 * q + c] == mid.pixels@[4 * q + c]);
                }
            }
        }
        proof {
            assert forall|q: int, c: int| i + 1 <= q < n && 0 <= c < 4
                implies #[trigger] img.channel(q, c) == before.channel(q, c) by {
                assert(mid.channel(q, c) == before.channel(q, c));
                assert(img.pixels@[4 * q + c] == mid.pixels@[4 * q + c]);
            }
        }
        i = i + 1;
    }
}

} // verus!

verus! {

/// Number of random key candidates tried after the fixed ones.
pub const NUM_UNUSED_COLOR_ITERATIONS: usize = 6;

/// Draws the random key candidates from `rng`.
pub fn draw_random_colors(rng: &fastrand::Rng) -> (r: Vec<KeyColor>)
    ensures
        r@.len() == NUM_UNUSED_COLOR_ITERATIONS,
{
    let mut r: Vec<KeyColor> = Vec::new();
    let mut i: usize = 0;
    while i < NUM_UNUSED_COLOR_ITERATIONS
        invariant
            i <= NUM_UNUSED_COLOR_ITERATIONS,
            r@.len() == i,
        decreases NUM_UNUSED_COLOR_ITERATIONS - i,
    {
        let red: u8 = random_u8(rng);
        let green: u8 = random_u8(rng);
        let blue: u8 = random_u8(rng);
        r.push(KeyColor { r: red, g: green, b: blue });
        i = i + 1;
    }
    r
}

/// Keys `img` when transparency keying is needed, trying the fixed candidates
/// and then `random`: answers the key color, or the sentinel when no keying is
/// needed (the image is then untouched).
pub fn key_image_with(img: &mut RasterImage, random: &Vec<KeyColor>) -> (r: Result<KeyColor, ConvertError>)
    requires
        old(img).wf(),
    ensures
        !needs_keying(old(img)) ==> r == Ok::<KeyColor, ConvertError>(KeyColor { r: 0, g: 0, b: 0 }) && *final(img) == *old(img),
        needs_keying(old(img)) ==> match r {
            Ok(c) => is_first_unused(old(img), key_candidates(random@), c) && is_keyed(final(img), old(img), c),
            Err(e) => e == ConvertError::KeyColorExhausted && all_used(old(img), key_candidates(random@))
                && *final(img) == *old(img),
        },
{
    if !should_key_image(img) {
        return Ok(KeyColor::none());
    }
    match find_unused_color_in_image(img, random) {
        Ok(key) => {
            apply_keying(img, key);
            Ok(key)
        },
        Err(e) => Err(e),
    }
}

/// Keys `img` when transparency keying is needed, drawing the random
/// candidates from `rng`.
pub fn key_image(img: &mut RasterImage, rng: &fastrand::Rng) -> (r: Result<KeyColor, ConvertError>)
    requires
        old(img).wf(),
    ensures
        final(img).wf(),
        final(img).width == old(img).width,
        final(img).height == old(img).height,
        !needs_keying(old(img)) ==> r == Ok::<KeyColor, ConvertError>(KeyColor { r: 0, g: 0, b: 0 }) && *final(img) == *old(img),
        needs_keying(old(img)) ==> exists|random: Seq<KeyColor>| random.len() == NUM_UNUSED_COLOR_ITERATIONS
            && match r {
                Ok(c) => is_first_unused(old(img), #[trigger] key_candidates(random), c) && is_keyed(final(img), old(img), c),
                Err(e) => e == ConvertError::KeyColorExhausted && all_used(old(img), key_candidates(random))
                    && *final(img) == *old(img),
            },
{
    let random: Vec<KeyColor> = draw_random_colors(rng);
    let r = key_image_with(img, &random);
    r
}

/// An image with no zero-alpha pixel is left alone: no keying is needed, so
/// the key is the sentinel and no pixel changes.
pub proof fn lemma_opaque_image_not_keyed(img: &RasterImage)
    requires
        img.wf(),
        forall|i: int| 0 <= i < img.num_pixels() ==> #[trigger] img.channel(i, 3) != 0,
    ensures
        !needs_keying(img),
{
    if img.height > 0 {
        assert forall|k: int| 0 <= k < 5 implies 0 <= #[trigger] sample_row(img.height as int, k) < img.height by {}
        lemma_rows_opaque(img, 5);
    }
}

/// Whether keying is needed depends only on the size and on which pixels of
/// the sampled rows have zero alpha: colors, other alpha values and unsampled
/// rows play no part.
pub proof fn lemma_key_decision_reads_sampled_alpha(a: &RasterImage, b: &RasterImage)
    requires
        a.width == b.width,
        a.height == b.height,
        forall|k: int, x: int| 0 <= k < 5 && 0 <= x < a.width
            ==> (#[trigger] a.alpha_at(x, sample_row(a.height as int, k)) == 0)
                == (b.alpha_at(x, sample_row(a.height as int, k)) == 0),
    ensures
        needs_keying(a) == needs_keying(b),
{
    lemma_sampled_same(a, b, 5);
}

proof fn lemma_sampled_same(a: &RasterImage, b: &RasterImage, k: int)
    requires
        a.width == b.width,
        a.height == b.height,
        0 <= k <= 5,
        forall|q: int, x: int| 0 <= q < 5 && 0 <= x < a.width
            ==> (#[trigger] a.alpha_at(x, sample_row(a.height as int, q)) == 0)
                == (b.alpha_at(x, sample_row(a.height as int, q)) == 0),
    ensures
        sampled_transparent(a, k) == sampled_transparent(b, k),
    decreases k,
{
    if k > 0 {
        lemma_sampled_same(a, b, k - 1);
        lemma_row_same(a, b, k - 1, a.width as int);
    }
}

proof fn lemma_row_same(a: &RasterImage, b: &RasterImage, q: int, n: int)
    requires
        a.width == b.width,
        a.height == b.height,
        0 <= q < 5,
        0 <= n <= a.width,
        forall|q: int, x: int| 0 <= q < 5 && 0 <= x < a.width
            ==> (#[trigger] a.alpha_at(x, sample_row(a.height as int, q)) == 0)
                == (b.alpha_at(x, sample_row(a.height as int, q)) == 0),
    ensures
        row_transparent(a, sample_row(a.height as int, q), n) == row_transparent(b, sample_row(a.height as int, q), n),
    decreases n,
{
    if n > 0 {
        lemma_row_same(a, b, q, n - 1);
        assert(a.alpha_at(n - 1, sample_row(a.height as int, q)) == 0
            <==> b.alpha_at(n - 1, sample_row(a.height as int, q)) == 0);
    }
}

/// Keying an image with no zero-alpha pixel, with any key color, changes no byte.
pub proof fn lemma_keying_opaque_unchanged(after: &RasterImage, before: &RasterImage, key: KeyColor)
    requires
        before.wf(),
        is_keyed(after, before, key),
        forall|i: int| 0 <= i < before.num_pixels() ==> #[trigger] before.channel(i, 3) != 0,
    ensures
        after.pixels@ == before.pixels@,
{
    assert forall|j: int| 0 <= j < before.pixels@.len() implies after.pixels@[j] == before.pixels@[j] by {
        let i = j / 4;
        let c = j % 4;
        assert(j == 4 * i + c);
        assert(before.channel(i, 3) != 0);
        assert(after.channel(i, c) == keyed_channel(before, key, i, c));
    }
    assert(after.pixels@ =~= before.pixels@);
}

proof fn lemma_rows_opaque(img: &RasterImage, k: int)
    requires
        img.wf(),
        img.height > 0,
        0 <= k <= 5,
        forall|q: int| 0 <= q < 5 ==> 0 <= #[trigger] sample_row(img.height as int, q) < img.height,
        forall|i: int| 0 <= i < img.num_pixels() ==> #[trigger] img.channel(i, 3) != 0,
    ensures
        sampled_transparent(img, k) == 0,
    decreases k,
{
    if k > 0 {
        lemma_rows_opaque(img, k - 1);
        let y = sample_row(img.height as int, k - 1);
        lemma_row_opaque(img, y, img.width as int);
    }
}

proof fn lemma_row_opaque(img: &RasterImage, y: int, n: int)
    requires
        img.wf(),
        0 <= y < img.height,
        0 <= n <= img.width,
        forall|i: int| 0 <= i < img.num_pixels() ==> #[trigger] img.channel(i, 3) != 0,
    ensures
        row_transparent(img, y, n) == 0,
    decreases n,
{
    if n > 0 {
        lemma_row_opaque(img, y, n - 1);
        let w = img.width as int;
        let h = img.height as int;
        assert(y * w + (n - 1) < w * h) by (nonlinear_arith) requires 0 <= y < h, 0 <= n - 1 < w;
        assert(0 <= y * w + (n - 1)) by (nonlinear_arith) requires 0 <= y, 0 <= n - 1, 0 <= w;
        assert(img.channel(y * w + (n - 1), 3) != 0);
    }
}

/// The binary-mode rule: a pixel is foreground iff its red channel is below 128.
pub fn is_foreground(red: u8) -> (r: bool)
    ensures
        r == (red < 128),
{
    red < 128
}

/// The segmentation-mode rule: a pixel belongs to `label` iff its value equals it.
pub fn same_label(value: u8, label: u8) -> (r: bool)
    ensures
        r == (value == label),
{
    value == label
}

} // verus!
