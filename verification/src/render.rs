use vstd::prelude::*;
use crate::Rgb;
use crate::animation::Animation;

verus! {

/// The decimal digits of `v`, as ASCII bytes, most significant first, with
/// no leading zeros (a single `0` for zero).
pub open spec fn dec_digits(v: nat) -> Seq<u8>
    decreases v,
{
    if v < 10 {
        seq![(48 + v) as u8]
    } else {
        dec_digits(v / 10).push((48 + v % 10) as u8)
    }
}

/// Appends the decimal digits of `v` to `out`.
pub fn push_dec(out: &mut Vec<u8>, v: usize)
    ensures
        final(out)@ == old(out)@ + dec_digits(v as nat),
    decreases v,
{
    if v >= 10 {
        push_dec(out, v / 10);
    }
    out.push(48 + (v % 10) as u8);
    proof {
        assert(out@ =~= old(out)@ + dec_digits(v as nat));
    }
}

/// The file name of frame `i`: its index in decimal, then `.png`.
pub open spec fn frame_filename(i: nat) -> Seq<u8> {
    dec_digits(i) + seq![46u8, 112u8, 110u8, 103u8]
}

/// Builds the file name of frame `i`.
pub fn frame_file_name(i: usize) -> (r: Vec<u8>)
    ensures
        r@ == frame_filename(i as nat),
{
    let mut out: Vec<u8> = Vec::new();
    push_dec(&mut out, i);
    out.push(46);
    out.push(112);
    out.push(110);
    out.push(103);
    proof {
        assert(out@ =~= frame_filename(i as nat));
    }
    out
}

/// The manifest lines for frames `lo` up to `n`: one file name per line,
/// each line ended by a newline byte.
pub open spec fn manifest_tail(lo: nat, n: nat) -> Seq<u8>
    decreases n - lo,
{
    if lo >= n {
        Seq::empty()
    } else {
        frame_filename(lo) + seq![10u8] + manifest_tail((lo + 1) as nat, n)
    }
}

/// The manifest for an animation of `n` frames: the frame file names in
/// frame order, one per line, newline-terminated. With no frames at all the
/// manifest is a single empty line.
pub open spec fn manifest_spec(n: nat) -> Seq<u8> {
    if n == 0 {
        seq![10u8]
    } else {
        manifest_tail(0, n)
    }
}

/// Extending the manifest by one frame appends one line.
proof fn lemma_manifest_snoc(lo: nat, n: nat)
    requires
        lo <= n,
    ensures
        manifest_tail(lo, (n + 1) as nat) == manifest_tail(lo, n) + frame_filename(n) + seq![10u8],
    decreases n - lo,
{
    if lo >= n {
        assert(manifest_tail((lo + 1) as nat, (n + 1) as nat) =~= Seq::<u8>::empty());
        assert(manifest_tail(lo, (n + 1) as nat) =~= manifest_tail(lo, n) + frame_filename(n)
            + seq![10u8]);
    } else {
        lemma_manifest_snoc((lo + 1) as nat, n);
        assert(manifest_tail(lo, (n + 1) as nat) =~= manifest_tail(lo, n) + frame_filename(n)
            + seq![10u8]);
    }
}

/// Builds the manifest for an animation of `n` frames.
pub fn manifest_bytes(n: usize) -> (r: Vec<u8>)
    ensures
        r@ == manifest_spec(n as nat),
{
    let mut out: Vec<u8> = Vec::new();
    if n == 0 {
        out.push(10);
        proof {
            assert(out@ =~= manifest_spec(0));
        }
        return out;
    }
    let mut i: usize = 0;
    while i < n
        invariant
            i <= n,
            out@ == manifest_tail(0, i as nat),
        decreases n - i,
    {
        push_dec(&mut out, i);
        out.push(46);
        out.push(112);
        out.push(110);
        out.push(103);
        out.push(10);
        proof {
            lemma_manifest_snoc(0, i as nat);
            assert(out@ =~= manifest_tail(0, i as nat) + frame_filename(i as nat) + seq![10u8]);
        }
        i = i + 1;
    }
    out
}

/// The three channel bytes of one pixel, red first.
pub open spec fn pixel_bytes(c: Rgb) -> Seq<u8> {
    seq![c.0, c.1, c.2]
}

/// The raw bytes of the first `x` pixels of row `y` of a column-major frame
/// with columns of height `h`.
pub open spec fn row_raw(img: Seq<Rgb>, h: int, y: int, x: int) -> Seq<u8>
    decreases x,
{
    if x <= 0 {
        Seq::empty()
    } else {
        row_raw(img, h, y, x - 1) + pixel_bytes(img[(x - 1) * h + y])
    }
}

/// The raw bytes of the first `y` rows, each `w` pixels wide.
pub open spec fn rows_raw(img: Seq<Rgb>, w: int, h: int, y: int) -> Seq<u8>
    decreases y,
{
    if y <= 0 {
        Seq::empty()
    } else {
        rows_raw(img, w, h, y - 1) + row_raw(img, h, y - 1, w)
    }
}

/// The raw image bytes of a column-major `w` by `h` frame: three channel
/// bytes per pixel, pixels in row-major order, rows top to bottom.
pub open spec fn raw_of(img: Seq<Rgb>, w: int, h: int) -> Seq<u8> {
    rows_raw(img, w, h, h)
}

proof fn lemma_row_raw_len(img: Seq<Rgb>, h: int, y: int, x: int)
    requires
        0 <= x,
    ensures
        row_raw(img, h, y, x).len() == 3 * x,
    decreases x,
{
    if x > 0 {
        lemma_row_raw_len(img, h, y, x - 1);
    }
}

proof fn lemma_rows_raw_len(img: Seq<Rgb>, w: int, h: int, y: int)
    requires
        0 <= w,
        0 <= y,
    ensures
        rows_raw(img, w, h, y).len() == 3 * w * y,
    decreases y,
{
    if y > 0 {
        lemma_rows_raw_len(img, w, h, y - 1);
        lemma_row_raw_len(img, h, y - 1, w);
        assert(3 * w * (y - 1) + 3 * w == 3 * w * y) by (nonlinear_arith);
    } else {
        assert(3 * w * y == 0) by (nonlinear_arith)
            requires
                y == 0,
        ;
    }
}

/// Flattens a column-major frame into the row-major byte layout that still
/// images are encoded from.
pub fn frame_to_raw(img: &Vec<Rgb>, w: u8, h: u8) -> (r: Vec<u8>)
    requires
        img@.len() == w as int * h as int,
    ensures
        r@ == raw_of(img@, w as int, h as int),
        r@.len() == 3 * (w as int) * (h as int),
{
    let mut out: Vec<u8> = Vec::new();
    let mut y: u8 = 0;
    while y < h
        invariant
            img@.len() == w as int * h as int,
            y <= h,
            out@ == rows_raw(img@, w as int, h as int, y as int),
        decreases h as int - y as int,
    {
        let mut x: u8 = 0;
        while x < w
            invariant
                img@.len() == w as int * h as int,
                y < h,
                x <= w,
                out@ == rows_raw(img@, w as int, h as int, y as int) + row_raw(
                    img@,
                    h as int,
                    y as int,
                    x as int,
                ),
            decreases w as int - x as int,
        {
            proof {
                assert(x as int * (h as int) + (y as int) < w as int * (h as int)
                    && w as int * (h as int) <= 65025) by (nonlinear_arith)
                    requires
                        0 <= (x as int) < (w as int),
                        0 <= (y as int) < (h as int),
                        w as int <= 255,
                        h as int <= 255,
                ;
            }
            let idx: usize = x as usize * h as usize + y as usize;
            let c = img[idx];
            out.push(c.0);
            out.push(c.1);
            out.push(c.2);
            proof {
                assert(out@ =~= rows_raw(img@, w as int, h as int, y as int) + row_raw(
                    img@,
                    h as int,
                    y as int,
                    x as int + 1,
                ));
            }
            x = x + 1;
        }
        proof {
            assert(out@ =~= rows_raw(img@, w as int, h as int, y as int + 1));
        }
        y = y + 1;
    }
    proof {
        lemma_rows_raw_len(img@, w as int, h as int, h as int);
    }
    out
}

/// The length of the prefix of `s` before its first newline byte, or the
/// whole length when it has none.
pub open spec fn line_break(s: Seq<u8>) -> nat
    decreases s.len(),
{
    if s.len() == 0 {
        0
    } else if s[0] == 10u8 {
        0
    } else {
        (1 + line_break(s.drop_first())) as nat
    }
}

/// Splits `s` into lines: each newline byte ends a line, and a trailing
/// line without one is kept as it stands.
pub open spec fn split_lines(s: Seq<u8>) -> Seq<Seq<u8>>
    decreases s.len(),
{
    if s.len() == 0 {
        Seq::empty()
    } else {
        let k = line_break(s);
        if k >= s.len() {
            seq![s]
        } else {
            seq![s.subrange(0, k as int)] + split_lines(
                s.subrange(k as int + 1, s.len() as int),
            )
        }
    }
}

/// Whether `s` holds no newline byte.
pub open spec fn no_newline(s: Seq<u8>) -> bool {
    forall|i: int| 0 <= i < s.len() ==> s[i] != 10u8
}

proof fn lemma_line_break_at(a: Seq<u8>, rest: Seq<u8>)
    requires
        no_newline(a),
    ensures
        line_break(a + seq![10u8] + rest) == a.len(),
    decreases a.len(),
{
    let s = a + seq![10u8] + rest;
    if a.len() == 0 {
        assert(s[0] == 10u8);
    } else {
        assert(s[0] == a[0]);
        assert(a[0] != 10u8);
        assert(no_newline(a.drop_first())) by {
            assert forall|i: int| 0 <= i < a.drop_first().len() implies a.drop_first()[i]
                != 10u8 by {
                assert(a.drop_first()[i] == a[i + 1]);
            }
        }
        lemma_line_break_at(a.drop_first(), rest);
        assert(s.drop_first() =~= a.drop_first() + seq![10u8] + rest);
    }
}

proof fn lemma_split_prefix(a: Seq<u8>, rest: Seq<u8>)
    requires
        no_newline(a),
    ensures
        split_lines(a + seq![10u8] + rest) == seq![a] + split_lines(rest),
{
    let s = a + seq![10u8] + rest;
    lemma_line_break_at(a, rest);
    assert(s.subrange(0, a.len() as int) =~= a);
    assert(s.subrange(a.len() as int + 1, s.len() as int) =~= rest);
    assert(split_lines(s) =~~= seq![a] + split_lines(rest));
}

proof fn lemma_dec_digits_range(v: nat)
    ensures
        forall|i: int| 0 <= i < dec_digits(v).len() ==> 48 <= #[trigger] dec_digits(v)[i] <= 57,
    decreases v,
{
    if v < 10 {
        assert(dec_digits(v)[0] == (48 + v) as u8);
    } else {
        lemma_dec_digits_range(v / 10);
        assert forall|i: int| 0 <= i < dec_digits(v).len() implies 48 <= #[trigger] dec_digits(
            v,
        )[i] <= 57 by {
            if i < dec_digits(v / 10).len() {
                assert(dec_digits(v)[i] == dec_digits(v / 10)[i]);
            } else {
                assert(dec_digits(v)[i] == (48 + v % 10) as u8);
            }
        }
    }
}

proof fn lemma_filename_no_newline(i: nat)
    ensures
        no_newline(frame_filename(i)),
{
    lemma_dec_digits_range(i);
    let suf = seq![46u8, 112u8, 110u8, 103u8];
    assert(suf[0] == 46u8 && suf[1] == 112u8 && suf[2] == 110u8 && suf[3] == 103u8);
    assert forall|j: int| 0 <= j < frame_filename(i).len() implies frame_filename(i)[j]
        != 10u8 by {
        if j < dec_digits(i).len() {
            assert(frame_filename(i)[j] == dec_digits(i)[j]);
        } else {
            assert(frame_filename(i)[j] == suf[j - dec_digits(i).len()]);
        }
    }
}

proof fn lemma_manifest_tail_lines(lo: nat, n: nat)
    requires
        lo <= n,
    ensures
        split_lines(manifest_tail(lo, n)).len() == n - lo,
        forall|i: int|
            0 <= i < n - lo ==> #[trigger] split_lines(manifest_tail(lo, n))[i] == frame_filename(
                (lo + i) as nat,
            ),
    decreases n - lo,
{
    if lo >= n {
        assert(split_lines(manifest_tail(lo, n)) =~= Seq::<Seq<u8>>::empty());
    } else {
        lemma_filename_no_newline(lo);
        lemma_manifest_tail_lines((lo + 1) as nat, n);
        lemma_split_prefix(frame_filename(lo), manifest_tail((lo + 1) as nat, n));
        assert(manifest_tail(lo, n) == frame_filename(lo) + seq![10u8] + manifest_tail(
            (lo + 1) as nat,
            n,
        ));
    }
}

/// Law: the manifest for an animation of `n` frames, split back into lines,
/// lists exactly `n` file names, and the line at position `i` is the file
/// name of frame `i` — the frames in ascending numeric order.
pub proof fn lemma_manifest_round_trip(n: nat)
    requires
        n >= 1,
    ensures
        split_lines(manifest_spec(n)).len() == n,
        forall|i: int|
            0 <= i < n ==> #[trigger] split_lines(manifest_spec(n))[i] == frame_filename(i as nat),
{
    lemma_manifest_tail_lines(0, n);
}

/// What an encoded still image holds, as a function of the frame dimensions
/// and the raw row-major RGB bytes.
pub uninterp spec fn png_of(w: nat, h: nat, data: Seq<u8>) -> Seq<u8>;

/// Relies on image::write_buffer_with_format with the PNG format: encoding
/// an RGB byte buffer into an in-memory PNG depends on the dimensions and
/// the bytes alone, and a buffer the encoder refuses is reported as an
/// error, not a panic. For a buffer of exactly three bytes per pixel the
/// encoder fails only on a zero width or height, so with both dimensions at
/// least one it succeeds: writing into an in-memory buffer cannot fail.
#[verifier::external_body]
fn encode_png(w: u8, h: u8, data: &Vec<u8>) -> (r: Option<Vec<u8>>)
    requires
        data@.len() == 3 * (w as int) * (h as int),
    ensures
        r matches Some(b) ==> b@ == png_of(w as nat, h as nat, data@),
        1 <= w && 1 <= h ==> r is Some,
{
    let mut out: Vec<u8> = Vec::new();
    let mut cursor = std::io::Cursor::new(&mut out);
    let res = image::write_buffer_with_format(
        &mut cursor,
        data.as_slice(),
        w as u32,
        h as u32,
        image::ExtendedColorType::Rgb8,
        image::ImageFormat::Png,
    );
    match res {
        Ok(()) => Some(out),
        Err(_) => None,
    }
}

/// One still-image file of a rendered animation: its file name and its
/// encoded bytes.
pub struct FrameFile {
    pub name: Vec<u8>,
    pub data: Vec<u8>,
}

/// Everything to write for one animation: the directory name, one encoded
/// image file per frame, and the manifest listing the frame file names in
/// frame order.
pub struct AnimationFiles {
    pub name: String,
    pub frames: Vec<FrameFile>,
    pub manifest: Vec<u8>,
}

/// Whether `o` is exactly the rendering of animation `a` on a `w` by `h`
/// canvas: same name, one encoded frame file per frame named after its
/// index, and the manifest of its frame count.
pub open spec fn rendered_matches(o: AnimationFiles, a: Animation, w: int, h: int) -> bool {
    &&& o.name@ == a.name@
    &&& o.frames@.len() == a.images@.len()
    &&& forall|j: int|
        0 <= j < a.images@.len() ==> {
            &&& (#[trigger] o.frames@[j]).name@ == frame_filename(j as nat)
            &&& o.frames@[j].data@ == png_of(w as nat, h as nat, raw_of(a.images@[j]@, w, h))
        }
    &&& o.manifest@ == manifest_spec(a.images@.len() as nat)
}

/// Renders animations as frame-image sequences: one directory per
/// animation, one encoded still image per frame, and an ordered manifest.
pub struct ImageOutput;

impl ImageOutput {
    /// Computes the complete set of files to write for the given animations:
    /// for each one, its encoded frames in frame order and its manifest.
    /// Returns `None` only when the image encoder refuses a frame, which it
    /// never does for a canvas with at least one pixel on each side.
    pub fn output(&self, animations: &Vec<Animation>, w: u8, h: u8) -> (r: Option<
        Vec<AnimationFiles>,
    >)
        requires
            forall|i: int, j: int|
                0 <= i < animations@.len() && 0 <= j < animations@[i].images@.len() ==> (
                #[trigger] animations@[i].images@[j]@).len() == w as int * h as int,
        ensures
            w >= 1 && h >= 1 ==> r is Some,
            r matches Some(outs) ==> {
                &&& outs@.len() == animations@.len()
                &&& forall|i: int|
                    0 <= i < outs@.len() ==> rendered_matches(
                        #[trigger] outs@[i],
                        animations@[i],
                        w as int,
                        h as int,
                    )
            },
    {
        let mut outs: Vec<AnimationFiles> = Vec::new();
        let mut i: usize = 0;
        while i < animations.len()
            invariant
                forall|i2: int, j2: int|
                    0 <= i2 < animations@.len() && 0 <= j2 < animations@[i2].images@.len() ==> (
                    #[trigger] animations@[i2].images@[j2]@).len() == w as int * h as int,
                i <= animations@.len(),
                outs@.len() == i as int,
                forall|k: int|
                    0 <= k < i as int ==> rendered_matches(
                        #[trigger] outs@[k],
                        animations@[k],
                        w as int,
                        h as int,
                    ),
            decreases animations@.len() - i as int,
        {
            let anim = &animations[i];
            let mut frames: Vec<FrameFile> = Vec::new();
            let mut j: usize = 0;
            while j < anim.images.len()
                invariant
                    forall|i2: int, j2: int|
                        0 <= i2 < animations@.len() && 0 <= j2 < animations@[i2].images@.len()
                            ==> (#[trigger] animations@[i2].images@[j2]@).len() == w as int
                            * h as int,
                    i < animations@.len(),
                    anim == animations@[i as int],
                    j <= anim.images@.len(),
                    frames@.len() == j as int,
                    forall|t: int|
                        0 <= t < j as int ==> {
                            &&& (#[trigger] frames@[t]).name@ == frame_filename(t as nat)
                            &&& frames@[t].data@ == png_of(
                                w as nat,
                                h as nat,
                                raw_of(anim.images@[t]@, w as int, h as int),
                            )
                        },
                decreases anim.images@.len() - j as int,
            {
                let raw = frame_to_raw(&anim.images[j], w, h);
                let data = match encode_png(w, h, &raw) {
                    Some(d) => d,
                    None => {
                        return None;
                    },
                };
                let name = frame_file_name(j);
                frames.push(FrameFile { name, data });
                j = j + 1;
            }
            let manifest = manifest_bytes(anim.images.len());
            outs.push(AnimationFiles { name: anim.name.clone(), frames, manifest });
            i = i + 1;
        }
        Some(outs)
    }
}

/// Summarizes animations for developer inspection; the textual form the
/// summary is printed in is left to the caller.
pub struct Printer;

impl Printer {
    /// Pairs each animation's name with its frame count, in input order.
    pub fn output(&self, animations: &Vec<Animation>, w: u8, h: u8) -> (r: Vec<(String, usize)>)
        ensures
            r@.len() == animations@.len(),
            forall|i: int|
                0 <= i < animations@.len() ==> (#[trigger] r@[i]).0@ == animations@[i].name@
                    && r@[i].1 == animations@[i].images@.len(),
    {
        let mut out: Vec<(String, usize)> = Vec::new();
        let mut i: usize = 0;
        while i < animations.len()
            invariant
                i <= animations@.len(),
                out@.len() == i as int,
                forall|k: int|
                    0 <= k < i as int ==> (#[trigger] out@[k]).0@ == animations@[k].name@
                        && out@[k].1 == animations@[k].images@.len(),
            decreases animations@.len() - i as int,
        {
            out.push((animations[i].name.clone(), animations[i].images.len()));
            i = i + 1;
        }
        out
    }
}

} // verus!
