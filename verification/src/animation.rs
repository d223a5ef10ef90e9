use vstd::prelude::*;
use crate::Rgb;
use crate::generator::Generate;

verus! {

broadcast use vstd::string::group_string_axioms;

/// A configuration fault found before any frame is computed.
#[derive(Clone, Copy, PartialEq, Eq, Structural, Debug)]
pub enum ConfigError {
    /// The generator does not fit the canvas: its mask is too small for it,
    /// or the canvas is out of the generator's range.
    MaskMismatch,
    /// The generator needs zero frames for this canvas, so there is no
    /// animation to build.
    ZeroSteps,
}

/// An ordered sequence of frames under a human-readable name. Each frame is
/// a dense pixel grid stored column-major: pixel `(x, y)` of a `w` by `h`
/// frame sits at index `x * h + y`.
#[derive(Debug)]
pub struct Animation {
    pub images: Vec<Vec<Rgb>>,
    pub name: String,
}

impl Animation {
    /// Pairs an ordered list of frames with its name.
    pub fn new(images: Vec<Vec<Rgb>>, name: &str) -> (r: Animation)
        ensures
            r.images == images,
            r.name@ == name@,
    {
        Animation { images, name: name.to_string() }
    }
}

/// Whether `img` is exactly frame `n` of generator `g` on a `w` by `h`
/// canvas: `w * h` pixels, stored column-major, each the generator's color.
pub open spec fn frame_matches<G: Generate>(g: G, w: int, h: int, n: int, img: Seq<Rgb>) -> bool {
    &&& img.len() == w * h
    &&& forall|x: int, y: int|
        0 <= x < w && 0 <= y < h ==> #[trigger] img[x * h + y] == g.spec_color(w, h, n, x, y)
}

/// Whether `a` is exactly the animation that generator `g` produces on a
/// `w` by `h` canvas: the generator's name, its full frame count, and every
/// pixel of every frame the generator's color.
pub open spec fn animation_matches<G: Generate>(g: G, w: int, h: int, a: Animation) -> bool {
    &&& a.name@ == g.spec_name()
    &&& a.images@.len() == g.spec_steps(w, h)
    &&& forall|n: int|
        0 <= n < a.images@.len() ==> frame_matches(g, w, h, n, #[trigger] a.images@[n]@)
}

/// Determinism of assembly: two animations that the same generator produced
/// for the same canvas agree on the name, on the frame count, and on every
/// pixel of every frame.
pub proof fn lemma_assembly_deterministic<G: Generate>(
    g: G,
    w: int,
    h: int,
    a1: Animation,
    a2: Animation,
)
    requires
        animation_matches(g, w, h, a1),
        animation_matches(g, w, h, a2),
    ensures
        a1.name@ == a2.name@,
        a1.images@.len() == a2.images@.len(),
        forall|n: int, x: int, y: int|
            0 <= n < a1.images@.len() && 0 <= x < w && 0 <= y < h ==> #[trigger] a1.images@[n]@[x
                * h + y] == a2.images@[n]@[x * h + y],
{
    assert forall|n: int, x: int, y: int|
        0 <= n < a1.images@.len() && 0 <= x < w && 0 <= y < h implies #[trigger] a1.images@[n]@[x
        * h + y] == a2.images@[n]@[x * h + y] by {
        assert(frame_matches(g, w, h, n, a1.images@[n]@));
        assert(frame_matches(g, w, h, n, a2.images@[n]@));
    }
}

/// Drives a generator over every frame index and every pixel of the canvas
/// and builds the complete animation, named after the generator.
///
/// Each frame is filled in column-major order: the outer loop walks `x`, the
/// inner one `y`. A generator that does not fit the canvas, or one that asks
/// for zero frames, is rejected before any pixel is computed.
pub fn assemble<G: Generate>(g: &G, w: u8, h: u8) -> (r: Result<Animation, ConfigError>)
    ensures
        r is Ok <==> g.wf(w as int, h as int) && g.spec_steps(w as int, h as int) >= 1,
        r matches Ok(a) ==> animation_matches(*g, w as int, h as int, a),
        r matches Err(e) ==> match e {
            ConfigError::MaskMismatch => !g.wf(w as int, h as int),
            ConfigError::ZeroSteps => g.wf(w as int, h as int) && g.spec_steps(
                w as int,
                h as int,
            ) < 1,
        },
{
    if !g.valid_for(w, h) {
        return Err(ConfigError::MaskMismatch);
    }
    let s: u8 = g.steps(w, h);
    if s == 0 {
        return Err(ConfigError::ZeroSteps);
    }
    let mut images: Vec<Vec<Rgb>> = Vec::new();
    let mut n: u8 = 0;
    while n < s
        invariant
            g.wf(w as int, h as int),
            s as int == g.spec_steps(w as int, h as int),
            n <= s,
            images@.len() == n as int,
            forall|k: int|
                0 <= k < n as int ==> frame_matches(
                    *g,
                    w as int,
                    h as int,
                    k,
                    #[trigger] images@[k]@,
                ),
        decreases s as int - n as int,
    {
        let mut img: Vec<Rgb> = Vec::new();
        let mut x: u8 = 0;
        while x < w
            invariant
                g.wf(w as int, h as int),
                s as int == g.spec_steps(w as int, h as int),
                n < s,
                x <= w,
                img@.len() == x as int * h as int,
                forall|x2: int, y2: int|
                    0 <= x2 < x as int && 0 <= y2 < h as int ==> #[trigger] img@[x2 * (h as int)
                        + y2] == g.spec_color(w as int, h as int, n as int, x2, y2),
            decreases w as int - x as int,
        {
            let mut y: u8 = 0;
            while y < h
                invariant
                    g.wf(w as int, h as int),
                    s as int == g.spec_steps(w as int, h as int),
                    n < s,
                    x < w,
                    y <= h,
                    img@.len() == x as int * h as int + y as int,
                    forall|x2: int, y2: int|
                        0 <= x2 < x as int && 0 <= y2 < h as int ==> #[trigger] img@[x2 * (h as int)
                            + y2] == g.spec_color(w as int, h as int, n as int, x2, y2),
                    forall|y2: int|
                        0 <= y2 < y as int ==> #[trigger] img@[x as int * (h as int) + y2]
                            == g.spec_color(w as int, h as int, n as int, x as int, y2),
                decreases h as int - y as int,
            {
                let c = g.generate(w, h, n, x, y);
                let ghost prev = img@;
                img.push(c);
                proof {
                    assert forall|x2: int, y2: int| 0 <= x2 < x as int && 0 <= y2 < h as int
                        implies #[trigger] img@[x2 * (h as int) + y2] == g.spec_color(
                        w as int,
                        h as int,
                        n as int,
                        x2,
                        y2,
                    ) by {
                        assert(x2 * (h as int) + y2 < x as int * (h as int)) by (nonlinear_arith)
                            requires
                                0 <= x2 < x as int,
                                0 <= y2 < h as int,
                        ;
                        assert(prev[x2 * (h as int) + y2] == g.spec_color(
                            w as int,
                            h as int,
                            n as int,
                            x2,
                            y2,
                        ));
                    }
                }
                y = y + 1;
            }
            proof {
                assert(img@.len() == (x as int + 1) * (h as int)) by (nonlinear_arith)
                    requires
                        img@.len() == x as int * (h as int) + (h as int),
                ;
            }
            x = x + 1;
        }
        proof {
            assert(frame_matches(*g, w as int, h as int, n as int, img@)) by {
                assert(img@.len() == w as int * h as int);
            }
        }
        images.push(img);
        n = n + 1;
    }
    Ok(Animation::new(images, g.name()))
}

/// Whether `e` is the fault of the first rejected generator, at position
/// `i`: every generator before it fits the canvas and needs at least one
/// frame, and the one at `i` has exactly the reported fault.
pub open spec fn first_fault_at<G: Generate>(
    gens: Seq<G>,
    w: int,
    h: int,
    i: int,
    e: ConfigError,
) -> bool {
    &&& 0 <= i < gens.len()
    &&& forall|k: int|
        0 <= k < i ==> (#[trigger] gens[k]).wf(w, h) && gens[k].spec_steps(w, h) >= 1
    &&& match e {
        ConfigError::MaskMismatch => !gens[i].wf(w, h),
        ConfigError::ZeroSteps => gens[i].wf(w, h) && gens[i].spec_steps(w, h) < 1,
    }
}

/// Assembles one animation per generator, in input order, on one shared
/// canvas. The first generator that is rejected aborts the whole assembly
/// with its fault, and nothing is returned for the others.
pub fn assemble_all<G: Generate>(gens: &Vec<G>, w: u8, h: u8) -> (r: Result<
    Vec<Animation>,
    ConfigError,
>)
    ensures
        r is Ok <==> (forall|i: int|
            0 <= i < gens@.len() ==> (#[trigger] gens@[i]).wf(w as int, h as int)
                && gens@[i].spec_steps(w as int, h as int) >= 1),
        r matches Ok(list) ==> {
            &&& list@.len() == gens@.len()
            &&& forall|i: int|
                0 <= i < gens@.len() ==> animation_matches(
                    #[trigger] gens@[i],
                    w as int,
                    h as int,
                    list@[i],
                )
        },
        r matches Err(e) ==> exists|i: int| first_fault_at(gens@, w as int, h as int, i, e),
{
    let mut out: Vec<Animation> = Vec::new();
    let mut i: usize = 0;
    while i < gens.len()
        invariant
            i <= gens@.len(),
            out@.len() == i as int,
            forall|k: int|
                0 <= k < i as int ==> (#[trigger] gens@[k]).wf(w as int, h as int)
                    && gens@[k].spec_steps(w as int, h as int) >= 1,
            forall|k: int|
                0 <= k < i as int ==> animation_matches(
                    #[trigger] gens@[k],
                    w as int,
                    h as int,
                    out@[k],
                ),
        decreases gens@.len() - i as int,
    {
        match assemble(&gens[i], w, h) {
            Ok(a) => {
                out.push(a);
            },
            Err(e) => {
                proof {
                    assert(first_fault_at(gens@, w as int, h as int, i as int, e));
                }
                return Err(e);
            },
        }
        i = i + 1;
    }
    Ok(out)
}

} // verus!
