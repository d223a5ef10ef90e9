use vstd::prelude::*;
use crate::{Rgb, white, black, grey};

verus! {

broadcast use vstd::string::group_string_axioms;

/// Distance between two integers.
pub open spec fn dist(a: int, b: int) -> int {
    if a >= b {
        a - b
    } else {
        b - a
    }
}

/// The lit position of a triangular ping-pong sweep with the given half
/// length at frame `n`: it runs from 0 up to `half` and back down.
pub open spec fn wave_position(half: int, n: int) -> int {
    half - dist(n, half)
}

/// The greyscale intensity of the fade ramp at frame `n` out of 16:
/// a triangular ramp that peaks with 255 at frame 8.
pub open spec fn fade_value(n: int) -> int {
    255 * (8 - dist(n, 8)) / 8
}

/// A pattern generator: a pure strategy that, for a canvas of fixed
/// dimensions, declares how many frames its animation needs and yields the
/// color of any pixel of any frame.
///
/// The spec functions are the mathematical model: `spec_steps` is the frame
/// count, `spec_color` the color of pixel `(x, y)` in frame `n`, `spec_name`
/// the generator's identifier, and `wf` says when the generator fits the
/// canvas (its mask covers it and its arithmetic stays in range).
pub trait Generate: Sized {
    /// Whether this generator is well formed for a `w` by `h` canvas.
    spec fn wf(&self, w: int, h: int) -> bool;

    /// The number of frames of one animation cycle.
    spec fn spec_steps(&self, w: int, h: int) -> int;

    /// The color of pixel `(x, y)` in frame `n`.
    spec fn spec_color(&self, w: int, h: int, n: int, x: int, y: int) -> Rgb;

    /// The generator's identifier.
    spec fn spec_name(&self) -> Seq<char>;

    /// Decides well-formedness for the given canvas, so that a configuration
    /// mismatch is reported before any frame is computed.
    fn valid_for(&self, w: u8, h: u8) -> (r: bool)
        ensures
            r == self.wf(w as int, h as int),
    ;

    /// The number of frames required for a `w` by `h` canvas.
    fn steps(&self, w: u8, h: u8) -> (r: u8)
        requires
            self.wf(w as int, h as int),
        ensures
            r as int == self.spec_steps(w as int, h as int),
    ;

    /// The color of pixel `(x, y)` in frame `n` of a `w` by `h` canvas.
    fn generate(&self, w: u8, h: u8, n: u8, x: u8, y: u8) -> (c: Rgb)
        requires
            self.wf(w as int, h as int),
            (n as int) < self.spec_steps(w as int, h as int),
            x < w,
            y < h,
        ensures
            c == self.spec_color(w as int, h as int, n as int, x as int, y as int),
    ;

    /// The generator's identifier, used downstream as an output grouping key.
    fn name(&self) -> (r: &str)
        ensures
            r@ == self.spec_name(),
    ;
}

/// Purity of generation: two calls of `generate` with identical arguments on
/// the same generator return identical colors.
pub fn generate_twice<G: Generate>(g: &G, w: u8, h: u8, n: u8, x: u8, y: u8) -> (r: (Rgb, Rgb))
    requires
        g.wf(w as int, h as int),
        (n as int) < g.spec_steps(w as int, h as int),
        x < w,
        y < h,
    ensures
        r.0 == r.1,
        r.0 == g.spec_color(w as int, h as int, n as int, x as int, y as int),
{
    (g.generate(w, h, n, x, y), g.generate(w, h, n, x, y))
}

/// A single bright column sweeping right and back: a triangular ping-pong
/// sweep over the canvas width.
pub struct HorizWave;

impl Generate for HorizWave {
    open spec fn wf(&self, w: int, h: int) -> bool {
        1 <= w <= 128
    }

    open spec fn spec_steps(&self, w: int, h: int) -> int {
        (w - 1) * 2
    }

    open spec fn spec_color(&self, w: int, h: int, n: int, x: int, y: int) -> Rgb {
        if x == wave_position(w - 1, n) {
            white()
        } else {
            black()
        }
    }

    open spec fn spec_name(&self) -> Seq<char> {
        "horiz_wave"@
    }

    fn valid_for(&self, w: u8, h: u8) -> (r: bool) {
        1 <= w && w <= 128
    }

    fn steps(&self, w: u8, h: u8) -> (r: u8) {
        (w - 1) * 2
    }

    fn generate(&self, w: u8, h: u8, n: u8, x: u8, y: u8) -> (c: Rgb) {
        let half: u8 = w - 1;
        let d: u8 = if n >= half {
            n - half
        } else {
            half - n
        };
        if x == half - d {
            grey(255)
        } else {
            grey(0)
        }
    }

    fn name(&self) -> (r: &str) {
        "horiz_wave"
    }
}

/// A single bright row sweeping down and back: the vertical mirror of
/// `HorizWave`.
pub struct VertWave;

impl Generate for VertWave {
    open spec fn wf(&self, w: int, h: int) -> bool {
        1 <= h <= 128
    }

    open spec fn spec_steps(&self, w: int, h: int) -> int {
        (h - 1) * 2
    }

    open spec fn spec_color(&self, w: int, h: int, n: int, x: int, y: int) -> Rgb {
        if y == wave_position(h - 1, n) {
            white()
        } else {
            black()
        }
    }

    open spec fn spec_name(&self) -> Seq<char> {
        "vert_wave"@
    }

    fn valid_for(&self, w: u8, h: u8) -> (r: bool) {
        1 <= h && h <= 128
    }

    fn steps(&self, w: u8, h: u8) -> (r: u8) {
        (h - 1) * 2
    }

    fn generate(&self, w: u8, h: u8, n: u8, x: u8, y: u8) -> (c: Rgb) {
        let half: u8 = h - 1;
        let d: u8 = if n >= half {
            n - half
        } else {
            half - n
        };
        if y == half - d {
            grey(255)
        } else {
            grey(0)
        }
    }

    fn name(&self) -> (r: &str) {
        "vert_wave"
    }
}

/// Two bright columns per frame, one sweeping right from the left edge and
/// its mirror sweeping left; they overlap in the middle frame.
pub struct HorizDblWave;

impl Generate for HorizDblWave {
    open spec fn wf(&self, w: int, h: int) -> bool {
        1 <= w
    }

    open spec fn spec_steps(&self, w: int, h: int) -> int {
        w - 1
    }

    open spec fn spec_color(&self, w: int, h: int, n: int, x: int, y: int) -> Rgb {
        if x == n || x == w - 1 - n {
            white()
        } else {
            black()
        }
    }

    open spec fn spec_name(&self) -> Seq<char> {
        "horiz_dbl_wave"@
    }

    fn valid_for(&self, w: u8, h: u8) -> (r: bool) {
        1 <= w
    }

    fn steps(&self, w: u8, h: u8) -> (r: u8) {
        w - 1
    }

    fn generate(&self, w: u8, h: u8, n: u8, x: u8, y: u8) -> (c: Rgb) {
        if x == n || x == w - 1 - n {
            grey(255)
        } else {
            grey(0)
        }
    }

    fn name(&self) -> (r: &str) {
        "horiz_dbl_wave"
    }
}

/// Two bright rows per frame, one sweeping down from the top edge and its
/// mirror sweeping up: the vertical mirror of `HorizDblWave`.
pub struct VertDblWave;

impl Generate for VertDblWave {
    open spec fn wf(&self, w: int, h: int) -> bool {
        1 <= h
    }

    open spec fn spec_steps(&self, w: int, h: int) -> int {
        h - 1
    }

    open spec fn spec_color(&self, w: int, h: int, n: int, x: int, y: int) -> Rgb {
        if y == n || y == h - 1 - n {
            white()
        } else {
            black()
        }
    }

    open spec fn spec_name(&self) -> Seq<char> {
        "vert_dbl_wave"@
    }

    fn valid_for(&self, w: u8, h: u8) -> (r: bool) {
        1 <= h
    }

    fn steps(&self, w: u8, h: u8) -> (r: u8) {
        h - 1
    }

    fn generate(&self, w: u8, h: u8, n: u8, x: u8, y: u8) -> (c: Rgb) {
        if y == n || y == h - 1 - n {
            grey(255)
        } else {
            grey(0)
        }
    }

    fn name(&self) -> (r: &str) {
        "vert_dbl_wave"
    }
}

/// Lights the cells a binary mask selects, ramping their greyscale intensity
/// up to full and back down over a fixed cycle of 16 frames.
pub struct Fade {
    pub pattern: Vec<Vec<u8>>,
    pub name: String,
}

impl Fade {
    /// Builds a fade generator over the given binary mask, labelled `name`.
    pub fn new(pattern: Vec<Vec<u8>>, name: &str) -> (r: Fade)
        ensures
            r.pattern == pattern,
            r.name@ == name@,
    {
        Fade { pattern, name: name.to_string() }
    }
}

impl Generate for Fade {
    /// The mask must cover the whole canvas.
    open spec fn wf(&self, w: int, h: int) -> bool {
        &&& h <= self.pattern@.len()
        &&& forall|i: int| 0 <= i < h ==> w <= #[trigger] self.pattern@[i]@.len()
    }

    open spec fn spec_steps(&self, w: int, h: int) -> int {
        16
    }

    open spec fn spec_color(&self, w: int, h: int, n: int, x: int, y: int) -> Rgb {
        if self.pattern@[y]@[x] == 1 {
            Rgb(fade_value(n) as u8, fade_value(n) as u8, fade_value(n) as u8)
        } else {
            black()
        }
    }

    open spec fn spec_name(&self) -> Seq<char> {
        self.name@
    }

    fn valid_for(&self, w: u8, h: u8) -> (r: bool) {
        if self.pattern.len() < h as usize {
            return false;
        }
        let mut i: usize = 0;
        while i < h as usize
            invariant
                i <= h as int,
                h as int <= self.pattern@.len(),
                forall|k: int| 0 <= k < i ==> w as int <= #[trigger] self.pattern@[k]@.len(),
            decreases h as int - i,
        {
            if self.pattern[i].len() < w as usize {
                return false;
            }
            i = i + 1;
        }
        true
    }

    fn steps(&self, w: u8, h: u8) -> (r: u8) {
        16
    }

    fn generate(&self, w: u8, h: u8, n: u8, x: u8, y: u8) -> (c: Rgb) {
        if self.pattern[y as usize][x as usize] == 1 {
            let d: u8 = if n >= 8 {
                n - 8
            } else {
                8 - n
            };
            let v: u8 = ((255 * (8 - d as u32)) / 8) as u8;
            grey(v)
        } else {
            grey(0)
        }
    }

    fn name(&self) -> (r: &str) {
        self.name.as_str()
    }
}

/// Scrolls a binary mask horizontally, one column per frame, wrapping
/// cyclically after one full mask width; lit cells are fully bright.
pub struct Scroll {
    pub pattern: Vec<Vec<u8>>,
    pub name: String,
}

impl Scroll {
    /// Builds a scroll generator over the given binary mask, labelled `name`.
    pub fn new(pattern: Vec<Vec<u8>>, name: &str) -> (r: Scroll)
        ensures
            r.pattern == pattern,
            r.name@ == name@,
    {
        Scroll { pattern, name: name.to_string() }
    }
}

impl Generate for Scroll {
    /// The mask must have a row for every canvas row, and every such row must
    /// be at least as long as the first, whose length is the cycle.
    open spec fn wf(&self, w: int, h: int) -> bool {
        &&& 1 <= self.pattern@.len()
        &&& h <= self.pattern@.len()
        &&& self.pattern@[0]@.len() <= 255
        &&& forall|i: int| 0 <= i < h ==> self.pattern@[0]@.len() <= #[trigger] self.pattern@[i]@.len()
    }

    open spec fn spec_steps(&self, w: int, h: int) -> int {
        self.pattern@[0]@.len() as int
    }

    open spec fn spec_color(&self, w: int, h: int, n: int, x: int, y: int) -> Rgb {
        if self.pattern@[y]@[(x + n) % (self.pattern@[0]@.len() as int)] == 1 {
            white()
        } else {
            black()
        }
    }

    open spec fn spec_name(&self) -> Seq<char> {
        self.name@
    }

    fn valid_for(&self, w: u8, h: u8) -> (r: bool) {
        if self.pattern.len() == 0 || self.pattern.len() < h as usize {
            return false;
        }
        let cycle: usize = self.pattern[0].len();
        if cycle > 255 {
            return false;
        }
        let mut i: usize = 0;
        while i < h as usize
            invariant
                i <= h as int,
                h as int <= self.pattern@.len(),
                cycle == self.pattern@[0]@.len(),
                forall|k: int| 0 <= k < i ==> cycle as int <= #[trigger] self.pattern@[k]@.len(),
            decreases h as int - i,
        {
            if self.pattern[i].len() < cycle {
                return false;
            }
            i = i + 1;
        }
        true
    }

    fn steps(&self, w: u8, h: u8) -> (r: u8) {
        self.pattern[0].len() as u8
    }

    fn generate(&self, w: u8, h: u8, n: u8, x: u8, y: u8) -> (c: Rgb) {
        let cycle: usize = self.pattern[0].len();
        let idx: usize = (x as usize + n as usize) % cycle;
        if self.pattern[y as usize][idx] == 1 {
            grey(255)
        } else {
            grey(0)
        }
    }

    fn name(&self) -> (r: &str) {
        self.name.as_str()
    }
}

/// A stand-in for a future cellular-automaton rule: a fixed cycle of 16
/// frames, every pixel black.
pub struct GameOfLife;

impl Generate for GameOfLife {
    open spec fn wf(&self, w: int, h: int) -> bool {
        true
    }

    open spec fn spec_steps(&self, w: int, h: int) -> int {
        16
    }

    open spec fn spec_color(&self, w: int, h: int, n: int, x: int, y: int) -> Rgb {
        black()
    }

    open spec fn spec_name(&self) -> Seq<char> {
        "game_of_life"@
    }

    fn valid_for(&self, w: u8, h: u8) -> (r: bool) {
        true
    }

    fn steps(&self, w: u8, h: u8) -> (r: u8) {
        16
    }

    fn generate(&self, w: u8, h: u8, n: u8, x: u8, y: u8) -> (c: Rgb) {
        grey(0)
    }

    fn name(&self) -> (r: &str) {
        "game_of_life"
    }
}

/// Any of the built-in generators, as a tagged variant, so that one list
/// can mix them and be assembled in one pass.
pub enum GeneratorKind {
    HorizWave(HorizWave),
    HorizDblWave(HorizDblWave),
    VertWave(VertWave),
    VertDblWave(VertDblWave),
    Fade(Fade),
    Scroll(Scroll),
    GameOfLife(GameOfLife),
}

impl Generate for GeneratorKind {
    open spec fn wf(&self, w: int, h: int) -> bool {
        match self {
            GeneratorKind::HorizWave(g) => g.wf(w, h),
            GeneratorKind::HorizDblWave(g) => g.wf(w, h),
            GeneratorKind::VertWave(g) => g.wf(w, h),
            GeneratorKind::VertDblWave(g) => g.wf(w, h),
            GeneratorKind::Fade(g) => g.wf(w, h),
            GeneratorKind::Scroll(g) => g.wf(w, h),
            GeneratorKind::GameOfLife(g) => g.wf(w, h),
        }
    }

    open spec fn spec_steps(&self, w: int, h: int) -> int {
        match self {
            GeneratorKind::HorizWave(g) => g.spec_steps(w, h),
            GeneratorKind::HorizDblWave(g) => g.spec_steps(w, h),
            GeneratorKind::VertWave(g) => g.spec_steps(w, h),
            GeneratorKind::VertDblWave(g) => g.spec_steps(w, h),
            GeneratorKind::Fade(g) => g.spec_steps(w, h),
            GeneratorKind::Scroll(g) => g.spec_steps(w, h),
            GeneratorKind::GameOfLife(g) => g.spec_steps(w, h),
        }
    }

    open spec fn spec_color(&self, w: int, h: int, n: int, x: int, y: int) -> Rgb {
        match self {
            GeneratorKind::HorizWave(g) => g.spec_color(w, h, n, x, y),
            GeneratorKind::HorizDblWave(g) => g.spec_color(w, h, n, x, y),
            GeneratorKind::VertWave(g) => g.spec_color(w, h, n, x, y),
            GeneratorKind::VertDblWave(g) => g.spec_color(w, h, n, x, y),
            GeneratorKind::Fade(g) => g.spec_color(w, h, n, x, y),
            GeneratorKind::Scroll(g) => g.spec_color(w, h, n, x, y),
            GeneratorKind::GameOfLife(g) => g.spec_color(w, h, n, x, y),
        }
    }

    open spec fn spec_name(&self) -> Seq<char> {
        match self {
            GeneratorKind::HorizWave(g) => g.spec_name(),
            GeneratorKind::HorizDblWave(g) => g.spec_name(),
            GeneratorKind::VertWave(g) => g.spec_name(),
            GeneratorKind::VertDblWave(g) => g.spec_name(),
            GeneratorKind::Fade(g) => g.spec_name(),
            GeneratorKind::Scroll(g) => g.spec_name(),
            GeneratorKind::GameOfLife(g) => g.spec_name(),
        }
    }

    fn valid_for(&self, w: u8, h: u8) -> (r: bool) {
        match self {
            GeneratorKind::HorizWave(g) => g.valid_for(w, h),
            GeneratorKind::HorizDblWave(g) => g.valid_for(w, h),
            GeneratorKind::VertWave(g) => g.valid_for(w, h),
            GeneratorKind::VertDblWave(g) => g.valid_for(w, h),
            GeneratorKind::Fade(g) => g.valid_for(w, h),
            GeneratorKind::Scroll(g) => g.valid_for(w, h),
            GeneratorKind::GameOfLife(g) => g.valid_for(w, h),
        }
    }

    fn steps(&self, w: u8, h: u8) -> (r: u8) {
        match self {
            GeneratorKind::HorizWave(g) => g.steps(w, h),
            GeneratorKind::HorizDblWave(g) => g.steps(w, h),
            GeneratorKind::VertWave(g) => g.steps(w, h),
            GeneratorKind::VertDblWave(g) => g.steps(w, h),
            GeneratorKind::Fade(g) => g.steps(w, h),
            GeneratorKind::Scroll(g) => g.steps(w, h),
            GeneratorKind::GameOfLife(g) => g.steps(w, h),
        }
    }

    fn generate(&self, w: u8, h: u8, n: u8, x: u8, y: u8) -> (c: Rgb) {
        match self {
            GeneratorKind::HorizWave(g) => g.generate(w, h, n, x, y),
            GeneratorKind::HorizDblWave(g) => g.generate(w, h, n, x, y),
            GeneratorKind::VertWave(g) => g.generate(w, h, n, x, y),
            GeneratorKind::VertDblWave(g) => g.generate(w, h, n, x, y),
            GeneratorKind::Fade(g) => g.generate(w, h, n, x, y),
            GeneratorKind::Scroll(g) => g.generate(w, h, n, x, y),
            GeneratorKind::GameOfLife(g) => g.generate(w, h, n, x, y),
        }
    }

    fn name(&self) -> (r: &str) {
        match self {
            GeneratorKind::HorizWave(g) => g.name(),
            GeneratorKind::HorizDblWave(g) => g.name(),
            GeneratorKind::VertWave(g) => g.name(),
            GeneratorKind::VertDblWave(g) => g.name(),
            GeneratorKind::Fade(g) => g.name(),
            GeneratorKind::Scroll(g) => g.name(),
            GeneratorKind::GameOfLife(g) => g.name(),
        }
    }
}

} // verus!
