use vstd::prelude::*;

use crate::effects::{Brush, Call, Pattern, Window};
use crate::utils::{draw, fits, packed_rgb, rgb_to_colorref, Rect};

verus! {

/// The catalog of effects.
#[allow(non_camel_case_types)]
#[derive(Clone, Copy, Debug, PartialEq, Eq, Structural)]
pub enum EFFECTS {
    SCALE,
    INVERT,
    RGB,
    COPY,
    PAINT,
    ERODE,
    WHITE,
    BLACK,
    MELTSTEP,
    STRETCH,
    SHRINK,
    STRETCHRGB,
    MELT,
    FLIPH,
    FLIPV,
    RANDOMNOISE,
    RANDOMRECTS,
    RANDOMINVERT,
    DESKTOPOVERLAY,
    HORIZONTALLINES,
    VERTICALLINES,
    DIAGLINES,
}

/// How many random values an effect consumes.
pub open spec fn draw_count(k: EFFECTS) -> nat {
    match k {
        EFFECTS::MELTSTEP => 1,
        EFFECTS::MELT => 10,
        EFFECTS::RANDOMNOISE => 500,
        EFFECTS::RANDOMRECTS => 70,
        EFFECTS::RANDOMINVERT => 40,
        EFFECTS::HORIZONTALLINES | EFFECTS::VERTICALLINES | EFFECTS::DIAGLINES => 3,
        _ => 0,
    }
}

/// The half-open range `[lo, hi)` that the `i`-th random value of an effect
/// is drawn from. Ranges around zero are kept as they are, empty or not.
pub open spec fn draw_range(win: Window, k: EFFECTS, i: int) -> (i64, i64) {
    let wide = ((-win.w) as i64, win.w as i64);
    let tall = ((-win.h) as i64, win.h as i64);
    let byte = (0i64, 256i64);
    match k {
        EFFECTS::MELTSTEP | EFFECTS::MELT => (0i64, win.w as i64),
        EFFECTS::RANDOMNOISE => if i % 5 == 0 {
            (0i64, win.w as i64)
        } else if i % 5 == 1 {
            (0i64, win.h as i64)
        } else {
            byte
        },
        EFFECTS::RANDOMRECTS => if i % 7 == 0 || i % 7 == 2 {
            wide
        } else if i % 7 == 1 || i % 7 == 3 {
            tall
        } else {
            byte
        },
        EFFECTS::RANDOMINVERT => if i % 2 == 0 {
            wide
        } else {
            tall
        },
        _ => byte,
    }
}

/// Whether `d` holds one value for each random draw of effect `k`, each a
/// value that its range may give.
pub open spec fn draws_fit(win: Window, k: EFFECTS, d: Seq<i64>) -> bool {
    &&& d.len() == draw_count(k)
    &&& forall|i: int|
        0 <= i < d.len() ==> fits(
            #[trigger] draw_range(win, k, i).0 as int,
            draw_range(win, k, i).1 as int,
            d[i] as int,
        )
}

/// The color packed from three consecutive drawn bytes starting at `p`.
pub open spec fn color_at(d: Seq<i64>, p: int) -> u32 {
    packed_rgb(d[p] as u8, d[p + 1] as u8, d[p + 2] as u8) as u32
}

pub open spec fn noise_call(d: Seq<i64>, j: int) -> Call {
    Call::SetPixel { x: d[5 * j], y: d[5 * j + 1], color: color_at(d, 5 * j + 2) }
}

pub open spec fn rects_call(d: Seq<i64>, j: int) -> Call {
    Call::FillRect {
        rect: Rect { left: d[7 * j], top: d[7 * j + 1], right: d[7 * j + 2], bottom: d[7 * j + 3] },
        color: color_at(d, 7 * j + 4),
        brush: Brush::Solid,
    }
}

pub open spec fn invert_rect_call(d: Seq<i64>, j: int) -> Call {
    Call::PatternFill {
        x: d[4 * j],
        y: d[4 * j + 1],
        w: d[4 * j + 2],
        h: d[4 * j + 3],
        pattern: Pattern::DestInvert,
    }
}

/// The whole surface mirrored left to right.
pub open spec fn flip_h_call(win: Window) -> Call {
    Call::ScaledBlockCopy {
        x: win.w as i64,
        y: 0,
        w: (-win.w) as i64,
        h: win.h as i64,
        src_x: 0,
        src_y: 0,
        src_w: win.w as i64,
        src_h: win.h as i64,
    }
}

/// The whole surface mirrored top to bottom.
pub open spec fn flip_v_call(win: Window) -> Call {
    Call::ScaledBlockCopy {
        x: 0,
        y: win.h as i64,
        w: win.w as i64,
        h: (-win.h) as i64,
        src_x: 0,
        src_y: 0,
        src_w: win.w as i64,
        src_h: win.h as i64,
    }
}

/// The full surface rectangle filled with a hatch brush of a drawn color.
pub open spec fn lines_call(win: Window, d: Seq<i64>, brush: Brush) -> Call {
    Call::FillRect {
        rect: Rect { left: 0, top: 0, right: win.w as i64, bottom: win.h as i64 },
        color: color_at(d, 0),
        brush,
    }
}

/// The primitive calls that effect `k` issues on `win`, given its drawn values.
pub open spec fn effect_calls(win: Window, k: EFFECTS, d: Seq<i64>) -> Seq<Call> {
    match k {
        EFFECTS::SCALE | EFFECTS::STRETCH => seq![win.stretch_call(10)],
        EFFECTS::SHRINK => seq![win.stretch_call(-10)],
        EFFECTS::INVERT => seq![win.invert_call()],
        EFFECTS::RGB => seq![win.rgb_glitch_call()],
        EFFECTS::COPY => seq![win.copy_glitch_call()],
        EFFECTS::PAINT => seq![win.paint_glitch_call()],
        EFFECTS::ERODE => seq![win.erode_glitch_call()],
        EFFECTS::WHITE => seq![win.fill_call(Pattern::White)],
        EFFECTS::BLACK => seq![win.fill_call(Pattern::Black)],
        EFFECTS::MELTSTEP => seq![win.melt_step_call(d[0])],
        EFFECTS::STRETCHRGB => seq![win.stretch_call(10), win.rgb_glitch_call()],
        EFFECTS::MELT => Seq::new(10, |j: int| win.melt_step_call(d[j])),
        EFFECTS::FLIPH => seq![flip_h_call(win)],
        EFFECTS::FLIPV => seq![flip_v_call(win)],
        EFFECTS::RANDOMNOISE => Seq::new(100, |j: int| noise_call(d, j)),
        EFFECTS::RANDOMRECTS => Seq::new(10, |j: int| rects_call(d, j)),
        EFFECTS::RANDOMINVERT => Seq::new(10, |j: int| invert_rect_call(d, j)),
        EFFECTS::DESKTOPOVERLAY => seq![Call::PaintDesktop],
        EFFECTS::HORIZONTALLINES => seq![lines_call(win, d, Brush::HatchHorizontal)],
        EFFECTS::VERTICALLINES => seq![lines_call(win, d, Brush::HatchVertical)],
        EFFECTS::DIAGLINES => seq![lines_call(win, d, Brush::HatchDiagonal)],
    }
}

fn draw_count_of(k: EFFECTS) -> (r: usize)
    ensures
        r == draw_count(k),
{
    match k {
        EFFECTS::MELTSTEP => 1,
        EFFECTS::MELT => 10,
        EFFECTS::RANDOMNOISE => 500,
        EFFECTS::RANDOMRECTS => 70,
        EFFECTS::RANDOMINVERT => 40,
        EFFECTS::HORIZONTALLINES | EFFECTS::VERTICALLINES | EFFECTS::DIAGLINES => 3,
        _ => 0,
    }
}

fn draw_range_of(win: &Window, k: EFFECTS, i: usize) -> (r: (i64, i64))
    ensures
        r == draw_range(*win, k, i as int),
{
    let wide = (-(win.w as i64), win.w as i64);
    let tall = (-(win.h as i64), win.h as i64);
    let byte = (0i64, 256i64);
    match k {
        EFFECTS::MELTSTEP | EFFECTS::MELT => (0i64, win.w as i64),
        EFFECTS::RANDOMNOISE => if i % 5 == 0 {
            (0i64, win.w as i64)
        } else if i % 5 == 1 {
            (0i64, win.h as i64)
        } else {
            byte
        },
        EFFECTS::RANDOMRECTS => if i % 7 == 0 || i % 7 == 2 {
            wide
        } else if i % 7 == 1 || i % 7 == 3 {
            tall
        } else {
            byte
        },
        EFFECTS::RANDOMINVERT => if i % 2 == 0 {
            wide
        } else {
            tall
        },
        _ => byte,
    }
}

/// Draws the random values that effect `k` consumes on `win`.
pub fn draws_for(win: &Window, k: EFFECTS) -> (r: Vec<i64>)
    ensures
        draws_fit(*win, k, r@),
{
    let n = draw_count_of(k);
    let mut out: Vec<i64> = Vec::new();
    let mut i: usize = 0;
    while i < n
        invariant
            n == draw_count(k),
            i <= n,
            out@.len() == i,
            forall|j: int|
                0 <= j < i ==> fits(
                    #[trigger] draw_range(*win, k, j).0 as int,
                    draw_range(*win, k, j).1 as int,
                    out@[j] as int,
                ),
        decreases n - i,
    {
        let (lo, hi) = draw_range_of(win, k, i);
        let v = draw(lo, hi);
        out.push(v);
        i += 1;
    }
    out
}

fn color_from(d: &Vec<i64>, p: usize) -> (c: u32)
    requires
        p + 2 < d@.len(),
    ensures
        c == color_at(d@, p as int),
{
    let n = d.len();
    assert(p + 2 < n);
    let r = #[verifier::truncate] (d[p] as u8);
    let g = #[verifier::truncate] (d[p + 1] as u8);
    let b = #[verifier::truncate] (d[p + 2] as u8);
    rgb_to_colorref(r, g, b)
}

fn single(c: Call) -> (r: Vec<Call>)
    ensures
        r@ == seq![c],
{
    let mut v: Vec<Call> = Vec::new();
    v.push(c);
    v
}

fn melt(win: &Window, d: &Vec<i64>) -> (r: Vec<Call>)
    requires
        d@.len() == 10,
    ensures
        r@ == effect_calls(*win, EFFECTS::MELT, d@),
{
    let mut out: Vec<Call> = Vec::new();
    let mut i: usize = 0;
    while i < 10
        invariant
            d@.len() == 10,
            i <= 10,
            out@.len() == i,
            forall|j: int| 0 <= j < i ==> out@[j] == win.melt_step_call(d@[j]),
        decreases 10 - i,
    {
        out.push(win.melt_step(d[i]));
        i += 1;
    }
    assert(out@ =~= effect_calls(*win, EFFECTS::MELT, d@));
    out
}

fn random_noise(win: &Window, d: &Vec<i64>) -> (r: Vec<Call>)
    requires
        d@.len() == 500,
    ensures
        r@ == effect_calls(*win, EFFECTS::RANDOMNOISE, d@),
{
    let mut out: Vec<Call> = Vec::new();
    let mut i: usize = 0;
    while i < 100
        invariant
            d@.len() == 500,
            i <= 100,
            out@.len() == i,
            forall|j: int| 0 <= j < i ==> out@[j] == noise_call(d@, j),
        decreases 100 - i,
    {
        let p = 5 * i;
        let color = color_from(d, p + 2);
        out.push(win.set_pixel(d[p], d[p + 1], color));
        i += 1;
    }
    assert(out@ =~= effect_calls(*win, EFFECTS::RANDOMNOISE, d@));
    out
}

fn random_rects(win: &Window, d: &Vec<i64>) -> (r: Vec<Call>)
    requires
        d@.len() == 70,
    ensures
        r@ == effect_calls(*win, EFFECTS::RANDOMRECTS, d@),
{
    let mut out: Vec<Call> = Vec::new();
    let mut i: usize = 0;
    while i < 10
        invariant
            d@.len() == 70,
            i <= 10,
            out@.len() == i,
            forall|j: int| 0 <= j < i ==> out@[j] == rects_call(d@, j),
        decreases 10 - i,
    {
        let p = 7 * i;
        let rect = Rect { left: d[p], top: d[p + 1], right: d[p + 2], bottom: d[p + 3] };
        let color = color_from(d, p + 4);
        out.push(win.fill_rect(rect, color));
        i += 1;
    }
    assert(out@ =~= effect_calls(*win, EFFECTS::RANDOMRECTS, d@));
    out
}

fn random_invert(d: &Vec<i64>) -> (r: Vec<Call>)
    requires
        d@.len() == 40,
    ensures
        forall|win: Window| r@ == effect_calls(win, EFFECTS::RANDOMINVERT, d@),
{
    let mut out: Vec<Call> = Vec::new();
    let mut i: usize = 0;
    while i < 10
        invariant
            d@.len() == 40,
            i <= 10,
            out@.len() == i,
            forall|j: int| 0 <= j < i ==> out@[j] == invert_rect_call(d@, j),
        decreases 10 - i,
    {
        let p = 4 * i;
        out.push(
            Call::PatternFill {
                x: d[p],
                y: d[p + 1],
                w: d[p + 2],
                h: d[p + 3],
                pattern: Pattern::DestInvert,
            },
        );
        i += 1;
    }
    assert(out@ =~= Seq::new(10, |j: int| invert_rect_call(d@, j)));
    out
}

fn lines(win: &Window, d: &Vec<i64>, brush: Brush) -> (r: Vec<Call>)
    requires
        d@.len() == 3,
    ensures
        r@ == seq![lines_call(*win, d@, brush)],
{
    let rect = Rect { left: 0, top: 0, right: win.w as i64, bottom: win.h as i64 };
    single(Call::FillRect { rect, color: color_from(d, 0), brush })
}

/// The primitive calls of one effect on `win`, given the values drawn for it
/// (see `draws_for`).
pub fn dispatch(win: &Window, kind: EFFECTS, d: &Vec<i64>) -> (r: Vec<Call>)
    requires
        d@.len() == draw_count(kind),
    ensures
        r@ == effect_calls(*win, kind, d@),
{
    match kind {
        EFFECTS::SCALE | EFFECTS::STRETCH => single(win.stretch_glitch(10)),
        EFFECTS::SHRINK => single(win.stretch_glitch_neg(10)),
        EFFECTS::INVERT => single(win.invert()),
        EFFECTS::RGB => single(win.rgb_glitch()),
        EFFECTS::COPY => single(win.copy_glitch()),
        EFFECTS::PAINT => single(win.paint_glitch()),
        EFFECTS::ERODE => single(win.erode_glitch()),
        EFFECTS::WHITE => single(win.set_white()),
        EFFECTS::BLACK => single(win.set_black()),
        EFFECTS::MELTSTEP => single(win.melt_step(d[0])),
        EFFECTS::STRETCHRGB => {
            let mut v = single(win.stretch_glitch(10));
            v.push(win.rgb_glitch());
            assert(v@ =~= seq![win.stretch_call(10), win.rgb_glitch_call()]);
            v
        },
        EFFECTS::MELT => melt(win, d),
        EFFECTS::FLIPH => single(
            Call::ScaledBlockCopy {
                x: win.w as i64,
                y: 0,
                w: -(win.w as i64),
                h: win.h as i64,
                src_x: 0,
                src_y: 0,
                src_w: win.w as i64,
                src_h: win.h as i64,
            },
        ),
        EFFECTS::FLIPV => single(
            Call::ScaledBlockCopy {
                x: 0,
                y: win.h as i64,
                w: win.w as i64,
                h: -(win.h as i64),
                src_x: 0,
                src_y: 0,
                src_w: win.w as i64,
                src_h: win.h as i64,
            },
        ),
        EFFECTS::RANDOMNOISE => random_noise(win, d),
        EFFECTS::RANDOMRECTS => random_rects(win, d),
        EFFECTS::RANDOMINVERT => random_invert(d),
        EFFECTS::DESKTOPOVERLAY => single(Call::PaintDesktop),
        EFFECTS::HORIZONTALLINES => lines(win, d, Brush::HatchHorizontal),
        EFFECTS::VERTICALLINES => lines(win, d, Brush::HatchVertical),
        EFFECTS::DIAGLINES => lines(win, d, Brush::HatchDiagonal),
    }
}

/// What the library refuses at construction.
#[derive(Clone, Copy, Debug, PartialEq, Eq, Structural)]
pub enum EffectError {
    /// A negative delay between effects.
    InvalidConfiguration,
}

/// The drawn values of each effect of a list, as sequences.
pub open spec fn draw_views(d: Seq<Vec<i64>>) -> Seq<Seq<i64>> {
    d.map_values(|v: Vec<i64>| v@)
}

/// Whether `d` holds, for each effect of `effects`, as many values as it draws.
pub open spec fn draw_lengths(effects: Seq<EFFECTS>, d: Seq<Seq<i64>>) -> bool {
    &&& d.len() == effects.len()
    &&& forall|i: int| 0 <= i < d.len() ==> (#[trigger] d[i]).len() == draw_count(effects[i])
}

/// Whether `d` holds, for each effect of `effects`, values that its draws may give.
pub open spec fn chain_draws_fit(win: Window, effects: Seq<EFFECTS>, d: Seq<Seq<i64>>) -> bool {
    &&& d.len() == effects.len()
    &&& forall|i: int| 0 <= i < d.len() ==> draws_fit(win, effects[i], #[trigger] d[i])
}

/// The calls of a list of effects played in order, each followed by a pause
/// of `delay` milliseconds, the last one included.
pub open spec fn chain_calls(
    win: Window,
    effects: Seq<EFFECTS>,
    delay: u64,
    d: Seq<Seq<i64>>,
) -> Seq<Call>
    decreases effects.len(),
{
    if effects.len() == 0 {
        seq![]
    } else {
        chain_calls(win, effects.drop_last(), delay, d.drop_last()) + effect_calls(
            win,
            effects.last(),
            d.last(),
        ).push(Call::Sleep { ms: delay })
    }
}

/// The calls of `effects` on `win` with a pause of `delay` after each, given
/// the values drawn for each effect.
fn plan_effects(win: &Window, effects: &Vec<EFFECTS>, delay: u64, draws: &Vec<Vec<i64>>) -> (r: Vec<
    Call,
>)
    requires
        draw_lengths(effects@, draw_views(draws@)),
    ensures
        r@ == chain_calls(*win, effects@, delay, draw_views(draws@)),
{
    let ghost dv = draw_views(draws@);
    let mut out: Vec<Call> = Vec::new();
    let mut i: usize = 0;
    assert(effects@.take(0) =~= seq![]);
    while i < effects.len()
        invariant
            draw_lengths(effects@, dv),
            dv == draw_views(draws@),
            i <= effects@.len(),
            out@ == chain_calls(*win, effects@.take(i as int), delay, dv.take(i as int)),
        decreases effects@.len() - i,
    {
        assert(dv[i as int] == draws@[i as int]@);
        assert(dv[i as int].len() == draw_count(effects@[i as int]));
        let mut calls = dispatch(win, effects[i], &draws[i]);
        out.append(&mut calls);
        out.push(Call::Sleep { ms: delay });
        proof {
            let e1 = effects@.take(i + 1);
            let d1 = dv.take(i + 1);
            assert(e1.drop_last() =~= effects@.take(i as int));
            assert(d1.drop_last() =~= dv.take(i as int));
            assert(e1.last() == effects@[i as int]);
            assert(d1.last() == dv[i as int]);
        }
        i += 1;
    }
    assert(effects@.take(effects@.len() as int) =~= effects@);
    assert(dv.take(dv.len() as int) =~= dv);
    out
}

/// Draws the values of each effect of `effects` on `win`.
fn draws_for_all(win: &Window, effects: &Vec<EFFECTS>) -> (r: Vec<Vec<i64>>)
    ensures
        chain_draws_fit(*win, effects@, draw_views(r@)),
        draw_lengths(effects@, draw_views(r@)),
{
    let mut out: Vec<Vec<i64>> = Vec::new();
    let mut i: usize = 0;
    while i < effects.len()
        invariant
            i <= effects@.len(),
            out@.len() == i,
            forall|j: int| 0 <= j < i ==> draws_fit(*win, effects@[j], #[trigger] out@[j]@),
        decreases effects@.len() - i,
    {
        let d = draws_for(win, effects[i]);
        out.push(d);
        i += 1;
    }
    assert forall|j: int| 0 <= j < out@.len() implies draws_fit(
        *win,
        effects@[j],
        #[trigger] draw_views(out@)[j],
    ) by {
        assert(draw_views(out@)[j] == out@[j]@);
    }
    out
}

/// Plays `effects` on `win` with a pause of `delay` after each: the calls,
/// whatever values were drawn.
fn execute(target: &Window, effects: &Vec<EFFECTS>, delay: u64) -> (r: Vec<Call>)
    ensures
        exists|d: Seq<Seq<i64>>|
            chain_draws_fit(*target, effects@, d) && r@ == chain_calls(
                *target,
                effects@,
                delay,
                d,
            ),
{
    let draws = draws_for_all(target, effects);
    let r = plan_effects(target, effects, delay, &draws);
    assert(chain_draws_fit(*target, effects@, draw_views(draws@)));
    r
}

/// One effect played on its own, with no pause.
#[derive(Clone, Copy, Debug, PartialEq, Eq, Structural)]
pub struct SingleEffect {
    effect: EFFECTS,
}

impl SingleEffect {
    pub closed spec fn kind(self) -> EFFECTS {
        self.effect
    }

    pub fn new(effect: EFFECTS) -> (r: SingleEffect)
        ensures
            r.kind() == effect,
    {
        SingleEffect { effect }
    }

    /// The calls of this effect, given its drawn values: exactly those of a
    /// chain of this one effect with no delay.
    pub fn plan(&self, target: &Window, d: Vec<i64>) -> (r: Vec<Call>)
        requires
            d@.len() == draw_count(self.kind()),
        ensures
            r@ == chain_calls(*target, seq![self.kind()], 0, seq![d@]),
    {
        let ghost dv = d@;
        let mut effects: Vec<EFFECTS> = Vec::new();
        effects.push(self.effect);
        let mut draws: Vec<Vec<i64>> = Vec::new();
        draws.push(d);
        assert(effects@ =~= seq![self.kind()]);
        assert(draw_views(draws@) =~= seq![dv]);
        plan_effects(target, &effects, 0, &draws)
    }

    pub fn execute(&self, target: &Window) -> (r: Vec<Call>)
        ensures
            exists|d: Seq<Seq<i64>>|
                chain_draws_fit(*target, seq![self.kind()], d) && r@ == chain_calls(
                    *target,
                    seq![self.kind()],
                    0,
                    d,
                ),
    {
        let mut effects: Vec<EFFECTS> = Vec::new();
        effects.push(self.effect);
        assert(effects@ =~= seq![self.kind()]);
        execute(target, &effects, 0)
    }
}

/// A list of effects played in order, with a pause after each.
#[derive(Debug)]
pub struct EffectChain {
    delay: u64,
    effects: Vec<EFFECTS>,
}

impl EffectChain {
    /// The pause after each effect, in milliseconds.
    pub closed spec fn delay_ms(&self) -> u64 {
        self.delay
    }

    /// The effects in playing order.
    pub closed spec fn effect_list(&self) -> Seq<EFFECTS> {
        self.effects@
    }

    /// A chain of `effects` with a pause of `delay` milliseconds after each;
    /// a negative delay is refused.
    pub fn new(delay: i64, effects: Vec<EFFECTS>) -> (r: Result<EffectChain, EffectError>)
        ensures
            delay < 0 <==> r is Err,
            r is Err ==> r == Err::<EffectChain, EffectError>(EffectError::InvalidConfiguration),
            r matches Ok(c) ==> c.delay_ms() == delay && c.effect_list() == effects@,
    {
        if delay < 0 {
            Err(EffectError::InvalidConfiguration)
        } else {
            Ok(EffectChain { delay: delay as u64, effects })
        }
    }

    pub fn get_delay(&self) -> (r: u64)
        ensures
            r == self.delay_ms(),
    {
        self.delay
    }

    pub fn get_effects(&self) -> (r: &Vec<EFFECTS>)
        ensures
            r@ == self.effect_list(),
    {
        &self.effects
    }

    /// The calls of the chain, given the values drawn for each effect.
    pub fn plan(&self, target: &Window, draws: &Vec<Vec<i64>>) -> (r: Vec<Call>)
        requires
            draw_lengths(self.effect_list(), draw_views(draws@)),
        ensures
            r@ == chain_calls(*target, self.effect_list(), self.delay_ms(), draw_views(draws@)),
    {
        plan_effects(target, &self.effects, self.delay, draws)
    }

    /// Plays the chain: the calls, whatever values were drawn.
    pub fn execute(&self, target: &Window) -> (r: Vec<Call>)
        ensures
            exists|d: Seq<Seq<i64>>|
                chain_draws_fit(*target, self.effect_list(), d) && r@ == chain_calls(
                    *target,
                    self.effect_list(),
                    self.delay_ms(),
                    d,
                ),
    {
        let r = execute(target, &self.effects, self.delay);
        proof {
            let d = choose|d: Seq<Seq<i64>>|
                chain_draws_fit(*target, self.effects@, d) && r@ == chain_calls(
                    *target,
                    self.effects@,
                    self.delay,
                    d,
                );
            assert(chain_draws_fit(*target, self.effect_list(), d));
        }
        r
    }
}

/// A chain of one effect: its calls, then one pause.
proof fn lemma_chain_of_one(win: Window, k: EFFECTS, delay: u64, d: Seq<i64>)
    ensures
        chain_calls(win, seq![k], delay, seq![d]) == effect_calls(win, k, d).push(
            Call::Sleep { ms: delay },
        ),
{
    let e = seq![k];
    let ds = seq![d];
    assert(e.drop_last() =~= Seq::<EFFECTS>::empty());
    assert(e.last() == k);
    assert(ds.last() == d);
    assert(chain_calls(win, e.drop_last(), delay, ds.drop_last()) == Seq::<Call>::empty());
    let x = effect_calls(win, k, d).push(Call::Sleep { ms: delay });
    assert(Seq::<Call>::empty() + x =~= x);
}

/// Every effect issues at least one primitive call, and none of them is a
/// pause; the stretch-and-glitch effect issues exactly the calls of a stretch
/// followed by those of an RGB glitch.
pub proof fn lemma_dispatch_never_silent(win: Window, k: EFFECTS, d: Seq<i64>)
    requires
        d.len() == draw_count(k),
    ensures
        effect_calls(win, k, d).len() >= 1,
        forall|i: int|
            0 <= i < effect_calls(win, k, d).len() ==> !(#[trigger] effect_calls(win, k, d)[i] is Sleep),
        k == EFFECTS::STRETCHRGB ==> effect_calls(win, k, d) == effect_calls(
            win,
            EFFECTS::STRETCH,
            seq![],
        ) + effect_calls(win, EFFECTS::RGB, seq![]),
{
    if k == EFFECTS::STRETCHRGB {
        assert(effect_calls(win, k, d) =~= effect_calls(win, EFFECTS::STRETCH, seq![])
            + effect_calls(win, EFFECTS::RGB, seq![]));
    }
}

/// A single effect plays exactly as a chain of that one effect with no delay:
/// its calls, then a pause of zero.
pub proof fn lemma_single_matches_chain(win: Window, s: SingleEffect, c: EffectChain, d: Seq<i64>)
    requires
        c.delay_ms() == 0,
        c.effect_list() == seq![s.kind()],
    ensures
        chain_calls(win, c.effect_list(), c.delay_ms(), seq![d]) == chain_calls(
            win,
            seq![s.kind()],
            0,
            seq![d],
        ),
        chain_calls(win, seq![s.kind()], 0, seq![d]) == effect_calls(win, s.kind(), d).push(
            Call::Sleep { ms: 0 },
        ),
{
    lemma_chain_of_one(win, s.kind(), 0, d);
}

/// A chain of two effects issues the calls of the first, a pause of the
/// delay, the calls of the second, and a pause of the delay again.
pub proof fn lemma_two_effects(
    win: Window,
    k1: EFFECTS,
    k2: EFFECTS,
    delay: u64,
    d1: Seq<i64>,
    d2: Seq<i64>,
)
    ensures
        chain_calls(win, seq![k1, k2], delay, seq![d1, d2]) == effect_calls(win, k1, d1).push(
            Call::Sleep { ms: delay },
        ) + effect_calls(win, k2, d2).push(Call::Sleep { ms: delay }),
{
    let e = seq![k1, k2];
    let d = seq![d1, d2];
    assert(e.drop_last() =~= seq![k1]);
    assert(d.drop_last() =~= seq![d1]);
    assert(e.last() == k2);
    assert(d.last() == d2);
    lemma_chain_of_one(win, k1, delay, d1);
}

/// The melt issues exactly ten melt-step block copies in a row, one for each
/// drawn width; in a chain the only pause comes after all ten, whatever the
/// delay.
pub proof fn lemma_melt_is_ten_steps(win: Window, d: Seq<i64>, delay: u64)
    requires
        d.len() == 10,
    ensures
        effect_calls(win, EFFECTS::MELT, d).len() == 10,
        forall|j: int|
            0 <= j < 10 ==> #[trigger] effect_calls(win, EFFECTS::MELT, d)[j] == effect_calls(
                win,
                EFFECTS::MELTSTEP,
                seq![d[j]],
            )[0] && effect_calls(win, EFFECTS::MELT, d)[j] is BlockCopy,
        chain_calls(win, seq![EFFECTS::MELT], delay, seq![d]) == effect_calls(
            win,
            EFFECTS::MELT,
            d,
        ).push(Call::Sleep { ms: delay }),
{
    lemma_chain_of_one(win, EFFECTS::MELT, delay, d);
}

/// Random rectangles and random inversions each issue exactly ten fills;
/// random noise issues exactly one hundred pixel writes.
pub proof fn lemma_random_effect_counts(win: Window, rects: Seq<i64>, inverts: Seq<i64>, noise: Seq<i64>)
    requires
        rects.len() == draw_count(EFFECTS::RANDOMRECTS),
        inverts.len() == draw_count(EFFECTS::RANDOMINVERT),
        noise.len() == draw_count(EFFECTS::RANDOMNOISE),
    ensures
        effect_calls(win, EFFECTS::RANDOMRECTS, rects).len() == 10,
        forall|j: int|
            0 <= j < 10 ==> #[trigger] effect_calls(win, EFFECTS::RANDOMRECTS, rects)[j] is FillRect,
        effect_calls(win, EFFECTS::RANDOMINVERT, inverts).len() == 10,
        forall|j: int|
            0 <= j < 10 ==> #[trigger] effect_calls(win, EFFECTS::RANDOMINVERT, inverts)[j] is PatternFill,
        effect_calls(win, EFFECTS::RANDOMNOISE, noise).len() == 100,
        forall|j: int|
            0 <= j < 100 ==> #[trigger] effect_calls(win, EFFECTS::RANDOMNOISE, noise)[j] is SetPixel,
{
}

/// A chain of no effects issues no calls at all.
pub proof fn lemma_empty_chain(win: Window, c: EffectChain, d: Seq<Seq<i64>>)
    requires
        c.effect_list().len() == 0,
    ensures
        chain_calls(win, c.effect_list(), c.delay_ms(), d) == Seq::<Call>::empty(),
{
}

/// Playing a chain twice with the same drawn values gives the same calls.
/// Effects that draw nothing give the same calls whatever the source gave, so
/// a chain of such effects replays identically on any source.
pub proof fn lemma_replay_deterministic(
    win: Window,
    effects: Seq<EFFECTS>,
    delay: u64,
    d1: Seq<Seq<i64>>,
    d2: Seq<Seq<i64>>,
)
    requires
        draw_lengths(effects, d1),
        draw_lengths(effects, d2),
        forall|i: int| 0 <= i < effects.len() && draw_count(#[trigger] effects[i]) > 0 ==> d1[i] == d2[i],
    ensures
        chain_calls(win, effects, delay, d1) == chain_calls(win, effects, delay, d2),
    decreases effects.len(),
{
    if effects.len() > 0 {
        let n = effects.len() - 1;
        let e0 = effects.drop_last();
        let a = d1.drop_last();
        let b = d2.drop_last();
        assert forall|i: int| 0 <= i < a.len() implies (#[trigger] a[i]).len() == draw_count(e0[i]) by {
            assert(a[i] == d1[i]);
        }
        assert forall|i: int| 0 <= i < b.len() implies (#[trigger] b[i]).len() == draw_count(e0[i]) by {
            assert(b[i] == d2[i]);
        }
        assert forall|i: int| 0 <= i < e0.len() && draw_count(#[trigger] e0[i]) > 0 implies a[i] == b[i] by {
            assert(e0[i] == effects[i]);
        }
        lemma_replay_deterministic(win, e0, delay, a, b);
        assert(d1[n].len() == draw_count(effects[n]));
        assert(d2[n].len() == draw_count(effects[n]));
        if draw_count(effects[n]) == 0 {
            assert(d1[n] =~= d2[n]);
        }
        assert(d1.last() == d2.last());
    }
}

} // verus!
