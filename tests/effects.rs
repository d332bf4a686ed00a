use glitch_effects::complexeffect::{dispatch, draws_for, EffectChain, EffectError, SingleEffect, EFFECTS};
use glitch_effects::effects::{Blend, Brush, Call, Pattern, Window};
use glitch_effects::utils::{create_rect, draw, nul_terminated, random_color, rgb_to_colorref, to_utf16, Rect};

const ALL: [EFFECTS; 22] = [
    EFFECTS::SCALE,
    EFFECTS::INVERT,
    EFFECTS::RGB,
    EFFECTS::COPY,
    EFFECTS::PAINT,
    EFFECTS::ERODE,
    EFFECTS::WHITE,
    EFFECTS::BLACK,
    EFFECTS::MELTSTEP,
    EFFECTS::STRETCH,
    EFFECTS::SHRINK,
    EFFECTS::STRETCHRGB,
    EFFECTS::MELT,
    EFFECTS::FLIPH,
    EFFECTS::FLIPV,
    EFFECTS::RANDOMNOISE,
    EFFECTS::RANDOMRECTS,
    EFFECTS::RANDOMINVERT,
    EFFECTS::DESKTOPOVERLAY,
    EFFECTS::HORIZONTALLINES,
    EFFECTS::VERTICALLINES,
    EFFECTS::DIAGLINES,
];

fn screen() -> Window {
    Window::new(100, 50, 0, 0)
}

fn is_sleep(c: &Call) -> bool {
    matches!(c, Call::Sleep { .. })
}

#[test]
fn every_effect_issues_a_call() {
    let win = screen();
    for k in ALL {
        let d = draws_for(&win, k);
        let calls = dispatch(&win, k, &d);
        assert!(!calls.is_empty());
        assert!(!calls.iter().any(is_sleep));
    }
}

#[test]
fn stretch_rgb_is_stretch_then_rgb() {
    let win = screen();
    let calls = dispatch(&win, EFFECTS::STRETCHRGB, &vec![]);
    let mut expected = dispatch(&win, EFFECTS::STRETCH, &vec![]);
    expected.extend(dispatch(&win, EFFECTS::RGB, &vec![]));
    assert_eq!(calls, expected);
    assert_eq!(calls.len(), 2);
}

#[test]
fn single_effect_matches_chain_of_one() {
    let win = Window::new(30, 20, 2, 3);
    for k in ALL {
        let d = draws_for(&win, k);
        let single = SingleEffect::new(k).plan(&win, d.clone());
        let chain = EffectChain::new(0, vec![k]).unwrap();
        let chained = chain.plan(&win, &vec![d]);
        assert_eq!(single, chained);
        assert_eq!(single.last(), Some(&Call::Sleep { ms: 0 }));
    }
}

#[test]
fn chain_pauses_after_every_effect() {
    let win = screen();
    let chain = EffectChain::new(25, vec![EFFECTS::INVERT, EFFECTS::WHITE]).unwrap();
    let calls = chain.plan(&win, &vec![vec![], vec![]]);
    assert_eq!(
        calls,
        vec![
            Call::PatternFill { x: 0, y: 1, w: 100, h: 50, pattern: Pattern::PatternInvert },
            Call::Sleep { ms: 25 },
            Call::PatternFill { x: 0, y: 0, w: 100, h: 50, pattern: Pattern::White },
            Call::Sleep { ms: 25 },
        ]
    );
}

#[test]
fn melt_is_ten_steps_without_pause() {
    let win = screen();
    let d: Vec<i64> = (0..10).map(|i| i * 7).collect();
    let chain = EffectChain::new(40, vec![EFFECTS::MELT]).unwrap();
    let calls = chain.plan(&win, &vec![d.clone()]);
    assert_eq!(calls.len(), 11);
    for (i, c) in calls.iter().take(10).enumerate() {
        assert_eq!(
            *c,
            Call::BlockCopy { x: 0, y: 0, w: d[i], h: 100, src_x: 0, src_y: 0, blend: Blend::Overwrite }
        );
    }
    assert_eq!(calls[10], Call::Sleep { ms: 40 });
}

#[test]
fn random_effects_issue_fixed_counts() {
    let win = screen();
    let rects = dispatch(&win, EFFECTS::RANDOMRECTS, &draws_for(&win, EFFECTS::RANDOMRECTS));
    assert_eq!(rects.len(), 10);
    for c in &rects {
        match c {
            Call::FillRect { rect, color, brush } => {
                assert!(-100 <= rect.left && rect.left < 100);
                assert!(-50 <= rect.top && rect.top < 50);
                assert!(-100 <= rect.right && rect.right < 100);
                assert!(-50 <= rect.bottom && rect.bottom < 50);
                assert!(*color < 0x0100_0000);
                assert_eq!(*brush, Brush::Solid);
            }
            _ => panic!("not a fill"),
        }
    }
    let inverts = dispatch(&win, EFFECTS::RANDOMINVERT, &draws_for(&win, EFFECTS::RANDOMINVERT));
    assert_eq!(inverts.len(), 10);
    assert!(inverts
        .iter()
        .all(|c| matches!(c, Call::PatternFill { pattern: Pattern::DestInvert, .. })));
    let noise = dispatch(&win, EFFECTS::RANDOMNOISE, &draws_for(&win, EFFECTS::RANDOMNOISE));
    assert_eq!(noise.len(), 100);
    for c in &noise {
        match c {
            Call::SetPixel { x, y, color } => {
                assert!(0 <= *x && *x < 100);
                assert!(0 <= *y && *y < 50);
                assert!(*color < 0x0100_0000);
            }
            _ => panic!("not a pixel"),
        }
    }
}

#[test]
fn flip_horizontal_on_100_by_50() {
    let calls = dispatch(&screen(), EFFECTS::FLIPH, &vec![]);
    assert_eq!(
        calls,
        vec![Call::ScaledBlockCopy { x: 100, y: 0, w: -100, h: 50, src_x: 0, src_y: 0, src_w: 100, src_h: 50 }]
    );
}

#[test]
fn flip_vertical_on_100_by_50() {
    let calls = dispatch(&screen(), EFFECTS::FLIPV, &vec![]);
    assert_eq!(
        calls,
        vec![Call::ScaledBlockCopy { x: 0, y: 50, w: 100, h: -50, src_x: 0, src_y: 0, src_w: 100, src_h: 50 }]
    );
}

#[test]
fn negative_delay_is_refused() {
    assert_eq!(EffectChain::new(-1, vec![EFFECTS::WHITE]).unwrap_err(), EffectError::InvalidConfiguration);
}

#[test]
fn empty_chain_issues_nothing() {
    let chain = EffectChain::new(0, vec![]).unwrap();
    assert_eq!(chain.get_delay(), 0);
    assert!(chain.get_effects().is_empty());
    assert!(chain.execute(&screen()).is_empty());
}

#[test]
fn replay_with_same_draws_is_identical() {
    let win = screen();
    let effects = vec![EFFECTS::RANDOMRECTS, EFFECTS::COPY, EFFECTS::MELT, EFFECTS::DIAGLINES];
    let chain = EffectChain::new(5, effects.clone()).unwrap();
    let draws: Vec<Vec<i64>> = effects.iter().map(|k| draws_for(&win, *k)).collect();
    assert_eq!(chain.plan(&win, &draws), chain.plan(&win, &draws));
    let fixed = EffectChain::new(5, vec![EFFECTS::ERODE, EFFECTS::BLACK, EFFECTS::SHRINK]).unwrap();
    assert_eq!(fixed.execute(&win), fixed.execute(&win));
}

#[test]
fn region_effects_use_origin() {
    let win = Window::new(40, 30, 5, 7);
    assert_eq!(
        win.rgb_glitch(),
        Call::BlockCopy { x: 5, y: 7, w: 40, h: 30, src_x: 6, src_y: 6, blend: Blend::Xor }
    );
    assert_eq!(
        win.erode_glitch(),
        Call::BlockCopy { x: 5, y: 8, w: 40, h: 30, src_x: 5, src_y: 7, blend: Blend::And }
    );
    assert_eq!(
        win.stretch_glitch(10),
        Call::ScaledBlockCopy { x: 5, y: 7, w: 40, h: 40, src_x: 5, src_y: 7, src_w: 40, src_h: 30 }
    );
    assert_eq!(
        win.stretch_glitch_neg(10),
        Call::ScaledBlockCopy { x: 5, y: 7, w: 40, h: 20, src_x: 5, src_y: 7, src_w: 40, src_h: 30 }
    );
    assert_eq!(win.get_width(), 40);
    assert_eq!(win.get_height(), 30);
    assert_eq!(win.get_x(), 5);
    assert_eq!(win.get_y(), 7);
}

#[test]
fn lines_fill_whole_surface_with_drawn_color() {
    let win = screen();
    let calls = dispatch(&win, EFFECTS::VERTICALLINES, &vec![1, 2, 3]);
    assert_eq!(
        calls,
        vec![Call::FillRect {
            rect: Rect { left: 0, top: 0, right: 100, bottom: 50 },
            color: 0x030201,
            brush: Brush::HatchVertical,
        }]
    );
}

#[test]
fn empty_ranges_draw_zero() {
    let win = Window::new(0, 0, 0, 0);
    assert_eq!(draw(5, 5), 0);
    assert_eq!(draw(3, -3), 0);
    assert_eq!(draws_for(&win, EFFECTS::MELT), vec![0; 10]);
    assert_eq!(draws_for(&win, EFFECTS::MELTSTEP), vec![0]);
    assert_eq!(draws_for(&win, EFFECTS::RANDOMINVERT), vec![0; 40]);
    let rects = draws_for(&win, EFFECTS::RANDOMRECTS);
    assert_eq!(rects.len(), 70);
    for (i, v) in rects.iter().enumerate() {
        if i % 7 < 4 {
            assert_eq!(*v, 0);
        } else {
            assert!(0 <= *v && *v < 256);
        }
    }
    let calls = dispatch(&win, EFFECTS::RANDOMINVERT, &draws_for(&win, EFFECTS::RANDOMINVERT));
    assert_eq!(calls.len(), 10);
    assert!(draws_for(&win, EFFECTS::COPY).is_empty());
}

#[test]
fn draws_stay_in_range() {
    for _ in 0..50 {
        let v = draw(-4, 4);
        assert!(-4 <= v && v < 4);
    }
    assert!(random_color() < 0x0100_0000);
}

#[test]
fn colorref_packs_bytes() {
    assert_eq!(rgb_to_colorref(0x12, 0x34, 0x56), 0x563412);
    assert_eq!(rgb_to_colorref(255, 255, 255), 0xFFFFFF);
}

#[test]
fn rect_from_origin_and_extent() {
    assert_eq!(create_rect(2, 3, 10, -20), Rect { left: 2, top: 3, right: 12, bottom: -17 });
}

#[test]
fn utf16_is_zero_terminated() {
    assert_eq!(to_utf16("ab"), vec![97u16, 98, 0]);
    assert_eq!(to_utf16(""), vec![0u16]);
    assert_eq!(to_utf16("\u{1F600}"), vec![0xD83Du16, 0xDE00, 0]);
    assert_eq!(nul_terminated(vec![5u16]), vec![5u16, 0]);
}
