use pixelanim::Rgb;
use pixelanim::animation::{assemble, assemble_all, Animation, ConfigError};
use pixelanim::generator::{
    generate_twice, Fade, GameOfLife, Generate, GeneratorKind, HorizDblWave, HorizWave, Scroll,
    VertDblWave, VertWave,
};

const WHITE: Rgb = Rgb(255, 255, 255);
const BLACK: Rgb = Rgb(0, 0, 0);

fn pixel(a: &Animation, n: usize, x: usize, y: usize, h: usize) -> Rgb {
    a.images[n][x * h + y]
}

#[test]
fn assemble_frame_and_pixel_counts() {
    let a = assemble(&HorizWave, 9, 9).unwrap();
    assert_eq!(a.images.len(), 16);
    for img in &a.images {
        assert_eq!(img.len(), 81);
    }
    let chess: Vec<Vec<u8>> = (0..9)
        .map(|y| (0..9).map(|x| ((x + y) % 2 == 0) as u8).collect())
        .collect();
    let g = Fade::new(chess, "chess");
    assert_eq!(g.steps(9, 9), 16);
    let a = assemble(&g, 9, 9).unwrap();
    assert_eq!(a.images.len(), 16);
    for img in &a.images {
        assert_eq!(img.len(), 81);
    }
    assert_eq!(a.name, "chess");
    let a = assemble(&GameOfLife, 5, 4).unwrap();
    assert_eq!(a.images.len(), 16);
    for img in &a.images {
        assert_eq!(img.len(), 20);
        assert!(img.iter().all(|c| *c == BLACK));
    }
}

#[test]
fn horiz_wave_sweep() {
    assert_eq!(HorizWave.steps(9, 9), 16);
    let a = assemble(&HorizWave, 9, 9).unwrap();
    assert_eq!(a.name, "horiz_wave");
    assert_eq!(a.images.len(), 16);
    for n in 0..16usize {
        let expected = 8 - (n as i32 - 8).unsigned_abs() as usize;
        for x in 0..9 {
            for y in 0..9 {
                let want = if x == expected { WHITE } else { BLACK };
                assert_eq!(pixel(&a, n, x, y, 9), want, "frame {n} pixel {x},{y}");
            }
        }
    }
    assert_eq!(pixel(&a, 0, 0, 0, 9), WHITE);
    assert_eq!(pixel(&a, 4, 4, 3, 9), WHITE);
    assert_eq!(pixel(&a, 15, 1, 8, 9), WHITE);
}

#[test]
fn horiz_wave_one_lit_column_per_frame() {
    let a = assemble(&HorizWave, 9, 9).unwrap();
    for n in 0..16usize {
        let mut lit_columns = 0;
        for x in 0..9 {
            let full = (0..9).all(|y| pixel(&a, n, x, y, 9) == WHITE);
            let dark = (0..9).all(|y| pixel(&a, n, x, y, 9) == BLACK);
            assert!(full || dark);
            if full {
                lit_columns += 1;
            }
        }
        assert_eq!(lit_columns, 1, "frame {n}");
    }
}

#[test]
fn vert_wave_sweep() {
    assert_eq!(VertWave.steps(9, 9), 16);
    let a = assemble(&VertWave, 9, 9).unwrap();
    assert_eq!(a.name, "vert_wave");
    for n in 0..16usize {
        let expected = 8 - (n as i32 - 8).unsigned_abs() as usize;
        for x in 0..9 {
            for y in 0..9 {
                let want = if y == expected { WHITE } else { BLACK };
                assert_eq!(pixel(&a, n, x, y, 9), want);
            }
        }
    }
}

#[test]
fn horiz_dbl_wave_mirrored_columns() {
    assert_eq!(HorizDblWave.steps(9, 9), 8);
    let a = assemble(&HorizDblWave, 9, 9).unwrap();
    assert_eq!(a.name, "horiz_dbl_wave");
    assert_eq!(a.images.len(), 8);
    for n in 0..8usize {
        for x in 0..9 {
            for y in 0..9 {
                let want = if x == n || x == 8 - n { WHITE } else { BLACK };
                assert_eq!(pixel(&a, n, x, y, 9), want);
            }
        }
    }
    for x in 0..9 {
        let lit = pixel(&a, 0, x, 0, 9) == WHITE;
        assert_eq!(lit, x == 0 || x == 8);
        let lit4 = pixel(&a, 4, x, 0, 9) == WHITE;
        assert_eq!(lit4, x == 4);
    }
}

#[test]
fn vert_dbl_wave_mirrored_rows() {
    assert_eq!(VertDblWave.steps(9, 9), 8);
    let a = assemble(&VertDblWave, 9, 9).unwrap();
    assert_eq!(a.name, "vert_dbl_wave");
    for n in 0..8usize {
        for x in 0..9 {
            for y in 0..9 {
                let want = if y == n || y == 8 - n { WHITE } else { BLACK };
                assert_eq!(pixel(&a, n, x, y, 9), want);
            }
        }
    }
}

#[test]
fn scroll_wraps_one_column_per_frame() {
    let mask = vec![vec![0u8, 1, 1, 0]];
    let g = Scroll::new(mask.clone(), "strip");
    assert_eq!(g.steps(4, 1), 4);
    let a = assemble(&g, 4, 1).unwrap();
    assert_eq!(a.name, "strip");
    assert_eq!(a.images.len(), 4);
    for x in 0..4usize {
        let want = if mask[0][x] == 1 { WHITE } else { BLACK };
        assert_eq!(pixel(&a, 0, x, 0, 1), want, "frame 0 must reproduce the mask");
    }
    for n in 0..4usize {
        for x in 0..4usize {
            let want = if mask[0][(x + n) % 4] == 1 { WHITE } else { BLACK };
            assert_eq!(pixel(&a, n, x, 0, 1), want);
        }
    }
}

#[test]
fn fade_ramp_exact_intensities() {
    let g = Fade::new(vec![vec![1u8]], "dot");
    assert_eq!(g.steps(1, 1), 16);
    let a = assemble(&g, 1, 1).unwrap();
    assert_eq!(a.images.len(), 16);
    assert_eq!(pixel(&a, 0, 0, 0, 1), Rgb(0, 0, 0));
    assert_eq!(pixel(&a, 8, 0, 0, 1), Rgb(255, 255, 255));
    assert_eq!(pixel(&a, 15, 0, 0, 1), Rgb(31, 31, 31));
    for n in 0..16usize {
        let d = (n as i32 - 8).unsigned_abs() as u32;
        let v = (255 * (8 - d) / 8) as u8;
        assert_eq!(pixel(&a, n, 0, 0, 1), Rgb(v, v, v));
    }
}

#[test]
fn fade_masked_out_cells_stay_black() {
    let g = Fade::new(vec![vec![0u8, 1], vec![1, 0]], "pair");
    let a = assemble(&g, 2, 2).unwrap();
    for n in 0..16usize {
        assert_eq!(pixel(&a, n, 0, 0, 2), BLACK);
        assert_eq!(pixel(&a, n, 1, 1, 2), BLACK);
    }
    assert_eq!(pixel(&a, 8, 1, 0, 2), WHITE);
    assert_eq!(pixel(&a, 8, 0, 1, 2), WHITE);
}

#[test]
fn generate_is_pure() {
    let g = Fade::new(vec![vec![1u8, 0], vec![0, 1]], "p");
    for n in 0..16u8 {
        for x in 0..2u8 {
            for y in 0..2u8 {
                assert_eq!(g.generate(2, 2, n, x, y), g.generate(2, 2, n, x, y));
                let (first, second) = generate_twice(&g, 2, 2, n, x, y);
                assert_eq!(first, second);
            }
        }
    }
    assert_eq!(
        HorizWave.generate(9, 9, 3, 5, 2),
        HorizWave.generate(9, 9, 3, 5, 2)
    );
}

#[test]
fn generator_names() {
    assert_eq!(HorizWave.name(), "horiz_wave");
    assert_eq!(HorizDblWave.name(), "horiz_dbl_wave");
    assert_eq!(VertWave.name(), "vert_wave");
    assert_eq!(VertDblWave.name(), "vert_dbl_wave");
    assert_eq!(GameOfLife.name(), "game_of_life");
    assert_eq!(Fade::new(vec![vec![1]], "glow").name(), "glow");
    assert_eq!(Scroll::new(vec![vec![1]], "ticker").name(), "ticker");
}

#[test]
fn zero_steps_is_rejected() {
    assert_eq!(assemble(&HorizWave, 1, 9).unwrap_err(), ConfigError::ZeroSteps);
    assert_eq!(assemble(&VertWave, 9, 1).unwrap_err(), ConfigError::ZeroSteps);
    assert_eq!(assemble(&HorizDblWave, 1, 9).unwrap_err(), ConfigError::ZeroSteps);
    let g = Scroll::new(vec![vec![]], "empty_row");
    assert_eq!(assemble(&g, 1, 1).unwrap_err(), ConfigError::ZeroSteps);
}

#[test]
fn canvas_out_of_range_is_rejected() {
    assert_eq!(assemble(&HorizWave, 0, 9).unwrap_err(), ConfigError::MaskMismatch);
    assert_eq!(assemble(&HorizWave, 129, 9).unwrap_err(), ConfigError::MaskMismatch);
    assert_eq!(assemble(&VertWave, 9, 129).unwrap_err(), ConfigError::MaskMismatch);
    assert!(assemble(&HorizWave, 128, 1).is_ok());
}

#[test]
fn undersized_masks_are_rejected() {
    let g = Fade::new(vec![vec![1u8; 9]; 4], "short");
    assert_eq!(assemble(&g, 9, 9).unwrap_err(), ConfigError::MaskMismatch);
    let g = Fade::new(vec![vec![1u8; 4]; 9], "narrow");
    assert_eq!(assemble(&g, 9, 9).unwrap_err(), ConfigError::MaskMismatch);
    let g = Scroll::new(Vec::new(), "none");
    assert_eq!(assemble(&g, 1, 1).unwrap_err(), ConfigError::MaskMismatch);
    let g = Scroll::new(vec![vec![1u8, 1], vec![1]], "ragged");
    assert_eq!(assemble(&g, 2, 2).unwrap_err(), ConfigError::MaskMismatch);
}

#[test]
fn animation_new_keeps_frames_and_name() {
    let frames = vec![vec![Rgb(1, 2, 3), Rgb(4, 5, 6)]];
    let a = Animation::new(frames.clone(), "two_px");
    assert_eq!(a.images, frames);
    assert_eq!(a.name, "two_px");
}

#[test]
fn assemble_all_preserves_input_order() {
    let generators = vec![
        GeneratorKind::HorizWave(HorizWave),
        GeneratorKind::Fade(Fade::new(vec![vec![1u8; 9]; 9], "solid")),
        GeneratorKind::GameOfLife(GameOfLife),
        GeneratorKind::VertDblWave(VertDblWave),
    ];
    let animations = assemble_all(&generators, 9, 9).unwrap();
    assert_eq!(animations.len(), 4);
    let names: Vec<&str> = animations.iter().map(|a| a.name.as_str()).collect();
    assert_eq!(names, ["horiz_wave", "solid", "game_of_life", "vert_dbl_wave"]);
    assert_eq!(animations[0].images.len(), 16);
    assert_eq!(animations[1].images.len(), 16);
    assert_eq!(animations[3].images.len(), 8);
    let single = assemble(&HorizWave, 9, 9).unwrap();
    assert_eq!(animations[0].images, single.images);
}

#[test]
fn assemble_all_aborts_on_first_fault() {
    let generators = vec![
        GeneratorKind::HorizWave(HorizWave),
        GeneratorKind::Fade(Fade::new(vec![vec![1u8]], "tiny")),
    ];
    assert_eq!(
        assemble_all(&generators, 9, 9).unwrap_err(),
        ConfigError::MaskMismatch
    );
    let generators = vec![GeneratorKind::HorizWave(HorizWave)];
    assert_eq!(
        assemble_all(&generators, 1, 9).unwrap_err(),
        ConfigError::ZeroSteps
    );
}

#[test]
fn assemble_all_reports_the_first_fault() {
    let tiny_fade = || GeneratorKind::Fade(Fade::new(vec![vec![1u8]], "tiny"));
    let generators = vec![tiny_fade(), GeneratorKind::HorizWave(HorizWave)];
    assert_eq!(
        assemble_all(&generators, 1, 9).unwrap_err(),
        ConfigError::MaskMismatch
    );
    let generators = vec![GeneratorKind::HorizWave(HorizWave), tiny_fade()];
    assert_eq!(
        assemble_all(&generators, 1, 9).unwrap_err(),
        ConfigError::ZeroSteps
    );
}
