use pixelanim::Rgb;
use pixelanim::animation::{assemble, Animation};
use pixelanim::generator::{Fade, HorizDblWave};
use pixelanim::render::{frame_file_name, frame_to_raw, manifest_bytes, ImageOutput, Printer};

#[test]
fn manifest_lists_frames_in_order() {
    assert_eq!(manifest_bytes(3), b"0.png\n1.png\n2.png\n".to_vec());
    assert_eq!(manifest_bytes(1), b"0.png\n".to_vec());
    assert_eq!(manifest_bytes(0), b"\n".to_vec());
}

#[test]
fn manifest_read_back_round_trip() {
    let n = 12usize;
    let manifest = manifest_bytes(n);
    let text = String::from_utf8(manifest).unwrap();
    let lines: Vec<&str> = text.lines().collect();
    assert_eq!(lines.len(), n);
    for (i, line) in lines.iter().enumerate() {
        let stem = line.strip_suffix(".png").unwrap();
        assert_eq!(stem.parse::<usize>().unwrap(), i);
        assert_eq!(*line, String::from_utf8(frame_file_name(i)).unwrap());
    }
}

#[test]
fn frame_file_names_are_decimal() {
    assert_eq!(frame_file_name(0), b"0.png".to_vec());
    assert_eq!(frame_file_name(10), b"10.png".to_vec());
    assert_eq!(frame_file_name(255), b"255.png".to_vec());
}

#[test]
fn frame_to_raw_is_row_major() {
    let img = vec![Rgb(1, 2, 3), Rgb(4, 5, 6)];
    assert_eq!(frame_to_raw(&img, 2, 1), vec![1, 2, 3, 4, 5, 6]);
    assert_eq!(frame_to_raw(&img, 1, 2), vec![1, 2, 3, 4, 5, 6]);
    let img = vec![Rgb(1, 1, 1), Rgb(2, 2, 2), Rgb(3, 3, 3), Rgb(4, 4, 4)];
    assert_eq!(
        frame_to_raw(&img, 2, 2),
        vec![1, 1, 1, 3, 3, 3, 2, 2, 2, 4, 4, 4],
    );
}

#[test]
fn image_output_encodes_decodable_frames() {
    let a = assemble(&HorizDblWave, 3, 2).unwrap();
    let animations = vec![a];
    let outs = ImageOutput.output(&animations, 3, 2).unwrap();
    assert_eq!(outs.len(), 1);
    let files = &outs[0];
    assert_eq!(files.name, "horiz_dbl_wave");
    assert_eq!(files.frames.len(), 2);
    assert_eq!(files.manifest, b"0.png\n1.png\n".to_vec());
    for (n, frame) in files.frames.iter().enumerate() {
        assert_eq!(frame.name, frame_file_name(n));
        assert_ne!(frame.data, frame_to_raw(&animations[0].images[n], 3, 2));
        let decoded = image::load_from_memory(&frame.data).unwrap().into_rgb8();
        assert_eq!(decoded.width(), 3);
        assert_eq!(decoded.height(), 2);
        for x in 0..3usize {
            for y in 0..2usize {
                let Rgb(r, g, b) = animations[0].images[n][x * 2 + y];
                assert_eq!(decoded.get_pixel(x as u32, y as u32).0, [r, g, b]);
            }
        }
    }
}

#[test]
fn manifest_matches_written_frame_files() {
    let glow = Fade::new(vec![vec![1u8, 0, 1]], "glow");
    let animations = vec![assemble(&glow, 3, 1).unwrap()];
    let outs = ImageOutput.output(&animations, 3, 1).unwrap();
    let files = &outs[0];
    let text = String::from_utf8(files.manifest.clone()).unwrap();
    let lines: Vec<&str> = text.lines().collect();
    assert_eq!(lines.len(), animations[0].images.len());
    for (i, line) in lines.iter().enumerate() {
        assert_eq!(line.as_bytes(), files.frames[i].name.as_slice());
    }
}

#[test]
fn printer_summarizes_names_and_counts() {
    let animations = vec![
        assemble(&HorizDblWave, 5, 5).unwrap(),
        Animation::new(vec![vec![Rgb(0, 0, 0)]], "single"),
    ];
    let summary = Printer.output(&animations, 5, 5);
    assert_eq!(summary.len(), 2);
    assert_eq!(summary[0], ("horiz_dbl_wave".to_string(), 4));
    assert_eq!(summary[1], ("single".to_string(), 1));
}

#[test]
fn image_output_succeeds_on_any_nonempty_canvas() {
    let animations = vec![assemble(&HorizDblWave, 2, 1).unwrap()];
    assert!(ImageOutput.output(&animations, 2, 1).is_some());
}

#[test]
fn image_output_refuses_an_empty_canvas() {
    let animations = vec![Animation::new(vec![Vec::new()], "empty")];
    assert!(ImageOutput.output(&animations, 0, 0).is_none());
}
