use coolor::AnsiColor;
use coolor::Rgb;
use coolor::GREY_TO_ANSI;

/// The six component values along each axis of the color cube.
const LEVELS: [u8; 6] = [0, 95, 135, 175, 215, 255];

/// The grey levels at which the table does not hold the nearest grey.
const TABLE_DEPARTS: [u8; 8] = [96, 100, 101, 102, 103, 111, 112, 113];

/// check going from ansi to rgb and back makes us fall on the first color
#[test]
fn test_ansi_to_rgb_to_ansi() {
    // we don't check the range 0..16 as it's made of colors
    // which are also in the 16..255 range
    for code in 16..=255 {
        let c1 = AnsiColor { code };
        let c2 = c1.to_rgb();
        let c3 = c2.to_ansi();
        assert_eq!(c1, c3);
    }
}

#[test]
fn new_keeps_its_arguments() {
    assert_eq!(AnsiColor::new(42), AnsiColor { code: 42 });
    assert_eq!(AnsiColor::new(0).code, 0);
    assert_eq!(AnsiColor::new(255).code, 255);
    let c = Rgb::new(1, 2, 3);
    assert_eq!((c.r, c.g, c.b), (1, 2, 3));
    assert_eq!(Rgb::new(255, 0, 128), Rgb { r: 255, g: 0, b: 128 });
}

#[test]
fn is_grey_needs_three_equal_components() {
    assert!(Rgb::new(0, 0, 0).is_grey());
    assert!(Rgb::new(255, 255, 255).is_grey());
    assert!(Rgb::new(77, 77, 77).is_grey());
    assert!(!Rgb::new(77, 77, 78).is_grey());
    assert!(!Rgb::new(77, 78, 77).is_grey());
    assert!(!Rgb::new(78, 77, 77).is_grey());
    assert!(!Rgb::new(1, 2, 1).is_grey());
}

#[test]
fn system_colors_are_those_of_xterm() {
    let expected: [(u8, u8, u8); 16] = [
        (0, 0, 0),
        (205, 0, 0),
        (0, 205, 0),
        (205, 205, 0),
        (0, 0, 238),
        (205, 0, 205),
        (0, 205, 205),
        (229, 229, 229),
        (127, 127, 127),
        (255, 0, 0),
        (0, 255, 0),
        (255, 255, 0),
        (92, 92, 255),
        (255, 0, 255),
        (0, 255, 255),
        (255, 255, 255),
    ];
    for code in 0..16u8 {
        let (r, g, b) = expected[code as usize];
        assert_eq!(AnsiColor::new(code).to_rgb(), Rgb::new(r, g, b));
    }
}

#[test]
fn cube_colors_follow_the_levels() {
    for code in 16..232u8 {
        let k = (code - 16) as usize;
        let expected = Rgb::new(LEVELS[k / 36], LEVELS[(k / 6) % 6], LEVELS[k % 6]);
        assert_eq!(AnsiColor::new(code).to_rgb(), expected);
    }
    assert_eq!(AnsiColor::new(16).to_rgb(), Rgb::new(0, 0, 0));
    assert_eq!(AnsiColor::new(67).to_rgb(), Rgb::new(95, 135, 175));
    assert_eq!(AnsiColor::new(128).to_rgb(), Rgb::new(175, 0, 215));
    assert_eq!(AnsiColor::new(231).to_rgb(), Rgb::new(255, 255, 255));
}

#[test]
fn grey_ramp_climbs_by_ten() {
    for code in 232..=255u8 {
        let v = 8 + 10 * (code - 232);
        assert_eq!(AnsiColor::new(code).to_rgb(), Rgb::new(v, v, v));
    }
    assert_eq!(AnsiColor::new(232).to_rgb(), Rgb::new(8, 8, 8));
    assert_eq!(AnsiColor::new(255).to_rgb(), Rgb::new(238, 238, 238));
}

#[test]
fn palette_colors_from_16_on_are_distinct() {
    for c1 in 16..=255u8 {
        for c2 in 16..c1 {
            assert_ne!(AnsiColor::new(c1).to_rgb(), AnsiColor::new(c2).to_rgb());
        }
    }
}

#[test]
fn distance_has_the_weights_of_the_formula() {
    // one channel at a time, by one step
    assert_eq!(Rgb::new(1, 0, 0).distance_to(Rgb::new(0, 0, 0)), 1025);
    assert_eq!(Rgb::new(0, 1, 0).distance_to(Rgb::new(0, 0, 0)), 2048);
    assert_eq!(Rgb::new(0, 0, 1).distance_to(Rgb::new(0, 0, 0)), 1534);
    assert_eq!(Rgb::new(1, 2, 3).distance_to(Rgb::new(1, 2, 4)), 1532);
    // (1024 + 50) * 900 + 2048 * 1600 + (1534 - 50) * 3600
    assert_eq!(Rgb::new(10, 20, 30).distance_to(Rgb::new(40, 60, 90)), 9_585_800);
    // the largest value there is
    assert_eq!(Rgb::new(0, 0, 0).distance_to(Rgb::new(255, 255, 255)), 299_505_150);
    assert_eq!(Rgb::new(255, 0, 255).distance_to(Rgb::new(0, 255, 0)), 299_505_150);
}

#[test]
fn distance_is_symmetric_and_zero_only_on_itself() {
    let samples = [
        Rgb::new(0, 0, 0),
        Rgb::new(255, 255, 255),
        Rgb::new(10, 20, 30),
        Rgb::new(40, 60, 90),
        Rgb::new(255, 0, 1),
        Rgb::new(254, 0, 1),
        Rgb::new(0, 255, 0),
        Rgb::new(128, 128, 129),
    ];
    for a in samples {
        for b in samples {
            assert_eq!(a.distance_to(b), b.distance_to(a));
            assert_eq!(a.distance_to(b) == 0, a == b);
        }
    }
}

#[test]
fn search_returns_the_nearest_of_its_range() {
    let rgb = Rgb::new(200, 100, 50);
    let best = rgb.nearest_ansi_in_range(16, 255);
    assert_eq!(best, AnsiColor::new(167));
    let least = rgb.distance_to(best.to_rgb());
    for code in 16..=255u8 {
        let d = rgb.distance_to(AnsiColor::new(code).to_rgb());
        assert!(least <= d);
        if code < best.code {
            assert!(least < d);
        }
    }
    assert_eq!(Rgb::new(12, 34, 56).nearest_ansi_in_range(16, 255), AnsiColor::new(235));
    assert_eq!(Rgb::new(12, 34, 56).nearest_ansi_in_range(17, 51), AnsiColor::new(17));
    assert_eq!(Rgb::new(255, 0, 0).nearest_ansi_in_range(0, 255), AnsiColor::new(9));
    assert_eq!(Rgb::new(255, 0, 0).nearest_ansi_in_range(16, 255), AnsiColor::new(196));
}

#[test]
fn search_breaks_a_tie_by_the_lowest_code() {
    // 13 lies as far from 8 (code 232) as from 18 (code 233)
    let rgb = Rgb::new(13, 13, 13);
    assert_eq!(
        rgb.distance_to(AnsiColor::new(232).to_rgb()),
        rgb.distance_to(AnsiColor::new(233).to_rgb())
    );
    assert_eq!(rgb.nearest_ansi_in_range(232, 255), AnsiColor::new(232));
    assert_eq!(rgb.nearest_ansi_in_range(233, 255), AnsiColor::new(233));
    // white is both code 15 and code 231
    assert_eq!(Rgb::new(255, 255, 255).nearest_ansi_in_range(0, 255), AnsiColor::new(15));
    assert_eq!(Rgb::new(255, 255, 255).nearest_ansi_in_range(16, 255), AnsiColor::new(231));
}

#[test]
fn search_of_one_code_or_of_none_returns_min() {
    assert_eq!(Rgb::new(5, 5, 5).nearest_ansi_in_range(7, 7), AnsiColor::new(7));
    assert_eq!(Rgb::new(5, 5, 5).nearest_ansi_in_range(100, 50), AnsiColor::new(100));
    assert_eq!(Rgb::new(5, 5, 5).nearest_ansi_in_range(255, 255), AnsiColor::new(255));
    assert_eq!(Rgb::new(5, 5, 5).nearest_ansi_in_range(255, 0), AnsiColor::new(255));
    assert_eq!(Rgb::new(5, 5, 5).nearest_ansi_in_range(0, 0), AnsiColor::new(0));
}

#[test]
fn to_ansi_known_values() {
    assert_eq!(Rgb::new(255, 0, 0).to_ansi(), AnsiColor::new(196));
    assert_eq!(Rgb::new(0, 255, 0).to_ansi(), AnsiColor::new(46));
    assert_eq!(Rgb::new(0, 0, 255).to_ansi(), AnsiColor::new(21));
    assert_eq!(Rgb::new(255, 255, 0).to_ansi(), AnsiColor::new(226));
    assert_eq!(Rgb::new(200, 100, 50).to_ansi(), AnsiColor::new(167));
    assert_eq!(Rgb::new(128, 64, 32).to_ansi(), AnsiColor::new(94));
    assert_eq!(Rgb::new(12, 34, 56).to_ansi(), AnsiColor::new(17));
    assert_eq!(Rgb::new(1, 2, 3).to_ansi(), AnsiColor::new(17));
    assert_eq!(Rgb::new(254, 255, 255).to_ansi(), AnsiColor::new(230));
    assert_eq!(Rgb::new(100, 100, 101).to_ansi(), AnsiColor::new(59));
    assert_eq!(Rgb::new(150, 150, 149).to_ansi(), AnsiColor::new(102));
}

#[test]
fn to_ansi_changes_plane_at_the_red_boundaries() {
    assert_eq!(Rgb::new(40, 200, 90).to_ansi(), AnsiColor::new(41));
    assert_eq!(Rgb::new(41, 200, 90).to_ansi(), AnsiColor::new(77));
    assert_eq!(Rgb::new(107, 10, 250).to_ansi(), AnsiColor::new(57));
    assert_eq!(Rgb::new(108, 10, 250).to_ansi(), AnsiColor::new(93));
    assert_eq!(Rgb::new(150, 0, 0).to_ansi(), AnsiColor::new(88));
    assert_eq!(Rgb::new(151, 0, 0).to_ansi(), AnsiColor::new(124));
    assert_eq!(Rgb::new(194, 33, 77).to_ansi(), AnsiColor::new(125));
    assert_eq!(Rgb::new(195, 33, 77).to_ansi(), AnsiColor::new(161));
    assert_eq!(Rgb::new(234, 250, 1).to_ansi(), AnsiColor::new(190));
    assert_eq!(Rgb::new(235, 250, 1).to_ansi(), AnsiColor::new(226));
}

#[test]
fn to_ansi_of_a_color_that_is_not_grey_searches_its_plane() {
    let planes: [(u8, u8, u8, u8); 6] = [
        (0, 40, 17, 51),
        (41, 107, 52, 87),
        (108, 150, 88, 123),
        (151, 194, 124, 159),
        (195, 234, 160, 195),
        (235, 255, 196, 230),
    ];
    for (r_first, r_last, min, max) in planes {
        for r in [r_first, r_last] {
            for g in (0..=255u8).step_by(17) {
                for b in (0..=255u8).step_by(15) {
                    let rgb = Rgb::new(r, g, b);
                    if !rgb.is_grey() {
                        assert_eq!(rgb.to_ansi(), rgb.nearest_ansi_in_range(min, max));
                    }
                }
            }
        }
    }
}

#[test]
fn to_ansi_answers_with_the_red_level_of_the_plane() {
    let planes: [(u8, u8, u8); 6] = [
        (0, 40, 0),
        (41, 107, 95),
        (108, 150, 135),
        (151, 194, 175),
        (195, 234, 215),
        (235, 255, 255),
    ];
    for (r_first, r_last, level) in planes {
        for r in [r_first, r_last] {
            for g in (0..=255u8).step_by(51) {
                for b in (0..=255u8).step_by(85) {
                    let rgb = Rgb::new(r, g, b);
                    if !rgb.is_grey() {
                        let found = rgb.to_ansi();
                        assert!(17 <= found.code && found.code <= 230);
                        assert_eq!(found.to_rgb().r, level);
                    }
                }
            }
        }
    }
}

#[test]
fn distance_never_exceeds_black_to_white() {
    let corners = [0u8, 1, 127, 128, 254, 255];
    for r1 in corners {
        for g1 in corners {
            for b1 in corners {
                for r2 in corners {
                    for g2 in corners {
                        for b2 in corners {
                            let d = Rgb::new(r1, g1, b1).distance_to(Rgb::new(r2, g2, b2));
                            assert!(d <= 299_505_150);
                        }
                    }
                }
            }
        }
    }
}

#[test]
fn to_ansi_of_a_grey_is_the_table_entry() {
    for v in 0..=255u8 {
        assert_eq!(Rgb::new(v, v, v).to_ansi().code, GREY_TO_ANSI[v as usize]);
    }
    assert_eq!(Rgb::new(0, 0, 0).to_ansi(), AnsiColor::new(16));
    assert_eq!(Rgb::new(4, 4, 4).to_ansi(), AnsiColor::new(16));
    assert_eq!(Rgb::new(5, 5, 5).to_ansi(), AnsiColor::new(232));
    assert_eq!(Rgb::new(95, 95, 95).to_ansi(), AnsiColor::new(59));
    assert_eq!(Rgb::new(96, 96, 96).to_ansi(), AnsiColor::new(241));
    assert_eq!(Rgb::new(128, 128, 128).to_ansi(), AnsiColor::new(244));
    assert_eq!(Rgb::new(246, 246, 246).to_ansi(), AnsiColor::new(255));
    assert_eq!(Rgb::new(247, 247, 247).to_ansi(), AnsiColor::new(231));
    assert_eq!(Rgb::new(255, 255, 255).to_ansi(), AnsiColor::new(231));
}

#[test]
fn a_grey_goes_to_a_grey_close_by() {
    for v in 0..=255u8 {
        let found = Rgb::new(v, v, v).to_ansi();
        assert!(found.code >= 16);
        let back = found.to_rgb();
        assert!(back.is_grey());
        assert!(back.r.abs_diff(v) <= 8);
    }
}

#[test]
fn system_colors_do_not_come_back() {
    let expected: [u8; 16] = [16, 160, 40, 184, 21, 164, 44, 254, 244, 196, 46, 226, 63, 201, 51, 231];
    for code in 0..16u8 {
        let back = AnsiColor::new(code).to_rgb().to_ansi();
        assert_eq!(back.code, expected[code as usize]);
    }
}

#[test]
fn to_ansi_never_gives_a_system_color() {
    for r in (0..=255u8).step_by(5) {
        for g in (0..=255u8).step_by(5) {
            for b in (0..=255u8).step_by(5) {
                assert!(Rgb::new(r, g, b).to_ansi().code >= 16);
            }
        }
    }
}

#[test]
fn to_ansi_and_full_search_agree_on_the_palette() {
    for code in 16..=255u8 {
        let rgb = AnsiColor::new(code).to_rgb();
        assert_eq!(rgb.to_ansi(), rgb.nearest_ansi_in_range(16, 255));
        assert_eq!(rgb.nearest_ansi_in_range(16, 255).code, code);
    }
}

#[test]
fn to_ansi_and_full_search_agree_where_the_search_ends_in_the_plane() {
    let mut seen = 0;
    for r in (0..=255u8).step_by(15) {
        let (min, max) = if r < 41 {
            (17, 51)
        } else if r < 108 {
            (52, 87)
        } else if r < 151 {
            (88, 123)
        } else if r < 195 {
            (124, 159)
        } else if r < 235 {
            (160, 195)
        } else {
            (196, 230)
        };
        for g in (0..=255u8).step_by(15) {
            for b in (0..=255u8).step_by(15) {
                let rgb = Rgb::new(r, g, b);
                let full = rgb.nearest_ansi_in_range(16, 255);
                if !rgb.is_grey() && min <= full.code && full.code <= max {
                    assert_eq!(rgb.to_ansi(), full);
                    seen += 1;
                }
            }
        }
    }
    assert_eq!(seen, 4933);
}

#[test]
fn grey_table_and_full_search_differ_at_eight_levels() {
    for v in 0..=255u8 {
        let rgb = Rgb::new(v, v, v);
        let same = rgb.to_ansi() == rgb.nearest_ansi_in_range(16, 255);
        assert_eq!(same, !TABLE_DEPARTS.contains(&v));
    }
    assert_eq!(Rgb::new(96, 96, 96).nearest_ansi_in_range(16, 255), AnsiColor::new(59));
}

#[test]
fn narrowing_a_search_around_its_result_keeps_the_result() {
    let rgb = Rgb::new(90, 140, 201);
    let found = rgb.nearest_ansi_in_range(16, 255);
    for lo in 16..=found.code {
        for hi in [found.code, found.code.saturating_add(1), 255] {
            assert_eq!(rgb.nearest_ansi_in_range(lo, hi), found);
        }
    }
}
