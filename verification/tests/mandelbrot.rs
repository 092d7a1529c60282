use mandelbrot::escape::escape_time;
use mandelbrot::parse::{find_char, pair_of, parse_pair, split_pair};
use mandelbrot::raster::{intensity, pixel_index, render};

// One flag per iteration of the orbit of `c` under the quadratic map:
// whether the orbit had left the escape bound when checked at the start of
// that iteration (check before update).
fn escape_flags(re: f64, im: f64, limit: usize) -> Vec<bool> {
    let mut z_re: f64 = 0.0;
    let mut z_im: f64 = 0.0;
    let mut flags = Vec::with_capacity(limit);
    for _ in 0..limit {
        flags.push(z_re * z_re + z_im * z_im > 4.0);
        let next_re = z_re * z_re - z_im * z_im + re;
        let next_im = 2.0 * z_re * z_im + im;
        z_re = next_re;
        z_im = next_im;
    }
    flags
}

#[test]
fn test_parse_pair() {
    assert_eq!(parse_pair::<i32>("", ','), None);
    assert_eq!(parse_pair::<i32>("10,", ','), None);
    assert_eq!(parse_pair::<i32>(",10", ','), None);
    assert_eq!(parse_pair::<i32>("10,20", ','), Some((10, 20)));
    assert_eq!(parse_pair::<i32>("10,20xy", ','), None);
    assert_eq!(parse_pair::<f64>("0.5x", 'x'), None);
    assert_eq!(parse_pair::<f64>("0.5x1.5", 'x'), Some((0.5, 1.5)));
}

#[test]
fn test_parse_pair_points() {
    assert_eq!(
        parse_pair::<f64>("1.25,-0.0625", ','),
        Some((1.25, -0.0625))
    );
    assert_eq!(parse_pair::<f64>("0.0625,", ','), None);
    assert_eq!(parse_pair::<f64>(",-0.0625", ','), None);
}

#[test]
fn test_find_char() {
    assert_eq!(find_char("10,20", ','), Some(2));
    assert_eq!(find_char(",10", ','), Some(0));
    assert_eq!(find_char("1020", ','), None);
    assert_eq!(find_char("", ','), None);
    assert_eq!(find_char("a,b,c", ','), Some(1));
}

#[test]
fn test_split_pair() {
    assert_eq!(
        split_pair("10,20", ','),
        Some(("10".to_owned(), "20".to_owned()))
    );
    assert_eq!(split_pair("10x20", ','), None);
    assert_eq!(
        split_pair("a,b,c", ','),
        Some(("a".to_owned(), "b,c".to_owned()))
    );
    assert_eq!(
        split_pair(",10", ','),
        Some(("".to_owned(), "10".to_owned()))
    );
}

#[test]
fn test_pair_of() {
    assert_eq!(pair_of(Some(1), Some(2)), Some((1, 2)));
    assert_eq!(pair_of::<i32>(None, Some(2)), None);
    assert_eq!(pair_of::<i32>(Some(1), None), None);
    assert_eq!(pair_of::<i32>(None, None), None);
}

#[test]
fn test_escape_time_origin_never_escapes() {
    // the orbit of 0 stays at 0, so no check below any limit finds it escaped
    let flags = escape_flags(0.0, 0.0, 255);
    assert!(flags.iter().all(|&f| !f));
    assert_eq!(escape_time(&flags, 255), None);
    assert_eq!(escape_time(&flags, 1), None);
}

#[test]
fn test_escape_time_diverging_point() {
    // for c = (2, 2) the first check sees z = 0 within the bound; the next
    // sees z = c with squared magnitude 8, so the count is 1
    let flags = escape_flags(2.0, 2.0, 255);
    assert_eq!(escape_time(&flags, 255), Some(1));
}

#[test]
fn test_escape_time_first_flag() {
    let flags = vec![false, true, true, false];
    assert_eq!(escape_time(&flags, 4), Some(1));
    assert_eq!(escape_time(&flags, 1), None);
    assert_eq!(escape_time(&flags, 0), None);
}

#[test]
fn test_intensity() {
    assert_eq!(intensity(None), 0);
    assert_eq!(intensity(Some(0)), 255);
    assert_eq!(intensity(Some(1)), 254);
    assert_eq!(intensity(Some(254)), 1);
    assert_eq!(intensity(Some(255)), 0);
}

#[test]
fn test_pixel_index() {
    assert_eq!(pixel_index((100, 200), (25, 175)), 17525);
    assert_eq!(pixel_index((100, 200), (0, 0)), 0);
    assert_eq!(pixel_index((3, 2), (2, 1)), 5);
}

#[test]
fn test_render_single_pixel_in_set() {
    // a 1-by-1 image sampled at the origin, which lies in the set: black
    let counts = vec![escape_time(&escape_flags(0.0, 0.0, 255), 255)];
    let mut pixels = vec![0u8; 1];
    render(&mut pixels, (1, 1), &counts);
    assert_eq!(pixels, vec![0u8]);
}

#[test]
fn test_render_single_pixel_far_outside() {
    // a 1-by-1 image sampled at (10, 10), far outside: a small escape count,
    // so an intensity close to 255
    let count = escape_time(&escape_flags(10.0, 10.0, 255), 255);
    assert_eq!(count, Some(1));
    let counts = vec![count];
    let mut pixels = vec![0u8; 1];
    render(&mut pixels, (1, 1), &counts);
    assert_eq!(pixels, vec![254u8]);
}

#[test]
fn test_render_row_major() {
    let counts = vec![Some(0), Some(1), Some(2), None];
    let mut pixels = vec![0u8; 4];
    render(&mut pixels, (2, 2), &counts);
    assert_eq!(pixels, vec![255, 254, 253, 0]);
}

#[test]
fn test_render_idempotent() {
    // rendering the same inputs twice gives byte-identical buffers
    let mut counts = Vec::new();
    for x in 0..16usize {
        let re = -2.0 + 0.25 * (x % 4) as f64;
        let im = -1.0 + 0.5 * (x / 4) as f64;
        counts.push(escape_time(&escape_flags(re, im, 255), 255));
    }
    let mut first = vec![0u8; 16];
    let mut second = vec![0u8; 16];
    render(&mut first, (4, 4), &counts);
    render(&mut second, (4, 4), &counts);
    assert_eq!(first, second);
}
