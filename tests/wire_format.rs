use rustplotlib::{encode, msgpack, Axes2D, FillBetween, Figure, Line2D, PlotData, Scatter, Subplots};

fn bits(xs: &[f64]) -> Vec<u64> {
    xs.iter().map(|v| v.to_bits()).collect()
}

fn float(v: f64) -> Vec<u8> {
    let mut out = vec![0xcb];
    out.extend_from_slice(&v.to_bits().to_be_bytes());
    out
}

fn floats(xs: &[f64]) -> Vec<u8> {
    let mut out = vec![0x90 + xs.len() as u8];
    for x in xs {
        out.extend(float(*x));
    }
    out
}

fn text(s: &str) -> Vec<u8> {
    let mut out = vec![0xa0 + s.len() as u8];
    out.extend_from_slice(s.as_bytes());
    out
}

fn scatter_axes() -> Axes2D {
    let s = Scatter::new("sq")
        .color("red")
        .marker("o")
        .data(bits(&[0.0, 1.0, 2.0]), bits(&[0.0, 1.0, 4.0]))
        .unwrap();
    Axes2D::new().add(PlotData::from(s))
}

fn scatter_axes_bytes() -> Vec<u8> {
    let mut e = vec![0x97, 0x91, 0x92, 0x00, 0x91, 0x95];
    e.extend(floats(&[0.0, 1.0, 2.0]));
    e.extend(floats(&[0.0, 1.0, 4.0]));
    e.extend(text("sq"));
    e.extend(text("red"));
    e.extend(text("o"));
    e.extend([0xc0, 0xc0, 0xc2, 0xc0, 0xc0, 0xc0]);
    e
}

#[test]
fn empty_figure_encodes_absent_grid() {
    assert_eq!(encode(&Figure::new()).unwrap(), vec![0x91, 0xc0]);
}

#[test]
fn empty_figure_payload_is_base64() {
    assert_eq!(msgpack(&Figure::new()).unwrap(), "kcA=");
}

#[test]
fn single_scatter_encodes_field_by_field() {
    let fig = Figure::new().subplots(Subplots::new(1, 1).at(0, scatter_axes()).unwrap());
    let mut e = vec![0x91, 0x95, 0x01, 0x01, 0xc2, 0xc2, 0x91];
    e.extend(scatter_axes_bytes());
    assert_eq!(encode(&fig).unwrap(), e);
}

#[test]
fn grid_with_one_placed_slot_encodes_slots_in_order() {
    let grid = Subplots::new(2, 1).at(0, scatter_axes()).unwrap();
    let fig = Figure::new().subplots(grid);
    let mut e = vec![0x91, 0x95, 0x02, 0x01, 0xc2, 0xc2, 0x92];
    e.extend(scatter_axes_bytes());
    e.push(0xc0);
    assert_eq!(encode(&fig).unwrap(), e);
}

#[test]
fn encoding_twice_gives_identical_bytes() {
    let fig = Figure::new().subplots(Subplots::new(1, 1).at(0, scatter_axes()).unwrap());
    assert_eq!(encode(&fig).unwrap(), encode(&fig).unwrap());
    assert_eq!(msgpack(&fig).unwrap(), msgpack(&fig).unwrap());
}

#[test]
fn series_keep_insertion_order() {
    let a = Scatter::new("a");
    let b = Line2D::new("b");
    let axes = Axes2D::new().add(a.into()).add(b.into());
    let fig = Figure::new().subplots(Subplots::new(1, 1).at(0, axes).unwrap());
    let bytes = encode(&fig).unwrap();
    let mut e = vec![0x91, 0x95, 0x01, 0x01, 0xc2, 0xc2, 0x91, 0x97, 0x92];
    e.extend([0x92, 0x00, 0x91, 0x95, 0x90, 0x90]);
    e.extend(text("a"));
    e.extend([0xc0, 0xc0]);
    e.extend([0x92, 0x01, 0x91, 0x97, 0x90, 0x90]);
    e.extend(text("b"));
    e.extend([0xc0, 0xc0, 0xc0, 0xc0]);
    e.extend([0xc0, 0xc0, 0xc2, 0xc0, 0xc0, 0xc0]);
    assert_eq!(bytes, e);
}

#[test]
fn line_encodes_style_and_width() {
    let l = Line2D::new("l")
        .linestyle("--")
        .linewidth(1.5f64.to_bits())
        .data(bits(&[1.0]), bits(&[2.0]))
        .unwrap();
    let axes = Axes2D::new().add(l.into()).grid(true).xlabel("t").ylim(0, 1);
    let fig = Figure::new().subplots(Subplots::new(1, 1).at(0, axes).unwrap());
    let mut e = vec![0x91, 0x95, 0x01, 0x01, 0xc2, 0xc2, 0x91, 0x97, 0x91];
    e.extend([0x92, 0x01, 0x91, 0x97]);
    e.extend(floats(&[1.0]));
    e.extend(floats(&[2.0]));
    e.extend(text("l"));
    e.extend([0xc0, 0xc0]);
    e.extend(text("--"));
    e.extend(float(1.5));
    e.extend(text("t"));
    e.extend([0xc0, 0xc3, 0xc0, 0xc0, 0x92]);
    e.extend([0xcb, 0, 0, 0, 0, 0, 0, 0, 0]);
    e.extend([0xcb, 0, 0, 0, 0, 0, 0, 0, 1]);
    assert_eq!(encode(&fig).unwrap(), e);
}

#[test]
fn fill_between_encodes_mask_and_flags() {
    let f = FillBetween::default()
        .data(bits(&[0.0, 1.0]), bits(&[1.0, 1.0]), bits(&[2.0, 3.0]))
        .unwrap()
        .where_(vec![true, false])
        .interpolate(true)
        .step("pre");
    let fig = Figure::new().subplots(Subplots::new(1, 1).at(0, Axes2D::new().add(f.into())).unwrap());
    let mut e = vec![0x91, 0x95, 0x01, 0x01, 0xc2, 0xc2, 0x91, 0x97, 0x91];
    e.extend([0x92, 0x02, 0x91, 0x99]);
    e.extend(floats(&[0.0, 1.0]));
    e.extend(floats(&[1.0, 1.0]));
    e.extend(floats(&[2.0, 3.0]));
    e.extend([0x92, 0xc3, 0xc2]);
    e.extend([0xc0, 0xc0, 0xc0, 0xc3]);
    e.extend(text("pre"));
    e.extend([0xc0, 0xc0, 0xc2, 0xc0, 0xc0, 0xc0]);
    assert_eq!(encode(&fig).unwrap(), e);
}

#[test]
fn long_arrays_strings_and_shapes_use_wider_headers() {
    let n = 16usize;
    let xs: Vec<u64> = (0..n).map(|i| i as u64).collect();
    let label = "a".repeat(40);
    let s = Scatter::new(&label).data(xs.clone(), xs.clone()).unwrap();
    let axes = Axes2D::new().add(s.into());
    let grid = Subplots::new(200, 1).share_x(true).at(0, axes).unwrap();
    let bytes = encode(&Figure::new().subplots(grid)).unwrap();
    assert_eq!(&bytes[..6], &[0x91, 0x95, 0xcc, 200, 0x01, 0xc3]);
    assert_eq!(&bytes[6..10], &[0xc2, 0xdc, 0x00, 200]);
    assert_eq!(&bytes[10..16], &[0x97, 0x91, 0x92, 0x00, 0x91, 0x95]);
    assert_eq!(&bytes[16..19], &[0xdc, 0x00, 0x10]);
    assert_eq!(&bytes[19..28], &[0xcb, 0, 0, 0, 0, 0, 0, 0, 0]);
    let at = 19 + 16 * 9;
    assert_eq!(&bytes[at..at + 3], &[0xdc, 0x00, 0x10]);
    let at = at + 3 + 16 * 9;
    assert_eq!(&bytes[at..at + 2], &[0xd9, 40]);
    assert_eq!(&bytes[at + 2..at + 42], label.as_bytes());
}

#[test]
fn multibyte_text_is_framed_by_its_utf8_length() {
    let axes = Axes2D::new().xlabel("é");
    let fig = Figure::new().subplots(Subplots::new(1, 1).at(0, axes).unwrap());
    let bytes = encode(&fig).unwrap();
    let needle = [0xa2, 0xc3, 0xa9];
    assert!(bytes.windows(3).any(|w| w == needle));
}
