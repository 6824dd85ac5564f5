use rustplotlib::{encode, Axes2D, FillBetween, Figure, Line2D, PlotData, PlotError, Scatter, Subplots};

fn bits(xs: &[f64]) -> Vec<u64> {
    xs.iter().map(|v| v.to_bits()).collect()
}

fn single(axes: Axes2D) -> Figure {
    Figure::new().subplots(Subplots::new(1, 1).at(0, axes).unwrap())
}

fn axes_bytes(axes: Axes2D) -> Vec<u8> {
    encode(&single(axes)).unwrap()
}

#[test]
fn scatter_accepts_equal_lengths_whatever_the_values() {
    let x = bits(&[f64::NAN, f64::INFINITY, f64::NEG_INFINITY, -0.0]);
    let y = bits(&[1.0, f64::NAN, 2.5, f64::MAX]);
    assert!(Scatter::new("s").data(x.clone(), y.clone()).is_ok());
    assert!(Line2D::new("l").data(x, y).is_ok());
}

#[test]
fn series_accept_empty_buffers() {
    assert!(Scatter::new("s").data(vec![], vec![]).is_ok());
    assert!(Line2D::new("l").data(vec![], vec![]).is_ok());
    assert!(FillBetween::default().data(vec![], vec![], vec![]).is_ok());
}

#[test]
fn scatter_rejects_mismatched_lengths() {
    let r = Scatter::new("s").data(vec![], bits(&[1.0, 2.0, 3.0]));
    assert_eq!(r.unwrap_err(), PlotError::ShapeMismatch);
    let r = Scatter::new("s").data(bits(&[1.0, 2.0]), bits(&[1.0]));
    assert_eq!(r.unwrap_err(), PlotError::ShapeMismatch);
}

#[test]
fn line_rejects_mismatched_lengths() {
    let r = Line2D::new("l").data(bits(&[1.0]), vec![]);
    assert_eq!(r.unwrap_err(), PlotError::ShapeMismatch);
}

#[test]
fn fill_between_rejects_mismatched_lengths() {
    let r = FillBetween::default().data(bits(&[1.0, 2.0]), bits(&[1.0, 2.0]), bits(&[1.0]));
    assert_eq!(r.unwrap_err(), PlotError::ShapeMismatch);
    let r = FillBetween::default().data(bits(&[1.0]), vec![], bits(&[1.0]));
    assert_eq!(r.unwrap_err(), PlotError::ShapeMismatch);
}

#[test]
fn subplot_index_boundaries() {
    let (r, c) = (2u32, 3u32);
    let last = (r * c - 1) as usize;
    assert!(Subplots::new(r, c).at(last, Axes2D::new()).is_ok());
    assert!(Subplots::new(r, c).at(0, Axes2D::new()).is_ok());
    let past = (r * c) as usize;
    let err = Subplots::new(r, c).at(past, Axes2D::new()).unwrap_err();
    assert_eq!(err, PlotError::IndexOutOfRange);
    let err = Subplots::new(0, 4).at(0, Axes2D::new()).unwrap_err();
    assert_eq!(err, PlotError::IndexOutOfRange);
}

#[test]
fn blank_legend_is_the_same_as_no_legend() {
    let plain = axes_bytes(Axes2D::new());
    assert_eq!(axes_bytes(Axes2D::new().legend("")), plain);
    assert_eq!(axes_bytes(Axes2D::new().legend("   ")), plain);
    assert_eq!(axes_bytes(Axes2D::new().legend("x").legend("")), plain);
    assert_eq!(axes_bytes(Axes2D::new().legend("x").legend(" \t\n")), plain);
    assert_ne!(axes_bytes(Axes2D::new().legend("best")), plain);
}

#[test]
fn legend_keeps_surrounding_spaces_of_a_real_location() {
    let bytes = axes_bytes(Axes2D::new().legend(" upper left "));
    let needle = b"\xac upper left ";
    assert!(bytes.windows(needle.len()).any(|w| w == needle));
}

#[test]
fn later_settings_replace_earlier_ones() {
    let once = Axes2D::new().xlim(0.0f64.to_bits(), 5.0f64.to_bits());
    let twice = Axes2D::new()
        .xlim(1.0f64.to_bits(), 2.0f64.to_bits())
        .xlim(0.0f64.to_bits(), 5.0f64.to_bits());
    assert_eq!(axes_bytes(once), axes_bytes(twice));
    assert_eq!(
        axes_bytes(Axes2D::new().ylim(1, 2).ylim(3, 4)),
        axes_bytes(Axes2D::new().ylim(3, 4))
    );
    assert_eq!(
        axes_bytes(Axes2D::new().xlabel("a").xlabel("b")),
        axes_bytes(Axes2D::new().xlabel("b"))
    );
    assert_eq!(
        axes_bytes(Axes2D::new().ylabel("a").ylabel("b")),
        axes_bytes(Axes2D::new().ylabel("b"))
    );
    assert_eq!(
        axes_bytes(Axes2D::new().grid(true).grid(false)),
        axes_bytes(Axes2D::new().grid(false))
    );
    assert_eq!(
        axes_bytes(Axes2D::new().legend("best").legend("upper right")),
        axes_bytes(Axes2D::new().legend("upper right"))
    );
}

#[test]
fn series_convert_into_plot_data() {
    let s = Scatter::new("s");
    let p: PlotData = s.into();
    assert!(matches!(p, PlotData::Scatter(_)));
    let l: PlotData = Line2D::new("l").into();
    assert!(matches!(l, PlotData::Line2D(_)));
    let f: PlotData = FillBetween::default().into();
    assert!(matches!(f, PlotData::FillBetween(_)));
}

#[test]
fn series_report_their_sample_count() {
    let s = Scatter::new("s").data(bits(&[1.0, 2.0]), bits(&[3.0, 4.0])).unwrap();
    assert_eq!(s.len(), 2);
    assert_eq!(Line2D::new("l").len(), 0);
    let f = FillBetween::default().data(bits(&[1.0]), bits(&[2.0]), bits(&[3.0])).unwrap();
    assert_eq!(f.len(), 1);
}
