use vstd::prelude::*;

use crate::encode::Encodable;
use crate::error::PlotError;
use crate::msgpack::{
    array_header, bool_array_bytes, bool_bytes, emit_bool, emit_nil, emit_uint, f64_array_bytes,
    f64_bytes, len_fits, nil_bytes, opt_str_bytes, opt_str_fits, opt_view, uint_bytes,
    write_array_header, write_bool_array, write_f64, write_f64_array, write_opt_str,
};

verus! {

/// Absent marker, or a float 64.
pub open spec fn opt_f64_bytes(v: Option<u64>) -> Seq<u8> {
    match v {
        None => nil_bytes(),
        Some(b) => f64_bytes(b),
    }
}

/// Absent marker, or a boolean array.
pub open spec fn opt_bool_array_bytes(v: Option<Seq<bool>>) -> Seq<u8> {
    match v {
        None => nil_bytes(),
        Some(b) => bool_array_bytes(b),
    }
}

pub open spec fn opt_bool_array_fits(v: Option<Seq<bool>>) -> bool {
    match v {
        None => true,
        Some(b) => len_fits(b.len()),
    }
}

/// What a scatter series holds. Samples are IEEE-754 binary64 bit patterns.
pub struct ScatterModel {
    pub x: Seq<u64>,
    pub y: Seq<u64>,
    pub label: Option<Seq<char>>,
    pub color: Option<Seq<char>>,
    pub marker: Option<Seq<char>>,
}

impl ScatterModel {
    pub open spec fn empty() -> ScatterModel {
        ScatterModel { x: Seq::empty(), y: Seq::empty(), label: None, color: None, marker: None }
    }

    /// The parallel buffers have one length.
    pub open spec fn wf(self) -> bool {
        self.x.len() == self.y.len()
    }

    pub open spec fn fits(self) -> bool {
        &&& len_fits(self.x.len())
        &&& len_fits(self.y.len())
        &&& opt_str_fits(self.label)
        &&& opt_str_fits(self.color)
        &&& opt_str_fits(self.marker)
    }

    /// Five fields in declaration order.
    pub open spec fn bytes(self) -> Seq<u8> {
        array_header(5) + f64_array_bytes(self.x) + f64_array_bytes(self.y) + opt_str_bytes(
            self.label,
        ) + opt_str_bytes(self.color) + opt_str_bytes(self.marker)
    }
}

/// What a line series holds.
pub struct LineModel {
    pub x: Seq<u64>,
    pub y: Seq<u64>,
    pub label: Option<Seq<char>>,
    pub color: Option<Seq<char>>,
    pub marker: Option<Seq<char>>,
    pub linestyle: Option<Seq<char>>,
    pub linewidth: Option<u64>,
}

impl LineModel {
    pub open spec fn empty() -> LineModel {
        LineModel {
            x: Seq::empty(),
            y: Seq::empty(),
            label: None,
            color: None,
            marker: None,
            linestyle: None,
            linewidth: None,
        }
    }

    pub open spec fn wf(self) -> bool {
        self.x.len() == self.y.len()
    }

    pub open spec fn fits(self) -> bool {
        &&& len_fits(self.x.len())
        &&& len_fits(self.y.len())
        &&& opt_str_fits(self.label)
        &&& opt_str_fits(self.color)
        &&& opt_str_fits(self.marker)
        &&& opt_str_fits(self.linestyle)
    }

    /// Seven fields in declaration order.
    pub open spec fn bytes(self) -> Seq<u8> {
        array_header(7) + f64_array_bytes(self.x) + f64_array_bytes(self.y) + opt_str_bytes(
            self.label,
        ) + opt_str_bytes(self.color) + opt_str_bytes(self.marker) + opt_str_bytes(self.linestyle)
            + opt_f64_bytes(self.linewidth)
    }
}

/// What a filled band between two curves holds.
pub struct FillModel {
    pub x: Seq<u64>,
    pub y1: Seq<u64>,
    pub y2: Seq<u64>,
    pub where_: Option<Seq<bool>>,
    pub label: Option<Seq<char>>,
    pub color: Option<Seq<char>>,
    pub marker: Option<Seq<char>>,
    pub interpolate: bool,
    pub step: Option<Seq<char>>,
}

impl FillModel {
    pub open spec fn empty() -> FillModel {
        FillModel {
            x: Seq::empty(),
            y1: Seq::empty(),
            y2: Seq::empty(),
            where_: None,
            label: None,
            color: None,
            marker: None,
            interpolate: false,
            step: None,
        }
    }

    pub open spec fn wf(self) -> bool {
        self.x.len() == self.y1.len() && self.x.len() == self.y2.len()
    }

    pub open spec fn fits(self) -> bool {
        &&& len_fits(self.x.len())
        &&& len_fits(self.y1.len())
        &&& len_fits(self.y2.len())
        &&& opt_bool_array_fits(self.where_)
        &&& opt_str_fits(self.label)
        &&& opt_str_fits(self.color)
        &&& opt_str_fits(self.marker)
        &&& opt_str_fits(self.step)
    }

    /// Nine fields in declaration order.
    pub open spec fn bytes(self) -> Seq<u8> {
        array_header(9) + f64_array_bytes(self.x) + f64_array_bytes(self.y1) + f64_array_bytes(
            self.y2,
        ) + opt_bool_array_bytes(self.where_) + opt_str_bytes(self.label) + opt_str_bytes(
            self.color,
        ) + opt_str_bytes(self.marker) + bool_bytes(self.interpolate) + opt_str_bytes(self.step)
    }
}

/// One renderable trace, of one of the supported kinds.
pub enum PlotModel {
    Scatter(ScatterModel),
    Line2D(LineModel),
    FillBetween(FillModel),
}

impl PlotModel {
    /// The discriminant written before the variant's fields.
    pub open spec fn tag(self) -> u64 {
        match self {
            PlotModel::Scatter(_) => 0,
            PlotModel::Line2D(_) => 1,
            PlotModel::FillBetween(_) => 2,
        }
    }

    pub open spec fn wf(self) -> bool {
        match self {
            PlotModel::Scatter(s) => s.wf(),
            PlotModel::Line2D(l) => l.wf(),
            PlotModel::FillBetween(f) => f.wf(),
        }
    }

    pub open spec fn fits(self) -> bool {
        match self {
            PlotModel::Scatter(s) => s.fits(),
            PlotModel::Line2D(l) => l.fits(),
            PlotModel::FillBetween(f) => f.fits(),
        }
    }

    /// The body of the variant, without its tag.
    pub open spec fn body(self) -> Seq<u8> {
        match self {
            PlotModel::Scatter(s) => s.bytes(),
            PlotModel::Line2D(l) => l.bytes(),
            PlotModel::FillBetween(f) => f.bytes(),
        }
    }

    /// A tagged variant: `[tag, [body]]`.
    pub open spec fn bytes(self) -> Seq<u8> {
        array_header(2) + uint_bytes(self.tag()) + array_header(1) + self.body()
    }
}

/// A scatter plot of points `(x[i], y[i])`.
#[derive(Debug)]
pub struct Scatter {
    x: Vec<u64>,
    y: Vec<u64>,
    label: Option<String>,
    color: Option<String>,
    marker: Option<String>,
}

impl View for Scatter {
    type V = ScatterModel;

    closed spec fn view(&self) -> ScatterModel {
        ScatterModel {
            x: self.x@,
            y: self.y@,
            label: opt_view(&self.label),
            color: opt_view(&self.color),
            marker: opt_view(&self.marker),
        }
    }
}

impl Default for Scatter {
    fn default() -> (r: Scatter)
        ensures
            r@ == ScatterModel::empty(),
    {
        let r = Scatter { x: Vec::new(), y: Vec::new(), label: None, color: None, marker: None };
        assert(r@.x =~= Seq::<u64>::empty());
        r
    }
}

impl Scatter {
    #[verifier::type_invariant]
    spec fn same_length(self) -> bool {
        self.x@.len() == self.y@.len()
    }

    /// The number of samples; every buffer has that many.
    pub fn len(&self) -> (r: usize)
        ensures
            r == self@.x.len(),
            self@.wf(),
    {
        proof {
            use_type_invariant(self);
        }
        self.x.len()
    }

    /// An empty scatter series labelled `name`.
    pub fn new(name: &str) -> (r: Scatter)
        ensures
            r@ == (ScatterModel { label: Some(name@), ..ScatterModel::empty() }),
    {
        Scatter::default().label(name)
    }

    /// Replaces both buffers; they must have one length.
    pub fn data(self, x: Vec<u64>, y: Vec<u64>) -> (r: Result<Scatter, PlotError>)
        ensures
            r is Ok <==> x@.len() == y@.len(),
            r matches Ok(s) ==> s@ == (ScatterModel { x: x@, y: y@, ..self@ }),
            r matches Err(e) ==> e == PlotError::ShapeMismatch,
    {
        if x.len() != y.len() {
            return Err(PlotError::ShapeMismatch);
        }
        let Scatter { x: _, y: _, label, color, marker } = self;
        Ok(Scatter { x, y, label, color, marker })
    }

    pub fn label(self, text: &str) -> (r: Scatter)
        ensures
            r@ == (ScatterModel { label: Some(text@), ..self@ }),
    {
        proof {
            use_type_invariant(&self);
        }
        let mut s = self;
        s.label = Some(text.to_owned());
        s
    }

    pub fn color(self, color: &str) -> (r: Scatter)
        ensures
            r@ == (ScatterModel { color: Some(color@), ..self@ }),
    {
        proof {
            use_type_invariant(&self);
        }
        let mut s = self;
        s.color = Some(color.to_owned());
        s
    }

    pub fn marker(self, marker: &str) -> (r: Scatter)
        ensures
            r@ == (ScatterModel { marker: Some(marker@), ..self@ }),
    {
        proof {
            use_type_invariant(&self);
        }
        let mut s = self;
        s.marker = Some(marker.to_owned());
        s
    }
}

impl Encodable for Scatter {
    open spec fn wire(&self) -> Seq<u8> {
        self@.bytes()
    }

    open spec fn fits(&self) -> bool {
        self@.fits()
    }

    fn encode(&self, buf: &mut Vec<u8>) -> (r: Result<(), PlotError>) {
        let ghost start = buf@;
        write_array_header(buf, 5)?;
        write_f64_array(buf, &self.x)?;
        write_f64_array(buf, &self.y)?;
        write_opt_str(buf, &self.label)?;
        write_opt_str(buf, &self.color)?;
        write_opt_str(buf, &self.marker)?;
        assert(buf@ =~= start + self@.bytes());
        Ok(())
    }
}

/// Points `(x[i], y[i])` joined by a line.
#[derive(Debug)]
pub struct Line2D {
    x: Vec<u64>,
    y: Vec<u64>,
    label: Option<String>,
    color: Option<String>,
    marker: Option<String>,
    linestyle: Option<String>,
    linewidth: Option<u64>,
}

impl View for Line2D {
    type V = LineModel;

    closed spec fn view(&self) -> LineModel {
        LineModel {
            x: self.x@,
            y: self.y@,
            label: opt_view(&self.label),
            color: opt_view(&self.color),
            marker: opt_view(&self.marker),
            linestyle: opt_view(&self.linestyle),
            linewidth: self.linewidth,
        }
    }
}

impl Default for Line2D {
    fn default() -> (r: Line2D)
        ensures
            r@ == LineModel::empty(),
    {
        let r = Line2D {
            x: Vec::new(),
            y: Vec::new(),
            label: None,
            color: None,
            marker: None,
            linestyle: None,
            linewidth: None,
        };
        assert(r@.x =~= Seq::<u64>::empty());
        r
    }
}

impl Line2D {
    #[verifier::type_invariant]
    spec fn same_length(self) -> bool {
        self.x@.len() == self.y@.len()
    }

    /// The number of samples; every buffer has that many.
    pub fn len(&self) -> (r: usize)
        ensures
            r == self@.x.len(),
            self@.wf(),
    {
        proof {
            use_type_invariant(self);
        }
        self.x.len()
    }

    /// An empty line series labelled `name`.
    pub fn new(name: &str) -> (r: Line2D)
        ensures
            r@ == (LineModel { label: Some(name@), ..LineModel::empty() }),
    {
        Line2D::default().label(name)
    }

    /// Replaces both buffers; they must have one length.
    pub fn data(self, x: Vec<u64>, y: Vec<u64>) -> (r: Result<Line2D, PlotError>)
        ensures
            r is Ok <==> x@.len() == y@.len(),
            r matches Ok(l) ==> l@ == (LineModel { x: x@, y: y@, ..self@ }),
            r matches Err(e) ==> e == PlotError::ShapeMismatch,
    {
        if x.len() != y.len() {
            return Err(PlotError::ShapeMismatch);
        }
        let Line2D { x: _, y: _, label, color, marker, linestyle, linewidth } = self;
        Ok(Line2D { x, y, label, color, marker, linestyle, linewidth })
    }

    pub fn label(self, text: &str) -> (r: Line2D)
        ensures
            r@ == (LineModel { label: Some(text@), ..self@ }),
    {
        proof {
            use_type_invariant(&self);
        }
        let mut l = self;
        l.label = Some(text.to_owned());
        l
    }

    pub fn color(self, color: &str) -> (r: Line2D)
        ensures
            r@ == (LineModel { color: Some(color@), ..self@ }),
    {
        proof {
            use_type_invariant(&self);
        }
        let mut l = self;
        l.color = Some(color.to_owned());
        l
    }

    pub fn marker(self, marker: &str) -> (r: Line2D)
        ensures
            r@ == (LineModel { marker: Some(marker@), ..self@ }),
    {
        proof {
            use_type_invariant(&self);
        }
        let mut l = self;
        l.marker = Some(marker.to_owned());
        l
    }

    pub fn linestyle(self, style: &str) -> (r: Line2D)
        ensures
            r@ == (LineModel { linestyle: Some(style@), ..self@ }),
    {
        proof {
            use_type_invariant(&self);
        }
        let mut l = self;
        l.linestyle = Some(style.to_owned());
        l
    }

    /// Sets the width, given as the bit pattern of a binary64 value; it is
    /// carried to the renderer unchecked.
    pub fn linewidth(self, width: u64) -> (r: Line2D)
        ensures
            r@ == (LineModel { linewidth: Some(width), ..self@ }),
    {
        proof {
            use_type_invariant(&self);
        }
        let mut l = self;
        l.linewidth = Some(width);
        l
    }
}

impl Encodable for Line2D {
    open spec fn wire(&self) -> Seq<u8> {
        self@.bytes()
    }

    open spec fn fits(&self) -> bool {
        self@.fits()
    }

    fn encode(&self, buf: &mut Vec<u8>) -> (r: Result<(), PlotError>) {
        let ghost start = buf@;
        write_array_header(buf, 7)?;
        write_f64_array(buf, &self.x)?;
        write_f64_array(buf, &self.y)?;
        write_opt_str(buf, &self.label)?;
        write_opt_str(buf, &self.color)?;
        write_opt_str(buf, &self.marker)?;
        write_opt_str(buf, &self.linestyle)?;
        match self.linewidth {
            None => emit_nil(buf)?,
            Some(w) => write_f64(buf, w),
        }
        assert(buf@ =~= start + self@.bytes());
        Ok(())
    }
}

/// The band between the curves `(x, y1)` and `(x, y2)`.
#[derive(Debug)]
pub struct FillBetween {
    x: Vec<u64>,
    y1: Vec<u64>,
    y2: Vec<u64>,
    where_: Option<Vec<bool>>,
    label: Option<String>,
    color: Option<String>,
    marker: Option<String>,
    interpolate: bool,
    step: Option<String>,
}

impl View for FillBetween {
    type V = FillModel;

    closed spec fn view(&self) -> FillModel {
        FillModel {
            x: self.x@,
            y1: self.y1@,
            y2: self.y2@,
            where_: match self.where_ {
                None => None,
                Some(w) => Some(w@),
            },
            label: opt_view(&self.label),
            color: opt_view(&self.color),
            marker: opt_view(&self.marker),
            interpolate: self.interpolate,
            step: opt_view(&self.step),
        }
    }
}

impl Default for FillBetween {
    fn default() -> (r: FillBetween)
        ensures
            r@ == FillModel::empty(),
    {
        let r = FillBetween {
            x: Vec::new(),
            y1: Vec::new(),
            y2: Vec::new(),
            where_: None,
            label: None,
            color: None,
            marker: None,
            interpolate: false,
            step: None,
        };
        assert(r@.x =~= Seq::<u64>::empty());
        r
    }
}

impl FillBetween {
    #[verifier::type_invariant]
    spec fn same_length(self) -> bool {
        self.x@.len() == self.y1@.len() && self.x@.len() == self.y2@.len()
    }

    /// The number of samples; every curve buffer has that many.
    pub fn len(&self) -> (r: usize)
        ensures
            r == self@.x.len(),
            self@.wf(),
    {
        proof {
            use_type_invariant(self);
        }
        self.x.len()
    }

    /// Replaces the three buffers; they must have one length.
    pub fn data(self, x: Vec<u64>, y1: Vec<u64>, y2: Vec<u64>) -> (r: Result<FillBetween, PlotError>)
        ensures
            r is Ok <==> x@.len() == y1@.len() && x@.len() == y2@.len(),
            r matches Ok(f) ==> f@ == (FillModel { x: x@, y1: y1@, y2: y2@, ..self@ }),
            r matches Err(e) ==> e == PlotError::ShapeMismatch,
    {
        if x.len() != y1.len() || x.len() != y2.len() {
            return Err(PlotError::ShapeMismatch);
        }
        let FillBetween { x: _, y1: _, y2: _, where_, label, color, marker, interpolate, step } = self;
        Ok(FillBetween { x, y1, y2, where_, label, color, marker, interpolate, step })
    }

    /// Restricts the band to the samples whose flag is set.
    pub fn where_(self, mask: Vec<bool>) -> (r: FillBetween)
        ensures
            r@ == (FillModel { where_: Some(mask@), ..self@ }),
    {
        proof {
            use_type_invariant(&self);
        }
        let mut f = self;
        f.where_ = Some(mask);
        f
    }

    pub fn label(self, text: &str) -> (r: FillBetween)
        ensures
            r@ == (FillModel { label: Some(text@), ..self@ }),
    {
        proof {
            use_type_invariant(&self);
        }
        let mut f = self;
        f.label = Some(text.to_owned());
        f
    }

    pub fn color(self, color: &str) -> (r: FillBetween)
        ensures
            r@ == (FillModel { color: Some(color@), ..self@ }),
    {
        proof {
            use_type_invariant(&self);
        }
        let mut f = self;
        f.color = Some(color.to_owned());
        f
    }

    pub fn marker(self, marker: &str) -> (r: FillBetween)
        ensures
            r@ == (FillModel { marker: Some(marker@), ..self@ }),
    {
        proof {
            use_type_invariant(&self);
        }
        let mut f = self;
        f.marker = Some(marker.to_owned());
        f
    }

    pub fn interpolate(self, interpolate: bool) -> (r: FillBetween)
        ensures
            r@ == (FillModel { interpolate, ..self@ }),
    {
        proof {
            use_type_invariant(&self);
        }
        let mut f = self;
        f.interpolate = interpolate;
        f
    }

    pub fn step(self, step: &str) -> (r: FillBetween)
        ensures
            r@ == (FillModel { step: Some(step@), ..self@ }),
    {
        proof {
            use_type_invariant(&self);
        }
        let mut f = self;
        f.step = Some(step.to_owned());
        f
    }
}

impl Encodable for FillBetween {
    open spec fn wire(&self) -> Seq<u8> {
        self@.bytes()
    }

    open spec fn fits(&self) -> bool {
        self@.fits()
    }

    #[verifier::rlimit(40)]
    fn encode(&self, buf: &mut Vec<u8>) -> (r: Result<(), PlotError>) {
        let ghost start = buf@;
        write_array_header(buf, 9)?;
        write_f64_array(buf, &self.x)?;
        write_f64_array(buf, &self.y1)?;
        write_f64_array(buf, &self.y2)?;
        match &self.where_ {
            None => emit_nil(buf)?,
            Some(w) => write_bool_array(buf, w)?,
        }
        write_opt_str(buf, &self.label)?;
        write_opt_str(buf, &self.color)?;
        write_opt_str(buf, &self.marker)?;
        emit_bool(buf, self.interpolate)?;
        write_opt_str(buf, &self.step)?;
        assert(buf@ =~= start + self@.bytes());
        Ok(())
    }
}

/// One series of an axes, of any supported kind.
#[derive(Debug)]
pub enum PlotData {
    Scatter(Scatter),
    Line2D(Line2D),
    FillBetween(FillBetween),
}

impl View for PlotData {
    type V = PlotModel;

    open spec fn view(&self) -> PlotModel {
        match self {
            PlotData::Scatter(s) => PlotModel::Scatter(s@),
            PlotData::Line2D(l) => PlotModel::Line2D(l@),
            PlotData::FillBetween(f) => PlotModel::FillBetween(f@),
        }
    }
}

impl Encodable for PlotData {
    open spec fn wire(&self) -> Seq<u8> {
        self@.bytes()
    }

    open spec fn fits(&self) -> bool {
        self@.fits()
    }

    fn encode(&self, buf: &mut Vec<u8>) -> (r: Result<(), PlotError>) {
        let ghost start = buf@;
        write_array_header(buf, 2)?;
        let tag: u64 = match self {
            PlotData::Scatter(_) => 0,
            PlotData::Line2D(_) => 1,
            PlotData::FillBetween(_) => 2,
        };
        emit_uint(buf, tag)?;
        write_array_header(buf, 1)?;
        match self {
            PlotData::Scatter(s) => s.encode(buf)?,
            PlotData::Line2D(l) => l.encode(buf)?,
            PlotData::FillBetween(f) => f.encode(buf)?,
        }
        assert(buf@ =~= start + self@.bytes());
        Ok(())
    }
}

impl From<Scatter> for PlotData {
    fn from(s: Scatter) -> (r: PlotData) {
        PlotData::Scatter(s)
    }
}

impl vstd::std_specs::convert::FromSpecImpl<Scatter> for PlotData {
    open spec fn obeys_from_spec() -> bool {
        true
    }

    open spec fn from_spec(s: Scatter) -> PlotData {
        PlotData::Scatter(s)
    }
}

impl From<Line2D> for PlotData {
    fn from(l: Line2D) -> (r: PlotData) {
        PlotData::Line2D(l)
    }
}

impl vstd::std_specs::convert::FromSpecImpl<Line2D> for PlotData {
    open spec fn obeys_from_spec() -> bool {
        true
    }

    open spec fn from_spec(l: Line2D) -> PlotData {
        PlotData::Line2D(l)
    }
}

impl From<FillBetween> for PlotData {
    fn from(f: FillBetween) -> (r: PlotData) {
        PlotData::FillBetween(f)
    }
}

impl vstd::std_specs::convert::FromSpecImpl<FillBetween> for PlotData {
    open spec fn obeys_from_spec() -> bool {
        true
    }

    open spec fn from_spec(f: FillBetween) -> PlotData {
        PlotData::FillBetween(f)
    }
}

} // verus!
