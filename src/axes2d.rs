use vstd::prelude::*;
use vstd::string::StrSliceExecFns;

use crate::encode::Encodable;
use crate::error::PlotError;
use crate::msgpack::{
    array_header, bool_bytes, emit_bool, len_fits, opt_pair_bytes, opt_str_bytes, opt_str_fits,
    opt_view, write_array_header, write_opt_pair, write_opt_str,
};
use crate::series::{PlotData, PlotModel};

verus! {

/// Whether a character has Unicode's White_Space property (PropList.txt).
pub open spec fn white_space(c: char) -> bool {
    let v = c as u32;
    ||| 0x09 <= v <= 0x0d
    ||| v == 0x20
    ||| v == 0x85
    ||| v == 0xa0
    ||| v == 0x1680
    ||| 0x2000 <= v <= 0x200a
    ||| v == 0x2028
    ||| v == 0x2029
    ||| v == 0x202f
    ||| v == 0x205f
    ||| v == 0x3000
}

/// Relies on `char::is_whitespace`, documented to answer whether the
/// character has the White_Space property.
#[verifier::external_body]
fn is_whitespace(c: char) -> (r: bool)
    ensures
        r == white_space(c),
{
    c.is_whitespace()
}

/// A string that is empty or holds only whitespace.
pub open spec fn blank(s: Seq<char>) -> bool {
    forall|i: int| 0 <= i < s.len() ==> white_space(#[trigger] s[i])
}

/// Whether `s` is empty or holds only whitespace, so that trimming it leaves nothing.
pub fn is_blank(s: &str) -> (r: bool)
    ensures
        r == blank(s@),
{
    let n = s.unicode_len();
    let mut i: usize = 0;
    while i < n
        invariant
            n == s@.len(),
            0 <= i <= n,
            forall|j: int| 0 <= j < i ==> white_space(#[trigger] s@[j]),
        decreases n - i,
    {
        if !is_whitespace(s.get_char(i)) {
            return false;
        }
        i = i + 1;
    }
    true
}

/// The series of an axes, one after the other.
pub open spec fn plots_elems(ps: Seq<PlotModel>) -> Seq<u8>
    decreases ps.len(),
{
    if ps.len() == 0 {
        Seq::empty()
    } else {
        plots_elems(ps.drop_last()) + ps.last().bytes()
    }
}

/// Every series of the list fits.
pub open spec fn plots_fit(ps: Seq<PlotModel>) -> bool {
    forall|i: int| 0 <= i < ps.len() ==> (#[trigger] ps[i]).fits()
}

/// What an axes holds: its series in drawing order and its configuration.
/// Limits are pairs of binary64 bit patterns.
pub struct AxesModel {
    pub plots: Seq<PlotModel>,
    pub xlabel: Option<Seq<char>>,
    pub ylabel: Option<Seq<char>>,
    pub grid: bool,
    pub legend: Option<Seq<char>>,
    pub xlim: Option<(u64, u64)>,
    pub ylim: Option<(u64, u64)>,
}

impl AxesModel {
    /// No series, and every setting left to the renderer.
    pub open spec fn empty() -> AxesModel {
        AxesModel {
            plots: Seq::empty(),
            xlabel: None,
            ylabel: None,
            grid: false,
            legend: None,
            xlim: None,
            ylim: None,
        }
    }

    pub open spec fn add(self, p: PlotModel) -> AxesModel {
        AxesModel { plots: self.plots.push(p), ..self }
    }

    pub open spec fn set_xlabel(self, text: Seq<char>) -> AxesModel {
        AxesModel { xlabel: Some(text), ..self }
    }

    pub open spec fn set_ylabel(self, text: Seq<char>) -> AxesModel {
        AxesModel { ylabel: Some(text), ..self }
    }

    pub open spec fn set_grid(self, enabled: bool) -> AxesModel {
        AxesModel { grid: enabled, ..self }
    }

    /// A blank location hides the legend.
    pub open spec fn set_legend(self, loc: Seq<char>) -> AxesModel {
        AxesModel { legend: if blank(loc) { None } else { Some(loc) }, ..self }
    }

    pub open spec fn set_xlim(self, lim: (u64, u64)) -> AxesModel {
        AxesModel { xlim: Some(lim), ..self }
    }

    pub open spec fn set_ylim(self, lim: (u64, u64)) -> AxesModel {
        AxesModel { ylim: Some(lim), ..self }
    }

    pub open spec fn fits(self) -> bool {
        &&& len_fits(self.plots.len())
        &&& plots_fit(self.plots)
        &&& opt_str_fits(self.xlabel)
        &&& opt_str_fits(self.ylabel)
        &&& opt_str_fits(self.legend)
    }

    /// Seven fields in declaration order; the series as an array.
    pub open spec fn bytes(self) -> Seq<u8> {
        array_header(7) + array_header(self.plots.len()) + plots_elems(self.plots) + opt_str_bytes(
            self.xlabel,
        ) + opt_str_bytes(self.ylabel) + bool_bytes(self.grid) + opt_str_bytes(self.legend)
            + opt_pair_bytes(self.xlim) + opt_pair_bytes(self.ylim)
    }
}

/// An empty or whitespace-only legend location (such as `""` or `"   "`)
/// leaves the legend unset: the result is as if the legend had never been
/// set, whatever was set before.
pub proof fn lemma_blank_legend_unsets(m: AxesModel, prior: Seq<char>, loc: Seq<char>)
    requires
        blank(loc),
    ensures
        blank(Seq::<char>::empty()),
        blank(seq![' ', ' ', ' ']),
        blank(seq![' ', '\t', '\n']),
        m.set_legend(loc).legend is None,
        m.legend is None ==> m.set_legend(loc) == m,
        m.set_legend(prior).set_legend(loc) == m.set_legend(loc),
        AxesModel::empty().set_legend(prior).set_legend(loc) == AxesModel::empty(),
{
}

/// Setting a configuration field twice keeps only the later value.
pub proof fn lemma_last_setting_wins(
    m: AxesModel,
    t1: Seq<char>,
    t2: Seq<char>,
    g1: bool,
    g2: bool,
    l1: (u64, u64),
    l2: (u64, u64),
)
    ensures
        m.set_xlabel(t1).set_xlabel(t2) == m.set_xlabel(t2),
        m.set_ylabel(t1).set_ylabel(t2) == m.set_ylabel(t2),
        m.set_grid(g1).set_grid(g2) == m.set_grid(g2),
        m.set_legend(t1).set_legend(t2) == m.set_legend(t2),
        m.set_xlim(l1).set_xlim(l2) == m.set_xlim(l2),
        m.set_ylim(l1).set_ylim(l2) == m.set_ylim(l2),
{
}

/// One plotting region: an ordered list of series plus axis settings.
#[derive(Debug)]
pub struct Axes2D {
    plot_data: Vec<PlotData>,
    xlabel: Option<String>,
    ylabel: Option<String>,
    grid: bool,
    legend: Option<String>,
    xlim: Option<(u64, u64)>,
    ylim: Option<(u64, u64)>,
}

impl View for Axes2D {
    type V = AxesModel;

    closed spec fn view(&self) -> AxesModel {
        AxesModel {
            plots: self.plot_data@.map_values(|p: PlotData| p@),
            xlabel: opt_view(&self.xlabel),
            ylabel: opt_view(&self.ylabel),
            grid: self.grid,
            legend: opt_view(&self.legend),
            xlim: self.xlim,
            ylim: self.ylim,
        }
    }
}

impl Default for Axes2D {
    fn default() -> (r: Axes2D)
        ensures
            r@ == AxesModel::empty(),
    {
        let r = Axes2D {
            plot_data: Vec::new(),
            xlabel: None,
            ylabel: None,
            grid: false,
            legend: None,
            xlim: None,
            ylim: None,
        };
        assert(r@.plots =~= Seq::<PlotModel>::empty());
        r
    }
}

impl Axes2D {
    /// An axes with no series and every setting unset.
    pub fn new() -> (r: Axes2D)
        ensures
            r@ == AxesModel::empty(),
    {
        Axes2D::default()
    }

    /// Appends a series; it draws above those added before.
    pub fn add(self, p: PlotData) -> (r: Axes2D)
        ensures
            r@ == self@.add(p@),
    {
        let mut a = self;
        a.plot_data.push(p);
        assert(a@.plots =~= self@.plots.push(p@));
        a
    }

    pub fn xlabel(self, text: &str) -> (r: Axes2D)
        ensures
            r@ == self@.set_xlabel(text@),
    {
        let mut a = self;
        a.xlabel = Some(text.to_owned());
        a
    }

    pub fn ylabel(self, text: &str) -> (r: Axes2D)
        ensures
            r@ == self@.set_ylabel(text@),
    {
        let mut a = self;
        a.ylabel = Some(text.to_owned());
        a
    }

    pub fn grid(self, enabled: bool) -> (r: Axes2D)
        ensures
            r@ == self@.set_grid(enabled),
    {
        let mut a = self;
        a.grid = enabled;
        a
    }

    /// Places the legend at `loc`; an empty or whitespace-only `loc` hides it.
    pub fn legend(self, loc: &str) -> (r: Axes2D)
        ensures
            r@ == self@.set_legend(loc@),
    {
        let mut a = self;
        a.legend = if is_blank(loc) {
            None
        } else {
            Some(loc.to_owned())
        };
        a
    }

    /// Sets the x range; bounds are binary64 bit patterns.
    pub fn xlim(self, lb: u64, ub: u64) -> (r: Axes2D)
        ensures
            r@ == self@.set_xlim((lb, ub)),
    {
        let mut a = self;
        a.xlim = Some((lb, ub));
        a
    }

    /// Sets the y range; bounds are binary64 bit patterns.
    pub fn ylim(self, lb: u64, ub: u64) -> (r: Axes2D)
        ensures
            r@ == self@.set_ylim((lb, ub)),
    {
        let mut a = self;
        a.ylim = Some((lb, ub));
        a
    }
}

impl Axes2D {
    /// Appends every series in drawing order, without the array header.
    fn encode_series(&self, buf: &mut Vec<u8>) -> (r: Result<(), PlotError>)
        ensures
            r is Ok <==> plots_fit(self@.plots),
            r is Ok ==> final(buf)@ == old(buf)@ + plots_elems(self@.plots),
            r matches Err(e) ==> e == PlotError::EncodingFailure,
    {
        let ghost head = buf@;
        let ghost plots = self@.plots;
        let mut i: usize = 0;
        while i < self.plot_data.len()
            invariant
                0 <= i <= plots.len(),
                plots == self@.plots,
                plots.len() == self.plot_data@.len(),
                forall|j: int| 0 <= j < plots.len() ==> plots[j] == #[trigger] self.plot_data@[j]@,
                buf@ == head + plots_elems(plots.take(i as int)),
                forall|j: int| 0 <= j < i ==> (#[trigger] plots[j]).fits(),
            decreases plots.len() - i,
        {
            self.plot_data[i].encode(buf)?;
            proof {
                let t = plots.take(i as int + 1);
                assert(t.drop_last() =~= plots.take(i as int));
            }
            i = i + 1;
        }
        assert(plots.take(plots.len() as int) =~= plots);
        Ok(())
    }
}

impl Encodable for Axes2D {
    open spec fn wire(&self) -> Seq<u8> {
        self@.bytes()
    }

    open spec fn fits(&self) -> bool {
        self@.fits()
    }

    #[verifier::rlimit(40)]
    fn encode(&self, buf: &mut Vec<u8>) -> (r: Result<(), PlotError>) {
        let ghost start = buf@;
        write_array_header(buf, 7)?;
        write_array_header(buf, self.plot_data.len())?;
        self.encode_series(buf)?;
        write_opt_str(buf, &self.xlabel)?;
        write_opt_str(buf, &self.ylabel)?;
        emit_bool(buf, self.grid)?;
        write_opt_str(buf, &self.legend)?;
        write_opt_pair(buf, &self.xlim)?;
        write_opt_pair(buf, &self.ylim)?;
        assert(buf@ =~= start + self@.bytes());
        Ok(())
    }
}

} // verus!
