use vstd::prelude::*;

use crate::axes2d::{Axes2D, AxesModel};
use crate::encode::Encodable;
use crate::error::PlotError;
use crate::msgpack::{
    array_header, bool_bytes, emit_bool, emit_nil, emit_uint, len_fits, nil_bytes, uint_bytes,
    write_array_header,
};

verus! {

/// An empty slot, or the axes placed there.
pub open spec fn slot_bytes(s: Option<AxesModel>) -> Seq<u8> {
    match s {
        None => nil_bytes(),
        Some(a) => a.bytes(),
    }
}

pub open spec fn slot_fits(s: Option<AxesModel>) -> bool {
    match s {
        None => true,
        Some(a) => a.fits(),
    }
}

/// The slots of a grid, one after the other.
pub open spec fn slots_elems(ss: Seq<Option<AxesModel>>) -> Seq<u8>
    decreases ss.len(),
{
    if ss.len() == 0 {
        Seq::empty()
    } else {
        slots_elems(ss.drop_last()) + slot_bytes(ss.last())
    }
}

/// Every slot of the list fits.
pub open spec fn slots_fit(ss: Seq<Option<AxesModel>>) -> bool {
    forall|i: int| 0 <= i < ss.len() ==> slot_fits(#[trigger] ss[i])
}

/// What a subplot grid holds: its shape, the shared-axis flags, and one
/// optional axes per slot in row-major order.
pub struct SubplotsModel {
    pub rows: u32,
    pub cols: u32,
    pub share_x: bool,
    pub share_y: bool,
    pub axes: Seq<Option<AxesModel>>,
}

impl SubplotsModel {
    /// A `rows` by `cols` grid of empty slots, no axis shared.
    pub open spec fn empty(rows: u32, cols: u32) -> SubplotsModel {
        SubplotsModel {
            rows,
            cols,
            share_x: false,
            share_y: false,
            axes: Seq::new(rows as nat * cols as nat, |i: int| None),
        }
    }

    pub open spec fn size(self) -> nat {
        self.rows as nat * self.cols as nat
    }

    /// One slot per cell.
    pub open spec fn wf(self) -> bool {
        self.axes.len() == self.size()
    }

    pub open spec fn fits(self) -> bool {
        len_fits(self.axes.len()) && slots_fit(self.axes)
    }

    /// Five fields in declaration order; the slots as an array.
    pub open spec fn bytes(self) -> Seq<u8> {
        array_header(5) + uint_bytes(self.rows as u64) + uint_bytes(self.cols as u64) + bool_bytes(
            self.share_x,
        ) + bool_bytes(self.share_y) + array_header(self.axes.len()) + slots_elems(self.axes)
    }
}

/// A grid of plotting regions.
#[derive(Debug)]
pub struct Subplots {
    rows: u32,
    cols: u32,
    share_x: bool,
    share_y: bool,
    axes: Vec<Option<Axes2D>>,
}

impl View for Subplots {
    type V = SubplotsModel;

    closed spec fn view(&self) -> SubplotsModel {
        SubplotsModel {
            rows: self.rows,
            cols: self.cols,
            share_x: self.share_x,
            share_y: self.share_y,
            axes: self.axes@.map_values(
                |s: Option<Axes2D>|
                    match s {
                        None => None,
                        Some(a) => Some(a@),
                    },
            ),
        }
    }
}

impl Subplots {
    #[verifier::type_invariant]
    spec fn one_slot_per_cell(self) -> bool {
        self.axes@.len() == self.rows as nat * self.cols as nat
    }

    /// A `rows` by `cols` grid with every slot empty.
    pub fn new(rows: u32, cols: u32) -> (r: Subplots)
        requires
            rows as nat * cols as nat <= usize::MAX,
        ensures
            r@ == SubplotsModel::empty(rows, cols),
    {
        let n: usize = rows as usize * cols as usize;
        let mut axes: Vec<Option<Axes2D>> = Vec::new();
        let mut i: usize = 0;
        while i < n
            invariant
                0 <= i <= n,
                axes@.len() == i,
                forall|j: int| 0 <= j < i ==> axes@[j] is None,
            decreases n - i,
        {
            axes.push(None);
            i = i + 1;
        }
        assert(axes@.len() == rows as nat * cols as nat);
        let r = Subplots { rows, cols, share_x: false, share_y: false, axes };
        assert(r@.axes =~= SubplotsModel::empty(rows, cols).axes);
        r
    }

    pub fn share_x(self, share_x: bool) -> (r: Subplots)
        ensures
            r@ == (SubplotsModel { share_x, ..self@ }),
            r@.wf(),
    {
        proof {
            use_type_invariant(&self);
        }
        let mut s = self;
        s.share_x = share_x;
        s
    }

    pub fn share_y(self, share_y: bool) -> (r: Subplots)
        ensures
            r@ == (SubplotsModel { share_y, ..self@ }),
            r@.wf(),
    {
        proof {
            use_type_invariant(&self);
        }
        let mut s = self;
        s.share_y = share_y;
        s
    }

    /// Places `axes` in slot `n` (row-major: `n == row * cols + col`),
    /// replacing what was there.
    pub fn at(self, n: usize, placed: Axes2D) -> (r: Result<Subplots, PlotError>)
        ensures
            self@.wf(),
            r is Ok <==> n < self@.size(),
            r matches Ok(s) ==> s@.wf(),
            r matches Ok(s) ==> s@ == (SubplotsModel {
                axes: self@.axes.update(n as int, Some(placed@)),
                ..self@
            }),
            r matches Err(e) ==> e == PlotError::IndexOutOfRange,
    {
        proof {
            use_type_invariant(&self);
        }
        if n >= self.axes.len() {
            return Err(PlotError::IndexOutOfRange);
        }
        let ghost before = self@;
        let Subplots { rows, cols, share_x, share_y, mut axes } = self;
        axes.set(n, Some(placed));
        let s = Subplots { rows, cols, share_x, share_y, axes };
        assert(s@.axes =~= before.axes.update(n as int, Some(placed@)));
        Ok(s)
    }
}

impl Encodable for Subplots {
    open spec fn wire(&self) -> Seq<u8> {
        self@.bytes()
    }

    open spec fn fits(&self) -> bool {
        self@.fits()
    }

    fn encode(&self, buf: &mut Vec<u8>) -> (r: Result<(), PlotError>) {
        let ghost start = buf@;
        let ghost slots = self@.axes;
        write_array_header(buf, 5)?;
        emit_uint(buf, self.rows as u64)?;
        emit_uint(buf, self.cols as u64)?;
        emit_bool(buf, self.share_x)?;
        emit_bool(buf, self.share_y)?;
        write_array_header(buf, self.axes.len())?;
        let ghost head = buf@;
        let ghost prefix = array_header(5) + uint_bytes(self@.rows as u64) + uint_bytes(
            self@.cols as u64,
        ) + bool_bytes(self@.share_x) + bool_bytes(self@.share_y) + array_header(slots.len());
        assert(head =~= start + prefix);
        let mut i: usize = 0;
        while i < self.axes.len()
            invariant
                0 <= i <= slots.len(),
                slots == self@.axes,
                slots.len() == self.axes@.len(),
                head == start + prefix,
                buf@ == head + slots_elems(slots.take(i as int)),
                forall|j: int| 0 <= j < i ==> slot_fits(#[trigger] slots[j]),
            decreases slots.len() - i,
        {
            let ghost before = buf@;
            match &self.axes[i] {
                None => emit_nil(buf)?,
                Some(a) => a.encode(buf)?,
            }
            assert(slot_fits(slots[i as int]) && buf@ == before + slot_bytes(slots[i as int]));
            proof {
                let t = slots.take(i as int + 1);
                assert(t.drop_last() =~= slots.take(i as int));
            }
            i = i + 1;
        }
        assert(slots.take(slots.len() as int) =~= slots);
        assert(buf@ =~= start + self@.bytes());
        Ok(())
    }
}

/// What a figure holds: nothing, or one subplot grid.
pub struct FigureModel {
    pub subplots: Option<SubplotsModel>,
}

impl FigureModel {
    pub open spec fn fits(self) -> bool {
        match self.subplots {
            None => true,
            Some(s) => s.fits(),
        }
    }

    /// One field: the absent marker, or the grid.
    pub open spec fn bytes(self) -> Seq<u8> {
        array_header(1) + match self.subplots {
            None => nil_bytes(),
            Some(s) => s.bytes(),
        }
    }
}

/// The root of the plot description.
#[derive(Debug)]
pub struct Figure {
    subplots: Option<Subplots>,
}

impl View for Figure {
    type V = FigureModel;

    closed spec fn view(&self) -> FigureModel {
        FigureModel {
            subplots: match self.subplots {
                None => None,
                Some(s) => Some(s@),
            },
        }
    }
}

impl Default for Figure {
    fn default() -> (r: Figure)
        ensures
            r@.subplots is None,
    {
        Figure { subplots: None }
    }
}

impl Figure {
    /// A figure with nothing placed in it.
    pub fn new() -> (r: Figure)
        ensures
            r@.subplots is None,
    {
        Figure::default()
    }

    /// Sets the figure's grid, replacing any earlier one.
    pub fn subplots(self, subplots: Subplots) -> (r: Figure)
        ensures
            r@.subplots == Some(subplots@),
    {
        Figure { subplots: Some(subplots) }
    }
}

impl Encodable for Figure {
    open spec fn wire(&self) -> Seq<u8> {
        self@.bytes()
    }

    open spec fn fits(&self) -> bool {
        self@.fits()
    }

    fn encode(&self, buf: &mut Vec<u8>) -> (r: Result<(), PlotError>) {
        let ghost start = buf@;
        write_array_header(buf, 1)?;
        match &self.subplots {
            None => emit_nil(buf)?,
            Some(s) => s.encode(buf)?,
        }
        assert(buf@ =~= start + self@.bytes());
        Ok(())
    }
}

} // verus!
