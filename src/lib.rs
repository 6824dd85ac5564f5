//! A declarative description of plots (figures, subplot grids, axes and
//! series), its MessagePack wire format, and the strategies that hand an
//! encoded figure to an external matplotlib renderer.
//!
//! Every floating-point quantity (samples, limits, line widths) is carried as
//! the bit pattern of an IEEE-754 binary64 value, as `f64::to_bits` gives it.
pub mod axes2d;
pub mod backend;
pub mod encode;
pub mod error;
pub mod figure;
pub mod msgpack;
pub mod payload;
pub mod pyexpr;
pub mod series;

pub use axes2d::Axes2D;
pub use backend::{Backend, MatplotlibFile, Session, SessionState};
pub use encode::Encodable;
pub use error::PlotError;
pub use figure::{Figure, Subplots};
pub use payload::{encode, msgpack};
pub use series::{FillBetween, Line2D, PlotData, Scatter};
