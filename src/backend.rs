use vstd::prelude::*;
use vstd::string::StringExecFns;

use crate::error::PlotError;
use crate::figure::Figure;
use crate::payload::{msgpack, payload_of};

verus! {

/// Bootstrap code run by the renderer before any figure: it decodes a
/// payload and draws it with matplotlib.
pub const PRELUDE: &'static str = "import base64
import msgpack
import matplotlib.pyplot as plt


def _style(kw, **attrs):
    for key, value in attrs.items():
        if value is not None:
            kw[key] = value
    return kw


def _series(ax, node):
    tag, (body,) = node
    if tag == 0:
        x, y, label, color, marker = body
        ax.scatter(x, y, **_style({}, label=label, color=color, marker=marker))
    elif tag == 1:
        x, y, label, color, marker, ls, lw = body
        kw = _style({}, label=label, color=color, marker=marker, linestyle=ls, linewidth=lw)
        ax.plot(x, y, **kw)
    elif tag == 2:
        x, y1, y2, where, label, color, marker, interpolate, step = body
        kw = _style({'interpolate': interpolate}, where=where, label=label, color=color,
                    marker=marker, step=step)
        ax.fill_between(x, y1, y2, **kw)


def _axes(ax, node):
    plots, xlabel, ylabel, grid, legend, xlim, ylim = node
    for plot in plots:
        _series(ax, plot)
    if xlabel is not None:
        ax.set_xlabel(xlabel)
    if ylabel is not None:
        ax.set_ylabel(ylabel)
    ax.grid(grid)
    if legend is not None:
        ax.legend(loc=legend)
    if xlim is not None:
        ax.set_xlim(*xlim)
    if ylim is not None:
        ax.set_ylim(*ylim)


def evaluate(payload):
    (grid,) = msgpack.unpackb(base64.b64decode(payload), raw=False)
    fig = plt.figure()
    if grid is not None:
        rows, cols, share_x, share_y, slots = grid
        first = None
        for i, node in enumerate(slots):
            if node is None:
                continue
            kw = {}
            if first is not None and share_x:
                kw['sharex'] = first
            if first is not None and share_y:
                kw['sharey'] = first
            ax = fig.add_subplot(rows, cols, i + 1, **kw)
            if first is None:
                first = ax
            _axes(ax, node)
    plt.show()
    return fig";

/// The renderer statement that draws the figure carried by `payload`.
pub open spec fn statement(payload: Seq<char>) -> Seq<char> {
    "fig = evaluate(r\""@ + payload + "\")"@
}

/// A line of script: the text and a newline.
pub open spec fn line(text: Seq<char>) -> Seq<char> {
    text + "\n"@
}

/// Builds the statement that draws the figure carried by `payload`.
pub fn evaluate_statement(payload: &str) -> (r: String)
    ensures
        r@ == statement(payload@),
{
    let mut s = String::from_str("fig = evaluate(r\"");
    s.append(payload);
    s.append("\")");
    s
}

/// Appends a newline to `text`.
pub fn script_line(text: String) -> (r: String)
    ensures
        r@ == line(text@),
{
    let mut s = text;
    s.append("\n");
    s
}

/// The script that saves the renderer's current figure to `filename` in
/// pickle format.
pub open spec fn pickle_script(filename: Seq<char>) -> Seq<char> {
    "import pickle as pl\npl.dump(plt.gcf(), open('"@ + filename + "', 'wb'))"@
}

/// Builds the script that saves the current figure to `filename` in pickle format.
pub fn dump_pickle_script(filename: &str) -> (r: String)
    ensures
        r@ == pickle_script(filename@),
{
    let mut s = String::from_str("import pickle as pl\npl.dump(plt.gcf(), open('");
    s.append(filename);
    s.append("', 'wb'))");
    s
}

/// The one operation every execution strategy offers.
pub trait Backend {
    /// Hands a figure to the renderer, or, for a deferred strategy, keeps it.
    fn evaluate(&mut self, fig: &Figure) -> (r: Result<(), PlotError>);
}

/// What a batch-file strategy holds: the target path and the payload of the
/// latest figure, if any.
pub struct FileModel {
    pub path: Seq<char>,
    pub payload: Option<Seq<char>>,
}

/// The script a batch file holds: the prelude, then the statement for the
/// kept figure, if there is one.
pub open spec fn file_contents(payload: Option<Seq<char>>) -> Seq<char> {
    line(PRELUDE@) + match payload {
        None => Seq::empty(),
        Some(p) => line(statement(p)),
    }
}

/// Strategy that keeps the latest figure and writes a self-contained script
/// to a file on demand.
#[derive(Debug, Clone)]
pub struct MatplotlibFile {
    path: String,
    payload: Option<String>,
}

impl View for MatplotlibFile {
    type V = FileModel;

    closed spec fn view(&self) -> FileModel {
        FileModel {
            path: self.path@,
            payload: match self.payload {
                None => None,
                Some(p) => Some(p@),
            },
        }
    }
}

impl MatplotlibFile {
    /// A strategy that will write to `path` and holds no figure yet.
    pub fn new(path: &str) -> (r: MatplotlibFile)
        ensures
            r@.path == path@,
            r@.payload is None,
    {
        MatplotlibFile { path: path.to_owned(), payload: None }
    }

    /// Where the script goes.
    pub fn path(&self) -> (r: &str)
        ensures
            r@ == self@.path,
    {
        self.path.as_str()
    }

    /// The whole text that flushing writes, replacing what the file held.
    pub fn contents(&self) -> (r: String)
        ensures
            r@ == file_contents(self@.payload),
    {
        let mut s = script_line(String::from_str(PRELUDE));
        match &self.payload {
            None => {},
            Some(p) => {
                let stmt = script_line(evaluate_statement(p.as_str()));
                s.append(stmt.as_str());
            },
        }
        s
    }
}

impl Backend for MatplotlibFile {
    /// Keeps `fig` in place of any earlier one; nothing is written yet.
    fn evaluate(&mut self, fig: &Figure) -> (r: Result<(), PlotError>)
        ensures
            final(self)@.path == old(self)@.path,
            r is Ok <==> fig@.fits(),
            r is Ok ==> final(self)@.payload == Some(payload_of(fig@)),
            r is Err ==> final(self)@ == old(self)@,
            r matches Err(e) ==> e == PlotError::EncodingFailure,
    {
        let p = msgpack(fig)?;
        self.payload = Some(p);
        Ok(())
    }
}

/// Where an interactive renderer process stands.
#[derive(Debug, Clone, Copy, PartialEq, Eq, Structural)]
pub enum SessionState {
    /// No process has been started.
    NotStarted,
    /// The process runs and accepts statements.
    Running,
    /// The process stopped taking input; it still has to be reaped.
    Broken,
    /// The process was waited for; nothing more can be sent.
    Closed,
}

/// The decisions of the interactive strategy. The caller owns the process:
/// it starts it, writes the text handed back, reports each outcome, and on
/// teardown kills the process whenever `must_kill` says so.
#[derive(Debug)]
pub struct Session {
    state: SessionState,
}

impl View for Session {
    type V = SessionState;

    closed spec fn view(&self) -> SessionState {
        self.state
    }
}

impl Session {
    /// A session before any process exists.
    pub fn new() -> (r: Session)
        ensures
            r@ == SessionState::NotStarted,
    {
        Session { state: SessionState::NotStarted }
    }

    pub fn state(&self) -> (r: SessionState)
        ensures
            r == self@,
    {
        self.state
    }

    /// Records whether the process could be spawned. On success the text to
    /// send first is the prelude line; on failure no process is held and
    /// nothing is to be written.
    pub fn started(&mut self, spawned: bool) -> (r: Result<String, PlotError>)
        requires
            old(self)@ == SessionState::NotStarted,
        ensures
            spawned ==> final(self)@ == SessionState::Running,
            spawned ==> (r matches Ok(text) && text@ == line(PRELUDE@)),
            !spawned ==> final(self)@ == SessionState::NotStarted && r == Err::<String, PlotError>(
                PlotError::SpawnFailure,
            ),
    {
        if !spawned {
            return Err(PlotError::SpawnFailure);
        }
        self.state = SessionState::Running;
        Ok(script_line(String::from_str(PRELUDE)))
    }

    /// The line that sends `fig` to the running process. Nothing is sent
    /// unless the process is running.
    pub fn evaluate(&mut self, fig: &Figure) -> (r: Result<String, PlotError>)
        ensures
            final(self)@ == old(self)@,
            old(self)@ != SessionState::Running ==> r == Err::<String, PlotError>(
                PlotError::BrokenPipe,
            ),
            old(self)@ == SessionState::Running && !fig@.fits() ==> r == Err::<String, PlotError>(
                PlotError::EncodingFailure,
            ),
            old(self)@ == SessionState::Running && fig@.fits() ==> (r matches Ok(text) && text@
                == line(statement(payload_of(fig@)))),
            r is Ok ==> old(self)@ == SessionState::Running,
            r matches Err(e) ==> e == PlotError::BrokenPipe || e == PlotError::EncodingFailure,
    {
        if self.state != SessionState::Running {
            return Err(PlotError::BrokenPipe);
        }
        let p = msgpack(fig)?;
        Ok(script_line(evaluate_statement(p.as_str())))
    }

    /// The line that runs `script` in the process, refused unless it is running.
    pub fn exec(&self, script: &str) -> (r: Result<String, PlotError>)
        ensures
            self@ == SessionState::Running ==> (r matches Ok(text) && text@ == line(script@)),
            self@ != SessionState::Running ==> r == Err::<String, PlotError>(PlotError::BrokenPipe),
    {
        if self.state != SessionState::Running {
            return Err(PlotError::BrokenPipe);
        }
        Ok(script_line(script.to_owned()))
    }

    /// Records the outcome of writing to the process. A failed write means
    /// the process is gone: later statements are refused.
    pub fn written(&mut self, ok: bool) -> (r: Result<(), PlotError>)
        ensures
            ok ==> r is Ok && final(self)@ == old(self)@,
            !ok ==> r == Err::<(), PlotError>(PlotError::BrokenPipe),
            !ok && old(self)@ == SessionState::Running ==> final(self)@ == SessionState::Broken,
            !ok && old(self)@ != SessionState::Running ==> final(self)@ == old(self)@,
    {
        if ok {
            return Ok(());
        }
        if self.state == SessionState::Running {
            self.state = SessionState::Broken;
        }
        Err(PlotError::BrokenPipe)
    }

    /// Ends the session; the result says whether a process has to be waited for.
    pub fn close(&mut self) -> (r: bool)
        ensures
            r == (old(self)@ == SessionState::Running || old(self)@ == SessionState::Broken),
            final(self)@ == if old(self)@ == SessionState::NotStarted {
                SessionState::NotStarted
            } else {
                SessionState::Closed
            },
    {
        match self.state {
            SessionState::NotStarted => false,
            SessionState::Closed => false,
            _ => {
                self.state = SessionState::Closed;
                true
            },
        }
    }

    /// Whether teardown has to kill a process that nobody waited for.
    pub fn must_kill(&self) -> (r: bool)
        ensures
            r == (self@ == SessionState::Running || self@ == SessionState::Broken),
    {
        self.state == SessionState::Running || self.state == SessionState::Broken
    }
}

} // verus!
