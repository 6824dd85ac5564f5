use rustplotlib::backend::PRELUDE;
use rustplotlib::pyexpr::to_pyvec;
use rustplotlib::{msgpack, Axes2D, Backend, Figure, MatplotlibFile, PlotError, Scatter, Session, SessionState, Subplots};

fn one_point_figure() -> Figure {
    let s = Scatter::new("p").data(vec![1.0f64.to_bits()], vec![2.0f64.to_bits()]).unwrap();
    Figure::new().subplots(Subplots::new(1, 1).at(0, Axes2D::new().add(s.into())).unwrap())
}

#[test]
fn batch_file_of_empty_figure_holds_prelude_and_absent_grid() {
    let mut file = MatplotlibFile::new("out.py");
    file.evaluate(&Figure::new()).unwrap();
    let expected = format!("{}\nfig = evaluate(r\"kcA=\")\n", PRELUDE);
    assert_eq!(file.contents(), expected);
    assert_eq!(file.path(), "out.py");
}

#[test]
fn batch_file_without_figure_holds_prelude_only() {
    let file = MatplotlibFile::new("out.py");
    assert_eq!(file.contents(), format!("{}\n", PRELUDE));
}

#[test]
fn batch_file_keeps_only_the_last_figure() {
    let mut file = MatplotlibFile::new("out.py");
    file.evaluate(&one_point_figure()).unwrap();
    file.evaluate(&Figure::new()).unwrap();
    let expected = format!("{}\nfig = evaluate(r\"kcA=\")\n", PRELUDE);
    assert_eq!(file.contents(), expected);

    let mut other = MatplotlibFile::new("out.py");
    other.evaluate(&Figure::new()).unwrap();
    other.evaluate(&one_point_figure()).unwrap();
    let payload = msgpack(&one_point_figure()).unwrap();
    assert_ne!(payload, "kcA=");
    let expected = format!("{}\nfig = evaluate(r\"{}\")\n", PRELUDE, payload);
    assert_eq!(other.contents(), expected);
}

#[test]
fn spawn_failure_keeps_no_process() {
    let mut session = Session::new();
    assert_eq!(session.started(false), Err(PlotError::SpawnFailure));
    assert_eq!(session.state(), SessionState::NotStarted);
    assert!(!session.must_kill());
    assert_eq!(session.evaluate(&Figure::new()), Err(PlotError::BrokenPipe));
    assert!(!session.close());
}

#[test]
fn running_session_sends_prelude_then_statements() {
    let mut session = Session::new();
    assert_eq!(session.started(true).unwrap(), format!("{}\n", PRELUDE));
    assert_eq!(session.state(), SessionState::Running);
    let line = session.evaluate(&Figure::new()).unwrap();
    assert_eq!(line, "fig = evaluate(r\"kcA=\")\n");
    assert_eq!(session.written(true), Ok(()));
    assert!(session.must_kill());
    assert!(session.close());
    assert_eq!(session.state(), SessionState::Closed);
    assert!(!session.must_kill());
    assert_eq!(session.evaluate(&Figure::new()), Err(PlotError::BrokenPipe));
}

#[test]
fn failed_write_breaks_the_session() {
    let mut session = Session::new();
    session.started(true).unwrap();
    assert_eq!(session.written(false), Err(PlotError::BrokenPipe));
    assert_eq!(session.state(), SessionState::Broken);
    assert_eq!(session.evaluate(&one_point_figure()), Err(PlotError::BrokenPipe));
    assert!(session.must_kill());
    assert!(session.close());
    assert_eq!(session.state(), SessionState::Closed);
}

#[test]
fn python_list_literal_of_flags() {
    assert_eq!(to_pyvec(&[true, false, true]), "[True,False,True]");
    assert_eq!(to_pyvec::<bool>(&[]), "[]");
    assert_eq!(to_pyvec(&[false]), "[False]");
}

#[test]
fn pickle_script_names_the_file() {
    let s = rustplotlib::backend::dump_pickle_script("fig.pkl");
    assert_eq!(s, "import pickle as pl\npl.dump(plt.gcf(), open('fig.pkl', 'wb'))");
}

#[test]
fn scripts_run_only_while_the_process_runs() {
    let mut session = Session::new();
    assert_eq!(session.exec("plt.show()"), Err(PlotError::BrokenPipe));
    session.started(true).unwrap();
    assert_eq!(session.exec("plt.show()").unwrap(), "plt.show()\n");
    session.close();
    assert_eq!(session.exec("plt.show()"), Err(PlotError::BrokenPipe));
}
