use rx3wm::errors::Error;
use rx3wm::window_system::{initialized, run, WindowSystem};
use std::sync::atomic::{AtomicUsize, Ordering};

static GOOD_INITS: AtomicUsize = AtomicUsize::new(0);
static BAD_INITS: AtomicUsize = AtomicUsize::new(0);

struct Good;
impl WindowSystem for Good {
    fn initialize() -> Result<Good, Error> {
        GOOD_INITS.fetch_add(1, Ordering::SeqCst);
        Ok(Good)
    }
    fn run(&self) -> Result<(), Error> {
        Ok(())
    }
    fn stop(&self) {}
}

struct Failing;
impl WindowSystem for Failing {
    fn initialize() -> Result<Failing, Error> {
        BAD_INITS.fetch_add(1, Ordering::SeqCst);
        Err(Error::Xcb("no display".to_string()))
    }
    fn run(&self) -> Result<(), Error> {
        Ok(())
    }
    fn stop(&self) {}
}

struct Crashing;
impl WindowSystem for Crashing {
    fn initialize() -> Result<Crashing, Error> {
        Ok(Crashing)
    }
    fn run(&self) -> Result<(), Error> {
        Err(Error::Io("lost".to_string()))
    }
    fn stop(&self) {}
}

#[test]
fn logger_failure_is_returned_before_any_backend() {
    let before = BAD_INITS.load(Ordering::SeqCst);
    let r = run::<Failing>(Err(Error::Fern("logger already set".to_string())));
    assert_eq!(r, Err(Error::Fern("logger already set".to_string())));
    assert_eq!(BAD_INITS.load(Ordering::SeqCst), before);
}

#[test]
fn backend_failure_is_explained() {
    let r = run::<Failing>(Ok(()));
    assert_eq!(
        r,
        Err(Error::Chained(
            "unable to initialize Window System".to_string(),
            Box::new(Error::Xcb("no display".to_string()))
        ))
    );
}

#[test]
fn working_backend_runs() {
    let before = GOOD_INITS.load(Ordering::SeqCst);
    assert_eq!(run::<Good>(Ok(())), Ok(()));
    assert_eq!(GOOD_INITS.load(Ordering::SeqCst), before + 1);
}

#[test]
fn failure_of_the_run_is_returned() {
    assert_eq!(run::<Crashing>(Ok(())), Err(Error::Io("lost".to_string())));
}

#[test]
fn initialized_keeps_a_backend() {
    assert!(initialized(Good::initialize()).is_ok());
    let e = initialized::<Good>(Err(Error::Msg("x".to_string())));
    assert_eq!(e.err().unwrap().report()[0], "error: unable to initialize Window System");
}
