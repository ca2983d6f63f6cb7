//! The display backends and the start of the window manager.
use vstd::prelude::*;
use crate::errors::Error;

verus! {

/// A display backend that the window manager runs on.
pub trait WindowSystem: Sized {
    /// Connects to the display and sets the backend up.
    fn initialize() -> Result<Self, Error>;

    /// Runs the backend.
    fn run(&self) -> Result<(), Error>;

    /// Stops the backend.
    fn stop(&self);
}

/// Prefixes a failure to set up the backend with the message that says so;
/// a backend that was set up is handed on unchanged.
pub fn initialized<W: WindowSystem>(init: Result<W, Error>) -> (r: Result<W, Error>)
    ensures
        init is Ok ==> r == init,
        init matches Err(e) ==> r matches Err(Error::Chained(m, cause)) && *cause == e && m@
            == "unable to initialize Window System"@,
{
    match init {
        Ok(backend) => Ok(backend),
        Err(e) => Err(e.chain_err(String::from_str("unable to initialize Window System"))),
    }
}

/// Starts the window manager on the backend `W`, given how the installation
/// of the logger went: a failed installation is returned as it is and no
/// backend is set up; otherwise the backend is initialized, a failure there
/// is returned explained by "unable to initialize Window System", and a
/// backend that was set up is run and what its run returns is returned.
pub fn run<W: WindowSystem>(logger: Result<(), Error>) -> (r: Result<(), Error>)
    ensures
        logger is Err ==> r == logger,
        logger is Ok ==> exists|init: Result<W, Error>|
            #[trigger] call_ensures(W::initialize, (), init) && (init matches Err(e) ==> (
            r matches Err(Error::Chained(m, cause)) && *cause == e && m@
                == "unable to initialize Window System"@)) && (init matches Ok(b)
                ==> call_ensures(W::run, (&b,), r)),
{
    match logger {
        Err(e) => Err(e),
        Ok(()) => {
            let backend = initialized(W::initialize());
            match backend {
                Ok(backend) => backend.run(),
                Err(e) => Err(e),
            }
        },
    }
}

} // verus!
