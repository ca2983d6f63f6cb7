//! The errors of the window manager and the report that is printed of them.
use vstd::prelude::*;

verus! {

/// An error of the window manager. The failures of outside services are held
/// by their message; an error raised in a context carries the error that
/// caused it.
#[derive(Debug, PartialEq, Eq)]
pub enum Error {
    /// A message of the window manager's own.
    Msg(String),
    /// A failure of the connection to the X server.
    Xcb(String),
    /// A failure to install the logger.
    Fern(String),
    /// A failure of input or output.
    Io(String),
    /// An error explained by a message, with the error that caused it.
    Chained(String, Box<Error>),
}

/// The message of an error, without the errors that caused it.
pub open spec fn message_of(e: Error) -> Seq<char> {
    match e {
        Error::Msg(m) => m@,
        Error::Xcb(m) => m@,
        Error::Fern(m) => m@,
        Error::Io(m) => m@,
        Error::Chained(m, _) => m@,
    }
}

/// The messages of an error and of each error that caused it, outermost
/// first.
pub open spec fn chain_of(e: Error) -> Seq<Seq<char>>
    decreases e,
{
    match e {
        Error::Chained(m, cause) => seq![m@] + chain_of(*cause),
        _ => seq![message_of(e)],
    }
}

/// The lines that report an error: `error: ` and its message, then
/// `caused by: ` and the message of each error down the chain of causes.
pub open spec fn report_of(e: Error) -> Seq<Seq<char>> {
    let chain = chain_of(e);
    Seq::new(
        chain.len(),
        |i: int|
            if i == 0 {
                "error: "@ + chain[i]
            } else {
                "caused by: "@ + chain[i]
            },
    )
}

/// An error's report has one line per error in its chain: the first says
/// `error: ` and the error's own message; every later one says `caused by: `
/// and the message of the cause at that depth.
pub proof fn lemma_report_lines(e: Error)
    ensures
        report_of(e).len() == chain_of(e).len(),
        chain_of(e).len() >= 1,
        chain_of(e)[0] == message_of(e),
        report_of(e)[0] == "error: "@ + message_of(e),
        forall|i: int|
            1 <= i < report_of(e).len() ==> #[trigger] report_of(e)[i] == "caused by: "@ + chain_of(
                e,
            )[i],
{
}

/// An error explained by a message reports that message first, then the
/// whole chain of the error it explains.
pub proof fn lemma_chain_err_prepends(e: Error, context: String)
    ensures
        chain_of(Error::Chained(context, Box::new(e))) == seq![context@] + chain_of(e),
{
}

impl Error {
    /// The message of this error, without the errors that caused it.
    pub fn message(&self) -> (m: String)
        ensures
            m@ == message_of(*self),
    {
        match self {
            Error::Msg(m) => m.clone(),
            Error::Xcb(m) => m.clone(),
            Error::Fern(m) => m.clone(),
            Error::Io(m) => m.clone(),
            Error::Chained(m, _) => m.clone(),
        }
    }

    /// Explains this error by a message: the result has that message and
    /// this error as its cause.
    pub fn chain_err(self, context: String) -> (e: Error)
        ensures
            e == Error::Chained(context, Box::new(self)),
    {
        Error::Chained(context, Box::new(self))
    }

    /// The messages of this error and of each error that caused it,
    /// outermost first.
    pub fn chain(&self) -> (messages: Vec<String>)
        ensures
            messages@.len() == chain_of(*self).len(),
            forall|i: int| 0 <= i < messages@.len() ==> #[trigger] messages@[i]@ == chain_of(*self)[i],
        decreases self,
    {
        match self {
            Error::Chained(m, cause) => {
                let rest = cause.chain();
                let mut messages: Vec<String> = Vec::new();
                messages.push(m.clone());
                let mut i: usize = 0;
                while i < rest.len()
                    invariant
                        i <= rest@.len(),
                        messages@.len() == i + 1,
                        messages@[0]@ == m@,
                        forall|k: int| 0 <= k < i ==> #[trigger] messages@[k + 1]@ == rest@[k]@,
                    decreases rest.len() - i,
                {
                    messages.push(rest[i].clone());
                    i = i + 1;
                }
                proof {
                    let chain = chain_of(*self);
                    assert(chain == seq![m@] + chain_of(**cause));
                    assert forall|k: int| 0 <= k < messages@.len() implies #[trigger] messages@[k]@
                        == chain[k] by {
                        if k > 0 {
                            assert(messages@[(k - 1) + 1]@ == rest@[k - 1]@);
                        }
                    }
                }
                messages
            },
            _ => {
                let mut messages: Vec<String> = Vec::new();
                messages.push(self.message());
                messages
            },
        }
    }

    /// The lines that report this error: `error: ` and its message, then
    /// `caused by: ` and the message of each error that caused it.
    pub fn report(&self) -> (lines: Vec<String>)
        ensures
            lines@.len() == report_of(*self).len(),
            forall|i: int| 0 <= i < lines@.len() ==> #[trigger] lines@[i]@ == report_of(*self)[i],
            lines@.len() == chain_of(*self).len(),
            lines@[0]@ == "error: "@ + message_of(*self),
            forall|i: int|
                1 <= i < lines@.len() ==> #[trigger] lines@[i]@ == "caused by: "@ + chain_of(
                    *self,
                )[i],
    {
        let chain = self.chain();
        let mut lines: Vec<String> = Vec::new();
        let mut i: usize = 0;
        while i < chain.len()
            invariant
                i <= chain@.len(),
                chain@.len() == chain_of(*self).len(),
                forall|k: int| 0 <= k < chain@.len() ==> #[trigger] chain@[k]@ == chain_of(*self)[k],
                lines@.len() == i,
                forall|k: int| 0 <= k < i ==> #[trigger] lines@[k]@ == report_of(*self)[k],
            decreases chain.len() - i,
        {
            let head = if i == 0 {
                String::from_str("error: ")
            } else {
                String::from_str("caused by: ")
            };
            let line = head.concat(chain[i].as_str());
            lines.push(line);
            i = i + 1;
        }
        proof {
            lemma_report_lines(*self);
        }
        lines
    }
}

} // verus!
