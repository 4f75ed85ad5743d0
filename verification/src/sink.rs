//! Selection of the standard-output sink.
//!
//! A caller who does not name an output file gets standard output, wrapped in
//! the terminal-safe writer; if standard output is an interactive terminal and
//! the caller forbids that, the selection fails before anything is written.

use vstd::prelude::*;
use crate::errors::SinkError;
use crate::writer::StdoutWriter;
use crate::writer::WriterView;

verus! {

/// Relies on `console::user_attended`: whether standard output is attended by
/// a user, that is, attached to an interactive terminal. The answer depends
/// on the environment, so nothing is promised of it.
#[verifier::external_body]
fn user_attended() -> bool {
    console::user_attended()
}

/// Decides the standard-output sink for a given interactivity answer:
/// refuses exactly when the destination is interactive and the caller forbade
/// that, and otherwise hands out a fresh terminal-safe writer carrying the
/// interactivity flag.
pub fn select_stdout_sink(is_tty: bool, deny_tty: bool) -> (r: Result<StdoutWriter, SinkError>)
    ensures
        r is Err <==> is_tty && deny_tty,
        match r {
            Ok(w) => w.wf() && w@ =~= (WriterView {
                is_tty: is_tty,
                count: 0,
                truncated: false,
                payload: Seq::<u8>::empty(),
            }),
            Err(e) => e == SinkError::InteractiveRefused,
        },
{
    if is_tty && deny_tty {
        Err(SinkError::InteractiveRefused)
    } else {
        Ok(StdoutWriter::new(is_tty))
    }
}

/// Queries the environment once for interactivity and then selects the
/// standard-output sink. Whatever the query answers, a refusal can only
/// happen when the caller forbade interactive output, and a fresh writer
/// comes back otherwise.
pub fn open_stdout_sink(deny_tty: bool) -> (r: Result<StdoutWriter, SinkError>)
    ensures
        match r {
            Ok(w) => w.wf() && w@.count == 0 && !w@.truncated && w@.payload
                =~= Seq::<u8>::empty(),
            Err(e) => e == SinkError::InteractiveRefused && deny_tty,
        },
        !deny_tty ==> r is Ok,
{
    let is_tty = user_attended();
    select_stdout_sink(is_tty, deny_tty)
}

} // verus!
