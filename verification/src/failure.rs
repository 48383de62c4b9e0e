//! Which backend failures a reconnect may repair.

use vstd::prelude::*;
use crate::contracts::PersistenceError;

verus! {

/// SQLSTATE classes and codes of a server that is unreachable or restarting:
/// class `08` (connection exception), `57P01` (admin shutdown), `57P02`
/// (crash shutdown) and `57P03` (cannot connect now).
pub open spec fn transient_sqlstate(code: Seq<char>) -> bool {
    ||| (code.len() >= 2 && code[0] == '0' && code[1] == '8')
    ||| code == "57P01"@
    ||| code == "57P02"@
    ||| code == "57P03"@
}

/// Whether a PostgreSQL connect failure with this SQLSTATE is worth a
/// reconnect.
pub fn sqlstate_is_transient(code: &str) -> (r: bool)
    ensures
        r == transient_sqlstate(code@),
{
    proof {
        reveal_strlit("57P01");
        reveal_strlit("57P02");
        reveal_strlit("57P03");
    }
    let chars = crate::text::chars_of(code);
    if chars.len() >= 2 && chars[0] == '0' && chars[1] == '8' {
        return true;
    }
    if chars.len() != 5 || chars[0] != '5' || chars[1] != '7' || chars[2] != 'P' || chars[3] != '0' {
        assert(!(chars@ =~= "57P01"@) && !(chars@ =~= "57P02"@) && !(chars@ =~= "57P03"@));
        return false;
    }
    let last = chars[4];
    if last == '1' || last == '2' || last == '3' {
        assert(chars@ =~= "57P01"@ || chars@ =~= "57P02"@ || chars@ =~= "57P03"@);
        true
    } else {
        assert(!(chars@ =~= "57P01"@) && !(chars@ =~= "57P02"@) && !(chars@ =~= "57P03"@));
        false
    }
}

/// A failure described by `message`: a connection failure when a reconnect
/// may repair it, otherwise a commit failure.
pub fn classified_failure(message: String, transient: bool) -> (r: PersistenceError)
    ensures
        transient ==> r == PersistenceError::Connection(message),
        !transient ==> r == PersistenceError::Commit(message),
{
    if transient {
        PersistenceError::Connection(message)
    } else {
        PersistenceError::Commit(message)
    }
}

/// One link of a failure's chain of causes, as far as a reconnect decision
/// reads it.
#[derive(Clone, Copy, Debug, PartialEq, Eq, Structural)]
pub enum ErrorCause {
    /// A TLS failure: certificates and handshakes do not heal by retrying.
    Tls,
    /// An I/O failure of the transport.
    Io,
    /// Anything else.
    Other,
}

/// A cause chain without a TLS failure that holds at least one I/O failure.
pub open spec fn chain_is_transient(chain: Seq<ErrorCause>) -> bool {
    &&& forall|i: int| 0 <= i < chain.len() ==> chain[i] != ErrorCause::Tls
    &&& exists|i: int| 0 <= i < chain.len() && chain[i] == ErrorCause::Io
}

/// Whether a failure without a SQLSTATE is worth a reconnect, judged by the
/// types of its causes alone, never by their text: the first TLS cause
/// makes it permanent, and otherwise an I/O cause makes it transient.
pub fn error_source_is_transient(chain: &[ErrorCause]) -> (r: bool)
    ensures
        r == chain_is_transient(chain@),
{
    let mut has_io_error = false;
    let mut i: usize = 0;
    while i < chain.len()
        invariant
            i <= chain@.len(),
            forall|j: int| 0 <= j < i ==> chain@[j] != ErrorCause::Tls,
            has_io_error <==> exists|j: int| 0 <= j < i && chain@[j] == ErrorCause::Io,
        decreases chain@.len() - i,
    {
        match chain[i] {
            ErrorCause::Tls => {
                return false;
            },
            ErrorCause::Io => {
                has_io_error = true;
            },
            ErrorCause::Other => {},
        }
        i = i + 1;
    }
    has_io_error
}

} // verus!
