//! Error taxonomy shared by every probe path, and the fixed mapping from a
//! failure kind to the interactive process exit code.

use vstd::prelude::*;

verus! {

/// Why a probe attempt or a command failed.
///
/// Every variant carries the message that the presentation layer renders.
/// `Usage` is reported before any network activity; the others describe one
/// failed probe attempt.
#[derive(Debug)]
pub enum RkikError {
    /// Resolution produced no usable address.
    Dns(String),
    /// Transport-level failure, including transient connectivity issues.
    Network(String),
    /// The attempt exceeded its time budget.
    Timeout(String),
    /// Malformed or inconsistent protocol response.
    Protocol(String),
    /// Authenticated (NTS) handshake or validation failure.
    Nts(String),
    /// Contradictory flags or arguments, detected before probing.
    Usage(String),
    /// Anything else, including target strings that do not parse.
    Other(String),
}

/// Two errors are of the same kind and carry the same message.
pub open spec fn same_error(a: RkikError, b: RkikError) -> bool {
    match (a, b) {
        (RkikError::Dns(m), RkikError::Dns(n)) => m@ == n@,
        (RkikError::Network(m), RkikError::Network(n)) => m@ == n@,
        (RkikError::Timeout(m), RkikError::Timeout(n)) => m@ == n@,
        (RkikError::Protocol(m), RkikError::Protocol(n)) => m@ == n@,
        (RkikError::Nts(m), RkikError::Nts(n)) => m@ == n@,
        (RkikError::Usage(m), RkikError::Usage(n)) => m@ == n@,
        (RkikError::Other(m), RkikError::Other(n)) => m@ == n@,
        _ => false,
    }
}

impl Clone for RkikError {
    fn clone(&self) -> (r: Self)
        ensures
            same_error(r, *self),
    {
        match self {
            RkikError::Dns(m) => RkikError::Dns(m.clone()),
            RkikError::Network(m) => RkikError::Network(m.clone()),
            RkikError::Timeout(m) => RkikError::Timeout(m.clone()),
            RkikError::Protocol(m) => RkikError::Protocol(m.clone()),
            RkikError::Nts(m) => RkikError::Nts(m.clone()),
            RkikError::Usage(m) => RkikError::Usage(m.clone()),
            RkikError::Other(m) => RkikError::Other(m.clone()),
        }
    }
}

impl RkikError {
    /// The message text carried by the error, without its kind prefix.
    pub open spec fn spec_message(&self) -> Seq<char> {
        match self {
            RkikError::Dns(m) => m@,
            RkikError::Network(m) => m@,
            RkikError::Timeout(m) => m@,
            RkikError::Protocol(m) => m@,
            RkikError::Nts(m) => m@,
            RkikError::Usage(m) => m@,
            RkikError::Other(m) => m@,
        }
    }

    /// Exit code of an interactive (non-plugin) run that ends with this
    /// error: DNS failures exit 2, timeouts exit 3, everything else 1.
    pub fn exit_code(&self) -> (code: i32)
        ensures
            code == self.spec_exit_code(),
    {
        match self {
            RkikError::Dns(_) => 2,
            RkikError::Timeout(_) => 3,
            _ => 1,
        }
    }

    /// Specification of [`Self::exit_code`].
    pub open spec fn spec_exit_code(&self) -> int {
        match self {
            RkikError::Dns(_) => 2,
            RkikError::Timeout(_) => 3,
            _ => 1,
        }
    }

    /// Render the error as `kind: message`, the shape printed after
    /// `Error: `.
    pub fn message(&self) -> (r: String)
        ensures
            r@ == self.spec_kind_prefix() + self.spec_message(),
    {
        let (prefix, m): (&str, &String) = match self {
            RkikError::Dns(m) => ("dns: ", m),
            RkikError::Network(m) => ("network: ", m),
            RkikError::Timeout(m) => ("timeout: ", m),
            RkikError::Protocol(m) => ("protocol: ", m),
            RkikError::Nts(m) => ("nts: ", m),
            RkikError::Usage(m) => ("usage: ", m),
            RkikError::Other(m) => ("other: ", m),
        };
        let mut out = prefix.to_owned();
        out.append(m.as_str());
        out
    }

    /// The `kind: ` prefix used by [`Self::message`].
    pub open spec fn spec_kind_prefix(&self) -> Seq<char> {
        match self {
            RkikError::Dns(_) => "dns: "@,
            RkikError::Network(_) => "network: "@,
            RkikError::Timeout(_) => "timeout: "@,
            RkikError::Protocol(_) => "protocol: "@,
            RkikError::Nts(_) => "nts: "@,
            RkikError::Usage(_) => "usage: "@,
            RkikError::Other(_) => "other: "@,
        }
    }

    /// True of the variants that a usage check produces.
    pub open spec fn is_usage(&self) -> bool {
        self matches RkikError::Usage(_)
    }
}

/// Exit code of a run that was stopped by a usage error before any probing.
pub fn usage_exit_code() -> (code: i32)
    ensures
        code == 2,
{
    2
}

} // verus!
