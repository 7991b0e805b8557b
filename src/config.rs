use vstd::prelude::*;

use crate::decimal::{decimal_u32, parse_decimal_u32};
use crate::delta::{check_delta, delta_outcome, is_positive_finite};
use crate::delta_mode::{delta_mode_of, DeltaMode};
use crate::error::{ErrorKind, Field, ResolutionError};
use crate::transport::{known_transport, transport_is_valid};

verus! {

/// Everything the algorithm needs when the runtime builds an instance of it.
/// It is never changed once built.
#[derive(Clone, Copy, Debug, PartialEq, Eq, Structural)]
pub struct AlgConfig {
    /// Initial congestion window in bytes; zero leaves the datapath's default.
    pub initial_window_bytes: u32,
    /// The throughput/delay tradeoff used outside adaptive sensing, as its
    /// IEEE 754 binary64 encoding (`f64::from_bits` gives the number).
    pub default_delta_bits: u64,
    /// How competing traffic is treated.
    pub delta_mode: DeltaMode,
}

/// The flags as given; `None` where a flag was left out.
#[derive(Clone, Debug)]
pub struct RawArgs {
    pub ipc: Option<String>,
    pub init_cwnd: Option<String>,
    pub default_delta: Option<String>,
    pub delta_mode: Option<String>,
}

/// The text of every flag, with defaults in place of those left out.
#[derive(Clone, Debug)]
pub struct ArgValues {
    pub ipc: String,
    pub init_cwnd: String,
    pub default_delta: String,
    pub delta_mode: String,
}

/// The given text, or `default` when there is none.
pub open spec fn or_default(given: Option<String>, default: Seq<char>) -> Seq<char> {
    match given {
        Some(s) => s@,
        None => default,
    }
}

/// What resolution yields, over views: the configuration and the transport
/// name, or the error's kind, flag and text. `transport_ok` is the runtime
/// validator's verdict on `v.ipc`, and `delta` the binary64 encoding read
/// from `v.default_delta` (`None` when it does not read as a number).
/// Flags are checked in the order ipc, init_cwnd, default_delta, delta_mode,
/// and the first failure is the result.
pub open spec fn resolution(v: ArgValues, transport_ok: bool, delta: Option<u64>) -> Result<
    (AlgConfig, Seq<char>),
    (ErrorKind, Field, Seq<char>),
> {
    if !transport_ok {
        Err((ErrorKind::InvalidTransport, Field::Ipc, v.ipc@))
    } else {
        match decimal_u32(v.init_cwnd@) {
            None => Err((ErrorKind::InvalidInteger, Field::InitCwnd, v.init_cwnd@)),
            Some(w) => match delta_outcome(v.default_delta@, delta) {
                Err(e) => Err(e),
                Ok(bits) => match delta_mode_of(v.delta_mode@) {
                    None => Err((ErrorKind::UnknownVariant, Field::DeltaMode, v.delta_mode@)),
                    Some(m) => Ok(
                        (
                            AlgConfig {
                                initial_window_bytes: w,
                                default_delta_bits: bits,
                                delta_mode: m,
                            },
                            v.ipc@,
                        ),
                    ),
                },
            },
        }
    }
}

/// A resolver result seen through the views of its parts.
pub open spec fn outcome_of(r: Result<(AlgConfig, String), ResolutionError>) -> Result<
    (AlgConfig, Seq<char>),
    (ErrorKind, Field, Seq<char>),
> {
    match r {
        Ok((c, t)) => Ok((c, t@)),
        Err(e) => Err(e@),
    }
}

fn text_or(given: Option<String>, default: &str) -> (r: String)
    ensures
        r@ == or_default(given, default@),
{
    match given {
        Some(s) => s,
        None => default.to_owned(),
    }
}

impl RawArgs {
    /// Fills in the documented default of each flag left out: ipc "unix",
    /// init_cwnd "0", default_delta "0.5", delta_mode "Auto".
    pub fn with_defaults(self) -> (r: ArgValues)
        ensures
            r.ipc@ == or_default(self.ipc, "unix"@),
            r.init_cwnd@ == or_default(self.init_cwnd, "0"@),
            r.default_delta@ == or_default(self.default_delta, "0.5"@),
            r.delta_mode@ == or_default(self.delta_mode, "Auto"@),
    {
        ArgValues {
            ipc: text_or(self.ipc, "unix"),
            init_cwnd: text_or(self.init_cwnd, "0"),
            default_delta: text_or(self.default_delta, "0.5"),
            delta_mode: text_or(self.delta_mode, "Auto"),
        }
    }
}

/// Resolves the flags given the transport validator's verdict on `v.ipc`
/// and the binary64 encoding read from `v.default_delta`.
pub fn resolve_with(v: &ArgValues, transport_ok: bool, delta: Option<u64>) -> (r: Result<
    (AlgConfig, String),
    ResolutionError,
>)
    ensures
        outcome_of(r) == resolution(*v, transport_ok, delta),
{
    if !transport_ok {
        return Err(ResolutionError::new(ErrorKind::InvalidTransport, Field::Ipc, v.ipc.as_str()));
    }
    let w = match parse_decimal_u32(v.init_cwnd.as_str()) {
        Some(w) => w,
        None => {
            return Err(
                ResolutionError::new(ErrorKind::InvalidInteger, Field::InitCwnd, v.init_cwnd.as_str()),
            );
        },
    };
    let bits = match check_delta(v.default_delta.as_str(), delta) {
        Ok(b) => b,
        Err(e) => {
            return Err(e);
        },
    };
    let m = match DeltaMode::resolve(v.delta_mode.as_str()) {
        Ok(m) => m,
        Err(e) => {
            return Err(e);
        },
    };
    let config = AlgConfig { initial_window_bytes: w, default_delta_bits: bits, delta_mode: m };
    Ok((config, v.ipc.clone()))
}

/// Resolves the flags, asking the runtime's validator about the transport.
/// `delta` is the binary64 encoding read from `v.default_delta`, `None` when
/// it does not read as a number. "unix" is accepted everywhere; a name other
/// than "netlink", "unix" and "char" is refused everywhere; whether "netlink"
/// and "char" are accepted depends on the platform.
pub fn resolve(v: &ArgValues, delta: Option<u64>) -> (r: Result<(AlgConfig, String), ResolutionError>)
    ensures
        outcome_of(r) == resolution(*v, true, delta) || outcome_of(r) == resolution(
            *v,
            false,
            delta,
        ),
        v.ipc@ == "unix"@ ==> outcome_of(r) == resolution(*v, true, delta),
        !known_transport(v.ipc@) ==> outcome_of(r) == resolution(*v, false, delta),
{
    let ok = transport_is_valid(v.ipc.as_str());
    resolve_with(v, ok, delta)
}

} // verus!
