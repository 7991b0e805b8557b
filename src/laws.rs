use vstd::prelude::*;

use crate::config::{or_default, resolution, AlgConfig, ArgValues, RawArgs};
use crate::decimal::{decimal_text, decimal_u32, is_digit, lemma_decimal_round_trip};
use crate::delta::is_positive_finite;
use crate::delta_mode::{delta_mode_of, lemma_label_round_trip, DeltaMode};
use crate::error::{ErrorKind, Field};

verus! {

/// Arguments spelled from legal values resolve, once the transport is
/// accepted, to a configuration holding exactly those values, paired with
/// the transport name as given.
pub proof fn lemma_valid_arguments_round_trip(v: ArgValues, window: u32, bits: u64, mode: DeltaMode)
    requires
        v.init_cwnd@ == decimal_text(window as nat),
        is_positive_finite(bits),
        v.delta_mode@ == mode.spec_label(),
    ensures
        resolution(v, true, Some(bits)) == Ok::<(AlgConfig, Seq<char>), (ErrorKind, Field, Seq<char>)>(
            (
                AlgConfig {
                    initial_window_bytes: window,
                    default_delta_bits: bits,
                    delta_mode: mode,
                },
                v.ipc@,
            ),
        ),
{
    lemma_decimal_round_trip(window);
    lemma_label_round_trip(mode);
}

/// An init_cwnd holding any character that is not a decimal digit fails
/// with `InvalidInteger`, and no configuration comes out.
pub proof fn lemma_non_digit_window_fails(v: ArgValues, delta: Option<u64>, i: int)
    requires
        0 <= i < v.init_cwnd@.len(),
        !is_digit(v.init_cwnd@[i]),
    ensures
        resolution(v, true, delta) == Err::<(AlgConfig, Seq<char>), (ErrorKind, Field, Seq<char>)>(
            (ErrorKind::InvalidInteger, Field::InitCwnd, v.init_cwnd@),
        ),
{
}

/// A default_delta that does not read as a number fails with `InvalidFloat`
/// once the flags checked before it have passed.
pub proof fn lemma_unreadable_delta_fails(v: ArgValues)
    requires
        decimal_u32(v.init_cwnd@) is Some,
    ensures
        resolution(v, true, None) == Err::<(AlgConfig, Seq<char>), (ErrorKind, Field, Seq<char>)>(
            (ErrorKind::InvalidFloat, Field::DefaultDelta, v.default_delta@),
        ),
{
}

/// A delta_mode other than exactly "NoCrossTraffic" or "Auto" (case
/// included) fails with `UnknownVariant` once the flags checked before it
/// have passed.
pub proof fn lemma_unknown_mode_fails(v: ArgValues, bits: u64)
    requires
        decimal_u32(v.init_cwnd@) is Some,
        is_positive_finite(bits),
        v.delta_mode@ != "NoCrossTraffic"@,
        v.delta_mode@ != "Auto"@,
    ensures
        resolution(v, true, Some(bits)) == Err::<(AlgConfig, Seq<char>), (ErrorKind, Field, Seq<char>)>(
            (ErrorKind::UnknownVariant, Field::DeltaMode, v.delta_mode@),
        ),
{
}

/// A flag left out takes its documented default: the transport "unix",
/// the window 0, the delta text "0.5" and the mode `Auto`.
pub proof fn lemma_omitted_flags_take_defaults(
    raw: RawArgs,
    v: ArgValues,
    transport_ok: bool,
    delta: Option<u64>,
)
    requires
        v.ipc@ == or_default(raw.ipc, "unix"@),
        v.init_cwnd@ == or_default(raw.init_cwnd, "0"@),
        v.default_delta@ == or_default(raw.default_delta, "0.5"@),
        v.delta_mode@ == or_default(raw.delta_mode, "Auto"@),
    ensures
        raw.ipc is None ==> v.ipc@ == "unix"@,
        raw.ipc is None && resolution(v, transport_ok, delta) is Ok ==> resolution(
            v,
            transport_ok,
            delta,
        )->Ok_0.1 == "unix"@,
        raw.init_cwnd is None ==> decimal_u32(v.init_cwnd@) == Some(0u32),
        raw.init_cwnd is None && resolution(v, transport_ok, delta) is Ok ==> resolution(
            v,
            transport_ok,
            delta,
        )->Ok_0.0.initial_window_bytes == 0,
        raw.default_delta is None ==> v.default_delta@ == "0.5"@,
        raw.delta_mode is None ==> delta_mode_of(v.delta_mode@) == Some(DeltaMode::Auto),
        raw.delta_mode is None && resolution(v, transport_ok, delta) is Ok ==> resolution(
            v,
            transport_ok,
            delta,
        )->Ok_0.0.delta_mode == DeltaMode::Auto,
{
    lemma_decimal_round_trip(0);
    reveal_strlit("0");
    assert(decimal_text(0) =~= "0"@);
    lemma_label_round_trip(DeltaMode::Auto);
}

} // verus!
