use copa_setup::{
    check_delta, parse_decimal_u32, resolve, resolve_with, AlgConfig, ArgValues, DeltaMode,
    ErrorKind, Field, RawArgs, ResolutionError,
};

fn raw(ipc: Option<&str>, cwnd: Option<&str>, delta: Option<&str>, mode: Option<&str>) -> RawArgs {
    RawArgs {
        ipc: ipc.map(String::from),
        init_cwnd: cwnd.map(String::from),
        default_delta: delta.map(String::from),
        delta_mode: mode.map(String::from),
    }
}

fn float_bits(text: &str) -> Option<u64> {
    text.parse::<f64>().ok().map(f64::to_bits)
}

fn run(args: RawArgs) -> Result<(AlgConfig, String), ResolutionError> {
    let values = args.with_defaults();
    let delta = float_bits(&values.default_delta);
    resolve(&values, delta)
}

fn expect_error(r: Result<(AlgConfig, String), ResolutionError>, kind: ErrorKind, field: Field, value: &str) {
    let e = r.expect_err("resolution should fail");
    assert_eq!(e.kind, kind);
    assert_eq!(e.field, field);
    assert_eq!(e.value, value);
}

#[test]
fn full_arguments_resolve() {
    let (cfg, ipc) = run(raw(Some("unix"), Some("4096"), Some("0.5"), Some("Auto"))).unwrap();
    assert_eq!(cfg.initial_window_bytes, 4096);
    assert_eq!(f64::from_bits(cfg.default_delta_bits), 0.5);
    assert_eq!(cfg.delta_mode, DeltaMode::Auto);
    assert_eq!(ipc, "unix");
}

#[test]
fn zero_window_keeps_datapath_default() {
    let (cfg, ipc) = run(raw(None, Some("0"), None, None)).unwrap();
    assert_eq!(cfg.initial_window_bytes, 0);
    assert_eq!(ipc, "unix");
}

#[test]
fn manual_mode_is_unknown_variant() {
    expect_error(run(raw(None, None, None, Some("Manual"))), ErrorKind::UnknownVariant, Field::DeltaMode, "Manual");
}

#[test]
fn delta_word_is_invalid_float() {
    let e = run(raw(None, None, Some("zero"), None)).unwrap_err();
    assert_eq!(e.kind, ErrorKind::InvalidFloat);
    assert_eq!(e.field.name(), "default_delta");
    assert_eq!(e.value, "zero");
}

#[test]
fn unknown_transport_is_refused() {
    expect_error(
        run(raw(Some("invalid-transport"), None, None, None)),
        ErrorKind::InvalidTransport,
        Field::Ipc,
        "invalid-transport",
    );
}

#[test]
fn unknown_transport_fails_before_other_fields() {
    expect_error(
        run(raw(Some("tcp"), Some("x"), Some("y"), Some("z"))),
        ErrorKind::InvalidTransport,
        Field::Ipc,
        "tcp",
    );
}

#[test]
fn legal_tuples_round_trip() {
    for (cwnd, window, delta, mode, label) in [
        ("1", 1u32, "0.125", DeltaMode::NoCrossTraffic, "NoCrossTraffic"),
        ("15000", 15000, "2", DeltaMode::Auto, "Auto"),
        ("4294967295", u32::MAX, "1e-300", DeltaMode::Auto, "Auto"),
    ] {
        let (cfg, ipc) = run(raw(Some("unix"), Some(cwnd), Some(delta), Some(label))).unwrap();
        assert_eq!(
            cfg,
            AlgConfig {
                initial_window_bytes: window,
                default_delta_bits: delta.parse::<f64>().unwrap().to_bits(),
                delta_mode: mode,
            }
        );
        assert_eq!(ipc, "unix");
        assert_eq!(cfg.delta_mode.label(), label);
    }
}

#[test]
fn non_digit_window_is_invalid_integer() {
    for text in ["12a", "-5", "+5", " 5", "5 ", "1_000", "0x10", ""] {
        expect_error(run(raw(None, Some(text), None, None)), ErrorKind::InvalidInteger, Field::InitCwnd, text);
    }
}

#[test]
fn window_too_large_is_invalid_integer() {
    expect_error(
        run(raw(None, Some("4294967296"), None, None)),
        ErrorKind::InvalidInteger,
        Field::InitCwnd,
        "4294967296",
    );
}

#[test]
fn unreadable_delta_is_invalid_float() {
    expect_error(run(raw(None, None, Some("abc"), None)), ErrorKind::InvalidFloat, Field::DefaultDelta, "abc");
}

#[test]
fn non_positive_or_infinite_delta_is_out_of_range() {
    for text in ["0", "0.0", "-0.0", "-1", "inf", "NaN"] {
        expect_error(run(raw(None, None, Some(text), None)), ErrorKind::OutOfRange, Field::DefaultDelta, text);
    }
}

#[test]
fn mode_labels_are_case_sensitive() {
    for text in ["auto", "AUTO", "nocrosstraffic", "NoTCP", ""] {
        expect_error(run(raw(None, None, None, Some(text))), ErrorKind::UnknownVariant, Field::DeltaMode, text);
    }
}

#[test]
fn omitted_flags_take_defaults() {
    let values = raw(None, None, None, None).with_defaults();
    assert_eq!(values.ipc, "unix");
    assert_eq!(values.init_cwnd, "0");
    assert_eq!(values.default_delta, "0.5");
    assert_eq!(values.delta_mode, "Auto");
    let (cfg, ipc) = run(raw(None, None, None, None)).unwrap();
    assert_eq!(cfg.initial_window_bytes, 0);
    assert_eq!(f64::from_bits(cfg.default_delta_bits), 0.5);
    assert_eq!(cfg.delta_mode, DeltaMode::Auto);
    assert_eq!(ipc, "unix");
}

#[test]
fn given_flags_replace_defaults() {
    let values = raw(Some("netlink"), Some("10"), Some("0.1"), Some("NoCrossTraffic")).with_defaults();
    assert_eq!(values.ipc, "netlink");
    assert_eq!(values.init_cwnd, "10");
    assert_eq!(values.default_delta, "0.1");
    assert_eq!(values.delta_mode, "NoCrossTraffic");
}

#[test]
fn first_failure_wins() {
    expect_error(
        run(raw(None, Some("x"), Some("y"), Some("z"))),
        ErrorKind::InvalidInteger,
        Field::InitCwnd,
        "x",
    );
    expect_error(run(raw(None, None, Some("y"), Some("z"))), ErrorKind::InvalidFloat, Field::DefaultDelta, "y");
}

#[test]
fn resolve_with_takes_the_verdicts_given() {
    let values = ArgValues {
        ipc: String::from("char"),
        init_cwnd: String::from("7"),
        default_delta: String::from("0.5"),
        delta_mode: String::from("Auto"),
    };
    let (cfg, ipc) = resolve_with(&values, true, Some(1)).unwrap();
    assert_eq!(cfg, AlgConfig { initial_window_bytes: 7, default_delta_bits: 1, delta_mode: DeltaMode::Auto });
    assert_eq!(ipc, "char");
    let e = resolve_with(&values, false, Some(1)).unwrap_err();
    assert_eq!(e.kind, ErrorKind::InvalidTransport);
    let e = resolve_with(&values, true, None).unwrap_err();
    assert_eq!(e.kind, ErrorKind::InvalidFloat);
}

#[test]
fn delta_check_by_encoding() {
    assert_eq!(check_delta("x", Some(0x3FE0_0000_0000_0000)).unwrap(), 0x3FE0_0000_0000_0000);
    assert_eq!(check_delta("x", Some(0x7FEF_FFFF_FFFF_FFFF)).unwrap(), 0x7FEF_FFFF_FFFF_FFFF);
    assert_eq!(check_delta("x", Some(0x7FF0_0000_0000_0000)).unwrap_err().kind, ErrorKind::OutOfRange);
    assert_eq!(check_delta("x", Some(0)).unwrap_err().kind, ErrorKind::OutOfRange);
    assert_eq!(check_delta("x", Some(0x8000_0000_0000_0001)).unwrap_err().kind, ErrorKind::OutOfRange);
    assert_eq!(check_delta("x", None).unwrap_err().kind, ErrorKind::InvalidFloat);
}

#[test]
fn decimal_reading() {
    assert_eq!(parse_decimal_u32("4096"), Some(4096));
    assert_eq!(parse_decimal_u32("007"), Some(7));
    assert_eq!(parse_decimal_u32("4294967295"), Some(u32::MAX));
    assert_eq!(parse_decimal_u32("99999999999999999999"), None);
    assert_eq!(parse_decimal_u32(""), None);
    assert_eq!(parse_decimal_u32("٣"), None);
}

#[test]
fn mode_labels_and_field_names() {
    assert_eq!(DeltaMode::resolve("NoCrossTraffic").unwrap(), DeltaMode::NoCrossTraffic);
    assert_eq!(DeltaMode::resolve("Auto").unwrap(), DeltaMode::Auto);
    assert_eq!(DeltaMode::NoCrossTraffic.label(), "NoCrossTraffic");
    assert_eq!(Field::Ipc.name(), "ipc");
    assert_eq!(Field::InitCwnd.name(), "init_cwnd");
    assert_eq!(Field::DeltaMode.name(), "delta_mode");
}
