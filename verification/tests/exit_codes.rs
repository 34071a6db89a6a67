use fulmen_catalogs::codec::decode_json;
use fulmen_catalogs::codec::encode_json;
use fulmen_catalogs::codec::Catalog;
use fulmen_catalogs::codec::DecodeError;
use fulmen_catalogs::exit_codes::ExitCode;

#[test]
fn exit_code_values_are_correct() {
    assert_eq!(ExitCode::Success.code(), 0);
    assert_eq!(ExitCode::Failure.code(), 1);
    assert_eq!(ExitCode::PortInUse.code(), 10);
    assert_eq!(ExitCode::ConfigInvalid.code(), 20);
}

#[test]
fn exit_code_display_is_meaningful() {
    let msg = ExitCode::Success.display_message();
    assert!(!msg.is_empty());
    assert!(msg.contains("Successful execution"));
}

#[test]
fn exit_code_category() {
    assert_eq!(ExitCode::Success.category(), "standard");
    assert_eq!(ExitCode::PortInUse.category(), "networking");
}

#[test]
fn exit_code_serialization() {
    let code = ExitCode::Success;
    let json = encode_json(code);
    assert_eq!(json, "\"Success\"");

    let deserialized: ExitCode = decode_json(&json).expect("should deserialize");
    assert_eq!(deserialized, ExitCode::Success);
}

const ALL_CODES: [ExitCode; 54] = [
    ExitCode::Success,
    ExitCode::Failure,
    ExitCode::PortInUse,
    ExitCode::PortRangeExhausted,
    ExitCode::InstanceAlreadyRunning,
    ExitCode::NetworkUnreachable,
    ExitCode::ConnectionRefused,
    ExitCode::ConnectionTimeout,
    ExitCode::ConfigInvalid,
    ExitCode::MissingDependency,
    ExitCode::SsotVersionMismatch,
    ExitCode::ConfigFileNotFound,
    ExitCode::EnvironmentInvalid,
    ExitCode::HealthCheckFailed,
    ExitCode::DatabaseUnavailable,
    ExitCode::ExternalServiceUnavailable,
    ExitCode::ResourceExhausted,
    ExitCode::OperationTimeout,
    ExitCode::InvalidArgument,
    ExitCode::MissingRequiredArgument,
    ExitCode::Usage,
    ExitCode::PermissionDenied,
    ExitCode::FileNotFound,
    ExitCode::DirectoryNotFound,
    ExitCode::FileReadError,
    ExitCode::FileWriteError,
    ExitCode::DataInvalid,
    ExitCode::ParseError,
    ExitCode::TransformationFailed,
    ExitCode::DataCorrupt,
    ExitCode::AuthenticationFailed,
    ExitCode::AuthorizationFailed,
    ExitCode::SecurityViolation,
    ExitCode::CertificateInvalid,
    ExitCode::MetricsUnavailable,
    ExitCode::TracingFailed,
    ExitCode::LoggingFailed,
    ExitCode::AlertSystemFailed,
    ExitCode::StructuredLoggingFailed,
    ExitCode::TestFailure,
    ExitCode::TestError,
    ExitCode::TestInterrupted,
    ExitCode::TestUsageError,
    ExitCode::TestNoTestsCollected,
    ExitCode::CoverageThresholdNotMet,
    ExitCode::SignalHup,
    ExitCode::SignalInt,
    ExitCode::SignalQuit,
    ExitCode::SignalKill,
    ExitCode::SignalPipe,
    ExitCode::SignalAlrm,
    ExitCode::SignalTerm,
    ExitCode::SignalUsr1,
    ExitCode::SignalUsr2,
];

#[test]
fn exit_code_numeric_values_unique_and_in_range() {
    let mut seen = Vec::new();
    for code in ALL_CODES {
        let value = code.code();
        assert!((0..=165).contains(&value));
        assert!(!seen.contains(&value), "duplicate numeric value {value}");
        seen.push(value);
    }
}

#[test]
fn exit_code_messages_are_nonempty() {
    for code in ALL_CODES {
        assert!(!code.display_message().is_empty());
    }
}

#[test]
fn exit_code_signal_convention() {
    for code in ALL_CODES {
        if let Some(signal) = code.signal_number() {
            assert_eq!(code.code(), 128 + signal);
            assert_eq!(code.category(), "signals");
        } else {
            assert_ne!(code.category(), "signals");
        }
    }
    assert_eq!(ExitCode::SignalTerm.signal_number(), Some(15));
    assert_eq!(ExitCode::SignalTerm.code(), 143);
    assert_eq!(ExitCode::SignalInt.signal_number(), Some(2));
    assert_eq!(ExitCode::SignalInt.code(), 130);
}

#[test]
fn exit_code_name_round_trip() {
    for code in ALL_CODES {
        let tag = code.canonical_tag();
        let back = ExitCode::decode_tag(tag).expect("declared tag must decode");
        assert_eq!(back, code);
        let json = encode_json(code);
        let back_json: ExitCode = decode_json(&json).expect("framed tag must decode");
        assert_eq!(back_json, code);
    }
}

#[test]
fn exit_code_unknown_name_is_rejected() {
    match ExitCode::decode_tag("NotAnOutcome") {
        Err(DecodeError::UnrecognizedVariant(tag)) => assert_eq!(tag, "NotAnOutcome"),
        other => panic!("expected UnrecognizedVariant, got {other:?}"),
    }
}

#[test]
fn exit_code_numeric_lookup() {
    assert_eq!(ExitCode::from_code(10), ExitCode::PortInUse);
    assert_eq!(ExitCode::from_code(143), ExitCode::SignalTerm);
    // The open catalog degrades unknown numeric values to the generic
    // failure classification instead of failing.
    assert_eq!(ExitCode::from_code(999), ExitCode::Failure);
    assert_eq!(ExitCode::from_code(-3), ExitCode::Failure);
    assert_eq!(ExitCode::lookup_code(137), Some(ExitCode::SignalKill));
    assert_eq!(ExitCode::lookup_code(2), None);
}

#[test]
fn exit_code_port_in_use_metadata() {
    let code = ExitCode::PortInUse;
    assert_eq!(code.code(), 10);
    assert_eq!(code.category(), "networking");
    assert_eq!(code.display_message(), "Specified port is already in use");
}
