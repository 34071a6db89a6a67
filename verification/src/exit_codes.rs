//! The standardized exit-code catalog: a closed set of named process
//! outcomes, each with a stable numeric value, a category tag and a
//! human-readable description.
//!
//! Numeric values are a cross-process contract: they are unique, stay
//! within the published range, and are never renumbered.  Signal-derived
//! codes follow the POSIX convention `128 + signal_number`.

use crate::codec::Catalog;
use crate::codec::DecodeError;
use crate::codec::str_eq;
use crate::json::json_safe;
use vstd::prelude::*;
use vstd::string::StringExecFns;

verus! {

/// Standardized exit codes.
#[derive(Debug, Clone, Copy, PartialEq, Eq, Hash, Structural)]
#[non_exhaustive]
pub enum ExitCode {
    /// Successful execution
    Success,
    /// Generic failure (unspecified error)
    Failure,
    /// Specified port is already in use
    PortInUse,
    /// No available ports in configured range
    PortRangeExhausted,
    /// Another instance already running on target port
    InstanceAlreadyRunning,
    /// Network destination unreachable
    NetworkUnreachable,
    /// Connection refused by remote host
    ConnectionRefused,
    /// Connection attempt timed out
    ConnectionTimeout,
    /// Configuration file failed validation
    ConfigInvalid,
    /// Required dependency not found
    MissingDependency,
    /// SSOT (Crucible) version incompatible
    SsotVersionMismatch,
    /// Required configuration file not found
    ConfigFileNotFound,
    /// Invalid or unsupported environment specification
    EnvironmentInvalid,
    /// Health check endpoint returned non-healthy status
    HealthCheckFailed,
    /// Database connection failed or unavailable
    DatabaseUnavailable,
    /// Required external service unavailable
    ExternalServiceUnavailable,
    /// System resources exhausted (memory, disk, file descriptors)
    ResourceExhausted,
    /// Operation exceeded timeout threshold
    OperationTimeout,
    /// Invalid command-line argument or flag value
    InvalidArgument,
    /// Required command-line argument not provided
    MissingRequiredArgument,
    /// Command-line usage error
    Usage,
    /// Insufficient permissions for operation
    PermissionDenied,
    /// Required file not found
    FileNotFound,
    /// Required directory not found
    DirectoryNotFound,
    /// Error reading file
    FileReadError,
    /// Error writing file
    FileWriteError,
    /// Input data failed validation
    DataInvalid,
    /// Error parsing input data
    ParseError,
    /// Data transformation or conversion failed
    TransformationFailed,
    /// Data corruption detected
    DataCorrupt,
    /// Authentication failed
    AuthenticationFailed,
    /// Authorization failed (authenticated but insufficient permissions)
    AuthorizationFailed,
    /// Security policy violation detected
    SecurityViolation,
    /// TLS/SSL certificate validation failed
    CertificateInvalid,
    /// Metrics endpoint or collection system unavailable
    MetricsUnavailable,
    /// Distributed tracing system unavailable
    TracingFailed,
    /// Logging system unavailable or misconfigured
    LoggingFailed,
    /// Alerting system unavailable
    AlertSystemFailed,
    /// Structured logging system unavailable
    StructuredLoggingFailed,
    /// One or more tests failed
    TestFailure,
    /// Test execution error (not test failure)
    TestError,
    /// Test run interrupted by user or system
    TestInterrupted,
    /// Test command usage error
    TestUsageError,
    /// No tests found or all tests skipped
    TestNoTestsCollected,
    /// Test coverage below required threshold
    CoverageThresholdNotMet,
    /// Hangup signal (SIGHUP) - config reload via restart
    SignalHup,
    /// Interrupt signal (SIGINT) - user interrupt with Ctrl+C double-tap
    SignalInt,
    /// Quit signal (SIGQUIT) - immediate exit
    SignalQuit,
    /// Kill signal (SIGKILL)
    SignalKill,
    /// Broken pipe (SIGPIPE) - observe only
    SignalPipe,
    /// Alarm signal (SIGALRM) - watchdog timeout
    SignalAlrm,
    /// Termination signal (SIGTERM) - graceful shutdown
    SignalTerm,
    /// User-defined signal 1 (SIGUSR1) - custom handler
    SignalUsr1,
    /// User-defined signal 2 (SIGUSR2) - custom handler
    SignalUsr2,
}

impl ExitCode {
    /// The numeric value of this exit code.
    pub open spec fn code_spec(self) -> int {
        match self {
            ExitCode::Success => 0,
            ExitCode::Failure => 1,
            ExitCode::PortInUse => 10,
            ExitCode::PortRangeExhausted => 11,
            ExitCode::InstanceAlreadyRunning => 12,
            ExitCode::NetworkUnreachable => 13,
            ExitCode::ConnectionRefused => 14,
            ExitCode::ConnectionTimeout => 15,
            ExitCode::ConfigInvalid => 20,
            ExitCode::MissingDependency => 21,
            ExitCode::SsotVersionMismatch => 22,
            ExitCode::ConfigFileNotFound => 23,
            ExitCode::EnvironmentInvalid => 24,
            ExitCode::HealthCheckFailed => 30,
            ExitCode::DatabaseUnavailable => 31,
            ExitCode::ExternalServiceUnavailable => 32,
            ExitCode::ResourceExhausted => 33,
            ExitCode::OperationTimeout => 34,
            ExitCode::InvalidArgument => 40,
            ExitCode::MissingRequiredArgument => 41,
            ExitCode::Usage => 64,
            ExitCode::PermissionDenied => 50,
            ExitCode::FileNotFound => 51,
            ExitCode::DirectoryNotFound => 52,
            ExitCode::FileReadError => 53,
            ExitCode::FileWriteError => 54,
            ExitCode::DataInvalid => 60,
            ExitCode::ParseError => 61,
            ExitCode::TransformationFailed => 62,
            ExitCode::DataCorrupt => 63,
            ExitCode::AuthenticationFailed => 70,
            ExitCode::AuthorizationFailed => 71,
            ExitCode::SecurityViolation => 72,
            ExitCode::CertificateInvalid => 73,
            ExitCode::MetricsUnavailable => 80,
            ExitCode::TracingFailed => 81,
            ExitCode::LoggingFailed => 82,
            ExitCode::AlertSystemFailed => 83,
            ExitCode::StructuredLoggingFailed => 84,
            ExitCode::TestFailure => 91,
            ExitCode::TestError => 92,
            ExitCode::TestInterrupted => 93,
            ExitCode::TestUsageError => 94,
            ExitCode::TestNoTestsCollected => 95,
            ExitCode::CoverageThresholdNotMet => 96,
            ExitCode::SignalHup => 129,
            ExitCode::SignalInt => 130,
            ExitCode::SignalQuit => 131,
            ExitCode::SignalKill => 137,
            ExitCode::SignalPipe => 141,
            ExitCode::SignalAlrm => 142,
            ExitCode::SignalTerm => 143,
            ExitCode::SignalUsr1 => 138,
            ExitCode::SignalUsr2 => 140,
        }
    }

    /// The category tag of this exit code.
    pub open spec fn category_spec(self) -> Seq<char> {
        match self {
            ExitCode::Success => "standard"@,
            ExitCode::Failure => "standard"@,
            ExitCode::PortInUse => "networking"@,
            ExitCode::PortRangeExhausted => "networking"@,
            ExitCode::InstanceAlreadyRunning => "networking"@,
            ExitCode::NetworkUnreachable => "networking"@,
            ExitCode::ConnectionRefused => "networking"@,
            ExitCode::ConnectionTimeout => "networking"@,
            ExitCode::ConfigInvalid => "configuration"@,
            ExitCode::MissingDependency => "configuration"@,
            ExitCode::SsotVersionMismatch => "configuration"@,
            ExitCode::ConfigFileNotFound => "configuration"@,
            ExitCode::EnvironmentInvalid => "configuration"@,
            ExitCode::HealthCheckFailed => "runtime"@,
            ExitCode::DatabaseUnavailable => "runtime"@,
            ExitCode::ExternalServiceUnavailable => "runtime"@,
            ExitCode::ResourceExhausted => "runtime"@,
            ExitCode::OperationTimeout => "runtime"@,
            ExitCode::InvalidArgument => "usage"@,
            ExitCode::MissingRequiredArgument => "usage"@,
            ExitCode::Usage => "usage"@,
            ExitCode::PermissionDenied => "permissions"@,
            ExitCode::FileNotFound => "permissions"@,
            ExitCode::DirectoryNotFound => "permissions"@,
            ExitCode::FileReadError => "permissions"@,
            ExitCode::FileWriteError => "permissions"@,
            ExitCode::DataInvalid => "data"@,
            ExitCode::ParseError => "data"@,
            ExitCode::TransformationFailed => "data"@,
            ExitCode::DataCorrupt => "data"@,
            ExitCode::AuthenticationFailed => "security"@,
            ExitCode::AuthorizationFailed => "security"@,
            ExitCode::SecurityViolation => "security"@,
            ExitCode::CertificateInvalid => "security"@,
            ExitCode::MetricsUnavailable => "observability"@,
            ExitCode::TracingFailed => "observability"@,
            ExitCode::LoggingFailed => "observability"@,
            ExitCode::AlertSystemFailed => "observability"@,
            ExitCode::StructuredLoggingFailed => "observability"@,
            ExitCode::TestFailure => "testing"@,
            ExitCode::TestError => "testing"@,
            ExitCode::TestInterrupted => "testing"@,
            ExitCode::TestUsageError => "testing"@,
            ExitCode::TestNoTestsCollected => "testing"@,
            ExitCode::CoverageThresholdNotMet => "testing"@,
            ExitCode::SignalHup => "signals"@,
            ExitCode::SignalInt => "signals"@,
            ExitCode::SignalQuit => "signals"@,
            ExitCode::SignalKill => "signals"@,
            ExitCode::SignalPipe => "signals"@,
            ExitCode::SignalAlrm => "signals"@,
            ExitCode::SignalTerm => "signals"@,
            ExitCode::SignalUsr1 => "signals"@,
            ExitCode::SignalUsr2 => "signals"@,
        }
    }

    /// The human-readable description of this exit code.
    pub open spec fn message_spec(self) -> Seq<char> {
        match self {
            ExitCode::Success => "Successful execution"@,
            ExitCode::Failure => "Generic failure (unspecified error)"@,
            ExitCode::PortInUse => "Specified port is already in use"@,
            ExitCode::PortRangeExhausted => "No available ports in configured range"@,
            ExitCode::InstanceAlreadyRunning => "Another instance already running on target port"@,
            ExitCode::NetworkUnreachable => "Network destination unreachable"@,
            ExitCode::ConnectionRefused => "Connection refused by remote host"@,
            ExitCode::ConnectionTimeout => "Connection attempt timed out"@,
            ExitCode::ConfigInvalid => "Configuration file failed validation"@,
            ExitCode::MissingDependency => "Required dependency not found"@,
            ExitCode::SsotVersionMismatch => "SSOT (Crucible) version incompatible"@,
            ExitCode::ConfigFileNotFound => "Required configuration file not found"@,
            ExitCode::EnvironmentInvalid => "Invalid or unsupported environment specification"@,
            ExitCode::HealthCheckFailed => "Health check endpoint returned non-healthy status"@,
            ExitCode::DatabaseUnavailable => "Database connection failed or unavailable"@,
            ExitCode::ExternalServiceUnavailable => "Required external service unavailable"@,
            ExitCode::ResourceExhausted => "System resources exhausted (memory, disk, file descriptors)"@,
            ExitCode::OperationTimeout => "Operation exceeded timeout threshold"@,
            ExitCode::InvalidArgument => "Invalid command-line argument or flag value"@,
            ExitCode::MissingRequiredArgument => "Required command-line argument not provided"@,
            ExitCode::Usage => "Command-line usage error"@,
            ExitCode::PermissionDenied => "Insufficient permissions for operation"@,
            ExitCode::FileNotFound => "Required file not found"@,
            ExitCode::DirectoryNotFound => "Required directory not found"@,
            ExitCode::FileReadError => "Error reading file"@,
            ExitCode::FileWriteError => "Error writing file"@,
            ExitCode::DataInvalid => "Input data failed validation"@,
            ExitCode::ParseError => "Error parsing input data"@,
            ExitCode::TransformationFailed => "Data transformation or conversion failed"@,
            ExitCode::DataCorrupt => "Data corruption detected"@,
            ExitCode::AuthenticationFailed => "Authentication failed"@,
            ExitCode::AuthorizationFailed => "Authorization failed (authenticated but insufficient permissions)"@,
            ExitCode::SecurityViolation => "Security policy violation detected"@,
            ExitCode::CertificateInvalid => "TLS/SSL certificate validation failed"@,
            ExitCode::MetricsUnavailable => "Metrics endpoint or collection system unavailable"@,
            ExitCode::TracingFailed => "Distributed tracing system unavailable"@,
            ExitCode::LoggingFailed => "Logging system unavailable or misconfigured"@,
            ExitCode::AlertSystemFailed => "Alerting system unavailable"@,
            ExitCode::StructuredLoggingFailed => "Structured logging system unavailable"@,
            ExitCode::TestFailure => "One or more tests failed"@,
            ExitCode::TestError => "Test execution error (not test failure)"@,
            ExitCode::TestInterrupted => "Test run interrupted by user or system"@,
            ExitCode::TestUsageError => "Test command usage error"@,
            ExitCode::TestNoTestsCollected => "No tests found or all tests skipped"@,
            ExitCode::CoverageThresholdNotMet => "Test coverage below required threshold"@,
            ExitCode::SignalHup => "Hangup signal (SIGHUP) - config reload via restart"@,
            ExitCode::SignalInt => "Interrupt signal (SIGINT) - user interrupt with Ctrl+C double-tap"@,
            ExitCode::SignalQuit => "Quit signal (SIGQUIT) - immediate exit"@,
            ExitCode::SignalKill => "Kill signal (SIGKILL)"@,
            ExitCode::SignalPipe => "Broken pipe (SIGPIPE) - observe only"@,
            ExitCode::SignalAlrm => "Alarm signal (SIGALRM) - watchdog timeout"@,
            ExitCode::SignalTerm => "Termination signal (SIGTERM) - graceful shutdown"@,
            ExitCode::SignalUsr1 => "User-defined signal 1 (SIGUSR1) - custom handler"@,
            ExitCode::SignalUsr2 => "User-defined signal 2 (SIGUSR2) - custom handler"@,
        }
    }

    /// The POSIX signal number a signal-derived exit code stands for.
    pub open spec fn signal_spec(self) -> Option<int> {
        match self {
            ExitCode::Success => None,
            ExitCode::Failure => None,
            ExitCode::PortInUse => None,
            ExitCode::PortRangeExhausted => None,
            ExitCode::InstanceAlreadyRunning => None,
            ExitCode::NetworkUnreachable => None,
            ExitCode::ConnectionRefused => None,
            ExitCode::ConnectionTimeout => None,
            ExitCode::ConfigInvalid => None,
            ExitCode::MissingDependency => None,
            ExitCode::SsotVersionMismatch => None,
            ExitCode::ConfigFileNotFound => None,
            ExitCode::EnvironmentInvalid => None,
            ExitCode::HealthCheckFailed => None,
            ExitCode::DatabaseUnavailable => None,
            ExitCode::ExternalServiceUnavailable => None,
            ExitCode::ResourceExhausted => None,
            ExitCode::OperationTimeout => None,
            ExitCode::InvalidArgument => None,
            ExitCode::MissingRequiredArgument => None,
            ExitCode::Usage => None,
            ExitCode::PermissionDenied => None,
            ExitCode::FileNotFound => None,
            ExitCode::DirectoryNotFound => None,
            ExitCode::FileReadError => None,
            ExitCode::FileWriteError => None,
            ExitCode::DataInvalid => None,
            ExitCode::ParseError => None,
            ExitCode::TransformationFailed => None,
            ExitCode::DataCorrupt => None,
            ExitCode::AuthenticationFailed => None,
            ExitCode::AuthorizationFailed => None,
            ExitCode::SecurityViolation => None,
            ExitCode::CertificateInvalid => None,
            ExitCode::MetricsUnavailable => None,
            ExitCode::TracingFailed => None,
            ExitCode::LoggingFailed => None,
            ExitCode::AlertSystemFailed => None,
            ExitCode::StructuredLoggingFailed => None,
            ExitCode::TestFailure => None,
            ExitCode::TestError => None,
            ExitCode::TestInterrupted => None,
            ExitCode::TestUsageError => None,
            ExitCode::TestNoTestsCollected => None,
            ExitCode::CoverageThresholdNotMet => None,
            ExitCode::SignalHup => Some(1),
            ExitCode::SignalInt => Some(2),
            ExitCode::SignalQuit => Some(3),
            ExitCode::SignalKill => Some(9),
            ExitCode::SignalPipe => Some(13),
            ExitCode::SignalAlrm => Some(14),
            ExitCode::SignalTerm => Some(15),
            ExitCode::SignalUsr1 => Some(10),
            ExitCode::SignalUsr2 => Some(12),
        }
    }

    /// The catalog member carrying the given numeric value, if any.
    pub open spec fn from_code_spec(code: int) -> Option<ExitCode> {
        if code == 0 {
            Some(ExitCode::Success)
        } else if code == 1 {
            Some(ExitCode::Failure)
        } else if code == 10 {
            Some(ExitCode::PortInUse)
        } else if code == 11 {
            Some(ExitCode::PortRangeExhausted)
        } else if code == 12 {
            Some(ExitCode::InstanceAlreadyRunning)
        } else if code == 13 {
            Some(ExitCode::NetworkUnreachable)
        } else if code == 14 {
            Some(ExitCode::ConnectionRefused)
        } else if code == 15 {
            Some(ExitCode::ConnectionTimeout)
        } else if code == 20 {
            Some(ExitCode::ConfigInvalid)
        } else if code == 21 {
            Some(ExitCode::MissingDependency)
        } else if code == 22 {
            Some(ExitCode::SsotVersionMismatch)
        } else if code == 23 {
            Some(ExitCode::ConfigFileNotFound)
        } else if code == 24 {
            Some(ExitCode::EnvironmentInvalid)
        } else if code == 30 {
            Some(ExitCode::HealthCheckFailed)
        } else if code == 31 {
            Some(ExitCode::DatabaseUnavailable)
        } else if code == 32 {
            Some(ExitCode::ExternalServiceUnavailable)
        } else if code == 33 {
            Some(ExitCode::ResourceExhausted)
        } else if code == 34 {
            Some(ExitCode::OperationTimeout)
        } else if code == 40 {
            Some(ExitCode::InvalidArgument)
        } else if code == 41 {
            Some(ExitCode::MissingRequiredArgument)
        } else if code == 64 {
            Some(ExitCode::Usage)
        } else if code == 50 {
            Some(ExitCode::PermissionDenied)
        } else if code == 51 {
            Some(ExitCode::FileNotFound)
        } else if code == 52 {
            Some(ExitCode::DirectoryNotFound)
        } else if code == 53 {
            Some(ExitCode::FileReadError)
        } else if code == 54 {
            Some(ExitCode::FileWriteError)
        } else if code == 60 {
            Some(ExitCode::DataInvalid)
        } else if code == 61 {
            Some(ExitCode::ParseError)
        } else if code == 62 {
            Some(ExitCode::TransformationFailed)
        } else if code == 63 {
            Some(ExitCode::DataCorrupt)
        } else if code == 70 {
            Some(ExitCode::AuthenticationFailed)
        } else if code == 71 {
            Some(ExitCode::AuthorizationFailed)
        } else if code == 72 {
            Some(ExitCode::SecurityViolation)
        } else if code == 73 {
            Some(ExitCode::CertificateInvalid)
        } else if code == 80 {
            Some(ExitCode::MetricsUnavailable)
        } else if code == 81 {
            Some(ExitCode::TracingFailed)
        } else if code == 82 {
            Some(ExitCode::LoggingFailed)
        } else if code == 83 {
            Some(ExitCode::AlertSystemFailed)
        } else if code == 84 {
            Some(ExitCode::StructuredLoggingFailed)
        } else if code == 91 {
            Some(ExitCode::TestFailure)
        } else if code == 92 {
            Some(ExitCode::TestError)
        } else if code == 93 {
            Some(ExitCode::TestInterrupted)
        } else if code == 94 {
            Some(ExitCode::TestUsageError)
        } else if code == 95 {
            Some(ExitCode::TestNoTestsCollected)
        } else if code == 96 {
            Some(ExitCode::CoverageThresholdNotMet)
        } else if code == 129 {
            Some(ExitCode::SignalHup)
        } else if code == 130 {
            Some(ExitCode::SignalInt)
        } else if code == 131 {
            Some(ExitCode::SignalQuit)
        } else if code == 137 {
            Some(ExitCode::SignalKill)
        } else if code == 141 {
            Some(ExitCode::SignalPipe)
        } else if code == 142 {
            Some(ExitCode::SignalAlrm)
        } else if code == 143 {
            Some(ExitCode::SignalTerm)
        } else if code == 138 {
            Some(ExitCode::SignalUsr1)
        } else if code == 140 {
            Some(ExitCode::SignalUsr2)
        } else {
            None
        }
    }

    /// Returns the numeric exit code value.
    #[must_use]
    pub fn code(self) -> (r: i32)
        ensures
            r as int == self.code_spec(),
            0 <= r <= 165,
    {
        match self {
            ExitCode::Success => 0,
            ExitCode::Failure => 1,
            ExitCode::PortInUse => 10,
            ExitCode::PortRangeExhausted => 11,
            ExitCode::InstanceAlreadyRunning => 12,
            ExitCode::NetworkUnreachable => 13,
            ExitCode::ConnectionRefused => 14,
            ExitCode::ConnectionTimeout => 15,
            ExitCode::ConfigInvalid => 20,
            ExitCode::MissingDependency => 21,
            ExitCode::SsotVersionMismatch => 22,
            ExitCode::ConfigFileNotFound => 23,
            ExitCode::EnvironmentInvalid => 24,
            ExitCode::HealthCheckFailed => 30,
            ExitCode::DatabaseUnavailable => 31,
            ExitCode::ExternalServiceUnavailable => 32,
            ExitCode::ResourceExhausted => 33,
            ExitCode::OperationTimeout => 34,
            ExitCode::InvalidArgument => 40,
            ExitCode::MissingRequiredArgument => 41,
            ExitCode::Usage => 64,
            ExitCode::PermissionDenied => 50,
            ExitCode::FileNotFound => 51,
            ExitCode::DirectoryNotFound => 52,
            ExitCode::FileReadError => 53,
            ExitCode::FileWriteError => 54,
            ExitCode::DataInvalid => 60,
            ExitCode::ParseError => 61,
            ExitCode::TransformationFailed => 62,
            ExitCode::DataCorrupt => 63,
            ExitCode::AuthenticationFailed => 70,
            ExitCode::AuthorizationFailed => 71,
            ExitCode::SecurityViolation => 72,
            ExitCode::CertificateInvalid => 73,
            ExitCode::MetricsUnavailable => 80,
            ExitCode::TracingFailed => 81,
            ExitCode::LoggingFailed => 82,
            ExitCode::AlertSystemFailed => 83,
            ExitCode::StructuredLoggingFailed => 84,
            ExitCode::TestFailure => 91,
            ExitCode::TestError => 92,
            ExitCode::TestInterrupted => 93,
            ExitCode::TestUsageError => 94,
            ExitCode::TestNoTestsCollected => 95,
            ExitCode::CoverageThresholdNotMet => 96,
            ExitCode::SignalHup => 129,
            ExitCode::SignalInt => 130,
            ExitCode::SignalQuit => 131,
            ExitCode::SignalKill => 137,
            ExitCode::SignalPipe => 141,
            ExitCode::SignalAlrm => 142,
            ExitCode::SignalTerm => 143,
            ExitCode::SignalUsr1 => 138,
            ExitCode::SignalUsr2 => 140,
        }
    }

    /// Returns the category ID for this exit code.
    #[must_use]
    pub fn category(&self) -> (r: &'static str)
        ensures
            r@ == self.category_spec(),
    {
        match self {
            ExitCode::Success => "standard",
            ExitCode::Failure => "standard",
            ExitCode::PortInUse => "networking",
            ExitCode::PortRangeExhausted => "networking",
            ExitCode::InstanceAlreadyRunning => "networking",
            ExitCode::NetworkUnreachable => "networking",
            ExitCode::ConnectionRefused => "networking",
            ExitCode::ConnectionTimeout => "networking",
            ExitCode::ConfigInvalid => "configuration",
            ExitCode::MissingDependency => "configuration",
            ExitCode::SsotVersionMismatch => "configuration",
            ExitCode::ConfigFileNotFound => "configuration",
            ExitCode::EnvironmentInvalid => "configuration",
            ExitCode::HealthCheckFailed => "runtime",
            ExitCode::DatabaseUnavailable => "runtime",
            ExitCode::ExternalServiceUnavailable => "runtime",
            ExitCode::ResourceExhausted => "runtime",
            ExitCode::OperationTimeout => "runtime",
            ExitCode::InvalidArgument => "usage",
            ExitCode::MissingRequiredArgument => "usage",
            ExitCode::Usage => "usage",
            ExitCode::PermissionDenied => "permissions",
            ExitCode::FileNotFound => "permissions",
            ExitCode::DirectoryNotFound => "permissions",
            ExitCode::FileReadError => "permissions",
            ExitCode::FileWriteError => "permissions",
            ExitCode::DataInvalid => "data",
            ExitCode::ParseError => "data",
            ExitCode::TransformationFailed => "data",
            ExitCode::DataCorrupt => "data",
            ExitCode::AuthenticationFailed => "security",
            ExitCode::AuthorizationFailed => "security",
            ExitCode::SecurityViolation => "security",
            ExitCode::CertificateInvalid => "security",
            ExitCode::MetricsUnavailable => "observability",
            ExitCode::TracingFailed => "observability",
            ExitCode::LoggingFailed => "observability",
            ExitCode::AlertSystemFailed => "observability",
            ExitCode::StructuredLoggingFailed => "observability",
            ExitCode::TestFailure => "testing",
            ExitCode::TestError => "testing",
            ExitCode::TestInterrupted => "testing",
            ExitCode::TestUsageError => "testing",
            ExitCode::TestNoTestsCollected => "testing",
            ExitCode::CoverageThresholdNotMet => "testing",
            ExitCode::SignalHup => "signals",
            ExitCode::SignalInt => "signals",
            ExitCode::SignalQuit => "signals",
            ExitCode::SignalKill => "signals",
            ExitCode::SignalPipe => "signals",
            ExitCode::SignalAlrm => "signals",
            ExitCode::SignalTerm => "signals",
            ExitCode::SignalUsr1 => "signals",
            ExitCode::SignalUsr2 => "signals",
        }
    }

    /// Returns the human-readable description of this exit code.
    #[must_use]
    pub fn display_message(&self) -> (r: &'static str)
        ensures
            r@ == self.message_spec(),
    {
        match self {
            ExitCode::Success => "Successful execution",
            ExitCode::Failure => "Generic failure (unspecified error)",
            ExitCode::PortInUse => "Specified port is already in use",
            ExitCode::PortRangeExhausted => "No available ports in configured range",
            ExitCode::InstanceAlreadyRunning => "Another instance already running on target port",
            ExitCode::NetworkUnreachable => "Network destination unreachable",
            ExitCode::ConnectionRefused => "Connection refused by remote host",
            ExitCode::ConnectionTimeout => "Connection attempt timed out",
            ExitCode::ConfigInvalid => "Configuration file failed validation",
            ExitCode::MissingDependency => "Required dependency not found",
            ExitCode::SsotVersionMismatch => "SSOT (Crucible) version incompatible",
            ExitCode::ConfigFileNotFound => "Required configuration file not found",
            ExitCode::EnvironmentInvalid => "Invalid or unsupported environment specification",
            ExitCode::HealthCheckFailed => "Health check endpoint returned non-healthy status",
            ExitCode::DatabaseUnavailable => "Database connection failed or unavailable",
            ExitCode::ExternalServiceUnavailable => "Required external service unavailable",
            ExitCode::ResourceExhausted => "System resources exhausted (memory, disk, file descriptors)",
            ExitCode::OperationTimeout => "Operation exceeded timeout threshold",
            ExitCode::InvalidArgument => "Invalid command-line argument or flag value",
            ExitCode::MissingRequiredArgument => "Required command-line argument not provided",
            ExitCode::Usage => "Command-line usage error",
            ExitCode::PermissionDenied => "Insufficient permissions for operation",
            ExitCode::FileNotFound => "Required file not found",
            ExitCode::DirectoryNotFound => "Required directory not found",
            ExitCode::FileReadError => "Error reading file",
            ExitCode::FileWriteError => "Error writing file",
            ExitCode::DataInvalid => "Input data failed validation",
            ExitCode::ParseError => "Error parsing input data",
            ExitCode::TransformationFailed => "Data transformation or conversion failed",
            ExitCode::DataCorrupt => "Data corruption detected",
            ExitCode::AuthenticationFailed => "Authentication failed",
            ExitCode::AuthorizationFailed => "Authorization failed (authenticated but insufficient permissions)",
            ExitCode::SecurityViolation => "Security policy violation detected",
            ExitCode::CertificateInvalid => "TLS/SSL certificate validation failed",
            ExitCode::MetricsUnavailable => "Metrics endpoint or collection system unavailable",
            ExitCode::TracingFailed => "Distributed tracing system unavailable",
            ExitCode::LoggingFailed => "Logging system unavailable or misconfigured",
            ExitCode::AlertSystemFailed => "Alerting system unavailable",
            ExitCode::StructuredLoggingFailed => "Structured logging system unavailable",
            ExitCode::TestFailure => "One or more tests failed",
            ExitCode::TestError => "Test execution error (not test failure)",
            ExitCode::TestInterrupted => "Test run interrupted by user or system",
            ExitCode::TestUsageError => "Test command usage error",
            ExitCode::TestNoTestsCollected => "No tests found or all tests skipped",
            ExitCode::CoverageThresholdNotMet => "Test coverage below required threshold",
            ExitCode::SignalHup => "Hangup signal (SIGHUP) - config reload via restart",
            ExitCode::SignalInt => "Interrupt signal (SIGINT) - user interrupt with Ctrl+C double-tap",
            ExitCode::SignalQuit => "Quit signal (SIGQUIT) - immediate exit",
            ExitCode::SignalKill => "Kill signal (SIGKILL)",
            ExitCode::SignalPipe => "Broken pipe (SIGPIPE) - observe only",
            ExitCode::SignalAlrm => "Alarm signal (SIGALRM) - watchdog timeout",
            ExitCode::SignalTerm => "Termination signal (SIGTERM) - graceful shutdown",
            ExitCode::SignalUsr1 => "User-defined signal 1 (SIGUSR1) - custom handler",
            ExitCode::SignalUsr2 => "User-defined signal 2 (SIGUSR2) - custom handler",
        }
    }

    /// Returns the POSIX signal number for signal-derived codes.
    #[must_use]
    pub fn signal_number(&self) -> (r: Option<i32>)
        ensures
            r matches Some(n) ==> self.signal_spec() == Some(n as int),
            r is None <==> self.signal_spec() is None,
    {
        match self {
            ExitCode::Success => None,
            ExitCode::Failure => None,
            ExitCode::PortInUse => None,
            ExitCode::PortRangeExhausted => None,
            ExitCode::InstanceAlreadyRunning => None,
            ExitCode::NetworkUnreachable => None,
            ExitCode::ConnectionRefused => None,
            ExitCode::ConnectionTimeout => None,
            ExitCode::ConfigInvalid => None,
            ExitCode::MissingDependency => None,
            ExitCode::SsotVersionMismatch => None,
            ExitCode::ConfigFileNotFound => None,
            ExitCode::EnvironmentInvalid => None,
            ExitCode::HealthCheckFailed => None,
            ExitCode::DatabaseUnavailable => None,
            ExitCode::ExternalServiceUnavailable => None,
            ExitCode::ResourceExhausted => None,
            ExitCode::OperationTimeout => None,
            ExitCode::InvalidArgument => None,
            ExitCode::MissingRequiredArgument => None,
            ExitCode::Usage => None,
            ExitCode::PermissionDenied => None,
            ExitCode::FileNotFound => None,
            ExitCode::DirectoryNotFound => None,
            ExitCode::FileReadError => None,
            ExitCode::FileWriteError => None,
            ExitCode::DataInvalid => None,
            ExitCode::ParseError => None,
            ExitCode::TransformationFailed => None,
            ExitCode::DataCorrupt => None,
            ExitCode::AuthenticationFailed => None,
            ExitCode::AuthorizationFailed => None,
            ExitCode::SecurityViolation => None,
            ExitCode::CertificateInvalid => None,
            ExitCode::MetricsUnavailable => None,
            ExitCode::TracingFailed => None,
            ExitCode::LoggingFailed => None,
            ExitCode::AlertSystemFailed => None,
            ExitCode::StructuredLoggingFailed => None,
            ExitCode::TestFailure => None,
            ExitCode::TestError => None,
            ExitCode::TestInterrupted => None,
            ExitCode::TestUsageError => None,
            ExitCode::TestNoTestsCollected => None,
            ExitCode::CoverageThresholdNotMet => None,
            ExitCode::SignalHup => Some(1),
            ExitCode::SignalInt => Some(2),
            ExitCode::SignalQuit => Some(3),
            ExitCode::SignalKill => Some(9),
            ExitCode::SignalPipe => Some(13),
            ExitCode::SignalAlrm => Some(14),
            ExitCode::SignalTerm => Some(15),
            ExitCode::SignalUsr1 => Some(10),
            ExitCode::SignalUsr2 => Some(12),
        }
    }

    /// Permissive lookup for the open catalog: an unrecognized numeric
    /// value degrades to the generic `Failure` classification instead of
    /// failing.
    #[must_use]
    pub fn from_code(code: i32) -> (r: ExitCode)
        ensures
            match ExitCode::from_code_spec(code as int) {
                Some(e) => r == e,
                None => r == ExitCode::Failure,
            },
    {
        if code == 0 {
            ExitCode::Success
        } else if code == 1 {
            ExitCode::Failure
        } else if code == 10 {
            ExitCode::PortInUse
        } else if code == 11 {
            ExitCode::PortRangeExhausted
        } else if code == 12 {
            ExitCode::InstanceAlreadyRunning
        } else if code == 13 {
            ExitCode::NetworkUnreachable
        } else if code == 14 {
            ExitCode::ConnectionRefused
        } else if code == 15 {
            ExitCode::ConnectionTimeout
        } else if code == 20 {
            ExitCode::ConfigInvalid
        } else if code == 21 {
            ExitCode::MissingDependency
        } else if code == 22 {
            ExitCode::SsotVersionMismatch
        } else if code == 23 {
            ExitCode::ConfigFileNotFound
        } else if code == 24 {
            ExitCode::EnvironmentInvalid
        } else if code == 30 {
            ExitCode::HealthCheckFailed
        } else if code == 31 {
            ExitCode::DatabaseUnavailable
        } else if code == 32 {
            ExitCode::ExternalServiceUnavailable
        } else if code == 33 {
            ExitCode::ResourceExhausted
        } else if code == 34 {
            ExitCode::OperationTimeout
        } else if code == 40 {
            ExitCode::InvalidArgument
        } else if code == 41 {
            ExitCode::MissingRequiredArgument
        } else if code == 64 {
            ExitCode::Usage
        } else if code == 50 {
            ExitCode::PermissionDenied
        } else if code == 51 {
            ExitCode::FileNotFound
        } else if code == 52 {
            ExitCode::DirectoryNotFound
        } else if code == 53 {
            ExitCode::FileReadError
        } else if code == 54 {
            ExitCode::FileWriteError
        } else if code == 60 {
            ExitCode::DataInvalid
        } else if code == 61 {
            ExitCode::ParseError
        } else if code == 62 {
            ExitCode::TransformationFailed
        } else if code == 63 {
            ExitCode::DataCorrupt
        } else if code == 70 {
            ExitCode::AuthenticationFailed
        } else if code == 71 {
            ExitCode::AuthorizationFailed
        } else if code == 72 {
            ExitCode::SecurityViolation
        } else if code == 73 {
            ExitCode::CertificateInvalid
        } else if code == 80 {
            ExitCode::MetricsUnavailable
        } else if code == 81 {
            ExitCode::TracingFailed
        } else if code == 82 {
            ExitCode::LoggingFailed
        } else if code == 83 {
            ExitCode::AlertSystemFailed
        } else if code == 84 {
            ExitCode::StructuredLoggingFailed
        } else if code == 91 {
            ExitCode::TestFailure
        } else if code == 92 {
            ExitCode::TestError
        } else if code == 93 {
            ExitCode::TestInterrupted
        } else if code == 94 {
            ExitCode::TestUsageError
        } else if code == 95 {
            ExitCode::TestNoTestsCollected
        } else if code == 96 {
            ExitCode::CoverageThresholdNotMet
        } else if code == 129 {
            ExitCode::SignalHup
        } else if code == 130 {
            ExitCode::SignalInt
        } else if code == 131 {
            ExitCode::SignalQuit
        } else if code == 137 {
            ExitCode::SignalKill
        } else if code == 141 {
            ExitCode::SignalPipe
        } else if code == 142 {
            ExitCode::SignalAlrm
        } else if code == 143 {
            ExitCode::SignalTerm
        } else if code == 138 {
            ExitCode::SignalUsr1
        } else if code == 140 {
            ExitCode::SignalUsr2
        } else {
            ExitCode::Failure
        }
    }

    /// Strict lookup: `Some` exactly when the numeric value is in the
    /// catalog.
    #[must_use]
    pub fn lookup_code(code: i32) -> (r: Option<ExitCode>)
        ensures
            r matches Some(e) ==> ExitCode::from_code_spec(code as int) == Some(e),
            r is None <==> ExitCode::from_code_spec(code as int) is None,
    {
        if code == 0 {
            Some(ExitCode::Success)
        } else if code == 1 {
            Some(ExitCode::Failure)
        } else if code == 10 {
            Some(ExitCode::PortInUse)
        } else if code == 11 {
            Some(ExitCode::PortRangeExhausted)
        } else if code == 12 {
            Some(ExitCode::InstanceAlreadyRunning)
        } else if code == 13 {
            Some(ExitCode::NetworkUnreachable)
        } else if code == 14 {
            Some(ExitCode::ConnectionRefused)
        } else if code == 15 {
            Some(ExitCode::ConnectionTimeout)
        } else if code == 20 {
            Some(ExitCode::ConfigInvalid)
        } else if code == 21 {
            Some(ExitCode::MissingDependency)
        } else if code == 22 {
            Some(ExitCode::SsotVersionMismatch)
        } else if code == 23 {
            Some(ExitCode::ConfigFileNotFound)
        } else if code == 24 {
            Some(ExitCode::EnvironmentInvalid)
        } else if code == 30 {
            Some(ExitCode::HealthCheckFailed)
        } else if code == 31 {
            Some(ExitCode::DatabaseUnavailable)
        } else if code == 32 {
            Some(ExitCode::ExternalServiceUnavailable)
        } else if code == 33 {
            Some(ExitCode::ResourceExhausted)
        } else if code == 34 {
            Some(ExitCode::OperationTimeout)
        } else if code == 40 {
            Some(ExitCode::InvalidArgument)
        } else if code == 41 {
            Some(ExitCode::MissingRequiredArgument)
        } else if code == 64 {
            Some(ExitCode::Usage)
        } else if code == 50 {
            Some(ExitCode::PermissionDenied)
        } else if code == 51 {
            Some(ExitCode::FileNotFound)
        } else if code == 52 {
            Some(ExitCode::DirectoryNotFound)
        } else if code == 53 {
            Some(ExitCode::FileReadError)
        } else if code == 54 {
            Some(ExitCode::FileWriteError)
        } else if code == 60 {
            Some(ExitCode::DataInvalid)
        } else if code == 61 {
            Some(ExitCode::ParseError)
        } else if code == 62 {
            Some(ExitCode::TransformationFailed)
        } else if code == 63 {
            Some(ExitCode::DataCorrupt)
        } else if code == 70 {
            Some(ExitCode::AuthenticationFailed)
        } else if code == 71 {
            Some(ExitCode::AuthorizationFailed)
        } else if code == 72 {
            Some(ExitCode::SecurityViolation)
        } else if code == 73 {
            Some(ExitCode::CertificateInvalid)
        } else if code == 80 {
            Some(ExitCode::MetricsUnavailable)
        } else if code == 81 {
            Some(ExitCode::TracingFailed)
        } else if code == 82 {
            Some(ExitCode::LoggingFailed)
        } else if code == 83 {
            Some(ExitCode::AlertSystemFailed)
        } else if code == 84 {
            Some(ExitCode::StructuredLoggingFailed)
        } else if code == 91 {
            Some(ExitCode::TestFailure)
        } else if code == 92 {
            Some(ExitCode::TestError)
        } else if code == 93 {
            Some(ExitCode::TestInterrupted)
        } else if code == 94 {
            Some(ExitCode::TestUsageError)
        } else if code == 95 {
            Some(ExitCode::TestNoTestsCollected)
        } else if code == 96 {
            Some(ExitCode::CoverageThresholdNotMet)
        } else if code == 129 {
            Some(ExitCode::SignalHup)
        } else if code == 130 {
            Some(ExitCode::SignalInt)
        } else if code == 131 {
            Some(ExitCode::SignalQuit)
        } else if code == 137 {
            Some(ExitCode::SignalKill)
        } else if code == 141 {
            Some(ExitCode::SignalPipe)
        } else if code == 142 {
            Some(ExitCode::SignalAlrm)
        } else if code == 143 {
            Some(ExitCode::SignalTerm)
        } else if code == 138 {
            Some(ExitCode::SignalUsr1)
        } else if code == 140 {
            Some(ExitCode::SignalUsr2)
        } else {
            None
        }
    }
}

impl Catalog for ExitCode {
    open spec fn tag_spec(self) -> Seq<char> {
        match self {
            ExitCode::Success => "Success"@,
            ExitCode::Failure => "Failure"@,
            ExitCode::PortInUse => "PortInUse"@,
            ExitCode::PortRangeExhausted => "PortRangeExhausted"@,
            ExitCode::InstanceAlreadyRunning => "InstanceAlreadyRunning"@,
            ExitCode::NetworkUnreachable => "NetworkUnreachable"@,
            ExitCode::ConnectionRefused => "ConnectionRefused"@,
            ExitCode::ConnectionTimeout => "ConnectionTimeout"@,
            ExitCode::ConfigInvalid => "ConfigInvalid"@,
            ExitCode::MissingDependency => "MissingDependency"@,
            ExitCode::SsotVersionMismatch => "SsotVersionMismatch"@,
            ExitCode::ConfigFileNotFound => "ConfigFileNotFound"@,
            ExitCode::EnvironmentInvalid => "EnvironmentInvalid"@,
            ExitCode::HealthCheckFailed => "HealthCheckFailed"@,
            ExitCode::DatabaseUnavailable => "DatabaseUnavailable"@,
            ExitCode::ExternalServiceUnavailable => "ExternalServiceUnavailable"@,
            ExitCode::ResourceExhausted => "ResourceExhausted"@,
            ExitCode::OperationTimeout => "OperationTimeout"@,
            ExitCode::InvalidArgument => "InvalidArgument"@,
            ExitCode::MissingRequiredArgument => "MissingRequiredArgument"@,
            ExitCode::Usage => "Usage"@,
            ExitCode::PermissionDenied => "PermissionDenied"@,
            ExitCode::FileNotFound => "FileNotFound"@,
            ExitCode::DirectoryNotFound => "DirectoryNotFound"@,
            ExitCode::FileReadError => "FileReadError"@,
            ExitCode::FileWriteError => "FileWriteError"@,
            ExitCode::DataInvalid => "DataInvalid"@,
            ExitCode::ParseError => "ParseError"@,
            ExitCode::TransformationFailed => "TransformationFailed"@,
            ExitCode::DataCorrupt => "DataCorrupt"@,
            ExitCode::AuthenticationFailed => "AuthenticationFailed"@,
            ExitCode::AuthorizationFailed => "AuthorizationFailed"@,
            ExitCode::SecurityViolation => "SecurityViolation"@,
            ExitCode::CertificateInvalid => "CertificateInvalid"@,
            ExitCode::MetricsUnavailable => "MetricsUnavailable"@,
            ExitCode::TracingFailed => "TracingFailed"@,
            ExitCode::LoggingFailed => "LoggingFailed"@,
            ExitCode::AlertSystemFailed => "AlertSystemFailed"@,
            ExitCode::StructuredLoggingFailed => "StructuredLoggingFailed"@,
            ExitCode::TestFailure => "TestFailure"@,
            ExitCode::TestError => "TestError"@,
            ExitCode::TestInterrupted => "TestInterrupted"@,
            ExitCode::TestUsageError => "TestUsageError"@,
            ExitCode::TestNoTestsCollected => "TestNoTestsCollected"@,
            ExitCode::CoverageThresholdNotMet => "CoverageThresholdNotMet"@,
            ExitCode::SignalHup => "SignalHup"@,
            ExitCode::SignalInt => "SignalInt"@,
            ExitCode::SignalQuit => "SignalQuit"@,
            ExitCode::SignalKill => "SignalKill"@,
            ExitCode::SignalPipe => "SignalPipe"@,
            ExitCode::SignalAlrm => "SignalAlrm"@,
            ExitCode::SignalTerm => "SignalTerm"@,
            ExitCode::SignalUsr1 => "SignalUsr1"@,
            ExitCode::SignalUsr2 => "SignalUsr2"@,
        }
    }

    open spec fn from_tag_spec(s: Seq<char>) -> Option<ExitCode> {
        if s == ExitCode::Success.tag_spec() {
            Some(ExitCode::Success)
        } else if s == ExitCode::Failure.tag_spec() {
            Some(ExitCode::Failure)
        } else if s == ExitCode::PortInUse.tag_spec() {
            Some(ExitCode::PortInUse)
        } else if s == ExitCode::PortRangeExhausted.tag_spec() {
            Some(ExitCode::PortRangeExhausted)
        } else if s == ExitCode::InstanceAlreadyRunning.tag_spec() {
            Some(ExitCode::InstanceAlreadyRunning)
        } else if s == ExitCode::NetworkUnreachable.tag_spec() {
            Some(ExitCode::NetworkUnreachable)
        } else if s == ExitCode::ConnectionRefused.tag_spec() {
            Some(ExitCode::ConnectionRefused)
        } else if s == ExitCode::ConnectionTimeout.tag_spec() {
            Some(ExitCode::ConnectionTimeout)
        } else if s == ExitCode::ConfigInvalid.tag_spec() {
            Some(ExitCode::ConfigInvalid)
        } else if s == ExitCode::MissingDependency.tag_spec() {
            Some(ExitCode::MissingDependency)
        } else if s == ExitCode::SsotVersionMismatch.tag_spec() {
            Some(ExitCode::SsotVersionMismatch)
        } else if s == ExitCode::ConfigFileNotFound.tag_spec() {
            Some(ExitCode::ConfigFileNotFound)
        } else if s == ExitCode::EnvironmentInvalid.tag_spec() {
            Some(ExitCode::EnvironmentInvalid)
        } else if s == ExitCode::HealthCheckFailed.tag_spec() {
            Some(ExitCode::HealthCheckFailed)
        } else if s == ExitCode::DatabaseUnavailable.tag_spec() {
            Some(ExitCode::DatabaseUnavailable)
        } else if s == ExitCode::ExternalServiceUnavailable.tag_spec() {
            Some(ExitCode::ExternalServiceUnavailable)
        } else if s == ExitCode::ResourceExhausted.tag_spec() {
            Some(ExitCode::ResourceExhausted)
        } else if s == ExitCode::OperationTimeout.tag_spec() {
            Some(ExitCode::OperationTimeout)
        } else if s == ExitCode::InvalidArgument.tag_spec() {
            Some(ExitCode::InvalidArgument)
        } else if s == ExitCode::MissingRequiredArgument.tag_spec() {
            Some(ExitCode::MissingRequiredArgument)
        } else if s == ExitCode::Usage.tag_spec() {
            Some(ExitCode::Usage)
        } else if s == ExitCode::PermissionDenied.tag_spec() {
            Some(ExitCode::PermissionDenied)
        } else if s == ExitCode::FileNotFound.tag_spec() {
            Some(ExitCode::FileNotFound)
        } else if s == ExitCode::DirectoryNotFound.tag_spec() {
            Some(ExitCode::DirectoryNotFound)
        } else if s == ExitCode::FileReadError.tag_spec() {
            Some(ExitCode::FileReadError)
        } else if s == ExitCode::FileWriteError.tag_spec() {
            Some(ExitCode::FileWriteError)
        } else if s == ExitCode::DataInvalid.tag_spec() {
            Some(ExitCode::DataInvalid)
        } else if s == ExitCode::ParseError.tag_spec() {
            Some(ExitCode::ParseError)
        } else if s == ExitCode::TransformationFailed.tag_spec() {
            Some(ExitCode::TransformationFailed)
        } else if s == ExitCode::DataCorrupt.tag_spec() {
            Some(ExitCode::DataCorrupt)
        } else if s == ExitCode::AuthenticationFailed.tag_spec() {
            Some(ExitCode::AuthenticationFailed)
        } else if s == ExitCode::AuthorizationFailed.tag_spec() {
            Some(ExitCode::AuthorizationFailed)
        } else if s == ExitCode::SecurityViolation.tag_spec() {
            Some(ExitCode::SecurityViolation)
        } else if s == ExitCode::CertificateInvalid.tag_spec() {
            Some(ExitCode::CertificateInvalid)
        } else if s == ExitCode::MetricsUnavailable.tag_spec() {
            Some(ExitCode::MetricsUnavailable)
        } else if s == ExitCode::TracingFailed.tag_spec() {
            Some(ExitCode::TracingFailed)
        } else if s == ExitCode::LoggingFailed.tag_spec() {
            Some(ExitCode::LoggingFailed)
        } else if s == ExitCode::AlertSystemFailed.tag_spec() {
            Some(ExitCode::AlertSystemFailed)
        } else if s == ExitCode::StructuredLoggingFailed.tag_spec() {
            Some(ExitCode::StructuredLoggingFailed)
        } else if s == ExitCode::TestFailure.tag_spec() {
            Some(ExitCode::TestFailure)
        } else if s == ExitCode::TestError.tag_spec() {
            Some(ExitCode::TestError)
        } else if s == ExitCode::TestInterrupted.tag_spec() {
            Some(ExitCode::TestInterrupted)
        } else if s == ExitCode::TestUsageError.tag_spec() {
            Some(ExitCode::TestUsageError)
        } else if s == ExitCode::TestNoTestsCollected.tag_spec() {
            Some(ExitCode::TestNoTestsCollected)
        } else if s == ExitCode::CoverageThresholdNotMet.tag_spec() {
            Some(ExitCode::CoverageThresholdNotMet)
        } else if s == ExitCode::SignalHup.tag_spec() {
            Some(ExitCode::SignalHup)
        } else if s == ExitCode::SignalInt.tag_spec() {
            Some(ExitCode::SignalInt)
        } else if s == ExitCode::SignalQuit.tag_spec() {
            Some(ExitCode::SignalQuit)
        } else if s == ExitCode::SignalKill.tag_spec() {
            Some(ExitCode::SignalKill)
        } else if s == ExitCode::SignalPipe.tag_spec() {
            Some(ExitCode::SignalPipe)
        } else if s == ExitCode::SignalAlrm.tag_spec() {
            Some(ExitCode::SignalAlrm)
        } else if s == ExitCode::SignalTerm.tag_spec() {
            Some(ExitCode::SignalTerm)
        } else if s == ExitCode::SignalUsr1.tag_spec() {
            Some(ExitCode::SignalUsr1)
        } else if s == ExitCode::SignalUsr2.tag_spec() {
            Some(ExitCode::SignalUsr2)
        } else {
            None
        }
    }

    #[verifier::rlimit(60)]
    proof fn lemma_tag_round_trip(self) {
        reveal_strlit("Success");
        assert("Success"@.len() == 7);
        reveal_strlit("Failure");
        assert("Failure"@.len() == 7);
        reveal_strlit("PortInUse");
        assert("PortInUse"@.len() == 9);
        reveal_strlit("PortRangeExhausted");
        assert("PortRangeExhausted"@.len() == 18);
        reveal_strlit("InstanceAlreadyRunning");
        assert("InstanceAlreadyRunning"@.len() == 22);
        reveal_strlit("NetworkUnreachable");
        assert("NetworkUnreachable"@.len() == 18);
        reveal_strlit("ConnectionRefused");
        assert("ConnectionRefused"@.len() == 17);
        reveal_strlit("ConnectionTimeout");
        assert("ConnectionTimeout"@.len() == 17);
        reveal_strlit("ConfigInvalid");
        assert("ConfigInvalid"@.len() == 13);
        reveal_strlit("MissingDependency");
        assert("MissingDependency"@.len() == 17);
        reveal_strlit("SsotVersionMismatch");
        assert("SsotVersionMismatch"@.len() == 19);
        reveal_strlit("ConfigFileNotFound");
        assert("ConfigFileNotFound"@.len() == 18);
        reveal_strlit("EnvironmentInvalid");
        assert("EnvironmentInvalid"@.len() == 18);
        reveal_strlit("HealthCheckFailed");
        assert("HealthCheckFailed"@.len() == 17);
        reveal_strlit("DatabaseUnavailable");
        assert("DatabaseUnavailable"@.len() == 19);
        reveal_strlit("ExternalServiceUnavailable");
        assert("ExternalServiceUnavailable"@.len() == 26);
        reveal_strlit("ResourceExhausted");
        assert("ResourceExhausted"@.len() == 17);
        reveal_strlit("OperationTimeout");
        assert("OperationTimeout"@.len() == 16);
        reveal_strlit("InvalidArgument");
        assert("InvalidArgument"@.len() == 15);
        reveal_strlit("MissingRequiredArgument");
        assert("MissingRequiredArgument"@.len() == 23);
        reveal_strlit("Usage");
        assert("Usage"@.len() == 5);
        reveal_strlit("PermissionDenied");
        assert("PermissionDenied"@.len() == 16);
        reveal_strlit("FileNotFound");
        assert("FileNotFound"@.len() == 12);
        reveal_strlit("DirectoryNotFound");
        assert("DirectoryNotFound"@.len() == 17);
        reveal_strlit("FileReadError");
        assert("FileReadError"@.len() == 13);
        reveal_strlit("FileWriteError");
        assert("FileWriteError"@.len() == 14);
        reveal_strlit("DataInvalid");
        assert("DataInvalid"@.len() == 11);
        reveal_strlit("ParseError");
        assert("ParseError"@.len() == 10);
        reveal_strlit("TransformationFailed");
        assert("TransformationFailed"@.len() == 20);
        reveal_strlit("DataCorrupt");
        assert("DataCorrupt"@.len() == 11);
        reveal_strlit("AuthenticationFailed");
        assert("AuthenticationFailed"@.len() == 20);
        reveal_strlit("AuthorizationFailed");
        assert("AuthorizationFailed"@.len() == 19);
        reveal_strlit("SecurityViolation");
        assert("SecurityViolation"@.len() == 17);
        reveal_strlit("CertificateInvalid");
        assert("CertificateInvalid"@.len() == 18);
        reveal_strlit("MetricsUnavailable");
        assert("MetricsUnavailable"@.len() == 18);
        reveal_strlit("TracingFailed");
        assert("TracingFailed"@.len() == 13);
        reveal_strlit("LoggingFailed");
        assert("LoggingFailed"@.len() == 13);
        reveal_strlit("AlertSystemFailed");
        assert("AlertSystemFailed"@.len() == 17);
        reveal_strlit("StructuredLoggingFailed");
        assert("StructuredLoggingFailed"@.len() == 23);
        reveal_strlit("TestFailure");
        assert("TestFailure"@.len() == 11);
        reveal_strlit("TestError");
        assert("TestError"@.len() == 9);
        reveal_strlit("TestInterrupted");
        assert("TestInterrupted"@.len() == 15);
        reveal_strlit("TestUsageError");
        assert("TestUsageError"@.len() == 14);
        reveal_strlit("TestNoTestsCollected");
        assert("TestNoTestsCollected"@.len() == 20);
        reveal_strlit("CoverageThresholdNotMet");
        assert("CoverageThresholdNotMet"@.len() == 23);
        reveal_strlit("SignalHup");
        assert("SignalHup"@.len() == 9);
        reveal_strlit("SignalInt");
        assert("SignalInt"@.len() == 9);
        reveal_strlit("SignalQuit");
        assert("SignalQuit"@.len() == 10);
        reveal_strlit("SignalKill");
        assert("SignalKill"@.len() == 10);
        reveal_strlit("SignalPipe");
        assert("SignalPipe"@.len() == 10);
        reveal_strlit("SignalAlrm");
        assert("SignalAlrm"@.len() == 10);
        reveal_strlit("SignalTerm");
        assert("SignalTerm"@.len() == 10);
        reveal_strlit("SignalUsr1");
        assert("SignalUsr1"@.len() == 10);
        reveal_strlit("SignalUsr2");
        assert("SignalUsr2"@.len() == 10);
        assert("Failure"@[0] == 'F');
        assert("Success"@[0] == 'S');
        assert("NetworkUnreachable"@[0] == 'N');
        assert("PortRangeExhausted"@[0] == 'P');
        assert("ConnectionTimeout"@[10] == 'T');
        assert("ConnectionRefused"@[10] == 'R');
        assert("MissingDependency"@[0] == 'M');
        assert("ConnectionRefused"@[0] == 'C');
        assert("ConnectionTimeout"@[0] == 'C');
        assert("ConfigFileNotFound"@[0] == 'C');
        assert("EnvironmentInvalid"@[0] == 'E');
        assert("HealthCheckFailed"@[0] == 'H');
        assert("DatabaseUnavailable"@[0] == 'D');
        assert("SsotVersionMismatch"@[0] == 'S');
        assert("ResourceExhausted"@[0] == 'R');
        assert("PermissionDenied"@[0] == 'P');
        assert("OperationTimeout"@[0] == 'O');
        assert("DirectoryNotFound"@[0] == 'D');
        assert("FileReadError"@[0] == 'F');
        assert("ConfigInvalid"@[0] == 'C');
        assert("DataCorrupt"@[4] == 'C');
        assert("DataInvalid"@[4] == 'I');
        assert("AuthenticationFailed"@[0] == 'A');
        assert("TransformationFailed"@[0] == 'T');
        assert("AuthorizationFailed"@[0] == 'A');
        assert("SecurityViolation"@[0] == 'S');
        assert("CertificateInvalid"@[0] == 'C');
        assert("CertificateInvalid"@[1] == 'e');
        assert("ConfigFileNotFound"@[1] == 'o');
        assert("MetricsUnavailable"@[0] == 'M');
        assert("TracingFailed"@[0] == 'T');
        assert("LoggingFailed"@[0] == 'L');
        assert("AlertSystemFailed"@[0] == 'A');
        assert("StructuredLoggingFailed"@[0] == 'S');
        assert("MissingRequiredArgument"@[0] == 'M');
        assert("TestFailure"@[0] == 'T');
        assert("DataInvalid"@[0] == 'D');
        assert("DataCorrupt"@[0] == 'D');
        assert("TestError"@[0] == 'T');
        assert("PortInUse"@[0] == 'P');
        assert("TestInterrupted"@[0] == 'T');
        assert("InvalidArgument"@[0] == 'I');
        assert("TestUsageError"@[0] == 'T');
        assert("FileWriteError"@[0] == 'F');
        assert("TestNoTestsCollected"@[1] == 'e');
        assert("TransformationFailed"@[1] == 'r');
        assert("TestNoTestsCollected"@[0] == 'T');
        assert("CoverageThresholdNotMet"@[0] == 'C');
        assert("SignalHup"@[0] == 'S');
        assert("SignalInt"@[0] == 'S');
        assert("SignalInt"@[6] == 'I');
        assert("SignalHup"@[6] == 'H');
        assert("SignalQuit"@[0] == 'S');
        assert("ParseError"@[0] == 'P');
        assert("SignalKill"@[0] == 'S');
        assert("SignalKill"@[6] == 'K');
        assert("SignalQuit"@[6] == 'Q');
        assert("SignalPipe"@[0] == 'S');
        assert("SignalPipe"@[6] == 'P');
        assert("SignalAlrm"@[0] == 'S');
        assert("SignalAlrm"@[6] == 'A');
        assert("SignalTerm"@[0] == 'S');
        assert("SignalTerm"@[6] == 'T');
        assert("SignalUsr1"@[0] == 'S');
        assert("SignalUsr1"@[6] == 'U');
        assert("SignalUsr2"@[0] == 'S');
        assert("SignalUsr2"@[6] == 'U');
        assert("SignalUsr2"@[9] == '2');
        assert("SignalUsr1"@[9] == '1');
        match self {
            ExitCode::Success => {
                assert(Self::from_tag_spec(ExitCode::Success.tag_spec()) == Some(ExitCode::Success));
            },
            ExitCode::Failure => {
                assert("Failure"@ != "Success"@);
                assert(Self::from_tag_spec(ExitCode::Failure.tag_spec()) == Some(ExitCode::Failure));
            },
            ExitCode::PortInUse => {
                assert("PortInUse"@ != "Success"@);
                assert("PortInUse"@ != "Failure"@);
                assert(Self::from_tag_spec(ExitCode::PortInUse.tag_spec()) == Some(ExitCode::PortInUse));
            },
            ExitCode::PortRangeExhausted => {
                assert("PortRangeExhausted"@ != "Success"@);
                assert("PortRangeExhausted"@ != "Failure"@);
                assert("PortRangeExhausted"@ != "PortInUse"@);
                assert(Self::from_tag_spec(ExitCode::PortRangeExhausted.tag_spec()) == Some(ExitCode::PortRangeExhausted));
            },
            ExitCode::InstanceAlreadyRunning => {
                assert("InstanceAlreadyRunning"@ != "Success"@);
                assert("InstanceAlreadyRunning"@ != "Failure"@);
                assert("InstanceAlreadyRunning"@ != "PortInUse"@);
                assert("InstanceAlreadyRunning"@ != "PortRangeExhausted"@);
                assert(Self::from_tag_spec(ExitCode::InstanceAlreadyRunning.tag_spec()) == Some(ExitCode::InstanceAlreadyRunning));
            },
            ExitCode::NetworkUnreachable => {
                assert("NetworkUnreachable"@ != "Success"@);
                assert("NetworkUnreachable"@ != "Failure"@);
                assert("NetworkUnreachable"@ != "PortInUse"@);
                assert("NetworkUnreachable"@ != "PortRangeExhausted"@);
                assert("NetworkUnreachable"@ != "InstanceAlreadyRunning"@);
                assert(Self::from_tag_spec(ExitCode::NetworkUnreachable.tag_spec()) == Some(ExitCode::NetworkUnreachable));
            },
            ExitCode::ConnectionRefused => {
                assert("ConnectionRefused"@ != "Success"@);
                assert("ConnectionRefused"@ != "Failure"@);
                assert("ConnectionRefused"@ != "PortInUse"@);
                assert("ConnectionRefused"@ != "PortRangeExhausted"@);
                assert("ConnectionRefused"@ != "InstanceAlreadyRunning"@);
                assert("ConnectionRefused"@ != "NetworkUnreachable"@);
                assert(Self::from_tag_spec(ExitCode::ConnectionRefused.tag_spec()) == Some(ExitCode::ConnectionRefused));
            },
            ExitCode::ConnectionTimeout => {
                assert("ConnectionTimeout"@ != "Success"@);
                assert("ConnectionTimeout"@ != "Failure"@);
                assert("ConnectionTimeout"@ != "PortInUse"@);
                assert("ConnectionTimeout"@ != "PortRangeExhausted"@);
                assert("ConnectionTimeout"@ != "InstanceAlreadyRunning"@);
                assert("ConnectionTimeout"@ != "NetworkUnreachable"@);
                assert("ConnectionTimeout"@ != "ConnectionRefused"@);
                assert(Self::from_tag_spec(ExitCode::ConnectionTimeout.tag_spec()) == Some(ExitCode::ConnectionTimeout));
            },
            ExitCode::ConfigInvalid => {
                assert("ConfigInvalid"@ != "Success"@);
                assert("ConfigInvalid"@ != "Failure"@);
                assert("ConfigInvalid"@ != "PortInUse"@);
                assert("ConfigInvalid"@ != "PortRangeExhausted"@);
                assert("ConfigInvalid"@ != "InstanceAlreadyRunning"@);
                assert("ConfigInvalid"@ != "NetworkUnreachable"@);
                assert("ConfigInvalid"@ != "ConnectionRefused"@);
                assert("ConfigInvalid"@ != "ConnectionTimeout"@);
                assert(Self::from_tag_spec(ExitCode::ConfigInvalid.tag_spec()) == Some(ExitCode::ConfigInvalid));
            },
            ExitCode::MissingDependency => {
                assert("MissingDependency"@ != "Success"@);
                assert("MissingDependency"@ != "Failure"@);
                assert("MissingDependency"@ != "PortInUse"@);
                assert("MissingDependency"@ != "PortRangeExhausted"@);
                assert("MissingDependency"@ != "InstanceAlreadyRunning"@);
                assert("MissingDependency"@ != "NetworkUnreachable"@);
                assert("MissingDependency"@ != "ConnectionRefused"@);
                assert("MissingDependency"@ != "ConnectionTimeout"@);
                assert("MissingDependency"@ != "ConfigInvalid"@);
                assert(Self::from_tag_spec(ExitCode::MissingDependency.tag_spec()) == Some(ExitCode::MissingDependency));
            },
            ExitCode::SsotVersionMismatch => {
                assert("SsotVersionMismatch"@ != "Success"@);
                assert("SsotVersionMismatch"@ != "Failure"@);
                assert("SsotVersionMismatch"@ != "PortInUse"@);
                assert("SsotVersionMismatch"@ != "PortRangeExhausted"@);
                assert("SsotVersionMismatch"@ != "InstanceAlreadyRunning"@);
                assert("SsotVersionMismatch"@ != "NetworkUnreachable"@);
                assert("SsotVersionMismatch"@ != "ConnectionRefused"@);
                assert("SsotVersionMismatch"@ != "ConnectionTimeout"@);
                assert("SsotVersionMismatch"@ != "ConfigInvalid"@);
                assert("SsotVersionMismatch"@ != "MissingDependency"@);
                assert(Self::from_tag_spec(ExitCode::SsotVersionMismatch.tag_spec()) == Some(ExitCode::SsotVersionMismatch));
            },
            ExitCode::ConfigFileNotFound => {
                assert("ConfigFileNotFound"@ != "Success"@);
                assert("ConfigFileNotFound"@ != "Failure"@);
                assert("ConfigFileNotFound"@ != "PortInUse"@);
                assert("ConfigFileNotFound"@ != "PortRangeExhausted"@);
                assert("ConfigFileNotFound"@ != "InstanceAlreadyRunning"@);
                assert("ConfigFileNotFound"@ != "NetworkUnreachable"@);
                assert("ConfigFileNotFound"@ != "ConnectionRefused"@);
                assert("ConfigFileNotFound"@ != "ConnectionTimeout"@);
                assert("ConfigFileNotFound"@ != "ConfigInvalid"@);
                assert("ConfigFileNotFound"@ != "MissingDependency"@);
                assert("ConfigFileNotFound"@ != "SsotVersionMismatch"@);
                assert(Self::from_tag_spec(ExitCode::ConfigFileNotFound.tag_spec()) == Some(ExitCode::ConfigFileNotFound));
            },
            ExitCode::EnvironmentInvalid => {
                assert("EnvironmentInvalid"@ != "Success"@);
                assert("EnvironmentInvalid"@ != "Failure"@);
                assert("EnvironmentInvalid"@ != "PortInUse"@);
                assert("EnvironmentInvalid"@ != "PortRangeExhausted"@);
                assert("EnvironmentInvalid"@ != "InstanceAlreadyRunning"@);
                assert("EnvironmentInvalid"@ != "NetworkUnreachable"@);
                assert("EnvironmentInvalid"@ != "ConnectionRefused"@);
                assert("EnvironmentInvalid"@ != "ConnectionTimeout"@);
                assert("EnvironmentInvalid"@ != "ConfigInvalid"@);
                assert("EnvironmentInvalid"@ != "MissingDependency"@);
                assert("EnvironmentInvalid"@ != "SsotVersionMismatch"@);
                assert("EnvironmentInvalid"@ != "ConfigFileNotFound"@);
                assert(Self::from_tag_spec(ExitCode::EnvironmentInvalid.tag_spec()) == Some(ExitCode::EnvironmentInvalid));
            },
            ExitCode::HealthCheckFailed => {
                assert("HealthCheckFailed"@ != "Success"@);
                assert("HealthCheckFailed"@ != "Failure"@);
                assert("HealthCheckFailed"@ != "PortInUse"@);
                assert("HealthCheckFailed"@ != "PortRangeExhausted"@);
                assert("HealthCheckFailed"@ != "InstanceAlreadyRunning"@);
                assert("HealthCheckFailed"@ != "NetworkUnreachable"@);
                assert("HealthCheckFailed"@ != "ConnectionRefused"@);
                assert("HealthCheckFailed"@ != "ConnectionTimeout"@);
                assert("HealthCheckFailed"@ != "ConfigInvalid"@);
                assert("HealthCheckFailed"@ != "MissingDependency"@);
                assert("HealthCheckFailed"@ != "SsotVersionMismatch"@);
                assert("HealthCheckFailed"@ != "ConfigFileNotFound"@);
                assert("HealthCheckFailed"@ != "EnvironmentInvalid"@);
                assert(Self::from_tag_spec(ExitCode::HealthCheckFailed.tag_spec()) == Some(ExitCode::HealthCheckFailed));
            },
            ExitCode::DatabaseUnavailable => {
                assert("DatabaseUnavailable"@ != "Success"@);
                assert("DatabaseUnavailable"@ != "Failure"@);
                assert("DatabaseUnavailable"@ != "PortInUse"@);
                assert("DatabaseUnavailable"@ != "PortRangeExhausted"@);
                assert("DatabaseUnavailable"@ != "InstanceAlreadyRunning"@);
                assert("DatabaseUnavailable"@ != "NetworkUnreachable"@);
                assert("DatabaseUnavailable"@ != "ConnectionRefused"@);
                assert("DatabaseUnavailable"@ != "ConnectionTimeout"@);
                assert("DatabaseUnavailable"@ != "ConfigInvalid"@);
                assert("DatabaseUnavailable"@ != "MissingDependency"@);
                assert("DatabaseUnavailable"@ != "SsotVersionMismatch"@);
                assert("DatabaseUnavailable"@ != "ConfigFileNotFound"@);
                assert("DatabaseUnavailable"@ != "EnvironmentInvalid"@);
                assert("DatabaseUnavailable"@ != "HealthCheckFailed"@);
                assert(Self::from_tag_spec(ExitCode::DatabaseUnavailable.tag_spec()) == Some(ExitCode::DatabaseUnavailable));
            },
            ExitCode::ExternalServiceUnavailable => {
                assert("ExternalServiceUnavailable"@ != "Success"@);
                assert("ExternalServiceUnavailable"@ != "Failure"@);
                assert("ExternalServiceUnavailable"@ != "PortInUse"@);
                assert("ExternalServiceUnavailable"@ != "PortRangeExhausted"@);
                assert("ExternalServiceUnavailable"@ != "InstanceAlreadyRunning"@);
                assert("ExternalServiceUnavailable"@ != "NetworkUnreachable"@);
                assert("ExternalServiceUnavailable"@ != "ConnectionRefused"@);
                assert("ExternalServiceUnavailable"@ != "ConnectionTimeout"@);
                assert("ExternalServiceUnavailable"@ != "ConfigInvalid"@);
                assert("ExternalServiceUnavailable"@ != "MissingDependency"@);
                assert("ExternalServiceUnavailable"@ != "SsotVersionMismatch"@);
                assert("ExternalServiceUnavailable"@ != "ConfigFileNotFound"@);
                assert("ExternalServiceUnavailable"@ != "EnvironmentInvalid"@);
                assert("ExternalServiceUnavailable"@ != "HealthCheckFailed"@);
                assert("ExternalServiceUnavailable"@ != "DatabaseUnavailable"@);
                assert(Self::from_tag_spec(ExitCode::ExternalServiceUnavailable.tag_spec()) == Some(ExitCode::ExternalServiceUnavailable));
            },
            ExitCode::ResourceExhausted => {
                assert("ResourceExhausted"@ != "Success"@);
                assert("ResourceExhausted"@ != "Failure"@);
                assert("ResourceExhausted"@ != "PortInUse"@);
                assert("ResourceExhausted"@ != "PortRangeExhausted"@);
                assert("ResourceExhausted"@ != "InstanceAlreadyRunning"@);
                assert("ResourceExhausted"@ != "NetworkUnreachable"@);
                assert("ResourceExhausted"@ != "ConnectionRefused"@);
                assert("ResourceExhausted"@ != "ConnectionTimeout"@);
                assert("ResourceExhausted"@ != "ConfigInvalid"@);
                assert("ResourceExhausted"@ != "MissingDependency"@);
                assert("ResourceExhausted"@ != "SsotVersionMismatch"@);
                assert("ResourceExhausted"@ != "ConfigFileNotFound"@);
                assert("ResourceExhausted"@ != "EnvironmentInvalid"@);
                assert("ResourceExhausted"@ != "HealthCheckFailed"@);
                assert("ResourceExhausted"@ != "DatabaseUnavailable"@);
                assert("ResourceExhausted"@ != "ExternalServiceUnavailable"@);
                assert(Self::from_tag_spec(ExitCode::ResourceExhausted.tag_spec()) == Some(ExitCode::ResourceExhausted));
            },
            ExitCode::OperationTimeout => {
                assert("OperationTimeout"@ != "Success"@);
                assert("OperationTimeout"@ != "Failure"@);
                assert("OperationTimeout"@ != "PortInUse"@);
                assert("OperationTimeout"@ != "PortRangeExhausted"@);
                assert("OperationTimeout"@ != "InstanceAlreadyRunning"@);
                assert("OperationTimeout"@ != "NetworkUnreachable"@);
                assert("OperationTimeout"@ != "ConnectionRefused"@);
                assert("OperationTimeout"@ != "ConnectionTimeout"@);
                assert("OperationTimeout"@ != "ConfigInvalid"@);
                assert("OperationTimeout"@ != "MissingDependency"@);
                assert("OperationTimeout"@ != "SsotVersionMismatch"@);
                assert("OperationTimeout"@ != "ConfigFileNotFound"@);
                assert("OperationTimeout"@ != "EnvironmentInvalid"@);
                assert("OperationTimeout"@ != "HealthCheckFailed"@);
                assert("OperationTimeout"@ != "DatabaseUnavailable"@);
                assert("OperationTimeout"@ != "ExternalServiceUnavailable"@);
                assert("OperationTimeout"@ != "ResourceExhausted"@);
                assert(Self::from_tag_spec(ExitCode::OperationTimeout.tag_spec()) == Some(ExitCode::OperationTimeout));
            },
            ExitCode::InvalidArgument => {
                assert("InvalidArgument"@ != "Success"@);
                assert("InvalidArgument"@ != "Failure"@);
                assert("InvalidArgument"@ != "PortInUse"@);
                assert("InvalidArgument"@ != "PortRangeExhausted"@);
                assert("InvalidArgument"@ != "InstanceAlreadyRunning"@);
                assert("InvalidArgument"@ != "NetworkUnreachable"@);
                assert("InvalidArgument"@ != "ConnectionRefused"@);
                assert("InvalidArgument"@ != "ConnectionTimeout"@);
                assert("InvalidArgument"@ != "ConfigInvalid"@);
                assert("InvalidArgument"@ != "MissingDependency"@);
                assert("InvalidArgument"@ != "SsotVersionMismatch"@);
                assert("InvalidArgument"@ != "ConfigFileNotFound"@);
                assert("InvalidArgument"@ != "EnvironmentInvalid"@);
                assert("InvalidArgument"@ != "HealthCheckFailed"@);
                assert("InvalidArgument"@ != "DatabaseUnavailable"@);
                assert("InvalidArgument"@ != "ExternalServiceUnavailable"@);
                assert("InvalidArgument"@ != "ResourceExhausted"@);
                assert("InvalidArgument"@ != "OperationTimeout"@);
                assert(Self::from_tag_spec(ExitCode::InvalidArgument.tag_spec()) == Some(ExitCode::InvalidArgument));
            },
            ExitCode::MissingRequiredArgument => {
                assert("MissingRequiredArgument"@ != "Success"@);
                assert("MissingRequiredArgument"@ != "Failure"@);
                assert("MissingRequiredArgument"@ != "PortInUse"@);
                assert("MissingRequiredArgument"@ != "PortRangeExhausted"@);
                assert("MissingRequiredArgument"@ != "InstanceAlreadyRunning"@);
                assert("MissingRequiredArgument"@ != "NetworkUnreachable"@);
                assert("MissingRequiredArgument"@ != "ConnectionRefused"@);
                assert("MissingRequiredArgument"@ != "ConnectionTimeout"@);
                assert("MissingRequiredArgument"@ != "ConfigInvalid"@);
                assert("MissingRequiredArgument"@ != "MissingDependency"@);
                assert("MissingRequiredArgument"@ != "SsotVersionMismatch"@);
                assert("MissingRequiredArgument"@ != "ConfigFileNotFound"@);
                assert("MissingRequiredArgument"@ != "EnvironmentInvalid"@);
                assert("MissingRequiredArgument"@ != "HealthCheckFailed"@);
                assert("MissingRequiredArgument"@ != "DatabaseUnavailable"@);
                assert("MissingRequiredArgument"@ != "ExternalServiceUnavailable"@);
                assert("MissingRequiredArgument"@ != "ResourceExhausted"@);
                assert("MissingRequiredArgument"@ != "OperationTimeout"@);
                assert("MissingRequiredArgument"@ != "InvalidArgument"@);
                assert(Self::from_tag_spec(ExitCode::MissingRequiredArgument.tag_spec()) == Some(ExitCode::MissingRequiredArgument));
            },
            ExitCode::Usage => {
                assert("Usage"@ != "Success"@);
                assert("Usage"@ != "Failure"@);
                assert("Usage"@ != "PortInUse"@);
                assert("Usage"@ != "PortRangeExhausted"@);
                assert("Usage"@ != "InstanceAlreadyRunning"@);
                assert("Usage"@ != "NetworkUnreachable"@);
                assert("Usage"@ != "ConnectionRefused"@);
                assert("Usage"@ != "ConnectionTimeout"@);
                assert("Usage"@ != "ConfigInvalid"@);
                assert("Usage"@ != "MissingDependency"@);
                assert("Usage"@ != "SsotVersionMismatch"@);
                assert("Usage"@ != "ConfigFileNotFound"@);
                assert("Usage"@ != "EnvironmentInvalid"@);
                assert("Usage"@ != "HealthCheckFailed"@);
                assert("Usage"@ != "DatabaseUnavailable"@);
                assert("Usage"@ != "ExternalServiceUnavailable"@);
                assert("Usage"@ != "ResourceExhausted"@);
                assert("Usage"@ != "OperationTimeout"@);
                assert("Usage"@ != "InvalidArgument"@);
                assert("Usage"@ != "MissingRequiredArgument"@);
                assert(Self::from_tag_spec(ExitCode::Usage.tag_spec()) == Some(ExitCode::Usage));
            },
            ExitCode::PermissionDenied => {
                assert("PermissionDenied"@ != "Success"@);
                assert("PermissionDenied"@ != "Failure"@);
                assert("PermissionDenied"@ != "PortInUse"@);
                assert("PermissionDenied"@ != "PortRangeExhausted"@);
                assert("PermissionDenied"@ != "InstanceAlreadyRunning"@);
                assert("PermissionDenied"@ != "NetworkUnreachable"@);
                assert("PermissionDenied"@ != "ConnectionRefused"@);
                assert("PermissionDenied"@ != "ConnectionTimeout"@);
                assert("PermissionDenied"@ != "ConfigInvalid"@);
                assert("PermissionDenied"@ != "MissingDependency"@);
                assert("PermissionDenied"@ != "SsotVersionMismatch"@);
                assert("PermissionDenied"@ != "ConfigFileNotFound"@);
                assert("PermissionDenied"@ != "EnvironmentInvalid"@);
                assert("PermissionDenied"@ != "HealthCheckFailed"@);
                assert("PermissionDenied"@ != "DatabaseUnavailable"@);
                assert("PermissionDenied"@ != "ExternalServiceUnavailable"@);
                assert("PermissionDenied"@ != "ResourceExhausted"@);
                assert("PermissionDenied"@ != "OperationTimeout"@);
                assert("PermissionDenied"@ != "InvalidArgument"@);
                assert("PermissionDenied"@ != "MissingRequiredArgument"@);
                assert("PermissionDenied"@ != "Usage"@);
                assert(Self::from_tag_spec(ExitCode::PermissionDenied.tag_spec()) == Some(ExitCode::PermissionDenied));
            },
            ExitCode::FileNotFound => {
                assert("FileNotFound"@ != "Success"@);
                assert("FileNotFound"@ != "Failure"@);
                assert("FileNotFound"@ != "PortInUse"@);
                assert("FileNotFound"@ != "PortRangeExhausted"@);
                assert("FileNotFound"@ != "InstanceAlreadyRunning"@);
                assert("FileNotFound"@ != "NetworkUnreachable"@);
                assert("FileNotFound"@ != "ConnectionRefused"@);
                assert("FileNotFound"@ != "ConnectionTimeout"@);
                assert("FileNotFound"@ != "ConfigInvalid"@);
                assert("FileNotFound"@ != "MissingDependency"@);
                assert("FileNotFound"@ != "SsotVersionMismatch"@);
                assert("FileNotFound"@ != "ConfigFileNotFound"@);
                assert("FileNotFound"@ != "EnvironmentInvalid"@);
                assert("FileNotFound"@ != "HealthCheckFailed"@);
                assert("FileNotFound"@ != "DatabaseUnavailable"@);
                assert("FileNotFound"@ != "ExternalServiceUnavailable"@);
                assert("FileNotFound"@ != "ResourceExhausted"@);
                assert("FileNotFound"@ != "OperationTimeout"@);
                assert("FileNotFound"@ != "InvalidArgument"@);
                assert("FileNotFound"@ != "MissingRequiredArgument"@);
                assert("FileNotFound"@ != "Usage"@);
                assert("FileNotFound"@ != "PermissionDenied"@);
                assert(Self::from_tag_spec(ExitCode::FileNotFound.tag_spec()) == Some(ExitCode::FileNotFound));
            },
            ExitCode::DirectoryNotFound => {
                assert("DirectoryNotFound"@ != "Success"@);
                assert("DirectoryNotFound"@ != "Failure"@);
                assert("DirectoryNotFound"@ != "PortInUse"@);
                assert("DirectoryNotFound"@ != "PortRangeExhausted"@);
                assert("DirectoryNotFound"@ != "InstanceAlreadyRunning"@);
                assert("DirectoryNotFound"@ != "NetworkUnreachable"@);
                assert("DirectoryNotFound"@ != "ConnectionRefused"@);
                assert("DirectoryNotFound"@ != "ConnectionTimeout"@);
                assert("DirectoryNotFound"@ != "ConfigInvalid"@);
                assert("DirectoryNotFound"@ != "MissingDependency"@);
                assert("DirectoryNotFound"@ != "SsotVersionMismatch"@);
                assert("DirectoryNotFound"@ != "ConfigFileNotFound"@);
                assert("DirectoryNotFound"@ != "EnvironmentInvalid"@);
                assert("DirectoryNotFound"@ != "HealthCheckFailed"@);
                assert("DirectoryNotFound"@ != "DatabaseUnavailable"@);
                assert("DirectoryNotFound"@ != "ExternalServiceUnavailable"@);
                assert("DirectoryNotFound"@ != "ResourceExhausted"@);
                assert("DirectoryNotFound"@ != "OperationTimeout"@);
                assert("DirectoryNotFound"@ != "InvalidArgument"@);
                assert("DirectoryNotFound"@ != "MissingRequiredArgument"@);
                assert("DirectoryNotFound"@ != "Usage"@);
                assert("DirectoryNotFound"@ != "PermissionDenied"@);
                assert("DirectoryNotFound"@ != "FileNotFound"@);
                assert(Self::from_tag_spec(ExitCode::DirectoryNotFound.tag_spec()) == Some(ExitCode::DirectoryNotFound));
            },
            ExitCode::FileReadError => {
                assert("FileReadError"@ != "Success"@);
                assert("FileReadError"@ != "Failure"@);
                assert("FileReadError"@ != "PortInUse"@);
                assert("FileReadError"@ != "PortRangeExhausted"@);
                assert("FileReadError"@ != "InstanceAlreadyRunning"@);
                assert("FileReadError"@ != "NetworkUnreachable"@);
                assert("FileReadError"@ != "ConnectionRefused"@);
                assert("FileReadError"@ != "ConnectionTimeout"@);
                assert("FileReadError"@ != "ConfigInvalid"@);
                assert("FileReadError"@ != "MissingDependency"@);
                assert("FileReadError"@ != "SsotVersionMismatch"@);
                assert("FileReadError"@ != "ConfigFileNotFound"@);
                assert("FileReadError"@ != "EnvironmentInvalid"@);
                assert("FileReadError"@ != "HealthCheckFailed"@);
                assert("FileReadError"@ != "DatabaseUnavailable"@);
                assert("FileReadError"@ != "ExternalServiceUnavailable"@);
                assert("FileReadError"@ != "ResourceExhausted"@);
                assert("FileReadError"@ != "OperationTimeout"@);
                assert("FileReadError"@ != "InvalidArgument"@);
                assert("FileReadError"@ != "MissingRequiredArgument"@);
                assert("FileReadError"@ != "Usage"@);
                assert("FileReadError"@ != "PermissionDenied"@);
                assert("FileReadError"@ != "FileNotFound"@);
                assert("FileReadError"@ != "DirectoryNotFound"@);
                assert(Self::from_tag_spec(ExitCode::FileReadError.tag_spec()) == Some(ExitCode::FileReadError));
            },
            ExitCode::FileWriteError => {
                assert("FileWriteError"@ != "Success"@);
                assert("FileWriteError"@ != "Failure"@);
                assert("FileWriteError"@ != "PortInUse"@);
                assert("FileWriteError"@ != "PortRangeExhausted"@);
                assert("FileWriteError"@ != "InstanceAlreadyRunning"@);
                assert("FileWriteError"@ != "NetworkUnreachable"@);
                assert("FileWriteError"@ != "ConnectionRefused"@);
                assert("FileWriteError"@ != "ConnectionTimeout"@);
                assert("FileWriteError"@ != "ConfigInvalid"@);
                assert("FileWriteError"@ != "MissingDependency"@);
                assert("FileWriteError"@ != "SsotVersionMismatch"@);
                assert("FileWriteError"@ != "ConfigFileNotFound"@);
                assert("FileWriteError"@ != "EnvironmentInvalid"@);
                assert("FileWriteError"@ != "HealthCheckFailed"@);
                assert("FileWriteError"@ != "DatabaseUnavailable"@);
                assert("FileWriteError"@ != "ExternalServiceUnavailable"@);
                assert("FileWriteError"@ != "ResourceExhausted"@);
                assert("FileWriteError"@ != "OperationTimeout"@);
                assert("FileWriteError"@ != "InvalidArgument"@);
                assert("FileWriteError"@ != "MissingRequiredArgument"@);
                assert("FileWriteError"@ != "Usage"@);
                assert("FileWriteError"@ != "PermissionDenied"@);
                assert("FileWriteError"@ != "FileNotFound"@);
                assert("FileWriteError"@ != "DirectoryNotFound"@);
                assert("FileWriteError"@ != "FileReadError"@);
                assert(Self::from_tag_spec(ExitCode::FileWriteError.tag_spec()) == Some(ExitCode::FileWriteError));
            },
            ExitCode::DataInvalid => {
                assert("DataInvalid"@ != "Success"@);
                assert("DataInvalid"@ != "Failure"@);
                assert("DataInvalid"@ != "PortInUse"@);
                assert("DataInvalid"@ != "PortRangeExhausted"@);
                assert("DataInvalid"@ != "InstanceAlreadyRunning"@);
                assert("DataInvalid"@ != "NetworkUnreachable"@);
                assert("DataInvalid"@ != "ConnectionRefused"@);
                assert("DataInvalid"@ != "ConnectionTimeout"@);
                assert("DataInvalid"@ != "ConfigInvalid"@);
                assert("DataInvalid"@ != "MissingDependency"@);
                assert("DataInvalid"@ != "SsotVersionMismatch"@);
                assert("DataInvalid"@ != "ConfigFileNotFound"@);
                assert("DataInvalid"@ != "EnvironmentInvalid"@);
                assert("DataInvalid"@ != "HealthCheckFailed"@);
                assert("DataInvalid"@ != "DatabaseUnavailable"@);
                assert("DataInvalid"@ != "ExternalServiceUnavailable"@);
                assert("DataInvalid"@ != "ResourceExhausted"@);
                assert("DataInvalid"@ != "OperationTimeout"@);
                assert("DataInvalid"@ != "InvalidArgument"@);
                assert("DataInvalid"@ != "MissingRequiredArgument"@);
                assert("DataInvalid"@ != "Usage"@);
                assert("DataInvalid"@ != "PermissionDenied"@);
                assert("DataInvalid"@ != "FileNotFound"@);
                assert("DataInvalid"@ != "DirectoryNotFound"@);
                assert("DataInvalid"@ != "FileReadError"@);
                assert("DataInvalid"@ != "FileWriteError"@);
                assert(Self::from_tag_spec(ExitCode::DataInvalid.tag_spec()) == Some(ExitCode::DataInvalid));
            },
            ExitCode::ParseError => {
                assert("ParseError"@ != "Success"@);
                assert("ParseError"@ != "Failure"@);
                assert("ParseError"@ != "PortInUse"@);
                assert("ParseError"@ != "PortRangeExhausted"@);
                assert("ParseError"@ != "InstanceAlreadyRunning"@);
                assert("ParseError"@ != "NetworkUnreachable"@);
                assert("ParseError"@ != "ConnectionRefused"@);
                assert("ParseError"@ != "ConnectionTimeout"@);
                assert("ParseError"@ != "ConfigInvalid"@);
                assert("ParseError"@ != "MissingDependency"@);
                assert("ParseError"@ != "SsotVersionMismatch"@);
                assert("ParseError"@ != "ConfigFileNotFound"@);
                assert("ParseError"@ != "EnvironmentInvalid"@);
                assert("ParseError"@ != "HealthCheckFailed"@);
                assert("ParseError"@ != "DatabaseUnavailable"@);
                assert("ParseError"@ != "ExternalServiceUnavailable"@);
                assert("ParseError"@ != "ResourceExhausted"@);
                assert("ParseError"@ != "OperationTimeout"@);
                assert("ParseError"@ != "InvalidArgument"@);
                assert("ParseError"@ != "MissingRequiredArgument"@);
                assert("ParseError"@ != "Usage"@);
                assert("ParseError"@ != "PermissionDenied"@);
                assert("ParseError"@ != "FileNotFound"@);
                assert("ParseError"@ != "DirectoryNotFound"@);
                assert("ParseError"@ != "FileReadError"@);
                assert("ParseError"@ != "FileWriteError"@);
                assert("ParseError"@ != "DataInvalid"@);
                assert(Self::from_tag_spec(ExitCode::ParseError.tag_spec()) == Some(ExitCode::ParseError));
            },
            ExitCode::TransformationFailed => {
                assert("TransformationFailed"@ != "Success"@);
                assert("TransformationFailed"@ != "Failure"@);
                assert("TransformationFailed"@ != "PortInUse"@);
                assert("TransformationFailed"@ != "PortRangeExhausted"@);
                assert("TransformationFailed"@ != "InstanceAlreadyRunning"@);
                assert("TransformationFailed"@ != "NetworkUnreachable"@);
                assert("TransformationFailed"@ != "ConnectionRefused"@);
                assert("TransformationFailed"@ != "ConnectionTimeout"@);
                assert("TransformationFailed"@ != "ConfigInvalid"@);
                assert("TransformationFailed"@ != "MissingDependency"@);
                assert("TransformationFailed"@ != "SsotVersionMismatch"@);
                assert("TransformationFailed"@ != "ConfigFileNotFound"@);
                assert("TransformationFailed"@ != "EnvironmentInvalid"@);
                assert("TransformationFailed"@ != "HealthCheckFailed"@);
                assert("TransformationFailed"@ != "DatabaseUnavailable"@);
                assert("TransformationFailed"@ != "ExternalServiceUnavailable"@);
                assert("TransformationFailed"@ != "ResourceExhausted"@);
                assert("TransformationFailed"@ != "OperationTimeout"@);
                assert("TransformationFailed"@ != "InvalidArgument"@);
                assert("TransformationFailed"@ != "MissingRequiredArgument"@);
                assert("TransformationFailed"@ != "Usage"@);
                assert("TransformationFailed"@ != "PermissionDenied"@);
                assert("TransformationFailed"@ != "FileNotFound"@);
                assert("TransformationFailed"@ != "DirectoryNotFound"@);
                assert("TransformationFailed"@ != "FileReadError"@);
                assert("TransformationFailed"@ != "FileWriteError"@);
                assert("TransformationFailed"@ != "DataInvalid"@);
                assert("TransformationFailed"@ != "ParseError"@);
                assert(Self::from_tag_spec(ExitCode::TransformationFailed.tag_spec()) == Some(ExitCode::TransformationFailed));
            },
            ExitCode::DataCorrupt => {
                assert("DataCorrupt"@ != "Success"@);
                assert("DataCorrupt"@ != "Failure"@);
                assert("DataCorrupt"@ != "PortInUse"@);
                assert("DataCorrupt"@ != "PortRangeExhausted"@);
                assert("DataCorrupt"@ != "InstanceAlreadyRunning"@);
                assert("DataCorrupt"@ != "NetworkUnreachable"@);
                assert("DataCorrupt"@ != "ConnectionRefused"@);
                assert("DataCorrupt"@ != "ConnectionTimeout"@);
                assert("DataCorrupt"@ != "ConfigInvalid"@);
                assert("DataCorrupt"@ != "MissingDependency"@);
                assert("DataCorrupt"@ != "SsotVersionMismatch"@);
                assert("DataCorrupt"@ != "ConfigFileNotFound"@);
                assert("DataCorrupt"@ != "EnvironmentInvalid"@);
                assert("DataCorrupt"@ != "HealthCheckFailed"@);
                assert("DataCorrupt"@ != "DatabaseUnavailable"@);
                assert("DataCorrupt"@ != "ExternalServiceUnavailable"@);
                assert("DataCorrupt"@ != "ResourceExhausted"@);
                assert("DataCorrupt"@ != "OperationTimeout"@);
                assert("DataCorrupt"@ != "InvalidArgument"@);
                assert("DataCorrupt"@ != "MissingRequiredArgument"@);
                assert("DataCorrupt"@ != "Usage"@);
                assert("DataCorrupt"@ != "PermissionDenied"@);
                assert("DataCorrupt"@ != "FileNotFound"@);
                assert("DataCorrupt"@ != "DirectoryNotFound"@);
                assert("DataCorrupt"@ != "FileReadError"@);
                assert("DataCorrupt"@ != "FileWriteError"@);
                assert("DataCorrupt"@ != "DataInvalid"@);
                assert("DataCorrupt"@ != "ParseError"@);
                assert("DataCorrupt"@ != "TransformationFailed"@);
                assert(Self::from_tag_spec(ExitCode::DataCorrupt.tag_spec()) == Some(ExitCode::DataCorrupt));
            },
            ExitCode::AuthenticationFailed => {
                assert("AuthenticationFailed"@ != "Success"@);
                assert("AuthenticationFailed"@ != "Failure"@);
                assert("AuthenticationFailed"@ != "PortInUse"@);
                assert("AuthenticationFailed"@ != "PortRangeExhausted"@);
                assert("AuthenticationFailed"@ != "InstanceAlreadyRunning"@);
                assert("AuthenticationFailed"@ != "NetworkUnreachable"@);
                assert("AuthenticationFailed"@ != "ConnectionRefused"@);
                assert("AuthenticationFailed"@ != "ConnectionTimeout"@);
                assert("AuthenticationFailed"@ != "ConfigInvalid"@);
                assert("AuthenticationFailed"@ != "MissingDependency"@);
                assert("AuthenticationFailed"@ != "SsotVersionMismatch"@);
                assert("AuthenticationFailed"@ != "ConfigFileNotFound"@);
                assert("AuthenticationFailed"@ != "EnvironmentInvalid"@);
                assert("AuthenticationFailed"@ != "HealthCheckFailed"@);
                assert("AuthenticationFailed"@ != "DatabaseUnavailable"@);
                assert("AuthenticationFailed"@ != "ExternalServiceUnavailable"@);
                assert("AuthenticationFailed"@ != "ResourceExhausted"@);
                assert("AuthenticationFailed"@ != "OperationTimeout"@);
                assert("AuthenticationFailed"@ != "InvalidArgument"@);
                assert("AuthenticationFailed"@ != "MissingRequiredArgument"@);
                assert("AuthenticationFailed"@ != "Usage"@);
                assert("AuthenticationFailed"@ != "PermissionDenied"@);
                assert("AuthenticationFailed"@ != "FileNotFound"@);
                assert("AuthenticationFailed"@ != "DirectoryNotFound"@);
                assert("AuthenticationFailed"@ != "FileReadError"@);
                assert("AuthenticationFailed"@ != "FileWriteError"@);
                assert("AuthenticationFailed"@ != "DataInvalid"@);
                assert("AuthenticationFailed"@ != "ParseError"@);
                assert("AuthenticationFailed"@ != "TransformationFailed"@);
                assert("AuthenticationFailed"@ != "DataCorrupt"@);
                assert(Self::from_tag_spec(ExitCode::AuthenticationFailed.tag_spec()) == Some(ExitCode::AuthenticationFailed));
            },
            ExitCode::AuthorizationFailed => {
                assert("AuthorizationFailed"@ != "Success"@);
                assert("AuthorizationFailed"@ != "Failure"@);
                assert("AuthorizationFailed"@ != "PortInUse"@);
                assert("AuthorizationFailed"@ != "PortRangeExhausted"@);
                assert("AuthorizationFailed"@ != "InstanceAlreadyRunning"@);
                assert("AuthorizationFailed"@ != "NetworkUnreachable"@);
                assert("AuthorizationFailed"@ != "ConnectionRefused"@);
                assert("AuthorizationFailed"@ != "ConnectionTimeout"@);
                assert("AuthorizationFailed"@ != "ConfigInvalid"@);
                assert("AuthorizationFailed"@ != "MissingDependency"@);
                assert("AuthorizationFailed"@ != "SsotVersionMismatch"@);
                assert("AuthorizationFailed"@ != "ConfigFileNotFound"@);
                assert("AuthorizationFailed"@ != "EnvironmentInvalid"@);
                assert("AuthorizationFailed"@ != "HealthCheckFailed"@);
                assert("AuthorizationFailed"@ != "DatabaseUnavailable"@);
                assert("AuthorizationFailed"@ != "ExternalServiceUnavailable"@);
                assert("AuthorizationFailed"@ != "ResourceExhausted"@);
                assert("AuthorizationFailed"@ != "OperationTimeout"@);
                assert("AuthorizationFailed"@ != "InvalidArgument"@);
                assert("AuthorizationFailed"@ != "MissingRequiredArgument"@);
                assert("AuthorizationFailed"@ != "Usage"@);
                assert("AuthorizationFailed"@ != "PermissionDenied"@);
                assert("AuthorizationFailed"@ != "FileNotFound"@);
                assert("AuthorizationFailed"@ != "DirectoryNotFound"@);
                assert("AuthorizationFailed"@ != "FileReadError"@);
                assert("AuthorizationFailed"@ != "FileWriteError"@);
                assert("AuthorizationFailed"@ != "DataInvalid"@);
                assert("AuthorizationFailed"@ != "ParseError"@);
                assert("AuthorizationFailed"@ != "TransformationFailed"@);
                assert("AuthorizationFailed"@ != "DataCorrupt"@);
                assert("AuthorizationFailed"@ != "AuthenticationFailed"@);
                assert(Self::from_tag_spec(ExitCode::AuthorizationFailed.tag_spec()) == Some(ExitCode::AuthorizationFailed));
            },
            ExitCode::SecurityViolation => {
                assert("SecurityViolation"@ != "Success"@);
                assert("SecurityViolation"@ != "Failure"@);
                assert("SecurityViolation"@ != "PortInUse"@);
                assert("SecurityViolation"@ != "PortRangeExhausted"@);
                assert("SecurityViolation"@ != "InstanceAlreadyRunning"@);
                assert("SecurityViolation"@ != "NetworkUnreachable"@);
                assert("SecurityViolation"@ != "ConnectionRefused"@);
                assert("SecurityViolation"@ != "ConnectionTimeout"@);
                assert("SecurityViolation"@ != "ConfigInvalid"@);
                assert("SecurityViolation"@ != "MissingDependency"@);
                assert("SecurityViolation"@ != "SsotVersionMismatch"@);
                assert("SecurityViolation"@ != "ConfigFileNotFound"@);
                assert("SecurityViolation"@ != "EnvironmentInvalid"@);
                assert("SecurityViolation"@ != "HealthCheckFailed"@);
                assert("SecurityViolation"@ != "DatabaseUnavailable"@);
                assert("SecurityViolation"@ != "ExternalServiceUnavailable"@);
                assert("SecurityViolation"@ != "ResourceExhausted"@);
                assert("SecurityViolation"@ != "OperationTimeout"@);
                assert("SecurityViolation"@ != "InvalidArgument"@);
                assert("SecurityViolation"@ != "MissingRequiredArgument"@);
                assert("SecurityViolation"@ != "Usage"@);
                assert("SecurityViolation"@ != "PermissionDenied"@);
                assert("SecurityViolation"@ != "FileNotFound"@);
                assert("SecurityViolation"@ != "DirectoryNotFound"@);
                assert("SecurityViolation"@ != "FileReadError"@);
                assert("SecurityViolation"@ != "FileWriteError"@);
                assert("SecurityViolation"@ != "DataInvalid"@);
                assert("SecurityViolation"@ != "ParseError"@);
                assert("SecurityViolation"@ != "TransformationFailed"@);
                assert("SecurityViolation"@ != "DataCorrupt"@);
                assert("SecurityViolation"@ != "AuthenticationFailed"@);
                assert("SecurityViolation"@ != "AuthorizationFailed"@);
                assert(Self::from_tag_spec(ExitCode::SecurityViolation.tag_spec()) == Some(ExitCode::SecurityViolation));
            },
            ExitCode::CertificateInvalid => {
                assert("CertificateInvalid"@ != "Success"@);
                assert("CertificateInvalid"@ != "Failure"@);
                assert("CertificateInvalid"@ != "PortInUse"@);
                assert("CertificateInvalid"@ != "PortRangeExhausted"@);
                assert("CertificateInvalid"@ != "InstanceAlreadyRunning"@);
                assert("CertificateInvalid"@ != "NetworkUnreachable"@);
                assert("CertificateInvalid"@ != "ConnectionRefused"@);
                assert("CertificateInvalid"@ != "ConnectionTimeout"@);
                assert("CertificateInvalid"@ != "ConfigInvalid"@);
                assert("CertificateInvalid"@ != "MissingDependency"@);
                assert("CertificateInvalid"@ != "SsotVersionMismatch"@);
                assert("CertificateInvalid"@ != "ConfigFileNotFound"@);
                assert("CertificateInvalid"@ != "EnvironmentInvalid"@);
                assert("CertificateInvalid"@ != "HealthCheckFailed"@);
                assert("CertificateInvalid"@ != "DatabaseUnavailable"@);
                assert("CertificateInvalid"@ != "ExternalServiceUnavailable"@);
                assert("CertificateInvalid"@ != "ResourceExhausted"@);
                assert("CertificateInvalid"@ != "OperationTimeout"@);
                assert("CertificateInvalid"@ != "InvalidArgument"@);
                assert("CertificateInvalid"@ != "MissingRequiredArgument"@);
                assert("CertificateInvalid"@ != "Usage"@);
                assert("CertificateInvalid"@ != "PermissionDenied"@);
                assert("CertificateInvalid"@ != "FileNotFound"@);
                assert("CertificateInvalid"@ != "DirectoryNotFound"@);
                assert("CertificateInvalid"@ != "FileReadError"@);
                assert("CertificateInvalid"@ != "FileWriteError"@);
                assert("CertificateInvalid"@ != "DataInvalid"@);
                assert("CertificateInvalid"@ != "ParseError"@);
                assert("CertificateInvalid"@ != "TransformationFailed"@);
                assert("CertificateInvalid"@ != "DataCorrupt"@);
                assert("CertificateInvalid"@ != "AuthenticationFailed"@);
                assert("CertificateInvalid"@ != "AuthorizationFailed"@);
                assert("CertificateInvalid"@ != "SecurityViolation"@);
                assert(Self::from_tag_spec(ExitCode::CertificateInvalid.tag_spec()) == Some(ExitCode::CertificateInvalid));
            },
            ExitCode::MetricsUnavailable => {
                assert("MetricsUnavailable"@ != "Success"@);
                assert("MetricsUnavailable"@ != "Failure"@);
                assert("MetricsUnavailable"@ != "PortInUse"@);
                assert("MetricsUnavailable"@ != "PortRangeExhausted"@);
                assert("MetricsUnavailable"@ != "InstanceAlreadyRunning"@);
                assert("MetricsUnavailable"@ != "NetworkUnreachable"@);
                assert("MetricsUnavailable"@ != "ConnectionRefused"@);
                assert("MetricsUnavailable"@ != "ConnectionTimeout"@);
                assert("MetricsUnavailable"@ != "ConfigInvalid"@);
                assert("MetricsUnavailable"@ != "MissingDependency"@);
                assert("MetricsUnavailable"@ != "SsotVersionMismatch"@);
                assert("MetricsUnavailable"@ != "ConfigFileNotFound"@);
                assert("MetricsUnavailable"@ != "EnvironmentInvalid"@);
                assert("MetricsUnavailable"@ != "HealthCheckFailed"@);
                assert("MetricsUnavailable"@ != "DatabaseUnavailable"@);
                assert("MetricsUnavailable"@ != "ExternalServiceUnavailable"@);
                assert("MetricsUnavailable"@ != "ResourceExhausted"@);
                assert("MetricsUnavailable"@ != "OperationTimeout"@);
                assert("MetricsUnavailable"@ != "InvalidArgument"@);
                assert("MetricsUnavailable"@ != "MissingRequiredArgument"@);
                assert("MetricsUnavailable"@ != "Usage"@);
                assert("MetricsUnavailable"@ != "PermissionDenied"@);
                assert("MetricsUnavailable"@ != "FileNotFound"@);
                assert("MetricsUnavailable"@ != "DirectoryNotFound"@);
                assert("MetricsUnavailable"@ != "FileReadError"@);
                assert("MetricsUnavailable"@ != "FileWriteError"@);
                assert("MetricsUnavailable"@ != "DataInvalid"@);
                assert("MetricsUnavailable"@ != "ParseError"@);
                assert("MetricsUnavailable"@ != "TransformationFailed"@);
                assert("MetricsUnavailable"@ != "DataCorrupt"@);
                assert("MetricsUnavailable"@ != "AuthenticationFailed"@);
                assert("MetricsUnavailable"@ != "AuthorizationFailed"@);
                assert("MetricsUnavailable"@ != "SecurityViolation"@);
                assert("MetricsUnavailable"@ != "CertificateInvalid"@);
                assert(Self::from_tag_spec(ExitCode::MetricsUnavailable.tag_spec()) == Some(ExitCode::MetricsUnavailable));
            },
            ExitCode::TracingFailed => {
                assert("TracingFailed"@ != "Success"@);
                assert("TracingFailed"@ != "Failure"@);
                assert("TracingFailed"@ != "PortInUse"@);
                assert("TracingFailed"@ != "PortRangeExhausted"@);
                assert("TracingFailed"@ != "InstanceAlreadyRunning"@);
                assert("TracingFailed"@ != "NetworkUnreachable"@);
                assert("TracingFailed"@ != "ConnectionRefused"@);
                assert("TracingFailed"@ != "ConnectionTimeout"@);
                assert("TracingFailed"@ != "ConfigInvalid"@);
                assert("TracingFailed"@ != "MissingDependency"@);
                assert("TracingFailed"@ != "SsotVersionMismatch"@);
                assert("TracingFailed"@ != "ConfigFileNotFound"@);
                assert("TracingFailed"@ != "EnvironmentInvalid"@);
                assert("TracingFailed"@ != "HealthCheckFailed"@);
                assert("TracingFailed"@ != "DatabaseUnavailable"@);
                assert("TracingFailed"@ != "ExternalServiceUnavailable"@);
                assert("TracingFailed"@ != "ResourceExhausted"@);
                assert("TracingFailed"@ != "OperationTimeout"@);
                assert("TracingFailed"@ != "InvalidArgument"@);
                assert("TracingFailed"@ != "MissingRequiredArgument"@);
                assert("TracingFailed"@ != "Usage"@);
                assert("TracingFailed"@ != "PermissionDenied"@);
                assert("TracingFailed"@ != "FileNotFound"@);
                assert("TracingFailed"@ != "DirectoryNotFound"@);
                assert("TracingFailed"@ != "FileReadError"@);
                assert("TracingFailed"@ != "FileWriteError"@);
                assert("TracingFailed"@ != "DataInvalid"@);
                assert("TracingFailed"@ != "ParseError"@);
                assert("TracingFailed"@ != "TransformationFailed"@);
                assert("TracingFailed"@ != "DataCorrupt"@);
                assert("TracingFailed"@ != "AuthenticationFailed"@);
                assert("TracingFailed"@ != "AuthorizationFailed"@);
                assert("TracingFailed"@ != "SecurityViolation"@);
                assert("TracingFailed"@ != "CertificateInvalid"@);
                assert("TracingFailed"@ != "MetricsUnavailable"@);
                assert(Self::from_tag_spec(ExitCode::TracingFailed.tag_spec()) == Some(ExitCode::TracingFailed));
            },
            ExitCode::LoggingFailed => {
                assert("LoggingFailed"@ != "Success"@);
                assert("LoggingFailed"@ != "Failure"@);
                assert("LoggingFailed"@ != "PortInUse"@);
                assert("LoggingFailed"@ != "PortRangeExhausted"@);
                assert("LoggingFailed"@ != "InstanceAlreadyRunning"@);
                assert("LoggingFailed"@ != "NetworkUnreachable"@);
                assert("LoggingFailed"@ != "ConnectionRefused"@);
                assert("LoggingFailed"@ != "ConnectionTimeout"@);
                assert("LoggingFailed"@ != "ConfigInvalid"@);
                assert("LoggingFailed"@ != "MissingDependency"@);
                assert("LoggingFailed"@ != "SsotVersionMismatch"@);
                assert("LoggingFailed"@ != "ConfigFileNotFound"@);
                assert("LoggingFailed"@ != "EnvironmentInvalid"@);
                assert("LoggingFailed"@ != "HealthCheckFailed"@);
                assert("LoggingFailed"@ != "DatabaseUnavailable"@);
                assert("LoggingFailed"@ != "ExternalServiceUnavailable"@);
                assert("LoggingFailed"@ != "ResourceExhausted"@);
                assert("LoggingFailed"@ != "OperationTimeout"@);
                assert("LoggingFailed"@ != "InvalidArgument"@);
                assert("LoggingFailed"@ != "MissingRequiredArgument"@);
                assert("LoggingFailed"@ != "Usage"@);
                assert("LoggingFailed"@ != "PermissionDenied"@);
                assert("LoggingFailed"@ != "FileNotFound"@);
                assert("LoggingFailed"@ != "DirectoryNotFound"@);
                assert("LoggingFailed"@ != "FileReadError"@);
                assert("LoggingFailed"@ != "FileWriteError"@);
                assert("LoggingFailed"@ != "DataInvalid"@);
                assert("LoggingFailed"@ != "ParseError"@);
                assert("LoggingFailed"@ != "TransformationFailed"@);
                assert("LoggingFailed"@ != "DataCorrupt"@);
                assert("LoggingFailed"@ != "AuthenticationFailed"@);
                assert("LoggingFailed"@ != "AuthorizationFailed"@);
                assert("LoggingFailed"@ != "SecurityViolation"@);
                assert("LoggingFailed"@ != "CertificateInvalid"@);
                assert("LoggingFailed"@ != "MetricsUnavailable"@);
                assert("LoggingFailed"@ != "TracingFailed"@);
                assert(Self::from_tag_spec(ExitCode::LoggingFailed.tag_spec()) == Some(ExitCode::LoggingFailed));
            },
            ExitCode::AlertSystemFailed => {
                assert("AlertSystemFailed"@ != "Success"@);
                assert("AlertSystemFailed"@ != "Failure"@);
                assert("AlertSystemFailed"@ != "PortInUse"@);
                assert("AlertSystemFailed"@ != "PortRangeExhausted"@);
                assert("AlertSystemFailed"@ != "InstanceAlreadyRunning"@);
                assert("AlertSystemFailed"@ != "NetworkUnreachable"@);
                assert("AlertSystemFailed"@ != "ConnectionRefused"@);
                assert("AlertSystemFailed"@ != "ConnectionTimeout"@);
                assert("AlertSystemFailed"@ != "ConfigInvalid"@);
                assert("AlertSystemFailed"@ != "MissingDependency"@);
                assert("AlertSystemFailed"@ != "SsotVersionMismatch"@);
                assert("AlertSystemFailed"@ != "ConfigFileNotFound"@);
                assert("AlertSystemFailed"@ != "EnvironmentInvalid"@);
                assert("AlertSystemFailed"@ != "HealthCheckFailed"@);
                assert("AlertSystemFailed"@ != "DatabaseUnavailable"@);
                assert("AlertSystemFailed"@ != "ExternalServiceUnavailable"@);
                assert("AlertSystemFailed"@ != "ResourceExhausted"@);
                assert("AlertSystemFailed"@ != "OperationTimeout"@);
                assert("AlertSystemFailed"@ != "InvalidArgument"@);
                assert("AlertSystemFailed"@ != "MissingRequiredArgument"@);
                assert("AlertSystemFailed"@ != "Usage"@);
                assert("AlertSystemFailed"@ != "PermissionDenied"@);
                assert("AlertSystemFailed"@ != "FileNotFound"@);
                assert("AlertSystemFailed"@ != "DirectoryNotFound"@);
                assert("AlertSystemFailed"@ != "FileReadError"@);
                assert("AlertSystemFailed"@ != "FileWriteError"@);
                assert("AlertSystemFailed"@ != "DataInvalid"@);
                assert("AlertSystemFailed"@ != "ParseError"@);
                assert("AlertSystemFailed"@ != "TransformationFailed"@);
                assert("AlertSystemFailed"@ != "DataCorrupt"@);
                assert("AlertSystemFailed"@ != "AuthenticationFailed"@);
                assert("AlertSystemFailed"@ != "AuthorizationFailed"@);
                assert("AlertSystemFailed"@ != "SecurityViolation"@);
                assert("AlertSystemFailed"@ != "CertificateInvalid"@);
                assert("AlertSystemFailed"@ != "MetricsUnavailable"@);
                assert("AlertSystemFailed"@ != "TracingFailed"@);
                assert("AlertSystemFailed"@ != "LoggingFailed"@);
                assert(Self::from_tag_spec(ExitCode::AlertSystemFailed.tag_spec()) == Some(ExitCode::AlertSystemFailed));
            },
            ExitCode::StructuredLoggingFailed => {
                assert("StructuredLoggingFailed"@ != "Success"@);
                assert("StructuredLoggingFailed"@ != "Failure"@);
                assert("StructuredLoggingFailed"@ != "PortInUse"@);
                assert("StructuredLoggingFailed"@ != "PortRangeExhausted"@);
                assert("StructuredLoggingFailed"@ != "InstanceAlreadyRunning"@);
                assert("StructuredLoggingFailed"@ != "NetworkUnreachable"@);
                assert("StructuredLoggingFailed"@ != "ConnectionRefused"@);
                assert("StructuredLoggingFailed"@ != "ConnectionTimeout"@);
                assert("StructuredLoggingFailed"@ != "ConfigInvalid"@);
                assert("StructuredLoggingFailed"@ != "MissingDependency"@);
                assert("StructuredLoggingFailed"@ != "SsotVersionMismatch"@);
                assert("StructuredLoggingFailed"@ != "ConfigFileNotFound"@);
                assert("StructuredLoggingFailed"@ != "EnvironmentInvalid"@);
                assert("StructuredLoggingFailed"@ != "HealthCheckFailed"@);
                assert("StructuredLoggingFailed"@ != "DatabaseUnavailable"@);
                assert("StructuredLoggingFailed"@ != "ExternalServiceUnavailable"@);
                assert("StructuredLoggingFailed"@ != "ResourceExhausted"@);
                assert("StructuredLoggingFailed"@ != "OperationTimeout"@);
                assert("StructuredLoggingFailed"@ != "InvalidArgument"@);
                assert("StructuredLoggingFailed"@ != "MissingRequiredArgument"@);
                assert("StructuredLoggingFailed"@ != "Usage"@);
                assert("StructuredLoggingFailed"@ != "PermissionDenied"@);
                assert("StructuredLoggingFailed"@ != "FileNotFound"@);
                assert("StructuredLoggingFailed"@ != "DirectoryNotFound"@);
                assert("StructuredLoggingFailed"@ != "FileReadError"@);
                assert("StructuredLoggingFailed"@ != "FileWriteError"@);
                assert("StructuredLoggingFailed"@ != "DataInvalid"@);
                assert("StructuredLoggingFailed"@ != "ParseError"@);
                assert("StructuredLoggingFailed"@ != "TransformationFailed"@);
                assert("StructuredLoggingFailed"@ != "DataCorrupt"@);
                assert("StructuredLoggingFailed"@ != "AuthenticationFailed"@);
                assert("StructuredLoggingFailed"@ != "AuthorizationFailed"@);
                assert("StructuredLoggingFailed"@ != "SecurityViolation"@);
                assert("StructuredLoggingFailed"@ != "CertificateInvalid"@);
                assert("StructuredLoggingFailed"@ != "MetricsUnavailable"@);
                assert("StructuredLoggingFailed"@ != "TracingFailed"@);
                assert("StructuredLoggingFailed"@ != "LoggingFailed"@);
                assert("StructuredLoggingFailed"@ != "AlertSystemFailed"@);
                assert(Self::from_tag_spec(ExitCode::StructuredLoggingFailed.tag_spec()) == Some(ExitCode::StructuredLoggingFailed));
            },
            ExitCode::TestFailure => {
                assert("TestFailure"@ != "Success"@);
                assert("TestFailure"@ != "Failure"@);
                assert("TestFailure"@ != "PortInUse"@);
                assert("TestFailure"@ != "PortRangeExhausted"@);
                assert("TestFailure"@ != "InstanceAlreadyRunning"@);
                assert("TestFailure"@ != "NetworkUnreachable"@);
                assert("TestFailure"@ != "ConnectionRefused"@);
                assert("TestFailure"@ != "ConnectionTimeout"@);
                assert("TestFailure"@ != "ConfigInvalid"@);
                assert("TestFailure"@ != "MissingDependency"@);
                assert("TestFailure"@ != "SsotVersionMismatch"@);
                assert("TestFailure"@ != "ConfigFileNotFound"@);
                assert("TestFailure"@ != "EnvironmentInvalid"@);
                assert("TestFailure"@ != "HealthCheckFailed"@);
                assert("TestFailure"@ != "DatabaseUnavailable"@);
                assert("TestFailure"@ != "ExternalServiceUnavailable"@);
                assert("TestFailure"@ != "ResourceExhausted"@);
                assert("TestFailure"@ != "OperationTimeout"@);
                assert("TestFailure"@ != "InvalidArgument"@);
                assert("TestFailure"@ != "MissingRequiredArgument"@);
                assert("TestFailure"@ != "Usage"@);
                assert("TestFailure"@ != "PermissionDenied"@);
                assert("TestFailure"@ != "FileNotFound"@);
                assert("TestFailure"@ != "DirectoryNotFound"@);
                assert("TestFailure"@ != "FileReadError"@);
                assert("TestFailure"@ != "FileWriteError"@);
                assert("TestFailure"@ != "DataInvalid"@);
                assert("TestFailure"@ != "ParseError"@);
                assert("TestFailure"@ != "TransformationFailed"@);
                assert("TestFailure"@ != "DataCorrupt"@);
                assert("TestFailure"@ != "AuthenticationFailed"@);
                assert("TestFailure"@ != "AuthorizationFailed"@);
                assert("TestFailure"@ != "SecurityViolation"@);
                assert("TestFailure"@ != "CertificateInvalid"@);
                assert("TestFailure"@ != "MetricsUnavailable"@);
                assert("TestFailure"@ != "TracingFailed"@);
                assert("TestFailure"@ != "LoggingFailed"@);
                assert("TestFailure"@ != "AlertSystemFailed"@);
                assert("TestFailure"@ != "StructuredLoggingFailed"@);
                assert(Self::from_tag_spec(ExitCode::TestFailure.tag_spec()) == Some(ExitCode::TestFailure));
            },
            ExitCode::TestError => {
                assert("TestError"@ != "Success"@);
                assert("TestError"@ != "Failure"@);
                assert("TestError"@ != "PortInUse"@);
                assert("TestError"@ != "PortRangeExhausted"@);
                assert("TestError"@ != "InstanceAlreadyRunning"@);
                assert("TestError"@ != "NetworkUnreachable"@);
                assert("TestError"@ != "ConnectionRefused"@);
                assert("TestError"@ != "ConnectionTimeout"@);
                assert("TestError"@ != "ConfigInvalid"@);
                assert("TestError"@ != "MissingDependency"@);
                assert("TestError"@ != "SsotVersionMismatch"@);
                assert("TestError"@ != "ConfigFileNotFound"@);
                assert("TestError"@ != "EnvironmentInvalid"@);
                assert("TestError"@ != "HealthCheckFailed"@);
                assert("TestError"@ != "DatabaseUnavailable"@);
                assert("TestError"@ != "ExternalServiceUnavailable"@);
                assert("TestError"@ != "ResourceExhausted"@);
                assert("TestError"@ != "OperationTimeout"@);
                assert("TestError"@ != "InvalidArgument"@);
                assert("TestError"@ != "MissingRequiredArgument"@);
                assert("TestError"@ != "Usage"@);
                assert("TestError"@ != "PermissionDenied"@);
                assert("TestError"@ != "FileNotFound"@);
                assert("TestError"@ != "DirectoryNotFound"@);
                assert("TestError"@ != "FileReadError"@);
                assert("TestError"@ != "FileWriteError"@);
                assert("TestError"@ != "DataInvalid"@);
                assert("TestError"@ != "ParseError"@);
                assert("TestError"@ != "TransformationFailed"@);
                assert("TestError"@ != "DataCorrupt"@);
                assert("TestError"@ != "AuthenticationFailed"@);
                assert("TestError"@ != "AuthorizationFailed"@);
                assert("TestError"@ != "SecurityViolation"@);
                assert("TestError"@ != "CertificateInvalid"@);
                assert("TestError"@ != "MetricsUnavailable"@);
                assert("TestError"@ != "TracingFailed"@);
                assert("TestError"@ != "LoggingFailed"@);
                assert("TestError"@ != "AlertSystemFailed"@);
                assert("TestError"@ != "StructuredLoggingFailed"@);
                assert("TestError"@ != "TestFailure"@);
                assert(Self::from_tag_spec(ExitCode::TestError.tag_spec()) == Some(ExitCode::TestError));
            },
            ExitCode::TestInterrupted => {
                assert("TestInterrupted"@ != "Success"@);
                assert("TestInterrupted"@ != "Failure"@);
                assert("TestInterrupted"@ != "PortInUse"@);
                assert("TestInterrupted"@ != "PortRangeExhausted"@);
                assert("TestInterrupted"@ != "InstanceAlreadyRunning"@);
                assert("TestInterrupted"@ != "NetworkUnreachable"@);
                assert("TestInterrupted"@ != "ConnectionRefused"@);
                assert("TestInterrupted"@ != "ConnectionTimeout"@);
                assert("TestInterrupted"@ != "ConfigInvalid"@);
                assert("TestInterrupted"@ != "MissingDependency"@);
                assert("TestInterrupted"@ != "SsotVersionMismatch"@);
                assert("TestInterrupted"@ != "ConfigFileNotFound"@);
                assert("TestInterrupted"@ != "EnvironmentInvalid"@);
                assert("TestInterrupted"@ != "HealthCheckFailed"@);
                assert("TestInterrupted"@ != "DatabaseUnavailable"@);
                assert("TestInterrupted"@ != "ExternalServiceUnavailable"@);
                assert("TestInterrupted"@ != "ResourceExhausted"@);
                assert("TestInterrupted"@ != "OperationTimeout"@);
                assert("TestInterrupted"@ != "InvalidArgument"@);
                assert("TestInterrupted"@ != "MissingRequiredArgument"@);
                assert("TestInterrupted"@ != "Usage"@);
                assert("TestInterrupted"@ != "PermissionDenied"@);
                assert("TestInterrupted"@ != "FileNotFound"@);
                assert("TestInterrupted"@ != "DirectoryNotFound"@);
                assert("TestInterrupted"@ != "FileReadError"@);
                assert("TestInterrupted"@ != "FileWriteError"@);
                assert("TestInterrupted"@ != "DataInvalid"@);
                assert("TestInterrupted"@ != "ParseError"@);
                assert("TestInterrupted"@ != "TransformationFailed"@);
                assert("TestInterrupted"@ != "DataCorrupt"@);
                assert("TestInterrupted"@ != "AuthenticationFailed"@);
                assert("TestInterrupted"@ != "AuthorizationFailed"@);
                assert("TestInterrupted"@ != "SecurityViolation"@);
                assert("TestInterrupted"@ != "CertificateInvalid"@);
                assert("TestInterrupted"@ != "MetricsUnavailable"@);
                assert("TestInterrupted"@ != "TracingFailed"@);
                assert("TestInterrupted"@ != "LoggingFailed"@);
                assert("TestInterrupted"@ != "AlertSystemFailed"@);
                assert("TestInterrupted"@ != "StructuredLoggingFailed"@);
                assert("TestInterrupted"@ != "TestFailure"@);
                assert("TestInterrupted"@ != "TestError"@);
                assert(Self::from_tag_spec(ExitCode::TestInterrupted.tag_spec()) == Some(ExitCode::TestInterrupted));
            },
            ExitCode::TestUsageError => {
                assert("TestUsageError"@ != "Success"@);
                assert("TestUsageError"@ != "Failure"@);
                assert("TestUsageError"@ != "PortInUse"@);
                assert("TestUsageError"@ != "PortRangeExhausted"@);
                assert("TestUsageError"@ != "InstanceAlreadyRunning"@);
                assert("TestUsageError"@ != "NetworkUnreachable"@);
                assert("TestUsageError"@ != "ConnectionRefused"@);
                assert("TestUsageError"@ != "ConnectionTimeout"@);
                assert("TestUsageError"@ != "ConfigInvalid"@);
                assert("TestUsageError"@ != "MissingDependency"@);
                assert("TestUsageError"@ != "SsotVersionMismatch"@);
                assert("TestUsageError"@ != "ConfigFileNotFound"@);
                assert("TestUsageError"@ != "EnvironmentInvalid"@);
                assert("TestUsageError"@ != "HealthCheckFailed"@);
                assert("TestUsageError"@ != "DatabaseUnavailable"@);
                assert("TestUsageError"@ != "ExternalServiceUnavailable"@);
                assert("TestUsageError"@ != "ResourceExhausted"@);
                assert("TestUsageError"@ != "OperationTimeout"@);
                assert("TestUsageError"@ != "InvalidArgument"@);
                assert("TestUsageError"@ != "MissingRequiredArgument"@);
                assert("TestUsageError"@ != "Usage"@);
                assert("TestUsageError"@ != "PermissionDenied"@);
                assert("TestUsageError"@ != "FileNotFound"@);
                assert("TestUsageError"@ != "DirectoryNotFound"@);
                assert("TestUsageError"@ != "FileReadError"@);
                assert("TestUsageError"@ != "FileWriteError"@);
                assert("TestUsageError"@ != "DataInvalid"@);
                assert("TestUsageError"@ != "ParseError"@);
                assert("TestUsageError"@ != "TransformationFailed"@);
                assert("TestUsageError"@ != "DataCorrupt"@);
                assert("TestUsageError"@ != "AuthenticationFailed"@);
                assert("TestUsageError"@ != "AuthorizationFailed"@);
                assert("TestUsageError"@ != "SecurityViolation"@);
                assert("TestUsageError"@ != "CertificateInvalid"@);
                assert("TestUsageError"@ != "MetricsUnavailable"@);
                assert("TestUsageError"@ != "TracingFailed"@);
                assert("TestUsageError"@ != "LoggingFailed"@);
                assert("TestUsageError"@ != "AlertSystemFailed"@);
                assert("TestUsageError"@ != "StructuredLoggingFailed"@);
                assert("TestUsageError"@ != "TestFailure"@);
                assert("TestUsageError"@ != "TestError"@);
                assert("TestUsageError"@ != "TestInterrupted"@);
                assert(Self::from_tag_spec(ExitCode::TestUsageError.tag_spec()) == Some(ExitCode::TestUsageError));
            },
            ExitCode::TestNoTestsCollected => {
                assert("TestNoTestsCollected"@ != "Success"@);
                assert("TestNoTestsCollected"@ != "Failure"@);
                assert("TestNoTestsCollected"@ != "PortInUse"@);
                assert("TestNoTestsCollected"@ != "PortRangeExhausted"@);
                assert("TestNoTestsCollected"@ != "InstanceAlreadyRunning"@);
                assert("TestNoTestsCollected"@ != "NetworkUnreachable"@);
                assert("TestNoTestsCollected"@ != "ConnectionRefused"@);
                assert("TestNoTestsCollected"@ != "ConnectionTimeout"@);
                assert("TestNoTestsCollected"@ != "ConfigInvalid"@);
                assert("TestNoTestsCollected"@ != "MissingDependency"@);
                assert("TestNoTestsCollected"@ != "SsotVersionMismatch"@);
                assert("TestNoTestsCollected"@ != "ConfigFileNotFound"@);
                assert("TestNoTestsCollected"@ != "EnvironmentInvalid"@);
                assert("TestNoTestsCollected"@ != "HealthCheckFailed"@);
                assert("TestNoTestsCollected"@ != "DatabaseUnavailable"@);
                assert("TestNoTestsCollected"@ != "ExternalServiceUnavailable"@);
                assert("TestNoTestsCollected"@ != "ResourceExhausted"@);
                assert("TestNoTestsCollected"@ != "OperationTimeout"@);
                assert("TestNoTestsCollected"@ != "InvalidArgument"@);
                assert("TestNoTestsCollected"@ != "MissingRequiredArgument"@);
                assert("TestNoTestsCollected"@ != "Usage"@);
                assert("TestNoTestsCollected"@ != "PermissionDenied"@);
                assert("TestNoTestsCollected"@ != "FileNotFound"@);
                assert("TestNoTestsCollected"@ != "DirectoryNotFound"@);
                assert("TestNoTestsCollected"@ != "FileReadError"@);
                assert("TestNoTestsCollected"@ != "FileWriteError"@);
                assert("TestNoTestsCollected"@ != "DataInvalid"@);
                assert("TestNoTestsCollected"@ != "ParseError"@);
                assert("TestNoTestsCollected"@ != "TransformationFailed"@);
                assert("TestNoTestsCollected"@ != "DataCorrupt"@);
                assert("TestNoTestsCollected"@ != "AuthenticationFailed"@);
                assert("TestNoTestsCollected"@ != "AuthorizationFailed"@);
                assert("TestNoTestsCollected"@ != "SecurityViolation"@);
                assert("TestNoTestsCollected"@ != "CertificateInvalid"@);
                assert("TestNoTestsCollected"@ != "MetricsUnavailable"@);
                assert("TestNoTestsCollected"@ != "TracingFailed"@);
                assert("TestNoTestsCollected"@ != "LoggingFailed"@);
                assert("TestNoTestsCollected"@ != "AlertSystemFailed"@);
                assert("TestNoTestsCollected"@ != "StructuredLoggingFailed"@);
                assert("TestNoTestsCollected"@ != "TestFailure"@);
                assert("TestNoTestsCollected"@ != "TestError"@);
                assert("TestNoTestsCollected"@ != "TestInterrupted"@);
                assert("TestNoTestsCollected"@ != "TestUsageError"@);
                assert(Self::from_tag_spec(ExitCode::TestNoTestsCollected.tag_spec()) == Some(ExitCode::TestNoTestsCollected));
            },
            ExitCode::CoverageThresholdNotMet => {
                assert("CoverageThresholdNotMet"@ != "Success"@);
                assert("CoverageThresholdNotMet"@ != "Failure"@);
                assert("CoverageThresholdNotMet"@ != "PortInUse"@);
                assert("CoverageThresholdNotMet"@ != "PortRangeExhausted"@);
                assert("CoverageThresholdNotMet"@ != "InstanceAlreadyRunning"@);
                assert("CoverageThresholdNotMet"@ != "NetworkUnreachable"@);
                assert("CoverageThresholdNotMet"@ != "ConnectionRefused"@);
                assert("CoverageThresholdNotMet"@ != "ConnectionTimeout"@);
                assert("CoverageThresholdNotMet"@ != "ConfigInvalid"@);
                assert("CoverageThresholdNotMet"@ != "MissingDependency"@);
                assert("CoverageThresholdNotMet"@ != "SsotVersionMismatch"@);
                assert("CoverageThresholdNotMet"@ != "ConfigFileNotFound"@);
                assert("CoverageThresholdNotMet"@ != "EnvironmentInvalid"@);
                assert("CoverageThresholdNotMet"@ != "HealthCheckFailed"@);
                assert("CoverageThresholdNotMet"@ != "DatabaseUnavailable"@);
                assert("CoverageThresholdNotMet"@ != "ExternalServiceUnavailable"@);
                assert("CoverageThresholdNotMet"@ != "ResourceExhausted"@);
                assert("CoverageThresholdNotMet"@ != "OperationTimeout"@);
                assert("CoverageThresholdNotMet"@ != "InvalidArgument"@);
                assert("CoverageThresholdNotMet"@ != "MissingRequiredArgument"@);
                assert("CoverageThresholdNotMet"@ != "Usage"@);
                assert("CoverageThresholdNotMet"@ != "PermissionDenied"@);
                assert("CoverageThresholdNotMet"@ != "FileNotFound"@);
                assert("CoverageThresholdNotMet"@ != "DirectoryNotFound"@);
                assert("CoverageThresholdNotMet"@ != "FileReadError"@);
                assert("CoverageThresholdNotMet"@ != "FileWriteError"@);
                assert("CoverageThresholdNotMet"@ != "DataInvalid"@);
                assert("CoverageThresholdNotMet"@ != "ParseError"@);
                assert("CoverageThresholdNotMet"@ != "TransformationFailed"@);
                assert("CoverageThresholdNotMet"@ != "DataCorrupt"@);
                assert("CoverageThresholdNotMet"@ != "AuthenticationFailed"@);
                assert("CoverageThresholdNotMet"@ != "AuthorizationFailed"@);
                assert("CoverageThresholdNotMet"@ != "SecurityViolation"@);
                assert("CoverageThresholdNotMet"@ != "CertificateInvalid"@);
                assert("CoverageThresholdNotMet"@ != "MetricsUnavailable"@);
                assert("CoverageThresholdNotMet"@ != "TracingFailed"@);
                assert("CoverageThresholdNotMet"@ != "LoggingFailed"@);
                assert("CoverageThresholdNotMet"@ != "AlertSystemFailed"@);
                assert("CoverageThresholdNotMet"@ != "StructuredLoggingFailed"@);
                assert("CoverageThresholdNotMet"@ != "TestFailure"@);
                assert("CoverageThresholdNotMet"@ != "TestError"@);
                assert("CoverageThresholdNotMet"@ != "TestInterrupted"@);
                assert("CoverageThresholdNotMet"@ != "TestUsageError"@);
                assert("CoverageThresholdNotMet"@ != "TestNoTestsCollected"@);
                assert(Self::from_tag_spec(ExitCode::CoverageThresholdNotMet.tag_spec()) == Some(ExitCode::CoverageThresholdNotMet));
            },
            ExitCode::SignalHup => {
                assert("SignalHup"@ != "Success"@);
                assert("SignalHup"@ != "Failure"@);
                assert("SignalHup"@ != "PortInUse"@);
                assert("SignalHup"@ != "PortRangeExhausted"@);
                assert("SignalHup"@ != "InstanceAlreadyRunning"@);
                assert("SignalHup"@ != "NetworkUnreachable"@);
                assert("SignalHup"@ != "ConnectionRefused"@);
                assert("SignalHup"@ != "ConnectionTimeout"@);
                assert("SignalHup"@ != "ConfigInvalid"@);
                assert("SignalHup"@ != "MissingDependency"@);
                assert("SignalHup"@ != "SsotVersionMismatch"@);
                assert("SignalHup"@ != "ConfigFileNotFound"@);
                assert("SignalHup"@ != "EnvironmentInvalid"@);
                assert("SignalHup"@ != "HealthCheckFailed"@);
                assert("SignalHup"@ != "DatabaseUnavailable"@);
                assert("SignalHup"@ != "ExternalServiceUnavailable"@);
                assert("SignalHup"@ != "ResourceExhausted"@);
                assert("SignalHup"@ != "OperationTimeout"@);
                assert("SignalHup"@ != "InvalidArgument"@);
                assert("SignalHup"@ != "MissingRequiredArgument"@);
                assert("SignalHup"@ != "Usage"@);
                assert("SignalHup"@ != "PermissionDenied"@);
                assert("SignalHup"@ != "FileNotFound"@);
                assert("SignalHup"@ != "DirectoryNotFound"@);
                assert("SignalHup"@ != "FileReadError"@);
                assert("SignalHup"@ != "FileWriteError"@);
                assert("SignalHup"@ != "DataInvalid"@);
                assert("SignalHup"@ != "ParseError"@);
                assert("SignalHup"@ != "TransformationFailed"@);
                assert("SignalHup"@ != "DataCorrupt"@);
                assert("SignalHup"@ != "AuthenticationFailed"@);
                assert("SignalHup"@ != "AuthorizationFailed"@);
                assert("SignalHup"@ != "SecurityViolation"@);
                assert("SignalHup"@ != "CertificateInvalid"@);
                assert("SignalHup"@ != "MetricsUnavailable"@);
                assert("SignalHup"@ != "TracingFailed"@);
                assert("SignalHup"@ != "LoggingFailed"@);
                assert("SignalHup"@ != "AlertSystemFailed"@);
                assert("SignalHup"@ != "StructuredLoggingFailed"@);
                assert("SignalHup"@ != "TestFailure"@);
                assert("SignalHup"@ != "TestError"@);
                assert("SignalHup"@ != "TestInterrupted"@);
                assert("SignalHup"@ != "TestUsageError"@);
                assert("SignalHup"@ != "TestNoTestsCollected"@);
                assert("SignalHup"@ != "CoverageThresholdNotMet"@);
                assert(Self::from_tag_spec(ExitCode::SignalHup.tag_spec()) == Some(ExitCode::SignalHup));
            },
            ExitCode::SignalInt => {
                assert("SignalInt"@ != "Success"@);
                assert("SignalInt"@ != "Failure"@);
                assert("SignalInt"@ != "PortInUse"@);
                assert("SignalInt"@ != "PortRangeExhausted"@);
                assert("SignalInt"@ != "InstanceAlreadyRunning"@);
                assert("SignalInt"@ != "NetworkUnreachable"@);
                assert("SignalInt"@ != "ConnectionRefused"@);
                assert("SignalInt"@ != "ConnectionTimeout"@);
                assert("SignalInt"@ != "ConfigInvalid"@);
                assert("SignalInt"@ != "MissingDependency"@);
                assert("SignalInt"@ != "SsotVersionMismatch"@);
                assert("SignalInt"@ != "ConfigFileNotFound"@);
                assert("SignalInt"@ != "EnvironmentInvalid"@);
                assert("SignalInt"@ != "HealthCheckFailed"@);
                assert("SignalInt"@ != "DatabaseUnavailable"@);
                assert("SignalInt"@ != "ExternalServiceUnavailable"@);
                assert("SignalInt"@ != "ResourceExhausted"@);
                assert("SignalInt"@ != "OperationTimeout"@);
                assert("SignalInt"@ != "InvalidArgument"@);
                assert("SignalInt"@ != "MissingRequiredArgument"@);
                assert("SignalInt"@ != "Usage"@);
                assert("SignalInt"@ != "PermissionDenied"@);
                assert("SignalInt"@ != "FileNotFound"@);
                assert("SignalInt"@ != "DirectoryNotFound"@);
                assert("SignalInt"@ != "FileReadError"@);
                assert("SignalInt"@ != "FileWriteError"@);
                assert("SignalInt"@ != "DataInvalid"@);
                assert("SignalInt"@ != "ParseError"@);
                assert("SignalInt"@ != "TransformationFailed"@);
                assert("SignalInt"@ != "DataCorrupt"@);
                assert("SignalInt"@ != "AuthenticationFailed"@);
                assert("SignalInt"@ != "AuthorizationFailed"@);
                assert("SignalInt"@ != "SecurityViolation"@);
                assert("SignalInt"@ != "CertificateInvalid"@);
                assert("SignalInt"@ != "MetricsUnavailable"@);
                assert("SignalInt"@ != "TracingFailed"@);
                assert("SignalInt"@ != "LoggingFailed"@);
                assert("SignalInt"@ != "AlertSystemFailed"@);
                assert("SignalInt"@ != "StructuredLoggingFailed"@);
                assert("SignalInt"@ != "TestFailure"@);
                assert("SignalInt"@ != "TestError"@);
                assert("SignalInt"@ != "TestInterrupted"@);
                assert("SignalInt"@ != "TestUsageError"@);
                assert("SignalInt"@ != "TestNoTestsCollected"@);
                assert("SignalInt"@ != "CoverageThresholdNotMet"@);
                assert("SignalInt"@ != "SignalHup"@);
                assert(Self::from_tag_spec(ExitCode::SignalInt.tag_spec()) == Some(ExitCode::SignalInt));
            },
            ExitCode::SignalQuit => {
                assert("SignalQuit"@ != "Success"@);
                assert("SignalQuit"@ != "Failure"@);
                assert("SignalQuit"@ != "PortInUse"@);
                assert("SignalQuit"@ != "PortRangeExhausted"@);
                assert("SignalQuit"@ != "InstanceAlreadyRunning"@);
                assert("SignalQuit"@ != "NetworkUnreachable"@);
                assert("SignalQuit"@ != "ConnectionRefused"@);
                assert("SignalQuit"@ != "ConnectionTimeout"@);
                assert("SignalQuit"@ != "ConfigInvalid"@);
                assert("SignalQuit"@ != "MissingDependency"@);
                assert("SignalQuit"@ != "SsotVersionMismatch"@);
                assert("SignalQuit"@ != "ConfigFileNotFound"@);
                assert("SignalQuit"@ != "EnvironmentInvalid"@);
                assert("SignalQuit"@ != "HealthCheckFailed"@);
                assert("SignalQuit"@ != "DatabaseUnavailable"@);
                assert("SignalQuit"@ != "ExternalServiceUnavailable"@);
                assert("SignalQuit"@ != "ResourceExhausted"@);
                assert("SignalQuit"@ != "OperationTimeout"@);
                assert("SignalQuit"@ != "InvalidArgument"@);
                assert("SignalQuit"@ != "MissingRequiredArgument"@);
                assert("SignalQuit"@ != "Usage"@);
                assert("SignalQuit"@ != "PermissionDenied"@);
                assert("SignalQuit"@ != "FileNotFound"@);
                assert("SignalQuit"@ != "DirectoryNotFound"@);
                assert("SignalQuit"@ != "FileReadError"@);
                assert("SignalQuit"@ != "FileWriteError"@);
                assert("SignalQuit"@ != "DataInvalid"@);
                assert("SignalQuit"@ != "ParseError"@);
                assert("SignalQuit"@ != "TransformationFailed"@);
                assert("SignalQuit"@ != "DataCorrupt"@);
                assert("SignalQuit"@ != "AuthenticationFailed"@);
                assert("SignalQuit"@ != "AuthorizationFailed"@);
                assert("SignalQuit"@ != "SecurityViolation"@);
                assert("SignalQuit"@ != "CertificateInvalid"@);
                assert("SignalQuit"@ != "MetricsUnavailable"@);
                assert("SignalQuit"@ != "TracingFailed"@);
                assert("SignalQuit"@ != "LoggingFailed"@);
                assert("SignalQuit"@ != "AlertSystemFailed"@);
                assert("SignalQuit"@ != "StructuredLoggingFailed"@);
                assert("SignalQuit"@ != "TestFailure"@);
                assert("SignalQuit"@ != "TestError"@);
                assert("SignalQuit"@ != "TestInterrupted"@);
                assert("SignalQuit"@ != "TestUsageError"@);
                assert("SignalQuit"@ != "TestNoTestsCollected"@);
                assert("SignalQuit"@ != "CoverageThresholdNotMet"@);
                assert("SignalQuit"@ != "SignalHup"@);
                assert("SignalQuit"@ != "SignalInt"@);
                assert(Self::from_tag_spec(ExitCode::SignalQuit.tag_spec()) == Some(ExitCode::SignalQuit));
            },
            ExitCode::SignalKill => {
                assert("SignalKill"@ != "Success"@);
                assert("SignalKill"@ != "Failure"@);
                assert("SignalKill"@ != "PortInUse"@);
                assert("SignalKill"@ != "PortRangeExhausted"@);
                assert("SignalKill"@ != "InstanceAlreadyRunning"@);
                assert("SignalKill"@ != "NetworkUnreachable"@);
                assert("SignalKill"@ != "ConnectionRefused"@);
                assert("SignalKill"@ != "ConnectionTimeout"@);
                assert("SignalKill"@ != "ConfigInvalid"@);
                assert("SignalKill"@ != "MissingDependency"@);
                assert("SignalKill"@ != "SsotVersionMismatch"@);
                assert("SignalKill"@ != "ConfigFileNotFound"@);
                assert("SignalKill"@ != "EnvironmentInvalid"@);
                assert("SignalKill"@ != "HealthCheckFailed"@);
                assert("SignalKill"@ != "DatabaseUnavailable"@);
                assert("SignalKill"@ != "ExternalServiceUnavailable"@);
                assert("SignalKill"@ != "ResourceExhausted"@);
                assert("SignalKill"@ != "OperationTimeout"@);
                assert("SignalKill"@ != "InvalidArgument"@);
                assert("SignalKill"@ != "MissingRequiredArgument"@);
                assert("SignalKill"@ != "Usage"@);
                assert("SignalKill"@ != "PermissionDenied"@);
                assert("SignalKill"@ != "FileNotFound"@);
                assert("SignalKill"@ != "DirectoryNotFound"@);
                assert("SignalKill"@ != "FileReadError"@);
                assert("SignalKill"@ != "FileWriteError"@);
                assert("SignalKill"@ != "DataInvalid"@);
                assert("SignalKill"@ != "ParseError"@);
                assert("SignalKill"@ != "TransformationFailed"@);
                assert("SignalKill"@ != "DataCorrupt"@);
                assert("SignalKill"@ != "AuthenticationFailed"@);
                assert("SignalKill"@ != "AuthorizationFailed"@);
                assert("SignalKill"@ != "SecurityViolation"@);
                assert("SignalKill"@ != "CertificateInvalid"@);
                assert("SignalKill"@ != "MetricsUnavailable"@);
                assert("SignalKill"@ != "TracingFailed"@);
                assert("SignalKill"@ != "LoggingFailed"@);
                assert("SignalKill"@ != "AlertSystemFailed"@);
                assert("SignalKill"@ != "StructuredLoggingFailed"@);
                assert("SignalKill"@ != "TestFailure"@);
                assert("SignalKill"@ != "TestError"@);
                assert("SignalKill"@ != "TestInterrupted"@);
                assert("SignalKill"@ != "TestUsageError"@);
                assert("SignalKill"@ != "TestNoTestsCollected"@);
                assert("SignalKill"@ != "CoverageThresholdNotMet"@);
                assert("SignalKill"@ != "SignalHup"@);
                assert("SignalKill"@ != "SignalInt"@);
                assert("SignalKill"@ != "SignalQuit"@);
                assert(Self::from_tag_spec(ExitCode::SignalKill.tag_spec()) == Some(ExitCode::SignalKill));
            },
            ExitCode::SignalPipe => {
                assert("SignalPipe"@ != "Success"@);
                assert("SignalPipe"@ != "Failure"@);
                assert("SignalPipe"@ != "PortInUse"@);
                assert("SignalPipe"@ != "PortRangeExhausted"@);
                assert("SignalPipe"@ != "InstanceAlreadyRunning"@);
                assert("SignalPipe"@ != "NetworkUnreachable"@);
                assert("SignalPipe"@ != "ConnectionRefused"@);
                assert("SignalPipe"@ != "ConnectionTimeout"@);
                assert("SignalPipe"@ != "ConfigInvalid"@);
                assert("SignalPipe"@ != "MissingDependency"@);
                assert("SignalPipe"@ != "SsotVersionMismatch"@);
                assert("SignalPipe"@ != "ConfigFileNotFound"@);
                assert("SignalPipe"@ != "EnvironmentInvalid"@);
                assert("SignalPipe"@ != "HealthCheckFailed"@);
                assert("SignalPipe"@ != "DatabaseUnavailable"@);
                assert("SignalPipe"@ != "ExternalServiceUnavailable"@);
                assert("SignalPipe"@ != "ResourceExhausted"@);
                assert("SignalPipe"@ != "OperationTimeout"@);
                assert("SignalPipe"@ != "InvalidArgument"@);
                assert("SignalPipe"@ != "MissingRequiredArgument"@);
                assert("SignalPipe"@ != "Usage"@);
                assert("SignalPipe"@ != "PermissionDenied"@);
                assert("SignalPipe"@ != "FileNotFound"@);
                assert("SignalPipe"@ != "DirectoryNotFound"@);
                assert("SignalPipe"@ != "FileReadError"@);
                assert("SignalPipe"@ != "FileWriteError"@);
                assert("SignalPipe"@ != "DataInvalid"@);
                assert("SignalPipe"@ != "ParseError"@);
                assert("SignalPipe"@ != "TransformationFailed"@);
                assert("SignalPipe"@ != "DataCorrupt"@);
                assert("SignalPipe"@ != "AuthenticationFailed"@);
                assert("SignalPipe"@ != "AuthorizationFailed"@);
                assert("SignalPipe"@ != "SecurityViolation"@);
                assert("SignalPipe"@ != "CertificateInvalid"@);
                assert("SignalPipe"@ != "MetricsUnavailable"@);
                assert("SignalPipe"@ != "TracingFailed"@);
                assert("SignalPipe"@ != "LoggingFailed"@);
                assert("SignalPipe"@ != "AlertSystemFailed"@);
                assert("SignalPipe"@ != "StructuredLoggingFailed"@);
                assert("SignalPipe"@ != "TestFailure"@);
                assert("SignalPipe"@ != "TestError"@);
                assert("SignalPipe"@ != "TestInterrupted"@);
                assert("SignalPipe"@ != "TestUsageError"@);
                assert("SignalPipe"@ != "TestNoTestsCollected"@);
                assert("SignalPipe"@ != "CoverageThresholdNotMet"@);
                assert("SignalPipe"@ != "SignalHup"@);
                assert("SignalPipe"@ != "SignalInt"@);
                assert("SignalPipe"@ != "SignalQuit"@);
                assert("SignalPipe"@ != "SignalKill"@);
                assert(Self::from_tag_spec(ExitCode::SignalPipe.tag_spec()) == Some(ExitCode::SignalPipe));
            },
            ExitCode::SignalAlrm => {
                assert("SignalAlrm"@ != "Success"@);
                assert("SignalAlrm"@ != "Failure"@);
                assert("SignalAlrm"@ != "PortInUse"@);
                assert("SignalAlrm"@ != "PortRangeExhausted"@);
                assert("SignalAlrm"@ != "InstanceAlreadyRunning"@);
                assert("SignalAlrm"@ != "NetworkUnreachable"@);
                assert("SignalAlrm"@ != "ConnectionRefused"@);
                assert("SignalAlrm"@ != "ConnectionTimeout"@);
                assert("SignalAlrm"@ != "ConfigInvalid"@);
                assert("SignalAlrm"@ != "MissingDependency"@);
                assert("SignalAlrm"@ != "SsotVersionMismatch"@);
                assert("SignalAlrm"@ != "ConfigFileNotFound"@);
                assert("SignalAlrm"@ != "EnvironmentInvalid"@);
                assert("SignalAlrm"@ != "HealthCheckFailed"@);
                assert("SignalAlrm"@ != "DatabaseUnavailable"@);
                assert("SignalAlrm"@ != "ExternalServiceUnavailable"@);
                assert("SignalAlrm"@ != "ResourceExhausted"@);
                assert("SignalAlrm"@ != "OperationTimeout"@);
                assert("SignalAlrm"@ != "InvalidArgument"@);
                assert("SignalAlrm"@ != "MissingRequiredArgument"@);
                assert("SignalAlrm"@ != "Usage"@);
                assert("SignalAlrm"@ != "PermissionDenied"@);
                assert("SignalAlrm"@ != "FileNotFound"@);
                assert("SignalAlrm"@ != "DirectoryNotFound"@);
                assert("SignalAlrm"@ != "FileReadError"@);
                assert("SignalAlrm"@ != "FileWriteError"@);
                assert("SignalAlrm"@ != "DataInvalid"@);
                assert("SignalAlrm"@ != "ParseError"@);
                assert("SignalAlrm"@ != "TransformationFailed"@);
                assert("SignalAlrm"@ != "DataCorrupt"@);
                assert("SignalAlrm"@ != "AuthenticationFailed"@);
                assert("SignalAlrm"@ != "AuthorizationFailed"@);
                assert("SignalAlrm"@ != "SecurityViolation"@);
                assert("SignalAlrm"@ != "CertificateInvalid"@);
                assert("SignalAlrm"@ != "MetricsUnavailable"@);
                assert("SignalAlrm"@ != "TracingFailed"@);
                assert("SignalAlrm"@ != "LoggingFailed"@);
                assert("SignalAlrm"@ != "AlertSystemFailed"@);
                assert("SignalAlrm"@ != "StructuredLoggingFailed"@);
                assert("SignalAlrm"@ != "TestFailure"@);
                assert("SignalAlrm"@ != "TestError"@);
                assert("SignalAlrm"@ != "TestInterrupted"@);
                assert("SignalAlrm"@ != "TestUsageError"@);
                assert("SignalAlrm"@ != "TestNoTestsCollected"@);
                assert("SignalAlrm"@ != "CoverageThresholdNotMet"@);
                assert("SignalAlrm"@ != "SignalHup"@);
                assert("SignalAlrm"@ != "SignalInt"@);
                assert("SignalAlrm"@ != "SignalQuit"@);
                assert("SignalAlrm"@ != "SignalKill"@);
                assert("SignalAlrm"@ != "SignalPipe"@);
                assert(Self::from_tag_spec(ExitCode::SignalAlrm.tag_spec()) == Some(ExitCode::SignalAlrm));
            },
            ExitCode::SignalTerm => {
                assert("SignalTerm"@ != "Success"@);
                assert("SignalTerm"@ != "Failure"@);
                assert("SignalTerm"@ != "PortInUse"@);
                assert("SignalTerm"@ != "PortRangeExhausted"@);
                assert("SignalTerm"@ != "InstanceAlreadyRunning"@);
                assert("SignalTerm"@ != "NetworkUnreachable"@);
                assert("SignalTerm"@ != "ConnectionRefused"@);
                assert("SignalTerm"@ != "ConnectionTimeout"@);
                assert("SignalTerm"@ != "ConfigInvalid"@);
                assert("SignalTerm"@ != "MissingDependency"@);
                assert("SignalTerm"@ != "SsotVersionMismatch"@);
                assert("SignalTerm"@ != "ConfigFileNotFound"@);
                assert("SignalTerm"@ != "EnvironmentInvalid"@);
                assert("SignalTerm"@ != "HealthCheckFailed"@);
                assert("SignalTerm"@ != "DatabaseUnavailable"@);
                assert("SignalTerm"@ != "ExternalServiceUnavailable"@);
                assert("SignalTerm"@ != "ResourceExhausted"@);
                assert("SignalTerm"@ != "OperationTimeout"@);
                assert("SignalTerm"@ != "InvalidArgument"@);
                assert("SignalTerm"@ != "MissingRequiredArgument"@);
                assert("SignalTerm"@ != "Usage"@);
                assert("SignalTerm"@ != "PermissionDenied"@);
                assert("SignalTerm"@ != "FileNotFound"@);
                assert("SignalTerm"@ != "DirectoryNotFound"@);
                assert("SignalTerm"@ != "FileReadError"@);
                assert("SignalTerm"@ != "FileWriteError"@);
                assert("SignalTerm"@ != "DataInvalid"@);
                assert("SignalTerm"@ != "ParseError"@);
                assert("SignalTerm"@ != "TransformationFailed"@);
                assert("SignalTerm"@ != "DataCorrupt"@);
                assert("SignalTerm"@ != "AuthenticationFailed"@);
                assert("SignalTerm"@ != "AuthorizationFailed"@);
                assert("SignalTerm"@ != "SecurityViolation"@);
                assert("SignalTerm"@ != "CertificateInvalid"@);
                assert("SignalTerm"@ != "MetricsUnavailable"@);
                assert("SignalTerm"@ != "TracingFailed"@);
                assert("SignalTerm"@ != "LoggingFailed"@);
                assert("SignalTerm"@ != "AlertSystemFailed"@);
                assert("SignalTerm"@ != "StructuredLoggingFailed"@);
                assert("SignalTerm"@ != "TestFailure"@);
                assert("SignalTerm"@ != "TestError"@);
                assert("SignalTerm"@ != "TestInterrupted"@);
                assert("SignalTerm"@ != "TestUsageError"@);
                assert("SignalTerm"@ != "TestNoTestsCollected"@);
                assert("SignalTerm"@ != "CoverageThresholdNotMet"@);
                assert("SignalTerm"@ != "SignalHup"@);
                assert("SignalTerm"@ != "SignalInt"@);
                assert("SignalTerm"@ != "SignalQuit"@);
                assert("SignalTerm"@ != "SignalKill"@);
                assert("SignalTerm"@ != "SignalPipe"@);
                assert("SignalTerm"@ != "SignalAlrm"@);
                assert(Self::from_tag_spec(ExitCode::SignalTerm.tag_spec()) == Some(ExitCode::SignalTerm));
            },
            ExitCode::SignalUsr1 => {
                assert("SignalUsr1"@ != "Success"@);
                assert("SignalUsr1"@ != "Failure"@);
                assert("SignalUsr1"@ != "PortInUse"@);
                assert("SignalUsr1"@ != "PortRangeExhausted"@);
                assert("SignalUsr1"@ != "InstanceAlreadyRunning"@);
                assert("SignalUsr1"@ != "NetworkUnreachable"@);
                assert("SignalUsr1"@ != "ConnectionRefused"@);
                assert("SignalUsr1"@ != "ConnectionTimeout"@);
                assert("SignalUsr1"@ != "ConfigInvalid"@);
                assert("SignalUsr1"@ != "MissingDependency"@);
                assert("SignalUsr1"@ != "SsotVersionMismatch"@);
                assert("SignalUsr1"@ != "ConfigFileNotFound"@);
                assert("SignalUsr1"@ != "EnvironmentInvalid"@);
                assert("SignalUsr1"@ != "HealthCheckFailed"@);
                assert("SignalUsr1"@ != "DatabaseUnavailable"@);
                assert("SignalUsr1"@ != "ExternalServiceUnavailable"@);
                assert("SignalUsr1"@ != "ResourceExhausted"@);
                assert("SignalUsr1"@ != "OperationTimeout"@);
                assert("SignalUsr1"@ != "InvalidArgument"@);
                assert("SignalUsr1"@ != "MissingRequiredArgument"@);
                assert("SignalUsr1"@ != "Usage"@);
                assert("SignalUsr1"@ != "PermissionDenied"@);
                assert("SignalUsr1"@ != "FileNotFound"@);
                assert("SignalUsr1"@ != "DirectoryNotFound"@);
                assert("SignalUsr1"@ != "FileReadError"@);
                assert("SignalUsr1"@ != "FileWriteError"@);
                assert("SignalUsr1"@ != "DataInvalid"@);
                assert("SignalUsr1"@ != "ParseError"@);
                assert("SignalUsr1"@ != "TransformationFailed"@);
                assert("SignalUsr1"@ != "DataCorrupt"@);
                assert("SignalUsr1"@ != "AuthenticationFailed"@);
                assert("SignalUsr1"@ != "AuthorizationFailed"@);
                assert("SignalUsr1"@ != "SecurityViolation"@);
                assert("SignalUsr1"@ != "CertificateInvalid"@);
                assert("SignalUsr1"@ != "MetricsUnavailable"@);
                assert("SignalUsr1"@ != "TracingFailed"@);
                assert("SignalUsr1"@ != "LoggingFailed"@);
                assert("SignalUsr1"@ != "AlertSystemFailed"@);
                assert("SignalUsr1"@ != "StructuredLoggingFailed"@);
                assert("SignalUsr1"@ != "TestFailure"@);
                assert("SignalUsr1"@ != "TestError"@);
                assert("SignalUsr1"@ != "TestInterrupted"@);
                assert("SignalUsr1"@ != "TestUsageError"@);
                assert("SignalUsr1"@ != "TestNoTestsCollected"@);
                assert("SignalUsr1"@ != "CoverageThresholdNotMet"@);
                assert("SignalUsr1"@ != "SignalHup"@);
                assert("SignalUsr1"@ != "SignalInt"@);
                assert("SignalUsr1"@ != "SignalQuit"@);
                assert("SignalUsr1"@ != "SignalKill"@);
                assert("SignalUsr1"@ != "SignalPipe"@);
                assert("SignalUsr1"@ != "SignalAlrm"@);
                assert("SignalUsr1"@ != "SignalTerm"@);
                assert(Self::from_tag_spec(ExitCode::SignalUsr1.tag_spec()) == Some(ExitCode::SignalUsr1));
            },
            ExitCode::SignalUsr2 => {
                assert("SignalUsr2"@ != "Success"@);
                assert("SignalUsr2"@ != "Failure"@);
                assert("SignalUsr2"@ != "PortInUse"@);
                assert("SignalUsr2"@ != "PortRangeExhausted"@);
                assert("SignalUsr2"@ != "InstanceAlreadyRunning"@);
                assert("SignalUsr2"@ != "NetworkUnreachable"@);
                assert("SignalUsr2"@ != "ConnectionRefused"@);
                assert("SignalUsr2"@ != "ConnectionTimeout"@);
                assert("SignalUsr2"@ != "ConfigInvalid"@);
                assert("SignalUsr2"@ != "MissingDependency"@);
                assert("SignalUsr2"@ != "SsotVersionMismatch"@);
                assert("SignalUsr2"@ != "ConfigFileNotFound"@);
                assert("SignalUsr2"@ != "EnvironmentInvalid"@);
                assert("SignalUsr2"@ != "HealthCheckFailed"@);
                assert("SignalUsr2"@ != "DatabaseUnavailable"@);
                assert("SignalUsr2"@ != "ExternalServiceUnavailable"@);
                assert("SignalUsr2"@ != "ResourceExhausted"@);
                assert("SignalUsr2"@ != "OperationTimeout"@);
                assert("SignalUsr2"@ != "InvalidArgument"@);
                assert("SignalUsr2"@ != "MissingRequiredArgument"@);
                assert("SignalUsr2"@ != "Usage"@);
                assert("SignalUsr2"@ != "PermissionDenied"@);
                assert("SignalUsr2"@ != "FileNotFound"@);
                assert("SignalUsr2"@ != "DirectoryNotFound"@);
                assert("SignalUsr2"@ != "FileReadError"@);
                assert("SignalUsr2"@ != "FileWriteError"@);
                assert("SignalUsr2"@ != "DataInvalid"@);
                assert("SignalUsr2"@ != "ParseError"@);
                assert("SignalUsr2"@ != "TransformationFailed"@);
                assert("SignalUsr2"@ != "DataCorrupt"@);
                assert("SignalUsr2"@ != "AuthenticationFailed"@);
                assert("SignalUsr2"@ != "AuthorizationFailed"@);
                assert("SignalUsr2"@ != "SecurityViolation"@);
                assert("SignalUsr2"@ != "CertificateInvalid"@);
                assert("SignalUsr2"@ != "MetricsUnavailable"@);
                assert("SignalUsr2"@ != "TracingFailed"@);
                assert("SignalUsr2"@ != "LoggingFailed"@);
                assert("SignalUsr2"@ != "AlertSystemFailed"@);
                assert("SignalUsr2"@ != "StructuredLoggingFailed"@);
                assert("SignalUsr2"@ != "TestFailure"@);
                assert("SignalUsr2"@ != "TestError"@);
                assert("SignalUsr2"@ != "TestInterrupted"@);
                assert("SignalUsr2"@ != "TestUsageError"@);
                assert("SignalUsr2"@ != "TestNoTestsCollected"@);
                assert("SignalUsr2"@ != "CoverageThresholdNotMet"@);
                assert("SignalUsr2"@ != "SignalHup"@);
                assert("SignalUsr2"@ != "SignalInt"@);
                assert("SignalUsr2"@ != "SignalQuit"@);
                assert("SignalUsr2"@ != "SignalKill"@);
                assert("SignalUsr2"@ != "SignalPipe"@);
                assert("SignalUsr2"@ != "SignalAlrm"@);
                assert("SignalUsr2"@ != "SignalTerm"@);
                assert("SignalUsr2"@ != "SignalUsr1"@);
                assert(Self::from_tag_spec(ExitCode::SignalUsr2.tag_spec()) == Some(ExitCode::SignalUsr2));
            },
        }
    }

    #[verifier::rlimit(60)]
    proof fn lemma_tag_well_formed(self) {
        reveal_strlit("Success");
        assert("Success"@.len() == 7);
        reveal_strlit("Failure");
        assert("Failure"@.len() == 7);
        reveal_strlit("PortInUse");
        assert("PortInUse"@.len() == 9);
        reveal_strlit("PortRangeExhausted");
        assert("PortRangeExhausted"@.len() == 18);
        reveal_strlit("InstanceAlreadyRunning");
        assert("InstanceAlreadyRunning"@.len() == 22);
        reveal_strlit("NetworkUnreachable");
        assert("NetworkUnreachable"@.len() == 18);
        reveal_strlit("ConnectionRefused");
        assert("ConnectionRefused"@.len() == 17);
        reveal_strlit("ConnectionTimeout");
        assert("ConnectionTimeout"@.len() == 17);
        reveal_strlit("ConfigInvalid");
        assert("ConfigInvalid"@.len() == 13);
        reveal_strlit("MissingDependency");
        assert("MissingDependency"@.len() == 17);
        reveal_strlit("SsotVersionMismatch");
        assert("SsotVersionMismatch"@.len() == 19);
        reveal_strlit("ConfigFileNotFound");
        assert("ConfigFileNotFound"@.len() == 18);
        reveal_strlit("EnvironmentInvalid");
        assert("EnvironmentInvalid"@.len() == 18);
        reveal_strlit("HealthCheckFailed");
        assert("HealthCheckFailed"@.len() == 17);
        reveal_strlit("DatabaseUnavailable");
        assert("DatabaseUnavailable"@.len() == 19);
        reveal_strlit("ExternalServiceUnavailable");
        assert("ExternalServiceUnavailable"@.len() == 26);
        reveal_strlit("ResourceExhausted");
        assert("ResourceExhausted"@.len() == 17);
        reveal_strlit("OperationTimeout");
        assert("OperationTimeout"@.len() == 16);
        reveal_strlit("InvalidArgument");
        assert("InvalidArgument"@.len() == 15);
        reveal_strlit("MissingRequiredArgument");
        assert("MissingRequiredArgument"@.len() == 23);
        reveal_strlit("Usage");
        assert("Usage"@.len() == 5);
        reveal_strlit("PermissionDenied");
        assert("PermissionDenied"@.len() == 16);
        reveal_strlit("FileNotFound");
        assert("FileNotFound"@.len() == 12);
        reveal_strlit("DirectoryNotFound");
        assert("DirectoryNotFound"@.len() == 17);
        reveal_strlit("FileReadError");
        assert("FileReadError"@.len() == 13);
        reveal_strlit("FileWriteError");
        assert("FileWriteError"@.len() == 14);
        reveal_strlit("DataInvalid");
        assert("DataInvalid"@.len() == 11);
        reveal_strlit("ParseError");
        assert("ParseError"@.len() == 10);
        reveal_strlit("TransformationFailed");
        assert("TransformationFailed"@.len() == 20);
        reveal_strlit("DataCorrupt");
        assert("DataCorrupt"@.len() == 11);
        reveal_strlit("AuthenticationFailed");
        assert("AuthenticationFailed"@.len() == 20);
        reveal_strlit("AuthorizationFailed");
        assert("AuthorizationFailed"@.len() == 19);
        reveal_strlit("SecurityViolation");
        assert("SecurityViolation"@.len() == 17);
        reveal_strlit("CertificateInvalid");
        assert("CertificateInvalid"@.len() == 18);
        reveal_strlit("MetricsUnavailable");
        assert("MetricsUnavailable"@.len() == 18);
        reveal_strlit("TracingFailed");
        assert("TracingFailed"@.len() == 13);
        reveal_strlit("LoggingFailed");
        assert("LoggingFailed"@.len() == 13);
        reveal_strlit("AlertSystemFailed");
        assert("AlertSystemFailed"@.len() == 17);
        reveal_strlit("StructuredLoggingFailed");
        assert("StructuredLoggingFailed"@.len() == 23);
        reveal_strlit("TestFailure");
        assert("TestFailure"@.len() == 11);
        reveal_strlit("TestError");
        assert("TestError"@.len() == 9);
        reveal_strlit("TestInterrupted");
        assert("TestInterrupted"@.len() == 15);
        reveal_strlit("TestUsageError");
        assert("TestUsageError"@.len() == 14);
        reveal_strlit("TestNoTestsCollected");
        assert("TestNoTestsCollected"@.len() == 20);
        reveal_strlit("CoverageThresholdNotMet");
        assert("CoverageThresholdNotMet"@.len() == 23);
        reveal_strlit("SignalHup");
        assert("SignalHup"@.len() == 9);
        reveal_strlit("SignalInt");
        assert("SignalInt"@.len() == 9);
        reveal_strlit("SignalQuit");
        assert("SignalQuit"@.len() == 10);
        reveal_strlit("SignalKill");
        assert("SignalKill"@.len() == 10);
        reveal_strlit("SignalPipe");
        assert("SignalPipe"@.len() == 10);
        reveal_strlit("SignalAlrm");
        assert("SignalAlrm"@.len() == 10);
        reveal_strlit("SignalTerm");
        assert("SignalTerm"@.len() == 10);
        reveal_strlit("SignalUsr1");
        assert("SignalUsr1"@.len() == 10);
        reveal_strlit("SignalUsr2");
        assert("SignalUsr2"@.len() == 10);
        match self {
            ExitCode::Success => {
                assert(json_safe("Success"@));
            },
            ExitCode::Failure => {
                assert(json_safe("Failure"@));
            },
            ExitCode::PortInUse => {
                assert(json_safe("PortInUse"@));
            },
            ExitCode::PortRangeExhausted => {
                assert(json_safe("PortRangeExhausted"@));
            },
            ExitCode::InstanceAlreadyRunning => {
                assert(json_safe("InstanceAlreadyRunning"@));
            },
            ExitCode::NetworkUnreachable => {
                assert(json_safe("NetworkUnreachable"@));
            },
            ExitCode::ConnectionRefused => {
                assert(json_safe("ConnectionRefused"@));
            },
            ExitCode::ConnectionTimeout => {
                assert(json_safe("ConnectionTimeout"@));
            },
            ExitCode::ConfigInvalid => {
                assert(json_safe("ConfigInvalid"@));
            },
            ExitCode::MissingDependency => {
                assert(json_safe("MissingDependency"@));
            },
            ExitCode::SsotVersionMismatch => {
                assert(json_safe("SsotVersionMismatch"@));
            },
            ExitCode::ConfigFileNotFound => {
                assert(json_safe("ConfigFileNotFound"@));
            },
            ExitCode::EnvironmentInvalid => {
                assert(json_safe("EnvironmentInvalid"@));
            },
            ExitCode::HealthCheckFailed => {
                assert(json_safe("HealthCheckFailed"@));
            },
            ExitCode::DatabaseUnavailable => {
                assert(json_safe("DatabaseUnavailable"@));
            },
            ExitCode::ExternalServiceUnavailable => {
                assert(json_safe("ExternalServiceUnavailable"@));
            },
            ExitCode::ResourceExhausted => {
                assert(json_safe("ResourceExhausted"@));
            },
            ExitCode::OperationTimeout => {
                assert(json_safe("OperationTimeout"@));
            },
            ExitCode::InvalidArgument => {
                assert(json_safe("InvalidArgument"@));
            },
            ExitCode::MissingRequiredArgument => {
                assert(json_safe("MissingRequiredArgument"@));
            },
            ExitCode::Usage => {
                assert(json_safe("Usage"@));
            },
            ExitCode::PermissionDenied => {
                assert(json_safe("PermissionDenied"@));
            },
            ExitCode::FileNotFound => {
                assert(json_safe("FileNotFound"@));
            },
            ExitCode::DirectoryNotFound => {
                assert(json_safe("DirectoryNotFound"@));
            },
            ExitCode::FileReadError => {
                assert(json_safe("FileReadError"@));
            },
            ExitCode::FileWriteError => {
                assert(json_safe("FileWriteError"@));
            },
            ExitCode::DataInvalid => {
                assert(json_safe("DataInvalid"@));
            },
            ExitCode::ParseError => {
                assert(json_safe("ParseError"@));
            },
            ExitCode::TransformationFailed => {
                assert(json_safe("TransformationFailed"@));
            },
            ExitCode::DataCorrupt => {
                assert(json_safe("DataCorrupt"@));
            },
            ExitCode::AuthenticationFailed => {
                assert(json_safe("AuthenticationFailed"@));
            },
            ExitCode::AuthorizationFailed => {
                assert(json_safe("AuthorizationFailed"@));
            },
            ExitCode::SecurityViolation => {
                assert(json_safe("SecurityViolation"@));
            },
            ExitCode::CertificateInvalid => {
                assert(json_safe("CertificateInvalid"@));
            },
            ExitCode::MetricsUnavailable => {
                assert(json_safe("MetricsUnavailable"@));
            },
            ExitCode::TracingFailed => {
                assert(json_safe("TracingFailed"@));
            },
            ExitCode::LoggingFailed => {
                assert(json_safe("LoggingFailed"@));
            },
            ExitCode::AlertSystemFailed => {
                assert(json_safe("AlertSystemFailed"@));
            },
            ExitCode::StructuredLoggingFailed => {
                assert(json_safe("StructuredLoggingFailed"@));
            },
            ExitCode::TestFailure => {
                assert(json_safe("TestFailure"@));
            },
            ExitCode::TestError => {
                assert(json_safe("TestError"@));
            },
            ExitCode::TestInterrupted => {
                assert(json_safe("TestInterrupted"@));
            },
            ExitCode::TestUsageError => {
                assert(json_safe("TestUsageError"@));
            },
            ExitCode::TestNoTestsCollected => {
                assert(json_safe("TestNoTestsCollected"@));
            },
            ExitCode::CoverageThresholdNotMet => {
                assert(json_safe("CoverageThresholdNotMet"@));
            },
            ExitCode::SignalHup => {
                assert(json_safe("SignalHup"@));
            },
            ExitCode::SignalInt => {
                assert(json_safe("SignalInt"@));
            },
            ExitCode::SignalQuit => {
                assert(json_safe("SignalQuit"@));
            },
            ExitCode::SignalKill => {
                assert(json_safe("SignalKill"@));
            },
            ExitCode::SignalPipe => {
                assert(json_safe("SignalPipe"@));
            },
            ExitCode::SignalAlrm => {
                assert(json_safe("SignalAlrm"@));
            },
            ExitCode::SignalTerm => {
                assert(json_safe("SignalTerm"@));
            },
            ExitCode::SignalUsr1 => {
                assert(json_safe("SignalUsr1"@));
            },
            ExitCode::SignalUsr2 => {
                assert(json_safe("SignalUsr2"@));
            },
        }
    }

    fn canonical_tag(self) -> (r: &'static str) {
        match self {
            ExitCode::Success => "Success",
            ExitCode::Failure => "Failure",
            ExitCode::PortInUse => "PortInUse",
            ExitCode::PortRangeExhausted => "PortRangeExhausted",
            ExitCode::InstanceAlreadyRunning => "InstanceAlreadyRunning",
            ExitCode::NetworkUnreachable => "NetworkUnreachable",
            ExitCode::ConnectionRefused => "ConnectionRefused",
            ExitCode::ConnectionTimeout => "ConnectionTimeout",
            ExitCode::ConfigInvalid => "ConfigInvalid",
            ExitCode::MissingDependency => "MissingDependency",
            ExitCode::SsotVersionMismatch => "SsotVersionMismatch",
            ExitCode::ConfigFileNotFound => "ConfigFileNotFound",
            ExitCode::EnvironmentInvalid => "EnvironmentInvalid",
            ExitCode::HealthCheckFailed => "HealthCheckFailed",
            ExitCode::DatabaseUnavailable => "DatabaseUnavailable",
            ExitCode::ExternalServiceUnavailable => "ExternalServiceUnavailable",
            ExitCode::ResourceExhausted => "ResourceExhausted",
            ExitCode::OperationTimeout => "OperationTimeout",
            ExitCode::InvalidArgument => "InvalidArgument",
            ExitCode::MissingRequiredArgument => "MissingRequiredArgument",
            ExitCode::Usage => "Usage",
            ExitCode::PermissionDenied => "PermissionDenied",
            ExitCode::FileNotFound => "FileNotFound",
            ExitCode::DirectoryNotFound => "DirectoryNotFound",
            ExitCode::FileReadError => "FileReadError",
            ExitCode::FileWriteError => "FileWriteError",
            ExitCode::DataInvalid => "DataInvalid",
            ExitCode::ParseError => "ParseError",
            ExitCode::TransformationFailed => "TransformationFailed",
            ExitCode::DataCorrupt => "DataCorrupt",
            ExitCode::AuthenticationFailed => "AuthenticationFailed",
            ExitCode::AuthorizationFailed => "AuthorizationFailed",
            ExitCode::SecurityViolation => "SecurityViolation",
            ExitCode::CertificateInvalid => "CertificateInvalid",
            ExitCode::MetricsUnavailable => "MetricsUnavailable",
            ExitCode::TracingFailed => "TracingFailed",
            ExitCode::LoggingFailed => "LoggingFailed",
            ExitCode::AlertSystemFailed => "AlertSystemFailed",
            ExitCode::StructuredLoggingFailed => "StructuredLoggingFailed",
            ExitCode::TestFailure => "TestFailure",
            ExitCode::TestError => "TestError",
            ExitCode::TestInterrupted => "TestInterrupted",
            ExitCode::TestUsageError => "TestUsageError",
            ExitCode::TestNoTestsCollected => "TestNoTestsCollected",
            ExitCode::CoverageThresholdNotMet => "CoverageThresholdNotMet",
            ExitCode::SignalHup => "SignalHup",
            ExitCode::SignalInt => "SignalInt",
            ExitCode::SignalQuit => "SignalQuit",
            ExitCode::SignalKill => "SignalKill",
            ExitCode::SignalPipe => "SignalPipe",
            ExitCode::SignalAlrm => "SignalAlrm",
            ExitCode::SignalTerm => "SignalTerm",
            ExitCode::SignalUsr1 => "SignalUsr1",
            ExitCode::SignalUsr2 => "SignalUsr2",
        }
    }

    #[verifier::rlimit(60)]
    fn decode_tag(s: &str) -> (r: Result<ExitCode, DecodeError>) {
        if str_eq(s, "Success") {
            Ok(ExitCode::Success)
        } else if str_eq(s, "Failure") {
            Ok(ExitCode::Failure)
        } else if str_eq(s, "PortInUse") {
            Ok(ExitCode::PortInUse)
        } else if str_eq(s, "PortRangeExhausted") {
            Ok(ExitCode::PortRangeExhausted)
        } else if str_eq(s, "InstanceAlreadyRunning") {
            Ok(ExitCode::InstanceAlreadyRunning)
        } else if str_eq(s, "NetworkUnreachable") {
            Ok(ExitCode::NetworkUnreachable)
        } else if str_eq(s, "ConnectionRefused") {
            Ok(ExitCode::ConnectionRefused)
        } else if str_eq(s, "ConnectionTimeout") {
            Ok(ExitCode::ConnectionTimeout)
        } else if str_eq(s, "ConfigInvalid") {
            Ok(ExitCode::ConfigInvalid)
        } else if str_eq(s, "MissingDependency") {
            Ok(ExitCode::MissingDependency)
        } else if str_eq(s, "SsotVersionMismatch") {
            Ok(ExitCode::SsotVersionMismatch)
        } else if str_eq(s, "ConfigFileNotFound") {
            Ok(ExitCode::ConfigFileNotFound)
        } else if str_eq(s, "EnvironmentInvalid") {
            Ok(ExitCode::EnvironmentInvalid)
        } else if str_eq(s, "HealthCheckFailed") {
            Ok(ExitCode::HealthCheckFailed)
        } else if str_eq(s, "DatabaseUnavailable") {
            Ok(ExitCode::DatabaseUnavailable)
        } else if str_eq(s, "ExternalServiceUnavailable") {
            Ok(ExitCode::ExternalServiceUnavailable)
        } else if str_eq(s, "ResourceExhausted") {
            Ok(ExitCode::ResourceExhausted)
        } else if str_eq(s, "OperationTimeout") {
            Ok(ExitCode::OperationTimeout)
        } else if str_eq(s, "InvalidArgument") {
            Ok(ExitCode::InvalidArgument)
        } else if str_eq(s, "MissingRequiredArgument") {
            Ok(ExitCode::MissingRequiredArgument)
        } else if str_eq(s, "Usage") {
            Ok(ExitCode::Usage)
        } else if str_eq(s, "PermissionDenied") {
            Ok(ExitCode::PermissionDenied)
        } else if str_eq(s, "FileNotFound") {
            Ok(ExitCode::FileNotFound)
        } else if str_eq(s, "DirectoryNotFound") {
            Ok(ExitCode::DirectoryNotFound)
        } else if str_eq(s, "FileReadError") {
            Ok(ExitCode::FileReadError)
        } else if str_eq(s, "FileWriteError") {
            Ok(ExitCode::FileWriteError)
        } else if str_eq(s, "DataInvalid") {
            Ok(ExitCode::DataInvalid)
        } else if str_eq(s, "ParseError") {
            Ok(ExitCode::ParseError)
        } else if str_eq(s, "TransformationFailed") {
            Ok(ExitCode::TransformationFailed)
        } else if str_eq(s, "DataCorrupt") {
            Ok(ExitCode::DataCorrupt)
        } else if str_eq(s, "AuthenticationFailed") {
            Ok(ExitCode::AuthenticationFailed)
        } else if str_eq(s, "AuthorizationFailed") {
            Ok(ExitCode::AuthorizationFailed)
        } else if str_eq(s, "SecurityViolation") {
            Ok(ExitCode::SecurityViolation)
        } else if str_eq(s, "CertificateInvalid") {
            Ok(ExitCode::CertificateInvalid)
        } else if str_eq(s, "MetricsUnavailable") {
            Ok(ExitCode::MetricsUnavailable)
        } else if str_eq(s, "TracingFailed") {
            Ok(ExitCode::TracingFailed)
        } else if str_eq(s, "LoggingFailed") {
            Ok(ExitCode::LoggingFailed)
        } else if str_eq(s, "AlertSystemFailed") {
            Ok(ExitCode::AlertSystemFailed)
        } else if str_eq(s, "StructuredLoggingFailed") {
            Ok(ExitCode::StructuredLoggingFailed)
        } else if str_eq(s, "TestFailure") {
            Ok(ExitCode::TestFailure)
        } else if str_eq(s, "TestError") {
            Ok(ExitCode::TestError)
        } else if str_eq(s, "TestInterrupted") {
            Ok(ExitCode::TestInterrupted)
        } else if str_eq(s, "TestUsageError") {
            Ok(ExitCode::TestUsageError)
        } else if str_eq(s, "TestNoTestsCollected") {
            Ok(ExitCode::TestNoTestsCollected)
        } else if str_eq(s, "CoverageThresholdNotMet") {
            Ok(ExitCode::CoverageThresholdNotMet)
        } else if str_eq(s, "SignalHup") {
            Ok(ExitCode::SignalHup)
        } else if str_eq(s, "SignalInt") {
            Ok(ExitCode::SignalInt)
        } else if str_eq(s, "SignalQuit") {
            Ok(ExitCode::SignalQuit)
        } else if str_eq(s, "SignalKill") {
            Ok(ExitCode::SignalKill)
        } else if str_eq(s, "SignalPipe") {
            Ok(ExitCode::SignalPipe)
        } else if str_eq(s, "SignalAlrm") {
            Ok(ExitCode::SignalAlrm)
        } else if str_eq(s, "SignalTerm") {
            Ok(ExitCode::SignalTerm)
        } else if str_eq(s, "SignalUsr1") {
            Ok(ExitCode::SignalUsr1)
        } else if str_eq(s, "SignalUsr2") {
            Ok(ExitCode::SignalUsr2)
        } else {
            Err(DecodeError::UnrecognizedVariant(String::from_str(s)))
        }
    }
}

/// Every numeric value lies in the published range of the catalog.
pub proof fn lemma_code_in_range(e: ExitCode)
    ensures
        0 <= e.code_spec() <= 165,
{
}

/// Looking a code's numeric value back up yields the same code.
pub proof fn lemma_code_round_trip(e: ExitCode)
    ensures
        ExitCode::from_code_spec(e.code_spec()) == Some(e),
{
}

/// No two exit codes share a numeric value.
pub proof fn lemma_code_injective(a: ExitCode, b: ExitCode)
    requires
        a.code_spec() == b.code_spec(),
    ensures
        a == b,
{
    lemma_code_round_trip(a);
    lemma_code_round_trip(b);
}

/// Every exit code has a non-empty description.
pub proof fn lemma_display_message_nonempty(e: ExitCode)
    ensures
        e.message_spec().len() > 0,
{
    match e {
        ExitCode::Success => {
            reveal_strlit("Successful execution");
            assert("Successful execution"@.len() == 20);
        },
        ExitCode::Failure => {
            reveal_strlit("Generic failure (unspecified error)");
            assert("Generic failure (unspecified error)"@.len() == 35);
        },
        ExitCode::PortInUse => {
            reveal_strlit("Specified port is already in use");
            assert("Specified port is already in use"@.len() == 32);
        },
        ExitCode::PortRangeExhausted => {
            reveal_strlit("No available ports in configured range");
            assert("No available ports in configured range"@.len() == 38);
        },
        ExitCode::InstanceAlreadyRunning => {
            reveal_strlit("Another instance already running on target port");
            assert("Another instance already running on target port"@.len() == 47);
        },
        ExitCode::NetworkUnreachable => {
            reveal_strlit("Network destination unreachable");
            assert("Network destination unreachable"@.len() == 31);
        },
        ExitCode::ConnectionRefused => {
            reveal_strlit("Connection refused by remote host");
            assert("Connection refused by remote host"@.len() == 33);
        },
        ExitCode::ConnectionTimeout => {
            reveal_strlit("Connection attempt timed out");
            assert("Connection attempt timed out"@.len() == 28);
        },
        ExitCode::ConfigInvalid => {
            reveal_strlit("Configuration file failed validation");
            assert("Configuration file failed validation"@.len() == 36);
        },
        ExitCode::MissingDependency => {
            reveal_strlit("Required dependency not found");
            assert("Required dependency not found"@.len() == 29);
        },
        ExitCode::SsotVersionMismatch => {
            reveal_strlit("SSOT (Crucible) version incompatible");
            assert("SSOT (Crucible) version incompatible"@.len() == 36);
        },
        ExitCode::ConfigFileNotFound => {
            reveal_strlit("Required configuration file not found");
            assert("Required configuration file not found"@.len() == 37);
        },
        ExitCode::EnvironmentInvalid => {
            reveal_strlit("Invalid or unsupported environment specification");
            assert("Invalid or unsupported environment specification"@.len() == 48);
        },
        ExitCode::HealthCheckFailed => {
            reveal_strlit("Health check endpoint returned non-healthy status");
            assert("Health check endpoint returned non-healthy status"@.len() == 49);
        },
        ExitCode::DatabaseUnavailable => {
            reveal_strlit("Database connection failed or unavailable");
            assert("Database connection failed or unavailable"@.len() == 41);
        },
        ExitCode::ExternalServiceUnavailable => {
            reveal_strlit("Required external service unavailable");
            assert("Required external service unavailable"@.len() == 37);
        },
        ExitCode::ResourceExhausted => {
            reveal_strlit("System resources exhausted (memory, disk, file descriptors)");
            assert("System resources exhausted (memory, disk, file descriptors)"@.len() == 59);
        },
        ExitCode::OperationTimeout => {
            reveal_strlit("Operation exceeded timeout threshold");
            assert("Operation exceeded timeout threshold"@.len() == 36);
        },
        ExitCode::InvalidArgument => {
            reveal_strlit("Invalid command-line argument or flag value");
            assert("Invalid command-line argument or flag value"@.len() == 43);
        },
        ExitCode::MissingRequiredArgument => {
            reveal_strlit("Required command-line argument not provided");
            assert("Required command-line argument not provided"@.len() == 43);
        },
        ExitCode::Usage => {
            reveal_strlit("Command-line usage error");
            assert("Command-line usage error"@.len() == 24);
        },
        ExitCode::PermissionDenied => {
            reveal_strlit("Insufficient permissions for operation");
            assert("Insufficient permissions for operation"@.len() == 38);
        },
        ExitCode::FileNotFound => {
            reveal_strlit("Required file not found");
            assert("Required file not found"@.len() == 23);
        },
        ExitCode::DirectoryNotFound => {
            reveal_strlit("Required directory not found");
            assert("Required directory not found"@.len() == 28);
        },
        ExitCode::FileReadError => {
            reveal_strlit("Error reading file");
            assert("Error reading file"@.len() == 18);
        },
        ExitCode::FileWriteError => {
            reveal_strlit("Error writing file");
            assert("Error writing file"@.len() == 18);
        },
        ExitCode::DataInvalid => {
            reveal_strlit("Input data failed validation");
            assert("Input data failed validation"@.len() == 28);
        },
        ExitCode::ParseError => {
            reveal_strlit("Error parsing input data");
            assert("Error parsing input data"@.len() == 24);
        },
        ExitCode::TransformationFailed => {
            reveal_strlit("Data transformation or conversion failed");
            assert("Data transformation or conversion failed"@.len() == 40);
        },
        ExitCode::DataCorrupt => {
            reveal_strlit("Data corruption detected");
            assert("Data corruption detected"@.len() == 24);
        },
        ExitCode::AuthenticationFailed => {
            reveal_strlit("Authentication failed");
            assert("Authentication failed"@.len() == 21);
        },
        ExitCode::AuthorizationFailed => {
            reveal_strlit("Authorization failed (authenticated but insufficient permissions)");
            assert("Authorization failed (authenticated but insufficient permissions)"@.len() == 65);
        },
        ExitCode::SecurityViolation => {
            reveal_strlit("Security policy violation detected");
            assert("Security policy violation detected"@.len() == 34);
        },
        ExitCode::CertificateInvalid => {
            reveal_strlit("TLS/SSL certificate validation failed");
            assert("TLS/SSL certificate validation failed"@.len() == 37);
        },
        ExitCode::MetricsUnavailable => {
            reveal_strlit("Metrics endpoint or collection system unavailable");
            assert("Metrics endpoint or collection system unavailable"@.len() == 49);
        },
        ExitCode::TracingFailed => {
            reveal_strlit("Distributed tracing system unavailable");
            assert("Distributed tracing system unavailable"@.len() == 38);
        },
        ExitCode::LoggingFailed => {
            reveal_strlit("Logging system unavailable or misconfigured");
            assert("Logging system unavailable or misconfigured"@.len() == 43);
        },
        ExitCode::AlertSystemFailed => {
            reveal_strlit("Alerting system unavailable");
            assert("Alerting system unavailable"@.len() == 27);
        },
        ExitCode::StructuredLoggingFailed => {
            reveal_strlit("Structured logging system unavailable");
            assert("Structured logging system unavailable"@.len() == 37);
        },
        ExitCode::TestFailure => {
            reveal_strlit("One or more tests failed");
            assert("One or more tests failed"@.len() == 24);
        },
        ExitCode::TestError => {
            reveal_strlit("Test execution error (not test failure)");
            assert("Test execution error (not test failure)"@.len() == 39);
        },
        ExitCode::TestInterrupted => {
            reveal_strlit("Test run interrupted by user or system");
            assert("Test run interrupted by user or system"@.len() == 38);
        },
        ExitCode::TestUsageError => {
            reveal_strlit("Test command usage error");
            assert("Test command usage error"@.len() == 24);
        },
        ExitCode::TestNoTestsCollected => {
            reveal_strlit("No tests found or all tests skipped");
            assert("No tests found or all tests skipped"@.len() == 35);
        },
        ExitCode::CoverageThresholdNotMet => {
            reveal_strlit("Test coverage below required threshold");
            assert("Test coverage below required threshold"@.len() == 38);
        },
        ExitCode::SignalHup => {
            reveal_strlit("Hangup signal (SIGHUP) - config reload via restart");
            assert("Hangup signal (SIGHUP) - config reload via restart"@.len() == 50);
        },
        ExitCode::SignalInt => {
            reveal_strlit("Interrupt signal (SIGINT) - user interrupt with Ctrl+C double-tap");
            assert("Interrupt signal (SIGINT) - user interrupt with Ctrl+C double-tap"@.len() == 65);
        },
        ExitCode::SignalQuit => {
            reveal_strlit("Quit signal (SIGQUIT) - immediate exit");
            assert("Quit signal (SIGQUIT) - immediate exit"@.len() == 38);
        },
        ExitCode::SignalKill => {
            reveal_strlit("Kill signal (SIGKILL)");
            assert("Kill signal (SIGKILL)"@.len() == 21);
        },
        ExitCode::SignalPipe => {
            reveal_strlit("Broken pipe (SIGPIPE) - observe only");
            assert("Broken pipe (SIGPIPE) - observe only"@.len() == 36);
        },
        ExitCode::SignalAlrm => {
            reveal_strlit("Alarm signal (SIGALRM) - watchdog timeout");
            assert("Alarm signal (SIGALRM) - watchdog timeout"@.len() == 41);
        },
        ExitCode::SignalTerm => {
            reveal_strlit("Termination signal (SIGTERM) - graceful shutdown");
            assert("Termination signal (SIGTERM) - graceful shutdown"@.len() == 48);
        },
        ExitCode::SignalUsr1 => {
            reveal_strlit("User-defined signal 1 (SIGUSR1) - custom handler");
            assert("User-defined signal 1 (SIGUSR1) - custom handler"@.len() == 48);
        },
        ExitCode::SignalUsr2 => {
            reveal_strlit("User-defined signal 2 (SIGUSR2) - custom handler");
            assert("User-defined signal 2 (SIGUSR2) - custom handler"@.len() == 48);
        },
    }
}

/// Signal-derived codes follow the POSIX `128 + signal_number` convention.
pub proof fn lemma_signal_code(e: ExitCode)
    ensures
        e.signal_spec() matches Some(n) ==> e.code_spec() == 128 + n,
{
}

/// A code carries a signal number exactly when its category is `signals`.
pub proof fn lemma_signal_category(e: ExitCode)
    ensures
        e.signal_spec() is Some <==> e.category_spec() == "signals"@,
{
    reveal_strlit("standard");
    assert("standard"@.len() == 8);
    reveal_strlit("networking");
    assert("networking"@.len() == 10);
    reveal_strlit("configuration");
    assert("configuration"@.len() == 13);
    reveal_strlit("runtime");
    assert("runtime"@.len() == 7);
    reveal_strlit("usage");
    assert("usage"@.len() == 5);
    reveal_strlit("permissions");
    assert("permissions"@.len() == 11);
    reveal_strlit("data");
    assert("data"@.len() == 4);
    reveal_strlit("security");
    assert("security"@.len() == 8);
    reveal_strlit("observability");
    assert("observability"@.len() == 13);
    reveal_strlit("testing");
    assert("testing"@.len() == 7);
    reveal_strlit("signals");
    assert("signals"@.len() == 7);
    assert("security"@[1] == 'e');
    assert("standard"@[1] == 't');
    assert("observability"@[0] == 'o');
    assert("configuration"@[0] == 'c');
    assert("testing"@[0] == 't');
    assert("runtime"@[0] == 'r');
    assert("signals"@[0] == 's');
    match e {
        ExitCode::Success => {
            assert("standard"@ != "signals"@);
        },
        ExitCode::Failure => {
            assert("standard"@ != "signals"@);
        },
        ExitCode::PortInUse => {
            assert("networking"@ != "signals"@);
        },
        ExitCode::PortRangeExhausted => {
            assert("networking"@ != "signals"@);
        },
        ExitCode::InstanceAlreadyRunning => {
            assert("networking"@ != "signals"@);
        },
        ExitCode::NetworkUnreachable => {
            assert("networking"@ != "signals"@);
        },
        ExitCode::ConnectionRefused => {
            assert("networking"@ != "signals"@);
        },
        ExitCode::ConnectionTimeout => {
            assert("networking"@ != "signals"@);
        },
        ExitCode::ConfigInvalid => {
            assert("configuration"@ != "signals"@);
        },
        ExitCode::MissingDependency => {
            assert("configuration"@ != "signals"@);
        },
        ExitCode::SsotVersionMismatch => {
            assert("configuration"@ != "signals"@);
        },
        ExitCode::ConfigFileNotFound => {
            assert("configuration"@ != "signals"@);
        },
        ExitCode::EnvironmentInvalid => {
            assert("configuration"@ != "signals"@);
        },
        ExitCode::HealthCheckFailed => {
            assert("runtime"@ != "signals"@);
        },
        ExitCode::DatabaseUnavailable => {
            assert("runtime"@ != "signals"@);
        },
        ExitCode::ExternalServiceUnavailable => {
            assert("runtime"@ != "signals"@);
        },
        ExitCode::ResourceExhausted => {
            assert("runtime"@ != "signals"@);
        },
        ExitCode::OperationTimeout => {
            assert("runtime"@ != "signals"@);
        },
        ExitCode::InvalidArgument => {
            assert("usage"@ != "signals"@);
        },
        ExitCode::MissingRequiredArgument => {
            assert("usage"@ != "signals"@);
        },
        ExitCode::Usage => {
            assert("usage"@ != "signals"@);
        },
        ExitCode::PermissionDenied => {
            assert("permissions"@ != "signals"@);
        },
        ExitCode::FileNotFound => {
            assert("permissions"@ != "signals"@);
        },
        ExitCode::DirectoryNotFound => {
            assert("permissions"@ != "signals"@);
        },
        ExitCode::FileReadError => {
            assert("permissions"@ != "signals"@);
        },
        ExitCode::FileWriteError => {
            assert("permissions"@ != "signals"@);
        },
        ExitCode::DataInvalid => {
            assert("data"@ != "signals"@);
        },
        ExitCode::ParseError => {
            assert("data"@ != "signals"@);
        },
        ExitCode::TransformationFailed => {
            assert("data"@ != "signals"@);
        },
        ExitCode::DataCorrupt => {
            assert("data"@ != "signals"@);
        },
        ExitCode::AuthenticationFailed => {
            assert("security"@ != "signals"@);
        },
        ExitCode::AuthorizationFailed => {
            assert("security"@ != "signals"@);
        },
        ExitCode::SecurityViolation => {
            assert("security"@ != "signals"@);
        },
        ExitCode::CertificateInvalid => {
            assert("security"@ != "signals"@);
        },
        ExitCode::MetricsUnavailable => {
            assert("observability"@ != "signals"@);
        },
        ExitCode::TracingFailed => {
            assert("observability"@ != "signals"@);
        },
        ExitCode::LoggingFailed => {
            assert("observability"@ != "signals"@);
        },
        ExitCode::AlertSystemFailed => {
            assert("observability"@ != "signals"@);
        },
        ExitCode::StructuredLoggingFailed => {
            assert("observability"@ != "signals"@);
        },
        ExitCode::TestFailure => {
            assert("testing"@ != "signals"@);
        },
        ExitCode::TestError => {
            assert("testing"@ != "signals"@);
        },
        ExitCode::TestInterrupted => {
            assert("testing"@ != "signals"@);
        },
        ExitCode::TestUsageError => {
            assert("testing"@ != "signals"@);
        },
        ExitCode::TestNoTestsCollected => {
            assert("testing"@ != "signals"@);
        },
        ExitCode::CoverageThresholdNotMet => {
            assert("testing"@ != "signals"@);
        },
        ExitCode::SignalHup => {
        },
        ExitCode::SignalInt => {
        },
        ExitCode::SignalQuit => {
        },
        ExitCode::SignalKill => {
        },
        ExitCode::SignalPipe => {
        },
        ExitCode::SignalAlrm => {
        },
        ExitCode::SignalTerm => {
        },
        ExitCode::SignalUsr1 => {
        },
        ExitCode::SignalUsr2 => {
        },
    }
}

} // verus!
