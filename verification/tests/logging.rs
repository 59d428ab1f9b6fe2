use realsense_rust::foreign::{ForeignCall, ForeignReply, Rs2Failure};
use realsense_rust::kind::Rs2Exception;
use realsense_rust::logging::{
    contains_nul, enable_rolling_log_file, enable_rolling_log_file_reply, get_full_log_message,
    inject_rs_log_to_rust, log_directory, log_directory_from, log_to_callback,
    log_to_callback_reply, log_to_console, log_to_console_reply, log_to_file, log_to_file_reply,
    reset_logger, reset_logger_reply, LogError, LogMessage, Rs2LogSeverity,
};
use realsense_sys as sys;

fn failure(message: &str) -> Rs2Failure {
    Rs2Failure { kind: Rs2Exception::Backend, message: String::from(message) }
}

#[test]
fn severity_ordinals_are_the_native_ones() {
    assert_eq!(Rs2LogSeverity::Debug.to_u32(), sys::rs2_log_severity_RS2_LOG_SEVERITY_DEBUG);
    assert_eq!(Rs2LogSeverity::Info.to_u32(), sys::rs2_log_severity_RS2_LOG_SEVERITY_INFO);
    assert_eq!(Rs2LogSeverity::Warn.to_u32(), sys::rs2_log_severity_RS2_LOG_SEVERITY_WARN);
    assert_eq!(Rs2LogSeverity::Error.to_u32(), sys::rs2_log_severity_RS2_LOG_SEVERITY_ERROR);
    assert_eq!(Rs2LogSeverity::Fatal.to_u32(), sys::rs2_log_severity_RS2_LOG_SEVERITY_FATAL);
    assert_eq!(Rs2LogSeverity::Off.to_u32(), sys::rs2_log_severity_RS2_LOG_SEVERITY_NONE);
    assert_eq!(Rs2LogSeverity::All.to_u32(), sys::rs2_log_severity_RS2_LOG_SEVERITY_ALL);
}

#[test]
fn severity_is_read_from_its_ordinal() {
    assert_eq!(Rs2LogSeverity::from_u32(0), Rs2LogSeverity::Debug);
    assert_eq!(Rs2LogSeverity::from_u32(1), Rs2LogSeverity::Info);
    assert_eq!(Rs2LogSeverity::from_u32(2), Rs2LogSeverity::Warn);
    assert_eq!(Rs2LogSeverity::from_u32(3), Rs2LogSeverity::Error);
    assert_eq!(Rs2LogSeverity::from_u32(4), Rs2LogSeverity::Fatal);
    assert_eq!(Rs2LogSeverity::from_u32(5), Rs2LogSeverity::Off);
    assert_eq!(Rs2LogSeverity::from_u32(6), Rs2LogSeverity::All);
    assert_eq!(Rs2LogSeverity::from_u32(u32::MAX), Rs2LogSeverity::All);
}

#[test]
fn severity_maps_to_log_level_and_back() {
    assert_eq!(Rs2LogSeverity::Debug.to_level(), log::Level::Debug);
    assert_eq!(Rs2LogSeverity::Info.to_level(), log::Level::Info);
    assert_eq!(Rs2LogSeverity::Warn.to_level(), log::Level::Warn);
    assert_eq!(Rs2LogSeverity::Error.to_level(), log::Level::Error);
    assert_eq!(Rs2LogSeverity::Fatal.to_level(), log::Level::Error);
    assert_eq!(Rs2LogSeverity::Off.to_level(), log::Level::Error);
    assert_eq!(Rs2LogSeverity::All.to_level(), log::Level::Trace);
    assert_eq!(Rs2LogSeverity::from_level(log::Level::Debug), Rs2LogSeverity::Debug);
    assert_eq!(Rs2LogSeverity::from_level(log::Level::Info), Rs2LogSeverity::Info);
    assert_eq!(Rs2LogSeverity::from_level(log::Level::Warn), Rs2LogSeverity::Warn);
    assert_eq!(Rs2LogSeverity::from_level(log::Level::Error), Rs2LogSeverity::Error);
    assert_eq!(Rs2LogSeverity::from_level(log::Level::Trace), Rs2LogSeverity::All);
    for level in log::Level::iter() {
        assert_eq!(Rs2LogSeverity::from_level(level).to_level(), level);
        assert_eq!(log::Level::from(Rs2LogSeverity::from(level)), level);
    }
    assert_eq!(Rs2LogSeverity::from(log::Level::Trace), Rs2LogSeverity::All);
    assert_eq!(log::Level::from(Rs2LogSeverity::Fatal), log::Level::Error);
    assert_eq!(Rs2LogSeverity::from(3u32), Rs2LogSeverity::Error);
    assert_eq!(u32::from(Rs2LogSeverity::Off), 5);
}

#[test]
fn log_target_names_file_and_line() {
    let message = LogMessage {
        filename: String::from("sensor.cpp"),
        line_number: 1042,
        message: String::from("stream started"),
    };
    assert_eq!(message.log_target(), "librealsense::sensor.cpp:1042");
    let message = LogMessage { filename: String::new(), line_number: 0, message: String::new() };
    assert_eq!(message.log_target(), "librealsense:::0");
    let message = LogMessage {
        filename: String::from("a/b.cpp"),
        line_number: u32::MAX,
        message: String::new(),
    };
    assert_eq!(message.log_target(), "librealsense::a/b.cpp:4294967295");
    let message = LogMessage { filename: String::from("x"), line_number: 7, message: String::new() };
    assert_eq!(message.log_target(), "librealsense::x:7");
    let message = LogMessage { filename: String::from("x"), line_number: 10, message: String::new() };
    assert_eq!(message.log_target(), "librealsense::x:10");
    assert_eq!(LogMessage::default().log_target(), "librealsense:::0");
}

#[test]
fn full_log_message_is_put_together() {
    assert_eq!(
        get_full_log_message(String::from("text"), Ok(String::from("f.cpp")), Ok(12)),
        Ok(LogMessage {
            filename: String::from("f.cpp"),
            line_number: 12,
            message: String::from("text")
        })
    );
    assert_eq!(
        get_full_log_message(String::from("text"), Err(failure("no file")), Ok(12)),
        Err(LogError::GetFullLogMessageFailed(Rs2Exception::Backend, String::from("no file")))
    );
    assert_eq!(
        get_full_log_message(String::from("text"), Ok(String::from("f.cpp")), Err(failure("no line"))),
        Err(LogError::GetFullLogMessageFailed(Rs2Exception::Backend, String::from("no line")))
    );
    assert_eq!(
        get_full_log_message(String::from("text"), Err(failure("no file")), Err(failure("no line"))),
        Err(LogError::GetFullLogMessageFailed(Rs2Exception::Backend, String::from("no file")))
    );
}

#[test]
fn log_setup_calls_carry_their_arguments() {
    assert_eq!(
        inject_rs_log_to_rust(log::Level::Trace),
        ForeignCall::LogToCallback { min_severity: Rs2LogSeverity::All }
    );
    assert_eq!(
        inject_rs_log_to_rust(log::Level::Warn),
        ForeignCall::LogToCallback { min_severity: Rs2LogSeverity::Warn }
    );
    assert_eq!(
        log_to_callback(Rs2LogSeverity::Fatal),
        ForeignCall::LogToCallback { min_severity: Rs2LogSeverity::Fatal }
    );
    assert_eq!(
        log_to_console(Rs2LogSeverity::Info),
        ForeignCall::LogToConsole { min_severity: Rs2LogSeverity::Info }
    );
    assert_eq!(reset_logger(), ForeignCall::ResetLogger);
    assert_eq!(
        enable_rolling_log_file(4096),
        ForeignCall::EnableRollingLogFile { max_size: 4096 }
    );
}

#[test]
fn log_setup_replies_map_to_their_errors() {
    let failed = || ForeignReply::Failed(failure("refused"));
    let reason = || String::from("refused");
    assert_eq!(log_to_callback_reply(ForeignReply::Done), Ok(()));
    assert_eq!(
        log_to_callback_reply(failed()),
        Err(LogError::LogToCallbackFailed(Rs2Exception::Backend, reason()))
    );
    assert_eq!(log_to_console_reply(ForeignReply::Done), Ok(()));
    assert_eq!(
        log_to_console_reply(failed()),
        Err(LogError::LogToConsoleFailed(Rs2Exception::Backend, reason()))
    );
    assert_eq!(log_to_file_reply(ForeignReply::Done), Ok(()));
    assert_eq!(
        log_to_file_reply(failed()),
        Err(LogError::LogToFileFailed(Rs2Exception::Backend, reason()))
    );
    assert_eq!(reset_logger_reply(ForeignReply::Done), Ok(()));
    assert_eq!(
        reset_logger_reply(failed()),
        Err(LogError::ResetLoggerFailed(Rs2Exception::Backend, reason()))
    );
    assert_eq!(enable_rolling_log_file_reply(ForeignReply::Done), Ok(()));
    assert_eq!(
        enable_rolling_log_file_reply(failed()),
        Err(LogError::EnableRollingLogFileFailed(Rs2Exception::Backend, reason()))
    );
}

#[test]
fn log_to_file_checks_directory_and_path() {
    assert_eq!(
        log_to_file(Rs2LogSeverity::Debug, "logs/rs.log", Ok(())),
        Ok(ForeignCall::LogToFile { min_severity: Rs2LogSeverity::Debug })
    );
    assert_eq!(
        log_to_file(Rs2LogSeverity::Debug, "logs/rs.log", Err(String::from("permission denied"))),
        Err(LogError::CreateLogDirectoryFailed(String::from("permission denied")))
    );
    assert_eq!(
        log_to_file(Rs2LogSeverity::Debug, "logs/r\0s.log", Ok(())),
        Err(LogError::LogToFileFailed(
            Rs2Exception::InvalidValue,
            String::from("Failed to convert file path to CString.")
        ))
    );
    assert_eq!(
        log_to_file(Rs2LogSeverity::Debug, "logs/r\0s.log", Err(String::from("denied"))),
        Err(LogError::CreateLogDirectoryFailed(String::from("denied")))
    );
    assert!(contains_nul("\0"));
    assert!(contains_nul("ab\0"));
    assert!(!contains_nul(""));
    assert!(!contains_nul("ab0"));
}

#[test]
fn log_directory_is_the_parent_of_the_path() {
    assert_eq!(log_directory("logs/rs.log"), Ok(String::from("logs")));
    assert_eq!(log_directory("/var/log/rs/rs.log"), Ok(String::from("/var/log/rs")));
    assert_eq!(log_directory("rs.log"), Ok(String::new()));
    assert_eq!(log_directory("/rs.log"), Ok(String::from("/")));
    assert_eq!(log_directory("/"), Err(LogError::CreateLogDirectoryFailed(String::from("/"))));
    assert_eq!(log_directory(""), Err(LogError::CreateLogDirectoryFailed(String::new())));
    assert_eq!(
        log_directory_from("a/b", Some(String::from("a"))),
        Ok(String::from("a"))
    );
    assert_eq!(
        log_directory_from("a/b", None),
        Err(LogError::CreateLogDirectoryFailed(String::from("a/b")))
    );
}
