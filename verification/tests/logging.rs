use beluga::logging::{
    aws_level_to_log, level_enabled, level_to_filter, log_level_filter_to_aws, LevelFilter, LogLevel,
    PackageId, Subject, AWS_C_COMMON_PACKAGE_ID, AWS_C_IO_PACKAGE_ID, AWS_C_MQTT_PACKAGE_ID,
    AWS_LL_DEBUG, AWS_LL_ERROR, AWS_LL_FATAL, AWS_LL_INFO, AWS_LL_NONE, AWS_LL_TRACE, AWS_LL_WARN,
    AWS_LS_COMMON_THREAD, AWS_LS_IO_SOCKET, AWS_LS_MQTT_CLIENT,
};

#[test]
fn subjects_belong_to_their_package() {
    assert_eq!(Subject(AWS_LS_COMMON_THREAD).package_id(), PackageId(AWS_C_COMMON_PACKAGE_ID));
    assert_eq!(Subject(AWS_LS_IO_SOCKET).package_id(), PackageId(AWS_C_IO_PACKAGE_ID));
    assert_eq!(Subject(AWS_LS_MQTT_CLIENT).package_id(), PackageId(AWS_C_MQTT_PACKAGE_ID));
    assert_eq!(Subject(2047).package_id(), PackageId(1));
}

#[test]
fn package_subject_range() {
    let r = PackageId(AWS_C_MQTT_PACKAGE_ID).subject_range();
    assert_eq!(*r.start(), Subject(5120));
    assert_eq!(*r.end(), Subject(6143));
    let r = PackageId(0).subject_range();
    assert_eq!(*r.start(), Subject(0));
    assert_eq!(*r.end(), Subject(1023));
    for s in [AWS_LS_COMMON_THREAD, AWS_LS_IO_SOCKET, AWS_LS_MQTT_CLIENT] {
        let p = Subject(s).package_id();
        assert!(p.subject_range().contains(&Subject(s)));
    }
}

#[test]
fn static_targets() {
    assert_eq!(Subject(AWS_LS_COMMON_THREAD).static_target(), Some("aws::common::thread"));
    assert_eq!(Subject(AWS_LS_IO_SOCKET).static_target(), Some("aws::io::socket"));
    assert_eq!(Subject(1000).static_target(), Some("aws::common"));
    assert_eq!(Subject(3 * 1024 + 7).static_target(), Some("aws::compression"));
    assert_eq!(Subject(8 * 1024).static_target(), None);
}

#[test]
fn target_falls_back_to_escaped_subject_name() {
    assert_eq!(Subject(AWS_LS_IO_SOCKET).target(b"ignored"), "aws::io::socket");
    assert_eq!(Subject(9 * 1024).target(b"custom-subject"), "aws::custom-subject");
    assert_eq!(Subject(9 * 1024).target(b"a\tb\"\\\x01\xff"), "aws::a\\tb\\\"\\\\\\x01\\xff");
}

#[test]
fn aws_levels_to_log_levels() {
    assert_eq!(aws_level_to_log(AWS_LL_FATAL), LogLevel::Error);
    assert_eq!(aws_level_to_log(AWS_LL_ERROR), LogLevel::Error);
    assert_eq!(aws_level_to_log(AWS_LL_WARN), LogLevel::Warn);
    assert_eq!(aws_level_to_log(AWS_LL_INFO), LogLevel::Info);
    assert_eq!(aws_level_to_log(AWS_LL_DEBUG), LogLevel::Debug);
    assert_eq!(aws_level_to_log(AWS_LL_TRACE), LogLevel::Trace);
    assert_eq!(aws_level_to_log(AWS_LL_NONE), LogLevel::Trace);
    assert_eq!(aws_level_to_log(77), LogLevel::Trace);
}

#[test]
fn log_filters_to_aws_levels() {
    assert_eq!(log_level_filter_to_aws(LevelFilter::Off), AWS_LL_FATAL);
    assert_eq!(log_level_filter_to_aws(LevelFilter::Error), AWS_LL_ERROR);
    assert_eq!(log_level_filter_to_aws(LevelFilter::Warn), AWS_LL_WARN);
    assert_eq!(log_level_filter_to_aws(LevelFilter::Info), AWS_LL_INFO);
    assert_eq!(log_level_filter_to_aws(LevelFilter::Debug), AWS_LL_DEBUG);
    assert_eq!(log_level_filter_to_aws(LevelFilter::Trace), AWS_LL_TRACE);
}

#[test]
fn level_round_trips() {
    for level in [AWS_LL_ERROR, AWS_LL_WARN, AWS_LL_INFO, AWS_LL_DEBUG, AWS_LL_TRACE] {
        assert_eq!(log_level_filter_to_aws(level_to_filter(aws_level_to_log(level))), level);
    }
    assert_eq!(aws_level_to_log(log_level_filter_to_aws(LevelFilter::Off)), LogLevel::Error);
}

#[test]
fn levels_pass_filters() {
    assert!(level_enabled(LogLevel::Error, LevelFilter::Error));
    assert!(!level_enabled(LogLevel::Warn, LevelFilter::Error));
    assert!(level_enabled(LogLevel::Info, LevelFilter::Trace));
    assert!(!level_enabled(LogLevel::Error, LevelFilter::Off));
    assert_eq!(level_to_filter(LogLevel::Debug), LevelFilter::Debug);
}
