use assimp::log::{LogSinks, LogStream};

#[test]
fn log_sinks_attach_and_detach() {
    let mut sinks = LogSinks::new();
    assert!(!sinks.verbose);
    assert!(sinks.streams.is_empty());
    sinks.add_log_stream(LogStream::Stdout);
    sinks.add_log_stream(LogStream::File("import.log".to_string()));
    sinks.enable_verbose_logging(true);
    assert!(sinks.verbose);
    assert_eq!(sinks.streams.len(), 2);
    assert!(matches!(sinks.streams[0], LogStream::Stdout));
    assert!(matches!(&sinks.streams[1], LogStream::File(p) if p == "import.log"));
    sinks.detach_all_log_streams();
    assert!(sinks.streams.is_empty());
    assert!(sinks.verbose);
}

#[test]
fn log_stream_codes() {
    assert_eq!(LogStream::File("a".to_string()).code(), 1);
    assert_eq!(LogStream::Stdout.code(), 2);
    assert_eq!(LogStream::Stderr.code(), 4);
    assert_eq!(LogStream::Debugger.code(), 8);
}
