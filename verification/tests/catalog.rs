use quick_serve::CommandMsg;
use quick_serve::Intent;
use quick_serve::LogLevel;
use quick_serve::Message;
use quick_serve::MyLogger;
use quick_serve::MyLoggerFn;
use quick_serve::Protocol;

#[test]
fn test_protocol_names() {
    assert_eq!(Protocol::Http.to_string(), "http");
    assert_eq!(Protocol::Ftp.to_string(), "ftp");
    assert_eq!(Protocol::Tftp.to_string(), "tftp");
    assert_eq!(Protocol::Dhcp.to_string(), "dhcp");
}

#[test]
fn test_protocol_default_ports() {
    assert_eq!(Protocol::Http.get_default_port(), 8080);
    assert_eq!(Protocol::Ftp.get_default_port(), 2121);
    assert_eq!(Protocol::Tftp.get_default_port(), 6969);
    assert_eq!(Protocol::Dhcp.get_default_port(), 6767);
}

#[test]
fn test_protocol_list_order() {
    let list = quick_serve::protocol::protocol_list();
    assert_eq!(
        list,
        vec![Protocol::Http, Protocol::Tftp, Protocol::Ftp, Protocol::Dhcp]
    );
    assert_eq!(Protocol::default(), Protocol::Http);
}

#[test]
fn test_command_msg_new_and_default() {
    let cmd = CommandMsg::new(&Protocol::Ftp);
    assert_eq!(cmd.intent, Intent::Stop);
    assert_eq!(cmd.port, 2121);
    assert_eq!(cmd.protocol, Protocol::Ftp);
    assert!(cmd.bind_ip.is_empty());
    assert!(cmd.path.is_empty());

    let cmd = CommandMsg::default();
    assert_eq!(cmd.intent, Intent::Stop);
    assert_eq!(cmd.port, 0);
    assert_eq!(cmd.protocol, Protocol::Http);
    assert!(cmd.bind_ip.is_empty());
    assert!(cmd.path.is_empty());
}

#[test]
fn test_message_default() {
    let m = Message::default();
    assert!(!m.connect);
    assert!(!m.terminate);
    assert!(m.path.is_empty());
    assert!(m.bind_address.is_empty());
    assert_eq!(m.port, 0);
}

#[test]
fn test_logger_threshold() {
    let logger: MyLogger = <MyLogger as MyLoggerFn>::new(LogLevel::Info);
    assert!(logger.enabled(LogLevel::Error));
    assert!(logger.enabled(LogLevel::Info));
    assert!(!logger.enabled(LogLevel::Debug));
    assert!(!logger.enabled(LogLevel::Trace));

    let mut logger = logger;
    logger.log(LogLevel::Info, "kept".to_string());
    logger.log(LogLevel::Debug, "dropped".to_string());
    assert_eq!(logger.logs, vec!["kept".to_string()]);
}

#[test]
fn test_logger_rotation() {
    let mut logger: MyLogger = <MyLogger as MyLoggerFn>::new(LogLevel::Info);
    for i in 0..logger.max_logs + 5 {
        logger.record(format!("line {}", i));
    }
    assert_eq!(logger.logs.len(), logger.max_logs);
    assert_eq!(logger.logs[0], "line 5");
    assert_eq!(logger.logs[logger.max_logs - 1], format!("line {}", logger.max_logs + 4));
}
