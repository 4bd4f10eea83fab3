use gnirehtet::binary::{build_packet_string, to_byte_array};
use gnirehtet::cli::{args_action, get_log_file, prompt_choice, ArgsAction, PromptChoice};
use gnirehtet::dns_cache::{extract_dns_name, DnsCache, SocketAddress, CACHE_TTL_MILLIS};
use gnirehtet::execution_error::{
    error_line, Cmd, CommandExecutionError, ErrorKind, IoError, ProcessIoError, ProcessStatusError,
    Severity, Termination,
};
use gnirehtet::ip_header::IpAddress;
use gnirehtet::logger::{level_from_env, LogLevel, LogSink, SimpleLogger};
use gnirehtet::socks5::{
    connect_request, domain_name_tail, greeting_accepted, reply_tail, socks5_greeting, ReplyTail,
    Socks5Error,
};
use gnirehtet::stream_buffer::StreamBuffer;

fn strings(v: &[&str]) -> Vec<String> {
    v.iter().map(|s| s.to_string()).collect()
}

#[test]
fn packet_string_groups_bytes() {
    assert_eq!("", build_packet_string(&[]));
    assert_eq!("01 02 03 04  0A FF", build_packet_string(&[1, 2, 3, 4, 10, 255]));
    let data: Vec<u8> = (0..25).collect();
    assert_eq!(
        "00 01 02 03  04 05 06 07  08 09 0A 0B  0C 0D 0E 0F  10 11 12 13  ... +5 bytes",
        build_packet_string(&data)
    );
}

#[test]
fn byte_array_is_big_endian() {
    assert_eq!([0x12, 0x34, 0x56, 0x78], to_byte_array(0x12345678));
}

fn dns_query(labels: &[&[u8]]) -> Vec<u8> {
    let mut q = vec![0u8; 12];
    for l in labels {
        q.push(l.len() as u8);
        q.extend_from_slice(l);
    }
    q.push(0);
    q.extend_from_slice(&[0, 1, 0, 1]);
    q
}

#[test]
fn dns_name_is_lower_case_and_dotted() {
    let q = dns_query(&[b"www", b"Example", b"COM"]);
    assert_eq!(Some("www.example.com".to_string()), extract_dns_name(&q));
}

#[test]
fn dns_name_ignores_header_and_case() {
    let mut a = dns_query(&[b"Mail", b"Example", b"org"]);
    let mut b = dns_query(&[b"mail", b"EXAMPLE", b"ORG"]);
    a[0] = 0x12;
    a[1] = 0x34;
    b[0] = 0xab;
    b[2] = 0x01;
    assert_eq!(extract_dns_name(&a), extract_dns_name(&b));
    assert_eq!(Some("mail.example.org".to_string()), extract_dns_name(&a));
}

#[test]
fn dns_name_of_malformed_queries() {
    assert_eq!(None, extract_dns_name(&[0u8; 11]));
    assert_eq!(None, extract_dns_name(&dns_query(&[])));
    let mut truncated = dns_query(&[b"example"]);
    truncated.truncate(15);
    assert_eq!(None, extract_dns_name(&truncated));
    // a compression pointer ends the name
    let mut q = vec![0u8; 12];
    q.extend_from_slice(&[3, b'a', b'b', b'c', 0xc0, 0x0c]);
    assert_eq!(Some("abc".to_string()), extract_dns_name(&q));
}

#[test]
fn dns_cache_answers_until_expiry() {
    let bind = SocketAddress { ip: IpAddress::V4([10, 0, 2, 2]), port: 53 };
    let mut cache = DnsCache::new(bind);
    assert_eq!(SocketAddress { ip: IpAddress::V4([8, 8, 8, 8]), port: 53 }, cache.upstream());
    assert_eq!(bind, cache.bind_addr());
    let q = dns_query(&[b"example", b"org"]);
    assert_eq!(None, cache.answer_from_cache(&q, 0));
    cache.remember(&q, &[0, 0, 9], 1000);
    assert_eq!(Some(vec![0, 0, 9]), cache.answer_from_cache(&q, 1000));
    assert_eq!(Some(vec![0, 0, 9]), cache.answer_from_cache(&q, 1000 + CACHE_TTL_MILLIS - 1));
    assert_eq!(None, cache.answer_from_cache(&q, 1000 + CACHE_TTL_MILLIS));
    // a later query with another transaction ID gets its own ID back
    let mut q_other_id = q.clone();
    q_other_id[0] = 0xab;
    q_other_id[1] = 0xcd;
    assert_eq!(Some(vec![0xab, 0xcd, 9]), cache.answer_from_cache(&q_other_id, 1000));
    // same name in another case is the same entry
    let q2 = dns_query(&[b"EXAMPLE", b"org"]);
    cache.remember(&q2, &[7], 2000);
    assert_eq!(Some(vec![7]), cache.answer_from_cache(&q, 2000));
    let other = dns_query(&[b"other", b"org"]);
    assert_eq!(None, cache.answer_from_cache(&other, 2000));
}

#[test]
fn severity_of_errors() {
    let io = |kind| CommandExecutionError::Io(IoError::new(kind, "x".to_string()));
    assert!(io(ErrorKind::TimedOut).severity() == Severity::Warning);
    assert!(io(ErrorKind::ConnectionReset).severity() == Severity::Warning);
    assert!(io(ErrorKind::NotFound).severity() == Severity::Error);
    let status = |code| {
        CommandExecutionError::ProcessStatus(ProcessStatusError::new(
            Cmd::new("adb".to_string(), strings(&["devices"])),
            Some(code),
            None,
        ))
    };
    assert!(status(1).severity() == Severity::Warning);
    assert!(status(2).severity() == Severity::Error);
    let pio = CommandExecutionError::ProcessIo(ProcessIoError::new(
        Cmd::new("adb".to_string(), vec![]),
        IoError::new(ErrorKind::NotFound, "no such file".to_string()),
    ));
    assert!(pio.severity() == Severity::Error);
    assert_eq!("Install adb or set the ADB env var", pio.suggestion());
}

#[test]
fn suggestions_of_errors() {
    let io = |kind| CommandExecutionError::Io(IoError::new(kind, "x".to_string()));
    assert_eq!("Port in use or no device connected. Use `-p PORT` to change it", io(ErrorKind::ConnectionRefused).suggestion());
    assert_eq!("Check USB connection and try again", io(ErrorKind::Other).suggestion());
    let killed = CommandExecutionError::ProcessStatus(ProcessStatusError::new(
        Cmd::new("adb".to_string(), vec![]),
        None,
        Some(9),
    ));
    assert_eq!("ADB was killed by the system. Restart the daemon", killed.suggestion());
}

#[test]
fn texts_of_errors() {
    let cmd = Cmd::new("adb".to_string(), strings(&["reverse", "tcp:31416"]));
    assert_eq!("adb [\"reverse\", \"tcp:31416\"]", cmd.to_string());
    let status = ProcessStatusError::new(cmd, Some(-3), None);
    assert_eq!("adb [\"reverse\", \"tcp:31416\"] returned -3", status.to_string());
    let killed = ProcessStatusError::new(Cmd::new("adb".to_string(), vec![]), None, Some(9));
    assert_eq!("adb [] killed by signal 9", killed.to_string());
    let pio = ProcessIoError::new(
        Cmd::new("adb".to_string(), strings(&["devices"])),
        IoError::new(ErrorKind::NotFound, "not found".to_string()),
    );
    assert_eq!("adb [\"devices\"] failed: not found", pio.to_string());
    let io = CommandExecutionError::Io(IoError::new(ErrorKind::TimedOut, "timed out".to_string()));
    assert_eq!("IO: timed out", io.to_string());
    assert_eq!(
        "\x1b[33m? IO: timed out. High latency or device disconnected. Check the cable\x1b[0m",
        error_line(&io)
    );
}

#[test]
fn termination_from_status_parts() {
    assert_eq!(Termination::Value(0), Termination::from(Some(0), Some(3)));
    assert_eq!(Termination::Signal(15), Termination::from(None, Some(15)));
    assert_eq!(Termination::Signal(-1), Termination::from(None, None));
}

#[test]
fn error_conversions() {
    let e: CommandExecutionError = IoError::new(ErrorKind::Other, "e".to_string()).into();
    assert!(matches!(e, CommandExecutionError::Io(_)));
}

#[test]
fn socks5_messages() {
    assert_eq!([5, 1, 0], socks5_greeting());
    assert!(greeting_accepted(&[5, 0]));
    assert!(!greeting_accepted(&[5, 0xff]));
    let dest = SocketAddress { ip: IpAddress::V4([93, 184, 216, 34]), port: 443 };
    assert_eq!(Ok(vec![5, 1, 0, 1, 93, 184, 216, 34, 1, 187]), connect_request(&dest));
    let v6 = SocketAddress { ip: IpAddress::V6([0; 16]), port: 443 };
    assert_eq!(Err(Socks5Error::Ipv6Unsupported), connect_request(&v6));
    assert_eq!(Ok(ReplyTail::Fixed(6)), reply_tail(&[5, 0, 0, 1]));
    assert_eq!(Ok(ReplyTail::Fixed(18)), reply_tail(&[5, 0, 0, 4]));
    assert_eq!(Ok(ReplyTail::DomainName), reply_tail(&[5, 0, 0, 3]));
    assert_eq!(Err(Socks5Error::ConnectFailed), reply_tail(&[5, 1, 0, 1]));
    assert_eq!(Err(Socks5Error::UnknownAddressType(9)), reply_tail(&[5, 0, 0, 9]));
    assert_eq!(13, domain_name_tail(10));
}

#[test]
fn log_file_option() {
    assert_eq!(Some("a.log".to_string()), get_log_file(&strings(&["g", "--log-file", "a.log", "run"])));
    assert_eq!(Some("b.log".to_string()), get_log_file(&strings(&["g", "--log-file=b.log"])));
    assert_eq!(None, get_log_file(&strings(&["g", "run", "--log-file", "a.log"])));
    assert_eq!(None, get_log_file(&strings(&["g", "--log-file"])));
    assert_eq!(Some("c".to_string()), get_log_file(&strings(&["g", "-v", "--log-file=c"])));
}

#[test]
fn command_line_actions() {
    assert_eq!(ArgsAction::DeprecatedRt, args_action(&strings(&["g", "rt"])));
    assert_eq!(ArgsAction::Interactive, args_action(&strings(&["g"])));
    assert_eq!(ArgsAction::Parse, args_action(&strings(&["g", "run"])));
}

#[test]
fn prompt_choices() {
    assert_eq!(PromptChoice::Exit, prompt_choice("\n"));
    assert_eq!(PromptChoice::Exit, prompt_choice(" 1 \n"));
    assert_eq!(PromptChoice::Help, prompt_choice("2\n"));
    assert_eq!(PromptChoice::Autorun, prompt_choice("3"));
    assert_eq!(PromptChoice::Invalid, prompt_choice("4"));
}

#[test]
fn log_levels() {
    assert_eq!(LogLevel::Trace, level_from_env("TRACE"));
    assert_eq!(LogLevel::Debug, level_from_env("debug"));
    assert_eq!(LogLevel::Warn, level_from_env("Warn"));
    assert_eq!(LogLevel::Error, level_from_env("error"));
    assert_eq!(LogLevel::Info, level_from_env(""));
    let logger = SimpleLogger;
    assert!(logger.enabled(LogLevel::Error, LogLevel::Info));
    assert!(!logger.enabled(LogLevel::Debug, LogLevel::Info));
    assert_eq!(LogSink::File, logger.sink(true, LogLevel::Error));
    assert_eq!(LogSink::Stderr, logger.sink(false, LogLevel::Error));
    assert_eq!(LogSink::Stdout, logger.sink(false, LogLevel::Info));
    assert_eq!("T INFO Main: hi\n", logger.format_record("T", LogLevel::Info, "Main", "hi"));
}

#[test]
fn stream_buffer_is_fifo() {
    let mut b = StreamBuffer::new(8);
    assert!(b.is_empty());
    b.read_from(&[1, 2, 3, 4, 5, 6]);
    assert_eq!(6, b.size());
    assert_eq!(2, b.remaining());
    assert_eq!(&[1, 2, 3, 4, 5, 6], b.chunk());
    b.consume(4);
    b.read_from(&[7, 8, 9, 10, 11, 12]);
    assert_eq!(8, b.size());
    let mut out = Vec::new();
    while !b.is_empty() {
        let chunk = b.chunk().to_vec();
        b.consume(chunk.len());
        out.extend_from_slice(&chunk);
    }
    assert_eq!(vec![5, 6, 7, 8, 9, 10, 11, 12], out);
}
