use keyserial::config::{
    flow_control_from_lowercase, parity_from_lowercase, parse_data_bits, parse_flow_control,
    parse_parity, parse_stop_bits, DataBits, FlowControl, Parity, SerialConfig, Setting, StopBits,
    DEFAULT_BAUD_RATE, READ_TIMEOUT_MS,
};
use keyserial::frame::{decode_frame, encode_frame, Direction, KeyEvent, FRAME_MARKER};
use keyserial::relay::{LoopAction, LoopState, ReadLoop, ReadOutcome};
use keyserial::terminal::{raw_local_flags, TerminalGuard};

fn emitted(a: LoopAction) -> Vec<u8> {
    match a {
        LoopAction::Emit(b) => b,
        _ => Vec::new(),
    }
}

#[test]
fn frame_round_trip_every_key_and_direction() {
    for k in 0u32..=255 {
        for d in [Direction::Down, Direction::Up] {
            let e = KeyEvent { key: k, direction: d };
            let f = encode_frame(e);
            assert_eq!(f[0], 0x55);
            assert_eq!(decode_frame(&f), Some(e));
        }
    }
}

#[test]
fn frame_keeps_low_byte_of_key() {
    let f = encode_frame(KeyEvent { key: 0x1FE, direction: Direction::Up });
    assert_eq!(f, [0x55, 0, 0xFE]);
    assert_eq!(
        decode_frame(&f),
        Some(KeyEvent { key: 0xFE, direction: Direction::Up })
    );
}

#[test]
fn decode_rejects_non_frames() {
    assert_eq!(decode_frame(&[0x54, 1, 30]), None);
    assert_eq!(decode_frame(&[FRAME_MARKER, 2, 30]), None);
    assert_eq!(decode_frame(&[FRAME_MARKER, 1]), None);
    assert_eq!(decode_frame(&[FRAME_MARKER, 1, 30, 0]), None);
    assert_eq!(decode_frame(&[]), None);
}

#[test]
fn key_down_then_up_on_code_30_at_9600() {
    let cfg = SerialConfig::new(String::from("/dev/ttyUSB0"), 9600);
    assert_eq!(cfg.baud_rate, 9600);
    assert_eq!(cfg.data_bits, DataBits::Eight);
    assert_eq!(cfg.parity, Parity::Off);
    assert_eq!(cfg.stop_bits, StopBits::One);
    assert_eq!(cfg.flow_control, FlowControl::Off);
    assert_eq!(cfg.timeout_ms, READ_TIMEOUT_MS);
    let mut wire: Vec<u8> = Vec::new();
    wire.extend_from_slice(&encode_frame(KeyEvent { key: 30, direction: Direction::Down }));
    wire.extend_from_slice(&encode_frame(KeyEvent { key: 30, direction: Direction::Up }));
    assert_eq!(wire, vec![0x55, 0x01, 0x1E, 0x55, 0x00, 0x1E]);
}

#[test]
fn whole_frame_writes_stay_contiguous() {
    let a = KeyEvent { key: 4, direction: Direction::Down };
    let b = KeyEvent { key: 200, direction: Direction::Down };
    let mut wire: Vec<u8> = Vec::new();
    wire.extend_from_slice(&encode_frame(b));
    wire.extend_from_slice(&encode_frame(a));
    assert_eq!(wire.len(), 6);
    assert_eq!(decode_frame(&wire[0..3]), Some(b));
    assert_eq!(decode_frame(&wire[3..6]), Some(a));
}

#[test]
fn hello_in_two_reads_is_relayed_in_order() {
    let mut lp = ReadLoop::new();
    let mut out: Vec<u8> = Vec::new();
    out.extend(emitted(lp.handle(ReadOutcome::Data(vec![0x48, 0x65, 0x6C]))));
    out.extend(emitted(lp.handle(ReadOutcome::Data(vec![0x6C, 0x6F]))));
    assert_eq!(out, b"Hello".to_vec());
    assert!(lp.is_running());
}

#[test]
fn timeout_keeps_loop_running() {
    let mut lp = ReadLoop::new();
    assert!(matches!(lp.handle(ReadOutcome::TimedOut), LoopAction::Wait));
    assert!(lp.is_running());
    assert_eq!(emitted(lp.handle(ReadOutcome::Data(vec![1, 2]))), vec![1, 2]);
}

#[test]
fn read_error_stops_loop_and_relays_nothing_more() {
    let mut lp = ReadLoop::new();
    assert!(matches!(lp.handle(ReadOutcome::Failed), LoopAction::Stop));
    assert!(!lp.is_running());
    assert_eq!(lp.state, LoopState::Stopped);
    assert!(matches!(lp.handle(ReadOutcome::Data(vec![7])), LoopAction::Stop));
    assert!(matches!(lp.handle(ReadOutcome::TimedOut), LoopAction::Stop));
}

#[test]
fn restore_twice_equals_once() {
    let original: termios::tcflag_t = 0o105073;
    let mut g = TerminalGuard::enable(original);
    let mut terminal = g.raw;
    if let Some(f) = g.restore() {
        terminal = f;
    }
    let once = terminal;
    if let Some(f) = g.restore() {
        terminal = f;
    }
    assert_eq!(once, original);
    assert_eq!(terminal, once);
    assert!(!g.pending);
}

#[test]
fn raw_mode_clears_canonical_and_echo_only() {
    let lflag: termios::tcflag_t = termios::ICANON | termios::ECHO | termios::ISIG | termios::IEXTEN;
    let r = raw_local_flags(lflag);
    assert_eq!(r, termios::ISIG | termios::IEXTEN);
    assert_eq!(raw_local_flags(0), 0);
    let g = TerminalGuard::enable(lflag);
    assert_eq!(g.raw, r);
    assert_eq!(g.original, lflag);
}

#[test]
fn data_bits_accepts_five_to_eight() {
    assert_eq!(parse_data_bits("5").unwrap(), DataBits::Five);
    assert_eq!(parse_data_bits("6").unwrap(), DataBits::Six);
    assert_eq!(parse_data_bits("7").unwrap(), DataBits::Seven);
    assert_eq!(parse_data_bits("8").unwrap(), DataBits::Eight);
    let e = parse_data_bits("9").unwrap_err();
    assert_eq!(e.setting, Setting::DataBits);
    assert_eq!(e.message(), "Invalid data bits: 9");
}

#[test]
fn parity_ignores_case() {
    assert_eq!(parse_parity("none").unwrap(), Parity::Off);
    assert_eq!(parse_parity("EVEN").unwrap(), Parity::Even);
    assert_eq!(parse_parity("Odd").unwrap(), Parity::Odd);
    assert_eq!(parity_from_lowercase("Odd"), None);
    assert_eq!(parity_from_lowercase("odd"), Some(Parity::Odd));
    let e = parse_parity("purple").unwrap_err();
    assert_eq!(e.setting, Setting::Parity);
    assert_eq!(e.message(), "Invalid parity: purple");
}

#[test]
fn stop_bits_accepts_one_or_two() {
    assert_eq!(parse_stop_bits("1").unwrap(), StopBits::One);
    assert_eq!(parse_stop_bits("2").unwrap(), StopBits::Two);
    assert_eq!(parse_stop_bits("3").unwrap_err().message(), "Invalid stop bits: 3");
}

#[test]
fn flow_control_ignores_case() {
    assert_eq!(parse_flow_control("None").unwrap(), FlowControl::Off);
    assert_eq!(parse_flow_control("HARDWARE").unwrap(), FlowControl::Hardware);
    assert_eq!(parse_flow_control("software").unwrap(), FlowControl::Software);
    assert_eq!(flow_control_from_lowercase("Software"), None);
    let e = parse_flow_control("xon").unwrap_err();
    assert_eq!(e.setting, Setting::FlowControl);
    assert_eq!(e.message(), "Invalid flow control: xon");
}

#[test]
fn invalid_settings_are_rejected_before_opening() {
    let e = SerialConfig::from_text(String::from("/dev/ttyS0"), 9600, "9", "none", "1", "none")
        .unwrap_err();
    assert_eq!(e.setting, Setting::DataBits);
    assert_eq!(e.input, "9");
    let e = SerialConfig::from_text(String::from("/dev/ttyS0"), 9600, "8", "purple", "1", "none")
        .unwrap_err();
    assert_eq!(e.setting, Setting::Parity);
    assert_eq!(e.input, "purple");
    let e = SerialConfig::from_text(String::from("/dev/ttyS0"), 9600, "9", "purple", "3", "x")
        .unwrap_err();
    assert_eq!(e.setting, Setting::DataBits);
    let e = SerialConfig::from_text(String::from("/dev/ttyS0"), 9600, "8", "odd", "2", "x")
        .unwrap_err();
    assert_eq!(e.setting, Setting::FlowControl);
}

#[test]
fn valid_settings_build_config() {
    let c = SerialConfig::from_text(String::from("/dev/ttyS0"), DEFAULT_BAUD_RATE, "7", "Even", "2", "software")
        .unwrap();
    assert_eq!(c.path, "/dev/ttyS0");
    assert_eq!(c.baud_rate, 115200);
    assert_eq!(c.data_bits, DataBits::Seven);
    assert_eq!(c.parity, Parity::Even);
    assert_eq!(c.stop_bits, StopBits::Two);
    assert_eq!(c.flow_control, FlowControl::Software);
    assert_eq!(c.timeout_ms, 10);
}
