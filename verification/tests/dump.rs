use hp3457_dump::cli::{Cli, CliCommand, ConstRangeArgs, UserRangeArgs};
use hp3457_dump::command::{peek_command, push_decimal, trigger_command};
use hp3457_dump::error::DumpError;
use hp3457_dump::range::{AddressRange, RangePolicy, MAX_ADDRESS};
use hp3457_dump::response::{response_text, word_bytes, word_from_number};
use hp3457_dump::session::{Action, DumpSession, Event, Phase, FRAME_CAPACITY};

struct Outcome {
    output: Vec<u8>,
    sent: Vec<Vec<u8>>,
    last: Action,
    session: DumpSession,
}

/// Runs a whole dump against answers prepared in advance. A missing answer
/// stands for a read that fails.
fn drive(range: AddressRange, answers: &[Option<&[u8]>]) -> Outcome {
    let (mut session, mut action) = DumpSession::start(range);
    let mut output: Vec<u8> = Vec::new();
    let mut sent: Vec<Vec<u8>> = Vec::new();
    let mut reads: usize = 0;
    loop {
        let event = match action {
            Action::Send(bytes) => {
                sent.push(bytes);
                Event::Sent
            }
            Action::ReadFrame => {
                let answer = answers.get(reads).copied().flatten();
                reads += 1;
                match answer {
                    Some(bytes) => Event::Frame(bytes.to_vec()),
                    None => Event::Failed,
                }
            }
            Action::Parse(text) => match text.parse::<f32>() {
                Ok(value) => Event::Number(value as i32),
                Err(_) => Event::Failed,
            },
            Action::Write(bytes) => {
                output.extend_from_slice(&bytes);
                Event::Written
            }
            Action::Flush => Event::Flushed,
            Action::Finish(_) | Action::Abort(_) => {
                return Outcome { output, sent, last: action, session };
            }
        };
        action = session.step(event);
    }
}

fn word_of(frame: &[u8]) -> u16 {
    let text = response_text(frame).unwrap();
    let value = text.parse::<f32>().unwrap();
    word_from_number(value as i32)
}

fn window(start: u16, end: u16) -> AddressRange {
    AddressRange::new(start, end).unwrap()
}

#[test]
fn user_window_visits_every_second_address() {
    let range = RangePolicy::UserDefined { start: 0x0040, end: 0x0044 }.resolve().unwrap();
    assert_eq!(range, AddressRange { start: 0x0040, end: 0x0044 });
    assert_eq!(range.addresses(), vec![64, 66, 68]);
    assert_eq!(range.len(), 3);
    assert_eq!(range.address_at(0), 64);
    assert_eq!(range.address_at(2), 68);
}

#[test]
fn odd_span_stops_before_the_end() {
    let range = window(10, 15);
    assert_eq!(range.addresses(), vec![10, 12, 14]);
    assert_eq!(range.len(), 3);
    let range = window(10, 16);
    assert_eq!(range.addresses(), vec![10, 12, 14, 16]);
    assert_eq!(range.len(), 4);
}

#[test]
fn single_address_window() {
    let range = window(7, 7);
    assert_eq!(range.addresses(), vec![7]);
    assert_eq!(range.len(), 1);
    let range = window(7, 8);
    assert_eq!(range.addresses(), vec![7]);
}

#[test]
fn whole_address_space() {
    let range = window(0, MAX_ADDRESS);
    assert_eq!(range.len(), 16384);
    let addresses = range.addresses();
    assert_eq!(addresses.len(), 16384);
    assert_eq!(addresses[0], 0);
    assert_eq!(addresses[16383], 32766);
    assert_eq!(range.address_at(16383), 32766);
}

#[test]
fn length_follows_the_formula() {
    let bounds: [(u16, u16); 5] = [(0, 0), (0, 1), (3, 100), (1000, 1999), (32767, 32767)];
    for (start, end) in bounds {
        let range = window(start, end);
        let expected = ((end - start) / 2 + 1) as usize;
        assert_eq!(range.len(), expected);
        let addresses = range.addresses();
        assert_eq!(addresses.len(), expected);
        for (i, a) in addresses.iter().enumerate() {
            assert_eq!(*a as usize, start as usize + 2 * i);
            assert!(*a <= end);
        }
        assert!(addresses[expected - 1] as u32 + 2 > end as u32);
    }
}

#[test]
fn reversed_window_is_refused() {
    let policy = RangePolicy::UserDefined { start: 0x0100, end: 0x00FF };
    assert_eq!(policy.resolve(), Err(DumpError::InvalidRange { start: 0x0100, end: 0x00FF }));
    assert_eq!(AddressRange::new(5, 4), Err(DumpError::InvalidRange { start: 5, end: 4 }));
}

#[test]
fn window_beyond_the_address_space_is_refused() {
    assert_eq!(
        AddressRange::new(0, 0x8000),
        Err(DumpError::InvalidRange { start: 0, end: 0x8000 })
    );
    assert_eq!(
        RangePolicy::UserDefined { start: 0x8000, end: 0xFFFF }.resolve(),
        Err(DumpError::InvalidRange { start: 0x8000, end: 0xFFFF })
    );
    assert_eq!(AddressRange::new(0x7FFF, 0x7FFF), Ok(AddressRange { start: 0x7FFF, end: 0x7FFF }));
}

#[test]
fn preset_windows() {
    let early = RangePolicy::PresetA.resolve().unwrap();
    assert_eq!(early, AddressRange { start: 0x0040, end: 0x01FF });
    assert_eq!(early.end - early.start + 1, 448);
    assert_eq!(early.len(), 224);
    let late = RangePolicy::PresetB.resolve().unwrap();
    assert_eq!(late, AddressRange { start: 0x5000, end: 0x57FF });
    assert_eq!(late.end - late.start + 1, 2048);
    assert_eq!(late.len(), 1024);
    assert_eq!(late.addresses()[1023], 0x57FE);
}

#[test]
fn command_line_windows() {
    let user = UserRangeArgs { start: 2, end: 9, output_file: String::from("out.bin") };
    assert_eq!(user.mem_range(), Ok(AddressRange { start: 2, end: 9 }));
    let reversed = UserRangeArgs { start: 9, end: 2, output_file: String::from("out.bin") };
    assert_eq!(reversed.mem_range(), Err(DumpError::InvalidRange { start: 9, end: 2 }));

    let cli = Cli {
        bord_index: 0,
        gpib_address: 22,
        command: CliCommand::Old(ConstRangeArgs { output_file: String::from("old.bin") }),
    };
    assert_eq!(cli.command.policy(), RangePolicy::PresetA);
    assert_eq!(cli.command.mem_range(), Ok(AddressRange { start: 0x0040, end: 0x01FF }));
    assert_eq!(cli.command.output_file(), "old.bin");

    let late = CliCommand::New(ConstRangeArgs { output_file: String::from("new.bin") });
    assert_eq!(late.policy(), RangePolicy::PresetB);
    assert_eq!(late.output_file(), "new.bin");

    let custom = CliCommand::User(user);
    assert_eq!(custom.policy(), RangePolicy::UserDefined { start: 2, end: 9 });
    assert_eq!(custom.mem_range(), Ok(AddressRange { start: 2, end: 9 }));
    assert_eq!(custom.output_file(), "out.bin");
    assert_eq!(
        CliCommand::User(reversed).mem_range(),
        Err(DumpError::InvalidRange { start: 9, end: 2 })
    );
}

#[test]
fn commands_as_bytes() {
    assert_eq!(trigger_command(), b"TRIG 4".to_vec());
    assert_eq!(peek_command(0), b"PEEK 0".to_vec());
    assert_eq!(peek_command(9), b"PEEK 9".to_vec());
    assert_eq!(peek_command(10), b"PEEK 10".to_vec());
    assert_eq!(peek_command(64), b"PEEK 64".to_vec());
    assert_eq!(peek_command(20480), b"PEEK 20480".to_vec());
    assert_eq!(peek_command(32767), b"PEEK 32767".to_vec());
    assert_eq!(peek_command(65535), b"PEEK 65535".to_vec());
}

#[test]
fn decimal_digits_are_appended() {
    let mut out: Vec<u8> = b"x=".to_vec();
    push_decimal(1005, &mut out);
    assert_eq!(out, b"x=1005".to_vec());
    for n in [0u16, 1, 99, 100, 4096, 65535] {
        let mut digits: Vec<u8> = Vec::new();
        push_decimal(n, &mut digits);
        assert_eq!(digits, format!("{}", n).into_bytes());
    }
}

#[test]
fn answer_text_is_cut_out() {
    assert_eq!(response_text(b"  123.0\r\n"), Some(String::from("123.0")));
    assert_eq!(response_text(b"65535.9"), Some(String::from("65535.9")));
    assert_eq!(response_text(b"-1.0"), Some(String::from("-1.0")));
    assert_eq!(response_text(b"10\r\n"), Some(String::from("10")));
    assert_eq!(response_text(b"\t \n 7"), Some(String::from("7")));
    assert_eq!(response_text(b""), Some(String::new()));
    assert_eq!(response_text(b"\r\n"), Some(String::new()));
    assert_eq!(response_text(b"   "), Some(String::new()));
}

#[test]
fn only_one_closing_terminator_is_dropped() {
    assert_eq!(response_text(b"10\r\n\r\n"), Some(String::from("10\r\n")));
    assert_eq!(response_text(b"10\n"), Some(String::from("10\n")));
    assert_eq!(response_text(b"10\r"), Some(String::from("10\r")));
    assert_eq!(response_text(b"10 \r\n"), Some(String::from("10 ")));
    assert_eq!(response_text(b"\r\n10"), Some(String::from("10")));
}

#[test]
fn wide_white_space_is_trimmed() {
    let frame = "\u{00A0}\u{2003}\u{3000}\u{0085}42\r\n".as_bytes();
    assert_eq!(response_text(frame), Some(String::from("42")));
    let frame = "\u{200B}42".as_bytes();
    assert_eq!(response_text(frame), Some(String::from("\u{200B}42")));
}

#[test]
fn frame_that_is_not_text_is_refused() {
    assert_eq!(response_text(&[0x31, 0xFF, 0x0D, 0x0A]), None);
    assert_eq!(response_text(&[0xC3]), None);
    assert_eq!(response_text(&[0xED, 0xA0, 0x80]), None);
    assert_eq!(response_text(&[0xC3, 0xA9]), Some(String::from("\u{e9}")));
}

#[test]
fn words_from_answers() {
    assert_eq!(word_of(b"  123.0\r\n"), 0x007B);
    assert_eq!(word_of(b"65535.9"), 0xFFFF);
    assert_eq!(word_of(b"-1.0"), 0xFFFF);
    assert_eq!(word_of(b"0"), 0);
    assert_eq!(word_of(b"1.5E+01\r\n"), 15);
}

#[test]
fn word_is_the_low_sixteen_bits() {
    assert_eq!(word_from_number(0), 0);
    assert_eq!(word_from_number(123), 0x007B);
    assert_eq!(word_from_number(65535), 0xFFFF);
    assert_eq!(word_from_number(65536), 0);
    assert_eq!(word_from_number(65537), 1);
    assert_eq!(word_from_number(-1), 0xFFFF);
    assert_eq!(word_from_number(-2), 0xFFFE);
    assert_eq!(word_from_number(-65536), 0);
    assert_eq!(word_from_number(0x12345678), 0x5678);
    assert_eq!(word_from_number(i32::MAX), 0xFFFF);
    assert_eq!(word_from_number(i32::MIN), 0);
}

#[test]
fn word_bytes_are_big_endian() {
    assert_eq!(word_bytes(0x1234), [0x12, 0x34]);
    assert_eq!(word_bytes(0x000A), [0x00, 0x0A]);
    assert_eq!(word_bytes(0xFF00), [0xFF, 0x00]);
    assert_eq!(word_bytes(0xFFFF), [0xFF, 0xFF]);
    assert_eq!(word_bytes(0), [0, 0]);
}

#[test]
fn three_word_dump() {
    let answers: [Option<&[u8]>; 3] = [Some(b"10\r\n"), Some(b"20\r\n"), Some(b"30\r\n")];
    let outcome = drive(window(0x0040, 0x0044), &answers);
    assert_eq!(outcome.last, Action::Finish(6));
    assert_eq!(outcome.output, vec![0x00, 0x0A, 0x00, 0x14, 0x00, 0x1E]);
    assert_eq!(
        outcome.sent,
        vec![
            b"TRIG 4".to_vec(),
            b"PEEK 64".to_vec(),
            b"PEEK 66".to_vec(),
            b"PEEK 68".to_vec()
        ]
    );
    assert_eq!(outcome.session.phase, Phase::Finished);
    assert_eq!(outcome.session.words_done, 3);
    assert_eq!(outcome.session.bytes_written, 6);
}

#[test]
fn output_is_twice_the_addresses() {
    let range = RangePolicy::PresetA.resolve().unwrap();
    let answers: Vec<Option<&[u8]>> = vec![Some(b" 4660.0\r\n"); 224];
    let outcome = drive(range, &answers);
    assert_eq!(outcome.last, Action::Finish(448));
    assert_eq!(outcome.output.len(), 2 * range.len());
    assert_eq!(outcome.sent.len(), 225);
    for pair in outcome.output.chunks(2) {
        assert_eq!(pair, &[0x12, 0x34]);
    }
}

#[test]
fn read_failure_keeps_the_words_before_it() {
    let answers: [Option<&[u8]>; 3] = [Some(b"10\r\n"), None, Some(b"30\r\n")];
    let outcome = drive(window(0x0040, 0x0044), &answers);
    assert_eq!(outcome.last, Action::Abort(DumpError::BusReadFailed { address: 66 }));
    assert_eq!(outcome.output, vec![0x00, 0x0A]);
    assert_eq!(outcome.session.bytes_written, 2);
    assert_eq!(outcome.session.words_done, 1);
    assert_eq!(outcome.sent.len(), 3);
}

#[test]
fn malformed_answer_stops_the_dump() {
    let answers: [Option<&[u8]>; 3] = [Some(b"10\r\n"), Some(b"N/A"), Some(b"30\r\n")];
    let outcome = drive(window(0x0040, 0x0044), &answers);
    assert_eq!(outcome.last, Action::Abort(DumpError::ResponseParseFailed { address: 66 }));
    assert_eq!(outcome.output, vec![0x00, 0x0A]);
    assert_eq!(outcome.sent, vec![b"TRIG 4".to_vec(), b"PEEK 64".to_vec(), b"PEEK 66".to_vec()]);
    assert_eq!(
        outcome.session.phase,
        Phase::Failed { error: DumpError::ResponseParseFailed { address: 66 } }
    );
}

#[test]
fn answer_that_is_not_text_stops_the_dump() {
    let answers: [Option<&[u8]>; 2] = [Some(&[0xFF, 0xFE]), Some(b"30\r\n")];
    let outcome = drive(window(100, 103), &answers);
    assert_eq!(outcome.last, Action::Abort(DumpError::ResponseParseFailed { address: 100 }));
    assert!(outcome.output.is_empty());
    assert_eq!(outcome.sent, vec![b"TRIG 4".to_vec(), b"PEEK 100".to_vec()]);
}

#[test]
fn failed_session_repeats_its_error() {
    let (mut session, _) = DumpSession::start(window(0, 10));
    let error = DumpError::BusWriteFailed { query: None };
    assert_eq!(session.step(Event::Failed), Action::Abort(error));
    let failed = session;
    let events = vec![
        Event::Sent,
        Event::Frame(b"1\r\n".to_vec()),
        Event::Number(5),
        Event::Written,
        Event::Flushed,
        Event::Failed,
    ];
    for event in events {
        assert_eq!(session.step(event), Action::Abort(error));
        assert_eq!(session, failed);
    }
}

#[test]
fn finished_session_repeats_its_count() {
    let answers: [Option<&[u8]>; 1] = [Some(b"1\r\n")];
    let mut outcome = drive(window(4, 5), &answers);
    assert_eq!(outcome.last, Action::Finish(2));
    let finished = outcome.session;
    assert_eq!(outcome.session.step(Event::Sent), Action::Finish(2));
    assert_eq!(outcome.session.step(Event::Failed), Action::Finish(2));
    assert_eq!(outcome.session, finished);
}

#[test]
fn each_step_of_one_word() {
    let (mut session, first) = DumpSession::start(window(300, 300));
    assert_eq!(first, Action::Send(b"TRIG 4".to_vec()));
    assert_eq!(session.phase, Phase::Arming);
    assert_eq!(session.step(Event::Sent), Action::Send(b"PEEK 300".to_vec()));
    assert_eq!(session.phase, Phase::Querying);
    assert_eq!(session.address(), 300);
    assert_eq!(session.step(Event::Sent), Action::ReadFrame);
    assert_eq!(session.phase, Phase::Reading);
    assert_eq!(
        session.step(Event::Frame(b" -2.0E+00\r\n".to_vec())),
        Action::Parse(String::from("-2.0E+00"))
    );
    assert_eq!(session.phase, Phase::Parsing);
    assert_eq!(session.step(Event::Number(-2)), Action::Write([0xFF, 0xFE]));
    assert_eq!(session.phase, Phase::Storing { word: 0xFFFE });
    assert_eq!(session.bytes_written, 0);
    assert_eq!(session.step(Event::Written), Action::Flush);
    assert_eq!(session.phase, Phase::Flushing);
    assert_eq!(session.bytes_written, 2);
    assert_eq!(session.words_done, 1);
    assert_eq!(session.step(Event::Flushed), Action::Finish(2));
    assert_eq!(session.phase, Phase::Finished);
    assert_eq!(FRAME_CAPACITY, 16);
}

#[test]
fn setup_command_failure() {
    let (mut session, _) = DumpSession::start(window(0, 2));
    assert_eq!(
        session.step(Event::Failed),
        Action::Abort(DumpError::BusWriteFailed { query: None })
    );
}

#[test]
fn query_failure() {
    let (mut session, _) = DumpSession::start(window(8, 12));
    session.step(Event::Sent);
    assert_eq!(
        session.step(Event::Failed),
        Action::Abort(DumpError::BusWriteFailed { query: Some(8) })
    );
}

#[test]
fn read_failure() {
    let (mut session, _) = DumpSession::start(window(8, 12));
    session.step(Event::Sent);
    session.step(Event::Sent);
    assert_eq!(session.step(Event::Failed), Action::Abort(DumpError::BusReadFailed { address: 8 }));
}

#[test]
fn number_failure() {
    let (mut session, _) = DumpSession::start(window(8, 12));
    session.step(Event::Sent);
    session.step(Event::Sent);
    assert_eq!(session.step(Event::Frame(b"N/A".to_vec())), Action::Parse(String::from("N/A")));
    assert_eq!(
        session.step(Event::Failed),
        Action::Abort(DumpError::ResponseParseFailed { address: 8 })
    );
}

#[test]
fn output_failure() {
    let (mut session, _) = DumpSession::start(window(8, 12));
    session.step(Event::Sent);
    session.step(Event::Sent);
    session.step(Event::Frame(b"1".to_vec()));
    assert_eq!(session.step(Event::Number(1)), Action::Write([0, 1]));
    assert_eq!(
        session.step(Event::Failed),
        Action::Abort(DumpError::OutputWriteFailed { address: 8 })
    );
    assert_eq!(session.bytes_written, 0);
}

#[test]
fn flush_failure() {
    let (mut session, _) = DumpSession::start(window(8, 8));
    session.step(Event::Sent);
    session.step(Event::Sent);
    session.step(Event::Frame(b"1".to_vec()));
    session.step(Event::Number(1));
    assert_eq!(session.step(Event::Written), Action::Flush);
    assert_eq!(session.step(Event::Failed), Action::Abort(DumpError::OutputFlushFailed));
    assert_eq!(session.bytes_written, 2);
}

#[test]
fn event_out_of_turn_counts_as_failure() {
    let (mut session, _) = DumpSession::start(window(8, 12));
    assert_eq!(
        session.step(Event::Flushed),
        Action::Abort(DumpError::BusWriteFailed { query: None })
    );
    let (mut session, _) = DumpSession::start(window(8, 12));
    session.step(Event::Sent);
    session.step(Event::Sent);
    assert_eq!(session.step(Event::Sent), Action::Abort(DumpError::BusReadFailed { address: 8 }));
}

#[test]
fn white_space_is_what_the_standard_library_trims() {
    let mut spaces: usize = 0;
    for code in 0u32..=0x10FFFF {
        let c = match char::from_u32(code) {
            Some(c) => c,
            None => continue,
        };
        let listed = matches!(
            code,
            0x09..=0x0D
                | 0x20
                | 0x85
                | 0xA0
                | 0x1680
                | 0x2000..=0x200A
                | 0x2028
                | 0x2029
                | 0x202F
                | 0x205F
                | 0x3000
        );
        let mut text = String::new();
        text.push(c);
        text.push('x');
        let expected = if listed { String::from("x") } else { text.clone() };
        assert_eq!(response_text(text.as_bytes()), Some(expected), "U+{:04X}", code);
        if listed {
            spaces += 1;
        }
    }
    assert_eq!(spaces, 25);
}
