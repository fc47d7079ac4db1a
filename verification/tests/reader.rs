use package_room::apdu::{
    is_write_accepted, led_command, parse_page, parse_uid, read_command, uid_command,
    write_command, Disposition, Exchange, Reply, ShareMode,
};
use package_room::codec::encode;
use package_room::errors::ErrorKind;
use package_room::reader::{
    choose_reader, contains_text, pages_from, read_pages_exchange, NFCReader, Signal, WaitAction,
    WaitEvent, PROBE_INTERVAL_MS,
};

fn selected() -> NFCReader {
    let mut reader = NFCReader::new();
    reader.select_reader("ACS ACR122U PICC Interface").unwrap();
    reader
}

fn shared(command: Vec<u8>) -> Exchange {
    Exchange { mode: ShareMode::Shared, commands: vec![command], disposition: Disposition::LeaveCard }
}

fn answer(bytes: &[u8]) -> Reply {
    Reply::Answers(vec![bytes.to_vec()])
}

/// The reply of a card whose reserved pages hold `chunks`.
fn pages_reply(chunks: &[[u8; 4]]) -> Reply {
    Reply::Answers(
        chunks
            .iter()
            .map(|chunk| vec![chunk[0], chunk[1], chunk[2], chunk[3], 0x90, 0x00])
            .collect(),
    )
}

#[test]
fn commands_are_spelled_as_the_reader_expects() {
    assert_eq!(uid_command(), vec![0xFF, 0xCA, 0x00, 0x00, 0x00]);
    assert_eq!(read_command(5), vec![0xFF, 0xB0, 0x00, 0x05, 0x04]);
    assert_eq!(read_command(20), vec![0xFF, 0xB0, 0x00, 0x14, 0x04]);
    assert_eq!(
        write_command(7, &[1, 2, 3, 4]),
        vec![0xFF, 0x00, 0x00, 0x00, 0x06, 0xA2, 0x07, 1, 2, 3, 4]
    );
}

#[test]
fn led_command_for_each_colour() {
    assert_eq!(led_command(1, 2000), vec![0xFF, 0x00, 0x40, 0x01, 0x04, 20, 20, 0x01, 0x00]);
    assert_eq!(led_command(2, 2000), vec![0xFF, 0x00, 0x40, 0x10, 0x04, 20, 20, 0x01, 0x00]);
    assert_eq!(led_command(3, 1000), vec![0xFF, 0x00, 0x40, 0x11, 0x04, 10, 10, 0x01, 0x00]);
    assert_eq!(led_command(0, 0), vec![0xFF, 0x00, 0x40, 0x00, 0x04, 0, 0, 0x01, 0x00]);
    assert_eq!(led_command(9, 150), vec![0xFF, 0x00, 0x40, 0x00, 0x04, 1, 1, 0x01, 0x00]);
}

#[test]
fn led_duration_keeps_the_low_byte_of_the_units() {
    // 25 500 ms are 255 units; 25 600 ms are 256 units, of which the low byte is 0.
    assert_eq!(led_command(1, 25500)[5], 255);
    assert_eq!(led_command(1, 25600)[5], 0);
    assert_eq!(led_command(1, 65535)[5], 143);
    assert_eq!(led_command(1, 99)[5], 0);
}

#[test]
fn write_is_accepted_on_9000_and_6300_only() {
    assert!(is_write_accepted(&[0x90, 0x00]));
    assert!(is_write_accepted(&[0x63, 0x00]));
    assert!(is_write_accepted(&[0xAA, 0x90, 0x00]));
    assert!(!is_write_accepted(&[0x63, 0x01]));
    assert!(!is_write_accepted(&[0x90, 0x01]));
    assert!(!is_write_accepted(&[0x00, 0x90]));
    assert!(!is_write_accepted(&[0x90]));
    assert!(!is_write_accepted(&[]));
}

#[test]
fn uid_is_what_precedes_the_status_word() {
    assert_eq!(parse_uid(&[0x04, 0xA1, 0xB2, 0xC3, 0x90, 0x00]), Some("04A1B2C3".to_string()));
    assert_eq!(
        parse_uid(&[0x04, 0x0a, 0xbc, 0xde, 0xf0, 0x12, 0x34, 0x90, 0x00]),
        Some("040ABCDEF01234".to_string())
    );
    assert_eq!(parse_uid(&[0x63, 0x00]), Some(String::new()));
    assert_eq!(parse_uid(&[0x90]), None);
    assert_eq!(parse_uid(&[]), None);
}

#[test]
fn page_needs_four_bytes_and_a_status_word() {
    assert_eq!(parse_page(&[1, 2, 3, 4, 0x90, 0x00]), Ok([1, 2, 3, 4]));
    assert_eq!(parse_page(&[1, 2, 3, 4, 5, 6, 7, 8, 0x90, 0x00]), Ok([1, 2, 3, 4]));
    assert_eq!(parse_page(&[1, 2, 3, 4, 0x90]), Err(ErrorKind::ReadError));
    assert_eq!(parse_page(&[0x63, 0x00]), Err(ErrorKind::ReadError));
    assert_eq!(parse_page(&[]), Err(ErrorKind::ReadError));
}

#[test]
fn new_session_has_no_reader() {
    let reader = NFCReader::new();
    assert!(!reader.has_reader());
    assert_eq!(reader.reader_name(), None);
}

#[test]
fn select_reader_keeps_the_name() {
    let reader = selected();
    assert!(reader.has_reader());
    assert_eq!(reader.reader_name(), Some("ACS ACR122U PICC Interface".to_string()));
}

#[test]
fn select_reader_refuses_a_name_with_a_zero_byte() {
    let mut reader = selected();
    assert_eq!(reader.select_reader("bad\0name"), Err(ErrorKind::NoReader));
    assert_eq!(reader.reader_name(), Some("ACS ACR122U PICC Interface".to_string()));
    let mut fresh = NFCReader::new();
    assert_eq!(fresh.select_reader("\0"), Err(ErrorKind::NoReader));
    assert!(!fresh.has_reader());
    assert_eq!(fresh.select_reader(""), Ok(()));
    assert_eq!(fresh.reader_name(), Some(String::new()));
}

#[test]
fn operations_need_a_reader() {
    let reader = NFCReader::new();
    assert_eq!(reader.set_led(1, 2000), Err(ErrorKind::NoReader));
    assert_eq!(reader.signal_success(), Err(ErrorKind::NoReader));
    assert_eq!(reader.signal_error(), Err(ErrorKind::NoReader));
    assert_eq!(reader.signal_processing(), Err(ErrorKind::NoReader));
    assert_eq!(reader.request_uid(), Err(ErrorKind::NoReader));
    assert_eq!(reader.request_hash(), Err(ErrorKind::NoReader));
    assert_eq!(
        reader.read_card_uid(&answer(&[0x04, 0x90, 0x00])),
        Err(ErrorKind::NoReader)
    );
    assert_eq!(reader.read_hash_from_card(&Reply::NoConnection), Err(ErrorKind::NoReader));
    assert_eq!(
        reader.wait_for_card(2, &WaitEvent::Clock { elapsed_millis: 0 }),
        WaitAction::Failed(ErrorKind::NoReader)
    );
    assert_eq!(reader.force_disconnect(), None);
    assert!(matches!(reader.write_hash_to_card("abc"), Err(ErrorKind::NoReader)));
}

#[test]
fn signals_light_the_reader() {
    let reader = selected();
    assert_eq!(reader.signal_success(), Ok(shared(led_command(1, 2000))));
    assert_eq!(reader.signal_error(), Ok(shared(led_command(2, 2000))));
    assert_eq!(reader.signal_processing(), Ok(shared(led_command(3, 1000))));
    assert_eq!(reader.signal(Signal::Success), reader.signal_success());
    assert_eq!(reader.signal(Signal::Error), reader.signal_error());
    assert_eq!(reader.signal(Signal::Processing), reader.signal_processing());
    assert_eq!(reader.set_led(3, 300), Ok(shared(led_command(3, 300))));
}

#[test]
fn uid_is_asked_for_over_a_shared_connection() {
    assert_eq!(selected().request_uid(), Ok(shared(uid_command())));
}

#[test]
fn read_card_uid_reads_the_reply() {
    let reader = selected();
    assert_eq!(
        reader.read_card_uid(&answer(&[0x04, 0xA1, 0xB2, 0xC3, 0x90, 0x00])),
        Ok("04A1B2C3".to_string())
    );
    assert_eq!(reader.read_card_uid(&Reply::NoConnection), Err(ErrorKind::NoCard));
    assert_eq!(reader.read_card_uid(&Reply::Answers(Vec::new())), Err(ErrorKind::NoCard));
    assert_eq!(reader.read_card_uid(&answer(&[0x90])), Err(ErrorKind::NoCard));
}

#[test]
fn wait_for_card_times_out_after_two_seconds_without_a_card() {
    let reader = selected();
    let mut elapsed: u64 = 0;
    let mut probes = 0;
    loop {
        match reader.wait_for_card(2, &WaitEvent::Clock { elapsed_millis: elapsed }) {
            WaitAction::Probe(exchange) => {
                assert_eq!(exchange, shared(uid_command()));
                probes += 1;
            }
            WaitAction::Failed(kind) => {
                assert_eq!(kind, ErrorKind::Timeout);
                break;
            }
            other => panic!("unexpected {:?}", other),
        }
        match reader.wait_for_card(2, &WaitEvent::Probed(Reply::NoConnection)) {
            WaitAction::Sleep { millis } => {
                assert_eq!(millis, PROBE_INTERVAL_MS);
                elapsed += millis;
            }
            other => panic!("unexpected {:?}", other),
        }
    }
    assert_eq!(elapsed, 2000);
    assert_eq!(probes, 10);
}

#[test]
fn wait_for_card_times_out_exactly_when_the_time_is_up() {
    let reader = selected();
    assert!(matches!(
        reader.wait_for_card(2, &WaitEvent::Clock { elapsed_millis: 1999 }),
        WaitAction::Probe(_)
    ));
    assert_eq!(
        reader.wait_for_card(2, &WaitEvent::Clock { elapsed_millis: 2000 }),
        WaitAction::Failed(ErrorKind::Timeout)
    );
    assert_eq!(
        reader.wait_for_card(15, &WaitEvent::Clock { elapsed_millis: 15000 }),
        WaitAction::Failed(ErrorKind::Timeout)
    );
    assert!(matches!(
        reader.wait_for_card(15, &WaitEvent::Clock { elapsed_millis: 14999 }),
        WaitAction::Probe(_)
    ));
    assert_eq!(
        reader.wait_for_card(0, &WaitEvent::Clock { elapsed_millis: 0 }),
        WaitAction::Failed(ErrorKind::Timeout)
    );
    assert!(matches!(
        reader.wait_for_card(u64::MAX, &WaitEvent::Clock { elapsed_millis: u64::MAX }),
        WaitAction::Probe(_)
    ));
}

#[test]
fn wait_for_card_ends_when_a_card_answers() {
    let reader = selected();
    assert_eq!(
        reader.wait_for_card(2, &WaitEvent::Probed(answer(&[0x04, 0xA1, 0x90, 0x00]))),
        WaitAction::Found("04A1".to_string())
    );
    assert_eq!(
        reader.wait_for_card(2, &WaitEvent::Probed(Reply::Answers(Vec::new()))),
        WaitAction::Sleep { millis: 200 }
    );
}

#[test]
fn hash_is_read_from_pages_5_to_20() {
    let exchange = selected().request_hash().unwrap();
    assert_eq!(exchange.mode, ShareMode::Shared);
    assert_eq!(exchange.disposition, Disposition::LeaveCard);
    assert_eq!(exchange.commands.len(), 16);
    for (at, command) in exchange.commands.iter().enumerate() {
        assert_eq!(*command, read_command(5 + at as u8));
    }
    assert_eq!(read_pages_exchange(250, 6).commands[5], read_command(255));
    assert!(read_pages_exchange(0, 0).commands.is_empty());
}

#[test]
fn read_hash_from_card_decodes_the_pages() {
    let reader = selected();
    let digest = "fb513fac5597106e92b51e222cecddf0d0b8c0e09c4827e24911770f5c3241e8";
    let chunks = encode(digest).unwrap();
    assert_eq!(reader.read_hash_from_card(&pages_reply(&chunks)), Ok(digest.to_string()));
    let short = encode("abc").unwrap();
    assert_eq!(reader.read_hash_from_card(&pages_reply(&short)), Ok("abc".to_string()));
    let blank = [[0u8; 4]; 16];
    assert_eq!(reader.read_hash_from_card(&pages_reply(&blank)), Ok(String::new()));
}

#[test]
fn read_hash_from_card_reports_what_is_wrong_with_the_reply() {
    let reader = selected();
    assert_eq!(reader.read_hash_from_card(&Reply::NoConnection), Err(ErrorKind::NoCard));
    let chunks = encode("abc").unwrap();
    // Only 15 of the 16 pages were answered.
    assert_eq!(
        reader.read_hash_from_card(&pages_reply(&chunks[..15])),
        Err(ErrorKind::ReadError)
    );
    // One page was answered with a status word only.
    let mut answers: Vec<Vec<u8>> =
        chunks.iter().map(|c| vec![c[0], c[1], c[2], c[3], 0x90, 0x00]).collect();
    answers[9] = vec![0x63, 0x00];
    assert_eq!(reader.read_hash_from_card(&Reply::Answers(answers)), Err(ErrorKind::ReadError));
    // Bytes that are no text.
    let mut garbage = [[0u8; 4]; 16];
    garbage[0] = [0xff, 0xff, 0xff, 0xff];
    assert_eq!(
        reader.read_hash_from_card(&pages_reply(&garbage)),
        Err(ErrorKind::MalformedData)
    );
}

#[test]
fn pages_from_takes_as_many_pages_as_asked_for() {
    let reply = Reply::Answers(vec![
        vec![1, 2, 3, 4, 0x90, 0x00],
        vec![5, 6, 7, 8, 0x90, 0x00],
        vec![0x63, 0x00],
    ]);
    assert_eq!(pages_from(&reply, 2), Ok(vec![[1, 2, 3, 4], [5, 6, 7, 8]]));
    assert_eq!(pages_from(&reply, 3), Err(ErrorKind::ReadError));
    assert_eq!(pages_from(&reply, 4), Err(ErrorKind::ReadError));
    assert_eq!(pages_from(&reply, 0), Ok(Vec::new()));
    assert_eq!(pages_from(&Reply::NoConnection, 0), Err(ErrorKind::NoCard));
}

#[test]
fn force_disconnect_resets_the_card() {
    assert_eq!(
        selected().force_disconnect(),
        Some(Exchange {
            mode: ShareMode::Shared,
            commands: Vec::new(),
            disposition: Disposition::ResetCard,
        })
    );
}

#[test]
fn contains_text_finds_runs_of_bytes() {
    assert!(contains_text("ACS ACR122U Contactless Reader", "Contactless"));
    assert!(contains_text("Contactless", "Contactless"));
    assert!(contains_text("xContactless", "Contactless"));
    assert!(contains_text("anything", ""));
    assert!(contains_text("", ""));
    assert!(!contains_text("", "a"));
    assert!(!contains_text("Contactles", "Contactless"));
    assert!(!contains_text("contactless", "Contactless"));
    assert!(!contains_text("ContactlesContactlesx", "Contactless"));
    assert!(contains_text("aab", "ab"));
    assert!(contains_text("gr\u{fc}n", "\u{fc}"));
}

#[test]
fn choose_reader_prefers_the_contactless_one() {
    let names = vec![
        "Generic Smart Card Reader".to_string(),
        "ACS Contactless Reader 0".to_string(),
        "ACS Contactless Reader 1".to_string(),
    ];
    assert_eq!(choose_reader(&names, "Contactless"), Some(1));
    let plain = vec!["Reader A".to_string(), "Reader B".to_string()];
    assert_eq!(choose_reader(&plain, "Contactless"), Some(0));
    assert_eq!(choose_reader(&Vec::new(), "Contactless"), None);
    assert_eq!(choose_reader(&names, ""), Some(0));
}

#[test]
fn list_readers_names_what_the_service_found() {
    let reader = NFCReader::new();
    assert_eq!(reader.list_readers(None), Err(ErrorKind::NoDriver));
    assert_eq!(reader.list_readers(Some(Vec::new())), Ok(Vec::new()));
    assert_eq!(
        reader.list_readers(Some(vec![Some("ACS ACR122U".to_string()), None, Some(String::new())])),
        Ok(vec!["ACS ACR122U".to_string(), "Unknown".to_string(), String::new()])
    );
}
