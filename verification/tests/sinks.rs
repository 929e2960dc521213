use mqtt_logger::effect::Effect;
use mqtt_logger::registry::TopicRegistry;
use mqtt_logger::protocol::Publication;
use mqtt_logger::sink::{append_bytes, write_to_file, write_to_stdout};
use mqtt_logger::timestamp::{Rendering, Timestamp};

fn s(text: &str) -> String {
    String::from(text)
}

fn moment() -> Rendering {
    Timestamp { year: 2024, month: 3, day: 7, hour: 9, minute: 5, second: 2, millisecond: 41 }
        .render()
}

fn publication(topic: &str, payload: &[u8]) -> Publication {
    Publication { topic: s(topic), payload: payload.to_vec() }
}

fn registry(topics: &[&str]) -> TopicRegistry {
    let mut r = TopicRegistry::new();
    for t in topics {
        r.insert(&s(t));
    }
    r
}

#[test]
fn append_bytes_joins() {
    let mut out = b"ab".to_vec();
    append_bytes(&mut out, b"cd");
    assert_eq!(out, b"abcd".to_vec());
    append_bytes(&mut out, b"");
    assert_eq!(out, b"abcd".to_vec());
    let mut empty = Vec::new();
    append_bytes(&mut empty, &[0, 255, 10]);
    assert_eq!(empty, vec![0u8, 255, 10]);
}

#[test]
fn file_record_is_timestamp_payload_newline() {
    let files = registry(&["sensors/temp"]);
    let effect = write_to_file(&moment(), &publication("sensors/temp", b"21.5"), &files);
    assert_eq!(
        effect,
        Effect::Append { handle: 0, bytes: b"[2024-03-07 09:05:02.041] 21.5\n".to_vec() }
    );
}

#[test]
fn file_record_goes_to_the_file_of_its_topic() {
    let files = registry(&["a", "b", "c"]);
    let effect = write_to_file(&moment(), &publication("b", b"x"), &files);
    assert_eq!(
        effect,
        Effect::Append { handle: 1, bytes: b"[2024-03-07 09:05:02.041] x\n".to_vec() }
    );
    let effect = write_to_file(&moment(), &publication("c", b"y"), &files);
    assert_eq!(
        effect,
        Effect::Append { handle: 2, bytes: b"[2024-03-07 09:05:02.041] y\n".to_vec() }
    );
}

#[test]
fn file_record_keeps_the_payload_verbatim() {
    let files = registry(&["t"]);
    let payload = [b'a', b'\n', 0x1b, b'[', 0, 0xff, b'\n'];
    let effect = write_to_file(&moment(), &publication("t", &payload), &files);
    let mut expected = b"[2024-03-07 09:05:02.041] ".to_vec();
    expected.extend_from_slice(&payload);
    expected.push(b'\n');
    assert_eq!(effect, Effect::Append { handle: 0, bytes: expected });
}

#[test]
fn file_record_of_an_empty_payload() {
    let files = registry(&["t"]);
    let effect = write_to_file(&moment(), &publication("t", b""), &files);
    assert_eq!(
        effect,
        Effect::Append { handle: 0, bytes: b"[2024-03-07 09:05:02.041] \n".to_vec() }
    );
}

#[test]
fn unknown_topic_is_reported_and_not_written() {
    let files = registry(&["sensors/temp"]);
    let effect = write_to_file(&moment(), &publication("sensors/other", b"1"), &files);
    assert_eq!(
        effect,
        Effect::Diagnostic {
            line: s("Got packet from topic sensors/other, but that topic file was not created!")
        }
    );
}

#[test]
fn unknown_topic_with_an_empty_registry() {
    let files = TopicRegistry::new();
    let effect = write_to_file(&moment(), &publication("", b"1"), &files);
    assert_eq!(
        effect,
        Effect::Diagnostic { line: s("Got packet from topic , but that topic file was not created!") }
    );
}

#[test]
fn console_record_has_the_exact_bytes() {
    let effect = write_to_stdout(&moment(), &publication("sensors/temp", b"21.5"));
    assert_eq!(
        effect,
        Effect::Console {
            bytes: b"\x1b[0m[\x1b[32m2024-03-07 09:05:02.041\x1b[0m] \x1b[0m[\x1b[34msensors/temp\x1b[0m] 21.5\n"
                .to_vec()
        }
    );
}

#[test]
fn console_record_agrees_with_the_standard_formatter() {
    let data = publication("a/b", b"payload \x00\xff");
    let effect = write_to_stdout(&moment(), &data);
    let mut expected = b"\x1b[0m[\x1b[32m2024-03-07 09:05:02.041\x1b[0m] ".to_vec();
    expected.extend_from_slice(
        format!("{RESET}[{BLUE}{}{RESET}] ", "a/b", RESET = "\x1b[0m", BLUE = "\x1b[34m").as_bytes(),
    );
    expected.extend_from_slice(b"payload \x00\xff");
    expected.extend_from_slice("\n".as_bytes());
    assert_eq!(effect, Effect::Console { bytes: expected });
}

#[test]
fn console_record_encodes_the_topic_as_utf8() {
    let topic = "k\u{fc}che/\u{6e29}\u{5ea6}";
    let effect = write_to_stdout(&moment(), &publication(topic, b"1"));
    let mut expected = b"\x1b[0m[\x1b[32m2024-03-07 09:05:02.041\x1b[0m] \x1b[0m[\x1b[34m".to_vec();
    expected.extend_from_slice(topic.as_bytes());
    expected.extend_from_slice(b"\x1b[0m] 1\n");
    assert_eq!(effect, Effect::Console { bytes: expected });
}

#[test]
fn console_record_does_not_depend_on_the_registry() {
    let effect = write_to_stdout(&moment(), &publication("nowhere", b""));
    assert_eq!(
        effect,
        Effect::Console {
            bytes: b"\x1b[0m[\x1b[32m2024-03-07 09:05:02.041\x1b[0m] \x1b[0m[\x1b[34mnowhere\x1b[0m] \n"
                .to_vec()
        }
    );
}

#[test]
fn both_sinks_carry_the_same_instant() {
    let files = registry(&["t"]);
    let stamp = Timestamp {
        year: 2031,
        month: 11,
        day: 30,
        hour: 17,
        minute: 45,
        second: 9,
        millisecond: 7,
    }
    .render();
    let data = publication("t", b"v");
    let file = write_to_file(&stamp, &data, &files);
    let console = write_to_stdout(&stamp, &data);
    let digits = b"2031-11-30 17:45:09.007";
    match (file, console) {
        (Effect::Append { bytes: f, .. }, Effect::Console { bytes: c }) => {
            assert_eq!(&f[1..24], digits);
            assert_eq!(&c[10..33], digits);
        }
        _ => panic!("unexpected effects"),
    }
}
