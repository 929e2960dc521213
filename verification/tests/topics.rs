use mqtt_logger::options::Args;
use mqtt_logger::topics::{initialize_topics, parse_topic_list, whitespace, TopicSource};

fn s(text: &str) -> String {
    String::from(text)
}

fn reference(text: &str) -> Vec<String> {
    text.trim().lines().map(str::trim).map(String::from).collect()
}

fn args(topics: &[&str], file: Option<&str>) -> Args {
    Args {
        broker: s("localhost"),
        port: 1883,
        topics: topics.iter().map(|t| s(t)).collect(),
        topics_file: file.map(s),
        id: s("mqtt-logger"),
        keep_alive: 5,
        inflight: None,
        auth: Vec::new(),
        max_packet_size: Vec::new(),
        channel_capacity: None,
        clean_session: false,
    }
}

#[test]
fn one_topic_on_each_line() {
    assert_eq!(
        parse_topic_list("sensors/temp\nsensors/humidity\nalerts\n"),
        vec![s("sensors/temp"), s("sensors/humidity"), s("alerts")]
    );
}

#[test]
fn white_space_around_lines_does_not_count() {
    assert_eq!(
        parse_topic_list("  a/b \t\n\tc d  \r\n e\n\n"),
        vec![s("a/b"), s("c d"), s("e")]
    );
}

#[test]
fn empty_text_lists_no_topic() {
    assert_eq!(parse_topic_list(""), Vec::<String>::new());
    assert_eq!(parse_topic_list(" \n\t\r\n  "), Vec::<String>::new());
}

#[test]
fn blank_line_inside_names_the_empty_topic() {
    assert_eq!(parse_topic_list("a\n\n  \nb"), vec![s("a"), s(""), s(""), s("b")]);
}

#[test]
fn single_line_without_line_feed() {
    assert_eq!(parse_topic_list("only"), vec![s("only")]);
    assert_eq!(parse_topic_list("  only  "), vec![s("only")]);
}

#[test]
fn carriage_return_inside_a_line_stays() {
    assert_eq!(parse_topic_list("a\rb\nc"), vec![s("a\rb"), s("c")]);
}

#[test]
fn unicode_white_space_is_trimmed() {
    assert_eq!(
        parse_topic_list("\u{a0}a\u{2003}\n\u{3000}k\u{fc}che\u{85}\n\u{feff}x"),
        vec![s("a"), s("k\u{fc}che"), s("\u{feff}x")]
    );
}

#[test]
fn parse_agrees_with_the_standard_library() {
    let cases = [
        "",
        "\n",
        "\n\n",
        "a",
        "a\n",
        "\na",
        "a\nb",
        "a\r\nb\r\n",
        "a\r\r\nb",
        "\r\na\r\n\r\nb\r\n",
        " a \n b \n",
        "a\n \nb",
        "a\n\n\nb",
        "a b\tc\n\td e f\t",
        "\u{2028}a\u{2029}\nb\u{202f}",
        "x\u{b}y\nz\u{c}",
        "\u{1680}\n\u{205f}",
        "a\n\u{1680}\nb",
        "tr\u{e4}ger/\u{6e29}\u{5ea6} \n \u{1f600}",
        "a\rb\r",
        "\ra\n\rb",
    ];
    for text in cases {
        assert_eq!(parse_topic_list(text), reference(text));
    }
}

#[test]
fn whitespace_agrees_with_the_standard_library() {
    for code in 0u32..0x110000 {
        if let Some(c) = char::from_u32(code) {
            assert_eq!(whitespace(c), c.is_whitespace());
        }
    }
}

#[test]
fn whitespace_of_common_characters() {
    assert!(whitespace(' '));
    assert!(whitespace('\t'));
    assert!(whitespace('\n'));
    assert!(whitespace('\r'));
    assert!(whitespace('\u{a0}'));
    assert!(whitespace('\u{3000}'));
    assert!(!whitespace('a'));
    assert!(!whitespace('/'));
    assert!(!whitespace('\u{200b}'));
    assert!(!whitespace('\u{feff}'));
    assert!(!whitespace('\0'));
}

#[test]
fn topics_come_from_the_command_line_without_a_file() {
    assert_eq!(
        initialize_topics(&args(&["a", "b"], None)),
        TopicSource::Given { topics: vec![s("a"), s("b")] }
    );
}

#[test]
fn topics_from_the_command_line_are_taken_as_they_are() {
    assert_eq!(
        initialize_topics(&args(&[" a ", "", "a"], None)),
        TopicSource::Given { topics: vec![s(" a "), s(""), s("a")] }
    );
}

#[test]
fn topic_file_takes_the_place_of_the_command_line() {
    assert_eq!(
        initialize_topics(&args(&["a", "b"], Some("topics.list"))),
        TopicSource::File { path: s("topics.list") }
    );
    assert_eq!(
        initialize_topics(&args(&[], Some(""))),
        TopicSource::File { path: s("") }
    );
}
