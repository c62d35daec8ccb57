use chksum_cli::{
    aggregate_exitcode, exitcode, print_result, render_report, report_all, Digest, IoFailure,
    Stream, Target, EXITCODE_IOERR, EXITCODE_OK,
};

fn ok_outcome(hex: &str) -> Result<Digest, IoFailure> {
    Ok(Digest::from_hex(String::from(hex)).unwrap())
}

fn err_outcome(message: &str) -> Result<Digest, IoFailure> {
    Err(IoFailure::new(String::from(message)))
}

#[test]
fn scenario_success_line() {
    let target = Target::from(String::from("/tmp/empty.txt"));
    let outcome = ok_outcome("d41d8cd98f00b204e9800998ecf8427e");
    let line = render_report(&target, &outcome, false);
    assert_eq!(line.text, "/tmp/empty.txt: d41d8cd98f00b204e9800998ecf8427e");
    assert_eq!(line.stream, Stream::Stdout);
    assert_eq!(exitcode(&outcome), EXITCODE_OK);
}

#[test]
fn scenario_missing_file_line() {
    let target = Target::from(String::from("/tmp/missing.txt"));
    let message = "No such file or directory (os error 2)";
    let outcome = err_outcome(message);
    let line = render_report(&target, &outcome, false);
    assert_eq!(line.text, format!("/tmp/missing.txt: {}", message.to_lowercase()));
    assert_eq!(line.stream, Stream::Stderr);
    assert_eq!(exitcode(&outcome), EXITCODE_IOERR);
}

#[test]
fn scenario_partial_failure_keeps_order_and_both_streams() {
    let targets = vec![
        Target::from(String::from("good.txt")),
        Target::from(String::from("bad.txt")),
    ];
    let outcomes = vec![ok_outcome("00ff"), err_outcome("permission denied")];
    let lines = report_all(&targets, &outcomes, false);
    assert_eq!(lines.len(), 2);
    assert_eq!(lines[0].stream, Stream::Stdout);
    assert_eq!(lines[0].text, "good.txt: 00ff");
    assert_eq!(lines[1].stream, Stream::Stderr);
    assert_eq!(lines[1].text, "bad.txt: permission denied");
    assert_eq!(aggregate_exitcode(&outcomes), EXITCODE_IOERR);
}

#[test]
fn scenario_stdin_empty_input() {
    let digest = chksum::hash::<chksum::MD5>(b"");
    let outcome = ok_outcome(&digest.to_hex_lowercase());
    let line = render_report(&Target::Stdin, &outcome, false);
    assert_eq!(line.text, "<stdin>: d41d8cd98f00b204e9800998ecf8427e");
    assert_eq!(line.stream, Stream::Stdout);
    assert_eq!(exitcode(&outcome), EXITCODE_OK);
}

#[test]
fn digest_idempotent_for_same_input() {
    let first = chksum::hash::<chksum::MD5>(b"abc").to_hex_lowercase();
    let second = chksum::hash::<chksum::MD5>(b"abc").to_hex_lowercase();
    assert_eq!(first, second);
    assert_eq!(first, "900150983cd24fb0d6963f7d28e17f72");
}

#[test]
fn failure_message_is_lowercased() {
    let target = Target::from(String::from("x"));
    let outcome = err_outcome("Permission Denied");
    let line = render_report(&target, &outcome, false);
    assert_eq!(line.text, "x: permission denied");
}

#[test]
fn scenario_colorized_failure_keeps_visible_text() {
    colored::control::set_override(true);
    let target = Target::from(String::from("bad.txt"));
    let outcome = err_outcome("Broken Pipe");
    let plain = render_report(&target, &outcome, false);
    let colorized = render_report(&target, &outcome, true);
    assert_eq!(colorized.stream, Stream::Stderr);
    assert_eq!(colorized.text, format!("\u{1b}[31m{}\u{1b}[0m", plain.text));
    let stripped = colorized
        .text
        .strip_prefix("\u{1b}[31m")
        .and_then(|rest| rest.strip_suffix("\u{1b}[0m"))
        .unwrap();
    assert_eq!(stripped, plain.text);
    colored::control::unset_override();
}

#[test]
fn success_line_is_never_colorized() {
    colored::control::set_override(true);
    let target = Target::from(String::from("good.txt"));
    let outcome = ok_outcome("00ff");
    let line = render_report(&target, &outcome, true);
    assert_eq!(line.text, "good.txt: 00ff");
    assert_eq!(line.stream, Stream::Stdout);
    colored::control::unset_override();
}

#[test]
fn digest_rendering_validation() {
    assert!(Digest::from_hex(String::from("00ff")).is_some());
    assert!(Digest::from_hex(String::from("")).is_none());
    assert!(Digest::from_hex(String::from("00FF")).is_none());
    assert!(Digest::from_hex(String::from("0g")).is_none());
    let digest = Digest::from_hex(String::from("abcdef0123456789")).unwrap();
    assert_eq!(digest.to_hex_lowercase(), "abcdef0123456789");
}

#[test]
fn print_result_hands_back_the_written_line() {
    let target = Target::from(String::from("ok.txt"));
    let outcome = ok_outcome("1234");
    let line = print_result(&target, &outcome, false).unwrap();
    assert_eq!(line.text, "ok.txt: 1234");
    assert_eq!(line.stream, Stream::Stdout);
}
