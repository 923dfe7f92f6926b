use std::fmt;

use tiny_fail::{Error, Fail, FailExt, Message};

#[derive(Debug)]
struct ReadError;

impl fmt::Display for ReadError {
    fn fmt(&self, f: &mut fmt::Formatter) -> fmt::Result {
        f.write_str("file not found")
    }
}

impl std::error::Error for ReadError {}

fn read() -> Result<u32, ReadError> {
    Err(ReadError)
}

fn open_input() -> Result<u32, Fail> {
    let n = read().context("failed to open input")?;
    Ok(n)
}

fn load_profile() -> Result<u32, Fail> {
    let n = open_input().context("failed to load profile")?;
    Ok(n)
}

fn parse(s: &str) -> Result<u32, Fail> {
    let n = s.parse::<u32>()?;
    Ok(n)
}

#[test]
fn new_renders_to_its_message() {
    assert_eq!(Fail::new("disk full").to_string(), "disk full");
    assert_eq!(Fail::new(String::from("disk full")).to_string(), "disk full");
    assert_eq!(Fail::new(format!("{} of {}", 3, 4)).to_string(), "3 of 4");
}

#[test]
fn new_has_a_message_and_no_cause() {
    assert_eq!(
        format!("{:?}", Fail::new("disk full")),
        "Fail { msg: Some(\"disk full\"), cause: None }"
    );
}

#[test]
fn new_takes_the_empty_message() {
    let fail = Fail::new("");
    assert_eq!(fail.to_string(), "");
    assert_eq!(format!("{:?}", fail), "Fail { msg: Some(\"\"), cause: None }");
    assert_eq!(fail.add_msg("outer").to_string(), "outer: ");
}

#[test]
fn message_text_is_taken_as_it_stands() {
    assert_eq!("a: b".into_text(), "a: b");
    assert_eq!(String::from(" padded ").into_text(), " padded ");
    let kept = String::from("kept");
    assert_eq!((&kept).into_text(), "kept");
    assert_eq!(Fail::new(&kept).to_string(), kept);
}

#[test]
fn conversion_adds_nothing() {
    let fail = Fail::from(ReadError);
    assert_eq!(fail.to_string(), "file not found");
    assert_eq!(
        format!("{:?}", fail),
        "Fail { msg: None, cause: Some(Error(\"file not found\")) }"
    );
}

#[test]
fn conversion_keeps_the_text_of_a_std_error() {
    let err = "12x".parse::<u32>().unwrap_err();
    let text = err.to_string();
    assert_eq!(Fail::from(err).to_string(), text);
}

fn port(text: &str) -> Result<u16, Fail> {
    let port = text.parse::<u16>().context("port is not a number")?;
    Ok(port)
}

#[test]
fn context_on_std_error() {
    assert_eq!(port("8080").unwrap(), 8080);
    assert_eq!(
        port("http").unwrap_err().to_string(),
        "port is not a number: invalid digit found in string"
    );
}

#[test]
fn question_mark_converts() {
    assert_eq!(parse("17").unwrap(), 17);
    let text = "x".parse::<u32>().unwrap_err().to_string();
    assert_eq!(parse("x").unwrap_err().to_string(), text);
}

#[test]
fn caused_by_holds_the_text_as_cause() {
    let fail = Fail::caused_by(String::from("file not found"));
    assert_eq!(fail.to_string(), "file not found");
    assert_eq!(
        format!("{:?}", fail),
        "Fail { msg: None, cause: Some(Error(\"file not found\")) }"
    );
}

#[test]
fn attach_fills_an_empty_message_slot() {
    let fail = Fail::from(ReadError).add_msg("failed to open input");
    assert_eq!(fail.to_string(), "failed to open input: file not found");
    assert_eq!(
        format!("{:?}", fail),
        "Fail { msg: Some(\"failed to open input\"), cause: Some(Error(\"file not found\")) }"
    );
}

#[test]
fn attach_wraps_a_failure_that_has_a_message() {
    let fail = Fail::new("inner").add_msg("outer");
    assert_eq!(fail.to_string(), "outer: inner");
    assert_eq!(
        format!("{:?}", fail),
        "Fail { msg: Some(\"outer\"), cause: Some(Fail(Fail { msg: Some(\"inner\"), cause: None })) }"
    );
}

#[test]
fn attach_wraps_message_and_cause_together() {
    let fail = Fail::from(ReadError).add_msg("first").add_msg("second");
    assert_eq!(fail.to_string(), "second: first: file not found");
    assert_eq!(
        format!("{:?}", fail),
        "Fail { msg: Some(\"second\"), cause: Some(Fail(Fail { msg: Some(\"first\"), \
         cause: Some(Error(\"file not found\")) })) }"
    );
}

#[test]
fn chain_renders_newest_first_root_last() {
    let fail = Fail::from(ReadError).add_msg("m1").add_msg("m2").add_msg("m3");
    assert_eq!(fail.to_string(), "m3: m2: m1: file not found");
    let plain = Fail::new("m0").add_msg("m1").add_msg("m2");
    assert_eq!(plain.to_string(), "m2: m1: m0");
}

#[test]
fn fmt_appends_to_what_is_there() {
    let mut out = String::from("error: ");
    Fail::new("inner").add_msg("outer").fmt(&mut out);
    assert_eq!(out, "error: outer: inner");
}

#[test]
fn context_on_missing_value() {
    let res: Result<u32, Fail> = None.context("missing config");
    assert_eq!(res.unwrap_err().to_string(), "missing config");
}

#[test]
fn context_on_foreign_error() {
    let fail = open_input().unwrap_err();
    assert_eq!(fail.to_string(), "failed to open input: file not found");
    assert_eq!(
        format!("{:?}", fail),
        "Fail { msg: Some(\"failed to open input\"), cause: Some(Error(\"file not found\")) }"
    );
}

#[test]
fn context_on_foreign_error_is_conversion_then_attach() {
    let direct = read().context("failed to open input").unwrap_err();
    let stepwise = Fail::from(ReadError).add_msg("failed to open input");
    assert_eq!(format!("{:?}", direct), format!("{:?}", stepwise));
}

#[test]
fn context_on_existing_failure() {
    let fail = load_profile().unwrap_err();
    assert_eq!(
        fail.to_string(),
        "failed to load profile: failed to open input: file not found"
    );
}

#[test]
fn context_on_converted_failure_fills_the_slot() {
    let res: Result<u32, Fail> = Err(Fail::from(ReadError));
    let fail = res.context("failed to open input").unwrap_err();
    assert_eq!(
        format!("{:?}", fail),
        "Fail { msg: Some(\"failed to open input\"), cause: Some(Error(\"file not found\")) }"
    );
}

#[test]
fn context_takes_owned_messages() {
    let res: Result<u32, Fail> = None.context(format!("no entry for {}", "port"));
    assert_eq!(res.unwrap_err().to_string(), "no entry for port");
}

#[test]
fn context_passes_present_values_through() {
    assert_eq!(Some(7).context("missing").unwrap(), 7);
    let ok: Result<&str, ReadError> = Ok("value");
    assert_eq!(ok.context("unused").unwrap(), "value");
    let kept: Result<Vec<u8>, Fail> = Ok(vec![1, 2, 3]);
    assert_eq!(kept.context("unused").unwrap(), vec![1, 2, 3]);
}

#[test]
fn error_renders_as_its_failure() {
    let plain = Error::from(Fail::new("only a message"));
    assert_eq!(plain.to_string(), "only a message");
    assert_eq!(plain.to_string(), plain.as_fail().to_string());

    let one = Error::from(open_input().unwrap_err());
    assert_eq!(one.to_string(), "failed to open input: file not found");
    assert_eq!(one.to_string(), one.as_fail().to_string());

    let two = Error::from(load_profile().unwrap_err());
    assert_eq!(
        two.to_string(),
        "failed to load profile: failed to open input: file not found"
    );
    let mut out = String::new();
    two.fmt(&mut out);
    assert_eq!(out, two.into_fail().to_string());
}

#[test]
fn error_gives_its_failure_back() {
    let fail = Fail::new("inner").add_msg("outer");
    let shape = format!("{:?}", fail);
    let error = Error::from(fail);
    assert_eq!(format!("{:?}", error.as_fail()), shape);
    assert_eq!(format!("{:?}", error.into_fail()), shape);
}
