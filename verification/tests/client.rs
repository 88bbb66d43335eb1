use markdown_publish::client::{classify_status, list_rows, parse_args, Command, Config, Status};

fn args_of(words: &[&str]) -> Vec<String> {
    words.iter().map(|w| String::from(*w)).collect()
}

#[test]
fn new_config_is_empty() {
    let c = Config::new();
    assert_eq!(c.command, Command::Unknown);
    assert!(c.file_names.is_empty());
}

#[test]
fn parse_args_reads_the_command_word() {
    assert_eq!(parse_args(&args_of(&["prog", "upload"])).command, Command::Upload);
    assert_eq!(parse_args(&args_of(&["prog", "u"])).command, Command::Upload);
    assert_eq!(parse_args(&args_of(&["prog", "remove"])).command, Command::Remove);
    assert_eq!(parse_args(&args_of(&["prog", "r"])).command, Command::Remove);
    assert_eq!(parse_args(&args_of(&["prog", "list"])).command, Command::List);
    assert_eq!(parse_args(&args_of(&["prog", "l"])).command, Command::List);
    assert_eq!(parse_args(&args_of(&["prog", "publish"])).command, Command::Unknown);
}

#[test]
fn parse_args_collects_the_file_names() {
    let c = parse_args(&args_of(&["prog", "upload", "a.md", "b.md"]));
    assert_eq!(c.file_names, vec![String::from("a.md"), String::from("b.md")]);
    let c = parse_args(&args_of(&["prog", "list"]));
    assert!(c.file_names.is_empty());
}

#[test]
fn parse_args_without_a_command_is_unknown() {
    let c = parse_args(&args_of(&["prog"]));
    assert_eq!(c.command, Command::Unknown);
    assert!(c.file_names.is_empty());
}

#[test]
fn status_codes_are_classified() {
    assert_eq!(classify_status(200), Status::Success);
    assert_eq!(classify_status(422), Status::Unprocessable);
    assert_eq!(classify_status(500), Status::NetworkError);
    assert_eq!(classify_status(404), Status::NetworkError);
}

#[test]
fn status_labels() {
    assert_eq!(Status::Success.label(), "Success");
    assert_eq!(Status::Unprocessable.label(), "Unporcessable");
    assert_eq!(Status::FileNotFound.label(), "FileNotFound");
    assert_eq!(Status::NetworkError.label(), "NetworkError");
}

#[test]
fn listing_rows_mark_every_name_a_success() {
    let rows = list_rows(vec![String::from("one"), String::from("two")]);
    assert_eq!(rows.len(), 2);
    assert_eq!(rows[0].file_name, "one");
    assert_eq!(rows[0].status, Status::Success);
    assert_eq!(rows[1].file_name, "two");
    assert_eq!(rows[1].status, Status::Success);
}
