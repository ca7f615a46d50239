use serve_dir::{
    parse_arguments, parse_header, parse_host, parse_port, ArgumentError, Invocation, Settings,
};

fn args(words: &[&str]) -> Vec<String> {
    words.iter().map(|word| word.to_string()).collect()
}

fn settings(words: &[&str]) -> Settings {
    match parse_arguments(&args(words)) {
        Ok(Invocation::Serve(settings)) => settings,
        other => panic!("no settings: {:?}", other),
    }
}

fn error(words: &[&str]) -> ArgumentError {
    match parse_arguments(&args(words)) {
        Err(error) => error,
        other => panic!("no error: {:?}", other),
    }
}

fn is_help(words: &[&str]) -> bool {
    matches!(parse_arguments(&args(words)), Ok(Invocation::Help))
}

fn pair(name: &str, value: &str) -> (String, String) {
    (name.to_string(), value.to_string())
}

#[test]
fn no_arguments_is_an_error() {
    assert_eq!(error(&[]), ArgumentError::NotEnoughArguments);
}

#[test]
fn directory_alone_gives_the_defaults() {
    let settings = settings(&["site"]);
    assert_eq!(settings.directory, "site");
    assert_eq!(settings.host, None);
    assert_eq!(settings.port, None);
    assert_eq!(settings.headers.len(), 0);
    assert_eq!(settings.not_found_file, None);
    assert!(!settings.no_default_headers);
    assert_eq!(settings.address(), ([127, 0, 0, 1], 8080));
}

#[test]
fn help_as_first_argument() {
    assert!(is_help(&["--help"]));
    assert!(is_help(&["--help", "--port=bogus"]));
}

#[test]
fn help_among_the_options() {
    assert!(is_help(&["site", "--help"]));
    assert!(is_help(&["site", "--port=80", "--help", "--host=bogus"]));
}

#[test]
fn an_error_before_help_wins() {
    assert_eq!(error(&["site", "--port=bogus", "--help"]), ArgumentError::InvalidPort);
}

#[test]
fn host_and_port_long_form() {
    let settings = settings(&["site", "--host=0.0.0.0", "--port=3000"]);
    assert_eq!(settings.host, Some([0, 0, 0, 0]));
    assert_eq!(settings.port, Some(3000));
    assert_eq!(settings.address(), ([0, 0, 0, 0], 3000));
}

#[test]
fn host_and_port_short_form() {
    let settings = settings(&["site", "-p=80", "-h=192.168.1.20"]);
    assert_eq!(settings.address(), ([192, 168, 1, 20], 80));
}

#[test]
fn first_host_and_first_port_count() {
    let settings = settings(&[
        "site",
        "--host=1.2.3.4",
        "-h=5.6.7.8",
        "--host=bogus",
        "-p=81",
        "--port=82",
        "-p=bogus",
    ]);
    assert_eq!(settings.address(), ([1, 2, 3, 4], 81));
}

#[test]
fn short_host_is_written_over_the_default() {
    assert_eq!(settings(&["site", "--host=10"]).address().0, [10, 0, 0, 1]);
    assert_eq!(settings(&["site", "--host=10.20"]).address().0, [10, 20, 0, 1]);
    assert_eq!(settings(&["site", "--host=10.20.30"]).address().0, [10, 20, 30, 1]);
}

#[test]
fn host_numbers() {
    assert_eq!(parse_host("127.0.0.1"), Some([127, 0, 0, 1]));
    assert_eq!(parse_host("255.255.255.255"), Some([255, 255, 255, 255]));
    assert_eq!(parse_host("0.0.0.0"), Some([0, 0, 0, 0]));
    assert_eq!(parse_host("+1.02.003.0004"), Some([1, 2, 3, 4]));
    assert_eq!(parse_host("9"), Some([9, 0, 0, 1]));
}

#[test]
fn hosts_that_are_refused() {
    for text in [
        "",
        ".",
        "1.2.3.4.5",
        "1.2.3.4.",
        ".1.2.3",
        "1..2",
        "256.0.0.1",
        "1.2.3.999",
        "a.b.c.d",
        "localhost",
        "-1.0.0.0",
        "1.2.3.+",
        "1.2.3. 4",
        "１.2.3.4",
    ] {
        assert_eq!(parse_host(text), None, "{:?}", text);
    }
    assert_eq!(error(&["site", "--host=300.1.1.1"]), ArgumentError::InvalidHost);
    assert_eq!(error(&["site", "-h="]), ArgumentError::InvalidHost);
}

#[test]
fn port_numbers() {
    assert_eq!(parse_port("0"), Some(0));
    assert_eq!(parse_port("8080"), Some(8080));
    assert_eq!(parse_port("65535"), Some(65535));
    assert_eq!(parse_port("+443"), Some(443));
    assert_eq!(parse_port("00000000000000000000000000000080"), Some(80));
}

#[test]
fn ports_that_are_refused() {
    for text in [
        "", "+", "-", "-1", "65536", "70000", "99999999999999999999", "80 ", " 80", "8o", "0x50",
        "++1", "1+", "８０",
    ] {
        assert_eq!(parse_port(text), None, "{:?}", text);
    }
    assert_eq!(error(&["site", "--port=65536"]), ArgumentError::InvalidPort);
    assert_eq!(error(&["site", "-p="]), ArgumentError::InvalidPort);
}

#[test]
fn fallback_file_is_taken_once() {
    let settings = settings(&["site", "--404=errors/404.html", "--404=other.html"]);
    assert_eq!(settings.not_found_file, Some("errors/404.html".to_string()));
}

#[test]
fn empty_fallback_file_is_taken() {
    let settings = settings(&["site", "--404=", "--404=other.html"]);
    assert_eq!(settings.not_found_file, Some(String::new()));
}

#[test]
fn header_value_begins_at_the_colon() {
    assert_eq!(parse_header("x-a:1"), Some(pair("x-a", ":1")));
    assert_eq!(parse_header("x-a: one: two"), Some(pair("x-a", ": one: two")));
    assert_eq!(parse_header(":"), Some(pair("", ":")));
    assert_eq!(parse_header("x-a:"), Some(pair("x-a", ":")));
    assert_eq!(parse_header("clé:é"), Some(pair("clé", ":é")));
}

#[test]
fn header_without_colon_is_refused() {
    assert_eq!(parse_header(""), None);
    assert_eq!(parse_header("x-a"), None);
    assert_eq!(parse_header("x-a=1"), None);
    assert_eq!(error(&["site", "--header=x-a"]), ArgumentError::InvalidHeader);
    assert_eq!(error(&["site", "-H=x-a"]), ArgumentError::InvalidHeader);
}

#[test]
fn headers_are_collected_in_order() {
    let settings = settings(&["site", "--header=x-a:1", "-H=x-b:2", "--header=x-c:3"]);
    assert_eq!(
        settings.headers.to_vec(),
        vec![pair("x-a", ":1"), pair("x-b", ":2"), pair("x-c", ":3")]
    );
}

#[test]
fn later_header_overwrites_in_place() {
    let settings = settings(&["site", "--header=x-a:1", "-H=x-b:2", "-H=x-a:3"]);
    assert_eq!(settings.headers.to_vec(), vec![pair("x-a", ":3"), pair("x-b", ":2")]);
}

#[test]
fn short_header_passes_over_one_character() {
    let settings = settings(&["site", "-H:x-a:1", "-Hxx-b:2"]);
    assert_eq!(settings.headers.to_vec(), vec![pair("x-a", ":1"), pair("x-b", ":2")]);
}

#[test]
fn short_header_without_that_character_is_refused() {
    assert_eq!(error(&["site", "-H"]), ArgumentError::InvalidHeader);
    assert_eq!(error(&["site", "-Héx-a:1"]), ArgumentError::InvalidHeader);
    assert_eq!(error(&["site", "-H="]), ArgumentError::InvalidHeader);
}

#[test]
fn opt_out_is_recorded() {
    assert!(settings(&["site", "--no-default-headers"]).no_default_headers);
    assert!(!settings(&["site", "--no-default-header"]).no_default_headers);
    assert!(!settings(&["site", "--no-default-headers=1"]).no_default_headers);
}

#[test]
fn what_is_no_option_is_passed_over() {
    let settings = settings(&["site", "more", "--verbose", "-h", "--host", "-p80", "", "-x=1"]);
    assert_eq!(settings.directory, "site");
    assert_eq!(settings.host, None);
    assert_eq!(settings.port, None);
    assert_eq!(settings.headers.len(), 0);
    assert_eq!(settings.not_found_file, None);
    assert!(!settings.no_default_headers);
}

#[test]
fn an_option_can_be_the_directory() {
    let settings = settings(&["--port=1", "--port=2"]);
    assert_eq!(settings.directory, "--port=1");
    assert_eq!(settings.port, Some(2));
}

#[test]
fn config_gets_the_default_header() {
    let config = settings(&["site", "-H=x-a:1", "--404=site/404.html"]).into_config();
    assert_eq!(config.document_root(), "site/");
    assert_eq!(
        config.response_headers().to_vec(),
        vec![pair("x-a", ":1"), pair("access-control-allow-origin", "*")]
    );
    assert_eq!(config.not_found_file(), &Some("site/404.html".to_string()));
}

#[test]
fn config_without_the_default_header() {
    let config = settings(&["site/", "--no-default-headers", "-H=x-a:1"]).into_config();
    assert_eq!(config.document_root(), "site/");
    assert_eq!(config.response_headers().to_vec(), vec![pair("x-a", ":1")]);
    assert_eq!(config.not_found_file(), &None);
}

#[test]
fn config_keeps_a_given_allow_origin() {
    let config =
        settings(&["site", "--header=access-control-allow-origin:null", "-H=x-a:1"]).into_config();
    assert_eq!(
        config.response_headers().to_vec(),
        vec![pair("access-control-allow-origin", ":null"), pair("x-a", ":1")]
    );
}

#[test]
fn options_one_by_one() {
    let settings = Settings::new("site".to_string());
    let settings = settings.option("--port=9").unwrap();
    let settings = settings.option("nothing").unwrap();
    let settings = settings.option("--header=x-a:1").unwrap();
    assert_eq!(settings.port, Some(9));
    assert_eq!(settings.headers.to_vec(), vec![pair("x-a", ":1")]);
    assert_eq!(settings.option("--host=x").unwrap_err(), ArgumentError::InvalidHost);
}

#[test]
fn each_error_has_its_message() {
    assert_eq!(ArgumentError::NotEnoughArguments.message(), "Not Enough Arguments");
    assert_eq!(ArgumentError::InvalidHost.message(), "Host Address is invalid");
    assert_eq!(ArgumentError::InvalidPort.message(), "Port is Invalid");
    assert_eq!(ArgumentError::InvalidHeader.message(), "Invalid Header");
}
