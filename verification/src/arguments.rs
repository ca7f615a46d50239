//! The command line: from the arguments to the settings of the server.

use crate::config::{normalized_root, text_of, Config, ConfigView};
use crate::headers::{updated, with_defaults, HeaderList, HeaderSeq};
use crate::text::{
    after_prefix, decimal_within, find_char, first_index, lemma_first_index, parse_decimal,
    same_text, strip_prefix,
};
use vstd::prelude::*;

verus! {

/// Why a command line was not understood.
#[derive(Clone, Copy, Debug, PartialEq, Eq, Structural)]
pub enum ArgumentError {
    /// The directory to serve is missing.
    NotEnoughArguments,
    /// A host address is not made of at most four numbers from 0 to 255,
    /// with dots between them.
    InvalidHost,
    /// A port is not a number from 0 to 65535.
    InvalidPort,
    /// A header holds no colon, or `-H` is not followed by one single-byte
    /// character and the header.
    InvalidHeader,
}

/// What is said of an error.
pub open spec fn error_message(error: ArgumentError) -> Seq<char> {
    match error {
        ArgumentError::NotEnoughArguments => "Not Enough Arguments"@,
        ArgumentError::InvalidHost => "Host Address is invalid"@,
        ArgumentError::InvalidPort => "Port is Invalid"@,
        ArgumentError::InvalidHeader => "Invalid Header"@,
    }
}

impl ArgumentError {
    /// What is said of this error.
    pub fn message(&self) -> (text: &'static str)
        ensures
            text@ == error_message(*self),
    {
        match self {
            ArgumentError::NotEnoughArguments => "Not Enough Arguments",
            ArgumentError::InvalidHost => "Host Address is invalid",
            ArgumentError::InvalidPort => "Port is Invalid",
            ArgumentError::InvalidHeader => "Invalid Header",
        }
    }
}

/// The host that is served on where none is given.
pub open spec fn default_host() -> Seq<u8> {
    seq![127u8, 0u8, 0u8, 1u8]
}

/// The port that is served on where none is given.
pub open spec fn default_port() -> u16 {
    8080
}

/// The host address that `text` writes over `host`, from `place` on: the
/// numbers between the dots of `text` take the places of `host` one after
/// the other, and the places behind them stay. There is no address where a
/// part is no number up to 255, or where there are more parts than places.
pub open spec fn octets_from(text: Seq<char>, place: int, host: Seq<u8>) -> Option<Seq<u8>>
    decreases text.len(),
{
    let end = first_index(text, '.');
    match decimal_within(text.take(end), 255) {
        None => None,
        Some(value) => if 0 <= place < host.len() {
            let filled = host.update(place, value as u8);
            if 0 <= end < text.len() {
                octets_from(text.skip(end + 1), place + 1, filled)
            } else {
                Some(filled)
            }
        } else {
            None
        },
    }
}

/// The host address that `text` writes: its numbers over the default host.
pub open spec fn host_of(text: Seq<char>) -> Option<Seq<u8>> {
    octets_from(text, 0, default_host())
}

/// The port that `text` writes.
pub open spec fn port_of(text: Seq<char>) -> Option<u16> {
    match decimal_within(text, 65535) {
        Some(value) => Some(value as u16),
        None => None,
    }
}

/// The header that `text` writes: the name stands before the first colon,
/// and the value is the rest, from the colon on.
pub open spec fn header_of(text: Seq<char>) -> Option<(Seq<char>, Seq<char>)> {
    let colon = first_index(text, ':');
    if 0 <= colon < text.len() {
        Some((text.take(colon), text.skip(colon)))
    } else {
        None
    }
}

/// The header text of a `-H` argument, given what stands behind `-H`: one
/// single-byte character, such as `=`, is passed over.
pub open spec fn short_header_text(rest: Seq<char>) -> Option<Seq<char>> {
    if rest.len() > 0 && rest[0] <= '\u{7f}' {
        Some(rest.skip(1))
    } else {
        None
    }
}

/// The mathematical model of [`Settings`].
pub struct SettingsView {
    /// The directory to serve, as it was given.
    pub directory: Seq<char>,
    /// The host address, where one was given.
    pub host: Option<Seq<u8>>,
    /// The port, where one was given.
    pub port: Option<u16>,
    /// The headers that were given, in order and without duplicates.
    pub headers: HeaderSeq,
    /// The fallback file, where one was given.
    pub not_found_file: Option<Seq<char>>,
    /// Whether the default header was opted out of.
    pub no_default_headers: bool,
}

/// The settings before any option is read.
pub open spec fn initial_settings(directory: Seq<char>) -> SettingsView {
    SettingsView {
        directory,
        host: None,
        port: None,
        headers: Seq::empty(),
        not_found_file: None,
        no_default_headers: false,
    }
}

/// The settings with the header that `text` writes.
pub open spec fn with_header(settings: SettingsView, text: Seq<char>) -> Result<
    SettingsView,
    ArgumentError,
> {
    match header_of(text) {
        Some((name, value)) => Ok(
            SettingsView { headers: updated(settings.headers, name, value), ..settings },
        ),
        None => Err(ArgumentError::InvalidHeader),
    }
}

/// The settings with the host that `text` writes.
pub open spec fn with_host(settings: SettingsView, text: Seq<char>) -> Result<
    SettingsView,
    ArgumentError,
> {
    match host_of(text) {
        Some(host) => Ok(SettingsView { host: Some(host), ..settings }),
        None => Err(ArgumentError::InvalidHost),
    }
}

/// The settings with the port that `text` writes.
pub open spec fn with_port(settings: SettingsView, text: Seq<char>) -> Result<
    SettingsView,
    ArgumentError,
> {
    match port_of(text) {
        Some(port) => Ok(SettingsView { port: Some(port), ..settings }),
        None => Err(ArgumentError::InvalidPort),
    }
}

/// The settings after one more option. The first host, the first port and
/// the first fallback file count, later ones are passed over; every header
/// counts; what is no option is passed over.
pub open spec fn with_option(settings: SettingsView, arg: Seq<char>) -> Result<
    SettingsView,
    ArgumentError,
> {
    if settings.host is None && after_prefix(arg, "--host="@) is Some {
        with_host(settings, after_prefix(arg, "--host="@)->0)
    } else if settings.host is None && after_prefix(arg, "-h="@) is Some {
        with_host(settings, after_prefix(arg, "-h="@)->0)
    } else if settings.port is None && after_prefix(arg, "--port="@) is Some {
        with_port(settings, after_prefix(arg, "--port="@)->0)
    } else if settings.port is None && after_prefix(arg, "-p="@) is Some {
        with_port(settings, after_prefix(arg, "-p="@)->0)
    } else if settings.not_found_file is None && after_prefix(arg, "--404="@) is Some {
        Ok(SettingsView { not_found_file: after_prefix(arg, "--404="@), ..settings })
    } else if after_prefix(arg, "--header="@) is Some {
        with_header(settings, after_prefix(arg, "--header="@)->0)
    } else if after_prefix(arg, "-H"@) is Some {
        match short_header_text(after_prefix(arg, "-H"@)->0) {
            Some(text) => with_header(settings, text),
            None => Err(ArgumentError::InvalidHeader),
        }
    } else if arg == "--no-default-headers"@ {
        Ok(SettingsView { no_default_headers: true, ..settings })
    } else {
        Ok(settings)
    }
}

/// The mathematical model of an [`Invocation`].
pub enum InvocationView {
    /// Help was asked for.
    Help,
    /// The server is to run under these settings.
    Serve(SettingsView),
}

/// What the arguments from `from` on ask for, given the settings so far: the
/// options are read in order, the first `--help` ends the reading, and so
/// does the first option that is not understood.
pub open spec fn options_from(args: Seq<Seq<char>>, from: int, settings: SettingsView) -> Result<
    InvocationView,
    ArgumentError,
>
    decreases args.len() - from,
{
    if !(0 <= from < args.len()) {
        Ok(InvocationView::Serve(settings))
    } else if args[from] == "--help"@ {
        Ok(InvocationView::Help)
    } else {
        match with_option(settings, args[from]) {
            Ok(next) => options_from(args, from + 1, next),
            Err(error) => Err(error),
        }
    }
}

/// What a command line asks for. The first argument is the directory to
/// serve, or `--help`; the options follow.
pub open spec fn parsed(args: Seq<Seq<char>>) -> Result<InvocationView, ArgumentError> {
    if args.len() == 0 {
        Err(ArgumentError::NotEnoughArguments)
    } else if args[0] == "--help"@ {
        Ok(InvocationView::Help)
    } else {
        options_from(args, 1, initial_settings(args[0]))
    }
}

/// The arguments as texts.
pub open spec fn texts(args: Seq<String>) -> Seq<Seq<char>> {
    Seq::new(args.len(), |i: int| args[i]@)
}

/// The settings that a command line gives.
#[derive(Debug)]
pub struct Settings {
    /// The directory to serve, as it was given.
    pub directory: String,
    /// The host address, where one was given.
    pub host: Option<[u8; 4]>,
    /// The port, where one was given.
    pub port: Option<u16>,
    /// The headers that were given, in order and without duplicates.
    pub headers: HeaderList,
    /// The fallback file, where one was given.
    pub not_found_file: Option<String>,
    /// Whether the default header was opted out of.
    pub no_default_headers: bool,
}

impl View for Settings {
    type V = SettingsView;

    open spec fn view(&self) -> SettingsView {
        SettingsView {
            directory: self.directory@,
            host: match self.host {
                Some(host) => Some(host@),
                None => None,
            },
            port: self.port,
            headers: self.headers@,
            not_found_file: text_of(self.not_found_file),
            no_default_headers: self.no_default_headers,
        }
    }
}

/// What a command line asks for.
#[derive(Debug)]
pub enum Invocation {
    /// Help was asked for.
    Help,
    /// The server is to run under these settings.
    Serve(Settings),
}

impl View for Invocation {
    type V = InvocationView;

    open spec fn view(&self) -> InvocationView {
        match self {
            Invocation::Help => InvocationView::Help,
            Invocation::Serve(settings) => InvocationView::Serve(settings@),
        }
    }
}

/// Reads a host address: up to four numbers with dots between them, written
/// over `127.0.0.1`.
pub fn parse_host(text: &str) -> (host: Option<[u8; 4]>)
    ensures
        match host {
            Some(host) => host_of(text@) == Some(host@),
            None => host_of(text@) is None,
        },
{
    let mut host: [u8; 4] = [127, 0, 0, 1];
    let mut rest: &str = text;
    let mut place: usize = 0;
    loop
        invariant
            place <= 4,
            octets_from(rest@, place as int, host@) == host_of(text@),
        decreases rest@.len(),
    {
        let length: usize = rest.unicode_len();
        let end: usize = find_char(rest, '.');
        proof {
            lemma_first_index(rest@, '.');
        }
        match parse_decimal(rest.substring_char(0, end), 255) {
            None => {
                return None;
            },
            Some(value) => {
                if place >= 4 {
                    return None;
                }
                host[place] = value as u8;
                if end >= length {
                    return Some(host);
                }
                rest = rest.substring_char(end + 1, length);
                place += 1;
            },
        }
    }
}

/// Reads a port: a number from 0 to 65535.
pub fn parse_port(text: &str) -> (port: Option<u16>)
    ensures
        port == port_of(text@),
{
    match parse_decimal(text, 65535) {
        Some(value) => Some(value as u16),
        None => None,
    }
}

/// Reads a header: the name before the first colon, and the value from the
/// colon on.
pub fn parse_header(text: &str) -> (header: Option<(String, String)>)
    ensures
        match header {
            Some((name, value)) => header_of(text@) == Some((name@, value@)),
            None => header_of(text@) is None,
        },
{
    let length: usize = text.unicode_len();
    let colon: usize = find_char(text, ':');
    proof {
        lemma_first_index(text@, ':');
    }
    if colon < length {
        Some((text.substring_char(0, colon).to_owned(), text.substring_char(colon, length).to_owned()))
    } else {
        None
    }
}

impl Settings {
    /// Well-formedness: no header name occurs twice.
    pub open spec fn wf(&self) -> bool {
        self.headers.wf()
    }

    /// The settings before any option is read.
    pub fn new(directory: String) -> (settings: Settings)
        ensures
            settings.wf(),
            settings@ == initial_settings(directory@),
    {
        Settings {
            directory,
            host: None,
            port: None,
            headers: HeaderList::new(),
            not_found_file: None,
            no_default_headers: false,
        }
    }

    /// The settings with the header that `text` writes.
    fn header(self, text: &str) -> (result: Result<Settings, ArgumentError>)
        requires
            self.wf(),
        ensures
            match result {
                Ok(next) => next.wf() && with_header(self@, text@) == Ok::<
                    SettingsView,
                    ArgumentError,
                >(next@),
                Err(error) => with_header(self@, text@) == Err::<SettingsView, ArgumentError>(
                    error,
                ),
            },
    {
        let mut settings = self;
        match parse_header(text) {
            Some((name, value)) => {
                settings.headers.update(name, value);
                Ok(settings)
            },
            None => Err(ArgumentError::InvalidHeader),
        }
    }

    /// The settings after one more option.
    pub fn option(self, arg: &str) -> (result: Result<Settings, ArgumentError>)
        requires
            self.wf(),
        ensures
            match result {
                Ok(next) => next.wf() && with_option(self@, arg@) == Ok::<
                    SettingsView,
                    ArgumentError,
                >(next@),
                Err(error) => with_option(self@, arg@) == Err::<SettingsView, ArgumentError>(
                    error,
                ),
            },
    {
        let mut settings = self;
        if settings.host.is_none() {
            let long = strip_prefix(arg, "--host=");
            let text = if long.is_some() {
                long
            } else {
                strip_prefix(arg, "-h=")
            };
            match text {
                Some(text) => {
                    return match parse_host(text) {
                        Some(host) => {
                            settings.host = Some(host);
                            Ok(settings)
                        },
                        None => Err(ArgumentError::InvalidHost),
                    };
                },
                None => {},
            }
        }
        if settings.port.is_none() {
            let long = strip_prefix(arg, "--port=");
            let text = if long.is_some() {
                long
            } else {
                strip_prefix(arg, "-p=")
            };
            match text {
                Some(text) => {
                    return match parse_port(text) {
                        Some(port) => {
                            settings.port = Some(port);
                            Ok(settings)
                        },
                        None => Err(ArgumentError::InvalidPort),
                    };
                },
                None => {},
            }
        }
        if settings.not_found_file.is_none() {
            match strip_prefix(arg, "--404=") {
                Some(path) => {
                    settings.not_found_file = Some(path.to_owned());
                    return Ok(settings);
                },
                None => {},
            }
        }
        match strip_prefix(arg, "--header=") {
            Some(text) => {
                return settings.header(text);
            },
            None => {},
        }
        match strip_prefix(arg, "-H") {
            Some(rest) => {
                if rest.is_empty() || rest.get_char(0) > '\u{7f}' {
                    return Err(ArgumentError::InvalidHeader);
                }
                let length: usize = rest.unicode_len();
                return settings.header(rest.substring_char(1, length));
            },
            None => {},
        }
        if same_text(arg, "--no-default-headers") {
            settings.no_default_headers = true;
        }
        Ok(settings)
    }

    /// The address to serve on: what was given, and `127.0.0.1` and `8080`
    /// where nothing was.
    pub fn address(&self) -> (address: ([u8; 4], u16))
        ensures
            address.0@ == match self@.host {
                Some(host) => host,
                None => default_host(),
            },
            address.1 == match self@.port {
                Some(port) => port,
                None => default_port(),
            },
    {
        let host: [u8; 4] = match self.host {
            Some(host) => host,
            None => {
                let host: [u8; 4] = [127, 0, 0, 1];
                host
            },
        };
        let port: u16 = match self.port {
            Some(port) => port,
            None => 8080,
        };
        (host, port)
    }

    /// The configuration that requests are answered under: the directory as
    /// document root, the headers with the default header applied, and the
    /// fallback file.
    pub fn into_config(self) -> (config: Config)
        requires
            self.wf(),
        ensures
            config@.wf(),
            config@ == (ConfigView {
                document_root: normalized_root(self@.directory),
                response_headers: with_defaults(self@.headers, self@.no_default_headers),
                not_found_file: self@.not_found_file,
            }),
    {
        let mut headers = self.headers;
        headers.apply_defaults(self.no_default_headers);
        Config::new(self.directory, headers, self.not_found_file)
    }
}

/// Reads a command line, without the name of the program: the directory to
/// serve, then the options.
pub fn parse_arguments(args: &Vec<String>) -> (result: Result<Invocation, ArgumentError>)
    ensures
        match result {
            Ok(invocation) => parsed(texts(args@)) == Ok::<InvocationView, ArgumentError>(
                invocation@,
            ),
            Err(error) => parsed(texts(args@)) == Err::<InvocationView, ArgumentError>(error),
        },
        result matches Ok(Invocation::Serve(settings)) ==> settings.wf(),
{
    if args.len() == 0 {
        return Err(ArgumentError::NotEnoughArguments);
    }
    if same_text(args[0].as_str(), "--help") {
        return Ok(Invocation::Help);
    }
    let mut settings = Settings::new(args[0].clone());
    let mut index: usize = 1;
    while index < args.len()
        invariant
            1 <= index <= args.len(),
            settings.wf(),
            options_from(texts(args@), index as int, settings@) == parsed(texts(args@)),
        decreases args.len() - index,
    {
        if same_text(args[index].as_str(), "--help") {
            return Ok(Invocation::Help);
        }
        match settings.option(args[index].as_str()) {
            Ok(next) => {
                settings = next;
            },
            Err(error) => {
                return Err(error);
            },
        }
        index += 1;
    }
    Ok(Invocation::Serve(settings))
}

} // verus!
