//! The checked configuration, the errors that refuse one, and how one is
//! built from the six settings as they were written.

use clap::ArgMatches;
use std::time::Duration;
use vstd::prelude::*;
use vstd::string::*;

use crate::args::{text_of, value_of};
use crate::duration::{can_read, parse_span, span_of_text, SpanError};
use crate::endpoint::{endpoint_of_text, parse_endpoint, Endpoint, EndpointError, EndpointView};
use crate::length::{length_of_text, parse_length};
pub use crate::length::{PacketLengthError, MAX_PACKET_LENGTH, MIN_PACKET_LENGTH};

verus! {

/// The six settings as they were written.
#[derive(Debug, Clone, Copy, PartialEq, Eq)]
pub struct RawArgs<'a> {
    /// The endpoint to send to.
    pub receiver: &'a str,
    /// The endpoint to send from.
    pub sender: &'a str,
    /// How long to run.
    pub duration: &'a str,
    /// The size of a packet in bytes.
    pub length: &'a str,
    /// How long to wait before the first packet.
    pub waiting: &'a str,
    /// How long to wait between two packets.
    pub periodicity: &'a str,
}

/// The characters of the six settings.
pub ghost struct RawText {
    pub receiver: Seq<char>,
    pub sender: Seq<char>,
    pub duration: Seq<char>,
    pub length: Seq<char>,
    pub waiting: Seq<char>,
    pub periodicity: Seq<char>,
}

impl<'a> View for RawArgs<'a> {
    type V = RawText;

    open spec fn view(&self) -> RawText {
        RawText {
            receiver: self.receiver@,
            sender: self.sender@,
            duration: self.duration@,
            length: self.length@,
            waiting: self.waiting@,
            periodicity: self.periodicity@,
        }
    }
}

/// A checked configuration. Its packet length lies between
/// [`MIN_PACKET_LENGTH`] and [`MAX_PACKET_LENGTH`].
#[derive(Debug, PartialEq)]
pub struct ArgsConfig {
    receiver: Endpoint,
    sender: Endpoint,
    duration: Duration,
    length: usize,
    waiting: Duration,
    periodicity: Duration,
}

/// What an [`ArgsConfig`] holds.
pub ghost struct ConfigView {
    pub receiver: EndpointView,
    pub sender: EndpointView,
    pub duration: Duration,
    pub length: usize,
    pub waiting: Duration,
    pub periodicity: Duration,
}

impl View for ArgsConfig {
    type V = ConfigView;

    closed spec fn view(&self) -> ConfigView {
        ConfigView {
            receiver: self.receiver@,
            sender: self.sender@,
            duration: self.duration,
            length: self.length,
            waiting: self.waiting,
            periodicity: self.periodicity,
        }
    }
}

impl Clone for ArgsConfig {
    fn clone(&self) -> (copy: Self)
        ensures
            copy == *self,
    {
        proof {
            use_type_invariant(self);
        }
        ArgsConfig {
            receiver: self.receiver,
            sender: self.sender,
            duration: self.duration,
            length: self.length,
            waiting: self.waiting,
            periodicity: self.periodicity,
        }
    }
}

/// Which setting was refused, and why.
#[derive(Debug, PartialEq)]
pub enum ArgsConfigError {
    /// The receiver is no endpoint.
    Receiver(EndpointError),
    /// The sender is no endpoint.
    Sender(EndpointError),
    /// The duration is no span.
    Duration(SpanError),
    /// The length is no number, or lies outside the accepted range.
    Length(PacketLengthError),
    /// The waiting time is no span.
    Waiting(SpanError),
    /// The periodicity is no span.
    Periodicity(SpanError),
}

impl Clone for ArgsConfigError {
    fn clone(&self) -> (copy: Self)
        ensures
            copy == *self,
    {
        match self {
            ArgsConfigError::Receiver(error) => ArgsConfigError::Receiver(*error),
            ArgsConfigError::Sender(error) => ArgsConfigError::Sender(*error),
            ArgsConfigError::Duration(error) => ArgsConfigError::Duration(*error),
            ArgsConfigError::Length(error) => ArgsConfigError::Length(error.clone()),
            ArgsConfigError::Waiting(error) => ArgsConfigError::Waiting(*error),
            ArgsConfigError::Periodicity(error) => ArgsConfigError::Periodicity(*error),
        }
    }
}

/// What building a configuration from six texts gives. The length is checked
/// first, then the receiver, the sender, the duration, the waiting time and
/// the periodicity; the first setting that is refused decides the error, and
/// the settings after it are not looked at. There is no outcome where a span
/// that is looked at cannot be read.
pub open spec fn outcome(raw: RawText) -> Option<Result<ConfigView, ArgsConfigError>> {
    match length_of_text(raw.length) {
        Err(error) => Some(Err(ArgsConfigError::Length(error))),
        Ok(length) => match endpoint_of_text(raw.receiver) {
            Err(error) => Some(Err(ArgsConfigError::Receiver(error))),
            Ok(receiver) => match endpoint_of_text(raw.sender) {
                Err(error) => Some(Err(ArgsConfigError::Sender(error))),
                Ok(sender) => match span_of_text(raw.duration) {
                    None => None,
                    Some(Err(error)) => Some(Err(ArgsConfigError::Duration(error))),
                    Some(Ok(duration)) => match span_of_text(raw.waiting) {
                        None => None,
                        Some(Err(error)) => Some(Err(ArgsConfigError::Waiting(error))),
                        Some(Ok(waiting)) => match span_of_text(raw.periodicity) {
                            None => None,
                            Some(Err(error)) => Some(Err(ArgsConfigError::Periodicity(error))),
                            Some(Ok(periodicity)) => Some(
                                Ok(
                                    ConfigView {
                                        receiver,
                                        sender,
                                        duration,
                                        length,
                                        waiting,
                                        periodicity,
                                    },
                                ),
                            ),
                        },
                    },
                },
            },
        },
    }
}

/// What a length and two endpoints that were accepted give together with
/// what reading the three spans gave: the error of the first span that was
/// refused, under the name of its setting, or the six values.
pub open spec fn assembled(
    length: usize,
    receiver: EndpointView,
    sender: EndpointView,
    duration: Result<Duration, SpanError>,
    waiting: Result<Duration, SpanError>,
    periodicity: Result<Duration, SpanError>,
) -> Result<ConfigView, ArgsConfigError> {
    match duration {
        Err(error) => Err(ArgsConfigError::Duration(error)),
        Ok(duration) => match waiting {
            Err(error) => Err(ArgsConfigError::Waiting(error)),
            Ok(waiting) => match periodicity {
                Err(error) => Err(ArgsConfigError::Periodicity(error)),
                Ok(periodicity) => Ok(
                    ConfigView { receiver, sender, duration, length, waiting, periodicity },
                ),
            },
        },
    }
}

/// The six settings that the command line matched, if it matched a text for
/// each of them.
pub open spec fn settings_of(matches: ArgMatches<'_>) -> Option<RawText> {
    match (
        text_of(matches, "receiver"@),
        text_of(matches, "sender"@),
        text_of(matches, "duration"@),
        text_of(matches, "length"@),
        text_of(matches, "waiting"@),
        text_of(matches, "periodicity"@),
    ) {
        (
            Some(receiver),
            Some(sender),
            Some(duration),
            Some(length),
            Some(waiting),
            Some(periodicity),
        ) => Some(RawText { receiver, sender, duration, length, waiting, periodicity }),
        _ => None,
    }
}

/// What building a configuration from a command line gives: nothing where a
/// setting is missing, else the outcome for the six texts.
pub open spec fn outcome_of(matches: ArgMatches<'_>) -> Option<Result<ConfigView, ArgsConfigError>> {
    match settings_of(matches) {
        Some(raw) => outcome(raw),
        None => None,
    }
}

/// A result of building, with the configuration taken by what it holds.
pub open spec fn shown(built: Result<ArgsConfig, ArgsConfigError>) -> Result<
    ConfigView,
    ArgsConfigError,
> {
    match built {
        Ok(config) => Ok(config@),
        Err(error) => Err(error),
    }
}

/// An optional result of building, with the configuration taken by what it
/// holds.
pub open spec fn shown_if_any(built: Option<Result<ArgsConfig, ArgsConfigError>>) -> Option<
    Result<ConfigView, ArgsConfigError>,
> {
    match built {
        Some(result) => Some(shown(result)),
        None => None,
    }
}

impl ArgsConfig {
    #[verifier::type_invariant]
    spec fn length_in_range(&self) -> bool {
        MIN_PACKET_LENGTH <= self.length <= MAX_PACKET_LENGTH
    }

    /// Builds a configuration from the six settings, or says which of them
    /// is refused. Gives nothing where a span that has to be read cannot be
    /// read.
    pub fn build(raw: &RawArgs) -> (built: Option<Result<ArgsConfig, ArgsConfigError>>)
        ensures
            shown_if_any(built) == outcome(raw@),
    {
        let length = match parse_length(raw.length) {
            Ok(length) => length,
            Err(error) => {
                return Some(Err(ArgsConfigError::Length(error)));
            },
        };
        let receiver = match parse_endpoint(raw.receiver) {
            Ok(receiver) => receiver,
            Err(error) => {
                return Some(Err(ArgsConfigError::Receiver(error)));
            },
        };
        let sender = match parse_endpoint(raw.sender) {
            Ok(sender) => sender,
            Err(error) => {
                return Some(Err(ArgsConfigError::Sender(error)));
            },
        };
        let duration = match parse_span(raw.duration) {
            Some(parsed) => parsed,
            None => {
                return None;
            },
        };
        // A span after one that is refused is not read: the refusal stands
        // in for it.
        let waiting = match duration {
            Ok(_) => match parse_span(raw.waiting) {
                Some(parsed) => parsed,
                None => {
                    return None;
                },
            },
            Err(error) => Err(error),
        };
        let periodicity = match waiting {
            Ok(_) => match parse_span(raw.periodicity) {
                Some(parsed) => parsed,
                None => {
                    return None;
                },
            },
            Err(error) => Err(error),
        };
        Some(Self::with_spans(length, receiver, sender, duration, waiting, periodicity))
    }

    /// Puts a configuration together from a length and two endpoints that
    /// were accepted and from what reading the three spans gave: the error
    /// of the first span that was refused, in the order duration, waiting,
    /// periodicity, under the name of its setting, or the configuration of
    /// these six values.
    pub fn with_spans(
        length: usize,
        receiver: Endpoint,
        sender: Endpoint,
        duration: Result<Duration, SpanError>,
        waiting: Result<Duration, SpanError>,
        periodicity: Result<Duration, SpanError>,
    ) -> (built: Result<ArgsConfig, ArgsConfigError>)
        requires
            MIN_PACKET_LENGTH <= length <= MAX_PACKET_LENGTH,
        ensures
            shown(built) == assembled(length, receiver@, sender@, duration, waiting, periodicity),
    {
        let duration = match duration {
            Ok(duration) => duration,
            Err(error) => {
                return Err(ArgsConfigError::Duration(error));
            },
        };
        let waiting = match waiting {
            Ok(waiting) => waiting,
            Err(error) => {
                return Err(ArgsConfigError::Waiting(error));
            },
        };
        let periodicity = match periodicity {
            Ok(periodicity) => periodicity,
            Err(error) => {
                return Err(ArgsConfigError::Periodicity(error));
            },
        };
        Ok(ArgsConfig { receiver, sender, duration, length, waiting, periodicity })
    }

    /// Builds a configuration from the settings that the command line
    /// matched. The command line has to hold a text for each of the six
    /// settings `receiver`, `sender`, `duration`, `length`, `waiting` and
    /// `periodicity`, and each span that has to be read can be read.
    pub fn from_matches(matches: &ArgMatches<'_>) -> (built: Result<ArgsConfig, ArgsConfigError>)
        requires
            outcome_of(*matches) is Some,
        ensures
            Some(shown(built)) == outcome_of(*matches),
    {
        let raw = settings(matches).unwrap();
        Self::build(&raw).unwrap()
    }

    /// Builds a configuration from the settings that the command line
    /// matched, where [`ArgsConfig::from_matches`] can be called. Gives
    /// nothing where one of the six settings is missing or is no text, or
    /// where a span that has to be read cannot be read.
    pub fn try_from_matches(matches: &ArgMatches<'_>) -> (built: Option<
        Result<ArgsConfig, ArgsConfigError>,
    >)
        ensures
            shown_if_any(built) == outcome_of(*matches),
    {
        let raw = match settings(matches) {
            Some(raw) => raw,
            None => {
                return None;
            },
        };
        if can_read(raw.duration) && can_read(raw.waiting) && can_read(raw.periodicity) {
            Some(Self::from_matches(matches))
        } else {
            Self::build(&raw)
        }
    }

    /// The endpoint to send to.
    pub fn receiver(&self) -> (receiver: Endpoint)
        ensures
            receiver@ == self@.receiver,
    {
        self.receiver
    }

    /// The endpoint to send from.
    pub fn sender(&self) -> (sender: Endpoint)
        ensures
            sender@ == self@.sender,
    {
        self.sender
    }

    /// How long to run.
    pub fn duration(&self) -> (duration: Duration)
        ensures
            duration == self@.duration,
    {
        self.duration
    }

    /// The size of a packet in bytes.
    pub fn length(&self) -> (length: usize)
        ensures
            length == self@.length,
            MIN_PACKET_LENGTH <= length <= MAX_PACKET_LENGTH,
    {
        proof {
            use_type_invariant(self);
        }
        self.length
    }

    /// How long to wait before the first packet.
    pub fn waiting(&self) -> (waiting: Duration)
        ensures
            waiting == self@.waiting,
    {
        self.waiting
    }

    /// How long to wait between two packets.
    pub fn periodicity(&self) -> (periodicity: Duration)
        ensures
            periodicity == self@.periodicity,
    {
        self.periodicity
    }
}

/// Looks up the six settings.
fn settings<'a>(matches: &'a ArgMatches<'_>) -> (raw: Option<RawArgs<'a>>)
    ensures
        match raw {
            Some(raw) => settings_of(*matches) == Some(raw@),
            None => settings_of(*matches) is None,
        },
{
    let receiver = match value_of(matches, "receiver") {
        Some(text) => text,
        None => {
            return None;
        },
    };
    let sender = match value_of(matches, "sender") {
        Some(text) => text,
        None => {
            return None;
        },
    };
    let duration = match value_of(matches, "duration") {
        Some(text) => text,
        None => {
            return None;
        },
    };
    let length = match value_of(matches, "length") {
        Some(text) => text,
        None => {
            return None;
        },
    };
    let waiting = match value_of(matches, "waiting") {
        Some(text) => text,
        None => {
            return None;
        },
    };
    let periodicity = match value_of(matches, "periodicity") {
        Some(text) => text,
        None => {
            return None;
        },
    };
    Some(RawArgs { receiver, sender, duration, length, waiting, periodicity })
}

impl ArgsConfigError {
    /// The text of [`ArgsConfigError::message`]: which setting was refused,
    /// and the message of the error that refused it.
    pub open spec fn message_text(self) -> Seq<char> {
        match self {
            ArgsConfigError::Receiver(error) => "An invalid receiver address was specified: "@
                + error.message_text() + "!"@,
            ArgsConfigError::Sender(error) => "An invalid sender address was specified: "@
                + error.message_text() + "!"@,
            ArgsConfigError::Duration(error) => "An invalid duration format was specified: "@
                + error.message_text() + "!"@,
            ArgsConfigError::Length(error) => "An invalid packet length was specified: "@
                + error.message_text()
                + ". A packet length must be in the range of [1; 65000]!"@,
            ArgsConfigError::Waiting(error) => "An invalid waiting duration was specified: "@
                + error.message_text() + "!"@,
            ArgsConfigError::Periodicity(error) => "An invalid periodicity was specified: "@
                + error.message_text() + "!"@,
        }
    }

    /// The error in words.
    pub fn message(&self) -> (text: String)
        ensures
            text@ == self.message_text(),
    {
        match self {
            ArgsConfigError::Receiver(error) => framed(
                "An invalid receiver address was specified: ",
                error.message(),
                "!",
            ),
            ArgsConfigError::Sender(error) => framed(
                "An invalid sender address was specified: ",
                error.message(),
                "!",
            ),
            ArgsConfigError::Duration(error) => framed(
                "An invalid duration format was specified: ",
                error.message(),
                "!",
            ),
            ArgsConfigError::Length(error) => framed(
                "An invalid packet length was specified: ",
                error.message(),
                ". A packet length must be in the range of [1; 65000]!",
            ),
            ArgsConfigError::Waiting(error) => framed(
                "An invalid waiting duration was specified: ",
                error.message(),
                "!",
            ),
            ArgsConfigError::Periodicity(error) => framed(
                "An invalid periodicity was specified: ",
                error.message(),
                "!",
            ),
        }
    }
}

/// Puts a text between two others.
fn framed(before: &str, inner: String, after: &str) -> (text: String)
    ensures
        text@ == before@ + inner@ + after@,
{
    let mut text = String::from_str(before);
    text.append(inner.as_str());
    text.append(after);
    text
}

} // verus!
