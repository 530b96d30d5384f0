use anevicon_config::config::{ArgsConfig, ArgsConfigError, PacketLengthError, RawArgs};
use anevicon_config::duration::SpanError;
use anevicon_config::endpoint::EndpointError;

fn valid() -> RawArgs<'static> {
    RawArgs {
        receiver: "127.0.0.1:8080",
        sender: "0.0.0.0:0",
        duration: "5s",
        length: "1024",
        waiting: "10ms",
        periodicity: "1h 30min",
    }
}

fn refusal(raw: &RawArgs) -> String {
    ArgsConfig::build(raw).unwrap().unwrap_err().message()
}

#[test]
fn a_refused_receiver_in_words() {
    assert_eq!(
        ArgsConfigError::Receiver(EndpointError {}).message(),
        "An invalid receiver address was specified: invalid socket address syntax!"
    );
    assert_eq!(
        refusal(&RawArgs { receiver: "not-an-address", ..valid() }),
        "An invalid receiver address was specified: invalid socket address syntax!"
    );
}

#[test]
fn a_refused_sender_in_words() {
    assert_eq!(
        ArgsConfigError::Sender(EndpointError {}).message(),
        "An invalid sender address was specified: invalid socket address syntax!"
    );
}

#[test]
fn a_refused_duration_in_words() {
    assert_eq!(
        ArgsConfigError::Duration(SpanError::NumberExpected(0)).message(),
        "An invalid duration format was specified: expected number at 0!"
    );
    assert_eq!(
        refusal(&RawArgs { duration: "xyz", ..valid() }),
        "An invalid duration format was specified: expected number at 0!"
    );
    assert_eq!(
        ArgsConfigError::Duration(SpanError::NumberOverflow).message(),
        format!(
            "An invalid duration format was specified: {}!",
            humantime::DurationError::NumberOverflow
        )
    );
}

#[test]
fn a_refused_length_in_words() {
    assert_eq!(
        ArgsConfigError::Length(PacketLengthError::Overflow).message(),
        "An invalid packet length was specified: Overflow occurred. \
         A packet length must be in the range of [1; 65000]!"
    );
    assert_eq!(
        ArgsConfigError::Length(PacketLengthError::Underflow).message(),
        "An invalid packet length was specified: Underflow occurred. \
         A packet length must be in the range of [1; 65000]!"
    );
    assert_eq!(
        refusal(&RawArgs { length: "abc", ..valid() }),
        "An invalid packet length was specified: invalid digit found in string. \
         A packet length must be in the range of [1; 65000]!"
    );
    let underlying = "".parse::<usize>().unwrap_err();
    assert_eq!(
        ArgsConfigError::Length(PacketLengthError::InvalidFormat(underlying.clone())).message(),
        format!(
            "An invalid packet length was specified: {}. \
             A packet length must be in the range of [1; 65000]!",
            underlying
        )
    );
}

#[test]
fn a_refused_waiting_time_in_words() {
    assert_eq!(
        ArgsConfigError::Waiting(SpanError::Empty).message(),
        format!("An invalid waiting duration was specified: {}!", humantime::DurationError::Empty)
    );
    assert_eq!(
        ArgsConfigError::Waiting(SpanError::InvalidCharacter(3)).message(),
        "An invalid waiting duration was specified: invalid character at 3!"
    );
}

#[test]
fn a_refused_periodicity_in_words() {
    assert_eq!(
        ArgsConfigError::Periodicity(SpanError::UnknownUnit(1, 4)).message(),
        "An invalid periodicity was specified: unknown unit at 1-4!"
    );
    assert_eq!(
        refusal(&RawArgs { periodicity: "7 moons", ..valid() }),
        "An invalid periodicity was specified: unknown unit at 2-7!"
    );
}

#[test]
fn the_underlying_message_stands_in_the_middle() {
    for (error, outside) in [
        (SpanError::InvalidCharacter(12), humantime::DurationError::InvalidCharacter(12)),
        (SpanError::NumberExpected(5), humantime::DurationError::NumberExpected(5)),
        (SpanError::UnknownUnit(0, 9), humantime::DurationError::UnknownUnit(0, 9)),
        (SpanError::NumberOverflow, humantime::DurationError::NumberOverflow),
        (SpanError::Empty, humantime::DurationError::Empty),
    ]
    .iter()
    {
        assert_eq!(error.message(), outside.to_string());
        assert_eq!(
            ArgsConfigError::Duration(*error).message(),
            format!("An invalid duration format was specified: {}!", outside)
        );
        assert_eq!(
            ArgsConfigError::Waiting(*error).message(),
            format!("An invalid waiting duration was specified: {}!", outside)
        );
        assert_eq!(
            ArgsConfigError::Periodicity(*error).message(),
            format!("An invalid periodicity was specified: {}!", outside)
        );
    }
}

#[test]
fn a_span_error_names_its_places() {
    assert_eq!(SpanError::InvalidCharacter(0).message(), "invalid character at 0");
    assert_eq!(SpanError::InvalidCharacter(7).message(), "invalid character at 7");
    assert_eq!(SpanError::NumberExpected(10).message(), "expected number at 10");
    assert_eq!(SpanError::NumberExpected(4096).message(), "expected number at 4096");
    assert_eq!(SpanError::UnknownUnit(0, 0).message(), "unknown unit at 0-0");
    assert_eq!(SpanError::UnknownUnit(12, 345).message(), "unknown unit at 12-345");
    assert_eq!(
        SpanError::UnknownUnit(usize::MAX, usize::MAX).message(),
        format!("unknown unit at {}-{}", usize::MAX, usize::MAX)
    );
}

#[test]
fn a_copy_of_an_error_is_the_same_error() {
    let refused = ArgsConfig::build(&RawArgs { length: "abc", ..valid() }).unwrap().unwrap_err();
    assert_eq!(refused.clone(), refused);
    assert_eq!(refused.clone().message(), refused.message());
    for error in [
        ArgsConfigError::Receiver(EndpointError {}),
        ArgsConfigError::Sender(EndpointError {}),
        ArgsConfigError::Duration(SpanError::Empty),
        ArgsConfigError::Length(PacketLengthError::Overflow),
        ArgsConfigError::Length(PacketLengthError::Underflow),
        ArgsConfigError::Waiting(SpanError::NumberExpected(1)),
        ArgsConfigError::Periodicity(SpanError::UnknownUnit(2, 3)),
    ]
    .iter()
    {
        assert_eq!(&error.clone(), error);
    }
}
