//! What holds of every outcome of building a configuration.

use vstd::prelude::*;

use crate::config::{outcome, ArgsConfigError, ConfigView, RawText};
use crate::duration::{duration_of_text, is_readable, largest_number, span_count, span_of_text};
use crate::duration::SECOND;
use crate::endpoint::endpoint_of_text;
use crate::length::{decimal_value, is_decimal, length_of_text, lemma_decimal_text};
use crate::text::decimal_text;
use crate::length::{MAX_PACKET_LENGTH, MIN_PACKET_LENGTH};

verus! {

/// Whether a span text is read and accepted: it can be read, and it is
/// read as a span.
pub open spec fn span_accepted(text: Seq<char>) -> bool {
    span_of_text(text) matches Some(Ok(_))
}

/// Only a text that counts up to `u64::MAX` seconds and one second more in
/// nanoseconds, with no number beyond `u64::MAX` in it, cannot be read.
pub proof fn lemma_unreadable_spans_end_the_count(text: Seq<char>)
    requires
        !is_readable(text),
    ensures
        span_count(text) == (u64::MAX as nat, SECOND as nat),
        largest_number(text) <= u64::MAX,
{
}

/// Where each of the three spans can be read, building has an outcome: the
/// configuration where each of the six settings is accepted by its reader,
/// and an error else.
pub proof fn lemma_readable_spans_have_an_outcome(raw: RawText)
    requires
        is_readable(raw.duration),
        is_readable(raw.waiting),
        is_readable(raw.periodicity),
    ensures
        outcome(raw) is Some,
        outcome(raw) matches Some(Ok(_)) <==> {
            &&& length_of_text(raw.length) is Ok
            &&& endpoint_of_text(raw.receiver) is Ok
            &&& endpoint_of_text(raw.sender) is Ok
            &&& duration_of_text(raw.duration) is Ok
            &&& duration_of_text(raw.waiting) is Ok
            &&& duration_of_text(raw.periodicity) is Ok
        },
{
}

/// Whether each of the six settings is accepted when it is read alone.
pub open spec fn all_accepted(raw: RawText) -> bool {
    &&& length_of_text(raw.length) is Ok
    &&& endpoint_of_text(raw.receiver) is Ok
    &&& endpoint_of_text(raw.sender) is Ok
    &&& span_accepted(raw.duration)
    &&& span_accepted(raw.waiting)
    &&& span_accepted(raw.periodicity)
}

/// Every length from [`MIN_PACKET_LENGTH`] to [`MAX_PACKET_LENGTH`] is
/// accepted and kept: where the length text spells such a number and the
/// other five settings are accepted, a configuration is built, and its length
/// is that number.
pub proof fn lemma_length_in_range_is_kept(raw: RawText, n: nat)
    requires
        is_decimal(raw.length),
        decimal_value(raw.length) == n,
        MIN_PACKET_LENGTH <= n <= MAX_PACKET_LENGTH,
        endpoint_of_text(raw.receiver) is Ok,
        endpoint_of_text(raw.sender) is Ok,
        span_accepted(raw.duration),
        span_accepted(raw.waiting),
        span_accepted(raw.periodicity),
    ensures
        outcome(raw) matches Some(Ok(config)) && config.length == n,
{
}

/// The same of a length written in the plain way, without sign or leading
/// zeros: each number from [`MIN_PACKET_LENGTH`] to [`MAX_PACKET_LENGTH`]
/// comes back as the length of the configuration.
pub proof fn lemma_plain_length_is_kept(raw: RawText, n: nat)
    requires
        raw.length == decimal_text(n),
        MIN_PACKET_LENGTH <= n <= MAX_PACKET_LENGTH,
        endpoint_of_text(raw.receiver) is Ok,
        endpoint_of_text(raw.sender) is Ok,
        span_accepted(raw.duration),
        span_accepted(raw.waiting),
        span_accepted(raw.periodicity),
    ensures
        outcome(raw) matches Some(Ok(config)) && config.length == n,
{
    lemma_decimal_text(n);
    lemma_length_in_range_is_kept(raw, n);
}

/// The length is checked first: where it is refused, the outcome is its
/// error, whatever the other five settings are, also where the receiver
/// would be refused too.
pub proof fn lemma_length_is_checked_first(raw: RawText)
    requires
        length_of_text(raw.length) is Err,
    ensures
        outcome(raw) == Some(
            Err::<ConfigView, ArgsConfigError>(
                ArgsConfigError::Length(length_of_text(raw.length)->Err_0),
            ),
        ),
{
}

/// A configuration is built exactly when each of the six settings is
/// accepted, and it then holds what each setting stands for: the endpoints,
/// the spans and the length as they were read.
pub proof fn lemma_built_from_what_was_read(raw: RawText)
    ensures
        outcome(raw) matches Some(Ok(_)) <==> all_accepted(raw),
        all_accepted(raw) ==> outcome(raw) == Some(
            Ok::<ConfigView, ArgsConfigError>(
                ConfigView {
                    receiver: endpoint_of_text(raw.receiver)->Ok_0,
                    sender: endpoint_of_text(raw.sender)->Ok_0,
                    duration: span_of_text(raw.duration)->Some_0->Ok_0,
                    length: length_of_text(raw.length)->Ok_0,
                    waiting: span_of_text(raw.waiting)->Some_0->Ok_0,
                    periodicity: span_of_text(raw.periodicity)->Some_0->Ok_0,
                },
            ),
        ),
{
}

/// The length of every configuration that is built lies in the accepted
/// range.
pub proof fn lemma_built_length_in_range(raw: RawText)
    ensures
        outcome(raw) matches Some(Ok(config)) ==> MIN_PACKET_LENGTH <= config.length
            <= MAX_PACKET_LENGTH,
{
}

/// Of the settings that are refused, the first one in the order length,
/// receiver, sender, duration, waiting, periodicity decides the error: an
/// error for one setting says that every setting before it was accepted.
pub proof fn lemma_first_refusal_decides(raw: RawText)
    ensures
        outcome(raw) matches Some(Err(ArgsConfigError::Receiver(_))) ==> length_of_text(
            raw.length,
        ) is Ok,
        outcome(raw) matches Some(Err(ArgsConfigError::Sender(_))) ==> length_of_text(raw.length)
            is Ok && endpoint_of_text(raw.receiver) is Ok,
        outcome(raw) matches Some(Err(ArgsConfigError::Duration(_))) ==> length_of_text(
            raw.length,
        ) is Ok && endpoint_of_text(raw.receiver) is Ok && endpoint_of_text(raw.sender) is Ok,
        outcome(raw) matches Some(Err(ArgsConfigError::Waiting(_))) ==> length_of_text(raw.length)
            is Ok && endpoint_of_text(raw.receiver) is Ok && endpoint_of_text(raw.sender) is Ok
            && span_accepted(raw.duration),
        outcome(raw) matches Some(Err(ArgsConfigError::Periodicity(_))) ==> length_of_text(
            raw.length,
        ) is Ok && endpoint_of_text(raw.receiver) is Ok && endpoint_of_text(raw.sender) is Ok
            && span_accepted(raw.duration) && span_accepted(raw.waiting),
{
}

} // verus!
