//! The response planner: an ordered table of keyword rules, matched without
//! regard to case against what was heard. The first rule that matches decides
//! the reply; when none does, a fixed fallback is given.

use vstd::prelude::*;
use vstd::string::*;

verus! {

/// The lowercase form of `text`: what `str::to_lowercase` of the standard
/// library makes of it, by the Unicode lowercase mapping.
pub uninterp spec fn lowercase_of(text: Seq<char>) -> Seq<char>;

/// `needle` stands in `text` from position `at` on.
pub open spec fn occurs_at(needle: Seq<char>, text: Seq<char>, at: int) -> bool {
    &&& 0 <= at
    &&& at + needle.len() <= text.len()
    &&& text.subrange(at, at + needle.len()) == needle
}

/// `needle` stands somewhere in `text`.
pub open spec fn occurs_in(needle: Seq<char>, text: Seq<char>) -> bool {
    exists|at: int| occurs_at(needle, text, at)
}

/// What a transcript asks for, as far as the rules can tell.
#[derive(Clone, Copy, Debug, PartialEq, Eq, Structural)]
pub enum Intent {
    Greeting,
    TimeQuery,
    Unknown,
}

/// The keyword of the first rule.
pub open spec fn greeting_keyword() -> Seq<char> {
    "hello"@
}

/// The keyword of the second rule.
pub open spec fn time_keyword() -> Seq<char> {
    "time"@
}

/// The reply to a greeting.
pub open spec fn greeting_reply() -> Seq<char> {
    "Hello! How can I help?"@
}

/// What a time reply begins with; the time of day follows.
pub open spec fn time_reply_prefix() -> Seq<char> {
    "The current time is "@
}

/// The reply when no rule matches.
pub open spec fn fallback_reply() -> Seq<char> {
    "Sorry, I didn't understand."@
}

/// The rule table, read top to bottom on lowercase text: the first keyword
/// that occurs decides.
pub open spec fn intent_of(lowered: Seq<char>) -> Intent {
    if occurs_in(greeting_keyword(), lowered) {
        Intent::Greeting
    } else if occurs_in(time_keyword(), lowered) {
        Intent::TimeQuery
    } else {
        Intent::Unknown
    }
}

pub open spec fn is_digit(c: char) -> bool {
    '0' <= c <= '9'
}

/// The number that two decimal digits write.
pub open spec fn two_digit_value(tens: char, ones: char) -> int {
    (tens as int - '0' as int) * 10 + (ones as int - '0' as int)
}

/// `clock` is a time of day written as `HH:MM:SS`: two digits each, hours up
/// to 23, minutes up to 59, seconds up to 60 (a leap second).
pub open spec fn is_clock_text(clock: Seq<char>) -> bool {
    &&& clock.len() == 8
    &&& is_digit(clock[0]) && is_digit(clock[1]) && clock[2] == ':'
    &&& is_digit(clock[3]) && is_digit(clock[4]) && clock[5] == ':'
    &&& is_digit(clock[6]) && is_digit(clock[7])
    &&& two_digit_value(clock[0], clock[1]) <= 23
    &&& two_digit_value(clock[3], clock[4]) <= 59
    &&& two_digit_value(clock[6], clock[7]) <= 60
}

/// The reply that `intent` gets when the clock reads `clock`.
pub open spec fn reply_text(intent: Intent, clock: Seq<char>) -> Seq<char> {
    match intent {
        Intent::Greeting => greeting_reply(),
        Intent::TimeQuery => time_reply_prefix() + clock,
        Intent::Unknown => fallback_reply(),
    }
}

/// `reply` tells a time of day: the fixed opening, then `HH:MM:SS`.
pub open spec fn is_time_reply(reply: Seq<char>) -> bool {
    let opening = time_reply_prefix().len() as int;
    &&& reply.len() >= opening
    &&& reply.subrange(0, opening) == time_reply_prefix()
    &&& is_clock_text(reply.subrange(opening, reply.len() as int))
}

/// `reply` is an answer that the rules allow to `text`.
pub open spec fn is_reply_to(text: Seq<char>, reply: Seq<char>) -> bool {
    match intent_of(lowercase_of(text)) {
        Intent::Greeting => reply == greeting_reply(),
        Intent::TimeQuery => is_time_reply(reply),
        Intent::Unknown => reply == fallback_reply(),
    }
}

/// Calls `str::to_lowercase` of the standard library. The result is claimed
/// to be the lowercase form of the text and nothing more: it depends on the
/// text alone, and what it is on a given text is left to the library.
#[verifier::external_body]
fn lowercase(text: &str) -> (lowered: String)
    ensures
        lowered@ == lowercase_of(text@),
{
    text.to_lowercase()
}

/// Calls `str::contains` of the standard library with a string as pattern,
/// which is true exactly when the pattern matches a sub-slice of the text.
#[verifier::external_body]
fn contains_text(text: &str, needle: &str) -> (found: bool)
    ensures
        found == occurs_in(needle@, text@),
{
    text.contains(needle)
}

/// Reads the clock with `std::time::SystemTime::now`, takes it as a UTC time
/// through chrono's `DateTime::<Utc>::from`, which also accepts a clock that
/// stands before 1970, and writes the time of day with chrono's
/// `format("%H:%M:%S")`: hour (00 to 23), minute (00 to 59) and second
/// (00 to 60), each zero-padded to two digits, with colons between. Only
/// this form is claimed, not which time it is: two calls may differ.
#[verifier::external_body]
fn utc_clock_text() -> (clock: String)
    ensures
        is_clock_text(clock@),
{
    chrono::DateTime::<chrono::Utc>::from(std::time::SystemTime::now())
        .format("%H:%M:%S")
        .to_string()
}

/// Reads the rule table on text that is already lowercase.
pub fn classify(lowered: &str) -> (intent: Intent)
    ensures
        intent == intent_of(lowered@),
{
    if contains_text(lowered, "hello") {
        Intent::Greeting
    } else if contains_text(lowered, "time") {
        Intent::TimeQuery
    } else {
        Intent::Unknown
    }
}

/// Writes the reply for `intent`; `clock` is the time of day to tell and
/// matters to a time query only.
pub fn reply_for(intent: Intent, clock: &str) -> (reply: String)
    ensures
        reply@ == reply_text(intent, clock@),
{
    match intent {
        Intent::Greeting => "Hello! How can I help?".to_string(),
        Intent::TimeQuery => "The current time is ".to_string().concat(clock),
        Intent::Unknown => "Sorry, I didn't understand.".to_string(),
    }
}

/// Answers a transcript. A greeting is returned whenever the text holds
/// "hello" in any case, also beside other keywords; else the time of day
/// when it holds "time"; else the fallback.
pub fn process_command(text: &str) -> (reply: String)
    ensures
        is_reply_to(text@, reply@),
        occurs_in(greeting_keyword(), lowercase_of(text@)) ==> reply@ == greeting_reply(),
        !occurs_in(greeting_keyword(), lowercase_of(text@)) && occurs_in(
            time_keyword(),
            lowercase_of(text@),
        ) ==> is_time_reply(reply@),
        !occurs_in(greeting_keyword(), lowercase_of(text@)) && !occurs_in(
            time_keyword(),
            lowercase_of(text@),
        ) ==> reply@ == fallback_reply(),
{
    let lowered: String = lowercase(text);
    let intent: Intent = classify(lowered.as_str());
    match intent {
        Intent::TimeQuery => {
            let clock: String = utc_clock_text();
            let reply: String = reply_for(intent, clock.as_str());
            proof {
                lemma_time_reply(clock@);
            }
            reply
        },
        _ => reply_for(intent, ""),
    }
}

/// The rules are read in order. Text that holds the greeting keyword is a
/// greeting whatever else it holds, the time keyword too; the time keyword
/// decides only where the greeting keyword is missing; and the fallback is
/// for text that holds neither.
pub proof fn law_first_rule_wins(lowered: Seq<char>)
    ensures
        intent_of(lowered) is Greeting <==> occurs_in(greeting_keyword(), lowered),
        occurs_in(greeting_keyword(), lowered) && occurs_in(time_keyword(), lowered)
            ==> intent_of(lowered) is Greeting,
        intent_of(lowered) is TimeQuery <==> !occurs_in(greeting_keyword(), lowered) && occurs_in(
            time_keyword(),
            lowered,
        ),
        intent_of(lowered) is Unknown <==> !occurs_in(greeting_keyword(), lowered) && !occurs_in(
            time_keyword(),
            lowered,
        ),
{
}

/// Every reply is one of three: the greeting, the fallback, or the time of
/// day behind its fixed opening. Only the last depends on the clock.
pub proof fn law_replies_are_fixed_but_for_the_time(intent: Intent, clock: Seq<char>)
    requires
        is_clock_text(clock),
    ensures
        intent is Greeting ==> reply_text(intent, clock) == greeting_reply(),
        intent is Unknown ==> reply_text(intent, clock) == fallback_reply(),
        intent is TimeQuery ==> is_time_reply(reply_text(intent, clock)),
{
    lemma_time_reply(clock);
}

/// The time reply for a well-formed clock text is a well-formed time reply.
proof fn lemma_time_reply(clock: Seq<char>)
    requires
        is_clock_text(clock),
    ensures
        is_time_reply(reply_text(Intent::TimeQuery, clock)),
{
    let opening = time_reply_prefix();
    let reply = opening + clock;
    assert(reply.subrange(0, opening.len() as int) =~= opening);
    assert(reply.subrange(opening.len() as int, reply.len() as int) =~= clock);
}

} // verus!
