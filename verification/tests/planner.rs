use voice_assistant::planner::classify;
use voice_assistant::planner::process_command;
use voice_assistant::planner::reply_for;
use voice_assistant::planner::Intent;
use voice_assistant::transcript::Transcript;

fn is_clock(text: &str) -> bool {
    let bytes = text.as_bytes();
    if bytes.len() != 8 || bytes[2] != b':' || bytes[5] != b':' {
        return false;
    }
    let mut values = [0u32; 3];
    for (slot, at) in [0usize, 3, 6].iter().enumerate() {
        let tens = bytes[*at];
        let ones = bytes[*at + 1];
        if !tens.is_ascii_digit() || !ones.is_ascii_digit() {
            return false;
        }
        values[slot] = u32::from(tens - b'0') * 10 + u32::from(ones - b'0');
    }
    values[0] <= 23 && values[1] <= 59 && values[2] <= 60
}

#[test]
fn test_process_command_hello() {
    assert_eq!(process_command("hello"), "Hello! How can I help?");
}

#[test]
fn test_process_command_unknown() {
    assert_eq!(process_command("unknown"), "Sorry, I didn't understand.");
}

#[test]
fn greeting_is_found_in_any_case() {
    assert_eq!(process_command("HELLO"), "Hello! How can I help?");
    assert_eq!(process_command("Well, HeLLo there"), "Hello! How can I help?");
    assert_eq!(process_command("othello"), "Hello! How can I help?");
}

#[test]
fn time_query_tells_the_time_of_day() {
    let reply = process_command("what time is it");
    let clock = reply.strip_prefix("The current time is ");
    assert!(clock.is_some());
    assert!(is_clock(clock.unwrap()));
}

#[test]
fn time_query_is_found_in_any_case() {
    let reply = process_command("TIME, please");
    assert!(reply.starts_with("The current time is "));
    assert_eq!(reply.len(), "The current time is ".len() + 8);
}

#[test]
fn greeting_comes_before_time() {
    assert_eq!(process_command("hello, what time is it"), "Hello! How can I help?");
    assert_eq!(process_command("what time is it? hello?"), "Hello! How can I help?");
}

#[test]
fn nothing_matched_gives_the_fallback() {
    assert_eq!(process_command(""), "Sorry, I didn't understand.");
    assert_eq!(process_command("hell o"), "Sorry, I didn't understand.");
    assert_eq!(process_command("tim e"), "Sorry, I didn't understand.");
}

#[test]
fn classify_reads_the_rules_in_order() {
    assert_eq!(classify("hello"), Intent::Greeting);
    assert_eq!(classify("time"), Intent::TimeQuery);
    assert_eq!(classify("time to say hello"), Intent::Greeting);
    assert_eq!(classify("good morning"), Intent::Unknown);
    assert_eq!(classify(""), Intent::Unknown);
}

#[test]
fn classify_expects_lowercase_text() {
    assert_eq!(classify("HELLO"), Intent::Unknown);
    assert_eq!(classify("Time"), Intent::Unknown);
}

#[test]
fn reply_for_writes_each_reply() {
    assert_eq!(reply_for(Intent::Greeting, "09:05:03"), "Hello! How can I help?");
    assert_eq!(reply_for(Intent::TimeQuery, "09:05:03"), "The current time is 09:05:03");
    assert_eq!(reply_for(Intent::TimeQuery, "23:59:60"), "The current time is 23:59:60");
    assert_eq!(reply_for(Intent::Unknown, "09:05:03"), "Sorry, I didn't understand.");
}

#[test]
fn transcript_joins_its_pieces_in_order() {
    let pieces =
        vec![" what".to_string(), " time".to_string(), String::new(), " is it".to_string()];
    let transcript = Transcript::from_pieces(&pieces);
    assert_eq!(transcript.text, " what time is it");
    assert_eq!(transcript.pieces, 4);
}

#[test]
fn transcript_of_no_pieces_is_empty() {
    let transcript = Transcript::from_pieces(&Vec::new());
    assert_eq!(transcript.text, "");
    assert_eq!(transcript.pieces, 0);
}
