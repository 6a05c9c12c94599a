use chatbot_core::mention::{mention_string, parse_mention, UserId};
use chatbot_core::FailureKind;

fn target(raw: &str) -> Result<u64, FailureKind> {
    parse_mention(raw).map(|id| id.get())
}

#[test]
fn plain_mention_gives_its_identifier() {
    assert_eq!(target("<@123>"), Ok(123));
    assert_eq!(target("<@1>"), Ok(1));
    assert_eq!(target("<@1290616138308386816>"), Ok(1290616138308386816));
}

#[test]
fn largest_identifier_is_read() {
    assert_eq!(target("<@18446744073709551615>"), Ok(u64::MAX));
}

#[test]
fn identifier_past_the_largest_is_malformed() {
    assert_eq!(target("<@18446744073709551616>"), Err(FailureKind::MalformedMention));
    assert_eq!(target("<@99999999999999999999999>"), Err(FailureKind::MalformedMention));
    assert_eq!(target("<@184467440737095516150>"), Err(FailureKind::MalformedMention));
}

#[test]
fn missing_marker_is_malformed() {
    for raw in ["", "<", "@", "123", "@123>", "<123>", "< @123>", " <@123>", "x<@123>", "<#123>"] {
        assert_eq!(target(raw), Err(FailureKind::MalformedMention), "{:?}", raw);
    }
}

#[test]
fn body_that_is_no_number_is_malformed() {
    for raw in [
        "<@>", "<@", "<@abc>", "<@12a>", "<@a12>", "<@ 12>", "<@12 >", "<@-1>", "<@!123>", "<@&5>",
        "<@1_000>", "<@0x10>", "<@1.5>", "<@+>", "<@+", "<@++1>", "<@1+>", "<@١٢٣>",
    ] {
        assert_eq!(target(raw), Err(FailureKind::MalformedMention), "{:?}", raw);
    }
}

#[test]
fn zero_is_no_identifier() {
    assert_eq!(target("<@0>"), Err(FailureKind::MalformedMention));
    assert_eq!(target("<@000>"), Err(FailureKind::MalformedMention));
    assert_eq!(target("<@+0>"), Err(FailureKind::MalformedMention));
    assert!(UserId::new(0).is_none());
}

#[test]
fn body_ends_at_the_first_closing_bracket() {
    assert_eq!(target("<@123>abc"), Ok(123));
    assert_eq!(target("<@123>>"), Ok(123));
    assert_eq!(target("<@12>34>"), Ok(12));
    assert_eq!(target("<@12<@34>"), Err(FailureKind::MalformedMention));
}

#[test]
fn unclosed_mention_runs_to_the_end() {
    assert_eq!(target("<@123"), Ok(123));
    assert_eq!(target("<@123x"), Err(FailureKind::MalformedMention));
}

#[test]
fn leading_sign_and_zeros_are_read() {
    assert_eq!(target("<@+5>"), Ok(5));
    assert_eq!(target("<@007>"), Ok(7));
    assert_eq!(target("<@+007"), Ok(7));
}

#[test]
fn written_mention_is_read_back() {
    for value in [1u64, 9, 10, 99, 100, 12345, 1290616138308386816, u64::MAX - 1, u64::MAX] {
        let id = UserId::new(value).unwrap();
        let written = mention_string(id);
        assert_eq!(written, format!("<@{}>", value));
        assert_eq!(parse_mention(&written), Ok(id));
        assert_eq!(parse_mention(&format!("{} please", written)), Ok(id));
    }
}

#[test]
fn identifier_keeps_its_number() {
    let id = UserId::new(42).unwrap();
    assert_eq!(id.get(), 42);
    assert_eq!(id, UserId::new(42).unwrap());
    assert_ne!(id, UserId::new(43).unwrap());
}

#[test]
fn bodies_are_read_as_the_platform_library_reads_them() {
    for body in [
        "1", "123", "007", "+5", "+", "", "0", "00", "-1", "12a", " 12", "12 ", "1_0", "١٢٣",
        "18446744073709551615", "18446744073709551616", "+18446744073709551615", "++1", "1+",
    ] {
        let expected = body.parse::<serenity::model::id::UserId>().ok().map(|id| id.get());
        let raw = format!("<@{}>", body);
        assert_eq!(target(&raw).ok(), expected, "{:?}", raw);
    }
}
