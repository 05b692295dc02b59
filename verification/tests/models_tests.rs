use securechat::error::PipelineError;
use securechat::models::email::{validate_email_str, Email, EmailError};
use securechat::models::message::MessageContent;
use securechat::models::password::PlainPassword;
use securechat::models::username::Username;
use securechat::text::{is_whitespace, trim_str};

fn validation(msg: &str) -> PipelineError {
    PipelineError::Validation(msg.to_string())
}

#[test]
fn username_is_trimmed() {
    let u = Username::parse("  alice_01 ".to_string()).unwrap();
    assert_eq!(u.as_str(), "alice_01");
}

#[test]
fn username_length_bounds() {
    let too_short = Username::parse("ab".to_string());
    assert_eq!(too_short, Err(validation("username must be 3\u{2013}32 characters")));
    assert!(Username::parse("abc".to_string()).is_ok());
    assert!(Username::parse("a".repeat(32)).is_ok());
    let too_long = Username::parse("a".repeat(33));
    assert_eq!(too_long, Err(validation("username must be 3\u{2013}32 characters")));
    // trimming happens before the length check
    assert!(Username::parse("   ab   ".to_string()).is_err());
}

#[test]
fn username_length_is_in_bytes() {
    // eleven 3-byte characters are 33 bytes
    let long = "\u{4e2d}".repeat(11);
    assert!(Username::parse(long).is_err());
    // ten of them are 30 bytes
    let fits = "\u{4e2d}".repeat(10);
    assert!(Username::parse(fits).is_ok());
}

#[test]
fn username_characters() {
    assert_eq!(
        Username::parse("bad name".to_string()),
        Err(validation("username may only contain letters, digits, underscores, or hyphens"))
    );
    assert!(Username::parse("bad!".to_string()).is_err());
    assert!(Username::parse("good-name_9".to_string()).is_ok());
    assert!(Username::parse("\u{e9}lan".to_string()).is_ok());
}

#[test]
fn username_reparses_to_itself() {
    let u = Username::parse(" Bob-7 ".to_string()).unwrap();
    let again = Username::parse(u.as_str().to_string()).unwrap();
    assert_eq!(again, u);
    assert_eq!(u.clone(), u);
}

#[test]
fn email_is_trimmed_and_lowercased() {
    let e = Email::try_new("  Alice@Example.COM ".to_string()).unwrap();
    assert_eq!(e.as_str(), "alice@example.com");
    assert_eq!(e.clone().as_str(), "alice@example.com");
}

#[test]
fn email_rejections() {
    assert_eq!(Email::try_new("no-at-sign".to_string()), Err(EmailError::PredicateViolated));
    assert_eq!(Email::try_new("a@.com".to_string()), Err(EmailError::PredicateViolated));
    assert_eq!(Email::try_new("a@com.".to_string()), Err(EmailError::PredicateViolated));
    assert_eq!(Email::try_new("a@com".to_string()), Err(EmailError::PredicateViolated));
    assert_eq!(Email::try_new("a@".to_string()), Err(EmailError::PredicateViolated));
    assert_eq!(EmailError::PredicateViolated.message(), "Email failed the predicate test.");
}

#[test]
fn email_domain_is_after_first_at() {
    // the domain of "a@b@c.d" is "b@c.d": it holds a dot
    assert!(validate_email_str("a@b@c.d"));
    // the domain of "a@b.c@d" is "b.c@d"
    assert!(validate_email_str("a@b.c@d"));
    assert!(!validate_email_str("a@bc@d"));
}

#[test]
fn email_length_limit() {
    let local = "a".repeat(250);
    let ok = format!("{local}@b.c"); // 254 bytes
    assert_eq!(ok.len(), 254);
    assert!(validate_email_str(&ok));
    let long = format!("{local}a@b.c"); // 255 bytes
    assert!(!validate_email_str(&long));
    // the limit counts the trimmed text
    assert!(validate_email_str(&format!("  {ok}  ")));
}

#[test]
fn message_rules() {
    assert_eq!(
        MessageContent::parse("   \n\t".to_string()),
        Err(validation("message cannot be empty"))
    );
    assert_eq!(MessageContent::parse(String::new()), Err(validation("message cannot be empty")));
    let m = MessageContent::parse("  hello ".to_string()).unwrap();
    assert_eq!(m.as_str(), "  hello ");
    assert!(MessageContent::parse("a".repeat(4096)).is_ok());
    assert_eq!(
        MessageContent::parse("a".repeat(4097)),
        Err(validation("message exceeds 4096 bytes"))
    );
    // 2049 two-byte characters are 4098 bytes
    assert!(MessageContent::parse("\u{e9}".repeat(2049)).is_err());
}

#[test]
fn message_reparses_to_itself() {
    let m = MessageContent::parse("hi there".to_string()).unwrap();
    assert_eq!(MessageContent::parse(m.as_str().to_string()).unwrap(), m);
    assert_eq!(m.clone(), m);
}

#[test]
fn password_hash_form() {
    let p = PlainPassword::new("hunter2".to_string());
    assert_eq!(p.as_str(), "hunter2");
    assert_eq!(p.hash().as_str(), "hashed:hunter2");
}

#[test]
fn whitespace_and_trim() {
    assert!(is_whitespace(' '));
    assert!(is_whitespace('\u{3000}'));
    assert!(is_whitespace('\u{85}'));
    assert!(!is_whitespace('x'));
    assert!(!is_whitespace('\u{200b}'));
    for c in ['\t', '\n', '\u{b}', '\u{c}', '\r', '\u{a0}', '\u{1680}', '\u{2000}', '\u{2028}'] {
        assert_eq!(is_whitespace(c), c.is_whitespace());
    }
    assert_eq!(trim_str("\u{2003} a b \n"), "a b");
    assert_eq!(trim_str("   "), "");
    assert_eq!(trim_str("x"), "x");
}
