use chrono::TimeZone;
use watchfile::monitor::AlertKind;
use watchfile::monitor::Monitor;
use watchfile::notify::announce;
use watchfile::notify::built;
use watchfile::notify::compose;
use watchfile::notify::format_mailbox;
use watchfile::notify::notification;
use watchfile::notify::try_announce;
use watchfile::notify::EmailSettings;
use watchfile::notify::Notification;
use watchfile::notify::NotifyError;
use watchfile::notify::FOUR_DIGIT_YEAR_SECS;
use watchfile::notify::MAX_EPOCH_SECS;

fn local_time(epoch_secs: i64) -> String {
    chrono::Local
        .timestamp_opt(epoch_secs, 0)
        .unwrap()
        .format("%Y-%m-%d %H:%M:%S")
        .to_string()
}

fn settings() -> EmailSettings {
    EmailSettings {
        from_email_name: "Watchfile".to_string(),
        from_email_addr: "watch@example.com".to_string(),
        reply_to_email_name: "Nobody".to_string(),
        reply_to_email_addr: "noreply@example.com".to_string(),
        to_email_name: "Operator".to_string(),
        to_email_addr: "ops@example.org".to_string(),
        account_username: "watch@example.com".to_string(),
        account_password: "SECRET-REDACTED".to_string(),
        smtp_host: "smtp.example.com".to_string(),
    }
}

fn has_shape(text: &str) -> bool {
    let chars: Vec<char> = text.chars().collect();
    chars.len() == 19
        && chars.iter().enumerate().all(|(i, c)| match i {
            4 | 7 => *c == '-',
            10 => *c == ' ',
            13 | 16 => *c == ':',
            _ => c.is_ascii_digit(),
        })
}

#[test]
fn down_notification_has_its_subject_and_body() {
    let n = notification(AlertKind::Down, "2024-01-02 03:04:05");
    assert_eq!(n.subject, "Home Internet Service is Down!");
    assert_eq!(n.body, "Home internet down as of 2024-01-02 03:04:05");
}

#[test]
fn recovered_notification_has_its_subject_and_body() {
    let n = notification(AlertKind::Recovered, "2024-01-02 03:04:05");
    assert_eq!(n.subject, "Home Internet Service is Back Up!");
    assert_eq!(n.body, "Home internet is back up as of 2024-01-02 03:04:05");
}

#[test]
fn notification_with_empty_time_is_the_bare_prefix() {
    assert_eq!(notification(AlertKind::Down, "").body, "Home internet down as of ");
}

#[test]
fn announce_names_the_local_time_of_the_reading() {
    let n = announce(AlertKind::Down, 1000);
    assert_eq!(n.subject, "Home Internet Service is Down!");
    assert_eq!(n.body, format!("Home internet down as of {}", local_time(1000)));
    let m = announce(AlertKind::Recovered, 1_700_000_000);
    assert_eq!(m.body, format!("Home internet is back up as of {}", local_time(1_700_000_000)));
}

#[test]
fn announced_time_has_the_date_time_shape() {
    for t in [0, 1000, 86_399, 951_782_400, 1_700_000_000, FOUR_DIGIT_YEAR_SECS] {
        let n = announce(AlertKind::Down, t);
        let when = n.body.strip_prefix("Home internet down as of ").unwrap();
        assert!(has_shape(when));
        assert_ne!(when, t.to_string());
    }
}

#[test]
fn announce_reaches_the_end_of_the_calendar() {
    let n = announce(AlertKind::Down, MAX_EPOCH_SECS);
    assert!(n.body.starts_with("Home internet down as of +26214"));
}

#[test]
fn try_announce_refuses_what_has_no_date() {
    assert_eq!(try_announce(AlertKind::Down, MAX_EPOCH_SECS + 1), None);
    assert_eq!(try_announce(AlertKind::Recovered, u64::MAX), None);
    assert_eq!(try_announce(AlertKind::Down, 1000), Some(announce(AlertKind::Down, 1000)));
    assert!(try_announce(AlertKind::Down, MAX_EPOCH_SECS).is_some());
}

#[test]
fn down_alert_refers_to_local_time_of_epoch_1000() {
    let mut monitor = Monitor::new(1000);
    let kind = monitor.observe(1000).unwrap();
    let n = announce(kind, monitor.observed());
    assert_eq!(
        n,
        Notification {
            subject: "Home Internet Service is Down!".to_string(),
            body: format!("Home internet down as of {}", local_time(1000)),
        }
    );
}

#[test]
fn recovered_alert_follows_the_down_alert() {
    let mut monitor = Monitor::new(1000);
    monitor.observe(1000);
    let kind = monitor.observe(1050).unwrap();
    let n = announce(kind, monitor.observed());
    assert_eq!(n.subject, "Home Internet Service is Back Up!");
    assert_eq!(n.body, format!("Home internet is back up as of {}", local_time(1050)));
}

#[test]
fn mailbox_is_name_space_address_in_brackets() {
    assert_eq!(format_mailbox("Ann Lee", "ann@example.com"), "Ann Lee <ann@example.com>");
    assert_eq!(format_mailbox("", "a@b.c"), " <a@b.c>");
    assert_eq!(format_mailbox("x", ""), "x <>");
}

#[test]
fn compose_keeps_subject_and_body() {
    let n = notification(AlertKind::Down, "2024-01-02 03:04:05");
    let mail = compose(&settings(), &n).unwrap();
    assert_eq!(mail.subject, n.subject);
    assert_eq!(mail.body, n.body);
    assert_eq!(mail.from.email.to_string(), "watch@example.com");
    assert_eq!(mail.from.name.as_deref(), Some("Watchfile"));
    assert_eq!(mail.reply_to.email.to_string(), "noreply@example.com");
    assert_eq!(mail.to.email.to_string(), "ops@example.org");
}

#[test]
fn compose_names_the_first_mailbox_that_is_wrong() {
    let n = notification(AlertKind::Down, "now");
    let mut bad_sender = settings();
    bad_sender.from_email_addr = "not an address".to_string();
    bad_sender.to_email_addr = "neither".to_string();
    assert_eq!(compose(&bad_sender, &n).err(), Some(NotifyError::InvalidSender));
    let mut bad_reply = settings();
    bad_reply.reply_to_email_addr = "@".to_string();
    bad_reply.to_email_addr = "".to_string();
    assert_eq!(compose(&bad_reply, &n).err(), Some(NotifyError::InvalidReplyTo));
    let mut bad_recipient = settings();
    bad_recipient.to_email_addr = "ops".to_string();
    assert_eq!(compose(&bad_recipient, &n).err(), Some(NotifyError::InvalidRecipient));
}

#[test]
fn composed_mail_becomes_a_message_with_the_alert_in_it() {
    let n = notification(AlertKind::Recovered, "2024-01-02 03:04:05");
    let message = compose(&settings(), &n).unwrap().into_message().unwrap();
    let text = String::from_utf8(message.formatted()).unwrap();
    assert!(text.contains("Subject: Home Internet Service is Back Up!\r\n"));
    assert!(text.contains("From: Watchfile <watch@example.com>\r\n"));
    assert!(text.contains("Reply-To: Nobody <noreply@example.com>\r\n"));
    assert!(text.contains("To: Operator <ops@example.org>\r\n"));
    assert!(text.contains("Content-Type: text/plain"));
    assert!(text.ends_with("\r\n\r\nHome internet is back up as of 2024-01-02 03:04:05"));
    let envelope = message.envelope();
    assert_eq!(envelope.from().unwrap().to_string(), "watch@example.com");
    assert_eq!(envelope.to().len(), 1);
    assert_eq!(envelope.to()[0].to_string(), "ops@example.org");
}

#[test]
fn refusal_by_the_mail_library_is_reported_as_rejected() {
    assert_eq!(built(None).err(), Some(NotifyError::Rejected));
    let n = notification(AlertKind::Down, "now");
    let message = compose(&settings(), &n).unwrap().into_message().unwrap();
    let bytes = message.formatted();
    assert_eq!(built(Some(message)).unwrap().formatted(), bytes);
}
