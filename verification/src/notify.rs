//! The notifier: what an alert says, and the message that carries it to the
//! mail relay.
//!
//! Composing is done here; handing the message to the relay is left to the
//! caller, who logs a failure and goes on. Nothing in this module can stop
//! the monitor.

use crate::monitor::AlertKind;
use lettre::message::Mailbox;
use lettre::Message;
use vstd::prelude::*;
use vstd::string::*;

verus! {

/// The last timestamp, in seconds since the epoch, that can be turned into a
/// calendar date: the end of the year 262142.
pub const MAX_EPOCH_SECS: u64 = 8_210_266_876_799;

/// The last timestamp whose local date has a year of four digits whatever the
/// time zone: midnight before the last day of the year 9999.
pub const FOUR_DIGIT_YEAR_SECS: u64 = 253_402_214_400;

/// A subject and a body, ready to be sent.
#[derive(Clone, Debug, PartialEq, Eq)]
pub struct Notification {
    pub subject: String,
    pub body: String,
}

/// Who sends the alerts, who gets them, and through which relay account.
#[derive(Clone, Debug, PartialEq, Eq)]
pub struct EmailSettings {
    pub from_email_name: String,
    pub from_email_addr: String,
    pub reply_to_email_name: String,
    pub reply_to_email_addr: String,
    pub to_email_name: String,
    pub to_email_addr: String,
    pub account_username: String,
    pub account_password: String,
    pub smtp_host: String,
}

/// Why no message could be composed.
#[derive(Clone, Copy, Debug, PartialEq, Eq, Structural)]
pub enum NotifyError {
    /// The sender's name and address do not make a mailbox.
    InvalidSender,
    /// The reply-to name and address do not make a mailbox.
    InvalidReplyTo,
    /// The recipient's name and address do not make a mailbox.
    InvalidRecipient,
    /// The mail library refused to build the message.
    Rejected,
}

/// The subject line of an alert.
pub open spec fn subject_text(kind: AlertKind) -> Seq<char> {
    match kind {
        AlertKind::Down => "Home Internet Service is Down!"@,
        AlertKind::Recovered => "Home Internet Service is Back Up!"@,
    }
}

/// What the body of an alert says before it names the time.
pub open spec fn body_prefix(kind: AlertKind) -> Seq<char> {
    match kind {
        AlertKind::Down => "Home internet down as of "@,
        AlertKind::Recovered => "Home internet is back up as of "@,
    }
}

/// A mailbox as it is written in a header: the display name, a space, and
/// the address in angle brackets.
pub open spec fn mailbox_text(name: Seq<char>, addr: Seq<char>) -> Seq<char> {
    name + " <"@ + addr + ">"@
}

/// Whether `c` is one of the ten decimal digits.
pub open spec fn is_digit(c: char) -> bool {
    '0' <= c && c <= '9'
}

/// Whether `s` has the shape `YYYY-MM-DD HH:MM:SS`.
pub open spec fn is_datetime_text(s: Seq<char>) -> bool {
    &&& s.len() == 19
    &&& forall|i: int|
        0 <= i < 19 ==> if i == 4 || i == 7 {
            #[trigger] s[i] == '-'
        } else if i == 10 {
            s[i] == ' '
        } else if i == 13 || i == 16 {
            s[i] == ':'
        } else {
            is_digit(s[i])
        }
}

/// The subject and body of an alert of `kind` that happened at the time
/// written as `when`.
pub fn notification(kind: AlertKind, when: &str) -> (n: Notification)
    ensures
        n.subject@ == subject_text(kind),
        n.body@ == body_prefix(kind) + when@,
{
    let (subject, prefix) = match kind {
        AlertKind::Down => ("Home Internet Service is Down!", "Home internet down as of "),
        AlertKind::Recovered => (
            "Home Internet Service is Back Up!",
            "Home internet is back up as of ",
        ),
    };
    let mut body = String::from_str(prefix);
    body.append(when);
    Notification { subject: String::from_str(subject), body }
}

/// The local date and time of a timestamp, by `chrono`: the timestamp goes
/// through `DateTime::<Utc>::from`, `with_timezone(&Local)` and
/// `format("%Y-%m-%d %H:%M:%S")`. Timestamps beyond the calendar that chrono
/// can hold are left out, since the conversion panics on them. The result
/// depends on the time zone of the machine, so nothing is claimed of its
/// value but its shape: while the year has four digits, it is made of the
/// zero-padded fields and their separators. The local time is never more
/// than a day away from the timestamp, which is why the bound on the year
/// can be given in seconds. The claim rests on a time-zone database that
/// chrono can read; chrono panics on one whose offsets it cannot represent.
#[verifier::external_body]
pub(crate) fn unix_epoch_to_local_datetime_string(epoch_secs: u64) -> (text: String)
    requires
        epoch_secs <= MAX_EPOCH_SECS,
    ensures
        epoch_secs <= FOUR_DIGIT_YEAR_SECS ==> is_datetime_text(text@),
{
    let utc_datetime = chrono::DateTime::<chrono::Utc>::from(
        std::time::UNIX_EPOCH + std::time::Duration::from_secs(epoch_secs),
    );
    let local_datetime = utc_datetime.with_timezone(&chrono::Local);
    local_datetime.format("%Y-%m-%d %H:%M:%S").to_string()
}

/// The alert of `kind` for the reading `epoch_secs`: its body names the
/// local time of that reading.
pub fn announce(kind: AlertKind, epoch_secs: u64) -> (n: Notification)
    requires
        epoch_secs <= MAX_EPOCH_SECS,
    ensures
        n.subject@ == subject_text(kind),
        n.body@.len() >= body_prefix(kind).len(),
        n.body@.take(body_prefix(kind).len() as int) == body_prefix(kind),
        epoch_secs <= FOUR_DIGIT_YEAR_SECS ==> is_datetime_text(
            n.body@.skip(body_prefix(kind).len() as int),
        ),
{
    let when = unix_epoch_to_local_datetime_string(epoch_secs);
    let n = notification(kind, when.as_str());
    proof {
        let prefix = body_prefix(kind);
        assert(n.body@.take(prefix.len() as int) =~= prefix);
        assert(n.body@.skip(prefix.len() as int) =~= when@);
    }
    n
}

/// The alert for a reading that no calendar date can be given to is not
/// composed: `None`. Otherwise as `announce`.
pub fn try_announce(kind: AlertKind, epoch_secs: u64) -> (r: Option<Notification>)
    ensures
        r is Some <==> epoch_secs <= MAX_EPOCH_SECS,
        r matches Some(n) ==> {
            &&& n.subject@ == subject_text(kind)
            &&& n.body@.len() >= body_prefix(kind).len()
            &&& n.body@.take(body_prefix(kind).len() as int) == body_prefix(kind)
            &&& epoch_secs <= FOUR_DIGIT_YEAR_SECS ==> is_datetime_text(
                n.body@.skip(body_prefix(kind).len() as int),
            )
        },
{
    if epoch_secs <= MAX_EPOCH_SECS {
        Some(announce(kind, epoch_secs))
    } else {
        None
    }
}

/// Writes a mailbox out as `name <addr>`.
pub fn format_mailbox(name: &str, addr: &str) -> (text: String)
    ensures
        text@ == mailbox_text(name@, addr@),
{
    let mut text = String::from_str(name);
    text.append(" <");
    text.append(addr);
    text.append(">");
    text
}

/// `lettre::message::Mailbox`, a parsed display name and address. Opaque.
#[verifier::external_type_specification]
#[verifier::external_body]
pub struct ExMailbox(Mailbox);

/// `lettre::Message`, a complete message with headers and body. Opaque.
#[verifier::external_type_specification]
#[verifier::external_body]
pub struct ExMessage(Message);

/// Whether lettre's parser takes `text` for a mailbox.
pub uninterp spec fn mailbox_parses(text: Seq<char>) -> bool;

/// Parses a mailbox with lettre's `Mailbox::from_str`. Whether it succeeds
/// is a function of the text alone; the contract gives it a name and says
/// nothing of what the parsed mailbox holds.
#[verifier::external_body]
fn parse_mailbox(text: &str) -> (r: Option<Mailbox>)
    ensures
        r is Some <==> mailbox_parses(text@),
{
    text.parse::<Mailbox>().ok()
}

/// A message that is ready to be built: three parsed mailboxes and the text.
pub struct OutgoingMail {
    pub from: Mailbox,
    pub reply_to: Mailbox,
    pub to: Mailbox,
    pub subject: String,
    pub body: String,
}

/// What `compose` returns for given settings: the first mailbox that does
/// not parse decides the error, in the order sender, reply-to, recipient.
pub open spec fn compose_error(settings: EmailSettings) -> Option<NotifyError> {
    if !mailbox_parses(mailbox_text(settings.from_email_name@, settings.from_email_addr@)) {
        Some(NotifyError::InvalidSender)
    } else if !mailbox_parses(
        mailbox_text(settings.reply_to_email_name@, settings.reply_to_email_addr@),
    ) {
        Some(NotifyError::InvalidReplyTo)
    } else if !mailbox_parses(mailbox_text(settings.to_email_name@, settings.to_email_addr@)) {
        Some(NotifyError::InvalidRecipient)
    } else {
        None
    }
}

/// Puts a notification together with the mailboxes of the settings.
pub fn compose(settings: &EmailSettings, notification: &Notification) -> (r: Result<
    OutgoingMail,
    NotifyError,
>)
    ensures
        match r {
            Ok(mail) => compose_error(*settings) is None && mail.subject@ == notification.subject@
                && mail.body@ == notification.body@,
            Err(e) => compose_error(*settings) == Some(e),
        },
{
    let from_text = format_mailbox(
        settings.from_email_name.as_str(),
        settings.from_email_addr.as_str(),
    );
    let from = match parse_mailbox(from_text.as_str()) {
        Some(m) => m,
        None => { return Err(NotifyError::InvalidSender); },
    };
    let reply_text = format_mailbox(
        settings.reply_to_email_name.as_str(),
        settings.reply_to_email_addr.as_str(),
    );
    let reply_to = match parse_mailbox(reply_text.as_str()) {
        Some(m) => m,
        None => { return Err(NotifyError::InvalidReplyTo); },
    };
    let to_text = format_mailbox(
        settings.to_email_name.as_str(),
        settings.to_email_addr.as_str(),
    );
    let to = match parse_mailbox(to_text.as_str()) {
        Some(m) => m,
        None => { return Err(NotifyError::InvalidRecipient); },
    };
    Ok(
        OutgoingMail {
            from,
            reply_to,
            to,
            subject: notification.subject.clone(),
            body: notification.body.clone(),
        },
    )
}

/// Builds the message with lettre's `Message::builder`: sender, reply-to,
/// recipient, subject, the plain-text content type, and the body. The
/// builder stamps the message with the current date, so two calls need not
/// agree, and nothing is claimed of the result.
#[verifier::external_body]
fn build_message(mail: OutgoingMail) -> (r: Option<Message>) {
    Message::builder()
        .from(mail.from)
        .reply_to(mail.reply_to)
        .to(mail.to)
        .subject(mail.subject)
        .header(lettre::message::header::ContentType::TEXT_PLAIN)
        .body(mail.body)
        .ok()
}

/// What `into_message` returns once the mail library has answered.
pub fn built(answer: Option<Message>) -> (r: Result<Message, NotifyError>)
    ensures
        match answer {
            Some(m) => r == Ok::<Message, NotifyError>(m),
            None => r == Err::<Message, NotifyError>(NotifyError::Rejected),
        },
{
    match answer {
        Some(m) => Ok(m),
        None => Err(NotifyError::Rejected),
    }
}

impl OutgoingMail {
    /// Builds the message that goes to the relay. A refusal by the mail
    /// library is the one way this can fail.
    pub fn into_message(self) -> (r: Result<Message, NotifyError>)
        ensures
            r is Err ==> r == Err::<Message, NotifyError>(NotifyError::Rejected),
    {
        built(build_message(self))
    }
}

} // verus!
