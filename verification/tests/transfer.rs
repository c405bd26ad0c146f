use std::io::ErrorKind;
use watchfile::transfer::classify;
use watchfile::transfer::AuthMode;
use watchfile::transfer::Command;
use watchfile::transfer::Event;
use watchfile::transfer::Failure;
use watchfile::transfer::Outcome;
use watchfile::transfer::Stage;
use watchfile::transfer::Transfer;
use watchfile::transfer::CHUNK_SIZE;
use watchfile::transfer::SSH_PORT;

/// Drives one attempt over a local file held in memory; `fail_at` names the
/// command at which the transport fails, and with what.
fn drive(
    auth: AuthMode,
    local: &[u8],
    fail_at: Option<(Command, ErrorKind)>,
) -> (Outcome, Vec<u8>, Vec<Command>) {
    let mut transfer = Transfer::new(auth);
    let mut remote = Vec::new();
    let mut buffer = vec![0u8; CHUNK_SIZE];
    let mut offset = 0;
    let mut trace = Vec::new();
    let mut command = transfer.command();
    loop {
        trace.push(command);
        if let Command::Stop { outcome } = command {
            return (outcome, remote, trace);
        }
        let event = match fail_at {
            Some((at, kind)) if at == command => Event::Failed(kind),
            _ => match command {
                Command::Read { capacity } => {
                    let n = capacity.min(local.len() - offset);
                    buffer[..n].copy_from_slice(&local[offset..offset + n]);
                    offset += n;
                    Event::Read(n)
                }
                Command::Write { len } => {
                    remote.extend_from_slice(&buffer[..len]);
                    Event::Done
                }
                _ => Event::Done,
            },
        };
        assert!(transfer.accepts(&event));
        command = transfer.advance(event);
    }
}

fn sample(len: usize) -> Vec<u8> {
    (0..len).map(|i| (i * 31 % 251) as u8).collect()
}

#[test]
fn constants_are_port_22_and_one_kibibyte() {
    assert_eq!(SSH_PORT, 22);
    assert_eq!(CHUNK_SIZE, 1024);
}

#[test]
fn classify_names_the_four_known_kinds() {
    assert_eq!(classify(ErrorKind::ConnectionRefused), Failure::ConnectionRefused);
    assert_eq!(classify(ErrorKind::ConnectionReset), Failure::ConnectionReset);
    assert_eq!(classify(ErrorKind::TimedOut), Failure::TimedOut);
    assert_eq!(classify(ErrorKind::Unsupported), Failure::Unsupported);
}

#[test]
fn classify_sends_everything_else_to_other() {
    assert_eq!(classify(ErrorKind::NotFound), Failure::Other);
    assert_eq!(classify(ErrorKind::PermissionDenied), Failure::Other);
    assert_eq!(classify(ErrorKind::WouldBlock), Failure::Other);
    assert_eq!(classify(ErrorKind::Other), Failure::Other);
    assert_eq!(classify(ErrorKind::ConnectionAborted), Failure::Other);
}

#[test]
fn fresh_attempt_connects_first() {
    let transfer = Transfer::new(AuthMode::Password);
    assert_eq!(transfer.stage(), Stage::Connecting);
    assert_eq!(transfer.command(), Command::Connect { port: 22 });
    assert_eq!(transfer.outcome(), None);
}

#[test]
fn steps_come_in_the_order_of_the_protocol() {
    let (outcome, _, trace) = drive(AuthMode::Password, &[], None);
    assert_eq!(outcome, Outcome::Delivered);
    assert_eq!(
        trace,
        vec![
            Command::Connect { port: 22 },
            Command::Handshake,
            Command::AuthenticatePassword,
            Command::OpenChannel,
            Command::CreateRemote,
            Command::OpenLocal,
            Command::Read { capacity: 1024 },
            Command::CloseRemote,
            Command::ShutDown,
            Command::Disconnect,
            Command::Stop { outcome: Outcome::Delivered },
        ]
    );
}

#[test]
fn key_file_mode_authenticates_with_the_key() {
    let (_, _, trace) = drive(AuthMode::KeyFile, &[], None);
    assert_eq!(trace[2], Command::AuthenticateKeyFile);
    assert!(!trace.contains(&Command::AuthenticatePassword));
}

#[test]
fn file_not_divisible_by_chunk_arrives_byte_for_byte() {
    let local = sample(2500);
    let (outcome, remote, trace) = drive(AuthMode::Password, &local, None);
    assert_eq!(outcome, Outcome::Delivered);
    assert_eq!(remote, local);
    let writes: Vec<usize> = trace
        .iter()
        .filter_map(|c| match c {
            Command::Write { len } => Some(*len),
            _ => None,
        })
        .collect();
    assert_eq!(writes, vec![1024, 1024, 452]);
}

#[test]
fn files_of_edge_sizes_arrive_byte_for_byte() {
    for len in [0, 1, 1023, 1024, 1025, 2048, 3071] {
        let local = sample(len);
        let (outcome, remote, _) = drive(AuthMode::KeyFile, &local, None);
        assert_eq!(outcome, Outcome::Delivered);
        assert_eq!(remote, local);
    }
}

#[test]
fn short_reads_are_written_as_they_come() {
    let mut transfer = Transfer { stage: Stage::Reading, auth: AuthMode::Password };
    assert_eq!(transfer.advance(Event::Read(7)), Command::Write { len: 7 });
    assert_eq!(transfer.stage(), Stage::Writing { len: 7 });
    assert_eq!(transfer.advance(Event::Done), Command::Read { capacity: 1024 });
    assert_eq!(transfer.advance(Event::Read(1024)), Command::Write { len: 1024 });
    assert_eq!(transfer.advance(Event::Done), Command::Read { capacity: 1024 });
    assert_eq!(transfer.advance(Event::Read(0)), Command::CloseRemote);
}

#[test]
fn refused_connection_ends_the_attempt_as_refused() {
    let mut transfer = Transfer::new(AuthMode::Password);
    let command = transfer.advance(Event::Failed(ErrorKind::ConnectionRefused));
    let refused = Outcome::Failed(Failure::ConnectionRefused);
    assert_eq!(command, Command::Stop { outcome: refused });
    assert_eq!(transfer.outcome(), Some(refused));
}

#[test]
fn repeated_attempts_against_a_closed_port_agree() {
    let closed = Some((Command::Connect { port: 22 }, ErrorKind::ConnectionRefused));
    let first = drive(AuthMode::Password, &sample(10), closed);
    let second = drive(AuthMode::Password, &sample(4000), closed);
    let third = drive(AuthMode::KeyFile, &[], closed);
    assert_eq!(first.0, Outcome::Failed(Failure::ConnectionRefused));
    assert_eq!(second.0, first.0);
    assert_eq!(third.0, first.0);
    assert_eq!(first.2.len(), 2);
    assert!(first.1.is_empty());
}

#[test]
fn failure_at_any_step_stops_at_once_with_its_category() {
    let steps = [
        Command::Handshake,
        Command::AuthenticatePassword,
        Command::OpenChannel,
        Command::CreateRemote,
        Command::OpenLocal,
        Command::Read { capacity: 1024 },
        Command::Write { len: 1024 },
        Command::CloseRemote,
        Command::ShutDown,
        Command::Disconnect,
    ];
    for step in steps {
        let (outcome, _, trace) =
            drive(AuthMode::Password, &sample(1500), Some((step, ErrorKind::TimedOut)));
        assert_eq!(outcome, Outcome::Failed(Failure::TimedOut));
        assert_eq!(trace[trace.len() - 2], step);
    }
}

#[test]
fn failure_during_copy_leaves_what_was_written() {
    let local = sample(3000);
    let (outcome, remote, _) = drive(
        AuthMode::Password,
        &local,
        Some((Command::Write { len: 952 }, ErrorKind::ConnectionReset)),
    );
    assert_eq!(outcome, Outcome::Failed(Failure::ConnectionReset));
    assert_eq!(remote, local[..2048].to_vec());
}

#[test]
fn finished_attempt_accepts_nothing_more() {
    let mut transfer = Transfer::new(AuthMode::Password);
    transfer.advance(Event::Failed(ErrorKind::Unsupported));
    assert!(!transfer.accepts(&Event::Done));
    assert!(!transfer.accepts(&Event::Read(0)));
    assert!(!transfer.accepts(&Event::Failed(ErrorKind::TimedOut)));
    assert_eq!(transfer.outcome(), Some(Outcome::Failed(Failure::Unsupported)));
}

#[test]
fn accepts_only_what_the_step_can_give() {
    let connecting = Transfer::new(AuthMode::Password);
    assert!(connecting.accepts(&Event::Done));
    assert!(connecting.accepts(&Event::Failed(ErrorKind::Other)));
    assert!(!connecting.accepts(&Event::Read(3)));
    let reading = Transfer { stage: Stage::Reading, auth: AuthMode::Password };
    assert!(reading.accepts(&Event::Read(0)));
    assert!(reading.accepts(&Event::Read(1024)));
    assert!(!reading.accepts(&Event::Read(1025)));
    assert!(!reading.accepts(&Event::Done));
    assert!(reading.accepts(&Event::Failed(ErrorKind::Other)));
}
