//! The secure transport client, as a machine that is told what happened and
//! answers what to do next.
//!
//! One attempt opens a connection on the secure-shell port, authenticates,
//! opens a file-transfer channel, streams the local file to the remote path
//! in chunks of bounded size, and takes everything down again. The machine
//! holds the order of these steps and the decisions between them; whoever
//! drives it performs each step on the network and reports its result.
//! An attempt keeps nothing from earlier attempts and never retries.

use std::io::ErrorKind;
use vstd::prelude::*;

verus! {

/// The port every attempt connects to.
pub const SSH_PORT: u16 = 22;

/// The size of the buffer a chunk is read into: no read returns more, and no
/// more of the file is held in memory at a time.
pub const CHUNK_SIZE: usize = 1024;

/// `std::io::ErrorKind`, the category that the operating system or a library
/// gives to a failed I/O operation. Declared with its variants, so that
/// verified code can tell them apart; nothing is assumed about them.
#[verifier::external_type_specification]
pub struct ExErrorKind(ErrorKind);

/// How a failed attempt is reported to the caller.
#[derive(Clone, Copy, Debug, PartialEq, Eq, Structural)]
pub enum Failure {
    /// Nothing listens on the remote port.
    ConnectionRefused,
    ConnectionReset,
    TimedOut,
    Unsupported,
    /// Anything else.
    Other,
}

/// How an attempt ended.
#[derive(Clone, Copy, Debug, PartialEq, Eq, Structural)]
pub enum Outcome {
    Delivered,
    Failed(Failure),
}

/// How the attempt proves who it is.
#[derive(Clone, Copy, Debug, PartialEq, Eq, Structural)]
pub enum AuthMode {
    Password,
    /// A private-key file, read with an empty passphrase.
    KeyFile,
}

/// Where an attempt stands: the step that is being performed.
#[derive(Clone, Copy, Debug, PartialEq, Eq, Structural)]
pub enum Stage {
    Connecting,
    Handshaking,
    Authenticating,
    OpeningChannel,
    CreatingRemote,
    OpeningLocal,
    Reading,
    /// Writing the first `len` bytes of the buffer.
    Writing { len: usize },
    ClosingRemote,
    ShuttingDown,
    Disconnecting,
    Finished { outcome: Outcome },
}

/// What the driver is to do next.
#[derive(Clone, Copy, Debug, PartialEq, Eq, Structural)]
pub enum Command {
    /// Open a connection to the host on `port` and bind a session to it.
    Connect { port: u16 },
    Handshake,
    AuthenticatePassword,
    /// Authenticate with the private-key file and an empty passphrase.
    AuthenticateKeyFile,
    /// Open the file-transfer channel.
    OpenChannel,
    /// Create the remote file.
    CreateRemote,
    /// Open the local file.
    OpenLocal,
    /// Read at most `capacity` bytes of the local file into the buffer.
    Read { capacity: usize },
    /// Write the first `len` bytes of the buffer to the remote file.
    Write { len: usize },
    CloseRemote,
    /// Shut the file-transfer channel down.
    ShutDown,
    Disconnect,
    /// Nothing is left to do.
    Stop { outcome: Outcome },
}

/// What the driver reports back.
#[derive(Clone, Copy, Debug, PartialEq, Eq)]
pub enum Event {
    /// The step succeeded.
    Done,
    /// The read returned this many bytes; zero marks the end of the file.
    Read(usize),
    /// The step failed.
    Failed(ErrorKind),
}

/// The category of a failed I/O operation.
pub open spec fn failure_of(kind: ErrorKind) -> Failure {
    match kind {
        ErrorKind::ConnectionRefused => Failure::ConnectionRefused,
        ErrorKind::ConnectionReset => Failure::ConnectionReset,
        ErrorKind::TimedOut => Failure::TimedOut,
        ErrorKind::Unsupported => Failure::Unsupported,
        _ => Failure::Other,
    }
}

/// Classifies a failed I/O operation.
pub fn classify(kind: ErrorKind) -> (f: Failure)
    ensures
        f == failure_of(kind),
{
    match kind {
        ErrorKind::ConnectionRefused => Failure::ConnectionRefused,
        ErrorKind::ConnectionReset => Failure::ConnectionReset,
        ErrorKind::TimedOut => Failure::TimedOut,
        ErrorKind::Unsupported => Failure::Unsupported,
        _ => Failure::Other,
    }
}

impl Stage {
    /// Whether the attempt is over.
    pub open spec fn finished(self) -> bool {
        self is Finished
    }

    /// Whether `event` can be the result of the step that is being performed.
    pub open spec fn accepts(self, event: Event) -> bool {
        match event {
            Event::Failed(_) => !self.finished(),
            Event::Read(n) => self == Stage::Reading && n <= CHUNK_SIZE,
            Event::Done => !self.finished() && self != Stage::Reading,
        }
    }

    /// The step that follows when this one succeeded.
    pub open spec fn succeeded(self) -> Stage {
        match self {
            Stage::Connecting => Stage::Handshaking,
            Stage::Handshaking => Stage::Authenticating,
            Stage::Authenticating => Stage::OpeningChannel,
            Stage::OpeningChannel => Stage::CreatingRemote,
            Stage::CreatingRemote => Stage::OpeningLocal,
            Stage::OpeningLocal => Stage::Reading,
            Stage::Reading => Stage::Reading,
            Stage::Writing { len } => Stage::Reading,
            Stage::ClosingRemote => Stage::ShuttingDown,
            Stage::ShuttingDown => Stage::Disconnecting,
            Stage::Disconnecting => Stage::Finished { outcome: Outcome::Delivered },
            Stage::Finished { outcome } => self,
        }
    }

    /// The step that follows `event`. A failure ends the attempt at once,
    /// whatever the step; a read of zero bytes ends the copying; any other
    /// read is written out before the next one.
    pub open spec fn after(self, event: Event) -> Stage {
        if self.finished() {
            self
        } else {
            match event {
                Event::Failed(kind) => Stage::Finished {
                    outcome: Outcome::Failed(failure_of(kind)),
                },
                Event::Read(n) => if self == Stage::Reading {
                    if n == 0 {
                        Stage::ClosingRemote
                    } else {
                        Stage::Writing { len: n }
                    }
                } else {
                    self
                },
                Event::Done => self.succeeded(),
            }
        }
    }

    /// What the driver is to do in this stage.
    pub open spec fn command(self, auth: AuthMode) -> Command {
        match self {
            Stage::Connecting => Command::Connect { port: SSH_PORT },
            Stage::Handshaking => Command::Handshake,
            Stage::Authenticating => match auth {
                AuthMode::Password => Command::AuthenticatePassword,
                AuthMode::KeyFile => Command::AuthenticateKeyFile,
            },
            Stage::OpeningChannel => Command::OpenChannel,
            Stage::CreatingRemote => Command::CreateRemote,
            Stage::OpeningLocal => Command::OpenLocal,
            Stage::Reading => Command::Read { capacity: CHUNK_SIZE },
            Stage::Writing { len } => Command::Write { len },
            Stage::ClosingRemote => Command::CloseRemote,
            Stage::ShuttingDown => Command::ShutDown,
            Stage::Disconnecting => Command::Disconnect,
            Stage::Finished { outcome } => Command::Stop { outcome },
        }
    }
}

/// One attempt to deliver the file.
#[derive(Clone, Copy, Debug)]
pub struct Transfer {
    pub stage: Stage,
    pub auth: AuthMode,
}

impl Transfer {
    /// A fresh attempt: it is about to connect and knows nothing of any
    /// attempt before it.
    pub fn new(auth: AuthMode) -> (t: Transfer)
        ensures
            t.stage == Stage::Connecting,
            t.auth == auth,
    {
        Transfer { stage: Stage::Connecting, auth }
    }

    /// Where the attempt stands.
    pub fn stage(&self) -> (s: Stage)
        ensures
            s == self.stage,
    {
        self.stage
    }

    /// How the attempt ended, once it has.
    pub fn outcome(&self) -> (o: Option<Outcome>)
        ensures
            o == match self.stage {
                Stage::Finished { outcome } => Some(outcome),
                _ => None,
            },
    {
        match self.stage {
            Stage::Finished { outcome } => Some(outcome),
            _ => None,
        }
    }

    /// What to do now.
    pub fn command(&self) -> (c: Command)
        ensures
            c == self.stage.command(self.auth),
    {
        match self.stage {
            Stage::Connecting => Command::Connect { port: SSH_PORT },
            Stage::Handshaking => Command::Handshake,
            Stage::Authenticating => match self.auth {
                AuthMode::Password => Command::AuthenticatePassword,
                AuthMode::KeyFile => Command::AuthenticateKeyFile,
            },
            Stage::OpeningChannel => Command::OpenChannel,
            Stage::CreatingRemote => Command::CreateRemote,
            Stage::OpeningLocal => Command::OpenLocal,
            Stage::Reading => Command::Read { capacity: CHUNK_SIZE },
            Stage::Writing { len } => Command::Write { len },
            Stage::ClosingRemote => Command::CloseRemote,
            Stage::ShuttingDown => Command::ShutDown,
            Stage::Disconnecting => Command::Disconnect,
            Stage::Finished { outcome } => Command::Stop { outcome },
        }
    }

    /// Whether `event` can be reported now.
    pub fn accepts(&self, event: &Event) -> (b: bool)
        ensures
            b == self.stage.accepts(*event),
    {
        let finished = match self.stage {
            Stage::Finished { .. } => true,
            _ => false,
        };
        let reading = match self.stage {
            Stage::Reading => true,
            _ => false,
        };
        match event {
            Event::Failed(_) => !finished,
            Event::Read(n) => reading && *n <= CHUNK_SIZE,
            Event::Done => !finished && !reading,
        }
    }

    /// Takes the result of the step that was commanded and moves on. The
    /// next command is the result.
    pub fn advance(&mut self, event: Event) -> (c: Command)
        requires
            old(self).stage.accepts(event),
        ensures
            final(self).auth == old(self).auth,
            final(self).stage == old(self).stage.after(event),
            c == final(self).stage.command(final(self).auth),
    {
        let next = match event {
            Event::Failed(kind) => Stage::Finished { outcome: Outcome::Failed(classify(kind)) },
            Event::Read(n) => if n == 0 {
                Stage::ClosingRemote
            } else {
                Stage::Writing { len: n }
            },
            Event::Done => match self.stage {
                Stage::Connecting => Stage::Handshaking,
                Stage::Handshaking => Stage::Authenticating,
                Stage::Authenticating => Stage::OpeningChannel,
                Stage::OpeningChannel => Stage::CreatingRemote,
                Stage::CreatingRemote => Stage::OpeningLocal,
                Stage::OpeningLocal => Stage::Reading,
                Stage::Reading => Stage::Reading,
                Stage::Writing { len } => Stage::Reading,
                Stage::ClosingRemote => Stage::ShuttingDown,
                Stage::ShuttingDown => Stage::Disconnecting,
                Stage::Disconnecting => Stage::Finished { outcome: Outcome::Delivered },
                Stage::Finished { outcome } => Stage::Finished { outcome },
            },
        };
        self.stage = next;
        self.command()
    }
}

/// Whether `reads` can be what the successive reads of a file of `len`
/// bytes return: each read but the last returns at least one byte and no more
/// than the buffer holds or the file has left, and the last one, at the end
/// of the file, returns none.
pub open spec fn reads_of(len: nat, reads: Seq<usize>) -> bool
    decreases reads.len(),
{
    if reads.len() == 0 {
        false
    } else if reads[0] == 0 {
        len == 0 && reads.len() == 1
    } else {
        reads[0] <= CHUNK_SIZE && reads[0] <= len && reads_of(
            (len - reads[0]) as nat,
            reads.drop_first(),
        )
    }
}

/// The copying part of an attempt, from `stage` on, over a local file that
/// still holds `data` and whose reads return `reads`: the stage the machine
/// is left in and the bytes it had written to the remote file.
pub open spec fn copy(stage: Stage, data: Seq<u8>, reads: Seq<usize>) -> (Stage, Seq<u8>)
    decreases reads.len(),
{
    if reads.len() == 0 {
        (stage, Seq::<u8>::empty())
    } else {
        match stage.after(Event::Read(reads[0])) {
            Stage::Writing { len } => {
                let (end, rest) = copy(
                    Stage::Writing { len }.after(Event::Done),
                    data.skip(len as int),
                    reads.drop_first(),
                );
                (end, data.take(len as int) + rest)
            },
            other => (other, Seq::<u8>::empty()),
        }
    }
}

/// The reads of a file of `len` bytes when every read fills the buffer as
/// far as the file allows: full chunks, then the remainder if there is one,
/// then the empty read at the end.
pub open spec fn greedy_reads(len: nat) -> Seq<usize>
    decreases len,
{
    if len == 0 {
        seq![0usize]
    } else if len <= CHUNK_SIZE {
        seq![len as usize, 0usize]
    } else {
        seq![CHUNK_SIZE] + greedy_reads((len - CHUNK_SIZE) as nat)
    }
}

/// Chunked copying loses nothing: however the reads cut the file up, the
/// bytes written to the remote file are the bytes of the local file, in
/// order, and the machine leaves the loop exactly when the file is at its
/// end. The file's size need not be a multiple of the buffer's.
pub proof fn lemma_copy_is_faithful(data: Seq<u8>, reads: Seq<usize>)
    requires
        reads_of(data.len(), reads),
    ensures
        copy(Stage::Reading, data, reads) == (Stage::ClosingRemote, data),
    decreases reads.len(),
{
    let n = reads[0];
    if n == 0 {
        assert(data =~= Seq::<u8>::empty());
    } else {
        let rest = data.skip(n as int);
        lemma_copy_is_faithful(rest, reads.drop_first());
        assert(data.take(n as int) + rest =~= data);
    }
}

/// Reading greedily is one of the ways to read a file.
pub proof fn lemma_greedy_reads(len: nat)
    requires
        len <= usize::MAX,
    ensures
        reads_of(len, greedy_reads(len)),
    decreases len,
{
    if len == 0 {
    } else if len <= CHUNK_SIZE {
        let r = greedy_reads(len);
        assert(r.drop_first() =~= seq![0usize]);
        assert(reads_of(0, r.drop_first()));
    } else {
        let r = greedy_reads(len);
        lemma_greedy_reads((len - CHUNK_SIZE) as nat);
        assert(r.drop_first() =~= greedy_reads((len - CHUNK_SIZE) as nat));
    }
}

/// A failure ends an attempt with the category of its error kind, whatever
/// the attempt had done before: two attempts that fail with the same kind of
/// error report the same failure.
pub proof fn lemma_failure_category_is_stable(a: Transfer, b: Transfer, kind: ErrorKind)
    requires
        !a.stage.finished(),
        !b.stage.finished(),
    ensures
        a.stage.after(Event::Failed(kind)) == b.stage.after(Event::Failed(kind)),
        a.stage.after(Event::Failed(kind)) == (Stage::Finished {
            outcome: Outcome::Failed(failure_of(kind)),
        }),
{
}

/// A finished attempt stays finished: nothing that is reported afterwards
/// changes its outcome.
pub proof fn lemma_finished_is_final(stage: Stage, event: Event)
    requires
        stage.finished(),
    ensures
        stage.after(event) == stage,
{
}

/// An attempt delivers only by going through every step: the one stage from
/// which success is reached is the disconnect.
pub proof fn lemma_delivered_only_after_disconnect(stage: Stage, event: Event)
    requires
        !stage.finished(),
        stage.after(event) == (Stage::Finished { outcome: Outcome::Delivered }),
    ensures
        stage == Stage::Disconnecting,
        event is Done,
{
}

} // verus!
