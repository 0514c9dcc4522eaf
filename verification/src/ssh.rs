//! The remote session client: credentials, algorithm preferences and the
//! session protocol. The transport itself is driven by the caller, who performs
//! each [`SessionAction`] and reports back with a [`SessionEvent`].

use vstd::prelude::*;
use vstd::slice::slice_to_vec;
use vstd::utf8::encode_utf8;

verus! {

/// The error type of the base64 decoder. Nothing is read from it.
#[verifier::external_type_specification]
#[verifier::external_body]
pub struct ExDecodeError(base64::DecodeError);

/// What the standard base64 alphabet, with canonical padding, decodes
/// `input` to; nothing where `input` is not such an encoding.
pub uninterp spec fn standard_base64(input: Seq<u8>) -> Option<Seq<u8>>;

/// Calls `base64::Engine::decode` on the crate's `STANDARD` engine. The
/// decoder is a pure function of its input: it succeeds exactly on the inputs
/// that `standard_base64` decodes, with those bytes.
#[verifier::external_body]
fn decode_standard(input: &[u8]) -> (decoded: Result<Vec<u8>, base64::DecodeError>)
    ensures
        match decoded {
            Ok(bytes) => standard_base64(input@) == Some(bytes@),
            Err(_) => standard_base64(input@) is None,
        },
{
    base64::Engine::decode(&base64::engine::general_purpose::STANDARD, input)
}

/// `String::push` appends one character.
pub assume_specification[ String::push ](s: &mut String, c: char)
    ensures
        final(s)@ == old(s)@.push(c),
;

/// Each byte read as the character with that code point.
pub open spec fn latin1(bytes: Seq<u8>) -> Seq<char> {
    Seq::new(bytes.len(), |i: int| bytes[i] as char)
}

/// The secret that a configured password stands for: its base64 decoding
/// where it has one, else the password as written; either way byte by byte.
pub open spec fn secret_of(encoded: Seq<char>) -> Seq<char> {
    match standard_base64(encode_utf8(encoded)) {
        Some(bytes) => latin1(bytes),
        None => latin1(encode_utf8(encoded)),
    }
}

/// Reads each byte as the character with that code point.
pub fn latin1_string(bytes: &Vec<u8>) -> (text: String)
    ensures
        text@ == latin1(bytes@),
{
    let mut text = String::new();
    let mut at: usize = 0;
    while at < bytes.len()
        invariant
            at <= bytes@.len(),
            text@ == latin1(bytes@.take(at as int)),
        decreases bytes@.len() - at,
    {
        text.push(bytes[at] as char);
        assert(latin1(bytes@.take(at + 1)) =~= latin1(bytes@.take(at as int)).push(
            bytes@[at as int] as char,
        ));
        at += 1;
    }
    assert(bytes@.take(at as int) =~= bytes@);
    text
}

/// Picks the secret out of what the decoder made of a configured password.
pub fn secret_from(encoded: &str, decoded: Option<Vec<u8>>) -> (secret: String)
    ensures
        secret@ == match decoded {
            Some(bytes) => latin1(bytes@),
            None => latin1(encode_utf8(encoded@)),
        },
{
    match decoded {
        Some(bytes) => latin1_string(&bytes),
        None => {
            let raw = slice_to_vec(encoded.as_bytes());
            latin1_string(&raw)
        },
    }
}

/// Decodes a configured password into the secret used to log in. This is
/// for the edge where the configuration is read: a client takes the secret.
pub fn decode_password(encoded: &str) -> (secret: String)
    ensures
        secret@ == secret_of(encoded@),
{
    let decoded = match decode_standard(encoded.as_bytes()) {
        Ok(bytes) => Some(bytes),
        Err(_) => None,
    };
    secret_from(encoded, decoded)
}

/// The kinds of algorithm for which a preference list is offered.
#[derive(Debug, Clone, Copy, PartialEq, Eq, Structural)]
pub enum MethodKind {
    /// Key exchange.
    Kex,
    /// Host key.
    HostKey,
    /// Cipher, client to server.
    CryptCs,
    /// Cipher, server to client.
    CryptSc,
}

/// The key-exchange algorithms offered, most preferred first. The last three
/// are kept for management firmware that knows nothing newer.
pub open spec fn kex_names() -> Seq<Seq<char>> {
    seq![
        "diffie-hellman-group-exchange-sha256"@,
        "diffie-hellman-group-exchange-sha1"@,
        "diffie-hellman-group14-sha1"@,
        "diffie-hellman-group1-sha1"@,
    ]
}

/// The host-key algorithms offered, most preferred first.
pub open spec fn host_key_names() -> Seq<Seq<char>> {
    seq![
        "ssh-ed25519"@,
        "ecdsa-sha2-nistp256"@,
        "ecdsa-sha2-nistp384"@,
        "ecdsa-sha2-nistp521"@,
        "ssh-rsa"@,
    ]
}

/// The ciphers offered in either direction, most preferred first.
pub open spec fn cipher_names() -> Seq<Seq<char>> {
    seq![
        "aes128-ctr"@,
        "aes192-ctr"@,
        "aes256-ctr"@,
        "3des-cbc"@,
        "aes128-cbc"@,
        "aes192-cbc"@,
        "aes256-cbc"@,
    ]
}

/// The algorithms offered for `kind`, most preferred first.
pub open spec fn algorithm_names(kind: MethodKind) -> Seq<Seq<char>> {
    match kind {
        MethodKind::Kex => kex_names(),
        MethodKind::HostKey => host_key_names(),
        MethodKind::CryptCs => cipher_names(),
        MethodKind::CryptSc => cipher_names(),
    }
}

/// The views of a sequence of string slices.
pub open spec fn slice_texts(names: Seq<&'static str>) -> Seq<Seq<char>> {
    Seq::new(names.len(), |i: int| names[i]@)
}

/// `names` written one after the other with a comma between neighbours.
pub open spec fn comma_joined(names: Seq<Seq<char>>) -> Seq<char>
    decreases names.len(),
{
    if names.len() == 0 {
        Seq::empty()
    } else if names.len() == 1 {
        names[0]
    } else {
        comma_joined(names.drop_last()) + ","@ + names.last()
    }
}

/// The algorithms offered for `kind`, most preferred first.
pub fn algorithms(kind: MethodKind) -> (names: Vec<&'static str>)
    ensures
        slice_texts(names@) == algorithm_names(kind),
{
    let names = match kind {
        MethodKind::Kex => vec![
            "diffie-hellman-group-exchange-sha256",
            "diffie-hellman-group-exchange-sha1",
            "diffie-hellman-group14-sha1",
            "diffie-hellman-group1-sha1",
        ],
        MethodKind::HostKey => vec![
            "ssh-ed25519",
            "ecdsa-sha2-nistp256",
            "ecdsa-sha2-nistp384",
            "ecdsa-sha2-nistp521",
            "ssh-rsa",
        ],
        MethodKind::CryptCs | MethodKind::CryptSc => vec![
            "aes128-ctr",
            "aes192-ctr",
            "aes256-ctr",
            "3des-cbc",
            "aes128-cbc",
            "aes192-cbc",
            "aes256-cbc",
        ],
    };
    assert(slice_texts(names@) =~= algorithm_names(kind));
    names
}

/// Writes `names` as one comma-separated list.
pub fn join_with_commas(names: &Vec<&'static str>) -> (list: String)
    ensures
        list@ == comma_joined(slice_texts(names@)),
{
    let mut list = String::new();
    let mut at: usize = 0;
    while at < names.len()
        invariant
            at <= names@.len(),
            list@ == comma_joined(slice_texts(names@.take(at as int))),
        decreases names@.len() - at,
    {
        let ghost before = slice_texts(names@.take(at as int));
        let ghost after = slice_texts(names@.take(at + 1));
        assert(after.drop_last() =~= before);
        assert(after.last() == names@[at as int]@);
        if at > 0 {
            list.append(",");
        }
        list.append(names[at]);
        assert(list@ =~= comma_joined(after));
        at += 1;
    }
    assert(names@.take(at as int) =~= names@);
    list
}

/// The preference list handed to the transport for `kind`.
pub fn preference(kind: MethodKind) -> (list: String)
    ensures
        list@ == comma_joined(algorithm_names(kind)),
{
    let names = algorithms(kind);
    join_with_commas(&names)
}

/// Where a session stands. `Opening` and `Handshaking` are the two halves of
/// getting from `Disconnected` to `Connected`; `Connected` is a session that
/// has not logged in yet. Only a connect that succeeds leaves `Disconnected`
/// for good.
#[derive(Debug, Clone, Copy, PartialEq, Eq, Structural)]
pub enum SessionState {
    /// Nothing has been attempted.
    Disconnected,
    /// The transport connection is being opened.
    Opening,
    /// Algorithms are being negotiated and keys exchanged.
    Handshaking,
    /// The handshake is done; the login is under way.
    Connected,
    /// Logged in and idle: commands can be submitted.
    Authenticated,
    /// A submitted command list is being worked through.
    Executing,
    /// The session is over.
    Closed,
}

/// How a single command can fail.
#[derive(Debug, Clone, Copy, PartialEq, Eq, Structural)]
pub enum CommandFault {
    /// No channel could be opened for it.
    ChannelOpen,
    /// The channel refused the command or broke while its output was read.
    Command,
}

/// Why a session failed. The two failures that can strike after login carry
/// the number of commands that had already run to completion; those commands
/// stay applied.
#[derive(Debug, Clone, Copy, PartialEq, Eq, Structural)]
pub enum SshError {
    /// The transport connection was refused or timed out.
    Transport,
    /// Algorithm negotiation or key exchange failed.
    Handshake,
    /// The controller rejected the credentials.
    Authentication,
    /// No channel could be opened for the next command.
    ChannelOpen { completed: usize },
    /// A command failed while it ran.
    Command { completed: usize },
    /// The request does not fit the state of the session.
    OutOfOrder,
}

/// What the transport reports back.
#[derive(Debug, Clone)]
pub enum SessionEvent {
    /// The transport connection stands.
    TransportOpened,
    /// The transport connection was refused or timed out.
    TransportFailed,
    /// Negotiation and key exchange succeeded.
    HandshakeDone,
    /// Negotiation or key exchange failed.
    HandshakeFailed,
    /// The credentials were accepted.
    AuthAccepted,
    /// The credentials were rejected.
    AuthRejected,
    /// The command in flight ran to completion with this output.
    CommandFinished(String),
    /// The command in flight failed.
    CommandFailed(CommandFault),
}

/// What the caller is to do next.
#[derive(Debug, Clone, Copy, PartialEq, Eq, Structural)]
pub enum SessionAction {
    /// Open a transport connection to [`SshClient::address`].
    OpenTransport,
    /// Offer [`preference`] for every [`MethodKind`], then shake hands.
    Negotiate,
    /// Log in with [`SshClient::user`] and [`SshClient::password`].
    Authenticate,
    /// Logged in; submit commands with [`SshClient::exec`].
    Ready,
    /// Run the command with this position, in a channel of its own, and read
    /// its output to the end.
    Run(usize),
    /// Every submitted command has run; their outputs are ready.
    Done,
    /// Stop: connecting failed, a command failed, or the request was out of
    /// order.
    Fail(SshError),
}

/// The error for a command that failed after `done` others had completed.
pub open spec fn fault_error(fault: CommandFault, done: nat) -> SshError {
    match fault {
        CommandFault::ChannelOpen => SshError::ChannelOpen { completed: done as usize },
        CommandFault::Command => SshError::Command { completed: done as usize },
    }
}

/// The session protocol: the state after `event` and the action it calls
/// for, in a session that has completed `done` of `total` submitted commands.
/// Connecting that fails, at whichever of its three steps, leaves the session
/// `Disconnected`, as it was before, and it may be connected again. A command
/// that fails ends the session. An event that does not fit the state changes
/// nothing.
pub open spec fn step(state: SessionState, event: SessionEvent, done: nat, total: nat) -> (
    SessionState,
    SessionAction,
) {
    match (state, event) {
        (SessionState::Opening, SessionEvent::TransportOpened) => (
            SessionState::Handshaking,
            SessionAction::Negotiate,
        ),
        (SessionState::Opening, SessionEvent::TransportFailed) => (
            SessionState::Disconnected,
            SessionAction::Fail(SshError::Transport),
        ),
        (SessionState::Handshaking, SessionEvent::HandshakeDone) => (
            SessionState::Connected,
            SessionAction::Authenticate,
        ),
        (SessionState::Handshaking, SessionEvent::HandshakeFailed) => (
            SessionState::Disconnected,
            SessionAction::Fail(SshError::Handshake),
        ),
        (SessionState::Connected, SessionEvent::AuthAccepted) => (
            SessionState::Authenticated,
            SessionAction::Ready,
        ),
        (SessionState::Connected, SessionEvent::AuthRejected) => (
            SessionState::Disconnected,
            SessionAction::Fail(SshError::Authentication),
        ),
        (SessionState::Executing, SessionEvent::CommandFinished(_)) => if done + 1 < total {
            (SessionState::Executing, SessionAction::Run((done + 1) as usize))
        } else {
            (SessionState::Authenticated, SessionAction::Done)
        },
        (SessionState::Executing, SessionEvent::CommandFailed(fault)) => (
            SessionState::Closed,
            SessionAction::Fail(fault_error(fault, done)),
        ),
        _ => (state, SessionAction::Fail(SshError::OutOfOrder)),
    }
}

/// The outputs collected after `event`: one more where a command finished
/// while the list was being worked through, the same otherwise.
pub open spec fn collected(state: SessionState, event: SessionEvent, outputs: Seq<Seq<char>>) -> Seq<
    Seq<char>,
> {
    match (state, event) {
        (SessionState::Executing, SessionEvent::CommandFinished(output)) => outputs.push(output@),
        _ => outputs,
    }
}

/// A session with one controller.
pub struct SshClient {
    host: String,
    user: String,
    password: String,
    state: SessionState,
    commands: Vec<String>,
    outputs: Vec<String>,
}

impl SshClient {
    /// The controller's host name or address.
    pub closed spec fn host_text(&self) -> Seq<char> {
        self.host@
    }

    /// The account.
    pub closed spec fn user_text(&self) -> Seq<char> {
        self.user@
    }

    /// The secret used to log in.
    pub closed spec fn secret(&self) -> Seq<char> {
        self.password@
    }

    /// Where the session stands.
    pub closed spec fn phase(&self) -> SessionState {
        self.state
    }

    /// The commands last submitted, in order.
    pub closed spec fn submitted(&self) -> Seq<Seq<char>> {
        Seq::new(self.commands@.len(), |i: int| self.commands@[i]@)
    }

    /// The outputs of the submitted commands that have completed, in order.
    pub closed spec fn gathered(&self) -> Seq<Seq<char>> {
        Seq::new(self.outputs@.len(), |i: int| self.outputs@[i]@)
    }

    /// Never more outputs than commands, and while a list is being worked
    /// through at least one command is still to run.
    pub closed spec fn wf(&self) -> bool {
        &&& self.outputs@.len() <= self.commands@.len()
        &&& self.state == SessionState::Executing ==> self.outputs@.len() < self.commands@.len()
    }

    /// The same controller and credentials.
    pub open spec fn same_login(&self, other: &SshClient) -> bool {
        &&& self.host_text() == other.host_text()
        &&& self.user_text() == other.user_text()
        &&& self.secret() == other.secret()
    }

    /// A client for `host`, not yet connected. The secret is stored as
    /// given: it is the password itself, already decoded where the
    /// configuration holds it encoded (see [`decode_password`]).
    pub fn new(host: String, user: String, password: String) -> (client: SshClient)
        ensures
            client.wf(),
            client.host_text() == host@,
            client.user_text() == user@,
            client.secret() == password@,
            client.phase() == SessionState::Disconnected,
            client.submitted().len() == 0,
            client.gathered().len() == 0,
    {
        SshClient {
            host,
            user,
            password,
            state: SessionState::Disconnected,
            commands: Vec::new(),
            outputs: Vec::new(),
        }
    }

    /// The transport address: the host and the shell port.
    pub fn address(&self) -> (address: String)
        ensures
            address@ == self.host_text() + ":22"@,
    {
        let mut address = self.host.clone();
        address.append(":22");
        address
    }

    /// The account.
    pub fn user(&self) -> (user: &str)
        ensures
            user@ == self.user_text(),
    {
        self.user.as_str()
    }

    /// The secret used to log in.
    pub fn password(&self) -> (password: &str)
        ensures
            password@ == self.secret(),
    {
        self.password.as_str()
    }

    /// Where the session stands.
    pub fn state(&self) -> (state: SessionState)
        ensures
            state == self.phase(),
    {
        self.state
    }

    /// How many of the submitted commands have completed.
    pub fn completed(&self) -> (count: usize)
        ensures
            count == self.gathered().len(),
    {
        self.outputs.len()
    }

    /// The submitted command at `position`, if there is one.
    pub fn command(&self, position: usize) -> (command: Option<&str>)
        ensures
            match command {
                Some(text) => position < self.submitted().len() && text@ == self.submitted()[position as int],
                None => position >= self.submitted().len(),
            },
    {
        if position < self.commands.len() {
            Some(self.commands[position].as_str())
        } else {
            None
        }
    }

    /// The outputs of the completed commands, in order.
    pub fn outputs(&self) -> (outputs: &Vec<String>)
        ensures
            Seq::new(outputs@.len(), |i: int| outputs@[i]@) == self.gathered(),
    {
        &self.outputs
    }

    /// Starts connecting. Only a session on which nothing has been attempted
    /// can be connected; on any other the call changes nothing.
    pub fn connect(&mut self) -> (action: SessionAction)
        requires
            old(self).wf(),
        ensures
            final(self).wf(),
            final(self).same_login(old(self)),
            final(self).submitted() == old(self).submitted(),
            final(self).gathered() == old(self).gathered(),
            old(self).phase() == SessionState::Disconnected ==> final(self).phase()
                == SessionState::Opening && action == SessionAction::OpenTransport,
            old(self).phase() != SessionState::Disconnected ==> final(self).phase() == old(
                self,
            ).phase() && action == SessionAction::Fail(SshError::OutOfOrder),
    {
        match self.state {
            SessionState::Disconnected => {
                self.state = SessionState::Opening;
                SessionAction::OpenTransport
            },
            _ => SessionAction::Fail(SshError::OutOfOrder),
        }
    }

    /// Submits `commands`, to be run one by one in the given order. Only a
    /// session that is logged in and idle takes commands; on any other the
    /// call changes nothing.
    pub fn exec(&mut self, commands: Vec<String>) -> (action: SessionAction)
        requires
            old(self).wf(),
        ensures
            final(self).wf(),
            final(self).same_login(old(self)),
            old(self).phase() == SessionState::Authenticated ==> {
                &&& final(self).submitted() == Seq::new(commands@.len(), |i: int| commands@[i]@)
                &&& final(self).gathered().len() == 0
                &&& commands@.len() == 0 ==> final(self).phase() == SessionState::Authenticated
                    && action == SessionAction::Done
                &&& commands@.len() > 0 ==> final(self).phase() == SessionState::Executing
                    && action == SessionAction::Run(0)
            },
            old(self).phase() != SessionState::Authenticated ==> {
                &&& final(self).phase() == old(self).phase()
                &&& final(self).submitted() == old(self).submitted()
                &&& final(self).gathered() == old(self).gathered()
                &&& action == SessionAction::Fail(SshError::OutOfOrder)
            },
    {
        match self.state {
            SessionState::Authenticated => {
                let none = commands.len() == 0;
                self.commands = commands;
                self.outputs = Vec::new();
                if none {
                    SessionAction::Done
                } else {
                    self.state = SessionState::Executing;
                    SessionAction::Run(0)
                }
            },
            _ => SessionAction::Fail(SshError::OutOfOrder),
        }
    }

    /// Takes what the transport reported and says what to do next.
    pub fn advance(&mut self, event: SessionEvent) -> (action: SessionAction)
        requires
            old(self).wf(),
        ensures
            final(self).wf(),
            final(self).same_login(old(self)),
            final(self).submitted() == old(self).submitted(),
            final(self).gathered() == collected(old(self).phase(), event, old(self).gathered()),
            (final(self).phase(), action) == step(
                old(self).phase(),
                event,
                old(self).gathered().len(),
                old(self).submitted().len(),
            ),
    {
        let ghost before = self.gathered();
        match (self.state, event) {
            (SessionState::Opening, SessionEvent::TransportOpened) => {
                self.state = SessionState::Handshaking;
                SessionAction::Negotiate
            },
            (SessionState::Opening, SessionEvent::TransportFailed) => {
                self.state = SessionState::Disconnected;
                SessionAction::Fail(SshError::Transport)
            },
            (SessionState::Handshaking, SessionEvent::HandshakeDone) => {
                self.state = SessionState::Connected;
                SessionAction::Authenticate
            },
            (SessionState::Handshaking, SessionEvent::HandshakeFailed) => {
                self.state = SessionState::Disconnected;
                SessionAction::Fail(SshError::Handshake)
            },
            (SessionState::Connected, SessionEvent::AuthAccepted) => {
                self.state = SessionState::Authenticated;
                SessionAction::Ready
            },
            (SessionState::Connected, SessionEvent::AuthRejected) => {
                self.state = SessionState::Disconnected;
                SessionAction::Fail(SshError::Authentication)
            },
            (SessionState::Executing, SessionEvent::CommandFinished(output)) => {
                self.outputs.push(output);
                assert(self.gathered() =~= before.push(output@));
                if self.outputs.len() < self.commands.len() {
                    SessionAction::Run(self.outputs.len())
                } else {
                    self.state = SessionState::Authenticated;
                    SessionAction::Done
                }
            },
            (SessionState::Executing, SessionEvent::CommandFailed(fault)) => {
                self.state = SessionState::Closed;
                match fault {
                    CommandFault::ChannelOpen => SessionAction::Fail(
                        SshError::ChannelOpen { completed: self.outputs.len() },
                    ),
                    CommandFault::Command => SessionAction::Fail(
                        SshError::Command { completed: self.outputs.len() },
                    ),
                }
            },
            _ => SessionAction::Fail(SshError::OutOfOrder),
        }
    }

    /// Ends the session, whatever its state.
    pub fn close(&mut self)
        requires
            old(self).wf(),
        ensures
            final(self).wf(),
            final(self).same_login(old(self)),
            final(self).submitted() == old(self).submitted(),
            final(self).gathered() == old(self).gathered(),
            final(self).phase() == SessionState::Closed,
    {
        self.state = SessionState::Closed;
    }
}

/// A command that fails while a list is worked through ends the session with
/// a failure that carries exactly the number of commands completed before it,
/// whichever way it failed.
pub proof fn lemma_failure_reports_completed(fault: CommandFault, done: nat, total: nat)
    requires
        done < total <= usize::MAX,
    ensures
        step(SessionState::Executing, SessionEvent::CommandFailed(fault), done, total).0
            == SessionState::Closed,
        step(SessionState::Executing, SessionEvent::CommandFailed(fault), done, total).1
            == SessionAction::Fail(fault_error(fault, done)),
        fault == CommandFault::ChannelOpen ==> fault_error(fault, done)
            == (SshError::ChannelOpen { completed: done as usize }),
        fault == CommandFault::Command ==> fault_error(fault, done) == (SshError::Command {
            completed: done as usize,
        }),
{
}

/// Connecting that fails leaves the session disconnected, whichever of its
/// steps failed, and the failure says which one it was.
pub proof fn lemma_failed_connect_stays_disconnected(done: nat, total: nat)
    ensures
        step(SessionState::Opening, SessionEvent::TransportFailed, done, total) == (
            SessionState::Disconnected,
            SessionAction::Fail(SshError::Transport),
        ),
        step(SessionState::Handshaking, SessionEvent::HandshakeFailed, done, total) == (
            SessionState::Disconnected,
            SessionAction::Fail(SshError::Handshake),
        ),
        step(SessionState::Connected, SessionEvent::AuthRejected, done, total) == (
            SessionState::Disconnected,
            SessionAction::Fail(SshError::Authentication),
        ),
{
}

/// A command that completes is followed by the next one in order, and the
/// last one by the end of the list.
pub proof fn lemma_commands_run_in_order(output: String, done: nat, total: nat)
    requires
        done < total <= usize::MAX,
    ensures
        done + 1 < total ==> step(
            SessionState::Executing,
            SessionEvent::CommandFinished(output),
            done,
            total,
        ) == (SessionState::Executing, SessionAction::Run((done + 1) as usize)),
        done + 1 == total ==> step(
            SessionState::Executing,
            SessionEvent::CommandFinished(output),
            done,
            total,
        ) == (SessionState::Authenticated, SessionAction::Done),
{
}

/// No command runs before the login: outside the working of a list, a report
/// about a command is out of order and changes nothing. The same holds of
/// every report on a session that was never started or is over.
pub proof fn lemma_nothing_runs_out_of_order(
    state: SessionState,
    event: SessionEvent,
    done: nat,
    total: nat,
)
    requires
        state == SessionState::Disconnected || state == SessionState::Closed || (state
            != SessionState::Executing && (event is CommandFinished || event is CommandFailed)),
    ensures
        step(state, event, done, total) == (state, SessionAction::Fail(SshError::OutOfOrder)),
{
}

/// A session comes to take commands in two ways only: its credentials were
/// accepted, or it has worked a list of commands through.
pub proof fn lemma_commands_need_login(state: SessionState, event: SessionEvent, done: nat, total: nat)
    requires
        step(state, event, done, total).0 == SessionState::Authenticated,
        state != SessionState::Authenticated,
    ensures
        (state == SessionState::Connected && event is AuthAccepted) || (state
            == SessionState::Executing && event is CommandFinished && done + 1 >= total),
{
}

} // verus!
