//! Command sessions: where a command runs, as whom, and what it is turned into
//! before it is handed to a shell.
//!
//! A session is a plan made of plain values. Reading the environment, opening
//! a connection and starting a process are left to the caller, who hands in
//! the environment and the local identity and gets back the invocation to
//! perform.

use crate::config::{
    opt_remote, opt_sudo, opt_text, CommandType, RemoteConfig, RemoteView, SudoConfig, SudoView,
};
use crate::text::{
    decimal, decimal_string, has_prefix, join, join_strings, same_text, split_words, tail_from, words,
};
use vstd::prelude::*;
use vstd::string::*;
use vstd::utf8::{decode_utf8, valid_utf8};

verus! {

/// The map that a list of bindings stands for: a later binding of a name
/// replaces an earlier one.
pub open spec fn bindings(entries: Seq<(Seq<char>, Seq<char>)>) -> Map<Seq<char>, Seq<char>>
    decreases entries.len(),
{
    if entries.len() == 0 {
        Map::empty()
    } else {
        bindings(entries.drop_last()).insert(entries.last().0, entries.last().1)
    }
}

/// The characters of a list of pairs of strings.
pub open spec fn pairs_view(pairs: Seq<(String, String)>) -> Seq<(Seq<char>, Seq<char>)> {
    Seq::new(pairs.len(), |i: int| (pairs[i].0@, pairs[i].1@))
}

/// A snapshot of environment variables.
pub struct Environment {
    vars: Vec<(String, String)>,
}

impl View for Environment {
    type V = Map<Seq<char>, Seq<char>>;

    closed spec fn view(&self) -> Map<Seq<char>, Seq<char>> {
        bindings(pairs_view(self.vars@))
    }
}

impl Environment {
    /// The environment without variables.
    pub fn new() -> (env: Self)
        ensures
            env@ == Map::<Seq<char>, Seq<char>>::empty(),
    {
        let env = Environment { vars: Vec::new() };
        proof {
            assert(pairs_view(env.vars@) =~= Seq::empty());
        }
        env
    }

    /// The environment that a list of bindings stands for.
    pub fn from_pairs(pairs: Vec<(String, String)>) -> (env: Self)
        ensures
            env@ == bindings(pairs_view(pairs@)),
    {
        Environment { vars: pairs }
    }

    /// Binds a variable, replacing what it was bound to.
    pub fn set(&mut self, name: String, value: String)
        ensures
            final(self)@ == old(self)@.insert(name@, value@),
    {
        let ghost before = pairs_view(self.vars@);
        self.vars.push((name, value));
        proof {
            let after = pairs_view(self.vars@);
            assert(after.drop_last() =~= before);
            assert(after.last() == (name@, value@));
        }
    }

    /// What a variable is bound to.
    pub fn get(&self, name: &str) -> (value: Option<String>)
        ensures
            match value {
                Some(value) => self@.contains_key(name@) && self@[name@] == value@,
                None => !self@.contains_key(name@),
            },
    {
        let ghost entries = pairs_view(self.vars@);
        let mut i: usize = self.vars.len();
        proof {
            assert(entries.take(i as int) =~= entries);
        }
        while i > 0
            invariant
                i <= self.vars.len(),
                entries == pairs_view(self.vars@),
                bindings(entries).contains_key(name@) == bindings(
                    entries.take(i as int),
                ).contains_key(name@),
                bindings(entries).contains_key(name@) ==> bindings(entries)[name@] == bindings(
                    entries.take(i as int),
                )[name@],
            decreases i,
        {
            i -= 1;
            proof {
                let upto = entries.take(i + 1);
                assert(upto.drop_last() =~= entries.take(i as int));
                assert(upto.last() == entries[i as int]);
                assert(entries[i as int] == (self.vars@[i as int].0@, self.vars@[i as int].1@));
            }
            if same_text(self.vars[i].0.as_str(), name) {
                return Some(self.vars[i].1.clone());
            }
        }
        proof {
            assert(entries.take(0) =~= Seq::empty());
        }
        None
    }
}

/// Why a session could not be set up.
#[derive(Debug)]
pub enum SessionError {
    /// A field refers to an environment variable that is not set.
    MissingEnvironmentVariable(String),
    /// The remote host could not be reached, or the handshake failed.
    ConnectionFailed(String),
    /// The remote host turned the user or the password down.
    AuthenticationFailed(String),
}

/// What a `SessionError` says.
pub enum SessionFault {
    MissingEnvironmentVariable(Seq<char>),
    ConnectionFailed(Seq<char>),
    AuthenticationFailed(Seq<char>),
}

impl SessionFault {
    /// The report of the fault, as shown to the operator.
    pub open spec fn message(self) -> Seq<char> {
        match self {
            SessionFault::MissingEnvironmentVariable(name) => "Missing environment variable: '"@
                + name + "'"@,
            SessionFault::ConnectionFailed(detail) => "Connection failed: "@ + detail,
            SessionFault::AuthenticationFailed(detail) => "Authentication failed: "@ + detail,
        }
    }
}

impl View for SessionError {
    type V = SessionFault;

    open spec fn view(&self) -> SessionFault {
        match self {
            SessionError::MissingEnvironmentVariable(name) => {
                SessionFault::MissingEnvironmentVariable(name@)
            },
            SessionError::ConnectionFailed(detail) => SessionFault::ConnectionFailed(detail@),
            SessionError::AuthenticationFailed(detail) => SessionFault::AuthenticationFailed(
                detail@,
            ),
        }
    }
}

impl Clone for SessionError {
    fn clone(&self) -> (copy: Self)
        ensures
            copy@ == self@,
    {
        match self {
            SessionError::MissingEnvironmentVariable(name) => {
                SessionError::MissingEnvironmentVariable(name.clone())
            },
            SessionError::ConnectionFailed(detail) => SessionError::ConnectionFailed(
                detail.clone(),
            ),
            SessionError::AuthenticationFailed(detail) => SessionError::AuthenticationFailed(
                detail.clone(),
            ),
        }
    }
}

impl SessionError {
    /// The report of the error, as shown to the operator.
    pub fn message(&self) -> (message: String)
        ensures
            message@ == self@.message(),
    {
        match self {
            SessionError::MissingEnvironmentVariable(name) => {
                let mut message = String::from_str("Missing environment variable: '");
                message.append(name.as_str());
                message.append("'");
                message
            },
            SessionError::ConnectionFailed(detail) => {
                let mut message = String::from_str("Connection failed: ");
                message.append(detail.as_str());
                message
            },
            SessionError::AuthenticationFailed(detail) => {
                let mut message = String::from_str("Authentication failed: ");
                message.append(detail.as_str());
                message
            },
        }
    }
}

/// Why a command could not be run: the process could not be started, or the
/// channel to the remote host failed.
#[derive(Debug)]
pub struct ExecutionError {
    pub reason: String,
}

impl View for ExecutionError {
    type V = Seq<char>;

    open spec fn view(&self) -> Seq<char> {
        self.reason@
    }
}

/// The characters of a resolved text, or the fault that stood in the way.
pub open spec fn text_outcome(outcome: Result<String, SessionError>) -> Result<
    Seq<char>,
    SessionFault,
> {
    match outcome {
        Ok(text) => Ok(text@),
        Err(error) => Err(error@),
    }
}

/// The mark that makes a field a reference to an environment variable.
pub open spec fn env_mark() -> Seq<char> {
    "$env:"@
}

/// The variable that a field refers to, if it refers to one: what follows the
/// mark `$env:` at its start.
pub open spec fn env_reference(value: Seq<char>) -> Option<Seq<char>> {
    if env_mark().is_prefix_of(value) {
        Some(value.skip(env_mark().len() as int))
    } else {
        None
    }
}

/// A field with its reference followed: the field itself where it refers to
/// no variable, else what the variable is bound to, and a fault where it is
/// not bound.
pub open spec fn resolved_text(value: Seq<char>, env: Map<Seq<char>, Seq<char>>) -> Result<
    Seq<char>,
    SessionFault,
> {
    match env_reference(value) {
        None => Ok(value),
        Some(name) => if env.contains_key(name) {
            Ok(env[name])
        } else {
            Err(SessionFault::MissingEnvironmentVariable(name))
        },
    }
}

/// An optional field with its reference followed.
pub open spec fn resolved_opt_text(
    value: Option<Seq<char>>,
    env: Map<Seq<char>, Seq<char>>,
) -> Result<Option<Seq<char>>, SessionFault> {
    match value {
        None => Ok(None),
        Some(value) => match resolved_text(value, env) {
            Ok(text) => Ok(Some(text)),
            Err(fault) => Err(fault),
        },
    }
}

/// A remote configuration with the references in host, user and password
/// followed, in this order; the fault is that of the first field that fails.
pub open spec fn resolved_remote(remote: RemoteView, env: Map<Seq<char>, Seq<char>>) -> Result<
    RemoteView,
    SessionFault,
> {
    match resolved_text(remote.host, env) {
        Err(fault) => Err(fault),
        Ok(host) => match resolved_text(remote.user, env) {
            Err(fault) => Err(fault),
            Ok(user) => match resolved_opt_text(remote.password, env) {
                Err(fault) => Err(fault),
                Ok(password) => Ok(RemoteView { host, port: remote.port, user, password }),
            },
        },
    }
}

/// A sudo configuration with the references in user and password followed, in
/// this order.
pub open spec fn resolved_sudo(sudo: SudoView, env: Map<Seq<char>, Seq<char>>) -> Result<
    SudoView,
    SessionFault,
> {
    match resolved_opt_text(sudo.user, env) {
        Err(fault) => Err(fault),
        Ok(user) => match resolved_opt_text(sudo.password, env) {
            Err(fault) => Err(fault),
            Ok(password) => Ok(SudoView { user, password }),
        },
    }
}

/// Words with their references followed; the fault is that of the first word
/// that fails.
pub open spec fn resolved_words(parts: Seq<Seq<char>>, env: Map<Seq<char>, Seq<char>>) -> Result<
    Seq<Seq<char>>,
    SessionFault,
>
    decreases parts.len(),
{
    if parts.len() == 0 {
        Ok(Seq::empty())
    } else {
        match resolved_words(parts.drop_last(), env) {
            Err(fault) => Err(fault),
            Ok(done) => match resolved_text(parts.last(), env) {
                Err(fault) => Err(fault),
                Ok(text) => Ok(done.push(text)),
            },
        }
    }
}

/// A command line with the references among its words followed: the words,
/// each resolved, joined by single spaces.
pub open spec fn resolved_command(command: Seq<char>, env: Map<Seq<char>, Seq<char>>) -> Result<
    Seq<char>,
    SessionFault,
> {
    match resolved_words(words(command), env) {
        Err(fault) => Err(fault),
        Ok(parts) => Ok(join(parts, " "@)),
    }
}

/// The user and the host that commands run as and on when no remote host is
/// configured.
#[derive(Debug)]
pub struct LocalIdentity {
    pub user: String,
    pub host: String,
}

/// What a `LocalIdentity` says.
pub struct LocalView {
    pub user: Seq<char>,
    pub host: Seq<char>,
}

impl View for LocalIdentity {
    type V = LocalView;

    open spec fn view(&self) -> LocalView {
        LocalView { user: self.user@, host: self.host@ }
    }
}

impl Clone for LocalIdentity {
    fn clone(&self) -> (copy: Self)
        ensures
            copy@ == self@,
    {
        LocalIdentity { user: self.user.clone(), host: self.host.clone() }
    }
}

/// An error of the operating system, as the host name lookup reports it.
#[verifier::external_type_specification]
#[verifier::external_body]
pub struct ExIoError(std::io::Error);

/// Calls `whoami::username`, which asks the operating system for the name of
/// the user that the process runs as and returns a stand-in where it cannot
/// tell. Nothing is claimed of the name.
#[verifier::external_body]
fn os_username() -> (name: String) {
    whoami::username()
}

/// Calls `whoami::fallible::hostname`, which asks the operating system for the
/// name of this machine, and fails where the system call fails or the name is
/// not valid UTF-8. Nothing is claimed of the outcome.
#[verifier::external_body]
fn os_hostname() -> (name: Result<String, std::io::Error>) {
    whoami::fallible::hostname()
}

impl LocalIdentity {
    /// The identity made of what the lookups gave: the host is `localhost`
    /// where its lookup failed.
    pub fn from_lookup(user: String, host: Option<String>) -> (me: Self)
        ensures
            me@.user == user@,
            me@.host == match host {
                Some(host) => host@,
                None => "localhost"@,
            },
    {
        match host {
            Some(host) => LocalIdentity { user, host },
            None => LocalIdentity { user, host: String::from_str("localhost") },
        }
    }

    /// Asks the operating system who runs this process, and where.
    pub fn detect() -> (me: Self) {
        let user = os_username();
        let host = match os_hostname() {
            Ok(host) => Some(host),
            Err(_) => None,
        };
        LocalIdentity::from_lookup(user, host)
    }
}

/// Where the commands of a session run.
pub enum SessionConfiguration {
    /// On this machine, through a shell.
    Local(LocalIdentity),
    /// On a remote host, with every reference in its configuration followed.
    Remote(RemoteConfig),
}

/// What a `SessionConfiguration` says.
pub enum Target {
    Local(LocalView),
    Remote(RemoteView),
}

impl View for SessionConfiguration {
    type V = Target;

    open spec fn view(&self) -> Target {
        match self {
            SessionConfiguration::Local(me) => Target::Local(me@),
            SessionConfiguration::Remote(remote) => Target::Remote(remote@),
        }
    }
}

impl Target {
    /// The user that commands run as when no other is asked for.
    pub open spec fn effective_user(self) -> Seq<char> {
        match self {
            Target::Local(me) => me.user,
            Target::Remote(remote) => remote.user,
        }
    }

    /// The host as a prompt shows it: the name of this machine, or, for a
    /// remote host, its name, a colon and the port number.
    pub open spec fn host(self) -> Seq<char> {
        match self {
            Target::Local(me) => me.host,
            Target::Remote(remote) => remote.host + ":"@ + decimal(remote.effective_port() as nat),
        }
    }
}

impl SessionConfiguration {
    /// The user that commands run as when no other is asked for.
    pub fn get_effective_user(&self) -> (user: String)
        ensures
            user@ == self@.effective_user(),
    {
        match self {
            SessionConfiguration::Local(me) => me.user.clone(),
            SessionConfiguration::Remote(remote) => remote.user.clone(),
        }
    }

    /// The host as a prompt shows it.
    pub fn get_host(&self) -> (host: String)
        ensures
            host@ == self@.host(),
    {
        match self {
            SessionConfiguration::Local(me) => me.host.clone(),
            SessionConfiguration::Remote(remote) => {
                let mut host = remote.host.clone();
                host.append(":");
                let port = decimal_string(remote.effective_port() as u64);
                host.append(port.as_str());
                host
            },
        }
    }
}

/// What a caller has to run for one command of a session.
#[derive(Debug)]
pub enum Invocation {
    /// Start `shell` with the arguments `flag` and `command`.
    Local { shell: String, flag: String, command: String },
    /// Run `command` on the session's remote host.
    Remote { command: String },
}

/// What an `Invocation` says.
pub enum InvocationView {
    Local { shell: Seq<char>, flag: Seq<char>, command: Seq<char> },
    Remote { command: Seq<char> },
}

impl View for Invocation {
    type V = InvocationView;

    open spec fn view(&self) -> InvocationView {
        match self {
            Invocation::Local { shell, flag, command } => InvocationView::Local {
                shell: shell@,
                flag: flag@,
                command: command@,
            },
            Invocation::Remote { command } => InvocationView::Remote { command: command@ },
        }
    }
}

/// What a byte buffer reads as when every ill-formed part of it is replaced by
/// the replacement character: the result of `String::from_utf8_lossy`.
pub uninterp spec fn utf8_lossy(bytes: Seq<u8>) -> Seq<char>;

/// Calls `String::from_utf8_lossy`, which decodes bytes as UTF-8 and puts the
/// replacement character in place of what is not. The result is a function of
/// the bytes alone and is named, not described; of well-formed UTF-8 it is the
/// text that the bytes encode.
#[verifier::external_body]
fn decode_lossy(bytes: &Vec<u8>) -> (text: String)
    ensures
        text@ == utf8_lossy(bytes@),
        valid_utf8(bytes@) ==> text@ == decode_utf8(bytes@),
{
    String::from_utf8_lossy(bytes).into_owned()
}

/// A session: where commands run, as whom, and the output of the last one.
pub struct CommandSession {
    session_configuration: SessionConfiguration,
    sudo: Option<SudoConfig>,
    stdout: Vec<u8>,
    stderr: Vec<u8>,
}

/// What a `CommandSession` holds.
pub struct SessionView {
    pub target: Target,
    pub sudo: Option<SudoView>,
    pub stdout: Seq<u8>,
    pub stderr: Seq<u8>,
}

impl SessionView {
    /// The session that a configuration asks for: remote where a remote host
    /// is configured, else local; the references of the remote configuration
    /// are followed first, then those of the sudo configuration. No output
    /// yet.
    pub open spec fn plan(
        remote: Option<RemoteView>,
        sudo: Option<SudoView>,
        env: Map<Seq<char>, Seq<char>>,
        me: LocalView,
    ) -> Result<SessionView, SessionFault> {
        let target = match remote {
            Some(remote) => match resolved_remote(remote, env) {
                Ok(remote) => Ok(Target::Remote(remote)),
                Err(fault) => Err(fault),
            },
            None => Ok(Target::Local(me)),
        };
        match target {
            Err(fault) => Err(fault),
            Ok(target) => match sudo {
                None => Ok(
                    SessionView { target, sudo: None, stdout: Seq::empty(), stderr: Seq::empty() },
                ),
                Some(sudo) => match resolved_sudo(sudo, env) {
                    Err(fault) => Err(fault),
                    Ok(sudo) => Ok(
                        SessionView {
                            target,
                            sudo: Some(sudo),
                            stdout: Seq::empty(),
                            stderr: Seq::empty(),
                        },
                    ),
                },
            },
        }
    }

    /// The user that the prompt shows: the sudo user where sudo is active,
    /// else the user of the session.
    pub open spec fn prompt_user(self) -> Seq<char> {
        match self.sudo {
            Some(sudo) => sudo.effective_user(),
            None => self.target.effective_user(),
        }
    }

    /// The prompt: `[user@host]`, then `#` where sudo is active and `$` where
    /// it is not.
    pub open spec fn prompt(self) -> Seq<char> {
        "["@ + self.prompt_user() + "@"@ + self.target.host() + "]"@ + (if self.sudo is Some {
            "#"@
        } else {
            "$"@
        })
    }

    /// The line that a shell is given for a command: the command itself, or,
    /// where sudo is active, the command run through `sudo` as the sudo user,
    /// with the password piped in and sudo's own prompt switched off.
    pub open spec fn command_line(self, command: Seq<char>) -> Seq<char> {
        match self.sudo {
            Some(sudo) => "echo "@ + sudo.effective_password() + " | sudo -kS -u "@
                + sudo.effective_user() + " -p '' "@ + command,
            None => command,
        }
    }

    /// What the caller has to run for a command: `sh -c` with the command line
    /// for a local session, the command line alone for a remote one.
    pub open spec fn invocation(self, command: Seq<char>) -> InvocationView {
        match self.target {
            Target::Local(_) => InvocationView::Local {
                shell: "sh"@,
                flag: "-c"@,
                command: self.command_line(command),
            },
            Target::Remote(_) => InvocationView::Remote { command: self.command_line(command) },
        }
    }

    /// The session with the output of its last command replaced.
    pub open spec fn with_output(self, stdout: Seq<u8>, stderr: Seq<u8>) -> SessionView {
        SessionView { stdout, stderr, ..self }
    }
}

impl View for CommandSession {
    type V = SessionView;

    closed spec fn view(&self) -> SessionView {
        SessionView {
            target: self.session_configuration@,
            sudo: opt_sudo(self.sudo),
            stdout: self.stdout@,
            stderr: self.stderr@,
        }
    }
}

/// The view of the outcome of setting up a session.
pub open spec fn session_outcome(outcome: Result<CommandSession, SessionError>) -> Result<
    SessionView,
    SessionFault,
> {
    match outcome {
        Ok(session) => Ok(session@),
        Err(error) => Err(error@),
    }
}

impl CommandSession {
    /// Sets up a session for a command. References to environment variables
    /// are followed now, in `env`; the first that is not bound there is the
    /// error.
    pub fn new(
        remote: Option<RemoteConfig>,
        sudo: Option<SudoConfig>,
        env: &Environment,
        me: &LocalIdentity,
    ) -> (session: Result<CommandSession, SessionError>)
        ensures
            session_outcome(session) == SessionView::plan(
                opt_remote(remote),
                opt_sudo(sudo),
                env@,
                me@,
            ),
    {
        let session_configuration = match remote {
            Some(remote_config) => {
                match Self::resolve_remote_config(remote_config, env) {
                    Ok(resolved) => SessionConfiguration::Remote(resolved),
                    Err(error) => {
                        return Err(error);
                    },
                }
            },
            None => SessionConfiguration::Local(me.clone()),
        };
        let sudo = match sudo {
            Some(sudo_config) => match Self::resolve_sudo_config(sudo_config, env) {
                Ok(resolved) => Some(resolved),
                Err(error) => {
                    return Err(error);
                },
            },
            None => None,
        };
        Ok(CommandSession { session_configuration, sudo, stdout: Vec::new(), stderr: Vec::new() })
    }

    /// The remote configuration to connect with, for a remote session.
    pub fn remote(&self) -> (remote: Option<RemoteConfig>)
        ensures
            opt_remote(remote) == match self@.target {
                Target::Remote(remote) => Some(remote),
                Target::Local(_) => None,
            },
    {
        match &self.session_configuration {
            SessionConfiguration::Remote(remote) => Some(remote.clone()),
            SessionConfiguration::Local(_) => None,
        }
    }

    /// The prompt to show before a command of this session.
    pub fn get_prompt(&self) -> (prompt: String)
        ensures
            prompt@ == self@.prompt(),
    {
        let mut prompt = String::from_str("[");
        let user = match &self.sudo {
            Some(sudo_config) => sudo_config.effective_user(),
            None => self.session_configuration.get_effective_user(),
        };
        prompt.append(user.as_str());
        prompt.append("@");
        prompt.append(self.session_configuration.get_host().as_str());
        prompt.append("]");
        if self.sudo.is_some() {
            prompt.append("#");
        } else {
            prompt.append("$");
        }
        prompt
    }

    /// The standard output of the last command, as text.
    pub fn get_stdout(&self) -> (text: String)
        ensures
            text@ == utf8_lossy(self@.stdout),
            valid_utf8(self@.stdout) ==> text@ == decode_utf8(self@.stdout),
    {
        decode_lossy(&self.stdout)
    }

    /// The standard error of the last command, as text.
    pub fn get_stderr(&self) -> (text: String)
        ensures
            text@ == utf8_lossy(self@.stderr),
            valid_utf8(self@.stderr) ==> text@ == decode_utf8(self@.stderr),
    {
        decode_lossy(&self.stderr)
    }

    /// What the caller has to run for `cmd`.
    pub fn run_command(&self, cmd: &str) -> (invocation: Invocation)
        ensures
            invocation@ == self@.invocation(cmd@),
    {
        let command = self.get_sudo_command(cmd);
        match &self.session_configuration {
            SessionConfiguration::Local(_) => Self::run_local_command("sh", command),
            SessionConfiguration::Remote(_) => Self::run_remote_command(command),
        }
    }

    /// Keeps what the last command wrote.
    pub fn store_output(&mut self, stdout: Vec<u8>, stderr: Vec<u8>)
        ensures
            final(self)@ == old(self)@.with_output(stdout@, stderr@),
    {
        self.stdout = stdout;
        self.stderr = stderr;
    }

    /// The invocation of a command line through a local shell.
    pub fn run_local_command(shell: &str, cmd: String) -> (invocation: Invocation)
        ensures
            invocation@ == (InvocationView::Local { shell: shell@, flag: "-c"@, command: cmd@ }),
    {
        Invocation::Local {
            shell: String::from_str(shell),
            flag: String::from_str("-c"),
            command: cmd,
        }
    }

    /// The invocation of a command line on the remote host.
    pub fn run_remote_command(cmd: String) -> (invocation: Invocation)
        ensures
            invocation@ == (InvocationView::Remote { command: cmd@ }),
    {
        Invocation::Remote { command: cmd }
    }

    /// Follows the references of a remote configuration.
    pub fn resolve_remote_config(remote_config: RemoteConfig, env: &Environment) -> (resolved:
        Result<RemoteConfig, SessionError>)
        ensures
            match resolved {
                Ok(remote) => resolved_remote(remote_config@, env@) == Ok::<
                    RemoteView,
                    SessionFault,
                >(remote@),
                Err(error) => resolved_remote(remote_config@, env@) == Err::<
                    RemoteView,
                    SessionFault,
                >(error@),
            },
    {
        let host = match Self::resolve_env_str(remote_config.host, env) {
            Ok(host) => host,
            Err(error) => {
                return Err(error);
            },
        };
        let user = match Self::resolve_env_str(remote_config.user, env) {
            Ok(user) => user,
            Err(error) => {
                return Err(error);
            },
        };
        let password = match Self::resolve_env_opt(remote_config.password, env) {
            Ok(password) => password,
            Err(error) => {
                return Err(error);
            },
        };
        Ok(RemoteConfig { host, port: remote_config.port, user, password })
    }

    /// Follows the references of a sudo configuration.
    pub fn resolve_sudo_config(sudo_config: SudoConfig, env: &Environment) -> (resolved: Result<
        SudoConfig,
        SessionError,
    >)
        ensures
            match resolved {
                Ok(sudo) => resolved_sudo(sudo_config@, env@) == Ok::<SudoView, SessionFault>(
                    sudo@,
                ),
                Err(error) => resolved_sudo(sudo_config@, env@) == Err::<SudoView, SessionFault>(
                    error@,
                ),
            },
    {
        let user = match Self::resolve_env_opt(sudo_config.user, env) {
            Ok(user) => user,
            Err(error) => {
                return Err(error);
            },
        };
        let password = match Self::resolve_env_opt(sudo_config.password, env) {
            Ok(password) => password,
            Err(error) => {
                return Err(error);
            },
        };
        Ok(SudoConfig { user, password })
    }

    /// Follows the reference of a field, if it is one.
    pub fn resolve_env_str(value: String, env: &Environment) -> (resolved: Result<
        String,
        SessionError,
    >)
        ensures
            text_outcome(resolved) == resolved_text(value@, env@),
    {
        if has_prefix(value.as_str(), "$env:") {
            let mark = "$env:".unicode_len();
            let name = tail_from(value.as_str(), mark);
            match env.get(name.as_str()) {
                Some(bound) => Ok(bound),
                None => Err(SessionError::MissingEnvironmentVariable(name)),
            }
        } else {
            Ok(value)
        }
    }

    /// Follows the reference of an optional field.
    pub fn resolve_env_opt(value_opt: Option<String>, env: &Environment) -> (resolved: Result<
        Option<String>,
        SessionError,
    >)
        ensures
            match resolved {
                Ok(text) => resolved_opt_text(opt_text(value_opt), env@) == Ok::<
                    Option<Seq<char>>,
                    SessionFault,
                >(opt_text(text)),
                Err(error) => resolved_opt_text(opt_text(value_opt), env@) == Err::<
                    Option<Seq<char>>,
                    SessionFault,
                >(error@),
            },
    {
        match value_opt {
            Some(value) => match Self::resolve_env_str(value, env) {
                Ok(text) => Ok(Some(text)),
                Err(error) => Err(error),
            },
            None => Ok(None),
        }
    }

    /// Follows the references among the words of a command, and joins the
    /// words by single spaces.
    pub fn resolve_command(command: &CommandType, env: &Environment) -> (resolved: Result<
        String,
        SessionError,
    >)
        ensures
            text_outcome(resolved) == resolved_command(command@.command(), env@),
    {
        let line = command.get_command();
        let parts = split_words(line.as_str());
        let mut cmd_parts_resolved: Vec<String> = Vec::new();
        let mut i: usize = 0;
        proof {
            assert(parts.deep_view().take(0) =~= Seq::empty());
            assert(cmd_parts_resolved.deep_view() =~= Seq::empty());
        }
        while i < parts.len()
            invariant
                i <= parts.len(),
                parts.deep_view() == words(command@.command()),
                resolved_words(parts.deep_view().take(i as int), env@) == Ok::<
                    Seq<Seq<char>>,
                    SessionFault,
                >(cmd_parts_resolved.deep_view()),
            decreases parts.len() - i,
        {
            proof {
                let next = parts.deep_view().take(i + 1);
                assert(next.drop_last() =~= parts.deep_view().take(i as int));
                assert(next.last() == parts[i as int]@);
            }
            let ghost before = cmd_parts_resolved.deep_view();
            match Self::resolve_env_str(parts[i].clone(), env) {
                Ok(text) => {
                    cmd_parts_resolved.push(text);
                    proof {
                        assert(cmd_parts_resolved.deep_view() =~= before.push(text@));
                    }
                },
                Err(error) => {
                    proof {
                        let next = parts.deep_view().take(i + 1);
                        assert(resolved_text(next.last(), env@) == Err::<Seq<char>, SessionFault>(
                            error@,
                        ));
                        assert(resolved_words(next, env@) == Err::<Seq<Seq<char>>, SessionFault>(
                            error@,
                        ));
                        Self::lemma_first_fault(parts.deep_view(), env@, i + 1);
                    }
                    return Err(error);
                },
            }
            i += 1;
        }
        proof {
            assert(parts.deep_view().take(parts.len() as int) =~= parts.deep_view());
        }
        Ok(join_strings(&cmd_parts_resolved, " "))
    }

    /// A fault among the first `n` words is the fault of all the words.
    proof fn lemma_first_fault(parts: Seq<Seq<char>>, env: Map<Seq<char>, Seq<char>>, n: int)
        requires
            0 <= n <= parts.len(),
            resolved_words(parts.take(n), env) is Err,
        ensures
            resolved_words(parts, env) == resolved_words(parts.take(n), env),
        decreases parts.len() - n,
    {
        if n < parts.len() {
            let longer = parts.take(n + 1);
            assert(longer.drop_last() =~= parts.take(n));
            Self::lemma_first_fault(parts, env, n + 1);
        } else {
            assert(parts.take(n) =~= parts);
        }
    }

    /// The line that a shell is given for `cmd`.
    pub fn get_sudo_command(&self, cmd: &str) -> (line: String)
        ensures
            line@ == self@.command_line(cmd@),
    {
        match &self.sudo {
            Some(sudo_config) => {
                let mut line = String::from_str("echo ");
                line.append(sudo_config.effective_password().as_str());
                line.append(" | sudo -kS -u ");
                line.append(sudo_config.effective_user().as_str());
                line.append(" -p '' ");
                line.append(cmd);
                line
            },
            None => String::from_str(cmd),
        }
    }
}

} // verus!
