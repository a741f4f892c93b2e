//! The script of a demo: stages, their actions, and how each is to be shown
//! and run.
//!
//! Optional fields stay optional here, as a script leaves them out; the value
//! that stands in for a missing one is given by the `*_default` functions and
//! by the `effective_*` functions of each view.

use crate::text::{join, join_strings, same_text};
use vstd::prelude::*;
use vstd::string::*;

verus! {

/// The characters of an optional string.
pub open spec fn opt_text(value: Option<String>) -> Option<Seq<char>> {
    match value {
        Some(text) => Some(text@),
        None => None,
    }
}

/// A copy of an optional string.
pub fn copy_opt_text(value: &Option<String>) -> (copy: Option<String>)
    ensures
        opt_text(copy) == opt_text(*value),
{
    match value {
        Some(text) => Some(text.clone()),
        None => None,
    }
}

/// How a piece of output is to look, as a script states it.
#[derive(Debug)]
pub struct StyleConfig {
    pub color: Option<String>,
    pub bold: Option<bool>,
    pub italic: Option<bool>,
}

/// What a `StyleConfig` says.
pub struct StyleView {
    pub color: Option<Seq<char>>,
    pub bold: Option<bool>,
    pub italic: Option<bool>,
}

/// The colours that a style can name.
#[derive(Clone, Copy, Debug, PartialEq, Eq, Structural)]
pub enum Color {
    Green,
    Yellow,
    Blue,
    Cyan,
    Red,
    Magenta,
    White,
}

/// A style with every choice made: what a renderer applies.
#[derive(Clone, Copy, Debug, PartialEq, Eq, Structural)]
pub struct TextStyle {
    pub color: Option<Color>,
    pub bold: bool,
    pub italic: bool,
}

/// The colour that a name stands for; white for a name that is not known.
pub open spec fn color_named(name: Seq<char>) -> Color {
    if name == "green"@ {
        Color::Green
    } else if name == "yellow"@ {
        Color::Yellow
    } else if name == "blue"@ {
        Color::Blue
    } else if name == "cyan"@ {
        Color::Cyan
    } else if name == "red"@ {
        Color::Red
    } else if name == "magenta"@ {
        Color::Magenta
    } else {
        Color::White
    }
}

impl StyleView {
    /// The style of plain output: nothing chosen.
    pub open spec fn plain() -> StyleView {
        StyleView { color: None, bold: None, italic: None }
    }

    /// The style of a stage title: bold white.
    pub open spec fn title() -> StyleView {
        StyleView { color: Some("white"@), bold: Some(true), italic: None }
    }

    /// The style of an error report: bold red.
    pub open spec fn error() -> StyleView {
        StyleView { color: Some("red"@), bold: Some(true), italic: None }
    }

    /// The style with every choice made: a colour only where one is named,
    /// bold and italic only where asked for.
    pub open spec fn resolved(self) -> TextStyle {
        TextStyle {
            color: match self.color {
                Some(name) => Some(color_named(name)),
                None => None,
            },
            bold: self.bold == Some(true),
            italic: self.italic == Some(true),
        }
    }
}

impl View for StyleConfig {
    type V = StyleView;

    open spec fn view(&self) -> StyleView {
        StyleView { color: opt_text(self.color), bold: self.bold, italic: self.italic }
    }
}

impl Clone for StyleConfig {
    fn clone(&self) -> (copy: Self)
        ensures
            copy@ == self@,
    {
        StyleConfig { color: copy_opt_text(&self.color), bold: self.bold, italic: self.italic }
    }
}

impl Default for StyleConfig {
    fn default() -> (style: Self)
        ensures
            style@ == StyleView::plain(),
    {
        StyleConfig { color: None, bold: None, italic: None }
    }
}

/// The view of an optional style, with the plain style for a missing one.
pub open spec fn style_or_plain(style: Option<StyleView>) -> StyleView {
    match style {
        Some(style) => style,
        None => StyleView::plain(),
    }
}

/// The view of an optional style.
pub open spec fn opt_style(style: Option<StyleConfig>) -> Option<StyleView> {
    match style {
        Some(style) => Some(style@),
        None => None,
    }
}

impl StyleConfig {
    /// The style of a stage title.
    pub fn title() -> (style: Self)
        ensures
            style@ == StyleView::title(),
    {
        let mut title = StyleConfig::default();
        title.bold = Some(true);
        title.color = Some(String::from_str("white"));
        title
    }

    /// The style of an error report.
    pub fn error() -> (style: Self)
        ensures
            style@ == StyleView::error(),
    {
        let mut error = StyleConfig::default();
        error.bold = Some(true);
        error.color = Some(String::from_str("red"));
        error
    }

    /// The style to use where a script may have left it out.
    pub fn or_plain(style: &Option<StyleConfig>) -> (chosen: Self)
        ensures
            chosen@ == style_or_plain(opt_style(*style)),
    {
        match style {
            Some(style) => style.clone(),
            None => StyleConfig::default(),
        }
    }

    /// Makes every choice that the script left open.
    pub fn into_style(&self) -> (style: TextStyle)
        ensures
            style == self@.resolved(),
    {
        let color = match &self.color {
            Some(name) => {
                let name = name.as_str();
                if same_text(name, "green") {
                    Some(Color::Green)
                } else if same_text(name, "yellow") {
                    Some(Color::Yellow)
                } else if same_text(name, "blue") {
                    Some(Color::Blue)
                } else if same_text(name, "cyan") {
                    Some(Color::Cyan)
                } else if same_text(name, "red") {
                    Some(Color::Red)
                } else if same_text(name, "magenta") {
                    Some(Color::Magenta)
                } else {
                    Some(Color::White)
                }
            },
            None => None,
        };
        let bold = match self.bold {
            Some(bold) => bold,
            None => false,
        };
        let italic = match self.italic {
            Some(italic) => italic,
            None => false,
        };
        TextStyle { color, bold, italic }
    }
}

impl Default for TextStyle {
    fn default() -> (style: Self)
        ensures
            style == (TextStyle { color: None, bold: false, italic: false }),
    {
        TextStyle { color: None, bold: false, italic: false }
    }
}

/// A command as a script states it: one line, or several to run in order,
/// each only if the one before it succeeded.
pub enum CommandType {
    Single(String),
    Multiple(Vec<String>),
}

/// What a `CommandType` says.
pub enum CommandView {
    Single(Seq<char>),
    Multiple(Seq<Seq<char>>),
}

impl CommandView {
    /// The one line that a shell is given: a single command as it is, several
    /// joined by `" && "`.
    pub open spec fn command(self) -> Seq<char> {
        match self {
            CommandView::Single(command) => command,
            CommandView::Multiple(commands) => join(commands, " && "@),
        }
    }
}

impl View for CommandType {
    type V = CommandView;

    open spec fn view(&self) -> CommandView {
        match self {
            CommandType::Single(command) => CommandView::Single(command@),
            CommandType::Multiple(commands) => CommandView::Multiple(commands.deep_view()),
        }
    }
}

/// A copy of a list of strings.
pub fn copy_texts(texts: &Vec<String>) -> (copy: Vec<String>)
    ensures
        copy.deep_view() == texts.deep_view(),
{
    let mut copy: Vec<String> = Vec::new();
    let mut i: usize = 0;
    while i < texts.len()
        invariant
            i <= texts.len(),
            copy.deep_view() == texts.deep_view().take(i as int),
        decreases texts.len() - i,
    {
        let ghost before = copy.deep_view();
        copy.push(texts[i].clone());
        proof {
            assert(copy.deep_view() =~= before.push(texts[i as int]@));
            assert(texts.deep_view().take(i + 1) =~= before.push(texts[i as int]@));
        }
        i += 1;
    }
    proof {
        assert(texts.deep_view().take(texts.len() as int) =~= texts.deep_view());
    }
    copy
}

impl Clone for CommandType {
    fn clone(&self) -> (copy: Self)
        ensures
            copy@ == self@,
    {
        match self {
            CommandType::Single(command) => CommandType::Single(command.clone()),
            CommandType::Multiple(commands) => CommandType::Multiple(copy_texts(commands)),
        }
    }
}

impl CommandType {
    /// The one line that a shell is given.
    pub fn get_command(&self) -> (command: String)
        ensures
            command@ == self@.command(),
    {
        match self {
            CommandType::Single(command) => command.clone(),
            CommandType::Multiple(commands) => join_strings(commands, " && "),
        }
    }
}

/// The user to become before a command runs, and the password for it. Either
/// may be a reference to an environment variable.
#[derive(Debug)]
pub struct SudoConfig {
    pub user: Option<String>,
    pub password: Option<String>,
}

/// What a `SudoConfig` says.
pub struct SudoView {
    pub user: Option<Seq<char>>,
    pub password: Option<Seq<char>>,
}

impl SudoView {
    /// The user to become: `root` where none is given.
    pub open spec fn effective_user(self) -> Seq<char> {
        match self.user {
            Some(user) => user,
            None => "root"@,
        }
    }

    /// The password to hand over: empty where none is given.
    pub open spec fn effective_password(self) -> Seq<char> {
        match self.password {
            Some(password) => password,
            None => Seq::empty(),
        }
    }
}

impl View for SudoConfig {
    type V = SudoView;

    open spec fn view(&self) -> SudoView {
        SudoView { user: opt_text(self.user), password: opt_text(self.password) }
    }
}

impl Clone for SudoConfig {
    fn clone(&self) -> (copy: Self)
        ensures
            copy@ == self@,
    {
        SudoConfig { user: copy_opt_text(&self.user), password: copy_opt_text(&self.password) }
    }
}

impl Default for SudoConfig {
    fn default() -> (sudo: Self)
        ensures
            sudo@ == (SudoView { user: None, password: None }),
    {
        SudoConfig { user: None, password: None }
    }
}

impl SudoConfig {
    /// The user of a script that names none.
    pub fn sudo_user_default() -> (user: Option<String>)
        ensures
            opt_text(user) == Some("root"@),
    {
        Some(String::from_str("root"))
    }

    /// The password of a script that gives none.
    pub fn password_default() -> (password: Option<String>)
        ensures
            opt_text(password) == Some(Seq::<char>::empty()),
    {
        Some(String::new())
    }

    /// The user to become.
    pub fn effective_user(&self) -> (user: String)
        ensures
            user@ == self@.effective_user(),
    {
        match &self.user {
            Some(user) => user.clone(),
            None => String::from_str("root"),
        }
    }

    /// The password to hand over.
    pub fn effective_password(&self) -> (password: String)
        ensures
            password@ == self@.effective_password(),
    {
        match &self.password {
            Some(password) => password.clone(),
            None => String::new(),
        }
    }
}

/// The host to run a command on, and how to log in there. Host, user and
/// password may each be a reference to an environment variable.
#[derive(Debug)]
pub struct RemoteConfig {
    pub host: String,
    pub port: Option<u16>,
    pub user: String,
    pub password: Option<String>,
}

/// What a `RemoteConfig` says.
pub struct RemoteView {
    pub host: Seq<char>,
    pub port: Option<u16>,
    pub user: Seq<char>,
    pub password: Option<Seq<char>>,
}

impl RemoteView {
    /// The port to connect to: 22 where none is given.
    pub open spec fn effective_port(self) -> u16 {
        match self.port {
            Some(port) => port,
            None => 22,
        }
    }

    /// The password to log in with: empty where none is given.
    pub open spec fn effective_password(self) -> Seq<char> {
        match self.password {
            Some(password) => password,
            None => Seq::empty(),
        }
    }
}

impl View for RemoteConfig {
    type V = RemoteView;

    open spec fn view(&self) -> RemoteView {
        RemoteView {
            host: self.host@,
            port: self.port,
            user: self.user@,
            password: opt_text(self.password),
        }
    }
}

impl Clone for RemoteConfig {
    fn clone(&self) -> (copy: Self)
        ensures
            copy@ == self@,
    {
        RemoteConfig {
            host: self.host.clone(),
            port: self.port,
            user: self.user.clone(),
            password: copy_opt_text(&self.password),
        }
    }
}

impl Default for RemoteConfig {
    fn default() -> (remote: Self)
        ensures
            remote@ == (RemoteView {
                host: Seq::empty(),
                port: None,
                user: Seq::empty(),
                password: None,
            }),
    {
        RemoteConfig { host: String::new(), port: None, user: String::new(), password: None }
    }
}

impl RemoteConfig {
    /// The port that a script means where it names none.
    pub fn port_default() -> (port: Option<u16>)
        ensures
            port == Some(22u16),
    {
        Some(22)
    }

    /// The password of a script that gives none.
    pub fn password_default() -> (password: Option<String>)
        ensures
            opt_text(password) == Some(Seq::<char>::empty()),
    {
        Some(String::new())
    }

    /// The port to connect to.
    pub fn effective_port(&self) -> (port: u16)
        ensures
            port == self@.effective_port(),
    {
        match self.port {
            Some(port) => port,
            None => 22,
        }
    }

    /// The password to log in with.
    pub fn effective_password(&self) -> (password: String)
        ensures
            password@ == self@.effective_password(),
    {
        match &self.password {
            Some(password) => password.clone(),
            None => String::new(),
        }
    }
}

/// The view of an optional sudo configuration.
pub open spec fn opt_sudo(sudo: Option<SudoConfig>) -> Option<SudoView> {
    match sudo {
        Some(sudo) => Some(sudo@),
        None => None,
    }
}

/// The view of an optional remote configuration.
pub open spec fn opt_remote(remote: Option<RemoteConfig>) -> Option<RemoteView> {
    match remote {
        Some(remote) => Some(remote@),
        None => None,
    }
}

/// How often a command runs, and the pause in milliseconds between two runs.
#[derive(Clone, Copy, Debug)]
pub struct LoopConfig {
    pub times: u32,
    pub delay: Option<u64>,
}

impl LoopConfig {
    /// The pause between two runs: none where the script gives none.
    pub open spec fn spec_effective_delay(self) -> u64 {
        match self.delay {
            Some(delay) => delay,
            None => 0,
        }
    }

    /// The pause of a script that gives none.
    pub fn delay_default() -> (delay: Option<u64>)
        ensures
            delay == Some(0u64),
    {
        Some(0)
    }

    /// The pause between two runs.
    #[verifier::when_used_as_spec(spec_effective_delay)]
    pub fn effective_delay(self) -> (delay: u64)
        ensures
            delay == self.spec_effective_delay(),
    {
        match self.delay {
            Some(delay) => delay,
            None => 0,
        }
    }
}

impl Default for LoopConfig {
    fn default() -> (repeat: Self)
        ensures
            repeat == (LoopConfig { times: 0, delay: None }),
    {
        LoopConfig { times: 0, delay: None }
    }
}

/// The typing speed, in milliseconds for each character, where a script gives
/// none.
pub open spec fn speed_or_default(speed: Option<u64>) -> u64 {
    match speed {
        Some(speed) => speed,
        None => 50,
    }
}

/// Whether output is hidden, where a script may have left the flag out.
pub open spec fn flag_or_default(flag: Option<bool>) -> bool {
    flag == Some(true)
}

/// The repetition of a command, where a script may have left it out: once,
/// without pause.
pub open spec fn loop_or_default(repeat: Option<LoopConfig>) -> LoopConfig {
    match repeat {
        Some(repeat) => repeat,
        None => LoopConfig { times: 1, delay: Some(0) },
    }
}

/// One step of a demo.
pub enum Action {
    /// Text that is typed out character by character.
    Message { text: String, style: Option<StyleConfig>, speed: Option<u64> },
    /// A shell command whose output is shown.
    Command {
        command: CommandType,
        sudo: Option<SudoConfig>,
        hide_stdout: Option<bool>,
        hide_stderr: Option<bool>,
        remote: Option<RemoteConfig>,
        loop_config: Option<LoopConfig>,
    },
}

/// What an `Action` says.
pub enum ActionView {
    Message { text: Seq<char>, style: Option<StyleView>, speed: Option<u64> },
    Command {
        command: CommandView,
        sudo: Option<SudoView>,
        hide_stdout: Option<bool>,
        hide_stderr: Option<bool>,
        remote: Option<RemoteView>,
        loop_config: Option<LoopConfig>,
    },
}

impl View for Action {
    type V = ActionView;

    open spec fn view(&self) -> ActionView {
        match self {
            Action::Message { text, style, speed } => ActionView::Message {
                text: text@,
                style: opt_style(*style),
                speed: *speed,
            },
            Action::Command {
                command,
                sudo,
                hide_stdout,
                hide_stderr,
                remote,
                loop_config,
            } => ActionView::Command {
                command: command@,
                sudo: opt_sudo(*sudo),
                hide_stdout: *hide_stdout,
                hide_stderr: *hide_stderr,
                remote: opt_remote(*remote),
                loop_config: *loop_config,
            },
        }
    }
}

impl Action {
    /// The typing speed of a script that gives none.
    pub fn speed_default() -> (speed: Option<u64>)
        ensures
            speed == Some(50u64),
            speed_or_default(None) == speed->0,
    {
        Some(50)
    }

    /// Whether standard output is hidden where a script does not say.
    pub fn stdout_default() -> (hide: Option<bool>)
        ensures
            hide == Some(false),
            flag_or_default(None) == hide->0,
    {
        Some(false)
    }

    /// Whether standard error is hidden where a script does not say.
    pub fn stderr_default() -> (hide: Option<bool>)
        ensures
            hide == Some(false),
            flag_or_default(None) == hide->0,
    {
        Some(false)
    }

    /// The repetition of a command where a script gives none.
    pub fn loop_config_default() -> (repeat: Option<LoopConfig>)
        ensures
            repeat == Some(LoopConfig { times: 1, delay: Some(0) }),
            loop_or_default(None) == repeat->0,
    {
        Some(LoopConfig { times: 1, delay: LoopConfig::delay_default() })
    }
}

/// A named group of actions.
pub struct Stage {
    pub name: String,
    pub actions: Vec<Action>,
}

/// What a `Stage` says.
pub struct StageView {
    pub name: Seq<char>,
    pub actions: Seq<ActionView>,
}

impl View for Stage {
    type V = StageView;

    open spec fn view(&self) -> StageView {
        StageView {
            name: self.name@,
            actions: Seq::new(self.actions@.len(), |i: int| self.actions@[i]@),
        }
    }
}

/// A whole script.
pub struct Config {
    pub stages: Vec<Stage>,
}

/// Whether an engine can play these stages: there is at least one, and none is
/// without actions.
pub open spec fn playable(stages: Seq<StageView>) -> bool {
    &&& stages.len() > 0
    &&& forall|i: int| 0 <= i < stages.len() ==> (#[trigger] stages[i]).actions.len() > 0
}

impl View for Config {
    type V = Seq<StageView>;

    open spec fn view(&self) -> Seq<StageView> {
        Seq::new(self.stages@.len(), |i: int| self.stages@[i]@)
    }
}

impl Default for Config {
    fn default() -> (config: Self)
        ensures
            config@ == Seq::<StageView>::empty(),
    {
        let config = Config { stages: Vec::new() };
        proof {
            assert(config@ =~= Seq::<StageView>::empty());
        }
        config
    }
}

/// Why a script cannot be played.
#[derive(Clone, Copy, Debug, PartialEq, Eq, Structural)]
pub enum ConfigShapeError {
    /// The script has no stage.
    NoStages,
    /// The stage with this index has no action.
    EmptyStage(usize),
}

impl Config {
    /// Checks that an engine can play the script. The error names the first
    /// stage that stands in the way.
    pub fn validate_config(config: &Config) -> (checked: Result<(), ConfigShapeError>)
        ensures
            match checked {
                Ok(()) => playable(config@),
                Err(ConfigShapeError::NoStages) => config@.len() == 0,
                Err(ConfigShapeError::EmptyStage(at)) => {
                    &&& at < config@.len()
                    &&& config@[at as int].actions.len() == 0
                    &&& forall|i: int| 0 <= i < at ==> (#[trigger] config@[i]).actions.len() > 0
                },
            },
    {
        if config.stages.len() == 0 {
            return Err(ConfigShapeError::NoStages);
        }
        let mut i: usize = 0;
        while i < config.stages.len()
            invariant
                i <= config.stages.len(),
                config@.len() == config.stages.len(),
                forall|j: int| 0 <= j < i ==> (#[trigger] config@[j]).actions.len() > 0,
            decreases config.stages.len() - i,
        {
            assert(config@[i as int].actions.len() == config.stages[i as int].actions.len());
            if config.stages[i].actions.len() == 0 {
                return Err(ConfigShapeError::EmptyStage(i));
            }
            i += 1;
        }
        Ok(())
    }
}

} // verus!
