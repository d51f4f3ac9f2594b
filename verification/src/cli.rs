//! The commands of the client, the request that each begins with, and the
//! rule of `--watch`.
use vstd::prelude::*;
use vstd::string::StringExecFns;
use crate::get_base_url;
use crate::text::{decimal, decimal_of, string_of};

verus! {

/// A parsed command line: the command to run and, with `watch`, the pause in
/// milliseconds before it is run again.
pub struct Cli {
    pub command: TopLevelCommand,
    pub watch: Option<u64>,
}

/// What the client is asked to do.
pub enum TopLevelCommand {
    Node(NodeCmd),
    Runner(RunnerCmd),
    Instance(InstanceCmd),
    Auth(AuthCmd),
    Logs { instance_id: String, lines: u64 },
}

/// The commands on nodes.
pub enum NodeCmd {
    List,
    Get { node_id: String },
}

/// The commands on runner groups.
pub enum RunnerCmd {
    List,
    Details { runner_id: String },
    Usage { runner_id: String },
    Control { runner_id: String, command: String },
    Bill { runner_id: String },
}

/// The commands on instances.
pub enum InstanceCmd {
    Usage { instance_id: String },
}

/// The commands on the session.
pub enum AuthCmd {
    Whoami,
    Discover,
    Login { email: String, password: String },
}

/// What follows a run of the command.
#[derive(Clone, Copy, Debug, PartialEq, Eq, Structural)]
pub enum Watch {
    /// The command was run once and the program ends.
    Once,
    /// The pause asked for is under 30 milliseconds: the program says so
    /// and ends.
    TooFast,
    /// After a pause of `millis` milliseconds the screen is cleared and the
    /// command is run again.
    Again { millis: u64 },
}

/// What follows a run of the command under `watch`.
pub open spec fn watch_rule(watch: Option<u64>) -> Watch {
    match watch {
        None => Watch::Once,
        Some(millis) => if millis < 30 {
            Watch::TooFast
        } else {
            Watch::Again { millis }
        },
    }
}

/// The path, below the root of the API, of the request that `command`
/// begins with.
pub open spec fn path_of(command: TopLevelCommand) -> Seq<char> {
    match command {
        TopLevelCommand::Node(NodeCmd::List) => "nodes"@,
        TopLevelCommand::Node(NodeCmd::Get { node_id }) => "node/"@ + node_id@,
        TopLevelCommand::Runner(RunnerCmd::List) => "runners"@,
        TopLevelCommand::Runner(RunnerCmd::Details { runner_id }) => "runner/"@ + runner_id@,
        TopLevelCommand::Runner(RunnerCmd::Usage { runner_id }) => "usage/group/"@ + runner_id@,
        TopLevelCommand::Runner(RunnerCmd::Control { runner_id, command }) => "control/"@
            + runner_id@ + "/"@ + command@,
        TopLevelCommand::Runner(RunnerCmd::Bill { runner_id }) => "usage/group/"@ + runner_id@,
        TopLevelCommand::Instance(InstanceCmd::Usage { instance_id }) => "usage/single/"@
            + instance_id@,
        TopLevelCommand::Auth(AuthCmd::Whoami) => "account/me"@,
        TopLevelCommand::Auth(AuthCmd::Discover) => "discover"@,
        TopLevelCommand::Auth(AuthCmd::Login { .. }) => "auth/login"@,
        TopLevelCommand::Logs { instance_id, lines } => "logs/"@ + instance_id@ + "/"@ + decimal(
            lines as nat,
        ),
    }
}

/// Whether `command` needs a token: every command but the login.
pub open spec fn wants_token(command: TopLevelCommand) -> bool {
    !(command matches TopLevelCommand::Auth(AuthCmd::Login { .. }))
}

impl Cli {
    /// What follows a run of the command: with `--watch` it is run again
    /// after the pause, unless the pause is under 30 milliseconds.
    pub fn after_run(&self) -> (then: Watch)
        ensures
            then == watch_rule(self.watch),
    {
        match self.watch {
            None => Watch::Once,
            Some(millis) => {
                if millis < 30 {
                    Watch::TooFast
                } else {
                    Watch::Again { millis }
                }
            },
        }
    }
}

impl TopLevelCommand {
    /// Whether the command needs a token: every command but the login.
    pub fn needs_token(&self) -> (needed: bool)
        ensures
            needed == wants_token(*self),
    {
        match self {
            TopLevelCommand::Auth(AuthCmd::Login { .. }) => false,
            _ => true,
        }
    }

    /// The address of the request that the command begins with.
    pub fn url(&self) -> (url: String)
        ensures
            url@ == "https://api.artisanhosting.net/v1/"@ + path_of(*self),
    {
        let mut url = String::from_str(get_base_url());
        let ghost base = url@;
        match self {
            TopLevelCommand::Node(NodeCmd::List) => {
                url.append("nodes");
            },
            TopLevelCommand::Node(NodeCmd::Get { node_id }) => {
                url.append("node/");
                url.append(node_id.as_str());
                assert(url@ =~= base + ("node/"@ + node_id@));
            },
            TopLevelCommand::Runner(RunnerCmd::List) => {
                url.append("runners");
            },
            TopLevelCommand::Runner(RunnerCmd::Details { runner_id }) => {
                url.append("runner/");
                url.append(runner_id.as_str());
                assert(url@ =~= base + ("runner/"@ + runner_id@));
            },
            TopLevelCommand::Runner(RunnerCmd::Usage { runner_id }) => {
                url.append("usage/group/");
                url.append(runner_id.as_str());
                assert(url@ =~= base + ("usage/group/"@ + runner_id@));
            },
            TopLevelCommand::Runner(RunnerCmd::Control { runner_id, command }) => {
                url.append("control/");
                url.append(runner_id.as_str());
                url.append("/");
                url.append(command.as_str());
                assert(url@ =~= base + ("control/"@ + runner_id@ + "/"@ + command@));
            },
            TopLevelCommand::Runner(RunnerCmd::Bill { runner_id }) => {
                url.append("usage/group/");
                url.append(runner_id.as_str());
                assert(url@ =~= base + ("usage/group/"@ + runner_id@));
            },
            TopLevelCommand::Instance(InstanceCmd::Usage { instance_id }) => {
                url.append("usage/single/");
                url.append(instance_id.as_str());
                assert(url@ =~= base + ("usage/single/"@ + instance_id@));
            },
            TopLevelCommand::Auth(AuthCmd::Whoami) => {
                url.append("account/me");
            },
            TopLevelCommand::Auth(AuthCmd::Discover) => {
                url.append("discover");
            },
            TopLevelCommand::Auth(AuthCmd::Login { .. }) => {
                url.append("auth/login");
            },
            TopLevelCommand::Logs { instance_id, lines } => {
                url.append("logs/");
                url.append(instance_id.as_str());
                url.append("/");
                let count = string_of(&decimal_of(*lines));
                url.append(count.as_str());
                assert(url@ =~= base + ("logs/"@ + instance_id@ + "/"@ + decimal(*lines as nat)));
            },
        }
        url
    }
}

/// The address at which the role of the user is asked, once the account is
/// known.
pub fn whoami_url() -> (url: String)
    ensures
        url@ == "https://api.artisanhosting.net/v1/"@ + "whoami"@,
{
    let mut url = String::from_str(get_base_url());
    url.append("whoami");
    url
}

/// The address at which the bill for `instances` instances is asked.
pub fn billing_url(instances: u64) -> (url: String)
    ensures
        url@ == "https://api.artisanhosting.net/v1/"@ + "billing/calculate?instances="@ + decimal(
            instances as nat,
        ),
{
    let mut url = String::from_str(get_base_url());
    url.append("billing/calculate?instances=");
    let count = string_of(&decimal_of(instances));
    url.append(count.as_str());
    url
}

/// The name under which a command to `runner_id` is reported: that of the
/// group where the server names the group `general`, else that of the
/// runner.
pub open spec fn target_of(reported: Seq<char>, runner_id: Seq<char>) -> Seq<char> {
    if reported == "general"@ {
        runner_id + " runner group"@
    } else {
        runner_id
    }
}

/// The name under which a command to `runner_id` is reported, where the
/// server answered for `reported`.
pub fn target_name(reported: &str, runner_id: &str) -> (name: String)
    ensures
        name@ == target_of(reported@, runner_id@),
{
    let mut name = String::from_str(runner_id);
    if String::from_str(reported) == String::from_str("general") {
        name.append(" runner group");
    }
    name
}

} // verus!
