//! Command-line subcommands and their parsing.

use vstd::prelude::*;
use crate::text::{cat, owned, str_eq};

verus! {

/// A subcommand of the daemon's command line.
#[derive(Clone, Copy, Debug, PartialEq, Eq, Structural)]
pub enum Command {
    Run,
    Login,
    Logout,
    WhoAmI,
    Users,
    Requests,
    Doctor,
    CheckConnectivity,
    LatestIncidents,
    InstallHint,
    Help,
}

/// A command-line argument that names no subcommand.
#[derive(Clone, Debug)]
pub struct UnknownCommand {
    pub arg: String,
}

impl UnknownCommand {
    /// The text shown to the user: `unknown command: <arg>`.
    pub fn message(&self) -> (res: String)
        ensures
            res@ == "unknown command: "@ + self.arg@,
    {
        cat("unknown command: ", self.arg.as_str())
    }
}

/// The subcommand that an argument names, if any; every spelling that the
/// daemon accepts is listed here.
pub open spec fn command_named(a: Seq<char>) -> Option<Command> {
    if a == "run"@ || a == "--run"@ {
        Some(Command::Run)
    } else if a == "login"@ || a == "--login"@ {
        Some(Command::Login)
    } else if a == "logout"@ || a == "--logout"@ {
        Some(Command::Logout)
    } else if a == "whoami"@ || a == "--whoami"@ || a == "who"@ {
        Some(Command::WhoAmI)
    } else if a == "users"@ || a == "--users"@ {
        Some(Command::Users)
    } else if a == "requests"@ || a == "--requests"@ || a == "join-requests"@ {
        Some(Command::Requests)
    } else if a == "doctor"@ || a == "--doctor"@ {
        Some(Command::Doctor)
    } else if a == "check-connectivity"@ || a == "--check-connectivity"@ {
        Some(Command::CheckConnectivity)
    } else if a == "latest-incidents"@ || a == "--latest-incidents"@ {
        Some(Command::LatestIncidents)
    } else if a == "install-hint"@ || a == "--install-hint"@ || a == "install"@ {
        Some(Command::InstallHint)
    } else if a == "--help"@ || a == "-h"@ || a == "help"@ {
        Some(Command::Help)
    } else {
        None
    }
}

impl Command {
    /// Parses the first command-line argument. No argument means `Run`; an
    /// argument that names no subcommand is an error that carries it.
    pub fn parse_arg(arg: Option<&str>) -> (res: Result<Command, UnknownCommand>)
        ensures
            arg is None ==> res == Ok::<Command, UnknownCommand>(Command::Run),
            arg matches Some(a) ==> match command_named(a@) {
                Some(c) => res matches Ok(r) && r == c,
                None => res matches Err(e) && e.arg@ == a@,
            },
    {
        match arg {
            None => Ok(Command::Run),
            Some(a) => {
                if str_eq(a, "run") || str_eq(a, "--run") {
                    Ok(Command::Run)
                } else if str_eq(a, "login") || str_eq(a, "--login") {
                    Ok(Command::Login)
                } else if str_eq(a, "logout") || str_eq(a, "--logout") {
                    Ok(Command::Logout)
                } else if str_eq(a, "whoami") || str_eq(a, "--whoami") || str_eq(a, "who") {
                    Ok(Command::WhoAmI)
                } else if str_eq(a, "users") || str_eq(a, "--users") {
                    Ok(Command::Users)
                } else if str_eq(a, "requests") || str_eq(a, "--requests") || str_eq(
                    a,
                    "join-requests",
                ) {
                    Ok(Command::Requests)
                } else if str_eq(a, "doctor") || str_eq(a, "--doctor") {
                    Ok(Command::Doctor)
                } else if str_eq(a, "check-connectivity") || str_eq(a, "--check-connectivity") {
                    Ok(Command::CheckConnectivity)
                } else if str_eq(a, "latest-incidents") || str_eq(a, "--latest-incidents") {
                    Ok(Command::LatestIncidents)
                } else if str_eq(a, "install-hint") || str_eq(a, "--install-hint") || str_eq(
                    a,
                    "install",
                ) {
                    Ok(Command::InstallHint)
                } else if str_eq(a, "--help") || str_eq(a, "-h") || str_eq(a, "help") {
                    Ok(Command::Help)
                } else {
                    Err(UnknownCommand { arg: owned(a) })
                }
            },
        }
    }
}

/// The spellings of each subcommand on the command line.
pub open spec fn spellings_of(c: Command) -> Seq<Seq<char>> {
    match c {
        Command::Run => seq!["run"@, "--run"@],
        Command::Login => seq!["login"@, "--login"@],
        Command::Logout => seq!["logout"@, "--logout"@],
        Command::WhoAmI => seq!["whoami"@, "--whoami"@, "who"@],
        Command::Users => seq!["users"@, "--users"@],
        Command::Requests => seq!["requests"@, "--requests"@, "join-requests"@],
        Command::Doctor => seq!["doctor"@, "--doctor"@],
        Command::CheckConnectivity => seq!["check-connectivity"@, "--check-connectivity"@],
        Command::LatestIncidents => seq!["latest-incidents"@, "--latest-incidents"@],
        Command::InstallHint => seq!["install-hint"@, "--install-hint"@, "install"@],
        Command::Help => seq!["--help"@, "-h"@, "help"@],
    }
}

proof fn lemma_each_spelling_parses()
    ensures
        forall|c: Command, i: int| 0 <= i < spellings_of(c).len() ==> command_named(#[trigger] spellings_of(c)[i]) == Some(c),
{
    assert(command_named(spellings_of(Command::Run)[0]) == Some(Command::Run)) by {
        reveal_strlit("run");
    }
    assert(command_named(spellings_of(Command::Run)[1]) == Some(Command::Run)) by {
        reveal_strlit("--run");
    }
    assert(command_named(spellings_of(Command::Login)[0]) == Some(Command::Login)) by {
        reveal_strlit("login");
        reveal_strlit("run");
        assert("login"@.len() != "run"@.len());
        reveal_strlit("--run");
        assert("login"@[0] != "--run"@[0]);
    }
    assert(command_named(spellings_of(Command::Login)[1]) == Some(Command::Login)) by {
        reveal_strlit("--login");
        reveal_strlit("run");
        assert("--login"@.len() != "run"@.len());
        reveal_strlit("--run");
        assert("--login"@.len() != "--run"@.len());
    }
    assert(command_named(spellings_of(Command::Logout)[0]) == Some(Command::Logout)) by {
        reveal_strlit("logout");
        reveal_strlit("run");
        assert("logout"@.len() != "run"@.len());
        reveal_strlit("--run");
        assert("logout"@.len() != "--run"@.len());
        reveal_strlit("login");
        assert("logout"@.len() != "login"@.len());
        reveal_strlit("--login");
        assert("logout"@.len() != "--login"@.len());
    }
    assert(command_named(spellings_of(Command::Logout)[1]) == Some(Command::Logout)) by {
        reveal_strlit("--logout");
        reveal_strlit("run");
        assert("--logout"@.len() != "run"@.len());
        reveal_strlit("--run");
        assert("--logout"@.len() != "--run"@.len());
        reveal_strlit("login");
        assert("--logout"@.len() != "login"@.len());
        reveal_strlit("--login");
        assert("--logout"@.len() != "--login"@.len());
    }
    assert(command_named(spellings_of(Command::WhoAmI)[0]) == Some(Command::WhoAmI)) by {
        reveal_strlit("whoami");
        reveal_strlit("run");
        assert("whoami"@.len() != "run"@.len());
        reveal_strlit("--run");
        assert("whoami"@.len() != "--run"@.len());
        reveal_strlit("login");
        assert("whoami"@.len() != "login"@.len());
        reveal_strlit("--login");
        assert("whoami"@.len() != "--login"@.len());
        reveal_strlit("logout");
        assert("whoami"@[0] != "logout"@[0]);
        reveal_strlit("--logout");
        assert("whoami"@.len() != "--logout"@.len());
    }
    assert(command_named(spellings_of(Command::WhoAmI)[1]) == Some(Command::WhoAmI)) by {
        reveal_strlit("--whoami");
        reveal_strlit("run");
        assert("--whoami"@.len() != "run"@.len());
        reveal_strlit("--run");
        assert("--whoami"@.len() != "--run"@.len());
        reveal_strlit("login");
        assert("--whoami"@.len() != "login"@.len());
        reveal_strlit("--login");
        assert("--whoami"@.len() != "--login"@.len());
        reveal_strlit("logout");
        assert("--whoami"@.len() != "logout"@.len());
        reveal_strlit("--logout");
        assert("--whoami"@[2] != "--logout"@[2]);
    }
    assert(command_named(spellings_of(Command::WhoAmI)[2]) == Some(Command::WhoAmI)) by {
        reveal_strlit("who");
        reveal_strlit("run");
        assert("who"@[0] != "run"@[0]);
        reveal_strlit("--run");
        assert("who"@.len() != "--run"@.len());
        reveal_strlit("login");
        assert("who"@.len() != "login"@.len());
        reveal_strlit("--login");
        assert("who"@.len() != "--login"@.len());
        reveal_strlit("logout");
        assert("who"@.len() != "logout"@.len());
        reveal_strlit("--logout");
        assert("who"@.len() != "--logout"@.len());
    }
    assert(command_named(spellings_of(Command::Users)[0]) == Some(Command::Users)) by {
        reveal_strlit("users");
        reveal_strlit("run");
        assert("users"@.len() != "run"@.len());
        reveal_strlit("--run");
        assert("users"@[0] != "--run"@[0]);
        reveal_strlit("login");
        assert("users"@[0] != "login"@[0]);
        reveal_strlit("--login");
        assert("users"@.len() != "--login"@.len());
        reveal_strlit("logout");
        assert("users"@.len() != "logout"@.len());
        reveal_strlit("--logout");
        assert("users"@.len() != "--logout"@.len());
        reveal_strlit("whoami");
        assert("users"@.len() != "whoami"@.len());
        reveal_strlit("--whoami");
        assert("users"@.len() != "--whoami"@.len());
        reveal_strlit("who");
        assert("users"@.len() != "who"@.len());
    }
    assert(command_named(spellings_of(Command::Users)[1]) == Some(Command::Users)) by {
        reveal_strlit("--users");
        reveal_strlit("run");
        assert("--users"@.len() != "run"@.len());
        reveal_strlit("--run");
        assert("--users"@.len() != "--run"@.len());
        reveal_strlit("login");
        assert("--users"@.len() != "login"@.len());
        reveal_strlit("--login");
        assert("--users"@[2] != "--login"@[2]);
        reveal_strlit("logout");
        assert("--users"@.len() != "logout"@.len());
        reveal_strlit("--logout");
        assert("--users"@.len() != "--logout"@.len());
        reveal_strlit("whoami");
        assert("--users"@.len() != "whoami"@.len());
        reveal_strlit("--whoami");
        assert("--users"@.len() != "--whoami"@.len());
        reveal_strlit("who");
        assert("--users"@.len() != "who"@.len());
    }
    assert(command_named(spellings_of(Command::Requests)[0]) == Some(Command::Requests)) by {
        reveal_strlit("requests");
        reveal_strlit("run");
        assert("requests"@.len() != "run"@.len());
        reveal_strlit("--run");
        assert("requests"@.len() != "--run"@.len());
        reveal_strlit("login");
        assert("requests"@.len() != "login"@.len());
        reveal_strlit("--login");
        assert("requests"@.len() != "--login"@.len());
        reveal_strlit("logout");
        assert("requests"@.len() != "logout"@.len());
        reveal_strlit("--logout");
        assert("requests"@[0] != "--logout"@[0]);
        reveal_strlit("whoami");
        assert("requests"@.len() != "whoami"@.len());
        reveal_strlit("--whoami");
        assert("requests"@[0] != "--whoami"@[0]);
        reveal_strlit("who");
        assert("requests"@.len() != "who"@.len());
        reveal_strlit("users");
        assert("requests"@.len() != "users"@.len());
        reveal_strlit("--users");
        assert("requests"@.len() != "--users"@.len());
    }
    assert(command_named(spellings_of(Command::Requests)[1]) == Some(Command::Requests)) by {
        reveal_strlit("--requests");
        reveal_strlit("run");
        assert("--requests"@.len() != "run"@.len());
        reveal_strlit("--run");
        assert("--requests"@.len() != "--run"@.len());
        reveal_strlit("login");
        assert("--requests"@.len() != "login"@.len());
        reveal_strlit("--login");
        assert("--requests"@.len() != "--login"@.len());
        reveal_strlit("logout");
        assert("--requests"@.len() != "logout"@.len());
        reveal_strlit("--logout");
        assert("--requests"@.len() != "--logout"@.len());
        reveal_strlit("whoami");
        assert("--requests"@.len() != "whoami"@.len());
        reveal_strlit("--whoami");
        assert("--requests"@.len() != "--whoami"@.len());
        reveal_strlit("who");
        assert("--requests"@.len() != "who"@.len());
        reveal_strlit("users");
        assert("--requests"@.len() != "users"@.len());
        reveal_strlit("--users");
        assert("--requests"@.len() != "--users"@.len());
    }
    assert(command_named(spellings_of(Command::Requests)[2]) == Some(Command::Requests)) by {
        reveal_strlit("join-requests");
        reveal_strlit("run");
        assert("join-requests"@.len() != "run"@.len());
        reveal_strlit("--run");
        assert("join-requests"@.len() != "--run"@.len());
        reveal_strlit("login");
        assert("join-requests"@.len() != "login"@.len());
        reveal_strlit("--login");
        assert("join-requests"@.len() != "--login"@.len());
        reveal_strlit("logout");
        assert("join-requests"@.len() != "logout"@.len());
        reveal_strlit("--logout");
        assert("join-requests"@.len() != "--logout"@.len());
        reveal_strlit("whoami");
        assert("join-requests"@.len() != "whoami"@.len());
        reveal_strlit("--whoami");
        assert("join-requests"@.len() != "--whoami"@.len());
        reveal_strlit("who");
        assert("join-requests"@.len() != "who"@.len());
        reveal_strlit("users");
        assert("join-requests"@.len() != "users"@.len());
        reveal_strlit("--users");
        assert("join-requests"@.len() != "--users"@.len());
    }
    assert(command_named(spellings_of(Command::Doctor)[0]) == Some(Command::Doctor)) by {
        reveal_strlit("doctor");
        reveal_strlit("run");
        assert("doctor"@.len() != "run"@.len());
        reveal_strlit("--run");
        assert("doctor"@.len() != "--run"@.len());
        reveal_strlit("login");
        assert("doctor"@.len() != "login"@.len());
        reveal_strlit("--login");
        assert("doctor"@.len() != "--login"@.len());
        reveal_strlit("logout");
        assert("doctor"@[0] != "logout"@[0]);
        reveal_strlit("--logout");
        assert("doctor"@.len() != "--logout"@.len());
        reveal_strlit("whoami");
        assert("doctor"@[0] != "whoami"@[0]);
        reveal_strlit("--whoami");
        assert("doctor"@.len() != "--whoami"@.len());
        reveal_strlit("who");
        assert("doctor"@.len() != "who"@.len());
        reveal_strlit("users");
        assert("doctor"@.len() != "users"@.len());
        reveal_strlit("--users");
        assert("doctor"@.len() != "--users"@.len());
        reveal_strlit("requests");
        assert("doctor"@.len() != "requests"@.len());
        reveal_strlit("--requests");
        assert("doctor"@.len() != "--requests"@.len());
        reveal_strlit("join-requests");
        assert("doctor"@.len() != "join-requests"@.len());
    }
    assert(command_named(spellings_of(Command::Doctor)[1]) == Some(Command::Doctor)) by {
        reveal_strlit("--doctor");
        reveal_strlit("run");
        assert("--doctor"@.len() != "run"@.len());
        reveal_strlit("--run");
        assert("--doctor"@.len() != "--run"@.len());
        reveal_strlit("login");
        assert("--doctor"@.len() != "login"@.len());
        reveal_strlit("--login");
        assert("--doctor"@.len() != "--login"@.len());
        reveal_strlit("logout");
        assert("--doctor"@.len() != "logout"@.len());
        reveal_strlit("--logout");
        assert("--doctor"@[2] != "--logout"@[2]);
        reveal_strlit("whoami");
        assert("--doctor"@.len() != "whoami"@.len());
        reveal_strlit("--whoami");
        assert("--doctor"@[2] != "--whoami"@[2]);
        reveal_strlit("who");
        assert("--doctor"@.len() != "who"@.len());
        reveal_strlit("users");
        assert("--doctor"@.len() != "users"@.len());
        reveal_strlit("--users");
        assert("--doctor"@.len() != "--users"@.len());
        reveal_strlit("requests");
        assert("--doctor"@[0] != "requests"@[0]);
        reveal_strlit("--requests");
        assert("--doctor"@.len() != "--requests"@.len());
        reveal_strlit("join-requests");
        assert("--doctor"@.len() != "join-requests"@.len());
    }
    assert(command_named(spellings_of(Command::CheckConnectivity)[0]) == Some(Command::CheckConnectivity)) by {
        reveal_strlit("check-connectivity");
        reveal_strlit("run");
        assert("check-connectivity"@.len() != "run"@.len());
        reveal_strlit("--run");
        assert("check-connectivity"@.len() != "--run"@.len());
        reveal_strlit("login");
        assert("check-connectivity"@.len() != "login"@.len());
        reveal_strlit("--login");
        assert("check-connectivity"@.len() != "--login"@.len());
        reveal_strlit("logout");
        assert("check-connectivity"@.len() != "logout"@.len());
        reveal_strlit("--logout");
        assert("check-connectivity"@.len() != "--logout"@.len());
        reveal_strlit("whoami");
        assert("check-connectivity"@.len() != "whoami"@.len());
        reveal_strlit("--whoami");
        assert("check-connectivity"@.len() != "--whoami"@.len());
        reveal_strlit("who");
        assert("check-connectivity"@.len() != "who"@.len());
        reveal_strlit("users");
        assert("check-connectivity"@.len() != "users"@.len());
        reveal_strlit("--users");
        assert("check-connectivity"@.len() != "--users"@.len());
        reveal_strlit("requests");
        assert("check-connectivity"@.len() != "requests"@.len());
        reveal_strlit("--requests");
        assert("check-connectivity"@.len() != "--requests"@.len());
        reveal_strlit("join-requests");
        assert("check-connectivity"@.len() != "join-requests"@.len());
        reveal_strlit("doctor");
        assert("check-connectivity"@.len() != "doctor"@.len());
        reveal_strlit("--doctor");
        assert("check-connectivity"@.len() != "--doctor"@.len());
    }
    assert(command_named(spellings_of(Command::CheckConnectivity)[1]) == Some(Command::CheckConnectivity)) by {
        reveal_strlit("--check-connectivity");
        reveal_strlit("run");
        assert("--check-connectivity"@.len() != "run"@.len());
        reveal_strlit("--run");
        assert("--check-connectivity"@.len() != "--run"@.len());
        reveal_strlit("login");
        assert("--check-connectivity"@.len() != "login"@.len());
        reveal_strlit("--login");
        assert("--check-connectivity"@.len() != "--login"@.len());
        reveal_strlit("logout");
        assert("--check-connectivity"@.len() != "logout"@.len());
        reveal_strlit("--logout");
        assert("--check-connectivity"@.len() != "--logout"@.len());
        reveal_strlit("whoami");
        assert("--check-connectivity"@.len() != "whoami"@.len());
        reveal_strlit("--whoami");
        assert("--check-connectivity"@.len() != "--whoami"@.len());
        reveal_strlit("who");
        assert("--check-connectivity"@.len() != "who"@.len());
        reveal_strlit("users");
        assert("--check-connectivity"@.len() != "users"@.len());
        reveal_strlit("--users");
        assert("--check-connectivity"@.len() != "--users"@.len());
        reveal_strlit("requests");
        assert("--check-connectivity"@.len() != "requests"@.len());
        reveal_strlit("--requests");
        assert("--check-connectivity"@.len() != "--requests"@.len());
        reveal_strlit("join-requests");
        assert("--check-connectivity"@.len() != "join-requests"@.len());
        reveal_strlit("doctor");
        assert("--check-connectivity"@.len() != "doctor"@.len());
        reveal_strlit("--doctor");
        assert("--check-connectivity"@.len() != "--doctor"@.len());
    }
    assert(command_named(spellings_of(Command::LatestIncidents)[0]) == Some(Command::LatestIncidents)) by {
        reveal_strlit("latest-incidents");
        reveal_strlit("run");
        assert("latest-incidents"@.len() != "run"@.len());
        reveal_strlit("--run");
        assert("latest-incidents"@.len() != "--run"@.len());
        reveal_strlit("login");
        assert("latest-incidents"@.len() != "login"@.len());
        reveal_strlit("--login");
        assert("latest-incidents"@.len() != "--login"@.len());
        reveal_strlit("logout");
        assert("latest-incidents"@.len() != "logout"@.len());
        reveal_strlit("--logout");
        assert("latest-incidents"@.len() != "--logout"@.len());
        reveal_strlit("whoami");
        assert("latest-incidents"@.len() != "whoami"@.len());
        reveal_strlit("--whoami");
        assert("latest-incidents"@.len() != "--whoami"@.len());
        reveal_strlit("who");
        assert("latest-incidents"@.len() != "who"@.len());
        reveal_strlit("users");
        assert("latest-incidents"@.len() != "users"@.len());
        reveal_strlit("--users");
        assert("latest-incidents"@.len() != "--users"@.len());
        reveal_strlit("requests");
        assert("latest-incidents"@.len() != "requests"@.len());
        reveal_strlit("--requests");
        assert("latest-incidents"@.len() != "--requests"@.len());
        reveal_strlit("join-requests");
        assert("latest-incidents"@.len() != "join-requests"@.len());
        reveal_strlit("doctor");
        assert("latest-incidents"@.len() != "doctor"@.len());
        reveal_strlit("--doctor");
        assert("latest-incidents"@.len() != "--doctor"@.len());
        reveal_strlit("check-connectivity");
        assert("latest-incidents"@.len() != "check-connectivity"@.len());
        reveal_strlit("--check-connectivity");
        assert("latest-incidents"@.len() != "--check-connectivity"@.len());
    }
    assert(command_named(spellings_of(Command::LatestIncidents)[1]) == Some(Command::LatestIncidents)) by {
        reveal_strlit("--latest-incidents");
        reveal_strlit("run");
        assert("--latest-incidents"@.len() != "run"@.len());
        reveal_strlit("--run");
        assert("--latest-incidents"@.len() != "--run"@.len());
        reveal_strlit("login");
        assert("--latest-incidents"@.len() != "login"@.len());
        reveal_strlit("--login");
        assert("--latest-incidents"@.len() != "--login"@.len());
        reveal_strlit("logout");
        assert("--latest-incidents"@.len() != "logout"@.len());
        reveal_strlit("--logout");
        assert("--latest-incidents"@.len() != "--logout"@.len());
        reveal_strlit("whoami");
        assert("--latest-incidents"@.len() != "whoami"@.len());
        reveal_strlit("--whoami");
        assert("--latest-incidents"@.len() != "--whoami"@.len());
        reveal_strlit("who");
        assert("--latest-incidents"@.len() != "who"@.len());
        reveal_strlit("users");
        assert("--latest-incidents"@.len() != "users"@.len());
        reveal_strlit("--users");
        assert("--latest-incidents"@.len() != "--users"@.len());
        reveal_strlit("requests");
        assert("--latest-incidents"@.len() != "requests"@.len());
        reveal_strlit("--requests");
        assert("--latest-incidents"@.len() != "--requests"@.len());
        reveal_strlit("join-requests");
        assert("--latest-incidents"@.len() != "join-requests"@.len());
        reveal_strlit("doctor");
        assert("--latest-incidents"@.len() != "doctor"@.len());
        reveal_strlit("--doctor");
        assert("--latest-incidents"@.len() != "--doctor"@.len());
        reveal_strlit("check-connectivity");
        assert("--latest-incidents"@[0] != "check-connectivity"@[0]);
        reveal_strlit("--check-connectivity");
        assert("--latest-incidents"@.len() != "--check-connectivity"@.len());
    }
    assert(command_named(spellings_of(Command::InstallHint)[0]) == Some(Command::InstallHint)) by {
        reveal_strlit("install-hint");
        reveal_strlit("run");
        assert("install-hint"@.len() != "run"@.len());
        reveal_strlit("--run");
        assert("install-hint"@.len() != "--run"@.len());
        reveal_strlit("login");
        assert("install-hint"@.len() != "login"@.len());
        reveal_strlit("--login");
        assert("install-hint"@.len() != "--login"@.len());
        reveal_strlit("logout");
        assert("install-hint"@.len() != "logout"@.len());
        reveal_strlit("--logout");
        assert("install-hint"@.len() != "--logout"@.len());
        reveal_strlit("whoami");
        assert("install-hint"@.len() != "whoami"@.len());
        reveal_strlit("--whoami");
        assert("install-hint"@.len() != "--whoami"@.len());
        reveal_strlit("who");
        assert("install-hint"@.len() != "who"@.len());
        reveal_strlit("users");
        assert("install-hint"@.len() != "users"@.len());
        reveal_strlit("--users");
        assert("install-hint"@.len() != "--users"@.len());
        reveal_strlit("requests");
        assert("install-hint"@.len() != "requests"@.len());
        reveal_strlit("--requests");
        assert("install-hint"@.len() != "--requests"@.len());
        reveal_strlit("join-requests");
        assert("install-hint"@.len() != "join-requests"@.len());
        reveal_strlit("doctor");
        assert("install-hint"@.len() != "doctor"@.len());
        reveal_strlit("--doctor");
        assert("install-hint"@.len() != "--doctor"@.len());
        reveal_strlit("check-connectivity");
        assert("install-hint"@.len() != "check-connectivity"@.len());
        reveal_strlit("--check-connectivity");
        assert("install-hint"@.len() != "--check-connectivity"@.len());
        reveal_strlit("latest-incidents");
        assert("install-hint"@.len() != "latest-incidents"@.len());
        reveal_strlit("--latest-incidents");
        assert("install-hint"@.len() != "--latest-incidents"@.len());
    }
    assert(command_named(spellings_of(Command::InstallHint)[1]) == Some(Command::InstallHint)) by {
        reveal_strlit("--install-hint");
        reveal_strlit("run");
        assert("--install-hint"@.len() != "run"@.len());
        reveal_strlit("--run");
        assert("--install-hint"@.len() != "--run"@.len());
        reveal_strlit("login");
        assert("--install-hint"@.len() != "login"@.len());
        reveal_strlit("--login");
        assert("--install-hint"@.len() != "--login"@.len());
        reveal_strlit("logout");
        assert("--install-hint"@.len() != "logout"@.len());
        reveal_strlit("--logout");
        assert("--install-hint"@.len() != "--logout"@.len());
        reveal_strlit("whoami");
        assert("--install-hint"@.len() != "whoami"@.len());
        reveal_strlit("--whoami");
        assert("--install-hint"@.len() != "--whoami"@.len());
        reveal_strlit("who");
        assert("--install-hint"@.len() != "who"@.len());
        reveal_strlit("users");
        assert("--install-hint"@.len() != "users"@.len());
        reveal_strlit("--users");
        assert("--install-hint"@.len() != "--users"@.len());
        reveal_strlit("requests");
        assert("--install-hint"@.len() != "requests"@.len());
        reveal_strlit("--requests");
        assert("--install-hint"@.len() != "--requests"@.len());
        reveal_strlit("join-requests");
        assert("--install-hint"@.len() != "join-requests"@.len());
        reveal_strlit("doctor");
        assert("--install-hint"@.len() != "doctor"@.len());
        reveal_strlit("--doctor");
        assert("--install-hint"@.len() != "--doctor"@.len());
        reveal_strlit("check-connectivity");
        assert("--install-hint"@.len() != "check-connectivity"@.len());
        reveal_strlit("--check-connectivity");
        assert("--install-hint"@.len() != "--check-connectivity"@.len());
        reveal_strlit("latest-incidents");
        assert("--install-hint"@.len() != "latest-incidents"@.len());
        reveal_strlit("--latest-incidents");
        assert("--install-hint"@.len() != "--latest-incidents"@.len());
    }
    assert(command_named(spellings_of(Command::InstallHint)[2]) == Some(Command::InstallHint)) by {
        reveal_strlit("install");
        reveal_strlit("run");
        assert("install"@.len() != "run"@.len());
        reveal_strlit("--run");
        assert("install"@.len() != "--run"@.len());
        reveal_strlit("login");
        assert("install"@.len() != "login"@.len());
        reveal_strlit("--login");
        assert("install"@[0] != "--login"@[0]);
        reveal_strlit("logout");
        assert("install"@.len() != "logout"@.len());
        reveal_strlit("--logout");
        assert("install"@.len() != "--logout"@.len());
        reveal_strlit("whoami");
        assert("install"@.len() != "whoami"@.len());
        reveal_strlit("--whoami");
        assert("install"@.len() != "--whoami"@.len());
        reveal_strlit("who");
        assert("install"@.len() != "who"@.len());
        reveal_strlit("users");
        assert("install"@.len() != "users"@.len());
        reveal_strlit("--users");
        assert("install"@[0] != "--users"@[0]);
        reveal_strlit("requests");
        assert("install"@.len() != "requests"@.len());
        reveal_strlit("--requests");
        assert("install"@.len() != "--requests"@.len());
        reveal_strlit("join-requests");
        assert("install"@.len() != "join-requests"@.len());
        reveal_strlit("doctor");
        assert("install"@.len() != "doctor"@.len());
        reveal_strlit("--doctor");
        assert("install"@.len() != "--doctor"@.len());
        reveal_strlit("check-connectivity");
        assert("install"@.len() != "check-connectivity"@.len());
        reveal_strlit("--check-connectivity");
        assert("install"@.len() != "--check-connectivity"@.len());
        reveal_strlit("latest-incidents");
        assert("install"@.len() != "latest-incidents"@.len());
        reveal_strlit("--latest-incidents");
        assert("install"@.len() != "--latest-incidents"@.len());
    }
    assert(command_named(spellings_of(Command::Help)[0]) == Some(Command::Help)) by {
        reveal_strlit("--help");
        reveal_strlit("run");
        assert("--help"@.len() != "run"@.len());
        reveal_strlit("--run");
        assert("--help"@.len() != "--run"@.len());
        reveal_strlit("login");
        assert("--help"@.len() != "login"@.len());
        reveal_strlit("--login");
        assert("--help"@.len() != "--login"@.len());
        reveal_strlit("logout");
        assert("--help"@[0] != "logout"@[0]);
        reveal_strlit("--logout");
        assert("--help"@.len() != "--logout"@.len());
        reveal_strlit("whoami");
        assert("--help"@[0] != "whoami"@[0]);
        reveal_strlit("--whoami");
        assert("--help"@.len() != "--whoami"@.len());
        reveal_strlit("who");
        assert("--help"@.len() != "who"@.len());
        reveal_strlit("users");
        assert("--help"@.len() != "users"@.len());
        reveal_strlit("--users");
        assert("--help"@.len() != "--users"@.len());
        reveal_strlit("requests");
        assert("--help"@.len() != "requests"@.len());
        reveal_strlit("--requests");
        assert("--help"@.len() != "--requests"@.len());
        reveal_strlit("join-requests");
        assert("--help"@.len() != "join-requests"@.len());
        reveal_strlit("doctor");
        assert("--help"@[0] != "doctor"@[0]);
        reveal_strlit("--doctor");
        assert("--help"@.len() != "--doctor"@.len());
        reveal_strlit("check-connectivity");
        assert("--help"@.len() != "check-connectivity"@.len());
        reveal_strlit("--check-connectivity");
        assert("--help"@.len() != "--check-connectivity"@.len());
        reveal_strlit("latest-incidents");
        assert("--help"@.len() != "latest-incidents"@.len());
        reveal_strlit("--latest-incidents");
        assert("--help"@.len() != "--latest-incidents"@.len());
        reveal_strlit("install-hint");
        assert("--help"@.len() != "install-hint"@.len());
        reveal_strlit("--install-hint");
        assert("--help"@.len() != "--install-hint"@.len());
        reveal_strlit("install");
        assert("--help"@.len() != "install"@.len());
    }
    assert(command_named(spellings_of(Command::Help)[1]) == Some(Command::Help)) by {
        reveal_strlit("-h");
        reveal_strlit("run");
        assert("-h"@.len() != "run"@.len());
        reveal_strlit("--run");
        assert("-h"@.len() != "--run"@.len());
        reveal_strlit("login");
        assert("-h"@.len() != "login"@.len());
        reveal_strlit("--login");
        assert("-h"@.len() != "--login"@.len());
        reveal_strlit("logout");
        assert("-h"@.len() != "logout"@.len());
        reveal_strlit("--logout");
        assert("-h"@.len() != "--logout"@.len());
        reveal_strlit("whoami");
        assert("-h"@.len() != "whoami"@.len());
        reveal_strlit("--whoami");
        assert("-h"@.len() != "--whoami"@.len());
        reveal_strlit("who");
        assert("-h"@.len() != "who"@.len());
        reveal_strlit("users");
        assert("-h"@.len() != "users"@.len());
        reveal_strlit("--users");
        assert("-h"@.len() != "--users"@.len());
        reveal_strlit("requests");
        assert("-h"@.len() != "requests"@.len());
        reveal_strlit("--requests");
        assert("-h"@.len() != "--requests"@.len());
        reveal_strlit("join-requests");
        assert("-h"@.len() != "join-requests"@.len());
        reveal_strlit("doctor");
        assert("-h"@.len() != "doctor"@.len());
        reveal_strlit("--doctor");
        assert("-h"@.len() != "--doctor"@.len());
        reveal_strlit("check-connectivity");
        assert("-h"@.len() != "check-connectivity"@.len());
        reveal_strlit("--check-connectivity");
        assert("-h"@.len() != "--check-connectivity"@.len());
        reveal_strlit("latest-incidents");
        assert("-h"@.len() != "latest-incidents"@.len());
        reveal_strlit("--latest-incidents");
        assert("-h"@.len() != "--latest-incidents"@.len());
        reveal_strlit("install-hint");
        assert("-h"@.len() != "install-hint"@.len());
        reveal_strlit("--install-hint");
        assert("-h"@.len() != "--install-hint"@.len());
        reveal_strlit("install");
        assert("-h"@.len() != "install"@.len());
    }
    assert(command_named(spellings_of(Command::Help)[2]) == Some(Command::Help)) by {
        reveal_strlit("help");
        reveal_strlit("run");
        assert("help"@.len() != "run"@.len());
        reveal_strlit("--run");
        assert("help"@.len() != "--run"@.len());
        reveal_strlit("login");
        assert("help"@.len() != "login"@.len());
        reveal_strlit("--login");
        assert("help"@.len() != "--login"@.len());
        reveal_strlit("logout");
        assert("help"@.len() != "logout"@.len());
        reveal_strlit("--logout");
        assert("help"@.len() != "--logout"@.len());
        reveal_strlit("whoami");
        assert("help"@.len() != "whoami"@.len());
        reveal_strlit("--whoami");
        assert("help"@.len() != "--whoami"@.len());
        reveal_strlit("who");
        assert("help"@.len() != "who"@.len());
        reveal_strlit("users");
        assert("help"@.len() != "users"@.len());
        reveal_strlit("--users");
        assert("help"@.len() != "--users"@.len());
        reveal_strlit("requests");
        assert("help"@.len() != "requests"@.len());
        reveal_strlit("--requests");
        assert("help"@.len() != "--requests"@.len());
        reveal_strlit("join-requests");
        assert("help"@.len() != "join-requests"@.len());
        reveal_strlit("doctor");
        assert("help"@.len() != "doctor"@.len());
        reveal_strlit("--doctor");
        assert("help"@.len() != "--doctor"@.len());
        reveal_strlit("check-connectivity");
        assert("help"@.len() != "check-connectivity"@.len());
        reveal_strlit("--check-connectivity");
        assert("help"@.len() != "--check-connectivity"@.len());
        reveal_strlit("latest-incidents");
        assert("help"@.len() != "latest-incidents"@.len());
        reveal_strlit("--latest-incidents");
        assert("help"@.len() != "--latest-incidents"@.len());
        reveal_strlit("install-hint");
        assert("help"@.len() != "install-hint"@.len());
        reveal_strlit("--install-hint");
        assert("help"@.len() != "--install-hint"@.len());
        reveal_strlit("install");
        assert("help"@.len() != "install"@.len());
    }
    assert forall|c: Command, i: int| 0 <= i < spellings_of(c).len() implies command_named(#[trigger] spellings_of(c)[i]) == Some(c) by {
        match c {
            Command::Run => { assert(i == 0 || i == 1); },
            Command::Login => { assert(i == 0 || i == 1); },
            Command::Logout => { assert(i == 0 || i == 1); },
            Command::WhoAmI => { assert(i == 0 || i == 1 || i == 2); },
            Command::Users => { assert(i == 0 || i == 1); },
            Command::Requests => { assert(i == 0 || i == 1 || i == 2); },
            Command::Doctor => { assert(i == 0 || i == 1); },
            Command::CheckConnectivity => { assert(i == 0 || i == 1); },
            Command::LatestIncidents => { assert(i == 0 || i == 1); },
            Command::InstallHint => { assert(i == 0 || i == 1 || i == 2); },
            Command::Help => { assert(i == 0 || i == 1 || i == 2); },
        }
    }
}

/// An argument names a subcommand exactly when it is one of that
/// subcommand's spellings.
pub proof fn lemma_parse_follows_spellings(a: Seq<char>, c: Command)
    ensures
        command_named(a) == Some(c) <==> spellings_of(c).contains(a),
{
    lemma_each_spelling_parses();
    if spellings_of(c).contains(a) {
        let i = choose|i: int| 0 <= i < spellings_of(c).len() && spellings_of(c)[i] == a;
        assert(command_named(spellings_of(c)[i]) == Some(c));
    }
    if command_named(a) == Some(c) {
        if a == "run"@ {
            assert(spellings_of(Command::Run)[0] == a);
        } else if a == "--run"@ {
            assert(spellings_of(Command::Run)[1] == a);
        } else if a == "login"@ {
            assert(spellings_of(Command::Login)[0] == a);
        } else if a == "--login"@ {
            assert(spellings_of(Command::Login)[1] == a);
        } else if a == "logout"@ {
            assert(spellings_of(Command::Logout)[0] == a);
        } else if a == "--logout"@ {
            assert(spellings_of(Command::Logout)[1] == a);
        } else if a == "whoami"@ {
            assert(spellings_of(Command::WhoAmI)[0] == a);
        } else if a == "--whoami"@ {
            assert(spellings_of(Command::WhoAmI)[1] == a);
        } else if a == "who"@ {
            assert(spellings_of(Command::WhoAmI)[2] == a);
        } else if a == "users"@ {
            assert(spellings_of(Command::Users)[0] == a);
        } else if a == "--users"@ {
            assert(spellings_of(Command::Users)[1] == a);
        } else if a == "requests"@ {
            assert(spellings_of(Command::Requests)[0] == a);
        } else if a == "--requests"@ {
            assert(spellings_of(Command::Requests)[1] == a);
        } else if a == "join-requests"@ {
            assert(spellings_of(Command::Requests)[2] == a);
        } else if a == "doctor"@ {
            assert(spellings_of(Command::Doctor)[0] == a);
        } else if a == "--doctor"@ {
            assert(spellings_of(Command::Doctor)[1] == a);
        } else if a == "check-connectivity"@ {
            assert(spellings_of(Command::CheckConnectivity)[0] == a);
        } else if a == "--check-connectivity"@ {
            assert(spellings_of(Command::CheckConnectivity)[1] == a);
        } else if a == "latest-incidents"@ {
            assert(spellings_of(Command::LatestIncidents)[0] == a);
        } else if a == "--latest-incidents"@ {
            assert(spellings_of(Command::LatestIncidents)[1] == a);
        } else if a == "install-hint"@ {
            assert(spellings_of(Command::InstallHint)[0] == a);
        } else if a == "--install-hint"@ {
            assert(spellings_of(Command::InstallHint)[1] == a);
        } else if a == "install"@ {
            assert(spellings_of(Command::InstallHint)[2] == a);
        } else if a == "--help"@ {
            assert(spellings_of(Command::Help)[0] == a);
        } else if a == "-h"@ {
            assert(spellings_of(Command::Help)[1] == a);
        } else if a == "help"@ {
            assert(spellings_of(Command::Help)[2] == a);
        }
    }
}

} // verus!
