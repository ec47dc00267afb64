//! Command-line options and what they change.
use vstd::prelude::*;
use crate::config::Config;

verus! {

/// Options of the program (parsed by the program itself).
#[derive(Debug, Clone)]
pub struct Cli {
    /// Path of the configuration file.
    pub config: String,
    /// Force the dry run (no clicks), whatever the configuration says.
    pub dry_run: bool,
    /// Force real clicks, whatever the configuration says.
    pub live: bool,
    /// Override of the templates directory.
    pub templates_dir: Option<String>,
    /// Override of the window title pattern.
    pub window_title: Option<String>,
    /// Override of the cycle limit (0: no limit).
    pub max_cycles: Option<u32>,
    /// Override of the hard wait after the battle start click.
    pub post_battle_min_wait_ms: Option<u64>,
    /// -v: debug, -vv and more: trace.
    pub verbose: u8,
    pub command: Option<Command>,
}

/// Subcommands.
#[derive(Debug, Clone)]
pub enum Command {
    /// Run the cycles (the default).
    Run,
    /// Match every template once and print the result.
    DetectOnce,
    /// Save a screenshot and exit.
    Capture { output: String },
}

/// The configuration after the command-line overrides.
pub open spec fn overridden(cli: Cli, cfg: Config) -> Config {
    let c1 = match cli.templates_dir {
        Some(p) => Config { templates_dir: p, ..cfg },
        None => cfg,
    };
    let c2 = match cli.window_title {
        Some(t) => Config { window: crate::config::WindowConfig { title_pattern: t }, ..c1 },
        None => c1,
    };
    match cli.post_battle_min_wait_ms {
        Some(ms) => Config {
            loop_: crate::config::LoopConfig {
                poll: crate::config::PollConfig { post_battle_min_wait_ms: ms, ..c2.loop_.poll },
                ..c2.loop_
            },
            ..c2
        },
        None => c2,
    }
}

impl Cli {
    /// `--dry-run` forces the dry run, `--live` forces real clicks,
    /// neither leaves the configuration's choice.
    pub fn dry_run_override(&self) -> (r: Option<bool>)
        ensures
            r == if self.dry_run {
                Some(true)
            } else if self.live {
                Some(false)
            } else {
                None::<bool>
            },
    {
        if self.dry_run {
            Some(true)
        } else if self.live {
            Some(false)
        } else {
            None
        }
    }

    /// Applies the templates directory, window title and battle wait
    /// overrides; nothing else changes.
    pub fn apply_overrides(&self, config: &mut Config)
        ensures
            *final(config) == overridden(*self, *old(config)),
    {
        match &self.templates_dir {
            Some(p) => {
                config.templates_dir = p.clone();
            },
            None => {},
        }
        match &self.window_title {
            Some(t) => {
                config.window.title_pattern = t.clone();
            },
            None => {},
        }
        match self.post_battle_min_wait_ms {
            Some(ms) => {
                config.loop_.poll.post_battle_min_wait_ms = ms;
            },
            None => {},
        }
    }

    /// The subcommand, `Run` when none is given.
    pub fn command_or_default(&self) -> (r: Command)
        ensures
            match self.command {
                Some(c) => match (c, r) {
                    (Command::Run, Command::Run) => true,
                    (Command::DetectOnce, Command::DetectOnce) => true,
                    (Command::Capture { output: a }, Command::Capture { output: b }) => a@ == b@,
                    _ => false,
                },
                None => r is Run,
            },
    {
        match &self.command {
            Some(Command::Run) => Command::Run,
            Some(Command::DetectOnce) => Command::DetectOnce,
            Some(Command::Capture { output }) => Command::Capture { output: output.clone() },
            None => Command::Run,
        }
    }
}

/// Log level for the number of `-v` flags: info, debug, then trace.
pub fn log_level(verbose: u8) -> (r: &'static str)
    ensures
        r@ == if verbose == 0 {
            "info"@
        } else if verbose == 1 {
            "debug"@
        } else {
            "trace"@
        },
{
    if verbose == 0 {
        "info"
    } else if verbose == 1 {
        "debug"
    } else {
        "trace"
    }
}

} // verus!
