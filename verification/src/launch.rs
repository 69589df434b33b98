//! Deciding how to launch a game: which player binary, with which
//! arguments, and with which error when something needed is missing.
//! The driver spawns the process; everything decided before the spawn is
//! verified here.

use vstd::prelude::*;
use vstd::string::StringExecFns;
use crate::config::Os;
use crate::config::Settings;
use crate::text::base_url_of;
use crate::text::base_url_spec;
use crate::text::concat3;

verus! {

/// A ready-to-spawn launch: the player binary, the arguments after it,
/// and whether the driver must go through the OS `open` wrapper (the
/// legacy player on macOS is an application bundle, not a plain binary).
#[derive(Debug)]
pub struct LaunchPlan {
    pub program: String,
    pub args: Vec<String>,
    pub via_open: bool,
}

/// Whether the user chose the emulator; an absent preference means the
/// legacy player.
pub fn chooses_ruffle(settings: &Settings) -> (b: bool)
    ensures
        b == (settings.use_ruffle == Some(true)),
{
    match settings.use_ruffle {
        Some(b) => b,
        None => false,
    }
}

/// Builds the launch for game `game_id`, or the error to show.
///
/// `game_path` is the driver's probe for the game file, `player_path`
/// the resolved path of the chosen player and `player_exists` its probe,
/// and `game_url` the catalog lookup. The emulator is passed the game's
/// canonical URL and base URL so the game believes it runs from its
/// site; the legacy player takes the file alone.
pub fn plan_launch(
    game_id: &String,
    game_path: &Option<String>,
    use_ruffle: bool,
    player_path: &String,
    player_exists: bool,
    game_url: Option<&String>,
    os: Os,
) -> (r: Result<LaunchPlan, String>)
    ensures
        match r {
            Err(m) => {
                if game_path is None {
                    m@ == "Game '"@ + game_id@ + "' not found. Please download it first."@
                } else if !player_exists {
                    if use_ruffle {
                        m@ == "Ruffle not installed. Please download it first."@
                    } else {
                        m@ == "Flash Player not installed. Please download it first."@
                    }
                } else {
                    game_url is None && m@ == "Game '"@ + game_id@
                        + "' not found in configuration"@
                }
            },
            Ok(plan) => {
                &&& game_path is Some
                &&& player_exists
                &&& game_url is Some
                &&& plan.program@ == player_path@
                &&& plan.via_open == (os is MacOs && !use_ruffle)
                &&& (game_path matches Some(g) && game_url matches Some(u) ==> {
                    if use_ruffle {
                        &&& plan.args@.len() == 5
                        &&& plan.args@[0]@ == g@
                        &&& plan.args@[1]@ == "--spoof-url"@
                        &&& plan.args@[2]@ == u@
                        &&& plan.args@[3]@ == "--base"@
                        &&& plan.args@[4]@ == base_url_spec(u@)
                    } else {
                        plan.args@.len() == 1 && plan.args@[0]@ == g@
                    }
                })
            },
        },
{
    let game = match game_path {
        Some(g) => g,
        None => {
            return Err(
                concat3("Game '", game_id.as_str(), "' not found. Please download it first."),
            );
        },
    };
    if !player_exists {
        if use_ruffle {
            return Err(String::from_str("Ruffle not installed. Please download it first."));
        } else {
            return Err(String::from_str("Flash Player not installed. Please download it first."));
        }
    }
    let url = match game_url {
        Some(u) => u,
        None => {
            return Err(concat3("Game '", game_id.as_str(), "' not found in configuration"));
        },
    };
    let mut args: Vec<String> = Vec::new();
    args.push(game.clone());
    if use_ruffle {
        args.push(String::from_str("--spoof-url"));
        args.push(url.clone());
        args.push(String::from_str("--base"));
        args.push(base_url_of(url.as_str()));
    }
    let via_open = matches!(os, Os::MacOs) && !use_ruffle;
    Ok(LaunchPlan { program: player_path.clone(), args, via_open })
}

} // verus!
