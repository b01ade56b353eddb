//! What a launch of the application is for, read from its arguments.

use crate::text::chars_of;
use crate::text::text_is;
use vstd::prelude::*;

verus! {

/// What a launch is for.
#[derive(Debug, Clone, Copy, PartialEq, Eq, Structural)]
pub enum LaunchMode {
    /// Run, and show the panel at once.
    Show,
    /// Run, and wait hidden for the hotkey.
    Background,
    /// Register the overlay with the system, and end.
    Install,
    /// Take the overlay's registrations back, and end.
    Uninstall,
}

/// The first argument after the program's own name, if there is one.
pub open spec fn first_arg(args: Seq<String>) -> Option<Seq<char>> {
    if args.len() > 1 {
        Some(args[1]@)
    } else {
        None
    }
}

/// The mode that the arguments ask for.
pub open spec fn mode_of(args: Seq<String>) -> LaunchMode {
    match first_arg(args) {
        Some(a) => if a == "--install"@ {
            LaunchMode::Install
        } else if a == "--uninstall"@ {
            LaunchMode::Uninstall
        } else if a == "--show"@ {
            LaunchMode::Show
        } else {
            LaunchMode::Background
        },
        None => if args.len() == 1 {
            LaunchMode::Show
        } else {
            LaunchMode::Background
        },
    }
}

/// The mode that the arguments ask for: "--install" and "--uninstall" name
/// theirs, no argument or "--show" shows the panel, and anything else runs
/// hidden.
pub fn launch_mode(args: &Vec<String>) -> (mode: LaunchMode)
    ensures
        mode == mode_of(args@),
{
    if args.len() > 1 {
        let a = chars_of(args[1].as_str());
        if text_is(&a, "--install") {
            LaunchMode::Install
        } else if text_is(&a, "--uninstall") {
            LaunchMode::Uninstall
        } else if text_is(&a, "--show") {
            LaunchMode::Show
        } else {
            LaunchMode::Background
        }
    } else if args.len() == 1 {
        LaunchMode::Show
    } else {
        LaunchMode::Background
    }
}

/// Whether a launch that finds the application running hands over to it and
/// ends: a launch that would show the panel does, so that the running
/// panel is shown instead.
pub fn defers_to_running_instance(args: &Vec<String>) -> (yes: bool)
    ensures
        yes == (mode_of(args@) == LaunchMode::Show),
{
    launch_mode(args) == LaunchMode::Show
}

} // verus!
