//! Image transition planning for immutable desktop images: which image a
//! selection of desktop environment and graphics driver resolves to, and in
//! which order the host is asked to rebase, set kernel arguments and restart.
//!
//! The library decides and never touches the host. `run` begins a workflow
//! and names the first action; the caller carries each action out and hands
//! the answer to `Workflow::advance`, until the action is `Action::Finish`.

pub mod image;
pub mod kargs;
pub mod release;
pub mod text;
pub mod workflow;

use crate::image::{reference_text, resolution_of, resolve, ImageReferenceView, ResolveError};
use crate::release::OsRelease;
use crate::text::lowercase_of;
use crate::workflow::{begun, Action, Workflow};
use vstd::prelude::*;
use vstd::string::*;

verus! {

/// What the user asked for, as given: the words are not checked yet.
#[derive(Debug)]
pub struct Config {
    desktop_env: String,
    has_nvidia: bool,
    nvidia_vers: String,
    auto_reboot: bool,
}

/// What a `Config` holds.
pub struct ConfigView {
    pub desktop_env: Seq<char>,
    pub has_nvidia: bool,
    pub nvidia_vers: Seq<char>,
    pub auto_reboot: bool,
}

impl View for Config {
    type V = ConfigView;

    closed spec fn view(&self) -> ConfigView {
        ConfigView {
            desktop_env: self.desktop_env@,
            has_nvidia: self.has_nvidia,
            nvidia_vers: self.nvidia_vers@,
            auto_reboot: self.auto_reboot,
        }
    }
}

impl Config {
    /// A configuration of the given words and flags.
    pub fn new(desktop_env: String, has_nvidia: bool, nvidia_vers: String, auto_reboot: bool) -> (config:
        Config)
        ensures
            config@ == (ConfigView {
                desktop_env: desktop_env@,
                has_nvidia,
                nvidia_vers: nvidia_vers@,
                auto_reboot,
            }),
    {
        Config { desktop_env, has_nvidia, nvidia_vers, auto_reboot }
    }

    /// The desktop environment, as given.
    pub fn desktop_env(&self) -> (name: &str)
        ensures
            name@ == self@.desktop_env,
    {
        self.desktop_env.as_str()
    }

    /// Whether the machine has a discrete Nvidia GPU.
    pub fn has_nvidia(&self) -> (gpu: bool)
        ensures
            gpu == self@.has_nvidia,
    {
        self.has_nvidia
    }

    /// The driver version, as given.
    pub fn nvidia_vers(&self) -> (hint: &str)
        ensures
            hint@ == self@.nvidia_vers,
    {
        self.nvidia_vers.as_str()
    }

    /// Whether the machine is to restart by itself at the end.
    pub fn auto_reboot(&self) -> (restart: bool)
        ensures
            restart == self@.auto_reboot,
    {
        self.auto_reboot
    }
}

impl Default for Config {
    /// GNOME, no GPU profile, the latest driver, no restart.
    fn default() -> (config: Config)
        ensures
            config@ == (ConfigView {
                desktop_env: "gnome"@,
                has_nvidia: false,
                nvidia_vers: ""@,
                auto_reboot: false,
            }),
    {
        Config {
            desktop_env: String::from_str("gnome"),
            has_nvidia: false,
            nvidia_vers: String::from_str(""),
            auto_reboot: false,
        }
    }
}

/// Begins the workflow for a configuration and names its first action. The
/// desktop environment and the driver version are read in lower case. A
/// configuration that is refused gives a workflow that has failed already,
/// with `Action::Finish`; any other asks for the host's release first.
pub fn run(config: Config) -> (started: (Workflow, Action))
    ensures
        started.0@ == begun(
            lowercase_of(config@.desktop_env),
            config@.has_nvidia,
            lowercase_of(config@.nvidia_vers),
            config@.auto_reboot,
        ).0,
        started.1@ == begun(
            lowercase_of(config@.desktop_env),
            config@.has_nvidia,
            lowercase_of(config@.nvidia_vers),
            config@.auto_reboot,
        ).1,
{
    let de = config.desktop_env.as_str().to_lowercase();
    let vers = config.nvidia_vers.as_str().to_lowercase();
    Workflow::begin(de.as_str(), config.has_nvidia, vers.as_str(), config.auto_reboot)
}

/// The text of the image reference for an environment, a profile and a
/// driver version on a release. The environment is matched as the table
/// spells it; the driver version is read in lower case.
pub fn create_cmd_string(dsk_env: &str, is_nvidia: bool, nvidia_vers: &str, release: &OsRelease) -> (text:
    Result<String, ResolveError>)
    ensures
        (match text {
            Ok(reference) => resolution_of(
                dsk_env@,
                is_nvidia,
                lowercase_of(nvidia_vers@),
                release@,
            ) matches Ok(resolved) && reference@ == reference_text(
                resolved.image_name,
                resolved.tag,
            ),
            Err(error) => resolution_of(dsk_env@, is_nvidia, lowercase_of(nvidia_vers@), release@)
                == Err::<ImageReferenceView, ResolveError>(error),
        }),
{
    let vers = nvidia_vers.to_lowercase();
    match resolve(dsk_env, is_nvidia, vers.as_str(), release) {
        Ok(reference) => Ok(reference.to_text()),
        Err(error) => Err(error),
    }
}

} // verus!
