//! From a selection to an image reference: the table of desktop
//! environments, the vocabulary of driver versions, and the reference text.

use crate::release::{is_blank, is_release_char, is_release_text, OsRelease};
use crate::text::{ends_with, lowercase_of, reads_as};
use vstd::prelude::*;
use vstd::string::*;

verus! {

/// The desktop environments for which an image exists.
#[derive(Clone, Copy, Debug, PartialEq, Eq, Structural)]
pub enum DesktopEnvironment {
    Bluefin,
    Gnome,
    Lxqt,
    Mate,
    Xfce,
    Kde,
}

/// The driver versions that can be asked for. `Latest` adds nothing to the
/// tag.
#[derive(Clone, Copy, Debug, PartialEq, Eq, Structural)]
pub enum DriverVersion {
    Latest,
    V470,
    V525,
    Current,
}

/// Why a selection resolves to no image.
#[derive(Clone, Copy, Debug, PartialEq, Eq, Structural)]
pub enum ResolveError {
    UnsupportedEnvironment,
    UnsupportedDriverVersion,
}

/// A checked selection: what the user asked for, in the library's own
/// terms. It is made once and never changed.
#[derive(Clone, Copy, Debug, PartialEq, Eq, Structural)]
pub struct Selection {
    pub environment: DesktopEnvironment,
    pub gpu: bool,
    pub driver: DriverVersion,
    pub auto_reboot: bool,
}

/// The environment that a name selects. Names are matched as they are
/// spelled here, in lower case and with nothing around them.
pub open spec fn desktop_of_name(name: Seq<char>) -> Option<DesktopEnvironment> {
    if name == "bluefin"@ {
        Some(DesktopEnvironment::Bluefin)
    } else if name == "gnome"@ {
        Some(DesktopEnvironment::Gnome)
    } else if name == "lxqt"@ {
        Some(DesktopEnvironment::Lxqt)
    } else if name == "mate"@ {
        Some(DesktopEnvironment::Mate)
    } else if name == "xfce"@ {
        Some(DesktopEnvironment::Xfce)
    } else if name == "kde"@ {
        Some(DesktopEnvironment::Kde)
    } else {
        None
    }
}

/// The image that an environment is built on, before any suffix.
pub open spec fn base_image(environment: DesktopEnvironment) -> Seq<char> {
    match environment {
        DesktopEnvironment::Bluefin => "bluefin"@,
        DesktopEnvironment::Gnome => "silverblue"@,
        DesktopEnvironment::Lxqt => "lxqt"@,
        DesktopEnvironment::Mate => "mate"@,
        DesktopEnvironment::Xfce => "vauxite"@,
        DesktopEnvironment::Kde => "kinoite"@,
    }
}

/// Whether the image of an environment carries the default-profile suffix
/// when no GPU profile is asked for. Bluefin is the one that does not.
pub open spec fn takes_default_suffix(environment: DesktopEnvironment) -> bool {
    environment != DesktopEnvironment::Bluefin
}

/// The suffix of the default profile.
pub open spec fn default_suffix() -> Seq<char> {
    "-main"@
}

/// The suffix of the GPU profile.
pub open spec fn gpu_suffix() -> Seq<char> {
    "-nvidia"@
}

/// The suffix that follows the base image.
pub open spec fn profile_suffix(environment: DesktopEnvironment, gpu: bool) -> Seq<char> {
    if gpu {
        gpu_suffix()
    } else if takes_default_suffix(environment) {
        default_suffix()
    } else {
        Seq::empty()
    }
}

/// The name of the image for an environment and a profile.
pub open spec fn image_name_of(environment: DesktopEnvironment, gpu: bool) -> Seq<char> {
    base_image(environment) + profile_suffix(environment, gpu)
}

/// The driver version that a hint in lower case asks for. The empty hint and
/// `latest` both ask for the latest driver.
pub open spec fn driver_of_hint(hint: Seq<char>) -> Option<DriverVersion> {
    if hint == "470"@ {
        Some(DriverVersion::V470)
    } else if hint == "525"@ {
        Some(DriverVersion::V525)
    } else if hint == "current"@ {
        Some(DriverVersion::Current)
    } else if hint == "latest"@ || hint == ""@ {
        Some(DriverVersion::Latest)
    } else {
        None
    }
}

/// What a driver version adds to the tag, without the separator.
pub open spec fn driver_suffix(driver: DriverVersion) -> Seq<char> {
    match driver {
        DriverVersion::Latest => ""@,
        DriverVersion::V470 => "470"@,
        DriverVersion::V525 => "525"@,
        DriverVersion::Current => "current"@,
    }
}

/// The tag for a release and a driver version.
pub open spec fn tag_of(release: Seq<char>, driver: DriverVersion) -> Seq<char> {
    if driver == DriverVersion::Latest {
        release
    } else {
        release + "-"@ + driver_suffix(driver)
    }
}

impl DesktopEnvironment {
    /// Looks a name up in the table of environments.
    pub fn from_name(name: &str) -> (found: Option<DesktopEnvironment>)
        ensures
            found == desktop_of_name(name@),
    {
        if reads_as(name, "bluefin") {
            Some(DesktopEnvironment::Bluefin)
        } else if reads_as(name, "gnome") {
            Some(DesktopEnvironment::Gnome)
        } else if reads_as(name, "lxqt") {
            Some(DesktopEnvironment::Lxqt)
        } else if reads_as(name, "mate") {
            Some(DesktopEnvironment::Mate)
        } else if reads_as(name, "xfce") {
            Some(DesktopEnvironment::Xfce)
        } else if reads_as(name, "kde") {
            Some(DesktopEnvironment::Kde)
        } else {
            None
        }
    }

    /// The image that this environment is built on.
    pub fn base_image(self) -> (name: &'static str)
        ensures
            name@ == base_image(self),
    {
        match self {
            DesktopEnvironment::Bluefin => "bluefin",
            DesktopEnvironment::Gnome => "silverblue",
            DesktopEnvironment::Lxqt => "lxqt",
            DesktopEnvironment::Mate => "mate",
            DesktopEnvironment::Xfce => "vauxite",
            DesktopEnvironment::Kde => "kinoite",
        }
    }

    /// Whether the image carries the default-profile suffix.
    pub fn takes_default_suffix(self) -> (takes: bool)
        ensures
            takes == takes_default_suffix(self),
    {
        match self {
            DesktopEnvironment::Bluefin => false,
            _ => true,
        }
    }

    /// The name of the image for this environment and a profile.
    pub fn image_name(self, gpu: bool) -> (name: String)
        ensures
            name@ == image_name_of(self, gpu),
    {
        let mut name = String::from_str(self.base_image());
        if gpu {
            name.append("-nvidia");
        } else if self.takes_default_suffix() {
            name.append("-main");
        }
        name
    }
}

impl DriverVersion {
    /// Looks a hint, already in lower case, up in the vocabulary.
    pub fn from_hint(hint: &str) -> (found: Option<DriverVersion>)
        ensures
            found == driver_of_hint(hint@),
    {
        if reads_as(hint, "470") {
            Some(DriverVersion::V470)
        } else if reads_as(hint, "525") {
            Some(DriverVersion::V525)
        } else if reads_as(hint, "current") {
            Some(DriverVersion::Current)
        } else if reads_as(hint, "latest") || reads_as(hint, "") {
            Some(DriverVersion::Latest)
        } else {
            None
        }
    }

    /// What this version adds to the tag, without the separator.
    pub fn suffix(self) -> (text: &'static str)
        ensures
            text@ == driver_suffix(self),
    {
        match self {
            DriverVersion::Latest => "",
            DriverVersion::V470 => "470",
            DriverVersion::V525 => "525",
            DriverVersion::Current => "current",
        }
    }

    /// The tag for a release and this version.
    pub fn tag(self, release: &OsRelease) -> (tag: String)
        ensures
            tag@ == tag_of(release@, self),
            tag@.len() > 0,
    {
        let mut tag = String::from_str(release.as_str());
        match self {
            DriverVersion::Latest => {},
            _ => {
                tag.append("-");
                tag.append(self.suffix());
            },
        }
        tag
    }
}

/// The transport by which the host fetches the image: the registry is not
/// verified.
pub open spec fn transport() -> Seq<char> {
    "ostree-unverified-registry"@
}

/// The registry host and namespace that hold the images.
pub open spec fn repository() -> Seq<char> {
    "ghcr.io/ublue-os"@
}

/// The reference as the host takes it: transport, repository, name and tag.
pub open spec fn reference_text(image_name: Seq<char>, tag: Seq<char>) -> Seq<char> {
    transport() + ":"@ + repository() + "/"@ + image_name + ":"@ + tag
}

/// The arguments of the rebase to a reference.
pub open spec fn rebase_arguments_for(reference: ImageReferenceView) -> Seq<Seq<char>> {
    seq!["rebase"@, "--experimental"@, reference_text(reference.image_name, reference.tag)]
}

/// Whether `name` is the image name of some environment in the given
/// profile.
pub open spec fn is_image_name(name: Seq<char>, gpu: bool) -> bool {
    exists|environment: DesktopEnvironment| name == #[trigger] image_name_of(environment, gpu)
}

/// What an image reference holds.
pub struct ImageReferenceView {
    pub image_name: Seq<char>,
    pub tag: Seq<char>,
    pub gpu_profile: bool,
}

/// Where the image of a selection is found. The name is one of the supported
/// image names and the tag is not empty.
#[derive(Debug, PartialEq, Eq)]
pub struct ImageReference {
    image_name: String,
    tag: String,
    gpu_profile: bool,
}

impl View for ImageReference {
    type V = ImageReferenceView;

    closed spec fn view(&self) -> ImageReferenceView {
        ImageReferenceView {
            image_name: self.image_name@,
            tag: self.tag@,
            gpu_profile: self.gpu_profile,
        }
    }
}

/// The selection that the given words make: the environment is looked up
/// first, then the hint, so an unknown environment is what is reported when
/// both are unknown.
pub open spec fn selection_of(name: Seq<char>, gpu: bool, hint: Seq<char>, auto_reboot: bool)
    -> Result<Selection, ResolveError> {
    match desktop_of_name(name) {
        None => Err(ResolveError::UnsupportedEnvironment),
        Some(environment) => match driver_of_hint(hint) {
            None => Err(ResolveError::UnsupportedDriverVersion),
            Some(driver) => Ok(Selection { environment, gpu, driver, auto_reboot }),
        },
    }
}

/// The reference of a selection on a release.
pub open spec fn reference_of(selection: Selection, release: Seq<char>) -> ImageReferenceView {
    ImageReferenceView {
        image_name: image_name_of(selection.environment, selection.gpu),
        tag: tag_of(release, selection.driver),
        gpu_profile: selection.gpu,
    }
}

/// What the given words resolve to on a release.
pub open spec fn resolution_of(name: Seq<char>, gpu: bool, hint: Seq<char>, release: Seq<char>)
    -> Result<ImageReferenceView, ResolveError> {
    match selection_of(name, gpu, hint, false) {
        Err(error) => Err(error),
        Ok(selection) => Ok(reference_of(selection, release)),
    }
}

impl Selection {
    /// Checks the words of a selection against the table of environments and
    /// the vocabulary of driver versions.
    pub fn select(desktop_env: &str, gpu: bool, driver_hint: &str, auto_reboot: bool) -> (selected:
        Result<Selection, ResolveError>)
        ensures
            selected == selection_of(desktop_env@, gpu, driver_hint@, auto_reboot),
    {
        match DesktopEnvironment::from_name(desktop_env) {
            None => Err(ResolveError::UnsupportedEnvironment),
            Some(environment) => match DriverVersion::from_hint(driver_hint) {
                None => Err(ResolveError::UnsupportedDriverVersion),
                Some(driver) => Ok(Selection { environment, gpu, driver, auto_reboot }),
            },
        }
    }
}

impl Clone for ImageReference {
    fn clone(&self) -> (copy: Self)
        ensures
            copy@ == self@,
    {
        proof {
            use_type_invariant(self);
        }
        ImageReference {
            image_name: self.image_name.clone(),
            tag: self.tag.clone(),
            gpu_profile: self.gpu_profile,
        }
    }
}

impl ImageReference {
    #[verifier::type_invariant]
    spec fn well_formed(self) -> bool {
        &&& is_image_name(self.image_name@, self.gpu_profile)
        &&& self.tag@.len() > 0
    }

    /// The reference of a selection on a release.
    pub fn build(selection: &Selection, release: &OsRelease) -> (reference: ImageReference)
        ensures
            reference@ == reference_of(*selection, release@),
    {
        let image_name = selection.environment.image_name(selection.gpu);
        let tag = selection.driver.tag(release);
        ImageReference { image_name, tag, gpu_profile: selection.gpu }
    }

    /// The registry host and namespace.
    pub fn repository(&self) -> (text: &'static str)
        ensures
            text@ == repository(),
    {
        "ghcr.io/ublue-os"
    }

    /// The name of the image, which is one of the supported names.
    pub fn image_name(&self) -> (name: &str)
        ensures
            name@ == self@.image_name,
            is_image_name(name@, self@.gpu_profile),
    {
        proof {
            use_type_invariant(self);
        }
        self.image_name.as_str()
    }

    /// The tag, which is not empty.
    pub fn tag(&self) -> (tag: &str)
        ensures
            tag@ == self@.tag,
            tag@.len() > 0,
    {
        proof {
            use_type_invariant(self);
        }
        self.tag.as_str()
    }

    /// Whether the image is one of the GPU profile.
    pub fn gpu_profile(&self) -> (gpu: bool)
        ensures
            gpu == self@.gpu_profile,
    {
        self.gpu_profile
    }

    /// The arguments that the host's rebase command is run with: the
    /// subcommand, the flag for experimental features, and the reference.
    pub fn rebase_arguments(&self) -> (arguments: Vec<String>)
        ensures
            arguments.deep_view() == rebase_arguments_for(self@),
    {
        let mut arguments: Vec<String> = Vec::new();
        arguments.push(String::from_str("rebase"));
        arguments.push(String::from_str("--experimental"));
        arguments.push(self.to_text());
        assert(arguments.deep_view() =~= rebase_arguments_for(self@));
        arguments
    }

    /// The reference as the host takes it.
    pub fn to_text(&self) -> (text: String)
        ensures
            text@ == reference_text(self@.image_name, self@.tag),
    {
        let mut text = String::from_str("ostree-unverified-registry");
        text.append(":");
        text.append("ghcr.io/ublue-os");
        text.append("/");
        text.append(self.image_name.as_str());
        text.append(":");
        text.append(self.tag.as_str());
        text
    }
}

/// Resolves a selection to its image reference. The environment and the
/// hint are matched as the vocabulary spells them.
pub fn resolve(desktop_env: &str, gpu: bool, driver_hint: &str, release: &OsRelease) -> (resolved:
    Result<ImageReference, ResolveError>)
    ensures
        (match resolved {
            Ok(reference) => resolution_of(desktop_env@, gpu, driver_hint@, release@) == Ok::<
                ImageReferenceView,
                ResolveError,
            >(reference@),
            Err(error) => resolution_of(desktop_env@, gpu, driver_hint@, release@) == Err::<
                ImageReferenceView,
                ResolveError,
            >(error),
        }),
        desktop_of_name(desktop_env@) is None ==> resolved == Err::<ImageReference, ResolveError>(
            ResolveError::UnsupportedEnvironment,
        ),
        desktop_of_name(desktop_env@) is Some && driver_of_hint(driver_hint@) is None ==> resolved
            == Err::<ImageReference, ResolveError>(ResolveError::UnsupportedDriverVersion),
        desktop_of_name(desktop_env@) is Some && driver_of_hint(driver_hint@) is Some
            ==> resolved is Ok,
{
    match Selection::select(desktop_env, gpu, driver_hint, false) {
        Err(error) => Err(error),
        Ok(selection) => Ok(ImageReference::build(&selection, release)),
    }
}

/// The image name for an environment given by name, as the table spells it.
pub fn get_img_name(dsk_env: &str, is_nvidia: bool) -> (named: Result<String, ResolveError>)
    ensures
        (match named {
            Ok(name) => desktop_of_name(dsk_env@) matches Some(environment) && name@
                == image_name_of(environment, is_nvidia),
            Err(error) => desktop_of_name(dsk_env@) is None && error
                == ResolveError::UnsupportedEnvironment,
        }),
{
    match DesktopEnvironment::from_name(dsk_env) {
        Some(environment) => Ok(environment.image_name(is_nvidia)),
        None => Err(ResolveError::UnsupportedEnvironment),
    }
}

/// What a driver hint adds to the tag. The hint is read in lower case, so
/// `CURRENT` asks for what `current` asks for.
pub fn get_nvidia_vers(nvidia_vers: &str) -> (suffix: Result<String, ResolveError>)
    ensures
        (match suffix {
            Ok(text) => driver_of_hint(lowercase_of(nvidia_vers@)) matches Some(driver) && text@
                == driver_suffix(driver),
            Err(error) => driver_of_hint(lowercase_of(nvidia_vers@)) is None && error
                == ResolveError::UnsupportedDriverVersion,
        }),
{
    let lowered = nvidia_vers.to_lowercase();
    match DriverVersion::from_hint(lowered.as_str()) {
        Some(driver) => Ok(String::from_str(driver.suffix())),
        None => Err(ResolveError::UnsupportedDriverVersion),
    }
}

/// What the text literals of the table hold.
pub proof fn lemma_table_words()
    ensures
        "bluefin"@ == seq!['b', 'l', 'u', 'e', 'f', 'i', 'n'],
        "silverblue"@ == seq!['s', 'i', 'l', 'v', 'e', 'r', 'b', 'l', 'u', 'e'],
        "lxqt"@ == seq!['l', 'x', 'q', 't'],
        "mate"@ == seq!['m', 'a', 't', 'e'],
        "vauxite"@ == seq!['v', 'a', 'u', 'x', 'i', 't', 'e'],
        "kinoite"@ == seq!['k', 'i', 'n', 'o', 'i', 't', 'e'],
        "gnome"@ == seq!['g', 'n', 'o', 'm', 'e'],
        "xfce"@ == seq!['x', 'f', 'c', 'e'],
        "kde"@ == seq!['k', 'd', 'e'],
        "-main"@ == seq!['-', 'm', 'a', 'i', 'n'],
        "-nvidia"@ == seq!['-', 'n', 'v', 'i', 'd', 'i', 'a'],
        "470"@ == seq!['4', '7', '0'],
        "525"@ == seq!['5', '2', '5'],
        "current"@ == seq!['c', 'u', 'r', 'r', 'e', 'n', 't'],
        "latest"@ == seq!['l', 'a', 't', 'e', 's', 't'],
        ""@ == Seq::<char>::empty(),
        "-"@ == seq!['-'],
{
    reveal_strlit("bluefin");
    reveal_strlit("silverblue");
    reveal_strlit("lxqt");
    reveal_strlit("mate");
    reveal_strlit("vauxite");
    reveal_strlit("kinoite");
    reveal_strlit("gnome");
    reveal_strlit("xfce");
    reveal_strlit("kde");
    reveal_strlit("-main");
    reveal_strlit("-nvidia");
    reveal_strlit("470");
    reveal_strlit("525");
    reveal_strlit("current");
    reveal_strlit("latest");
    reveal_strlit("");
    reveal_strlit("-");
    assert("bluefin"@ =~= seq!['b', 'l', 'u', 'e', 'f', 'i', 'n']);
    assert("silverblue"@ =~= seq!['s', 'i', 'l', 'v', 'e', 'r', 'b', 'l', 'u', 'e']);
    assert("lxqt"@ =~= seq!['l', 'x', 'q', 't']);
    assert("mate"@ =~= seq!['m', 'a', 't', 'e']);
    assert("vauxite"@ =~= seq!['v', 'a', 'u', 'x', 'i', 't', 'e']);
    assert("kinoite"@ =~= seq!['k', 'i', 'n', 'o', 'i', 't', 'e']);
    assert("gnome"@ =~= seq!['g', 'n', 'o', 'm', 'e']);
    assert("xfce"@ =~= seq!['x', 'f', 'c', 'e']);
    assert("kde"@ =~= seq!['k', 'd', 'e']);
    assert("-main"@ =~= seq!['-', 'm', 'a', 'i', 'n']);
    assert("-nvidia"@ =~= seq!['-', 'n', 'v', 'i', 'd', 'i', 'a']);
    assert("470"@ =~= seq!['4', '7', '0']);
    assert("525"@ =~= seq!['5', '2', '5']);
    assert("current"@ =~= seq!['c', 'u', 'r', 'r', 'e', 'n', 't']);
    assert("latest"@ =~= seq!['l', 'a', 't', 'e', 's', 't']);
    assert(""@ =~= Seq::<char>::empty());
    assert("-"@ =~= seq!['-']);
}

/// The name of an image ends in the GPU suffix exactly when it is of the GPU
/// profile, and in the default suffix exactly when it is not and the
/// environment takes that suffix.
pub proof fn lemma_image_name_suffix(environment: DesktopEnvironment, gpu: bool)
    ensures
        ends_with(image_name_of(environment, gpu), gpu_suffix()) <==> gpu,
        ends_with(image_name_of(environment, gpu), default_suffix()) <==> !gpu
            && environment != DesktopEnvironment::Bluefin,
{
    lemma_table_words();
    let name = image_name_of(environment, gpu);
    let base = base_image(environment);
    let last = name.len() - 1;
    if gpu {
        assert(name == base + gpu_suffix());
        assert(name.subrange(name.len() - 7, name.len() as int) =~= gpu_suffix());
        assert(name[last] == 'a');
        if ends_with(name, default_suffix()) {
            assert(name.subrange(name.len() - 5, name.len() as int)[4] == 'n');
        }
    } else if environment != DesktopEnvironment::Bluefin {
        assert(name == base + default_suffix());
        assert(name.subrange(name.len() - 5, name.len() as int) =~= default_suffix());
        assert(name[last] == 'n');
        if ends_with(name, gpu_suffix()) {
            assert(name.subrange(name.len() - 7, name.len() as int)[6] == 'a');
        }
    } else {
        assert(name =~= base);
        if ends_with(name, gpu_suffix()) {
            assert(name.subrange(name.len() - 7, name.len() as int)[6] == 'a');
        }
        if ends_with(name, default_suffix()) {
            assert(name.subrange(name.len() - 5, name.len() as int)[2] == 'a');
        }
    }
}

/// The twelve image names, one for each environment and profile.
pub proof fn lemma_image_names()
    ensures
        image_name_of(DesktopEnvironment::Bluefin, false) == "bluefin"@,
        image_name_of(DesktopEnvironment::Bluefin, true) == "bluefin-nvidia"@,
        image_name_of(DesktopEnvironment::Gnome, false) == "silverblue-main"@,
        image_name_of(DesktopEnvironment::Gnome, true) == "silverblue-nvidia"@,
        image_name_of(DesktopEnvironment::Lxqt, false) == "lxqt-main"@,
        image_name_of(DesktopEnvironment::Lxqt, true) == "lxqt-nvidia"@,
        image_name_of(DesktopEnvironment::Mate, false) == "mate-main"@,
        image_name_of(DesktopEnvironment::Mate, true) == "mate-nvidia"@,
        image_name_of(DesktopEnvironment::Xfce, false) == "vauxite-main"@,
        image_name_of(DesktopEnvironment::Xfce, true) == "vauxite-nvidia"@,
        image_name_of(DesktopEnvironment::Kde, false) == "kinoite-main"@,
        image_name_of(DesktopEnvironment::Kde, true) == "kinoite-nvidia"@,
{
    lemma_table_words();
    reveal_strlit("bluefin-nvidia");
    reveal_strlit("silverblue-main");
    reveal_strlit("silverblue-nvidia");
    reveal_strlit("lxqt-main");
    reveal_strlit("lxqt-nvidia");
    reveal_strlit("mate-main");
    reveal_strlit("mate-nvidia");
    reveal_strlit("vauxite-main");
    reveal_strlit("vauxite-nvidia");
    reveal_strlit("kinoite-main");
    reveal_strlit("kinoite-nvidia");
    assert(image_name_of(DesktopEnvironment::Bluefin, false) =~= "bluefin"@);
    assert(image_name_of(DesktopEnvironment::Bluefin, true) =~= "bluefin-nvidia"@);
    assert(image_name_of(DesktopEnvironment::Gnome, false) =~= "silverblue-main"@);
    assert(image_name_of(DesktopEnvironment::Gnome, true) =~= "silverblue-nvidia"@);
    assert(image_name_of(DesktopEnvironment::Lxqt, false) =~= "lxqt-main"@);
    assert(image_name_of(DesktopEnvironment::Lxqt, true) =~= "lxqt-nvidia"@);
    assert(image_name_of(DesktopEnvironment::Mate, false) =~= "mate-main"@);
    assert(image_name_of(DesktopEnvironment::Mate, true) =~= "mate-nvidia"@);
    assert(image_name_of(DesktopEnvironment::Xfce, false) =~= "vauxite-main"@);
    assert(image_name_of(DesktopEnvironment::Xfce, true) =~= "vauxite-nvidia"@);
    assert(image_name_of(DesktopEnvironment::Kde, false) =~= "kinoite-main"@);
    assert(image_name_of(DesktopEnvironment::Kde, true) =~= "kinoite-nvidia"@);
}

/// An image name is not empty and is made of lower-case letters and the
/// hyphen alone: it holds no blank, colon or slash, so the reference text
/// has one reading.
pub proof fn lemma_image_name_is_plain(environment: DesktopEnvironment, gpu: bool)
    ensures
        image_name_of(environment, gpu).len() > 0,
        forall|i: int|
            0 <= i < image_name_of(environment, gpu).len() ==> {
                let c = #[trigger] image_name_of(environment, gpu)[i];
                'a' <= c <= 'z' || c == '-'
            },
{
    lemma_table_words();
}

/// Two image names are equal only for the same environment and the same
/// profile.
pub proof fn lemma_image_names_differ(
    environment: DesktopEnvironment,
    gpu: bool,
    other: DesktopEnvironment,
    other_gpu: bool,
)
    requires
        image_name_of(environment, gpu) == image_name_of(other, other_gpu),
    ensures
        environment == other,
        gpu == other_gpu,
{
    lemma_table_words();
    let name = image_name_of(environment, gpu);
    let same = image_name_of(other, other_gpu);
    lemma_image_name_suffix(environment, gpu);
    lemma_image_name_suffix(other, other_gpu);
    assert(name[0] == base_image(environment)[0]);
    assert(same[0] == base_image(other)[0]);
    assert(name[1] == base_image(environment)[1]);
    assert(same[1] == base_image(other)[1]);
    assert(name.len() == same.len());
}

/// Whether `part` stands somewhere in `text`.
pub open spec fn holds(text: Seq<char>, part: Seq<char>) -> bool {
    exists|at: int|
        0 <= at && at + part.len() <= text.len() && #[trigger] text.subrange(at, at + part.len())
            == part
}

/// An image name holds the GPU suffix exactly when it is of the GPU
/// profile, and the default suffix exactly when it is not and the
/// environment takes that suffix: neither stands anywhere in a name that
/// does not end in it.
pub proof fn lemma_image_name_holds_its_suffix_only(environment: DesktopEnvironment, gpu: bool)
    ensures
        holds(image_name_of(environment, gpu), gpu_suffix()) <==> gpu,
        holds(image_name_of(environment, gpu), default_suffix()) <==> !gpu && environment
            != DesktopEnvironment::Bluefin,
{
    lemma_table_words();
    lemma_image_name_suffix(environment, gpu);
    let name = image_name_of(environment, gpu);
    let base = base_image(environment);
    assert forall|k: int| 0 <= k < base.len() implies base[k] != '-' by {}
    if ends_with(name, gpu_suffix()) {
        assert(name.subrange(name.len() - 7, name.len() - 7 + gpu_suffix().len()) == gpu_suffix());
    }
    if ends_with(name, default_suffix()) {
        assert(name.subrange(name.len() - 5, name.len() - 5 + default_suffix().len())
            == default_suffix());
    }
    assert forall|at: int|
        0 <= at && at + 7 <= name.len() && #[trigger] name.subrange(at, at + 7)
            == gpu_suffix() implies gpu by {
        let piece = name.subrange(at, at + 7);
        assert(piece[0] == '-' && piece[1] == 'n');
        assert(name[at] == '-' && name[at + 1] == 'n');
        if at < base.len() {
            assert(name[at] == base[at]);
        }
    }
    assert forall|at: int|
        0 <= at && at + 5 <= name.len() && #[trigger] name.subrange(at, at + 5)
            == default_suffix() implies !gpu && environment != DesktopEnvironment::Bluefin by {
        let piece = name.subrange(at, at + 5);
        assert(piece[0] == '-' && piece[1] == 'm');
        assert(name[at] == '-' && name[at + 1] == 'm');
        if at < base.len() {
            assert(name[at] == base[at]);
        }
    }
}

/// The text of a reference on a usable release holds no blank, so the host
/// reads it as one word.
pub proof fn lemma_reference_text_has_no_blank(selection: Selection, release: Seq<char>)
    requires
        is_release_text(release),
    ensures
        ({
            let reference = reference_of(selection, release);
            let text = reference_text(reference.image_name, reference.tag);
            forall|i: int| 0 <= i < text.len() ==> !is_blank(#[trigger] text[i])
        }),
{
    lemma_table_words();
    lemma_image_name_is_plain(selection.environment, selection.gpu);
    reveal_strlit("ostree-unverified-registry");
    reveal_strlit("ghcr.io/ublue-os");
    reveal_strlit(":");
    reveal_strlit("/");
    let name = image_name_of(selection.environment, selection.gpu);
    let tag = tag_of(release, selection.driver);
    let head = transport() + ":"@ + repository() + "/"@;
    let text = reference_text(name, tag);
    assert(transport().len() == 26);
    assert(repository().len() == 16);
    assert(":"@.len() == 1 && "/"@.len() == 1);
    assert forall|i: int| 0 <= i < head.len() implies !is_blank(#[trigger] head[i]) by {}
    assert forall|i: int| 0 <= i < tag.len() implies !is_blank(#[trigger] tag[i]) by {
        if i < release.len() {
            assert(is_release_char(release[i]));
        }
    }
    assert(text == head + name + ":"@ + tag);
    assert forall|i: int| 0 <= i < text.len() implies !is_blank(#[trigger] text[i]) by {
        if i < head.len() {
            assert(text[i] == head[i]);
        } else if i < head.len() + name.len() {
            assert(text[i] == name[i - head.len()]);
        } else if i == head.len() + name.len() {
            assert(text[i] == ':');
        } else {
            assert(text[i] == tag[i - head.len() - name.len() - 1]);
        }
    }
}

/// Every supported environment and profile resolves, with a supported
/// driver version, to a name with exactly one of the two suffixes, never
/// both; the one name without a suffix is that of Bluefin without the GPU
/// profile.
pub proof fn lemma_one_profile_suffix(
    name: Seq<char>,
    gpu: bool,
    hint: Seq<char>,
    release: Seq<char>,
)
    requires
        desktop_of_name(name) is Some,
        driver_of_hint(hint) is Some,
    ensures
        resolution_of(name, gpu, hint, release) is Ok,
        ({
            let image_name = resolution_of(name, gpu, hint, release)->Ok_0.image_name;
            let plain_bluefin = !gpu && desktop_of_name(name) == Some(DesktopEnvironment::Bluefin);
            &&& ends_with(image_name, gpu_suffix()) <==> gpu
            &&& ends_with(image_name, default_suffix()) <==> !gpu && !plain_bluefin
            &&& !(ends_with(image_name, gpu_suffix()) && ends_with(image_name, default_suffix()))
            &&& plain_bluefin ==> image_name == base_image(DesktopEnvironment::Bluefin)
        }),
{
    let environment = desktop_of_name(name)->0;
    lemma_image_name_suffix(environment, gpu);
    assert(base_image(environment) + Seq::<char>::empty() =~= base_image(environment));
}

/// An unknown environment is refused as such, whatever the rest of the
/// selection is.
pub proof fn lemma_unknown_environment_refused(
    name: Seq<char>,
    gpu: bool,
    hint: Seq<char>,
    release: Seq<char>,
)
    requires
        desktop_of_name(name) is None,
    ensures
        resolution_of(name, gpu, hint, release) == Err::<ImageReferenceView, ResolveError>(
            ResolveError::UnsupportedEnvironment,
        ),
{
}

/// An unknown driver version is refused as such wherever the environment is
/// known.
pub proof fn lemma_unknown_driver_version_refused(
    name: Seq<char>,
    gpu: bool,
    hint: Seq<char>,
    release: Seq<char>,
)
    requires
        desktop_of_name(name) is Some,
        driver_of_hint(hint) is None,
    ensures
        resolution_of(name, gpu, hint, release) == Err::<ImageReferenceView, ResolveError>(
            ResolveError::UnsupportedDriverVersion,
        ),
{
}

} // verus!
