//! The resolver: environments, driver versions, releases and references.

use ublue_it_cli::image::{
    get_img_name, get_nvidia_vers, resolve, DesktopEnvironment, DriverVersion, ImageReference,
    ResolveError, Selection,
};
use ublue_it_cli::release::{OsRelease, VersionUnavailable};
use ublue_it_cli::{create_cmd_string, Config};

fn release(text: &str) -> OsRelease {
    OsRelease::parse(text).expect("a usable release")
}

fn resolved(desktop_env: &str, gpu: bool, hint: &str, on: &str) -> ImageReference {
    resolve(desktop_env, gpu, hint, &release(on)).expect("a supported selection")
}

#[test]
fn scenario_gnome_without_gpu() {
    let reference = resolved("gnome", false, "", "39");
    assert_eq!(reference.tag(), "39");
    assert_eq!(reference.image_name(), "silverblue-main");
    assert!(reference.image_name().ends_with("-main"));
    assert!(!reference.gpu_profile());
    assert_eq!(reference.repository(), "ghcr.io/ublue-os");
    assert_eq!(
        reference.to_text(),
        "ostree-unverified-registry:ghcr.io/ublue-os/silverblue-main:39"
    );
}

#[test]
fn scenario_kde_with_gpu_and_driver() {
    let reference = resolved("kde", true, "525", "39");
    assert_eq!(reference.tag(), "39-525");
    assert_eq!(reference.image_name(), "kinoite-nvidia");
    assert!(reference.gpu_profile());
    assert_eq!(
        reference.to_text(),
        "ostree-unverified-registry:ghcr.io/ublue-os/kinoite-nvidia:39-525"
    );
}

#[test]
fn scenario_unknown_environment() {
    let on = release("39");
    for gpu in [false, true] {
        for hint in ["", "470", "525", "current", "latest", "999"] {
            assert_eq!(
                resolve("unknown", gpu, hint, &on),
                Err(ResolveError::UnsupportedEnvironment)
            );
        }
    }
}

#[test]
fn every_environment_has_its_image_names() {
    let table = [
        ("bluefin", "bluefin", "bluefin-nvidia"),
        ("gnome", "silverblue-main", "silverblue-nvidia"),
        ("lxqt", "lxqt-main", "lxqt-nvidia"),
        ("mate", "mate-main", "mate-nvidia"),
        ("xfce", "vauxite-main", "vauxite-nvidia"),
        ("kde", "kinoite-main", "kinoite-nvidia"),
    ];
    for (name, plain, gpu) in table {
        assert_eq!(get_img_name(name, false), Ok(plain.to_string()));
        assert_eq!(get_img_name(name, true), Ok(gpu.to_string()));
        assert_eq!(resolved(name, false, "", "40").image_name(), plain);
        assert_eq!(resolved(name, true, "", "40").image_name(), gpu);
    }
}

#[test]
fn exactly_one_suffix_but_for_plain_bluefin() {
    for name in ["bluefin", "gnome", "lxqt", "mate", "xfce", "kde"] {
        for gpu in [false, true] {
            let image = get_img_name(name, gpu).unwrap();
            let default_form = image.ends_with("-main");
            let gpu_form = image.ends_with("-nvidia");
            assert!(!(default_form && gpu_form));
            assert_eq!(gpu_form, gpu);
            assert_eq!(default_form, !gpu && name != "bluefin");
            assert_eq!(!default_form && !gpu_form, name == "bluefin" && !gpu);
        }
    }
}

#[test]
fn environments_are_matched_as_spelled() {
    for name in [
        "", "unknown", "GNOME", "Kde", "mate ", " mate", "gnome ", " gnome", "silverblue", "kinoite",
        "cinnamon",
    ] {
        assert_eq!(get_img_name(name, false), Err(ResolveError::UnsupportedEnvironment));
        assert_eq!(get_img_name(name, true), Err(ResolveError::UnsupportedEnvironment));
        assert_eq!(DesktopEnvironment::from_name(name), None);
    }
    assert_eq!(DesktopEnvironment::from_name("bluefin"), Some(DesktopEnvironment::Bluefin));
    assert_eq!(DesktopEnvironment::from_name("gnome"), Some(DesktopEnvironment::Gnome));
    assert_eq!(DesktopEnvironment::from_name("lxqt"), Some(DesktopEnvironment::Lxqt));
    assert_eq!(DesktopEnvironment::from_name("mate"), Some(DesktopEnvironment::Mate));
    assert_eq!(DesktopEnvironment::from_name("xfce"), Some(DesktopEnvironment::Xfce));
    assert_eq!(DesktopEnvironment::from_name("kde"), Some(DesktopEnvironment::Kde));
}

#[test]
fn environment_table_entries() {
    assert_eq!(DesktopEnvironment::Bluefin.base_image(), "bluefin");
    assert_eq!(DesktopEnvironment::Gnome.base_image(), "silverblue");
    assert_eq!(DesktopEnvironment::Lxqt.base_image(), "lxqt");
    assert_eq!(DesktopEnvironment::Mate.base_image(), "mate");
    assert_eq!(DesktopEnvironment::Xfce.base_image(), "vauxite");
    assert_eq!(DesktopEnvironment::Kde.base_image(), "kinoite");
    assert!(!DesktopEnvironment::Bluefin.takes_default_suffix());
    assert!(DesktopEnvironment::Gnome.takes_default_suffix());
    assert!(DesktopEnvironment::Kde.takes_default_suffix());
    assert_eq!(DesktopEnvironment::Xfce.image_name(true), "vauxite-nvidia");
    assert_eq!(DesktopEnvironment::Bluefin.image_name(false), "bluefin");
}

#[test]
fn unknown_driver_versions_are_refused() {
    let on = release("39");
    for hint in ["999", "47", "4700", "latest ", " ", "newest", "CURRENT", "Latest", "-"] {
        assert_eq!(DriverVersion::from_hint(hint), None);
        for name in ["bluefin", "gnome", "lxqt", "mate", "xfce", "kde"] {
            for gpu in [false, true] {
                assert_eq!(
                    resolve(name, gpu, hint, &on),
                    Err(ResolveError::UnsupportedDriverVersion)
                );
            }
        }
    }
}

#[test]
fn an_unknown_environment_is_reported_before_an_unknown_driver_version() {
    let on = release("39");
    assert_eq!(resolve("unknown", true, "999", &on), Err(ResolveError::UnsupportedEnvironment));
    assert_eq!(
        Selection::select("unknown", true, "999", false),
        Err(ResolveError::UnsupportedEnvironment)
    );
    assert_eq!(
        Selection::select("gnome", true, "999", false),
        Err(ResolveError::UnsupportedDriverVersion)
    );
}

#[test]
fn driver_versions_and_tags() {
    assert_eq!(resolved("gnome", true, "", "39").tag(), "39");
    assert_eq!(resolved("gnome", true, "latest", "39").tag(), "39");
    assert_eq!(resolved("gnome", true, "470", "39").tag(), "39-470");
    assert_eq!(resolved("gnome", true, "525", "39").tag(), "39-525");
    assert_eq!(resolved("gnome", true, "current", "39").tag(), "39-current");
    assert_eq!(resolved("gnome", false, "470", "38").tag(), "38-470");
    assert_eq!(DriverVersion::from_hint(""), Some(DriverVersion::Latest));
    assert_eq!(DriverVersion::from_hint("latest"), Some(DriverVersion::Latest));
    assert_eq!(DriverVersion::from_hint("470"), Some(DriverVersion::V470));
    assert_eq!(DriverVersion::from_hint("525"), Some(DriverVersion::V525));
    assert_eq!(DriverVersion::from_hint("current"), Some(DriverVersion::Current));
    assert_eq!(DriverVersion::Latest.suffix(), "");
    assert_eq!(DriverVersion::V470.suffix(), "470");
    assert_eq!(DriverVersion::V525.suffix(), "525");
    assert_eq!(DriverVersion::Current.suffix(), "current");
    assert_eq!(DriverVersion::Latest.tag(&release("41")), "41");
    assert_eq!(DriverVersion::Current.tag(&release("41")), "41-current");
}

#[test]
fn driver_hints_are_read_in_lower_case() {
    assert_eq!(get_nvidia_vers("CURRENT"), Ok("current".to_string()));
    assert_eq!(get_nvidia_vers("Current"), Ok("current".to_string()));
    assert_eq!(get_nvidia_vers("current"), Ok("current".to_string()));
    assert_eq!(get_nvidia_vers("LATEST"), Ok(String::new()));
    assert_eq!(get_nvidia_vers("latest"), Ok(String::new()));
    assert_eq!(get_nvidia_vers(""), Ok(String::new()));
    assert_eq!(get_nvidia_vers("470"), Ok("470".to_string()));
    assert_eq!(get_nvidia_vers("525"), Ok("525".to_string()));
    assert_eq!(get_nvidia_vers("530"), Err(ResolveError::UnsupportedDriverVersion));
    assert_eq!(get_nvidia_vers("cur rent"), Err(ResolveError::UnsupportedDriverVersion));
}

#[test]
fn command_text_for_a_selection() {
    let on = release("39");
    assert_eq!(
        create_cmd_string("gnome", false, "", &on),
        Ok("ostree-unverified-registry:ghcr.io/ublue-os/silverblue-main:39".to_string())
    );
    assert_eq!(
        create_cmd_string("xfce", true, "CURRENT", &on),
        Ok("ostree-unverified-registry:ghcr.io/ublue-os/vauxite-nvidia:39-current".to_string())
    );
    assert_eq!(
        create_cmd_string("bluefin", false, "Latest", &on),
        Ok("ostree-unverified-registry:ghcr.io/ublue-os/bluefin:39".to_string())
    );
    assert_eq!(
        create_cmd_string("GNOME", false, "", &on),
        Err(ResolveError::UnsupportedEnvironment)
    );
    assert_eq!(
        create_cmd_string("gnome", false, "latest!", &on),
        Err(ResolveError::UnsupportedDriverVersion)
    );
    assert_eq!(
        create_cmd_string("nothing", false, "latest!", &on),
        Err(ResolveError::UnsupportedEnvironment)
    );
}

#[test]
fn rebase_arguments_carry_the_fixed_flags() {
    let reference = resolved("lxqt", true, "470", "39");
    assert_eq!(
        reference.rebase_arguments(),
        vec![
            "rebase".to_string(),
            "--experimental".to_string(),
            "ostree-unverified-registry:ghcr.io/ublue-os/lxqt-nvidia:39-470".to_string(),
        ]
    );
}

#[test]
fn a_reference_can_be_copied() {
    let reference = resolved("kde", false, "", "39");
    let copy = reference.clone();
    assert_eq!(copy, reference);
    assert_eq!(copy.to_text(), reference.to_text());
}

#[test]
fn a_selection_is_built_once() {
    let selection = Selection::select("kde", true, "525", true).unwrap();
    assert_eq!(
        selection,
        Selection {
            environment: DesktopEnvironment::Kde,
            gpu: true,
            driver: DriverVersion::V525,
            auto_reboot: true,
        }
    );
    let reference = ImageReference::build(&selection, &release("39"));
    assert_eq!(reference.image_name(), "kinoite-nvidia");
    assert_eq!(reference.tag(), "39-525");
}

#[test]
fn releases_are_read_out_of_the_host_answer() {
    assert_eq!(release("39").as_str(), "39");
    assert_eq!(release("39\n").as_str(), "39");
    assert_eq!(release("  39 \t\r\n").as_str(), "39");
    assert_eq!(release("\n\n40").as_str(), "40");
    assert_eq!(release("f39.1_x").as_str(), "f39.1_x");
    assert_eq!(release("Rawhide").as_str(), "Rawhide");
    assert_eq!(release("39").clone().as_str(), "39");
}

#[test]
fn empty_and_malformed_releases_are_unavailable() {
    for raw in [
        "", " ", "\n", " \t\r\n", "3 9", "39\n40", "39-1", "39:latest", "39/40", "39\u{a0}",
        "\u{a0}39", "trente-neuf", "39\u{0}", "é", "39\u{b}",
    ] {
        assert_eq!(OsRelease::parse(raw), Err(VersionUnavailable));
    }
}

#[test]
fn configuration_defaults_and_fields() {
    let config = Config::default();
    assert_eq!(config.desktop_env(), "gnome");
    assert!(!config.has_nvidia());
    assert_eq!(config.nvidia_vers(), "");
    assert!(!config.auto_reboot());
    let config = Config::new("KDE".to_string(), true, "525".to_string(), true);
    assert_eq!(config.desktop_env(), "KDE");
    assert!(config.has_nvidia());
    assert_eq!(config.nvidia_vers(), "525");
    assert!(config.auto_reboot());
}

#[test]
fn mate_resolves_under_its_plain_name() {
    assert_eq!(get_img_name("mate", true), Ok("mate-nvidia".to_string()));
    assert_eq!(get_img_name("mate", false), Ok("mate-main".to_string()));
    assert_eq!(get_img_name("mate ", true), Err(ResolveError::UnsupportedEnvironment));
    assert_eq!(get_img_name("mate ", false), Err(ResolveError::UnsupportedEnvironment));
    assert_eq!(
        create_cmd_string("mate", true, "470", &release("39")),
        Ok("ostree-unverified-registry:ghcr.io/ublue-os/mate-nvidia:39-470".to_string())
    );
    assert_eq!(
        create_cmd_string("mate ", true, "470", &release("39")),
        Err(ResolveError::UnsupportedEnvironment)
    );
}

#[test]
fn image_names_are_the_twelve_and_differ() {
    let expected = [
        "bluefin",
        "bluefin-nvidia",
        "silverblue-main",
        "silverblue-nvidia",
        "lxqt-main",
        "lxqt-nvidia",
        "mate-main",
        "mate-nvidia",
        "vauxite-main",
        "vauxite-nvidia",
        "kinoite-main",
        "kinoite-nvidia",
    ];
    let mut names = Vec::new();
    for name in ["bluefin", "gnome", "lxqt", "mate", "xfce", "kde"] {
        for gpu in [false, true] {
            names.push(get_img_name(name, gpu).unwrap());
        }
    }
    assert_eq!(names, expected);
    for (at, name) in names.iter().enumerate() {
        assert!(!name.is_empty());
        assert!(name.chars().all(|c| c.is_ascii_lowercase() || c == '-'));
        for other in &names[at + 1..] {
            assert_ne!(name, other);
        }
    }
}

#[test]
fn a_name_holds_no_suffix_but_its_own() {
    for name in ["bluefin", "gnome", "lxqt", "mate", "xfce", "kde"] {
        for gpu in [false, true] {
            let image = get_img_name(name, gpu).unwrap();
            assert_eq!(image.contains("-nvidia"), gpu);
            assert_eq!(image.contains("-main"), !gpu && name != "bluefin");
        }
    }
}

#[test]
fn a_reference_text_is_one_word() {
    for name in ["bluefin", "gnome", "lxqt", "mate", "xfce", "kde"] {
        for gpu in [false, true] {
            for hint in ["", "latest", "470", "525", "current"] {
                let text = resolved(name, gpu, hint, " 39\n").to_text();
                assert!(!text.chars().any(char::is_whitespace));
                assert!(text.starts_with("ostree-unverified-registry:ghcr.io/ublue-os/"));
            }
        }
    }
}
