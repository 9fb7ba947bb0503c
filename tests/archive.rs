use rconf::{
    addition_for, Addition,
    archive_file_name, build_script, default_manifest_path, is_manifest_entry, removal_for,
    ArchiveEntry, ArchivePath, ConfigArchive, ConfigError, Field, Manager, ManagerCommand,
    Occupant, PathKind, PathSpecifier, SystemDirs,
};

fn strings(v: &[&str]) -> Vec<String> {
    v.iter().map(|s| s.to_string()).collect()
}

fn dirs() -> SystemDirs {
    SystemDirs {
        home: Some("/home/user".to_string()),
        config: Some("/home/user/.config".to_string()),
    }
}

fn no_dirs() -> SystemDirs {
    SystemDirs {
        home: None,
        config: None,
    }
}

fn manager(un_install: Option<&[&str]>, upgrade: Option<&[&str]>) -> Manager {
    Manager {
        name: "pacman".to_string(),
        packages: strings(&["git", "vim"]),
        install_args: strings(&["-S", "--noconfirm"]),
        un_install_args: un_install.map(strings),
        upgrade_args: upgrade.map(strings),
    }
}

#[test]
fn round_trip_of_each_kind() {
    for kind in [PathKind::ABSOLUTE, PathKind::HOME, PathKind::CONFIG] {
        let a = ArchivePath {
            kind,
            path: "app/settings.toml".to_string(),
        };
        let back = ArchivePath::from_tar_path(&a.to_tar_path()).unwrap();
        assert_eq!(a, back);
    }
}

#[test]
fn manifest_name_is_skipped() {
    assert!(ArchivePath::from_tar_path(".rconf").is_none());
    assert!(is_manifest_entry(".rconf"));
    assert!(!is_manifest_entry("home/.rconf"));
    assert_eq!(ConfigArchive::entry_destination(".rconf", &dirs()), Ok(None));
    assert_eq!(ConfigArchive::entry_destination("install.sh", &dirs()), Ok(None));
    assert_eq!(
        ConfigArchive::entry_destination("etc/install.sh", &dirs()),
        Ok(Some("/etc/install.sh".to_string()))
    );
}

#[test]
fn marker_precedence() {
    let h = ArchivePath::from_tar_path("home/x").unwrap();
    assert_eq!((h.kind, h.path.as_str()), (PathKind::HOME, "x"));
    let c = ArchivePath::from_tar_path("config/x").unwrap();
    assert_eq!((c.kind, c.path.as_str()), (PathKind::CONFIG, "x"));
    let a = ArchivePath::from_tar_path("homework/x").unwrap();
    assert_eq!((a.kind, a.path.as_str()), (PathKind::ABSOLUTE, "homework/x"));
    let bare = ArchivePath::from_tar_path("home").unwrap();
    assert_eq!((bare.kind, bare.path.as_str()), (PathKind::HOME, ""));
    let doubled = ArchivePath::from_tar_path("home//x").unwrap();
    assert_eq!(doubled.path, "x");
}

#[test]
fn kind_of_manifest_paths() {
    assert_eq!(PathKind::from("configuration"), PathKind::ABSOLUTE);
    assert_eq!(PathKind::from("config"), PathKind::CONFIG);
    assert_eq!(PathKind::from("/home/x"), PathKind::ABSOLUTE);
}

#[test]
fn removal_is_idempotent() {
    assert_eq!(removal_for(Occupant::File), rconf::Removal::RemoveFile);
    assert_eq!(removal_for(Occupant::Dir), rconf::Removal::RemoveDirAll);
    assert_eq!(removal_for(Occupant::Absent), rconf::Removal::Nothing);
    assert_eq!(removal_for(Occupant::Absent), removal_for(Occupant::Absent));
}

#[test]
fn empty_specifier_gives_no_entries() {
    let s = PathSpecifier {
        absolute: Some(vec![]),
        home: None,
        config: Some(vec![]),
    };
    assert!(s.get_all_archiveable_paths().is_empty());
    assert_eq!(s.archive_entries(&no_dirs()), Ok(vec![]));
}

#[test]
fn scenario_home_file() {
    let s = PathSpecifier {
        absolute: Some(vec![]),
        home: Some(vec!["bashrc".to_string()]),
        config: Some(vec![]),
    };
    let plan = s.archive_entries(&dirs()).unwrap();
    assert_eq!(
        plan,
        vec![ArchiveEntry {
            local: "/home/user/bashrc".to_string(),
            name: "home/bashrc".to_string(),
        }]
    );
    assert_eq!(
        ConfigArchive::entry_destination("home/bashrc", &dirs()),
        Ok(Some("/home/user/bashrc".to_string()))
    );
}

#[test]
fn scenario_absolute_file() {
    let s = PathSpecifier {
        absolute: Some(vec!["/etc/sample.conf".to_string()]),
        home: None,
        config: None,
    };
    let plan = s.archive_entries(&no_dirs()).unwrap();
    assert_eq!(plan.len(), 1);
    assert_eq!(plan[0].name, "etc/sample.conf");
    assert_eq!(plan[0].local, "/etc/sample.conf");
    assert_eq!(
        ConfigArchive::entry_destination("etc/sample.conf", &no_dirs()),
        Ok(Some("/etc/sample.conf".to_string()))
    );
}

#[test]
fn missing_manifest_is_reported() {
    assert_eq!(
        ConfigArchive::manifest_from_scan(None),
        Err(ConfigError::ManifestMissing)
    );
    assert_eq!(
        ConfigArchive::manifest_from_scan(Some("[paths]".to_string())),
        Ok("[paths]".to_string())
    );
}

#[test]
fn all_paths_in_domain_order() {
    let s = PathSpecifier {
        absolute: Some(strings(&["/etc/a"])),
        home: Some(strings(&["b", "c"])),
        config: Some(strings(&["d"])),
    };
    let kinds: Vec<PathKind> = s.get_all_archiveable_paths().iter().map(|a| a.kind).collect();
    assert_eq!(
        kinds,
        vec![PathKind::ABSOLUTE, PathKind::HOME, PathKind::HOME, PathKind::CONFIG]
    );
    let names: Vec<String> = s
        .archive_entries(&dirs())
        .unwrap()
        .into_iter()
        .map(|e| e.name)
        .collect();
    assert_eq!(names, strings(&["etc/a", "home/b", "home/c", "config/d"]));
}

#[test]
fn unresolvable_roots_fail() {
    let s = PathSpecifier {
        absolute: Some(strings(&["/etc/a"])),
        home: Some(strings(&["b"])),
        config: Some(strings(&["d"])),
    };
    assert_eq!(
        s.archive_entries(&no_dirs()),
        Err(ConfigError::DirNotFound(PathKind::HOME))
    );
    let only_home = SystemDirs {
        home: Some("/root".to_string()),
        config: None,
    };
    assert_eq!(
        s.archive_entries(&only_home),
        Err(ConfigError::DirNotFound(PathKind::CONFIG))
    );
    assert_eq!(
        ConfigArchive::entry_destination("config/x", &only_home),
        Err(ConfigError::DirNotFound(PathKind::CONFIG))
    );
}

#[test]
fn local_paths_join_roots() {
    let slash = SystemDirs {
        home: Some("/home/user/".to_string()),
        config: None,
    };
    let a = ArchivePath {
        kind: PathKind::HOME,
        path: "bashrc".to_string(),
    };
    assert_eq!(a.to_local_path_in(&slash), Ok("/home/user/bashrc".to_string()));
    let c = ArchivePath {
        kind: PathKind::CONFIG,
        path: "nvim/init.vim".to_string(),
    };
    assert_eq!(
        c.to_local_path_in(&dirs()),
        Ok("/home/user/.config/nvim/init.vim".to_string())
    );
    let abs = ArchivePath {
        kind: PathKind::ABSOLUTE,
        path: "//etc/hosts".to_string(),
    };
    assert_eq!(abs.to_local_path(), Ok("/etc/hosts".to_string()));
    assert_eq!(abs.to_tar_path(), "etc/hosts");
}

#[test]
fn manager_commands() {
    let m = manager(Some(&["-R"]), None);
    assert_eq!(
        m.install_command(),
        ManagerCommand {
            program: "pacman".to_string(),
            args: strings(&["-S", "--noconfirm", "git", "vim"]),
        }
    );
    assert_eq!(
        m.un_install_command(),
        Ok(ManagerCommand {
            program: "pacman".to_string(),
            args: strings(&["-R", "git", "vim"]),
        })
    );
    assert_eq!(
        m.upgrade_command(),
        Err(ConfigError::FieldNotFound(Field::UpgradeArgs))
    );
    let u = manager(None, Some(&["-Syu"]));
    assert_eq!(
        u.un_install_command(),
        Err(ConfigError::FieldNotFound(Field::UnInstallArgs))
    );
    assert_eq!(u.upgrade_command().unwrap().args, strings(&["-Syu"]));
}

#[test]
fn archive_steps_follow_manager() {
    let cfg = ConfigArchive {
        paths: None,
        manager: Some(manager(None, None)),
    };
    assert_eq!(cfg.install_manager_command().unwrap().program, "pacman");
    assert_eq!(cfg.check_install_status(true), Ok(()));
    assert_eq!(
        cfg.check_install_status(false),
        Err(ConfigError::Manager(
            "pacman".to_string(),
            strings(&["-S", "--noconfirm"])
        ))
    );
    assert_eq!(
        cfg.uninstall_manager_command(),
        Err(ConfigError::FieldNotFound(Field::UnInstallArgs))
    );
    assert_eq!(
        cfg.upgrade_manager_command(),
        Err(ConfigError::FieldNotFound(Field::UpgradeArgs))
    );

    let bare = ConfigArchive {
        paths: None,
        manager: None,
    };
    assert_eq!(bare.install_manager_command(), None);
    assert_eq!(bare.check_install_status(false), Ok(()));
    assert_eq!(bare.uninstall_manager_command(), Ok(None));
    assert_eq!(
        bare.upgrade_manager_command(),
        Err(ConfigError::FieldNotFound(Field::Manager))
    );
}

#[test]
fn error_messages() {
    assert_eq!(
        ConfigError::DirNotFound(PathKind::HOME).message(),
        "Could not determine system: Home"
    );
    assert_eq!(
        ConfigError::FieldNotFound(Field::UpgradeArgs).message(),
        "No value specified for 'upgrade_args' which is required by this operation"
    );
    assert_eq!(
        ConfigError::Io("denied".to_string()).message(),
        "An error occurred while handling file: denied"
    );
    assert_eq!(
        ConfigError::Manager("apt".to_string(), strings(&["install", "-y"])).message(),
        "The package manager 'apt' failed with the arguments: install -y"
    );
}

#[test]
fn archive_names_and_defaults() {
    assert_eq!(archive_file_name("backup"), "backup.tar");
    assert_eq!(archive_file_name("backup.tar"), "backup.tar");
    assert_eq!(archive_file_name(".tar"), ".tar");
    assert_eq!(
        default_manifest_path(&dirs()),
        Some("/home/user/.config/.rconf".to_string())
    );
    assert_eq!(default_manifest_path(&no_dirs()), None);
}

#[test]
fn install_script_text() {
    let empty = ConfigArchive {
        paths: None,
        manager: None,
    };
    assert_eq!(build_script(&empty), "#!/usr/bin/env bash\n");
    let cfg = ConfigArchive {
        paths: Some(PathSpecifier {
            absolute: None,
            home: Some(vec![]),
            config: None,
        }),
        manager: Some(manager(None, None)),
    };
    let script = build_script(&cfg);
    assert!(script.starts_with("#!/usr/bin/env bash\nif [ -d home ];then\n"));
    assert!(!script.contains("config"));
    assert!(script.ends_with("fi\npacman -S --noconfirm git vim"));
}

#[test]
fn entries_leaving_their_root_are_refused() {
    assert_eq!(
        ConfigArchive::entry_destination("home/../../etc/x", &dirs()),
        Err(ConfigError::UnsafeEntry("home/../../etc/x".to_string()))
    );
    assert_eq!(
        ConfigArchive::entry_destination("config/a/..", &no_dirs()),
        Err(ConfigError::UnsafeEntry("config/a/..".to_string()))
    );
    assert_eq!(
        ConfigArchive::entry_destination("home/..x/y", &dirs()),
        Ok(Some("/home/user/..x/y".to_string()))
    );
    assert_eq!(
        ConfigError::UnsafeEntry("home/../x".to_string()).message(),
        "The archive entry 'home/../x' leaves the directory it belongs under"
    );
}

#[test]
fn additions_follow_occupant() {
    assert_eq!(addition_for(Occupant::File, "/a"), Ok(Addition::AppendFile));
    assert_eq!(addition_for(Occupant::Dir, "/a"), Ok(Addition::AppendDirAll));
    assert_eq!(
        addition_for(Occupant::Absent, "/etc/missing"),
        Err(ConfigError::Io("/etc/missing does not exist".to_string()))
    );
}
