use rconf::{ArchivePath, PathKind, PathSpecifier};

#[test]
fn test_path_kind() {
    assert_eq!(PathKind::ABSOLUTE, PathKind::from("/etc/rconf"));
    assert_eq!(PathKind::HOME, PathKind::from("home/rconf"));
    assert_eq!(PathKind::CONFIG, PathKind::from("config/rconf"));
}

#[test]
fn test_from_tar_path_skip_rconf() {
    assert!(ArchivePath::from_tar_path(".rconf").is_none());
}

#[test]
fn test_from_tar_path_absolute() {
    let home = ArchivePath::from_tar_path("etc/rconf");
    assert_eq!(
        ArchivePath {
            kind: PathKind::ABSOLUTE,
            path: "etc/rconf".to_string()
        },
        home.unwrap()
    );
}

#[test]
fn test_from_tar_path_home() {
    let home = ArchivePath::from_tar_path("home/rconf");
    assert_eq!(
        ArchivePath {
            kind: PathKind::HOME,
            path: "rconf".to_string()
        },
        home.unwrap()
    );
}

#[test]
fn test_from_tar_path_config() {
    let config = ArchivePath::from_tar_path("config/rconf");
    assert_eq!(
        ArchivePath {
            kind: PathKind::CONFIG,
            path: "rconf".to_string()
        },
        config.unwrap()
    );
}

#[test]
fn test_to_tar_path_absolute() {
    let absolute = ArchivePath {
        kind: PathKind::ABSOLUTE,
        path: "etc/rconf".to_string(),
    };

    assert_eq!("etc/rconf", absolute.to_tar_path());
}

#[test]
fn test_to_tar_path_home() {
    let home = ArchivePath {
        kind: PathKind::HOME,
        path: "rconf".to_string(),
    };

    assert_eq!("home/rconf", home.to_tar_path());
}

#[test]
fn test_to_tar_path_config() {
    let config = ArchivePath {
        kind: PathKind::CONFIG,
        path: "rconf".to_string(),
    };

    assert_eq!("config/rconf", config.to_tar_path());
}

#[test]
fn test_archiveable_paths() {
    let specifier = PathSpecifier {
        absolute: Some(vec!["/etc/rconf".to_string()]),
        home: Some(vec!["rconf".to_string()]),
        config: Some(vec!["rconf".to_string()]),
    };

    let expected_absolute = vec![ArchivePath {
        kind: PathKind::ABSOLUTE,
        path: "/etc/rconf".to_string(),
    }];
    let expected_home = vec![ArchivePath {
        kind: PathKind::HOME,
        path: "rconf".to_string(),
    }];
    let expected_config = vec![ArchivePath {
        kind: PathKind::CONFIG,
        path: "rconf".to_string(),
    }];

    assert_eq!(
        expected_absolute,
        specifier.get_archiveable_paths(PathKind::ABSOLUTE)
    );
    assert_eq!(
        expected_home,
        specifier.get_archiveable_paths(PathKind::HOME)
    );
    assert_eq!(
        expected_config,
        specifier.get_archiveable_paths(PathKind::CONFIG)
    );
}

#[test]
fn test_empty_archiveable_paths() {
    let specifier = PathSpecifier {
        absolute: None,
        home: None,
        config: None,
    };

    assert!(specifier
        .get_archiveable_paths(PathKind::ABSOLUTE)
        .is_empty());
    assert!(specifier.get_archiveable_paths(PathKind::HOME).is_empty());
    assert!(specifier.get_archiveable_paths(PathKind::CONFIG).is_empty());
}
