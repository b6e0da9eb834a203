use galion::config::{GalionApp, GalionArgs, GalionConfig, APP_NAME, GALION, WAVES};
use galion::errors::GalionError;
use galion::remote::{ConfigOrigin, RemoteConfiguration};

fn remote(name: &str, origin: ConfigOrigin) -> RemoteConfiguration {
    RemoteConfiguration {
        remote_name: name.to_string(),
        remote_src: Some("/data".to_string()),
        remote_dest: None,
        config_origin: origin,
    }
}

fn app_with(remotes: Vec<RemoteConfiguration>, args: GalionArgs) -> GalionApp {
    GalionApp::new(
        args,
        GalionConfig { remote_configurations: remotes, config_path: "/home/u/.config/galion/galion.json".to_string() },
    )
}

const SHIP: &str = "    _~\n _~ )_)_~\n )_))_))_)\n _!__!__!_\n \\______t/";

#[test]
fn only_user_defined_entries_are_written() {
    let config = GalionConfig {
        remote_configurations: vec![
            remote("a", ConfigOrigin::GalionConfig),
            remote("b", ConfigOrigin::RcloneConfig),
            remote("c", ConfigOrigin::GalionConfig),
            remote("d", ConfigOrigin::RcloneConfig),
        ],
        config_path: String::new(),
    };
    assert_eq!(
        config.remotes_to_save(),
        vec![remote("a", ConfigOrigin::GalionConfig), remote("c", ConfigOrigin::GalionConfig)]
    );
    assert_eq!(config.remotes().len(), 4);
    assert_eq!(config.clone(), config);
    assert!(config.has_remote_named("d"));
    assert!(!config.has_remote_named("e"));
    assert_eq!(GalionConfig::default().remotes_to_save(), vec![]);
    assert_eq!(GalionConfig::default().config_path, "");
}

#[test]
fn the_banner_is_the_ship_above_the_waves() {
    assert_eq!(GALION, SHIP);
    assert_eq!(WAVES, "~~~~~~~~~~~~");
    assert_eq!(APP_NAME, "galion");
    assert_eq!(GalionApp::logo(), format!("{}\n~~~~~~~~~~~~", SHIP));
    assert_eq!(GalionApp::logo_waves(), GalionApp::logo());
    assert_eq!(GalionApp::logo_rolled(5, 3), GalionApp::logo());
    assert_eq!(GalionApp::logo_rolled(6, 2), format!("{}\n~~-=-~~~~~~~", SHIP));
    assert_eq!(GalionApp::logo_rolled(9, 8), format!("{}\n~~~~~~~~-=-~", SHIP));
}

#[test]
fn random_waves_are_calm_or_have_one_ripple_off_the_ends() {
    let mut allowed = vec![GalionApp::logo()];
    for at in 2..9 {
        allowed.push(GalionApp::logo_rolled(6, at));
    }
    let mut calm: u32 = 0;
    let mut rippled: u32 = 0;
    for _ in 0..2000 {
        let banner = GalionApp::logo_random_waves();
        assert!(allowed.contains(&banner), "{}", banner);
        if banner == allowed[0] {
            calm += 1;
        } else {
            rippled += 1;
        }
    }
    assert!(calm > 0);
    assert!(rippled > 0);
}

#[test]
fn the_banner_is_printed_unless_hidden() {
    let shown = app_with(vec![], GalionArgs::default());
    assert_eq!(shown.banner(), Some(GalionApp::logo()));
    let hidden = app_with(vec![], GalionArgs { hide_banner: true, ..GalionArgs::default() });
    assert_eq!(hidden.banner(), None);
}

#[test]
fn the_configuration_path_is_the_given_one_or_the_default() {
    let given = GalionArgs { config: Some("/etc/g.json".to_string()), ..GalionArgs::default() };
    assert_eq!(GalionApp::config_path(&given, Some("/home/u/g.json".to_string())), Ok("/etc/g.json".to_string()));
    assert_eq!(
        GalionApp::config_path(&GalionArgs::default(), Some("/home/u/g.json".to_string())),
        Ok("/home/u/g.json".to_string())
    );
    assert_eq!(GalionApp::config_path(&given, None), Err(GalionError::new("Unable to get home directory")));
    assert_eq!(given.clone(), given);
}

#[test]
fn remotes_of_the_engine_join_the_store() {
    let mut app = app_with(vec![remote("a", ConfigOrigin::GalionConfig)], GalionArgs::default());
    assert!(app.wants_remote("a"));
    assert!(app.wants_remote("b"));
    app.add_rclone_remote("a".to_string(), Some("drive:x".to_string()));
    app.add_rclone_remote("b".to_string(), None);
    assert_eq!(app.config.remote_configurations.len(), 3);
    assert_eq!(
        app.config.remote_configurations[1],
        RemoteConfiguration {
            remote_name: "a".to_string(),
            remote_src: None,
            remote_dest: Some("drive:x".to_string()),
            config_origin: ConfigOrigin::RcloneConfig,
        }
    );
    assert_eq!(app.config.remote_configurations[2].remote_dest, None);
    let careful = app_with(
        vec![remote("a", ConfigOrigin::GalionConfig)],
        GalionArgs { ignore_duplicate_remote: true, ..GalionArgs::default() },
    );
    assert!(!careful.wants_remote("a"));
    assert!(careful.wants_remote("b"));
    assert!(!careful.saves_at_start());
    let saving = app_with(vec![], GalionArgs { auto_update_config: true, ..GalionArgs::default() });
    assert!(saving.saves_at_start());
}

#[test]
fn a_start_without_any_remote_fails() {
    let empty = app_with(vec![], GalionArgs::default());
    assert_eq!(
        empty.check_remotes(),
        Err(GalionError::new(
            "No remote found in rclone 'config/listremotes' and in the galion config at /home/u/.config/galion/galion.json - please add remote with rclone CLI"
        ))
    );
    let one = app_with(vec![remote("a", ConfigOrigin::RcloneConfig)], GalionArgs::default());
    assert_eq!(one.check_remotes(), Ok(()));
}

#[test]
fn an_unreadable_engine_configuration_is_explained() {
    let cause = GalionError::new("bad password");
    let asked = app_with(vec![], GalionArgs { rclone_ask_password: true, ..GalionArgs::default() });
    assert_eq!(
        asked.dump_config_error(&cause),
        GalionError::new(
            "Failed to get the rclone configuration. Most likely the configuration is encrypted  and the decryption failed - bad password"
        )
    );
    let silent = app_with(vec![], GalionArgs::default());
    assert_eq!(
        silent.dump_config_error(&cause),
        GalionError::new(
            "Failed to get the rclone configuration. Most likely the configuration is encrypted and you can retry with the --rclone-ask-password flag - bad password"
        )
    );
}
