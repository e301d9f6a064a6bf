use invoice_backend::error::BackendError;
use invoice_backend::reconcile::Mode;
use invoice_backend::settings::{
    default_settings, directories, directory_failure, get_app_data_dir, get_app_settings,
    get_config_dir, get_database_path, get_default_output_dir, get_settings_path, reset_database,
    settings_failure, AppSettings, Loaded, SettingsStage,
};
use invoice_backend::store::{get_setting, is_first_run, set_setting, SettingsTable};

fn no_data_dir() -> BackendError {
    BackendError::SettingsIoError { cause: "Could not determine data directory".to_string() }
}

fn no_document_dir() -> BackendError {
    BackendError::SettingsIoError { cause: "Could not determine documents directory".to_string() }
}

#[test]
fn app_directories_lie_below_the_platform_directories() {
    assert_eq!(
        get_app_data_dir(Some("/home/u/.local/share")),
        Ok("/home/u/.local/share/InvoiceSplitter".to_string())
    );
    assert_eq!(get_app_data_dir(None), Err(no_data_dir()));
    assert_eq!(
        get_default_output_dir(Some("/home/u/Documents")),
        Ok("/home/u/Documents/InvoiceSplitter".to_string())
    );
    assert_eq!(get_default_output_dir(None), Err(no_document_dir()));
}

#[test]
fn files_lie_below_the_app_data_directory() {
    assert_eq!(
        get_settings_path(Some("/d")),
        Ok("/d/InvoiceSplitter/settings.json".to_string())
    );
    assert_eq!(get_database_path(Some("/d")), Ok("/d/InvoiceSplitter/invoices.db".to_string()));
    assert_eq!(get_settings_path(Some("/d/")), Ok("/d/InvoiceSplitter/settings.json".to_string()));
    assert_eq!(get_config_dir("/d/InvoiceSplitter"), "/d/InvoiceSplitter/config");
}

#[test]
fn paths_fail_without_a_data_directory() {
    assert_eq!(get_settings_path(None), Err(no_data_dir()));
    assert_eq!(get_database_path(None), Err(no_data_dir()));
    assert_eq!(
        get_settings_path(None).unwrap_err().message(),
        "Settings error: Could not determine data directory"
    );
}

#[test]
fn defaults_in_shared_database_mode() {
    assert_eq!(
        default_settings(Some("/home/u/Documents"), Some("/home/u/.local/share"), Mode::SharedDatabase),
        Ok(AppSettings {
            output_directory: "/home/u/Documents/InvoiceSplitter".to_string(),
            config_directory: None,
        })
    );
    assert_eq!(
        default_settings(Some("/home/u/Documents"), None, Mode::SharedDatabase),
        Ok(AppSettings {
            output_directory: "/home/u/Documents/InvoiceSplitter".to_string(),
            config_directory: None,
        })
    );
    assert_eq!(
        default_settings(None, Some("/home/u/.local/share"), Mode::SharedDatabase),
        Err(no_document_dir())
    );
}

#[test]
fn defaults_in_mirrored_files_mode() {
    assert_eq!(
        default_settings(Some("/home/u/Documents"), Some("/home/u/.local/share"), Mode::MirroredFiles),
        Ok(AppSettings {
            output_directory: "/home/u/Documents/InvoiceSplitter".to_string(),
            config_directory: Some("/home/u/.local/share/InvoiceSplitter/config".to_string()),
        })
    );
    assert_eq!(
        default_settings(Some("/home/u/Documents"), None, Mode::MirroredFiles),
        Err(no_data_dir())
    );
    assert_eq!(default_settings(None, None, Mode::MirroredFiles), Err(no_document_dir()));
}

#[test]
fn load_takes_persisted_settings_as_they_are() {
    let persisted = AppSettings {
        output_directory: "/mnt/invoices".to_string(),
        config_directory: Some("/mnt/config".to_string()),
    };
    let expected = Loaded {
        settings: persisted.clone(),
        created: false,
        directories: vec!["/mnt/invoices".to_string(), "/mnt/config".to_string()],
    };
    assert_eq!(
        get_app_settings(Some(persisted.clone()), None, None, Mode::SharedDatabase),
        Ok(expected.clone())
    );
    assert_eq!(
        get_app_settings(Some(persisted), Some("/docs"), Some("/data"), Mode::MirroredFiles),
        Ok(expected)
    );
}

#[test]
fn load_names_the_directories_of_persisted_settings() {
    let persisted = AppSettings { output_directory: "/gone".to_string(), config_directory: None };
    let loaded = get_app_settings(Some(persisted), None, None, Mode::SharedDatabase).unwrap();
    assert_eq!(loaded.directories, vec!["/gone".to_string()]);
    assert!(!loaded.created);
}

#[test]
fn load_defaults_on_first_run() {
    assert_eq!(
        get_app_settings(None, Some("/docs"), Some("/data"), Mode::MirroredFiles),
        Ok(Loaded {
            settings: AppSettings {
                output_directory: "/docs/InvoiceSplitter".to_string(),
                config_directory: Some("/data/InvoiceSplitter/config".to_string()),
            },
            created: true,
            directories: vec![
                "/docs/InvoiceSplitter".to_string(),
                "/data/InvoiceSplitter/config".to_string()
            ],
        })
    );
    assert_eq!(
        get_app_settings(None, Some("/docs"), None, Mode::SharedDatabase),
        Ok(Loaded {
            settings: AppSettings {
                output_directory: "/docs/InvoiceSplitter".to_string(),
                config_directory: None,
            },
            created: true,
            directories: vec!["/docs/InvoiceSplitter".to_string()],
        })
    );
}

#[test]
fn load_fails_without_platform_directories() {
    assert_eq!(
        get_app_settings(None, None, Some("/data"), Mode::SharedDatabase),
        Err(no_document_dir())
    );
    assert_eq!(
        get_app_settings(None, Some("/docs"), None, Mode::MirroredFiles),
        Err(no_data_dir())
    );
}

#[test]
fn directories_are_listed_output_first() {
    let both = AppSettings {
        output_directory: "/out".to_string(),
        config_directory: Some("/cfg".to_string()),
    };
    assert_eq!(directories(&both), vec!["/out".to_string(), "/cfg".to_string()]);
    let one = AppSettings { output_directory: "/out".to_string(), config_directory: None };
    assert_eq!(directories(&one), vec!["/out".to_string()]);
}

#[test]
fn directory_failure_names_the_directory() {
    let error = directory_failure("/out", "Permission denied (os error 13)");
    assert_eq!(
        error,
        BackendError::DirectoryCreationFailed {
            directory: "/out".to_string(),
            cause: "Permission denied (os error 13)".to_string(),
        }
    );
    assert_eq!(error.message(), "Failed to create directory /out: Permission denied (os error 13)");
}

#[test]
fn settings_failure_names_the_stage() {
    let cases = [
        (SettingsStage::Read, "Failed to read settings: x"),
        (SettingsStage::Parse, "Failed to parse settings: x"),
        (SettingsStage::Serialize, "Failed to serialize settings: x"),
        (SettingsStage::Write, "Failed to save settings: x"),
    ];
    for (stage, text) in cases {
        assert_eq!(
            settings_failure(stage, "x"),
            BackendError::SettingsIoError { cause: text.to_string() }
        );
    }
}

#[test]
fn reset_leaves_only_the_seeded_rows() {
    let mut table = SettingsTable::new();
    set_setting(&mut table, "amount", "42");
    set_setting(&mut table, "theme", "dark");
    let fresh = reset_database(&mut table, Some("/docs"), Some("/data"), Mode::SharedDatabase);
    assert_eq!(table.len(), 6);
    assert_eq!(get_setting(&table, "amount"), Some("5000.00".to_string()));
    assert_eq!(get_setting(&table, "theme"), None);
    assert_eq!(get_setting(&table, "_app_initialized"), Some("true".to_string()));
    assert!(!is_first_run(&table));
    assert_eq!(
        fresh,
        Ok(Loaded {
            settings: AppSettings {
                output_directory: "/docs/InvoiceSplitter".to_string(),
                config_directory: None,
            },
            created: true,
            directories: vec!["/docs/InvoiceSplitter".to_string()],
        })
    );
}

#[test]
fn reset_seeds_the_table_even_without_platform_directories() {
    let mut table = SettingsTable::new();
    set_setting(&mut table, "theme", "dark");
    assert_eq!(reset_database(&mut table, None, None, Mode::SharedDatabase), Err(no_document_dir()));
    assert_eq!(table.len(), 6);
    assert_eq!(get_setting(&table, "theme"), None);
}
