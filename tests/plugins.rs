use oneamp_core::plugins::{
    AACInputPlugin, AudioConfig, PluginError, PluginLoader, PluginResult, ReverbDSPPlugin,
};

#[test]
fn error_test_plugin_error_display() {
    let error = PluginError::FormatNotSupported("MP4".to_string());
    assert_eq!(error.to_string(), "Format not supported: MP4");
}

#[test]
fn mod_test_plugin_error_display() {
    let error = PluginError::FormatNotSupported("MP4".to_string());
    assert_eq!(error.to_string(), "Format not supported: MP4");
}

#[test]
fn test_plugin_error_from_string() {
    let error: PluginError = "test error".into();
    assert_eq!(error.to_string(), "Error: test error");
}

#[test]
fn test_plugin_error_from_io_error() {
    let io_error = std::io::Error::new(std::io::ErrorKind::NotFound, "file not found");
    let error: PluginError = io_error.into();
    assert!(error.to_string().contains("file not found"));
}

#[test]
fn test_plugin_result_ok() {
    let result: PluginResult<i32> = Ok(42);
    assert!(result.is_ok());
    if let Ok(value) = result {
        assert_eq!(value, 42);
    }
}

#[test]
fn test_plugin_result_err() {
    let result: PluginResult<i32> = Err(PluginError::Other("error".to_string()));
    assert!(result.is_err());
}

#[test]
fn plugin_error_labels_each_kind() {
    let cases = vec![
        (PluginError::FileNotFound("a".to_string()), "File not found: a"),
        (PluginError::DecodingError("a".to_string()), "Decoding error: a"),
        (PluginError::DeviceNotFound("a".to_string()), "Device not found: a"),
        (PluginError::ConfigurationError("a".to_string()), "Configuration error: a"),
        (PluginError::ProcessingError("a".to_string()), "Processing error: a"),
        (PluginError::InvalidParameter("a".to_string()), "Invalid parameter: a"),
        (PluginError::NotInitialized("a".to_string()), "Not initialized: a"),
        (PluginError::Other("a".to_string()), "Error: a"),
    ];
    for (e, text) in cases {
        assert_eq!(e.to_string(), text);
    }
}

#[test]
fn plugin_error_from_owned_string() {
    let error: PluginError = String::from("boom").into();
    assert_eq!(error.to_string(), "Error: boom");
}

#[test]
fn test_validate_plugin_file_invalid_extension() {
    let path = "plugin.txt";
    assert!(PluginLoader::validate_plugin_file(path).is_err());
}

#[test]
fn test_validate_plugin_file_nonexistent() {
    let path = "/nonexistent/plugin.so";
    assert!(PluginLoader::validate_plugin_file(path).is_err());
}

#[test]
fn validate_plugin_file_reports_missing_file() {
    match PluginLoader::validate_plugin_file("/nonexistent/plugin.so") {
        Err(PluginError::FileNotFound(m)) => assert_eq!(m, "\"/nonexistent/plugin.so\""),
        other => panic!("unexpected {:?}", other),
    }
}

#[test]
fn validate_plugin_file_checks_extension_of_existing_file() {
    match PluginLoader::validate_plugin_file("/") {
        Err(PluginError::Other(m)) => assert_eq!(m, "Invalid plugin file extension: "),
        other => panic!("unexpected {:?}", other),
    }
}

#[test]
fn plugin_file_check_by_existence() {
    match PluginLoader::plugin_file_check(false, "so", "\"x.so\"".to_string()) {
        Err(PluginError::FileNotFound(m)) => assert_eq!(m, "\"x.so\""),
        other => panic!("unexpected {:?}", other),
    }
    assert!(PluginLoader::plugin_file_check(true, "so", String::new()).is_ok());
    assert!(PluginLoader::plugin_file_check(true, "dylib", String::new()).is_ok());
    match PluginLoader::plugin_file_check(true, "txt", String::new()) {
        Err(PluginError::Other(m)) => assert_eq!(m, "Invalid plugin file extension: txt"),
        other => panic!("unexpected {:?}", other),
    }
}

#[test]
fn plugin_extensions() {
    assert!(PluginLoader::check_plugin_extension("so").is_ok());
    assert!(PluginLoader::check_plugin_extension("dll").is_ok());
    assert!(PluginLoader::check_plugin_extension("dylib").is_ok());
    match PluginLoader::check_plugin_extension("txt") {
        Err(PluginError::Other(m)) => assert_eq!(m, "Invalid plugin file extension: txt"),
        other => panic!("unexpected {:?}", other),
    }
    assert!(PluginLoader::check_plugin_extension("").is_err());
    assert!(PluginLoader::check_plugin_extension("SO").is_err());
}

#[test]
fn test_audio_config_default() {
    let config = AudioConfig::default();
    assert_eq!(config.sample_rate, 44100);
    assert_eq!(config.channels, 2);
    assert_eq!(config.buffer_size, 2048);
}

#[test]
fn builtin_plugins_describe_themselves() {
    let reverb = ReverbDSPPlugin;
    assert_eq!(reverb.name(), "Reverb");
    assert_eq!(reverb.version(), "0.1.0");
    assert_eq!(reverb.category(), "Effect");
    let aac = AACInputPlugin;
    assert_eq!(aac.name(), "AAC Input");
    assert_eq!(aac.version(), "0.1.0");
    assert_eq!(aac.supported_formats(), vec!["aac", "m4a"]);
}

#[test]
fn aac_plugin_handles_extensions_in_any_case() {
    let aac = AACInputPlugin;
    assert!(aac.can_handle("/music/song.aac"));
    assert!(aac.can_handle("/music/song.M4A"));
    assert!(!aac.can_handle("/music/song.mp3"));
    assert!(!aac.can_handle("/music/aac"));
}
