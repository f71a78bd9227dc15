use rasm::config::{config_file, init, merge, read_config, ColorMode, Config, DiskRecord};

fn layer() -> Config {
    Config::default()
}

#[test]
fn default_config_decides_nothing() {
    let c = Config::default();
    assert_eq!(c.run, None);
    assert!(!c.quiet);
    assert!(!c.clean);
    assert_eq!(c.color, None);
    assert_eq!(c.base, None);
    assert_eq!(c.files, None);
    assert_eq!(ColorMode::default(), ColorMode::Auto);
}

#[test]
fn defaults_apply_where_no_layer_speaks() {
    let merged = init(layer(), layer());
    assert_eq!(merged.base_dir(), "src");
    assert_eq!(merged.color_mode(), ColorMode::Auto);
    assert_eq!(merged.run, None);
    assert_eq!(merged.files, None);
    assert!(!merged.quiet);
    assert!(!merged.clean);
}

#[test]
fn command_line_wins_over_file_wins_over_default() {
    let args = Config { base: Some("asm".to_string()), quiet: true, ..layer() };
    let disk = Config {
        base: Some("code".to_string()),
        run: Some("a".to_string()),
        color: Some(ColorMode::Never),
        ..layer()
    };
    let merged = init(args, disk);
    // set on both: the command line wins
    assert_eq!(merged.base_dir(), "asm");
    assert_eq!(merged.base, Some("asm".to_string()));
    // set on the command line only
    assert!(merged.quiet);
    // set in the file only
    assert_eq!(merged.run, Some("a".to_string()));
    assert_eq!(merged.color_mode(), ColorMode::Never);
    // set in neither
    assert!(!merged.clean);
    assert_eq!(merged.files, None);
}

#[test]
fn a_flag_set_in_the_file_stays_set() {
    let disk = Config { quiet: true, clean: true, ..layer() };
    let merged = init(layer(), disk);
    assert!(merged.quiet);
    assert!(merged.clean);
}

#[test]
fn explicit_files_follow_the_same_precedence() {
    let args = Config { files: Some(vec!["a.asm".to_string()]), ..layer() };
    let disk = Config { files: Some(vec!["b.asm".to_string(), "c.s".to_string()]), ..layer() };
    assert_eq!(init(args.clone(), disk.clone()).files, Some(vec!["a.asm".to_string()]));
    assert_eq!(
        init(layer(), disk).files,
        Some(vec!["b.asm".to_string(), "c.s".to_string()])
    );
    assert_eq!(init(args, layer()).files, Some(vec!["a.asm".to_string()]));
}

#[test]
fn merge_takes_the_first_value_present() {
    assert_eq!(merge(Some(1u8), Some(2u8)), Some(1u8));
    assert_eq!(merge(None, Some(2u8)), Some(2u8));
    assert_eq!(merge(Some(1u8), None), Some(1u8));
    assert_eq!(merge::<u8>(None, None), None);
}

#[test]
fn read_config_degrades_to_the_empty_layer() {
    assert_eq!(read_config(DiskRecord::Missing), Config::default());
    assert_eq!(read_config(DiskRecord::Unreadable), Config::default());
    assert_eq!(read_config(DiskRecord::Malformed), Config::default());
}

#[test]
fn read_config_hands_on_what_was_parsed() {
    let parsed = Config {
        run: Some("main".to_string()),
        quiet: true,
        clean: false,
        color: Some(ColorMode::Always),
        base: Some("asm".to_string()),
        files: Some(vec!["main.asm".to_string()]),
    };
    assert_eq!(read_config(DiskRecord::Parsed(parsed.clone())), parsed);
}

#[test]
fn config_file_has_its_fixed_name() {
    assert_eq!(config_file(), ".rasm.toml");
}
