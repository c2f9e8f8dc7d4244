use goterm::config::{
    engine_args, get_default_app_config, get_default_engine_args, get_default_engine_bin,
    get_default_engine_config, get_logger_level_by_verbosity, LogLevel,
};
use goterm::entities::{Coords, OptCoords, StoneColor};

#[test]
fn default_engine_settings() {
    assert_eq!(get_default_engine_bin(), "gnugo");
    assert!(get_default_engine_args().is_empty());
    let c = get_default_engine_config();
    assert_eq!(c.bin, "gnugo");
    assert!(c.args.is_empty());
    assert_eq!(get_default_app_config().engine.bin, "gnugo");
}

#[test]
fn engine_is_started_in_protocol_mode() {
    assert_eq!(engine_args(&vec![]), vec!["--mode", "gtp"]);
    assert_eq!(
        engine_args(&vec!["--level".to_string(), "3".to_string()]),
        vec!["--mode", "gtp", "--level", "3"]
    );
}

#[test]
fn verbosity_levels() {
    assert_eq!(get_logger_level_by_verbosity(0), LogLevel::Error);
    assert_eq!(get_logger_level_by_verbosity(1), LogLevel::Warn);
    assert_eq!(get_logger_level_by_verbosity(2), LogLevel::Info);
    assert_eq!(get_logger_level_by_verbosity(3), LogLevel::Debug);
    assert_eq!(get_logger_level_by_verbosity(10), LogLevel::Debug);
}

#[test]
fn entity_conversions() {
    assert_eq!(StoneColor::White.inverse(), StoneColor::Black);
    assert_eq!(StoneColor::Black.name(), "black");
    assert_eq!(Coords::from(3, 5).vertex(), (5, 3));
    assert_eq!(Coords::try_from(&OptCoords { row: Some(3), col: Some(5) }), Ok(Coords { row: 3, col: 5 }));
    assert_eq!(Coords::try_from(&OptCoords { row: None, col: Some(5) }), Err(()));
    assert_eq!(OptCoords::default(), OptCoords { row: None, col: None });
}
