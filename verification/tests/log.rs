use media::log::{Level, AV_LOG_DEBUG, AV_LOG_ERROR, AV_LOG_QUIET};

#[test]
fn level_maps_to_av_constants() {
    assert_eq!(Level::Quiet.as_av(), AV_LOG_QUIET);
    assert_eq!(Level::Error.as_av(), AV_LOG_ERROR);
    assert_eq!(Level::Debug.as_av(), AV_LOG_DEBUG);
}

#[test]
fn parses_names_case_insensitively() {
    assert_eq!("DEBUG".parse(), Ok(Level::Debug));
    assert_eq!("Quiet".parse(), Ok(Level::Quiet));
    assert_eq!("warn".parse(), Ok(Level::Warning));
    assert!("nonsense".parse::<Level>().is_err());
}

#[test]
fn surrounding_white_space_is_ignored() {
    assert_eq!(Level::parse("  info\n"), Ok(Level::Info));
    assert_eq!(Level::parse("\u{3000}TRACE\t"), Ok(Level::Trace));
    assert!(Level::parse("de bug").is_err());
    assert!(Level::parse("").is_err());
}

#[test]
fn raw_levels_map_to_the_nearest_level() {
    assert_eq!(Level::from_av(-100), Level::Quiet);
    assert_eq!(Level::from_av(0), Level::Panic);
    assert_eq!(Level::from_av(9), Level::Error);
    assert_eq!(Level::from_av(32), Level::Info);
    assert_eq!(Level::from_av(57), Level::Trace);
    for level in [Level::Quiet, Level::Panic, Level::Fatal, Level::Error, Level::Warning, Level::Info, Level::Verbose, Level::Debug, Level::Trace] {
        assert_eq!(Level::from_av(level.as_av()), level);
    }
}

#[test]
fn more_verbose_raw_levels_never_map_to_quieter_levels() {
    let mut previous = Level::from_av(i32::MIN).as_av();
    for v in -20..70 {
        let now = Level::from_av(v).as_av();
        assert!(previous <= now);
        previous = now;
    }
}
