use pop_logging::{setup_logging, Filter, InitError};

#[test]
fn second_initialization_fails_and_first_stays() {
    assert!(setup_logging(Filter::Info).is_ok());
    assert_eq!(
        setup_logging(Filter::Trace),
        Err(InitError::AlreadyInitialized)
    );
    // The first installation stays active: the facade still dispatches at the
    // level the first call configured.
    assert_eq!(log::max_level(), log::LevelFilter::Trace);
}
