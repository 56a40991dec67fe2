use log::Log;
use lokker::{Logger, Severity};

#[test]
fn maximum_level_follows_the_threshold() {
    assert_eq!(Logger::init_with_level(Severity::Warn), Ok(()));
    assert_eq!(log::max_level(), log::LevelFilter::Warn);
    assert!(log::Level::Error <= log::max_level());
    assert!(log::Level::Warn <= log::max_level());
    assert!(log::Level::Info > log::max_level());
    assert!(log::Level::Debug > log::max_level());
    assert!(log::Level::Trace > log::max_level());
    let info = log::Metadata::builder().level(log::Level::Info).build();
    assert!(log::logger().enabled(&info));
    let strict = Logger::new(Severity::Error);
    assert!(strict.enabled(&info));
    strict.flush();
}
