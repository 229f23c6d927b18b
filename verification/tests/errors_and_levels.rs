use libtxc::{cold, likely, unlikely, Error, LogLevel};

#[test]
fn hints_return_their_argument() {
    cold();
    assert!(likely(true));
    assert!(!likely(false));
    assert!(unlikely(true));
    assert!(!unlikely(false));
}

#[test]
fn error_text_has_prefix_detail_and_suffix() {
    assert_eq!(
        Error::Initialization("no log dir".to_string()).to_text(),
        "Инициализация библиотеки трагически провалилась: no log dir "
    );
    assert_eq!(
        Error::InvalidCommand("<result success=\"false\"/>".to_string()).to_text(),
        "Команда не прошла проверку и не была отправлена: <result success=\"false\"/> "
    );
    let internal = Error::Internal("<error/>".to_string()).to_text();
    assert!(internal.starts_with("Внутренняя ошибка/exception коннектора"));
    assert!(internal.ends_with("наgithub.\n<error/>"));
    assert_eq!(internal.lines().count(), 4);
}

#[test]
fn loading_error_text_names_the_cause() {
    let e = Error::Loading(std::io::Error::new(std::io::ErrorKind::NotFound, "no such file"));
    assert_eq!(e.to_text(), "Не удалось загрузить библиотеку: no such file ");
    assert!(e.message().is_none());
    assert_eq!(e.source().map(|s| s.kind()), Some(std::io::ErrorKind::NotFound));
}

#[test]
fn message_is_the_connectors_own_text() {
    assert_eq!(Error::Initialization("a".to_string()).message().map(|s| s.as_str()), Some("a"));
    assert_eq!(Error::InvalidCommand("b".to_string()).message().map(|s| s.as_str()), Some("b"));
    assert_eq!(Error::Internal("c".to_string()).message().map(|s| s.as_str()), Some("c"));
    assert!(Error::Internal("c".to_string()).source().is_none());
    assert!(Error::InvalidCommand("c".to_string()).source().is_none());
    assert!(Error::Initialization("c".to_string()).source().is_none());
}

#[test]
fn level_codes_are_one_to_three() {
    assert_eq!(LogLevel::Minimum.code(), 1);
    assert_eq!(LogLevel::Default.code(), 2);
    assert_eq!(LogLevel::Maximum.code(), 3);
    assert_eq!(LogLevel::default(), LogLevel::Default);
}

#[test]
fn level_from_number_is_clamped() {
    assert_eq!(LogLevel::from(1), LogLevel::Minimum);
    assert_eq!(LogLevel::from(2), LogLevel::Default);
    assert_eq!(LogLevel::from(3), LogLevel::Maximum);
    assert_eq!(LogLevel::from(0), LogLevel::Minimum);
    assert_eq!(LogLevel::from(-7), LogLevel::Minimum);
    assert_eq!(LogLevel::from(i32::MIN), LogLevel::Minimum);
    assert_eq!(LogLevel::from(4), LogLevel::Maximum);
    assert_eq!(LogLevel::from(i32::MAX), LogLevel::Maximum);
}

#[test]
fn level_round_trips_through_its_code() {
    for level in [LogLevel::Minimum, LogLevel::Default, LogLevel::Maximum] {
        assert_eq!(LogLevel::from(level.code()), level);
    }
    assert!(LogLevel::Minimum < LogLevel::Default);
    assert!(LogLevel::Default < LogLevel::Maximum);
}

#[test]
fn level_names() {
    assert_eq!(LogLevel::Minimum.name(), "LogLevel::Minimum");
    assert_eq!(LogLevel::Default.name(), "LogLevel::Default");
    assert_eq!(LogLevel::Maximum.name(), "LogLevel::Maximum");
}
