use preexplorer::configuration::{Configuration, Style};
use preexplorer::errors::SavingError;

#[test]
fn fresh_configuration_reports_absent_options() {
    let c = Configuration::new();
    assert!(c.get_title().is_none());
    assert!(c.get_logx().is_none());
    assert!(c.get_logy().is_none());
    assert!(c.get_labelx().is_none());
    assert!(c.get_labely().is_none());
    assert!(c.get_rangex().is_none());
    assert!(c.get_rangey().is_none());
    assert!(c.get_dashtype().is_none());
    assert!(c.get_id().is_none());
    assert!(c.get_custom("anything".to_string()).is_none());
}

#[test]
fn fresh_configuration_reports_concrete_defaults() {
    let c = Configuration::new();
    assert_eq!(c.get_extension(), "txt");
    assert!(c.get_header());
    assert!(matches!(c.get_style(), Style::Lines));
}

#[test]
fn setter_stores_and_getter_returns_exactly() {
    let mut c = Configuration::new();
    c.title("energy".to_string());
    assert_eq!(c.get_title().unwrap(), "energy");
    c.logx("10".to_string());
    assert_eq!(c.get_logx().unwrap(), "10");
    c.labelx("time".to_string());
    assert_eq!(c.get_labelx().unwrap(), "time");
    c.labely("value".to_string());
    assert_eq!(c.get_labely().unwrap(), "value");
    c.rangex("0".to_string(), "5".to_string());
    assert_eq!(c.get_rangex().unwrap(), &("0".to_string(), "5".to_string()));
    c.extension("csv".to_string());
    assert_eq!(c.get_extension(), "csv");
    c.header(false);
    assert!(!c.get_header());
    c.style(Style::Points);
    assert!(matches!(c.get_style(), Style::Points));
    c.dashtype(4);
    assert_eq!(c.get_dashtype(), Some(4));
    c.date("2020-01-02 03:04:05".to_string());
    assert_eq!(c.get_date(), "2020-01-02 03:04:05");
    c.id("run7".to_string());
    assert_eq!(c.get_id().unwrap(), "run7");
}

#[test]
fn setting_twice_keeps_only_the_last_value() {
    let mut c = Configuration::new();
    c.title("first".to_string());
    c.title("second".to_string());
    assert_eq!(c.get_title().unwrap(), "second");
    c.id("a".to_string());
    c.id("b".to_string());
    assert_eq!(c.get_id().unwrap(), "b");
    c.rangey("1".to_string(), "2".to_string());
    c.rangey("3".to_string(), "4".to_string());
    assert_eq!(c.get_rangey().unwrap(), &("3".to_string(), "4".to_string()));
}

#[test]
fn alias_setters_and_getters_match_their_targets() {
    let mut c = Configuration::new();
    c.xlog("2".to_string());
    assert_eq!(c.get_xlog(), c.get_logx());
    assert_eq!(c.get_xlog().unwrap(), "2");
    c.ylog("3".to_string());
    assert_eq!(c.get_ylog().unwrap(), "3");
    c.xlabel("t".to_string());
    assert_eq!(c.get_xlabel(), c.get_labelx());
    c.ylabel("v".to_string());
    assert_eq!(c.get_ylabel().unwrap(), "v");
    c.xrange("0".to_string(), "1".to_string());
    assert_eq!(c.get_xrange(), c.get_rangex());
    c.yrange("2".to_string(), "9".to_string());
    assert_eq!(c.get_yrange().unwrap(), &("2".to_string(), "9".to_string()));
}

#[test]
fn custom_mapping_overwrites_one_key_only() {
    let mut c = Configuration::new();
    c.custom("grid".to_string(), "on".to_string());
    c.custom("key".to_string(), "left".to_string());
    assert_eq!(c.get_custom("grid".to_string()).unwrap(), "on");
    assert_eq!(c.get_custom("key".to_string()).unwrap(), "left");
    c.custom("grid".to_string(), "off".to_string());
    assert_eq!(c.get_custom("grid".to_string()).unwrap(), "off");
    assert_eq!(c.get_custom("key".to_string()).unwrap(), "left");
    assert!(c.get_custom("border".to_string()).is_none());
}

#[test]
fn error_messages_name_the_failure() {
    assert_eq!(SavingError::MissingId.message(), "the identifier is not set");
    assert_eq!(SavingError::UnsupportedDimension.message(), "unsupported dimensionality");
    assert_eq!(SavingError::Io("disk full".to_string()).message(), "disk full");
}

#[test]
fn checked_id_fails_before_set_and_returns_after() {
    let mut c = Configuration::new();
    assert_eq!(c.get_checked_id().unwrap_err(), SavingError::MissingId);
    c.id("x".to_string());
    assert_eq!(c.get_checked_id().unwrap(), "x");
}
