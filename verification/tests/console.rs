use melos::console::Logger;

#[test]
fn logger_that_nothing_listens_to_drops_its_lines() {
    let mut logger = Logger::new();
    assert_eq!(logger.full_logs(), None);
    logger.log(String::from("lost"));
    assert_eq!(logger.full_logs(), None);
}

#[test]
fn logger_hands_out_its_lines_oldest_first_and_once() {
    let mut logger = Logger::new();
    logger.enable();
    assert_eq!(logger.full_logs(), Some(Vec::new()));
    logger.log(String::from("one"));
    logger.log(String::from("two"));
    logger.log(String::from("three"));
    assert_eq!(
        logger.full_logs(),
        Some(vec![String::from("one"), String::from("two"), String::from("three")])
    );
    assert_eq!(logger.full_logs(), Some(Vec::new()));
    logger.log(String::from("four"));
    assert_eq!(logger.full_logs(), Some(vec![String::from("four")]));
}

#[test]
fn logger_disable_drops_what_waited() {
    let mut logger = Logger::new();
    logger.enable();
    logger.log(String::from("one"));
    logger.disable();
    assert_eq!(logger.full_logs(), None);
    logger.enable();
    assert_eq!(logger.full_logs(), Some(Vec::new()));
}

#[test]
fn logger_enable_starts_with_an_empty_queue() {
    let mut logger = Logger::new();
    logger.enable();
    logger.log(String::from("one"));
    logger.enable();
    assert_eq!(logger.full_logs(), Some(Vec::new()));
}
