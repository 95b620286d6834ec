use rustlog::kafka_sink::{join_strings, producer_settings, KafkaError, KafkaPipeline, KafkaSection};

#[test]
fn disabled_is_ok_without_feature() {
    let s = KafkaSection::default();
    assert!(KafkaPipeline::from_section(&s).is_ok());
}

#[test]
fn enabled_errors_without_kafka_feature() {
    let s = KafkaSection {
        enabled: true,
        brokers: vec!["localhost:9092".into()],
        topic: "t".into(),
        client_id: None,
    };
    assert!(KafkaPipeline::from_section(&s).is_err());
}

#[test]
fn enabled_section_reports_missing_client() {
    let s = KafkaSection { enabled: true, ..KafkaSection::default() };
    assert_eq!(KafkaPipeline::from_section(&s).err(), Some(KafkaError::ClientNotBuilt));
}

#[test]
fn disabled_pipeline_publishes_nothing_and_succeeds() {
    let p = KafkaPipeline::from_section(&KafkaSection::default()).unwrap();
    assert!(p.publish("line").is_ok());
}

#[test]
fn producer_settings_join_brokers() {
    let s = KafkaSection {
        enabled: true,
        brokers: vec!["a:1".into(), "b:2".into(), "c:3".into()],
        topic: "logs".into(),
        client_id: Some("me".into()),
    };
    let p = producer_settings(&s).unwrap();
    assert_eq!(p.bootstrap_servers, "a:1,b:2,c:3");
    assert_eq!(p.message_timeout_ms, "5000");
    assert_eq!(p.client_id.as_deref(), Some("me"));
    assert_eq!(p.topic, "logs");
}

#[test]
fn producer_settings_default_broker() {
    let s = KafkaSection { enabled: true, topic: "t".into(), ..KafkaSection::default() };
    let p = producer_settings(&s).unwrap();
    assert_eq!(p.bootstrap_servers, "localhost:9092");
    assert!(p.client_id.is_none());
}

#[test]
fn producer_settings_need_topic() {
    let s = KafkaSection { enabled: true, brokers: vec!["x:1".into()], ..KafkaSection::default() };
    assert_eq!(producer_settings(&s).err(), Some(KafkaError::EmptyTopic));
}

#[test]
fn join_strings_cases() {
    assert_eq!(join_strings(&vec![], ","), "");
    assert_eq!(join_strings(&vec!["one".into()], ","), "one");
    assert_eq!(join_strings(&vec!["".into(), "".into()], "--"), "--");
}
