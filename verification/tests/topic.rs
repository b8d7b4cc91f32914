use sqlite_native_runtime::topic::{parse_topic, validate_segment, Operation, Priority};

#[test]
fn parse_valid_insert() {
    let t = parse_topic("db/normal/acme/crm/contact/insert").unwrap();
    assert_eq!(t.priority, Priority::Normal);
    assert_eq!(t.tenant, "acme");
    assert_eq!(t.database_name, "crm");
    assert_eq!(t.entity, "contact");
    assert_eq!(t.operation, Operation::Insert);
}

#[test]
fn parse_high_upsert() {
    let t = parse_topic("db/high/tenant-x/db1/order/upsert").unwrap();
    assert_eq!(t.priority, Priority::High);
    assert_eq!(t.operation, Operation::Upsert);
}

#[test]
fn parse_low_delete() {
    let t = parse_topic("db/low/my_tenant/analytics/event/delete").unwrap();
    assert_eq!(t.priority, Priority::Low);
    assert_eq!(t.operation, Operation::Delete);
}

#[test]
fn parse_insert_batch() {
    let t = parse_topic("db/normal/acme/inventory/product/insert_batch").unwrap();
    assert_eq!(t.operation, Operation::InsertBatch);
}

#[test]
fn error_wrong_prefix() {
    let err = parse_topic("mqtt/high/t/d/e/insert").unwrap_err();
    assert!(err.contains("debe comenzar con 'db/'"));
}

#[test]
fn error_too_few_segments() {
    let err = parse_topic("db/high/tenant/db/entity").unwrap_err();
    assert!(err.contains("6 segmentos"));
}

#[test]
fn error_too_many_segments() {
    let err = parse_topic("db/high/t/d/e/insert/extra").unwrap_err();
    assert!(err.contains("6 segmentos"));
}

#[test]
fn error_unknown_priority() {
    let err = parse_topic("db/critical/t/d/e/insert").unwrap_err();
    assert!(err.contains("prioridad desconocida"));
}

#[test]
fn error_unknown_operation() {
    let err = parse_topic("db/normal/t/d/e/truncate").unwrap_err();
    assert!(err.contains("operación desconocida"));
}

#[test]
fn error_wildcard_in_tenant() {
    let err = parse_topic("db/normal/+/db/entity/insert").unwrap_err();
    assert!(err.contains("wildcard MQTT"));
}

#[test]
fn error_empty_entity() {
    let err = parse_topic("db/normal/tenant/db//insert").unwrap_err();
    assert!(err.contains("entity") && err.contains("vacío"));
}

#[test]
fn priority_display() {
    assert_eq!(Priority::High.as_str(), "high");
    assert_eq!(Priority::Normal.as_str(), "normal");
    assert_eq!(Priority::Low.as_str(), "low");
}

#[test]
fn operation_as_str() {
    assert_eq!(Operation::InsertBatch.as_str(), "insert_batch");
    assert_eq!(Operation::Update.as_str(), "update");
}

#[test]
fn exact_error_messages() {
    assert_eq!(
        parse_topic("db/high/tenant/db/entity").unwrap_err(),
        "topic inválido: se esperaban 6 segmentos separados por '/', se encontraron 5. Topic: 'db/high/tenant/db/entity'"
    );
    assert_eq!(
        parse_topic("a/b/c/d/e/f/g/h/i").unwrap_err(),
        "topic inválido: se esperaban 6 segmentos separados por '/', se encontraron 7. Topic: 'a/b/c/d/e/f/g/h/i'"
    );
    assert_eq!(
        parse_topic("mqtt/high/t/d/e/insert").unwrap_err(),
        "topic inválido: debe comenzar con 'db/', comenzó con 'mqtt'. Topic: 'mqtt/high/t/d/e/insert'"
    );
    assert_eq!(
        parse_topic("db/critical/t/d/e/insert").unwrap_err(),
        "prioridad desconocida: 'critical'. Topic: 'db/critical/t/d/e/insert'"
    );
    assert_eq!(
        parse_topic("db/low/t/#/e/insert").unwrap_err(),
        "topic inválido: 'database' no puede ser un wildcard MQTT ('#'). Topic: 'db/low/t/#/e/insert'"
    );
    assert_eq!(
        parse_topic("db/low//d/e/insert").unwrap_err(),
        "topic inválido: el campo 'tenant' está vacío. Topic: 'db/low//d/e/insert'"
    );
    assert_eq!(
        parse_topic("db/low/t/d/e/truncate").unwrap_err(),
        "operación desconocida: 'truncate'. Topic: 'db/low/t/d/e/truncate'"
    );
}

#[test]
fn topic_roundtrip_on_concrete_fields() {
    for p in [Priority::High, Priority::Normal, Priority::Low] {
        for o in [Operation::Insert, Operation::InsertBatch, Operation::Upsert, Operation::Update, Operation::Delete] {
            let topic = format!("db/{}/acme/crm/contact/{}", p.as_str(), o.as_str());
            let t = parse_topic(&topic).unwrap();
            assert_eq!(t.priority, p);
            assert_eq!(t.operation, o);
            assert_eq!(t.tenant, "acme");
        }
    }
}

#[test]
fn name_parsing_roundtrip() {
    assert_eq!(Priority::try_from_str("normal").unwrap(), Priority::Normal);
    assert_eq!(Priority::try_from_str("urgent").unwrap_err(), "prioridad desconocida: 'urgent'");
    assert_eq!(Operation::try_from_str("upsert").unwrap(), Operation::Upsert);
    assert_eq!(Operation::try_from_str("drop").unwrap_err(), "operación desconocida: 'drop'");
}

#[test]
fn validate_segment_cases() {
    assert_eq!(validate_segment("acme", "tenant", "t").unwrap(), "acme");
    assert!(validate_segment("+", "entity", "t").unwrap_err().contains("wildcard"));
    assert!(validate_segment("", "entity", "t").unwrap_err().contains("vacío"));
}
