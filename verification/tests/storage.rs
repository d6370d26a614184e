use document_registry::storage::SimpleStorage;

#[test]
fn set_and_get_value() {
    let mut storage = SimpleStorage::new();
    storage.set_value("counter".to_string(), 7);
    assert_eq!(storage.get_value("counter".to_string()), Some(7));
    assert_eq!(storage.get_value("missing".to_string()), None);
}

#[test]
fn set_value_overwrites() {
    let mut storage = SimpleStorage::new();
    storage.set_value("counter".to_string(), 1);
    storage.set_value("counter".to_string(), 2);
    storage.set_value("other".to_string(), 5);
    assert_eq!(storage.get_value("counter".to_string()), Some(2));
    assert_eq!(storage.get_value("other".to_string()), Some(5));
}

#[test]
fn upload_document_stores_and_reports() {
    let mut storage = SimpleStorage::new();
    let event = storage.upload_document("INE".to_string(), "Contenido de INE".to_string());
    assert_eq!(event.key, "INE".to_string());
    assert_eq!(event.value, "Contenido de INE".to_string());
    assert_eq!(
        storage.get_document("INE".to_string()),
        Some(&"Contenido de INE".to_string())
    );
    assert_eq!(storage.get_document("missing".to_string()), None);
}

#[test]
fn upload_document_overwrites() {
    let mut storage = SimpleStorage::new();
    storage.upload_document("doc".to_string(), "old".to_string());
    storage.upload_document("doc".to_string(), "new".to_string());
    assert_eq!(storage.get_document("doc".to_string()), Some(&"new".to_string()));
    // Values are a separate mapping and are untouched.
    assert_eq!(storage.get_value("doc".to_string()), None);
}
