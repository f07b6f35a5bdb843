use natrix_dev::manifest::{AssetManifest, ManifestStore};

#[test]
fn manifest_starts_empty() {
    let manifest = AssetManifest::new();
    assert_eq!(manifest.len(), 0);
    assert_eq!(manifest.get("app.js"), None);
    assert_eq!(AssetManifest::default().len(), 0);
}

#[test]
fn manifest_insert_and_get() {
    let mut manifest = AssetManifest::new();
    manifest.insert("app.js".to_string(), "/dist/app-ab12.js".to_string());
    manifest.insert("style.css".to_string(), "/dist/style-9f.css".to_string());
    assert_eq!(manifest.len(), 2);
    assert_eq!(manifest.get("app.js"), Some(&"/dist/app-ab12.js".to_string()));
    assert_eq!(manifest.get("/app.js"), None);
    manifest.insert("app.js".to_string(), "/dist/app-cd34.js".to_string());
    assert_eq!(manifest.len(), 2);
    assert_eq!(manifest.get("app.js"), Some(&"/dist/app-cd34.js".to_string()));
}

#[test]
fn store_yields_what_was_set() {
    let mut store = ManifestStore::new();
    assert_eq!(store.get().len(), 0);
    let mut first = AssetManifest::new();
    first.insert("a.js".to_string(), "/dist/a-1.js".to_string());
    store.set(first);
    assert_eq!(store.get().get("a.js"), Some(&"/dist/a-1.js".to_string()));
    let mut second = AssetManifest::new();
    second.insert("b.js".to_string(), "/dist/b-2.js".to_string());
    store.set(second);
    assert_eq!(store.get().len(), 1);
    assert_eq!(store.get().get("a.js"), None);
    assert_eq!(store.get().get("b.js"), Some(&"/dist/b-2.js".to_string()));
}
