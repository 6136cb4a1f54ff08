use golem_wasm_ast::analysis::{AnalysedExport, AnalysisContext, AnalysisFailure};
use golem_wasm_ast::component::Component;
use golem_wasm_ast::IgnoreAllButMetadata;
use golem_worker::ids::TemplateId;
use golem_worker::template::{TemplateStore, TemplateStoreError};

fn analyse(bytes: &[u8]) -> Result<Vec<String>, String> {
    let component = Component::<IgnoreAllButMetadata>::from_bytes(bytes)?;
    match AnalysisContext::new(component).get_top_level_exports() {
        Ok(exports) => Ok(exports
            .into_iter()
            .map(|e| match e {
                AnalysedExport::Function(f) => f.name,
                AnalysedExport::Instance(i) => i.name,
            })
            .collect()),
        Err(AnalysisFailure::Failed(reason)) => Err(reason),
    }
}

const EMPTY_COMPONENT: [u8; 8] = [0x00, 0x61, 0x73, 0x6d, 0x0d, 0x00, 0x01, 0x00];

fn id(v: u128) -> TemplateId {
    TemplateId { value: v }
}

fn names(v: &[&str]) -> Vec<String> {
    v.iter().map(|s| s.to_string()).collect()
}

#[test]
fn bytes_that_are_no_component_fail_to_parse() {
    let mut store = TemplateStore::new();
    let bytes = b"definitely not wasm".to_vec();
    let analysis = analyse(&bytes);
    let r = store.add(id(1), "counter", bytes, analysis);
    assert!(matches!(r, Err(TemplateStoreError::TemplateParseFailed { ref reason }) if !reason.is_empty()));
    assert!(matches!(store.get_latest(id(1)), Err(TemplateStoreError::NotFound)));
    assert!(store.find(None).is_empty());
}

#[test]
fn an_empty_component_is_accepted() {
    let mut store = TemplateStore::new();
    let r = store.add(id(1), "empty", EMPTY_COMPONENT.to_vec(), analyse(&EMPTY_COMPONENT));
    assert!(matches!(r, Ok(0)), "{r:?}");
    let (version, bytes) = store.get_latest(id(1)).unwrap();
    assert_eq!(version, 0);
    assert_eq!(bytes, &EMPTY_COMPONENT.to_vec());
    assert!(store.exports(id(1), 0).unwrap().is_empty());
}

#[test]
fn update_with_bytes_that_are_no_component_creates_no_version() {
    let mut store = TemplateStore::new();
    store.add(id(1), "empty", EMPTY_COMPONENT.to_vec(), analyse(&EMPTY_COMPONENT)).unwrap();
    let r = store.update(id(1), vec![1, 2, 3], analyse(&[1, 2, 3]));
    assert!(matches!(r, Err(TemplateStoreError::TemplateParseFailed { .. })));
    assert_eq!(store.get_latest(id(1)).unwrap().0, 0);
}

#[test]
fn upload_then_download_latest_gives_the_same_bytes() {
    let mut store = TemplateStore::new();
    let b0 = vec![1u8, 2, 3];
    let b1 = vec![4u8, 5, 6, 7];
    assert_eq!(store.add(id(9), "shop", b0.clone(), Ok(names(&["buy"]))).unwrap(), 0);
    assert_eq!(store.update(id(9), b1.clone(), Ok(names(&["buy", "sell"]))).unwrap(), 1);
    let (version, bytes) = store.get_latest(id(9)).unwrap();
    assert_eq!(version, 1);
    assert_eq!(bytes, &b1);
    assert_eq!(store.get(id(9), 0).unwrap(), &b0);
    assert_eq!(store.exports(id(9), 1).unwrap(), &names(&["buy", "sell"]));
}

#[test]
fn identical_bytes_give_the_existing_version() {
    let mut store = TemplateStore::new();
    let b0 = vec![1u8, 2, 3];
    store.add(id(9), "shop", b0.clone(), Ok(vec![])).unwrap();
    store.update(id(9), vec![9u8], Ok(vec![])).unwrap();
    assert_eq!(store.update(id(9), b0.clone(), Ok(vec![])).unwrap(), 0);
    let rejected = store.update(id(9), vec![9u8], Err("rejected".to_string()));
    assert!(matches!(rejected, Err(TemplateStoreError::TemplateParseFailed { ref reason }) if reason == "rejected"));
    assert_eq!(store.get_latest(id(9)).unwrap().0, 1);
}

#[test]
fn new_versions_grow_monotonically() {
    let mut store = TemplateStore::new();
    store.add(id(2), "t", vec![0u8], Ok(vec![])).unwrap();
    for k in 1u8..5 {
        let v = store.update(id(2), vec![k], Ok(vec![])).unwrap();
        assert_eq!(v, k as u64);
    }
}

#[test]
fn failed_analysis_is_reported_with_its_reason() {
    let mut store = TemplateStore::new();
    let r = store.add(id(3), "t", vec![1u8], Err("bad magic".to_string()));
    assert!(matches!(r, Err(TemplateStoreError::TemplateParseFailed { ref reason }) if reason == "bad magic"));
    assert!(store.find(None).is_empty());
}

#[test]
fn unknown_templates_and_versions_are_not_found() {
    let mut store = TemplateStore::new();
    store.add(id(1), "t", vec![1u8], Ok(vec![])).unwrap();
    assert!(matches!(store.get(id(2), 0), Err(TemplateStoreError::NotFound)));
    assert!(matches!(store.get(id(1), 1), Err(TemplateStoreError::NotFound)));
    assert!(matches!(store.exports(id(1), 5), Err(TemplateStoreError::NotFound)));
    assert!(matches!(store.update(id(2), vec![2u8], Ok(vec![])), Err(TemplateStoreError::NotFound)));
}

#[test]
fn adding_an_existing_id_fails() {
    let mut store = TemplateStore::new();
    store.add(id(1), "t", vec![1u8], Ok(vec![])).unwrap();
    let r = store.add(id(1), "u", vec![2u8], Ok(vec![]));
    assert!(matches!(r, Err(TemplateStoreError::AlreadyExists)));
}

#[test]
fn find_filters_by_name_substring() {
    let mut store = TemplateStore::new();
    store.add(id(1), "shopping-cart", vec![1u8], Ok(vec![])).unwrap();
    store.add(id(2), "counter", vec![2u8], Ok(vec![])).unwrap();
    store.add(id(3), "cart-v2", vec![3u8], Ok(vec![])).unwrap();
    store.update(id(3), vec![4u8], Ok(vec![])).unwrap();
    let all = store.find(None);
    assert_eq!(all.len(), 3);
    let carts = store.find(Some("cart"));
    let found: Vec<(u128, String, u64)> =
        carts.iter().map(|t| (t.id.value, t.name.clone(), t.latest_version)).collect();
    assert_eq!(
        found,
        vec![(1, "shopping-cart".to_string(), 0), (3, "cart-v2".to_string(), 1)]
    );
    assert_eq!(store.find(Some("")).len(), 3);
    assert!(store.find(Some("nothing")).is_empty());
}
