use kmdata::Data;
use kmdata::DataKind;
use kmdata::Error;

fn pair(name: &str, path: &str) -> (String, String) {
    (name.to_string(), path.to_string())
}

fn store_with_corpus() -> Data {
    Data::from_listings(
        "/d".to_string(),
        &vec![pair("english.bin", "/d/corpora/english.bin")],
        &vec![],
        &vec![],
    )
}

fn read_err() -> std::io::Error {
    std::io::Error::new(std::io::ErrorKind::NotFound, "no such file")
}

#[test]
fn construct_from_empty_listings_yields_empty_catalogs() {
    let d = Data::from_listings("/d".to_string(), &vec![], &vec![], &vec![]);
    assert_eq!(d.data_dir, "/d".to_string());
    assert!(d.corpora.is_empty());
    assert!(d.keyboards.is_empty());
    assert!(d.layouts.is_empty());
    assert!(matches!(
        d.lookup(DataKind::Corpus, "english"),
        Err(Error::Locate(DataKind::Corpus, n)) if n == "english"
    ));
}

#[test]
fn lookup_hit_returns_registered_path() {
    let d = store_with_corpus();
    assert_eq!(
        d.lookup(DataKind::Corpus, "english").ok(),
        Some("/d/corpora/english.bin".to_string())
    );
}

#[test]
fn lookup_of_never_inserted_name_is_locate_in_every_category() {
    let d = store_with_corpus();
    for kind in [DataKind::Corpus, DataKind::Keyboard, DataKind::Layout] {
        assert!(matches!(
            d.lookup(kind, "french"),
            Err(Error::Locate(k, n)) if k == kind && n == "french"
        ));
    }
}

#[test]
fn valid_corpus_loads_and_missing_one_is_locate() {
    let d = store_with_corpus();
    let v = rmpv::Value::Array(vec![
        rmpv::Value::from(7i64),
        rmpv::Value::String(rmpv::Utf8String::from("seven")),
    ]);
    let bytes = rmp_serde::to_vec(&v).unwrap();
    let loaded = d.get_corpus("english", Ok(bytes)).unwrap();
    assert_eq!(loaded, v);
    assert!(matches!(
        d.get_corpus("french", Ok(vec![])),
        Err(Error::Locate(DataKind::Corpus, n)) if n == "french"
    ));
}

#[test]
fn binary_round_trip_preserves_value() {
    let d = Data::from_listings(
        "/d".to_string(),
        &vec![],
        &vec![pair("qwerty.bin", "/d/metrics/qwerty.bin")],
        &vec![],
    );
    let v = rmpv::Value::Map(vec![(
        rmpv::Value::String(rmpv::Utf8String::from("rows")),
        rmpv::Value::Array(vec![rmpv::Value::from(1u64), rmpv::Value::from(-2i64)]),
    )]);
    let bytes = rmp_serde::to_vec(&v).unwrap();
    let loaded = d.get_metrics("qwerty", Ok(bytes)).unwrap();
    assert_eq!(loaded, v);
}

#[test]
fn garbage_metrics_bytes_are_a_deserialization_failure() {
    let d = Data::from_listings(
        "/d".to_string(),
        &vec![],
        &vec![pair("qwerty.bin", "/d/metrics/qwerty.bin")],
        &vec![],
    );
    assert!(matches!(
        d.get_metrics("qwerty", Ok(vec![0xc1, 0x00, 0x17])),
        Err(Error::RmpDeserialize(_))
    ));
    assert!(matches!(d.get_metrics("qwerty", Ok(vec![])), Err(Error::RmpDeserialize(_))));
}

#[test]
fn unreadable_file_is_a_read_failure() {
    let d = store_with_corpus();
    assert!(matches!(d.get_corpus("english", Err(read_err())), Err(Error::FileRead(_))));
}

#[test]
fn json_round_trip_preserves_layout() {
    let d = Data::from_listings(
        "/d".to_string(),
        &vec![],
        &vec![],
        &vec![pair("colemak.json", "/d/layouts/colemak.json")],
    );
    let v = serde_json::Value::Array(vec![
        serde_json::Value::String("colemak".to_string()),
        serde_json::Value::Number(serde_json::Number::from(42)),
    ]);
    let text = serde_json::to_string(&v).unwrap();
    let loaded = d.get_layout("colemak", Ok(text)).unwrap();
    assert_eq!(loaded, v);
}

#[test]
fn bad_layout_text_is_a_deserialization_failure() {
    let d = Data::from_listings(
        "/d".to_string(),
        &vec![],
        &vec![],
        &vec![pair("colemak.json", "/d/layouts/colemak.json")],
    );
    assert!(matches!(
        d.get_layout("colemak", Ok("{not json".to_string())),
        Err(Error::JsonDeserialize(_))
    ));
}

// Layout lookups resolve through the layout catalog: a keyboard metrics
// entry with the same stem does not serve them, and a layout entry does.
#[test]
fn layout_lookup_uses_layout_catalog() {
    let d = Data::from_listings(
        "/d".to_string(),
        &vec![],
        &vec![pair("qwerty.bin", "/d/metrics/qwerty.bin")],
        &vec![pair("colemak.json", "/d/layouts/colemak.json")],
    );
    assert!(matches!(
        d.lookup(DataKind::Layout, "qwerty"),
        Err(Error::Locate(DataKind::Layout, n)) if n == "qwerty"
    ));
    assert_eq!(
        d.lookup(DataKind::Layout, "colemak").ok(),
        Some("/d/layouts/colemak.json".to_string())
    );
}

#[test]
fn located_data_dir_ends_with_namespace() {
    match Data::locate_data_dir() {
        Ok(p) => assert!(p.ends_with("/keymeow")),
        Err(e) => assert!(matches!(e, Error::BaseDirs)),
    }
}
