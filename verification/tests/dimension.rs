use oneil::dimension::{cache_key_to_dimension, dimension_to_cache_key, CacheValueConversionError, Dimension};

const ALL: [Dimension; 9] = [
    Dimension::Mass,
    Dimension::Distance,
    Dimension::Time,
    Dimension::Temperature,
    Dimension::Current,
    Dimension::Information,
    Dimension::Currency,
    Dimension::Substance,
    Dimension::LuminousIntensity,
];

#[test]
fn every_dimension_is_read_back_from_its_key() {
    for d in ALL {
        assert_eq!(cache_key_to_dimension(dimension_to_cache_key(d)), Ok(d));
    }
}

#[test]
fn dimension_keys_are_base_unit_symbols() {
    let keys: Vec<&str> = ALL.iter().map(|d| dimension_to_cache_key(*d)).collect();
    assert_eq!(keys, vec!["kg", "m", "s", "K", "A", "bit", "$", "mol", "cd"]);
}

#[test]
fn unknown_dimension_keys_are_rejected() {
    let err = cache_key_to_dimension("furlong").expect_err("not a base unit");
    assert_eq!(err, CacheValueConversionError::UnknownDimension { key: "furlong".to_string() });
    assert_eq!(err.message(), "unknown dimension key in cache unit: furlong");
    assert!(cache_key_to_dimension("KG").is_err());
    assert!(cache_key_to_dimension("").is_err());
}
