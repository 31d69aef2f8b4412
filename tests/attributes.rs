use ptx_raytracing::attributes::{AttributeVariablesBlock, StorageClass};
use ptx_raytracing::error::TranslationError;

#[test]
fn empty_block_has_no_entries() {
    let b = AttributeVariablesBlock::empty();
    assert_eq!(b.len(), 0);
    assert!(b.lookup("color").is_none());
}

#[test]
fn declared_attribute_is_found() {
    let mut b = AttributeVariablesBlock::empty();
    assert_eq!(b.declare("color".to_string(), ".f32".to_string(), StorageClass::Global), Ok(()));
    assert_eq!(b.declare("t_hit".to_string(), ".u32".to_string(), StorageClass::Param), Ok(()));
    assert_eq!(b.len(), 2);
    let v = b.lookup("t_hit").unwrap();
    assert_eq!(v.name, "t_hit");
    assert_eq!(v.ty, ".u32");
    assert_eq!(v.storage, StorageClass::Param);
    assert_eq!(b.position("color"), Some(0));
    assert_eq!(b.position("t_hit"), Some(1));
}

#[test]
fn duplicate_attribute_is_refused() {
    let mut b = AttributeVariablesBlock::empty();
    b.declare("color".to_string(), ".f32".to_string(), StorageClass::Global).unwrap();
    assert_eq!(
        b.declare("color".to_string(), ".u64".to_string(), StorageClass::Local),
        Err(TranslationError::DuplicateAttribute)
    );
    assert_eq!(b.len(), 1);
    assert_eq!(b.lookup("color").unwrap().ty, ".f32");
}

#[test]
fn undeclared_attribute_is_an_error() {
    let mut b = AttributeVariablesBlock::empty();
    b.declare("color".to_string(), ".f32".to_string(), StorageClass::Global).unwrap();
    assert_eq!(b.resolve("normal").err(), Some(TranslationError::UndeclaredAttribute));
    assert_eq!(b.resolve("color").unwrap().name, "color");
}
