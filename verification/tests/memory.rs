use texture_upload::error::TextureError;
use texture_upload::memory::{
    mask_contains, select, MemoryProperties, MemoryProperty, MemoryRequirement, MemoryType,
};

fn props(list: &[MemoryProperty]) -> MemoryProperties {
    let mut p = MemoryProperties::empty();
    for property in list {
        p = p.with(*property);
    }
    p
}

fn table(rows: &[&[MemoryProperty]]) -> Vec<MemoryType> {
    let mut types = Vec::new();
    for (index, row) in rows.iter().enumerate() {
        types.push(MemoryType { index: index as u32, properties: props(row) });
    }
    types
}

fn needs(type_mask: u64) -> MemoryRequirement {
    MemoryRequirement { size: 4096, alignment: 256, type_mask }
}

#[test]
fn properties_contain_what_was_added() {
    let p = props(&[MemoryProperty::HostVisible, MemoryProperty::HostCoherent]);
    assert!(p.contains(MemoryProperty::HostVisible));
    assert!(p.contains(MemoryProperty::HostCoherent));
    assert!(!p.contains(MemoryProperty::DeviceLocal));
    assert!(!p.contains(MemoryProperty::HostCached));
    assert!(!p.contains(MemoryProperty::LazilyAllocated));
    assert!(!MemoryProperties::empty().contains(MemoryProperty::HostVisible));
}

#[test]
fn mask_bits() {
    assert!(mask_contains(0b1, 0));
    assert!(!mask_contains(0b1, 1));
    assert!(mask_contains(0b1010, 1));
    assert!(mask_contains(0b1010, 3));
    assert!(!mask_contains(0b1010, 2));
    assert!(mask_contains(1 << 63, 63));
    assert!(!mask_contains(u64::MAX, 64));
    assert!(!mask_contains(u64::MAX, 1000));
}

#[test]
fn select_takes_first_match_in_table_order() {
    let types = table(&[
        &[MemoryProperty::HostVisible],
        &[MemoryProperty::DeviceLocal],
        &[MemoryProperty::DeviceLocal, MemoryProperty::HostVisible],
    ]);
    assert_eq!(select(&needs(0b111), &types, MemoryProperty::DeviceLocal), Ok(1));
    assert_eq!(select(&needs(0b111), &types, MemoryProperty::HostVisible), Ok(0));
}

#[test]
fn select_skips_types_outside_the_mask() {
    let types = table(&[
        &[MemoryProperty::DeviceLocal],
        &[MemoryProperty::HostVisible],
        &[MemoryProperty::DeviceLocal],
    ]);
    assert_eq!(select(&needs(0b100), &types, MemoryProperty::DeviceLocal), Ok(2));
    assert_eq!(select(&needs(0b110), &types, MemoryProperty::DeviceLocal), Ok(2));
    assert_eq!(select(&needs(0b010), &types, MemoryProperty::HostVisible), Ok(1));
}

#[test]
fn select_fails_without_property() {
    let types = table(&[&[MemoryProperty::HostVisible], &[MemoryProperty::HostCoherent]]);
    assert_eq!(
        select(&needs(u64::MAX), &types, MemoryProperty::DeviceLocal),
        Err(TextureError::NoCompatibleMemoryType)
    );
}

#[test]
fn select_fails_when_mask_excludes_every_match() {
    let types = table(&[&[MemoryProperty::DeviceLocal], &[MemoryProperty::HostVisible]]);
    assert_eq!(
        select(&needs(0b10), &types, MemoryProperty::DeviceLocal),
        Err(TextureError::NoCompatibleMemoryType)
    );
    assert_eq!(
        select(&needs(0), &types, MemoryProperty::HostVisible),
        Err(TextureError::NoCompatibleMemoryType)
    );
}

#[test]
fn select_fails_on_empty_table() {
    assert_eq!(
        select(&needs(u64::MAX), &Vec::new(), MemoryProperty::HostVisible),
        Err(TextureError::NoCompatibleMemoryType)
    );
}

#[test]
fn select_returns_the_entry_index_not_its_position() {
    let types = vec![
        MemoryType { index: 7, properties: props(&[MemoryProperty::HostVisible]) },
        MemoryType { index: 3, properties: props(&[MemoryProperty::DeviceLocal]) },
    ];
    assert_eq!(select(&needs(1 << 3), &types, MemoryProperty::DeviceLocal), Ok(3));
    assert_eq!(select(&needs(1 << 7), &types, MemoryProperty::HostVisible), Ok(7));
    assert_eq!(
        select(&needs(1 << 1), &types, MemoryProperty::DeviceLocal),
        Err(TextureError::NoCompatibleMemoryType)
    );
}

#[test]
fn select_ignores_indices_beyond_the_mask() {
    let types = vec![MemoryType { index: 64, properties: props(&[MemoryProperty::DeviceLocal]) }];
    assert_eq!(
        select(&needs(u64::MAX), &types, MemoryProperty::DeviceLocal),
        Err(TextureError::NoCompatibleMemoryType)
    );
}

#[test]
fn error_names() {
    assert_eq!(TextureError::NoCompatibleMemoryType.name(), "no compatible memory type");
    assert_eq!(TextureError::ResourceCreationFailed.name(), "resource creation failed");
    assert_eq!(TextureError::MemoryOperationFailed.name(), "memory operation failed");
    assert_eq!(TextureError::SubmissionFailed.name(), "submission failed");
}
