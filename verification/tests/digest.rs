use domains_core::digest::{Digest, DigestItem};

#[test]
fn upgrade_report_names_the_runtime() {
    assert_eq!(DigestItem::domain_runtime_upgrade(0), DigestItem::Other(vec![0, 0, 0, 0, 0]));
    assert_eq!(
        DigestItem::domain_runtime_upgrade(0x0102_0304),
        DigestItem::Other(vec![0, 4, 3, 2, 1])
    );
    for runtime_id in [0u32, 1, 255, 256, 65_536, u32::MAX] {
        assert_eq!(
            DigestItem::domain_runtime_upgrade(runtime_id).as_domain_runtime_upgrade(),
            Some(runtime_id)
        );
    }
}

#[test]
fn other_items_report_no_upgrade() {
    assert_eq!(DigestItem::Other(vec![]).as_domain_runtime_upgrade(), None);
    assert_eq!(DigestItem::Other(vec![0, 1, 2, 3]).as_domain_runtime_upgrade(), None);
    assert_eq!(DigestItem::Other(vec![1, 1, 0, 0, 0]).as_domain_runtime_upgrade(), None);
    assert_eq!(DigestItem::Other(vec![0, 1, 0, 0, 0, 9, 9]).as_domain_runtime_upgrade(), Some(1));
    assert_eq!(DigestItem::RuntimeEnvironmentUpdated.as_domain_runtime_upgrade(), None);
    assert_eq!(
        DigestItem::PreRuntime(*b"test", vec![0, 1, 0, 0, 0]).as_domain_runtime_upgrade(),
        None
    );
    assert_eq!(
        DigestItem::Consensus(*b"test", vec![0, 1, 0, 0, 0]).as_domain_runtime_upgrade(),
        None
    );
    assert_eq!(DigestItem::Seal(*b"test", vec![0, 1, 0, 0, 0]).as_domain_runtime_upgrade(), None);
    assert_eq!(Digest::default(), Digest { logs: vec![] });
}

#[test]
fn upgrade_report_is_read_as_the_runtime_reads_it() {
    // the item as `sp-runtime` holds it
    let item = DigestItem::domain_runtime_upgrade(77);
    let data = match &item {
        DigestItem::Other(data) => data.clone(),
        _ => unreachable!(),
    };
    let outside = sp_runtime::DigestItem::Other(data);
    let decoded: Option<(u8, u32)> = outside.try_to(sp_runtime::generic::OpaqueDigestItemId::Other);
    assert_eq!(decoded, Some((0, 77)));
}
