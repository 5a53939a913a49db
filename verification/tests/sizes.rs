use koala_clash::draft::Draft;
use koala_clash::profiles::PrfItem;
use koala_clash::runtime::IRuntime;
use std::mem;

#[test]
fn test_prfitem_from_merge_size() {
    let merge_item = PrfItem::from_merge(Some("Merge".to_string())).unwrap();
    let prfitem_size = mem::size_of_val(&merge_item);
    // Boxed version
    let boxed_merge_item = Box::new(merge_item);
    let box_prfitem_size = mem::size_of_val(&boxed_merge_item);
    // The size of Box<T> is always pointer-sized (usually 8 bytes on 64-bit)
    assert!(box_prfitem_size < prfitem_size);
}

#[test]
fn test_draft_size_non_boxed() {
    let draft = Draft::from(IRuntime::new());
    let iruntime_size = std::mem::size_of_val(&draft);
    assert_eq!(iruntime_size, std::mem::size_of::<Draft<IRuntime>>());
}

#[test]
fn test_draft_size_boxed() {
    let draft = Draft::from(Box::new(IRuntime::new()));
    let box_iruntime_size = std::mem::size_of_val(&draft);
    assert_eq!(
        box_iruntime_size,
        std::mem::size_of::<Draft<Box<IRuntime>>>()
    );
}
