use hfmodem::ChannelSlab;

#[test]
fn test_slab_insert_get() {
    let mut slab: ChannelSlab<i32> = ChannelSlab::new(10);

    let id = slab.insert(42).unwrap();
    assert_eq!(slab.count(), 1);

    let result = slab.with_channel(id, |v| *v);
    assert_eq!(result, Some(42));
}

#[test]
fn test_slab_remove() {
    let mut slab: ChannelSlab<i32> = ChannelSlab::new(10);

    let id = slab.insert(42).unwrap();
    assert_eq!(slab.count(), 1);

    slab.remove(id);
    assert_eq!(slab.count(), 0);
    assert!(slab.with_channel(id, |v| *v).is_none());
}

#[test]
fn test_slab_reuse() {
    let mut slab: ChannelSlab<i32> = ChannelSlab::new(2);

    let id1 = slab.insert(1).unwrap();
    let _id2 = slab.insert(2).unwrap();

    // Slab is full
    assert!(slab.insert(3).is_none());

    // Remove one
    slab.remove(id1);

    // Can insert again
    let id3 = slab.insert(3).unwrap();
    assert!(id3 != id1); // New ID even though slot reused

    assert_eq!(slab.count(), 2);
}

#[test]
fn test_slab_ids_are_sequential() {
    let mut slab: ChannelSlab<u8> = ChannelSlab::new(4);
    assert_eq!(slab.insert(10), Some(0));
    assert_eq!(slab.insert(11), Some(1));
    assert_eq!(slab.insert(12), Some(2));
    slab.remove(1);
    // The freed slot is reused but the identifier is fresh.
    assert_eq!(slab.insert(13), Some(3));
}

#[test]
fn test_slab_remove_unknown_id() {
    let mut slab: ChannelSlab<i32> = ChannelSlab::new(2);
    assert_eq!(slab.remove(5), None);
    let id = slab.insert(9).unwrap();
    assert_eq!(slab.remove(id), Some(9));
    // A spent identifier stays dead.
    assert_eq!(slab.remove(id), None);
}

#[test]
fn test_slab_with_channel_mut() {
    let mut slab: ChannelSlab<i32> = ChannelSlab::new(4);
    let id = slab.insert(5).unwrap();

    let doubled = slab.with_channel_mut(id, |v| (v * 2, v));
    assert_eq!(doubled, Some(5));
    assert_eq!(slab.with_channel(id, |v| *v), Some(10));

    assert!(slab.with_channel_mut(77, |v: i32| (v, ())).is_none());
}

#[test]
fn test_slab_zero_capacity() {
    let mut slab: ChannelSlab<i32> = ChannelSlab::new(0);
    assert_eq!(slab.insert(1), None);
    assert_eq!(slab.count(), 0);
}
