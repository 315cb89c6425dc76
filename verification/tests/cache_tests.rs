use custos::buffer::Buffer;
use custos::devices::Retriever;
use custos::devices::CPU;
use custos::id::set_count;
use custos::id::Ident;
use custos::modules::Base;
use custos::modules::Cached;
use custos::modules::CachedModule;

#[test]
fn test_add_node() {
    let mut device: CPU<CachedModule<Base>> = CPU::<Cached<Base>>::new();

    let cache_buf: Buffer<i32> =
        device.modules.cache.add_node(&mut device.mem, Ident { idx: 0, len: 7 });

    let entry = *device.modules.cache.nodes.get(&0).unwrap();

    assert_eq!(cache_buf.id().id, entry.ptr);
}

#[test]
fn test_get() {
    let mut device: CPU<CachedModule<Base>> = CPU::<Cached<Base>>::new();
    set_count(&mut device.modules.cache.count, 0);

    let cache_entry: Buffer<i32> = device.modules.cache.get(&mut device.mem, 10);
    let new_cache_entry: Buffer<i32> = device.modules.cache.get(&mut device.mem, 10);

    assert_ne!(cache_entry.id(), new_cache_entry.id());

    set_count(&mut device.modules.cache.count, 0);

    let first_entry: Buffer<i32> = device.modules.cache.get(&mut device.mem, 10);
    assert_eq!(cache_entry.id(), first_entry.id());
}

#[test]
fn test_cache_hit_determinism() {
    let mut device: CPU<CachedModule<Base>> = CPU::<Cached<Base>>::new();

    let mut first_run: Vec<u64> = Vec::new();
    for _ in 0..4 {
        let buf: Buffer<i32> = device.retrieve(6, ());
        first_run.push(buf.id().id);
    }

    set_count(&mut device.modules.cache.count, 0);
    let mut second_run: Vec<u64> = Vec::new();
    for _ in 0..4 {
        let buf: Buffer<i32> = device.retrieve(6, ());
        second_run.push(buf.id().id);
    }
    assert_eq!(first_run, second_run);

    let mut third_run: Vec<u64> = Vec::new();
    for _ in 0..4 {
        let buf: Buffer<i32> = device.retrieve(6, ());
        third_run.push(buf.id().id);
    }
    for handle in &third_run {
        assert!(!first_run.contains(handle));
    }
}

#[test]
fn test_cache_miss_on_size_change() {
    let mut device: CPU<CachedModule<Base>> = CPU::<Cached<Base>>::new();

    let small: Buffer<i32> = device.modules.cache.get(&mut device.mem, 10);
    set_count(&mut device.modules.cache.count, 0);
    let large: Buffer<i32> = device.modules.cache.get(&mut device.mem, 20);

    assert_ne!(small.id().id, large.id().id);
    assert_eq!(large.len(), 20);
}

#[test]
fn test_end_to_end_cached_repetitions() {
    let mut device: CPU<CachedModule<Base>> = CPU::<Cached<Base>>::new();

    let host_buf: Buffer<i32> = Buffer::new(&mut device, 5);
    assert_eq!(host_buf.len(), 5);

    let mut repetitions: Vec<Vec<u64>> = Vec::new();
    for _ in 0..2 {
        set_count(&mut device.modules.cache.count, 0);
        let mut handles: Vec<u64> = Vec::new();
        for _ in 0..2 {
            let buf: Buffer<i32> = device.retrieve(5, ());
            handles.push(buf.id().id);
        }
        repetitions.push(handles);
    }

    assert_ne!(repetitions[0][0], repetitions[0][1]);
    assert_eq!(repetitions[0][0], repetitions[1][0]);
    assert_eq!(repetitions[0][1], repetitions[1][1]);
}
