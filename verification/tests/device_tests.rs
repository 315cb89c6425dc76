use custos::buffer::Buffer;
use custos::cpu::CPUPtr;
use custos::cpu::HostAlloc;
use custos::count::range;
use custos::count::Count;
use custos::cuda::CUresult;
use custos::cuda::CudaErrorKind;
use custos::devices::Alloc;
use custos::devices::Retriever;
use custos::devices::CPU;
use custos::flag::AllocFlag;
use custos::id::get_count;
use custos::id::set_count;
use custos::id::Node;
use custos::libs::remove_value;
use custos::libs::GenericOCL;
use custos::matrix::Matrix;
use custos::modules::Autograd;
use custos::modules::Base;
use custos::modules::Cached;
use custos::cpu_cache::CPUCache;

fn take_generic_dev_alloc<D: Alloc<i32>>(device: &mut D) {
    let _ = device.allocate(10, AllocFlag::Owned);
}

fn take_generic_dev<D: Retriever<i32>>(device: &mut D) {
    let _ = device.retrieve(10, ());
}

#[test]
fn test_init_new_buf() {
    let mut device = CPU::<Cached<Autograd<Base>>>::new();
    let _buf: Buffer<i32> = device.retrieve(10, ());
}

#[test]
fn test_cpu_creation() {
    let mut res = CPU::<Cached<Autograd<Base>>>::new();

    take_generic_dev_alloc(&mut res);
    take_generic_dev(&mut res);
}

fn add_bufs_tracked(device: &mut CPU<custos::modules::CachedModule<Base>>) -> Buffer<i32> {
    device.retrieve(10, ())
}

#[test]
fn test_added_track_caller() {
    let mut device = CPU::<Cached<Base>>::new();

    let _out = add_bufs_tracked(&mut device);
    let _out = add_bufs_tracked(&mut device);
}

#[test]
fn test_disposal_flag() {
    let mut mem = HostAlloc::new();
    let owned: CPUPtr<i32> = mem.allocate(4, AllocFlag::Owned);
    let handle = owned.ptr;

    let view: CPUPtr<i32> = CPUPtr::from_ptr(handle, 4, AllocFlag::Wrapper);
    mem.dispose(view);

    // dropping the non-owning view left the allocation live
    assert!(mem.is_alive(handle));
    assert_eq!(owned.as_slice(), &[0, 0, 0, 0]);

    mem.dispose(owned);
    assert!(!mem.is_alive(handle));
}

#[test]
fn test_drop_buffer_chain_respects_flag() {
    let mut device = CPU::<Cached<Base>>::new();
    let buf: Buffer<i32> = device.retrieve(3, ());
    let handle = buf.id().id;

    // cache-owned buffers never release their slot on disposal
    device.on_drop_buffer(buf);
    assert!(device.mem.is_alive(handle));
}

#[test]
fn test_buffer_write_and_read() {
    let mut device = CPU::<Base>::new();
    let mut buf = Buffer::<i32>::new(&mut device, 3);
    buf.write(&[4, 5, 6]);
    assert_eq!(buf.read(), &[4, 5, 6]);
    assert_eq!(buf.len(), 3);
}

#[test]
fn test_counter_helpers() {
    let mut count: usize = 0;
    let node = Node::new(&mut count, 9);
    assert_eq!(node, Node { idx: 0, len: 9 });
    assert_eq!(get_count(&count), 1);
    set_count(&mut count, 5);
    assert_eq!(get_count(&count), 5);
}

#[test]
fn test_count_range_resets_counter() {
    let mut count: usize = 3;
    let bounds: Count = range(2usize);
    let mut iter = bounds.into_iter(count);

    let mut seen: Vec<usize> = Vec::new();
    loop {
        // simulate retrievals advancing the counter inside the epoch
        count += 10;
        match iter.next(&mut count) {
            Some(epoch) => seen.push(epoch),
            None => break,
        }
    }
    assert_eq!(seen, vec![0, 1, 2]);
    // every epoch reset the counter to the captured value
    assert_eq!(count, 3);
}

#[test]
fn test_matrix_basics() {
    let mut device = CPU::<Base>::new();
    let mut mat = Matrix::<i32>::new(&mut device, (2, 3));
    assert_eq!(mat.dims(), (2, 3));
    assert_eq!(mat.size(), 6);
    assert_eq!(mat.as_cpu_slice(), &[0, 0, 0, 0, 0, 0]);
    mat.as_cpu_slice_mut()[0] = 8;
    assert_eq!(mat.data().read()[0], 8);
}

#[test]
fn test_cpu_cache_get_dims_hit_and_miss() {
    let mut cache = CPUCache::new();
    let mut mem = HostAlloc::new();

    let a: Matrix<i32> = cache.get(&mut mem, (2, 2));
    let b: Matrix<i32> = cache.get(&mut mem, (2, 2));
    assert_ne!(a.ptr(), b.ptr());

    cache.count = 0;
    let again: Matrix<i32> = cache.get(&mut mem, (2, 2));
    assert_eq!(a.ptr(), again.ptr());

    cache.count = 0;
    let other: Matrix<i32> = cache.get(&mut mem, (4, 1));
    assert_ne!(a.ptr(), other.ptr());
}

#[test]
fn test_remove_value() {
    let mut values: Vec<u64> = vec![1, 3, 5, 7];
    assert_eq!(remove_value(&mut values, &5), Ok(()));
    assert_eq!(values.len(), 3);
    assert!(!values.contains(&5));

    let mut values: Vec<u64> = vec![1, 3, 7];
    assert_eq!(remove_value(&mut values, &5), Err(2));
    assert_eq!(values, vec![1, 3, 7]);
}

#[test]
fn test_ocl_type_names() {
    assert_eq!(<i32 as GenericOCL>::as_ocl_type_str(), "int");
    assert_eq!(<u32 as GenericOCL>::as_ocl_type_str(), "uint");
    assert_eq!(<u8 as GenericOCL>::as_ocl_type_str(), "uchar");
    assert_eq!(<i64 as GenericOCL>::as_ocl_type_str(), "long");
    assert_eq!(<u64 as GenericOCL>::as_ocl_type_str(), "ulong");
}

#[test]
fn test_cu_result_to_result() {
    assert_eq!(CUresult::CUDA_SUCCESS.to_result(), Ok(()));
    assert_eq!(
        CUresult::CUDA_ERROR_OUT_OF_MEMORY.to_result(),
        Err(CudaErrorKind { code: 2 })
    );
    assert_eq!(
        CUresult::CUDA_ERROR_NOT_INITIALIZED.to_result(),
        Err(CudaErrorKind { code: 3 })
    );
}
