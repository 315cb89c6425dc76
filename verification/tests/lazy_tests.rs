use custos::buffer::Buffer;
use custos::devices::Retriever;
use custos::devices::CPU;
use custos::error::DeviceError;
use custos::lazy_graph::register_buf_copyable;
use custos::lazy_graph::AsNoId;
use custos::lazy_graph::LazyGraph;
use custos::lazy_graph::LazyGraph2;
use custos::lazy_graph::LazyOp;
use custos::lazy_graph::Operation;
use custos::features::Run;
use custos::modules::Base;
use custos::modules::Lazy;
use std::collections::HashMap;

#[test]
fn test_op2() {
    let mut device = CPU::<Base>::new();
    let mut graph = LazyGraph2::new();
    let lhs = Buffer::from_slice(&mut device, &[1i32, 2, 3, 4, 5]);
    let rhs = Buffer::from_slice(&mut device, &[1i32, 2, 6, 4, 5]);

    graph.add_operation2(&lhs, LazyOp::Noop);

    graph.add_operation2((&lhs, &rhs), LazyOp::Noop);

    graph.add_operation2((&lhs, &rhs), LazyOp::Noop);

    assert_eq!(graph.operations2.len(), 3);
}

#[test]
#[should_panic]
fn test_lazy_op_args_args_out_of_scope() {
    let mut device = CPU::<Base>::new();
    let mut graph = LazyGraph::new();
    let mut outs_unordered: HashMap<u64, Vec<i32>> = HashMap::new();

    let _out_id = {
        let lhs = Buffer::from_slice(&mut device, &[1i32, 2, 3, 4, 5]);
        let rhs = Buffer::from_slice(&mut device, &[1i32, 2, 6, 4, 5]);
        let out: Buffer<i32> = device.retrieve(lhs.len(), (&lhs, &rhs));
        register_buf_copyable(&mut outs_unordered, &out);

        graph.add_operation(
            (&out, &lhs, &rhs),
            LazyOp::ExpectEq { id: lhs.id().id, expected: vec![1, 2, 3, 4, 5] },
        );
        graph.add_operation(
            (&out, &lhs, &rhs),
            LazyOp::ExpectEq { id: rhs.id().id, expected: vec![1, 2, 6, 4, 5] },
        );

        out.id()
    };

    graph.call_lazily(&mut outs_unordered).unwrap();
}

#[test]
fn test_lazy_op_args() {
    let mut device = CPU::<Base>::new();
    let mut graph = LazyGraph::new();

    let lhs = Buffer::from_slice(&mut device, &[1i32, 2, 3, 4, 5]);
    let rhs = Buffer::from_slice(&mut device, &[1i32, 2, 6, 4, 5]);

    let mut outs_unordered: HashMap<u64, Vec<i32>> = HashMap::new();

    let out: Buffer<i32> = device.retrieve(lhs.len(), (&lhs, &rhs));
    register_buf_copyable(&mut outs_unordered, &lhs);
    register_buf_copyable(&mut outs_unordered, &rhs);
    register_buf_copyable(&mut outs_unordered, &out);

    graph.add_operation(
        (&out, &lhs, &rhs),
        LazyOp::ExpectEq { id: lhs.id().id, expected: vec![1, 2, 3, 4, 5] },
    );
    graph.add_operation(
        (&out, &lhs, &rhs),
        LazyOp::ExpectEq { id: rhs.id().id, expected: vec![1, 2, 6, 4, 5] },
    );

    graph.call_lazily(&mut outs_unordered).unwrap();
}

#[test]
fn test_lazy_op_args_no_out_but_use_loop() {
    let mut device = CPU::<Base>::new();

    let mut graph = LazyGraph::new();

    let lhs = Buffer::from_slice(&mut device, &[1i32, 2, 3, 4, 5]);
    let rhs = Buffer::from_slice(&mut device, &[1i32, 2, 6, 4, 5]);

    let mut outs_unordered: HashMap<u64, Vec<i32>> = HashMap::new();

    let out: Buffer<i32> = device.retrieve(lhs.len(), (&lhs, &rhs));
    register_buf_copyable(&mut outs_unordered, &lhs);
    register_buf_copyable(&mut outs_unordered, &rhs);
    register_buf_copyable(&mut outs_unordered, &out);

    for _ in 0..10 {
        graph.add_operation(
            (&lhs, &rhs, &out),
            LazyOp::ExpectEq { id: lhs.id().id, expected: vec![1, 2, 3, 4, 5] },
        );
        graph.add_operation(
            (&lhs, &rhs, &out),
            LazyOp::ExpectEq { id: rhs.id().id, expected: vec![1, 2, 6, 4, 5] },
        );
    }

    graph.call_lazily(&mut outs_unordered).unwrap();
}

#[test]
fn test_lazy_op_args_no_out_but_use() {
    let mut device = CPU::<Base>::new();

    let mut graph = LazyGraph::new();

    let lhs = Buffer::from_slice(&mut device, &[1i32, 2, 3, 4, 5]);
    let rhs = Buffer::from_slice(&mut device, &[1i32, 2, 6, 4, 5]);

    let mut outs_unordered: HashMap<u64, Vec<i32>> = HashMap::new();

    let out: Buffer<i32> = device.retrieve(lhs.len(), (&lhs, &rhs));
    register_buf_copyable(&mut outs_unordered, &lhs);
    register_buf_copyable(&mut outs_unordered, &rhs);
    register_buf_copyable(&mut outs_unordered, &out);

    graph.add_operation(
        (&lhs, &rhs),
        LazyOp::ExpectEq { id: lhs.id().id, expected: vec![1, 2, 3, 4, 5] },
    );
    graph.add_operation(
        (&lhs, &rhs),
        LazyOp::ExpectEq { id: rhs.id().id, expected: vec![1, 2, 6, 4, 5] },
    );

    graph.call_lazily(&mut outs_unordered).unwrap();
}

#[test]
fn test_lazy_op_args_with_ew_fn() {
    let mut device = CPU::<Base>::new();

    let mut graph = LazyGraph::new();

    let lhs = Buffer::from_slice(&mut device, &[1i32, 2, 3, 4, 5]);
    let rhs = Buffer::from_slice(&mut device, &[1i32, 2, 6, 4, 5]);

    let mut outs_unordered: HashMap<u64, Vec<i32>> = HashMap::new();

    let out: Buffer<i32> = device.retrieve(lhs.len(), (&lhs, &rhs));
    register_buf_copyable(&mut outs_unordered, &lhs);
    register_buf_copyable(&mut outs_unordered, &rhs);
    register_buf_copyable(&mut outs_unordered, &out);

    graph.add_operation(
        (&out, &lhs, &rhs),
        LazyOp::ExpectEq { id: lhs.id().id, expected: vec![1, 2, 3, 4, 5] },
    );
    graph.add_operation(
        (&out, &lhs, &rhs),
        LazyOp::ExpectEq { id: rhs.id().id, expected: vec![1, 2, 6, 4, 5] },
    );
    graph.add_operation(
        (&out, &lhs, &rhs),
        LazyOp::AddScalar { out_id: out.id().id, in_id: lhs.id().id, value: 10 },
    );

    graph.call_lazily(&mut outs_unordered).unwrap();

    assert_eq!(outs_unordered.get(&out.id().id).unwrap().as_slice(), &[11, 12, 13, 14, 15]);
}

#[test]
fn test_lazy_graph_exec_with_vecs() {
    let mut graph = LazyGraph::new();

    {
        let vec: Vec<i32> = vec![1, 2, 3, 4];
        let held = vec.clone();
        graph.add_operation(vec.no_id(), LazyOp::ExpectOwned { held, expected: vec![1, 2, 3, 4] });
    }
    graph.call_lazily(&mut HashMap::new()).unwrap();
}

#[test]
fn test_args_ref_updating() {
    let x: i32 = 5;
    let y: f64 = 3.0;
    let mut args = (&x, 10i32, &y);

    let replace_x = &x;
    args.0 = replace_x;
}

#[test]
fn test_stale_reference_error_kind() {
    let mut graph = LazyGraph::new();
    let mut pool: HashMap<u64, Vec<i32>> = HashMap::new();

    let mut op = Operation::no_op();
    op.arg_ids = vec![Some(42)];
    graph.operations.push(op);

    assert_eq!(graph.call_lazily(&mut pool), Err(DeviceError::InvalidLazyBuf));
}

#[test]
fn test_data_mismatch_error_kind() {
    let mut graph = LazyGraph::new();
    let mut pool: HashMap<u64, Vec<i32>> = HashMap::new();
    pool.insert(7, vec![1, 2, 3]);

    graph.add_operation((), LazyOp::ExpectEq { id: 7, expected: vec![9, 9, 9] });

    assert_eq!(graph.call_lazily(&mut pool), Err(DeviceError::DataMismatch));
}

#[test]
fn test_call_lazily_stops_at_first_failure() {
    let mut graph = LazyGraph::new();
    let mut pool: HashMap<u64, Vec<i32>> = HashMap::new();
    pool.insert(1, vec![0, 0]);
    pool.insert(2, vec![5, 5]);

    graph.add_operation((), LazyOp::ExpectEq { id: 3, expected: vec![] });
    graph.add_operation((), LazyOp::AddScalar { out_id: 1, in_id: 2, value: 1 });

    assert_eq!(graph.call_lazily(&mut pool), Err(DeviceError::InvalidLazyBuf));
    // the failing operation stopped the run: the second one never executed
    assert_eq!(pool.get(&1).unwrap().as_slice(), &[0, 0]);
}

#[test]
fn test_call_range_drains_executed_window() {
    let mut graph = LazyGraph::new();
    let mut pool: HashMap<u64, Vec<i32>> = HashMap::new();
    pool.insert(1, vec![0, 0]);
    pool.insert(2, vec![3, 4]);

    graph.add_operation((), LazyOp::Noop);
    graph.add_operation((), LazyOp::AddScalar { out_id: 1, in_id: 2, value: 1 });
    graph.add_operation((), LazyOp::Noop);

    graph.call_range(1, 2, &mut pool).unwrap();

    assert_eq!(graph.operations.len(), 2);
    assert_eq!(pool.get(&1).unwrap().as_slice(), &[4, 5]);
}

#[test]
fn test_iter_with_keeps_going_past_failures() {
    let mut graph = LazyGraph::new();
    let mut pool: HashMap<u64, Vec<i32>> = HashMap::new();
    pool.insert(1, vec![1, 1]);

    graph.add_operation((), LazyOp::ExpectEq { id: 1, expected: vec![2, 2] });
    graph.add_operation((), LazyOp::ExpectEq { id: 1, expected: vec![1, 1] });

    let results = graph.iter_with(&mut pool);
    assert_eq!(results, vec![Err(DeviceError::DataMismatch), Ok(())]);
}

#[test]
fn test_lazy_module_records_and_runs() {
    let mut device = CPU::<Lazy<Base>>::new();
    let buf: Buffer<i32> = device.retrieve(4, ());
    let out: Buffer<i32> = device.retrieve(4, ());

    device.modules.add_operation(
        (&buf, &out),
        LazyOp::AddScalar { out_id: out.id().id, in_id: buf.id().id, value: 2 },
    );

    device.run().unwrap();
    assert_eq!(device.modules.graph.operations.len(), 0);
    assert_eq!(device.modules.outs.get(&out.id().id).unwrap().as_slice(), &[2, 2, 2, 2]);
}

#[test]
fn test_lazy_module_detects_dropped_buffer() {
    let mut device = CPU::<Lazy<Base>>::new();
    let buf: Buffer<i32> = device.retrieve(4, ());
    let out: Buffer<i32> = device.retrieve(4, ());

    device.modules.add_operation(
        (&buf, &out),
        LazyOp::AddScalar { out_id: out.id().id, in_id: buf.id().id, value: 2 },
    );

    // dropping a recorded buffer before the replay must fail the run with
    // the stale-reference error, never touch freed storage
    device.on_drop_buffer(buf);
    assert_eq!(device.run(), Err(DeviceError::InvalidLazyBuf));
}

#[test]
fn test_clear_discards_recorded_operations() {
    let mut graph = LazyGraph::new();
    graph.add_operation((), LazyOp::Noop);
    graph.add_operation((), LazyOp::Noop);
    graph.clear();
    assert_eq!(graph.operations.len(), 0);
}
