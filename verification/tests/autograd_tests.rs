use custos::buffer::Buffer;
use custos::devices::Retriever;
use custos::devices::CPU;
use custos::features::TapeActions;
use custos::gradients::CachingError;
use custos::gradients::Gradients;
use custos::id::Id;
use custos::modules::Autograd;
use custos::modules::Base;
use custos::tape::GradFn;
use custos::tape::Tape;

#[test]
fn test_same_types_get_double_return() {
    let mut device = CPU::<Autograd<Base>>::new();

    let buf = Buffer::<i32>::new(&mut device, 10);

    let _out: Buffer<i32> = device.retrieve(buf.len(), ());
}

#[test]
fn test_gradient_access_idempotent() {
    let mut grads = Gradients::new();
    let id = Id { id: 3, len: 4 };

    let first = grads.get_mut(id);
    assert_eq!(first.as_slice(), &[0, 0, 0, 0]);

    grads.grads_pool.accumulate(id, &[1, 2, 3, 4]);

    let second = grads.get_mut(id);
    let third = grads.get_mut(id);
    // repeated access returns the same buffer with its contents intact
    assert_eq!(second, third);
    assert_eq!(second.as_slice(), &[1, 2, 3, 4]);
}

#[test]
fn test_may_get_ref_invalid_id() {
    let grads = Gradients::new();
    assert_eq!(grads.may_get_ref(Id { id: 9, len: 2 }).err(), Some(CachingError::InvalidId));
}

#[test]
fn test_zero_grad_clears_gradients() {
    let mut grads = Gradients::new();
    let id = Id { id: 0, len: 2 };
    grads.grads_pool.accumulate(id, &[5, 5]);
    grads.zero_grad();
    assert!(grads.may_get_ref(id).is_err());
}

#[test]
fn test_backward_reverse_order() {
    let mut tape = Tape::new();
    let mut grads = Gradients::new();

    tape.add_grad_fn(GradFn::Mark { tag: 1 });
    tape.add_grad_fn(GradFn::Mark { tag: 2 });
    tape.add_grad_fn(GradFn::Mark { tag: 3 });

    let log = tape.backward(&mut grads, false);
    assert_eq!(log, vec![3, 2, 1]);
    assert_eq!(tape.grad_fns.len(), 0);
}

#[test]
fn test_backward_accumulates_exactly_once() {
    let mut tape = Tape::new();
    let mut grads = Gradients::new();
    let id = Id { id: 5, len: 3 };

    tape.add_grad_fn(GradFn::AddToGrad { id, delta: vec![1, 2, 3] });
    tape.add_grad_fn(GradFn::AddToGrad { id, delta: vec![10, 10, 10] });

    let log = tape.backward(&mut grads, false);
    assert_eq!(log, Vec::<u64>::new());
    assert_eq!(grads.get_ref(id).as_slice(), &[11, 12, 13]);
}

#[test]
fn test_backward_seeded_with_buffers() {
    let mut device = CPU::<Autograd<Base>>::new();
    let buf = Buffer::<i32>::new(&mut device, 3);

    let mut tape = Tape::new();
    let mut grads = Gradients::new();
    tape.add_grad_fn(GradFn::AddToGrad { id: buf.id(), delta: vec![1, 1, 1] });

    let log = tape.backward_seeded_with_buffers(&buf, &[2, 2, 2], &mut grads);
    assert_eq!(log, Vec::<u64>::new());
    assert_eq!(grads.get_ref(buf.id()).as_slice(), &[3, 3, 3]);
}

#[test]
fn test_buffer_backward_seeds_ones() {
    let mut device = CPU::<Autograd<Base>>::new();
    let buf = Buffer::<i32>::new(&mut device, 4);

    let mut tape = Tape::new();
    let mut grads = Gradients::new();
    let log = buf.backward(&mut tape, &mut grads);

    assert_eq!(log, Vec::<u64>::new());
    assert_eq!(buf.grad(&mut grads).as_slice(), &[1, 1, 1, 1]);
}

#[test]
fn test_try_grad_absent_and_present() {
    let mut device = CPU::<Autograd<Base>>::new();
    let buf = Buffer::<i32>::new(&mut device, 2);

    let mut grads = Gradients::new();
    assert!(buf.try_grad(&grads).is_none());

    let _ = buf.grad(&mut grads);
    assert_eq!(buf.try_grad(&grads).unwrap().as_slice(), &[0, 0]);
    assert_eq!(buf.try_grad_mut(&mut grads).unwrap().as_slice(), &[0, 0]);
}

#[test]
fn test_tape_actions_capability() {
    let mut with_tape = CPU::<Autograd<Base>>::new();
    assert!(with_tape.tape().is_some());
    with_tape.add_grad_fn(GradFn::Mark { tag: 7 });
    assert_eq!(with_tape.modules.tape.grad_fns.len(), 1);

    let mut without_tape = CPU::<Base>::new();
    assert!(without_tape.tape().is_none());
    // recording degrades to a no-op when the capability is absent
    without_tape.add_grad_fn(GradFn::Mark { tag: 7 });
}

#[test]
fn test_retrieve_registers_no_grad_pool() {
    let mut device = CPU::<Autograd<Base>>::new();
    let out: Buffer<i32> = device.retrieve(3, ());

    let registered = device.modules.grads.get_buf_from_no_grad_pool(out.id());
    assert_eq!(registered.as_slice(), &[0, 0, 0]);
}
