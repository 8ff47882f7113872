use wasm_async_engine::Reactor;

fn ready_flags(handles: &[&bool]) -> Vec<u32> {
    let mut ready = Vec::new();
    for (index, handle) in handles.iter().enumerate() {
        if **handle {
            ready.push(index as u32);
        }
    }
    ready
}

#[test]
fn poll_hands_back_the_ready_indices() {
    let (a, b, c, d) = (false, true, false, true);
    assert_eq!(Reactor::poll(ready_flags, &[&a, &b, &c, &d]), vec![1, 3]);
    assert_eq!(Reactor::poll(ready_flags, &[&b]), vec![0]);
}

#[test]
fn poll_does_not_touch_the_answer() {
    let handles = [&1u8, &2u8];
    let answer = Reactor::poll(|_polls: &[&u8]| vec![5, 5, 0], &handles);
    assert_eq!(answer, vec![5, 5, 0]);
    let nothing: Vec<u32> = Reactor::poll(|_polls: &[&u8]| Vec::new(), &handles);
    assert_eq!(nothing, Vec::<u32>::new());
}

#[test]
fn poll_passes_the_handles_in_order() {
    let handles = [&30u32, &10u32, &20u32];
    let seen = Reactor::poll(|polls: &[&u32]| polls.iter().map(|handle| **handle).collect(), &handles);
    assert_eq!(seen, vec![30, 10, 20]);
    let none: [&u32; 0] = [];
    assert_eq!(Reactor::poll(|polls: &[&u32]| vec![polls.len() as u32], &none), vec![0]);
}

#[test]
fn reactor_copies_are_interchangeable() {
    let reactor = Reactor;
    let copy = reactor.clone();
    let flag = true;
    let _ = (reactor, copy);
    assert_eq!(Reactor::poll(ready_flags, &[&flag]), vec![0]);
}
