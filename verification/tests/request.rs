use mpi_request::{
    check_wait_any, raw_handles, wait_any, Action, AsyncRequest, Handle, LocalScope, Request,
    StaticScope, Status,
    Violation,
};

fn handle(raw: u64) -> Handle {
    Handle { raw }
}

fn status(size: u64, source: i32, tag: i32) -> Status {
    Status { size, source: Some(source), tag: Some(tag), error: 0 }
}

#[test]
fn from_raw_registers_and_keeps_the_handle() {
    let mut s = LocalScope::new();
    let r = Request::from_raw(handle(17), &mut s);
    assert_eq!(s.num_requests(), 1);
    assert_eq!(r.as_raw(), handle(17));
    assert_eq!(r.into_raw(&mut s), handle(17));
}

#[test]
fn wait_completes_and_balances_the_scope() {
    let mut s = LocalScope::new();
    let r = Request::from_raw(handle(1), &mut s);
    let got = r.wait(&mut s, status(8, 3, 5));
    assert_eq!(got, status(8, 3, 5));
    assert_eq!(s.num_requests(), 0);
    assert_eq!(s.on_drop(), Vec::<Action>::new());
}

#[test]
fn wait_without_status_completes_and_balances_the_scope() {
    let mut s = LocalScope::new();
    let r = Request::from_raw(handle(1), &mut s);
    r.wait_without_status(&mut s);
    assert_eq!(s.num_requests(), 0);
}

#[test]
fn into_raw_unregisters_and_hands_out_the_handle() {
    let mut s = LocalScope::new();
    let keep = Request::from_raw(handle(1), &mut s);
    let r = Request::from_raw(handle(2), &mut s);
    assert_eq!(s.num_requests(), 2);
    assert_eq!(r.into_raw(&mut s), handle(2));
    assert_eq!(s.num_requests(), 1);
    keep.wait_without_status(&mut s);
    assert_eq!(s.num_requests(), 0);
}

#[test]
fn test_of_a_finished_operation_completes() {
    let mut s = LocalScope::new();
    let r = Request::from_raw(handle(4), &mut s);
    match r.test(&mut s, Some(status(16, 0, 9))) {
        Ok(got) => assert_eq!(got, status(16, 0, 9)),
        Err(_) => panic!("the operation had finished"),
    }
    assert_eq!(s.num_requests(), 0);
}

#[test]
fn test_of_an_unfinished_operation_gives_the_request_back() {
    let mut s = LocalScope::new();
    let r = Request::from_raw(handle(4), &mut s);
    let r = match r.test(&mut s, None) {
        Ok(_) => panic!("the operation had not finished"),
        Err(r) => r,
    };
    assert_eq!(r.as_raw(), handle(4));
    assert_eq!(s.num_requests(), 1);
    let r = match r.test(&mut s, None) {
        Ok(_) => panic!("the operation had not finished"),
        Err(r) => r,
    };
    assert_eq!(s.num_requests(), 1);
    assert!(r.test(&mut s, Some(status(1, 1, 1))).is_ok());
    assert_eq!(s.num_requests(), 0);
}

#[test]
fn cancel_names_the_handle_and_completes_nothing() {
    let mut s = LocalScope::new();
    let r = Request::from_raw(handle(6), &mut s);
    assert_eq!(r.cancel(), Action::Cancel(handle(6)));
    assert_eq!(r.cancel(), Action::Cancel(handle(6)));
    assert_eq!(s.num_requests(), 1);
    assert_eq!(r.as_raw(), handle(6));
    r.wait_without_status(&mut s);
    assert_eq!(s.num_requests(), 0);
}

#[test]
fn shrink_scope_to_moves_the_registration() {
    let mut outer = LocalScope::new();
    let mut inner = LocalScope::new();
    let r = Request::from_raw(handle(8), &mut outer);
    let r = r.shrink_scope_to(&mut outer, &mut inner);
    assert_eq!(outer.num_requests(), 0);
    assert_eq!(inner.num_requests(), 1);
    assert_eq!(r.as_raw(), handle(8));
    r.wait_without_status(&mut inner);
    assert_eq!(inner.num_requests(), 0);
}

#[test]
fn shrink_scope_from_static_to_local() {
    let mut outer = StaticScope;
    let mut inner = LocalScope::new();
    let r = Request::from_raw(handle(8), &mut outer);
    let r = r.shrink_scope_to(&mut outer, &mut inner);
    assert_eq!(inner.num_requests(), 1);
    assert_eq!(r.into_raw(&mut inner), handle(8));
    assert_eq!(inner.num_requests(), 0);
}

#[test]
fn dropping_a_fresh_request_is_a_violation() {
    let mut s = LocalScope::new();
    let r = Request::from_raw(handle(3), &mut s);
    assert_eq!(r.on_drop(), vec![Action::Panic(Violation::RequestDropped)]);
    assert_eq!(s.num_requests(), 1);
    assert_eq!(s.on_drop(), vec![Action::Abort]);
}

#[test]
fn dropping_a_request_of_the_static_scope_is_a_violation() {
    let mut s = StaticScope;
    let r = Request::from_raw(handle(3), &mut s);
    assert_eq!(r.on_drop(), vec![Action::Panic(Violation::RequestDropped)]);
}

#[test]
fn raw_handles_keeps_the_order() {
    let mut s = StaticScope;
    let requests = vec![
        Request::from_raw(handle(30), &mut s),
        Request::from_raw(handle(10), &mut s),
        Request::from_raw(handle(20), &mut s),
    ];
    assert_eq!(raw_handles(&requests), vec![handle(30), handle(10), handle(20)]);
    for r in requests {
        r.wait_without_status(&mut s);
    }
}

#[test]
fn raw_handles_of_nothing_is_empty() {
    let requests: Vec<Request<StaticScope>> = Vec::new();
    assert_eq!(raw_handles(&requests), Vec::<Handle>::new());
}

#[test]
fn wait_any_over_nothing_is_none() {
    let mut s = LocalScope::new();
    let mut requests: Vec<Request<LocalScope>> = Vec::new();
    assert_eq!(wait_any(&mut requests, &mut s, None), None);
    assert!(requests.is_empty());
    assert_eq!(s.num_requests(), 0);
}

#[test]
fn wait_any_over_one_request_completes_it() {
    let mut s = LocalScope::new();
    let mut requests = vec![Request::from_raw(handle(5), &mut s)];
    assert_eq!(s.num_requests(), 1);
    let got = wait_any(&mut requests, &mut s, Some((0, status(2, 1, 0))));
    assert_eq!(got, Some((0, status(2, 1, 0))));
    assert_eq!(requests.len(), 0);
    assert_eq!(s.num_requests(), 0);
}

#[test]
fn wait_any_removes_the_completed_request_and_keeps_the_order() {
    let mut s = LocalScope::new();
    let mut requests = vec![
        Request::from_raw(handle(1), &mut s),
        Request::from_raw(handle(2), &mut s),
        Request::from_raw(handle(3), &mut s),
        Request::from_raw(handle(4), &mut s),
    ];
    let got = wait_any(&mut requests, &mut s, Some((1, status(9, 0, 0))));
    assert_eq!(got, Some((1, status(9, 0, 0))));
    assert_eq!(raw_handles(&requests), vec![handle(1), handle(3), handle(4)]);
    assert_eq!(s.num_requests(), 3);

    let got = wait_any(&mut requests, &mut s, Some((2, status(7, 0, 0))));
    assert_eq!(got, Some((2, status(7, 0, 0))));
    assert_eq!(raw_handles(&requests), vec![handle(1), handle(3)]);

    let got = wait_any(&mut requests, &mut s, Some((0, status(5, 0, 0))));
    assert_eq!(got, Some((0, status(5, 0, 0))));
    assert_eq!(raw_handles(&requests), vec![handle(3)]);

    let got = wait_any(&mut requests, &mut s, Some((0, status(3, 0, 0))));
    assert_eq!(got, Some((0, status(3, 0, 0))));
    assert!(requests.is_empty());
    assert_eq!(s.num_requests(), 0);
    assert_eq!(wait_any(&mut requests, &mut s, None), None);
}

#[test]
fn wait_any_unregisters_from_the_scope_that_is_named() {
    let mut first = LocalScope::new();
    let mut second = LocalScope::new();
    let mut requests = vec![
        Request::from_raw(handle(1), &mut first),
        Request::from_raw(handle(2), &mut second),
    ];
    let got = wait_any(&mut requests, &mut second, Some((1, status(1, 0, 0))));
    assert_eq!(got, Some((1, status(1, 0, 0))));
    assert_eq!(first.num_requests(), 1);
    assert_eq!(second.num_requests(), 0);
    let got = wait_any(&mut requests, &mut first, Some((0, status(1, 0, 0))));
    assert_eq!(got, Some((0, status(1, 0, 0))));
    assert_eq!(first.num_requests(), 0);
}

#[test]
fn status_is_handed_on_untouched() {
    let mut s = StaticScope;
    let odd = Status { size: u64::MAX, source: None, tag: Some(-4), error: 77 };
    let r = Request::from_raw(handle(0), &mut s);
    assert_eq!(r.wait(&mut s, odd), odd);
}

#[test]
fn empty_status_has_no_parts() {
    assert_eq!(Status::empty(), Status { size: 0, source: None, tag: None, error: 0 });
}

#[test]
fn check_wait_any_takes_an_index_in_range() {
    let mut s = StaticScope;
    let requests =
        vec![Request::from_raw(handle(1), &mut s), Request::from_raw(handle(2), &mut s)];
    assert!(check_wait_any(&requests, &Some((0, status(1, 0, 0)))));
    assert!(check_wait_any(&requests, &Some((1, status(1, 0, 0)))));
    for r in requests {
        r.wait_without_status(&mut s);
    }
}

#[test]
fn check_wait_any_refuses_an_index_out_of_range() {
    let mut s = StaticScope;
    let requests =
        vec![Request::from_raw(handle(1), &mut s), Request::from_raw(handle(2), &mut s)];
    assert!(!check_wait_any(&requests, &Some((2, status(1, 0, 0)))));
    assert!(!check_wait_any(&requests, &Some((-1, status(1, 0, 0)))));
    assert!(!check_wait_any(&requests, &Some((i32::MAX, status(1, 0, 0)))));
    assert!(!check_wait_any(&requests, &Some((i32::MIN, status(1, 0, 0)))));
    for r in requests {
        r.wait_without_status(&mut s);
    }
}

#[test]
fn check_wait_any_takes_no_index_only_for_no_requests() {
    let mut s = StaticScope;
    let none: Vec<Request<StaticScope>> = Vec::new();
    assert!(check_wait_any(&none, &None));
    assert!(!check_wait_any(&none, &Some((0, status(1, 0, 0)))));
    let one = vec![Request::from_raw(handle(1), &mut s)];
    assert!(!check_wait_any(&one, &None));
    for r in one {
        r.wait_without_status(&mut s);
    }
}
