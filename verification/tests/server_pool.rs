use fetcher::pool::{Reply, ServerPool, REQUEST_PER_SERVER};
use fetcher::ReturnAction;

fn pool_of(n: usize) -> ServerPool {
    ServerPool::new((0..n).map(|i| format!("https://server{}.example/api/v1", i)).collect())
}

#[test]
fn a_new_pool_starts_at_the_first_server() {
    let pool = pool_of(3);
    assert_eq!(pool.active_index(), 0);
    assert_eq!(pool.requests_sent(), 0);
    assert_eq!(pool.url("/trending"), "https://server0.example/api/v1/trending");
}

#[test]
fn change_server_goes_round() {
    let mut pool = pool_of(3);
    pool.change_server();
    assert_eq!(pool.active_index(), 1);
    assert_eq!(pool.url("/x"), "https://server1.example/api/v1/x");
    pool.change_server();
    assert_eq!(pool.active_index(), 2);
    pool.change_server();
    assert_eq!(pool.active_index(), 0);
}

#[test]
fn change_server_on_a_single_server_stays() {
    let mut pool = pool_of(1);
    pool.change_server();
    assert_eq!(pool.active_index(), 0);
    pool.change_server();
    assert_eq!(pool.active_index(), 0);
}

#[test]
fn the_threshold_is_ten() {
    assert_eq!(REQUEST_PER_SERVER, 10);
}

#[test]
fn verdicts() {
    let mut pool = pool_of(2);
    assert_eq!(pool.settle(Reply::Body(7u8), 1), Ok(7));
    assert_eq!(pool.settle(Reply::<u8>::Malformed, 1), Err(ReturnAction::Failed));
    assert_eq!(pool.settle(Reply::<u8>::Malformed, 0), Err(ReturnAction::Failed));
    assert_eq!(pool.settle(Reply::<u8>::Unreachable, 1), Err(ReturnAction::Retry));
    assert_eq!(pool.settle(Reply::<u8>::Unreachable, 2), Err(ReturnAction::Retry));
    assert_eq!(pool.settle(Reply::<u8>::Unreachable, 0), Err(ReturnAction::Failed));
    assert_eq!(pool.settle(Reply::<u8>::Unreachable, -1), Err(ReturnAction::Failed));
    assert_eq!(pool.requests_sent(), 7);
}

#[test]
fn rotation_after_one_request_more_than_the_threshold() {
    let mut pool = pool_of(3);
    for sent in 1..=REQUEST_PER_SERVER {
        assert_eq!(pool.settle(Reply::Body(()), 1), Ok(()));
        assert_eq!(pool.requests_sent(), sent);
        assert_eq!(pool.active_index(), 0);
    }
    assert_eq!(pool.settle(Reply::Body(()), 1), Ok(()));
    assert_eq!(pool.requests_sent(), REQUEST_PER_SERVER + 1);
    assert_eq!(pool.active_index(), 1);
}

#[test]
fn rotation_after_the_threshold_whatever_came_back() {
    let mut pool = pool_of(2);
    for i in 0..=REQUEST_PER_SERVER {
        if i % 2 == 0 {
            assert_eq!(pool.settle(Reply::<u8>::Malformed, 1), Err(ReturnAction::Failed));
        } else {
            assert_eq!(pool.settle(Reply::<u8>::Unreachable, 0), Err(ReturnAction::Failed));
        }
    }
    assert_eq!(pool.active_index(), 1);
}

#[test]
fn past_the_threshold_every_request_rotates() {
    let mut pool = pool_of(5);
    for _ in 0..=REQUEST_PER_SERVER {
        let _ = pool.settle(Reply::Body(()), 1);
    }
    assert_eq!(pool.active_index(), 1);
    let _ = pool.settle(Reply::Body(()), 1);
    assert_eq!(pool.active_index(), 2);
    let _ = pool.settle(Reply::<()>::Malformed, 1);
    assert_eq!(pool.active_index(), 3);
    assert_eq!(pool.requests_sent(), 13);
}

#[test]
fn failover_advances_by_one() {
    let mut pool = pool_of(3);
    assert_eq!(pool.settle(Reply::<u8>::Unreachable, 1), Err(ReturnAction::Retry));
    assert_eq!(pool.active_index(), 1);
    assert_eq!(pool.settle(Reply::<u8>::Unreachable, 1), Err(ReturnAction::Retry));
    assert_eq!(pool.active_index(), 2);
    assert_eq!(pool.settle(Reply::<u8>::Unreachable, 1), Err(ReturnAction::Retry));
    assert_eq!(pool.active_index(), 0);
}

#[test]
fn no_failover_without_a_budget() {
    let mut pool = pool_of(3);
    assert_eq!(pool.settle(Reply::<u8>::Unreachable, 0), Err(ReturnAction::Failed));
    assert_eq!(pool.active_index(), 0);
    assert_eq!(pool.settle(Reply::<u8>::Malformed, 5), Err(ReturnAction::Failed));
    assert_eq!(pool.active_index(), 0);
}

#[test]
fn failover_past_the_threshold_advances_by_two() {
    let mut pool = pool_of(5);
    for _ in 0..REQUEST_PER_SERVER {
        let _ = pool.settle(Reply::Body(()), 1);
    }
    assert_eq!(pool.active_index(), 0);
    assert_eq!(pool.settle(Reply::<()>::Unreachable, 1), Err(ReturnAction::Retry));
    assert_eq!(pool.active_index(), 2);
}

#[test]
fn eleven_failovers_advance_by_twelve() {
    let mut pool = pool_of(100);
    for _ in 0..=REQUEST_PER_SERVER {
        assert_eq!(pool.settle(Reply::<()>::Unreachable, 1), Err(ReturnAction::Retry));
    }
    assert_eq!(pool.active_index(), 12);
}
