//! The pool of interchangeable servers, the rule by which it moves from one
//! server to the next, and the verdict on what came back from a request.

use vstd::prelude::*;
use vstd::arithmetic::div_mod::{lemma_add_mod_noop, lemma_small_mod};
use crate::outcome::ReturnAction;

verus! {

/// How many requests go out before the pool starts to move on by itself.
pub const REQUEST_PER_SERVER: u64 = 10;

/// What the transport brought back for one request.
pub enum Reply<T> {
    /// A body that decoded into the expected shape.
    Body(T),
    /// A body that did not decode into the expected shape.
    Malformed,
    /// No answer: the connection was refused, timed out or never began.
    Unreachable,
}

/// The pool as a value: the servers' base addresses in order, the position
/// of the active one, and how many requests have been sent.
pub struct PoolView {
    pub servers: Seq<Seq<char>>,
    pub active: int,
    pub requests: nat,
}

/// The request count after one more request. It only ever grows, and stays
/// where it is once no larger count can be held.
pub open spec fn next_count(requests: nat) -> nat {
    if requests < u64::MAX {
        requests + 1
    } else {
        requests
    }
}

/// Whether a request that ended in `reply`, made with the retry budget
/// `retry_for`, makes the pool move on at once: the transport failed and
/// the budget is not used up.
pub open spec fn fails_over<T>(reply: Reply<T>, retry_for: i32) -> bool {
    reply is Unreachable && retry_for > 0
}

/// The verdict on `reply`: the body where one came and decoded, `Retry` for
/// a transport failure within the budget, and `Failed` for a transport
/// failure beyond it or a body that did not decode.
pub open spec fn verdict<T>(reply: Reply<T>, retry_for: i32) -> Result<T, ReturnAction> {
    match reply {
        Reply::Body(body) => Ok(body),
        Reply::Malformed => Err(ReturnAction::Failed),
        Reply::Unreachable => if retry_for > 0 {
            Err(ReturnAction::Retry)
        } else {
            Err(ReturnAction::Failed)
        },
    }
}

/// The views of a list of texts.
pub open spec fn texts(list: Seq<String>) -> Seq<Seq<char>> {
    list.map_values(|s: String| s@)
}

impl PoolView {
    /// There is an active server.
    pub open spec fn wf(self) -> bool {
        0 <= self.active < self.servers.len()
    }

    /// The pool with the next server active, the first one after the last.
    pub open spec fn rotate(self) -> PoolView {
        PoolView { active: (self.active + 1) % (self.servers.len() as int), ..self }
    }

    /// The pool with the server `steps` places on active, going round.
    pub open spec fn advance(self, steps: nat) -> PoolView {
        PoolView { active: (self.active + steps) % (self.servers.len() as int), ..self }
    }

    /// The address to request `path` at: the active server's base and `path`.
    pub open spec fn url(self, path: Seq<char>) -> Seq<char> {
        self.servers[self.active] + path
    }

    /// The pool after one request. The request is counted; once the count is
    /// over the threshold the pool moves on, whatever came back; and it moves
    /// on once more where the request fails over.
    pub open spec fn after_request(self, failover: bool) -> PoolView {
        let counted = PoolView { requests: next_count(self.requests), ..self };
        let cycled = if counted.requests > REQUEST_PER_SERVER {
            counted.rotate()
        } else {
            counted
        };
        if failover {
            cycled.rotate()
        } else {
            cycled
        }
    }

    /// The pool after a run of requests, `failovers[i]` saying whether the
    /// request `i` failed over.
    pub open spec fn after_requests(self, failovers: Seq<bool>) -> PoolView
        decreases failovers.len(),
    {
        if failovers.len() == 0 {
            self
        } else {
            self.after_requests(failovers.drop_last()).after_request(failovers.last())
        }
    }
}

/// How many of `flags` are set.
pub open spec fn count_set(flags: Seq<bool>) -> nat
    decreases flags.len(),
{
    if flags.len() == 0 {
        0
    } else {
        count_set(flags.drop_last()) + if flags.last() {
            1nat
        } else {
            0nat
        }
    }
}

/// How often the threshold alone has made the pool move on after `n`
/// requests counted from zero: once for each request after the tenth.
pub open spec fn scheduled_rotations(n: nat) -> nat {
    if n > REQUEST_PER_SERVER {
        (n - REQUEST_PER_SERVER) as nat
    } else {
        0
    }
}

/// Moving on once after `steps` places is `steps + 1` places.
pub proof fn lemma_advance_rotate(pool: PoolView, steps: nat)
    requires
        pool.wf(),
    ensures
        pool.advance(steps).rotate() == pool.advance(steps + 1),
        pool.advance(0) == pool,
        pool.advance(steps).wf(),
{
    let n = pool.servers.len() as int;
    lemma_add_mod_noop(pool.active + steps, 1, n);
    if n > 1 {
        lemma_small_mod(1, n as nat);
    }
    lemma_small_mod(pool.active as nat, n as nat);
}

/// One request keeps the pool well formed and moves it on by one place for
/// the threshold, where it is passed, and by one more for a failover.
pub proof fn lemma_after_request(pool: PoolView, failover: bool)
    requires
        pool.wf(),
    ensures
        pool.after_request(failover).wf(),
        pool.after_request(failover).servers == pool.servers,
        pool.after_request(failover).requests == next_count(pool.requests),
        pool.after_request(true) == pool.after_request(false).rotate(),
        pool.after_request(failover).active == pool.advance(
            (if next_count(pool.requests) > REQUEST_PER_SERVER {
                1nat
            } else {
                0nat
            }) + (if failover {
                1nat
            } else {
                0nat
            }),
        ).active,
{
    let counted = PoolView { requests: next_count(pool.requests), ..pool };
    lemma_advance_rotate(counted, 0);
    lemma_advance_rotate(counted, 1);
    lemma_advance_rotate(pool, 0);
}

/// Where the pool stands after a run of requests that began with the count
/// at zero: it has moved on once for each request after the tenth and once
/// for each failover, and by nothing else.
pub proof fn lemma_position_after_requests(pool: PoolView, failovers: Seq<bool>)
    requires
        pool.wf(),
        pool.requests == 0,
        failovers.len() <= u64::MAX,
    ensures
        pool.after_requests(failovers).wf(),
        pool.after_requests(failovers).servers == pool.servers,
        pool.after_requests(failovers).requests == failovers.len(),
        pool.after_requests(failovers) == (PoolView {
            requests: failovers.len(),
            ..pool.advance(scheduled_rotations(failovers.len()) + count_set(failovers))
        }),
    decreases failovers.len(),
{
    if failovers.len() == 0 {
        lemma_advance_rotate(pool, 0);
    } else {
        let before = failovers.drop_last();
        lemma_position_after_requests(pool, before);
        let mid = pool.after_requests(before);
        let steps = scheduled_rotations(before.len()) + count_set(before);
        let counted = PoolView { requests: next_count(mid.requests), ..mid };
        let base = PoolView { requests: counted.requests, ..pool };
        lemma_advance_rotate(base, steps);
        lemma_advance_rotate(base, steps + 1);
    }
}

/// The pool rotates after the threshold: after exactly one request more
/// than the threshold, none of which failed over, the active server is the
/// one after the server that was active at the beginning. With two servers
/// or more that is another server.
pub proof fn lemma_rotation_after_threshold(pool: PoolView, failovers: Seq<bool>)
    requires
        pool.wf(),
        pool.requests == 0,
        failovers.len() == REQUEST_PER_SERVER + 1,
        forall|i: int| 0 <= i < failovers.len() ==> !failovers[i],
    ensures
        pool.after_requests(failovers).active == (pool.active + 1) % (pool.servers.len() as int),
        pool.servers.len() >= 2 ==> pool.after_requests(failovers).active != pool.active,
{
    lemma_position_after_requests(pool, failovers);
    lemma_count_set_none(failovers);
    let n = pool.servers.len() as int;
    if n >= 2 {
        if pool.active + 1 < n {
            lemma_small_mod((pool.active + 1) as nat, n as nat);
        } else {
            assert(n % n == 0) by {
                vstd::arithmetic::div_mod::lemma_mod_self_0(n);
            }
        }
    }
}

/// No flag set, none counted.
proof fn lemma_count_set_none(flags: Seq<bool>)
    requires
        forall|i: int| 0 <= i < flags.len() ==> !flags[i],
    ensures
        count_set(flags) == 0,
    decreases flags.len(),
{
    if flags.len() > 0 {
        lemma_count_set_none(flags.drop_last());
    }
}

/// A transport failure within the retry budget is reported as `Retry`, and
/// the pool moves on by exactly one server more than it would have without
/// the failure. Below the threshold that is one server in all.
pub proof fn lemma_failover_advances<T>(pool: PoolView, reply: Reply<T>, retry_for: i32)
    requires
        pool.wf(),
        reply is Unreachable,
        retry_for > 0,
    ensures
        fails_over(reply, retry_for),
        verdict(reply, retry_for) == Err::<T, ReturnAction>(ReturnAction::Retry),
        pool.after_request(true) == pool.after_request(false).rotate(),
        pool.requests < REQUEST_PER_SERVER ==> pool.after_request(true).active == (pool.active
            + 1) % (pool.servers.len() as int),
{
    lemma_after_request(pool, true);
}

/// The servers, the one that is active, and the count of requests sent.
pub struct ServerPool {
    servers: Vec<String>,
    active_server_index: usize,
    request_sent: u64,
}

impl View for ServerPool {
    type V = PoolView;

    closed spec fn view(&self) -> PoolView {
        PoolView {
            servers: texts(self.servers@),
            active: self.active_server_index as int,
            requests: self.request_sent as nat,
        }
    }
}

impl ServerPool {
    /// What holds of every pool: one of its servers is the active one.
    #[verifier::type_invariant]
    spec fn inv(self) -> bool {
        self.active_server_index < self.servers.len()
    }

    /// A pool over `server_list`, the first server active and no request
    /// sent yet.
    pub fn new(server_list: Vec<String>) -> (pool: Self)
        requires
            server_list.len() > 0,
        ensures
            pool@ == (PoolView { servers: texts(server_list@), active: 0, requests: 0 }),
            pool@.wf(),
    {
        ServerPool { servers: server_list, active_server_index: 0, request_sent: 0 }
    }

    /// Makes the next server the active one, the first after the last.
    pub fn change_server(&mut self)
        ensures
            final(self)@ == old(self)@.rotate(),
            final(self)@.wf(),
    {
        proof {
            use_type_invariant(&*self);
        }
        let n = self.servers.len();
        let next = if self.active_server_index + 1 == n {
            0
        } else {
            self.active_server_index + 1
        };
        proof {
            let a = self.active_server_index as int;
            if a + 1 == n {
                vstd::arithmetic::div_mod::lemma_mod_self_0(n as int);
            } else {
                lemma_small_mod((a + 1) as nat, n as nat);
            }
        }
        self.active_server_index = next;
    }

    /// The position of the active server.
    pub fn active_index(&self) -> (i: usize)
        ensures
            i == self@.active,
            self@.wf(),
    {
        proof {
            use_type_invariant(self);
        }
        self.active_server_index
    }

    /// How many requests have been counted.
    pub fn requests_sent(&self) -> (n: u64)
        ensures
            n == self@.requests,
    {
        self.request_sent
    }

    /// The full address of `path` on the active server.
    pub fn url(&self, path: &str) -> (address: String)
        ensures
            address@ == self@.url(path@),
    {
        proof {
            use_type_invariant(self);
        }
        let mut address = self.servers[self.active_server_index].clone();
        address.append(path);
        address
    }

    /// Settles one request that has been sent: counts it, moves the pool on
    /// where the threshold or a failover asks for it, and gives the verdict
    /// on what came back.
    pub fn settle<T>(&mut self, reply: Reply<T>, retry_for: i32) -> (r: Result<T, ReturnAction>)
        ensures
            final(self)@ == old(self)@.after_request(fails_over(reply, retry_for)),
            final(self)@.wf(),
            r == verdict(reply, retry_for),
    {
        proof {
            use_type_invariant(&*self);
            lemma_after_request(self@, fails_over(reply, retry_for));
        }
        if self.request_sent < u64::MAX {
            self.request_sent = self.request_sent + 1;
        }
        if self.request_sent > REQUEST_PER_SERVER {
            self.change_server();
        }
        match reply {
            Reply::Body(body) => Ok(body),
            Reply::Malformed => Err(ReturnAction::Failed),
            Reply::Unreachable => {
                if retry_for > 0 {
                    self.change_server();
                    Err(ReturnAction::Retry)
                } else {
                    Err(ReturnAction::Failed)
                }
            },
        }
    }
}

} // verus!
