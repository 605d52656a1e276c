use vstd::prelude::*;

verus! {

use crate::Integer;
use crate::json::parsed_json;
use crate::primitive::view_opt_int;
use crate::update::{
    decode_update, AllowedUpdate, GetUpdates, Update, UpdateData, UpdateError,
};
use vstd::multiset::Multiset;
use vstd::seq_lib::group_to_multiset_ensures;

/// The consumer's extension point: called once for each received update.
///
/// The long poll dispatches strictly one update after the other; a handler
/// driven by it is never entered twice at once.
pub trait UpdateHandler {
    /// Handles one received update.
    fn handle(&mut self, update: Update);
}

/// A failure of the remote call: network trouble, a non-success status, or a
/// body that could not be read.
#[derive(Debug)]
pub struct TransportError {
    /// What went wrong, as text for the consumer's reporting.
    pub message: String,
}

/// The collaborator that performs the remote fetch and carries the
/// cancellation signal; the loop asks it before every cycle.
pub trait PollTransport {
    /// Issues one `getUpdates` call and returns the decoded batch.
    fn get_updates(&mut self, request: &GetUpdates) -> Result<Vec<Update>, TransportError>;

    /// Whether the consumer has asked the loop to stop.
    fn is_cancelled(&mut self) -> bool;
}

/// Configuration of the long poll, set once at loop construction.
#[derive(Clone, Debug)]
pub struct LongPollOptions {
    /// Largest number of updates one fetch may return.
    pub limit: Integer,
    /// Seconds the remote service may hold the poll open.
    pub poll_timeout: Integer,
    /// The kinds of updates asked for; absent means every kind.
    pub allowed_updates: Option<Vec<AllowedUpdate>>,
}

impl LongPollOptions {
    /// Creates options asking for every kind of update.
    pub fn new(limit: Integer, poll_timeout: Integer) -> (r: LongPollOptions)
        ensures
            r.limit == limit,
            r.poll_timeout == poll_timeout,
            r.allowed_updates is None,
    {
        LongPollOptions { limit, poll_timeout, allowed_updates: None }
    }
}

/// Views of a sequence of updates.
pub open spec fn updates_data(s: Seq<Update>) -> Seq<UpdateData> {
    Seq::new(s.len(), |i: int| s[i]@)
}

/// The largest update identifier in a non-empty batch.
pub open spec fn max_update_id(s: Seq<UpdateData>) -> int
    recommends
        s.len() > 0,
    decreases s.len(),
{
    if s.len() <= 1 {
        s[0].id
    } else {
        let m = max_update_id(s.drop_last());
        if s.last().id > m {
            s.last().id
        } else {
            m
        }
    }
}

/// The offset cursor of the long poll: absent before the first batch, and
/// past the highest delivered identifier afterwards.
#[derive(Clone, Copy, Debug)]
pub struct PollState {
    /// Identifier of the first update the next fetch asks for.
    pub next_offset: Option<Integer>,
}

impl PollState {
    /// The state before the first fetch: no offset, meaning "whatever is
    /// currently pending".
    pub fn new() -> (r: PollState)
        ensures
            r.next_offset is None,
    {
        PollState { next_offset: None }
    }

    /// Advances the cursor over one fetched batch: after a non-empty batch
    /// the offset is the largest delivered identifier plus one; an empty
    /// batch leaves it unchanged.
    pub fn apply_batch(&mut self, batch: &Vec<Update>)
        requires
            forall|i: int| 0 <= i < batch@.len() ==> (#[trigger] batch@[i]).id < i64::MAX,
        ensures
            batch@.len() == 0 ==> final(self).next_offset == old(self).next_offset,
            batch@.len() > 0 ==> (final(self).next_offset matches Some(n) && n as int
                == max_update_id(updates_data(batch@)) + 1),
    {
        if batch.len() == 0 {
            return;
        }
        let ghost bd = updates_data(batch@);
        let mut m: i64 = batch[0].id;
        let mut i: usize = 1;
        proof {
            assert(bd.take(1).drop_last() =~= bd.take(0));
            assert(m as int == max_update_id(bd.take(1)));
        }
        while i < batch.len()
            invariant
                1 <= i <= batch@.len(),
                bd == updates_data(batch@),
                bd.len() == batch@.len(),
                forall|k: int| 0 <= k < batch@.len() ==> (#[trigger] batch@[k]).id < i64::MAX,
                m as int == max_update_id(bd.take(i as int)),
                m < i64::MAX,
            decreases batch@.len() - i,
        {
            if batch[i].id > m {
                m = batch[i].id;
            }
            i = i + 1;
            proof {
                let t = bd.take(i as int);
                assert(t.drop_last() =~= bd.take(i - 1));
                assert(t.last() == bd[i - 1]);
                assert(bd[i - 1].id == batch@[i - 1].id);
            }
        }
        proof {
            assert(bd.take(batch@.len() as int) =~= bd);
        }
        self.next_offset = Some(m + 1);
    }

    /// The fetch request of the next cycle: the configured limit, timeout and
    /// kinds, with the current offset.
    pub fn next_request(&self, options: &LongPollOptions) -> (r: GetUpdates)
        ensures
            r@.offset == view_opt_int(self.next_offset),
            r@.limit == Some(options.limit as int),
            r@.timeout == Some(options.poll_timeout as int),
            r@.allowed_updates == match options.allowed_updates {
                Some(v) => Some(v@),
                None => None::<Seq<AllowedUpdate>>,
            },
    {
        let allowed: Option<Vec<AllowedUpdate>> = match &options.allowed_updates {
            Some(v) => {
                let mut copy: Vec<AllowedUpdate> = Vec::new();
                let mut i: usize = 0;
                while i < v.len()
                    invariant
                        i <= v@.len(),
                        copy@ == v@.take(i as int),
                    decreases v@.len() - i,
                {
                    copy.push(v[i]);
                    proof {
                        assert(copy@ =~= v@.take(i + 1));
                    }
                    i = i + 1;
                }
                proof {
                    assert(v@.take(v@.len() as int) =~= v@);
                }
                Some(copy)
            }
            None => None,
        };
        GetUpdates {
            offset: self.next_offset,
            limit: Some(options.limit),
            timeout: Some(options.poll_timeout),
            allowed_updates: allowed,
        }
    }
}

/// Whether the identifiers are non-decreasing from left to right.
pub open spec fn sorted_by_id(s: Seq<Update>) -> bool {
    forall|i: int, j: int| 0 <= i < j < s.len() ==> (#[trigger] s[i]).id <= (#[trigger] s[j]).id
}

/// Reorders a batch into ascending update identifier order; the result holds
/// exactly the updates of the batch.
pub fn ordered_batch(batch: Vec<Update>) -> (r: Vec<Update>)
    ensures
        sorted_by_id(r@),
        r@.to_multiset() == batch@.to_multiset(),
        r@.len() == batch@.len(),
{
    broadcast use group_to_multiset_ensures;
    broadcast use vstd::multiset::group_multiset_axioms;

    let ghost orig = batch@;
    let mut src = batch;
    let mut out: Vec<Update> = Vec::new();
    proof {
        assert(out@.to_multiset() =~= Multiset::<Update>::empty());
        assert(out@.to_multiset().add(src@.to_multiset()) =~= src@.to_multiset());
    }
    while src.len() > 0
        invariant
            out@.to_multiset().add(src@.to_multiset()) == orig.to_multiset(),
            out@.len() + src@.len() == orig.len(),
            sorted_by_id(out@),
            forall|i: int, j: int| 0 <= i < out@.len() && 0 <= j < src@.len() ==> (
            #[trigger] out@[i]).id <= (#[trigger] src@[j]).id,
        decreases src@.len(),
    {
        let mut best: usize = 0;
        let mut k: usize = 1;
        while k < src.len()
            invariant
                best < k <= src@.len(),
                src@.len() > 0,
                forall|t: int| 0 <= t < k ==> src@[best as int].id <= (#[trigger] src@[t]).id,
            decreases src@.len() - k,
        {
            if src[k].id < src[best].id {
                best = k;
            }
            k = k + 1;
        }
        let ghost src_pre = src@;
        let ghost out_pre = out@;
        let x = src.remove(best);
        let ghost xv = x;
        out.push(x);
        proof {
            assert(src@ =~= src_pre.remove(best as int));
            assert(src_pre[best as int] == xv);
            assert(src_pre.contains(xv));
            vstd::seq_lib::to_multiset_contains(src_pre, xv);
            assert(src_pre.to_multiset().count(xv) > 0);
            vstd::seq_lib::to_multiset_build(out_pre, xv);
            assert(out@.to_multiset() =~= out_pre.to_multiset().insert(xv));
            vstd::seq_lib::to_multiset_remove(src_pre, best as int);
            assert(src@.to_multiset() =~= src_pre.to_multiset().remove(xv));
            assert(out@.to_multiset().add(src@.to_multiset()) =~= out_pre.to_multiset().add(
                src_pre.to_multiset(),
            ));
            assert forall|j: int| 0 <= j < src@.len() implies xv.id <= (#[trigger] src@[j]).id by {
                if j < best {
                    assert(src@[j] == src_pre[j]);
                } else {
                    assert(src@[j] == src_pre[j + 1]);
                }
            }
            assert(sorted_by_id(out@));
        }
    }
    proof {
        assert(src@.to_multiset() =~= Multiset::<Update>::empty());
        assert(out@.to_multiset() =~= orig.to_multiset());
    }
    out
}

/// Hands one batch to the handler: the updates are dispatched in ascending
/// identifier order, one at a time, each call returning before the next
/// starts.
pub fn dispatch_batch<H: UpdateHandler>(handler: &mut H, batch: Vec<Update>) {
    let mut ordered = ordered_batch(batch);
    while ordered.len() > 0
        decreases ordered@.len(),
    {
        let u = ordered.remove(0);
        handler.handle(u);
    }
}

/// Drives the long poll: ask the transport for cancellation, fetch one batch
/// with the current offset, advance the offset past the highest delivered
/// identifier, and hand the batch to the handler in order. A transport
/// failure, or a batch carrying an identifier at the integer limit, skips the
/// cycle and fetches again; pacing between fetches belongs to the transport.
///
/// The loop stops when the transport reports cancellation, checked before
/// every cycle, or after `max_cycles` fetch cycles. The returned state holds
/// the final offset cursor.
pub fn run_longpoll<T: PollTransport, H: UpdateHandler>(
    transport: &mut T,
    handler: &mut H,
    options: &LongPollOptions,
    max_cycles: u64,
) -> (r: PollState) {
    let mut state = PollState::new();
    let mut cycles: u64 = 0;
    while cycles < max_cycles
        decreases max_cycles - cycles,
    {
        cycles = cycles + 1;
        if transport.is_cancelled() {
            return state;
        }
        let request = state.next_request(options);
        match transport.get_updates(&request) {
            Ok(batch) => {
                if batch_ids_in_range(&batch) {
                    state.apply_batch(&batch);
                    dispatch_batch(handler, batch);
                }
                // A batch carrying an identifier at the integer limit is
                // treated like a failed fetch and retried.
            }
            Err(_) => {
                // A transport failure is not fatal: the next cycle retries.
            }
        }
    }
    state
}

/// Whether every update identifier leaves room for the next offset.
fn batch_ids_in_range(batch: &Vec<Update>) -> (r: bool)
    ensures
        r == forall|i: int| 0 <= i < batch@.len() ==> (#[trigger] batch@[i]).id < i64::MAX,
{
    let mut i: usize = 0;
    while i < batch.len()
        invariant
            i <= batch@.len(),
            forall|k: int| 0 <= k < i ==> (#[trigger] batch@[k]).id < i64::MAX,
        decreases batch@.len() - i,
    {
        if batch[i].id == i64::MAX {
            return false;
        }
        i = i + 1;
    }
    true
}

/// View of an optional borrowed token.
pub open spec fn view_opt_token(v: Option<&str>) -> Option<Seq<char>> {
    match v {
        Some(s) => Some(s@),
        None => None,
    }
}

/// Whether a pushed request carries the expected secret: no expectation
/// accepts everything; an expected token must be given exactly.
pub open spec fn secret_ok(expected: Option<Seq<char>>, provided: Option<Seq<char>>) -> bool {
    match expected {
        None => true,
        Some(s) => provided == Some(s),
    }
}

/// Compares the secret token of a pushed request with the expected one.
pub fn check_secret(expected: Option<&str>, provided: Option<&str>) -> (r: bool)
    ensures
        r == secret_ok(view_opt_token(expected), view_opt_token(provided)),
{
    match expected {
        None => true,
        Some(e) => match provided {
            Some(p) => crate::json::str_eq(e, p),
            None => false,
        },
    }
}

/// Reads an update out of a pushed body: the body is parsed as JSON and
/// decoded as an update, with the exact error when either step refuses it.
pub fn webhook_decode(body: &str) -> (r: Result<Update, UpdateError>)
    ensures
        parsed_json(body@) is None ==> r == Err::<Update, UpdateError>(UpdateError::InvalidJson),
        parsed_json(body@) matches Some(d) ==> match r {
            Ok(u) => decode_update(d) == Ok::<UpdateData, UpdateError>(u@),
            Err(e) => e != UpdateError::InvalidJson && decode_update(d) == Err::<
                UpdateData,
                UpdateError,
            >(e),
        },
{
    match crate::json::parse_json(body) {
        Some(v) => Update::from_json(v),
        None => Err(UpdateError::InvalidJson),
    }
}

/// Handles one pushed request: a wrong secret is answered 401 and a body
/// that is not a well-formed update is answered 400, in both cases without
/// touching the handler; a well-formed update is handed to the handler and
/// answered 200.
pub fn process_webhook<H: UpdateHandler>(
    handler: &mut H,
    expected_token: Option<&str>,
    provided_token: Option<&str>,
    body: &str,
) -> (status: u16)
    ensures
        !secret_ok(view_opt_token(expected_token), view_opt_token(provided_token)) ==> status == 401,
        secret_ok(view_opt_token(expected_token), view_opt_token(provided_token)) ==> {
            &&& parsed_json(body@) is None ==> status == 400
            &&& parsed_json(body@) matches Some(d) ==> {
                &&& decode_update(d) is Err ==> status == 400
                &&& decode_update(d) is Ok ==> status == 200
            }
        },
{
    if !check_secret(expected_token, provided_token) {
        return 401;
    }
    match webhook_decode(body) {
        Ok(update) => {
            handler.handle(update);
            200
        }
        Err(_) => 400,
    }
}

} // verus!
