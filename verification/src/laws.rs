use vstd::prelude::*;

use crate::emitter::{
    bump_batch, sat_add, EmitterState, CONTRACT_VERSION, MAX_BUMP_BATCH, TIMELOCK_SECS,
};
use crate::error::EmitterError;
use crate::event::PaymentEventView;

verus! {

/// A successful emission returns the id following the previous count,
/// advances the count to it, and stores under that id exactly the event
/// built from the arguments and the ledger time; the configuration
/// (owner, allow-list, pause flag, pending upgrade and owner) is untouched.
pub proof fn law_emit_then_get(
    s: EmitterState,
    caller: Seq<u8>,
    source: Seq<u8>,
    payer: Seq<u8>,
    payee: Seq<u8>,
    amount: i128,
    tx_hash: Seq<u8>,
    now: u64,
)
    requires
        s.event_count < u64::MAX,
        s.emit_payment(caller, source, payer, payee, amount, tx_hash, now).0 is Ok,
    ensures
        ({
            let (r, t) = s.emit_payment(caller, source, payer, payee, amount, tx_hash, now);
            let id = r->Ok_0;
            &&& id == s.event_count + 1
            &&& t.event_count == id
            &&& t.get_event(id) matches Ok(e) && e.id == id && e.source == source && e.payer
                == payer && e.payee == payee && e.amount == amount && e.tx_hash == tx_hash
                && e.timestamp == now
            &&& t.owner == s.owner
            &&& t.allowed_source == s.allowed_source
            &&& t.paused == s.paused
            &&& t.pending_upgrade == s.pending_upgrade
            &&& t.pending_owner == s.pending_owner
        }),
{
}

/// A successful emission leaves every other stored event as it was.
pub proof fn law_emit_keeps_other_events(
    s: EmitterState,
    caller: Seq<u8>,
    source: Seq<u8>,
    payer: Seq<u8>,
    payee: Seq<u8>,
    amount: i128,
    tx_hash: Seq<u8>,
    now: u64,
    other: u64,
)
    requires
        s.emit_payment(caller, source, payer, payee, amount, tx_hash, now).0 matches Ok(id)
            && id != other,
    ensures
        s.emit_payment(caller, source, payer, payee, amount, tx_hash, now).1.get_event(other)
            == s.get_event(other),
{
}

/// Two successive successful emissions get consecutive ids.
pub proof fn law_emit_ids_consecutive(
    s: EmitterState,
    caller: Seq<u8>,
    source: Seq<u8>,
    payer: Seq<u8>,
    payee: Seq<u8>,
    amount: i128,
    tx_hash: Seq<u8>,
    now: u64,
    caller2: Seq<u8>,
    source2: Seq<u8>,
    payer2: Seq<u8>,
    payee2: Seq<u8>,
    amount2: i128,
    tx_hash2: Seq<u8>,
    now2: u64,
)
    requires
        s.event_count + 1 < u64::MAX,
        s.emit_payment(caller, source, payer, payee, amount, tx_hash, now).0 is Ok,
        s.emit_payment(caller, source, payer, payee, amount, tx_hash, now).1.emit_payment(
            caller2,
            source2,
            payer2,
            payee2,
            amount2,
            tx_hash2,
            now2,
        ).0 is Ok,
    ensures
        ({
            let (r1, t) = s.emit_payment(caller, source, payer, payee, amount, tx_hash, now);
            let (r2, u) = t.emit_payment(caller2, source2, payer2, payee2, amount2, tx_hash2, now2);
            &&& r2->Ok_0 == r1->Ok_0 + 1
            &&& u.event_count == s.event_count + 2
        }),
{
}

/// Every call that fails leaves the storage as it was.
pub proof fn law_failure_changes_nothing(
    s: EmitterState,
    caller: Seq<u8>,
    other: Seq<u8>,
    source: Seq<u8>,
    payer: Seq<u8>,
    payee: Seq<u8>,
    amount: i128,
    tx_hash: Seq<u8>,
    allowed: Option<Seq<u8>>,
    hash: [u8; 32],
    flag: bool,
    now: u64,
)
    ensures
        s.init(caller).0 is Err ==> s.init(caller).1 == s,
        s.emit_payment(caller, source, payer, payee, amount, tx_hash, now).0 is Err
            ==> s.emit_payment(caller, source, payer, payee, amount, tx_hash, now).1 == s,
        s.set_allowed_source(caller, allowed).0 is Err ==> s.set_allowed_source(caller, allowed).1
            == s,
        s.propose_upgrade(caller, hash, now).0 is Err ==> s.propose_upgrade(caller, hash, now).1
            == s,
        s.execute_upgrade(now).0 is Err ==> s.execute_upgrade(now).1 == s,
        s.cancel_upgrade(caller).0 is Err ==> s.cancel_upgrade(caller).1 == s,
        s.transfer_ownership(caller, other, now).0 is Err ==> s.transfer_ownership(
            caller,
            other,
            now,
        ).1 == s,
        s.accept_ownership(caller, now).0 is Err ==> s.accept_ownership(caller, now).1 == s,
        s.set_paused(caller, flag).0 is Err ==> s.set_paused(caller, flag).1 == s,
{
}

/// The owner-only calls (setting the allow-list, proposing or cancelling an
/// upgrade, proposing a new owner, pausing or unpausing, maintenance) fail
/// with `NotInitialized` before `init` and with `Unauthorized` for anyone
/// but the owner after it; for the owner they succeed.
pub proof fn law_owner_only(
    s: EmitterState,
    caller: Seq<u8>,
    other: Seq<u8>,
    allowed: Option<Seq<u8>>,
    hash: [u8; 32],
    flag: bool,
    start: u64,
    count: u32,
    now: u64,
)
    requires
        s.owner is Some ==> now + TIMELOCK_SECS <= u64::MAX,
    ensures
        ({
            let expected: Result<(), EmitterError> = match s.owner {
                None => Err(EmitterError::NotInitialized),
                Some(o) => if o == caller {
                    Ok(())
                } else {
                    Err(EmitterError::Unauthorized)
                },
            };
            &&& s.set_allowed_source(caller, allowed).0 == expected
            &&& s.propose_upgrade(caller, hash, now).0 == expected
            &&& s.cancel_upgrade(caller).0 == expected
            &&& s.transfer_ownership(caller, other, now).0 == expected
            &&& s.set_paused(caller, flag).0 == expected
            &&& (s.maintain_storage_bump(caller, start, count) is Ok <==> expected is Ok)
            &&& (expected matches Err(e) ==> s.maintain_storage_bump(caller, start, count) == Err::<
                u32,
                EmitterError,
            >(e))
        }),
{
}

/// `init` succeeds only once: it records the owner, resets the count and
/// reports the version; any later `init` fails with `AlreadyInitialized`.
pub proof fn law_init_once(s: EmitterState, owner: Seq<u8>, owner2: Seq<u8>)
    requires
        s.owner is None,
    ensures
        s.init(owner).0 == Ok::<u32, EmitterError>(0),
        s.init(owner).1.get_owner() == Ok::<Seq<u8>, EmitterError>(owner),
        s.init(owner).1.event_count == 0,
        s.init(owner).1.init(owner2).0 == Err::<u32, EmitterError>(
            EmitterError::AlreadyInitialized,
        ),
{
}

/// With an allow-listed source set on an initialized emitter, a caller that
/// is neither that source nor the owner cannot emit, while the source and
/// the owner can whenever the emitter is not paused.
pub proof fn law_allow_list(
    s: EmitterState,
    caller: Seq<u8>,
    source: Seq<u8>,
    payer: Seq<u8>,
    payee: Seq<u8>,
    amount: i128,
    tx_hash: Seq<u8>,
    now: u64,
)
    requires
        s.owner is Some,
        s.allowed_source is Some,
    ensures
        caller != s.allowed_source->Some_0 && caller != s.owner->Some_0 ==> s.emit_payment(
            caller,
            source,
            payer,
            payee,
            amount,
            tx_hash,
            now,
        ).0 == Err::<u64, EmitterError>(EmitterError::Unauthorized),
        (caller == s.allowed_source->Some_0 || caller == s.owner->Some_0) && !s.paused
            ==> s.emit_payment(caller, source, payer, payee, amount, tx_hash, now).0 is Ok,
{
}

/// What the owner sets as the allow-listed source (or clears) is what is
/// read back afterwards.
pub proof fn law_allowed_source_read_back(s: EmitterState, owner: Seq<u8>, source: Option<Seq<u8>>)
    requires
        s.owner == Some(owner),
    ensures
        s.set_allowed_source(owner, source).0 is Ok,
        s.set_allowed_source(owner, source).1.allowed_source == source,
{
}

/// Without an allow-list anyone may emit while the emitter is not paused.
pub proof fn law_open_emission(
    s: EmitterState,
    caller: Seq<u8>,
    source: Seq<u8>,
    payer: Seq<u8>,
    payee: Seq<u8>,
    amount: i128,
    tx_hash: Seq<u8>,
    now: u64,
)
    requires
        s.allowed_source is None,
        !s.paused,
    ensures
        s.emit_payment(caller, source, payer, payee, amount, tx_hash, now).0 is Ok,
{
}

/// Once the owner has paused the emitter nobody can emit, and after the
/// owner unpauses it emission is as open as before the pause.
pub proof fn law_pause_unpause(
    s: EmitterState,
    owner: Seq<u8>,
    caller: Seq<u8>,
    source: Seq<u8>,
    payer: Seq<u8>,
    payee: Seq<u8>,
    amount: i128,
    tx_hash: Seq<u8>,
    now: u64,
)
    requires
        s.owner == Some(owner),
    ensures
        s.set_paused(owner, true).1.paused,
        s.set_paused(owner, true).1.emit_payment(caller, source, payer, payee, amount, tx_hash, now).0 is Err,
        !s.set_paused(owner, true).1.set_paused(owner, false).1.paused,
        ({
            let u = s.set_paused(owner, true).1.set_paused(owner, false).1;
            u.emit_gate(caller) == EmitterState { paused: false, ..s }.emit_gate(caller)
        }),
{
}

/// Proposing a new owner does not change the owner; the proposed owner, and
/// nobody else, becomes the owner by accepting once `TIMELOCK_SECS` have
/// passed since the proposal, and not before.
pub proof fn law_two_step_ownership(
    s: EmitterState,
    owner: Seq<u8>,
    new_owner: Seq<u8>,
    other: Seq<u8>,
    now: u64,
    later: u64,
)
    requires
        s.owner == Some(owner),
        other != new_owner,
    ensures
        ({
            let t = s.transfer_ownership(owner, new_owner, now).1;
            &&& t.owner == s.owner
            &&& t.accept_ownership(other, later).0 == Err::<(), EmitterError>(
                EmitterError::Unauthorized,
            )
            &&& later < now + TIMELOCK_SECS ==> t.accept_ownership(new_owner, later).0 == Err::<
                (),
                EmitterError,
            >(EmitterError::UpgradeTimelockActive)
            &&& later >= now + TIMELOCK_SECS ==> {
                &&& t.accept_ownership(new_owner, later).0 is Ok
                &&& t.accept_ownership(new_owner, later).1.owner == Some(new_owner)
                &&& t.accept_ownership(new_owner, later).1.pending_owner is None
            }
        }),
{
}

/// A proposed upgrade can be executed, yielding the proposed code hash,
/// once `TIMELOCK_SECS` have passed since the proposal and not before; it
/// can be executed only once, and not at all after it is cancelled.
pub proof fn law_upgrade_timelock(
    s: EmitterState,
    owner: Seq<u8>,
    hash: [u8; 32],
    now: u64,
    later: u64,
    after: u64,
)
    requires
        s.owner == Some(owner),
        now + TIMELOCK_SECS <= u64::MAX,
    ensures
        ({
            let t = s.propose_upgrade(owner, hash, now).1;
            &&& later < now + TIMELOCK_SECS ==> t.execute_upgrade(later).0 == Err::<
                [u8; 32],
                EmitterError,
            >(EmitterError::UpgradeTimelockActive)
            &&& later >= now + TIMELOCK_SECS ==> {
                &&& t.execute_upgrade(later).0 == Ok::<[u8; 32], EmitterError>(hash)
                &&& t.execute_upgrade(later).1.execute_upgrade(after).0 == Err::<
                    [u8; 32],
                    EmitterError,
                >(EmitterError::UpgradeNotProposed)
            }
            &&& t.cancel_upgrade(owner).1.execute_upgrade(later).0 == Err::<[u8; 32], EmitterError>(
                EmitterError::UpgradeNotProposed,
            )
        }),
{
}

/// A maintenance call looks at no more than `MAX_BUMP_BATCH` ids, and
/// counts none when no event is stored and all of them when every id it
/// looks at is stored.
pub proof fn law_bump_bounds(s: EmitterState, caller: Seq<u8>, start: u64, count: u32)
    ensures
        s.maintain_storage_bump(caller, start, count) matches Ok(n) ==> n <= bump_batch(count)
            && n <= MAX_BUMP_BATCH,
        s.events.dom().is_empty() && s.maintain_storage_bump(caller, start, count) is Ok
            ==> s.maintain_storage_bump(caller, start, count) == Ok::<u32, EmitterError>(0),
        (forall|i: int| 0 <= i < bump_batch(count) ==> #[trigger] s.events.contains_key(
            sat_add(start, i),
        )) && s.maintain_storage_bump(caller, start, count) is Ok ==> s.maintain_storage_bump(
            caller,
            start,
            count,
        ) == Ok::<u32, EmitterError>(bump_batch(count) as u32),
{
    lemma_live_ids_bounds(s, start, bump_batch(count));
}

proof fn lemma_live_ids_bounds(s: EmitterState, start: u64, n: nat)
    ensures
        s.live_ids(start, n).len() <= n,
        s.events.dom().is_empty() ==> s.live_ids(start, n).len() == 0,
        (forall|i: int| 0 <= i < n ==> #[trigger] s.events.contains_key(sat_add(start, i)))
            ==> s.live_ids(start, n).len() == n,
    decreases n,
{
    if n > 0 {
        lemma_live_ids_bounds(s, start, (n - 1) as nat);
        if s.events.dom().is_empty() {
            assert(!s.events.contains_key(sat_add(start, n - 1)));
        }
        if forall|i: int| 0 <= i < n ==> #[trigger] s.events.contains_key(sat_add(start, i)) {
            assert(s.events.contains_key(sat_add(start, n - 1)));
        }
    }
}

/// Every operation keeps each stored event under its own id.
pub proof fn law_ids_match_keys(
    s: EmitterState,
    caller: Seq<u8>,
    other: Seq<u8>,
    source: Seq<u8>,
    payer: Seq<u8>,
    payee: Seq<u8>,
    amount: i128,
    tx_hash: Seq<u8>,
    allowed: Option<Seq<u8>>,
    hash: [u8; 32],
    flag: bool,
    now: u64,
    event_id: u64,
)
    requires
        s.wf(),
    ensures
        s.init(caller).1.wf(),
        s.emit_payment(caller, source, payer, payee, amount, tx_hash, now).1.wf(),
        s.set_allowed_source(caller, allowed).1.wf(),
        s.propose_upgrade(caller, hash, now).1.wf(),
        s.execute_upgrade(now).1.wf(),
        s.cancel_upgrade(caller).1.wf(),
        s.transfer_ownership(caller, other, now).1.wf(),
        s.accept_ownership(caller, now).1.wf(),
        s.set_paused(caller, flag).1.wf(),
        s.get_event(event_id) matches Ok(e) ==> e.id == event_id,
{
}


/// Reading an event gives exactly what is stored under its id, and
/// `EventNotFound` only when nothing is stored there.
pub proof fn law_get_event_reads_storage(s: EmitterState, event_id: u64)
    ensures
        s.events.contains_key(event_id) ==> s.get_event(event_id) == Ok::<
            PaymentEventView,
            EmitterError,
        >(s.events[event_id]),
        !s.events.contains_key(event_id) ==> s.get_event(event_id) == Err::<
            PaymentEventView,
            EmitterError,
        >(EmitterError::EventNotFound),
{
}

/// Reading the owner gives exactly the recorded owner, and
/// `NotInitialized` only when none is recorded.
pub proof fn law_get_owner_reads_owner(s: EmitterState)
    ensures
        s.owner matches Some(o) ==> s.get_owner() == Ok::<Seq<u8>, EmitterError>(o),
        s.owner is None ==> s.get_owner() == Err::<Seq<u8>, EmitterError>(
            EmitterError::NotInitialized,
        ),
{
}

/// The ids that a maintenance call looks at (the first `n` steps from
/// `start`) and finds stored.
pub open spec fn stored_steps(s: EmitterState, start: u64, n: nat) -> Set<int> {
    Set::new(|i: int| 0 <= i < n && s.events.contains_key(sat_add(start, i)))
}

proof fn lemma_live_ids_count(s: EmitterState, start: u64, n: nat)
    ensures
        stored_steps(s, start, n).finite(),
        s.live_ids(start, n).len() == stored_steps(s, start, n).len(),
    decreases n,
{
    if n == 0 {
        assert(stored_steps(s, start, n) =~= Set::<int>::empty());
    } else {
        let m = (n - 1) as nat;
        lemma_live_ids_count(s, start, m);
        let prev = stored_steps(s, start, m);
        assert(!prev.contains(m as int));
        if s.events.contains_key(sat_add(start, m as int)) {
            assert(stored_steps(s, start, n) =~= prev.insert(m as int));
        } else {
            assert(stored_steps(s, start, n) =~= prev);
        }
    }
}

/// For the owner, maintenance reports exactly how many of the (at most
/// `MAX_BUMP_BATCH`) steps from `start` land on a stored event, whatever the
/// pause flag or the allow-list.
pub proof fn law_bump_counts_stored_ids(s: EmitterState, owner: Seq<u8>, start: u64, count: u32)
    requires
        s.owner == Some(owner),
    ensures
        s.maintain_storage_bump(owner, start, count) == Ok::<u32, EmitterError>(
            stored_steps(s, start, bump_batch(count)).len() as u32,
        ),
        stored_steps(s, start, bump_batch(count)).len() <= bump_batch(count),
{
    lemma_live_ids_count(s, start, bump_batch(count));
    lemma_live_ids_bounds(s, start, bump_batch(count));
}

/// Pausing, unpausing and changing the allow-list leave every read as it
/// was: stored events, the owner, the count and maintenance results.
pub proof fn law_config_changes_keep_reads(
    s: EmitterState,
    owner: Seq<u8>,
    flag: bool,
    source: Option<Seq<u8>>,
    event_id: u64,
    start: u64,
    count: u32,
)
    requires
        s.owner == Some(owner),
    ensures
        ({
            let p = s.set_paused(owner, flag).1;
            let a = s.set_allowed_source(owner, source).1;
            &&& p.get_event(event_id) == s.get_event(event_id)
            &&& a.get_event(event_id) == s.get_event(event_id)
            &&& p.get_owner() == s.get_owner()
            &&& a.get_owner() == s.get_owner()
            &&& p.event_count == s.event_count
            &&& a.event_count == s.event_count
            &&& p.maintain_storage_bump(owner, start, count) == s.maintain_storage_bump(
                owner,
                start,
                count,
            )
            &&& a.maintain_storage_bump(owner, start, count) == s.maintain_storage_bump(
                owner,
                start,
                count,
            )
        }),
{
    law_bump_counts_stored_ids(s, owner, start, count);
    law_bump_counts_stored_ids(s.set_paused(owner, flag).1, owner, start, count);
    law_bump_counts_stored_ids(s.set_allowed_source(owner, source).1, owner, start, count);
}

/// Accepting ownership fails with `UpgradeNotProposed`, changing nothing,
/// whenever no new owner has been proposed; it succeeds exactly for the
/// proposed account once `TIMELOCK_SECS` have passed since the proposal,
/// and then makes that account the owner and clears the proposal. Another
/// caller gets `Unauthorized`, the proposed one `UpgradeTimelockActive`
/// while the timelock runs.
pub proof fn law_accept_ownership_outcome(s: EmitterState, caller: Seq<u8>, now: u64)
    ensures
        ({
            let (r, t) = s.accept_ownership(caller, now);
            &&& s.pending_owner is None ==> r == Err::<(), EmitterError>(
                EmitterError::UpgradeNotProposed,
            ) && t == s
            &&& (r is Ok) == (s.pending_owner matches Some((p, at)) && p == caller && now >= at
                && now - at >= TIMELOCK_SECS)
            &&& r is Ok ==> t == (EmitterState { owner: Some(caller), pending_owner: None, ..s })
            &&& match s.pending_owner {
                Some((p, at)) => {
                    &&& p != caller ==> r == Err::<(), EmitterError>(EmitterError::Unauthorized)
                    &&& p == caller && (now < at || now - at < TIMELOCK_SECS) ==> r == Err::<
                        (),
                        EmitterError,
                    >(EmitterError::UpgradeTimelockActive)
                },
                None => true,
            }
        }),
{
}

/// Executing an upgrade succeeds, yielding the proposed hash and clearing
/// the proposal, exactly when one is pending and its unlock time has come;
/// before that time it fails with `UpgradeTimelockActive`.
pub proof fn law_execute_upgrade_outcome(s: EmitterState, now: u64)
    ensures
        ({
            let (r, t) = s.execute_upgrade(now);
            &&& s.pending_upgrade is None ==> r == Err::<[u8; 32], EmitterError>(
                EmitterError::UpgradeNotProposed,
            ) && t == s
            &&& (r is Ok) == (s.pending_upgrade matches Some((h, at)) && now >= at)
            &&& match s.pending_upgrade {
                Some((h, at)) => now >= at ==> r == Ok::<[u8; 32], EmitterError>(h) && t == (
                EmitterState { pending_upgrade: None, ..s }),
                None => true,
            }
            &&& match s.pending_upgrade {
                Some((h, at)) => now < at ==> r == Err::<[u8; 32], EmitterError>(
                    EmitterError::UpgradeTimelockActive,
                ),
                None => true,
            }
        }),
{
}

/// Emission succeeds exactly when the emitter is not paused and either no
/// allow-list is set or the emitter is initialized and the caller is the
/// allow-listed source or the owner. Otherwise it fails with
/// `NotInitialized` when an allow-list is set but no owner, with
/// `Unauthorized` when the caller is not admitted, and with
/// `ContractPaused` when an admitted caller finds the emitter paused.
pub proof fn law_emit_outcome(
    s: EmitterState,
    caller: Seq<u8>,
    source: Seq<u8>,
    payer: Seq<u8>,
    payee: Seq<u8>,
    amount: i128,
    tx_hash: Seq<u8>,
    now: u64,
)
    ensures
        ({
            let r = s.emit_payment(caller, source, payer, payee, amount, tx_hash, now).0;
            let admitted = s.allowed_source is None || (s.owner is Some && (s.allowed_source
                == Some(caller) || s.owner == Some(caller)));
            &&& (r is Ok) == (!s.paused && admitted)
            &&& s.allowed_source is Some && s.owner is None ==> r == Err::<u64, EmitterError>(
                EmitterError::NotInitialized,
            )
            &&& s.owner is Some && !admitted ==> r == Err::<u64, EmitterError>(
                EmitterError::Unauthorized,
            )
            &&& admitted && s.paused ==> r == Err::<u64, EmitterError>(
                EmitterError::ContractPaused,
            )
        }),
{
}

/// What each successful call changes, field by field; every field not named
/// is left as it was.
pub proof fn law_successful_calls_change_only(
    s: EmitterState,
    caller: Seq<u8>,
    other: Seq<u8>,
    source: Seq<u8>,
    payer: Seq<u8>,
    payee: Seq<u8>,
    amount: i128,
    tx_hash: Seq<u8>,
    allowed: Option<Seq<u8>>,
    hash: [u8; 32],
    flag: bool,
    now: u64,
)
    ensures
        ({
            let (r, t) = s.init(caller);
            r is Ok ==> t == (EmitterState { owner: Some(caller), event_count: 0, ..s })
        }),
        ({
            let (r, t) = s.emit_payment(caller, source, payer, payee, amount, tx_hash, now);
            let ev = PaymentEventView {
                id: r->Ok_0,
                source,
                payer,
                payee,
                amount,
                tx_hash,
                timestamp: now,
            };
            r is Ok ==> t == (EmitterState {
                event_count: r->Ok_0,
                events: s.events.insert(r->Ok_0, ev),
                ..s
            })
        }),
        ({
            let (r, t) = s.set_allowed_source(caller, allowed);
            r is Ok ==> t == (EmitterState { allowed_source: allowed, ..s })
        }),
        ({
            let (r, t) = s.propose_upgrade(caller, hash, now);
            r is Ok ==> t == (EmitterState {
                pending_upgrade: Some((hash, (now + TIMELOCK_SECS) as u64)),
                ..s
            })
        }),
        ({
            let (r, t) = s.cancel_upgrade(caller);
            r is Ok ==> t == (EmitterState { pending_upgrade: None, ..s })
        }),
        ({
            let (r, t) = s.transfer_ownership(caller, other, now);
            r is Ok ==> t == (EmitterState { pending_owner: Some((other, now)), ..s })
        }),
        ({
            let (r, t) = s.set_paused(caller, flag);
            r is Ok ==> t == (EmitterState { paused: flag, ..s })
        }),
{
}

/// `init` succeeds, reporting `CONTRACT_VERSION`, exactly when no owner is
/// recorded; otherwise it fails with `AlreadyInitialized` and changes
/// nothing.
pub proof fn law_init_outcome(s: EmitterState, owner: Seq<u8>)
    ensures
        ({
            let (r, t) = s.init(owner);
            &&& s.owner is None ==> r == Ok::<u32, EmitterError>(CONTRACT_VERSION)
            &&& s.owner is Some ==> r == Err::<u32, EmitterError>(
                EmitterError::AlreadyInitialized,
            ) && t == s
        }),
{
}

} // verus!
