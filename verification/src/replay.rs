//! Replay protection: a timestamp window and a store of recently used
//! nonces, each kept until its time-to-live runs out.
use vstd::prelude::*;
use crate::context::AuthContext;
use crate::error::AuthVerificationError;

verus! {

/// How far a request's timestamp may lie from the verifier's clock, and how
/// long a used nonce is remembered, both in seconds.
#[derive(Clone, Copy, Debug)]
pub struct ReplayProtectorConfig {
    pub max_clock_skew_secs: u64,
    pub nonce_ttl_secs: u64,
}

impl Default for ReplayProtectorConfig {
    /// Five minutes of clock skew, ten minutes of nonce memory.
    fn default() -> (res: ReplayProtectorConfig)
        ensures
            res.max_clock_skew_secs == 300,
            res.nonce_ttl_secs == 600,
    {
        ReplayProtectorConfig { max_clock_skew_secs: 300, nonce_ttl_secs: 600 }
    }
}

/// The distance between two instants.
pub open spec fn time_distance(a: u64, b: u64) -> nat {
    if a >= b {
        (a - b) as nat
    } else {
        (b - a) as nat
    }
}

/// The key under which a request's nonce is remembered: the service, the
/// audience and the nonce, separated by colons.
pub open spec fn nonce_key(context: AuthContext) -> Seq<char> {
    context.service_id@ + ":"@ + context.audience@ + ":"@ + context.nonce@
}

/// The remembered nonces that have not expired at `now`.
pub open spec fn live_nonces(used: Map<Seq<char>, u64>, now: u64) -> Map<Seq<char>, u64> {
    Map::new(|k: Seq<char>| used.dom().contains(k) && used[k] > now, |k: Seq<char>| used[k])
}

/// Whether checking `context` at `now` gets as far as remembering its nonce.
pub open spec fn stores_nonce(
    config: ReplayProtectorConfig,
    used: Map<Seq<char>, u64>,
    context: AuthContext,
    now: u64,
) -> bool {
    time_distance(now, context.timestamp_unix_secs) <= config.max_clock_skew_secs
        && !live_nonces(used, now).dom().contains(nonce_key(context))
}

/// The store after checking `context` at `now`, and the result: a timestamp
/// outside the window is rejected with the store untouched; otherwise the
/// expired nonces are dropped, a nonce still remembered is a replay, and a
/// new nonce is remembered until `now` plus the time-to-live.
pub open spec fn replay_check(
    config: ReplayProtectorConfig,
    used: Map<Seq<char>, u64>,
    context: AuthContext,
    now: u64,
) -> (Map<Seq<char>, u64>, Result<(), AuthVerificationError>) {
    if time_distance(now, context.timestamp_unix_secs) > config.max_clock_skew_secs {
        (used, Err(AuthVerificationError::ExpiredTimestamp))
    } else {
        let live = live_nonces(used, now);
        let key = nonce_key(context);
        if live.dom().contains(key) {
            (live, Err(AuthVerificationError::ReplayDetected))
        } else {
            (live.insert(key, (now + config.nonce_ttl_secs) as u64), Ok(()))
        }
    }
}

/// The map that a list of (key, expiry) entries stands for.
pub open spec fn entry_map(entries: Seq<(String, u64)>) -> Map<Seq<char>, u64>
    decreases entries.len(),
{
    if entries.len() == 0 {
        Map::empty()
    } else {
        entry_map(entries.drop_last()).insert(entries.last().0@, entries.last().1)
    }
}

/// No key occurs twice among the entries.
pub open spec fn keys_distinct(entries: Seq<(String, u64)>) -> bool {
    forall|i: int, j: int|
        0 <= i < j < entries.len() ==> #[trigger] entries[i].0@ != #[trigger] entries[j].0@
}

/// The keys of the map are exactly the keys of the entries.
proof fn lemma_entry_map_dom(entries: Seq<(String, u64)>, k: Seq<char>)
    ensures
        entry_map(entries).dom().contains(k) <==> exists|i: int|
            0 <= i < entries.len() && #[trigger] entries[i].0@ == k,
    decreases entries.len(),
{
    if entries.len() > 0 {
        let rest = entries.drop_last();
        lemma_entry_map_dom(rest, k);
        if entry_map(entries).dom().contains(k) {
            if k == entries.last().0@ {
                assert(entries[entries.len() - 1].0@ == k);
            } else {
                let i = choose|i: int| 0 <= i < rest.len() && #[trigger] rest[i].0@ == k;
                assert(entries[i].0@ == k);
            }
        }
        if exists|i: int| 0 <= i < entries.len() && #[trigger] entries[i].0@ == k {
            let i = choose|i: int| 0 <= i < entries.len() && #[trigger] entries[i].0@ == k;
            if i < entries.len() - 1 {
                assert(rest[i].0@ == k);
            }
        }
    }
}

/// A request whose timestamp lies outside the allowed skew is rejected as
/// expired, and the store is left exactly as it was.
pub proof fn lemma_stale_request_rejected(
    config: ReplayProtectorConfig,
    used: Map<Seq<char>, u64>,
    context: AuthContext,
    now: u64,
)
    requires
        time_distance(now, context.timestamp_unix_secs) > config.max_clock_skew_secs,
    ensures
        replay_check(config, used, context, now) == (
            used,
            Err::<(), AuthVerificationError>(AuthVerificationError::ExpiredTimestamp),
        ),
{
}

/// An accepted request leaves its nonce remembered until `now` plus the
/// time-to-live, and it was not remembered (unexpired) before.
pub proof fn lemma_accepted_nonce_remembered(
    config: ReplayProtectorConfig,
    used: Map<Seq<char>, u64>,
    context: AuthContext,
    now: u64,
)
    requires
        replay_check(config, used, context, now).1 is Ok,
        now + config.nonce_ttl_secs <= u64::MAX,
    ensures
        !live_nonces(used, now).dom().contains(nonce_key(context)),
        replay_check(config, used, context, now).0.dom().contains(nonce_key(context)),
        replay_check(config, used, context, now).0[nonce_key(context)] == now
            + config.nonce_ttl_secs,
{
}

/// Once a request has been accepted, any request with the same service,
/// audience and nonce is rejected as a replay at any time that is inside its
/// own timestamp window and before the nonce expires, and the nonce's expiry
/// is not pushed back by the rejected attempt.
pub proof fn lemma_replay_detected(
    config: ReplayProtectorConfig,
    used: Map<Seq<char>, u64>,
    accepted: AuthContext,
    now: u64,
    attempt: AuthContext,
    later: u64,
)
    requires
        replay_check(config, used, accepted, now).1 is Ok,
        now + config.nonce_ttl_secs <= u64::MAX,
        nonce_key(attempt) == nonce_key(accepted),
        time_distance(later, attempt.timestamp_unix_secs) <= config.max_clock_skew_secs,
        later < now + config.nonce_ttl_secs,
    ensures
        replay_check(config, replay_check(config, used, accepted, now).0, attempt, later).1
            == Err::<(), AuthVerificationError>(AuthVerificationError::ReplayDetected),
        replay_check(config, replay_check(config, used, accepted, now).0, attempt, later).0[nonce_key(
            accepted,
        )] == now + config.nonce_ttl_secs,
{
    let after = replay_check(config, used, accepted, now).0;
    assert(live_nonces(after, later).dom().contains(nonce_key(accepted)));
}

/// Removing the nonces expired at `first` and then those expired at
/// `second` leaves what one removal at the later of the two leaves; in
/// particular a second removal at the same time changes nothing.
pub proof fn lemma_expiry_removal_composes(used: Map<Seq<char>, u64>, first: u64, second: u64)
    ensures
        live_nonces(live_nonces(used, first), second) == live_nonces(
            used,
            if first >= second {
                first
            } else {
                second
            },
        ),
        live_nonces(live_nonces(used, first), first) == live_nonces(used, first),
{
    assert(live_nonces(live_nonces(used, first), second) =~= live_nonces(
        used,
        if first >= second {
            first
        } else {
            second
        },
    ));
    assert(live_nonces(live_nonces(used, first), first) =~= live_nonces(used, first));
}

/// The store after checking each (context, time) pair of `calls` in turn.
pub open spec fn replay_run(
    config: ReplayProtectorConfig,
    used: Map<Seq<char>, u64>,
    calls: Seq<(AuthContext, u64)>,
) -> Map<Seq<char>, u64>
    decreases calls.len(),
{
    if calls.len() == 0 {
        used
    } else {
        replay_check(
            config,
            replay_run(config, used, calls.drop_last()),
            calls.last().0,
            calls.last().1,
        ).0
    }
}

/// A remembered nonce key keeps its expiry through any calls made before
/// that expiry.
proof fn lemma_run_keeps_unexpired_key(
    config: ReplayProtectorConfig,
    used: Map<Seq<char>, u64>,
    calls: Seq<(AuthContext, u64)>,
    key: Seq<char>,
    expiry: u64,
)
    requires
        used.dom().contains(key),
        used[key] == expiry,
        forall|i: int| 0 <= i < calls.len() ==> #[trigger] calls[i].1 < expiry,
    ensures
        replay_run(config, used, calls).dom().contains(key),
        replay_run(config, used, calls)[key] == expiry,
    decreases calls.len(),
{
    if calls.len() > 0 {
        let rest = calls.drop_last();
        assert forall|i: int| 0 <= i < rest.len() implies #[trigger] rest[i].1 < expiry by {
            assert(rest[i] == calls[i]);
        }
        lemma_run_keeps_unexpired_key(config, used, rest, key, expiry);
        assert(calls[calls.len() - 1].1 < expiry);
    }
}

/// With a time-to-live above twice the allowed skew, a request is accepted
/// at most once: after it was accepted at `accepted_at`, and whatever calls
/// follow at times no later than `now`, presenting the same service,
/// audience, nonce and timestamp again at `now` (no earlier than
/// `accepted_at`) is rejected, as expired or as a replay.
pub proof fn lemma_context_accepted_at_most_once(
    config: ReplayProtectorConfig,
    used: Map<Seq<char>, u64>,
    accepted: AuthContext,
    accepted_at: u64,
    calls: Seq<(AuthContext, u64)>,
    again: AuthContext,
    now: u64,
)
    requires
        config.nonce_ttl_secs > 2 * config.max_clock_skew_secs,
        accepted_at + config.nonce_ttl_secs <= u64::MAX,
        replay_check(config, used, accepted, accepted_at).1 is Ok,
        forall|i: int| 0 <= i < calls.len() ==> #[trigger] calls[i].1 <= now,
        accepted_at <= now,
        nonce_key(again) == nonce_key(accepted),
        again.timestamp_unix_secs == accepted.timestamp_unix_secs,
    ensures
        replay_check(
            config,
            replay_run(config, replay_check(config, used, accepted, accepted_at).0, calls),
            again,
            now,
        ).1 != Ok::<(), AuthVerificationError>(()),
{
    let expiry = (accepted_at + config.nonce_ttl_secs) as u64;
    let after = replay_check(config, used, accepted, accepted_at).0;
    let key = nonce_key(accepted);
    if now < expiry {
        lemma_run_keeps_unexpired_key(config, after, calls, key, expiry);
    }
}

/// After a request inside the timestamp window is checked, with a positive
/// time-to-live, the store holds no nonce that has expired at `now`: it
/// never keeps what it no longer needs.
pub proof fn lemma_store_holds_only_live_nonces(
    config: ReplayProtectorConfig,
    used: Map<Seq<char>, u64>,
    context: AuthContext,
    now: u64,
)
    requires
        time_distance(now, context.timestamp_unix_secs) <= config.max_clock_skew_secs,
        config.nonce_ttl_secs > 0,
        now + config.nonce_ttl_secs <= u64::MAX,
    ensures
        forall|k: Seq<char>| #[trigger]
            replay_check(config, used, context, now).0.dom().contains(k) ==> replay_check(
                config,
                used,
                context,
                now,
            ).0[k] > now,
{
}

/// The nonces a verifier has accepted, with the time each one expires.
///
/// The store is a list of (key, expiry) entries in which no key occurs twice;
/// `spec_used` reads it as a map from nonce key to expiry time, and lookups
/// walk the list.
#[derive(Debug)]
pub struct ReplayProtector {
    config: ReplayProtectorConfig,
    used_nonces: Vec<(String, u64)>,
}

impl ReplayProtector {
    #[verifier::type_invariant]
    closed spec fn keys_are_distinct(&self) -> bool {
        keys_distinct(self.used_nonces@)
    }

    /// The configuration the protector was made with.
    pub closed spec fn spec_config(&self) -> ReplayProtectorConfig {
        self.config
    }

    /// The remembered nonce keys and their expiry times.
    pub closed spec fn spec_used(&self) -> Map<Seq<char>, u64> {
        entry_map(self.used_nonces@)
    }

    /// A protector that remembers no nonce yet.
    pub fn new(config: ReplayProtectorConfig) -> (res: ReplayProtector)
        ensures
            res.spec_config() == config,
            res.spec_used() == Map::<Seq<char>, u64>::empty(),
    {
        ReplayProtector { config, used_nonces: Vec::new() }
    }

    /// Checks the timestamp of `context` against `now` and, if it is within
    /// the allowed skew, rejects a nonce still remembered or remembers it.
    pub fn verify_and_store(&mut self, context: &AuthContext, now_unix_secs: u64) -> (res: Result<
        (),
        AuthVerificationError,
    >)
        requires
            stores_nonce(old(self).spec_config(), old(self).spec_used(), *context, now_unix_secs)
                ==> now_unix_secs + old(self).spec_config().nonce_ttl_secs <= u64::MAX,
        ensures
            final(self).spec_config() == old(self).spec_config(),
            (final(self).spec_used(), res) == replay_check(
                old(self).spec_config(),
                old(self).spec_used(),
                *context,
                now_unix_secs,
            ),
    {
        let age: u64 = if now_unix_secs >= context.timestamp_unix_secs {
            now_unix_secs - context.timestamp_unix_secs
        } else {
            context.timestamp_unix_secs - now_unix_secs
        };
        if age > self.config.max_clock_skew_secs {
            return Err(AuthVerificationError::ExpiredTimestamp);
        }
        self.remove_expired_nonces(now_unix_secs);
        let key: String = context.service_id.clone().concat(":").concat(
            context.audience.as_str(),
        ).concat(":").concat(context.nonce.as_str());
        assert(key@ == nonce_key(*context));
        if self.holds_key(&key) {
            return Err(AuthVerificationError::ReplayDetected);
        }
        let expires_at = now_unix_secs + self.config.nonce_ttl_secs;
        self.remember(key, expires_at);
        Ok(())
    }

    /// Whether `key` is remembered.
    fn holds_key(&self, key: &String) -> (res: bool)
        ensures
            res == self.spec_used().dom().contains(key@),
    {
        let n = self.used_nonces.len();
        let mut i: usize = 0;
        while i < n
            invariant
                n == self.used_nonces@.len(),
                i <= n,
                forall|j: int| 0 <= j < i ==> #[trigger] self.used_nonces@[j].0@ != key@,
            decreases n - i,
        {
            if self.used_nonces[i].0 == *key {
                proof {
                    lemma_entry_map_dom(self.used_nonces@, key@);
                    assert(self.used_nonces@[i as int].0@ == key@);
                }
                return true;
            }
            i = i + 1;
        }
        proof {
            lemma_entry_map_dom(self.used_nonces@, key@);
        }
        false
    }

    /// Remembers a key that is not remembered yet.
    fn remember(&mut self, key: String, expires_at: u64)
        requires
            !old(self).spec_used().dom().contains(key@),
        ensures
            final(self).spec_config() == old(self).spec_config(),
            final(self).spec_used() == old(self).spec_used().insert(key@, expires_at),
    {
        proof {
            use_type_invariant(&*self);
        }
        let ghost before = self.used_nonces@;
        let ghost k = key@;
        proof {
            lemma_entry_map_dom(before, k);
        }
        let mut entries: Vec<(String, u64)> = Vec::new();
        std::mem::swap(&mut entries, &mut self.used_nonces);
        entries.push((key, expires_at));
        proof {
            assert(entries@.drop_last() =~= before);
            assert forall|i: int, j: int|
                0 <= i < j < entries@.len() implies #[trigger] entries@[i].0@
                != #[trigger] entries@[j].0@ by {
                if j == entries@.len() - 1 {
                    assert(before[i].0@ == entries@[i].0@);
                }
            }
        }
        self.used_nonces = entries;
    }

    /// Forgets every nonce that has expired at `now`.
    pub fn remove_expired_nonces(&mut self, now_unix_secs: u64)
        ensures
            final(self).spec_config() == old(self).spec_config(),
            final(self).spec_used() == live_nonces(old(self).spec_used(), now_unix_secs),
    {
        proof {
            use_type_invariant(&*self);
        }
        let mut entries: Vec<(String, u64)> = Vec::new();
        std::mem::swap(&mut entries, &mut self.used_nonces);
        let ghost all = entries@;
        let mut kept: Vec<(String, u64)> = Vec::new();
        let n = entries.len();
        let mut i: usize = 0;
        assert(all.take(0) =~= Seq::<(String, u64)>::empty());
        assert(entry_map(kept@) =~= live_nonces(entry_map(all.take(0)), now_unix_secs));
        while i < n
            invariant
                n == all.len(),
                entries@ == all,
                i <= n,
                keys_distinct(all),
                keys_distinct(kept@),
                entry_map(kept@) == live_nonces(entry_map(all.take(i as int)), now_unix_secs),
            decreases n - i,
        {
            let ghost prefix = all.take(i as int);
            let ghost k = all[i as int].0@;
            let ghost e = all[i as int].1;
            assert(all.take(i + 1).drop_last() =~= prefix);
            assert(entry_map(all.take(i + 1)) == entry_map(prefix).insert(k, e));
            proof {
                lemma_entry_map_dom(prefix, k);
                if entry_map(prefix).dom().contains(k) {
                    let j = choose|j: int| 0 <= j < prefix.len() && #[trigger] prefix[j].0@ == k;
                    assert(all[j].0@ == k);
                }
            }
            if entries[i].1 > now_unix_secs {
                let key: String = entries[i].0.clone();
                let ghost before = kept@;
                proof {
                    lemma_entry_map_dom(before, k);
                }
                kept.push((key, entries[i].1));
                proof {
                    assert(kept@.drop_last() =~= before);
                    assert forall|a: int, b: int|
                        0 <= a < b < kept@.len() implies #[trigger] kept@[a].0@
                        != #[trigger] kept@[b].0@ by {
                        if b == kept@.len() - 1 {
                            assert(before[a].0@ == kept@[a].0@);
                        }
                    }
                    assert(entry_map(kept@) =~= live_nonces(
                        entry_map(all.take(i + 1)),
                        now_unix_secs,
                    ));
                }
            } else {
                assert(entry_map(kept@) =~= live_nonces(
                    entry_map(all.take(i + 1)),
                    now_unix_secs,
                ));
            }
            i = i + 1;
        }
        assert(all.take(n as int) =~= all);
        self.used_nonces = kept;
    }
}

/// Two requests with the same service, audience and nonce are one replay
/// entry: once one is accepted at `now`, the other is rejected as a replay at
/// any time inside its own timestamp window and before `now` plus the
/// time-to-live, whatever its method, path, body digest or timestamp.
pub proof fn lemma_same_service_audience_nonce_is_replay(
    config: ReplayProtectorConfig,
    used: Map<Seq<char>, u64>,
    accepted: AuthContext,
    now: u64,
    attempt: AuthContext,
    later: u64,
)
    requires
        replay_check(config, used, accepted, now).1 is Ok,
        now + config.nonce_ttl_secs <= u64::MAX,
        attempt.service_id@ == accepted.service_id@,
        attempt.audience@ == accepted.audience@,
        attempt.nonce@ == accepted.nonce@,
        time_distance(later, attempt.timestamp_unix_secs) <= config.max_clock_skew_secs,
        later < now + config.nonce_ttl_secs,
    ensures
        replay_check(config, replay_check(config, used, accepted, now).0, attempt, later).1
            == Err::<(), AuthVerificationError>(AuthVerificationError::ReplayDetected),
{
    lemma_replay_detected(config, used, accepted, now, attempt, later);
}

/// An accepted request adds exactly one entry to the store of unexpired
/// nonces: the key `service_id:audience:nonce`, expiring at `now` plus the
/// time-to-live; every other unexpired entry stays as it was and the expired
/// ones are gone.
pub proof fn lemma_accepted_entry(
    config: ReplayProtectorConfig,
    used: Map<Seq<char>, u64>,
    context: AuthContext,
    now: u64,
)
    requires
        replay_check(config, used, context, now).1 is Ok,
    ensures
        replay_check(config, used, context, now).0 == Map::new(
            |k: Seq<char>| used.dom().contains(k) && used[k] > now,
            |k: Seq<char>| used[k],
        ).insert(
            context.service_id@ + ":"@ + context.audience@ + ":"@ + context.nonce@,
            (now + config.nonce_ttl_secs) as u64,
        ),
{
}

/// The timestamp window is symmetric around `now`: a request stamped more
/// than the allowed skew before or after `now` is rejected as expired with the
/// store untouched, and one stamped within the skew is never rejected as
/// expired.
pub proof fn lemma_timestamp_window(
    config: ReplayProtectorConfig,
    used: Map<Seq<char>, u64>,
    context: AuthContext,
    now: u64,
)
    ensures
        now >= context.timestamp_unix_secs && now - context.timestamp_unix_secs
            > config.max_clock_skew_secs ==> replay_check(config, used, context, now) == (
            used,
            Err::<(), AuthVerificationError>(AuthVerificationError::ExpiredTimestamp),
        ),
        context.timestamp_unix_secs > now && context.timestamp_unix_secs - now
            > config.max_clock_skew_secs ==> replay_check(config, used, context, now) == (
            used,
            Err::<(), AuthVerificationError>(AuthVerificationError::ExpiredTimestamp),
        ),
        (now >= context.timestamp_unix_secs ==> now - context.timestamp_unix_secs
            <= config.max_clock_skew_secs) && (context.timestamp_unix_secs > now
            ==> context.timestamp_unix_secs - now <= config.max_clock_skew_secs)
            ==> replay_check(config, used, context, now).1 != Err::<(), AuthVerificationError>(
            AuthVerificationError::ExpiredTimestamp,
        ),
{
}

} // verus!
