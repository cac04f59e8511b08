//! The rate-limit engine: one admission bucket per origin, built from the
//! origin's quota settings.
use vstd::prelude::*;

use governor::Quota;

use crate::config_store::{
    entry_with_key, key_of, keys_unique, lemma_position_of_same_keys, position_by_key, position_of,
    upsert, Keyed,
};
use crate::definitions::{Origin, RateLimiterAlgorithm, RateLimiterConfig, TimeUnit};

verus! {

/// governor's `Quota`, carried opaquely: what it holds is known only
/// through the constructors below.
#[verifier::external_type_specification]
#[verifier::external_body]
pub struct ExQuota(governor::Quota);

/// The quota that governor builds for `max_burst` cells per hour.
pub uninterp spec fn quota_per_hour(max_burst: u32) -> Quota;

/// The quota that governor builds for `max_burst` cells per minute.
pub uninterp spec fn quota_per_minute(max_burst: u32) -> Quota;

/// The quota that governor builds for `max_burst` cells per second.
pub uninterp spec fn quota_per_second(max_burst: u32) -> Quota;

/// Relies on governor's `Quota::per_hour`: the quota depends on the burst
/// size alone; it panics on nothing once the size is nonzero.
#[verifier::external_body]
fn hourly_quota(max_burst: u32) -> (q: Quota)
    requires
        max_burst > 0,
    ensures
        q == quota_per_hour(max_burst),
{
    Quota::per_hour(std::num::NonZeroU32::new(max_burst).unwrap())
}

/// Relies on governor's `Quota::per_minute`: the quota depends on the burst
/// size alone.
#[verifier::external_body]
fn minutely_quota(max_burst: u32) -> (q: Quota)
    requires
        max_burst > 0,
    ensures
        q == quota_per_minute(max_burst),
{
    Quota::per_minute(std::num::NonZeroU32::new(max_burst).unwrap())
}

/// Relies on governor's `Quota::per_second`: the quota depends on the burst
/// size alone.
#[verifier::external_body]
fn secondly_quota(max_burst: u32) -> (q: Quota)
    requires
        max_burst > 0,
    ensures
        q == quota_per_second(max_burst),
{
    Quota::per_second(std::num::NonZeroU32::new(max_burst).unwrap())
}

/// The request count that a configured value stands for: zero means the
/// default of 100.
pub open spec fn effective_requests(req_per_time_unit: u32) -> u32 {
    if req_per_time_unit == 0 {
        100
    } else {
        req_per_time_unit
    }
}

/// The quota of a rate-limit configuration.
pub open spec fn quota_for(config: RateLimiterConfig) -> Quota {
    let n = effective_requests(config.req_per_time_unit);
    match config.time_unit {
        TimeUnit::Hour => quota_per_hour(n),
        TimeUnit::Minute => quota_per_minute(n),
        TimeUnit::Second => quota_per_second(n),
    }
}

/// The positive request count for a configured value, substituting 100 for zero.
pub fn create_non_zero_u32_from_u32(input: u32) -> (r: u32)
    ensures
        r == effective_requests(input),
        r > 0,
{
    if input == 0 {
        100
    } else {
        input
    }
}

/// The quota that an origin's rate-limit configuration asks for.
pub fn calculate_quota(rate_limiter_config: RateLimiterConfig) -> (q: Quota)
    ensures
        q == quota_for(rate_limiter_config),
{
    let n = create_non_zero_u32_from_u32(rate_limiter_config.req_per_time_unit);
    match rate_limiter_config.time_unit {
        TimeUnit::Hour => hourly_quota(n),
        TimeUnit::Minute => minutely_quota(n),
        TimeUnit::Second => secondly_quota(n),
    }
}

/// A direct (unkeyed) governor rate limiter on the system clock. governor
/// declares its limiter with bounds of its own traits, so the limiter is
/// held here opaquely.
#[verifier::external_body]
pub struct Bucket {
    limiter: governor::RateLimiter<
        governor::state::NotKeyed,
        governor::state::InMemoryState,
        governor::clock::DefaultClock,
    >,
}

/// The quota that a bucket was built with.
pub uninterp spec fn bucket_quota(b: Bucket) -> Quota;

/// Relies on governor's `RateLimiter::direct`: a fresh limiter for the quota,
/// on the default clock.
#[verifier::external_body]
fn new_bucket(quota: Quota) -> (b: Bucket)
    ensures
        bucket_quota(b) == quota,
{
    Bucket { limiter: governor::RateLimiter::direct(quota) }
}

/// Relies on governor's `RateLimiter::check`: takes one cell if one is
/// available now. The answer depends on the clock, so nothing is promised of it.
#[verifier::external_body]
fn bucket_admits(b: &Bucket) -> (r: bool) {
    b.limiter.check().is_ok()
}

/// The bucket of one origin and the quota it was built with.
pub struct OriginBucket {
    origin_id: String,
    quota: Quota,
    bucket: Bucket,
}

pub open spec fn bucket_key() -> spec_fn((Seq<char>, Quota, Bucket)) -> Seq<char> {
    |e: (Seq<char>, Quota, Bucket)| e.0
}

impl Keyed for OriginBucket {
    closed spec fn key_view(&self) -> Seq<char> {
        self.origin_id@
    }

    fn key(&self) -> (r: &String) {
        &self.origin_id
    }
}

/// A message to the engine.
pub enum RateLimiterCommand {
    /// Asks whether a request to the origin may go ahead now.
    ShouldProgress { origin_id: String },
    /// Creates or replaces the origin's bucket.
    UpdateOriginSpecification { origin_id: String, rate_limiter_spec: RateLimiterConfig },
}

/// Per-origin admission buckets. A bucket exists for an origin once its
/// configuration has been received.
pub struct RateLimitEngine {
    buckets: Vec<OriginBucket>,
}

impl RateLimitEngine {
    /// Each bucket with its origin id and its quota, in order of creation.
    pub closed spec fn entries(&self) -> Seq<(Seq<char>, Quota, Bucket)> {
        self.buckets@.map_values(|b: OriginBucket| (b.origin_id@, b.quota, b.bucket))
    }

    /// The quota of the origin's bucket, if it has one.
    pub open spec fn quota_of(&self, origin_id: Seq<char>) -> Option<Quota> {
        match entry_with_key(self.entries(), bucket_key(), origin_id) {
            Some(e) => Some(e.1),
            None => None,
        }
    }

    /// The origin's bucket, if it has one.
    pub open spec fn bucket_for(&self, origin_id: Seq<char>) -> Option<Bucket> {
        match entry_with_key(self.entries(), bucket_key(), origin_id) {
            Some(e) => Some(e.2),
            None => None,
        }
    }

    /// No origin has two buckets, and each bucket was built with the quota
    /// recorded beside it.
    pub open spec fn wf(&self) -> bool {
        &&& keys_unique(self.entries(), bucket_key())
        &&& forall|i: int|
            0 <= i < self.entries().len() ==> bucket_quota(#[trigger] self.entries()[i].2)
                == self.entries()[i].1
    }

    /// An engine with no buckets.
    pub fn new() -> (r: Self)
        ensures
            r.wf(),
            r.entries() == Seq::<(Seq<char>, Quota, Bucket)>::empty(),
    {
        let r = RateLimitEngine { buckets: Vec::new() };
        assert(r.entries() =~= Seq::<(Seq<char>, Quota, Bucket)>::empty());
        r
    }

    fn position(&self, origin_id: &String) -> (r: Option<usize>)
        ensures
            match r {
                Some(p) => p < self.buckets@.len() && p as int == position_of(
                    self.entries(),
                    bucket_key(),
                    origin_id@,
                ),
                None => position_of(self.entries(), bucket_key(), origin_id@) < 0,
            },
    {
        proof {
            lemma_position_of_same_keys(
                self.buckets@,
                key_of::<OriginBucket>(),
                self.entries(),
                bucket_key(),
                origin_id@,
            );
        }
        position_by_key(&self.buckets, origin_id)
    }

    /// The origin's bucket, if it has one.
    pub fn bucket_of(&self, origin_id: &String) -> (r: Option<&Bucket>)
        ensures
            r is None <==> self.bucket_for(origin_id@) is None,
            r matches Some(b) ==> self.bucket_for(origin_id@) == Some(*b),
    {
        proof {
            crate::config_store::lemma_position_of(self.entries(), bucket_key(), origin_id@);
        }
        match self.position(origin_id) {
            Some(p) => Some(&self.buckets[p].bucket),
            None => None,
        }
    }

    /// Creates the origin's bucket, built anew from its configuration's
    /// quota, or replaces the bucket it has; the other buckets stay as they are.
    pub fn update_origin_specification(
        &mut self,
        origin_id: String,
        rate_limiter_spec: RateLimiterConfig,
    )
        requires
            old(self).wf(),
        ensures
            final(self).wf(),
            final(self).bucket_for(origin_id@) matches Some(b) && bucket_quota(b) == quota_for(
                rate_limiter_spec,
            ) && final(self).entries() == upsert(
                old(self).entries(),
                bucket_key(),
                (origin_id@, quota_for(rate_limiter_spec), b),
            ),
    {
        let quota = calculate_quota(rate_limiter_spec);
        let ghost before = self.entries();
        let ghost id = origin_id@;
        let pos = self.position(&origin_id);
        let fresh = new_bucket(quota);
        let ghost entry = (id, quota, fresh);
        let bucket = OriginBucket { origin_id, quota, bucket: fresh };
        match pos {
            Some(p) => {
                self.buckets.set(p, bucket);
                assert(self.entries() =~= before.update(p as int, entry));
            },
            None => {
                self.buckets.push(bucket);
                assert(self.entries() =~= before.push(entry));
            },
        }
        proof {
            crate::config_store::lemma_upsert_unique(before, bucket_key(), entry);
            crate::config_store::lemma_position_of(before, bucket_key(), id);
            crate::config_store::lemma_position_of(self.entries(), bucket_key(), id);
            crate::config_store::lemma_upsert_finds(before, bucket_key(), entry);
        }
    }

    /// Whether a request to the origin may go ahead now. An origin without a
    /// bucket is always refused; otherwise the answer is the one its own
    /// bucket (`bucket_of`) gives.
    pub fn should_progress(&self, origin_id: &String) -> (r: bool)
        ensures
            self.bucket_for(origin_id@) is None ==> !r,
    {
        match self.bucket_of(origin_id) {
            Some(b) => bucket_admits(b),
            None => false,
        }
    }

    /// Serves one message: an admission question gets its answer, an update
    /// gets none.
    pub fn handle_command(&mut self, command: RateLimiterCommand) -> (r: Option<bool>)
        requires
            old(self).wf(),
        ensures
            final(self).wf(),
            match command {
                RateLimiterCommand::ShouldProgress { origin_id } => {
                    &&& r is Some
                    &&& final(self).entries() == old(self).entries()
                    &&& old(self).bucket_for(origin_id@) is None ==> r == Some(false)
                },
                RateLimiterCommand::UpdateOriginSpecification { origin_id, rate_limiter_spec } => {
                    &&& r is None
                    &&& final(self).bucket_for(origin_id@) matches Some(b) && bucket_quota(b)
                        == quota_for(rate_limiter_spec) && final(self).entries() == upsert(
                        old(self).entries(),
                        bucket_key(),
                        (origin_id@, quota_for(rate_limiter_spec), b),
                    )
                },
            },
    {
        match command {
            RateLimiterCommand::ShouldProgress { origin_id } => Some(self.should_progress(&origin_id)),
            RateLimiterCommand::UpdateOriginSpecification { origin_id, rate_limiter_spec } => {
                self.update_origin_specification(origin_id, rate_limiter_spec);
                None
            },
        }
    }
}

/// A configured count of zero stands for 100 requests per the configured
/// unit: the quota is the one of the same unit with 100.
pub proof fn lemma_zero_means_one_hundred(algorithm: RateLimiterAlgorithm, time_unit: TimeUnit)
    ensures
        quota_for(RateLimiterConfig { algorithm, time_unit, req_per_time_unit: 0 }) == quota_for(
            RateLimiterConfig { algorithm, time_unit, req_per_time_unit: 100 },
        ),
        effective_requests(0) == 100,
{
}

/// The engine updates that seed a bucket for each origin, in catalog order.
pub fn rate_limiter_updates(origin_definitions: &Vec<Origin>) -> (r: Vec<RateLimiterCommand>)
    ensures
        r@.len() == origin_definitions@.len(),
        forall|i: int|
            0 <= i < r@.len() ==> (#[trigger] r@[i] matches RateLimiterCommand::UpdateOriginSpecification {
                origin_id,
                rate_limiter_spec,
            } && origin_id@ == origin_definitions@[i].origin_id@ && rate_limiter_spec
                == origin_definitions@[i].specification.rate_limiter),
{
    let mut r: Vec<RateLimiterCommand> = Vec::new();
    let mut i: usize = 0;
    while i < origin_definitions.len()
        invariant
            i <= origin_definitions@.len(),
            r@.len() == i,
            forall|k: int|
                0 <= k < i ==> (#[trigger] r@[k] matches RateLimiterCommand::UpdateOriginSpecification {
                    origin_id,
                    rate_limiter_spec,
                } && origin_id@ == origin_definitions@[k].origin_id@ && rate_limiter_spec
                    == origin_definitions@[k].specification.rate_limiter),
        decreases origin_definitions.len() - i,
    {
        let origin = &origin_definitions[i];
        r.push(
            RateLimiterCommand::UpdateOriginSpecification {
                origin_id: origin.origin_id.clone(),
                rate_limiter_spec: origin.specification.rate_limiter,
            },
        );
        i += 1;
    }
    r
}

} // verus!
