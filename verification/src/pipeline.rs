//! The pipeline engine: generator, worker families and merger wired
//! together through bounded channels.
//!
//! The engine below runs the stages on one schedule: for every item the
//! generator encodes the index and pushes it into the channel its fan-out
//! cursor picks, the worker owning that channel pops it, digests it and
//! pushes the digest into its output channel, and the merger — rotating
//! with an identical cursor — pops the digest and counts the completion.
//! The contracts pin down what any schedule must deliver: per channel the
//! values pop out in push order, and the run completes with exactly one
//! digest per item per family, drained in increasing index order within
//! each worker's partition.

use vstd::prelude::*;
use crate::channel::Channel;
use crate::config::ConfigError;
use crate::config::PipelineConfig;
use crate::config::spec_validate;
use crate::config::validate;
use crate::digest::HashFamily;
use crate::digest::apply_family;
use crate::digest::family_digest;
use crate::item::encode_item;
use crate::item::le_bytes_of;
use crate::schedule::RoundRobin;
use crate::schedule::fan_assignment;
use crate::schedule::lemma_round_robin_tracks_assignment;

verus! {

/// One bank of equally sized channels, one per worker of a family.
pub fn channel_bank<T>(count: usize, capacity: usize) -> (r: Vec<Channel<T>>)
    requires
        capacity >= 1,
    ensures
        r@.len() == count,
        forall|j: int|
            0 <= j < count ==> (#[trigger] r@[j]).wf() && r@[j]@ == Seq::<T>::empty() && r@[j].cap()
                == capacity,
{
    let mut r: Vec<Channel<T>> = Vec::new();
    while r.len() < count
        invariant
            capacity >= 1,
            r@.len() <= count,
            forall|j: int|
                0 <= j < r@.len() ==> (#[trigger] r@[j]).wf() && r@[j]@ == Seq::<T>::empty()
                    && r@[j].cap() == capacity,
        decreases count - r.len(),
    {
        r.push(Channel::new(capacity));
    }
    r
}

/// Run one family end to end: `n` items through `width` workers, every
/// hop over a channel of the given capacity.  The merged result holds
/// exactly one digest per item — no drops, no duplicates — in increasing
/// item order.
pub fn run_family_lane(family: HashFamily, n: usize, width: usize, capacity: usize) -> (r: Vec<
    Vec<u8>,
>)
    requires
        width >= 1,
        capacity >= 1,
    ensures
        r@.len() == n,
        forall|k: int|
            0 <= k < n ==> (#[trigger] r@[k])@ == family_digest(family, le_bytes_of(k as u64)),
{
    let mut inputs: Vec<Channel<Vec<u8>>> = channel_bank(width, capacity);
    let mut outputs: Vec<Channel<Vec<u8>>> = channel_bank(width, capacity);
    let mut fan_out = RoundRobin::new(width);
    let mut fan_in = RoundRobin::new(width);
    let mut merged: Vec<Vec<u8>> = Vec::new();
    let mut i: usize = 0;
    while i < n
        invariant
            i <= n,
            width >= 1,
            capacity >= 1,
            inputs@.len() == width,
            outputs@.len() == width,
            forall|j: int|
                0 <= j < width ==> (#[trigger] inputs@[j]).wf() && inputs@[j]@ == Seq::<
                    Vec<u8>,
                >::empty() && inputs@[j].cap() == capacity,
            forall|j: int|
                0 <= j < width ==> (#[trigger] outputs@[j]).wf() && outputs@[j]@ == Seq::<
                    Vec<u8>,
                >::empty() && outputs@[j].cap() == capacity,
            fan_out.wf(),
            fan_out.width() == width,
            fan_out.cursor() == fan_assignment(i as nat, width as nat),
            fan_in.wf(),
            fan_in.width() == width,
            fan_in.cursor() == fan_assignment(i as nat, width as nat),
            merged@.len() == i,
            forall|k: int|
                0 <= k < i ==> (#[trigger] merged@[k])@ == family_digest(
                    family,
                    le_bytes_of(k as u64),
                ),
        decreases n - i,
    {
        // Generator: encode the next item and fan it out.
        let preimage = encode_item(i as u64);
        let c = fan_out.next_slot();
        let lane_in = &mut inputs[c];
        let pushed = lane_in.try_push(preimage);
        match pushed {
            Ok(_) => {},
            Err(_) => {
                proof {
                    assert(false);
                }
            },
        }
        // Worker: pop the item from its exclusive input channel.
        let item = match lane_in.try_pop() {
            Some(v) => v,
            None => {
                proof {
                    assert(false);
                }
                Vec::new()
            },
        };
        let out = apply_family(family, &item);
        // Worker: push the digest; merger: rotate to the same channel and
        // drain it.
        let m = fan_in.next_slot();
        let lane_out = &mut outputs[m];
        let pushed_out = lane_out.try_push(out);
        match pushed_out {
            Ok(_) => {},
            Err(_) => {
                proof {
                    assert(false);
                }
            },
        }
        let digest = match lane_out.try_pop() {
            Some(v) => v,
            None => {
                proof {
                    assert(false);
                }
                Vec::new()
            },
        };
        merged.push(digest);
        proof {
            lemma_round_robin_tracks_assignment(i as nat, width as nat);
        }
        i = i + 1;
    }
    merged
}

/// Everything a completed run hands back: one digest per item per family,
/// in the order the merger drained them.
#[derive(Debug)]
pub struct PipelineOutcome {
    pub sha512_digests: Vec<Vec<u8>>,
    pub blake3_digests: Vec<Vec<u8>>,
}

/// Validate the configuration, then run both families to completion.
/// Succeeds exactly on valid configurations; a completed run holds, for
/// each family, one correct digest per item and nothing else.
pub fn run_pipeline(cfg: &PipelineConfig) -> (r: Result<PipelineOutcome, ConfigError>)
    ensures
        r is Ok <==> cfg.valid(),
        !cfg.valid() ==> r == Err::<PipelineOutcome, ConfigError>(spec_validate(*cfg)->Err_0),
        cfg.valid() ==> r->Ok_0.sha512_digests@.len() == cfg.total_items,
        cfg.valid() ==> r->Ok_0.blake3_digests@.len() == cfg.total_items,
        cfg.valid() ==> forall|k: int|
            0 <= k < cfg.total_items ==> (#[trigger] r->Ok_0.sha512_digests@[k])@ == family_digest(
                HashFamily::Sha512,
                le_bytes_of(k as u64),
            ),
        cfg.valid() ==> forall|k: int|
            0 <= k < cfg.total_items ==> (#[trigger] r->Ok_0.blake3_digests@[k])@ == family_digest(
                HashFamily::Blake3,
                le_bytes_of(k as u64),
            ),
{
    match validate(cfg) {
        Err(e) => Err(e),
        Ok(_) => {
            let sha512_digests = run_family_lane(
                HashFamily::Sha512,
                cfg.total_items,
                cfg.sha512_workers,
                cfg.channel_capacity,
            );
            let blake3_digests = run_family_lane(
                HashFamily::Blake3,
                cfg.total_items,
                cfg.blake3_workers,
                cfg.channel_capacity,
            );
            Ok(PipelineOutcome { sha512_digests, blake3_digests })
        },
    }
}

} // verus!
