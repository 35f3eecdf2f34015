//! Fan-out of delivered batches to the consumers.
//!
//! Every batch taken off the bridge is handed to both consumers: the
//! volume meter always, the recording session while it is recording.  Both
//! see the same samples in the same order, so their observed streams stay
//! equal to the in-order concatenation of the delivered batches — no
//! reordering, no duplication, and nothing lost but batches the bridge
//! already dropped.

use vstd::prelude::*;
use crate::controller::{RecordingController, RecState};
use crate::meter::VolumeMeter;
use crate::wav::{spec_data_bytes, MAX_DATA_LEN};

verus! {

/// All samples of a batch sequence, in order.
pub open spec fn flatten_batches(bs: Seq<Seq<i32>>) -> Seq<i32>
    decreases bs.len(),
{
    if bs.len() == 0 {
        Seq::empty()
    } else {
        flatten_batches(bs.drop_last()) + bs.last()
    }
}

/// A consumer's observed stream after a sequence of batches is delivered
/// to it, one at a time, each appended whole.
pub open spec fn observed_after(obs: Seq<i32>, bs: Seq<Seq<i32>>) -> Seq<i32>
    decreases bs.len(),
{
    if bs.len() == 0 {
        obs
    } else {
        observed_after(obs, bs.drop_last()) + bs.last()
    }
}

/// Delivering batches one at a time appends exactly their in-order
/// concatenation.
pub proof fn lemma_observed_after_flatten(obs: Seq<i32>, bs: Seq<Seq<i32>>)
    ensures
        observed_after(obs, bs) =~= obs + flatten_batches(bs),
    decreases bs.len(),
{
    if bs.len() > 0 {
        lemma_observed_after_flatten(obs, bs.drop_last());
    }
}

/// The fan-out law: two consumers that start with the same observed stream
/// and are handed the same batches in the same order end with the same
/// observed stream — the common prefix followed by every delivered sample
/// in arrival order, with no reordering and no duplication.
pub proof fn lemma_fanout_agreement(m0: Seq<i32>, w0: Seq<i32>, bs: Seq<Seq<i32>>)
    requires
        m0 == w0,
    ensures
        observed_after(m0, bs) =~= m0 + flatten_batches(bs),
        observed_after(m0, bs) == observed_after(w0, bs),
{
    lemma_observed_after_flatten(m0, bs);
}

/// Hand one batch to both consumers.  The meter sees it always; the
/// session appends it to the writer while recording, unless the container
/// is out of room, in which case that batch is skipped rather than ending
/// the session.
pub fn deliver(controller: &mut RecordingController, meter: &mut VolumeMeter, batch: &Vec<i32>)
    requires
        old(controller).wf(),
        old(meter).wf(),
    ensures
        final(controller).wf(),
        final(meter).wf(),
        final(meter).window_ms() == old(meter).window_ms(),
        final(meter).anchor_ms() == old(meter).anchor_ms(),
        final(meter).observed() =~= old(meter).observed() + batch@,
        final(meter).window_samples() =~= old(meter).window_samples() + batch@,
        final(controller).format() == old(controller).format(),
        final(controller).model().state == old(controller).model().state,
        final(controller).model().start_ms == old(controller).model().start_ms,
        final(controller).model().output == old(controller).model().output,
        ({
            let fits = spec_data_bytes(old(controller).format().kind,
                old(controller).model().written).len() + batch@.len()
                * old(controller).format().kind.spec_sample_bytes() <= MAX_DATA_LEN;
            if old(controller).model().state == RecState::Recording && fits {
                final(controller).model().written =~= old(controller).model().written + batch@
            } else {
                final(controller).model().written == old(controller).model().written
            }
        }),
{
    if controller.can_accept(batch.len()) {
        controller.feed_batch(batch);
    }
    meter.feed_batch(batch);
}

} // verus!
