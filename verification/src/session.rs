//! The capture session: lifecycle and the capture-to-queue bridge.
//!
//! A session is constructed closed, with a negotiated format and an empty
//! queue; it opens when the caller's hardware stream is built and started,
//! and closes on request. The producer side normalizes each hardware buffer
//! into the queue; the consumer side removes one sample at a time. The
//! hardware itself (building, starting and stopping the stream, callback
//! delivery, the producer's execution context) belongs to the caller, who
//! reports its answers as plain values and must stop delivering once `close`
//! has returned.

use vstd::prelude::*;
use crate::catalog::DeviceInfo;
use crate::catalog::negotiate;
use crate::format::AudioFormat;
use crate::format::center_unsigned;
use crate::format::spec_center_unsigned;
use crate::queue::SampleQueue;
use crate::CaptureError;

verus! {

/// Whether `i` is the first entry of `devices` whose name is exactly `name`.
pub open spec fn first_match(devices: Seq<DeviceInfo>, name: Seq<char>, i: int) -> bool {
    &&& 0 <= i < devices.len()
    &&& devices[i].name@ == name
    &&& forall|j: int| 0 <= j < i ==> devices[j].name@ != name
}

/// A capture session over one input device.
///
/// The format is immutable once negotiated; the queue is the sample buffer
/// the producer fills and the consumer drains.
pub struct CaptureSession {
    format: AudioFormat,
    queue: SampleQueue,
    opened: bool,
}

impl CaptureSession {
    /// The format negotiated at construction.
    pub closed spec fn negotiated_format(&self) -> AudioFormat {
        self.format
    }

    /// Whether the session currently owns an active hardware stream.
    pub closed spec fn opened(&self) -> bool {
        self.opened
    }

    /// The samples delivered by the producer and not yet read, oldest first.
    pub closed spec fn pending(&self) -> Seq<i16> {
        self.queue@
    }

    /// The bound of the session's sample queue.
    pub closed spec fn queue_cap(&self) -> usize {
        self.queue.cap()
    }

    /// The session's queue never exceeds its bound.
    pub closed spec fn wf(&self) -> bool {
        self.queue.wf()
    }

    /// Resolve `device_name` against the catalog and construct a closed
    /// session: format negotiated from the first matching device, an empty
    /// queue bounded by `queue_capacity`, and no hardware resource acquired.
    ///
    /// Fails with `DeviceNotFound` exactly when no catalog entry's name
    /// matches `device_name`.
    pub fn new(devices: &Vec<DeviceInfo>, device_name: &String, queue_capacity: usize) -> (r:
        Result<CaptureSession, CaptureError>)
        requires
            queue_capacity >= 1,
        ensures
            r is Err <==> (forall|j: int|
                0 <= j < devices@.len() ==> devices@[j].name@ != device_name@),
            r is Err ==> r == Err::<CaptureSession, CaptureError>(CaptureError::DeviceNotFound),
            r matches Ok(s) ==> {
                &&& s.wf()
                &&& !s.opened()
                &&& s.pending() == Seq::<i16>::empty()
                &&& s.queue_cap() == queue_capacity
                &&& exists|i: int|
                    first_match(devices@, device_name@, i) && s.negotiated_format()
                        == devices@[i].default_format
            },
    {
        match negotiate(devices, device_name) {
            Ok(nd) => {
                let s = CaptureSession {
                    format: nd.format,
                    queue: SampleQueue::new(queue_capacity),
                    opened: false,
                };
                proof {
                    assert(first_match(devices@, device_name@, nd.index as int));
                }
                Ok(s)
            }
            Err(_) => Err(CaptureError::DeviceNotFound),
        }
    }

    /// Whether the format interleaves two or more channels per frame; the
    /// transport reads this once at session creation.
    pub fn is_stereo(&self) -> (r: bool)
        ensures
            r == (self.negotiated_format().channel_count >= 2),
    {
        self.format.stereo()
    }

    /// The format negotiated at construction.
    pub fn format(&self) -> (r: AudioFormat)
        ensures
            r == self.negotiated_format(),
    {
        self.format
    }

    /// Whether the session currently owns an active hardware stream.
    pub fn is_open(&self) -> (r: bool)
        ensures
            r == self.opened(),
    {
        self.opened
    }

    /// Transition for `open()`: the caller has asked the hardware to build
    /// and start an input stream in the session's format and reports with
    /// `stream_accepted` whether it succeeded.
    ///
    /// Opening an already-open session is refused with `AlreadyOpen` before
    /// any hardware is touched. A rejected stream fails with `StreamBuild`
    /// and leaves the session closed and safely reusable for a later
    /// attempt. On success the session is open and its queue is untouched.
    pub fn open(&mut self, stream_accepted: bool) -> (r: Result<(), CaptureError>)
        requires
            old(self).wf(),
        ensures
            final(self).wf(),
            final(self).negotiated_format() == old(self).negotiated_format(),
            final(self).pending() == old(self).pending(),
            final(self).queue_cap() == old(self).queue_cap(),
            r is Ok <==> !old(self).opened() && stream_accepted,
            old(self).opened() ==> r == Err::<(), CaptureError>(CaptureError::AlreadyOpen)
                && *final(self) == *old(self),
            !old(self).opened() && !stream_accepted ==> r == Err::<(), CaptureError>(
                CaptureError::StreamBuild,
            ) && *final(self) == *old(self),
            r is Ok ==> final(self).opened(),
    {
        if self.opened {
            Err(CaptureError::AlreadyOpen)
        } else if !stream_accepted {
            Err(CaptureError::StreamBuild)
        } else {
            self.opened = true;
            Ok(())
        }
    }

    /// Transition for `close()`: stop and release the hardware stream.
    ///
    /// Closing a session with no active stream — one never opened, or one
    /// already closed — is a precondition error, `Close`, and mutates
    /// nothing, so the caller never tears down hardware state it does not
    /// hold. On success the session is closed; the caller must stop the
    /// producer and join its execution context before relying on the queue
    /// being quiescent.
    pub fn close(&mut self) -> (r: Result<(), CaptureError>)
        requires
            old(self).wf(),
        ensures
            final(self).wf(),
            final(self).negotiated_format() == old(self).negotiated_format(),
            final(self).pending() == old(self).pending(),
            final(self).queue_cap() == old(self).queue_cap(),
            r is Err <==> !old(self).opened(),
            r is Err ==> r == Err::<(), CaptureError>(CaptureError::Close) && *final(self)
                == *old(self),
            r is Ok ==> !final(self).opened(),
    {
        if !self.opened {
            Err(CaptureError::Close)
        } else {
            self.opened = false;
            Ok(())
        }
    }

    /// Producer side: normalize one hardware buffer of unsigned 16-bit
    /// samples and append them to the queue in arrival order, re-centering
    /// each around the representation's midpoint.
    ///
    /// Returns how many samples were accepted: the longest prefix that fits
    /// under the queue's bound. Under the blocking backpressure policy the
    /// caller retries the remainder once the consumer has drained; nothing
    /// already queued is overwritten.
    pub fn deliver_unsigned(&mut self, buf: &Vec<u16>) -> (n: usize)
        requires
            old(self).wf(),
        ensures
            final(self).wf(),
            final(self).negotiated_format() == old(self).negotiated_format(),
            final(self).opened() == old(self).opened(),
            final(self).queue_cap() == old(self).queue_cap(),
            n == vstd::math::min(
                buf@.len() as int,
                old(self).queue_cap() - old(self).pending().len(),
            ),
            final(self).pending() == old(self).pending() + buf@.subrange(0, n as int).map_values(
                |s: u16| spec_center_unsigned(s),
            ),
    {
        let mut k: usize = 0;
        while k < buf.len()
            invariant
                k <= buf@.len(),
                self.wf(),
                self.negotiated_format() == old(self).negotiated_format(),
                self.opened() == old(self).opened(),
                self.queue_cap() == old(self).queue_cap(),
                self.pending().len() == old(self).pending().len() + k,
                self.pending() == old(self).pending() + buf@.subrange(0, k as int).map_values(
                    |s: u16| spec_center_unsigned(s),
                ),
            decreases buf@.len() - k,
        {
            let accepted = self.queue.enqueue(center_unsigned(buf[k]));
            if !accepted {
                return k;
            }
            proof {
                let sub = buf@.subrange(0, k + 1);
                assert(sub.drop_last() =~= buf@.subrange(0, k as int));
                assert(sub.map_values(|s: u16| spec_center_unsigned(s)) =~= sub.drop_last(
                ).map_values(|s: u16| spec_center_unsigned(s)).push(
                    spec_center_unsigned(buf@[k as int]),
                ));
                assert(self.pending() =~= old(self).pending() + sub.map_values(
                    |s: u16| spec_center_unsigned(s),
                ));
            }
            k += 1;
        }
        k
    }

    /// Producer side: append one hardware buffer of signed 16-bit samples —
    /// already the canonical representation — to the queue in arrival order,
    /// unchanged.
    ///
    /// Returns how many samples were accepted: the longest prefix that fits
    /// under the queue's bound, as for `deliver_unsigned`.
    pub fn deliver_signed(&mut self, buf: &Vec<i16>) -> (n: usize)
        requires
            old(self).wf(),
        ensures
            final(self).wf(),
            final(self).negotiated_format() == old(self).negotiated_format(),
            final(self).opened() == old(self).opened(),
            final(self).queue_cap() == old(self).queue_cap(),
            n == vstd::math::min(
                buf@.len() as int,
                old(self).queue_cap() - old(self).pending().len(),
            ),
            final(self).pending() == old(self).pending() + buf@.subrange(0, n as int),
    {
        let mut k: usize = 0;
        while k < buf.len()
            invariant
                k <= buf@.len(),
                self.wf(),
                self.negotiated_format() == old(self).negotiated_format(),
                self.opened() == old(self).opened(),
                self.queue_cap() == old(self).queue_cap(),
                self.pending().len() == old(self).pending().len() + k,
                self.pending() == old(self).pending() + buf@.subrange(0, k as int),
            decreases buf@.len() - k,
        {
            let accepted = self.queue.enqueue(buf[k]);
            if !accepted {
                return k;
            }
            proof {
                let sub = buf@.subrange(0, k + 1);
                assert(sub.drop_last() =~= buf@.subrange(0, k as int));
                assert(self.pending() =~= old(self).pending() + sub);
            }
            k += 1;
        }
        k
    }

    /// Consumer side: remove and return the sample at the head of the queue,
    /// the oldest one delivered and not yet read.
    ///
    /// Returns `None` exactly when the queue is empty. The blocking
    /// `read_sample` contract is this call under the caller's wait/notify
    /// discipline: on `None` the consumer suspends until the producer has
    /// delivered, then retries — it is never handed a fabricated sample.
    pub fn try_read_sample(&mut self) -> (r: Option<i16>)
        requires
            old(self).wf(),
        ensures
            final(self).wf(),
            final(self).negotiated_format() == old(self).negotiated_format(),
            final(self).opened() == old(self).opened(),
            final(self).queue_cap() == old(self).queue_cap(),
            r is Some <==> old(self).pending().len() > 0,
            r matches Some(s) ==> s == old(self).pending()[0] && final(self).pending() == old(
                self,
            ).pending().subrange(1, old(self).pending().len() as int),
            r is None ==> final(self).pending() == old(self).pending(),
    {
        self.queue.dequeue()
    }
}

} // verus!
