//! A set of images to be rendered to: the swapchain handle with its
//! single-owner teardown, the acquire/wait/release ring protocol, image
//! enumeration, and the optional debug-naming capability.
//!
//! The driver's entry points are invoked by the caller, who hands the
//! reported outcome back as a plain report value; every decision over those
//! reports, and the protocol state they advance, is made and verified here.

use vstd::prelude::*;

use crate::driver::AcquireReport;
use crate::driver::CreateReport;
use crate::driver::DestroyRequest;
use crate::driver::EnumerateReport;
use crate::driver::SwapchainError;
use crate::driver::WaitReport;
use crate::driver::STATUS_TIMEOUT_EXPIRED;
use crate::driver::status_is_failure;
use crate::ring::RingModel;
use crate::ring::lemma_after_acquire_wf;
use crate::ring::lemma_after_release_wf;
use crate::ring::lemma_after_wait_wf;
use crate::ring::lemma_empty_wf;
use crate::session::Instance;
use crate::session::Session;

verus! {

/// The configuration a swapchain is created with. Format, sample layout and
/// dimensions are the graphics backend's concern and pass through untouched;
/// the one field the ring protocol reads is `image_count`, the fixed size of
/// the compositor-owned image ring.
#[derive(Clone, Copy, Debug, PartialEq, Eq, Structural)]
pub struct SwapchainConfig {
    pub format: i64,
    pub sample_count: u32,
    pub width: u32,
    pub height: u32,
    pub face_count: u32,
    pub array_size: u32,
    pub mip_count: u32,
    /// The number of images in the compositor's ring.
    pub image_count: u32,
}

/// The debug-name operation decided for a swapchain: either it already
/// succeeded without a driver call, or the caller issues the described call
/// and interprets its status with [`crate::status_to_result`].
pub enum NamePlan<'a> {
    /// The debug-naming capability is absent: the operation succeeded and no
    /// driver call is made. Naming is diagnostic-only, so its absence is
    /// never an error.
    Done,
    /// The capability is present: the caller tags `object_handle` on
    /// `instance_handle` with `name`. Repeating the call is harmless; the
    /// last write wins.
    Call { instance_handle: u64, object_handle: u64, name: &'a str },
}

/// What a wait produced when no failure was reported.
#[derive(Clone, Copy, Debug, PartialEq, Eq, Structural)]
pub enum WaitOutcome {
    /// The oldest unwaited image is now ready to use.
    Ready,
    /// The timeout elapsed first. Not a failure: the ring state is
    /// unchanged and the caller decides whether to retry or abandon the
    /// frame.
    TimedOut,
}

/// A swapchain: exclusive ownership of one compositor-side image ring,
/// scoped to the session it was created from.
///
/// The handle is never copied out as an owner, only read; teardown goes
/// through [`Swapchain::destroy`], which consumes the value, so the driver's
/// destroy entry point is issued at most once per handle.
pub struct Swapchain {
    /// The owning session. It provides the driver interface and must remain
    /// alive for this swapchain's lifetime.
    session: Session,
    /// The driver-assigned swapchain handle, exclusively owned.
    handle: u64,
    /// The fixed size of the compositor's image ring.
    image_count: u32,
    /// The ring protocol state: ghost, because the underlying protocol
    /// makes ordering the caller's responsibility rather than tracking it
    /// at run time. The contracts below turn that documented obligation
    /// into checked preconditions.
    ring: Ghost<RingModel>,
}

impl Swapchain {
    /// The ring protocol state.
    pub closed spec fn model(&self) -> RingModel {
        self.ring@
    }

    /// The owning session.
    pub closed spec fn spec_session(&self) -> Session {
        self.session
    }

    /// The raw driver-assigned handle.
    pub closed spec fn spec_as_raw(&self) -> u64 {
        self.handle
    }

    /// The fixed size of the compositor's image ring.
    pub closed spec fn spec_image_count(&self) -> u32 {
        self.image_count
    }

    /// The ring protocol state is well-formed for this ring's size.
    pub open spec fn wf(&self) -> bool {
        self.model().wf(self.spec_image_count())
    }

    /// The session, handle and ring size a swapchain was created with never
    /// change; only the protocol state advances.
    pub open spec fn same_identity(&self, other: &Swapchain) -> bool {
        &&& self.spec_session() == other.spec_session()
        &&& self.spec_as_raw() == other.spec_as_raw()
        &&& self.spec_image_count() == other.spec_image_count()
    }

    /// Interpret the driver's report from the create entry point. On a
    /// failure the status is surfaced verbatim; on success the caller holds
    /// exclusive ownership of the reported handle, with nothing acquired
    /// yet.
    pub fn create(session: Session, config: SwapchainConfig, report: CreateReport) -> (r: Result<
        Swapchain,
        SwapchainError,
    >)
        ensures
            status_is_failure(report.status) ==> r == Err::<Swapchain, SwapchainError>(
                SwapchainError::Driver { status: report.status },
            ),
            !status_is_failure(report.status) ==> (r matches Ok(sc) && sc.spec_session() == session
                && sc.spec_as_raw() == report.handle && sc.spec_image_count() == config.image_count
                && sc.model() == RingModel::empty() && sc.wf()),
    {
        if report.status < 0 {
            Err(SwapchainError::Driver { status: report.status })
        } else {
            proof {
                lemma_empty_wf(config.image_count);
            }
            Ok(
                Swapchain {
                    session,
                    handle: report.handle,
                    image_count: config.image_count,
                    ring: Ghost(RingModel::empty()),
                },
            )
        }
    }

    /// Take ownership of an existing swapchain handle without issuing a
    /// create call. The caller guarantees, at the driver boundary, that
    /// `handle` is a valid swapchain handle associated with `session`, that
    /// its ring holds `image_count` images, and that no other owner holds
    /// it; a violated guarantee is undefined behavior at that boundary, not
    /// a recoverable error here.
    pub fn from_raw(session: Session, handle: u64, image_count: u32) -> (r: Swapchain)
        ensures
            r.spec_session() == session,
            r.spec_as_raw() == handle,
            r.spec_image_count() == image_count,
            r.model() == RingModel::empty(),
            r.wf(),
    {
        proof {
            lemma_empty_wf(image_count);
        }
        Swapchain { session, handle, image_count, ring: Ghost(RingModel::empty()) }
    }

    /// Read the raw swapchain handle. No side effect, and no transfer of
    /// ownership: teardown still goes through [`Swapchain::destroy`].
    #[verifier::when_used_as_spec(spec_as_raw)]
    pub fn as_raw(&self) -> (r: u64)
        ensures
            r == self.spec_as_raw(),
    {
        self.handle
    }

    /// The instance this swapchain is descended from.
    pub fn instance(&self) -> (r: &Instance)
        ensures
            *r == self.spec_session().spec_instance(),
    {
        self.session.instance()
    }

    /// The session this swapchain belongs to.
    pub fn owning_session(&self) -> (r: &Session)
        ensures
            *r == self.spec_session(),
    {
        &self.session
    }

    /// The fixed size of the compositor's image ring.
    #[verifier::when_used_as_spec(spec_image_count)]
    pub fn image_count(&self) -> (r: u32)
        ensures
            r == self.spec_image_count(),
    {
        self.image_count
    }

    /// Decide the debug-name operation for this swapchain. When the
    /// debug-naming capability was not negotiated the operation succeeds
    /// with no driver call; when it was, the returned plan names the call
    /// the caller issues.
    pub fn set_name<'a>(&self, name: &'a str) -> (r: NamePlan<'a>)
        ensures
            !self.spec_session().spec_instance().spec_has_debug_utils() ==> r is Done,
            self.spec_session().spec_instance().spec_has_debug_utils() ==> (r matches NamePlan::Call {
                instance_handle,
                object_handle,
                name: n,
            } && instance_handle == self.spec_session().spec_instance().spec_raw_handle()
                && object_handle == self.spec_as_raw() && n@ == name@),
    {
        if self.session.instance().has_debug_utils() {
            NamePlan::Call {
                instance_handle: self.session.instance().raw_handle(),
                object_handle: self.handle,
                name,
            }
        } else {
            NamePlan::Done
        }
    }

    /// Interpret the driver's report from the acquire entry point, which
    /// hands out the next ring slot to render to. The driver enforces its
    /// own bound on outstanding acquisitions; a failure it reports is
    /// surfaced verbatim, never pre-empted here. A reported slot index
    /// outside the ring is a driver inconsistency and is rejected, so every
    /// index this function returns lies in `[0, image_count)`.
    pub fn acquire_image(&mut self, report: AcquireReport) -> (r: Result<u32, SwapchainError>)
        requires
            old(self).wf(),
        ensures
            final(self).wf(),
            old(self).same_identity(final(self)),
            r matches Ok(idx) ==> idx < old(self).spec_image_count(),
            status_is_failure(report.status) ==> (r == Err::<u32, SwapchainError>(
                SwapchainError::Driver { status: report.status },
            ) && final(self).model() == old(self).model()),
            !status_is_failure(report.status) && report.index >= old(self).spec_image_count() ==> (r
                == Err::<u32, SwapchainError>(
                SwapchainError::IndexOutOfRange {
                    index: report.index,
                    image_count: old(self).spec_image_count(),
                },
            ) && final(self).model() == old(self).model()),
            !status_is_failure(report.status) && report.index < old(self).spec_image_count() ==> (r
                == Ok::<u32, SwapchainError>(report.index)
                && final(self).model() == old(self).model().after_acquire(report.index)),
    {
        if report.status < 0 {
            return Err(SwapchainError::Driver { status: report.status });
        }
        if report.index >= self.image_count {
            return Err(
                SwapchainError::IndexOutOfRange {
                    index: report.index,
                    image_count: self.image_count,
                },
            );
        }
        proof {
            lemma_after_acquire_wf(self.ring@, self.image_count, report.index);
        }
        self.ring = Ghost(self.ring@.after_acquire(report.index));
        Ok(report.index)
    }

    /// Interpret the driver's report from the wait entry point, invoked for
    /// the oldest unwaited acquired image with the timeout recorded in the
    /// report (zero polls, the driver's infinite value blocks
    /// indefinitely). Exactly one image must be outstanding unwaited, and
    /// the previous wait's image must have been released: the underlying
    /// protocol leaves anything else undefined, so those are preconditions
    /// here, not run-time checks. An expired timeout is a distinguished
    /// non-failure outcome that leaves the ring state unchanged.
    pub fn wait_image(&mut self, report: WaitReport) -> (r: Result<WaitOutcome, SwapchainError>)
        requires
            old(self).wf(),
            old(self).model().pending.len() > 0,
            old(self).model().ready is None,
        ensures
            final(self).wf(),
            old(self).same_identity(final(self)),
            status_is_failure(report.status) ==> (r == Err::<WaitOutcome, SwapchainError>(
                SwapchainError::Driver { status: report.status },
            ) && final(self).model() == old(self).model()),
            report.status == STATUS_TIMEOUT_EXPIRED ==> (r == Ok::<WaitOutcome, SwapchainError>(
                WaitOutcome::TimedOut,
            ) && final(self).model() == old(self).model()),
            !status_is_failure(report.status) && report.status != STATUS_TIMEOUT_EXPIRED ==> (r
                == Ok::<WaitOutcome, SwapchainError>(WaitOutcome::Ready) && final(self).model()
                == old(self).model().after_wait() && final(self).model().ready == Some(
                old(self).model().acquired[old(self).model().released as int],
            )),
    {
        if report.status < 0 {
            return Err(SwapchainError::Driver { status: report.status });
        }
        if report.status == STATUS_TIMEOUT_EXPIRED {
            return Ok(WaitOutcome::TimedOut);
        }
        proof {
            lemma_after_wait_wf(self.ring@, self.image_count);
        }
        self.ring = Ghost(self.ring@.after_wait());
        Ok(WaitOutcome::Ready)
    }

    /// Interpret the driver's report from the release entry point, which
    /// returns the waited image to the compositor's ring. A successful wait
    /// must precede each release: the underlying protocol leaves anything
    /// else undefined, so that is a precondition here, not a run-time
    /// check.
    pub fn release_image(&mut self, report_status: i32) -> (r: Result<(), SwapchainError>)
        requires
            old(self).wf(),
            old(self).model().ready is Some,
        ensures
            final(self).wf(),
            old(self).same_identity(final(self)),
            status_is_failure(report_status) ==> (r == Err::<(), SwapchainError>(
                SwapchainError::Driver { status: report_status },
            ) && final(self).model() == old(self).model()),
            !status_is_failure(report_status) ==> (r == Ok::<(), SwapchainError>(())
                && final(self).model() == old(self).model().after_release()),
    {
        if report_status < 0 {
            return Err(SwapchainError::Driver { status: report_status });
        }
        proof {
            lemma_after_release_wf(self.ring@, self.image_count);
        }
        self.ring = Ghost(self.ring@.after_release());
        Ok(())
    }

    /// Tear the swapchain down. Consuming the value makes a second destroy
    /// of the same handle unreachable, and no precondition constrains the
    /// ring state: images still acquired or ready do not block teardown —
    /// destruction is unconditional, a documented sharp edge of the
    /// underlying protocol. The caller issues the driver's destroy call for
    /// the returned request exactly once and ignores any failure it
    /// reports, since no recovery action exists once teardown has begun.
    pub fn destroy(self) -> (r: DestroyRequest)
        ensures
            r.handle == self.spec_as_raw(),
    {
        DestroyRequest { handle: self.handle }
    }
}

/// The outcome image enumeration owes for a given pair of driver reports:
/// the first failure is surfaced; a fetch that wrote a different number of
/// descriptors than the count query announced is a driver inconsistency,
/// reported rather than truncated away; otherwise the descriptors are
/// returned whole.
pub open spec fn enumerate_outcome(report: EnumerateReport) -> Result<Seq<u64>, SwapchainError> {
    if status_is_failure(report.count_status) {
        Err(SwapchainError::Driver { status: report.count_status })
    } else if status_is_failure(report.fill_status) {
        Err(SwapchainError::Driver { status: report.fill_status })
    } else if report.filled@.len() != report.count {
        Err(
            SwapchainError::ImageCountChanged {
                announced: report.count as u64,
                fetched: report.filled@.len() as u64,
            },
        )
    } else {
        Ok(report.filled@)
    }
}

/// The descriptor sequence behind an enumeration result.
pub open spec fn images_view(r: Result<Vec<u64>, SwapchainError>) -> Result<
    Seq<u64>,
    SwapchainError,
> {
    match r {
        Ok(v) => Ok(v@),
        Err(e) => Err(e),
    }
}

impl Swapchain {
    /// Interpret the two-call image enumeration against this swapchain's
    /// ring: first the count query, then the fetch of that many
    /// descriptors. The result is exactly [`enumerate_outcome`] of the
    /// reports, so repeating the enumeration with identical driver answers
    /// returns identical descriptors.
    pub fn enumerate_images(&self, report: EnumerateReport) -> (r: Result<Vec<u64>, SwapchainError>)
        ensures
            images_view(r) == enumerate_outcome(report),
    {
        if report.count_status < 0 {
            return Err(SwapchainError::Driver { status: report.count_status });
        }
        if report.fill_status < 0 {
            return Err(SwapchainError::Driver { status: report.fill_status });
        }
        if report.filled.len() != report.count as usize {
            return Err(
                SwapchainError::ImageCountChanged {
                    announced: report.count as u64,
                    fetched: report.filled.len() as u64,
                },
            );
        }
        Ok(report.filled)
    }
}

/// Enumeration is a function of the driver's answers alone: two
/// enumerations the driver answered identically — no intervening resize —
/// yield results of equal length and equal descriptor content.
pub proof fn lemma_enumerate_deterministic(a: EnumerateReport, b: EnumerateReport)
    requires
        a.count_status == b.count_status,
        a.count == b.count,
        a.fill_status == b.fill_status,
        a.filled@ == b.filled@,
    ensures
        enumerate_outcome(a) == enumerate_outcome(b),
{
}

} // verus!
