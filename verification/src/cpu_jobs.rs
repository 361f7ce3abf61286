//! The native jobs of one private session. A job's id comes from a range that is
//! the session's own, so what was ever issued can be released without a record
//! of it.
use std::collections::HashMap;
use vstd::prelude::*;
use crate::authority::{ModelPermit, PermitState, PermitStateView};
use crate::model::RequestReservation;
use crate::outside;

verus! {

broadcast use vstd::std_specs::hash::group_hash_axioms;

/// How long a job may run that asked for no duration, in milliseconds.
pub const DEFAULT_JOB_MS: u64 = 120_000;

/// What a job runs on. `W` is any workload but a plain CPU one.
pub enum JobWorkload<W> {
    Cpu,
    Other(W),
}

/// What a worker asks.
pub enum CpuJobRequest<W> {
    /// The job's native work has ended.
    Release { permit: u128 },
    /// The job's native work was never started.
    Unspawned { permit: u128 },
    Profile,
    TryAcquire,
    Acquire { workload: JobWorkload<W>, max_duration_ms: u64 },
}

/// What a worker is answered. `D` names devices.
pub enum CpuJobReply<D> {
    Denied,
    Busy,
    Released,
    Acquired { permit: u128 },
    Granted { permit: u128, device_ids: D },
}

/// What the host does for a request.
pub enum CpuJobStep<W> {
    Denied,
    Busy,
    Profile { max_cpu_jobs: usize, max_gpu_jobs: usize },
    /// Give the job's slot back, then `released`.
    Release { origin: u128, id: u128, unspawned: bool },
    /// Try to take a slot, then `acquired`.
    Acquire { origin: u128, id: u128, workload: JobWorkload<W>, max_duration_ms: u64 },
}

/// How many jobs the host runs, and how many on GPUs the work was granted, if it
/// was granted any.
pub struct JobLimits {
    pub max_cpu_jobs: usize,
    pub max_gpu_jobs: usize,
    pub granted_gpu_jobs: Option<usize>,
}

/// The permit authority, as far as it can be had without waiting.
pub enum Authority<'a> {
    Free(&'a PermitState),
    /// Someone else decides just now.
    Busy,
    Broken,
}

/// The jobs of a session: those that run, and how many ids were issued.
pub struct CpuJobs {
    active: HashMap<u128, ()>,
    origin: u128,
    issued: u64,
}

#[verifier::ext_equal]
pub struct CpuJobsView {
    pub active: Set<u128>,
    pub origin: u128,
    pub issued: u64,
}

impl View for CpuJobs {
    type V = CpuJobsView;

    closed spec fn view(&self) -> CpuJobsView {
        CpuJobsView { active: self.active@.dom(), origin: self.origin, issued: self.issued }
    }
}

/// The distance from one id up to another, around the end of the range.
pub open spec fn distance(origin: u128, id: u128) -> int {
    if id >= origin {
        id - origin
    } else {
        id - origin + 0x1_0000_0000_0000_0000_0000_0000_0000_0000
    }
}

/// The id at a distance from another, around the end of the range.
pub open spec fn job_id(origin: u128, sequence: int) -> u128 {
    if origin + sequence <= u128::MAX {
        (origin + sequence) as u128
    } else {
        (origin + sequence - 0x1_0000_0000_0000_0000_0000_0000_0000_0000) as u128
    }
}

impl CpuJobsView {
    /// Whether an id was ever issued to this session.
    pub open spec fn owns(&self, id: u128) -> bool {
        0 < distance(self.origin, id) <= self.issued
    }

    /// Every job that runs was issued to this session.
    pub open spec fn well_formed(&self) -> bool {
        forall|id: u128| #[trigger] self.active.contains(id) ==> self.owns(id)
    }

    /// The id that is issued next.
    pub open spec fn next_id(&self) -> u128 {
        job_id(self.origin, self.issued + 1)
    }

    /// What the host does for a request. A release needs no authority: what was
    /// issued stays the session's own after revocation, pause or replacement.
    pub open spec fn step_for<W>(
        &self,
        authority: Option<PermitStateView>,
        busy: bool,
        nonce: u128,
        reservation: RequestReservation,
        request: CpuJobRequest<W>,
        closed: bool,
        limits: JobLimits,
    ) -> CpuJobStep<W> {
        match request {
            CpuJobRequest::Release { permit } => if self.owns(permit) {
                CpuJobStep::Release { origin: self.origin, id: permit, unspawned: false }
            } else {
                CpuJobStep::Denied
            },
            CpuJobRequest::Unspawned { permit } => if self.owns(permit) {
                CpuJobStep::Release { origin: self.origin, id: permit, unspawned: true }
            } else {
                CpuJobStep::Denied
            },
            _ => match authority {
                None => if busy && !(request is Profile) {
                    CpuJobStep::Busy
                } else {
                    CpuJobStep::Denied
                },
                Some(state) => if !state.authorizes(nonce, reservation, closed) {
                    CpuJobStep::Denied
                } else {
                    match request {
                        CpuJobRequest::Profile => CpuJobStep::Profile {
                            max_cpu_jobs: limits.max_cpu_jobs,
                            max_gpu_jobs: match limits.granted_gpu_jobs {
                                None => 0,
                                Some(granted) => if granted <= limits.max_gpu_jobs {
                                    granted
                                } else {
                                    limits.max_gpu_jobs
                                },
                            },
                        },
                        _ => if self.issued == u64::MAX {
                            CpuJobStep::Denied
                        } else {
                            CpuJobStep::Acquire {
                                origin: self.origin,
                                id: self.next_id(),
                                workload: match request {
                                    CpuJobRequest::Acquire { workload, .. } => workload,
                                    _ => JobWorkload::Cpu,
                                },
                                max_duration_ms: match request {
                                    CpuJobRequest::Acquire { max_duration_ms, .. } =>
                                        max_duration_ms,
                                    _ => DEFAULT_JOB_MS,
                                },
                            }
                        },
                    }
                },
            },
        }
    }
}

impl CpuJobs {
    /// No jobs, and a range of ids that begins at `origin`.
    fn from_origin(origin: u128) -> (res: CpuJobs)
        ensures
            res@ == (CpuJobsView { active: Set::empty(), origin, issued: 0 }),
    {
        let jobs = CpuJobs { active: HashMap::new(), origin, issued: 0 };
        assert(jobs@.active == Set::<u128>::empty());
        jobs
    }

    /// Whether an id was ever issued to this session.
    fn is_own(&self, id: u128) -> (res: bool)
        ensures
            res == self@.owns(id),
    {
        let sequence: u128 = id.wrapping_sub(self.origin);
        sequence > 0 && sequence <= self.issued as u128
    }

    /// What the host does for a request. `closed` says whether the lease that
    /// the grant names has been closed.
    pub fn request_store<W>(
        &self,
        authority: Authority<'_>,
        permit: &ModelPermit,
        reservation: &RequestReservation,
        request: CpuJobRequest<W>,
        closed: bool,
        limits: &JobLimits,
    ) -> (res: CpuJobStep<W>)
        ensures
            res == self@.step_for(
                match authority {
                    Authority::Free(state) => Some(state@),
                    _ => None,
                },
                authority is Busy,
                permit.nonce(),
                *reservation,
                request,
                closed,
                *limits,
            ),
    {
        match request {
            CpuJobRequest::Release { permit: id } => {
                return if self.is_own(id) {
                    CpuJobStep::Release { origin: self.origin, id, unspawned: false }
                } else {
                    CpuJobStep::Denied
                };
            },
            CpuJobRequest::Unspawned { permit: id } => {
                return if self.is_own(id) {
                    CpuJobStep::Release { origin: self.origin, id, unspawned: true }
                } else {
                    CpuJobStep::Denied
                };
            },
            _ => {},
        }
        let state = match authority {
            Authority::Free(state) => state,
            Authority::Busy => {
                return if matches!(request, CpuJobRequest::Profile) {
                    CpuJobStep::Denied
                } else {
                    CpuJobStep::Busy
                };
            },
            Authority::Broken => {
                return CpuJobStep::Denied;
            },
        };
        if !state.is_authorized(permit, reservation, closed) {
            return CpuJobStep::Denied;
        }
        if matches!(request, CpuJobRequest::Profile) {
            let max_gpu_jobs: usize = match limits.granted_gpu_jobs {
                None => 0,
                Some(granted) => if granted <= limits.max_gpu_jobs {
                    granted
                } else {
                    limits.max_gpu_jobs
                },
            };
            return CpuJobStep::Profile { max_cpu_jobs: limits.max_cpu_jobs, max_gpu_jobs };
        }
        if self.issued == u64::MAX {
            return CpuJobStep::Denied;
        }
        let id: u128 = self.origin.wrapping_add((self.issued + 1) as u128);
        match request {
            CpuJobRequest::Acquire { workload, max_duration_ms } => CpuJobStep::Acquire {
                origin: self.origin,
                id,
                workload,
                max_duration_ms,
            },
            _ => CpuJobStep::Acquire {
                origin: self.origin,
                id,
                workload: JobWorkload::Cpu,
                max_duration_ms: DEFAULT_JOB_MS,
            },
        }
    }

    /// The slot of a job was given back, or could not be.
    pub fn released<D>(&mut self, id: u128, given_back: bool) -> (res: CpuJobReply<D>)
        ensures
            final(self)@.origin == old(self)@.origin,
            final(self)@.issued == old(self)@.issued,
            if given_back {
                res == CpuJobReply::<D>::Released && final(self)@.active == old(
                    self,
                )@.active.remove(id)
            } else {
                res == CpuJobReply::<D>::Denied && final(self)@.active == old(self)@.active
            },
            old(self)@.well_formed() ==> final(self)@.well_formed(),
    {
        if given_back {
            self.active.remove(&id);
            assert(self@.active == old(self)@.active.remove(id));
            CpuJobReply::Released
        } else {
            CpuJobReply::Denied
        }
    }

    /// The host tried to take a slot for the id that is issued next: it got one,
    /// with devices, or none is free, or it failed. Where the lease closed
    /// meanwhile, the slot is to be given back at once, as the second result
    /// says; its id stays used. `brief` says that the request was a plain
    /// `TryAcquire`.
    pub fn acquired<D>(
        &mut self,
        brief: bool,
        outcome: Result<Option<D>, ()>,
        closed: bool,
    ) -> (res: (CpuJobReply<D>, bool))
        requires
            old(self)@.issued < u64::MAX,
        ensures
            final(self)@.origin == old(self)@.origin,
            match outcome {
                Ok(Some(device_ids)) => final(self)@.issued == old(self)@.issued + 1 && if closed {
                    res == (CpuJobReply::<D>::Denied, true) && final(self)@.active == old(
                        self,
                    )@.active
                } else {
                    final(self)@.active == old(self)@.active.insert(old(self)@.next_id()) && res
                        == (
                        if brief {
                            CpuJobReply::<D>::Acquired { permit: old(self)@.next_id() }
                        } else {
                            CpuJobReply::Granted { permit: old(self)@.next_id(), device_ids }
                        },
                        false,
                    )
                },
                Ok(None) => final(self)@ == old(self)@ && res == (CpuJobReply::<D>::Busy, false),
                Err(_) => final(self)@ == old(self)@ && res == (CpuJobReply::<D>::Denied, false),
            },
            old(self)@.well_formed() ==> final(self)@.well_formed(),
    {
        match outcome {
            Ok(Some(device_ids)) => {
                let id: u128 = self.origin.wrapping_add((self.issued + 1) as u128);
                self.issued = self.issued + 1;
                if closed {
                    return (CpuJobReply::Denied, true);
                }
                self.active.insert(id, ());
                assert(self@.active == old(self)@.active.insert(id));
                if brief {
                    (CpuJobReply::Acquired { permit: id }, false)
                } else {
                    (CpuJobReply::Granted { permit: id, device_ids }, false)
                }
            },
            Ok(None) => (CpuJobReply::Busy, false),
            Err(_) => (CpuJobReply::Denied, false),
        }
    }

    /// How many jobs run.
    pub fn running(&self) -> (res: usize)
        ensures
            res == self@.active.len(),
    {
        self.active.len()
    }
}

impl Default for CpuJobs {
    /// No jobs, and a range of ids that begins anywhere.
    fn default() -> (res: CpuJobs)
        ensures
            res@.active == Set::<u128>::empty(),
            outside::random_form(res@.origin),
            res@.issued == 0,
            res@.well_formed(),
    {
        CpuJobs::from_origin(outside::random_uuid())
    }
}

} // verus!
