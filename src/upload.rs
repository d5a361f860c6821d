use vstd::prelude::*;
use crate::model::{MediaHandle, MediaRef};

verus! {

/// Why one media item could not be carried over.
#[derive(Clone, Copy, Debug, PartialEq, Eq, Structural)]
pub enum UploadCause {
    DownloadFailed,
    PlatformRejected,
}

/// The first media item that failed, by its position in the input, and why.
#[derive(Clone, Copy, Debug, PartialEq, Eq, Structural)]
pub struct UploadError {
    pub index: usize,
    pub cause: UploadCause,
}

/// Carries an ordered list of media over to the home platform, one item at a
/// time, stopping at the first failure.
///
/// The caller asks for the next item, downloads and uploads it, and records
/// what came of it.
pub struct UploadJob {
    refs: Vec<MediaRef>,
    handles: Vec<MediaHandle>,
    failure: Option<UploadError>,
}

impl UploadJob {
    pub closed spec fn refs(&self) -> Seq<MediaRef> {
        self.refs@
    }

    pub closed spec fn handles(&self) -> Seq<MediaHandle> {
        self.handles@
    }

    pub closed spec fn failure(&self) -> Option<UploadError> {
        self.failure
    }

    /// Handles are collected for a prefix of the items; a failure names the
    /// item right after that prefix.
    pub open spec fn wf(&self) -> bool {
        &&& self.handles().len() <= self.refs().len()
        &&& self.failure() matches Some(e) ==> e.index == self.handles().len() && e.index
            < self.refs().len()
    }

    /// Nothing is left to do: an item failed, or every item has its handle.
    pub open spec fn is_done(&self) -> bool {
        self.failure() is Some || self.handles().len() == self.refs().len()
    }

    /// What the job comes to once it is done.
    pub open spec fn result_spec(&self) -> Result<Seq<MediaHandle>, UploadError> {
        match self.failure() {
            Some(e) => Err(e),
            None => Ok(self.handles()),
        }
    }

    pub fn new(refs: Vec<MediaRef>) -> (r: UploadJob)
        ensures
            r.wf(),
            r.refs() == refs@,
            r.handles() == Seq::<MediaHandle>::empty(),
            r.failure() is None,
    {
        UploadJob { refs, handles: Vec::new(), failure: None }
    }

    pub fn is_finished(&self) -> (r: bool)
        requires
            self.wf(),
        ensures
            r == self.is_done(),
    {
        self.failure.is_some() || self.handles.len() == self.refs.len()
    }

    /// The item to carry over next, with its position; `None` once done.
    pub fn next_ref(&self) -> (r: Option<(usize, &MediaRef)>)
        requires
            self.wf(),
        ensures
            r is None <==> self.is_done(),
            r matches Some(p) ==> p.0 == self.handles().len() && *p.1 == self.refs()[p.0 as int],
    {
        if self.failure.is_some() || self.handles.len() == self.refs.len() {
            None
        } else {
            let i = self.handles.len();
            Some((i, &self.refs[i]))
        }
    }

    /// Records what came of the item that `next_ref` named: its handle, or why it failed.
    pub fn record(&mut self, outcome: Result<MediaHandle, UploadCause>)
        requires
            old(self).wf(),
            !old(self).is_done(),
        ensures
            final(self).wf(),
            final(self).refs() == old(self).refs(),
            match outcome {
                Ok(h) => {
                    &&& final(self).handles() == old(self).handles().push(h)
                    &&& final(self).failure() is None
                },
                Err(c) => final(self).handles() == old(self).handles() && final(self).failure()
                    == Some(UploadError { index: old(self).handles().len() as usize, cause: c }),
            },
    {
        match outcome {
            Ok(h) => {
                self.handles.push(h);
            },
            Err(c) => {
                self.failure = Some(UploadError { index: self.handles.len(), cause: c });
            },
        }
    }

    /// The handles in input order, or the first failure.
    pub fn into_result(self) -> (r: Result<Vec<MediaHandle>, UploadError>)
        requires
            self.wf(),
            self.is_done(),
        ensures
            match r {
                Ok(hs) => self.result_spec() == Ok::<Seq<MediaHandle>, UploadError>(hs@),
                Err(e) => self.result_spec() == Err::<Seq<MediaHandle>, UploadError>(e),
            },
    {
        match self.failure {
            Some(e) => Err(e),
            None => Ok(self.handles),
        }
    }
}

/// A finished job gives exactly one handle per input item, or fails naming
/// an item of the input after whose predecessors all succeeded; never a
/// partial list.
pub proof fn law_upload_all_or_first_failure(job: UploadJob)
    requires
        job.wf(),
        job.is_done(),
    ensures
        job.result_spec() matches Ok(hs) ==> hs.len() == job.refs().len() && hs == job.handles(),
        job.result_spec() matches Err(e) ==> e.index < job.refs().len() && e.index
            == job.handles().len(),
{
}

} // verus!
