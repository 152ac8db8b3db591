//! The pipeline-stage capability: any component able to process a
//! request/response pair and signal continuation or termination.
//!
//! A stage's contract has three parts.  It leaves the request's path as it
//! found it, so that path rewriting done for nested stages never leaks to
//! stages running afterwards.  Its signal is a function, `signal_on`, of its
//! own state and of the request and response it was handed, so that an
//! enclosing mount point can say exactly which signal it propagates.  And
//! each implementation states its further guarantees in `handle_ens`.

use vstd::prelude::*;

use crate::request::Request;
use crate::request::Response;
use crate::signal::PipelineSignal;

verus! {

/// A request-processing stage.  A mount point is itself a stage, which lets
/// mount points nest to arbitrary depth.
pub trait Pipeline: Sized {
    /// The signal this stage returns when handed a request with the given
    /// path (`None` for a request without a well-formed absolute path) and
    /// the given response contents.
    spec fn signal_on(&self, req: Option<Seq<char>>, res: Seq<u8>) -> PipelineSignal;

    /// The guarantees of this implementation's `handle`, over the stage,
    /// request and response values before and after the call and the signal
    /// returned.
    spec fn handle_ens(
        pre: Self,
        post: Self,
        req_pre: Request,
        req_post: Request,
        res_pre: Seq<u8>,
        res_post: Seq<u8>,
        s: PipelineSignal,
    ) -> bool;

    /// Processes a request/response pair.  Every stage restores the
    /// request's path before returning and returns the signal its state
    /// determines; the rest of its behaviour is stated by its `handle_ens`.
    fn handle(&mut self, req: &mut Request, res: &mut Response) -> (s: PipelineSignal)
        ensures
            final(req)@ == old(req)@,
            s == old(self).signal_on(old(req)@, old(res)@),
            Self::handle_ens(
                *old(self),
                *final(self),
                *old(req),
                *final(req),
                old(res)@,
                final(res)@,
                s,
            ),
    ;
}

/// The nested stage of a mount point ran on a request whose path was `path`:
/// there are request values carrying `path` before and after the nested call
/// for which the stage's own guarantees hold.
pub open spec fn runs_nested<P: Pipeline>(
    pre: P,
    post: P,
    path: Seq<char>,
    res_pre: Seq<u8>,
    res_post: Seq<u8>,
    child: PipelineSignal,
) -> bool {
    exists|req_in: Request, req_out: Request|
        req_in@ == Some(path) && req_out@ == Some(path) && #[trigger] P::handle_ens(
            pre,
            post,
            req_in,
            req_out,
            res_pre,
            res_post,
            child,
        )
}

} // verus!
