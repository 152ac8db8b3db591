//! Simple pipeline stages: a probe that records the paths it is handed, and
//! a writer that appends bytes to the response.  Both return a fixed signal,
//! which makes them convenient terminal stages under a mount point.

use vstd::prelude::*;

use crate::pipeline::Pipeline;
use crate::request::Request;
use crate::request::RequestUri;
use crate::request::Response;
use crate::signal::PipelineSignal;

verus! {

/// A stage that records the absolute path of every request handed to it and
/// returns a fixed signal.  It touches neither request nor response.
pub struct ProbePipeline {
    /// The signal returned on every call.
    pub signal: PipelineSignal,
    /// The absolute paths observed, oldest first.
    pub seen: Vec<String>,
}

impl ProbePipeline {
    /// The paths observed so far, oldest first.
    pub open spec fn seen_paths(self) -> Seq<Seq<char>> {
        self.seen@.map_values(|s: String| s@)
    }
}

impl Pipeline for ProbePipeline {
    open spec fn signal_on(&self, req: Option<Seq<char>>, res: Seq<u8>) -> PipelineSignal {
        self.signal
    }

    open spec fn handle_ens(
        pre: Self,
        post: Self,
        req_pre: Request,
        req_post: Request,
        res_pre: Seq<u8>,
        res_post: Seq<u8>,
        s: PipelineSignal,
    ) -> bool {
        &&& req_post == req_pre
        &&& res_post == res_pre
        &&& post.signal == pre.signal
        &&& (match req_pre@ {
            Some(p) => post.seen_paths() == pre.seen_paths().push(p),
            None => post == pre,
        })
    }

    fn handle(&mut self, req: &mut Request, res: &mut Response) -> (s: PipelineSignal) {
        match &req.request_uri {
            RequestUri::AbsolutePath(p) => {
                let observed = p.clone();
                self.seen.push(observed);
                proof {
                    assert(final(self).seen_paths() =~= old(self).seen_paths().push(
                        old(req)@->Some_0,
                    ));
                }
            },
            RequestUri::NotAbsolutePath => {},
        }
        self.signal
    }
}

/// A stage that appends a fixed payload to the response body and returns a
/// fixed signal.  It leaves the request untouched.
pub struct AppendPipeline {
    /// The signal returned on every call.
    pub signal: PipelineSignal,
    /// The bytes appended to the response body on every call.
    pub payload: Vec<u8>,
}

impl Pipeline for AppendPipeline {
    open spec fn signal_on(&self, req: Option<Seq<char>>, res: Seq<u8>) -> PipelineSignal {
        self.signal
    }

    open spec fn handle_ens(
        pre: Self,
        post: Self,
        req_pre: Request,
        req_post: Request,
        res_pre: Seq<u8>,
        res_post: Seq<u8>,
        s: PipelineSignal,
    ) -> bool {
        &&& req_post == req_pre
        &&& post == pre
        &&& res_post == res_pre + pre.payload@
    }

    fn handle(&mut self, req: &mut Request, res: &mut Response) -> (s: PipelineSignal) {
        let mut i: usize = 0;
        while i < self.payload.len()
            invariant
                i <= self.payload@.len(),
                *self == *old(self),
                *req == *old(req),
                res@ == old(res)@ + self.payload@.take(i as int),
            decreases self.payload@.len() - i,
        {
            let b = self.payload[i];
            res.body.push(b);
            i += 1;
            proof {
                assert(res@ =~= old(res)@ + self.payload@.take(i as int));
            }
        }
        proof {
            assert(res@ =~= old(res)@ + self.payload@);
        }
        self.signal
    }
}

} // verus!
