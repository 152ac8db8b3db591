//! The mount point: a pipeline stage that owns a route prefix, a nested
//! pipeline and a termination policy.
//!
//! On each request, the mount decides whether the request's path falls under
//! its prefix.  If not (or if the request has no well-formed absolute path)
//! it returns `Continue` without touching anything.  On a match it strips
//! the prefix from the path, delegates to the nested pipeline, restores the
//! original path by putting the prefix back, and reports the signal its
//! termination policy selects.

use vstd::prelude::*;
use vstd::pervasive::unreached;
use vstd::string::*;

use crate::matcher::InvalidPrefix;
use crate::matcher::RoutePrefix;
use crate::matcher::valid_route;
use crate::pipeline::Pipeline;
use crate::pipeline::runs_nested;
use crate::request::Request;
use crate::request::RequestUri;
use crate::request::Response;
use crate::signal::PipelineSignal;
use crate::signal::TerminationPolicy;
use crate::signal::resolve_signal;
use crate::signal::signal_for;

verus! {

/// A mount point: a route prefix, the nested pipeline it delegates to, and
/// the termination policy fixed at construction.
pub struct Mount<P> {
    route: RoutePrefix,
    nested: P,
    terminator: TerminationPolicy,
}

impl<P> Mount<P> {
    /// The route prefix this mount was built with.
    pub closed spec fn spec_route(self) -> Seq<char> {
        self.route.route_view()
    }

    /// The termination policy this mount was built with.
    pub closed spec fn spec_policy(self) -> TerminationPolicy {
        self.terminator
    }

    /// The nested pipeline this mount delegates to.
    pub closed spec fn spec_nested(self) -> P {
        self.nested
    }

    /// Builds a mount for `route` with an explicit termination policy.
    /// Fails with [`InvalidPrefix`] exactly when the route is not accepted
    /// as a literal anchored prefix.
    pub fn with_policy(route: &str, nested: P, policy: TerminationPolicy) -> (r: Result<
        Mount<P>,
        InvalidPrefix,
    >)
        ensures
            (r matches Ok(m) ==> m.spec_route() == route@ && m.spec_policy() == policy
                && m.spec_nested() == nested),
            r is Ok ==> valid_route(route@),
            valid_route(route@) && route@.len() < 4096 ==> r is Ok,
    {
        match RoutePrefix::new(route) {
            Ok(rp) => Ok(Mount { route: rp, nested, terminator: policy }),
            Err(e) => Err(e),
        }
    }

    /// Builds a mount that always stops the enclosing chain after
    /// delegating.
    pub fn new(route: &str, nested: P) -> (r: Result<Mount<P>, InvalidPrefix>)
        ensures
            (r matches Ok(m) ==> m.spec_route() == route@ && m.spec_policy()
                == TerminationPolicy::AlwaysStop && m.spec_nested() == nested),
            r is Ok ==> valid_route(route@),
            valid_route(route@) && route@.len() < 4096 ==> r is Ok,
    {
        Mount::with_policy(route, nested, TerminationPolicy::AlwaysStop)
    }

    /// Builds a mount that always lets the enclosing chain continue after
    /// delegating.
    pub fn non_terminal(route: &str, nested: P) -> (r: Result<Mount<P>, InvalidPrefix>)
        ensures
            (r matches Ok(m) ==> m.spec_route() == route@ && m.spec_policy()
                == TerminationPolicy::AlwaysContinue && m.spec_nested() == nested),
            r is Ok ==> valid_route(route@),
            valid_route(route@) && route@.len() < 4096 ==> r is Ok,
    {
        Mount::with_policy(route, nested, TerminationPolicy::AlwaysContinue)
    }

    /// Builds a mount that propagates whatever signal the nested pipeline
    /// returned.
    pub fn filter(route: &str, nested: P) -> (r: Result<Mount<P>, InvalidPrefix>)
        ensures
            (r matches Ok(m) ==> m.spec_route() == route@ && m.spec_policy()
                == TerminationPolicy::PassThroughChildSignal && m.spec_nested() == nested),
            r is Ok ==> valid_route(route@),
            valid_route(route@) && route@.len() < 4096 ==> r is Ok,
    {
        Mount::with_policy(route, nested, TerminationPolicy::PassThroughChildSignal)
    }

    /// A borrow of the nested pipeline.
    pub fn nested_pipeline(&self) -> (p: &P)
        ensures
            *p == self.spec_nested(),
    {
        &self.nested
    }
}

impl<P: Pipeline> Mount<P> {
    /// Whether this mount delegates a request with the given path: the
    /// request has an absolute path and it starts with the route.
    pub open spec fn delegates_on(self, req: Option<Seq<char>>) -> bool {
        match req {
            Some(p) => self.spec_route().is_prefix_of(p),
            None => false,
        }
    }

    /// The path the nested pipeline observes: the request path with the
    /// route stripped off the front.
    pub open spec fn stripped(self, path: Seq<char>) -> Seq<char> {
        path.skip(self.spec_route().len() as int)
    }
}

impl<P: Pipeline> Pipeline for Mount<P> {
    open spec fn signal_on(&self, req: Option<Seq<char>>, res: Seq<u8>) -> PipelineSignal {
        if self.delegates_on(req) {
            signal_for(
                self.spec_policy(),
                self.spec_nested().signal_on(Some(self.stripped(req->Some_0)), res),
            )
        } else {
            PipelineSignal::Continue
        }
    }

    open spec fn handle_ens(
        pre: Self,
        post: Self,
        req_pre: Request,
        req_post: Request,
        res_pre: Seq<u8>,
        res_post: Seq<u8>,
        s: PipelineSignal,
    ) -> bool {
        &&& post.spec_route() == pre.spec_route()
        &&& post.spec_policy() == pre.spec_policy()
        &&& (!pre.delegates_on(req_pre@) ==> post == pre && req_post == req_pre && res_post
            == res_pre && s
            == PipelineSignal::Continue)
        &&& (pre.delegates_on(req_pre@) ==> runs_nested(
            pre.spec_nested(),
            post.spec_nested(),
            pre.stripped(req_pre@->Some_0),
            res_pre,
            res_post,
            pre.spec_nested().signal_on(Some(pre.stripped(req_pre@->Some_0)), res_pre),
        ))
    }

    fn handle(&mut self, req: &mut Request, res: &mut Response) -> (s: PipelineSignal) {
        let path: String = match &req.request_uri {
            RequestUri::AbsolutePath(p) => p.clone(),
            RequestUri::NotAbsolutePath => { return PipelineSignal::Continue; },
        };
        if !self.route.is_match(path.as_str()) {
            return PipelineSignal::Continue;
        }
        // The path falls under the route: strip the route off the front.
        let rlen = self.route.route_str().unicode_len();
        let plen = path.as_str().unicode_len();
        let stripped = path.as_str().substring_char(rlen, plen).to_owned();
        req.request_uri = RequestUri::AbsolutePath(stripped);
        let ghost req_in = *req;
        let child = self.nested.handle(req, res);
        let ghost req_out = *req;
        // Restore the original path for the stages running after this one:
        // put the route back in front of the path the nested pipeline left.
        let restored: String = match &req.request_uri {
            RequestUri::AbsolutePath(p) => self.route.route_str().to_owned().concat(p.as_str()),
            RequestUri::NotAbsolutePath => {
                // The nested pipeline restores the path it was handed, which
                // was an absolute path.
                unreached()
            },
        };
        req.request_uri = RequestUri::AbsolutePath(restored);
        proof {
            let r = old(self).spec_route();
            assert(path@.subrange(0, r.len() as int) =~= r);
            assert(restored@ =~= path@);
            let rest = old(self).stripped(path@);
            assert(path@.subrange(rlen as int, plen as int) =~= rest);
            assert(runs_nested(
                old(self).spec_nested(),
                final(self).spec_nested(),
                rest,
                old(res)@,
                final(res)@,
                old(self).spec_nested().signal_on(Some(rest), old(res)@),
            )) by {
                assert(req_in@ == Some(rest));
                assert(req_out@ == Some(rest));
                assert(P::handle_ens(
                    old(self).spec_nested(),
                    final(self).spec_nested(),
                    req_in,
                    req_out,
                    old(res)@,
                    final(res)@,
                    old(self).spec_nested().signal_on(Some(rest), old(res)@),
                ));
            };
        }
        resolve_signal(self.terminator, child)
    }
}

/// Law: the signal a mount returns is determined by its configuration and
/// the nested pipeline's signal alone.  For a request it does not delegate
/// (no absolute path, or a path not under the route) the mount returns
/// `Continue`.  For one it delegates, the mount built by `new` returns
/// `Stop`, the one built by `non_terminal` returns `Continue`, and the one
/// built by `filter` returns exactly the nested pipeline's signal, whatever
/// that signal is.
pub proof fn lemma_mount_signal<P: Pipeline>(m: Mount<P>, req: Option<Seq<char>>, res: Seq<u8>)
    ensures
        !m.delegates_on(req) ==> m.signal_on(req, res) == PipelineSignal::Continue,
        (m.delegates_on(req) ==> m.signal_on(req, res) == signal_for(
            m.spec_policy(),
            m.spec_nested().signal_on(Some(m.stripped(req->Some_0)), res),
        )),
        m.delegates_on(req) && m.spec_policy() == TerminationPolicy::AlwaysStop ==> m.signal_on(
            req,
            res,
        ) == PipelineSignal::Stop,
        m.delegates_on(req) && m.spec_policy() == TerminationPolicy::AlwaysContinue
            ==> m.signal_on(req, res) == PipelineSignal::Continue,
        m.delegates_on(req) && m.spec_policy() == TerminationPolicy::PassThroughChildSignal
            ==> m.signal_on(req, res) == m.spec_nested().signal_on(
            Some(m.stripped(req->Some_0)),
            res,
        ),
{
}

/// Law: mount points compose.  For an outer mount whose nested pipeline is
/// itself a mount, a path under both routes reaches the inner mount's
/// nested pipeline with both prefixes stripped, in order, and the signal
/// each mount reports is its policy applied to the signal from below.
pub proof fn lemma_nesting_composition<P: Pipeline>(
    outer: Mount<Mount<P>>,
    path: Seq<char>,
    res: Seq<u8>,
)
    requires
        outer.spec_route().is_prefix_of(path),
        outer.spec_nested().spec_route().is_prefix_of(outer.stripped(path)),
    ensures
        outer.signal_on(Some(path), res) == signal_for(
            outer.spec_policy(),
            signal_for(
                outer.spec_nested().spec_policy(),
                outer.spec_nested().spec_nested().signal_on(
                    Some(
                        path.skip(
                            outer.spec_route().len() + outer.spec_nested().spec_route().len() as int,
                        ),
                    ),
                    res,
                ),
            ),
        ),
{
    assert(outer.spec_nested().stripped(outer.stripped(path)) =~= path.skip(
        outer.spec_route().len() + outer.spec_nested().spec_route().len() as int,
    ));
}

} // verus!
