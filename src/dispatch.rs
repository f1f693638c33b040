use crate::response::{internal_server_error, not_found, text_response, Response};
use vstd::prelude::*;

verus! {

/// What an interceptor answers in either phase: let the request through,
/// answer it with a response of its own, or fail.
pub enum Interception {
    Proceed,
    Respond(Response),
    Fail(String),
}

/// The final answer to a request, before it is made a response.
pub enum Reply {
    /// A response that a middleware or the view produced.
    Given(Response),
    /// No view serves the path.
    NotFound(String),
    /// A middleware or the view failed, with this description.
    Failed(String),
}

impl Reply {
    pub fn into_response(self) -> (r: Response)
        ensures
            match self {
                Reply::Given(x) => r == x,
                Reply::NotFound(p) => text_response(r, 404, "text/plain"@, "Not found: "@ + p@),
                Reply::Failed(m) => text_response(r, 500, "text/html"@, "Error: "@ + m@),
            },
    {
        match self {
            Reply::Given(x) => x,
            Reply::NotFound(p) => not_found(p.as_str()),
            Reply::Failed(m) => internal_server_error(m.as_str()),
        }
    }
}

/// Where a dispatch stands: before pre-middleware `i`, waiting for view `v`,
/// before post-middleware `i`, or finished.
#[derive(Debug, Clone, Copy, PartialEq, Eq, Structural)]
pub enum Phase {
    Pre(usize),
    View(usize),
    Post(usize),
    Done,
}

/// What the transport is to do next: run pre-middleware `i`; call view `v`;
/// run post-middleware `i` on the response in flight; send the reply.
pub enum Action {
    RunPre(usize),
    CallView(usize),
    RunPost(usize, Response),
    Reply(Reply),
}

/// Once every pre-middleware has let the request through: the view, or
/// "not found" where routing found none.
pub open spec fn after_pre(view: Option<usize>, path: String) -> (Phase, Action) {
    match view {
        Some(v) => (Phase::View(v), Action::CallView(v)),
        None => (Phase::Done, Action::Reply(Reply::NotFound(path))),
    }
}

/// The start of a dispatch.
pub open spec fn start(n: usize, view: Option<usize>, path: String) -> (Phase, Action) {
    if n > 0 {
        (Phase::Pre(0), Action::RunPre(0))
    } else {
        after_pre(view, path)
    }
}

/// The step after pre-middleware `i` answered.
pub open spec fn pre_step(n: usize, view: Option<usize>, path: String, i: usize, a: Interception) -> (
    Phase,
    Action,
) {
    match a {
        Interception::Proceed => if i + 1 < n {
            (Phase::Pre((i + 1) as usize), Action::RunPre((i + 1) as usize))
        } else {
            after_pre(view, path)
        },
        Interception::Respond(r) => (Phase::Done, Action::Reply(Reply::Given(r))),
        Interception::Fail(m) => (Phase::Done, Action::Reply(Reply::Failed(m))),
    }
}

/// The step after the view answered: the post-phase over its response, or
/// the failure (the post-phase does not run then).
pub open spec fn view_step(n: usize, outcome: Result<Response, String>) -> (Phase, Action) {
    match outcome {
        Ok(r) => if n > 0 {
            (Phase::Post(0), Action::RunPost(0, r))
        } else {
            (Phase::Done, Action::Reply(Reply::Given(r)))
        },
        Err(m) => (Phase::Done, Action::Reply(Reply::Failed(m))),
    }
}

/// The step after post-middleware `i` answered, `res` being the response in
/// flight as it left the middleware. The post-phase runs the middlewares in
/// the order of the pre-phase.
pub open spec fn post_step(n: usize, i: usize, a: Interception, res: Response) -> (Phase, Action) {
    match a {
        Interception::Proceed => if i + 1 < n {
            (Phase::Post((i + 1) as usize), Action::RunPost((i + 1) as usize, res))
        } else {
            (Phase::Done, Action::Reply(Reply::Given(res)))
        },
        Interception::Respond(r) => (Phase::Done, Action::Reply(Reply::Given(r))),
        Interception::Fail(m) => (Phase::Done, Action::Reply(Reply::Failed(m))),
    }
}

/// The progress of one request through the middleware chain and the view
/// that routing picked (if any).
pub struct Dispatch {
    path: String,
    view: Option<usize>,
    n_middlewares: usize,
    phase: Phase,
}

impl Dispatch {
    pub closed spec fn path(&self) -> String {
        self.path
    }

    pub closed spec fn view(&self) -> Option<usize> {
        self.view
    }

    pub closed spec fn n(&self) -> usize {
        self.n_middlewares
    }

    pub closed spec fn phase(&self) -> Phase {
        self.phase
    }

    pub open spec fn same_request(&self, other: &Dispatch) -> bool {
        &&& self.path() == other.path()
        &&& self.view() == other.view()
        &&& self.n() == other.n()
    }

    /// A dispatch of a request for `path`, routed to `view`, through
    /// `n_middlewares` middlewares, with its first action.
    pub fn new(path: String, view: Option<usize>, n_middlewares: usize) -> (r: (Dispatch, Action))
        ensures
            r.0.path() == path,
            r.0.view() == view,
            r.0.n() == n_middlewares,
            (r.0.phase(), r.1) == start(n_middlewares, view, path),
    {
        if n_middlewares > 0 {
            (Dispatch { path, view, n_middlewares, phase: Phase::Pre(0) }, Action::RunPre(0))
        } else {
            let mut d = Dispatch { path, view, n_middlewares, phase: Phase::Pre(0) };
            let act = d.finish_pre();
            (d, act)
        }
    }

    fn finish_pre(&mut self) -> (act: Action)
        ensures
            final(self).same_request(old(self)),
            (final(self).phase(), act) == after_pre(old(self).view(), old(self).path()),
    {
        match self.view {
            Some(v) => {
                self.phase = Phase::View(v);
                Action::CallView(v)
            },
            None => {
                self.phase = Phase::Done;
                Action::Reply(Reply::NotFound(self.path.clone()))
            },
        }
    }

    pub fn phase_of(&self) -> (r: Phase)
        ensures
            r == self.phase(),
    {
        self.phase
    }

    /// Takes the answer of the pre-middleware that the last action ran.
    pub fn on_pre(&mut self, answer: Interception) -> (act: Action)
        requires
            old(self).phase() is Pre,
            old(self).phase()->Pre_0 < old(self).n(),
        ensures
            final(self).same_request(old(self)),
            (final(self).phase(), act) == pre_step(
                old(self).n(),
                old(self).view(),
                old(self).path(),
                old(self).phase()->Pre_0,
                answer,
            ),
    {
        let i = match self.phase {
            Phase::Pre(i) => i,
            _ => 0,
        };
        match answer {
            Interception::Proceed => {
                if i + 1 < self.n_middlewares {
                    self.phase = Phase::Pre(i + 1);
                    Action::RunPre(i + 1)
                } else {
                    self.finish_pre()
                }
            },
            Interception::Respond(r) => {
                self.phase = Phase::Done;
                Action::Reply(Reply::Given(r))
            },
            Interception::Fail(m) => {
                self.phase = Phase::Done;
                Action::Reply(Reply::Failed(m))
            },
        }
    }

    /// Takes what the view produced.
    pub fn on_view(&mut self, outcome: Result<Response, String>) -> (act: Action)
        requires
            old(self).phase() is View,
        ensures
            final(self).same_request(old(self)),
            (final(self).phase(), act) == view_step(old(self).n(), outcome),
    {
        match outcome {
            Ok(r) => {
                if self.n_middlewares > 0 {
                    self.phase = Phase::Post(0);
                    Action::RunPost(0, r)
                } else {
                    self.phase = Phase::Done;
                    Action::Reply(Reply::Given(r))
                }
            },
            Err(m) => {
                self.phase = Phase::Done;
                Action::Reply(Reply::Failed(m))
            },
        }
    }

    /// Takes the answer of the post-middleware that the last action ran,
    /// with the response in flight as the middleware left it.
    pub fn on_post(&mut self, answer: Interception, res: Response) -> (act: Action)
        requires
            old(self).phase() is Post,
            old(self).phase()->Post_0 < old(self).n(),
        ensures
            final(self).same_request(old(self)),
            (final(self).phase(), act) == post_step(
                old(self).n(),
                old(self).phase()->Post_0,
                answer,
                res,
            ),
    {
        let i = match self.phase {
            Phase::Post(i) => i,
            _ => 0,
        };
        match answer {
            Interception::Proceed => {
                if i + 1 < self.n_middlewares {
                    self.phase = Phase::Post(i + 1);
                    Action::RunPost(i + 1, res)
                } else {
                    self.phase = Phase::Done;
                    Action::Reply(Reply::Given(res))
                }
            },
            Interception::Respond(r) => {
                self.phase = Phase::Done;
                Action::Reply(Reply::Given(r))
            },
            Interception::Fail(m) => {
                self.phase = Phase::Done;
                Action::Reply(Reply::Failed(m))
            },
        }
    }
}

/// The actions that the pre-phase emits, after the one that ran middleware
/// `i`, when the middlewares from `i` on give `answers` in turn; the run ends
/// with the answer that ends the pre-phase.
pub open spec fn pre_run(
    n: usize,
    view: Option<usize>,
    path: String,
    i: usize,
    answers: Seq<Interception>,
) -> Seq<Action>
    decreases answers.len(),
{
    if answers.len() == 0 {
        Seq::empty()
    } else {
        let (ph, act) = pre_step(n, view, path, i, answers[0]);
        match ph {
            Phase::Pre(j) => seq![act] + pre_run(n, view, path, j, answers.drop_first()),
            _ => seq![act],
        }
    }
}

/// Short circuit: where pre-middlewares `i .. i + k` let the request through
/// and the next one answers with a response `r`, the run emits the runs of
/// middlewares `i + 1 ..= i + k`, then `r` as the reply, and ends: neither the
/// view nor a later middleware runs, whatever they would answer.
pub proof fn lemma_pre_short_circuit(
    n: usize,
    view: Option<usize>,
    path: String,
    i: usize,
    answers: Seq<Interception>,
    k: nat,
    r: Response,
)
    requires
        i + k < n,
        k < answers.len(),
        forall|j: int| 0 <= j < k ==> answers[j] is Proceed,
        answers[k as int] == Interception::Respond(r),
    ensures
        pre_run(n, view, path, i, answers) == Seq::new(
            k,
            |j: int| Action::RunPre((i + j + 1) as usize),
        ).push(Action::Reply(Reply::Given(r))),
    decreases k,
{
    let expected = Seq::new(k, |j: int| Action::RunPre((i + j + 1) as usize)).push(
        Action::Reply(Reply::Given(r)),
    );
    if k == 0 {
        assert(pre_run(n, view, path, i, answers) =~= expected);
    } else {
        assert(answers[0] is Proceed);
        let rest = answers.drop_first();
        assert forall|j: int| 0 <= j < k - 1 implies rest[j] is Proceed by {
            assert(rest[j] == answers[j + 1]);
        }
        assert(rest[k - 1] == answers[k as int]);
        lemma_pre_short_circuit(n, view, path, (i + 1) as usize, rest, (k - 1) as nat, r);
        assert(pre_run(n, view, path, i, answers) == seq![Action::RunPre((i + 1) as usize)]
            + pre_run(n, view, path, (i + 1) as usize, rest));
        assert(pre_run(n, view, path, i, answers) =~= expected);
    }
}

} // verus!
