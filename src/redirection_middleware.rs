use vstd::prelude::*;

verus! {

/// Whether an HTTP status code is a redirection (3xx).
pub open spec fn is_redirection(status: u16) -> bool {
    300 <= status < 400
}

/// Whether an HTTP status code is a success (2xx).
pub open spec fn is_success(status: u16) -> bool {
    200 <= status < 300
}

/// Whether an HTTP status code is a redirection (3xx).
pub fn status_is_redirection(status: u16) -> (r: bool)
    ensures
        r == is_redirection(status),
{
    300 <= status && status < 400
}

/// Whether an HTTP status code is a success (2xx).
pub fn status_is_success(status: u16) -> (r: bool)
    ensures
        r == is_success(status),
{
    200 <= status && status < 300
}

/// What to do with one response of a redirect chain.
#[derive(Debug, Clone, PartialEq, Eq)]
pub enum RedirectStep {
    /// Issue the request again against this location.
    Follow(String),
    /// Hand this response to the caller.
    Done,
    /// The bound was reached before a non-redirect response.
    LimitExceeded,
}

/// Model of [`RedirectStep`].
pub enum StepModel {
    Follow(Seq<char>),
    Done,
    LimitExceeded,
}

impl View for RedirectStep {
    type V = StepModel;

    open spec fn view(&self) -> StepModel {
        match self {
            RedirectStep::Follow(l) => StepModel::Follow(l@),
            RedirectStep::Done => StepModel::Done,
            RedirectStep::LimitExceeded => StepModel::LimitExceeded,
        }
    }
}

/// The redirect policy: a response that is a redirection and names a
/// location is followed while fewer than `max` redirects were followed;
/// past the bound the chain fails; any other response ends the chain.
pub open spec fn redirect_step(
    max: nat,
    followed: nat,
    status: u16,
    location: Option<Seq<char>>,
) -> StepModel {
    if is_redirection(status) && location is Some {
        if followed < max {
            StepModel::Follow(location->Some_0)
        } else {
            StepModel::LimitExceeded
        }
    } else {
        StepModel::Done
    }
}

/// How a whole chain of responses ends.
#[derive(Debug, Clone, Copy, PartialEq, Eq, Structural)]
pub enum ChainOutcome {
    /// The response at this position is handed to the caller.
    Response(usize),
    /// Too many redirections.
    LimitExceeded,
    /// The chain ran out before it ended.
    Incomplete,
}

/// One response of a chain: its status and its `Location` header.
pub type ResponseModel = (u16, Option<Seq<char>>);

/// How a chain of responses ends when the `i`-th is the next one received
/// (so `i` redirects were followed before it).
pub open spec fn chain_outcome(max: nat, chain: Seq<ResponseModel>, i: nat) -> ChainOutcome
    decreases chain.len() - i,
{
    if i >= chain.len() {
        ChainOutcome::Incomplete
    } else {
        match redirect_step(max, i, chain[i as int].0, chain[i as int].1) {
            StepModel::Follow(_) => chain_outcome(max, chain, i + 1),
            StepModel::Done => ChainOutcome::Response(i as usize),
            StepModel::LimitExceeded => ChainOutcome::LimitExceeded,
        }
    }
}

/// Follows HTTP redirects up to a bound.
pub struct RedirectMiddleware {
    max_redirects: usize,
}

impl View for RedirectMiddleware {
    type V = nat;

    closed spec fn view(&self) -> nat {
        self.max_redirects as nat
    }
}

impl RedirectMiddleware {
    /// A policy that follows at most `max_redirects` redirects.
    pub fn new(max_redirects: usize) -> (r: Self)
        ensures
            r@ == max_redirects as nat,
    {
        RedirectMiddleware { max_redirects }
    }

    /// The bound.
    pub fn max_redirects(&self) -> (r: usize)
        ensures
            r as nat == self@,
    {
        self.max_redirects
    }

    /// Decides on one response, `followed` redirects having been followed.
    pub fn decide(&self, followed: usize, status: u16, location: Option<&str>) -> (r: RedirectStep)
        ensures
            r@ == redirect_step(
                self@,
                followed as nat,
                status,
                match location {
                    Some(l) => Some(l@),
                    None => None,
                },
            ),
    {
        if status_is_redirection(status) {
            match location {
                Some(l) => {
                    if followed < self.max_redirects {
                        RedirectStep::Follow(l.to_owned())
                    } else {
                        RedirectStep::LimitExceeded
                    }
                },
                None => RedirectStep::Done,
            }
        } else {
            RedirectStep::Done
        }
    }

    /// Runs the policy over a chain of responses given in the order they
    /// would arrive.
    pub fn resolve_chain(&self, chain: &Vec<(u16, Option<String>)>) -> (r: ChainOutcome)
        ensures
            r == chain_outcome(self@, chain_view(chain@), 0),
    {
        let ghost cv = chain_view(chain@);
        let mut i: usize = 0;
        while i < chain.len()
            invariant
                0 <= i <= chain@.len(),
                cv == chain_view(chain@),
                chain_outcome(self@, cv, 0) == chain_outcome(self@, cv, i as nat),
            decreases chain@.len() - i,
        {
            let (status, location) = &chain[i];
            let loc: Option<&str> = match location {
                Some(l) => Some(l.as_str()),
                None => None,
            };
            let step = self.decide(i, *status, loc);
            assert(cv[i as int] == (chain@[i as int].0, match chain@[i as int].1 {
                Some(l) => Some(l@),
                None => None::<Seq<char>>,
            }));
            match step {
                RedirectStep::Follow(_) => {},
                RedirectStep::Done => {
                    return ChainOutcome::Response(i);
                },
                RedirectStep::LimitExceeded => {
                    return ChainOutcome::LimitExceeded;
                },
            }
            i = i + 1;
        }
        ChainOutcome::Incomplete
    }
}

/// Model of a chain of responses.
pub open spec fn chain_view(chain: Seq<(u16, Option<String>)>) -> Seq<ResponseModel> {
    chain.map_values(
        |r: (u16, Option<String>)|
            (
                r.0,
                match r.1 {
                    Some(l) => Some(l@),
                    None => None,
                },
            ),
    )
}

/// Whether a response redirects and names where to.
pub open spec fn is_located_redirect(r: ResponseModel) -> bool {
    is_redirection(r.0) && r.1 is Some
}

proof fn lemma_redirects_from(max: nat, chain: Seq<ResponseModel>, i: nat, last: nat)
    requires
        i <= last <= max,
        last < chain.len(),
        forall|j: int| i <= j < last ==> is_located_redirect(#[trigger] chain[j]),
    ensures
        chain_outcome(max, chain, i) == chain_outcome(max, chain, last),
    decreases last - i,
{
    if i < last {
        assert(is_located_redirect(chain[i as int]));
        lemma_redirects_from(max, chain, i + 1, last);
    }
}

/// The redirect bound: with a bound of `max`, a chain that redirects
/// `max + 1` times in a row fails with too many redirections, and a chain
/// that redirects exactly `max` times and then answers 200 ends with that
/// answer.
pub proof fn lemma_redirect_bound(max: nat, chain: Seq<ResponseModel>)
    requires
        chain.len() > max,
        forall|j: int| 0 <= j < max ==> is_located_redirect(#[trigger] chain[j]),
    ensures
        is_located_redirect(chain[max as int]) ==> chain_outcome(max, chain, 0)
            == ChainOutcome::LimitExceeded,
        chain[max as int].0 == 200 ==> chain_outcome(max, chain, 0) == ChainOutcome::Response(
            max as usize,
        ),
{
    lemma_redirects_from(max, chain, 0, max);
}

} // verus!
