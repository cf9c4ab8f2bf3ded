//! The reactive data cell: one mutable input drives one asynchronous fetch
//! at a time, and the cell exposes the three observable states the view
//! renders — pending (loading fallback), ready (the rendered list) and
//! failed (the error list). Every fetch carries a monotonically increasing
//! request token; a response whose token is not the latest issued is
//! discarded, so the newest request always wins.

use vstd::prelude::*;

verus! {

/// Observable state of a cell, as the view layer renders it.
#[derive(Clone, Copy, Debug, PartialEq, Eq, Structural)]
pub enum Phase {
    /// No accepted response yet, or a re-fetch is in flight.
    Pending,
    /// The latest accepted fetch succeeded; the list is rendered.
    Ready,
    /// The latest accepted outcome failed; the error list is rendered.
    Failed,
}

/// A transport or decode failure reported by the fetch edge, carrying the
/// human-readable message that the error list renders.
#[derive(Clone, Debug, PartialEq, Eq)]
pub enum FetchError {
    /// The request itself failed: network error or a non-success status.
    Transport(String),
    /// The body arrived but did not decode into the expected shape.
    Decode(String),
}

impl FetchError {
    /// The message carried by either failure kind.
    pub open spec fn spec_message(self) -> Seq<char> {
        match self {
            FetchError::Transport(s) => s@,
            FetchError::Decode(s) => s@,
        }
    }

    /// The human-readable message rendered as one error-list entry.
    pub fn message(&self) -> (m: String)
        ensures
            m@ == self.spec_message(),
    {
        match self {
            FetchError::Transport(s) => s.clone(),
            FetchError::Decode(s) => s.clone(),
        }
    }
}

/// Mathematical model of a fetch cell, over the deep views of its data:
/// the state on which the transition functions and the laws are stated.
#[verifier::ext_equal]
pub struct CellModel<V> {
    /// Tokens `0 .. next_token` have been issued to requests so far.
    pub next_token: int,
    /// Token of the in-flight request whose response will be accepted.
    pub current: Option<int>,
    /// The last successfully rendered list, kept across later failures.
    pub data: Option<Seq<V>>,
    /// Messages shown while the cell is failed.
    pub errors: Seq<Seq<char>>,
}

impl<V> CellModel<V> {
    /// Every issued token is below `next_token`, so a token handed out by
    /// the next request differs from every earlier one.
    pub open spec fn wf(self) -> bool {
        &&& 0 <= self.next_token
        &&& (self.current matches Some(t) ==> 0 <= t < self.next_token)
    }

    /// The phase the view renders, derived from the state.
    pub open spec fn phase(self) -> Phase {
        if self.errors.len() > 0 {
            Phase::Failed
        } else if self.current is Some || self.data is None {
            Phase::Pending
        } else {
            Phase::Ready
        }
    }
}

/// Issuing a new fetch: the cell goes pending under a fresh token, shown
/// errors are cleared, and the last good data is kept for later.
pub open spec fn step_request<V>(m: CellModel<V>) -> CellModel<V> {
    CellModel {
        next_token: m.next_token + 1,
        current: Some(m.next_token),
        data: m.data,
        errors: Seq::empty(),
    }
}

/// Failing without sending a request (domain validation): the error list
/// becomes exactly the given message, any in-flight request is abandoned,
/// and the last good data is kept.
pub open spec fn step_reject<V>(m: CellModel<V>, message: Seq<char>) -> CellModel<V> {
    CellModel {
        next_token: m.next_token,
        current: None,
        data: m.data,
        errors: seq![message],
    }
}

/// Applying a response: a stale or unknown token changes nothing; the
/// accepted outcome moves the cell to ready with the delivered list, or to
/// failed with exactly one error entry while the rendered data stays.
pub open spec fn step_resolve<V>(
    m: CellModel<V>,
    token: int,
    outcome: Result<Seq<V>, Seq<char>>,
) -> CellModel<V> {
    if m.current != Some(token) {
        m
    } else {
        match outcome {
            Ok(items) => CellModel {
                next_token: m.next_token,
                current: None,
                data: Some(items),
                errors: Seq::empty(),
            },
            Err(message) => CellModel {
                next_token: m.next_token,
                current: None,
                data: m.data,
                errors: seq![message],
            },
        }
    }
}

/// The outcome a fetch hands to the cell, taken to its model.
pub open spec fn spec_outcome<T: DeepView>(
    outcome: Result<Vec<T>, FetchError>,
) -> Result<Seq<T::V>, Seq<char>> {
    match outcome {
        Ok(items) => Ok(items.deep_view()),
        Err(e) => Err(e.spec_message()),
    }
}

/// The reactive data cell itself. Its model is a `CellModel` over the deep
/// views of the rendered items.
pub struct FetchCell<T: DeepView> {
    /// Tokens `0 .. next_token` have been issued to requests so far.
    pub next_token: u64,
    /// Token of the in-flight request whose response will be accepted.
    pub current: Option<u64>,
    /// The last successfully rendered list, kept across later failures.
    pub data: Option<Vec<T>>,
    /// Messages shown while the cell is failed.
    pub errors: Vec<String>,
}

impl<T: DeepView> View for FetchCell<T> {
    type V = CellModel<T::V>;

    open spec fn view(&self) -> CellModel<T::V> {
        CellModel {
            next_token: self.next_token as int,
            current: match self.current {
                Some(t) => Some(t as int),
                None => None,
            },
            data: match self.data {
                Some(ref v) => Some(v.deep_view()),
                None => None,
            },
            errors: self.errors.deep_view(),
        }
    }
}

impl<T: DeepView> FetchCell<T> {
    /// The cell's invariant, over its model.
    pub open spec fn wf(self) -> bool {
        self@.wf()
    }

    /// A fresh cell: nothing fetched yet, the view shows the loading
    /// fallback.
    pub fn new() -> (c: Self)
        ensures
            c.wf(),
            c@ == (CellModel::<T::V> {
                next_token: 0,
                current: None,
                data: None,
                errors: Seq::empty(),
            }),
            c@.phase() is Pending,
    {
        let c = FetchCell { next_token: 0u64, current: None, data: None, errors: Vec::new() };
        proof {
            assert(c@ =~= (CellModel::<T::V> {
                next_token: 0,
                current: None,
                data: None,
                errors: Seq::empty(),
            }));
        }
        c
    }

    /// The phase the view renders.
    pub fn phase(&self) -> (p: Phase)
        ensures
            p == self@.phase(),
    {
        if self.errors.len() > 0 {
            Phase::Failed
        } else if self.current.is_some() || self.data.is_none() {
            Phase::Pending
        } else {
            Phase::Ready
        }
    }

    /// Issue a new fetch and hand out its token.
    pub fn request(&mut self) -> (token: u64)
        requires
            old(self).wf(),
            old(self).next_token < u64::MAX,
        ensures
            final(self).wf(),
            token == old(self).next_token,
            final(self)@ == step_request(old(self)@),
            final(self)@.phase() is Pending,
    {
        let token = self.next_token;
        self.next_token = self.next_token + 1;
        self.current = Some(token);
        self.errors = Vec::new();
        proof {
            assert(self@ =~= step_request(old(self)@));
        }
        token
    }

    /// Fail at once without sending a request: the error list becomes
    /// exactly the given message.
    pub fn reject(&mut self, message: String)
        requires
            old(self).wf(),
        ensures
            final(self).wf(),
            final(self)@ == step_reject(old(self)@, message@),
            final(self)@.phase() is Failed,
    {
        self.current = None;
        let mut msgs: Vec<String> = Vec::new();
        msgs.push(message);
        self.errors = msgs;
        proof {
            assert(self@ =~= step_reject(old(self)@, message@));
        }
    }

    /// Apply the outcome of the request identified by `token`.
    pub fn resolve(&mut self, token: u64, outcome: Result<Vec<T>, FetchError>)
        requires
            old(self).wf(),
        ensures
            final(self).wf(),
            final(self)@ == step_resolve(old(self)@, token as int, spec_outcome(outcome)),
            old(self)@.current != Some(token as int) ==> final(self)@ == old(self)@,
            (old(self)@.current == Some(token as int) && outcome is Ok) ==> final(self)@.phase()
                is Ready,
            (old(self)@.current == Some(token as int) && outcome is Err) ==> final(self)@.phase()
                is Failed && final(self)@.errors.len() == 1 && final(self)@.data == old(
                self,
            )@.data,
    {
        let ghost spec_out = spec_outcome(outcome);
        let accept = match self.current {
            Some(t) => t == token,
            None => false,
        };
        if accept {
            self.current = None;
            match outcome {
                Ok(items) => {
                    self.data = Some(items);
                    self.errors = Vec::new();
                },
                Err(e) => {
                    let mut msgs: Vec<String> = Vec::new();
                    msgs.push(e.message());
                    self.errors = msgs;
                },
            }
        }
        proof {
            assert(self@ =~= step_resolve(old(self)@, token as int, spec_out));
        }
    }
}

/// Law: the newest request wins. After two overlapping requests, the
/// response of the newer one is applied and the response of the older,
/// superseded one is discarded — in whichever order the two arrive.
pub proof fn lemma_newest_request_wins<V>(m: CellModel<V>, older: Seq<V>, newer: Seq<V>)
    requires
        m.wf(),
    ensures
        ({
            let t_old = m.next_token;
            let m1 = step_request(m);
            let t_new = m1.next_token;
            let m2 = step_request(m1);
            let late_old = step_resolve(step_resolve(m2, t_new, Ok(newer)), t_old, Ok(older));
            let early_old = step_resolve(step_resolve(m2, t_old, Ok(older)), t_new, Ok(newer));
            &&& late_old.data == Some(newer)
            &&& early_old.data == Some(newer)
            &&& late_old.phase() is Ready
            &&& early_old.phase() is Ready
        }),
{
}

/// Law: a fetch is idempotent. Two cells that each issue a request and
/// accept a successful response carrying the same list render structurally
/// equal lists, whatever either cell held before.
pub proof fn lemma_fetch_idempotent<V>(m1: CellModel<V>, m2: CellModel<V>, items: Seq<V>)
    ensures
        ({
            let a = step_resolve(step_request(m1), m1.next_token, Ok(items));
            let b = step_resolve(step_request(m2), m2.next_token, Ok(items));
            &&& a.data == b.data
            &&& a.data == Some(items)
            &&& a.phase() is Ready
            &&& b.phase() is Ready
        }),
{
}

} // verus!
