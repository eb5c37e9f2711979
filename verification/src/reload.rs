//! Generation-stamped publication of reloaded models.
//!
//! One coordinator value sits behind the caller's lock. The interactive
//! context reads the published model each frame; each submission hands its
//! token to a background worker, and the worker reports back through
//! `complete`. A completion publishes only while its token is the highest
//! ever issued, so a slow stale load can never overwrite a newer result, and
//! the slot always holds a whole model, never a partial one.

use vstd::prelude::*;
use crate::mesh::NormalizedModel;
use crate::stl::LoadError;

verus! {

/// The shared slot: the currently renderable model, the generation bookkeeping
/// and the progress flag.
pub struct ReloadCoordinator {
    model: NormalizedModel,
    published_gen: u64,
    highest_issued: u64,
    loading: bool,
    last_error: Option<LoadError>,
}

impl ReloadCoordinator {
    /// The published model's vertices.
    pub closed spec fn spec_model(self) -> Seq<crate::mesh::Vertex> {
        self.model.verts@
    }

    /// Generation token of the published model; zero names the initial model.
    pub closed spec fn spec_published_gen(self) -> u64 {
        self.published_gen
    }

    /// Highest generation token handed out so far.
    pub closed spec fn spec_highest_issued(self) -> u64 {
        self.highest_issued
    }

    /// Whether the newest submission is still in flight.
    pub closed spec fn spec_loading(self) -> bool {
        self.loading
    }

    /// The error the newest settled load reported, if it failed.
    pub closed spec fn spec_error(self) -> Option<LoadError> {
        self.last_error
    }

    /// The state after a submission: one more token issued, progress shown.
    pub closed spec fn after_submit(self) -> Self {
        ReloadCoordinator {
            model: self.model,
            published_gen: self.published_gen,
            highest_issued: (self.highest_issued + 1) as u64,
            loading: true,
            last_error: None,
        }
    }

    /// The state after a worker for `token` hands in `result`: the newest
    /// token publishes or reports, anything stale is discarded whole.
    pub closed spec fn after_complete(
        self,
        token: u64,
        result: Result<NormalizedModel, LoadError>,
    ) -> Self {
        if token == self.highest_issued {
            match result {
                Ok(m) => ReloadCoordinator {
                    model: m,
                    published_gen: token,
                    highest_issued: self.highest_issued,
                    loading: false,
                    last_error: None,
                },
                Err(e) => ReloadCoordinator {
                    model: self.model,
                    published_gen: self.published_gen,
                    highest_issued: self.highest_issued,
                    loading: false,
                    last_error: Some(e),
                },
            }
        } else {
            self
        }
    }

    /// A fresh coordinator holding the model drawn before any reload.
    pub fn new(initial: NormalizedModel) -> (c: Self)
        ensures
            c.spec_model() == initial.verts@,
            c.spec_published_gen() == 0,
            c.spec_highest_issued() == 0,
            !c.spec_loading(),
            c.spec_error() is None,
    {
        ReloadCoordinator {
            model: initial,
            published_gen: 0,
            highest_issued: 0,
            loading: false,
            last_error: None,
        }
    }

    /// Issue the next generation token for a new load and mark the slot
    /// loading. The published model is untouched.
    pub fn submit(&mut self) -> (token: u64)
        requires
            old(self).spec_highest_issued() < u64::MAX,
        ensures
            *final(self) == old(self).after_submit(),
            token == old(self).spec_highest_issued() + 1,
            final(self).spec_highest_issued() == token,
            final(self).spec_loading(),
            final(self).spec_model() == old(self).spec_model(),
            final(self).spec_published_gen() == old(self).spec_published_gen(),
            final(self).spec_error() is None,
    {
        self.highest_issued = self.highest_issued + 1;
        self.loading = true;
        self.last_error = None;
        self.highest_issued
    }

    /// A worker for `token` hands in its outcome. While `token` is the
    /// highest ever issued, a successful load is published atomically as a
    /// whole value and a failed one only clears the progress flag and
    /// records its error, leaving the previous model in place; a superseded
    /// completion, early or late, changes nothing at all.
    pub fn complete(&mut self, token: u64, result: Result<NormalizedModel, LoadError>)
        ensures
            *final(self) == old(self).after_complete(token, result),
            final(self).spec_highest_issued() == old(self).spec_highest_issued(),
            token != old(self).spec_highest_issued() ==> *final(self) == *old(self),
            token == old(self).spec_highest_issued() ==> match result {
                Ok(m) => {
                    &&& final(self).spec_model() == m.verts@
                    &&& final(self).spec_published_gen() == token
                    &&& !final(self).spec_loading()
                    &&& final(self).spec_error() is None
                },
                Err(e) => {
                    &&& final(self).spec_model() == old(self).spec_model()
                    &&& final(self).spec_published_gen() == old(self).spec_published_gen()
                    &&& !final(self).spec_loading()
                    &&& final(self).spec_error() == Some(e)
                },
            },
    {
        if token == self.highest_issued {
            match result {
                Ok(m) => {
                    self.model = m;
                    self.published_gen = token;
                    self.loading = false;
                    self.last_error = None;
                },
                Err(e) => {
                    self.loading = false;
                    self.last_error = Some(e);
                },
            }
        }
    }

    /// Borrow the published model for the duration of a draw.
    pub fn current(&self) -> (m: &NormalizedModel)
        ensures
            m.verts@ == self.spec_model(),
    {
        &self.model
    }

    /// Generation token of the published model.
    pub fn published_generation(&self) -> (g: u64)
        ensures
            g == self.spec_published_gen(),
    {
        self.published_gen
    }

    /// Highest generation token handed out so far.
    pub fn highest_generation(&self) -> (g: u64)
        ensures
            g == self.spec_highest_issued(),
    {
        self.highest_issued
    }

    /// Non-blocking progress poll for the indicator.
    pub fn is_loading(&self) -> (b: bool)
        ensures
            b == self.spec_loading(),
    {
        self.loading
    }

    /// The error the newest settled load reported, if any.
    pub fn error(&self) -> (e: Option<LoadError>)
        ensures
            e == self.spec_error(),
    {
        self.last_error
    }

    /// Race resolution: after submitting load A and then load B, B's token is
    /// the higher one, and once both workers have handed in their outcomes —
    /// in either order — the slot holds exactly B's successful result; A's
    /// result never overwrites it.
    pub proof fn lemma_race_resolution(
        s0: Self,
        ra: Result<NormalizedModel, LoadError>,
        mb: NormalizedModel,
    )
        requires
            s0.spec_highest_issued() + 2 <= u64::MAX,
        ensures
            ({
                let s1 = s0.after_submit();
                let ta = s1.spec_highest_issued();
                let s2 = s1.after_submit();
                let tb = s2.spec_highest_issued();
                let b_first = s2.after_complete(tb, Ok(mb)).after_complete(ta, ra);
                let a_first = s2.after_complete(ta, ra).after_complete(tb, Ok(mb));
                &&& ta < tb
                &&& b_first.spec_model() == mb.verts@
                &&& a_first.spec_model() == mb.verts@
                &&& b_first.spec_published_gen() == tb
                &&& a_first.spec_published_gen() == tb
                &&& !b_first.spec_loading()
                &&& !a_first.spec_loading()
            }),
    {
    }
}

} // verus!
