//! The sensor session: exclusive owner of the sensor's two native handles.

use vstd::prelude::*;

verus! {

/// Holds the transport parameters and the command channel of the sensor.
/// Both are held or neither is.
pub struct SensorCtx<P, C> {
    params: Option<P>,
    chain: Option<C>,
}

impl<P, C> SensorCtx<P, C> {
    #[verifier::type_invariant]
    spec fn paired(&self) -> bool {
        self.params.is_some() == self.chain.is_some()
    }

    /// The transport parameters, when held.
    pub closed spec fn params_view(&self) -> Option<P> {
        self.params
    }

    /// The command channel, when held.
    pub closed spec fn chain_view(&self) -> Option<C> {
        self.chain
    }

    /// Both handles, when the session holds them.
    pub open spec fn handles(&self) -> Option<(P, C)> {
        if self.params_view().is_some() && self.chain_view().is_some() {
            Some((self.params_view().unwrap(), self.chain_view().unwrap()))
        } else {
            None
        }
    }

    /// Whether the session holds its handles.
    pub open spec fn held(&self) -> bool {
        self.params_view().is_some()
    }

    /// A session that holds nothing.
    pub fn new() -> (r: Self)
        ensures
            r.params_view() is None,
            r.chain_view() is None,
            r.handles() is None,
    {
        SensorCtx { params: None, chain: None }
    }

    /// Stores both handles; a session that already holds handles keeps them.
    pub fn set(&mut self, params: P, chain: C)
        ensures
            old(self).held() ==> final(self).params_view() == old(self).params_view()
                && final(self).chain_view() == old(self).chain_view(),
            !old(self).held() ==> final(self).params_view() == Some(params)
                && final(self).chain_view() == Some(chain),
            final(self).handles() == if old(self).held() {
                old(self).handles()
            } else {
                Some((params, chain))
            },
    {
        if !self.is_set() {
            *self = SensorCtx { params: Some(params), chain: Some(chain) };
        }
    }

    /// Whether both handles are held; one is never held without the other.
    pub fn is_set(&self) -> (r: bool)
        ensures
            r == (self.params_view().is_some() && self.chain_view().is_some()),
            r == self.held(),
            r == self.handles().is_some(),
            self.params_view().is_some() == self.chain_view().is_some(),
    {
        proof {
            use_type_invariant(self);
        }
        self.params.is_some()
    }

    /// Gives up both handles; they are released when the result is dropped.
    pub fn reset(&mut self) -> (r: Option<(P, C)>)
        ensures
            final(self).params_view() is None,
            final(self).chain_view() is None,
            r == old(self).handles(),
            old(self).held() ==> r == Some(
                (old(self).params_view().unwrap(), old(self).chain_view().unwrap()),
            ),
            !old(self).held() ==> r is None,
    {
        proof {
            use_type_invariant(&*self);
        }
        let mut taken = SensorCtx { params: None, chain: None };
        core::mem::swap(self, &mut taken);
        proof {
            use_type_invariant(&taken);
        }
        let SensorCtx { params, chain } = taken;
        match (params, chain) {
            (Some(p), Some(c)) => Some((p, c)),
            _ => None,
        }
    }

    /// The transport parameters, for issuing a command.
    pub fn params(&self) -> (r: Option<&P>)
        ensures
            r is Some <==> self.params_view() is Some,
            r is Some ==> *r.unwrap() == self.params_view().unwrap(),
    {
        self.params.as_ref()
    }

    /// The command channel, for issuing a command.
    pub fn chain(&self) -> (r: Option<&C>)
        ensures
            r is Some <==> self.chain_view() is Some,
            r is Some ==> *r.unwrap() == self.chain_view().unwrap(),
    {
        self.chain.as_ref()
    }
}

} // verus!
