//! The tunnel session: exclusive owner of the live tunnel and its
//! configuration, and the single-flight guard on connect attempts.

use vstd::prelude::*;
use crate::config::WgConfig;
use crate::errors::SecurityError;

verus! {

/// The configuration a live tunnel was brought up with. Its strings are
/// owned here and released together with the tunnel.
#[derive(Debug)]
pub struct TunnelConfig {
    pub private_key: String,
    pub public_key: String,
    pub allowed_ip: String,
    pub allowed_ip_mask: String,
    pub endpoint: String,
}

impl TunnelConfig {
    /// The tunnel configuration for a provisioned identity: the device's
    /// private key, the server's public key, the allowed network, and the
    /// server's address as endpoint.
    pub fn from_identity(id: &WgConfig) -> (r: TunnelConfig)
        ensures
            r.private_key@ == id.cli_priv_key@,
            r.public_key@ == id.serv_pub_key@,
            r.allowed_ip@ == id.allowed_ip@,
            r.allowed_ip_mask@ == id.allowed_mask@,
            r.endpoint@ == id.address@,
    {
        TunnelConfig {
            private_key: id.cli_priv_key.as_str().to_owned(),
            public_key: id.serv_pub_key.as_str().to_owned(),
            allowed_ip: id.allowed_ip.as_str().to_owned(),
            allowed_ip_mask: id.allowed_mask.as_str().to_owned(),
            endpoint: id.address.as_str().to_owned(),
        }
    }
}

/// Holds the live tunnel handle and its configuration; both are held or
/// neither is, and a held handle means the tunnel is up.
pub struct Wireguard<H> {
    ctx: Option<H>,
    config: Option<TunnelConfig>,
}

impl<H> Wireguard<H> {
    #[verifier::type_invariant]
    spec fn paired(&self) -> bool {
        self.ctx.is_some() == self.config.is_some()
    }

    /// The live tunnel, with its configuration, when there is one.
    pub closed spec fn tunnel(&self) -> Option<(H, TunnelConfig)> {
        if self.ctx.is_some() && self.config.is_some() {
            Some((self.ctx.unwrap(), self.config.unwrap()))
        } else {
            None
        }
    }

    /// Whether a tunnel is up.
    pub open spec fn connected(&self) -> bool {
        self.tunnel() is Some
    }

    /// A session with no tunnel.
    pub fn new() -> (r: Self)
        ensures
            r.tunnel() is None,
    {
        Wireguard { ctx: None, config: None }
    }

    /// Stores a tunnel that was just brought up; a session that already
    /// holds one keeps it.
    pub fn set(&mut self, ctx: H, config: TunnelConfig)
        ensures
            final(self).tunnel() == if old(self).connected() {
                old(self).tunnel()
            } else {
                Some((ctx, config))
            },
    {
        if !self.is_set() {
            *self = Wireguard { ctx: Some(ctx), config: Some(config) };
        }
    }

    /// Whether a tunnel is up.
    pub fn is_set(&self) -> (r: bool)
        ensures
            r == self.connected(),
    {
        proof {
            use_type_invariant(self);
        }
        self.ctx.is_some()
    }

    /// Gives up the tunnel handle and its configuration together; they are
    /// released when the result is dropped.
    pub fn reset(&mut self) -> (r: Option<(H, TunnelConfig)>)
        ensures
            final(self).tunnel() is None,
            r == old(self).tunnel(),
    {
        let mut taken = Wireguard { ctx: None, config: None };
        core::mem::swap(self, &mut taken);
        proof {
            use_type_invariant(&taken);
        }
        let Wireguard { ctx, config } = taken;
        match (ctx, config) {
            (Some(h), Some(c)) => Some((h, c)),
            _ => None,
        }
    }
}

/// Set while a connect attempt is outstanding, so that at most one runs at
/// a time.
#[derive(Debug)]
pub struct ConnectGuard {
    in_flight: bool,
}

impl ConnectGuard {
    pub closed spec fn busy(&self) -> bool {
        self.in_flight
    }

    /// A guard with no attempt outstanding.
    pub fn new() -> (r: Self)
        ensures
            !r.busy(),
    {
        ConnectGuard { in_flight: false }
    }

    /// Whether a connect attempt is outstanding.
    pub fn is_in_flight(&self) -> (r: bool)
        ensures
            r == self.busy(),
    {
        self.in_flight
    }
}

/// Admits a connect attempt: refused while another is outstanding, then
/// while a tunnel is up; otherwise the guard is raised and the caller may
/// start connecting. A refusal changes nothing.
pub fn start_tunnel<H>(guard: &mut ConnectGuard, session: &Wireguard<H>) -> (r: Result<(), SecurityError>)
    ensures
        old(guard).busy() ==> r == Err::<(), SecurityError>(SecurityError::ConnectInProgress),
        !old(guard).busy() && session.connected() ==> r == Err::<(), SecurityError>(
            SecurityError::AlreadyConnected,
        ),
        !old(guard).busy() && !session.connected() ==> r == Ok::<(), SecurityError>(()),
        r is Ok ==> final(guard).busy(),
        r is Err ==> final(guard).busy() == old(guard).busy(),
{
    if guard.in_flight {
        return Err(SecurityError::ConnectInProgress);
    }
    if session.is_set() {
        return Err(SecurityError::AlreadyConnected);
    }
    guard.in_flight = true;
    Ok(())
}

/// Records how a connect attempt ended: a tunnel that came up is stored and
/// the guard stays raised, as the live tunnel now stands for the attempt; a
/// failed attempt lowers the guard.
pub fn finish_connect<H>(guard: &mut ConnectGuard, session: &mut Wireguard<H>, outcome: Option<(H, TunnelConfig)>)
    ensures
        outcome is None ==> !final(guard).busy() && final(session).tunnel() == old(session).tunnel(),
        outcome is Some ==> final(guard).busy() == old(guard).busy(),
        outcome is Some && !old(session).connected() ==> final(session).tunnel() == outcome,
        outcome is Some && old(session).connected() ==> final(session).tunnel() == old(session).tunnel(),
{
    match outcome {
        Some((h, c)) => session.set(h, c),
        None => guard.in_flight = false,
    }
}

/// Takes the live tunnel down from the session: refused when there is none;
/// otherwise the handle and its configuration are handed over together, for
/// the caller to close the tunnel and release them.
pub fn end_tunnel<H>(session: &mut Wireguard<H>) -> (r: Result<(H, TunnelConfig), SecurityError>)
    ensures
        !old(session).connected() ==> r == Err::<(H, TunnelConfig), SecurityError>(
            SecurityError::NotConnected,
        ) && final(session).tunnel() is None,
        old(session).connected() ==> r == Ok::<(H, TunnelConfig), SecurityError>(
            old(session).tunnel().unwrap(),
        ),
        final(session).tunnel() is None,
{
    match session.reset() {
        Some(t) => Ok(t),
        None => Err(SecurityError::NotConnected),
    }
}

/// Records that a tunnel was taken down: the guard is lowered so that a new
/// connect attempt may start.
pub fn finish_disconnect(guard: &mut ConnectGuard)
    ensures
        !final(guard).busy(),
{
    guard.in_flight = false;
}

} // verus!
