//! The data plane: the read-only view a hook invocation gets of the
//! connection record the kernel wrote for it, and the address-family rule
//! that picks one of the record's two address encodings.

use vstd::prelude::*;

verus! {

/// The address-family tag the kernel writes for IPv6 connections.
pub const AF_INET6: u32 = 10;

/// One invocation's connection record, as plain 32-bit values in the order the
/// kernel lays them out: family tag, protocol, the local address in both
/// encodings, the local port, then the same three for the remote end. Ports and
/// protocol are deliberately wider than their semantic range; addresses are in
/// network byte order. Only the address encoding selected by `family` is
/// meaningful — the other one's words carry no guarantee.
#[derive(Clone, Copy, Debug, PartialEq, Eq)]
pub struct BpfSkLookup {
    pub family: u32,
    pub protocol: u32,
    pub local_ip4: u32,
    pub local_ip6: [u32; 4],
    pub local_port: u32,
    pub remote_ip4: u32,
    pub remote_ip6: [u32; 4],
    pub remote_port: u32,
}

/// An IP address, either V4 or V6, encoded in network byte order.
#[derive(Clone, Copy, Debug, PartialEq, Eq)]
pub enum IpAddr {
    V4(u32),
    V6([u32; 4]),
}

/// The two-way family rule: the tag `AF_INET6` selects the four-word encoding;
/// every other tag falls back to the one-word encoding. The fallback is a
/// deliberate two-family simplification, not a validated mapping: an
/// unrecognized tag lands in the V4 branch.
pub open spec fn decode_model(family: u32, v4: u32, v6: [u32; 4]) -> IpAddr {
    if family == AF_INET6 {
        IpAddr::V6(v6)
    } else {
        IpAddr::V4(v4)
    }
}

/// Picks the address encoding that the family tag selects.
pub fn decode(family: u32, v4: u32, v6: [u32; 4]) -> (r: IpAddr)
    ensures
        r == decode_model(family, v4, v6),
{
    if family == AF_INET6 {
        IpAddr::V6(v6)
    } else {
        IpAddr::V4(v4)
    }
}

/// The IPv6 family tag always selects the four-word encoding, whatever either
/// candidate holds.
pub proof fn lemma_decode_v6(v4: u32, v6: [u32; 4])
    ensures
        decode_model(AF_INET6, v4, v6) == IpAddr::V6(v6),
{
}

/// Every family tag other than the IPv6 one falls back to the one-word
/// encoding, whatever either candidate holds.
pub proof fn lemma_decode_v4(family: u32, v4: u32, v6: [u32; 4])
    requires
        family != AF_INET6,
    ensures
        decode_model(family, v4, v6) == IpAddr::V4(v4),
{
}

/// A read-only view over one invocation's connection record. It is created for
/// a single invocation, has no side effects, and must not outlive the
/// invocation that produced its record.
#[derive(Clone, Copy, Debug)]
pub struct SkLookupContext {
    pub ctx: BpfSkLookup,
}

impl SkLookupContext {
    /// Wraps one invocation's record.
    pub fn new(ctx: BpfSkLookup) -> (r: SkLookupContext)
        ensures
            r.ctx == ctx,
    {
        SkLookupContext { ctx }
    }

    /// Returns the protocol, either `IPPROTO_TCP` (6) or `IPPROTO_UDP` (17),
    /// as the raw 32-bit value the kernel wrote.
    pub fn protocol(&self) -> (r: u32)
        ensures
            r == self.ctx.protocol,
    {
        self.ctx.protocol
    }

    /// Returns the local port as the raw 32-bit value the kernel wrote.
    pub fn local_port(&self) -> (r: u32)
        ensures
            r == self.ctx.local_port,
    {
        self.ctx.local_port
    }

    /// Returns the local address in the encoding the family tag selects.
    pub fn local_ip(&self) -> (r: IpAddr)
        ensures
            r == decode_model(self.ctx.family, self.ctx.local_ip4, self.ctx.local_ip6),
    {
        decode(self.ctx.family, self.ctx.local_ip4, self.ctx.local_ip6)
    }

    /// Returns the remote port as the raw 32-bit value the kernel wrote.
    pub fn remote_port(&self) -> (r: u32)
        ensures
            r == self.ctx.remote_port,
    {
        self.ctx.remote_port
    }

    /// Returns the remote address in the encoding the family tag selects.
    pub fn remote_ip(&self) -> (r: IpAddr)
        ensures
            r == decode_model(self.ctx.family, self.ctx.remote_ip4, self.ctx.remote_ip6),
    {
        decode(self.ctx.family, self.ctx.remote_ip4, self.ctx.remote_ip6)
    }
}

} // verus!
