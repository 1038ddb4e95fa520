//! The listener address the server binds, as plain values: whether it
//! is a loopback address, and how it prints.

use vstd::prelude::*;
use crate::text::{decimal, push_decimal};

verus! {

/// An IPv4 socket address `a.b.c.d:port`.
#[derive(Debug, Clone, Copy, PartialEq, Eq, Structural)]
pub struct BindAddr {
    pub a: u8,
    pub b: u8,
    pub c: u8,
    pub d: u8,
    pub port: u16,
}

/// The address is in `127.0.0.0/8`.
pub open spec fn is_loopback(a: BindAddr) -> bool {
    a.a == 127
}

/// How the address prints: `a.b.c.d:port`.
pub open spec fn bind_addr_text(a: BindAddr) -> Seq<char> {
    decimal(a.a as nat) + "."@ + decimal(a.b as nat) + "."@ + decimal(
        a.c as nat,
    ) + "."@ + decimal(a.d as nat) + ":"@ + decimal(a.port as nat)
}

impl BindAddr {
    /// True for a loopback address.
    pub fn is_loopback(&self) -> (r: bool)
        ensures
            r == is_loopback(*self),
    {
        self.a == 127
    }

    /// Appends how the address prints.
    pub fn push_text(&self, out: &mut String)
        ensures
            final(out)@ == old(out)@ + bind_addr_text(*self),
    {
        push_decimal(out, self.a as u64);
        out.append(".");
        push_decimal(out, self.b as u64);
        out.append(".");
        push_decimal(out, self.c as u64);
        out.append(".");
        push_decimal(out, self.d as u64);
        out.append(":");
        push_decimal(out, self.port as u64);
    }

    /// The wildcard `0.0.0.0` on `port`, where the server listens.
    pub fn wildcard(port: u16) -> (a: BindAddr)
        ensures
            a == (BindAddr { a: 0, b: 0, c: 0, d: 0, port }),
    {
        BindAddr { a: 0, b: 0, c: 0, d: 0, port }
    }
}

} // verus!
