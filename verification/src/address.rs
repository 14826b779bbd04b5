use crate::text::{decimal, push_decimal};
use vstd::prelude::*;
use vstd::string::StringExecFns;

verus! {

/// The family of an IP address. A version 6 address carries its scope
/// identifier, which is zero where none is set.
#[derive(Clone, Copy, Debug, PartialEq, Eq, Structural)]
pub enum IpFamily {
    V4,
    V6 { scope_id: u32 },
}

/// Where a mock server listens: the IP address in its usual text form, and the
/// port.
#[derive(Debug, PartialEq, Eq)]
pub struct ServerAddress {
    pub ip: String,
    pub port: u16,
    pub family: IpFamily,
}

/// The model of a `ServerAddress`.
pub struct ServerAddressView {
    pub ip: Seq<char>,
    pub port: u16,
    pub family: IpFamily,
}

impl View for ServerAddress {
    type V = ServerAddressView;

    open spec fn view(&self) -> ServerAddressView {
        ServerAddressView { ip: self.ip@, port: self.port, family: self.family }
    }
}

impl ServerAddressView {
    /// The address as it stands in a URL: `ip:port` for version 4, and for
    /// version 6 the address in square brackets, followed inside them by `%`
    /// and the scope identifier where that is not zero.
    pub open spec fn authority(self) -> Seq<char> {
        match self.family {
            IpFamily::V4 => self.ip + ":"@ + decimal(self.port as nat),
            IpFamily::V6 { scope_id } => if scope_id == 0 {
                "["@ + self.ip + "]:"@ + decimal(self.port as nat)
            } else {
                "["@ + self.ip + "%"@ + decimal(scope_id as nat) + "]:"@ + decimal(
                    self.port as nat,
                )
            },
        }
    }
}

impl ServerAddress {
    pub fn new(ip: String, port: u16, family: IpFamily) -> (r: Self)
        ensures
            r@ == (ServerAddressView { ip: ip@, port, family }),
    {
        ServerAddress { ip, port, family }
    }

    /// The IP address as text.
    pub fn host(&self) -> (r: String)
        ensures
            r@ == self@.ip,
    {
        self.ip.clone()
    }

    pub fn port(&self) -> (r: u16)
        ensures
            r == self@.port,
    {
        self.port
    }

    /// The address as it stands in a URL.
    pub fn to_string(&self) -> (r: String)
        ensures
            r@ == self@.authority(),
    {
        let mut out = String::new();
        self.push_authority(&mut out);
        out
    }

    /// Appends the address, as it stands in a URL, to `out`.
    pub fn push_authority(&self, out: &mut String)
        ensures
            final(out)@ == old(out)@ + self@.authority(),
    {
        match self.family {
            IpFamily::V4 => {
                out.append(self.ip.as_str());
                out.append(":");
                push_decimal(out, self.port as u64);
                assert(out@ =~= old(out)@ + self@.authority());
            },
            IpFamily::V6 { scope_id } => {
                out.append("[");
                out.append(self.ip.as_str());
                if scope_id != 0 {
                    out.append("%");
                    push_decimal(out, scope_id as u64);
                }
                out.append("]:");
                push_decimal(out, self.port as u64);
                assert(out@ =~= old(out)@ + self@.authority());
            },
        }
    }
}

impl Clone for ServerAddress {
    fn clone(&self) -> (r: Self)
        ensures
            r@ == self@,
    {
        ServerAddress { ip: self.ip.clone(), port: self.port, family: self.family }
    }
}

} // verus!
