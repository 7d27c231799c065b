//! Values of NVMe over Fabrics connected controllers.
use vstd::prelude::*;

verus! {

/// Transport values of a controller.
#[derive(Clone, Copy, Debug, PartialEq, Eq, Structural)]
#[non_exhaustive]
pub enum Transport {
    /// PCI Express Transport
    Pcie,
    /// RDMA Transport
    Rdma,
    /// Fibre Channel Transport
    Fc,
    /// TCP Transport
    Tcp,
    /// Intra-host Transport (i.e loopback)
    Loop,
}

impl Transport {
    /// The service's word for the value.
    pub open spec fn word(self) -> Seq<char> {
        match self {
            Transport::Pcie => "pcie"@,
            Transport::Rdma => "rdma"@,
            Transport::Fc => "fc"@,
            Transport::Tcp => "tcp"@,
            Transport::Loop => "loop"@,
        }
    }

    /// The value that a word of the service stands for, if it stands for one.
    pub open spec fn named(s: Seq<char>) -> Option<Transport> {
        if s == "pcie"@ {
            Some(Transport::Pcie)
        } else if s == "rdma"@ {
            Some(Transport::Rdma)
        } else if s == "fc"@ {
            Some(Transport::Fc)
        } else if s == "tcp"@ {
            Some(Transport::Tcp)
        } else if s == "loop"@ {
            Some(Transport::Loop)
        } else {
            None
        }
    }

    /// Returns the service's word for the value.
    pub fn as_str(self) -> (r: &'static str)
        ensures
            r@ == self.word(),
    {
        match self {
            Transport::Pcie => "pcie",
            Transport::Rdma => "rdma",
            Transport::Fc => "fc",
            Transport::Tcp => "tcp",
            Transport::Loop => "loop",
        }
    }

    /// Reads the value from the service's word for it.
    pub fn from_str(s: &str) -> (r: Option<Transport>)
        ensures
            r == Transport::named(s@),
    {
        if s.eq("pcie") {
            Some(Transport::Pcie)
        } else if s.eq("rdma") {
            Some(Transport::Rdma)
        } else if s.eq("fc") {
            Some(Transport::Fc)
        } else if s.eq("tcp") {
            Some(Transport::Tcp)
        } else if s.eq("loop") {
            Some(Transport::Loop)
        } else {
            None
        }
    }
}

} // verus!
