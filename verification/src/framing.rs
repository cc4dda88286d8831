//! The header that some virtual interfaces put in front of every frame.
//!
//! In packet-info mode such a device expects, and delivers, four bytes before
//! the IP packet: two flag bytes, always zero, and two bytes that name the
//! address family in the platform's own numbering.

use crate::flow::AddressFamily;
use vstd::prelude::*;
use vstd::slice::slice_subrange;

verus! {

/// The number of bytes of the packet-info header.
pub const HEADER_LEN: usize = 4;

/// The platforms whose conventions the stack knows.
#[derive(Clone, Copy, Debug, PartialEq, Eq, Structural)]
pub enum Platform {
    Linux,
    MacOs,
    Windows,
    /// A platform whose devices carry bare IP packets.
    Other,
}

impl Platform {
    /// The two bytes by which the platform names `family`, where its devices
    /// have a packet-info header at all.
    pub open spec fn spec_family_tag(self, family: AddressFamily) -> Option<(u8, u8)> {
        match self {
            Platform::Linux => match family {
                AddressFamily::Ipv4 => Some((0x08u8, 0x00u8)),
                AddressFamily::Ipv6 => Some((0x86u8, 0xddu8)),
            },
            Platform::MacOs => Some((0x00u8, 0x02u8)),
            Platform::Windows => None,
            Platform::Other => None,
        }
    }

    #[verifier::when_used_as_spec(spec_family_tag)]
    pub fn family_tag(self, family: AddressFamily) -> (tag: Option<(u8, u8)>)
        ensures
            tag == self.spec_family_tag(family),
    {
        match self {
            Platform::Linux => match family {
                AddressFamily::Ipv4 => Some((0x08u8, 0x00u8)),
                AddressFamily::Ipv6 => Some((0x86u8, 0xddu8)),
            },
            Platform::MacOs => Some((0x00u8, 0x02u8)),
            Platform::Windows => None,
            Platform::Other => None,
        }
    }

    /// Whether devices of this platform know the packet-info header.
    pub open spec fn spec_has_header(self) -> bool {
        self is Linux || self is MacOs
    }

    #[verifier::when_used_as_spec(spec_has_header)]
    pub fn has_header(self) -> (yes: bool)
        ensures
            yes == self.spec_has_header(),
    {
        match self {
            Platform::Linux => true,
            Platform::MacOs => true,
            Platform::Windows => false,
            Platform::Other => false,
        }
    }

    pub open spec fn spec_default_ttl(self) -> u8 {
        if self is Windows {
            128u8
        } else {
            64u8
        }
    }

    /// The time-to-live that sessions give to the frames they build.
    #[verifier::when_used_as_spec(spec_default_ttl)]
    pub fn default_ttl(self) -> (ttl: u8)
        ensures
            ttl == self.spec_default_ttl(),
    {
        match self {
            Platform::Windows => 128,
            _ => 64,
        }
    }
}

/// How one device frames its packets: the platform it runs on, and whether it
/// was opened in packet-info mode.
#[derive(Clone, Copy, Debug, PartialEq, Eq, Structural)]
pub struct Framing {
    pub platform: Platform,
    pub packet_info: bool,
}

impl Framing {
    /// Whether every frame of the device carries the header.
    pub open spec fn spec_is_active(self) -> bool {
        self.packet_info && self.platform.spec_has_header()
    }

    #[verifier::when_used_as_spec(spec_is_active)]
    pub fn is_active(self) -> (yes: bool)
        ensures
            yes == self.spec_is_active(),
    {
        self.packet_info && self.platform.has_header()
    }

    /// The number of bytes in front of the IP packet.
    pub open spec fn spec_offset(self) -> usize {
        if self.spec_is_active() {
            HEADER_LEN
        } else {
            0
        }
    }

    #[verifier::when_used_as_spec(spec_offset)]
    pub fn offset(self) -> (offset: usize)
        ensures
            offset == self.spec_offset(),
    {
        if self.is_active() {
            HEADER_LEN
        } else {
            0
        }
    }

    /// The bytes that stand in front of an IP packet of `family`: nothing
    /// where the header is not in use, else two zero bytes and the
    /// platform's tag for the family.
    pub open spec fn header(self, family: AddressFamily) -> Seq<u8> {
        if self.spec_is_active() {
            match self.platform.spec_family_tag(family) {
                Some((high, low)) => seq![0u8, 0u8, high, low],
                None => Seq::<u8>::empty(),
            }
        } else {
            Seq::<u8>::empty()
        }
    }

    /// What is left of a device buffer once the header is taken off.
    pub open spec fn stripped(self, raw: Seq<u8>) -> Seq<u8>
        recommends
            raw.len() >= self.spec_offset(),
    {
        raw.skip(self.spec_offset() as int)
    }

    /// An IP packet of `family` with the header in front.
    pub open spec fn framed(self, ip_bytes: Seq<u8>, family: AddressFamily) -> Seq<u8> {
        self.header(family) + ip_bytes
    }

    /// A device buffer is well framed for `family` when it starts with the
    /// header for that family.
    pub open spec fn well_framed(self, raw: Seq<u8>, family: AddressFamily) -> bool {
        &&& raw.len() >= self.spec_offset()
        &&& raw.take(self.spec_offset() as int) == self.header(family)
    }

    /// Takes the header off a buffer read from the device. A buffer too short
    /// to hold the header holds no packet.
    pub fn strip<'a>(&self, raw: &'a [u8]) -> (ip_bytes: Option<&'a [u8]>)
        ensures
            raw@.len() < self.spec_offset() <==> ip_bytes is None,
            ip_bytes matches Some(bytes) ==> bytes@ == self.stripped(raw@),
    {
        let offset = self.offset();
        if raw.len() < offset {
            None
        } else {
            Some(slice_subrange(raw, offset, raw.len()))
        }
    }

    /// Puts the header for `family` in front of a serialised IP packet; hands
    /// the packet back as it is where the header is not in use.
    pub fn prepend(&self, ip_bytes: Vec<u8>, family: AddressFamily) -> (out: Vec<u8>)
        ensures
            out@ == self.framed(ip_bytes@, family),
    {
        if !self.is_active() {
            assert(ip_bytes@ =~= self.framed(ip_bytes@, family));
            return ip_bytes;
        }
        match self.platform.family_tag(family) {
            Some((high, low)) => {
                let ghost packet = ip_bytes@;
                let mut ip_bytes = ip_bytes;
                let mut out: Vec<u8> = Vec::new();
                out.push(0u8);
                out.push(0u8);
                out.push(high);
                out.push(low);
                out.append(&mut ip_bytes);
                assert(out@ =~= self.framed(packet, family)) by {
                    assert(self.header(family) =~= seq![0u8, 0u8, high, low]);
                }
                out
            },
            None => ip_bytes,
        }
    }

    /// Stripping a well-framed buffer and framing the result for the same
    /// family gives the buffer back, and the header that comes back names
    /// that family in the platform's numbering.
    pub proof fn lemma_prepend_strip(self, raw: Seq<u8>, family: AddressFamily)
        requires
            self.well_framed(raw, family),
        ensures
            self.framed(self.stripped(raw), family) == raw,
            self.spec_is_active() ==> {
                &&& raw.len() >= HEADER_LEN
                &&& raw[0] == 0 && raw[1] == 0
                &&& self.platform.spec_family_tag(family) == Some((raw[2], raw[3]))
            },
    {
        let n = self.spec_offset() as int;
        assert(raw.take(n) + raw.skip(n) =~= raw);
        if self.spec_is_active() {
            let h = self.header(family);
            assert(h.len() == 4);
            assert(raw.take(n)[0] == raw[0]);
            assert(raw.take(n)[1] == raw[1]);
            assert(raw.take(n)[2] == raw[2]);
            assert(raw.take(n)[3] == raw[3]);
        }
    }

    /// Framing a packet and stripping the result gives the packet back.
    pub proof fn lemma_strip_prepend(self, ip_bytes: Seq<u8>, family: AddressFamily)
        ensures
            self.well_framed(self.framed(ip_bytes, family), family),
            self.stripped(self.framed(ip_bytes, family)) == ip_bytes,
    {
        let h = self.header(family);
        let x = self.framed(ip_bytes, family);
        assert(h.len() == self.spec_offset());
        assert(x.take(h.len() as int) =~= h);
        assert(x.skip(h.len() as int) =~= ip_bytes);
    }
}

} // verus!
