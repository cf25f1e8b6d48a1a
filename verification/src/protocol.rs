//! Protocol identities: the HTTP version preference, the ALPN protocols it
//! stands for, and the TLS protocol versions that bound a handshake.

use vstd::prelude::*;
use vstd::string::*;
use vstd::utf8::*;

verus! {

/// Which HTTP versions a client offers.
#[derive(Debug, Clone, Copy, PartialEq, Eq, Hash, Structural)]
pub enum HttpVersionPref {
    /// HTTP/1.1 only.
    Http1,
    /// HTTP/2 only.
    Http2,
    /// HTTP/2 first, HTTP/1.1 second.
    All,
}

/// A protocol name offered through ALPN.
#[derive(Debug, Clone, Copy, PartialEq, Eq, Hash, Structural)]
pub enum AlpnProtocol {
    /// `h2`
    Http2,
    /// `http/1.1`
    Http1,
}

impl AlpnProtocol {
    /// The protocol's registered name.
    pub open spec fn spec_name(self) -> Seq<char> {
        match self {
            AlpnProtocol::Http2 => "h2"@,
            AlpnProtocol::Http1 => "http/1.1"@,
        }
    }

    /// The octets of the registered name.
    pub open spec fn spec_name_bytes(self) -> Seq<u8> {
        match self {
            AlpnProtocol::Http2 => seq![0x68u8, 0x32u8],
            AlpnProtocol::Http1 => seq![
                0x68u8, 0x74u8, 0x74u8, 0x70u8, 0x2fu8, 0x31u8, 0x2eu8, 0x31u8,
            ],
        }
    }

    /// The protocol's registered name.
    pub fn name(self) -> (name: &'static str)
        ensures
            name@ == self.spec_name(),
    {
        match self {
            AlpnProtocol::Http2 => "h2",
            AlpnProtocol::Http1 => "http/1.1",
        }
    }
}

impl HttpVersionPref {
    /// The protocols offered for this preference, most preferred first.
    pub open spec fn spec_alpn_protocols(self) -> Seq<AlpnProtocol> {
        match self {
            HttpVersionPref::Http1 => seq![AlpnProtocol::Http1],
            HttpVersionPref::Http2 => seq![AlpnProtocol::Http2],
            HttpVersionPref::All => seq![AlpnProtocol::Http2, AlpnProtocol::Http1],
        }
    }

    /// Whether HTTP/2 is among the offered protocols.
    pub open spec fn spec_allows_http2(self) -> bool {
        self != HttpVersionPref::Http1
    }

    /// Whether HTTP/2 is among the offered protocols.
    pub fn allows_http2(self) -> (allowed: bool)
        ensures
            allowed == self.spec_allows_http2(),
            allowed == self.spec_alpn_protocols().contains(AlpnProtocol::Http2),
    {
        proof {
            let offered = self.spec_alpn_protocols();
            if self != HttpVersionPref::Http1 {
                assert(offered[0] == AlpnProtocol::Http2);
            }
        }
        match self {
            HttpVersionPref::Http1 => false,
            HttpVersionPref::Http2 | HttpVersionPref::All => true,
        }
    }

    /// The protocols offered for this preference, most preferred first.
    pub fn alpn_protocols(self) -> (protocols: Vec<AlpnProtocol>)
        ensures
            protocols@ == self.spec_alpn_protocols(),
    {
        let mut protocols: Vec<AlpnProtocol> = Vec::new();
        match self {
            HttpVersionPref::Http1 => {
                protocols.push(AlpnProtocol::Http1);
            },
            HttpVersionPref::Http2 => {
                protocols.push(AlpnProtocol::Http2);
            },
            HttpVersionPref::All => {
                protocols.push(AlpnProtocol::Http2);
                protocols.push(AlpnProtocol::Http1);
            },
        }
        assert(protocols@ =~= self.spec_alpn_protocols());
        protocols
    }

    /// The offered protocols in ALPN wire format: `\x08http/1.1`, `\x02h2`, or
    /// `\x02h2\x08http/1.1`.
    pub fn alpn_wire_format(self) -> (wire: Vec<u8>)
        ensures
            wire@ == spec_alpn_wire(self.spec_alpn_protocols()),
            self == HttpVersionPref::Http1 ==> wire@ == seq![
                8u8, 0x68u8, 0x74u8, 0x74u8, 0x70u8, 0x2fu8, 0x31u8, 0x2eu8, 0x31u8,
            ],
            self == HttpVersionPref::Http2 ==> wire@ == seq![2u8, 0x68u8, 0x32u8],
            self == HttpVersionPref::All ==> wire@ == seq![
                2u8, 0x68u8, 0x32u8, 8u8, 0x68u8, 0x74u8, 0x74u8, 0x70u8, 0x2fu8, 0x31u8, 0x2eu8,
                0x31u8,
            ],
    {
        proof {
            law_alpn_wire_values();
        }
        let protocols = self.alpn_protocols();
        encode_alpn(&protocols)
    }
}

/// ALPN wire format: each protocol name preceded by its length in one octet,
/// in the order of the list.
pub open spec fn spec_alpn_wire(protocols: Seq<AlpnProtocol>) -> Seq<u8>
    decreases protocols.len(),
{
    if protocols.len() == 0 {
        Seq::empty()
    } else {
        spec_alpn_wire(protocols.drop_last()) + seq![
            protocols.last().spec_name_bytes().len() as u8,
        ] + protocols.last().spec_name_bytes()
    }
}

/// The octets of a protocol's name are the UTF-8 encoding of the name.
pub proof fn lemma_name_bytes(protocol: AlpnProtocol)
    ensures
        encode_utf8(protocol.spec_name()) == protocol.spec_name_bytes(),
        1 <= protocol.spec_name_bytes().len() <= 255,
{
    reveal_strlit("h2");
    reveal_strlit("http/1.1");
    let chars = protocol.spec_name();
    assert(is_ascii_chars(chars));
    is_ascii_chars_encode_utf8(chars);
    assert(encode_utf8(chars) =~= protocol.spec_name_bytes());
}

/// Encodes a protocol list in ALPN wire format.
pub fn encode_alpn(protocols: &Vec<AlpnProtocol>) -> (wire: Vec<u8>)
    ensures
        wire@ == spec_alpn_wire(protocols@),
{
    let mut wire: Vec<u8> = Vec::new();
    let mut i: usize = 0;
    while i < protocols.len()
        invariant
            i <= protocols.len(),
            wire@ == spec_alpn_wire(protocols@.take(i as int)),
        decreases protocols.len() - i,
    {
        let name = protocols[i].name().as_bytes();
        proof {
            lemma_name_bytes(protocols[i as int]);
            let upto = protocols@.take(i + 1);
            assert(upto.drop_last() =~= protocols@.take(i as int));
            assert(upto.last() == protocols[i as int]);
        }
        wire.push(name.len() as u8);
        wire.extend_from_slice(name);
        assert(wire@ =~= spec_alpn_wire(protocols@.take(i + 1)));
        i += 1;
    }
    assert(protocols@.take(i as int) =~= protocols@);
    wire
}

/// The names offered for each preference: `http/1.1` alone, `h2` alone, or
/// `h2` before `http/1.1`.
pub proof fn law_alpn_names()
    ensures
        HttpVersionPref::Http1.spec_alpn_protocols().map_values(|p: AlpnProtocol| p.spec_name())
            == seq!["http/1.1"@],
        HttpVersionPref::Http2.spec_alpn_protocols().map_values(|p: AlpnProtocol| p.spec_name())
            == seq!["h2"@],
        HttpVersionPref::All.spec_alpn_protocols().map_values(|p: AlpnProtocol| p.spec_name())
            == seq!["h2"@, "http/1.1"@],
{
    assert(HttpVersionPref::Http1.spec_alpn_protocols().map_values(
        |p: AlpnProtocol| p.spec_name(),
    ) =~= seq!["http/1.1"@]);
    assert(HttpVersionPref::Http2.spec_alpn_protocols().map_values(
        |p: AlpnProtocol| p.spec_name(),
    ) =~= seq!["h2"@]);
    assert(HttpVersionPref::All.spec_alpn_protocols().map_values(
        |p: AlpnProtocol| p.spec_name(),
    ) =~= seq!["h2"@, "http/1.1"@]);
}

/// The three wire encodings, octet by octet.
pub proof fn law_alpn_wire_values()
    ensures
        spec_alpn_wire(HttpVersionPref::Http1.spec_alpn_protocols()) == seq![
            8u8, 0x68u8, 0x74u8, 0x74u8, 0x70u8, 0x2fu8, 0x31u8, 0x2eu8, 0x31u8,
        ],
        spec_alpn_wire(HttpVersionPref::Http2.spec_alpn_protocols()) == seq![2u8, 0x68u8, 0x32u8],
        spec_alpn_wire(HttpVersionPref::All.spec_alpn_protocols()) == seq![
            2u8, 0x68u8, 0x32u8, 8u8, 0x68u8, 0x74u8, 0x74u8, 0x70u8, 0x2fu8, 0x31u8, 0x2eu8, 0x31u8,
        ],
{
    let h1 = seq![AlpnProtocol::Http1];
    let h2 = seq![AlpnProtocol::Http2];
    let all = seq![AlpnProtocol::Http2, AlpnProtocol::Http1];
    assert(h1.drop_last() =~= Seq::<AlpnProtocol>::empty());
    assert(h2.drop_last() =~= Seq::<AlpnProtocol>::empty());
    assert(all.drop_last() =~= h2);
    reveal_with_fuel(spec_alpn_wire, 3);
    assert(spec_alpn_wire(h1) =~= seq![
        8u8, 0x68u8, 0x74u8, 0x74u8, 0x70u8, 0x2fu8, 0x31u8, 0x2eu8, 0x31u8,
    ]);
    assert(spec_alpn_wire(h2) =~= seq![2u8, 0x68u8, 0x32u8]);
    assert(spec_alpn_wire(all) =~= seq![
        2u8, 0x68u8, 0x32u8, 8u8, 0x68u8, 0x74u8, 0x74u8, 0x70u8, 0x2fu8, 0x31u8, 0x2eu8, 0x31u8,
    ]);
}

/// A TLS protocol version: one of TLS 1.0, 1.1, 1.2 and 1.3.
#[derive(Debug, Clone, Copy, PartialEq, Eq, Hash, Structural)]
pub enum Version {
    /// TLS 1.0
    Tls10,
    /// TLS 1.1
    Tls11,
    /// TLS 1.2
    Tls12,
    /// TLS 1.3
    Tls13,
}

impl Version {
    /// Version 1.0 of the TLS protocol.
    pub const TLS_1_0: Version = Version::Tls10;
    /// Version 1.1 of the TLS protocol.
    pub const TLS_1_1: Version = Version::Tls11;
    /// Version 1.2 of the TLS protocol.
    pub const TLS_1_2: Version = Version::Tls12;
    /// Version 1.3 of the TLS protocol.
    pub const TLS_1_3: Version = Version::Tls13;
}

} // verus!
