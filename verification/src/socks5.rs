//! SOCKS5 handshake decisions: greeting framing, CONNECT request parsing,
//! and the fixed reply bytes the relay writes back.

use vstd::prelude::*;

verus! {

/// Target host of a CONNECT request, as decoded from the wire.
pub enum Host {
    /// The four octets of an IPv4 address.
    Ipv4(u8, u8, u8, u8),
    /// The raw bytes of a domain name (at most 255, per the length prefix).
    Domain(Vec<u8>),
    /// The sixteen octets of an IPv6 address.
    Ipv6(Vec<u8>),
}

/// Mathematical model of a decoded host: each variant carries the address
/// bytes exactly as they stood in the request.
pub ghost enum HostModel {
    Ipv4(Seq<u8>),
    Domain(Seq<u8>),
    Ipv6(Seq<u8>),
}

impl View for Host {
    type V = HostModel;

    open spec fn view(&self) -> HostModel {
        match self {
            Host::Ipv4(a, b, c, d) => HostModel::Ipv4(seq![*a, *b, *c, *d]),
            Host::Domain(v) => HostModel::Domain(v@),
            Host::Ipv6(v) => HostModel::Ipv6(v@),
        }
    }
}

impl Host {
    /// Structural validity: address byte counts match the address type.
    pub open spec fn wf(&self) -> bool {
        match self {
            Host::Ipv4(..) => true,
            Host::Domain(v) => v@.len() <= 255,
            Host::Ipv6(v) => v@.len() == 16,
        }
    }
}

/// A decoded CONNECT request: where the client asks the relay to connect.
pub struct Request {
    pub host: Host,
    pub port: u16,
}

impl Request {
    pub open spec fn wf(&self) -> bool {
        self.host.wf()
    }
}

/// Why a request was not accepted.
#[derive(PartialEq, Eq, Structural, Clone, Copy, Debug)]
pub enum ParseFailure {
    /// Fewer than the 10-byte minimum CONNECT framing.
    TooShort,
    /// Version byte is not 5.
    BadVersion,
    /// Command byte is not CONNECT.
    CommandUnsupported,
    /// The declared domain length overruns the bytes that were read.
    DomainOverrun,
    /// An IPv6 request shorter than its fixed 22-byte framing.
    TruncatedIpv6,
    /// An address-type byte this relay does not know.
    AddrTypeUnsupported,
}

/// A big-endian port from its two wire bytes.
pub open spec fn port_val(hi: u8, lo: u8) -> u16 {
    ((hi as int) * 256 + (lo as int)) as u16
}

/// What parsing a request buffer yields: the decoded host and port, or the
/// reason the bytes were refused. This is the whole of the relay's request
/// grammar; `parse_request` returns exactly this.
pub open spec fn parse_request_spec(d: Seq<u8>) -> Result<(HostModel, u16), ParseFailure> {
    if d.len() < 10 {
        Err(ParseFailure::TooShort)
    } else if d[0] != 5 {
        Err(ParseFailure::BadVersion)
    } else if d[1] != 1 {
        Err(ParseFailure::CommandUnsupported)
    } else if d[3] == 1 {
        Ok((HostModel::Ipv4(d.subrange(4, 8)), port_val(d[8], d[9])))
    } else if d[3] == 3 {
        let n = d[4] as int;
        if d.len() < 5 + n + 2 {
            Err(ParseFailure::DomainOverrun)
        } else {
            Ok((HostModel::Domain(d.subrange(5, 5 + n)), port_val(d[5 + n], d[6 + n])))
        }
    } else if d[3] == 4 {
        if d.len() < 22 {
            Err(ParseFailure::TruncatedIpv6)
        } else {
            Ok((HostModel::Ipv6(d.subrange(4, 20)), port_val(d[20], d[21])))
        }
    } else {
        Err(ParseFailure::AddrTypeUnsupported)
    }
}

/// Decode a CONNECT request from the bytes read off the client socket.
pub fn parse_request(data: &[u8]) -> (r: Result<Request, ParseFailure>)
    ensures
        match r {
            Ok(req) => req.wf() && parse_request_spec(data@) == Ok::<(HostModel, u16), ParseFailure>(
                (req.host@, req.port),
            ),
            Err(f) => parse_request_spec(data@) == Err::<(HostModel, u16), ParseFailure>(f),
        },
{
    if data.len() < 10 {
        return Err(ParseFailure::TooShort);
    }
    if data[0] != 5 {
        return Err(ParseFailure::BadVersion);
    }
    if data[1] != 1 {
        return Err(ParseFailure::CommandUnsupported);
    }
    let atyp = data[3];
    if atyp == 1 {
        let host = Host::Ipv4(data[4], data[5], data[6], data[7]);
        let port = (data[8] as u16) * 256 + (data[9] as u16);
        assert(seq![data@[4], data@[5], data@[6], data@[7]] =~= data@.subrange(4, 8));
        Ok(Request { host, port })
    } else if atyp == 3 {
        let n = data[4] as usize;
        if data.len() < 5 + n + 2 {
            return Err(ParseFailure::DomainOverrun);
        }
        let mut name: Vec<u8> = Vec::new();
        let mut i: usize = 0;
        while i < n
            invariant
                i <= n,
                n <= 255,
                n + 7 <= data@.len(),
                name@ =~= data@.subrange(5, 5 + i as int),
            decreases n - i,
        {
            name.push(data[5 + i]);
            assert(name@ =~= data@.subrange(5, 5 + (i + 1) as int));
            i += 1;
        }
        let port = (data[5 + n] as u16) * 256 + (data[6 + n] as u16);
        let host = Host::Domain(name);
        Ok(Request { host, port })
    } else if atyp == 4 {
        if data.len() < 22 {
            return Err(ParseFailure::TruncatedIpv6);
        }
        let mut octets: Vec<u8> = Vec::new();
        let mut i: usize = 0;
        while i < 16
            invariant
                i <= 16,
                22 <= data@.len(),
                octets@ =~= data@.subrange(4, 4 + i as int),
            decreases 16 - i,
        {
            octets.push(data[4 + i]);
            assert(octets@ =~= data@.subrange(4, 4 + (i + 1) as int));
            i += 1;
        }
        let port = (data[20] as u16) * 256 + (data[21] as u16);
        let host = Host::Ipv6(octets);
        Ok(Request { host, port })
    } else {
        Err(ParseFailure::AddrTypeUnsupported)
    }
}

/// The fixed 2-byte greeting reply: version 5, no authentication required.
pub open spec fn greeting_reply_spec(d: Seq<u8>) -> Option<Seq<u8>> {
    if d.len() < 2 {
        None
    } else {
        Some(seq![5u8, 0u8])
    }
}

/// Answer the client's greeting: a greeting needs at least 2 bytes; anything
/// longer is accepted whatever methods it offers, and nothing is written back
/// for a shorter one.
pub fn greeting_reply(data: &[u8]) -> (r: Option<Vec<u8>>)
    ensures
        match r {
            Some(v) => greeting_reply_spec(data@) == Some(v@),
            None => greeting_reply_spec(data@) is None,
        },
{
    if data.len() < 2 {
        return None;
    }
    let mut v: Vec<u8> = Vec::new();
    v.push(5);
    v.push(0);
    assert(v@ =~= seq![5u8, 0u8]);
    Some(v)
}

/// A 10-byte reply with the given status and the fixed all-zero bound
/// address this relay always reports.
pub open spec fn reply_with(status: u8) -> Seq<u8> {
    seq![5u8, status, 0u8, 1u8, 0u8, 0u8, 0u8, 0u8, 0u8, 0u8]
}

/// Which reply, if any, a refused request gets. Requests that fail framing
/// checks (too short, bad version, domain overrun) are dropped without a
/// reply; the other refusals get their SOCKS5 status byte.
pub open spec fn failure_reply_spec(f: ParseFailure) -> Option<Seq<u8>> {
    match f {
        ParseFailure::TooShort => None,
        ParseFailure::BadVersion => None,
        ParseFailure::DomainOverrun => None,
        ParseFailure::CommandUnsupported => Some(reply_with(7)),
        ParseFailure::TruncatedIpv6 => Some(reply_with(1)),
        ParseFailure::AddrTypeUnsupported => Some(reply_with(8)),
    }
}

fn reply_vec(status: u8) -> (r: Vec<u8>)
    ensures
        r@ == reply_with(status),
{
    let mut v: Vec<u8> = Vec::new();
    v.push(5);
    v.push(status);
    v.push(0);
    v.push(1);
    v.push(0);
    v.push(0);
    v.push(0);
    v.push(0);
    v.push(0);
    v.push(0);
    assert(v@ =~= reply_with(status));
    v
}

/// The reply bytes for a refused request, or `None` where the session drops
/// the connection silently.
pub fn failure_reply(f: &ParseFailure) -> (r: Option<Vec<u8>>)
    ensures
        match r {
            Some(v) => failure_reply_spec(*f) == Some(v@),
            None => failure_reply_spec(*f) is None,
        },
{
    match f {
        ParseFailure::TooShort => None,
        ParseFailure::BadVersion => None,
        ParseFailure::DomainOverrun => None,
        ParseFailure::CommandUnsupported => Some(reply_vec(7)),
        ParseFailure::TruncatedIpv6 => Some(reply_vec(1)),
        ParseFailure::AddrTypeUnsupported => Some(reply_vec(8)),
    }
}

/// The 10-byte reply confirming that the backend connection stands.
pub fn success_reply() -> (r: Vec<u8>)
    ensures
        r@ == reply_with(0),
{
    reply_vec(0)
}

/// The 10-byte reply written when the backend refuses the connection.
pub fn connect_failed_reply() -> (r: Vec<u8>)
    ensures
        r@ == reply_with(5),
{
    reply_vec(5)
}

/// What a session does with the bytes of a request.
pub enum RequestAction {
    /// Connect to the decoded target; on success, confirm with the
    /// success reply.
    Proceed(Request),
    /// Write exactly these bytes back, then close.
    Reject(Vec<u8>),
    /// Close without writing anything.
    Silent(ParseFailure),
}

/// Decide a session's next step from the request bytes: proceed to the
/// backend connect on a well-formed CONNECT, reply with the fitting status
/// on a refusal that gets one, and drop the rest silently.
pub fn request_action(data: &[u8]) -> (r: RequestAction)
    ensures
        match r {
            RequestAction::Proceed(req) => req.wf() && parse_request_spec(data@)
                == Ok::<(HostModel, u16), ParseFailure>((req.host@, req.port)),
            RequestAction::Reject(v) => (parse_request_spec(data@) matches Err(f)
                && failure_reply_spec(f) == Some(v@)),
            RequestAction::Silent(f) => parse_request_spec(data@)
                == Err::<(HostModel, u16), ParseFailure>(f) && failure_reply_spec(f) is None,
        },
{
    match parse_request(data) {
        Ok(req) => RequestAction::Proceed(req),
        Err(f) => match failure_reply(&f) {
            Some(v) => RequestAction::Reject(v),
            None => RequestAction::Silent(f),
        },
    }
}

/// High byte of a port on the wire.
pub open spec fn port_hi(port: u16) -> u8 {
    (port / 256) as u8
}

/// Low byte of a port on the wire.
pub open spec fn port_lo(port: u16) -> u8 {
    (port % 256) as u8
}

/// Splitting a port into its wire bytes and reading them back is exact.
pub proof fn lemma_port_bytes(port: u16)
    ensures
        port_val(port_hi(port), port_lo(port)) == port,
{
    vstd::arithmetic::div_mod::lemma_fundamental_div_mod(port as int, 256);
}

/// The wire bytes of a CONNECT request for the given host and port.
pub open spec fn encode_request_spec(h: HostModel, port: u16) -> Seq<u8> {
    match h {
        HostModel::Ipv4(o) => seq![5u8, 1u8, 0u8, 1u8] + o + seq![port_hi(port), port_lo(port)],
        HostModel::Domain(d) => seq![5u8, 1u8, 0u8, 3u8, d.len() as u8] + d
            + seq![port_hi(port), port_lo(port)],
        HostModel::Ipv6(o) => seq![5u8, 1u8, 0u8, 4u8] + o + seq![port_hi(port), port_lo(port)],
    }
}

/// Hosts whose encoding the parser accepts back. A domain of fewer than 3
/// bytes encodes below the 10-byte minimum framing, which the parser
/// deliberately refuses, so such domains are left out.
pub open spec fn encodable(h: HostModel) -> bool {
    match h {
        HostModel::Ipv4(o) => o.len() == 4,
        HostModel::Domain(d) => 3 <= d.len() && d.len() <= 255,
        HostModel::Ipv6(o) => o.len() == 16,
    }
}

/// Law: decoding an encoded CONNECT request yields exactly the host and
/// port that were encoded.
pub proof fn lemma_parse_encode_round_trip(h: HostModel, port: u16)
    requires
        encodable(h),
    ensures
        parse_request_spec(encode_request_spec(h, port)) == Ok::<(HostModel, u16), ParseFailure>(
            (h, port),
        ),
{
    lemma_port_bytes(port);
    let e = encode_request_spec(h, port);
    match h {
        HostModel::Ipv4(o) => {
            assert(e.len() == 10);
            assert(e.subrange(4, 8) =~= o);
        },
        HostModel::Domain(d) => {
            assert(e.len() == 5 + d.len() + 2);
            assert(e[4] == d.len() as u8);
            assert(e[4] as int == d.len());
            assert(e.subrange(5, 5 + d.len() as int) =~= d);
            assert(e[5 + d.len() as int] == port_hi(port));
            assert(e[6 + d.len() as int] == port_lo(port));
        },
        HostModel::Ipv6(o) => {
            assert(e.len() == 22);
            assert(e.subrange(4, 20) =~= o);
        },
    }
}

/// Encode a CONNECT request as its wire bytes.
pub fn encode_request(req: &Request) -> (r: Vec<u8>)
    requires
        req.wf(),
    ensures
        r@ == encode_request_spec(req.host@, req.port),
{
    let mut v: Vec<u8> = Vec::new();
    v.push(5);
    v.push(1);
    v.push(0);
    match &req.host {
        Host::Ipv4(a, b, c, d) => {
            v.push(1);
            v.push(*a);
            v.push(*b);
            v.push(*c);
            v.push(*d);
        },
        Host::Domain(name) => {
            v.push(3);
            v.push(name.len() as u8);
            let mut i: usize = 0;
            while i < name.len()
                invariant
                    i <= name@.len(),
                    v@ =~= seq![5u8, 1u8, 0u8, 3u8, name@.len() as u8] + name@.subrange(
                        0,
                        i as int,
                    ),
                decreases name@.len() - i,
            {
                v.push(name[i]);
                assert(v@ =~= seq![5u8, 1u8, 0u8, 3u8, name@.len() as u8] + name@.subrange(
                    0,
                    (i + 1) as int,
                ));
                i += 1;
            }
            assert(name@.subrange(0, name@.len() as int) =~= name@);
        },
        Host::Ipv6(octets) => {
            v.push(4);
            let mut i: usize = 0;
            while i < octets.len()
                invariant
                    i <= octets@.len(),
                    v@ =~= seq![5u8, 1u8, 0u8, 4u8] + octets@.subrange(0, i as int),
                decreases octets@.len() - i,
            {
                v.push(octets[i]);
                assert(v@ =~= seq![5u8, 1u8, 0u8, 4u8] + octets@.subrange(0, (i + 1) as int));
                i += 1;
            }
            assert(octets@.subrange(0, octets@.len() as int) =~= octets@);
        },
    }
    proof {
        lemma_port_bytes(req.port);
    }
    let hi = (req.port / 256) as u8;
    let lo = (req.port % 256) as u8;
    v.push(hi);
    v.push(lo);
    assert(v@ =~= encode_request_spec(req.host@, req.port));
    v
}

} // verus!
