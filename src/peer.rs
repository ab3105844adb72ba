use vstd::prelude::*;

use crate::error::Error;
use crate::model::{os_from_tag, FileResponse, OsType, Peer};
use crate::text::{begins_with, starts_with};

verus! {

/// The one TCP port on which every instance serves and is probed.
pub const PEER_PORT: u16 = 38899;

/// The URL of `route` on the peer at `ip`, on the peer port.
pub open spec fn peer_url(ip: Seq<char>, route: Seq<char>) -> Seq<char> {
    "http://"@ + ip + ":38899"@ + route
}

/// Builds the URL of `route` on the peer at `ip`.
fn url_of(ip: &str, route: &str) -> (r: String)
    ensures
        r@ == peer_url(ip@, route@),
{
    "http://".to_owned().concat(ip).concat(":38899").concat(route)
}

/// The URL of the identity probe of the peer at `ip`.
pub fn info_url(ip: &str) -> (r: String)
    ensures
        r@ == peer_url(ip@, "/info"@),
{
    url_of(ip, "/info")
}

/// The URL of the file listing of the peer at `ip`.
pub fn files_url(ip: &str) -> (r: String)
    ensures
        r@ == peer_url(ip@, "/files"@),
{
    url_of(ip, "/files")
}

/// Makes a peer of the address `ip` from the answer to its identity probe:
/// the OS tag it sent, or the reason the probe failed (no listener, a
/// timeout, a malformed answer). Any failure, and any tag that names no OS,
/// is `PeerUnreachable`: the address is then no peer.
pub fn check_peer(ip: &str, reply: Result<String, String>) -> (r: Result<Peer, Error>)
    ensures
        r is Ok <==> (reply matches Ok(tag) && os_from_tag(tag@) is Some),
        r matches Ok(p) ==> p.address@ == ip@,
        r matches Ok(p) ==> (reply matches Ok(tag) && os_from_tag(tag@) == Some(p.os_type)),
        r matches Err(e) ==> e is PeerUnreachable,
{
    match reply {
        Ok(tag) => match OsType::from_tag(tag.as_str()) {
            Some(os) => Ok(Peer { address: ip.to_owned(), os_type: os }),
            None => Err(
                Error::PeerUnreachable("unrecognised OS type: ".to_owned().concat(tag.as_str())),
            ),
        },
        Err(reason) => Err(Error::PeerUnreachable(reason)),
    }
}

/// Takes the answer to a peer's file listing: the entries it sent, or the
/// reason the request failed, which is `PeerUnreachable`.
pub fn get_files_from_peer(reply: Result<Vec<FileResponse>, String>) -> (r: Result<
    Vec<FileResponse>,
    Error,
>)
    ensures
        reply matches Ok(v) ==> r == Ok::<Vec<FileResponse>, Error>(v),
        reply is Err ==> r matches Err(Error::PeerUnreachable(_)),
{
    match reply {
        Ok(files) => Ok(files),
        Err(reason) => Err(Error::PeerUnreachable(reason)),
    }
}

/// An address in one of the private ranges that discovery scans: its first
/// two dotted components are `10.0`, `172.16` or `192.168`.
pub open spec fn is_private_base(a: Seq<char>) -> bool {
    begins_with(a, "10.0."@) || begins_with(a, "172.16."@) || begins_with(a, "192.168."@)
}

/// The addresses of `s` that are private bases, in order.
pub open spec fn private_bases(s: Seq<Seq<char>>) -> Seq<Seq<char>>
    decreases s.len(),
{
    if s.len() == 0 {
        Seq::empty()
    } else {
        let rest = private_bases(s.drop_last());
        if is_private_base(s.last()) {
            rest.push(s.last())
        } else {
            rest
        }
    }
}

/// The texts of a sequence of strings.
pub open spec fn texts(v: Seq<String>) -> Seq<Seq<char>> {
    v.map_values(|s: String| s@)
}

/// Tells whether `a` is an address from which discovery scans a subnet.
pub fn is_private_address(a: &str) -> (r: bool)
    ensures
        r == is_private_base(a@),
{
    starts_with(a, "10.0.") || starts_with(a, "172.16.") || starts_with(a, "192.168.")
}

/// Keeps, of the host's interface addresses, one base address per interface
/// in a private range; the caller scans `.1` to `.255` from each.
pub fn local_ips(addresses: &Vec<String>) -> (r: Vec<String>)
    ensures
        texts(r@) == private_bases(texts(addresses@)),
{
    let mut out: Vec<String> = Vec::new();
    let mut i: usize = 0;
    while i < addresses.len()
        invariant
            i <= addresses@.len(),
            texts(out@) == private_bases(texts(addresses@).subrange(0, i as int)),
        decreases addresses@.len() - i,
    {
        let a = &addresses[i];
        proof {
            let p = texts(addresses@).subrange(0, i as int + 1);
            assert(p.drop_last() =~= texts(addresses@).subrange(0, i as int));
            assert(p.last() == a@);
        }
        if is_private_address(a.as_str()) {
            let kept = a.clone();
            proof {
                assert(texts(out@.push(kept)) =~= texts(out@).push(a@));
            }
            out.push(kept);
        }
        i = i + 1;
    }
    assert(texts(addresses@).subrange(0, addresses@.len() as int) =~= texts(addresses@));
    out
}

} // verus!
