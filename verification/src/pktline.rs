//! pkt-line framing and the ref advertisement.
//!
//! A pkt-line is a payload behind four lower-case hex digits that give the
//! length of the whole line, the four digits included. `0000` is the flush
//! packet.

use vstd::prelude::*;
use vstd::string::*;
use vstd::utf8::*;
use crate::error::GitError;
use crate::service::Service;
use crate::text::append_bytes;

verus! {

/// Longest payload whose framed length still fits in four hex digits.
pub const MAX_PAYLOAD: usize = 65531;

/// Bytes in an object id.
pub const OID_LEN: usize = 20;

/// The lower-case hex digit of a number below 16, as an ASCII byte.
pub open spec fn hex_digit(n: int) -> u8 {
    if n < 10 {
        (48 + n) as u8
    } else {
        (87 + n) as u8
    }
}

/// A number below 65536 in four hex digits, the highest first.
pub open spec fn hex4(n: int) -> Seq<u8> {
    seq![
        hex_digit(n / 4096 % 16),
        hex_digit(n / 256 % 16),
        hex_digit(n / 16 % 16),
        hex_digit(n % 16),
    ]
}

/// Every byte in two hex digits, the high half first.
pub open spec fn hex_bytes(bytes: Seq<u8>) -> Seq<u8> {
    Seq::new(
        2 * bytes.len(),
        |i: int|
            if i % 2 == 0 {
                hex_digit(bytes[i / 2] as int / 16)
            } else {
                hex_digit(bytes[i / 2] as int % 16)
            },
    )
}

/// Whether a payload can be framed.
pub open spec fn fits(payload: Seq<u8>) -> bool {
    payload.len() <= MAX_PAYLOAD
}

/// The payload behind its length prefix.
pub open spec fn frame(payload: Seq<u8>) -> Seq<u8> {
    hex4(payload.len() as int + 4) + payload
}

/// The flush packet, `0000`.
pub open spec fn flush() -> Seq<u8> {
    seq![48u8, 48u8, 48u8, 48u8]
}

fn digit(n: u8) -> (d: u8)
    requires
        n < 16,
    ensures
        d == hex_digit(n as int),
{
    if n < 10 {
        48 + n
    } else {
        87 + n
    }
}

fn push_hex4(out: &mut Vec<u8>, n: u16)
    ensures
        final(out)@ == old(out)@ + hex4(n as int),
{
    out.push(digit((n / 4096 % 16) as u8));
    out.push(digit((n / 256 % 16) as u8));
    out.push(digit((n / 16 % 16) as u8));
    out.push(digit((n % 16) as u8));
    assert(out@ =~= old(out)@ + hex4(n as int));
}

/// Frames a payload. A payload too long for the four-digit prefix cannot
/// be framed.
pub fn pkt_line(payload: &[u8]) -> (r: Option<Vec<u8>>)
    ensures
        fits(payload@) ==> (r matches Some(line) && line@ == frame(payload@)),
        !fits(payload@) ==> r is None,
{
    if payload.len() > MAX_PAYLOAD {
        return None;
    }
    let total: u16 = (payload.len() + 4) as u16;
    let mut line: Vec<u8> = Vec::new();
    push_hex4(&mut line, total);
    append_bytes(&mut line, payload);
    assert(line@ =~= frame(payload@));
    Some(line)
}

/// The flush packet.
pub fn flush_pkt() -> (r: Vec<u8>)
    ensures
        r@ == flush(),
{
    let mut r: Vec<u8> = Vec::new();
    r.push(48u8);
    r.push(48u8);
    r.push(48u8);
    r.push(48u8);
    assert(r@ =~= flush());
    r
}

/// The id of a git object.
#[derive(Clone, Copy, Debug)]
pub struct ObjectId {
    pub bytes: [u8; 20],
}

impl ObjectId {
    /// The id in forty hex digits.
    pub open spec fn spec_hex(self) -> Seq<u8> {
        hex_bytes(self.bytes@)
    }

    /// The id in forty lower-case hex digits.
    pub fn hex(&self) -> (r: Vec<u8>)
        ensures
            r@ == self.spec_hex(),
            r@.len() == 40,
    {
        let mut r: Vec<u8> = Vec::new();
        let mut i: usize = 0;
        while i < OID_LEN
            invariant
                i <= OID_LEN,
                r@ == hex_bytes(self.bytes@.take(i as int)),
            decreases OID_LEN - i,
        {
            let b: u8 = self.bytes[i];
            r.push(digit(b / 16));
            r.push(digit(b % 16));
            i += 1;
            assert(r@ =~= hex_bytes(self.bytes@.take(i as int)));
        }
        assert(self.bytes@.take(OID_LEN as int) =~= self.bytes@);
        r
    }
}

/// What reading one ref of a repository gave.
#[derive(Debug)]
pub enum RefRead {
    /// A ref and the object that it points at.
    Found { target: ObjectId, name: String },
    /// The ref could not be read.
    Unreadable,
}

/// The line that advertises a ref: the target's id in hex, a space, the
/// ref's name and a line feed.
pub open spec fn ref_payload(target: ObjectId, name: Seq<char>) -> Seq<u8> {
    target.spec_hex() + seq![32u8] + encode_utf8(name) + seq![10u8]
}

/// Whether a ref was read and its line can be framed.
pub open spec fn advertisable(r: RefRead) -> bool {
    r matches RefRead::Found { target, name } && fits(ref_payload(target, name@))
}

/// Whether every ref was read and every line can be framed.
pub open spec fn all_advertisable(refs: Seq<RefRead>) -> bool {
    forall|i: int| 0 <= i < refs.len() ==> advertisable(#[trigger] refs[i])
}

/// The framed line of one ref.
pub open spec fn ref_line(r: RefRead) -> Seq<u8> {
    match r {
        RefRead::Found { target, name } => frame(ref_payload(target, name@)),
        RefRead::Unreadable => Seq::empty(),
    }
}

/// The framed lines of the refs, in their order.
pub open spec fn ref_lines(refs: Seq<RefRead>) -> Seq<u8>
    decreases refs.len(),
{
    if refs.len() == 0 {
        Seq::empty()
    } else {
        ref_lines(refs.drop_last()) + ref_line(refs.last())
    }
}

/// The line that opens an advertisement: `# service=`, the service's name
/// and a line feed.
pub open spec fn header_payload(service: Service) -> Seq<u8> {
    encode_utf8("# service="@) + encode_utf8(service.spec_name()) + seq![10u8]
}

/// The whole advertisement: the framed header, a flush packet, one framed
/// line for each ref, and the flush packet that ends it.
pub open spec fn advertisement(service: Service, refs: Seq<RefRead>) -> Seq<u8> {
    frame(header_payload(service)) + flush() + ref_lines(refs) + flush()
}

/// The header line of every service is short enough to be framed.
pub proof fn lemma_header_fits(service: Service)
    ensures
        header_payload(service).len() <= 27,
        fits(header_payload(service)),
{
    reveal_strlit("# service=");
    reveal_strlit("git-upload-pack");
    reveal_strlit("git-receive-pack");
    is_ascii_chars_encode_utf8("# service="@);
    is_ascii_chars_encode_utf8(service.spec_name());
}

/// Builds the payload of the header line.
pub fn header_line(service: Service) -> (r: Vec<u8>)
    ensures
        r@ == header_payload(service),
{
    let mut r: Vec<u8> = Vec::new();
    append_bytes(&mut r, "# service=".as_bytes());
    append_bytes(&mut r, service.name().as_bytes());
    r.push(10u8);
    r
}

/// Builds the response to `GET info/refs` for a service from what reading
/// the refs gave. A repository without refs still gets the header and both
/// flush packets. If a single ref could not be read, or its line cannot be
/// framed, the whole advertisement fails and no part of it is handed out.
pub fn advertise(service: Service, refs: &Vec<RefRead>) -> (r: Result<Vec<u8>, GitError>)
    ensures
        all_advertisable(refs@) ==> (r matches Ok(body) && body@ == advertisement(service, refs@)),
        !all_advertisable(refs@) ==> r matches Err(GitError::RefEnumerationFailed),
{
    let header = header_line(service);
    proof {
        lemma_header_fits(service);
    }
    let mut out: Vec<u8> = match pkt_line(header.as_slice()) {
        Some(line) => line,
        None => { return Err(GitError::RefEnumerationFailed); },
    };
    out.push(48u8);
    out.push(48u8);
    out.push(48u8);
    out.push(48u8);
    assert(out@ =~= frame(header_payload(service)) + flush());
    let mut i: usize = 0;
    while i < refs.len()
        invariant
            i <= refs@.len(),
            all_advertisable(refs@.take(i as int)),
            out@ == frame(header_payload(service)) + flush() + ref_lines(refs@.take(i as int)),
        decreases refs@.len() - i,
    {
        let ghost before = out@;
        match &refs[i] {
            RefRead::Found { target, name } => {
                let mut payload = target.hex();
                payload.push(32u8);
                append_bytes(&mut payload, name.as_str().as_bytes());
                payload.push(10u8);
                assert(payload@ =~= ref_payload(*target, name@));
                match pkt_line(payload.as_slice()) {
                    Some(line) => {
                        append_bytes(&mut out, line.as_slice());
                    },
                    None => {
                        assert(!advertisable(refs@[i as int]));
                        return Err(GitError::RefEnumerationFailed);
                    },
                }
            },
            RefRead::Unreadable => {
                assert(!advertisable(refs@[i as int]));
                return Err(GitError::RefEnumerationFailed);
            },
        }
        i += 1;
        proof {
            let done = refs@.take(i as int);
            assert(done.drop_last() =~= refs@.take(i - 1));
            assert(done.last() == refs@[i - 1]);
            assert(out@ =~= frame(header_payload(service)) + flush() + ref_lines(done));
            assert forall|j: int| 0 <= j < done.len() implies advertisable(#[trigger] done[j]) by {
                if j < i - 1 {
                    assert(done[j] == refs@.take(i - 1)[j]);
                }
            }
        }
    }
    assert(refs@.take(refs@.len() as int) =~= refs@);
    out.push(48u8);
    out.push(48u8);
    out.push(48u8);
    out.push(48u8);
    assert(out@ =~= advertisement(service, refs@));
    Ok(out)
}

/// The advertisement of a repository without refs is the framed header
/// and two flush packets: no line for any ref.
pub proof fn lemma_empty_advertisement(service: Service)
    ensures
        all_advertisable(Seq::<RefRead>::empty()),
        advertisement(service, Seq::<RefRead>::empty()) == frame(header_payload(service)) + flush()
            + flush(),
{
    assert(ref_lines(Seq::<RefRead>::empty()) =~= Seq::<u8>::empty());
    assert(advertisement(service, Seq::<RefRead>::empty()) =~= frame(header_payload(service))
        + flush() + flush());
}

} // verus!
