//! The session path builder: extends a hierarchical relay address with
//! the fixed namespace segment and the session identifier, rejecting
//! empty identifiers and opaque base addresses.
//!
//! An address is modelled as an origin (scheme and authority) plus a
//! list of path segments held in decoded form.  Rendering an address
//! percent-escapes each segment byte-wise: every byte outside the safe
//! set — controls, space, `"`, `#`, `<`, `>`, `?`, backquote, `{`, `}`,
//! `/`, `%`, backslash, delete and everything non-ASCII — becomes `%`
//! followed by two uppercase hex digits, as the WHATWG path-segment
//! escape rules demand.

use vstd::prelude::*;
use vstd::utf8::encode_utf8;

use crate::error::SessionError;

verus! {

/// The namespace segment inserted before the session identifier.
pub const SESSION_NAMESPACE: &'static str = "neet";

/// Whether a byte must be percent-escaped inside a path segment.
pub open spec fn needs_escape(b: u8) -> bool {
    ||| b < 0x20
    ||| b >= 0x7f
    ||| b == 0x20
    ||| b == 0x22
    ||| b == 0x23
    ||| b == 0x25
    ||| b == 0x2f
    ||| b == 0x3c
    ||| b == 0x3e
    ||| b == 0x3f
    ||| b == 0x5c
    ||| b == 0x60
    ||| b == 0x7b
    ||| b == 0x7d
}

/// The uppercase hexadecimal digit for a value below sixteen.
pub open spec fn hex_upper(n: u8) -> u8 {
    if n < 10 {
        (0x30 + n) as u8
    } else {
        (0x41 + (n - 10)) as u8
    }
}

/// How one byte renders inside a path segment.
pub open spec fn spec_escape_byte(b: u8) -> Seq<u8> {
    if needs_escape(b) {
        seq![0x25u8, hex_upper(b / 16), hex_upper(b % 16)]
    } else {
        seq![b]
    }
}

/// How a byte sequence renders inside a path segment.
pub open spec fn spec_escape_bytes(s: Seq<u8>) -> Seq<u8>
    decreases s.len(),
{
    if s.len() == 0 {
        Seq::empty()
    } else {
        spec_escape_byte(s[0]) + spec_escape_bytes(s.drop_first())
    }
}

proof fn lemma_escape_bytes_push(s: Seq<u8>, b: u8)
    ensures
        spec_escape_bytes(s.push(b)) == spec_escape_bytes(s) + spec_escape_byte(b),
    decreases s.len(),
{
    if s.len() == 0 {
        assert(s.push(b).drop_first() =~= s);
        assert(spec_escape_bytes(s.push(b)) =~= spec_escape_bytes(s) + spec_escape_byte(b));
    } else {
        assert(s.push(b).drop_first() =~= s.drop_first().push(b));
        lemma_escape_bytes_push(s.drop_first(), b);
        assert(spec_escape_bytes(s.push(b)) =~= spec_escape_bytes(s) + spec_escape_byte(b));
    }
}

proof fn lemma_escape_bytes_ascii(s: Seq<u8>)
    ensures
        forall|i: int| 0 <= i < spec_escape_bytes(s).len() ==> spec_escape_bytes(s)[i] < 0x80,
    decreases s.len(),
{
    if s.len() > 0 {
        lemma_escape_bytes_ascii(s.drop_first());
        assert(forall|i: int|
            0 <= i < spec_escape_byte(s[0]).len() ==> spec_escape_byte(s[0])[i] < 0x80);
        assert(forall|i: int|
            0 <= i < spec_escape_bytes(s).len() ==> spec_escape_bytes(s)[i] == if i
                < spec_escape_byte(s[0]).len() {
                spec_escape_byte(s[0])[i]
            } else {
                spec_escape_bytes(s.drop_first())[i - spec_escape_byte(s[0]).len()]
            });
    }
}

/// Whether a byte must be percent-escaped inside a path segment.
fn is_escaped_byte(b: u8) -> (r: bool)
    ensures
        r == needs_escape(b),
{
    b < 0x20 || b >= 0x7f || b == 0x20 || b == 0x22 || b == 0x23 || b == 0x25 || b == 0x2f
        || b == 0x3c || b == 0x3e || b == 0x3f || b == 0x5c || b == 0x60 || b == 0x7b
        || b == 0x7d
}

/// The uppercase hexadecimal digit for a value below sixteen.
fn hex_digit(n: u8) -> (r: u8)
    requires
        n < 16,
    ensures
        r == hex_upper(n),
{
    if n < 10 {
        0x30 + n
    } else {
        0x41 + (n - 10)
    }
}

/// Percent-escapes a byte sequence for use as one path segment.
fn escape_bytes(input: &Vec<u8>) -> (r: Vec<u8>)
    ensures
        r@ == spec_escape_bytes(input@),
        forall|i: int| 0 <= i < r@.len() ==> r@[i] < 0x80,
{
    let mut out: Vec<u8> = Vec::new();
    let mut i: usize = 0;
    while i < input.len()
        invariant
            i <= input@.len(),
            out@ == spec_escape_bytes(input@.take(i as int)),
        decreases input@.len() - i,
    {
        let b = input[i];
        if is_escaped_byte(b) {
            out.push(0x25);
            out.push(hex_digit(b / 16));
            out.push(hex_digit(b % 16));
        } else {
            out.push(b);
        }
        proof {
            lemma_escape_bytes_push(input@.take(i as int), input@[i as int]);
            assert(input@.take(i + 1 as int) =~= input@.take(i as int).push(input@[i as int]));
            assert(out@ =~= spec_escape_bytes(input@.take(i + 1 as int)));
        }
        i = i + 1;
    }
    proof {
        assert(input@.take(input@.len() as int) =~= input@);
        lemma_escape_bytes_ascii(input@);
    }
    out
}

/// Relies on `String::from_utf8`: ASCII bytes decode to the characters
/// with the same codes.
#[verifier::external_body]
fn ascii_bytes_to_string(v: Vec<u8>) -> (r: String)
    requires
        forall|i: int| 0 <= i < v@.len() ==> v@[i] < 0x80,
    ensures
        r@ == v@.map_values(|b: u8| b as char),
{
    String::from_utf8(v).unwrap_or_default()
}

/// How a segment's characters render once escaped: the UTF-8 bytes of
/// the segment, escaped byte-wise, read back as ASCII characters.
pub open spec fn spec_escaped_chars(s: Seq<char>) -> Seq<char> {
    spec_escape_bytes(encode_utf8(s)).map_values(|b: u8| b as char)
}

/// Percent-escapes one decoded path segment.
pub fn escape_segment(seg: &str) -> (r: String)
    ensures
        r@ == spec_escaped_chars(seg@),
{
    let bytes = seg.as_bytes_vec();
    let escaped = escape_bytes(&bytes);
    let out = ascii_bytes_to_string(escaped);
    proof {
        assert(out@ =~= spec_escaped_chars(seg@));
    }
    out
}

/// A relay address: an origin (scheme and authority), a path of
/// decoded segments, and whether the address is hierarchical — an
/// opaque address supports no path extension.
#[derive(Debug)]
pub struct RelayAddress {
    pub origin: String,
    pub segments: Vec<String>,
    pub hierarchical: bool,
}

/// The decoded views of a list of segments.
pub open spec fn seg_views(segs: Seq<String>) -> Seq<Seq<char>> {
    segs.map_values(|s: String| s@)
}

/// What extending a segment list with a session identifier yields: the
/// same segments followed by exactly the namespace and the identifier.
pub open spec fn spec_extended_segments(segs: Seq<Seq<char>>, session: Seq<char>) -> Seq<
    Seq<char>,
> {
    segs + seq!["neet"@, session]
}

impl RelayAddress {
    /// A hierarchical address at the given origin with no path.
    pub fn new(origin: String, hierarchical: bool) -> (r: RelayAddress)
        ensures
            r.origin@ == origin@,
            r.segments@.len() == 0,
            r.hierarchical == hierarchical,
    {
        RelayAddress { origin, segments: Vec::new(), hierarchical }
    }

    /// Appends one decoded path segment.
    pub fn push_segment(&mut self, seg: String)
        ensures
            final(self).origin@ == old(self).origin@,
            final(self).hierarchical == old(self).hierarchical,
            seg_views(final(self).segments@) == seg_views(old(self).segments@).push(seg@),
    {
        self.segments.push(seg);
        proof {
            assert(seg_views(self.segments@) =~= seg_views(old(self).segments@).push(seg@));
        }
    }
}

/// How a path renders behind the origin: each segment escaped, each
/// preceded by a slash.
pub open spec fn spec_path_suffix(segs: Seq<Seq<char>>) -> Seq<char>
    decreases segs.len(),
{
    if segs.len() == 0 {
        Seq::empty()
    } else {
        seq!['/'] + spec_escaped_chars(segs[0]) + spec_path_suffix(segs.drop_first())
    }
}

proof fn lemma_path_suffix_push(segs: Seq<Seq<char>>, x: Seq<char>)
    ensures
        spec_path_suffix(segs.push(x)) == spec_path_suffix(segs) + seq!['/']
            + spec_escaped_chars(x),
    decreases segs.len(),
{
    if segs.len() == 0 {
        assert(segs.push(x).drop_first() =~= segs);
        assert(spec_path_suffix(segs.push(x)) =~= spec_path_suffix(segs) + seq!['/']
            + spec_escaped_chars(x));
    } else {
        assert(segs.push(x).drop_first() =~= segs.drop_first().push(x));
        lemma_path_suffix_push(segs.drop_first(), x);
        assert(spec_path_suffix(segs.push(x)) =~= spec_path_suffix(segs) + seq!['/']
            + spec_escaped_chars(x));
    }
}

/// How a whole address renders: the origin followed by the path.
pub open spec fn spec_serialized(addr: RelayAddress) -> Seq<char> {
    addr.origin@ + spec_path_suffix(seg_views(addr.segments@))
}

impl RelayAddress {
    /// Renders the address: the origin followed by a slash and the
    /// escaped form of each segment, in order.
    pub fn serialized(&self) -> (r: String)
        ensures
            r@ == spec_serialized(*self),
    {
        let mut out = String::from_str(self.origin.as_str());
        let mut i: usize = 0;
        while i < self.segments.len()
            invariant
                i <= self.segments@.len(),
                out@ == self.origin@ + spec_path_suffix(seg_views(self.segments@.take(i as int))),
            decreases self.segments@.len() - i,
        {
            out.append("/");
            let escaped = escape_segment(self.segments[i].as_str());
            out.append(escaped.as_str());
            proof {
                reveal_strlit("/");
                assert("/"@ =~= seq!['/']);
                lemma_path_suffix_push(
                    seg_views(self.segments@.take(i as int)),
                    self.segments@[i as int]@,
                );
                assert(seg_views(self.segments@.take(i + 1 as int)) =~= seg_views(
                    self.segments@.take(i as int),
                ).push(self.segments@[i as int]@));
                assert(out@ =~= self.origin@ + spec_path_suffix(
                    seg_views(self.segments@.take(i + 1 as int)),
                ));
            }
            i = i + 1;
        }
        proof {
            assert(self.segments@.take(self.segments@.len() as int) =~= self.segments@);
        }
        out
    }
}

/// Extends a relay address with the namespace and the session
/// identifier, the rendezvous point both sides derive independently.
///
/// Fails with `InvalidSession` exactly when the identifier is empty,
/// and with `InvalidBaseAddress` exactly when the identifier is
/// accepted but the address is not hierarchical.  On failure the
/// address is left unchanged.
pub fn append_session_path(addr: &mut RelayAddress, session: &str) -> (r: Result<
    (),
    SessionError,
>)
    ensures
        r == Err::<(), SessionError>(SessionError::InvalidSession) <==> session@.len() == 0,
        r == Err::<(), SessionError>(SessionError::InvalidBaseAddress) <==> (session@.len() > 0
            && !old(addr).hierarchical),
        r is Ok <==> (session@.len() > 0 && old(addr).hierarchical),
        r is Err ==> *final(addr) == *old(addr),
        r is Ok ==> final(addr).origin@ == old(addr).origin@ && final(addr).hierarchical == old(
            addr,
        ).hierarchical && seg_views(final(addr).segments@) == spec_extended_segments(
            seg_views(old(addr).segments@),
            session@,
        ),
{
    if session.is_empty() {
        return Err(SessionError::InvalidSession);
    }
    if !addr.hierarchical {
        return Err(SessionError::InvalidBaseAddress);
    }
    addr.push_segment(String::from_str(SESSION_NAMESPACE));
    addr.push_segment(String::from_str(session));
    proof {
        assert(seg_views(addr.segments@) =~= spec_extended_segments(
            seg_views(old(addr).segments@),
            session@,
        ));
    }
    Ok(())
}

/// Extending an address is pure: equal segment lists and equal
/// identifiers always yield equal extensions.
pub proof fn lemma_append_session_path_pure(
    a: Seq<Seq<char>>,
    b: Seq<Seq<char>>,
    s1: Seq<char>,
    s2: Seq<char>,
)
    requires
        a == b,
        s1 == s2,
    ensures
        spec_extended_segments(a, s1) == spec_extended_segments(b, s2),
{
}

/// The final two segments of an extended address are exactly the
/// namespace and the identifier, after all original segments.
pub proof fn lemma_extended_segments_shape(segs: Seq<Seq<char>>, session: Seq<char>)
    ensures
        spec_extended_segments(segs, session).len() == segs.len() + 2,
        forall|i: int|
            0 <= i < segs.len() ==> spec_extended_segments(segs, session)[i] == segs[i],
        spec_extended_segments(segs, session)[segs.len() as int] == "neet"@,
        spec_extended_segments(segs, session).last() == session,
{
}

} // verus!
