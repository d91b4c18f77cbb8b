//! Who a request comes from: the address that the rate limiter keys its
//! buckets by, and the header text that may name it.

use vstd::prelude::*;

verus! {

/// The network address that a client is known by: the bits of an IPv4 or of
/// an IPv6 address. The two families do not meet, whatever their bits.
#[derive(Clone, Copy, Debug, PartialEq, Eq, Structural)]
pub enum ClientAddr {
    V4(u32),
    V6(u128),
}

/// The first of three sources that names an address: the forwarded-for
/// header, then the real-ip header, then the peer of the connection.
pub open spec fn first_named(
    forwarded_for: Option<ClientAddr>,
    real_ip: Option<ClientAddr>,
    peer: Option<ClientAddr>,
) -> Option<ClientAddr> {
    if forwarded_for is Some {
        forwarded_for
    } else if real_ip is Some {
        real_ip
    } else {
        peer
    }
}

/// The address to key a request by. Each argument is what one source
/// yielded: `None` where the header is absent or does not parse as an
/// address, or where the connection has no peer address. A request that no
/// source names has no key and is not rate limited.
pub fn resolve_client(
    forwarded_for: Option<ClientAddr>,
    real_ip: Option<ClientAddr>,
    peer: Option<ClientAddr>,
) -> (client: Option<ClientAddr>)
    ensures
        client == first_named(forwarded_for, real_ip, peer),
        forwarded_for is Some ==> client == forwarded_for,
        client is None <==> forwarded_for is None && real_ip is None && peer is None,
{
    match forwarded_for {
        Some(addr) => Some(addr),
        None => match real_ip {
            Some(addr) => Some(addr),
            None => peer,
        },
    }
}

/// White space as `char::is_whitespace` has it: the code points of the
/// Unicode property `White_Space`.
pub open spec fn is_space(c: char) -> bool {
    let code = c as u32;
    ||| 0x09 <= code <= 0x0d
    ||| code == 0x20
    ||| code == 0x85
    ||| code == 0xa0
    ||| code == 0x1680
    ||| 0x2000 <= code <= 0x200a
    ||| code == 0x2028
    ||| code == 0x2029
    ||| code == 0x202f
    ||| code == 0x205f
    ||| code == 0x3000
}

/// How many characters stand before the first comma of `s`, all of them
/// where it has none.
pub open spec fn piece_len(s: Seq<char>) -> nat
    decreases s.len(),
{
    if s.len() == 0 || s[0] == ',' {
        0
    } else {
        1 + piece_len(s.drop_first())
    }
}

/// How many white-space characters `s` begins with.
pub open spec fn leading_spaces(s: Seq<char>) -> nat
    decreases s.len(),
{
    if s.len() == 0 || !is_space(s[0]) {
        0
    } else {
        1 + leading_spaces(s.drop_first())
    }
}

/// How many white-space characters `s` ends with.
pub open spec fn trailing_spaces(s: Seq<char>) -> nat
    decreases s.len(),
{
    if s.len() == 0 || !is_space(s.last()) {
        0
    } else {
        1 + trailing_spaces(s.drop_last())
    }
}

/// `s` without the white space at its two ends.
pub open spec fn trimmed(s: Seq<char>) -> Seq<char> {
    if leading_spaces(s) == s.len() {
        Seq::empty()
    } else {
        s.subrange(leading_spaces(s) as int, s.len() - trailing_spaces(s))
    }
}

/// The first entry of a comma-separated list, trimmed.
pub open spec fn first_entry(s: Seq<char>) -> Seq<char> {
    trimmed(s.take(piece_len(s) as int))
}

fn is_whitespace(c: char) -> (space: bool)
    ensures
        space == is_space(c),
{
    let code = c as u32;
    (0x09 <= code && code <= 0x0d) || code == 0x20 || code == 0x85 || code == 0xa0 || code == 0x1680
        || (0x2000 <= code && code <= 0x200a) || code == 0x2028 || code == 0x2029 || code == 0x202f
        || code == 0x205f || code == 0x3000
}

proof fn lemma_piece_len_step(s: Seq<char>, i: int)
    requires
        0 <= i <= s.len(),
        forall|j: int| 0 <= j < i ==> s[j] != ',',
    ensures
        piece_len(s) == i + piece_len(s.skip(i)),
    decreases i,
{
    if i == 0 {
        assert(s.skip(0) =~= s);
    } else {
        lemma_piece_len_step(s, i - 1);
        let rest = s.skip(i - 1);
        assert(rest[0] == s[i - 1]);
        assert(rest.drop_first() =~= s.skip(i));
    }
}

proof fn lemma_leading_spaces_step(s: Seq<char>, i: int)
    requires
        0 <= i <= s.len(),
        forall|j: int| 0 <= j < i ==> is_space(s[j]),
    ensures
        leading_spaces(s) == i + leading_spaces(s.skip(i)),
    decreases i,
{
    if i == 0 {
        assert(s.skip(0) =~= s);
    } else {
        lemma_leading_spaces_step(s, i - 1);
        let rest = s.skip(i - 1);
        assert(rest[0] == s[i - 1]);
        assert(rest.drop_first() =~= s.skip(i));
    }
}

proof fn lemma_trailing_spaces_step(s: Seq<char>, i: int)
    requires
        0 <= i <= s.len(),
        forall|j: int| s.len() - i <= j < s.len() ==> is_space(s[j]),
    ensures
        trailing_spaces(s) == i + trailing_spaces(s.take(s.len() - i)),
    decreases i,
{
    if i == 0 {
        assert(s.take(s.len() as int) =~= s);
    } else {
        lemma_trailing_spaces_step(s, i - 1);
        let rest = s.take(s.len() - (i - 1));
        assert(rest.last() == s[s.len() - i]);
        assert(rest.drop_last() =~= s.take(s.len() - i));
    }
}

/// The first entry of a forwarded-for header: what stands before the first
/// comma, without the white space around it. It is this text that is read as
/// an address.
pub fn first_forwarded_entry(header: &str) -> (entry: &str)
    ensures
        entry@ == first_entry(header@),
{
    let len = header.unicode_len();
    let mut stop: usize = 0;
    while stop < len && header.get_char(stop) != ','
        invariant
            len == header@.len(),
            stop <= len,
            forall|j: int| 0 <= j < stop ==> header@[j] != ',',
        decreases len - stop,
    {
        stop += 1;
    }
    proof {
        lemma_piece_len_step(header@, stop as int);
    }
    let ghost piece = header@.take(stop as int);
    let mut start: usize = 0;
    while start < stop && is_whitespace(header.get_char(start))
        invariant
            len == header@.len(),
            start <= stop <= len,
            piece == header@.take(stop as int),
            forall|j: int| 0 <= j < start ==> is_space(piece[j]),
        decreases stop - start,
    {
        start += 1;
    }
    proof {
        lemma_leading_spaces_step(piece, start as int);
    }
    if start == stop {
        return header.substring_char(start, start);
    }
    let mut end: usize = stop;
    while end > start && is_whitespace(header.get_char(end - 1))
        invariant
            len == header@.len(),
            start < stop <= len,
            start <= end <= stop,
            piece == header@.take(stop as int),
            forall|j: int| end <= j < stop ==> is_space(piece[j]),
        decreases end,
    {
        end -= 1;
    }
    proof {
        lemma_trailing_spaces_step(piece, stop - end);
    }
    header.substring_char(start, end)
}

} // verus!
