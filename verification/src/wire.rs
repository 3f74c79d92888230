//! Reading from bytes: the cursor and the buffer that the decoders work on, and
//! the words in which their contracts are written.
use crate::error::{too_short, Error};
use bytes::BytesMut;
use octets::{BufferTooShortError, Octets};
use vstd::prelude::*;

verus! {

/// `octets::Octets`, a read cursor over a slice of bytes.
#[verifier::external_type_specification]
#[verifier::external_body]
pub struct ExOctets<'a>(Octets<'a>);

/// `octets::BufferTooShortError`, the one error of the cursor.
#[verifier::external_type_specification]
#[verifier::external_body]
pub struct ExBufferTooShortError(BufferTooShortError);

/// `bytes::BytesMut`, a growable buffer of bytes that is consumed from the front.
#[verifier::external_type_specification]
#[verifier::external_body]
pub struct ExBytesMut(BytesMut);

/// All the bytes that a cursor was made over, those already read included.
pub uninterp spec fn octets_buf(o: Octets<'_>) -> Seq<u8>;

/// How many of its bytes a cursor has passed.
pub uninterp spec fn octets_off(o: Octets<'_>) -> nat;

/// The bytes that a buffer holds.
pub uninterp spec fn bytes_contents(b: BytesMut) -> Seq<u8>;

/// The bytes that a cursor has not read yet.
pub open spec fn rest(o: Octets<'_>) -> Seq<u8> {
    if octets_off(o) <= octets_buf(o).len() {
        octets_buf(o).skip(octets_off(o) as int)
    } else {
        Seq::empty()
    }
}

/// `after` is `before` moved on by `n` bytes.
pub open spec fn advanced(before: Octets<'_>, after: Octets<'_>, n: nat) -> bool {
    &&& octets_buf(after) == octets_buf(before)
    &&& octets_off(after) == octets_off(before) + n
}

/// The number in network byte order in the two bytes at `i`.
pub open spec fn be16(s: Seq<u8>, i: int) -> u16 {
    (s[i] * 0x100 + s[i + 1]) as u16
}

/// The number in network byte order in the four bytes at `i`.
pub open spec fn be32(s: Seq<u8>, i: int) -> u32 {
    (s[i] * 0x100_0000 + s[i + 1] * 0x1_0000 + s[i + 2] * 0x100 + s[i + 3]) as u32
}

/// `Octets::with_slice`: a cursor at the start of the slice.
pub assume_specification<'a>[ Octets::<'a>::with_slice ](buf: &'a [u8]) -> (r: Octets<'a>)
    ensures
        octets_buf(r) == buf@,
        octets_off(r) == 0,
;

/// `Octets::get_u8`: takes one byte; fails and stays where it is when none is left.
pub assume_specification<'a>[ Octets::<'a>::get_u8 ](o: &mut Octets<'a>) -> (r:
    std::result::Result<u8, BufferTooShortError>)
    ensures
        r is Ok <==> rest(*old(o)).len() >= 1,
        match r {
            Ok(v) => v == rest(*old(o))[0] && advanced(*old(o), *final(o), 1),
            Err(_) => advanced(*old(o), *final(o), 0),
        },
;

/// `Octets::get_u16`: takes two bytes as a number in network byte order; fails and
/// stays where it is when fewer are left.
pub assume_specification<'a>[ Octets::<'a>::get_u16 ](o: &mut Octets<'a>) -> (r:
    std::result::Result<u16, BufferTooShortError>)
    ensures
        r is Ok <==> rest(*old(o)).len() >= 2,
        match r {
            Ok(v) => v == be16(rest(*old(o)), 0) && advanced(*old(o), *final(o), 2),
            Err(_) => advanced(*old(o), *final(o), 0),
        },
;

/// `Octets::get_u32`: takes four bytes as a number in network byte order; fails and
/// stays where it is when fewer are left.
pub assume_specification<'a>[ Octets::<'a>::get_u32 ](o: &mut Octets<'a>) -> (r:
    std::result::Result<u32, BufferTooShortError>)
    ensures
        r is Ok <==> rest(*old(o)).len() >= 4,
        match r {
            Ok(v) => v == be32(rest(*old(o)), 0) && advanced(*old(o), *final(o), 4),
            Err(_) => advanced(*old(o), *final(o), 0),
        },
;

/// `Octets::get_bytes`: takes `len` bytes as a cursor of their own, which starts at
/// the first of them; fails and stays where it is when fewer are left.
pub assume_specification<'a>[ Octets::<'a>::get_bytes ](o: &mut Octets<'a>, len: usize) -> (r:
    std::result::Result<Octets<'a>, BufferTooShortError>)
    ensures
        r is Ok <==> rest(*old(o)).len() >= len,
        match r {
            Ok(v) => {
                &&& octets_buf(v) == rest(*old(o)).take(len as int)
                &&& octets_off(v) == 0
                &&& advanced(*old(o), *final(o), len as nat)
            },
            Err(_) => advanced(*old(o), *final(o), 0),
        },
;

/// `Octets::get_bytes_with_u16_length`: takes a two-byte length in network byte order
/// and then that many bytes as a cursor of their own. Fails when either part is not
/// there; the length is passed all the same when only the bytes behind it are missing.
pub assume_specification<'a>[ Octets::<'a>::get_bytes_with_u16_length ](o: &mut Octets<'a>) -> (r:
    std::result::Result<Octets<'a>, BufferTooShortError>)
    ensures
        r is Ok <==> rest(*old(o)).len() >= 2 && rest(*old(o)).len() >= 2 + be16(rest(*old(o)), 0),
        match r {
            Ok(v) => {
                &&& octets_buf(v) == rest(*old(o)).subrange(2, 2 + be16(rest(*old(o)), 0))
                &&& octets_off(v) == 0
                &&& advanced(*old(o), *final(o), 2 + be16(rest(*old(o)), 0) as nat)
            },
            Err(_) => advanced(
                *old(o),
                *final(o),
                if rest(*old(o)).len() < 2 {
                    0
                } else {
                    2
                },
            ),
        },
;

/// `Octets::skip`: passes `n` bytes; fails and stays where it is when fewer are left.
pub assume_specification<'a>[ Octets::<'a>::skip ](o: &mut Octets<'a>, n: usize) -> (r:
    std::result::Result<(), BufferTooShortError>)
    ensures
        r is Ok <==> rest(*old(o)).len() >= n,
        advanced(
            *old(o),
            *final(o),
            if r is Ok {
                n as nat
            } else {
                0
            },
        ),
;

/// `Octets::cap`: how many bytes are left.
pub assume_specification<'a>[ Octets::<'a>::cap ](o: &Octets<'a>) -> (r: usize)
    ensures
        r == octets_buf(*o).len() - octets_off(*o),
;

/// `Octets::off`: how many bytes were passed.
pub assume_specification<'a>[ Octets::<'a>::off ](o: &Octets<'a>) -> (r: usize)
    ensures
        r == octets_off(*o),
;

/// `Octets::buf`: all the bytes, whatever was passed.
pub assume_specification<'a>[ Octets::<'a>::buf ](o: &Octets<'a>) -> (r: &'a [u8])
    ensures
        r@ == octets_buf(*o),
;

/// `Octets::to_vec`: a copy of the bytes that are left.
pub assume_specification<'a>[ Octets::<'a>::to_vec ](o: &Octets<'a>) -> (r: Vec<u8>)
    ensures
        r@ == rest(*o),
;

/// `BytesMut::with_capacity`: an empty buffer. That room for `capacity` bytes was set
/// aside is not stated: no contract here depends on it. Larger capacities than a
/// vector can have make it panic.
pub assume_specification[ BytesMut::with_capacity ](capacity: usize) -> (r: BytesMut)
    requires
        capacity <= 0x7fff_ffff,
    ensures
        bytes_contents(r) == Seq::<u8>::empty(),
;

/// `BytesMut::len`: how many bytes the buffer holds.
pub assume_specification[ BytesMut::len ](b: &BytesMut) -> (r: usize)
    ensures
        r == bytes_contents(*b).len(),
;

/// `BytesMut::deref`: the bytes that the buffer holds, as a slice.
pub assume_specification[ <BytesMut as core::ops::Deref>::deref ](b: &BytesMut) -> (r: &[u8])
    ensures
        r@ == bytes_contents(*b),
;

/// `BytesMut::reserve`: makes room for more bytes and keeps those that are there. It
/// panics when the new capacity is larger than a vector can have.
pub assume_specification[ BytesMut::reserve ](b: &mut BytesMut, additional: usize)
    requires
        bytes_contents(*old(b)).len() + additional <= 0x3fff_ffff,
    ensures
        bytes_contents(*final(b)) == bytes_contents(*old(b)),
;

/// `Buf::advance` of `BytesMut`: drops that many bytes from the front. It panics when
/// there are fewer.
pub assume_specification[ <BytesMut as bytes::Buf>::advance ](b: &mut BytesMut, cnt: usize)
    requires
        cnt <= bytes_contents(*old(b)).len(),
    ensures
        bytes_contents(*final(b)) == bytes_contents(*old(b)).skip(cnt as int),
;

/// What reading a value out of bytes comes to.
pub enum Outcome<V> {
    /// The value is there.
    Value(V),
    /// The bytes are refused.
    Refused(Error),
}

/// What a decoder makes of bytes, and how many of them it passes. Bytes that are
/// refused are passed up to the fault.
pub struct Parse<V> {
    pub out: Outcome<V>,
    pub used: nat,
}

/// The value was read out of `used` bytes.
pub open spec fn value<V>(v: V, used: nat) -> Parse<V> {
    Parse { out: Outcome::Value(v), used }
}

/// The bytes were refused after `used` of them.
pub open spec fn refused<V>(e: Error, used: nat) -> Parse<V> {
    Parse { out: Outcome::Refused(e), used }
}

/// The bytes end before the field that starts at `used`.
pub open spec fn short<V>(used: nat) -> Parse<V> {
    refused(too_short(), used)
}

/// A decoder that returned `r` and moved its cursor from `before` to `after` did what
/// `p` says.
pub open spec fn did<V>(
    before: Octets<'_>,
    after: Octets<'_>,
    r: std::result::Result<V, Error>,
    p: Parse<V>,
) -> bool {
    &&& advanced(before, after, p.used)
    &&& match (r, p.out) {
        (Ok(v), Outcome::Value(w)) => v == w,
        (Err(e), Outcome::Refused(f)) => e == f,
        _ => false,
    }
}

/// As `did`, for a value that is compared by its view.
pub open spec fn did_view<T: View>(
    before: Octets<'_>,
    after: Octets<'_>,
    r: std::result::Result<T, Error>,
    p: Parse<T::V>,
) -> bool {
    &&& advanced(before, after, p.used)
    &&& match (r, p.out) {
        (Ok(v), Outcome::Value(w)) => v@ == w,
        (Err(e), Outcome::Refused(f)) => e == f,
        _ => false,
    }
}

/// Reads values one after the other until no byte is left. The parser `one` must pass
/// at least one byte and no more than there are; where it does not, reading ends there.
pub open spec fn many<V>(one: spec_fn(Seq<u8>) -> Parse<V>, s: Seq<u8>) -> Parse<Seq<V>>
    decreases s.len(),
{
    if s.len() == 0 {
        value(Seq::empty(), 0)
    } else {
        let p = one(s);
        match p.out {
            Outcome::Value(v) => if 0 < p.used <= s.len() {
                after_items(seq![v], p.used, many(one, s.skip(p.used as int)))
            } else {
                value(seq![v], p.used)
            },
            Outcome::Refused(e) => refused(e, p.used),
        }
    }
}

/// Reads `n` values one after the other.
pub open spec fn times<V>(one: spec_fn(Seq<u8>) -> Parse<V>, n: nat, s: Seq<u8>) -> Parse<Seq<V>>
    decreases n,
{
    if n == 0 {
        value(Seq::empty(), 0)
    } else {
        let p = one(s);
        match p.out {
            Outcome::Value(v) => after_items(
                seq![v],
                p.used,
                times(one, (n - 1) as nat, s.skip(p.used as int)),
            ),
            Outcome::Refused(e) => refused(e, p.used),
        }
    }
}

/// A parse of a list, behind `vs` that were read out of `used` bytes before it.
pub open spec fn after_items<V>(vs: Seq<V>, used: nat, p: Parse<Seq<V>>) -> Parse<Seq<V>> {
    Parse {
        out: match p.out {
            Outcome::Value(ws) => Outcome::Value(vs + ws),
            Outcome::Refused(e) => Outcome::Refused(e),
        },
        used: used + p.used,
    }
}

/// Reading one more item moves it from the list that is still to be read to the items
/// that were read.
pub proof fn lemma_after_items<V>(vs: Seq<V>, v: V, m: nat, n: nat, p: Parse<Seq<V>>)
    ensures
        after_items(vs, m, after_items(seq![v], n, p)) == after_items(vs.push(v), m + n, p),
{
    match p.out {
        Outcome::Value(ws) => {
            assert(vs + (seq![v] + ws) =~= vs.push(v) + ws);
        },
        _ => {},
    }
}

/// A list takes no more bytes than there are if none of its items does.
pub proof fn lemma_times_fits<V>(one: spec_fn(Seq<u8>) -> Parse<V>, n: nat, s: Seq<u8>)
    requires
        forall|t: Seq<u8>| (#[trigger] one(t)).used <= t.len(),
    ensures
        times(one, n, s).used <= s.len(),
    decreases n,
{
    if n > 0 {
        lemma_times_fits(one, (n - 1) as nat, s.skip(one(s).used as int));
    }
}

/// A list that is read until no byte is left takes no more bytes than there are if none
/// of its items does.
pub proof fn lemma_many_fits<V>(one: spec_fn(Seq<u8>) -> Parse<V>, s: Seq<u8>)
    requires
        forall|t: Seq<u8>| (#[trigger] one(t)).used <= t.len(),
    ensures
        many(one, s).used <= s.len(),
    decreases s.len(),
{
    if s.len() > 0 && 0 < one(s).used {
        lemma_many_fits(one, s.skip(one(s).used as int));
    }
}

/// A list that was read until no byte was left passed all the bytes.
pub proof fn lemma_many_uses_all<V>(one: spec_fn(Seq<u8>) -> Parse<V>, s: Seq<u8>)
    requires
        forall|t: Seq<u8>|
            #![trigger one(t)]
            one(t).out is Value ==> 0 < one(t).used <= t.len(),
    ensures
        many(one, s).out is Value ==> many(one, s).used == s.len(),
    decreases s.len(),
{
    if s.len() > 0 {
        let p = one(s);
        if p.out is Value {
            lemma_many_uses_all(one, s.skip(p.used as int));
        }
    }
}

/// A cursor that moved on over `n` bytes has what is behind them left.
pub proof fn lemma_rest(before: Octets<'_>, after: Octets<'_>, n: nat)
    requires
        advanced(before, after, n),
        n <= rest(before).len(),
    ensures
        rest(after) == rest(before).skip(n as int),
{
}

/// Takes one byte.
pub fn read_u8(o: &mut Octets<'_>) -> (r: crate::error::Result<u8>)
    ensures
        did(*old(o), *final(o), r, u8_parse(rest(*old(o)))),
        r is Ok ==> rest(*final(o)) == rest(*old(o)).skip(1),
{
    match o.get_u8() {
        Ok(v) => {
            Ok(v)
        },
        Err(e) => Err(Error::from(e)),
    }
}

/// Takes two bytes as a number in network byte order.
pub fn read_u16(o: &mut Octets<'_>) -> (r: crate::error::Result<u16>)
    ensures
        did(*old(o), *final(o), r, u16_parse(rest(*old(o)))),
        r is Ok ==> rest(*final(o)) == rest(*old(o)).skip(2),
{
    match o.get_u16() {
        Ok(v) => {
            Ok(v)
        },
        Err(e) => Err(Error::from(e)),
    }
}

/// Takes four bytes as a number in network byte order.
pub fn read_u32(o: &mut Octets<'_>) -> (r: crate::error::Result<u32>)
    ensures
        did(*old(o), *final(o), r, u32_parse(rest(*old(o)))),
        r is Ok ==> rest(*final(o)) == rest(*old(o)).skip(4),
{
    match o.get_u32() {
        Ok(v) => {
            Ok(v)
        },
        Err(e) => Err(Error::from(e)),
    }
}

/// Passes `n` bytes.
pub fn pass(o: &mut Octets<'_>, n: usize) -> (r: crate::error::Result<()>)
    ensures
        did(*old(o), *final(o), r, pass_parse(n as nat, rest(*old(o)))),
        r is Ok ==> rest(*final(o)) == rest(*old(o)).skip(n as int),
{
    match o.skip(n) {
        Ok(()) => {
            Ok(())
        },
        Err(e) => Err(Error::from(e)),
    }
}

/// Takes `n` bytes as a vector.
pub fn read_vec(o: &mut Octets<'_>, n: usize) -> (r: crate::error::Result<Vec<u8>>)
    ensures
        did_view(*old(o), *final(o), r, bytes_parse(n as nat, rest(*old(o)))),
        r is Ok ==> rest(*final(o)) == rest(*old(o)).skip(n as int),
{
    match o.get_bytes(n) {
        Ok(b) => {
            assert(rest(b) =~= rest(*old(o)).take(n as int));
            Ok(b.to_vec())
        },
        Err(e) => Err(Error::from(e)),
    }
}

/// One byte.
pub open spec fn u8_parse(s: Seq<u8>) -> Parse<u8> {
    if s.len() < 1 {
        short(0)
    } else {
        value(s[0], 1)
    }
}

/// Two bytes as a number in network byte order.
pub open spec fn u16_parse(s: Seq<u8>) -> Parse<u16> {
    if s.len() < 2 {
        short(0)
    } else {
        value(be16(s, 0), 2)
    }
}

/// Four bytes as a number in network byte order.
pub open spec fn u32_parse(s: Seq<u8>) -> Parse<u32> {
    if s.len() < 4 {
        short(0)
    } else {
        value(be32(s, 0), 4)
    }
}

/// `n` bytes that mean nothing.
pub open spec fn pass_parse(n: nat, s: Seq<u8>) -> Parse<()> {
    if s.len() < n {
        short(0)
    } else {
        value((), n)
    }
}

/// `n` bytes as they are.
pub open spec fn bytes_parse(n: nat, s: Seq<u8>) -> Parse<Seq<u8>> {
    if s.len() < n {
        short(0)
    } else {
        value(s.take(n as int), n)
    }
}

} // verus!
