//! The UPDATE message.
use crate::error::{update_error, Error, Result, UpdateMsgErrorSubcode};
use crate::net::{IpAddr, Ipv4Addr, Ipv6Addr};
use crate::open::OpenMsg;
use crate::wire::{
    advanced, after_items, be16, be32, bytes_parse, did, did_view, lemma_after_items,
    lemma_many_fits, lemma_many_uses_all, lemma_rest, many, read_u16, read_u32, read_u8, read_vec,
    refused, rest, short, value, Outcome, Parse,
};
use octets::Octets;
use vstd::prelude::*;

verus! {

/// A range of addresses: a prefix and how many of its bits count.
#[derive(Debug, Clone, Copy)]
pub struct Cidr {
    pub length: u8,
    pub prefix: IpAddr,
}

/// `s` filled up with zeros to `n` bytes.
pub open spec fn padded(s: Seq<u8>, n: nat) -> Seq<u8> {
    s + Seq::new((n - s.len()) as nat, |i: int| 0u8)
}

/// How many bytes hold a prefix of that many bits.
pub open spec fn prefix_octets(bits: u8) -> nat {
    ((bits + 7) / 8) as nat
}

/// The address that a prefix starts: of the sixth version where the prefix has more than
/// four bytes.
pub open spec fn prefix_addr(s: Seq<u8>) -> IpAddr {
    if s.len() > 4 {
        IpAddr::V6(Ipv6Addr::of(padded(s, 16)))
    } else {
        IpAddr::V4(Ipv4Addr::of(padded(s, 4)))
    }
}

/// A length in bits, and then the bytes of the prefix. A prefix that is longer than any
/// address is refused once its bytes are read.
pub open spec fn cidr_parse(s: Seq<u8>) -> Parse<Cidr> {
    let n = prefix_octets(s[0]);
    if s.len() < 1 {
        short(0)
    } else if s.len() < 1 + n {
        short(1)
    } else if n > 16 {
        refused(update_error(UpdateMsgErrorSubcode::InvalidNetworkField), 1 + n)
    } else {
        value(Cidr { length: s[0], prefix: prefix_addr(s.subrange(1, 1 + n as int)) }, 1 + n)
    }
}

/// The parser of one range.
pub open spec fn cidr_parser() -> spec_fn(Seq<u8>) -> Parse<Cidr> {
    |s: Seq<u8>| cidr_parse(s)
}

/// Fills up a vector with zeros to `n` bytes.
fn pad(v: &mut Vec<u8>, n: usize)
    requires
        old(v).len() <= n,
    ensures
        final(v)@ == padded(old(v)@, n as nat),
{
    while v.len() < n
        invariant
            old(v).len() <= v.len() <= n,
            v@ =~= padded(old(v)@, v.len() as nat),
        decreases n - v.len(),
    {
        v.push(0);
    }
}

impl Cidr {
    pub fn decode(buf: &mut Octets<'_>) -> (r: Result<Cidr>)
        ensures
            did(*old(buf), *final(buf), r, cidr_parse(rest(*old(buf)))),
            r is Ok ==> rest(*final(buf)) == rest(*old(buf)).skip(
                cidr_parse(rest(*old(buf))).used as int,
            ),
    {
        let length = read_u8(buf)?;
        let padded_length: usize = (length as usize + 7) / 8;
        let mut prefix = read_vec(buf, padded_length)?;
        if padded_length > 16 {
            return Error::err_update(UpdateMsgErrorSubcode::InvalidNetworkField, None);
        }
        if padded_length > 4 {
            pad(&mut prefix, 16);
            Ok(Cidr { length, prefix: IpAddr::V6(Ipv6Addr::from_vec(&prefix)) })
        } else {
            pad(&mut prefix, 4);
            Ok(Cidr { length, prefix: IpAddr::V4(Ipv4Addr::from_vec(&prefix)) })
        }
    }
}

/// The flags of a path attribute.
#[derive(Debug, Clone, Copy, PartialEq, Eq, Structural)]
pub struct PathAttributeFlags {
    pub optional: bool,
    pub transitive: bool,
    pub partial: bool,
    pub extended_length: bool,
}

/// The four high bits of a byte, the highest first.
pub open spec fn flags_of(b: u8) -> PathAttributeFlags {
    PathAttributeFlags {
        optional: b & 0x80 != 0,
        transitive: b & 0x40 != 0,
        partial: b & 0x20 != 0,
        extended_length: b & 0x10 != 0,
    }
}

/// One byte of flags.
pub open spec fn flags_parse(s: Seq<u8>) -> Parse<PathAttributeFlags> {
    if s.len() < 1 {
        short(0)
    } else {
        value(flags_of(s[0]), 1)
    }
}

impl PathAttributeFlags {
    pub fn decode(buf: &mut Octets<'_>) -> (r: Result<PathAttributeFlags>)
        ensures
            did(*old(buf), *final(buf), r, flags_parse(rest(*old(buf)))),
    {
        let flags = read_u8(buf)?;
        Ok(
            PathAttributeFlags {
                optional: flags & 0x80 != 0,
                transitive: flags & 0x40 != 0,
                partial: flags & 0x20 != 0,
                extended_length: flags & 0x10 != 0,
            },
        )
    }
}

/// Where a route comes from.
#[derive(Debug, Clone, Copy, PartialEq, Eq, Structural)]
pub enum Origin {
    Igp,
    Egp,
    Incomplete,
}

/// The origin that a byte names.
pub open spec fn origin_of(b: u8) -> Option<Origin> {
    if b == 0 {
        Some(Origin::Igp)
    } else if b == 1 {
        Some(Origin::Egp)
    } else if b == 2 {
        Some(Origin::Incomplete)
    } else {
        None
    }
}

/// An attribute of one byte that names an origin.
pub open spec fn origin_parse(attr_len: u16, s: Seq<u8>) -> Parse<PathAttributeValueView> {
    if attr_len != 1 {
        refused(update_error(UpdateMsgErrorSubcode::AttributeLengthError), 0)
    } else if s.len() < 1 {
        short(0)
    } else {
        match origin_of(s[0]) {
            Some(origin) => value(PathAttributeValueView::Origin(origin), 1),
            None => refused(update_error(UpdateMsgErrorSubcode::InvalidOriginAttribute), 1),
        }
    }
}

impl Origin {
    pub fn decode(buf: &mut Octets<'_>, attr_len: u16) -> (r: Result<PathAttributeValue>)
        ensures
            did_view(*old(buf), *final(buf), r, origin_parse(attr_len, rest(*old(buf)))),
    {
        if attr_len != 1 {
            return Error::err_update(UpdateMsgErrorSubcode::AttributeLengthError, None);
        }
        let origin = read_u8(buf)?;
        match origin {
            0 => Ok(PathAttributeValue::Origin(Origin::Igp)),
            1 => Ok(PathAttributeValue::Origin(Origin::Egp)),
            2 => Ok(PathAttributeValue::Origin(Origin::Incomplete)),
            _ => Error::err_update(UpdateMsgErrorSubcode::InvalidOriginAttribute, None),
        }
    }
}

/// Whether the systems of a path segment are ordered.
#[derive(Debug, Clone, Copy, PartialEq, Eq, Structural)]
pub enum AsPathSegmentType {
    AsSet,
    AsSequence,
}

/// One byte that names a kind of segment.
pub open spec fn segment_type_parse(s: Seq<u8>) -> Parse<AsPathSegmentType> {
    if s.len() < 1 {
        short(0)
    } else if s[0] == 1 {
        value(AsPathSegmentType::AsSet, 1)
    } else if s[0] == 2 {
        value(AsPathSegmentType::AsSequence, 1)
    } else {
        refused(update_error(UpdateMsgErrorSubcode::MalformedAsPath), 1)
    }
}

impl AsPathSegmentType {
    pub fn decode(buf: &mut Octets<'_>) -> (r: Result<AsPathSegmentType>)
        ensures
            did(*old(buf), *final(buf), r, segment_type_parse(rest(*old(buf)))),
    {
        match read_u8(buf)? {
            1 => Ok(AsPathSegmentType::AsSet),
            2 => Ok(AsPathSegmentType::AsSequence),
            _ => Error::err_update(UpdateMsgErrorSubcode::MalformedAsPath, None),
        }
    }
}

/// The number that stands in for one that two bytes cannot hold.
pub const AS_TRANS: u16 = 23456;

/// The number of an autonomous system.
#[derive(Debug, Clone, Copy, PartialEq, Eq, Structural)]
pub struct AsNum(pub u32);

impl AsNum {
    /// Whether two bytes can hold the number.
    pub fn is_mappable(&self) -> (r: bool)
        ensures
            r == (self.0 < 0x1_0000),
    {
        let n: u32 = self.0;
        assert((n >> 16 == 0) == (n < 0x1_0000)) by (bit_vector);
        n >> 16 == 0
    }

    /// The number itself where two bytes can hold it, and `AS_TRANS` otherwise.
    pub open spec fn two_octets(self) -> u16 {
        if self.0 < 0x1_0000 {
            self.0 as u16
        } else {
            AS_TRANS
        }
    }

    pub fn to_two_octets(&self) -> (r: u16)
        ensures
            r == self.two_octets(),
    {
        if self.is_mappable() {
            return self.0 as u16;
        }
        AS_TRANS
    }
}

/// A stretch of the path that a route took.
#[derive(Debug, Clone)]
pub struct AsPathSegment {
    pub segment_type: AsPathSegmentType,
    pub segment_length: u8,
    pub segment_value: Vec<AsNum>,
}

/// What a path segment says.
pub struct AsPathSegmentView {
    pub segment_type: AsPathSegmentType,
    pub segment_length: u8,
    pub segment_value: Seq<AsNum>,
}

impl View for AsPathSegment {
    type V = AsPathSegmentView;

    open spec fn view(&self) -> AsPathSegmentView {
        AsPathSegmentView {
            segment_type: self.segment_type,
            segment_length: self.segment_length,
            segment_value: self.segment_value@,
        }
    }
}

/// The kind, how many systems there are, and two bytes for each of them. The attribute
/// must be exactly as long as that.
pub open spec fn segment_parse(attr_len: u16, s: Seq<u8>) -> Parse<AsPathSegmentView> {
    let kind = segment_type_parse(s);
    match kind.out {
        Outcome::Value(segment_type) => if s.len() < 2 {
            short(1)
        } else if s[1] * 2 + 2 != attr_len {
            refused(update_error(UpdateMsgErrorSubcode::MalformedAsPath), 2)
        } else if s.len() < 2 + s[1] * 2 {
            short((s.len() / 2 * 2) as nat)
        } else {
            value(
                AsPathSegmentView {
                    segment_type,
                    segment_length: s[1],
                    segment_value: Seq::new(s[1] as nat, |i: int| AsNum(be16(s, 2 + 2 * i) as u32)),
                },
                (2 + s[1] * 2) as nat,
            )
        },
        Outcome::Refused(e) => refused(e, kind.used),
    }
}

impl AsPathSegment {
    pub fn decode(buf: &mut Octets<'_>, attr_len: u16) -> (r: Result<AsPathSegment>)
        ensures
            did_view(*old(buf), *final(buf), r, segment_parse(attr_len, rest(*old(buf)))),
    {
        let ghost s = rest(*buf);
        let segment_type = AsPathSegmentType::decode(buf)?;
        let segment_length = read_u8(buf)?;
        if segment_length as u16 * 2 + 2 != attr_len {
            return Error::err_update(UpdateMsgErrorSubcode::MalformedAsPath, None);
        }
        let mut segment_value: Vec<AsNum> = Vec::new();
        let mut i: u8 = 0;
        while i < segment_length
            invariant
                i <= segment_length,
                s == rest(*old(buf)),
                s.len() >= 2 + 2 * i,
                s[1] == segment_length,
                segment_length * 2 + 2 == attr_len,
                segment_type_parse(s) == value(segment_type, 1),
                advanced(*old(buf), *buf, (2 + 2 * i) as nat),
                segment_value@ =~= Seq::new(i as nat, |k: int| AsNum(be16(s, 2 + 2 * k) as u32)),
            decreases segment_length - i,
        {
            let as_num = read_u16(buf)?;
            segment_value.push(AsNum(as_num as u32));
            i = i + 1;
        }
        Ok(AsPathSegment { segment_type, segment_length, segment_value })
    }
}

/// Who put routes together.
#[derive(Debug, Clone, Copy)]
pub struct Aggregator {
    pub as_num: u32,
    pub ip_addr: Ipv4Addr,
}

/// A system number of four bytes, or of two, and an address.
pub open spec fn aggregator_parse(four_octets: bool, s: Seq<u8>) -> Parse<Aggregator> {
    let n: nat = if four_octets {
        4
    } else {
        2
    };
    if s.len() < n {
        short(0)
    } else if s.len() < n + 4 {
        short(n)
    } else {
        value(
            Aggregator {
                as_num: if four_octets {
                    be32(s, 0)
                } else {
                    be16(s, 0) as u32
                },
                ip_addr: Ipv4Addr::of(s.skip(n as int)),
            },
            n + 4,
        )
    }
}

/// Reads an address of four bytes.
fn read_ipv4(buf: &mut Octets<'_>) -> (r: Result<Ipv4Addr>)
    ensures
        did(
            *old(buf),
            *final(buf),
            r,
            if rest(*old(buf)).len() < 4 {
                short(0)
            } else {
                value(Ipv4Addr::of(rest(*old(buf))), 4)
            },
        ),
{
    let octets = read_vec(buf, 4)?;
    Ok(Ipv4Addr::from_vec(&octets))
}

impl Aggregator {
    pub fn decode(buf: &mut Octets<'_>, four_octets: bool) -> (r: Result<Aggregator>)
        ensures
            did(*old(buf), *final(buf), r, aggregator_parse(four_octets, rest(*old(buf)))),
    {
        let as_num = if four_octets {
            read_u32(buf)?
        } else {
            read_u16(buf)? as u32
        };
        let ip_addr = read_ipv4(buf)?;
        Ok(Aggregator { as_num, ip_addr })
    }
}

/// What a path attribute says.
#[derive(Debug, Clone)]
pub enum PathAttributeValue {
    Origin(Origin),
    AsPath(AsPathSegment),
    NextHop(Ipv4Addr),
    MultiExitDisc(u32),
    LocalPref(u32),
    AtomicAggregate(bool),
    Aggregator(Aggregator),
    Unknown(Vec<u8>),
}

/// What a path attribute says, its lists as sequences.
pub enum PathAttributeValueView {
    Origin(Origin),
    AsPath(AsPathSegmentView),
    NextHop(Ipv4Addr),
    MultiExitDisc(u32),
    LocalPref(u32),
    AtomicAggregate(bool),
    Aggregator(Aggregator),
    Unknown(Seq<u8>),
}

impl View for PathAttributeValue {
    type V = PathAttributeValueView;

    open spec fn view(&self) -> PathAttributeValueView {
        match *self {
            PathAttributeValue::Origin(v) => PathAttributeValueView::Origin(v),
            PathAttributeValue::AsPath(v) => PathAttributeValueView::AsPath(v@),
            PathAttributeValue::NextHop(v) => PathAttributeValueView::NextHop(v),
            PathAttributeValue::MultiExitDisc(v) => PathAttributeValueView::MultiExitDisc(v),
            PathAttributeValue::LocalPref(v) => PathAttributeValueView::LocalPref(v),
            PathAttributeValue::AtomicAggregate(v) => PathAttributeValueView::AtomicAggregate(v),
            PathAttributeValue::Aggregator(v) => PathAttributeValueView::Aggregator(v),
            PathAttributeValue::Unknown(v) => PathAttributeValueView::Unknown(v@),
        }
    }
}

/// The value of the attribute with that code and length, from a peer whose system
/// numbers have four bytes if `four_octets`.
pub open spec fn attr_value_parse(
    code: u8,
    attr_len: u16,
    four_octets: bool,
    s: Seq<u8>,
) -> Parse<PathAttributeValueView> {
    if code == 1 {
        origin_parse(attr_len, s)
    } else if code == 2 {
        let p = segment_parse(attr_len, s);
        match p.out {
            Outcome::Value(v) => value(PathAttributeValueView::AsPath(v), p.used),
            Outcome::Refused(e) => refused(e, p.used),
        }
    } else if code == 3 {
        if attr_len != 4 {
            refused(update_error(UpdateMsgErrorSubcode::AttributeLengthError), 0)
        } else if s.len() < 4 {
            short(0)
        } else {
            value(PathAttributeValueView::NextHop(Ipv4Addr::of(s)), 4)
        }
    } else if code == 4 {
        if s.len() < 4 {
            short(0)
        } else {
            value(PathAttributeValueView::MultiExitDisc(be32(s, 0)), 4)
        }
    } else if code == 5 {
        if s.len() < 4 {
            short(0)
        } else {
            value(PathAttributeValueView::LocalPref(be32(s, 0)), 4)
        }
    } else if code == 6 {
        value(PathAttributeValueView::AtomicAggregate(true), 0)
    } else if code == 7 {
        let p = aggregator_parse(four_octets, s);
        match p.out {
            Outcome::Value(v) => value(PathAttributeValueView::Aggregator(v), p.used),
            Outcome::Refused(e) => refused(e, p.used),
        }
    } else {
        let p = bytes_parse(attr_len as nat, s);
        match p.out {
            Outcome::Value(v) => value(PathAttributeValueView::Unknown(v), p.used),
            Outcome::Refused(e) => refused(e, p.used),
        }
    }
}

/// Whether the system numbers of a peer have four bytes.
pub open spec fn four_octets(peer: OpenMsg) -> bool {
    peer.opt_params.four_octet_as_cap is Some
}

impl PathAttributeValue {
    pub fn decode(buf: &mut Octets<'_>, peer: &OpenMsg, attr: &mut PathAttribute) -> (r: Result<
        PathAttributeValue,
    >)
        ensures
            did_view(
                *old(buf),
                *final(buf),
                r,
                attr_value_parse(
                    old(attr).attr_type_code,
                    old(attr).attr_len,
                    four_octets(*peer),
                    rest(*old(buf)),
                ),
            ),
            *final(attr) == *old(attr),
    {
        match attr.attr_type_code {
            1 => Origin::decode(buf, attr.attr_len),
            2 => Ok(PathAttributeValue::from(AsPathSegment::decode(buf, attr.attr_len)?)),
            3 => {
                if attr.attr_len != 4 {
                    return Error::err_update(UpdateMsgErrorSubcode::AttributeLengthError, None);
                }
                Ok(PathAttributeValue::NextHop(read_ipv4(buf)?))
            },
            4 => Ok(PathAttributeValue::MultiExitDisc(read_u32(buf)?)),
            5 => Ok(PathAttributeValue::LocalPref(read_u32(buf)?)),
            6 => Ok(PathAttributeValue::AtomicAggregate(true)),
            7 => Ok(
                PathAttributeValue::from(
                    Aggregator::decode(buf, peer.opt_params.four_octet_as_cap.is_some())?,
                ),
            ),
            _ => Ok(PathAttributeValue::Unknown(read_vec(buf, attr.attr_len as usize)?)),
        }
    }
}

impl From<Origin> for PathAttributeValue {
    fn from(v: Origin) -> (r: PathAttributeValue) {
        PathAttributeValue::Origin(v)
    }
}

impl vstd::std_specs::convert::FromSpecImpl<Origin> for PathAttributeValue {
    open spec fn obeys_from_spec() -> bool {
        true
    }

    open spec fn from_spec(v: Origin) -> PathAttributeValue {
        PathAttributeValue::Origin(v)
    }
}

impl From<AsPathSegment> for PathAttributeValue {
    fn from(v: AsPathSegment) -> (r: PathAttributeValue) {
        PathAttributeValue::AsPath(v)
    }
}

impl vstd::std_specs::convert::FromSpecImpl<AsPathSegment> for PathAttributeValue {
    open spec fn obeys_from_spec() -> bool {
        true
    }

    open spec fn from_spec(v: AsPathSegment) -> PathAttributeValue {
        PathAttributeValue::AsPath(v)
    }
}

impl From<Aggregator> for PathAttributeValue {
    fn from(v: Aggregator) -> (r: PathAttributeValue) {
        PathAttributeValue::Aggregator(v)
    }
}

impl vstd::std_specs::convert::FromSpecImpl<Aggregator> for PathAttributeValue {
    open spec fn obeys_from_spec() -> bool {
        true
    }

    open spec fn from_spec(v: Aggregator) -> PathAttributeValue {
        PathAttributeValue::Aggregator(v)
    }
}

/// A path attribute.
#[derive(Debug, Clone)]
pub struct PathAttribute {
    pub attr_flags: PathAttributeFlags,
    pub attr_type_code: u8,
    pub attr_len: u16,
    pub attr_value: PathAttributeValue,
}

/// What a path attribute is, its lists as sequences.
pub struct PathAttributeView {
    pub attr_flags: PathAttributeFlags,
    pub attr_type_code: u8,
    pub attr_len: u16,
    pub attr_value: PathAttributeValueView,
}

impl View for PathAttribute {
    type V = PathAttributeView;

    open spec fn view(&self) -> PathAttributeView {
        PathAttributeView {
            attr_flags: self.attr_flags,
            attr_type_code: self.attr_type_code,
            attr_len: self.attr_len,
            attr_value: self.attr_value@,
        }
    }
}

/// The flags, the code, the length, which has two bytes if the flags say so, and the
/// value.
pub open spec fn attr_parse(four_octets: bool, s: Seq<u8>) -> Parse<PathAttributeView> {
    let flags = flags_of(s[0]);
    let head: nat = if flags.extended_length {
        4
    } else {
        3
    };
    let attr_len = if flags.extended_length {
        be16(s, 2)
    } else {
        s[2] as u16
    };
    let p = attr_value_parse(s[1], attr_len, four_octets, s.skip(head as int));
    if s.len() < 1 {
        short(0)
    } else if s.len() < 2 {
        short(1)
    } else if s.len() < head {
        short(2)
    } else {
        match p.out {
            Outcome::Value(attr_value) => value(
                PathAttributeView { attr_flags: flags, attr_type_code: s[1], attr_len, attr_value },
                head + p.used,
            ),
            Outcome::Refused(e) => refused(e, head + p.used),
        }
    }
}

/// The parser of one path attribute.
pub open spec fn attr_parser(four_octets: bool) -> spec_fn(Seq<u8>) -> Parse<PathAttributeView> {
    |s: Seq<u8>| attr_parse(four_octets, s)
}

impl PathAttribute {
    pub fn decode(buf: &mut Octets<'_>, peer: &OpenMsg) -> (r: Result<PathAttribute>)
        ensures
            did_view(*old(buf), *final(buf), r, attr_parse(four_octets(*peer), rest(*old(buf)))),
    {
        let ghost s = rest(*buf);
        let attr_flags = PathAttributeFlags::decode(buf)?;
        let attr_type_code = read_u8(buf)?;
        let attr_len: u16 = if attr_flags.extended_length {
            read_u16(buf)?
        } else {
            read_u8(buf)? as u16
        };
        assert(rest(*buf) =~= s.skip(
            if attr_flags.extended_length {
                4
            } else {
                3
            },
        ));
        let mut attr = PathAttribute {
            attr_flags,
            attr_type_code,
            attr_len,
            attr_value: PathAttributeValue::Unknown(Vec::new()),
        };
        attr.attr_value = PathAttributeValue::decode(buf, peer, &mut attr)?;
        Ok(attr)
    }
}

/// Routes that came up and routes that went away.
#[derive(Debug, Clone)]
pub struct UpdateMsg {
    pub withdrawn_routes: Vec<Cidr>,
    pub path_attributes: Vec<PathAttribute>,
    pub nlri: Vec<(u8, IpAddr)>,
}

/// What an UPDATE message says.
pub struct UpdateMsgView {
    pub withdrawn_routes: Seq<Cidr>,
    pub path_attributes: Seq<PathAttributeView>,
    pub nlri: Seq<(u8, IpAddr)>,
}

/// What a list of path attributes says.
pub open spec fn attr_views(attrs: Seq<PathAttribute>) -> Seq<PathAttributeView> {
    Seq::new(attrs.len(), |i: int| attrs[i]@)
}

impl View for UpdateMsg {
    type V = UpdateMsgView;

    open spec fn view(&self) -> UpdateMsgView {
        UpdateMsgView {
            withdrawn_routes: self.withdrawn_routes@,
            path_attributes: attr_views(self.path_attributes@),
            nlri: self.nlri@,
        }
    }
}

/// One route: a byte that is kept, and a range of which the address is kept.
pub open spec fn route_parse(s: Seq<u8>) -> Parse<(u8, IpAddr)> {
    let p = cidr_parse(s.skip(1));
    if s.len() < 1 {
        short(0)
    } else {
        match p.out {
            Outcome::Value(cidr) => value((s[0], cidr.prefix), 1 + p.used),
            Outcome::Refused(e) => refused(e, 1 + p.used),
        }
    }
}

/// The parser of one route.
pub open spec fn route_parser() -> spec_fn(Seq<u8>) -> Parse<(u8, IpAddr)> {
    |s: Seq<u8>| route_parse(s)
}

/// The withdrawn ranges behind their length in bytes, the path attributes behind theirs,
/// and routes up to the end.
pub open spec fn update_parse(four_octets: bool, s: Seq<u8>) -> Parse<UpdateMsgView> {
    let m = 2 + be16(s, 0) as nat;
    let withdrawn = many(cidr_parser(), s.subrange(2, m as int));
    let n = m + 2 + be16(s, m as int) as nat;
    let attrs = many(attr_parser(four_octets), s.subrange(m as int + 2, n as int));
    let routes = many(route_parser(), s.skip(n as int));
    if s.len() < 2 {
        short(0)
    } else if s.len() < m {
        short(2)
    } else {
        match withdrawn.out {
            Outcome::Value(withdrawn_routes) => if s.len() < m + 2 {
                short(m)
            } else if s.len() < n {
                short(m + 2)
            } else {
                match attrs.out {
                    Outcome::Value(path_attributes) => match routes.out {
                        Outcome::Value(nlri) => value(
                            UpdateMsgView { withdrawn_routes, path_attributes, nlri },
                            n + routes.used,
                        ),
                        Outcome::Refused(e) => refused(e, n + routes.used),
                    },
                    Outcome::Refused(e) => refused(e, n),
                }
            },
            Outcome::Refused(e) => refused(e, m),
        }
    }
}

/// Reads ranges until no byte is left.
fn read_cidrs(buf: &mut Octets<'_>) -> (r: Result<Vec<Cidr>>)
    ensures
        did_view(*old(buf), *final(buf), r, many(cidr_parser(), rest(*old(buf)))),
{
    let ghost s = rest(*buf);
    let ghost one = cidr_parser();
    let ghost mut used: nat = 0;
    let mut cidrs: Vec<Cidr> = Vec::new();
    while buf.cap() > 0
        invariant
            one == cidr_parser(),
            s == rest(*old(buf)),
            advanced(*old(buf), *buf, used),
            many(one, s) == after_items(cidrs@, used, many(one, rest(*buf))),
        decreases rest(*buf).len(),
    {
        let ghost p = cidr_parse(rest(*buf));
        let cidr = Cidr::decode(buf)?;
        proof {
            lemma_after_items(cidrs@, cidr, used, p.used, many(one, rest(*buf)));
            used = used + p.used;
        }
        cidrs.push(cidr);
    }
    Ok(cidrs)
}

/// Reads path attributes until no byte is left.
fn read_attrs(buf: &mut Octets<'_>, peer: &OpenMsg) -> (r: Result<Vec<PathAttribute>>)
    ensures
        ({
            let p = many(attr_parser(four_octets(*peer)), rest(*old(buf)));
            match r {
                Ok(attrs) => p.out == Outcome::Value(attr_views(attrs@)),
                Err(e) => p.out == Outcome::<Seq<PathAttributeView>>::Refused(e),
            }
        }),
{
    let ghost s = rest(*buf);
    let ghost one = attr_parser(four_octets(*peer));
    let ghost mut used: nat = 0;
    let mut attrs: Vec<PathAttribute> = Vec::new();
    while buf.cap() > 0
        invariant
            one == attr_parser(four_octets(*peer)),
            s == rest(*old(buf)),
            many(one, s) == after_items(attr_views(attrs@), used, many(one, rest(*buf))),
        decreases rest(*buf).len(),
    {
        let ghost before = *buf;
        let ghost p = attr_parse(four_octets(*peer), rest(*buf));
        let attr = PathAttribute::decode(buf, peer)?;
        proof {
            lemma_rest(before, *buf, p.used);
            lemma_after_items(attr_views(attrs@), attr@, used, p.used, many(one, rest(*buf)));
            assert(attr_views(attrs@.push(attr)) =~= attr_views(attrs@).push(attr@));
            used = used + p.used;
        }
        attrs.push(attr);
    }
    Ok(attrs)
}

/// Reads routes until no byte is left.
fn read_routes(buf: &mut Octets<'_>) -> (r: Result<Vec<(u8, IpAddr)>>)
    ensures
        did_view(*old(buf), *final(buf), r, many(route_parser(), rest(*old(buf)))),
{
    let ghost s = rest(*buf);
    let ghost one = route_parser();
    let ghost mut used: nat = 0;
    let mut routes: Vec<(u8, IpAddr)> = Vec::new();
    while buf.cap() > 0
        invariant
            one == route_parser(),
            s == rest(*old(buf)),
            advanced(*old(buf), *buf, used),
            many(one, s) == after_items(routes@, used, many(one, rest(*buf))),
        decreases rest(*buf).len(),
    {
        let ghost before = *buf;
        let ghost p = route_parse(rest(*buf));
        let length = read_u8(buf)?;
        let cidr = Cidr::decode(buf)?;
        proof {
            lemma_rest(before, *buf, p.used);
            lemma_after_items(
                routes@,
                (length, cidr.prefix),
                used,
                p.used,
                many(one, rest(*buf)),
            );
            used = used + p.used;
        }
        routes.push((length, cidr.prefix));
    }
    Ok(routes)
}

impl UpdateMsg {
    pub fn decode(buf: &mut Octets<'_>, peer: &OpenMsg) -> (r: Result<UpdateMsg>)
        ensures
            did_view(*old(buf), *final(buf), r, update_parse(four_octets(*peer), rest(*old(buf)))),
    {
        let ghost s = rest(*buf);
        let mut withdrawn_routes_buf = match buf.get_bytes_with_u16_length() {
            Ok(b) => b,
            Err(e) => {
                return Err(Error::from(e));
            },
        };
        let ghost m: nat = 2 + be16(s, 0) as nat;
        assert(rest(withdrawn_routes_buf) =~= s.subrange(2, m as int));
        let withdrawn_routes = read_cidrs(&mut withdrawn_routes_buf)?;
        let mut path_attributes_buf = match buf.get_bytes_with_u16_length() {
            Ok(b) => b,
            Err(e) => {
                return Err(Error::from(e));
            },
        };
        let ghost n: nat = m + 2 + be16(s, m as int) as nat;
        proof {
            assert(rest(path_attributes_buf) =~= s.subrange(m as int + 2, n as int));
            lemma_rest(*old(buf), *buf, n);
        }
        let path_attributes = read_attrs(&mut path_attributes_buf, peer)?;
        let nlri = read_routes(buf)?;
        Ok(UpdateMsg { withdrawn_routes, path_attributes, nlri })
    }
}

/// An UPDATE takes no more bytes than there are, and one that is accepted takes them all.
pub proof fn lemma_update_fits(four_octets: bool, s: Seq<u8>)
    ensures
        update_parse(four_octets, s).used <= s.len(),
        update_parse(four_octets, s).out is Value ==> update_parse(four_octets, s).used == s.len(),
{
    let m = 2 + be16(s, 0) as nat;
    let n = m + 2 + be16(s, m as int) as nat;
    let one = route_parser();
    lemma_many_fits(one, s.skip(n as int));
    lemma_many_uses_all(one, s.skip(n as int));
}

} // verus!
