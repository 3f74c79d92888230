//! How messages are laid out in bytes, and that they are read back as what they are.
use crate::error::{
    Error, ErrorCode, ErrorSubCode, LocalLogicErrorSubcode, MsgHeaderErrorSubcode,
    OpenMsgErrorSubcode, UpdateMsgErrorSubcode,
};
use crate::message::{
    header_parse, message_parse, KeepaliveMsg, MessageHeader, MessageView, NotificationMsgView,
};
use crate::net::{IpAddr, Ipv4Addr, Ipv6Addr};
use crate::open::{gathered, open_parse, opt_param_parser, MpExtCap, OpenMsgView, OptParam};
use crate::update::{
    attr_parse, attr_parser, attr_value_parse, cidr_parse, cidr_parser, flags_of,
    lemma_update_fits, route_parse, route_parser, segment_parse, update_parse, Aggregator, AsNum,
    AsPathSegmentType, AsPathSegmentView, Cidr, Origin, PathAttributeFlags, PathAttributeValueView,
    PathAttributeView, UpdateMsgView,
};
use crate::wire::{be16, be32, many, times, value, Outcome, Parse};
use vstd::prelude::*;

verus! {

/// A fault in an UPDATE, without data.
pub open spec fn update_fault(subcode: UpdateMsgErrorSubcode) -> Error {
    Error {
        code: ErrorCode::UpdateMessageError,
        subcode: ErrorSubCode::UpdateMsgErrorSubcode(subcode),
        data: None,
    }
}

/// A fault in an OPEN, without data.
pub open spec fn open_fault(subcode: OpenMsgErrorSubcode) -> Error {
    Error {
        code: ErrorCode::OpenMessageError,
        subcode: ErrorSubCode::OpenMsgErrorSubcode(subcode),
        data: None,
    }
}

/// A fault in a header, without data.
pub open spec fn header_fault(subcode: MsgHeaderErrorSubcode) -> Error {
    Error {
        code: ErrorCode::MessageHeaderError,
        subcode: ErrorSubCode::MsgHeaderErrorSubcode(subcode),
        data: None,
    }
}

/// That more bytes are needed.
pub open spec fn more_needed() -> Error {
    Error {
        code: ErrorCode::LocalLogicError,
        subcode: ErrorSubCode::LocalLogicErrorSubcode(LocalLogicErrorSubcode::BufferTooShortError),
        data: None,
    }
}

/// Two bytes, the more significant first.
pub open spec fn enc16(n: u16) -> Seq<u8> {
    seq![(n / 256) as u8].push((n % 256) as u8)
}

/// Four bytes, the most significant first.
pub open spec fn enc32(n: u32) -> Seq<u8> {
    seq![(n / 0x100_0000) as u8].push((n / 0x1_0000 % 256) as u8).push((n / 256 % 256) as u8).push(
        (n % 256) as u8,
    )
}

/// The number whose bytes stand at `i` is read there.
proof fn lemma_be16(s: Seq<u8>, i: int, n: u16)
    requires
        s[i] == (n / 256) as u8,
        s[i + 1] == (n % 256) as u8,
    ensures
        be16(s, i) == n,
{
}

/// As for two bytes, for four.
proof fn lemma_be32(s: Seq<u8>, i: int, n: u32)
    requires
        s[i] == (n / 0x100_0000) as u8,
        s[i + 1] == (n / 0x1_0000 % 256) as u8,
        s[i + 2] == (n / 256 % 256) as u8,
        s[i + 3] == (n % 256) as u8,
    ensures
        be32(s, i) == n,
{
    assert(n == (n / 0x100_0000) * 0x100_0000 + (n / 0x1_0000 % 256) * 0x1_0000 + (n / 256 % 256)
        * 256 + n % 256);
}

/// The byte that names a kind of segment.
pub open spec fn enc_segment_type(kind: AsPathSegmentType) -> u8 {
    match kind {
        AsPathSegmentType::AsSet => 1,
        AsPathSegmentType::AsSequence => 2,
    }
}

/// The bytes of system numbers, two for each.
pub open spec fn enc_numbers(numbers: Seq<AsNum>) -> Seq<u8> {
    Seq::new(
        2 * numbers.len(),
        |i: int|
            if i % 2 == 0 {
                (numbers[i / 2].0 / 256) as u8
            } else {
                (numbers[i / 2].0 % 256) as u8
            },
    )
}

/// The kind, how many systems there are, and their numbers.
pub open spec fn enc_segment(segment: AsPathSegmentView) -> Seq<u8> {
    seq![enc_segment_type(segment.segment_type)].push(segment.segment_length) + enc_numbers(
        segment.segment_value,
    )
}

/// Whether a segment can be written: it counts its systems, and two bytes hold each number.
pub open spec fn segment_ok(segment: AsPathSegmentView) -> bool {
    &&& segment.segment_length == segment.segment_value.len()
    &&& forall|i: int|
        0 <= i < segment.segment_value.len() ==> (#[trigger] segment.segment_value[i]).0 < 0x1_0000
}

/// A path segment is read back as what it is: its kind, its count and its systems in order,
/// where the attribute is as long as the segment. With any other length it is refused.
pub proof fn law_segment_is_read_back(segment: AsPathSegmentView, attr_len: u16, behind: Seq<u8>)
    requires
        segment_ok(segment),
    ensures
        ({
            let p = segment_parse(attr_len, enc_segment(segment) + behind);
            if attr_len == enc_segment(segment).len() {
                p == value(segment, enc_segment(segment).len())
            } else {
                p.out == Outcome::<AsPathSegmentView>::Refused(
                    update_fault(UpdateMsgErrorSubcode::MalformedAsPath),
                )
            }
        }),
{
    let s = enc_segment(segment) + behind;
    let numbers = segment.segment_value;
    let n = segment.segment_length;
    assert(s[0] == enc_segment_type(segment.segment_type));
    assert(s[1] == n);
    assert forall|i: int| 0 <= i < n implies #[trigger] be16(s, 2 + 2 * i) == numbers[i].0 by {
        assert(s[2 + 2 * i] == enc_numbers(numbers)[2 * i]);
        assert(s[2 + 2 * i + 1] == enc_numbers(numbers)[2 * i + 1]);
        assert(numbers[i].0 < 0x1_0000);
        assert((2 * i) / 2 == i && (2 * i + 1) / 2 == i);
        let k = numbers[i].0 as u16;
        lemma_be16(s, 2 + 2 * i, k);
    }
    assert(Seq::new(n as nat, |i: int| AsNum(be16(s, 2 + 2 * i) as u32)) =~= numbers);
}

/// What the flags of an attribute are as a byte, with any four low bits.
pub open spec fn enc_flags(flags: PathAttributeFlags, low: u8) -> u8 {
    ((if flags.optional {
        128int
    } else {
        0
    }) + (if flags.transitive {
        64int
    } else {
        0
    }) + (if flags.partial {
        32int
    } else {
        0
    }) + (if flags.extended_length {
        16int
    } else {
        0
    }) + low) as u8
}

/// The flags are read back, whatever the four low bits are.
pub proof fn law_flags_are_read_back(flags: PathAttributeFlags, low: u8)
    requires
        low < 16,
    ensures
        flags_of(enc_flags(flags, low)) == flags,
{
    let b = enc_flags(flags, low);
    assert((b & 0x80 != 0) == (b / 128 % 2 == 1)) by (bit_vector);
    assert((b & 0x40 != 0) == (b / 64 % 2 == 1)) by (bit_vector);
    assert((b & 0x20 != 0) == (b / 32 % 2 == 1)) by (bit_vector);
    assert((b & 0x10 != 0) == (b / 16 % 2 == 1)) by (bit_vector);
}

/// The bytes of an address of the fourth version.
pub open spec fn enc_ipv4(addr: Ipv4Addr) -> Seq<u8> {
    addr.octets@
}

/// The bytes of the number and of the address of an aggregator.
pub open spec fn enc_aggregator(four_octets: bool, a: Aggregator) -> Seq<u8> {
    (if four_octets {
        enc32(a.as_num)
    } else {
        enc16(a.as_num as u16)
    }) + enc_ipv4(a.ip_addr)
}

/// The code that stands for a kind of value. Values that are not known have any other.
pub open spec fn code_fits(code: u8, v: PathAttributeValueView) -> bool {
    match v {
        PathAttributeValueView::Origin(_) => code == 1,
        PathAttributeValueView::AsPath(_) => code == 2,
        PathAttributeValueView::NextHop(_) => code == 3,
        PathAttributeValueView::MultiExitDisc(_) => code == 4,
        PathAttributeValueView::LocalPref(_) => code == 5,
        PathAttributeValueView::AtomicAggregate(_) => code == 6,
        PathAttributeValueView::Aggregator(_) => code == 7,
        PathAttributeValueView::Unknown(_) => code == 0 || code > 7,
    }
}

/// The bytes of a value.
pub open spec fn enc_attr_value(four_octets: bool, v: PathAttributeValueView) -> Seq<u8> {
    match v {
        PathAttributeValueView::Origin(Origin::Igp) => seq![0u8],
        PathAttributeValueView::Origin(Origin::Egp) => seq![1u8],
        PathAttributeValueView::Origin(Origin::Incomplete) => seq![2u8],
        PathAttributeValueView::AsPath(segment) => enc_segment(segment),
        PathAttributeValueView::NextHop(addr) => enc_ipv4(addr),
        PathAttributeValueView::MultiExitDisc(n) => enc32(n),
        PathAttributeValueView::LocalPref(n) => enc32(n),
        PathAttributeValueView::AtomicAggregate(_) => seq![],
        PathAttributeValueView::Aggregator(a) => enc_aggregator(four_octets, a),
        PathAttributeValueView::Unknown(bytes) => bytes,
    }
}

/// Whether a value can be written, in an attribute that gives that length. The length counts
/// only where it says how much there is to read.
pub open spec fn attr_value_ok(
    four_octets: bool,
    attr_len: u16,
    v: PathAttributeValueView,
) -> bool {
    match v {
        PathAttributeValueView::Origin(_) => attr_len == 1,
        PathAttributeValueView::AsPath(segment) => segment_ok(segment) && attr_len == enc_segment(
            segment,
        ).len(),
        PathAttributeValueView::NextHop(_) => attr_len == 4,
        PathAttributeValueView::AtomicAggregate(b) => b,
        PathAttributeValueView::Aggregator(a) => four_octets || a.as_num < 0x1_0000,
        PathAttributeValueView::Unknown(bytes) => attr_len == bytes.len(),
        _ => true,
    }
}

proof fn lemma_ipv4(addr: Ipv4Addr, s: Seq<u8>)
    requires
        s.len() >= 4,
        forall|i: int| 0 <= i < 4 ==> #[trigger] s[i] == addr.octets@[i],
    ensures
        Ipv4Addr::of(s) == addr,
{
    assert(Ipv4Addr::of(s).octets =~= addr.octets);
}

/// The value of an attribute is read back as what it is, by its code.
pub proof fn law_attr_value_is_read_back(
    code: u8,
    attr_len: u16,
    four_octets: bool,
    v: PathAttributeValueView,
    behind: Seq<u8>,
)
    requires
        code_fits(code, v),
        attr_value_ok(four_octets, attr_len, v),
    ensures
        attr_value_parse(code, attr_len, four_octets, enc_attr_value(four_octets, v) + behind)
            == value(v, enc_attr_value(four_octets, v).len()),
{
    let e = enc_attr_value(four_octets, v);
    let s = e + behind;
    match v {
        PathAttributeValueView::Origin(_) => {},
        PathAttributeValueView::AsPath(segment) => {
            law_segment_is_read_back(segment, attr_len, behind);
        },
        PathAttributeValueView::NextHop(addr) => {
            lemma_ipv4(addr, s);
        },
        PathAttributeValueView::MultiExitDisc(n) => {
            lemma_be32(s, 0, n);
        },
        PathAttributeValueView::LocalPref(n) => {
            lemma_be32(s, 0, n);
        },
        PathAttributeValueView::AtomicAggregate(_) => {},
        PathAttributeValueView::Aggregator(a) => {
            if four_octets {
                lemma_be32(s, 0, a.as_num);
                lemma_ipv4(a.ip_addr, s.skip(4));
            } else {
                lemma_be16(s, 0, a.as_num as u16);
                lemma_ipv4(a.ip_addr, s.skip(2));
            }
        },
        PathAttributeValueView::Unknown(bytes) => {
            assert(s.take(attr_len as int) =~= bytes);
        },
    }
}

/// The flags, the code, the length, which has two bytes if the flags say so, and the value.
pub open spec fn enc_attr(four_octets: bool, a: PathAttributeView, low: u8) -> Seq<u8> {
    seq![enc_flags(a.attr_flags, low)].push(a.attr_type_code) + (if a.attr_flags.extended_length {
        enc16(a.attr_len)
    } else {
        seq![a.attr_len as u8]
    }) + enc_attr_value(four_octets, a.attr_value)
}

/// Whether an attribute can be written.
pub open spec fn attr_ok(four_octets: bool, a: PathAttributeView) -> bool {
    &&& a.attr_flags.extended_length || a.attr_len < 256
    &&& code_fits(a.attr_type_code, a.attr_value)
    &&& attr_value_ok(four_octets, a.attr_len, a.attr_value)
}

/// A path attribute is read back as what it is.
pub proof fn law_attr_is_read_back(
    four_octets: bool,
    a: PathAttributeView,
    low: u8,
    behind: Seq<u8>,
)
    requires
        low < 16,
        attr_ok(four_octets, a),
    ensures
        attr_parse(four_octets, enc_attr(four_octets, a, low) + behind) == value(
            a,
            enc_attr(four_octets, a, low).len(),
        ),
{
    let s = enc_attr(four_octets, a, low) + behind;
    let head: int = if a.attr_flags.extended_length {
        4
    } else {
        3
    };
    law_flags_are_read_back(a.attr_flags, low);
    law_attr_value_is_read_back(a.attr_type_code, a.attr_len, four_octets, a.attr_value, behind);
    assert(s[0] == enc_flags(a.attr_flags, low));
    assert(s[1] == a.attr_type_code);
    if a.attr_flags.extended_length {
        lemma_be16(s, 2, a.attr_len);
    } else {
        assert(s[2] == a.attr_len as u8);
    }
    assert(s.skip(head) =~= enc_attr_value(four_octets, a.attr_value) + behind);
}

/// How many bytes hold that many bits.
pub open spec fn octets_for(bits: u8) -> int {
    if bits % 8 == 0 {
        bits as int / 8
    } else {
        bits as int / 8 + 1
    }
}

/// The bytes of an address.
pub open spec fn addr_octets(addr: IpAddr) -> Seq<u8> {
    match addr {
        IpAddr::V4(a) => a.octets@,
        IpAddr::V6(a) => a.octets@,
    }
}

/// The length in bits, and as many bytes of the address as hold them.
pub open spec fn enc_cidr(c: Cidr) -> Seq<u8> {
    seq![c.length] + addr_octets(c.prefix).take(octets_for(c.length))
}

/// Whether a range can be written: its address is of the sixth version iff its bits take more
/// than four bytes, it has no more bits than that address, and the bytes behind them are zero.
pub open spec fn cidr_ok(c: Cidr) -> bool {
    &&& c.length <= 128
    &&& c.prefix is V6 <==> octets_for(c.length) > 4
    &&& forall|i: int|
        octets_for(c.length) <= i < addr_octets(c.prefix).len() ==> #[trigger] addr_octets(
            c.prefix,
        )[i] == 0
}

/// A range of addresses is read back as what it is.
pub proof fn law_cidr_is_read_back(c: Cidr, behind: Seq<u8>)
    requires
        cidr_ok(c),
    ensures
        cidr_parse(enc_cidr(c) + behind) == value(c, enc_cidr(c).len()),
{
    let s = enc_cidr(c) + behind;
    let n = octets_for(c.length);
    assert(s[0] == c.length);
    let bytes = s.subrange(1, 1 + n);
    assert(bytes =~= addr_octets(c.prefix).take(n));
    match c.prefix {
        IpAddr::V4(a) => {
            let full = crate::update::padded(bytes, 4);
            assert forall|i: int| 0 <= i < 4 implies #[trigger] full[i] == a.octets@[i] by {
                assert(addr_octets(c.prefix)[i] == a.octets@[i]);
            }
            lemma_ipv4(a, full);
        },
        IpAddr::V6(a) => {
            let full = crate::update::padded(bytes, 16);
            assert forall|i: int| 0 <= i < 16 implies #[trigger] full[i] == a.octets@[i] by {
                assert(addr_octets(c.prefix)[i] == a.octets@[i]);
            }
            assert(Ipv6Addr::of(full).octets =~= a.octets);
        },
    }
}

/// Ranges of any length are answered: those that have more bits than an address are refused,
/// those whose bytes are missing say so, and all others are read.
pub proof fn law_cidr_refusals(s: Seq<u8>)
    ensures
        ({
            let p = cidr_parse(s);
            let n = octets_for(s[0]);
            &&& s.len() == 0 ==> p.out == Outcome::<Cidr>::Refused(more_needed()) && p.used == 0
            &&& 0 < s.len() <= n ==> p.out == Outcome::<Cidr>::Refused(more_needed()) && p.used
                == 1
            &&& s.len() > n && s[0] > 128 ==> p.out == Outcome::<Cidr>::Refused(
                update_fault(UpdateMsgErrorSubcode::InvalidNetworkField),
            ) && p.used == 1 + n
            &&& s.len() > n && s[0] <= 128 ==> p.out is Value && p.used == 1 + n
        }),
{
}

/// A byte that is kept, and a range of which the address is kept.
pub open spec fn enc_route(route: (u8, Cidr)) -> Seq<u8> {
    seq![route.0] + enc_cidr(route.1)
}

/// A route is read back as its first byte and the address of its range.
pub proof fn law_route_is_read_back(route: (u8, Cidr), behind: Seq<u8>)
    requires
        cidr_ok(route.1),
    ensures
        route_parse(enc_route(route) + behind) == value(
            (route.0, route.1.prefix),
            enc_route(route).len(),
        ),
{
    let s = enc_route(route) + behind;
    assert(s[0] == route.0);
    assert(s.skip(1) =~= enc_cidr(route.1) + behind);
    law_cidr_is_read_back(route.1, behind);
}

/// The bytes of items, one behind the other.
pub open spec fn enc_all<T>(enc: spec_fn(T) -> Seq<u8>, items: Seq<T>) -> Seq<u8>
    decreases items.len(),
{
    if items.len() == 0 {
        seq![]
    } else {
        enc(items[0]) + enc_all(enc, items.skip(1))
    }
}

/// Items are read back one behind the other, if each of them is: `read` says as what.
proof fn lemma_many_back<T, V>(
    enc: spec_fn(T) -> Seq<u8>,
    read: spec_fn(T) -> V,
    one: spec_fn(Seq<u8>) -> Parse<V>,
    items: Seq<T>,
)
    requires
        forall|i: int, t: Seq<u8>|
            0 <= i < items.len() ==> #[trigger] one(enc(items[i]) + t) == value(
                read(items[i]),
                enc(items[i]).len(),
            ) && enc(items[i]).len() > 0,
    ensures
        many(one, enc_all(enc, items)) == value(items.map_values(read), enc_all(enc, items).len()),
    decreases items.len(),
{
    let all = enc_all(enc, items);
    if items.len() > 0 {
        let rest = items.skip(1);
        let e = enc(items[0]);
        assert forall|i: int, t: Seq<u8>| 0 <= i < rest.len() implies #[trigger] one(
            enc(rest[i]) + t,
        ) == value(read(rest[i]), enc(rest[i]).len()) && enc(rest[i]).len() > 0 by {
            assert(rest[i] == items[i + 1]);
            assert(one(enc(items[i + 1]) + t) == value(
                read(items[i + 1]),
                enc(items[i + 1]).len(),
            ));
        }
        lemma_many_back(enc, read, one, rest);
        assert(one(e + enc_all(enc, rest)) == value(read(items[0]), e.len()));
        assert(all.skip(e.len() as int) =~= enc_all(enc, rest));
        assert(seq![read(items[0])] + rest.map_values(read) =~= items.map_values(read));
    } else {
        assert(items.map_values(read) =~= Seq::empty());
    }
}

/// As for items up to the end, for as many items as are asked for.
proof fn lemma_times_back<T, V>(
    enc: spec_fn(T) -> Seq<u8>,
    read: spec_fn(T) -> V,
    one: spec_fn(Seq<u8>) -> Parse<V>,
    items: Seq<T>,
    behind: Seq<u8>,
)
    requires
        forall|i: int, t: Seq<u8>|
            0 <= i < items.len() ==> #[trigger] one(enc(items[i]) + t) == value(
                read(items[i]),
                enc(items[i]).len(),
            ),
    ensures
        times(one, items.len(), enc_all(enc, items) + behind) == value(
            items.map_values(read),
            enc_all(enc, items).len(),
        ),
    decreases items.len(),
{
    let all = enc_all(enc, items) + behind;
    if items.len() > 0 {
        let rest = items.skip(1);
        let e = enc(items[0]);
        assert forall|i: int, t: Seq<u8>| 0 <= i < rest.len() implies #[trigger] one(
            enc(rest[i]) + t,
        ) == value(read(rest[i]), enc(rest[i]).len()) by {
            assert(rest[i] == items[i + 1]);
            assert(one(enc(items[i + 1]) + t) == value(
                read(items[i + 1]),
                enc(items[i + 1]).len(),
            ));
        }
        lemma_times_back(enc, read, one, rest, behind);
        assert(all =~= e + (enc_all(enc, rest) + behind));
        assert(one(e + (enc_all(enc, rest) + behind)) == value(read(items[0]), e.len()));
        assert(all.skip(e.len() as int) =~= enc_all(enc, rest) + behind);
        assert(seq![read(items[0])] + rest.map_values(read) =~= items.map_values(read));
    } else {
        assert(items.map_values(read) =~= Seq::empty());
    }
}

/// The withdrawn ranges behind their length in bytes, the path attributes behind theirs, and
/// the routes.
pub open spec fn enc_update(
    four_octets: bool,
    withdrawn: Seq<Cidr>,
    attrs: Seq<PathAttributeView>,
    routes: Seq<(u8, Cidr)>,
) -> Seq<u8> {
    let w = enc_all(|c: Cidr| enc_cidr(c), withdrawn);
    let a = enc_all(|a: PathAttributeView| enc_attr(four_octets, a, 0), attrs);
    enc16(w.len() as u16) + w + enc16(a.len() as u16) + a + enc_all(
        |r: (u8, Cidr)| enc_route(r),
        routes,
    )
}

/// An UPDATE is read back as what it is: its withdrawn ranges, its path attributes and its
/// routes, each in order.
pub proof fn law_update_is_read_back(
    four_octets: bool,
    withdrawn: Seq<Cidr>,
    attrs: Seq<PathAttributeView>,
    routes: Seq<(u8, Cidr)>,
)
    requires
        forall|i: int| 0 <= i < withdrawn.len() ==> cidr_ok(#[trigger] withdrawn[i]),
        forall|i: int| 0 <= i < attrs.len() ==> attr_ok(four_octets, #[trigger] attrs[i]),
        forall|i: int| 0 <= i < routes.len() ==> cidr_ok((#[trigger] routes[i]).1),
        enc_all(|c: Cidr| enc_cidr(c), withdrawn).len() <= u16::MAX,
        enc_all(|a: PathAttributeView| enc_attr(four_octets, a, 0), attrs).len() <= u16::MAX,
    ensures
        ({
            let e = enc_update(four_octets, withdrawn, attrs, routes);
            update_parse(four_octets, e) == value(
                UpdateMsgView {
                    withdrawn_routes: withdrawn,
                    path_attributes: attrs,
                    nlri: routes.map_values(|r: (u8, Cidr)| (r.0, r.1.prefix)),
                },
                e.len(),
            )
        }),
{
    lemma_withdrawn_back(withdrawn);
    lemma_attrs_back(four_octets, attrs);
    lemma_routes_back(routes);
    let w = enc_all(|c: Cidr| enc_cidr(c), withdrawn);
    let a = enc_all(|a: PathAttributeView| enc_attr(four_octets, a, 0), attrs);
    let r = enc_all(|r: (u8, Cidr)| enc_route(r), routes);
    let s = enc_update(four_octets, withdrawn, attrs, routes);
    lemma_update_parts(s, w, a, r);
}

/// Where the parts of an UPDATE stand.
proof fn lemma_update_parts(s: Seq<u8>, w: Seq<u8>, a: Seq<u8>, r: Seq<u8>)
    requires
        w.len() <= u16::MAX,
        a.len() <= u16::MAX,
        s == enc16(w.len() as u16) + w + enc16(a.len() as u16) + a + r,
    ensures
        s.len() == 4 + w.len() + a.len() + r.len(),
        be16(s, 0) == w.len(),
        s.subrange(2, 2 + w.len() as int) == w,
        be16(s, 2 + w.len() as int) == a.len(),
        s.subrange(4 + w.len() as int, 4 + w.len() as int + a.len() as int) == a,
        s.skip(4 + w.len() as int + a.len() as int) == r,
{
    let m = 2 + w.len() as int;
    let n = m + 2 + a.len() as int;
    lemma_be16(s, 0, w.len() as u16);
    assert(s.subrange(2, m) =~= w);
    assert(s[m] == enc16(a.len() as u16)[0]);
    assert(s[m + 1] == enc16(a.len() as u16)[1]);
    lemma_be16(s, m, a.len() as u16);
    assert(s.subrange(m + 2, n) =~= a);
    assert(s.skip(n) =~= r);
}

proof fn lemma_withdrawn_back(withdrawn: Seq<Cidr>)
    requires
        forall|i: int| 0 <= i < withdrawn.len() ==> cidr_ok(#[trigger] withdrawn[i]),
    ensures
        ({
            let w = enc_all(|c: Cidr| enc_cidr(c), withdrawn);
            many(cidr_parser(), w) == value(withdrawn, w.len())
        }),
{
    let enc = |c: Cidr| enc_cidr(c);
    let read = |c: Cidr| c;
    let one = cidr_parser();
    assert forall|i: int, t: Seq<u8>| 0 <= i < withdrawn.len() implies #[trigger] one(
        enc(withdrawn[i]) + t,
    ) == value(read(withdrawn[i]), enc(withdrawn[i]).len()) && enc(withdrawn[i]).len() > 0 by {
        law_cidr_is_read_back(withdrawn[i], t);
    }
    lemma_many_back(enc, read, one, withdrawn);
    assert(withdrawn.map_values(read) =~= withdrawn);
}

proof fn lemma_attrs_back(four_octets: bool, attrs: Seq<PathAttributeView>)
    requires
        forall|i: int| 0 <= i < attrs.len() ==> attr_ok(four_octets, #[trigger] attrs[i]),
    ensures
        ({
            let a = enc_all(|a: PathAttributeView| enc_attr(four_octets, a, 0), attrs);
            many(attr_parser(four_octets), a) == value(attrs, a.len())
        }),
{
    let enc = |a: PathAttributeView| enc_attr(four_octets, a, 0);
    let read = |a: PathAttributeView| a;
    let one = attr_parser(four_octets);
    assert forall|i: int, t: Seq<u8>| 0 <= i < attrs.len() implies #[trigger] one(
        enc(attrs[i]) + t,
    ) == value(read(attrs[i]), enc(attrs[i]).len()) && enc(attrs[i]).len() > 0 by {
        law_attr_is_read_back(four_octets, attrs[i], 0, t);
    }
    lemma_many_back(enc, read, one, attrs);
    assert(attrs.map_values(read) =~= attrs);
}

proof fn lemma_routes_back(routes: Seq<(u8, Cidr)>)
    requires
        forall|i: int| 0 <= i < routes.len() ==> cidr_ok((#[trigger] routes[i]).1),
    ensures
        ({
            let r = enc_all(|r: (u8, Cidr)| enc_route(r), routes);
            many(route_parser(), r) == value(
                routes.map_values(|r: (u8, Cidr)| (r.0, r.1.prefix)),
                r.len(),
            )
        }),
{
    let enc = |r: (u8, Cidr)| enc_route(r);
    let read = |r: (u8, Cidr)| (r.0, r.1.prefix);
    let one = route_parser();
    assert forall|i: int, t: Seq<u8>| 0 <= i < routes.len() implies #[trigger] one(
        enc(routes[i]) + t,
    ) == value(read(routes[i]), enc(routes[i]).len()) && enc(routes[i]).len() > 0 by {
        law_route_is_read_back(routes[i], t);
    }
    lemma_many_back(enc, read, one, routes);
}

/// The value of an attribute is refused where its length does not fit its code, where it says
/// what it cannot say, and where its bytes are missing; and nowhere else.
pub proof fn law_attr_value_refusals(code: u8, attr_len: u16, four_octets: bool, s: Seq<u8>)
    ensures
        ({
            let p = attr_value_parse(code, attr_len, four_octets, s);
            let short = |used: int|
                p.out == Outcome::<PathAttributeValueView>::Refused(more_needed()) && p.used
                    == used;
            let bad = |subcode: UpdateMsgErrorSubcode, used: int|
                p.out == Outcome::<PathAttributeValueView>::Refused(update_fault(subcode))
                    && p.used == used;
            let size: int = if code == 7 && four_octets {
                8
            } else if code == 7 {
                6
            } else {
                4
            };
            if code == 1 {
                if attr_len != 1 {
                    bad(UpdateMsgErrorSubcode::AttributeLengthError, 0)
                } else if s.len() == 0 {
                    short(0)
                } else if s[0] > 2 {
                    bad(UpdateMsgErrorSubcode::InvalidOriginAttribute, 1)
                } else {
                    p.out is Value
                }
            } else if code == 2 {
                if s.len() == 0 {
                    short(0)
                } else if s[0] == 0 || s[0] > 2 {
                    bad(UpdateMsgErrorSubcode::MalformedAsPath, 1)
                } else if s.len() == 1 {
                    short(1)
                } else if attr_len != 2 + 2 * s[1] {
                    bad(UpdateMsgErrorSubcode::MalformedAsPath, 2)
                } else if s.len() < attr_len {
                    short(s.len() - s.len() % 2)
                } else {
                    p.out is Value
                }
            } else if code == 3 && attr_len != 4 {
                bad(UpdateMsgErrorSubcode::AttributeLengthError, 0)
            } else if code == 3 || code == 4 || code == 5 || code == 7 {
                if s.len() < size - 4 {
                    short(0)
                } else if s.len() < size {
                    short(size - 4)
                } else {
                    p.out is Value
                }
            } else if code == 6 {
                p.out is Value
            } else if s.len() < attr_len {
                short(0)
            } else {
                p.out is Value
            }
        }),
{
}

/// An attribute is refused where its value is, and where its head is cut off.
pub proof fn law_attr_refusals(four_octets: bool, s: Seq<u8>)
    ensures
        ({
            let p = attr_parse(four_octets, s);
            let long = s[0] / 16 % 2 == 1;
            let head: int = if long {
                4
            } else {
                3
            };
            let attr_len = if long {
                (s[2] * 256 + s[3]) as u16
            } else {
                s[2] as u16
            };
            let v = attr_value_parse(s[1], attr_len, four_octets, s.skip(head));
            if s.len() < head {
                &&& p.out == Outcome::<PathAttributeView>::Refused(more_needed())
                &&& p.used == if s.len() < 2 {
                    s.len()
                } else {
                    2
                }
            } else {
                &&& p.used == head + v.used
                &&& v.out matches Outcome::Refused(e) ==> p.out == Outcome::<
                    PathAttributeView,
                >::Refused(e)
                &&& v.out is Value ==> p.out is Value
            }
        }),
{
    let b = s[0];
    assert((b & 0x10 != 0) == (b / 16 % 2 == 1)) by (bit_vector);
}

/// A list is refused for the first of its items that is, with what was read before it and
/// with its fault passed. A list of nothing is read as such.
pub proof fn law_first_fault_decides<V>(
    one: spec_fn(Seq<u8>) -> Parse<V>,
    s: Seq<u8>,
    n: nat,
)
    ensures
        s.len() == 0 ==> many(one, s) == value(Seq::<V>::empty(), 0),
        times(one, 0, s) == value(Seq::<V>::empty(), 0),
        s.len() > 0 && one(s).out is Refused ==> {
            &&& many(one, s).out == Outcome::<Seq<V>>::Refused(one(s).out->Refused_0)
            &&& many(one, s).used == one(s).used
        },
        n > 0 && one(s).out is Refused ==> {
            &&& times(one, n, s).out == Outcome::<Seq<V>>::Refused(one(s).out->Refused_0)
            &&& times(one, n, s).used == one(s).used
        },
        s.len() > 0 && one(s).out is Value && 0 < one(s).used <= s.len() ==> {
            let rest = many(one, s.skip(one(s).used as int));
            &&& rest.out matches Outcome::Refused(e) ==> many(one, s).out == Outcome::<
                Seq<V>,
            >::Refused(e)
            &&& many(one, s).used == one(s).used + rest.used
        },
        n > 0 && one(s).out is Value ==> {
            let rest = times(one, (n - 1) as nat, s.skip(one(s).used as int));
            &&& rest.out matches Outcome::Refused(e) ==> times(one, n, s).out == Outcome::<
                Seq<V>,
            >::Refused(e)
            &&& times(one, n, s).used == one(s).used + rest.used
        },
{
}

/// An UPDATE is refused for the first of its three parts that is, and where a part is cut
/// off. What is passed then ends with the part, for the last one with its fault.
pub proof fn law_update_refusals(four_octets: bool, s: Seq<u8>)
    ensures
        ({
            let p = update_parse(four_octets, s);
            let m = 2 + s[0] * 256 + s[1];
            let n = m + 2 + s[m] * 256 + s[m + 1];
            let w = many(cidr_parser(), s.subrange(2, m));
            let a = many(attr_parser(four_octets), s.subrange(m + 2, n));
            let r = many(route_parser(), s.skip(n));
            let short = |used: int|
                p.out == Outcome::<UpdateMsgView>::Refused(more_needed()) && p.used == used;
            let bad = |e: Error, used: int|
                p.out == Outcome::<UpdateMsgView>::Refused(e) && p.used == used;
            if s.len() < 2 {
                short(0)
            } else if s.len() < m {
                short(2)
            } else if w.out is Refused {
                bad(w.out->Refused_0, m)
            } else if s.len() < m + 2 {
                short(m)
            } else if s.len() < n {
                short(m + 2)
            } else if a.out is Refused {
                bad(a.out->Refused_0, n)
            } else if r.out is Refused {
                bad(r.out->Refused_0, n + r.used)
            } else {
                p.out is Value
            }
        }),
{
}

/// The type of a parameter, its length, and its value. The second part of `param` is what
/// stands in the reserved byte of an address family.
pub open spec fn enc_param(ext: bool, param: (OptParam, u8)) -> Seq<u8> {
    let length = if ext {
        enc16(4)
    } else {
        seq![4u8]
    };
    match param.0 {
        OptParam::MpExt(cap) => seq![1u8] + length + enc16(cap.afi).push(param.1).push(cap.safi),
        OptParam::FourOctetAs(cap) => seq![63u8] + length + enc32(cap.as_num),
    }
}

/// An optional parameter is read back as what it is.
pub proof fn law_param_is_read_back(ext: bool, param: (OptParam, u8), behind: Seq<u8>)
    ensures
        crate::open::opt_param_parse(ext, enc_param(ext, param) + behind) == value(
            param.0,
            enc_param(ext, param).len(),
        ),
{
    let s = enc_param(ext, param) + behind;
    let head: int = if ext {
        3
    } else {
        2
    };
    if ext {
        lemma_be16(s, 1, 4);
    }
    let body = s.skip(head);
    match param.0 {
        OptParam::MpExt(cap) => {
            assert(body[0] == enc16(cap.afi)[0] && body[1] == enc16(cap.afi)[1]);
            assert(body[3] == cap.safi);
            lemma_be16(body, 0, cap.afi);
        },
        OptParam::FourOctetAs(cap) => {
            assert(forall|i: int| 0 <= i < 4 ==> #[trigger] body[i] == enc32(cap.as_num)[i]);
            lemma_be32(body, 0, cap.as_num);
        },
    }
}

/// An optional parameter of another type is refused, and so is one of another length.
pub proof fn law_param_refusals(ext: bool, s: Seq<u8>)
    ensures
        ({
            let p = crate::open::opt_param_parse(ext, s);
            let head: int = if ext {
                3
            } else {
                2
            };
            let length = if ext {
                s[1] * 256 + s[2]
            } else {
                s[1] as int
            };
            let short = |used: int|
                p.out == Outcome::<OptParam>::Refused(more_needed()) && p.used == used;
            let bad = |subcode: OpenMsgErrorSubcode|
                p.out == Outcome::<OptParam>::Refused(open_fault(subcode)) && p.used == head;
            if s.len() == 0 {
                short(0)
            } else if s.len() < head {
                short(1)
            } else if s[0] != 1 && s[0] != 63 {
                bad(OpenMsgErrorSubcode::UnsupportedOptionalParameter)
            } else if length != 4 {
                bad(OpenMsgErrorSubcode::UnSupportedCapability)
            } else if s.len() < head + 4 {
                short(
                    if s[0] == 63 || s.len() < head + 2 {
                        head
                    } else {
                        s.len() as int
                    },
                )
            } else {
                p.out is Value
            }
        }),
{
}

/// The address families that parameters name, in order.
pub open spec fn families(params: Seq<OptParam>) -> Seq<MpExtCap>
    decreases params.len(),
{
    if params.len() == 0 {
        seq![]
    } else {
        match params[0] {
            OptParam::MpExt(cap) => seq![cap] + families(params.skip(1)),
            OptParam::FourOctetAs(_) => families(params.skip(1)),
        }
    }
}

proof fn lemma_families_push(params: Seq<OptParam>, param: OptParam)
    ensures
        families(params.push(param)) == match param {
            OptParam::MpExt(cap) => families(params).push(cap),
            OptParam::FourOctetAs(_) => families(params),
        },
    decreases params.len(),
{
    reveal_with_fuel(families, 2);
    let all = params.push(param);
    if params.len() > 0 {
        assert(all.skip(1) =~= params.skip(1).push(param));
        assert(all[0] == params[0]);
        lemma_families_push(params.skip(1), param);
        match (params[0], param) {
            (OptParam::MpExt(first), OptParam::MpExt(cap)) => {
                assert(seq![first] + families(params.skip(1)).push(cap) =~= (seq![first]
                    + families(params.skip(1))).push(cap));
            },
            _ => {},
        }
    } else {
        assert(all.skip(1) =~= Seq::empty());
        match param {
            OptParam::MpExt(cap) => {
                assert(families(all) =~= families(params).push(cap));
            },
            _ => {},
        }
    }
}

/// Parameters say together all the address families that they name, in order, and the last
/// of their system numbers.
pub proof fn law_params_are_gathered(params: Seq<OptParam>)
    ensures
        ({
            let g = gathered(params);
            &&& families(params).len() == 0 ==> g.mp_ext_caps is None
            &&& families(params).len() > 0 ==> g.mp_ext_caps == Some(families(params))
            &&& g.four_octet_as_cap is None <==> forall|i: int|
                0 <= i < params.len() ==> (#[trigger] params[i]) is MpExt
            &&& g.four_octet_as_cap matches Some(cap) ==> exists|i: int|
                {
                    &&& 0 <= i < params.len()
                    &&& #[trigger] params[i] == OptParam::FourOctetAs(cap)
                    &&& forall|j: int| i < j < params.len() ==> (#[trigger] params[j]) is MpExt
                }
        }),
    decreases params.len(),
{
    if params.len() > 0 {
        let before = params.drop_last();
        let last = params.last();
        law_params_are_gathered(before);
        lemma_families_push(before, last);
        assert(before.push(last) =~= params);
        assert(forall|i: int| 0 <= i < before.len() ==> #[trigger] before[i] == params[i]);
        assert(params[params.len() - 1] == last);
        match last {
            OptParam::MpExt(cap) => {
                if families(before).len() == 0 {
                    assert(families(before).push(cap) =~= seq![cap]);
                }
                match gathered(before).four_octet_as_cap {
                    Some(c) => {
                        let i = choose|i: int|
                            {
                                &&& 0 <= i < before.len()
                                &&& #[trigger] before[i] == OptParam::FourOctetAs(c)
                                &&& forall|j: int|
                                    i < j < before.len() ==> (#[trigger] before[j]) is MpExt
                            };
                        assert(params[i] == OptParam::FourOctetAs(c));
                        assert forall|j: int| i < j < params.len() implies (
                        #[trigger] params[j]) is MpExt by {
                            if j < before.len() {
                                assert(before[j] is MpExt);
                            }
                        }
                    },
                    None => {
                        assert forall|i: int| 0 <= i < params.len() implies (
                        #[trigger] params[i]) is MpExt by {
                            if i < before.len() {
                                assert(before[i] is MpExt);
                            }
                        }
                    },
                }
            },
            OptParam::FourOctetAs(_) => {},
        }
    }
}

/// An OPEN, with anything in its padding. `ext` says that the lengths of its parameters have
/// two bytes; `unused` is what stands where the count of the other form would.
pub open spec fn enc_open(
    as_number: u16,
    hold_time: u16,
    identifier: u32,
    ext: bool,
    unused: (u8, u8, u16),
    params: Seq<(OptParam, u8)>,
    padding: (u8, u8, u8, u8, u8, u8, u8),
) -> Seq<u8> {
    seq![4u8].push(padding.0).push(padding.1).push(padding.2) + enc16(as_number).push(
        padding.3,
    ).push(padding.4) + enc16(hold_time).push(padding.5).push(padding.6) + enc32(identifier) + (
    if ext {
        seq![unused.0].push(255u8) + enc16(params.len() as u16)
    } else {
        seq![params.len() as u8].push(unused.1) + enc16(unused.2)
    }) + enc_all(|p: (OptParam, u8)| enc_param(ext, p), params)
}

/// An OPEN is read back as what it is, whatever stands in its padding.
pub proof fn law_open_is_read_back(
    as_number: u16,
    hold_time: u16,
    identifier: u32,
    ext: bool,
    unused: (u8, u8, u16),
    params: Seq<(OptParam, u8)>,
    padding: (u8, u8, u8, u8, u8, u8, u8),
    behind: Seq<u8>,
)
    requires
        hold_time == 0 || hold_time >= 3,
        identifier != 0,
        identifier != u32::MAX,
        params.len() <= if ext {
            65535int
        } else {
            255
        },
        !ext ==> unused.1 != 255,
    ensures
        ({
            let e = enc_open(as_number, hold_time, identifier, ext, unused, params, padding);
            open_parse(e + behind) == value(
                OpenMsgView {
                    version: 4,
                    as_number,
                    hold_time,
                    bgp_identifier: identifier,
                    ext_opt_param: ext,
                    opt_params_len: params.len() as u16,
                    opt_params: gathered(params.map_values(|p: (OptParam, u8)| p.0)),
                },
                e.len(),
            )
        }),
{
    let e = enc_open(as_number, hold_time, identifier, ext, unused, params, padding);
    let s = e + behind;
    let enc = |p: (OptParam, u8)| enc_param(ext, p);
    let read = |p: (OptParam, u8)| p.0;
    let one = opt_param_parser(ext);
    assert forall|i: int, t: Seq<u8>| 0 <= i < params.len() implies #[trigger] one(
        enc(params[i]) + t,
    ) == value(read(params[i]), enc(params[i]).len()) by {
        law_param_is_read_back(ext, params[i], t);
    }
    lemma_times_back(enc, read, one, params, behind);
    assert(s[0] == 4);
    assert(s[4] == enc16(as_number)[0] && s[5] == enc16(as_number)[1]);
    lemma_be16(s, 4, as_number);
    assert(s[8] == enc16(hold_time)[0] && s[9] == enc16(hold_time)[1]);
    lemma_be16(s, 8, hold_time);
    assert(s[12] == enc32(identifier)[0] && s[13] == enc32(identifier)[1] && s[14] == enc32(
        identifier,
    )[2] && s[15] == enc32(identifier)[3]);
    lemma_be32(s, 12, identifier);
    if ext {
        assert(s[17] == 255);
        assert(s[18] == enc16(params.len() as u16)[0] && s[19] == enc16(params.len() as u16)[1]);
        lemma_be16(s, 18, params.len() as u16);
    } else {
        assert(s[16] == params.len() as u8);
        assert(s[17] == unused.1);
    }
    assert(s.skip(20) =~= enc_all(enc, params) + behind);
}

/// An OPEN is refused for the first thing that is wrong with it, in the order of its fields,
/// for its parameters last, and where its bytes are missing.
pub proof fn law_open_refusals(s: Seq<u8>)
    ensures
        ({
            let p = open_parse(s);
            let hold_time = s[8] * 256 + s[9];
            let ext = s[17] == 255;
            let count = if ext {
                s[18] * 256 + s[19]
            } else {
                s[16] as int
            };
            let params = times(opt_param_parser(ext), count as nat, s.skip(20));
            let short = |used: int|
                p.out == Outcome::<OpenMsgView>::Refused(more_needed()) && p.used == used;
            let bad = |subcode: OpenMsgErrorSubcode, used: int|
                p.out == Outcome::<OpenMsgView>::Refused(open_fault(subcode)) && p.used == used;
            let zeros = s[12] == 0 && s[13] == 0 && s[14] == 0 && s[15] == 0;
            let ones = s[12] == 255 && s[13] == 255 && s[14] == 255 && s[15] == 255;
            if s.len() == 0 {
                short(0)
            } else if s[0] != 4 {
                bad(OpenMsgErrorSubcode::UnsupportedVersionNumber, 1)
            } else if s.len() < 10 {
                short(
                    if s.len() < 4 {
                        1
                    } else {
                        s.len() - s.len() % 2
                    },
                )
            } else if hold_time == 1 || hold_time == 2 {
                bad(OpenMsgErrorSubcode::UnacceptableHoldTime, 10)
            } else if s.len() < 16 {
                short(
                    if s.len() < 12 {
                        10
                    } else {
                        12
                    },
                )
            } else if zeros || ones {
                bad(OpenMsgErrorSubcode::BadBgpIdentifier, 16)
            } else if s.len() < 20 {
                short(
                    if s.len() < 18 {
                        s.len() as int
                    } else {
                        18
                    },
                )
            } else {
                &&& p.used == 20 + params.used
                &&& params.out matches Outcome::Refused(e) ==> p.out == Outcome::<
                    OpenMsgView,
                >::Refused(e)
                &&& params.out is Value ==> p.out is Value
            }
        }),
{
}

/// The marker, the length of the whole message, its kind, and its body.
pub open spec fn enc_message(kind: u8, body: Seq<u8>) -> Seq<u8> {
    Seq::new(16, |i: int| 1u8) + enc16((19 + body.len()) as u16).push(kind) + body
}

/// A header is accepted iff its marker is all ones, its kind is one of the four, and its
/// length fits the kind. It is refused for the first of these that is wrong.
pub proof fn law_header(s: Seq<u8>)
    ensures
        ({
            let p = header_parse(s);
            let length = s[16] * 256 + s[17];
            let kind = s[18];
            let marked = forall|i: int| 0 <= i < 16 ==> #[trigger] s[i] == 1;
            let short = |used: int|
                p.out == Outcome::<MessageHeader>::Refused(more_needed()) && p.used == used;
            let bad = |subcode: MsgHeaderErrorSubcode, used: int|
                p.out == Outcome::<MessageHeader>::Refused(header_fault(subcode)) && p.used
                    == used;
            if s.len() < 16 {
                short(0)
            } else if !marked {
                bad(MsgHeaderErrorSubcode::ConnectionNotSync, 16)
            } else if s.len() < 19 {
                short(
                    if s.len() < 18 {
                        16
                    } else {
                        18
                    },
                )
            } else if kind == 0 || kind > 4 {
                bad(MsgHeaderErrorSubcode::BadMessageType, 19)
            } else if (kind == 1 && length < 29) || (kind == 2 && length < 23) || (kind == 3
                && length < 21) || (kind == 4 && length != 19) {
                bad(MsgHeaderErrorSubcode::BadMessageLength, 19)
            } else {
                &&& p.used == 19
                &&& p.out matches Outcome::Value(header)
                &&& header.length == length
                &&& header.msg_type is Open <==> kind == 1
                &&& header.msg_type is Update <==> kind == 2
                &&& header.msg_type is Notification <==> kind == 3
                &&& header.msg_type is Keepalive <==> kind == 4
            }
        }),
{
}

/// A message whose length fits its kind is read as its body is: an OPEN, an UPDATE of a peer
/// whose OPEN is known, a NOTIFICATION of two numbers and data, and a KEEPALIVE. It takes its
/// header and what its body takes.
pub proof fn law_message_is_read_back(
    kind: u8,
    peer: Option<bool>,
    body: Seq<u8>,
    behind: Seq<u8>,
)
    requires
        19 + body.len() <= u16::MAX,
        kind == 1 && body.len() >= 10 || kind == 2 && body.len() >= 4 || kind == 3 && body.len()
            >= 2 || kind == 4 && body.len() == 0,
    ensures
        ({
            let p = message_parse(peer, enc_message(kind, body) + behind);
            let bad = |e: Error|
                p.out == Outcome::<MessageView>::Refused(e) && p.used == 0;
            if kind == 1 {
                match open_parse(body).out {
                    Outcome::Value(open) => p == value(
                        MessageView::Open(open),
                        19 + open_parse(body).used,
                    ),
                    Outcome::Refused(e) => bad(e),
                }
            } else if kind == 2 {
                match peer {
                    Some(four) => match update_parse(four, body).out {
                        Outcome::Value(update) => p == value(
                            MessageView::Update(update),
                            19 + body.len(),
                        ),
                        Outcome::Refused(e) => bad(e),
                    },
                    None => bad(header_fault(MsgHeaderErrorSubcode::ConnectionNotSync)),
                }
            } else if kind == 3 {
                p == value(
                    MessageView::Notification(
                        NotificationMsgView {
                            error_code: body[0],
                            error_subcode: body[1],
                            data: Some(body.skip(2)),
                        },
                    ),
                    19 + body.len(),
                )
            } else {
                p == value(MessageView::Keepalive(KeepaliveMsg {  }), 19)
            }
        }),
{
    let e = enc_message(kind, body);
    let s = e + behind;
    let length = (19 + body.len()) as u16;
    assert(forall|i: int| 0 <= i < 16 ==> #[trigger] s[i] == 1);
    assert(s[16] == enc16(length)[0] && s[17] == enc16(length)[1]);
    lemma_be16(s, 16, length);
    assert(s[18] == kind);
    assert(s.subrange(19, length as int) =~= body);
    match peer {
        Some(four) => lemma_update_fits(four, body),
        None => {},
    }
}

} // verus!
