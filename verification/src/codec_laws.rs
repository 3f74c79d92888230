//! What holds of every message that is read.
use crate::error::{
    too_short, update_error, Error, ErrorCode, ErrorSubCode, UpdateMsgErrorSubcode,
};
use crate::message::{
    header_parse, lemma_body_fits, marked, message_parse, notification_of, notification_parse,
    MessageView, MsgType, MARKER_LEN, MARKER_OCTET, MIN_MSG_LEN,
};
use crate::open::{lemma_open_fits, open_parse, opt_param_parser};
use crate::update::{
    attr_parser, cidr_parse, cidr_parser, lemma_update_fits, prefix_octets, route_parser,
    update_parse, AsNum, Cidr, AS_TRANS,
};
use crate::wire::{be16, many, times, Outcome, Parse};
use vstd::prelude::*;

verus! {

/// Whether an error carries no data and says that more bytes are needed or that the
/// fault is of that kind.
pub open spec fn is_fault(e: Error, code: ErrorCode) -> bool {
    e == too_short() || (e.code == code && e.data is None)
}

/// Whether a parse that is refused is refused for a fault of that kind.
pub open spec fn faults<V>(p: Parse<V>, code: ErrorCode) -> bool {
    p.out matches Outcome::Refused(e) ==> is_fault(e, code)
}

proof fn lemma_times_faults<V>(
    one: spec_fn(Seq<u8>) -> Parse<V>,
    n: nat,
    s: Seq<u8>,
    code: ErrorCode,
)
    requires
        forall|t: Seq<u8>| faults(#[trigger] one(t), code),
    ensures
        faults(times(one, n, s), code),
    decreases n,
{
    if n > 0 {
        lemma_times_faults(one, (n - 1) as nat, s.skip(one(s).used as int), code);
    }
}

proof fn lemma_many_faults<V>(one: spec_fn(Seq<u8>) -> Parse<V>, s: Seq<u8>, code: ErrorCode)
    requires
        forall|t: Seq<u8>| faults(#[trigger] one(t), code),
    ensures
        faults(many(one, s), code),
    decreases s.len(),
{
    if s.len() > 0 {
        let p = one(s);
        if p.out is Value && 0 < p.used <= s.len() {
            lemma_many_faults(one, s.skip(p.used as int), code);
        }
    }
}

/// An OPEN that is accepted is of version 4, has a hold time of zero or of at least three
/// seconds, and an identifier that is neither all zeros nor all ones. One that is refused
/// is refused as an OPEN.
pub proof fn law_open(s: Seq<u8>)
    ensures
        open_parse(s).out matches Outcome::Value(open) ==> {
            &&& open.version == 4
            &&& open.hold_time == 0 || open.hold_time >= 3
            &&& open.bgp_identifier != 0
            &&& open.bgp_identifier != u32::MAX
        },
        faults(open_parse(s), ErrorCode::OpenMessageError),
        open_parse(s).used <= s.len(),
{
    lemma_open_fits(s);
    let ext = s[17] == 255;
    let count = if ext {
        be16(s, 18)
    } else {
        s[16] as u16
    };
    lemma_times_faults(
        opt_param_parser(ext),
        count as nat,
        s.skip(20),
        ErrorCode::OpenMessageError,
    );
}

/// An UPDATE that is accepted takes all its bytes, and one that is refused is refused as
/// an UPDATE.
pub proof fn law_update(four_octets: bool, s: Seq<u8>)
    ensures
        update_parse(four_octets, s).out is Value ==> update_parse(four_octets, s).used == s.len(),
        faults(update_parse(four_octets, s), ErrorCode::UpdateMessageError),
        update_parse(four_octets, s).used <= s.len(),
{
    lemma_update_fits(four_octets, s);
    let code = ErrorCode::UpdateMessageError;
    let m = 2 + be16(s, 0) as nat;
    let n = m + 2 + be16(s, m as int) as nat;
    lemma_many_faults(cidr_parser(), s.subrange(2, m as int), code);
    lemma_many_faults(attr_parser(four_octets), s.subrange(m as int + 2, n as int), code);
    lemma_many_faults(route_parser(), s.skip(n as int), code);
}

/// An address range that is accepted has no more bits than an address. It takes the byte
/// of its length and as many as hold its bits. One that has more bits is refused once it
/// has come whole.
pub proof fn law_cidr(s: Seq<u8>)
    ensures
        cidr_parse(s).out matches Outcome::Value(cidr) ==> {
            &&& cidr.length <= 128
            &&& cidr_parse(s).used == 1 + prefix_octets(cidr.length)
            &&& prefix_octets(cidr.length) * 8 >= cidr.length
            &&& prefix_octets(cidr.length) * 8 < cidr.length + 8
        },
        s.len() > 0 && s[0] > 128 && s.len() >= 1 + prefix_octets(s[0]) ==> cidr_parse(s).out
            == Outcome::<Cidr>::Refused(update_error(UpdateMsgErrorSubcode::InvalidNetworkField)),
{
}

/// A message that is accepted takes its header at least, and no more bytes than it says
/// it has. One that is not accepted takes nothing.
pub proof fn law_message_takes(peer: Option<bool>, s: Seq<u8>)
    ensures
        ({
            let p = message_parse(peer, s);
            match p.out {
                Outcome::Value(_) => {
                    &&& header_parse(s).out matches Outcome::Value(header)
                    &&& MIN_MSG_LEN <= p.used <= header.length <= s.len()
                },
                _ => p.used == 0,
            }
        }),
{
    match header_parse(s).out {
        Outcome::Value(header) => {
            if s.len() >= header.length {
                lemma_body_fits(
                    header.msg_type,
                    peer,
                    s.subrange(MIN_MSG_LEN as int, header.length as int),
                );
            }
        },
        _ => {},
    }
}

/// A message other than an OPEN that is accepted takes all the bytes that it says it has. A
/// NOTIFICATION has 21 bytes and its data.
pub proof fn law_message_takes_all(peer: Option<bool>, s: Seq<u8>)
    ensures
        ({
            let p = message_parse(peer, s);
            p.out matches Outcome::Value(m) ==> m !is Open ==> {
                &&& header_parse(s).out matches Outcome::Value(header)
                &&& p.used == header.length
                &&& m matches MessageView::Notification(n) ==> {
                    &&& n.data matches Some(data)
                    &&& header.length == 21 + data.len()
                }
            }
        }),
{
    match (header_parse(s).out, peer) {
        (Outcome::Value(header), Some(four)) => {
            lemma_update_fits(four, s.subrange(MIN_MSG_LEN as int, header.length as int));
        },
        _ => {},
    }
}

/// A message whose bytes have not all come yet is neither accepted nor refused: more bytes
/// are asked for, and those that came stay.
pub proof fn law_message_waits(peer: Option<bool>, s: Seq<u8>)
    requires
        s.len() < MIN_MSG_LEN || (header_parse(s).out matches Outcome::Value(header) && s.len()
            < header.length),
    ensures
        message_parse(peer, s).out == Outcome::<MessageView>::Refused(too_short()),
        message_parse(peer, s).used == 0,
{
}

/// Once a message has come whole, or its header is refused, what it is does not depend on
/// what comes behind it.
pub proof fn law_message_stands(peer: Option<bool>, s: Seq<u8>, behind: Seq<u8>)
    requires
        s.len() >= MIN_MSG_LEN,
        header_parse(s).out matches Outcome::Value(header) ==> s.len() >= header.length,
    ensures
        message_parse(peer, s + behind) == message_parse(peer, s),
{
    let t = s + behind;
    assert(marked(t) == marked(s)) by {
        if marked(t) {
            assert forall|i: int| 0 <= i < MARKER_LEN implies #[trigger] s[i] == MARKER_OCTET by {
                assert(t[i] == MARKER_OCTET);
            }
        }
    }
    match header_parse(s).out {
        Outcome::Value(header) => {
            assert(t.subrange(MIN_MSG_LEN as int, header.length as int) =~= s.subrange(
                MIN_MSG_LEN as int,
                header.length as int,
            ));
        },
        _ => {},
    }
}

/// A message that takes all its bytes is read from the front of a stream, and leaves what
/// comes behind it.
pub proof fn law_message_leaves_the_rest(peer: Option<bool>, s: Seq<u8>, behind: Seq<u8>)
    requires
        message_parse(peer, s).out is Value,
        message_parse(peer, s).used == s.len(),
    ensures
        message_parse(peer, s + behind).out == message_parse(peer, s).out,
        (s + behind).skip(message_parse(peer, s + behind).used as int) == behind,
{
    law_message_stands(peer, s, behind);
}

/// A message that is refused is refused as what its header says it is, or for its header.
/// Without the OPEN of the peer an UPDATE is refused like a header that is out of place.
pub proof fn law_message_faults(peer: Option<bool>, s: Seq<u8>)
    ensures
        faults(
            message_parse(peer, s),
            match header_parse(s).out {
                Outcome::Value(header) => match header.msg_type {
                    MsgType::Open => ErrorCode::OpenMessageError,
                    MsgType::Update => if peer is Some {
                        ErrorCode::UpdateMessageError
                    } else {
                        ErrorCode::MessageHeaderError
                    },
                    _ => ErrorCode::LocalLogicError,
                },
                _ => ErrorCode::MessageHeaderError,
            },
        ),
{
    match header_parse(s).out {
        Outcome::Value(header) => {
            let body = s.subrange(MIN_MSG_LEN as int, header.length as int);
            law_open(body);
            match peer {
                Some(four) => law_update(four, body),
                None => {},
            }
        },
        _ => {},
    }
}

/// The NOTIFICATIONs of errors of different kinds have different codes, and those of
/// different errors of one kind of message have different subcodes.
pub proof fn law_notifications_differ(
    code: ErrorCode,
    subcode: ErrorSubCode,
    data: Option<Vec<u8>>,
    code2: ErrorCode,
    subcode2: ErrorSubCode,
    data2: Option<Vec<u8>>,
)
    requires
        (subcode is LocalLogicErrorSubcode && subcode2 is LocalLogicErrorSubcode) || (
        subcode is MsgHeaderErrorSubcode && subcode2 is MsgHeaderErrorSubcode) || (
        subcode is OpenMsgErrorSubcode && subcode2 is OpenMsgErrorSubcode) || (
        subcode is UpdateMsgErrorSubcode && subcode2 is UpdateMsgErrorSubcode),
        notification_of(code, subcode, data) == notification_of(code2, subcode2, data2),
    ensures
        code == code2,
        subcode == subcode2,
        data == data2,
{
}

/// A NOTIFICATION is read back from its two numbers and its data, whatever these are.
pub proof fn law_notification_is_read_back(code: u8, subcode: u8, data: Seq<u8>)
    ensures
        ({
            let p = notification_parse(seq![code] + seq![subcode] + data);
            &&& p.out matches Outcome::Value(n)
            &&& n.error_code == code
            &&& n.error_subcode == subcode
            &&& n.data == Some(data)
        }),
{
}

/// A number that two bytes hold is kept as it is; any other becomes the one that stands in
/// for it.
pub proof fn law_two_octets(n: u16, m: AsNum)
    ensures
        AsNum(n as u32).two_octets() == n,
        m.0 >= 0x1_0000 ==> m.two_octets() == AS_TRANS,
        m.0 < 0x1_0000 ==> m.two_octets() == m.0,
{
}

} // verus!
