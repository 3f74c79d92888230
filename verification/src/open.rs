//! The OPEN message.
use crate::config::Neighbor;
use crate::error::{open_error, Error, OpenMsgErrorSubcode, Result};
use crate::update::AsNum;
use crate::wire::{
    advanced, after_items, be16, be32, did, did_view, lemma_after_items, lemma_times_fits, pass,
    read_u16, read_u32, read_u8, refused, rest, short, times, value, Outcome, Parse,
};
use octets::Octets;
use vstd::prelude::*;

verus! {

/// The multiprotocol extensions capability: one address family that a speaker handles.
#[derive(Debug, Clone, Copy, PartialEq, Eq, Structural)]
pub struct MpExtCap {
    pub afi: u16,
    pub safi: u8,
}

/// A family of two bytes, a byte without meaning, and a subsequent family of one.
pub open spec fn mp_ext_cap_parse(s: Seq<u8>) -> Parse<MpExtCap> {
    if s.len() < 2 {
        short(0)
    } else if s.len() < 3 {
        short(2)
    } else if s.len() < 4 {
        short(3)
    } else {
        value(MpExtCap { afi: be16(s, 0), safi: s[3] }, 4)
    }
}

impl MpExtCap {
    pub fn decode(buf: &mut Octets<'_>) -> (r: Result<MpExtCap>)
        ensures
            did(*old(buf), *final(buf), r, mp_ext_cap_parse(rest(*old(buf)))),
    {
        let afi = read_u16(buf)?;
        pass(buf, 1)?;
        let safi = read_u8(buf)?;
        Ok(MpExtCap { afi, safi })
    }
}

/// The capability of autonomous system numbers of four bytes.
#[derive(Debug, Clone, Copy, PartialEq, Eq, Structural)]
pub struct FourOctetAsCap {
    pub as_num: u32,
}

/// A number of four bytes.
pub open spec fn four_octet_as_cap_parse(s: Seq<u8>) -> Parse<FourOctetAsCap> {
    if s.len() < 4 {
        short(0)
    } else {
        value(FourOctetAsCap { as_num: be32(s, 0) }, 4)
    }
}

impl FourOctetAsCap {
    pub fn decode(buf: &mut Octets<'_>) -> (r: Result<FourOctetAsCap>)
        ensures
            did(*old(buf), *final(buf), r, four_octet_as_cap_parse(rest(*old(buf)))),
    {
        let as_num = read_u32(buf)?;
        Ok(FourOctetAsCap { as_num })
    }
}

/// The optional parameters of an OPEN message.
#[derive(Debug)]
pub struct OptParams {
    pub mp_ext_caps: Option<Vec<MpExtCap>>,
    pub four_octet_as_cap: Option<FourOctetAsCap>,
}

/// What optional parameters say.
pub struct OptParamsView {
    pub mp_ext_caps: Option<Seq<MpExtCap>>,
    pub four_octet_as_cap: Option<FourOctetAsCap>,
}

impl View for OptParams {
    type V = OptParamsView;

    open spec fn view(&self) -> OptParamsView {
        OptParamsView {
            mp_ext_caps: match self.mp_ext_caps {
                Some(caps) => Some(caps@),
                None => None,
            },
            four_octet_as_cap: self.four_octet_as_cap,
        }
    }
}

/// One optional parameter.
pub enum OptParam {
    MpExt(MpExtCap),
    FourOctetAs(FourOctetAsCap),
}

/// A type of one byte, a length of two bytes if `ext` and of one if not, and a value
/// that both known types have four bytes for.
pub open spec fn opt_param_parse(ext: bool, s: Seq<u8>) -> Parse<OptParam> {
    let head: nat = if ext {
        3
    } else {
        2
    };
    let body = s.skip(head as int);
    if s.len() < 1 {
        short(0)
    } else if s.len() < head {
        short(1)
    } else if s[0] != 1 && s[0] != 63 {
        refused(open_error(OpenMsgErrorSubcode::UnsupportedOptionalParameter), head)
    } else if (if ext {
        be16(s, 1)
    } else {
        s[1] as u16
    }) != 4 {
        refused(open_error(OpenMsgErrorSubcode::UnSupportedCapability), head)
    } else if s[0] == 1 {
        let p = mp_ext_cap_parse(body);
        match p.out {
            Outcome::Value(cap) => value(OptParam::MpExt(cap), head + p.used),
            Outcome::Refused(e) => refused(e, head + p.used),
        }
    } else {
        let p = four_octet_as_cap_parse(body);
        match p.out {
            Outcome::Value(cap) => value(OptParam::FourOctetAs(cap), head + p.used),
            Outcome::Refused(e) => refused(e, head + p.used),
        }
    }
}

/// The parser of one optional parameter.
pub open spec fn opt_param_parser(ext: bool) -> spec_fn(Seq<u8>) -> Parse<OptParam> {
    |s: Seq<u8>| opt_param_parse(ext, s)
}

/// No parameter at all.
pub open spec fn no_opt_params() -> OptParamsView {
    OptParamsView { mp_ext_caps: None, four_octet_as_cap: None }
}

/// What parameters say together: all the address families, in order, and the last of
/// the autonomous system numbers.
pub open spec fn gathered(params: Seq<OptParam>) -> OptParamsView
    decreases params.len(),
{
    if params.len() == 0 {
        no_opt_params()
    } else {
        let before = gathered(params.drop_last());
        match params.last() {
            OptParam::MpExt(cap) => OptParamsView {
                mp_ext_caps: Some(
                    match before.mp_ext_caps {
                        Some(caps) => caps.push(cap),
                        None => seq![cap],
                    },
                ),
                ..before
            },
            OptParam::FourOctetAs(cap) => OptParamsView { four_octet_as_cap: Some(cap), ..before },
        }
    }
}

/// `n` optional parameters.
pub open spec fn opt_params_parse(n: nat, ext: bool, s: Seq<u8>) -> Parse<OptParamsView> {
    let p = times(opt_param_parser(ext), n, s);
    match p.out {
        Outcome::Value(params) => value(gathered(params), p.used),
        Outcome::Refused(e) => refused(e, p.used),
    }
}

/// Reads one optional parameter.
fn read_opt_param(buf: &mut Octets<'_>, ext_op: bool) -> (r: Result<OptParam>)
    ensures
        did(*old(buf), *final(buf), r, opt_param_parse(ext_op, rest(*old(buf)))),
        r is Ok ==> rest(*final(buf)) == rest(*old(buf)).skip(
            opt_param_parse(ext_op, rest(*old(buf))).used as int,
        ),
{
    let param_type = read_u8(buf)?;
    let param_len: u16 = if ext_op {
        read_u16(buf)?
    } else {
        read_u8(buf)? as u16
    };
    match param_type {
        1 => {
            if param_len != 4 {
                return Error::err_open(OpenMsgErrorSubcode::UnSupportedCapability, None);
            }
            let cap = MpExtCap::decode(buf)?;
            Ok(OptParam::MpExt(cap))
        },
        63 => {
            if param_len != 4 {
                return Error::err_open(OpenMsgErrorSubcode::UnSupportedCapability, None);
            }
            let cap = FourOctetAsCap::decode(buf)?;
            Ok(OptParam::FourOctetAs(cap))
        },
        _ => Error::err_open(OpenMsgErrorSubcode::UnsupportedOptionalParameter, None),
    }
}

impl OptParams {
    pub fn decode(buf: &mut Octets<'_>, opt_params_len: u16, ext_op: bool) -> (r: Result<OptParams>)
        ensures
            did_view(
                *old(buf),
                *final(buf),
                r,
                opt_params_parse(opt_params_len as nat, ext_op, rest(*old(buf))),
            ),
    {
        let ghost s = rest(*buf);
        let ghost one = opt_param_parser(ext_op);
        let ghost mut params: Seq<OptParam> = Seq::empty();
        let ghost mut used: nat = 0;
        let mut opt_params = OptParams { mp_ext_caps: None, four_octet_as_cap: None };
        let mut i: u16 = 0;
        while i < opt_params_len
            invariant
                i <= opt_params_len,
                s == rest(*old(buf)),
                one == opt_param_parser(ext_op),
                opt_params@ == gathered(params),
                advanced(*old(buf), *buf, used),
                times(one, opt_params_len as nat, s) == after_items(
                    params,
                    used,
                    times(one, (opt_params_len - i) as nat, rest(*buf)),
                ),
            decreases opt_params_len - i,
        {
            let ghost p = opt_param_parse(ext_op, rest(*buf));
            let param = read_opt_param(buf, ext_op)?;
            proof {
                lemma_after_items(
                    params,
                    param,
                    used,
                    p.used,
                    times(one, (opt_params_len - i - 1) as nat, rest(*buf)),
                );
                assert(params.push(param).drop_last() =~= params);
                params = params.push(param);
                used = used + p.used;
            }
            match param {
                OptParam::MpExt(cap) => {
                    let mut caps = match opt_params.mp_ext_caps {
                        Some(caps) => caps,
                        None => Vec::new(),
                    };
                    caps.push(cap);
                    opt_params.mp_ext_caps = Some(caps);
                },
                OptParam::FourOctetAs(cap) => {
                    opt_params.four_octet_as_cap = Some(cap);
                },
            }
            i = i + 1;
        }
        Ok(opt_params)
    }
}

impl Clone for OptParams {
    fn clone(&self) -> (r: OptParams)
        ensures
            r@ == self@,
    {
        let mp_ext_caps = match &self.mp_ext_caps {
            Some(caps) => Some(caps.clone()),
            None => None,
        };
        OptParams { mp_ext_caps, four_octet_as_cap: self.four_octet_as_cap }
    }
}

/// The message that opens a session.
#[derive(Debug)]
pub struct OpenMsg {
    pub version: u8,
    pub as_number: u16,
    pub hold_time: u16,
    /// The router id of the sender.
    pub bgp_identifier: u32,
    /// Whether the lengths of the parameters have two bytes.
    pub ext_opt_param: bool,
    /// How many parameters there are.
    pub opt_params_len: u16,
    pub opt_params: OptParams,
}

/// What an OPEN message says.
pub struct OpenMsgView {
    pub version: u8,
    pub as_number: u16,
    pub hold_time: u16,
    pub bgp_identifier: u32,
    pub ext_opt_param: bool,
    pub opt_params_len: u16,
    pub opt_params: OptParamsView,
}

impl View for OpenMsg {
    type V = OpenMsgView;

    open spec fn view(&self) -> OpenMsgView {
        OpenMsgView {
            version: self.version,
            as_number: self.as_number,
            hold_time: self.hold_time,
            bgp_identifier: self.bgp_identifier,
            ext_opt_param: self.ext_opt_param,
            opt_params_len: self.opt_params_len,
            opt_params: self.opt_params@,
        }
    }
}

/// The version, three bytes of padding, the autonomous system, two of padding, the hold
/// time, two of padding, the identifier, and what says how many parameters there are and
/// in which form; then the parameters. The version must be 4, the hold time zero or at
/// least three seconds, and the identifier neither all zeros nor all ones.
pub open spec fn open_parse(s: Seq<u8>) -> Parse<OpenMsgView> {
    let hold_time = be16(s, 8);
    let ext = s[17] == 255;
    let count = if ext {
        be16(s, 18)
    } else {
        s[16] as u16
    };
    let params = opt_params_parse(count as nat, ext, s.skip(20));
    if s.len() < 1 {
        short(0)
    } else if s[0] != 4 {
        refused(open_error(OpenMsgErrorSubcode::UnsupportedVersionNumber), 1)
    } else if s.len() < 4 {
        short(1)
    } else if s.len() < 6 {
        short(4)
    } else if s.len() < 8 {
        short(6)
    } else if s.len() < 10 {
        short(8)
    } else if 0 < hold_time < 3 {
        refused(open_error(OpenMsgErrorSubcode::UnacceptableHoldTime), 10)
    } else if s.len() < 12 {
        short(10)
    } else if s.len() < 16 {
        short(12)
    } else if be32(s, 12) == 0 || be32(s, 12) == u32::MAX {
        refused(open_error(OpenMsgErrorSubcode::BadBgpIdentifier), 16)
    } else if s.len() < 17 {
        short(16)
    } else if s.len() < 18 {
        short(17)
    } else if s.len() < 20 {
        short(18)
    } else {
        match params.out {
            Outcome::Value(opt_params) => value(
                OpenMsgView {
                    version: 4,
                    as_number: be16(s, 4),
                    hold_time,
                    bgp_identifier: be32(s, 12),
                    ext_opt_param: ext,
                    opt_params_len: count,
                    opt_params,
                },
                20 + params.used,
            ),
            Outcome::Refused(e) => refused(e, 20 + params.used),
        }
    }
}

/// The OPEN message that a neighbor is sent: its fields are what the configuration
/// names, and it has no optional parameters.
pub open spec fn open_of_conf(conf: Neighbor) -> OpenMsg {
    OpenMsg {
        version: 4,
        as_number: AsNum(conf.config.local_as).two_octets(),
        hold_time: conf.timers.config.hold_time,
        bgp_identifier: conf.config.router_id.spec_to_bits(),
        ext_opt_param: false,
        opt_params_len: 0,
        opt_params: OptParams { mp_ext_caps: None, four_octet_as_cap: None },
    }
}

impl OpenMsg {
    pub fn decode(buf: &mut Octets<'_>) -> (r: Result<OpenMsg>)
        ensures
            did_view(*old(buf), *final(buf), r, open_parse(rest(*old(buf)))),
    {
        let ghost s = rest(*buf);
        let version = read_u8(buf)?;
        if version != 4 {
            return Error::err_open(OpenMsgErrorSubcode::UnsupportedVersionNumber, None);
        }
        pass(buf, 3)?;
        let as_number = read_u16(buf)?;
        pass(buf, 2)?;
        let hold_time = read_u16(buf)?;
        if hold_time != 0 && hold_time < 3 {
            return Error::err_open(OpenMsgErrorSubcode::UnacceptableHoldTime, None);
        }
        pass(buf, 2)?;
        let bgp_identifier = read_u32(buf)?;
        if bgp_identifier == 0 || bgp_identifier == u32::MAX {
            return Error::err_open(OpenMsgErrorSubcode::BadBgpIdentifier, None);
        }
        let non_ext_op_len = read_u8(buf)?;
        let non_ext_op_type = read_u8(buf)?;
        let ext_opt_parm_len = read_u16(buf)?;
        assert(rest(*buf) =~= s.skip(20));
        let ext_opt_param = non_ext_op_type == 255;
        let opt_params_len: u16 = if ext_opt_param {
            ext_opt_parm_len
        } else {
            non_ext_op_len as u16
        };
        let opt_params = OptParams::decode(buf, opt_params_len, ext_opt_param)?;
        Ok(
            OpenMsg {
                version,
                as_number,
                hold_time,
                bgp_identifier,
                ext_opt_param,
                opt_params_len,
                opt_params,
            },
        )
    }

    pub fn from_conf(conf: &Neighbor) -> (r: OpenMsg)
        ensures
            r == open_of_conf(*conf),
    {
        OpenMsg {
            version: 4,
            as_number: AsNum(conf.config.local_as).to_two_octets(),
            hold_time: conf.timers.config.hold_time,
            bgp_identifier: conf.config.router_id.to_bits(),
            ext_opt_param: false,
            opt_params_len: 0,
            opt_params: OptParams { mp_ext_caps: None, four_octet_as_cap: None },
        }
    }
}

impl Clone for OpenMsg {
    fn clone(&self) -> (r: OpenMsg)
        ensures
            r@ == self@,
    {
        OpenMsg {
            version: self.version,
            as_number: self.as_number,
            hold_time: self.hold_time,
            bgp_identifier: self.bgp_identifier,
            ext_opt_param: self.ext_opt_param,
            opt_params_len: self.opt_params_len,
            opt_params: self.opt_params.clone(),
        }
    }
}

/// An OPEN takes no more bytes than there are.
pub proof fn lemma_open_fits(s: Seq<u8>)
    ensures
        open_parse(s).used <= s.len(),
{
    let ext = s[17] == 255;
    let count = if ext {
        be16(s, 18)
    } else {
        s[16] as u16
    };
    let one = opt_param_parser(ext);
    lemma_times_fits(one, count as nat, s.skip(20));
}

} // verus!
