//! Codec for the LoRaWAN remote-multicast setup messages.
//!
//! A message stream is a sequence of commands, each a one-byte command
//! identifier followed by that command's payload. Every payload has a fixed
//! size except the group-status answer, whose size is derived from its first
//! (status) byte. The iterators walk a byte stream and hand out one decoded
//! command at a time; a truncated payload or an unknown identifier is
//! reported as an error instead of a command.

use vstd::prelude::*;
use vstd::slice::slice_subrange;

verus! {

/// Decoding failures.
#[derive(Clone, Copy, PartialEq, Eq, Structural, Debug)]
pub enum Error {
    BufferTooShort,
    UnknownCommand,
}

/// Package-version request: no payload.
#[derive(PartialEq, Eq, Debug)]
pub struct PackageVersionReqPayload;

impl PackageVersionReqPayload {
    pub fn new_from_raw(_data: &[u8]) -> PackageVersionReqPayload {
        PackageVersionReqPayload
    }

    pub fn len() -> (n: usize)
        ensures
            n == 0,
    {
        0
    }
}

/// Package-version answer: package identifier and version.
#[derive(PartialEq, Eq, Debug)]
pub struct PackageVersionAnsPayload<'a>(pub &'a [u8]);

impl<'a> PackageVersionAnsPayload<'a> {
    pub fn new_from_raw(data: &'a [u8]) -> (r: PackageVersionAnsPayload<'a>)
        ensures
            r.0@ == data@,
    {
        PackageVersionAnsPayload(data)
    }

    pub fn len() -> (n: usize)
        ensures
            n == 2,
    {
        2
    }

    pub fn bytes(&self) -> (r: &'a [u8])
        ensures
            r@ == self.0@,
    {
        self.0
    }
}

/// Group-status request: the requested group mask.
#[derive(PartialEq, Eq, Debug)]
pub struct McGroupStatusReqPayload<'a>(pub &'a [u8]);

impl<'a> McGroupStatusReqPayload<'a> {
    pub fn new_from_raw(data: &'a [u8]) -> (r: McGroupStatusReqPayload<'a>)
        ensures
            r.0@ == data@,
    {
        McGroupStatusReqPayload(data)
    }

    pub fn len() -> (n: usize)
        ensures
            n == 1,
    {
        1
    }

    pub fn bytes(&self) -> (r: &'a [u8])
        ensures
            r@ == self.0@,
    {
        self.0
    }
}

/// Group-setup request: group id, address, keys and frame-counter bounds.
#[derive(PartialEq, Eq, Debug)]
pub struct McGroupSetupReqPayload<'a>(pub &'a [u8]);

impl<'a> McGroupSetupReqPayload<'a> {
    pub fn new_from_raw(data: &'a [u8]) -> (r: McGroupSetupReqPayload<'a>)
        ensures
            r.0@ == data@,
    {
        McGroupSetupReqPayload(data)
    }

    pub fn len() -> (n: usize)
        ensures
            n == 24,
    {
        24
    }

    pub fn bytes(&self) -> (r: &'a [u8])
        ensures
            r@ == self.0@,
    {
        self.0
    }
}

/// Group-setup answer.
#[derive(PartialEq, Eq, Debug)]
pub struct McGroupSetupAnsPayload<'a>(pub &'a [u8]);

impl<'a> McGroupSetupAnsPayload<'a> {
    pub fn new_from_raw(data: &'a [u8]) -> (r: McGroupSetupAnsPayload<'a>)
        ensures
            r.0@ == data@,
    {
        McGroupSetupAnsPayload(data)
    }

    pub fn len() -> (n: usize)
        ensures
            n == 1,
    {
        1
    }

    pub fn bytes(&self) -> (r: &'a [u8])
        ensures
            r@ == self.0@,
    {
        self.0
    }
}

/// Group-delete request.
#[derive(PartialEq, Eq, Debug)]
pub struct McGroupDeleteReqPayload<'a>(pub &'a [u8]);

impl<'a> McGroupDeleteReqPayload<'a> {
    pub fn new_from_raw(data: &'a [u8]) -> (r: McGroupDeleteReqPayload<'a>)
        ensures
            r.0@ == data@,
    {
        McGroupDeleteReqPayload(data)
    }

    pub fn len() -> (n: usize)
        ensures
            n == 1,
    {
        1
    }

    pub fn bytes(&self) -> (r: &'a [u8])
        ensures
            r@ == self.0@,
    {
        self.0
    }
}

/// Group-delete answer.
#[derive(PartialEq, Eq, Debug)]
pub struct McGroupDeleteAnsPayload<'a>(pub &'a [u8]);

impl<'a> McGroupDeleteAnsPayload<'a> {
    pub fn new_from_raw(data: &'a [u8]) -> (r: McGroupDeleteAnsPayload<'a>)
        ensures
            r.0@ == data@,
    {
        McGroupDeleteAnsPayload(data)
    }

    pub fn len() -> (n: usize)
        ensures
            n == 1,
    {
        1
    }

    pub fn bytes(&self) -> (r: &'a [u8])
        ensures
            r@ == self.0@,
    {
        self.0
    }
}

/// Class-C session request.
#[derive(PartialEq, Eq, Debug)]
pub struct McClassCSessionReqPayload<'a>(pub &'a [u8]);

impl<'a> McClassCSessionReqPayload<'a> {
    pub fn new_from_raw(data: &'a [u8]) -> (r: McClassCSessionReqPayload<'a>)
        ensures
            r.0@ == data@,
    {
        McClassCSessionReqPayload(data)
    }

    pub fn len() -> (n: usize)
        ensures
            n == 10,
    {
        10
    }

    pub fn bytes(&self) -> (r: &'a [u8])
        ensures
            r@ == self.0@,
    {
        self.0
    }
}

/// Class-C session answer.
#[derive(PartialEq, Eq, Debug)]
pub struct McClassCSessionAnsPayload<'a>(pub &'a [u8]);

impl<'a> McClassCSessionAnsPayload<'a> {
    pub fn new_from_raw(data: &'a [u8]) -> (r: McClassCSessionAnsPayload<'a>)
        ensures
            r.0@ == data@,
    {
        McClassCSessionAnsPayload(data)
    }

    pub fn len() -> (n: usize)
        ensures
            n == 4,
    {
        4
    }

    pub fn bytes(&self) -> (r: &'a [u8])
        ensures
            r@ == self.0@,
    {
        self.0
    }
}

/// Class-B session request.
#[derive(PartialEq, Eq, Debug)]
pub struct McClassBSessionReqPayload<'a>(pub &'a [u8]);

impl<'a> McClassBSessionReqPayload<'a> {
    pub fn new_from_raw(data: &'a [u8]) -> (r: McClassBSessionReqPayload<'a>)
        ensures
            r.0@ == data@,
    {
        McClassBSessionReqPayload(data)
    }

    pub fn len() -> (n: usize)
        ensures
            n == 10,
    {
        10
    }

    pub fn bytes(&self) -> (r: &'a [u8])
        ensures
            r@ == self.0@,
    {
        self.0
    }
}

/// Class-B session answer.
#[derive(PartialEq, Eq, Debug)]
pub struct McClassBSessionAnsPayload<'a>(pub &'a [u8]);

impl<'a> McClassBSessionAnsPayload<'a> {
    pub fn new_from_raw(data: &'a [u8]) -> (r: McClassBSessionAnsPayload<'a>)
        ensures
            r.0@ == data@,
    {
        McClassBSessionAnsPayload(data)
    }

    pub fn len() -> (n: usize)
        ensures
            n == 4,
    {
        4
    }

    pub fn bytes(&self) -> (r: &'a [u8])
        ensures
            r@ == self.0@,
    {
        self.0
    }
}

/// Group-status answer: a status byte followed by five bytes for each
/// reported group.
#[derive(PartialEq, Eq, Debug)]
pub struct McGroupStatusAnsPayload<'a>(pub &'a [u8]);

/// Size of a group-status answer whose status byte is `status`: the three
/// bits above the group mask count the reported groups, five bytes each.
pub open spec fn spec_required_len(status: u8) -> int {
    1 + 5 * ((status >> 4) & 0x07)
}

impl<'a> McGroupStatusAnsPayload<'a> {
    /// Decodes a group-status answer from the front of `data`, taking
    /// exactly the bytes its status byte announces.
    pub fn new(data: &'a [u8]) -> (r: Result<McGroupStatusAnsPayload<'a>, Error>)
        ensures
            r is Ok <==> data@.len() >= 1 && data@.len() >= spec_required_len(data@[0]),
            r matches Ok(p) ==> p.0@ == data@.subrange(0, spec_required_len(data@[0])),
            r matches Err(e) ==> e is BufferTooShort,
    {
        if data.len() < 1 {
            return Err(Error::BufferTooShort);
        }
        let status: u8 = data[0];
        let required_len = McGroupStatusAnsPayload::required_len(status);

        if data.len() < required_len {
            return Err(Error::BufferTooShort);
        }

        Ok(McGroupStatusAnsPayload(slice_subrange(data, 0, required_len)))
    }

    pub fn new_from_raw(data: &'a [u8]) -> (r: McGroupStatusAnsPayload<'a>)
        ensures
            r.0@ == data@,
    {
        McGroupStatusAnsPayload(data)
    }

    /// Bytes occupied by an answer whose status byte is `status`.
    pub fn required_len(status: u8) -> (n: usize)
        ensures
            n == spec_required_len(status),
    {
        let nb_total_groups: u8 = (status >> 4) & 0x07;
        let required_len: usize = 1 + (nb_total_groups as usize) * 5;
        required_len
    }

    pub fn cid() -> (c: u8)
        ensures
            c == 0x01,
    {
        0x01
    }

    pub fn uplink() -> (u: bool)
        ensures
            u,
    {
        true
    }

    pub fn len(&self) -> (n: usize)
        ensures
            n == self.0@.len(),
    {
        self.0.len()
    }

    pub fn bytes(&self) -> (r: &'a [u8])
        ensures
            r@ == self.0@,
    {
        self.0
    }
}

/// A command sent by the network to the device.
pub enum DownlinkMulticastMsg<'a> {
    PackageVersionReq(PackageVersionReqPayload),
    McGroupStatusReq(McGroupStatusReqPayload<'a>),
    McGroupSetupReq(McGroupSetupReqPayload<'a>),
    McGroupDeleteReq(McGroupDeleteReqPayload<'a>),
    McClassCSessionReq(McClassCSessionReqPayload<'a>),
    McClassBSessionReq(McClassBSessionReqPayload<'a>),
}

/// A command sent by the device to the network.
pub enum UplinkMulticastMsg<'a> {
    PackageVersionAns(PackageVersionAnsPayload<'a>),
    McGroupStatusAns(McGroupStatusAnsPayload<'a>),
    McGroupSetupAns(McGroupSetupAnsPayload<'a>),
    McGroupDeleteAns(McGroupDeleteAnsPayload<'a>),
    McClassCSessionAns(McClassCSessionAnsPayload<'a>),
    McClassBSessionAns(McClassBSessionAnsPayload<'a>),
}

/// Command identifier of a downlink message.
pub open spec fn downlink_msg_cid(m: DownlinkMulticastMsg) -> u8 {
    match m {
        DownlinkMulticastMsg::PackageVersionReq(_) => 0x00,
        DownlinkMulticastMsg::McGroupStatusReq(_) => 0x01,
        DownlinkMulticastMsg::McGroupSetupReq(_) => 0x02,
        DownlinkMulticastMsg::McGroupDeleteReq(_) => 0x03,
        DownlinkMulticastMsg::McClassCSessionReq(_) => 0x04,
        DownlinkMulticastMsg::McClassBSessionReq(_) => 0x05,
    }
}

/// Payload bytes carried by a downlink message.
pub open spec fn downlink_msg_bytes(m: DownlinkMulticastMsg) -> Seq<u8> {
    match m {
        DownlinkMulticastMsg::PackageVersionReq(_) => Seq::<u8>::empty(),
        DownlinkMulticastMsg::McGroupStatusReq(p) => p.0@,
        DownlinkMulticastMsg::McGroupSetupReq(p) => p.0@,
        DownlinkMulticastMsg::McGroupDeleteReq(p) => p.0@,
        DownlinkMulticastMsg::McClassCSessionReq(p) => p.0@,
        DownlinkMulticastMsg::McClassBSessionReq(p) => p.0@,
    }
}

/// Command identifier of an uplink message.
pub open spec fn uplink_msg_cid(m: UplinkMulticastMsg) -> u8 {
    match m {
        UplinkMulticastMsg::PackageVersionAns(_) => 0x00,
        UplinkMulticastMsg::McGroupStatusAns(_) => 0x01,
        UplinkMulticastMsg::McGroupSetupAns(_) => 0x02,
        UplinkMulticastMsg::McGroupDeleteAns(_) => 0x03,
        UplinkMulticastMsg::McClassCSessionAns(_) => 0x04,
        UplinkMulticastMsg::McClassBSessionAns(_) => 0x05,
    }
}

/// Payload bytes carried by an uplink message.
pub open spec fn uplink_msg_bytes(m: UplinkMulticastMsg) -> Seq<u8> {
    match m {
        UplinkMulticastMsg::PackageVersionAns(p) => p.0@,
        UplinkMulticastMsg::McGroupStatusAns(p) => p.0@,
        UplinkMulticastMsg::McGroupSetupAns(p) => p.0@,
        UplinkMulticastMsg::McGroupDeleteAns(p) => p.0@,
        UplinkMulticastMsg::McClassCSessionAns(p) => p.0@,
        UplinkMulticastMsg::McClassBSessionAns(p) => p.0@,
    }
}

/// Payload size of a downlink command, or a negative number for an unknown
/// command identifier.
pub open spec fn downlink_cmd_len(cid: u8) -> int {
    if cid == 0x00 {
        0
    } else if cid == 0x01 {
        1
    } else if cid == 0x02 {
        24
    } else if cid == 0x03 {
        1
    } else if cid == 0x04 {
        10
    } else if cid == 0x05 {
        10
    } else {
        -1
    }
}

/// Payload size of an uplink command with a fixed-size payload, or a
/// negative number for the variable-size group-status answer and for an
/// unknown command identifier.
pub open spec fn uplink_cmd_fixed_len(cid: u8) -> int {
    if cid == 0x00 {
        2
    } else if cid == 0x02 {
        1
    } else if cid == 0x03 {
        1
    } else if cid == 0x04 {
        4
    } else if cid == 0x05 {
        4
    } else {
        -1
    }
}

/// Walks a downlink command stream.
pub struct DownlinkMulticastMsgIterator<'a> {
    pub data: &'a [u8],
    pub index: usize,
}

impl<'a> DownlinkMulticastMsgIterator<'a> {
    pub fn new(data: &'a [u8]) -> (r: DownlinkMulticastMsgIterator<'a>)
        ensures
            r.data@ == data@,
            r.index == 0,
    {
        DownlinkMulticastMsgIterator { data, index: 0 }
    }

    /// Decodes the next downlink command. At the end of the stream the
    /// result is `None`; an unknown identifier yields `UnknownCommand` and
    /// skips only the identifier byte; a payload running past the end of the
    /// stream yields `BufferTooShort` and ends the iteration.
    pub fn next(&mut self) -> (r: Option<Result<DownlinkMulticastMsg<'a>, Error>>)
        ensures
            final(self).data == old(self).data,
            r is None <==> old(self).index >= old(self).data@.len(),
            r is None ==> final(self).index == old(self).index,
            old(self).index < old(self).data@.len() ==> ({
                let cid = old(self).data@[old(self).index as int];
                let body = downlink_cmd_len(cid);
                &&& body < 0 ==> (r matches Some(Err(e)) && e is UnknownCommand
                    && final(self).index == old(self).index + 1)
                &&& body >= 0 && old(self).index + 1 + body > old(self).data@.len()
                    ==> (r matches Some(Err(e)) && e is BufferTooShort
                    && final(self).index == old(self).data@.len())
                &&& body >= 0 && old(self).index + 1 + body <= old(self).data@.len() ==> ({
                    &&& final(self).index == old(self).index + 1 + body
                    &&& (r matches Some(Ok(m)) && downlink_msg_cid(m) == cid
                        && downlink_msg_bytes(m) == old(self).data@.subrange(
                        old(self).index + 1,
                        old(self).index + 1 + body,
                    ))
                })
            }),
    {
        if self.index >= self.data.len() {
            return None;
        }

        let cid: u8 = self.data[self.index];
        self.index = self.index + 1;

        let body: usize = if cid == 0x00 {
            PackageVersionReqPayload::len()
        } else if cid == 0x01 {
            McGroupStatusReqPayload::len()
        } else if cid == 0x02 {
            McGroupSetupReqPayload::len()
        } else if cid == 0x03 {
            McGroupDeleteReqPayload::len()
        } else if cid == 0x04 {
            McClassCSessionReqPayload::len()
        } else if cid == 0x05 {
            McClassBSessionReqPayload::len()
        } else {
            return Some(Err(Error::UnknownCommand));
        };

        if body > self.data.len() - self.index {
            self.index = self.data.len();
            return Some(Err(Error::BufferTooShort));
        }

        let payload: &'a [u8] = slice_subrange(self.data, self.index, self.index + body);
        let msg: DownlinkMulticastMsg<'a> = if cid == 0x00 {
            DownlinkMulticastMsg::PackageVersionReq(PackageVersionReqPayload::new_from_raw(payload))
        } else if cid == 0x01 {
            DownlinkMulticastMsg::McGroupStatusReq(McGroupStatusReqPayload::new_from_raw(payload))
        } else if cid == 0x02 {
            DownlinkMulticastMsg::McGroupSetupReq(McGroupSetupReqPayload::new_from_raw(payload))
        } else if cid == 0x03 {
            DownlinkMulticastMsg::McGroupDeleteReq(McGroupDeleteReqPayload::new_from_raw(payload))
        } else if cid == 0x04 {
            DownlinkMulticastMsg::McClassCSessionReq(McClassCSessionReqPayload::new_from_raw(payload))
        } else {
            DownlinkMulticastMsg::McClassBSessionReq(McClassBSessionReqPayload::new_from_raw(payload))
        };
        self.index = self.index + body;
        Some(Ok(msg))
    }
}

/// Walks an uplink command stream.
pub struct UplinkMulticastMsgIterator<'a> {
    pub data: &'a [u8],
    pub index: usize,
}

impl<'a> UplinkMulticastMsgIterator<'a> {
    pub fn new(data: &'a [u8]) -> (r: UplinkMulticastMsgIterator<'a>)
        ensures
            r.data@ == data@,
            r.index == 0,
    {
        UplinkMulticastMsgIterator { data, index: 0 }
    }

    /// Decodes the next uplink command, as [`DownlinkMulticastMsgIterator::next`]
    /// does for downlink commands. The group-status answer has no fixed
    /// size: its status byte is read first, and a stream ending before the
    /// status byte or before the announced payload yields `BufferTooShort`.
    pub fn next(&mut self) -> (r: Option<Result<UplinkMulticastMsg<'a>, Error>>)
        ensures
            final(self).data == old(self).data,
            r is None <==> old(self).index >= old(self).data@.len(),
            r is None ==> final(self).index == old(self).index,
            old(self).index < old(self).data@.len() ==> ({
                let cid = old(self).data@[old(self).index as int];
                let fixed = uplink_cmd_fixed_len(cid);
                &&& cid != 0x01 && fixed < 0 ==> (r matches Some(Err(e)) && e is UnknownCommand
                    && final(self).index == old(self).index + 1)
                &&& cid != 0x01 && fixed >= 0 && old(self).index + 1 + fixed > old(self).data@.len()
                    ==> (r matches Some(Err(e)) && e is BufferTooShort
                    && final(self).index == old(self).data@.len())
                &&& cid != 0x01 && fixed >= 0 && old(self).index + 1 + fixed <= old(self).data@.len()
                    ==> ({
                    &&& final(self).index == old(self).index + 1 + fixed
                    &&& (r matches Some(Ok(m)) && uplink_msg_cid(m) == cid && uplink_msg_bytes(m)
                        == old(self).data@.subrange(old(self).index + 1, old(self).index + 1 + fixed))
                })
                &&& cid == 0x01 && old(self).index + 1 >= old(self).data@.len()
                    ==> (r matches Some(Err(e)) && e is BufferTooShort
                    && final(self).index == old(self).data@.len())
                &&& cid == 0x01 && old(self).index + 1 < old(self).data@.len() ==> ({
                    let body = spec_required_len(old(self).data@[old(self).index + 1]);
                    &&& old(self).index + 1 + body > old(self).data@.len()
                        ==> (r matches Some(Err(e)) && e is BufferTooShort
                        && final(self).index == old(self).data@.len())
                    &&& old(self).index + 1 + body <= old(self).data@.len() ==> ({
                        &&& final(self).index == old(self).index + 1 + body
                        &&& (r matches Some(Ok(m)) && uplink_msg_cid(m) == 0x01
                            && uplink_msg_bytes(m) == old(self).data@.subrange(
                            old(self).index + 1,
                            old(self).index + 1 + body,
                        ))
                    })
                })
            }),
    {
        if self.index >= self.data.len() {
            return None;
        }

        let cid: u8 = self.data[self.index];
        self.index = self.index + 1;

        let body: usize = if cid == 0x00 {
            PackageVersionAnsPayload::len()
        } else if cid == 0x01 {
            // The answer's size is announced by its status byte, which must
            // itself be present.
            if self.index >= self.data.len() {
                self.index = self.data.len();
                return Some(Err(Error::BufferTooShort));
            }
            McGroupStatusAnsPayload::required_len(self.data[self.index])
        } else if cid == 0x02 {
            McGroupSetupAnsPayload::len()
        } else if cid == 0x03 {
            McGroupDeleteAnsPayload::len()
        } else if cid == 0x04 {
            McClassCSessionAnsPayload::len()
        } else if cid == 0x05 {
            McClassBSessionAnsPayload::len()
        } else {
            return Some(Err(Error::UnknownCommand));
        };

        if body > self.data.len() - self.index {
            self.index = self.data.len();
            return Some(Err(Error::BufferTooShort));
        }

        let payload: &'a [u8] = slice_subrange(self.data, self.index, self.index + body);
        let msg: UplinkMulticastMsg<'a> = if cid == 0x00 {
            UplinkMulticastMsg::PackageVersionAns(PackageVersionAnsPayload::new_from_raw(payload))
        } else if cid == 0x01 {
            UplinkMulticastMsg::McGroupStatusAns(McGroupStatusAnsPayload::new_from_raw(payload))
        } else if cid == 0x02 {
            UplinkMulticastMsg::McGroupSetupAns(McGroupSetupAnsPayload::new_from_raw(payload))
        } else if cid == 0x03 {
            UplinkMulticastMsg::McGroupDeleteAns(McGroupDeleteAnsPayload::new_from_raw(payload))
        } else if cid == 0x04 {
            UplinkMulticastMsg::McClassCSessionAns(McClassCSessionAnsPayload::new_from_raw(payload))
        } else {
            UplinkMulticastMsg::McClassBSessionAns(McClassBSessionAnsPayload::new_from_raw(payload))
        };
        self.index = self.index + body;
        Some(Ok(msg))
    }
}

} // verus!
