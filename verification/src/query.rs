//! Device queries: the bytes of each request, and the typed decoding of the
//! response that the request/response engine brings back.

use crate::cmd::{
    ScanModeConfEntry, SlLidarCmd, SlLidarResponseDeviceHealthT, SlLidarResponseDeviceInfoT,
    SlLidarResponseGetLidarConf, SlLidarResponseSampleRateT, REQUEST_SYNC,
};
use crate::frame::{encode_request, request_frame, xor_fold, Response};
use crate::lidar::Lidar;
use crate::util::{le_u32, read_le_u32};
use vstd::prelude::*;
use vstd::slice::slice_to_vec;
use vstd::utf8::{decode_utf8, valid_utf8};

verus! {

/// The little-endian value of two bytes.
pub open spec fn le_u16(lo: u8, hi: u8) -> int {
    lo + 0x100 * hi
}

/// The two bytes of a 16-bit value, lowest first.
pub open spec fn u16_le_bytes(value: u16) -> Seq<u8> {
    seq![(value % 0x100) as u8, (value / 0x100) as u8]
}

/// The four bytes of a 32-bit value, lowest first.
pub open spec fn u32_le_bytes(value: u32) -> Seq<u8> {
    seq![
        (value % 0x100) as u8,
        (value / 0x100 % 0x100) as u8,
        (value / 0x1_0000 % 0x100) as u8,
        (value / 0x100_0000) as u8,
    ]
}

/// The payload of a scan-mode configuration query. For a key that takes no
/// index it is the key, lowest byte first. For any other key the index of
/// the scan mode follows, lowest byte first, and two zero bytes.
pub open spec fn lidar_conf_body(entry: ScanModeConfEntry, index: Option<u16>) -> Seq<u8> {
    if entry.spec_takes_index() {
        u32_le_bytes(entry.spec_key()) + u16_le_bytes(index.unwrap()) + seq![0u8, 0u8]
    } else {
        u32_le_bytes(entry.spec_key())
    }
}

/// The health record that a payload of at least three bytes holds: the
/// status, and the error code, lowest byte first.
pub open spec fn health_of(data: Seq<u8>) -> SlLidarResponseDeviceHealthT {
    SlLidarResponseDeviceHealthT {
        status: data[0],
        error_code: le_u16(data[1], data[2]) as u16,
    }
}

/// The sample durations that a payload of at least four bytes holds: that
/// of the standard mode, then that of the express mode, each lowest byte
/// first.
pub open spec fn sample_rate_of(data: Seq<u8>) -> SlLidarResponseSampleRateT {
    SlLidarResponseSampleRateT {
        std_sample_duration_us: le_u16(data[0], data[1]) as u16,
        express_sample_duration_us: le_u16(data[2], data[3]) as u16,
    }
}

/// The word for a health status: 0 is healthy, 1 a warning, 2 an error.
/// Other statuses have no word.
pub open spec fn health_word(status: u8) -> Option<Seq<char>> {
    if status == 0 {
        Some("healthy"@)
    } else if status == 1 {
        Some("warning"@)
    } else if status == 2 {
        Some("error"@)
    } else {
        None
    }
}

/// The view of an optional word.
pub open spec fn word_view(word: Option<&'static str>) -> Option<Seq<char>> {
    match word {
        Some(w) => Some(w@),
        None => None,
    }
}

impl Lidar {
    /// The request for the device's model, versions and serial number.
    pub fn get_info_request() -> (request: Vec<u8>)
        ensures
            request@ == request_frame(SlLidarCmd::GetDeviceInfo.spec_opcode(), None),
    {
        encode_request(SlLidarCmd::GetDeviceInfo, None)
    }

    /// Decodes the response to a device-information request: the model,
    /// the firmware version (major byte above minor byte), the hardware
    /// version and the sixteen bytes of the serial number. A payload of
    /// fewer than twenty bytes holds no answer.
    pub fn get_info(response: &Response) -> (info: Option<SlLidarResponseDeviceInfoT>)
        ensures
            response.data@.len() < 20 ==> info is None,
            response.data@.len() >= 20 ==> (info matches Some(i) && {
                &&& i.model == response.data@[0]
                &&& i.firmware_version == le_u16(response.data@[1], response.data@[2])
                &&& i.hardware_version == response.data@[3]
                &&& i.serial_number@ == response.data@.subrange(4, 20)
            }),
    {
        let data: &[u8] = response.data.as_slice();
        if data.len() < 20 {
            return None;
        }
        let serial_number: [u8; 16] = [
            data[4],
            data[5],
            data[6],
            data[7],
            data[8],
            data[9],
            data[10],
            data[11],
            data[12],
            data[13],
            data[14],
            data[15],
            data[16],
            data[17],
            data[18],
            data[19],
        ];
        assert(serial_number@ =~= data@.subrange(4, 20));
        Some(
            SlLidarResponseDeviceInfoT {
                model: data[0],
                firmware_version: data[1] as u16 + 0x100 * (data[2] as u16),
                hardware_version: data[3],
                serial_number,
            },
        )
    }

    /// The request for the device's health.
    pub fn get_health_request() -> (request: Vec<u8>)
        ensures
            request@ == request_frame(SlLidarCmd::GetDeviceHealth.spec_opcode(), None),
    {
        encode_request(SlLidarCmd::GetDeviceHealth, None)
    }

    /// Decodes the response to a health request. A payload of fewer than
    /// three bytes holds no answer.
    pub fn get_health(response: &Response) -> (health: Option<SlLidarResponseDeviceHealthT>)
        ensures
            health == if response.data@.len() >= 3 {
                Some(health_of(response.data@))
            } else {
                None
            },
    {
        let data: &[u8] = response.data.as_slice();
        if data.len() < 3 {
            return None;
        }
        Some(
            SlLidarResponseDeviceHealthT {
                status: data[0],
                error_code: data[1] as u16 + 0x100 * (data[2] as u16),
            },
        )
    }

    /// The word for the status in the response to a health request. There
    /// is none where the payload holds no answer or the status is unknown.
    pub fn get_health_str(response: &Response) -> (word: Option<&'static str>)
        ensures
            word_view(word) == if response.data@.len() >= 3 {
                health_word(health_of(response.data@).status)
            } else {
                None
            },
    {
        match Self::get_health(response) {
            None => None,
            Some(health) => {
                if health.status == 0 {
                    Some("healthy")
                } else if health.status == 1 {
                    Some("warning")
                } else if health.status == 2 {
                    Some("error")
                } else {
                    None
                }
            },
        }
    }

    /// The request for the device's sample durations.
    pub fn get_sample_rate_request() -> (request: Vec<u8>)
        ensures
            request@ == request_frame(SlLidarCmd::GetSampleRate.spec_opcode(), None),
    {
        encode_request(SlLidarCmd::GetSampleRate, None)
    }

    /// Decodes the response to a sample-rate request. A payload of fewer
    /// than four bytes holds no answer.
    pub fn get_sample_rate(response: &Response) -> (rate: Option<SlLidarResponseSampleRateT>)
        ensures
            rate == if response.data@.len() >= 4 {
                Some(sample_rate_of(response.data@))
            } else {
                None
            },
    {
        let data: &[u8] = response.data.as_slice();
        if data.len() < 4 {
            return None;
        }
        Some(
            SlLidarResponseSampleRateT {
                std_sample_duration_us: data[0] as u16 + 0x100 * (data[1] as u16),
                express_sample_duration_us: data[2] as u16 + 0x100 * (data[3] as u16),
            },
        )
    }

    /// The request that asks the device for one entry of its scan-mode
    /// configuration. A key that names a scan mode needs the mode's index;
    /// for the other keys `index` is not looked at.
    pub fn get_lidar_conf_request(entry: ScanModeConfEntry, index: Option<u16>) -> (request: Vec<
        u8,
    >)
        requires
            entry.spec_takes_index() ==> index is Some,
        ensures
            request@ == request_frame(
                SlLidarCmd::GetLidarConf.spec_opcode(),
                Some(lidar_conf_body(entry, index)),
            ),
            request@.len() == entry.spec_checksum_offset() + 1,
            request@[2] == entry.spec_body_len(),
            request@[entry.spec_checksum_offset() as int] == xor_fold(
                request@.take(entry.spec_checksum_offset() as int),
            ),
    {
        let key: u32 = entry.key();
        let k0: u8 = (key % 0x100) as u8;
        let k1: u8 = (key / 0x100 % 0x100) as u8;
        let k2: u8 = (key / 0x1_0000 % 0x100) as u8;
        let k3: u8 = (key / 0x100_0000) as u8;
        if entry.takes_index() {
            let mode: u16 = index.unwrap();
            let body: [u8; 8] = [k0, k1, k2, k3, (mode % 0x100) as u8, (mode / 0x100) as u8, 0, 0];
            assert(body@ =~= lidar_conf_body(entry, index));
            let request = encode_request(SlLidarCmd::GetLidarConf, Some(body.as_slice()));
            proof {
                let head = seq![
                    REQUEST_SYNC,
                    SlLidarCmd::GetLidarConf.spec_opcode(),
                    body@.len() as u8,
                ] + body@;
                assert(request@ == head.push(xor_fold(head)));
                assert(request@.take(11) =~= head);
            }
            request
        } else {
            let body: [u8; 4] = [k0, k1, k2, k3];
            assert(body@ =~= lidar_conf_body(entry, index));
            let request = encode_request(SlLidarCmd::GetLidarConf, Some(body.as_slice()));
            proof {
                let head = seq![
                    REQUEST_SYNC,
                    SlLidarCmd::GetLidarConf.spec_opcode(),
                    body@.len() as u8,
                ] + body@;
                assert(request@ == head.push(xor_fold(head)));
                assert(request@.take(7) =~= head);
            }
            request
        }
    }

    /// Decodes the response to a scan-mode configuration query: the key
    /// that the device echoes, lowest byte first, and after it the bytes of
    /// the value, however many the device sent. A payload of fewer than
    /// four bytes holds no answer.
    pub fn get_lidar_conf(response: &Response) -> (conf: Option<SlLidarResponseGetLidarConf>)
        ensures
            response.data@.len() < 4 ==> conf is None,
            response.data@.len() >= 4 ==> (conf matches Some(c) && {
                &&& c.conf_type == le_u32(response.data@)
                &&& c.payload@ == response.data@.skip(4)
            }),
    {
        let data: &[u8] = response.data.as_slice();
        if data.len() < 4 {
            return None;
        }
        let mut rest: &[u8] = data;
        let conf_type: u32 = read_le_u32(&mut rest);
        let payload: Vec<u8> = slice_to_vec(rest);
        Some(SlLidarResponseGetLidarConf { conf_type, payload })
    }

    /// The request that sets the speed of the motor: the speed is the
    /// payload, lowest byte first.
    pub fn set_motor_speed_request(speed: u16) -> (request: Vec<u8>)
        ensures
            request@ == request_frame(
                SlLidarCmd::HQMotorSpeedCtrl.spec_opcode(),
                Some(u16_le_bytes(speed)),
            ),
            request@.len() == 6,
    {
        let body: [u8; 2] = [(speed % 0x100) as u8, (speed / 0x100) as u8];
        assert(body@ =~= u16_le_bytes(speed));
        encode_request(SlLidarCmd::HQMotorSpeedCtrl, Some(body.as_slice()))
    }
}

/// The value of a configuration entry that is a count or an index: two
/// bytes, lowest first. A payload of any other length holds no such value.
pub fn conf_u16(payload: &[u8]) -> (value: Option<u16>)
    ensures
        value == if payload@.len() == 2 {
            Some(le_u16(payload@[0], payload@[1]) as u16)
        } else {
            None
        },
{
    if payload.len() != 2 {
        return None;
    }
    Some(payload[0] as u16 + 0x100 * (payload[1] as u16))
}

/// The value of a configuration entry that is a duration or a distance: four
/// bytes, lowest first, in units of 1/256; the whole units are given. A
/// payload of any other length holds no such value.
pub fn conf_u32_q8(payload: &[u8]) -> (value: Option<u32>)
    ensures
        value == if payload@.len() == 4 {
            Some((le_u32(payload@) / 256) as u32)
        } else {
            None
        },
{
    if payload.len() != 4 {
        return None;
    }
    let mut rest: &[u8] = payload;
    let raw: u32 = read_le_u32(&mut rest);
    Some(raw / 256)
}

/// The error of `String::from_utf8`, carried through unopened.
#[verifier::external_type_specification]
#[verifier::external_body]
pub struct ExFromUtf8Error(std::string::FromUtf8Error);

/// `String::from_utf8` checks that the bytes are valid UTF-8: it succeeds
/// exactly where they are, and the string it gives holds the characters
/// that the bytes encode.
#[verifier::external_body]
fn string_from_utf8(bytes: Vec<u8>) -> (text: Result<String, std::string::FromUtf8Error>)
    ensures
        text is Ok <==> valid_utf8(bytes@),
        text matches Ok(s) ==> s@ == decode_utf8(bytes@),
{
    String::from_utf8(bytes)
}

/// The value of a configuration entry that is a name: UTF-8 text without a
/// terminator, as long as the device sent it. Bytes that are not UTF-8 hold
/// no name.
pub fn conf_name(payload: Vec<u8>) -> (name: Option<String>)
    ensures
        name is Some <==> valid_utf8(payload@),
        name matches Some(s) ==> s@ == decode_utf8(payload@),
{
    match string_from_utf8(payload) {
        Ok(s) => Some(s),
        Err(_) => None,
    }
}

} // verus!
