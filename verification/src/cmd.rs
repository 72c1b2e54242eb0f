//! Command opcodes, answer types and the fixed-layout records of the protocol.

use vstd::arithmetic::power2::{lemma2_to64, pow2};
use vstd::prelude::*;

verus! {

/// Motor speed value that asks the device for its default speed.
pub const DEFAULT_MOTOR_SPEED: u16 = 0xFFFF;

/// First byte of every request.
pub const REQUEST_SYNC: u8 = 0xA5;

/// First byte of every response descriptor.
pub const RESPONSE_SYNC_1: u8 = 0xA5;

/// Second byte of every response descriptor.
pub const RESPONSE_SYNC_2: u8 = 0x5A;

/// Commands the device understands.
#[derive(Debug, Clone, Copy, PartialEq, Eq, Structural)]
pub enum SlLidarCmd {
    Stop,
    Scan,
    ForceScan,
    Reset,
    NewBaudrateConfirm,
    GetDeviceInfo,
    GetDeviceHealth,
    GetSampleRate,
    HQMotorSpeedCtrl,
    ExpressScan,
    HQScan,
    GetLidarConf,
    SetLidarConf,
    SetMotorPWM,
    GetAccBoardFlag,
}

impl SlLidarCmd {
    /// The opcode byte that stands for the command on the wire.
    pub open spec fn spec_opcode(self) -> u8 {
        match self {
            SlLidarCmd::Stop => 0x25,
            SlLidarCmd::Scan => 0x20,
            SlLidarCmd::ForceScan => 0x21,
            SlLidarCmd::Reset => 0x40,
            SlLidarCmd::NewBaudrateConfirm => 0x90,
            SlLidarCmd::GetDeviceInfo => 0x50,
            SlLidarCmd::GetDeviceHealth => 0x52,
            SlLidarCmd::GetSampleRate => 0x59,
            SlLidarCmd::HQMotorSpeedCtrl => 0xA8,
            SlLidarCmd::ExpressScan => 0x82,
            SlLidarCmd::HQScan => 0x83,
            SlLidarCmd::GetLidarConf => 0x84,
            SlLidarCmd::SetLidarConf => 0x85,
            SlLidarCmd::SetMotorPWM => 0xF0,
            SlLidarCmd::GetAccBoardFlag => 0xFF,
        }
    }

    /// The opcode byte that stands for the command on the wire.
    #[verifier::when_used_as_spec(spec_opcode)]
    pub fn opcode(self) -> (op: u8)
        ensures
            op == self.spec_opcode(),
    {
        match self {
            SlLidarCmd::Stop => 0x25,
            SlLidarCmd::Scan => 0x20,
            SlLidarCmd::ForceScan => 0x21,
            SlLidarCmd::Reset => 0x40,
            SlLidarCmd::NewBaudrateConfirm => 0x90,
            SlLidarCmd::GetDeviceInfo => 0x50,
            SlLidarCmd::GetDeviceHealth => 0x52,
            SlLidarCmd::GetSampleRate => 0x59,
            SlLidarCmd::HQMotorSpeedCtrl => 0xA8,
            SlLidarCmd::ExpressScan => 0x82,
            SlLidarCmd::HQScan => 0x83,
            SlLidarCmd::GetLidarConf => 0x84,
            SlLidarCmd::SetLidarConf => 0x85,
            SlLidarCmd::SetMotorPWM => 0xF0,
            SlLidarCmd::GetAccBoardFlag => 0xFF,
        }
    }
}

/// Kinds of answer, as named by the data-type byte of a response descriptor.
#[derive(Debug, Clone, Copy, PartialEq, Eq, Structural)]
pub enum SlLidarAnsType {
    DevInfo,
    DevHealth,
    Measurement,
    MeasurementCapsuled,
    MeasurementHQ,
    MeasurementCapsuledUltra,
    MeasurementDenseCapsuled,
    MeasurementUltraDenseCapsuled,
    SampleRate,
    GetLidarConf,
    SetLidarConf,
    AccBoardFlag,
}

impl SlLidarAnsType {
    /// The data-type byte that names this kind of answer.
    pub open spec fn spec_code(self) -> u8 {
        match self {
            SlLidarAnsType::DevInfo => 0x04,
            SlLidarAnsType::DevHealth => 0x06,
            SlLidarAnsType::Measurement => 0x81,
            SlLidarAnsType::MeasurementCapsuled => 0x82,
            SlLidarAnsType::MeasurementHQ => 0x83,
            SlLidarAnsType::MeasurementCapsuledUltra => 0x84,
            SlLidarAnsType::MeasurementDenseCapsuled => 0x85,
            SlLidarAnsType::MeasurementUltraDenseCapsuled => 0x86,
            SlLidarAnsType::SampleRate => 0x15,
            SlLidarAnsType::GetLidarConf => 0x20,
            SlLidarAnsType::SetLidarConf => 0x21,
            SlLidarAnsType::AccBoardFlag => 0xFF,
        }
    }

    /// The data-type byte that names this kind of answer.
    #[verifier::when_used_as_spec(spec_code)]
    pub fn code(self) -> (c: u8)
        ensures
            c == self.spec_code(),
    {
        match self {
            SlLidarAnsType::DevInfo => 0x04,
            SlLidarAnsType::DevHealth => 0x06,
            SlLidarAnsType::Measurement => 0x81,
            SlLidarAnsType::MeasurementCapsuled => 0x82,
            SlLidarAnsType::MeasurementHQ => 0x83,
            SlLidarAnsType::MeasurementCapsuledUltra => 0x84,
            SlLidarAnsType::MeasurementDenseCapsuled => 0x85,
            SlLidarAnsType::MeasurementUltraDenseCapsuled => 0x86,
            SlLidarAnsType::SampleRate => 0x15,
            SlLidarAnsType::GetLidarConf => 0x20,
            SlLidarAnsType::SetLidarConf => 0x21,
            SlLidarAnsType::AccBoardFlag => 0xFF,
        }
    }
}

/// Keys of the scan-mode configuration query.
#[derive(Debug, Clone, Copy, PartialEq, Eq, Structural)]
pub enum ScanModeConfEntry {
    Count,
    UsPerSample,
    MaxDistance,
    AnsType,
    Typical,
    Name,
}

impl ScanModeConfEntry {
    /// The 32-bit key sent to the device.
    pub open spec fn spec_key(self) -> u32 {
        match self {
            ScanModeConfEntry::Count => 0x70,
            ScanModeConfEntry::UsPerSample => 0x71,
            ScanModeConfEntry::MaxDistance => 0x74,
            ScanModeConfEntry::AnsType => 0x75,
            ScanModeConfEntry::Typical => 0x7C,
            ScanModeConfEntry::Name => 0x7F,
        }
    }

    /// The 32-bit key sent to the device.
    #[verifier::when_used_as_spec(spec_key)]
    pub fn key(self) -> (k: u32)
        ensures
            k == self.spec_key(),
    {
        match self {
            ScanModeConfEntry::Count => 0x70,
            ScanModeConfEntry::UsPerSample => 0x71,
            ScanModeConfEntry::MaxDistance => 0x74,
            ScanModeConfEntry::AnsType => 0x75,
            ScanModeConfEntry::Typical => 0x7C,
            ScanModeConfEntry::Name => 0x7F,
        }
    }

    /// Whether a query for this key names a scan mode by its index. `Count`
    /// and `Typical` ask about the device as a whole and carry none.
    pub open spec fn spec_takes_index(self) -> bool {
        !(self is Count || self is Typical)
    }

    /// Whether a query for this key names a scan mode by its index.
    #[verifier::when_used_as_spec(spec_takes_index)]
    pub fn takes_index(self) -> (b: bool)
        ensures
            b == self.spec_takes_index(),
    {
        match self {
            ScanModeConfEntry::Count => false,
            ScanModeConfEntry::Typical => false,
            _ => true,
        }
    }

    /// The length of the payload of a query for this key: four bytes of
    /// key, and four more where the query names a scan mode.
    pub open spec fn spec_body_len(self) -> u8 {
        if self.spec_takes_index() {
            8
        } else {
            4
        }
    }

    /// The length of the payload of a query for this key.
    #[verifier::when_used_as_spec(spec_body_len)]
    pub fn body_len(self) -> (len: u8)
        ensures
            len == self.spec_body_len(),
    {
        if self.takes_index() {
            8
        } else {
            4
        }
    }

    /// The place of the checksum in a query for this key: behind the sync
    /// byte, the opcode, the length byte and the payload.
    pub open spec fn spec_checksum_offset(self) -> usize {
        (3 + self.spec_body_len()) as usize
    }

    /// The place of the checksum in a query for this key.
    #[verifier::when_used_as_spec(spec_checksum_offset)]
    pub fn checksum_offset(self) -> (offset: usize)
        ensures
            offset == self.spec_checksum_offset(),
    {
        3 + self.body_len() as usize
    }
}

/// Answer to a device-information query.
#[derive(Debug, Clone, Copy)]
pub struct SlLidarResponseDeviceInfoT {
    pub model: u8,
    pub firmware_version: u16,
    pub hardware_version: u8,
    pub serial_number: [u8; 16],
}

/// Answer to a health query. Status 0 is healthy, 1 a warning, 2 an error.
#[derive(Debug, Clone, Copy, PartialEq, Eq, Structural)]
pub struct SlLidarResponseDeviceHealthT {
    pub status: u8,
    pub error_code: u16,
}

/// Answer to a sample-rate query: the time one sample takes in each scan
/// mode, in microseconds.
#[derive(Debug, Clone, Copy, PartialEq, Eq, Structural)]
pub struct SlLidarResponseSampleRateT {
    pub std_sample_duration_us: u16,
    pub express_sample_duration_us: u16,
}

/// Answer to a scan-mode configuration query: the key echoed by the device
/// and the bytes of the value.
#[derive(Debug, Clone)]
pub struct SlLidarResponseGetLidarConf {
    pub conf_type: u32,
    pub payload: Vec<u8>,
}

/// Scaled value at which the range of halved sources begins.
pub const SL_LIDAR_VARBITSCALE_X2_DEST_VAL: u16 = 512;

/// Scaled value at which the range of quartered sources begins.
pub const SL_LIDAR_VARBITSCALE_X4_DEST_VAL: u16 = 1280;

/// Scaled value at which the range of sources divided by eight begins.
pub const SL_LIDAR_VARBITSCALE_X8_DEST_VAL: u16 = 1792;

/// Scaled value at which the range of sources divided by sixteen begins.
pub const SL_LIDAR_VARBITSCALE_X16_DEST_VAL: u16 = 3328;

/// The largest source value that the variable-bit scale maps into `bits`
/// bits, as 16-bit arithmetic computes it: each range of scaled values
/// counts by its divisor, and the topmost range, counted by sixteen, keeps
/// its low 16 bits only.
pub open spec fn varbitscale_src_max_val(bits: u32) -> int {
    let x2 = SL_LIDAR_VARBITSCALE_X2_DEST_VAL as int;
    let x4 = SL_LIDAR_VARBITSCALE_X4_DEST_VAL as int;
    let x8 = SL_LIDAR_VARBITSCALE_X8_DEST_VAL as int;
    let x16 = SL_LIDAR_VARBITSCALE_X16_DEST_VAL as int;
    ((pow2(bits as nat) - x16) * 16) % 0x1_0000 + (x16 - x8) * 8 + (x8 - x4) * 4 + (x4 - x2) * 2
        + x2 - 1
}

/// The largest source value that the variable-bit scale maps into `bits`
/// bits. The topmost range must not be empty and the shift must stay
/// inside 16 bits, so `bits` lies between 12 and 15; on all of these the
/// low 16 bits come to the same value.
pub fn sl_lidar_varbitscale_get_src_max_val_by_bits(bits: u32) -> (max: u16)
    requires
        12 <= bits <= 15,
    ensures
        max == varbitscale_src_max_val(bits),
        max == 28671,
{
    let top: u16 = 1u16 << bits;
    assert((bits == 12 ==> top == 4096) && (bits == 13 ==> top == 8192) && (bits == 14 ==> top
        == 16384) && (bits == 15 ==> top == 32768)) by (bit_vector)
        requires
            top == 1u16 << bits,
            12 <= bits <= 15,
    ;
    assert(top == pow2(bits as nat)) by {
        lemma2_to64();
    }
    let step16: u16 = (top - SL_LIDAR_VARBITSCALE_X16_DEST_VAL) << 4;
    assert(step16 == 12288) by (bit_vector)
        requires
            step16 == ((top - 3328u16) as u16) << 4,
            top == 4096 || top == 8192 || top == 16384 || top == 32768,
    ;
    let step8: u16 = (SL_LIDAR_VARBITSCALE_X16_DEST_VAL - SL_LIDAR_VARBITSCALE_X8_DEST_VAL) << 3;
    let step4: u16 = (SL_LIDAR_VARBITSCALE_X8_DEST_VAL - SL_LIDAR_VARBITSCALE_X4_DEST_VAL) << 2;
    let step2: u16 = (SL_LIDAR_VARBITSCALE_X4_DEST_VAL - SL_LIDAR_VARBITSCALE_X2_DEST_VAL) << 1;
    assert(step8 == 12288 && step4 == 2048 && step2 == 1536) by (bit_vector)
        requires
            step8 == 1536u16 << 3,
            step4 == 512u16 << 2,
            step2 == 768u16 << 1,
    ;
    step16 + step8 + step4 + step2 + SL_LIDAR_VARBITSCALE_X2_DEST_VAL - 1
}

} // verus!
