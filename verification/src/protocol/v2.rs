//! Protocol v2: wire frames and the request/response controller.
//!
//! An instruction frame is
//! `FF FF FD 00 ID LEN_L LEN_H INST [param...] CRC_L CRC_H`; a status frame
//! replaces `INST` with the `55` marker followed by an error byte. The
//! declared length is little-endian and covers everything from the
//! instruction/status marker through the CRC pair. The CRC-16/BUYPASS is
//! computed over every byte preceding the CRC pair and emitted
//! little-endian.

use vstd::prelude::*;

use crate::error::{DynamixelError, ErrorType};
use crate::motors::Register;
use crate::protocol::{hi, lo, pack, unpack, word, lemma_word_bytes};
use crate::transport::{Clock, SerialRead, SerialWrite};

verus! {

/// The id addressing every servo on the bus at once. Reserved for
/// sync-read and sync-write; never reused for any other purpose.
pub const BROADCAST_ID: u8 = 254;

/// The instruction opcodes of protocol v2.
#[derive(Clone, Copy, Debug)]
pub enum Instruction {
    /// Presence check.
    Ping,
    /// Read a register.
    ReadData,
    /// Write a register.
    WriteData,
    /// Factory reset.
    Reset,
    /// Broadcast read: every addressed servo answers in turn.
    SyncRead,
    /// Broadcast write: applied silently, nothing answers.
    SyncWrite,
}

impl Instruction {
    /// The opcode byte of the instruction on the wire.
    pub open spec fn spec_byte(self) -> u8 {
        match self {
            Instruction::Ping => 0x01,
            Instruction::ReadData => 0x02,
            Instruction::WriteData => 0x03,
            Instruction::Reset => 0x06,
            Instruction::SyncRead => 0x82,
            Instruction::SyncWrite => 0x83,
        }
    }

    /// Emits the opcode byte.
    pub fn as_byte(self) -> (r: u8)
        ensures
            r == self.spec_byte(),
    {
        match self {
            Instruction::Ping => 0x01,
            Instruction::ReadData => 0x02,
            Instruction::WriteData => 0x03,
            Instruction::Reset => 0x06,
            Instruction::SyncRead => 0x82,
            Instruction::SyncWrite => 0x83,
        }
    }
}

/// The CRC-16/BUYPASS value of a byte sequence.
pub uninterp spec fn crc_of(bytes: Seq<u8>) -> u16;

/// Relies on `crc16::State::<BUYPASS>::calculate`: the CRC-16/BUYPASS of
/// the bytes (polynomial `0x8005`, initial value `0x0000`, no reflection,
/// no final xor), a function of the bytes alone.
#[verifier::external_body]
fn crc(bytes: &[u8]) -> (r: u16)
    ensures
        r == crc_of(bytes@),
{
    crc16::State::<crc16::BUYPASS>::calculate(bytes)
}

/// The bytes of an instruction frame before the CRC pair: magic, id,
/// little-endian declared length `|params| + 3`, opcode, parameters.
pub open spec fn instr_payload(id: u8, instr: u8, params: Seq<u8>) -> Seq<u8> {
    let len = (params.len() + 3) as u16;
    seq![0xFFu8, 0xFFu8, 0xFDu8, 0x00u8, id, lo(len), hi(len), instr] + params
}

/// A frame body followed by its CRC, little-endian.
pub open spec fn with_crc(body: Seq<u8>) -> Seq<u8> {
    body.push(lo(crc_of(body))).push(hi(crc_of(body)))
}

/// The full wire form of an instruction frame.
pub open spec fn instr_wire(id: u8, instr: u8, params: Seq<u8>) -> Seq<u8> {
    with_crc(instr_payload(id, instr, params))
}

/// The bytes of a status frame before the CRC pair: magic, id,
/// little-endian declared length `|params| + 4`, the `0x55` marker, the
/// error byte, parameters.
pub open spec fn status_payload(id: u8, err: u8, params: Seq<u8>) -> Seq<u8> {
    let len = (params.len() + 4) as u16;
    seq![0xFFu8, 0xFFu8, 0xFDu8, 0x00u8, id, lo(len), hi(len), 0x55u8, err] + params
}

/// The full wire form of a status frame.
pub open spec fn status_wire(id: u8, err: u8, params: Seq<u8>) -> Seq<u8> {
    with_crc(status_payload(id, err, params))
}

/// The four magic bytes opening every v2 frame.
pub open spec fn magic_ok(b: Seq<u8>) -> bool {
    b.len() >= 4 && b[0] == 0xFF && b[1] == 0xFF && b[2] == 0xFD && b[3] == 0x00
}

/// The structural checks of a status frame, in decode order: minimum size,
/// magic, declared length matching the actual length, status marker.
pub open spec fn status_shape_ok(b: Seq<u8>) -> bool {
    &&& b.len() >= 11
    &&& magic_ok(b)
    &&& b.len() == 7 + word(b[5], b[6])
    &&& b[7] == 0x55
}

/// The trailing CRC pair matches the CRC of everything before it.
pub open spec fn frame_crc_ok(b: Seq<u8>) -> bool
    recommends
        b.len() >= 2,
{
    crc_of(b.take(b.len() - 2)) == word(b[b.len() - 2], b[b.len() - 1])
}

/// Frame header: the magic, the addressed id, and the declared length of
/// everything that follows the header, little-endian.
#[derive(Debug)]
pub struct PacketHeader {
    /// The id carried by the frame.
    pub id: u8,
    /// The declared length: the byte count from the instruction/status
    /// marker through the CRC pair.
    pub length: u16,
}

impl PacketHeader {
    /// Parses the 7 header bytes; anything not opening with the v2 magic
    /// fails with `Parsing`.
    pub fn from_bytes(bytes: &[u8]) -> (r: Result<PacketHeader, DynamixelError>)
        requires
            bytes@.len() == 7,
        ensures
            match r {
                Ok(h) => magic_ok(bytes@) && h.id == bytes@[4] && h.length == word(
                    bytes@[5],
                    bytes@[6],
                ),
                Err(e) => !magic_ok(bytes@) && e.error == ErrorType::Parsing,
            },
    {
        if bytes[0] != 0xFF || bytes[1] != 0xFF || bytes[2] != 0xFD || bytes[3] != 0x00 {
            return Err(DynamixelError::parsing_error());
        }
        Ok(PacketHeader { id: bytes[4], length: pack(bytes[5], bytes[6]) })
    }

    /// The byte count of a v2 frame header.
    pub fn length() -> (r: usize)
        ensures
            r == 7,
    {
        7
    }
}

/// A value encoded little-endian over a register width of 1 or 2 bytes:
/// the low byte alone, or the low byte then the high byte.
pub open spec fn coded_value(len: u16, data: u16) -> Seq<u8>
    recommends
        len == 1 || len == 2,
{
    if len == 1 {
        seq![lo(data)]
    } else {
        seq![lo(data), hi(data)]
    }
}

/// The value read little-endian from a payload of a register width of 1
/// or 2 bytes.
pub open spec fn decoded_value(len: u16, data: Seq<u8>) -> u16
    recommends
        (len == 1 || len == 2) && data.len() == len,
{
    if len == 1 {
        data[0] as u16
    } else {
        word(data[0], data[1])
    }
}

/// Encodes `data` little-endian over a register width of 1 or 2 bytes;
/// any other width is unsupported.
pub fn code_data(len: u16, data: u16) -> (r: Result<Vec<u8>, DynamixelError>)
    ensures
        match r {
            Ok(v) => (len == 1 || len == 2) && v@ == coded_value(len, data),
            Err(e) => !(len == 1 || len == 2) && e.error == ErrorType::UnsupportedRegister,
        },
{
    if len == 1 {
        let v = vec![(data % 256) as u8];
        proof {
            assert(v@ =~= coded_value(len, data));
        }
        Ok(v)
    } else if len == 2 {
        let (l, h) = unpack(data);
        let v = vec![l, h];
        proof {
            assert(v@ =~= coded_value(len, data));
        }
        Ok(v)
    } else {
        Err(DynamixelError::unsupported_register())
    }
}

/// Reads a value little-endian from a payload of a register width of 1 or
/// 2 bytes; any other width is unsupported.
pub fn decode_data(len: u16, data: &[u8]) -> (r: Result<u16, DynamixelError>)
    requires
        data@.len() == len,
    ensures
        match r {
            Ok(v) => (len == 1 || len == 2) && v == decoded_value(len, data@),
            Err(e) => !(len == 1 || len == 2) && e.error == ErrorType::UnsupportedRegister,
        },
{
    if len == 1 {
        Ok(data[0] as u16)
    } else if len == 2 {
        Ok(pack(data[0], data[1]))
    } else {
        Err(DynamixelError::unsupported_register())
    }
}

/// Decodes the parameter payload of a status reply against a register
/// width: a width outside {1, 2} is unsupported, a payload whose length
/// differs from the width is a parsing failure, and otherwise the value
/// is read little-endian over the width.
pub fn decode_reply(w: u16, params: &[u8]) -> (r: Result<u16, DynamixelError>)
    ensures
        match r {
            Ok(v) => {
                &&& w == 1 || w == 2
                &&& params@.len() == w
                &&& v == decoded_value(w, params@)
            },
            Err(e) => {
                ||| !(w == 1 || w == 2) && e.error == ErrorType::UnsupportedRegister
                ||| (w == 1 || w == 2) && params@.len() != w && e.error == ErrorType::Parsing
            },
        },
{
    if w != 1 && w != 2 {
        return Err(DynamixelError::unsupported_register());
    }
    if params.len() != w as usize {
        return Err(DynamixelError::parsing_error());
    }
    decode_data(w, params)
}

/// The per-pair section of a sync-write parameter block: each target id
/// followed by its value encoded over the register width, in the order
/// given.
pub open spec fn sync_write_params(len: u16, data: Seq<(u8, u16)>) -> Seq<u8>
    decreases data.len(),
{
    if data.len() == 0 {
        Seq::empty()
    } else {
        sync_write_params(len, data.drop_last()) + seq![data.last().0] + coded_value(
            len,
            data.last().1,
        )
    }
}

/// An instruction frame as the controller builds it, serialized
/// immediately and never retained.
#[derive(Debug)]
pub struct InstructionPacket {
    /// The addressed servo id, or `BROADCAST_ID`.
    pub id: u8,
    /// The declared length: opcode byte, parameters and CRC pair.
    pub length: u16,
    /// The opcode.
    pub instruction: Instruction,
    /// The parameter bytes, passed through to the wire untouched.
    pub parameters: Vec<u8>,
}

impl InstructionPacket {
    /// The declared length covers the opcode byte, the parameters and the
    /// two CRC bytes.
    pub open spec fn wf(self) -> bool {
        self.length == self.parameters@.len() + 3
    }

    /// Builds a packet over the given parameters, deriving the declared
    /// length.
    pub fn new(id: u8, instruction: Instruction, parameters: Vec<u8>) -> (r: InstructionPacket)
        requires
            parameters@.len() + 3 <= u16::MAX,
        ensures
            r.id == id,
            r.instruction == instruction,
            r.parameters@ == parameters@,
            r.wf(),
    {
        let length = (parameters.len() + 3) as u16;
        InstructionPacket { id, length, instruction, parameters }
    }

    /// A ping instruction: empty parameters.
    pub fn ping(id: u8) -> (r: InstructionPacket)
        ensures
            r.id == id,
            r.instruction == Instruction::Ping,
            r.parameters@ == Seq::<u8>::empty(),
            r.wf(),
    {
        InstructionPacket::new(id, Instruction::Ping, Vec::new())
    }

    /// A read instruction: parameters are the little-endian register
    /// address then the little-endian register width.
    pub fn read_data(id: u8, addr: u16, len: u16) -> (r: InstructionPacket)
        ensures
            r.id == id,
            r.instruction == Instruction::ReadData,
            r.parameters@ == seq![lo(addr), hi(addr), lo(len), hi(len)],
            r.wf(),
    {
        let (addr_l, addr_h) = unpack(addr);
        let (len_l, len_h) = unpack(len);
        let p = InstructionPacket::new(
            id,
            Instruction::ReadData,
            vec![addr_l, addr_h, len_l, len_h],
        );
        proof {
            assert(p.parameters@ =~= seq![lo(addr), hi(addr), lo(len), hi(len)]);
        }
        p
    }

    /// A sync-read instruction: broadcast id; parameters are the
    /// little-endian address, the little-endian width, then each target id
    /// in the order given.
    pub fn sync_read_data(ids: &[u8], addr: u16, len: u16) -> (r: InstructionPacket)
        requires
            ids@.len() + 7 <= u16::MAX,
        ensures
            r.id == BROADCAST_ID,
            r.instruction == Instruction::SyncRead,
            r.parameters@ == seq![lo(addr), hi(addr), lo(len), hi(len)] + ids@,
            r.wf(),
    {
        let (addr_l, addr_h) = unpack(addr);
        let (len_l, len_h) = unpack(len);
        let mut param = vec![addr_l, addr_h, len_l, len_h];
        param.extend_from_slice(ids);
        proof {
            assert(param@ =~= seq![lo(addr), hi(addr), lo(len), hi(len)] + ids@);
        }
        InstructionPacket::new(BROADCAST_ID, Instruction::SyncRead, param)
    }

    /// A write instruction: parameters are the little-endian address then
    /// the value encoded little-endian over the register width. Widths
    /// other than 1 and 2 yield `UnsupportedRegister`.
    pub fn write_data(id: u8, addr: u16, len: u16, data: u16) -> (r: Result<
        InstructionPacket,
        DynamixelError,
    >)
        ensures
            match r {
                Ok(p) => {
                    &&& len == 1 || len == 2
                    &&& p.id == id
                    &&& p.instruction == Instruction::WriteData
                    &&& p.parameters@ == seq![lo(addr), hi(addr)] + coded_value(len, data)
                    &&& p.wf()
                },
                Err(e) => !(len == 1 || len == 2) && e.error == ErrorType::UnsupportedRegister,
            },
    {
        let (addr_l, addr_h) = unpack(addr);
        let mut parameters = vec![addr_l, addr_h];
        let coded = match code_data(len, data) {
            Ok(v) => v,
            Err(e) => {
                return Err(e);
            },
        };
        parameters.extend_from_slice(coded.as_slice());
        proof {
            assert(parameters@ =~= seq![lo(addr), hi(addr)] + coded_value(len, data));
        }
        Ok(InstructionPacket::new(id, Instruction::WriteData, parameters))
    }

    /// A sync-write instruction: broadcast id; parameters are the
    /// little-endian address then, per pair, the target id followed by its
    /// value encoded over the register width. Widths other than 1 and 2
    /// yield `UnsupportedRegister`.
    pub fn sync_write_data(addr: u16, len: u16, data: &[(u8, u16)]) -> (r: Result<
        InstructionPacket,
        DynamixelError,
    >)
        requires
            2 + data@.len() * 3 + 3 <= u16::MAX,
        ensures
            match r {
                Ok(p) => {
                    &&& len == 1 || len == 2
                    &&& p.id == BROADCAST_ID
                    &&& p.instruction == Instruction::SyncWrite
                    &&& p.parameters@ == seq![lo(addr), hi(addr)] + sync_write_params(len, data@)
                    &&& p.wf()
                },
                Err(e) => !(len == 1 || len == 2) && e.error == ErrorType::UnsupportedRegister,
            },
    {
        if len != 1 && len != 2 {
            return Err(DynamixelError::unsupported_register());
        }
        let (addr_l, addr_h) = unpack(addr);
        let mut param = vec![addr_l, addr_h];
        proof {
            assert(param@ =~= seq![lo(addr), hi(addr)] + sync_write_params(len, data@.take(0)));
        }
        let n = data.len();
        let mut i: usize = 0;
        while i < n
            invariant
                i <= n,
                n == data@.len(),
                len == 1 || len == 2,
                2 + n * 3 + 3 <= u16::MAX,
                param@.len() <= 2 + i * 3,
                param@ == seq![lo(addr), hi(addr)] + sync_write_params(len, data@.take(i as int)),
            decreases n - i,
        {
            let (id, value) = data[i];
            param.push(id);
            let coded = code_data(len, value).unwrap();
            param.extend_from_slice(coded.as_slice());
            proof {
                assert(data@.take(i + 1).drop_last() =~= data@.take(i as int));
                assert(data@.take(i + 1).last() == data@[i as int]);
                assert(param@ =~= seq![lo(addr), hi(addr)] + sync_write_params(
                    len,
                    data@.take(i + 1),
                ));
            }
            i += 1;
        }
        proof {
            assert(data@.take(n as int) =~= data@);
        }
        Ok(InstructionPacket::new(BROADCAST_ID, Instruction::SyncWrite, param))
    }

    /// The full wire form: magic, id, little-endian declared length,
    /// opcode, parameters, then the CRC over all preceding bytes,
    /// little-endian.
    pub fn as_bytes(&self) -> (r: Vec<u8>)
        requires
            self.wf(),
        ensures
            r@ == instr_wire(self.id, self.instruction.spec_byte(), self.parameters@),
    {
        let (len_l, len_h) = unpack(self.length);
        let mut buff: Vec<u8> = vec![
            0xFF,
            0xFF,
            0xFD,
            0x00,
            self.id,
            len_l,
            len_h,
            self.instruction.as_byte(),
        ];
        buff.extend_from_slice(self.parameters.as_slice());
        proof {
            assert(buff@ =~= instr_payload(
                self.id,
                self.instruction.spec_byte(),
                self.parameters@,
            ));
        }
        let c = crc(buff.as_slice());
        let (crc_l, crc_h) = unpack(c);
        buff.push(crc_l);
        buff.push(crc_h);
        proof {
            assert(buff@ =~= instr_wire(self.id, self.instruction.spec_byte(), self.parameters@));
        }
        buff
    }
}

/// The error byte a status frame carries for an error code: 0 when the
/// code is absent.
pub open spec fn err_byte(e: Option<u8>) -> u8 {
    match e {
        Option::None => 0,
        Option::Some(b) => b,
    }
}

/// A status frame as parsed from received bytes, never retained.
#[derive(Debug)]
pub struct StatusPacket {
    /// The id of the answering servo.
    pub id: u8,
    /// The declared length as found on the wire: marker, error byte,
    /// parameters and CRC pair.
    pub length: u16,
    /// The error byte, absent when the wire carried 0.
    pub error_code: Option<u8>,
    /// The bytes between the error byte and the trailing CRC.
    pub parameters: Vec<u8>,
}

impl StatusPacket {
    /// The declared length covers the marker, the error byte, the
    /// parameters and the two CRC bytes.
    pub open spec fn wf(self) -> bool {
        self.length == self.parameters@.len() + 4
    }

    /// Decodes a status frame. The checks run in order: a frame shorter
    /// than 11 bytes, without the magic, whose declared length does not
    /// match its actual length, or without the `0x55` marker fails with
    /// `Parsing`; then a CRC mismatch fails with `InvalidChecksum`. On
    /// success the error byte is reported as absent when it is 0, and the
    /// parameters are the bytes between the error byte and the CRC pair.
    pub fn from_bytes(bytes: &[u8]) -> (r: Result<StatusPacket, DynamixelError>)
        ensures
            match r {
                Ok(p) => {
                    &&& status_shape_ok(bytes@)
                    &&& frame_crc_ok(bytes@)
                    &&& p.id == bytes@[4]
                    &&& p.length == word(bytes@[5], bytes@[6])
                    &&& p.error_code == (if bytes@[8] == 0 {
                        Option::<u8>::None
                    } else {
                        Option::Some(bytes@[8])
                    })
                    &&& p.parameters@ == bytes@.subrange(9, bytes@.len() - 2)
                    &&& p.wf()
                },
                Err(e) => {
                    ||| !status_shape_ok(bytes@) && e.error == ErrorType::Parsing
                    ||| status_shape_ok(bytes@) && !frame_crc_ok(bytes@) && e.error
                        == ErrorType::InvalidChecksum
                },
            },
    {
        let n = bytes.len();
        if n < 11 {
            return Err(DynamixelError::parsing_error());
        }
        if bytes[0] != 0xFF || bytes[1] != 0xFF || bytes[2] != 0xFD || bytes[3] != 0x00 {
            return Err(DynamixelError::parsing_error());
        }
        let declared = pack(bytes[5], bytes[6]);
        if n != 7 + declared as usize {
            return Err(DynamixelError::parsing_error());
        }
        if bytes[7] != 0x55 {
            return Err(DynamixelError::parsing_error());
        }
        let c = crc(&bytes[0..n - 2]);
        if c != pack(bytes[n - 2], bytes[n - 1]) {
            return Err(DynamixelError::invalid_checksum());
        }
        let error_code = if bytes[8] == 0 {
            None
        } else {
            Some(bytes[8])
        };
        let mut parameters: Vec<u8> = Vec::new();
        parameters.extend_from_slice(&bytes[9..n - 2]);
        proof {
            assert(parameters@ =~= bytes@.subrange(9, bytes@.len() - 2));
        }
        Ok(StatusPacket { id: bytes[4], length: declared, error_code, parameters })
    }

    /// Encodes the packet back to its wire form; the error byte is 0 when
    /// `error_code` is absent.
    pub fn to_bytes(&self) -> (r: Vec<u8>)
        requires
            self.wf(),
        ensures
            r@ == status_wire(self.id, err_byte(self.error_code), self.parameters@),
    {
        let (len_l, len_h) = unpack(self.length);
        let err = match self.error_code {
            Some(e) => e,
            None => 0,
        };
        let mut bytes: Vec<u8> = vec![
            0xFF,
            0xFF,
            0xFD,
            0x00,
            self.id,
            len_l,
            len_h,
            0x55,
            err,
        ];
        bytes.extend_from_slice(self.parameters.as_slice());
        proof {
            assert(bytes@ =~= status_payload(
                self.id,
                err_byte(self.error_code),
                self.parameters@,
            ));
        }
        let c = crc(bytes.as_slice());
        let (crc_l, crc_h) = unpack(c);
        bytes.push(crc_l);
        bytes.push(crc_h);
        proof {
            assert(bytes@ =~= status_wire(self.id, err_byte(self.error_code), self.parameters@));
        }
        bytes
    }
}

/// Round-trip of instruction frames: for any legal id, opcode and
/// parameters, the encoded frame opens with the magic, its header carries
/// the same id and the declared length `|parameters| + 3`, its parameter
/// bytes are the ones encoded, and the trailing CRC pair verifies against
/// everything before it.
pub proof fn lemma_instruction_round_trip(id: u8, instr: u8, params: Seq<u8>)
    requires
        params.len() + 3 <= u16::MAX,
    ensures
        ({
            let w = instr_wire(id, instr, params);
            &&& w.len() == params.len() + 10
            &&& magic_ok(w)
            &&& w[4] == id
            &&& word(w[5], w[6]) == params.len() + 3
            &&& w[7] == instr
            &&& w.subrange(8, w.len() - 2) == params
            &&& frame_crc_ok(w)
        }),
{
    let body = instr_payload(id, instr, params);
    let w = instr_wire(id, instr, params);
    let len = (params.len() + 3) as u16;
    lemma_word_bytes(len, 0, 0);
    lemma_word_bytes(crc_of(body), 0, 0);
    assert(w.subrange(8, w.len() - 2) =~= params);
    assert(w.take(w.len() - 2) =~= body);
}

/// Round-trip of status frames: a synthetic status frame built from any
/// legal id, error byte and parameters passes every structural check, its
/// CRC verifies, and the id, declared length `|parameters| + 4`, error
/// byte and parameter bytes read back are the ones encoded.
pub proof fn lemma_status_round_trip(id: u8, err: u8, params: Seq<u8>)
    requires
        params.len() + 4 <= u16::MAX,
    ensures
        ({
            let w = status_wire(id, err, params);
            &&& w.len() == params.len() + 11
            &&& status_shape_ok(w)
            &&& frame_crc_ok(w)
            &&& w[4] == id
            &&& word(w[5], w[6]) == params.len() + 4
            &&& w[8] == err
            &&& w.subrange(9, w.len() - 2) == params
        }),
{
    let body = status_payload(id, err, params);
    let w = status_wire(id, err, params);
    let len = (params.len() + 4) as u16;
    lemma_word_bytes(len, 0, 0);
    lemma_word_bytes(crc_of(body), 0, 0);
    assert(w.subrange(9, w.len() - 2) =~= params);
    assert(w.take(w.len() - 2) =~= body);
}

/// The structural part of corruption detection: a byte change that lands
/// in the magic, the declared length or the status marker of a status
/// frame that passed the structural checks makes those checks fail, so
/// decoding reports `Parsing`. A change anywhere else leaves the checks
/// intact and is caught by the CRC comparison instead; nothing is stated
/// here of the CRC function itself.
pub proof fn lemma_shape_corruption_detected(b: Seq<u8>, b2: Seq<u8>, i: int)
    requires
        status_shape_ok(b),
        b2.len() == b.len(),
        0 <= i < b.len(),
        b2[i] != b[i],
        forall|j: int| 0 <= j < b.len() && j != i ==> b2[j] == b[j],
        i == 0 || i == 1 || i == 2 || i == 3 || i == 5 || i == 6 || i == 7,
    ensures
        !status_shape_ok(b2),
{
    if i == 5 || i == 6 {
        if status_shape_ok(b2) {
            assert(word(b[5], b[6]) == word(b2[5], b2[6]));
            lemma_word_bytes(0, b[5], b[6]);
            lemma_word_bytes(0, b2[5], b2[6]);
            assert(false);
        }
    }
}

/// Surfaces the error byte of a decoded status frame: a frame whose error
/// byte is non-zero becomes `StatusError` of exactly that byte, and an
/// error-free frame passes through unchanged.
fn surface_status_error(p: StatusPacket) -> (r: Result<StatusPacket, DynamixelError>)
    ensures
        match r {
            Ok(q) => q == p && p.error_code is None,
            Err(e) => p.error_code is Some && e.error == ErrorType::StatusError(
                err_byte(p.error_code),
            ),
        },
{
    if let Some(e) = p.error_code {
        return Err(DynamixelError::status_error_code(e));
    }
    Ok(p)
}

/// The timeout a fresh controller starts with, in milliseconds.
pub const DEFAULT_TIMEOUT_MS: u64 = 10;

/// Dynamixel controller for the protocol v2. Owns the receive and
/// transmit endpoints and the clock; only one operation is in flight at a
/// time, enforced by exclusive mutable access.
pub struct ControllerV2<RX, TX, CLOCK> {
    rx: RX,
    tx: TX,
    clock: CLOCK,
    timeout: u64,
}

impl<RX: SerialRead, TX: SerialWrite, CLOCK: Clock> ControllerV2<RX, TX, CLOCK> {
    /// The per-byte receive deadline in milliseconds.
    pub closed spec fn spec_timeout(&self) -> u64 {
        self.timeout
    }

    /// Create a new controller for the protocol v2.
    pub fn new(rx: RX, tx: TX, clock: CLOCK) -> (r: ControllerV2<RX, TX, CLOCK>)
        ensures
            r.spec_timeout() == DEFAULT_TIMEOUT_MS,
    {
        ControllerV2 { rx, tx, clock, timeout: DEFAULT_TIMEOUT_MS }
    }

    /// Sets the per-byte receive deadline in milliseconds.
    pub fn set_timeout(&mut self, ms: u64)
        ensures
            final(self).spec_timeout() == ms,
    {
        self.timeout = ms;
    }

    /// Polls the receive primitive until a byte arrives, failing with
    /// `Timeout` once the clock has advanced more than the timeout past
    /// the start of this attempt. The deadline restarts for each byte. A
    /// poll budget additionally bounds the loop, so that it terminates
    /// even against a clock that never advances; on any real line the
    /// deadline is reached long before the budget.
    fn read_byte(&mut self) -> (r: Result<u8, DynamixelError>)
        ensures
            final(self).spec_timeout() == old(self).spec_timeout(),
            match r {
                Ok(_) => true,
                Err(e) => e.error == ErrorType::Timeout,
            },
    {
        let t0 = self.clock.now_ms();
        let mut polls_left: u64 = u64::MAX;
        loop
            invariant
                self.spec_timeout() == old(self).spec_timeout(),
            decreases polls_left,
        {
            match self.rx.read() {
                Some(b) => {
                    return Ok(b);
                },
                None => {},
            }
            let now = self.clock.now_ms();
            let elapsed = if now >= t0 {
                now - t0
            } else {
                0
            };
            if elapsed > self.timeout || polls_left == 0 {
                return Err(DynamixelError::timeout());
            }
            polls_left -= 1;
        }
    }

    /// Pushes every byte of the encoded frame through the blocking
    /// transmit primitive. Transmit failures cannot occur; the write
    /// returns once the line has taken the byte.
    fn send(&mut self, packet: &InstructionPacket)
        requires
            packet.wf(),
        ensures
            final(self).spec_timeout() == old(self).spec_timeout(),
    {
        let bytes = packet.as_bytes();
        let n = bytes.len();
        let mut i: usize = 0;
        while i < n
            invariant
                i <= n,
                n == bytes@.len(),
                self.spec_timeout() == old(self).spec_timeout(),
            decreases n - i,
        {
            self.tx.write(bytes[i]);
            i += 1;
        }
    }

    /// Receives one status frame: 7 header bytes, then as many more as the
    /// header declares, each under the per-byte deadline; decodes the
    /// whole frame, and surfaces a non-zero status error byte as
    /// `StatusError`.
    fn recv(&mut self) -> (r: Result<StatusPacket, DynamixelError>)
        ensures
            final(self).spec_timeout() == old(self).spec_timeout(),
            match r {
                Ok(p) => p.wf() && p.error_code is None,
                Err(e) => e.error != ErrorType::UnsupportedRegister,
            },
    {
        let mut bytes: Vec<u8> = Vec::new();
        let mut i: usize = 0;
        while i < 7
            invariant
                i <= 7,
                bytes@.len() == i,
                self.spec_timeout() == old(self).spec_timeout(),
            decreases 7 - i,
        {
            let b = match self.read_byte() {
                Ok(b) => b,
                Err(e) => {
                    return Err(e);
                },
            };
            bytes.push(b);
            i += 1;
        }
        let header = match PacketHeader::from_bytes(bytes.as_slice()) {
            Ok(h) => h,
            Err(e) => {
                return Err(e);
            },
        };
        let mut j: u16 = 0;
        while j < header.length
            invariant
                j <= header.length,
                self.spec_timeout() == old(self).spec_timeout(),
            decreases header.length - j,
        {
            let b = match self.read_byte() {
                Ok(b) => b,
                Err(e) => {
                    return Err(e);
                },
            };
            bytes.push(b);
            j += 1;
        }
        let p = match StatusPacket::from_bytes(bytes.as_slice()) {
            Ok(p) => p,
            Err(e) => {
                return Err(e);
            },
        };
        surface_status_error(p)
    }

    /// Send a ping to the servo `id`: `true` when a status frame arrived
    /// within the timeout budget, `false` when the wait timed out — an
    /// absent servo is not an error. Any other failure is surfaced, so a
    /// `Timeout` never escapes this operation.
    pub fn ping(&mut self, id: u8) -> (r: Result<bool, DynamixelError>)
        ensures
            final(self).spec_timeout() == old(self).spec_timeout(),
            match r {
                Ok(_) => true,
                Err(e) => e.error != ErrorType::Timeout && e.error
                    != ErrorType::UnsupportedRegister,
            },
    {
        let packet = InstructionPacket::ping(id);
        self.send(&packet);
        match self.recv() {
            Ok(_) => Ok(true),
            Err(e) => {
                if e.error == ErrorType::Timeout {
                    Ok(false)
                } else {
                    Err(e)
                }
            },
        }
    }

    /// Pings every id of the half-open range in ascending order and
    /// collects those that answered; the collected ids lie in the range
    /// and ascend strictly. A non-timeout failure aborts the scan.
    pub fn scan(&mut self, id_range: core::ops::Range<u8>) -> (r: Result<Vec<u8>, DynamixelError>)
        ensures
            final(self).spec_timeout() == old(self).spec_timeout(),
            match r {
                Ok(v) => {
                    &&& forall|i: int|
                        0 <= i < v@.len() ==> id_range.start <= #[trigger] v@[i] < id_range.end
                    &&& forall|i: int, j: int| 0 <= i < j < v@.len() ==> v@[i] < v@[j]
                },
                Err(e) => e.error != ErrorType::Timeout && e.error
                    != ErrorType::UnsupportedRegister,
            },
    {
        let mut v: Vec<u8> = Vec::new();
        let end = id_range.end;
        let mut id = id_range.start;
        if id >= end {
            return Ok(v);
        }
        while id < end
            invariant
                id_range.start <= id <= end,
                self.spec_timeout() == old(self).spec_timeout(),
                forall|i: int| 0 <= i < v@.len() ==> id_range.start <= #[trigger] v@[i] < id,
                forall|i: int, j: int| 0 <= i < j < v@.len() ==> v@[i] < v@[j],
            decreases end - id,
        {
            let answered = match self.ping(id) {
                Ok(b) => b,
                Err(e) => {
                    return Err(e);
                },
            };
            if answered {
                v.push(id);
            }
            id += 1;
        }
        Ok(v)
    }

    /// Read the value of register `reg` on the servo `id`.
    ///
    /// Sends one read instruction and blocks until the status frame is
    /// received as response. The value is read little-endian over the
    /// register width, and a reply whose payload length differs from the
    /// width fails with `Parsing`. A width other than 1 and 2 fails with
    /// `UnsupportedRegister` before anything touches the transport, and
    /// nothing else ever reports that error.
    pub fn read_data<REG: Register>(&mut self, id: u8, reg: &REG) -> (r: Result<
        u16,
        DynamixelError,
    >)
        ensures
            final(self).spec_timeout() == old(self).spec_timeout(),
            !(reg.spec_width() == 1 || reg.spec_width() == 2) ==> *final(self) == *old(self) && r
                == Err::<u16, DynamixelError>(
                (DynamixelError { error: ErrorType::UnsupportedRegister }),
            ),
            match r {
                Ok(v) => (reg.spec_width() == 1 || reg.spec_width() == 2) && (reg.spec_width() == 1
                    ==> v < 256),
                Err(e) => e.error == ErrorType::UnsupportedRegister ==> !(reg.spec_width() == 1
                    || reg.spec_width() == 2),
            },
    {
        let w = reg.width();
        if w != 1 && w != 2 {
            return Err(DynamixelError::unsupported_register());
        }
        let packet = InstructionPacket::read_data(id, reg.address(), w);
        self.send(&packet);
        let status = match self.recv() {
            Ok(s) => s,
            Err(e) => {
                return Err(e);
            },
        };
        decode_reply(w, status.parameters.as_slice())
    }

    /// Write `data` to register `reg` on the servo `id`.
    ///
    /// Sends one write instruction and blocks until the status frame is
    /// received as acknowledgment; its parameter payload is ignored, and a
    /// non-zero status error byte is surfaced as `StatusError`. A width
    /// other than 1 and 2 fails with `UnsupportedRegister` before anything
    /// touches the transport, and nothing else ever reports that error.
    pub fn write_data<REG: Register>(&mut self, id: u8, reg: &REG, data: u16) -> (r: Result<
        (),
        DynamixelError,
    >)
        ensures
            final(self).spec_timeout() == old(self).spec_timeout(),
            !(reg.spec_width() == 1 || reg.spec_width() == 2) ==> *final(self) == *old(self) && r
                == Err::<(), DynamixelError>(
                (DynamixelError { error: ErrorType::UnsupportedRegister }),
            ),
            match r {
                Ok(_) => reg.spec_width() == 1 || reg.spec_width() == 2,
                Err(e) => e.error == ErrorType::UnsupportedRegister ==> !(reg.spec_width() == 1
                    || reg.spec_width() == 2),
            },
    {
        let packet = match InstructionPacket::write_data(id, reg.address(), reg.width(), data) {
            Ok(p) => p,
            Err(e) => {
                return Err(e);
            },
        };
        self.send(&packet);
        match self.recv() {
            Ok(_) => Ok(()),
            Err(e) => Err(e),
        }
    }

    /// Sync read register `reg` from each servo of `ids`.
    ///
    /// Broadcasts one sync-read instruction, then expects one status frame
    /// per id, in the order given. An id whose reply fails for any reason
    /// — timeout included — is dropped silently and the next id's reply is
    /// awaited, so one missing servo does not starve the later replies.
    /// The returned pairs carry the ids that answered, in the order given,
    /// each with the value decoded over the register width; comparing the
    /// result's length with `ids` detects missing replies.
    pub fn sync_read_data<REG: Register>(&mut self, ids: &[u8], reg: &REG) -> (r: Vec<(u8, u16)>)
        requires
            ids@.len() + 7 <= u16::MAX,
        ensures
            final(self).spec_timeout() == old(self).spec_timeout(),
            r@.len() <= ids@.len(),
            answered_in_order(r@, ids@),
            !(reg.spec_width() == 1 || reg.spec_width() == 2) ==> r@.len() == 0,
            reg.spec_width() == 1 ==> forall|i: int| 0 <= i < r@.len() ==> #[trigger] r@[i].1
                < 256,
    {
        let w = reg.width();
        let packet = InstructionPacket::sync_read_data(ids, reg.address(), w);
        self.send(&packet);
        let mut answer: Vec<(u8, u16)> = Vec::new();
        let ghost mut gidx: Seq<int> = Seq::empty();
        let n = ids.len();
        let mut k: usize = 0;
        while k < n
            invariant
                k <= n,
                n == ids@.len(),
                w == reg.spec_width(),
                self.spec_timeout() == old(self).spec_timeout(),
                answer@.len() <= k,
                picks(gidx, answer@, ids@),
                forall|i: int| 0 <= i < gidx.len() ==> #[trigger] gidx[i] < k,
                !(w == 1 || w == 2) ==> answer@.len() == 0,
                w == 1 ==> forall|i: int| 0 <= i < answer@.len() ==> #[trigger] answer@[i].1 < 256,
            decreases n - k,
        {
            let id = ids[k];
            match self.recv() {
                Ok(status) => {
                    match decode_reply(w, status.parameters.as_slice()) {
                        Ok(val) => {
                            answer.push((id, val));
                            proof {
                                gidx = gidx.push(k as int);
                            }
                        },
                        Err(_) => {},
                    }
                },
                Err(_) => {},
            }
            k += 1;
        }
        proof {
            assert(picks(gidx, answer@, ids@));
        }
        answer
    }

    /// Sync write a value per servo to register `reg`.
    ///
    /// Broadcasts one sync-write instruction carrying, for each pair, the
    /// target id and its value encoded over the register width. Servos
    /// apply a broadcast write silently, so nothing is received and
    /// nothing can fail beyond the transport write.
    pub fn sync_write_data<REG: Register>(&mut self, reg: &REG, data: &[(u8, u16)])
        requires
            reg.spec_width() == 1 || reg.spec_width() == 2,
            2 + data@.len() * 3 + 3 <= u16::MAX,
        ensures
            final(self).spec_timeout() == old(self).spec_timeout(),
    {
        let packet = InstructionPacket::sync_write_data(reg.address(), reg.width(), data).unwrap();
        self.send(&packet);
    }
}

/// An ascending index list into `ids` picks exactly the first components
/// of `r`.
pub open spec fn picks(idx: Seq<int>, r: Seq<(u8, u16)>, ids: Seq<u8>) -> bool {
    &&& idx.len() == r.len()
    &&& forall|i: int|
        0 <= i < idx.len() ==> 0 <= #[trigger] idx[i] < ids.len() && ids[idx[i]] == r[i].0
    &&& forall|i: int, j: int| 0 <= i < j < idx.len() ==> idx[i] < idx[j]
}

/// The replies pair up with a subsequence of the requested ids, kept in
/// the requested order: some ascending selection of `ids` carries exactly
/// the ids returned.
pub open spec fn answered_in_order(r: Seq<(u8, u16)>, ids: Seq<u8>) -> bool {
    exists|idx: Seq<int>| picks(idx, r, ids)
}

} // verus!
