//! The mathematical specification of the instruction stream: what one
//! instruction's bytes decode to, what its canonical byte layout is, and the
//! round-trip law tying the two together.
//!
//! The exec decoder in [`crate::ops`] is verified against [`spec_parse`];
//! nothing here runs.

use vstd::prelude::*;

use crate::cursor::spec_switch_pad;
use crate::jop::OpModel;
use crate::reader::{spec_le_i16, spec_le_i32, spec_le_u16, spec_le_u32};

verus! {

/// Outcome of decoding one instruction from the front of a byte sequence:
/// the instruction and the bytes it spans, the end of the usable input, or
/// an opcode outside the known set.
#[verifier::ext_equal]
pub enum OpStep {
    Done(OpModel, int),
    Incomplete,
    Unknown,
}

pub open spec fn spec_parse_plain_0(s: Seq<u8>) -> OpStep
    recommends
        s.len() >= 1,
{
    match s[0] {
        0x00u8 => OpStep::Done(OpModel::Nop, 1),
        0x01u8 => OpStep::Done(OpModel::AConstNull, 1),
        0x02u8 => OpStep::Done(OpModel::IConstM1, 1),
        0x03u8 => OpStep::Done(OpModel::IConst0, 1),
        0x04u8 => OpStep::Done(OpModel::IConst1, 1),
        0x05u8 => OpStep::Done(OpModel::IConst2, 1),
        0x06u8 => OpStep::Done(OpModel::IConst3, 1),
        0x07u8 => OpStep::Done(OpModel::IConst4, 1),
        0x08u8 => OpStep::Done(OpModel::IConst5, 1),
        0x09u8 => OpStep::Done(OpModel::LConst0, 1),
        0x0Au8 => OpStep::Done(OpModel::LConst1, 1),
        0x0Bu8 => OpStep::Done(OpModel::FConst0, 1),
        0x0Cu8 => OpStep::Done(OpModel::FConst1, 1),
        0x0Du8 => OpStep::Done(OpModel::FConst2, 1),
        0x0Eu8 => OpStep::Done(OpModel::DConst0, 1),
        0x0Fu8 => OpStep::Done(OpModel::DConst1, 1),
        0x10u8 => if s.len() >= 2 { OpStep::Done(OpModel::BiPush(s[1]), 2) } else { OpStep::Incomplete },
        0x11u8 => if s.len() >= 3 { OpStep::Done(OpModel::SIPush(spec_le_u16(s, 1)), 3) } else { OpStep::Incomplete },
        0x12u8 => if s.len() >= 2 { OpStep::Done(OpModel::LDC(s[1]), 2) } else { OpStep::Incomplete },
        0x13u8 => if s.len() >= 3 { OpStep::Done(OpModel::LDCW(spec_le_u16(s, 1)), 3) } else { OpStep::Incomplete },
        0x14u8 => if s.len() >= 3 { OpStep::Done(OpModel::LDC2W(spec_le_u16(s, 1)), 3) } else { OpStep::Incomplete },
        0x15u8 => if s.len() >= 2 { OpStep::Done(OpModel::ILoadWide(s[1]), 2) } else { OpStep::Incomplete },
        0x16u8 => if s.len() >= 2 { OpStep::Done(OpModel::LLoad(s[1]), 2) } else { OpStep::Incomplete },
        0x17u8 => if s.len() >= 2 { OpStep::Done(OpModel::FLoad(s[1]), 2) } else { OpStep::Incomplete },
        0x18u8 => if s.len() >= 2 { OpStep::Done(OpModel::DLoad(s[1]), 2) } else { OpStep::Incomplete },
        0x19u8 => if s.len() >= 2 { OpStep::Done(OpModel::ALoad(s[1]), 2) } else { OpStep::Incomplete },
        0x1Au8 => OpStep::Done(OpModel::ILoad0, 1),
        0x1Bu8 => OpStep::Done(OpModel::ILoad1, 1),
        0x1Cu8 => OpStep::Done(OpModel::ILoad2, 1),
        0x1Du8 => OpStep::Done(OpModel::ILoad3, 1),
        0x1Eu8 => OpStep::Done(OpModel::LLoad0, 1),
        0x1Fu8 => OpStep::Done(OpModel::LLoad1, 1),
        0x20u8 => OpStep::Done(OpModel::LLoad2, 1),
        0x21u8 => OpStep::Done(OpModel::LLoad3, 1),
        0x22u8 => OpStep::Done(OpModel::FLoad0, 1),
        0x23u8 => OpStep::Done(OpModel::FLoad1, 1),
        0x24u8 => OpStep::Done(OpModel::FLoad2, 1),
        0x25u8 => OpStep::Done(OpModel::FLoad3, 1),
        0x26u8 => OpStep::Done(OpModel::DLoad0, 1),
        0x27u8 => OpStep::Done(OpModel::DLoad1, 1),
        0x28u8 => OpStep::Done(OpModel::DLoad2, 1),
        0x29u8 => OpStep::Done(OpModel::DLoad3, 1),
        0x2Au8 => OpStep::Done(OpModel::ALoad0, 1),
        0x2Bu8 => OpStep::Done(OpModel::ALoad1, 1),
        0x2Cu8 => OpStep::Done(OpModel::ALoad2, 1),
        0x2Du8 => OpStep::Done(OpModel::ALoad3, 1),
        0x2Eu8 => OpStep::Done(OpModel::IALoad, 1),
        0x2Fu8 => OpStep::Done(OpModel::LALoad, 1),
        0x30u8 => OpStep::Done(OpModel::FALoad, 1),
        0x31u8 => OpStep::Done(OpModel::DALoad, 1),
        0x32u8 => OpStep::Done(OpModel::AALoad, 1),
        0x33u8 => OpStep::Done(OpModel::BaLoad, 1),
        0x34u8 => OpStep::Done(OpModel::CaLoad, 1),
        0x35u8 => OpStep::Done(OpModel::SALoad, 1),
        0x36u8 => if s.len() >= 2 { OpStep::Done(OpModel::IStore(s[1]), 2) } else { OpStep::Incomplete },
        0x37u8 => if s.len() >= 2 { OpStep::Done(OpModel::LStore(s[1]), 2) } else { OpStep::Incomplete },
        0x38u8 => if s.len() >= 2 { OpStep::Done(OpModel::FStore(s[1]), 2) } else { OpStep::Incomplete },
        0x3Au8 => if s.len() >= 2 { OpStep::Done(OpModel::AStore(s[1]), 2) } else { OpStep::Incomplete },
        0x3Bu8 => OpStep::Done(OpModel::IStore0, 1),
        0x3Cu8 => OpStep::Done(OpModel::IStore1, 1),
        0x3Du8 => OpStep::Done(OpModel::IStore2, 1),
        0x3Eu8 => OpStep::Done(OpModel::IStore3, 1),
        0x3Fu8 => OpStep::Done(OpModel::LStore0, 1),
        _ => OpStep::Unknown,
    }
}

pub open spec fn spec_parse_plain_1(s: Seq<u8>) -> OpStep
    recommends
        s.len() >= 1,
{
    match s[0] {
        0x40u8 => OpStep::Done(OpModel::LStore1, 1),
        0x41u8 => OpStep::Done(OpModel::LStore2, 1),
        0x42u8 => OpStep::Done(OpModel::LStore3, 1),
        0x43u8 => OpStep::Done(OpModel::FStore0, 1),
        0x44u8 => OpStep::Done(OpModel::FStore1, 1),
        0x45u8 => OpStep::Done(OpModel::FStore2, 1),
        0x46u8 => OpStep::Done(OpModel::FStore3, 1),
        0x47u8 => OpStep::Done(OpModel::DStore0, 1),
        0x48u8 => OpStep::Done(OpModel::DStore1, 1),
        0x49u8 => OpStep::Done(OpModel::DStore2, 1),
        0x4Au8 => OpStep::Done(OpModel::DStore3, 1),
        0x4Bu8 => OpStep::Done(OpModel::AStore0, 1),
        0x4Cu8 => OpStep::Done(OpModel::AStore1, 1),
        0x4Du8 => OpStep::Done(OpModel::AStore2, 1),
        0x4Eu8 => OpStep::Done(OpModel::AStore3, 1),
        0x4Fu8 => OpStep::Done(OpModel::IAStore, 1),
        0x50u8 => OpStep::Done(OpModel::LAStore, 1),
        0x51u8 => OpStep::Done(OpModel::FAStore, 1),
        0x52u8 => OpStep::Done(OpModel::DAStore, 1),
        0x53u8 => OpStep::Done(OpModel::AAStore, 1),
        0x54u8 => OpStep::Done(OpModel::BaStore, 1),
        0x55u8 => OpStep::Done(OpModel::CaStore, 1),
        0x56u8 => OpStep::Done(OpModel::SAStore, 1),
        0x57u8 => OpStep::Done(OpModel::Pop, 1),
        0x58u8 => OpStep::Done(OpModel::Pop2, 1),
        0x59u8 => OpStep::Done(OpModel::Dup, 1),
        0x5Au8 => OpStep::Done(OpModel::Dupx1, 1),
        0x5Bu8 => OpStep::Done(OpModel::Dupx2, 1),
        0x5Cu8 => OpStep::Done(OpModel::Dup2, 1),
        0x5Du8 => OpStep::Done(OpModel::Dup2x1, 1),
        0x5Fu8 => OpStep::Done(OpModel::Swap, 1),
        0x60u8 => OpStep::Done(OpModel::IAdd, 1),
        0x61u8 => OpStep::Done(OpModel::LAdd, 1),
        0x62u8 => OpStep::Done(OpModel::FAdd, 1),
        0x63u8 => OpStep::Done(OpModel::DAdd, 1),
        0x64u8 => OpStep::Done(OpModel::ISub, 1),
        0x65u8 => OpStep::Done(OpModel::LSub, 1),
        0x66u8 => OpStep::Done(OpModel::FSub, 1),
        0x67u8 => OpStep::Done(OpModel::DSub, 1),
        0x68u8 => OpStep::Done(OpModel::IMul, 1),
        0x69u8 => OpStep::Done(OpModel::LMul, 1),
        0x6Au8 => OpStep::Done(OpModel::FMul, 1),
        0x6Bu8 => OpStep::Done(OpModel::DMul, 1),
        0x6Cu8 => OpStep::Done(OpModel::IDiv, 1),
        0x6Du8 => OpStep::Done(OpModel::LDiv, 1),
        0x6Eu8 => OpStep::Done(OpModel::FDiv, 1),
        0x6Fu8 => OpStep::Done(OpModel::DDiv, 1),
        0x70u8 => OpStep::Done(OpModel::IRem, 1),
        0x71u8 => OpStep::Done(OpModel::LRem, 1),
        0x72u8 => OpStep::Done(OpModel::FRem, 1),
        0x73u8 => OpStep::Done(OpModel::DRem, 1),
        0x74u8 => OpStep::Done(OpModel::INeg, 1),
        0x75u8 => OpStep::Done(OpModel::LNeg, 1),
        0x76u8 => OpStep::Done(OpModel::FNeg, 1),
        0x77u8 => OpStep::Done(OpModel::DNeg, 1),
        0x78u8 => OpStep::Done(OpModel::ISHL, 1),
        0x79u8 => OpStep::Done(OpModel::LSHL, 1),
        0x7Au8 => OpStep::Done(OpModel::ISHR, 1),
        0x7Bu8 => OpStep::Done(OpModel::LSHR, 1),
        0x7Cu8 => OpStep::Done(OpModel::IUSHR, 1),
        0x7Du8 => OpStep::Done(OpModel::LUSHR, 1),
        0x7Eu8 => OpStep::Done(OpModel::IAnd, 1),
        0x7Fu8 => OpStep::Done(OpModel::LAnd, 1),
        _ => OpStep::Unknown,
    }
}

pub open spec fn spec_parse_plain_2(s: Seq<u8>) -> OpStep
    recommends
        s.len() >= 1,
{
    match s[0] {
        0x80u8 => OpStep::Done(OpModel::IOr, 1),
        0x81u8 => OpStep::Done(OpModel::LOr, 1),
        0x82u8 => OpStep::Done(OpModel::IXor, 1),
        0x83u8 => OpStep::Done(OpModel::LXor, 1),
        0x84u8 => if s.len() >= 3 { OpStep::Done(OpModel::IInc(s[1], s[2]), 3) } else { OpStep::Incomplete },
        0x85u8 => OpStep::Done(OpModel::I2L, 1),
        0x86u8 => OpStep::Done(OpModel::I2F, 1),
        0x87u8 => OpStep::Done(OpModel::I2D, 1),
        0x88u8 => OpStep::Done(OpModel::L2I, 1),
        0x89u8 => OpStep::Done(OpModel::L2F, 1),
        0x8Au8 => OpStep::Done(OpModel::L2D, 1),
        0x8Bu8 => OpStep::Done(OpModel::F2I, 1),
        0x8Cu8 => OpStep::Done(OpModel::F2L, 1),
        0x8Du8 => OpStep::Done(OpModel::F2D, 1),
        0x8Eu8 => OpStep::Done(OpModel::D2I, 1),
        0x8Fu8 => OpStep::Done(OpModel::D2L, 1),
        0x90u8 => OpStep::Done(OpModel::D2F, 1),
        0x91u8 => OpStep::Done(OpModel::I2B, 1),
        0x92u8 => OpStep::Done(OpModel::I2C, 1),
        0x93u8 => OpStep::Done(OpModel::I2S, 1),
        0x94u8 => OpStep::Done(OpModel::Lcmp, 1),
        0x95u8 => OpStep::Done(OpModel::FcmpL, 1),
        0x96u8 => OpStep::Done(OpModel::FcmpG, 1),
        0x97u8 => OpStep::Done(OpModel::DcmpL, 1),
        0x98u8 => OpStep::Done(OpModel::DcmpG, 1),
        0x99u8 => if s.len() >= 3 { OpStep::Done(OpModel::IFEQ(spec_le_u16(s, 1)), 3) } else { OpStep::Incomplete },
        0x9Au8 => if s.len() >= 3 { OpStep::Done(OpModel::IFNE(spec_le_u16(s, 1)), 3) } else { OpStep::Incomplete },
        0x9Bu8 => if s.len() >= 3 { OpStep::Done(OpModel::IFLE(spec_le_u16(s, 1)), 3) } else { OpStep::Incomplete },
        0x9Cu8 => if s.len() >= 3 { OpStep::Done(OpModel::IFGE(spec_le_u16(s, 1)), 3) } else { OpStep::Incomplete },
        0x9Du8 => if s.len() >= 3 { OpStep::Done(OpModel::IFGT(spec_le_u16(s, 1)), 3) } else { OpStep::Incomplete },
        0x9Fu8 => if s.len() >= 3 { OpStep::Done(OpModel::IFIcmpEQ(spec_le_u16(s, 1)), 3) } else { OpStep::Incomplete },
        0xA0u8 => if s.len() >= 3 { OpStep::Done(OpModel::IFIcmpNE(spec_le_u16(s, 1)), 3) } else { OpStep::Incomplete },
        0xA1u8 => if s.len() >= 3 { OpStep::Done(OpModel::IFIcmpLT(spec_le_u16(s, 1)), 3) } else { OpStep::Incomplete },
        0xA2u8 => if s.len() >= 3 { OpStep::Done(OpModel::IfIcmpGE(spec_le_u16(s, 1)), 3) } else { OpStep::Incomplete },
        0xA3u8 => if s.len() >= 3 { OpStep::Done(OpModel::IFIcmpGT(spec_le_u16(s, 1)), 3) } else { OpStep::Incomplete },
        0xA4u8 => if s.len() >= 3 { OpStep::Done(OpModel::IFIcmpLE(spec_le_u16(s, 1)), 3) } else { OpStep::Incomplete },
        0xA5u8 => if s.len() >= 3 { OpStep::Done(OpModel::IFAcmpEQ(spec_le_u16(s, 1)), 3) } else { OpStep::Incomplete },
        0xA6u8 => if s.len() >= 3 { OpStep::Done(OpModel::IFAcmpNE(spec_le_u16(s, 1)), 3) } else { OpStep::Incomplete },
        0xA7u8 => if s.len() >= 3 { OpStep::Done(OpModel::Goto(spec_le_u16(s, 1)), 3) } else { OpStep::Incomplete },
        0xA8u8 => if s.len() >= 3 { OpStep::Done(OpModel::JSR(spec_le_u16(s, 1)), 3) } else { OpStep::Incomplete },
        0xA9u8 => if s.len() >= 2 { OpStep::Done(OpModel::Ret(s[1]), 2) } else { OpStep::Incomplete },
        0xACu8 => OpStep::Done(OpModel::IReturn, 1),
        0xADu8 => OpStep::Done(OpModel::LReturn, 1),
        0xAEu8 => OpStep::Done(OpModel::FReturn, 1),
        0xAFu8 => if s.len() >= 2 { OpStep::Done(OpModel::DStore(s[1]), 2) } else { OpStep::Incomplete },
        0xB0u8 => OpStep::Done(OpModel::AReturn, 1),
        0xB1u8 => OpStep::Done(OpModel::Return, 1),
        0xB2u8 => if s.len() >= 3 { OpStep::Done(OpModel::GetStatic(spec_le_u16(s, 1)), 3) } else { OpStep::Incomplete },
        0xB3u8 => if s.len() >= 3 { OpStep::Done(OpModel::PutStatic(spec_le_u16(s, 1)), 3) } else { OpStep::Incomplete },
        0xB4u8 => if s.len() >= 3 { OpStep::Done(OpModel::GetField(spec_le_u16(s, 1)), 3) } else { OpStep::Incomplete },
        0xB5u8 => if s.len() >= 3 { OpStep::Done(OpModel::PutField(spec_le_u16(s, 1)), 3) } else { OpStep::Incomplete },
        0xB6u8 => if s.len() >= 3 { OpStep::Done(OpModel::InvokeVirtual(spec_le_u16(s, 1)), 3) } else { OpStep::Incomplete },
        0xB7u8 => if s.len() >= 3 { OpStep::Done(OpModel::InvokeSpecial(spec_le_u16(s, 1)), 3) } else { OpStep::Incomplete },
        0xB8u8 => if s.len() >= 3 { OpStep::Done(OpModel::InvokeStatic(spec_le_u16(s, 1)), 3) } else { OpStep::Incomplete },
        0xB9u8 => if s.len() < 5 { OpStep::Incomplete } else if s[4] == 0 { OpStep::Done(OpModel::InvokedInterface(spec_le_u16(s, 1), s[3]), 5) } else { OpStep::Unknown },
        0xBAu8 => if s.len() < 5 { OpStep::Incomplete } else if s[3] == 0 && s[4] == 0 { OpStep::Done(OpModel::InvokedDynamic(spec_le_u16(s, 1)), 5) } else { OpStep::Unknown },
        0xBBu8 => if s.len() >= 3 { OpStep::Done(OpModel::New(spec_le_u16(s, 1)), 3) } else { OpStep::Incomplete },
        0xBCu8 => if s.len() >= 2 { OpStep::Done(OpModel::NewArray(s[1]), 2) } else { OpStep::Incomplete },
        0xBDu8 => if s.len() >= 3 { OpStep::Done(OpModel::ANewArray(spec_le_u16(s, 1)), 3) } else { OpStep::Incomplete },
        0xBEu8 => OpStep::Done(OpModel::ArrayLength, 1),
        0xBFu8 => OpStep::Done(OpModel::AThrow, 1),
        _ => OpStep::Unknown,
    }
}

pub open spec fn spec_parse_plain_3(s: Seq<u8>) -> OpStep
    recommends
        s.len() >= 1,
{
    match s[0] {
        0xC0u8 => if s.len() >= 3 { OpStep::Done(OpModel::CheckCast(spec_le_u16(s, 1)), 3) } else { OpStep::Incomplete },
        0xC1u8 => if s.len() >= 3 { OpStep::Done(OpModel::InstanceOf(spec_le_u16(s, 1)), 3) } else { OpStep::Incomplete },
        0xC2u8 => OpStep::Done(OpModel::MonitorEnter, 1),
        0xC3u8 => OpStep::Done(OpModel::MonitorExit, 1),
        0xC5u8 => if s.len() >= 4 { OpStep::Done(OpModel::MultiAneWArray(spec_le_u16(s, 1), s[3]), 4) } else { OpStep::Incomplete },
        0xC6u8 => if s.len() >= 3 { OpStep::Done(OpModel::IFNull(spec_le_u16(s, 1)), 3) } else { OpStep::Incomplete },
        0xC7u8 => if s.len() >= 3 { OpStep::Done(OpModel::IFnonNull(spec_le_u16(s, 1)), 3) } else { OpStep::Incomplete },
        0xC8u8 => if s.len() >= 5 { OpStep::Done(OpModel::GotoW(spec_le_u32(s, 1)), 5) } else { OpStep::Incomplete },
        0xC9u8 => if s.len() >= 3 { OpStep::Done(OpModel::JSRW(spec_le_u16(s, 1)), 3) } else { OpStep::Incomplete },
        0xCAu8 => OpStep::Done(OpModel::BreakPoint, 1),
        0xF3u8 => OpStep::Done(OpModel::ImpDep1, 1),
        0xFFu8 => OpStep::Done(OpModel::ImpDep2, 1),
        _ => OpStep::Unknown,
    }
}

/// The `high - low + 1` jump offsets of a `tableswitch`, read little-endian
/// from offset `off`.
pub open spec fn spec_table_offsets(s: Seq<u8>, off: int, n: int) -> Seq<u32> {
    Seq::new(n as nat, |k: int| spec_le_u32(s, off + 4 * k))
}

/// The `(match, offset)` pairs of a `lookupswitch`, read little-endian from
/// offset `off`.
pub open spec fn spec_match_pairs(s: Seq<u8>, off: int, n: int) -> Seq<(i32, u32)> {
    Seq::new(n as nat, |k: int| (spec_le_i32(s, off + 8 * k), spec_le_u32(s, off + 8 * k + 4)))
}

/// Decode a `tableswitch` whose tag byte `s[0]` was reached with the cursor
/// at `c`: padding to a 4-byte boundary, default, low, high, then
/// `high - low + 1` jump offsets.
pub open spec fn spec_parse_tableswitch(s: Seq<u8>, c: int) -> OpStep
    recommends
        s.len() >= 1,
        c >= 0,
{
    if s.len() - 1 < 4 {
        OpStep::Incomplete
    } else {
        let base = 1 + spec_switch_pad(c);
        if s.len() < base + 12 {
            OpStep::Incomplete
        } else {
            let default = spec_le_i32(s, base);
            let low = spec_le_i32(s, base + 4);
            let high = spec_le_i32(s, base + 8);
            if high < low {
                OpStep::Incomplete
            } else {
                let n = high - low + 1;
                if s.len() < base + 12 + 4 * n {
                    OpStep::Incomplete
                } else {
                    OpStep::Done(
                        OpModel::TableSwitch(
                            default,
                            low,
                            high,
                            spec_table_offsets(s, base + 12, n),
                        ),
                        base + 12 + 4 * n,
                    )
                }
            }
        }
    }
}

/// Decode a `lookupswitch` whose tag byte `s[0]` was reached with the cursor
/// at `c`: padding to a 4-byte boundary, default, pair count, then that many
/// `(match, offset)` pairs, in file order.
pub open spec fn spec_parse_lookupswitch(s: Seq<u8>, c: int) -> OpStep
    recommends
        s.len() >= 1,
        c >= 0,
{
    if s.len() - 1 < 4 {
        OpStep::Incomplete
    } else {
        let base = 1 + spec_switch_pad(c);
        if s.len() < base + 8 {
            OpStep::Incomplete
        } else {
            let default = spec_le_u32(s, base);
            let n = spec_le_u32(s, base + 4) as int;
            if s.len() < base + 8 + 8 * n {
                OpStep::Incomplete
            } else {
                OpStep::Done(
                    OpModel::LookUpSwitch(default, spec_match_pairs(s, base + 8, n)),
                    base + 8 + 8 * n,
                )
            }
        }
    }
}

/// Decode a wide-prefixed instruction: `s[0]` is the `0xC4` prefix, `s[1]`
/// selects the widened opcode, and the operand is 16 bits.
pub open spec fn spec_parse_wide(s: Seq<u8>) -> OpStep
    recommends
        s.len() >= 1,
        s[0] == 0xC4,
{
    if s.len() < 2 {
        OpStep::Incomplete
    } else {
        match s[1] {
        0x15u8 => if s.len() >= 4 { OpStep::Done(OpModel::ILoad(spec_le_u16(s, 2)), 4) } else { OpStep::Incomplete },
        0x16u8 => if s.len() >= 4 { OpStep::Done(OpModel::LLoadWide(spec_le_u16(s, 2)), 4) } else { OpStep::Incomplete },
        0x17u8 => if s.len() >= 4 { OpStep::Done(OpModel::FLoadWide(spec_le_u16(s, 2)), 4) } else { OpStep::Incomplete },
        0x18u8 => if s.len() >= 4 { OpStep::Done(OpModel::DLoadWide(spec_le_u16(s, 2)), 4) } else { OpStep::Incomplete },
        0x19u8 => if s.len() >= 4 { OpStep::Done(OpModel::ALoadWide(spec_le_u16(s, 2)), 4) } else { OpStep::Incomplete },
        0x36u8 => if s.len() >= 4 { OpStep::Done(OpModel::IStoreWide(spec_le_u16(s, 2)), 4) } else { OpStep::Incomplete },
        0x37u8 => if s.len() >= 4 { OpStep::Done(OpModel::LStoreWide(spec_le_u16(s, 2)), 4) } else { OpStep::Incomplete },
        0x38u8 => if s.len() >= 4 { OpStep::Done(OpModel::FStoreWide(spec_le_u16(s, 2)), 4) } else { OpStep::Incomplete },
        0x3Au8 => if s.len() >= 4 { OpStep::Done(OpModel::AStoreWide(spec_le_u16(s, 2)), 4) } else { OpStep::Incomplete },
        0x84u8 => if s.len() >= 6 { OpStep::Done(OpModel::IIncWide(spec_le_u16(s, 2), spec_le_i16(s, 4)), 6) } else { OpStep::Incomplete },
        0xA9u8 => if s.len() >= 4 { OpStep::Done(OpModel::RetWide(spec_le_u16(s, 2)), 4) } else { OpStep::Incomplete },
        0xAFu8 => if s.len() >= 4 { OpStep::Done(OpModel::DStoreWide(spec_le_u16(s, 2)), 4) } else { OpStep::Incomplete },
            _ => OpStep::Unknown,
        }
    }
}

/// Decode one instruction from the front of `s`, with the session cursor at
/// `c` when the tag byte `s[0]` is read.
///
/// `Done(m, n)` means the first `n` bytes are one whole instruction `m`;
/// `Incomplete` means `s` ends before one whole instruction (including the
/// empty buffer); `Unknown` means the leading byte(s) match no opcode.
pub open spec fn spec_parse(s: Seq<u8>, c: int) -> OpStep
    recommends
        c >= 0,
{
    if s.len() == 0 {
        OpStep::Incomplete
    } else {
        let b = s[0];
        if b == 0xC4 {
            spec_parse_wide(s)
        } else if b == 0xAA {
            spec_parse_tableswitch(s, c)
        } else if b == 0xAB {
            spec_parse_lookupswitch(s, c)
        } else if b < 0x40 {
            spec_parse_plain_0(s)
        } else if b < 0x80 {
            spec_parse_plain_1(s)
        } else if b < 0xC0 {
            spec_parse_plain_2(s)
        } else {
            spec_parse_plain_3(s)
        }
    }
}

/// The two little-endian bytes of a 16-bit operand.
pub open spec fn le2(v: u16) -> Seq<u8> {
    seq![(v % 256) as u8, (v / 256) as u8]
}

/// The four little-endian bytes of a 32-bit operand.
pub open spec fn le4(v: u32) -> Seq<u8> {
    seq![
        (v % 256) as u8,
        ((v / 256) % 256) as u8,
        ((v / 0x10000) % 256) as u8,
        ((v / 0x1000000) % 256) as u8,
    ]
}

/// The two little-endian bytes of a signed 16-bit operand.
pub open spec fn le2i(v: i16) -> Seq<u8> {
    le2(v as u16)
}

/// The four little-endian bytes of a signed 32-bit operand.
pub open spec fn le4i(v: i32) -> Seq<u8> {
    le4(v as u32)
}

/// `n` zero padding bytes.
pub open spec fn zero_pad(n: int) -> Seq<u8> {
    Seq::new(n as nat, |k: int| 0u8)
}

/// The byte layout of a `tableswitch` jump-offset table.
pub open spec fn enc_u32s(data: Seq<u32>) -> Seq<u8>
    decreases data.len(),
{
    if data.len() == 0 {
        Seq::empty()
    } else {
        le4(data[0]) + enc_u32s(data.skip(1))
    }
}

/// The byte layout of a `lookupswitch` match-offset pair table.
pub open spec fn enc_pairs(data: Seq<(i32, u32)>) -> Seq<u8>
    decreases data.len(),
{
    if data.len() == 0 {
        Seq::empty()
    } else {
        le4i(data[0].0) + le4(data[0].1) + enc_pairs(data.skip(1))
    }
}

/// Instructions that have a canonical byte layout: every instruction except
/// the one opcode this decoder cannot reproduce.  `Dup2x2` shares its tag
/// byte with `Dup2`, which the decoder prefers, so no byte string decodes to
/// `Dup2x2`; a switch must carry exactly the operand table its header
/// declares, and a `lookupswitch` pair count must fit its 32-bit field.
pub open spec fn wf_op(m: OpModel) -> bool {
    match m {
        OpModel::Dup2x2 => false,
        OpModel::TableSwitch(_default, low, high, data) => low <= high && data.len() == high - low
            + 1,
        OpModel::LookUpSwitch(_default, pairs) => pairs.len() <= u32::MAX,
        _ => true,
    }
}

/// The canonical byte layout of instruction `m` when its tag byte stands at
/// cursor position `c` (the cursor matters only to the two switch shapes,
/// whose padding depends on it).
pub open spec fn spec_encode(m: OpModel, c: int) -> Seq<u8>
    recommends
        c >= 0,
{
    match m {
        OpModel::AALoad => seq![0x32u8],
        OpModel::AAStore => seq![0x53u8],
        OpModel::AConstNull => seq![0x01u8],
        OpModel::ALoad(x) => seq![0x19u8, x],
        OpModel::ALoadWide(x) => seq![0xC4u8, 0x19u8] + le2(x),
        OpModel::ALoad0 => seq![0x2Au8],
        OpModel::ALoad1 => seq![0x2Bu8],
        OpModel::ALoad2 => seq![0x2Cu8],
        OpModel::ALoad3 => seq![0x2Du8],
        OpModel::ANewArray(x) => seq![0xBDu8] + le2(x),
        OpModel::AReturn => seq![0xB0u8],
        OpModel::ArrayLength => seq![0xBEu8],
        OpModel::AStore(x) => seq![0x3Au8, x],
        OpModel::AStoreWide(x) => seq![0xC4u8, 0x3Au8] + le2(x),
        OpModel::AStore0 => seq![0x4Bu8],
        OpModel::AStore1 => seq![0x4Cu8],
        OpModel::AStore2 => seq![0x4Du8],
        OpModel::AStore3 => seq![0x4Eu8],
        OpModel::AThrow => seq![0xBFu8],
        OpModel::BaLoad => seq![0x33u8],
        OpModel::BaStore => seq![0x54u8],
        OpModel::BiPush(x) => seq![0x10u8, x],
        OpModel::BreakPoint => seq![0xCAu8],
        OpModel::CaLoad => seq![0x34u8],
        OpModel::CaStore => seq![0x55u8],
        OpModel::CheckCast(x) => seq![0xC0u8] + le2(x),
        OpModel::D2F => seq![0x90u8],
        OpModel::D2I => seq![0x8Eu8],
        OpModel::D2L => seq![0x8Fu8],
        OpModel::DAdd => seq![0x63u8],
        OpModel::DALoad => seq![0x31u8],
        OpModel::DAStore => seq![0x52u8],
        OpModel::DcmpG => seq![0x98u8],
        OpModel::DcmpL => seq![0x97u8],
        OpModel::DConst0 => seq![0x0Eu8],
        OpModel::DConst1 => seq![0x0Fu8],
        OpModel::DDiv => seq![0x6Fu8],
        OpModel::DLoad(x) => seq![0x18u8, x],
        OpModel::DLoadWide(x) => seq![0xC4u8, 0x18u8] + le2(x),
        OpModel::DLoad0 => seq![0x26u8],
        OpModel::DLoad1 => seq![0x27u8],
        OpModel::DLoad2 => seq![0x28u8],
        OpModel::DLoad3 => seq![0x29u8],
        OpModel::DMul => seq![0x6Bu8],
        OpModel::DNeg => seq![0x77u8],
        OpModel::DRem => seq![0x73u8],
        OpModel::DStore(x) => seq![0xAFu8, x],
        OpModel::DStoreWide(x) => seq![0xC4u8, 0xAFu8] + le2(x),
        OpModel::DStore0 => seq![0x47u8],
        OpModel::DStore1 => seq![0x48u8],
        OpModel::DStore2 => seq![0x49u8],
        OpModel::DStore3 => seq![0x4Au8],
        OpModel::DSub => seq![0x67u8],
        OpModel::Dup => seq![0x59u8],
        OpModel::Dupx1 => seq![0x5Au8],
        OpModel::Dupx2 => seq![0x5Bu8],
        OpModel::Dup2 => seq![0x5Cu8],
        OpModel::Dup2x1 => seq![0x5Du8],
        OpModel::Dup2x2 => seq![0x5Cu8],
        OpModel::F2D => seq![0x8Du8],
        OpModel::F2I => seq![0x8Bu8],
        OpModel::F2L => seq![0x8Cu8],
        OpModel::FAdd => seq![0x62u8],
        OpModel::FALoad => seq![0x30u8],
        OpModel::FAStore => seq![0x51u8],
        OpModel::FcmpG => seq![0x96u8],
        OpModel::FcmpL => seq![0x95u8],
        OpModel::FConst0 => seq![0x0Bu8],
        OpModel::FConst1 => seq![0x0Cu8],
        OpModel::FConst2 => seq![0x0Du8],
        OpModel::FDiv => seq![0x6Eu8],
        OpModel::FLoad(x) => seq![0x17u8, x],
        OpModel::FLoadWide(x) => seq![0xC4u8, 0x17u8] + le2(x),
        OpModel::FLoad0 => seq![0x22u8],
        OpModel::FLoad1 => seq![0x23u8],
        OpModel::FLoad2 => seq![0x24u8],
        OpModel::FLoad3 => seq![0x25u8],
        OpModel::FMul => seq![0x6Au8],
        OpModel::FNeg => seq![0x76u8],
        OpModel::FRem => seq![0x72u8],
        OpModel::FReturn => seq![0xAEu8],
        OpModel::FStore(x) => seq![0x38u8, x],
        OpModel::FStoreWide(x) => seq![0xC4u8, 0x38u8] + le2(x),
        OpModel::FStore0 => seq![0x43u8],
        OpModel::FStore1 => seq![0x44u8],
        OpModel::FStore2 => seq![0x45u8],
        OpModel::FStore3 => seq![0x46u8],
        OpModel::FSub => seq![0x66u8],
        OpModel::GetField(x) => seq![0xB4u8] + le2(x),
        OpModel::GetStatic(x) => seq![0xB2u8] + le2(x),
        OpModel::Goto(x) => seq![0xA7u8] + le2(x),
        OpModel::GotoW(x) => seq![0xC8u8] + le4(x),
        OpModel::I2B => seq![0x91u8],
        OpModel::I2C => seq![0x92u8],
        OpModel::I2D => seq![0x87u8],
        OpModel::I2F => seq![0x86u8],
        OpModel::I2L => seq![0x85u8],
        OpModel::I2S => seq![0x93u8],
        OpModel::IAdd => seq![0x60u8],
        OpModel::IALoad => seq![0x2Eu8],
        OpModel::IAnd => seq![0x7Eu8],
        OpModel::IAStore => seq![0x4Fu8],
        OpModel::IConstM1 => seq![0x02u8],
        OpModel::IConst0 => seq![0x03u8],
        OpModel::IConst1 => seq![0x04u8],
        OpModel::IConst2 => seq![0x05u8],
        OpModel::IConst3 => seq![0x06u8],
        OpModel::IConst4 => seq![0x07u8],
        OpModel::IConst5 => seq![0x08u8],
        OpModel::IDiv => seq![0x6Cu8],
        OpModel::IFAcmpEQ(x) => seq![0xA5u8] + le2(x),
        OpModel::IFAcmpNE(x) => seq![0xA6u8] + le2(x),
        OpModel::IFIcmpEQ(x) => seq![0x9Fu8] + le2(x),
        OpModel::IfIcmpGE(x) => seq![0xA2u8] + le2(x),
        OpModel::IFIcmpGT(x) => seq![0xA3u8] + le2(x),
        OpModel::IFIcmpLE(x) => seq![0xA4u8] + le2(x),
        OpModel::IFIcmpLT(x) => seq![0xA1u8] + le2(x),
        OpModel::IFIcmpNE(x) => seq![0xA0u8] + le2(x),
        OpModel::IFEQ(x) => seq![0x99u8] + le2(x),
        OpModel::IFGE(x) => seq![0x9Cu8] + le2(x),
        OpModel::IFGT(x) => seq![0x9Du8] + le2(x),
        OpModel::IFLE(x) => seq![0x9Bu8] + le2(x),
        OpModel::IFNE(x) => seq![0x9Au8] + le2(x),
        OpModel::IFnonNull(x) => seq![0xC7u8] + le2(x),
        OpModel::IFNull(x) => seq![0xC6u8] + le2(x),
        OpModel::IInc(x, y) => seq![0x84u8, x, y],
        OpModel::IIncWide(x, y) => seq![0xC4u8, 0x84u8] + le2(x) + le2i(y),
        OpModel::ILoad(x) => seq![0xC4u8, 0x15u8] + le2(x),
        OpModel::ILoadWide(x) => seq![0x15u8, x],
        OpModel::ILoad0 => seq![0x1Au8],
        OpModel::ILoad1 => seq![0x1Bu8],
        OpModel::ILoad2 => seq![0x1Cu8],
        OpModel::ILoad3 => seq![0x1Du8],
        OpModel::ImpDep1 => seq![0xF3u8],
        OpModel::ImpDep2 => seq![0xFFu8],
        OpModel::IMul => seq![0x68u8],
        OpModel::INeg => seq![0x74u8],
        OpModel::InstanceOf(x) => seq![0xC1u8] + le2(x),
        OpModel::InvokedDynamic(x) => seq![0xBAu8] + le2(x) + seq![0u8, 0u8],
        OpModel::InvokedInterface(x, y) => seq![0xB9u8] + le2(x) + seq![y, 0u8],
        OpModel::InvokeSpecial(x) => seq![0xB7u8] + le2(x),
        OpModel::InvokeStatic(x) => seq![0xB8u8] + le2(x),
        OpModel::InvokeVirtual(x) => seq![0xB6u8] + le2(x),
        OpModel::IOr => seq![0x80u8],
        OpModel::IRem => seq![0x70u8],
        OpModel::IReturn => seq![0xACu8],
        OpModel::ISHL => seq![0x78u8],
        OpModel::ISHR => seq![0x7Au8],
        OpModel::IStore(x) => seq![0x36u8, x],
        OpModel::IStoreWide(x) => seq![0xC4u8, 0x36u8] + le2(x),
        OpModel::IStore0 => seq![0x3Bu8],
        OpModel::IStore1 => seq![0x3Cu8],
        OpModel::IStore2 => seq![0x3Du8],
        OpModel::IStore3 => seq![0x3Eu8],
        OpModel::ISub => seq![0x64u8],
        OpModel::IUSHR => seq![0x7Cu8],
        OpModel::IXor => seq![0x82u8],
        OpModel::JSR(x) => seq![0xA8u8] + le2(x),
        OpModel::JSRW(x) => seq![0xC9u8] + le2(x),
        OpModel::L2D => seq![0x8Au8],
        OpModel::L2F => seq![0x89u8],
        OpModel::L2I => seq![0x88u8],
        OpModel::LAdd => seq![0x61u8],
        OpModel::LALoad => seq![0x2Fu8],
        OpModel::LAnd => seq![0x7Fu8],
        OpModel::LAStore => seq![0x50u8],
        OpModel::Lcmp => seq![0x94u8],
        OpModel::LConst0 => seq![0x09u8],
        OpModel::LConst1 => seq![0x0Au8],
        OpModel::LDC(x) => seq![0x12u8, x],
        OpModel::LDCW(x) => seq![0x13u8] + le2(x),
        OpModel::LDC2W(x) => seq![0x14u8] + le2(x),
        OpModel::LDiv => seq![0x6Du8],
        OpModel::LLoad(x) => seq![0x16u8, x],
        OpModel::LLoadWide(x) => seq![0xC4u8, 0x16u8] + le2(x),
        OpModel::LLoad0 => seq![0x1Eu8],
        OpModel::LLoad1 => seq![0x1Fu8],
        OpModel::LLoad2 => seq![0x20u8],
        OpModel::LLoad3 => seq![0x21u8],
        OpModel::LMul => seq![0x69u8],
        OpModel::LNeg => seq![0x75u8],
        OpModel::LookUpSwitch(x, y) => seq![0xABu8] + zero_pad(spec_switch_pad(c)) + le4(x) + le4(y.len() as u32) + enc_pairs(y),
        OpModel::LOr => seq![0x81u8],
        OpModel::LRem => seq![0x71u8],
        OpModel::LReturn => seq![0xADu8],
        OpModel::LSHL => seq![0x79u8],
        OpModel::LSHR => seq![0x7Bu8],
        OpModel::LStore(x) => seq![0x37u8, x],
        OpModel::LStoreWide(x) => seq![0xC4u8, 0x37u8] + le2(x),
        OpModel::LStore0 => seq![0x3Fu8],
        OpModel::LStore1 => seq![0x40u8],
        OpModel::LStore2 => seq![0x41u8],
        OpModel::LStore3 => seq![0x42u8],
        OpModel::LSub => seq![0x65u8],
        OpModel::LUSHR => seq![0x7Du8],
        OpModel::LXor => seq![0x83u8],
        OpModel::MonitorEnter => seq![0xC2u8],
        OpModel::MonitorExit => seq![0xC3u8],
        OpModel::MultiAneWArray(x, y) => seq![0xC5u8] + le2(x) + seq![y],
        OpModel::New(x) => seq![0xBBu8] + le2(x),
        OpModel::NewArray(x) => seq![0xBCu8, x],
        OpModel::Nop => seq![0x00u8],
        OpModel::Pop => seq![0x57u8],
        OpModel::Pop2 => seq![0x58u8],
        OpModel::PutField(x) => seq![0xB5u8] + le2(x),
        OpModel::PutStatic(x) => seq![0xB3u8] + le2(x),
        OpModel::Ret(x) => seq![0xA9u8, x],
        OpModel::RetWide(x) => seq![0xC4u8, 0xA9u8] + le2(x),
        OpModel::Return => seq![0xB1u8],
        OpModel::SALoad => seq![0x35u8],
        OpModel::SAStore => seq![0x56u8],
        OpModel::SIPush(x) => seq![0x11u8] + le2(x),
        OpModel::Swap => seq![0x5Fu8],
        OpModel::TableSwitch(x, y, z, w) => seq![0xAAu8] + zero_pad(spec_switch_pad(c)) + le4i(x) + le4i(y) + le4i(z) + enc_u32s(w),
    }
}

proof fn lemma_u16_bytes(v: u16)
    ensures
        v % 256 + (v / 256) * 256 == v,
        v / 256 < 256,
{
    assert(v % 256 + (v / 256) * 256 == v && v / 256 < 256) by (bit_vector);
}

proof fn lemma_u32_bytes(v: u32)
    ensures
        v % 256 + ((v / 256) % 256) * 256 + ((v / 0x10000) % 256) * 0x10000 + ((v / 0x1000000)
            % 256) * 0x1000000 == v,
{
    assert(v % 256 + ((v / 256) % 256) * 256 + ((v / 0x10000) % 256) * 0x10000 + ((v / 0x1000000)
        % 256) * 0x1000000 == v) by (bit_vector);
}

proof fn lemma_i16_cast(v: i16)
    ensures
        (v as u16) as i16 == v,
{
    assert((v as u16) as i16 == v) by (bit_vector);
}

proof fn lemma_i32_cast(v: i32)
    ensures
        (v as u32) as i32 == v,
{
    assert((v as u32) as i32 == v) by (bit_vector);
}

/// `spec_le_u16` reads back what `le2` laid down, at any offset.
proof fn lemma_le2_at(s: Seq<u8>, i: int, v: u16)
    requires
        0 <= i,
        i + 2 <= s.len(),
        s[i] == le2(v)[0],
        s[i + 1] == le2(v)[1],
    ensures
        spec_le_u16(s, i) == v,
{
    lemma_u16_bytes(v);
}

/// `spec_le_u32` reads back what `le4` laid down, at any offset.
proof fn lemma_le4_at(s: Seq<u8>, i: int, v: u32)
    requires
        0 <= i,
        i + 4 <= s.len(),
        s[i] == le4(v)[0],
        s[i + 1] == le4(v)[1],
        s[i + 2] == le4(v)[2],
        s[i + 3] == le4(v)[3],
    ensures
        spec_le_u32(s, i) == v,
{
    lemma_u32_bytes(v);
}

/// `spec_le_i32` reads back what `le4i` laid down, at any offset.
proof fn lemma_le4i_at(s: Seq<u8>, i: int, v: i32)
    requires
        0 <= i,
        i + 4 <= s.len(),
        s[i] == le4i(v)[0],
        s[i + 1] == le4i(v)[1],
        s[i + 2] == le4i(v)[2],
        s[i + 3] == le4i(v)[3],
    ensures
        spec_le_i32(s, i) == v,
{
    lemma_le4_at(s, i, v as u32);
    lemma_i32_cast(v);
}

proof fn lemma_enc_u32s_len(data: Seq<u32>)
    ensures
        enc_u32s(data).len() == 4 * data.len(),
    decreases data.len(),
{
    if data.len() > 0 {
        lemma_enc_u32s_len(data.skip(1));
    }
}

proof fn lemma_enc_u32s_index(data: Seq<u32>, k: int)
    requires
        0 <= k < data.len(),
    ensures
        forall|j: int|
            0 <= j < 4 ==> #[trigger] enc_u32s(data)[4 * k + j] == le4(data[k])[j],
    decreases k,
{
    lemma_enc_u32s_len(data);
    lemma_enc_u32s_len(data.skip(1));
    if k == 0 {
    } else {
        lemma_enc_u32s_index(data.skip(1), k - 1);
        assert forall|j: int| 0 <= j < 4 implies #[trigger] enc_u32s(data)[4 * k + j] == le4(
            data[k],
        )[j] by {
            assert(enc_u32s(data)[4 * k + j] == enc_u32s(data.skip(1))[4 * (k - 1) + j]);
            assert(data.skip(1)[k - 1] == data[k]);
        }
    }
}

proof fn lemma_enc_pairs_len(data: Seq<(i32, u32)>)
    ensures
        enc_pairs(data).len() == 8 * data.len(),
    decreases data.len(),
{
    if data.len() > 0 {
        lemma_enc_pairs_len(data.skip(1));
    }
}

proof fn lemma_enc_pairs_index(data: Seq<(i32, u32)>, k: int)
    requires
        0 <= k < data.len(),
    ensures
        forall|j: int|
            0 <= j < 4 ==> #[trigger] enc_pairs(data)[8 * k + j] == le4i(data[k].0)[j],
        forall|j: int|
            0 <= j < 4 ==> #[trigger] enc_pairs(data)[8 * k + 4 + j] == le4(data[k].1)[j],
    decreases k,
{
    lemma_enc_pairs_len(data);
    lemma_enc_pairs_len(data.skip(1));
    if k == 0 {
    } else {
        lemma_enc_pairs_index(data.skip(1), k - 1);
        assert forall|j: int| 0 <= j < 4 implies #[trigger] enc_pairs(data)[8 * k + j] == le4i(
            data[k].0,
        )[j] by {
            assert(enc_pairs(data)[8 * k + j] == enc_pairs(data.skip(1))[8 * (k - 1) + j]);
            assert(data.skip(1)[k - 1] == data[k]);
        }
        assert forall|j: int| 0 <= j < 4 implies #[trigger] enc_pairs(data)[8 * k + 4 + j] == le4(
            data[k].1,
        )[j] by {
            assert(enc_pairs(data)[8 * k + 4 + j] == enc_pairs(data.skip(1))[8 * (k - 1) + 4 + j]);
            assert(data.skip(1)[k - 1] == data[k]);
        }
    }
}

proof fn lemma_roundtrip_tableswitch(x: i32, y: i32, z: i32, w: Seq<u32>, c: int)
    requires
        0 <= c,
        y <= z,
        w.len() == z - y + 1,
    ensures
        spec_parse(spec_encode(OpModel::TableSwitch(x, y, z, w), c), c) == OpStep::Done(
            OpModel::TableSwitch(x, y, z, w),
            spec_encode(OpModel::TableSwitch(x, y, z, w), c).len() as int,
        ),
        spec_encode(OpModel::TableSwitch(x, y, z, w), c).len() >= 1,
{
    let m = OpModel::TableSwitch(x, y, z, w);
    let e = spec_encode(m, c);
    let pad = spec_switch_pad(c);
    let base = 1 + pad;
    let n = w.len() as int;
    lemma_enc_u32s_len(w);
    assert(e.len() == base + 12 + 4 * n);
    assert(e[0] == 0xAA);
    assert(e[base] == le4i(x)[0] && e[base + 1] == le4i(x)[1] && e[base + 2] == le4i(x)[2] && e[base
        + 3] == le4i(x)[3]);
    lemma_le4i_at(e, base, x);
    assert(e[base + 4] == le4i(y)[0] && e[base + 5] == le4i(y)[1] && e[base + 6] == le4i(y)[2]
        && e[base + 7] == le4i(y)[3]);
    lemma_le4i_at(e, base + 4, y);
    assert(e[base + 8] == le4i(z)[0] && e[base + 9] == le4i(z)[1] && e[base + 10] == le4i(z)[2]
        && e[base + 11] == le4i(z)[3]);
    lemma_le4i_at(e, base + 8, z);
    assert forall|k: int| 0 <= k < n implies spec_le_u32(e, base + 12 + 4 * k) == w[k] by {
        lemma_enc_u32s_index(w, k);
        assert(e[base + 12 + 4 * k] == enc_u32s(w)[4 * k + 0]);
        assert(e[base + 12 + 4 * k + 1] == enc_u32s(w)[4 * k + 1]);
        assert(e[base + 12 + 4 * k + 2] == enc_u32s(w)[4 * k + 2]);
        assert(e[base + 12 + 4 * k + 3] == enc_u32s(w)[4 * k + 3]);
        lemma_le4_at(e, base + 12 + 4 * k, w[k]);
    }
    assert(spec_table_offsets(e, base + 12, n) =~= w);
    assert(spec_parse_tableswitch(e, c) == OpStep::Done(m, e.len() as int));
}

proof fn lemma_roundtrip_lookupswitch(x: u32, w: Seq<(i32, u32)>, c: int)
    requires
        0 <= c,
        w.len() <= u32::MAX,
    ensures
        spec_parse(spec_encode(OpModel::LookUpSwitch(x, w), c), c) == OpStep::Done(
            OpModel::LookUpSwitch(x, w),
            spec_encode(OpModel::LookUpSwitch(x, w), c).len() as int,
        ),
        spec_encode(OpModel::LookUpSwitch(x, w), c).len() >= 1,
{
    let m = OpModel::LookUpSwitch(x, w);
    let e = spec_encode(m, c);
    let pad = spec_switch_pad(c);
    let base = 1 + pad;
    let n = w.len() as int;
    lemma_enc_pairs_len(w);
    assert(e.len() == base + 8 + 8 * n);
    assert(e[0] == 0xAB);
    assert(e[base] == le4(x)[0] && e[base + 1] == le4(x)[1] && e[base + 2] == le4(x)[2] && e[base
        + 3] == le4(x)[3]);
    lemma_le4_at(e, base, x);
    assert(e[base + 4] == le4(n as u32)[0] && e[base + 5] == le4(n as u32)[1] && e[base + 6] == le4(
        n as u32,
    )[2] && e[base + 7] == le4(n as u32)[3]);
    lemma_le4_at(e, base + 4, n as u32);
    assert forall|k: int| 0 <= k < n implies (spec_le_i32(e, base + 8 + 8 * k) == w[k].0
        && spec_le_u32(e, base + 8 + 8 * k + 4) == w[k].1) by {
        lemma_enc_pairs_index(w, k);
        assert(e[base + 8 + 8 * k] == enc_pairs(w)[8 * k + 0]);
        assert(e[base + 8 + 8 * k + 1] == enc_pairs(w)[8 * k + 1]);
        assert(e[base + 8 + 8 * k + 2] == enc_pairs(w)[8 * k + 2]);
        assert(e[base + 8 + 8 * k + 3] == enc_pairs(w)[8 * k + 3]);
        lemma_le4i_at(e, base + 8 + 8 * k, w[k].0);
        assert(e[base + 8 + 8 * k + 4] == enc_pairs(w)[8 * k + 4 + 0]);
        assert(e[base + 8 + 8 * k + 5] == enc_pairs(w)[8 * k + 4 + 1]);
        assert(e[base + 8 + 8 * k + 6] == enc_pairs(w)[8 * k + 4 + 2]);
        assert(e[base + 8 + 8 * k + 7] == enc_pairs(w)[8 * k + 4 + 3]);
        lemma_le4_at(e, base + 8 + 8 * k + 4, w[k].1);
    }
    assert forall|k: int| 0 <= k < n implies spec_match_pairs(e, base + 8, n)[k] == w[k] by {
        assert(w[k] == (w[k].0, w[k].1));
    }
    assert(spec_match_pairs(e, base + 8, n) =~= w);
    assert(spec_parse_lookupswitch(e, c) == OpStep::Done(m, e.len() as int));
}

/// A `nop` byte decodes to exactly one niladic instruction spanning exactly
/// one byte, at every cursor position.
pub proof fn lemma_decode_nop(s: Seq<u8>, c: int)
    requires
        0 <= c,
        s.len() >= 1,
        s[0] == 0x00,
    ensures
        spec_parse(s, c) == OpStep::Done(OpModel::Nop, 1),
{
}

/// Whenever a `tableswitch` decodes, its jump table holds `high - low + 1`
/// offsets and the instruction spans exactly the tag byte, the padding the
/// cursor position demands, the 12 header bytes, and 4 bytes per offset.
pub proof fn lemma_tableswitch_consumed(s: Seq<u8>, c: int)
    requires
        0 <= c,
        s.len() >= 1,
        s[0] == 0xAA,
    ensures
        spec_parse(s, c) matches OpStep::Done(m, n) ==> {
            &&& m matches OpModel::TableSwitch(_default, low, high, data)
            &&& low <= high
            &&& data.len() == high - low + 1
            &&& n == 1 + spec_switch_pad(c) + 12 + 4 * (high - low + 1)
        },
{
}

/// Every decoded instruction spans at least one byte and no more than the
/// buffer holds.
#[verifier::rlimit(100)]
#[verifier::spinoff_prover]
pub proof fn lemma_parse_step_len(s: Seq<u8>, c: int)
    requires
        0 <= c,
    ensures
        spec_parse(s, c) matches OpStep::Done(m, n) ==> 1 <= n <= s.len(),
{
}

/// The round-trip law: laying an instruction out in its canonical byte
/// layout and decoding those bytes at the same cursor position yields the
/// instruction back, consuming exactly the layout's length.
#[verifier::rlimit(100)]
#[verifier::spinoff_prover]
pub proof fn lemma_encode_decode(m: OpModel, c: int)
    requires
        wf_op(m),
        0 <= c,
    ensures
        spec_encode(m, c).len() >= 1,
        spec_parse(spec_encode(m, c), c) == OpStep::Done(m, spec_encode(m, c).len() as int),
{
    let e = spec_encode(m, c);
    match m {
        OpModel::AALoad => {
            assert(e =~= seq![0x32u8]);
        }
        OpModel::AAStore => {
            assert(e =~= seq![0x53u8]);
        }
        OpModel::AConstNull => {
            assert(e =~= seq![0x01u8]);
        }
        OpModel::ALoad(x) => {
            assert(e =~= seq![0x19u8, x]);
        }
        OpModel::ALoadWide(x) => {
            lemma_u16_bytes(x);
            assert(e.len() == 4 && e[0] == 0xC4 && e[1] == 0x19u8);
            assert(spec_le_u16(e, 2) == x);
        }
        OpModel::ALoad0 => {
            assert(e =~= seq![0x2Au8]);
        }
        OpModel::ALoad1 => {
            assert(e =~= seq![0x2Bu8]);
        }
        OpModel::ALoad2 => {
            assert(e =~= seq![0x2Cu8]);
        }
        OpModel::ALoad3 => {
            assert(e =~= seq![0x2Du8]);
        }
        OpModel::ANewArray(x) => {
            lemma_u16_bytes(x);
            assert(e.len() == 3 && e[0] == 0xBDu8);
            assert(spec_le_u16(e, 1) == x);
        }
        OpModel::AReturn => {
            assert(e =~= seq![0xB0u8]);
        }
        OpModel::ArrayLength => {
            assert(e =~= seq![0xBEu8]);
        }
        OpModel::AStore(x) => {
            assert(e =~= seq![0x3Au8, x]);
        }
        OpModel::AStoreWide(x) => {
            lemma_u16_bytes(x);
            assert(e.len() == 4 && e[0] == 0xC4 && e[1] == 0x3Au8);
            assert(spec_le_u16(e, 2) == x);
        }
        OpModel::AStore0 => {
            assert(e =~= seq![0x4Bu8]);
        }
        OpModel::AStore1 => {
            assert(e =~= seq![0x4Cu8]);
        }
        OpModel::AStore2 => {
            assert(e =~= seq![0x4Du8]);
        }
        OpModel::AStore3 => {
            assert(e =~= seq![0x4Eu8]);
        }
        OpModel::AThrow => {
            assert(e =~= seq![0xBFu8]);
        }
        OpModel::BaLoad => {
            assert(e =~= seq![0x33u8]);
        }
        OpModel::BaStore => {
            assert(e =~= seq![0x54u8]);
        }
        OpModel::BiPush(x) => {
            assert(e =~= seq![0x10u8, x]);
        }
        OpModel::BreakPoint => {
            assert(e =~= seq![0xCAu8]);
        }
        OpModel::CaLoad => {
            assert(e =~= seq![0x34u8]);
        }
        OpModel::CaStore => {
            assert(e =~= seq![0x55u8]);
        }
        OpModel::CheckCast(x) => {
            lemma_u16_bytes(x);
            assert(e.len() == 3 && e[0] == 0xC0u8);
            assert(spec_le_u16(e, 1) == x);
        }
        OpModel::D2F => {
            assert(e =~= seq![0x90u8]);
        }
        OpModel::D2I => {
            assert(e =~= seq![0x8Eu8]);
        }
        OpModel::D2L => {
            assert(e =~= seq![0x8Fu8]);
        }
        OpModel::DAdd => {
            assert(e =~= seq![0x63u8]);
        }
        OpModel::DALoad => {
            assert(e =~= seq![0x31u8]);
        }
        OpModel::DAStore => {
            assert(e =~= seq![0x52u8]);
        }
        OpModel::DcmpG => {
            assert(e =~= seq![0x98u8]);
        }
        OpModel::DcmpL => {
            assert(e =~= seq![0x97u8]);
        }
        OpModel::DConst0 => {
            assert(e =~= seq![0x0Eu8]);
        }
        OpModel::DConst1 => {
            assert(e =~= seq![0x0Fu8]);
        }
        OpModel::DDiv => {
            assert(e =~= seq![0x6Fu8]);
        }
        OpModel::DLoad(x) => {
            assert(e =~= seq![0x18u8, x]);
        }
        OpModel::DLoadWide(x) => {
            lemma_u16_bytes(x);
            assert(e.len() == 4 && e[0] == 0xC4 && e[1] == 0x18u8);
            assert(spec_le_u16(e, 2) == x);
        }
        OpModel::DLoad0 => {
            assert(e =~= seq![0x26u8]);
        }
        OpModel::DLoad1 => {
            assert(e =~= seq![0x27u8]);
        }
        OpModel::DLoad2 => {
            assert(e =~= seq![0x28u8]);
        }
        OpModel::DLoad3 => {
            assert(e =~= seq![0x29u8]);
        }
        OpModel::DMul => {
            assert(e =~= seq![0x6Bu8]);
        }
        OpModel::DNeg => {
            assert(e =~= seq![0x77u8]);
        }
        OpModel::DRem => {
            assert(e =~= seq![0x73u8]);
        }
        OpModel::DStore(x) => {
            assert(e =~= seq![0xAFu8, x]);
        }
        OpModel::DStoreWide(x) => {
            lemma_u16_bytes(x);
            assert(e.len() == 4 && e[0] == 0xC4 && e[1] == 0xAFu8);
            assert(spec_le_u16(e, 2) == x);
        }
        OpModel::DStore0 => {
            assert(e =~= seq![0x47u8]);
        }
        OpModel::DStore1 => {
            assert(e =~= seq![0x48u8]);
        }
        OpModel::DStore2 => {
            assert(e =~= seq![0x49u8]);
        }
        OpModel::DStore3 => {
            assert(e =~= seq![0x4Au8]);
        }
        OpModel::DSub => {
            assert(e =~= seq![0x67u8]);
        }
        OpModel::Dup => {
            assert(e =~= seq![0x59u8]);
        }
        OpModel::Dupx1 => {
            assert(e =~= seq![0x5Au8]);
        }
        OpModel::Dupx2 => {
            assert(e =~= seq![0x5Bu8]);
        }
        OpModel::Dup2 => {
            assert(e =~= seq![0x5Cu8]);
        }
        OpModel::Dup2x1 => {
            assert(e =~= seq![0x5Du8]);
        }
        OpModel::Dup2x2 => {
        }
        OpModel::F2D => {
            assert(e =~= seq![0x8Du8]);
        }
        OpModel::F2I => {
            assert(e =~= seq![0x8Bu8]);
        }
        OpModel::F2L => {
            assert(e =~= seq![0x8Cu8]);
        }
        OpModel::FAdd => {
            assert(e =~= seq![0x62u8]);
        }
        OpModel::FALoad => {
            assert(e =~= seq![0x30u8]);
        }
        OpModel::FAStore => {
            assert(e =~= seq![0x51u8]);
        }
        OpModel::FcmpG => {
            assert(e =~= seq![0x96u8]);
        }
        OpModel::FcmpL => {
            assert(e =~= seq![0x95u8]);
        }
        OpModel::FConst0 => {
            assert(e =~= seq![0x0Bu8]);
        }
        OpModel::FConst1 => {
            assert(e =~= seq![0x0Cu8]);
        }
        OpModel::FConst2 => {
            assert(e =~= seq![0x0Du8]);
        }
        OpModel::FDiv => {
            assert(e =~= seq![0x6Eu8]);
        }
        OpModel::FLoad(x) => {
            assert(e =~= seq![0x17u8, x]);
        }
        OpModel::FLoadWide(x) => {
            lemma_u16_bytes(x);
            assert(e.len() == 4 && e[0] == 0xC4 && e[1] == 0x17u8);
            assert(spec_le_u16(e, 2) == x);
        }
        OpModel::FLoad0 => {
            assert(e =~= seq![0x22u8]);
        }
        OpModel::FLoad1 => {
            assert(e =~= seq![0x23u8]);
        }
        OpModel::FLoad2 => {
            assert(e =~= seq![0x24u8]);
        }
        OpModel::FLoad3 => {
            assert(e =~= seq![0x25u8]);
        }
        OpModel::FMul => {
            assert(e =~= seq![0x6Au8]);
        }
        OpModel::FNeg => {
            assert(e =~= seq![0x76u8]);
        }
        OpModel::FRem => {
            assert(e =~= seq![0x72u8]);
        }
        OpModel::FReturn => {
            assert(e =~= seq![0xAEu8]);
        }
        OpModel::FStore(x) => {
            assert(e =~= seq![0x38u8, x]);
        }
        OpModel::FStoreWide(x) => {
            lemma_u16_bytes(x);
            assert(e.len() == 4 && e[0] == 0xC4 && e[1] == 0x38u8);
            assert(spec_le_u16(e, 2) == x);
        }
        OpModel::FStore0 => {
            assert(e =~= seq![0x43u8]);
        }
        OpModel::FStore1 => {
            assert(e =~= seq![0x44u8]);
        }
        OpModel::FStore2 => {
            assert(e =~= seq![0x45u8]);
        }
        OpModel::FStore3 => {
            assert(e =~= seq![0x46u8]);
        }
        OpModel::FSub => {
            assert(e =~= seq![0x66u8]);
        }
        OpModel::GetField(x) => {
            lemma_u16_bytes(x);
            assert(e.len() == 3 && e[0] == 0xB4u8);
            assert(spec_le_u16(e, 1) == x);
        }
        OpModel::GetStatic(x) => {
            lemma_u16_bytes(x);
            assert(e.len() == 3 && e[0] == 0xB2u8);
            assert(spec_le_u16(e, 1) == x);
        }
        OpModel::Goto(x) => {
            lemma_u16_bytes(x);
            assert(e.len() == 3 && e[0] == 0xA7u8);
            assert(spec_le_u16(e, 1) == x);
        }
        OpModel::GotoW(x) => {
            lemma_u32_bytes(x);
            assert(e.len() == 5 && e[0] == 0xC8u8);
            assert(spec_le_u32(e, 1) == x);
        }
        OpModel::I2B => {
            assert(e =~= seq![0x91u8]);
        }
        OpModel::I2C => {
            assert(e =~= seq![0x92u8]);
        }
        OpModel::I2D => {
            assert(e =~= seq![0x87u8]);
        }
        OpModel::I2F => {
            assert(e =~= seq![0x86u8]);
        }
        OpModel::I2L => {
            assert(e =~= seq![0x85u8]);
        }
        OpModel::I2S => {
            assert(e =~= seq![0x93u8]);
        }
        OpModel::IAdd => {
            assert(e =~= seq![0x60u8]);
        }
        OpModel::IALoad => {
            assert(e =~= seq![0x2Eu8]);
        }
        OpModel::IAnd => {
            assert(e =~= seq![0x7Eu8]);
        }
        OpModel::IAStore => {
            assert(e =~= seq![0x4Fu8]);
        }
        OpModel::IConstM1 => {
            assert(e =~= seq![0x02u8]);
        }
        OpModel::IConst0 => {
            assert(e =~= seq![0x03u8]);
        }
        OpModel::IConst1 => {
            assert(e =~= seq![0x04u8]);
        }
        OpModel::IConst2 => {
            assert(e =~= seq![0x05u8]);
        }
        OpModel::IConst3 => {
            assert(e =~= seq![0x06u8]);
        }
        OpModel::IConst4 => {
            assert(e =~= seq![0x07u8]);
        }
        OpModel::IConst5 => {
            assert(e =~= seq![0x08u8]);
        }
        OpModel::IDiv => {
            assert(e =~= seq![0x6Cu8]);
        }
        OpModel::IFAcmpEQ(x) => {
            lemma_u16_bytes(x);
            assert(e.len() == 3 && e[0] == 0xA5u8);
            assert(spec_le_u16(e, 1) == x);
        }
        OpModel::IFAcmpNE(x) => {
            lemma_u16_bytes(x);
            assert(e.len() == 3 && e[0] == 0xA6u8);
            assert(spec_le_u16(e, 1) == x);
        }
        OpModel::IFIcmpEQ(x) => {
            lemma_u16_bytes(x);
            assert(e.len() == 3 && e[0] == 0x9Fu8);
            assert(spec_le_u16(e, 1) == x);
        }
        OpModel::IfIcmpGE(x) => {
            lemma_u16_bytes(x);
            assert(e.len() == 3 && e[0] == 0xA2u8);
            assert(spec_le_u16(e, 1) == x);
        }
        OpModel::IFIcmpGT(x) => {
            lemma_u16_bytes(x);
            assert(e.len() == 3 && e[0] == 0xA3u8);
            assert(spec_le_u16(e, 1) == x);
        }
        OpModel::IFIcmpLE(x) => {
            lemma_u16_bytes(x);
            assert(e.len() == 3 && e[0] == 0xA4u8);
            assert(spec_le_u16(e, 1) == x);
        }
        OpModel::IFIcmpLT(x) => {
            lemma_u16_bytes(x);
            assert(e.len() == 3 && e[0] == 0xA1u8);
            assert(spec_le_u16(e, 1) == x);
        }
        OpModel::IFIcmpNE(x) => {
            lemma_u16_bytes(x);
            assert(e.len() == 3 && e[0] == 0xA0u8);
            assert(spec_le_u16(e, 1) == x);
        }
        OpModel::IFEQ(x) => {
            lemma_u16_bytes(x);
            assert(e.len() == 3 && e[0] == 0x99u8);
            assert(spec_le_u16(e, 1) == x);
        }
        OpModel::IFGE(x) => {
            lemma_u16_bytes(x);
            assert(e.len() == 3 && e[0] == 0x9Cu8);
            assert(spec_le_u16(e, 1) == x);
        }
        OpModel::IFGT(x) => {
            lemma_u16_bytes(x);
            assert(e.len() == 3 && e[0] == 0x9Du8);
            assert(spec_le_u16(e, 1) == x);
        }
        OpModel::IFLE(x) => {
            lemma_u16_bytes(x);
            assert(e.len() == 3 && e[0] == 0x9Bu8);
            assert(spec_le_u16(e, 1) == x);
        }
        OpModel::IFNE(x) => {
            lemma_u16_bytes(x);
            assert(e.len() == 3 && e[0] == 0x9Au8);
            assert(spec_le_u16(e, 1) == x);
        }
        OpModel::IFnonNull(x) => {
            lemma_u16_bytes(x);
            assert(e.len() == 3 && e[0] == 0xC7u8);
            assert(spec_le_u16(e, 1) == x);
        }
        OpModel::IFNull(x) => {
            lemma_u16_bytes(x);
            assert(e.len() == 3 && e[0] == 0xC6u8);
            assert(spec_le_u16(e, 1) == x);
        }
        OpModel::IInc(x, y) => {
            assert(e =~= seq![0x84u8, x, y]);
        }
        OpModel::IIncWide(x, y) => {
            lemma_u16_bytes(x);
            lemma_u16_bytes(y as u16);
            lemma_i16_cast(y);
            assert(e.len() == 6 && e[0] == 0xC4 && e[1] == 0x84u8);
            assert(spec_le_u16(e, 2) == x);
            assert(spec_le_u16(e, 4) == y as u16);
            assert(spec_le_i16(e, 4) == y);
        }
        OpModel::ILoad(x) => {
            lemma_u16_bytes(x);
            assert(e.len() == 4 && e[0] == 0xC4 && e[1] == 0x15u8);
            assert(spec_le_u16(e, 2) == x);
        }
        OpModel::ILoadWide(x) => {
            assert(e =~= seq![0x15u8, x]);
        }
        OpModel::ILoad0 => {
            assert(e =~= seq![0x1Au8]);
        }
        OpModel::ILoad1 => {
            assert(e =~= seq![0x1Bu8]);
        }
        OpModel::ILoad2 => {
            assert(e =~= seq![0x1Cu8]);
        }
        OpModel::ILoad3 => {
            assert(e =~= seq![0x1Du8]);
        }
        OpModel::ImpDep1 => {
            assert(e =~= seq![0xF3u8]);
        }
        OpModel::ImpDep2 => {
            assert(e =~= seq![0xFFu8]);
        }
        OpModel::IMul => {
            assert(e =~= seq![0x68u8]);
        }
        OpModel::INeg => {
            assert(e =~= seq![0x74u8]);
        }
        OpModel::InstanceOf(x) => {
            lemma_u16_bytes(x);
            assert(e.len() == 3 && e[0] == 0xC1u8);
            assert(spec_le_u16(e, 1) == x);
        }
        OpModel::InvokedDynamic(x) => {
            lemma_u16_bytes(x);
            assert(e.len() == 5 && e[0] == 0xBAu8 && e[3] == 0 && e[4] == 0);
            assert(spec_le_u16(e, 1) == x);
        }
        OpModel::InvokedInterface(x, y) => {
            lemma_u16_bytes(x);
            assert(e.len() == 5 && e[0] == 0xB9u8 && e[3] == y && e[4] == 0);
            assert(spec_le_u16(e, 1) == x);
        }
        OpModel::InvokeSpecial(x) => {
            lemma_u16_bytes(x);
            assert(e.len() == 3 && e[0] == 0xB7u8);
            assert(spec_le_u16(e, 1) == x);
        }
        OpModel::InvokeStatic(x) => {
            lemma_u16_bytes(x);
            assert(e.len() == 3 && e[0] == 0xB8u8);
            assert(spec_le_u16(e, 1) == x);
        }
        OpModel::InvokeVirtual(x) => {
            lemma_u16_bytes(x);
            assert(e.len() == 3 && e[0] == 0xB6u8);
            assert(spec_le_u16(e, 1) == x);
        }
        OpModel::IOr => {
            assert(e =~= seq![0x80u8]);
        }
        OpModel::IRem => {
            assert(e =~= seq![0x70u8]);
        }
        OpModel::IReturn => {
            assert(e =~= seq![0xACu8]);
        }
        OpModel::ISHL => {
            assert(e =~= seq![0x78u8]);
        }
        OpModel::ISHR => {
            assert(e =~= seq![0x7Au8]);
        }
        OpModel::IStore(x) => {
            assert(e =~= seq![0x36u8, x]);
        }
        OpModel::IStoreWide(x) => {
            lemma_u16_bytes(x);
            assert(e.len() == 4 && e[0] == 0xC4 && e[1] == 0x36u8);
            assert(spec_le_u16(e, 2) == x);
        }
        OpModel::IStore0 => {
            assert(e =~= seq![0x3Bu8]);
        }
        OpModel::IStore1 => {
            assert(e =~= seq![0x3Cu8]);
        }
        OpModel::IStore2 => {
            assert(e =~= seq![0x3Du8]);
        }
        OpModel::IStore3 => {
            assert(e =~= seq![0x3Eu8]);
        }
        OpModel::ISub => {
            assert(e =~= seq![0x64u8]);
        }
        OpModel::IUSHR => {
            assert(e =~= seq![0x7Cu8]);
        }
        OpModel::IXor => {
            assert(e =~= seq![0x82u8]);
        }
        OpModel::JSR(x) => {
            lemma_u16_bytes(x);
            assert(e.len() == 3 && e[0] == 0xA8u8);
            assert(spec_le_u16(e, 1) == x);
        }
        OpModel::JSRW(x) => {
            lemma_u16_bytes(x);
            assert(e.len() == 3 && e[0] == 0xC9u8);
            assert(spec_le_u16(e, 1) == x);
        }
        OpModel::L2D => {
            assert(e =~= seq![0x8Au8]);
        }
        OpModel::L2F => {
            assert(e =~= seq![0x89u8]);
        }
        OpModel::L2I => {
            assert(e =~= seq![0x88u8]);
        }
        OpModel::LAdd => {
            assert(e =~= seq![0x61u8]);
        }
        OpModel::LALoad => {
            assert(e =~= seq![0x2Fu8]);
        }
        OpModel::LAnd => {
            assert(e =~= seq![0x7Fu8]);
        }
        OpModel::LAStore => {
            assert(e =~= seq![0x50u8]);
        }
        OpModel::Lcmp => {
            assert(e =~= seq![0x94u8]);
        }
        OpModel::LConst0 => {
            assert(e =~= seq![0x09u8]);
        }
        OpModel::LConst1 => {
            assert(e =~= seq![0x0Au8]);
        }
        OpModel::LDC(x) => {
            assert(e =~= seq![0x12u8, x]);
        }
        OpModel::LDCW(x) => {
            lemma_u16_bytes(x);
            assert(e.len() == 3 && e[0] == 0x13u8);
            assert(spec_le_u16(e, 1) == x);
        }
        OpModel::LDC2W(x) => {
            lemma_u16_bytes(x);
            assert(e.len() == 3 && e[0] == 0x14u8);
            assert(spec_le_u16(e, 1) == x);
        }
        OpModel::LDiv => {
            assert(e =~= seq![0x6Du8]);
        }
        OpModel::LLoad(x) => {
            assert(e =~= seq![0x16u8, x]);
        }
        OpModel::LLoadWide(x) => {
            lemma_u16_bytes(x);
            assert(e.len() == 4 && e[0] == 0xC4 && e[1] == 0x16u8);
            assert(spec_le_u16(e, 2) == x);
        }
        OpModel::LLoad0 => {
            assert(e =~= seq![0x1Eu8]);
        }
        OpModel::LLoad1 => {
            assert(e =~= seq![0x1Fu8]);
        }
        OpModel::LLoad2 => {
            assert(e =~= seq![0x20u8]);
        }
        OpModel::LLoad3 => {
            assert(e =~= seq![0x21u8]);
        }
        OpModel::LMul => {
            assert(e =~= seq![0x69u8]);
        }
        OpModel::LNeg => {
            assert(e =~= seq![0x75u8]);
        }
        OpModel::LookUpSwitch(x, y) => {
            lemma_roundtrip_lookupswitch(x, y, c);
        }
        OpModel::LOr => {
            assert(e =~= seq![0x81u8]);
        }
        OpModel::LRem => {
            assert(e =~= seq![0x71u8]);
        }
        OpModel::LReturn => {
            assert(e =~= seq![0xADu8]);
        }
        OpModel::LSHL => {
            assert(e =~= seq![0x79u8]);
        }
        OpModel::LSHR => {
            assert(e =~= seq![0x7Bu8]);
        }
        OpModel::LStore(x) => {
            assert(e =~= seq![0x37u8, x]);
        }
        OpModel::LStoreWide(x) => {
            lemma_u16_bytes(x);
            assert(e.len() == 4 && e[0] == 0xC4 && e[1] == 0x37u8);
            assert(spec_le_u16(e, 2) == x);
        }
        OpModel::LStore0 => {
            assert(e =~= seq![0x3Fu8]);
        }
        OpModel::LStore1 => {
            assert(e =~= seq![0x40u8]);
        }
        OpModel::LStore2 => {
            assert(e =~= seq![0x41u8]);
        }
        OpModel::LStore3 => {
            assert(e =~= seq![0x42u8]);
        }
        OpModel::LSub => {
            assert(e =~= seq![0x65u8]);
        }
        OpModel::LUSHR => {
            assert(e =~= seq![0x7Du8]);
        }
        OpModel::LXor => {
            assert(e =~= seq![0x83u8]);
        }
        OpModel::MonitorEnter => {
            assert(e =~= seq![0xC2u8]);
        }
        OpModel::MonitorExit => {
            assert(e =~= seq![0xC3u8]);
        }
        OpModel::MultiAneWArray(x, y) => {
            lemma_u16_bytes(x);
            assert(e.len() == 4 && e[0] == 0xC5u8 && e[3] == y);
            assert(spec_le_u16(e, 1) == x);
        }
        OpModel::New(x) => {
            lemma_u16_bytes(x);
            assert(e.len() == 3 && e[0] == 0xBBu8);
            assert(spec_le_u16(e, 1) == x);
        }
        OpModel::NewArray(x) => {
            assert(e =~= seq![0xBCu8, x]);
        }
        OpModel::Nop => {
            assert(e =~= seq![0x00u8]);
        }
        OpModel::Pop => {
            assert(e =~= seq![0x57u8]);
        }
        OpModel::Pop2 => {
            assert(e =~= seq![0x58u8]);
        }
        OpModel::PutField(x) => {
            lemma_u16_bytes(x);
            assert(e.len() == 3 && e[0] == 0xB5u8);
            assert(spec_le_u16(e, 1) == x);
        }
        OpModel::PutStatic(x) => {
            lemma_u16_bytes(x);
            assert(e.len() == 3 && e[0] == 0xB3u8);
            assert(spec_le_u16(e, 1) == x);
        }
        OpModel::Ret(x) => {
            assert(e =~= seq![0xA9u8, x]);
        }
        OpModel::RetWide(x) => {
            lemma_u16_bytes(x);
            assert(e.len() == 4 && e[0] == 0xC4 && e[1] == 0xA9u8);
            assert(spec_le_u16(e, 2) == x);
        }
        OpModel::Return => {
            assert(e =~= seq![0xB1u8]);
        }
        OpModel::SALoad => {
            assert(e =~= seq![0x35u8]);
        }
        OpModel::SAStore => {
            assert(e =~= seq![0x56u8]);
        }
        OpModel::SIPush(x) => {
            lemma_u16_bytes(x);
            assert(e.len() == 3 && e[0] == 0x11u8);
            assert(spec_le_u16(e, 1) == x);
        }
        OpModel::Swap => {
            assert(e =~= seq![0x5Fu8]);
        }
        OpModel::TableSwitch(x, y, z, w) => {
            lemma_roundtrip_tableswitch(x, y, z, w, c);
        }
    }
}

} // verus!
