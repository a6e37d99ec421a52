//! The instruction-stream decoder.
//!
//! [`parse_java_op`] decodes one instruction from a buffer at a given index,
//! advancing the session cursor by exactly the bytes the instruction spans;
//! [`read_all_ops`] runs it over a whole `Code` array.  Both are specified
//! against [`crate::opspec::spec_parse`].

use vstd::prelude::*;

use crate::cursor::{move_pos, set_pos_init};
use crate::jop::{JOp, OpModel};
use crate::opspec::{
    spec_match_pairs, spec_parse, spec_parse_lookupswitch, spec_parse_plain_0, spec_parse_plain_1,
    spec_parse_plain_2, spec_parse_plain_3, spec_parse_tableswitch, spec_parse_wide,
    spec_table_offsets, OpStep,
};
use crate::reader::{le_i16, le_i32, le_u16, le_u32, lemma_skip_index, spec_le_i32, spec_le_u16, spec_le_u32};

verus! {

/// Outcome of decoding one instruction from a buffer: the instruction and
/// the bytes it spans, the end of the usable input, or a hard mismatch.
#[derive(Clone, Debug, PartialEq)]
pub enum OpParse {
    Done(JOp, usize),
    Incomplete,
    Unknown,
}

/// The decoded value agrees with the specified decoding step.
pub open spec fn step_matches(r: OpParse, sp: OpStep) -> bool {
    match sp {
        OpStep::Done(m, n) => r matches OpParse::Done(op, cnt) && op@ == m && cnt as int == n,
        OpStep::Incomplete => r is Incomplete,
        OpStep::Unknown => r is Unknown,
    }
}

/// The length of a `tableswitch` jump table: `(high - low) + 1` entries.
pub fn slen(high: i32, low: i32) -> (r: usize)
    requires
        low <= high,
        high - low + 1 <= usize::MAX,
    ensures
        r == high - low + 1,
{
    ((high as i64) - (low as i64) + 1) as usize
}

#[verifier::rlimit(60)]
fn parse_plain_0(buffer: &[u8], at: usize) -> (r: OpParse)
    requires
        at < buffer.len(),
        buffer[at as int] < 0x40,
    ensures
        step_matches(r, spec_parse_plain_0(buffer@.skip(at as int))),
        r matches OpParse::Done(_, cnt) ==> 1 <= cnt <= buffer.len() - at,
{
    proof {
        lemma_skip_index(buffer@, at as int);
    }
    match buffer[at] {
        0x00u8 => OpParse::Done(JOp::Nop, 1),
        0x01u8 => OpParse::Done(JOp::AConstNull, 1),
        0x02u8 => OpParse::Done(JOp::IConstM1, 1),
        0x03u8 => OpParse::Done(JOp::IConst0, 1),
        0x04u8 => OpParse::Done(JOp::IConst1, 1),
        0x05u8 => OpParse::Done(JOp::IConst2, 1),
        0x06u8 => OpParse::Done(JOp::IConst3, 1),
        0x07u8 => OpParse::Done(JOp::IConst4, 1),
        0x08u8 => OpParse::Done(JOp::IConst5, 1),
        0x09u8 => OpParse::Done(JOp::LConst0, 1),
        0x0Au8 => OpParse::Done(JOp::LConst1, 1),
        0x0Bu8 => OpParse::Done(JOp::FConst0, 1),
        0x0Cu8 => OpParse::Done(JOp::FConst1, 1),
        0x0Du8 => OpParse::Done(JOp::FConst2, 1),
        0x0Eu8 => OpParse::Done(JOp::DConst0, 1),
        0x0Fu8 => OpParse::Done(JOp::DConst1, 1),
        0x10u8 => if buffer.len() - at >= 2 { OpParse::Done(JOp::BiPush(buffer[at + 1]), 2) } else { OpParse::Incomplete },
        0x11u8 => if buffer.len() - at >= 3 { OpParse::Done(JOp::SIPush(le_u16(buffer, at + 1)), 3) } else { OpParse::Incomplete },
        0x12u8 => if buffer.len() - at >= 2 { OpParse::Done(JOp::LDC(buffer[at + 1]), 2) } else { OpParse::Incomplete },
        0x13u8 => if buffer.len() - at >= 3 { OpParse::Done(JOp::LDCW(le_u16(buffer, at + 1)), 3) } else { OpParse::Incomplete },
        0x14u8 => if buffer.len() - at >= 3 { OpParse::Done(JOp::LDC2W(le_u16(buffer, at + 1)), 3) } else { OpParse::Incomplete },
        0x15u8 => if buffer.len() - at >= 2 { OpParse::Done(JOp::ILoadWide(buffer[at + 1]), 2) } else { OpParse::Incomplete },
        0x16u8 => if buffer.len() - at >= 2 { OpParse::Done(JOp::LLoad(buffer[at + 1]), 2) } else { OpParse::Incomplete },
        0x17u8 => if buffer.len() - at >= 2 { OpParse::Done(JOp::FLoad(buffer[at + 1]), 2) } else { OpParse::Incomplete },
        0x18u8 => if buffer.len() - at >= 2 { OpParse::Done(JOp::DLoad(buffer[at + 1]), 2) } else { OpParse::Incomplete },
        0x19u8 => if buffer.len() - at >= 2 { OpParse::Done(JOp::ALoad(buffer[at + 1]), 2) } else { OpParse::Incomplete },
        0x1Au8 => OpParse::Done(JOp::ILoad0, 1),
        0x1Bu8 => OpParse::Done(JOp::ILoad1, 1),
        0x1Cu8 => OpParse::Done(JOp::ILoad2, 1),
        0x1Du8 => OpParse::Done(JOp::ILoad3, 1),
        0x1Eu8 => OpParse::Done(JOp::LLoad0, 1),
        0x1Fu8 => OpParse::Done(JOp::LLoad1, 1),
        0x20u8 => OpParse::Done(JOp::LLoad2, 1),
        0x21u8 => OpParse::Done(JOp::LLoad3, 1),
        0x22u8 => OpParse::Done(JOp::FLoad0, 1),
        0x23u8 => OpParse::Done(JOp::FLoad1, 1),
        0x24u8 => OpParse::Done(JOp::FLoad2, 1),
        0x25u8 => OpParse::Done(JOp::FLoad3, 1),
        0x26u8 => OpParse::Done(JOp::DLoad0, 1),
        0x27u8 => OpParse::Done(JOp::DLoad1, 1),
        0x28u8 => OpParse::Done(JOp::DLoad2, 1),
        0x29u8 => OpParse::Done(JOp::DLoad3, 1),
        0x2Au8 => OpParse::Done(JOp::ALoad0, 1),
        0x2Bu8 => OpParse::Done(JOp::ALoad1, 1),
        0x2Cu8 => OpParse::Done(JOp::ALoad2, 1),
        0x2Du8 => OpParse::Done(JOp::ALoad3, 1),
        0x2Eu8 => OpParse::Done(JOp::IALoad, 1),
        0x2Fu8 => OpParse::Done(JOp::LALoad, 1),
        0x30u8 => OpParse::Done(JOp::FALoad, 1),
        0x31u8 => OpParse::Done(JOp::DALoad, 1),
        0x32u8 => OpParse::Done(JOp::AALoad, 1),
        0x33u8 => OpParse::Done(JOp::BaLoad, 1),
        0x34u8 => OpParse::Done(JOp::CaLoad, 1),
        0x35u8 => OpParse::Done(JOp::SALoad, 1),
        0x36u8 => if buffer.len() - at >= 2 { OpParse::Done(JOp::IStore(buffer[at + 1]), 2) } else { OpParse::Incomplete },
        0x37u8 => if buffer.len() - at >= 2 { OpParse::Done(JOp::LStore(buffer[at + 1]), 2) } else { OpParse::Incomplete },
        0x38u8 => if buffer.len() - at >= 2 { OpParse::Done(JOp::FStore(buffer[at + 1]), 2) } else { OpParse::Incomplete },
        0x3Au8 => if buffer.len() - at >= 2 { OpParse::Done(JOp::AStore(buffer[at + 1]), 2) } else { OpParse::Incomplete },
        0x3Bu8 => OpParse::Done(JOp::IStore0, 1),
        0x3Cu8 => OpParse::Done(JOp::IStore1, 1),
        0x3Du8 => OpParse::Done(JOp::IStore2, 1),
        0x3Eu8 => OpParse::Done(JOp::IStore3, 1),
        0x3Fu8 => OpParse::Done(JOp::LStore0, 1),
        _ => OpParse::Unknown,
    }
}

#[verifier::rlimit(60)]
fn parse_plain_1(buffer: &[u8], at: usize) -> (r: OpParse)
    requires
        at < buffer.len(),
        0x40 <= buffer[at as int] < 0x80,
    ensures
        step_matches(r, spec_parse_plain_1(buffer@.skip(at as int))),
        r matches OpParse::Done(_, cnt) ==> 1 <= cnt <= buffer.len() - at,
{
    proof {
        lemma_skip_index(buffer@, at as int);
    }
    match buffer[at] {
        0x40u8 => OpParse::Done(JOp::LStore1, 1),
        0x41u8 => OpParse::Done(JOp::LStore2, 1),
        0x42u8 => OpParse::Done(JOp::LStore3, 1),
        0x43u8 => OpParse::Done(JOp::FStore0, 1),
        0x44u8 => OpParse::Done(JOp::FStore1, 1),
        0x45u8 => OpParse::Done(JOp::FStore2, 1),
        0x46u8 => OpParse::Done(JOp::FStore3, 1),
        0x47u8 => OpParse::Done(JOp::DStore0, 1),
        0x48u8 => OpParse::Done(JOp::DStore1, 1),
        0x49u8 => OpParse::Done(JOp::DStore2, 1),
        0x4Au8 => OpParse::Done(JOp::DStore3, 1),
        0x4Bu8 => OpParse::Done(JOp::AStore0, 1),
        0x4Cu8 => OpParse::Done(JOp::AStore1, 1),
        0x4Du8 => OpParse::Done(JOp::AStore2, 1),
        0x4Eu8 => OpParse::Done(JOp::AStore3, 1),
        0x4Fu8 => OpParse::Done(JOp::IAStore, 1),
        0x50u8 => OpParse::Done(JOp::LAStore, 1),
        0x51u8 => OpParse::Done(JOp::FAStore, 1),
        0x52u8 => OpParse::Done(JOp::DAStore, 1),
        0x53u8 => OpParse::Done(JOp::AAStore, 1),
        0x54u8 => OpParse::Done(JOp::BaStore, 1),
        0x55u8 => OpParse::Done(JOp::CaStore, 1),
        0x56u8 => OpParse::Done(JOp::SAStore, 1),
        0x57u8 => OpParse::Done(JOp::Pop, 1),
        0x58u8 => OpParse::Done(JOp::Pop2, 1),
        0x59u8 => OpParse::Done(JOp::Dup, 1),
        0x5Au8 => OpParse::Done(JOp::Dupx1, 1),
        0x5Bu8 => OpParse::Done(JOp::Dupx2, 1),
        0x5Cu8 => OpParse::Done(JOp::Dup2, 1),
        0x5Du8 => OpParse::Done(JOp::Dup2x1, 1),
        0x5Fu8 => OpParse::Done(JOp::Swap, 1),
        0x60u8 => OpParse::Done(JOp::IAdd, 1),
        0x61u8 => OpParse::Done(JOp::LAdd, 1),
        0x62u8 => OpParse::Done(JOp::FAdd, 1),
        0x63u8 => OpParse::Done(JOp::DAdd, 1),
        0x64u8 => OpParse::Done(JOp::ISub, 1),
        0x65u8 => OpParse::Done(JOp::LSub, 1),
        0x66u8 => OpParse::Done(JOp::FSub, 1),
        0x67u8 => OpParse::Done(JOp::DSub, 1),
        0x68u8 => OpParse::Done(JOp::IMul, 1),
        0x69u8 => OpParse::Done(JOp::LMul, 1),
        0x6Au8 => OpParse::Done(JOp::FMul, 1),
        0x6Bu8 => OpParse::Done(JOp::DMul, 1),
        0x6Cu8 => OpParse::Done(JOp::IDiv, 1),
        0x6Du8 => OpParse::Done(JOp::LDiv, 1),
        0x6Eu8 => OpParse::Done(JOp::FDiv, 1),
        0x6Fu8 => OpParse::Done(JOp::DDiv, 1),
        0x70u8 => OpParse::Done(JOp::IRem, 1),
        0x71u8 => OpParse::Done(JOp::LRem, 1),
        0x72u8 => OpParse::Done(JOp::FRem, 1),
        0x73u8 => OpParse::Done(JOp::DRem, 1),
        0x74u8 => OpParse::Done(JOp::INeg, 1),
        0x75u8 => OpParse::Done(JOp::LNeg, 1),
        0x76u8 => OpParse::Done(JOp::FNeg, 1),
        0x77u8 => OpParse::Done(JOp::DNeg, 1),
        0x78u8 => OpParse::Done(JOp::ISHL, 1),
        0x79u8 => OpParse::Done(JOp::LSHL, 1),
        0x7Au8 => OpParse::Done(JOp::ISHR, 1),
        0x7Bu8 => OpParse::Done(JOp::LSHR, 1),
        0x7Cu8 => OpParse::Done(JOp::IUSHR, 1),
        0x7Du8 => OpParse::Done(JOp::LUSHR, 1),
        0x7Eu8 => OpParse::Done(JOp::IAnd, 1),
        0x7Fu8 => OpParse::Done(JOp::LAnd, 1),
        _ => OpParse::Unknown,
    }
}

#[verifier::rlimit(60)]
fn parse_plain_2(buffer: &[u8], at: usize) -> (r: OpParse)
    requires
        at < buffer.len(),
        0x80 <= buffer[at as int] < 0xC0 && buffer[at as int] != 0xAA && buffer[at as int] != 0xAB,
    ensures
        step_matches(r, spec_parse_plain_2(buffer@.skip(at as int))),
        r matches OpParse::Done(_, cnt) ==> 1 <= cnt <= buffer.len() - at,
{
    proof {
        lemma_skip_index(buffer@, at as int);
    }
    match buffer[at] {
        0x80u8 => OpParse::Done(JOp::IOr, 1),
        0x81u8 => OpParse::Done(JOp::LOr, 1),
        0x82u8 => OpParse::Done(JOp::IXor, 1),
        0x83u8 => OpParse::Done(JOp::LXor, 1),
        0x84u8 => if buffer.len() - at >= 3 { OpParse::Done(JOp::IInc(buffer[at + 1], buffer[at + 2]), 3) } else { OpParse::Incomplete },
        0x85u8 => OpParse::Done(JOp::I2L, 1),
        0x86u8 => OpParse::Done(JOp::I2F, 1),
        0x87u8 => OpParse::Done(JOp::I2D, 1),
        0x88u8 => OpParse::Done(JOp::L2I, 1),
        0x89u8 => OpParse::Done(JOp::L2F, 1),
        0x8Au8 => OpParse::Done(JOp::L2D, 1),
        0x8Bu8 => OpParse::Done(JOp::F2I, 1),
        0x8Cu8 => OpParse::Done(JOp::F2L, 1),
        0x8Du8 => OpParse::Done(JOp::F2D, 1),
        0x8Eu8 => OpParse::Done(JOp::D2I, 1),
        0x8Fu8 => OpParse::Done(JOp::D2L, 1),
        0x90u8 => OpParse::Done(JOp::D2F, 1),
        0x91u8 => OpParse::Done(JOp::I2B, 1),
        0x92u8 => OpParse::Done(JOp::I2C, 1),
        0x93u8 => OpParse::Done(JOp::I2S, 1),
        0x94u8 => OpParse::Done(JOp::Lcmp, 1),
        0x95u8 => OpParse::Done(JOp::FcmpL, 1),
        0x96u8 => OpParse::Done(JOp::FcmpG, 1),
        0x97u8 => OpParse::Done(JOp::DcmpL, 1),
        0x98u8 => OpParse::Done(JOp::DcmpG, 1),
        0x99u8 => if buffer.len() - at >= 3 { OpParse::Done(JOp::IFEQ(le_u16(buffer, at + 1)), 3) } else { OpParse::Incomplete },
        0x9Au8 => if buffer.len() - at >= 3 { OpParse::Done(JOp::IFNE(le_u16(buffer, at + 1)), 3) } else { OpParse::Incomplete },
        0x9Bu8 => if buffer.len() - at >= 3 { OpParse::Done(JOp::IFLE(le_u16(buffer, at + 1)), 3) } else { OpParse::Incomplete },
        0x9Cu8 => if buffer.len() - at >= 3 { OpParse::Done(JOp::IFGE(le_u16(buffer, at + 1)), 3) } else { OpParse::Incomplete },
        0x9Du8 => if buffer.len() - at >= 3 { OpParse::Done(JOp::IFGT(le_u16(buffer, at + 1)), 3) } else { OpParse::Incomplete },
        0x9Fu8 => if buffer.len() - at >= 3 { OpParse::Done(JOp::IFIcmpEQ(le_u16(buffer, at + 1)), 3) } else { OpParse::Incomplete },
        0xA0u8 => if buffer.len() - at >= 3 { OpParse::Done(JOp::IFIcmpNE(le_u16(buffer, at + 1)), 3) } else { OpParse::Incomplete },
        0xA1u8 => if buffer.len() - at >= 3 { OpParse::Done(JOp::IFIcmpLT(le_u16(buffer, at + 1)), 3) } else { OpParse::Incomplete },
        0xA2u8 => if buffer.len() - at >= 3 { OpParse::Done(JOp::IfIcmpGE(le_u16(buffer, at + 1)), 3) } else { OpParse::Incomplete },
        0xA3u8 => if buffer.len() - at >= 3 { OpParse::Done(JOp::IFIcmpGT(le_u16(buffer, at + 1)), 3) } else { OpParse::Incomplete },
        0xA4u8 => if buffer.len() - at >= 3 { OpParse::Done(JOp::IFIcmpLE(le_u16(buffer, at + 1)), 3) } else { OpParse::Incomplete },
        0xA5u8 => if buffer.len() - at >= 3 { OpParse::Done(JOp::IFAcmpEQ(le_u16(buffer, at + 1)), 3) } else { OpParse::Incomplete },
        0xA6u8 => if buffer.len() - at >= 3 { OpParse::Done(JOp::IFAcmpNE(le_u16(buffer, at + 1)), 3) } else { OpParse::Incomplete },
        0xA7u8 => if buffer.len() - at >= 3 { OpParse::Done(JOp::Goto(le_u16(buffer, at + 1)), 3) } else { OpParse::Incomplete },
        0xA8u8 => if buffer.len() - at >= 3 { OpParse::Done(JOp::JSR(le_u16(buffer, at + 1)), 3) } else { OpParse::Incomplete },
        0xA9u8 => if buffer.len() - at >= 2 { OpParse::Done(JOp::Ret(buffer[at + 1]), 2) } else { OpParse::Incomplete },
        0xACu8 => OpParse::Done(JOp::IReturn, 1),
        0xADu8 => OpParse::Done(JOp::LReturn, 1),
        0xAEu8 => OpParse::Done(JOp::FReturn, 1),
        0xAFu8 => if buffer.len() - at >= 2 { OpParse::Done(JOp::DStore(buffer[at + 1]), 2) } else { OpParse::Incomplete },
        0xB0u8 => OpParse::Done(JOp::AReturn, 1),
        0xB1u8 => OpParse::Done(JOp::Return, 1),
        0xB2u8 => if buffer.len() - at >= 3 { OpParse::Done(JOp::GetStatic(le_u16(buffer, at + 1)), 3) } else { OpParse::Incomplete },
        0xB3u8 => if buffer.len() - at >= 3 { OpParse::Done(JOp::PutStatic(le_u16(buffer, at + 1)), 3) } else { OpParse::Incomplete },
        0xB4u8 => if buffer.len() - at >= 3 { OpParse::Done(JOp::GetField(le_u16(buffer, at + 1)), 3) } else { OpParse::Incomplete },
        0xB5u8 => if buffer.len() - at >= 3 { OpParse::Done(JOp::PutField(le_u16(buffer, at + 1)), 3) } else { OpParse::Incomplete },
        0xB6u8 => if buffer.len() - at >= 3 { OpParse::Done(JOp::InvokeVirtual(le_u16(buffer, at + 1)), 3) } else { OpParse::Incomplete },
        0xB7u8 => if buffer.len() - at >= 3 { OpParse::Done(JOp::InvokeSpecial(le_u16(buffer, at + 1)), 3) } else { OpParse::Incomplete },
        0xB8u8 => if buffer.len() - at >= 3 { OpParse::Done(JOp::InvokeStatic(le_u16(buffer, at + 1)), 3) } else { OpParse::Incomplete },
        0xB9u8 => if buffer.len() - at < 5 { OpParse::Incomplete } else if buffer[at + 4] == 0 { OpParse::Done(JOp::InvokedInterface(le_u16(buffer, at + 1), buffer[at + 3]), 5) } else { OpParse::Unknown },
        0xBAu8 => if buffer.len() - at < 5 { OpParse::Incomplete } else if buffer[at + 3] == 0 && buffer[at + 4] == 0 { OpParse::Done(JOp::InvokedDynamic(le_u16(buffer, at + 1)), 5) } else { OpParse::Unknown },
        0xBBu8 => if buffer.len() - at >= 3 { OpParse::Done(JOp::New(le_u16(buffer, at + 1)), 3) } else { OpParse::Incomplete },
        0xBCu8 => if buffer.len() - at >= 2 { OpParse::Done(JOp::NewArray(buffer[at + 1]), 2) } else { OpParse::Incomplete },
        0xBDu8 => if buffer.len() - at >= 3 { OpParse::Done(JOp::ANewArray(le_u16(buffer, at + 1)), 3) } else { OpParse::Incomplete },
        0xBEu8 => OpParse::Done(JOp::ArrayLength, 1),
        0xBFu8 => OpParse::Done(JOp::AThrow, 1),
        _ => OpParse::Unknown,
    }
}

#[verifier::rlimit(60)]
fn parse_plain_3(buffer: &[u8], at: usize) -> (r: OpParse)
    requires
        at < buffer.len(),
        0xC0 <= buffer[at as int] && buffer[at as int] != 0xC4,
    ensures
        step_matches(r, spec_parse_plain_3(buffer@.skip(at as int))),
        r matches OpParse::Done(_, cnt) ==> 1 <= cnt <= buffer.len() - at,
{
    proof {
        lemma_skip_index(buffer@, at as int);
    }
    match buffer[at] {
        0xC0u8 => if buffer.len() - at >= 3 { OpParse::Done(JOp::CheckCast(le_u16(buffer, at + 1)), 3) } else { OpParse::Incomplete },
        0xC1u8 => if buffer.len() - at >= 3 { OpParse::Done(JOp::InstanceOf(le_u16(buffer, at + 1)), 3) } else { OpParse::Incomplete },
        0xC2u8 => OpParse::Done(JOp::MonitorEnter, 1),
        0xC3u8 => OpParse::Done(JOp::MonitorExit, 1),
        0xC5u8 => if buffer.len() - at >= 4 { OpParse::Done(JOp::MultiAneWArray(le_u16(buffer, at + 1), buffer[at + 3]), 4) } else { OpParse::Incomplete },
        0xC6u8 => if buffer.len() - at >= 3 { OpParse::Done(JOp::IFNull(le_u16(buffer, at + 1)), 3) } else { OpParse::Incomplete },
        0xC7u8 => if buffer.len() - at >= 3 { OpParse::Done(JOp::IFnonNull(le_u16(buffer, at + 1)), 3) } else { OpParse::Incomplete },
        0xC8u8 => if buffer.len() - at >= 5 { OpParse::Done(JOp::GotoW(le_u32(buffer, at + 1)), 5) } else { OpParse::Incomplete },
        0xC9u8 => if buffer.len() - at >= 3 { OpParse::Done(JOp::JSRW(le_u16(buffer, at + 1)), 3) } else { OpParse::Incomplete },
        0xCAu8 => OpParse::Done(JOp::BreakPoint, 1),
        0xF3u8 => OpParse::Done(JOp::ImpDep1, 1),
        0xFFu8 => OpParse::Done(JOp::ImpDep2, 1),
        _ => OpParse::Unknown,
    }
}

#[verifier::rlimit(60)]
fn parse_wide(buffer: &[u8], at: usize) -> (r: OpParse)
    requires
        at < buffer.len(),
        buffer[at as int] == 0xC4,
    ensures
        step_matches(r, spec_parse_wide(buffer@.skip(at as int))),
        r matches OpParse::Done(_, cnt) ==> 1 <= cnt <= buffer.len() - at,
{
    proof {
        lemma_skip_index(buffer@, at as int);
    }
    if buffer.len() - at < 2 {
        return OpParse::Incomplete;
    }
    match buffer[at + 1] {
        0x15u8 => if buffer.len() - at >= 4 { OpParse::Done(JOp::ILoad(le_u16(buffer, at + 2)), 4) } else { OpParse::Incomplete },
        0x16u8 => if buffer.len() - at >= 4 { OpParse::Done(JOp::LLoadWide(le_u16(buffer, at + 2)), 4) } else { OpParse::Incomplete },
        0x17u8 => if buffer.len() - at >= 4 { OpParse::Done(JOp::FLoadWide(le_u16(buffer, at + 2)), 4) } else { OpParse::Incomplete },
        0x18u8 => if buffer.len() - at >= 4 { OpParse::Done(JOp::DLoadWide(le_u16(buffer, at + 2)), 4) } else { OpParse::Incomplete },
        0x19u8 => if buffer.len() - at >= 4 { OpParse::Done(JOp::ALoadWide(le_u16(buffer, at + 2)), 4) } else { OpParse::Incomplete },
        0x36u8 => if buffer.len() - at >= 4 { OpParse::Done(JOp::IStoreWide(le_u16(buffer, at + 2)), 4) } else { OpParse::Incomplete },
        0x37u8 => if buffer.len() - at >= 4 { OpParse::Done(JOp::LStoreWide(le_u16(buffer, at + 2)), 4) } else { OpParse::Incomplete },
        0x38u8 => if buffer.len() - at >= 4 { OpParse::Done(JOp::FStoreWide(le_u16(buffer, at + 2)), 4) } else { OpParse::Incomplete },
        0x3Au8 => if buffer.len() - at >= 4 { OpParse::Done(JOp::AStoreWide(le_u16(buffer, at + 2)), 4) } else { OpParse::Incomplete },
        0x84u8 => if buffer.len() - at >= 6 { OpParse::Done(JOp::IIncWide(le_u16(buffer, at + 2), le_i16(buffer, at + 4)), 6) } else { OpParse::Incomplete },
        0xA9u8 => if buffer.len() - at >= 4 { OpParse::Done(JOp::RetWide(le_u16(buffer, at + 2)), 4) } else { OpParse::Incomplete },
        0xAFu8 => if buffer.len() - at >= 4 { OpParse::Done(JOp::DStoreWide(le_u16(buffer, at + 2)), 4) } else { OpParse::Incomplete },
        _ => OpParse::Unknown,
    }
}

fn parse_tableswitch(buffer: &[u8], at: usize, c: usize) -> (r: OpParse)
    requires
        at < buffer.len(),
        buffer[at as int] == 0xAA,
        c + (buffer.len() - at) <= usize::MAX,
    ensures
        step_matches(r, spec_parse_tableswitch(buffer@.skip(at as int), c as int)),
        r matches OpParse::Done(_, cnt) ==> 1 <= cnt <= buffer.len() - at,
{
    let ghost s = buffer@.skip(at as int);
    proof {
        lemma_skip_index(buffer@, at as int);
    }
    let n = buffer.len();
    if n - at - 1 < 4 {
        return OpParse::Incomplete;
    }
    let pad: usize = (4 - ((c + 1) % 4)) % 4;
    if n - at - 1 < pad + 12 {
        return OpParse::Incomplete;
    }
    let base = at + 1 + pad;
    let default = le_i32(buffer, base);
    let low = le_i32(buffer, base + 4);
    let high = le_i32(buffer, base + 8);
    if high < low {
        return OpParse::Incomplete;
    }
    let n64: u64 = ((high as i64) - (low as i64) + 1) as u64;
    let avail: u64 = (n - (base + 12)) as u64;
    if avail < 4 * n64 {
        return OpParse::Incomplete;
    }
    let cnt = slen(high, low);
    let mut data: Vec<u32> = Vec::new();
    let mut k: usize = 0;
    while k < cnt
        invariant
            k <= cnt,
            base + 12 + 4 * cnt <= n == buffer.len(),
            data@.len() == k,
            forall|j: int|
                0 <= j < k ==> data@[j] == spec_le_u32(buffer@, base + 12 + 4 * j),
        decreases cnt - k,
    {
        data.push(le_u32(buffer, base + 12 + 4 * k));
        k = k + 1;
    }
    proof {
        assert(data@ =~= spec_table_offsets(s, at + 1 + pad - at + 12, cnt as int));
    }
    OpParse::Done(JOp::TableSwitch(default, low, high, data), 1 + pad + 12 + 4 * cnt)
}

fn parse_lookupswitch(buffer: &[u8], at: usize, c: usize) -> (r: OpParse)
    requires
        at < buffer.len(),
        buffer[at as int] == 0xAB,
        c + (buffer.len() - at) <= usize::MAX,
    ensures
        step_matches(r, spec_parse_lookupswitch(buffer@.skip(at as int), c as int)),
        r matches OpParse::Done(_, cnt) ==> 1 <= cnt <= buffer.len() - at,
{
    let ghost s = buffer@.skip(at as int);
    proof {
        lemma_skip_index(buffer@, at as int);
    }
    let n = buffer.len();
    if n - at - 1 < 4 {
        return OpParse::Incomplete;
    }
    let pad: usize = (4 - ((c + 1) % 4)) % 4;
    if n - at - 1 < pad + 8 {
        return OpParse::Incomplete;
    }
    let base = at + 1 + pad;
    let default = le_u32(buffer, base);
    let pair_count = le_u32(buffer, base + 4);
    let n64: u64 = pair_count as u64;
    let avail: u64 = (n - (base + 8)) as u64;
    if avail < 8 * n64 {
        return OpParse::Incomplete;
    }
    let cnt = pair_count as usize;
    let mut data: Vec<(i32, u32)> = Vec::new();
    let mut k: usize = 0;
    while k < cnt
        invariant
            k <= cnt,
            base + 8 + 8 * cnt <= n == buffer.len(),
            data@.len() == k,
            forall|j: int|
                0 <= j < k ==> data@[j] == (
                    spec_le_i32(buffer@, base + 8 + 8 * j),
                    spec_le_u32(buffer@, base + 8 + 8 * j + 4),
                ),
        decreases cnt - k,
    {
        let m = le_i32(buffer, base + 8 + 8 * k);
        let o = le_u32(buffer, base + 8 + 8 * k + 4);
        data.push((m, o));
        k = k + 1;
    }
    proof {
        assert(data@ =~= spec_match_pairs(s, at + 1 + pad - at + 8, cnt as int));
    }
    OpParse::Done(JOp::LookUpSwitch(default, data), 1 + pad + 8 + 8 * cnt)
}

/// Decode the single instruction starting at index `at` of `buffer`.
///
/// The cursor `pos` advances by exactly the bytes the instruction spans on
/// success and is untouched otherwise.  `Incomplete` means the buffer ends
/// before one whole instruction; `Unknown` means the leading byte(s) match
/// no opcode.
pub fn parse_java_op(buffer: &[u8], at: usize, pos: &mut usize) -> (r: OpParse)
    requires
        at <= buffer.len(),
        *old(pos) + (buffer.len() - at) <= usize::MAX,
    ensures
        step_matches(r, spec_parse(buffer@.skip(at as int), *old(pos) as int)),
        r matches OpParse::Done(_, cnt) ==> cnt <= buffer.len() - at && *final(pos) == *old(pos)
            + cnt,
        !(r is Done) ==> *final(pos) == *old(pos),
{
    proof {
        lemma_skip_index(buffer@, at as int);
    }
    if buffer.len() == at {
        return OpParse::Incomplete;
    }
    let b = buffer[at];
    let r = if b == 0xC4 {
        parse_wide(buffer, at)
    } else if b == 0xAA {
        parse_tableswitch(buffer, at, *pos)
    } else if b == 0xAB {
        parse_lookupswitch(buffer, at, *pos)
    } else if b < 0x40 {
        parse_plain_0(buffer, at)
    } else if b < 0x80 {
        parse_plain_1(buffer, at)
    } else if b < 0xC0 {
        parse_plain_2(buffer, at)
    } else {
        parse_plain_3(buffer, at)
    };
    match r {
        OpParse::Done(op, cnt) => {
            move_pos(pos, cnt);
            OpParse::Done(op, cnt)
        },
        other => other,
    }
}

/// The instruction sequences of whole buffers, starting from cursor `c`:
/// `None` for a hard decode failure, `Some` of the accumulated instructions
/// when the buffer ends (a trailing truncated instruction is the expected
/// end of stream, not a failure).
pub open spec fn spec_read_all(s: Seq<u8>, c: int) -> Option<Seq<OpModel>>
    recommends
        c >= 0,
    decreases s.len(),
{
    match spec_parse(s, c) {
        OpStep::Incomplete => Some(Seq::empty()),
        OpStep::Unknown => None,
        OpStep::Done(m, n) => if 1 <= n <= s.len() {
            match spec_read_all(s.skip(n), c + n) {
                Option::None => None,
                Option::Some(t) => Some(seq![m] + t),
            }
        } else {
            None
        },
    }
}

/// The views of a decoded instruction vector.
pub open spec fn ops_view(v: Seq<JOp>) -> Seq<OpModel> {
    v.map_values(|op: JOp| op@)
}

/// One well-formed instruction followed by a tail too short to hold a whole
/// second instruction decodes to exactly that one instruction, ending the
/// session normally.
pub proof fn lemma_read_all_prefix(s: Seq<u8>, c: int, m: OpModel, n: int)
    requires
        0 <= c,
        spec_parse(s, c) == OpStep::Done(m, n),
        spec_parse(s.skip(n), c + n) is Incomplete,
    ensures
        spec_read_all(s, c) == Some(seq![m]),
{
    crate::opspec::lemma_parse_step_len(s, c);
    assert(spec_read_all(s.skip(n), c + n) == Some(Seq::<OpModel>::empty()));
    assert(seq![m] + Seq::<OpModel>::empty() =~= seq![m]);
}

/// A buffer whose leading byte matches no opcode yields no instructions at
/// all, never a partial sequence.
pub proof fn lemma_read_all_unknown(s: Seq<u8>, c: int)
    requires
        0 <= c,
        spec_parse(s, c) is Unknown,
    ensures
        spec_read_all(s, c) is None,
{
}

/// Decode every instruction in `buffer`, cursor initialized to zero.
///
/// Ends normally at the buffer's end or at a trailing truncated
/// instruction, returning the instructions accumulated so far; returns the
/// empty vector when some byte matches no opcode at all, so a hard failure
/// never hands back a partial sequence.
pub fn read_all_ops(buffer: &[u8]) -> (r: Vec<JOp>)
    ensures
        spec_read_all(buffer@, 0) matches Some(t) ==> ops_view(r@) == t,
        spec_read_all(buffer@, 0) is None ==> r@ == Seq::<JOp>::empty(),
{
    let mut pos: usize = 0;
    set_pos_init(&mut pos, 0);
    let mut ret: Vec<JOp> = Vec::new();
    let mut at: usize = 0;
    proof {
        assert(buffer@.skip(0) =~= buffer@);
        assert forall|t: Seq<OpModel>|
            spec_read_all(buffer@.skip(0), 0) == Some(t) implies spec_read_all(buffer@, 0) == Some(
            ops_view(ret@) + t,
        ) by {
            assert(ops_view(ret@) + t =~= t);
        }
    }
    loop
        invariant
            at <= buffer.len(),
            pos == at,
            forall|t: Seq<OpModel>|
                spec_read_all(buffer@.skip(at as int), at as int) == Some(t)
                    ==> spec_read_all(buffer@, 0) == Some(ops_view(ret@) + t),
            spec_read_all(buffer@.skip(at as int), at as int) is None ==> spec_read_all(
                buffer@,
                0,
            ) is None,
        decreases buffer.len() - at,
    {
        let ghost tail = buffer@.skip(at as int);
        match parse_java_op(buffer, at, &mut pos) {
            OpParse::Done(op, cnt) => {
                proof {
                    lemma_skip_index(buffer@, at as int);
                    assert(tail.skip(cnt as int) =~= buffer@.skip(at + cnt));
                    assert(ops_view(ret@.push(op)) =~= ops_view(ret@) + seq![op@]);
                    assert forall|t: Seq<OpModel>|
                        spec_read_all(buffer@.skip(at + cnt), at + cnt) == Some(t) implies
                        spec_read_all(buffer@, 0) == Some(ops_view(ret@.push(op)) + t) by {
                        assert(spec_read_all(tail, at as int) == Some(seq![op@] + t));
                        assert(ops_view(ret@) + (seq![op@] + t) =~= (ops_view(ret@) + seq![op@])
                            + t);
                    }
                }
                ret.push(op);
                at = at + cnt;
            },
            OpParse::Incomplete => {
                proof {
                    assert(spec_read_all(tail, at as int) == Some(Seq::<OpModel>::empty()));
                    assert(ops_view(ret@) + Seq::<OpModel>::empty() =~= ops_view(ret@));
                }
                return ret;
            },
            OpParse::Unknown => {
                proof {
                    assert(spec_read_all(tail, at as int) is None);
                }
                return Vec::new();
            },
        }
    }
}

} // verus!
