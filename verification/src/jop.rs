//! The JVM instruction set as a typed enumeration, with its mathematical
//! model.
//!
//! [`JOp`] is the executable value an instruction decodes to; one variant per
//! opcode, each holding the instruction's operands.  [`OpModel`] is the same
//! shape with mathematical sequences in place of vectors; it is what the
//! decoder's contracts speak about, through [`JOp`]'s view.

use vstd::prelude::*;

verus! {

/// One decoded JVM instruction.
///
/// Pool-index and branch operands stay unresolved integers; the caller looks
/// them up against whatever constant pool it has in hand.  Two quirks of the
/// opcode table show in the variants: `ILoad` holds the 16-bit index of the
/// wide-prefixed form while `ILoadWide` holds the plain 8-bit form, and
/// `Dup2x2` shares its tag byte with `Dup2`, which the decoder prefers, so
/// no byte string ever decodes to `Dup2x2`.
#[derive(Clone, Debug, PartialEq)]
pub enum JOp {
    AALoad,
    AAStore,
    AConstNull,
    ALoad(u8),
    ALoadWide(u16),
    ALoad0,
    ALoad1,
    ALoad2,
    ALoad3,
    ANewArray(u16),
    AReturn,
    ArrayLength,
    AStore(u8),
    AStoreWide(u16),
    AStore0,
    AStore1,
    AStore2,
    AStore3,
    AThrow,
    BaLoad,
    BaStore,
    BiPush(u8),
    BreakPoint,
    CaLoad,
    CaStore,
    CheckCast(u16),
    D2F,
    D2I,
    D2L,
    DAdd,
    DALoad,
    DAStore,
    DcmpG,
    DcmpL,
    DConst0,
    DConst1,
    DDiv,
    DLoad(u8),
    DLoadWide(u16),
    DLoad0,
    DLoad1,
    DLoad2,
    DLoad3,
    DMul,
    DNeg,
    DRem,
    DStore(u8),
    DStoreWide(u16),
    DStore0,
    DStore1,
    DStore2,
    DStore3,
    DSub,
    Dup,
    Dupx1,
    Dupx2,
    Dup2,
    Dup2x1,
    Dup2x2,
    F2D,
    F2I,
    F2L,
    FAdd,
    FALoad,
    FAStore,
    FcmpG,
    FcmpL,
    FConst0,
    FConst1,
    FConst2,
    FDiv,
    FLoad(u8),
    FLoadWide(u16),
    FLoad0,
    FLoad1,
    FLoad2,
    FLoad3,
    FMul,
    FNeg,
    FRem,
    FReturn,
    FStore(u8),
    FStoreWide(u16),
    FStore0,
    FStore1,
    FStore2,
    FStore3,
    FSub,
    GetField(u16),
    GetStatic(u16),
    Goto(u16),
    GotoW(u32),
    I2B,
    I2C,
    I2D,
    I2F,
    I2L,
    I2S,
    IAdd,
    IALoad,
    IAnd,
    IAStore,
    IConstM1,
    IConst0,
    IConst1,
    IConst2,
    IConst3,
    IConst4,
    IConst5,
    IDiv,
    IFAcmpEQ(u16),
    IFAcmpNE(u16),
    IFIcmpEQ(u16),
    IfIcmpGE(u16),
    IFIcmpGT(u16),
    IFIcmpLE(u16),
    IFIcmpLT(u16),
    IFIcmpNE(u16),
    IFEQ(u16),
    IFGE(u16),
    IFGT(u16),
    IFLE(u16),
    IFNE(u16),
    IFnonNull(u16),
    IFNull(u16),
    IInc(u8, u8),
    IIncWide(u16,i16),
    ILoad(u16),
    ILoadWide(u8),
    ILoad0,
    ILoad1,
    ILoad2,
    ILoad3,
    ImpDep1,
    ImpDep2,
    IMul,
    INeg,
    InstanceOf(u16),
    InvokedDynamic(u16),
    InvokedInterface(u16, u8),
    InvokeSpecial(u16),
    InvokeStatic(u16),
    InvokeVirtual(u16),
    IOr,
    IRem,
    IReturn,
    ISHL,
    ISHR,
    IStore(u8),
    IStoreWide(u16),
    IStore0,
    IStore1,
    IStore2,
    IStore3,
    ISub,
    IUSHR,
    IXor,
    JSR(u16),
    JSRW(u16),
    L2D,
    L2F,
    L2I,
    LAdd,
    LALoad,
    LAnd,
    LAStore,
    Lcmp,
    LConst0,
    LConst1,
    LDC(u8),
    LDCW(u16),
    LDC2W(u16),
    LDiv,
    LLoad(u8),
    LLoadWide(u16),
    LLoad0,
    LLoad1,
    LLoad2,
    LLoad3,
    LMul,
    LNeg,
    LookUpSwitch(u32, Vec<(i32,u32)>),
    LOr,
    LRem,
    LReturn,
    LSHL,
    LSHR,
    LStore(u8),
    LStoreWide(u16),
    LStore0,
    LStore1,
    LStore2,
    LStore3,
    LSub,
    LUSHR,
    LXor,
    MonitorEnter,
    MonitorExit,
    MultiAneWArray(u16, u8),
    New(u16),
    NewArray(u8),
    Nop,
    Pop,
    Pop2,
    PutField(u16),
    PutStatic(u16),
    Ret(u8),
    RetWide(u16),
    Return,
    SALoad,
    SAStore,
    SIPush(u16),
    Swap,
    TableSwitch(i32, i32, i32, Vec<u32>),
}

/// The mathematical form of one decoded instruction: [`JOp`] with `Seq` in
/// place of `Vec`.  Decoder contracts are stated over this type.
#[verifier::ext_equal]
pub enum OpModel {
    AALoad,
    AAStore,
    AConstNull,
    ALoad(u8),
    ALoadWide(u16),
    ALoad0,
    ALoad1,
    ALoad2,
    ALoad3,
    ANewArray(u16),
    AReturn,
    ArrayLength,
    AStore(u8),
    AStoreWide(u16),
    AStore0,
    AStore1,
    AStore2,
    AStore3,
    AThrow,
    BaLoad,
    BaStore,
    BiPush(u8),
    BreakPoint,
    CaLoad,
    CaStore,
    CheckCast(u16),
    D2F,
    D2I,
    D2L,
    DAdd,
    DALoad,
    DAStore,
    DcmpG,
    DcmpL,
    DConst0,
    DConst1,
    DDiv,
    DLoad(u8),
    DLoadWide(u16),
    DLoad0,
    DLoad1,
    DLoad2,
    DLoad3,
    DMul,
    DNeg,
    DRem,
    DStore(u8),
    DStoreWide(u16),
    DStore0,
    DStore1,
    DStore2,
    DStore3,
    DSub,
    Dup,
    Dupx1,
    Dupx2,
    Dup2,
    Dup2x1,
    Dup2x2,
    F2D,
    F2I,
    F2L,
    FAdd,
    FALoad,
    FAStore,
    FcmpG,
    FcmpL,
    FConst0,
    FConst1,
    FConst2,
    FDiv,
    FLoad(u8),
    FLoadWide(u16),
    FLoad0,
    FLoad1,
    FLoad2,
    FLoad3,
    FMul,
    FNeg,
    FRem,
    FReturn,
    FStore(u8),
    FStoreWide(u16),
    FStore0,
    FStore1,
    FStore2,
    FStore3,
    FSub,
    GetField(u16),
    GetStatic(u16),
    Goto(u16),
    GotoW(u32),
    I2B,
    I2C,
    I2D,
    I2F,
    I2L,
    I2S,
    IAdd,
    IALoad,
    IAnd,
    IAStore,
    IConstM1,
    IConst0,
    IConst1,
    IConst2,
    IConst3,
    IConst4,
    IConst5,
    IDiv,
    IFAcmpEQ(u16),
    IFAcmpNE(u16),
    IFIcmpEQ(u16),
    IfIcmpGE(u16),
    IFIcmpGT(u16),
    IFIcmpLE(u16),
    IFIcmpLT(u16),
    IFIcmpNE(u16),
    IFEQ(u16),
    IFGE(u16),
    IFGT(u16),
    IFLE(u16),
    IFNE(u16),
    IFnonNull(u16),
    IFNull(u16),
    IInc(u8, u8),
    IIncWide(u16,i16),
    ILoad(u16),
    ILoadWide(u8),
    ILoad0,
    ILoad1,
    ILoad2,
    ILoad3,
    ImpDep1,
    ImpDep2,
    IMul,
    INeg,
    InstanceOf(u16),
    InvokedDynamic(u16),
    InvokedInterface(u16, u8),
    InvokeSpecial(u16),
    InvokeStatic(u16),
    InvokeVirtual(u16),
    IOr,
    IRem,
    IReturn,
    ISHL,
    ISHR,
    IStore(u8),
    IStoreWide(u16),
    IStore0,
    IStore1,
    IStore2,
    IStore3,
    ISub,
    IUSHR,
    IXor,
    JSR(u16),
    JSRW(u16),
    L2D,
    L2F,
    L2I,
    LAdd,
    LALoad,
    LAnd,
    LAStore,
    Lcmp,
    LConst0,
    LConst1,
    LDC(u8),
    LDCW(u16),
    LDC2W(u16),
    LDiv,
    LLoad(u8),
    LLoadWide(u16),
    LLoad0,
    LLoad1,
    LLoad2,
    LLoad3,
    LMul,
    LNeg,
    LookUpSwitch(u32, Seq<(i32,u32)>),
    LOr,
    LRem,
    LReturn,
    LSHL,
    LSHR,
    LStore(u8),
    LStoreWide(u16),
    LStore0,
    LStore1,
    LStore2,
    LStore3,
    LSub,
    LUSHR,
    LXor,
    MonitorEnter,
    MonitorExit,
    MultiAneWArray(u16, u8),
    New(u16),
    NewArray(u8),
    Nop,
    Pop,
    Pop2,
    PutField(u16),
    PutStatic(u16),
    Ret(u8),
    RetWide(u16),
    Return,
    SALoad,
    SAStore,
    SIPush(u16),
    Swap,
    TableSwitch(i32, i32, i32, Seq<u32>),
}

impl View for JOp {
    type V = OpModel;

    open spec fn view(&self) -> OpModel {
        match self {
            JOp::AALoad => OpModel::AALoad,
            JOp::AAStore => OpModel::AAStore,
            JOp::AConstNull => OpModel::AConstNull,
            JOp::ALoad(a) => OpModel::ALoad(*a),
            JOp::ALoadWide(a) => OpModel::ALoadWide(*a),
            JOp::ALoad0 => OpModel::ALoad0,
            JOp::ALoad1 => OpModel::ALoad1,
            JOp::ALoad2 => OpModel::ALoad2,
            JOp::ALoad3 => OpModel::ALoad3,
            JOp::ANewArray(a) => OpModel::ANewArray(*a),
            JOp::AReturn => OpModel::AReturn,
            JOp::ArrayLength => OpModel::ArrayLength,
            JOp::AStore(a) => OpModel::AStore(*a),
            JOp::AStoreWide(a) => OpModel::AStoreWide(*a),
            JOp::AStore0 => OpModel::AStore0,
            JOp::AStore1 => OpModel::AStore1,
            JOp::AStore2 => OpModel::AStore2,
            JOp::AStore3 => OpModel::AStore3,
            JOp::AThrow => OpModel::AThrow,
            JOp::BaLoad => OpModel::BaLoad,
            JOp::BaStore => OpModel::BaStore,
            JOp::BiPush(a) => OpModel::BiPush(*a),
            JOp::BreakPoint => OpModel::BreakPoint,
            JOp::CaLoad => OpModel::CaLoad,
            JOp::CaStore => OpModel::CaStore,
            JOp::CheckCast(a) => OpModel::CheckCast(*a),
            JOp::D2F => OpModel::D2F,
            JOp::D2I => OpModel::D2I,
            JOp::D2L => OpModel::D2L,
            JOp::DAdd => OpModel::DAdd,
            JOp::DALoad => OpModel::DALoad,
            JOp::DAStore => OpModel::DAStore,
            JOp::DcmpG => OpModel::DcmpG,
            JOp::DcmpL => OpModel::DcmpL,
            JOp::DConst0 => OpModel::DConst0,
            JOp::DConst1 => OpModel::DConst1,
            JOp::DDiv => OpModel::DDiv,
            JOp::DLoad(a) => OpModel::DLoad(*a),
            JOp::DLoadWide(a) => OpModel::DLoadWide(*a),
            JOp::DLoad0 => OpModel::DLoad0,
            JOp::DLoad1 => OpModel::DLoad1,
            JOp::DLoad2 => OpModel::DLoad2,
            JOp::DLoad3 => OpModel::DLoad3,
            JOp::DMul => OpModel::DMul,
            JOp::DNeg => OpModel::DNeg,
            JOp::DRem => OpModel::DRem,
            JOp::DStore(a) => OpModel::DStore(*a),
            JOp::DStoreWide(a) => OpModel::DStoreWide(*a),
            JOp::DStore0 => OpModel::DStore0,
            JOp::DStore1 => OpModel::DStore1,
            JOp::DStore2 => OpModel::DStore2,
            JOp::DStore3 => OpModel::DStore3,
            JOp::DSub => OpModel::DSub,
            JOp::Dup => OpModel::Dup,
            JOp::Dupx1 => OpModel::Dupx1,
            JOp::Dupx2 => OpModel::Dupx2,
            JOp::Dup2 => OpModel::Dup2,
            JOp::Dup2x1 => OpModel::Dup2x1,
            JOp::Dup2x2 => OpModel::Dup2x2,
            JOp::F2D => OpModel::F2D,
            JOp::F2I => OpModel::F2I,
            JOp::F2L => OpModel::F2L,
            JOp::FAdd => OpModel::FAdd,
            JOp::FALoad => OpModel::FALoad,
            JOp::FAStore => OpModel::FAStore,
            JOp::FcmpG => OpModel::FcmpG,
            JOp::FcmpL => OpModel::FcmpL,
            JOp::FConst0 => OpModel::FConst0,
            JOp::FConst1 => OpModel::FConst1,
            JOp::FConst2 => OpModel::FConst2,
            JOp::FDiv => OpModel::FDiv,
            JOp::FLoad(a) => OpModel::FLoad(*a),
            JOp::FLoadWide(a) => OpModel::FLoadWide(*a),
            JOp::FLoad0 => OpModel::FLoad0,
            JOp::FLoad1 => OpModel::FLoad1,
            JOp::FLoad2 => OpModel::FLoad2,
            JOp::FLoad3 => OpModel::FLoad3,
            JOp::FMul => OpModel::FMul,
            JOp::FNeg => OpModel::FNeg,
            JOp::FRem => OpModel::FRem,
            JOp::FReturn => OpModel::FReturn,
            JOp::FStore(a) => OpModel::FStore(*a),
            JOp::FStoreWide(a) => OpModel::FStoreWide(*a),
            JOp::FStore0 => OpModel::FStore0,
            JOp::FStore1 => OpModel::FStore1,
            JOp::FStore2 => OpModel::FStore2,
            JOp::FStore3 => OpModel::FStore3,
            JOp::FSub => OpModel::FSub,
            JOp::GetField(a) => OpModel::GetField(*a),
            JOp::GetStatic(a) => OpModel::GetStatic(*a),
            JOp::Goto(a) => OpModel::Goto(*a),
            JOp::GotoW(a) => OpModel::GotoW(*a),
            JOp::I2B => OpModel::I2B,
            JOp::I2C => OpModel::I2C,
            JOp::I2D => OpModel::I2D,
            JOp::I2F => OpModel::I2F,
            JOp::I2L => OpModel::I2L,
            JOp::I2S => OpModel::I2S,
            JOp::IAdd => OpModel::IAdd,
            JOp::IALoad => OpModel::IALoad,
            JOp::IAnd => OpModel::IAnd,
            JOp::IAStore => OpModel::IAStore,
            JOp::IConstM1 => OpModel::IConstM1,
            JOp::IConst0 => OpModel::IConst0,
            JOp::IConst1 => OpModel::IConst1,
            JOp::IConst2 => OpModel::IConst2,
            JOp::IConst3 => OpModel::IConst3,
            JOp::IConst4 => OpModel::IConst4,
            JOp::IConst5 => OpModel::IConst5,
            JOp::IDiv => OpModel::IDiv,
            JOp::IFAcmpEQ(a) => OpModel::IFAcmpEQ(*a),
            JOp::IFAcmpNE(a) => OpModel::IFAcmpNE(*a),
            JOp::IFIcmpEQ(a) => OpModel::IFIcmpEQ(*a),
            JOp::IfIcmpGE(a) => OpModel::IfIcmpGE(*a),
            JOp::IFIcmpGT(a) => OpModel::IFIcmpGT(*a),
            JOp::IFIcmpLE(a) => OpModel::IFIcmpLE(*a),
            JOp::IFIcmpLT(a) => OpModel::IFIcmpLT(*a),
            JOp::IFIcmpNE(a) => OpModel::IFIcmpNE(*a),
            JOp::IFEQ(a) => OpModel::IFEQ(*a),
            JOp::IFGE(a) => OpModel::IFGE(*a),
            JOp::IFGT(a) => OpModel::IFGT(*a),
            JOp::IFLE(a) => OpModel::IFLE(*a),
            JOp::IFNE(a) => OpModel::IFNE(*a),
            JOp::IFnonNull(a) => OpModel::IFnonNull(*a),
            JOp::IFNull(a) => OpModel::IFNull(*a),
            JOp::IInc(a, b) => OpModel::IInc(*a, *b),
            JOp::IIncWide(a, b) => OpModel::IIncWide(*a, *b),
            JOp::ILoad(a) => OpModel::ILoad(*a),
            JOp::ILoadWide(a) => OpModel::ILoadWide(*a),
            JOp::ILoad0 => OpModel::ILoad0,
            JOp::ILoad1 => OpModel::ILoad1,
            JOp::ILoad2 => OpModel::ILoad2,
            JOp::ILoad3 => OpModel::ILoad3,
            JOp::ImpDep1 => OpModel::ImpDep1,
            JOp::ImpDep2 => OpModel::ImpDep2,
            JOp::IMul => OpModel::IMul,
            JOp::INeg => OpModel::INeg,
            JOp::InstanceOf(a) => OpModel::InstanceOf(*a),
            JOp::InvokedDynamic(a) => OpModel::InvokedDynamic(*a),
            JOp::InvokedInterface(a, b) => OpModel::InvokedInterface(*a, *b),
            JOp::InvokeSpecial(a) => OpModel::InvokeSpecial(*a),
            JOp::InvokeStatic(a) => OpModel::InvokeStatic(*a),
            JOp::InvokeVirtual(a) => OpModel::InvokeVirtual(*a),
            JOp::IOr => OpModel::IOr,
            JOp::IRem => OpModel::IRem,
            JOp::IReturn => OpModel::IReturn,
            JOp::ISHL => OpModel::ISHL,
            JOp::ISHR => OpModel::ISHR,
            JOp::IStore(a) => OpModel::IStore(*a),
            JOp::IStoreWide(a) => OpModel::IStoreWide(*a),
            JOp::IStore0 => OpModel::IStore0,
            JOp::IStore1 => OpModel::IStore1,
            JOp::IStore2 => OpModel::IStore2,
            JOp::IStore3 => OpModel::IStore3,
            JOp::ISub => OpModel::ISub,
            JOp::IUSHR => OpModel::IUSHR,
            JOp::IXor => OpModel::IXor,
            JOp::JSR(a) => OpModel::JSR(*a),
            JOp::JSRW(a) => OpModel::JSRW(*a),
            JOp::L2D => OpModel::L2D,
            JOp::L2F => OpModel::L2F,
            JOp::L2I => OpModel::L2I,
            JOp::LAdd => OpModel::LAdd,
            JOp::LALoad => OpModel::LALoad,
            JOp::LAnd => OpModel::LAnd,
            JOp::LAStore => OpModel::LAStore,
            JOp::Lcmp => OpModel::Lcmp,
            JOp::LConst0 => OpModel::LConst0,
            JOp::LConst1 => OpModel::LConst1,
            JOp::LDC(a) => OpModel::LDC(*a),
            JOp::LDCW(a) => OpModel::LDCW(*a),
            JOp::LDC2W(a) => OpModel::LDC2W(*a),
            JOp::LDiv => OpModel::LDiv,
            JOp::LLoad(a) => OpModel::LLoad(*a),
            JOp::LLoadWide(a) => OpModel::LLoadWide(*a),
            JOp::LLoad0 => OpModel::LLoad0,
            JOp::LLoad1 => OpModel::LLoad1,
            JOp::LLoad2 => OpModel::LLoad2,
            JOp::LLoad3 => OpModel::LLoad3,
            JOp::LMul => OpModel::LMul,
            JOp::LNeg => OpModel::LNeg,
            JOp::LookUpSwitch(a, b) => OpModel::LookUpSwitch(*a, b@),
            JOp::LOr => OpModel::LOr,
            JOp::LRem => OpModel::LRem,
            JOp::LReturn => OpModel::LReturn,
            JOp::LSHL => OpModel::LSHL,
            JOp::LSHR => OpModel::LSHR,
            JOp::LStore(a) => OpModel::LStore(*a),
            JOp::LStoreWide(a) => OpModel::LStoreWide(*a),
            JOp::LStore0 => OpModel::LStore0,
            JOp::LStore1 => OpModel::LStore1,
            JOp::LStore2 => OpModel::LStore2,
            JOp::LStore3 => OpModel::LStore3,
            JOp::LSub => OpModel::LSub,
            JOp::LUSHR => OpModel::LUSHR,
            JOp::LXor => OpModel::LXor,
            JOp::MonitorEnter => OpModel::MonitorEnter,
            JOp::MonitorExit => OpModel::MonitorExit,
            JOp::MultiAneWArray(a, b) => OpModel::MultiAneWArray(*a, *b),
            JOp::New(a) => OpModel::New(*a),
            JOp::NewArray(a) => OpModel::NewArray(*a),
            JOp::Nop => OpModel::Nop,
            JOp::Pop => OpModel::Pop,
            JOp::Pop2 => OpModel::Pop2,
            JOp::PutField(a) => OpModel::PutField(*a),
            JOp::PutStatic(a) => OpModel::PutStatic(*a),
            JOp::Ret(a) => OpModel::Ret(*a),
            JOp::RetWide(a) => OpModel::RetWide(*a),
            JOp::Return => OpModel::Return,
            JOp::SALoad => OpModel::SALoad,
            JOp::SAStore => OpModel::SAStore,
            JOp::SIPush(a) => OpModel::SIPush(*a),
            JOp::Swap => OpModel::Swap,
            JOp::TableSwitch(a, b, c, d) => OpModel::TableSwitch(*a, *b, *c, d@),
        }
    }
}

} // verus!
