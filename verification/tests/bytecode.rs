use jclass::cursor::{align_code, get_pos, move_pos, set_pos_init};
use jclass::fault::Fault;
use jclass::jop::JOp;
use jclass::ops::{parse_java_op, read_all_ops, slen, OpParse};

#[test]
fn nop_decodes_to_one_instruction() {
    let ops = read_all_ops(&[0x00]);
    assert_eq!(ops, vec![JOp::Nop]);
}

#[test]
fn nop_advances_cursor_by_one() {
    let mut pos: usize = 0;
    let r = parse_java_op(&[0x00, 0x00], 0, &mut pos);
    assert_eq!(r, OpParse::Done(JOp::Nop, 1));
    assert_eq!(pos, 1);
}

#[test]
fn u8_operand_decodes() {
    let mut pos: usize = 0;
    let r = parse_java_op(&[0x19, 0x05], 0, &mut pos);
    assert_eq!(r, OpParse::Done(JOp::ALoad(5), 2));
    assert_eq!(pos, 2);
}

#[test]
fn u16_operand_is_little_endian() {
    let mut pos: usize = 0;
    let r = parse_java_op(&[0x11, 0x34, 0x12], 0, &mut pos);
    assert_eq!(r, OpParse::Done(JOp::SIPush(0x1234), 3));
}

#[test]
fn u32_operand_decodes() {
    let mut pos: usize = 0;
    let r = parse_java_op(&[0xC8, 0x78, 0x56, 0x34, 0x12], 0, &mut pos);
    assert_eq!(r, OpParse::Done(JOp::GotoW(0x12345678), 5));
}

#[test]
fn wide_prefix_decodes_sixteen_bit_index() {
    let mut pos: usize = 0;
    let r = parse_java_op(&[0xC4, 0x19, 0x34, 0x12], 0, &mut pos);
    assert_eq!(r, OpParse::Done(JOp::ALoadWide(0x1234), 4));
    assert_eq!(pos, 4);
}

#[test]
fn wide_iinc_decodes_signed_increment() {
    let mut pos: usize = 0;
    let r = parse_java_op(&[0xC4, 0x84, 0x02, 0x00, 0xFE, 0xFF], 0, &mut pos);
    assert_eq!(r, OpParse::Done(JOp::IIncWide(2, -2), 6));
}

#[test]
fn iinc_decodes_two_bytes() {
    let mut pos: usize = 0;
    let r = parse_java_op(&[0x84, 0x03, 0x07], 0, &mut pos);
    assert_eq!(r, OpParse::Done(JOp::IInc(3, 7), 3));
}

#[test]
fn invokedynamic_requires_zero_pair() {
    let mut pos: usize = 0;
    let r = parse_java_op(&[0xBA, 0x02, 0x00, 0x00, 0x00], 0, &mut pos);
    assert_eq!(r, OpParse::Done(JOp::InvokedDynamic(2), 5));
    let mut pos2: usize = 0;
    let r2 = parse_java_op(&[0xBA, 0x02, 0x00, 0x01, 0x00], 0, &mut pos2);
    assert_eq!(r2, OpParse::Unknown);
}

#[test]
fn invokeinterface_decodes_count_and_zero() {
    let mut pos: usize = 0;
    let r = parse_java_op(&[0xB9, 0x02, 0x00, 0x01, 0x00], 0, &mut pos);
    assert_eq!(r, OpParse::Done(JOp::InvokedInterface(2, 1), 5));
}

#[test]
fn multianewarray_decodes_index_and_dims() {
    let mut pos: usize = 0;
    let r = parse_java_op(&[0xC5, 0x02, 0x00, 0x03], 0, &mut pos);
    assert_eq!(r, OpParse::Done(JOp::MultiAneWArray(2, 3), 4));
}

fn tableswitch_bytes(pad: usize) -> Vec<u8> {
    // default 9, low 1, high 2, offsets 7 and 8, all little-endian.
    let mut v = vec![0xAAu8];
    for _ in 0..pad {
        v.push(0);
    }
    for w in [9u32, 1, 2, 7, 8] {
        v.push((w & 0xFF) as u8);
        v.push(((w >> 8) & 0xFF) as u8);
        v.push(((w >> 16) & 0xFF) as u8);
        v.push(((w >> 24) & 0xFF) as u8);
    }
    v
}

#[test]
fn tableswitch_padding_follows_cursor() {
    // Cursor offsets 0..3 demand padding 3, 2, 1, 0; the instruction spans
    // 1 (tag) + padding + 12 + 4 * (high - low + 1) bytes.
    for (c, pad) in [(0usize, 3usize), (1, 2), (2, 1), (3, 0)] {
        let buf = tableswitch_bytes(pad);
        let mut pos: usize = c;
        let r = parse_java_op(&buf, 0, &mut pos);
        let expect = 1 + pad + 12 + 4 * 2;
        assert_eq!(
            r,
            OpParse::Done(JOp::TableSwitch(9, 1, 2, vec![7, 8]), expect),
            "cursor {}",
            c
        );
        assert_eq!(pos, c + expect);
    }
}

#[test]
fn tableswitch_with_inverted_bounds_is_incomplete() {
    // high < low cannot declare a jump table; the decoder treats the
    // instruction as unfinished input.
    let mut v = vec![0xAAu8, 0, 0, 0];
    for w in [9u32, 2, 1] {
        v.push((w & 0xFF) as u8);
        v.push(((w >> 8) & 0xFF) as u8);
        v.push(((w >> 16) & 0xFF) as u8);
        v.push(((w >> 24) & 0xFF) as u8);
    }
    let mut pos: usize = 3;
    let r = parse_java_op(&v, 0, &mut pos);
    assert_eq!(r, OpParse::Incomplete);
    assert_eq!(pos, 3);
}

#[test]
fn lookupswitch_decodes_pairs_in_file_order() {
    // Cursor 3 demands no padding: tag, default 5, npairs 2, pairs
    // (20, 70) and (10, 60) kept in file order.
    let mut v = vec![0xABu8];
    for w in [5u32, 2, 20, 70, 10, 60] {
        v.push((w & 0xFF) as u8);
        v.push(((w >> 8) & 0xFF) as u8);
        v.push(((w >> 16) & 0xFF) as u8);
        v.push(((w >> 24) & 0xFF) as u8);
    }
    let mut pos: usize = 3;
    let r = parse_java_op(&v, 0, &mut pos);
    assert_eq!(
        r,
        OpParse::Done(JOp::LookUpSwitch(5, vec![(20, 70), (10, 60)]), 1 + 8 + 16)
    );
    assert_eq!(pos, 3 + 25);
}

#[test]
fn trailing_truncated_instruction_ends_stream_normally() {
    // One whole nop, then an ALoad missing its operand: the session ends
    // normally with the nop alone.
    let ops = read_all_ops(&[0x00, 0x19]);
    assert_eq!(ops, vec![JOp::Nop]);
}

#[test]
fn unknown_opcode_discards_whole_sequence() {
    // 0xF0 names no opcode: the whole decode is a hard failure, so even
    // the valid nop before it is not returned.
    assert_eq!(read_all_ops(&[0xF0]), Vec::<JOp>::new());
    assert_eq!(read_all_ops(&[0x00, 0xF0]), Vec::<JOp>::new());
}

#[test]
fn unknown_wide_opcode_discards_sequence() {
    assert_eq!(read_all_ops(&[0xC4, 0x00]), Vec::<JOp>::new());
}

#[test]
fn read_all_ops_walks_a_small_method_body() {
    // iconst_1, istore_1, iload_1, ireturn.
    let ops = read_all_ops(&[0x04, 0x3C, 0x1B, 0xAC]);
    assert_eq!(ops, vec![JOp::IConst1, JOp::IStore1, JOp::ILoad1, JOp::IReturn]);
}

#[test]
fn round_trip_niladic_shape() {
    assert_eq!(read_all_ops(&[0x57]), vec![JOp::Pop]);
}

#[test]
fn round_trip_each_plain_shape() {
    // One canonical byte layout per encoding shape decodes back to the
    // instruction it lays out.
    let mut pos: usize = 0;
    assert_eq!(
        parse_java_op(&[0x10, 0x2A], 0, &mut pos),
        OpParse::Done(JOp::BiPush(0x2A), 2)
    );
    let mut pos: usize = 0;
    assert_eq!(
        parse_java_op(&[0xA7, 0x10, 0x00], 0, &mut pos),
        OpParse::Done(JOp::Goto(0x0010), 3)
    );
    let mut pos: usize = 0;
    assert_eq!(
        parse_java_op(&[0xC0, 0x07, 0x00], 0, &mut pos),
        OpParse::Done(JOp::CheckCast(7), 3)
    );
    let mut pos: usize = 0;
    assert_eq!(
        parse_java_op(&[0xBC, 0x0A], 0, &mut pos),
        OpParse::Done(JOp::NewArray(10), 2)
    );
}

#[test]
fn slen_counts_jump_table_entries() {
    assert_eq!(slen(5, 3), 3);
    assert_eq!(slen(0, 0), 1);
    assert_eq!(slen(-1, -4), 4);
}

#[test]
fn cursor_moves_and_reads() {
    let mut pos: usize = 0;
    set_pos_init(&mut pos, 0);
    assert_eq!(get_pos(&pos), 0);
    move_pos(&mut pos, 7);
    assert_eq!(get_pos(&pos), 7);
    set_pos_init(&mut pos, 2);
    assert_eq!(get_pos(&pos), 2);
}

#[test]
fn align_code_skips_tag_and_padding() {
    // Cursor 0: the tag byte sits at offset 0, so 3 padding bytes follow.
    let buf = [0xAAu8, 0, 0, 0, 1, 2, 3, 4];
    let mut pos: usize = 0;
    assert_eq!(align_code(&buf, 1, &mut pos), Ok(3));
    assert_eq!(pos, 4);
}

#[test]
fn align_code_needs_four_bytes() {
    let buf = [0xAAu8, 0, 0];
    let mut pos: usize = 0;
    assert_eq!(align_code(&buf, 1, &mut pos), Err(Fault::UnalignedSwitchTooShort));
    assert_eq!(pos, 0);
}

#[test]
fn cursor_tracks_alignment_across_a_stream() {
    // Two nops push the tableswitch tag to offset 2, so only one padding
    // byte is needed before its aligned body.
    let mut v = vec![0x00u8, 0x00, 0xAA, 0x00];
    for w in [9u32, 4, 4, 13] {
        v.push((w & 0xFF) as u8);
        v.push(((w >> 8) & 0xFF) as u8);
        v.push(((w >> 16) & 0xFF) as u8);
        v.push(((w >> 24) & 0xFF) as u8);
    }
    v.push(0xB1);
    let ops = read_all_ops(&v);
    assert_eq!(
        ops,
        vec![
            JOp::Nop,
            JOp::Nop,
            JOp::TableSwitch(9, 4, 4, vec![13]),
            JOp::Return,
        ]
    );
}
