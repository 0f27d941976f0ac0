use vstd::prelude::*;
use crate::cpu::cpu::Cpu;
use crate::cpu::instruction::{Mnemonic, instruction_of};
use crate::cpu::fetch::{DataDestination, DataSource, FetchedData, fetch_readable};
use crate::cpu::registers::RegisterType;
use crate::cpu::control::ConditionType;
use crate::cpu::alu::{
    execute_ccf_post, execute_cpl_post, execute_scf_post, fetch_execute_adc_r_d8_post,
    fetch_execute_adc_r_mr_post, fetch_execute_adc_r_r_post, fetch_execute_add_r_d8_post,
    fetch_execute_add_r_mr_post, fetch_execute_add_r_r_post, fetch_execute_add_sp_e8_post,
    fetch_execute_and_r_d8_post, fetch_execute_and_r_mr_post, fetch_execute_and_r_r_post,
    fetch_execute_cp_r_d8_post, fetch_execute_cp_r_mr_post, fetch_execute_cp_r_r_post,
    fetch_execute_or_r_d8_post, fetch_execute_or_r_mr_post, fetch_execute_or_r_r_post,
    fetch_execute_sbc_r_d8_post, fetch_execute_sbc_r_mr_post, fetch_execute_sbc_r_r_post,
    fetch_execute_sub_r_d8_post, fetch_execute_sub_r_mr_post, fetch_execute_sub_r_r_post,
    fetch_execute_xor_r_d8_post, fetch_execute_xor_r_mr_post, fetch_execute_xor_r_r_post,
    inc_dec_mr_post, inc_dec_r_post,
};
use crate::cpu::control::{
    execute_di_post, execute_ei_post, execute_halt_post, execute_jp_no_hl_post, execute_nop_post,
    execute_reti_post, execute_rst_0x00_post, execute_rst_0x08_post, execute_rst_0x10_post,
    execute_rst_0x18_post, execute_rst_0x20_post, execute_rst_0x28_post, execute_rst_0x30_post,
    execute_rst_0x38_post, execute_stop_post, fetch_execute_call_d16_post,
    fetch_execute_jp_d16_post, fetch_execute_jr_d8_post, pop_post, push_post, ret_post,
};
use crate::cpu::load::{
    fetch_execute_ld_a16_r_post, fetch_execute_ld_lh_spi8_post, fetch_execute_ld_mr_d8_post,
    fetch_execute_ld_mr_r_post, fetch_execute_ld_mrd_r_post, fetch_execute_ld_mri_r_post,
    fetch_execute_ld_r_a16_post, fetch_execute_ld_r_d16_post, fetch_execute_ld_r_d8_post,
    fetch_execute_ld_r_mr_post, fetch_execute_ld_r_mrd_post, fetch_execute_ld_r_mri_post,
    fetch_execute_ld_r_r_post, fetch_execute_ldh_a8_r_post, fetch_execute_ldh_mr_r_post,
    fetch_execute_ldh_r_ha8_post, fetch_execute_ldh_r_hmr_post,
};
use crate::cpu::prefix::{fetch_execute_prefix_post};
use crate::cpu::rotate::{daa_post, rla_post, rlca_post, rra_post, rrca_post};

verus! {

/// The opcodes with an instruction behind them; the others (0xD3, 0xDB,
/// 0xDD, 0xE3, 0xE4, 0xEB, 0xEC, 0xED, 0xF4, 0xFC, 0xFD) cannot be executed.
pub open spec fn opcode_defined(op: u8) -> bool {
    !(op == 0xD3 || op == 0xDB || op == 0xDD || op == 0xE3 || op == 0xE4 || op == 0xEB || op
        == 0xEC || op == 0xED || op == 0xF4 || op == 0xFC || op == 0xFD)
}

/// The opcodes the dispatch executes are exactly those the instruction table
/// decodes to an instruction.
pub proof fn lemma_defined_opcodes_decode(op: u8)
    ensures
        opcode_defined(op) <==> instruction_of(op).mnemonic != Mnemonic::Unknown,
{
}

/// What executing the opcode `op` does to the processor: the effect of the
/// handler the instruction table gives for it.
pub open spec fn opcode_post(op: u8, pre: Cpu, post: Cpu) -> bool {
    let row = op / 16;
    if row == 0 {
        row_0x0_post(op, pre, post)
    } else if row == 1 {
        row_0x1_post(op, pre, post)
    } else if row == 2 {
        row_0x2_post(op, pre, post)
    } else if row == 3 {
        row_0x3_post(op, pre, post)
    } else if row == 4 {
        row_0x4_post(op, pre, post)
    } else if row == 5 {
        row_0x5_post(op, pre, post)
    } else if row == 6 {
        row_0x6_post(op, pre, post)
    } else if row == 7 {
        row_0x7_post(op, pre, post)
    } else if row == 8 {
        row_0x8_post(op, pre, post)
    } else if row == 9 {
        row_0x9_post(op, pre, post)
    } else if row == 10 {
        row_0xa_post(op, pre, post)
    } else if row == 11 {
        row_0xb_post(op, pre, post)
    } else if row == 12 {
        row_0xc_post(op, pre, post)
    } else if row == 13 {
        row_0xd_post(op, pre, post)
    } else if row == 14 {
        row_0xe_post(op, pre, post)
    } else {
        row_0xf_post(op, pre, post)
    }
}


/// What the opcodes 0x00 to 0x0F do.
pub open spec fn row_0x0_post(op: u8, pre: Cpu, post: Cpu) -> bool {
    match op {
        0x00 => execute_nop_post(pre, post, FetchedData::spec_empty()),
        0x01 => fetch_execute_ld_r_d16_post(pre, post, RegisterType::BC),
        0x02 => fetch_execute_ld_mr_r_post(pre, post, RegisterType::BC, RegisterType::A),
        0x03 => inc_dec_r_post(pre, post, RegisterType::BC, true),
        0x04 => inc_dec_r_post(pre, post, RegisterType::B, true),
        0x05 => inc_dec_r_post(pre, post, RegisterType::B, false),
        0x06 => fetch_execute_ld_r_d8_post(pre, post, RegisterType::B),
        0x07 => rlca_post(pre, post),
        0x08 => fetch_execute_ld_a16_r_post(pre, post, RegisterType::SP),
        0x09 => fetch_execute_add_r_r_post(pre, post, RegisterType::HL, RegisterType::BC),
        0x0A => fetch_execute_ld_r_mr_post(pre, post, RegisterType::A, RegisterType::BC),
        0x0B => inc_dec_r_post(pre, post, RegisterType::BC, false),
        0x0C => inc_dec_r_post(pre, post, RegisterType::C, true),
        0x0D => inc_dec_r_post(pre, post, RegisterType::C, false),
        0x0E => fetch_execute_ld_r_d8_post(pre, post, RegisterType::C),
        0x0F => rrca_post(pre, post),
        _ => false,
    }
}

/// What the opcodes 0x10 to 0x1F do.
pub open spec fn row_0x1_post(op: u8, pre: Cpu, post: Cpu) -> bool {
    match op {
        0x10 => execute_stop_post(pre, post, FetchedData::spec_empty()),
        0x11 => fetch_execute_ld_r_d16_post(pre, post, RegisterType::DE),
        0x12 => fetch_execute_ld_mr_r_post(pre, post, RegisterType::DE, RegisterType::A),
        0x13 => inc_dec_r_post(pre, post, RegisterType::DE, true),
        0x14 => inc_dec_r_post(pre, post, RegisterType::D, true),
        0x15 => inc_dec_r_post(pre, post, RegisterType::D, false),
        0x16 => fetch_execute_ld_r_d8_post(pre, post, RegisterType::D),
        0x17 => rla_post(pre, post),
        0x18 => fetch_execute_jr_d8_post(pre, post, ConditionType::Always),
        0x19 => fetch_execute_add_r_r_post(pre, post, RegisterType::HL, RegisterType::DE),
        0x1A => fetch_execute_ld_r_mr_post(pre, post, RegisterType::A, RegisterType::DE),
        0x1B => inc_dec_r_post(pre, post, RegisterType::DE, false),
        0x1C => inc_dec_r_post(pre, post, RegisterType::E, true),
        0x1D => inc_dec_r_post(pre, post, RegisterType::E, false),
        0x1E => fetch_execute_ld_r_d8_post(pre, post, RegisterType::E),
        0x1F => rra_post(pre, post),
        _ => false,
    }
}

/// What the opcodes 0x20 to 0x2F do.
pub open spec fn row_0x2_post(op: u8, pre: Cpu, post: Cpu) -> bool {
    match op {
        0x20 => fetch_execute_jr_d8_post(pre, post, ConditionType::NZ),
        0x21 => fetch_execute_ld_r_d16_post(pre, post, RegisterType::HL),
        0x22 => fetch_execute_ld_mri_r_post(pre, post, RegisterType::HL, RegisterType::A),
        0x23 => inc_dec_r_post(pre, post, RegisterType::HL, true),
        0x24 => inc_dec_r_post(pre, post, RegisterType::H, true),
        0x25 => inc_dec_r_post(pre, post, RegisterType::H, false),
        0x26 => fetch_execute_ld_r_d8_post(pre, post, RegisterType::H),
        0x27 => daa_post(pre, post),
        0x28 => fetch_execute_jr_d8_post(pre, post, ConditionType::Z),
        0x29 => fetch_execute_add_r_r_post(pre, post, RegisterType::HL, RegisterType::HL),
        0x2A => fetch_execute_ld_r_mri_post(pre, post, RegisterType::A, RegisterType::HL),
        0x2B => inc_dec_r_post(pre, post, RegisterType::HL, false),
        0x2C => inc_dec_r_post(pre, post, RegisterType::L, true),
        0x2D => inc_dec_r_post(pre, post, RegisterType::L, false),
        0x2E => fetch_execute_ld_r_d8_post(pre, post, RegisterType::L),
        0x2F => execute_cpl_post(pre, post),
        _ => false,
    }
}

/// What the opcodes 0x30 to 0x3F do.
pub open spec fn row_0x3_post(op: u8, pre: Cpu, post: Cpu) -> bool {
    match op {
        0x30 => fetch_execute_jr_d8_post(pre, post, ConditionType::NC),
        0x31 => fetch_execute_ld_r_d16_post(pre, post, RegisterType::SP),
        0x32 => fetch_execute_ld_mrd_r_post(pre, post, RegisterType::HL, RegisterType::A),
        0x33 => inc_dec_r_post(pre, post, RegisterType::SP, true),
        0x34 => inc_dec_mr_post(pre, post, RegisterType::HL, true),
        0x35 => inc_dec_mr_post(pre, post, RegisterType::HL, false),
        0x36 => fetch_execute_ld_mr_d8_post(pre, post, RegisterType::HL),
        0x37 => execute_scf_post(pre, post),
        0x38 => fetch_execute_jr_d8_post(pre, post, ConditionType::C),
        0x39 => fetch_execute_add_r_r_post(pre, post, RegisterType::HL, RegisterType::SP),
        0x3A => fetch_execute_ld_r_mrd_post(pre, post, RegisterType::A, RegisterType::HL),
        0x3B => inc_dec_r_post(pre, post, RegisterType::SP, false),
        0x3C => inc_dec_r_post(pre, post, RegisterType::A, true),
        0x3D => inc_dec_r_post(pre, post, RegisterType::A, false),
        0x3E => fetch_execute_ld_r_d8_post(pre, post, RegisterType::A),
        0x3F => execute_ccf_post(pre, post),
        _ => false,
    }
}

/// What the opcodes 0x40 to 0x4F do.
pub open spec fn row_0x4_post(op: u8, pre: Cpu, post: Cpu) -> bool {
    match op {
        0x40 => fetch_execute_ld_r_r_post(pre, post, RegisterType::B, RegisterType::B),
        0x41 => fetch_execute_ld_r_r_post(pre, post, RegisterType::B, RegisterType::C),
        0x42 => fetch_execute_ld_r_r_post(pre, post, RegisterType::B, RegisterType::D),
        0x43 => fetch_execute_ld_r_r_post(pre, post, RegisterType::B, RegisterType::E),
        0x44 => fetch_execute_ld_r_r_post(pre, post, RegisterType::B, RegisterType::H),
        0x45 => fetch_execute_ld_r_r_post(pre, post, RegisterType::B, RegisterType::L),
        0x46 => fetch_execute_ld_r_mr_post(pre, post, RegisterType::B, RegisterType::HL),
        0x47 => fetch_execute_ld_r_r_post(pre, post, RegisterType::B, RegisterType::A),
        0x48 => fetch_execute_ld_r_r_post(pre, post, RegisterType::C, RegisterType::B),
        0x49 => fetch_execute_ld_r_r_post(pre, post, RegisterType::C, RegisterType::C),
        0x4A => fetch_execute_ld_r_r_post(pre, post, RegisterType::C, RegisterType::D),
        0x4B => fetch_execute_ld_r_r_post(pre, post, RegisterType::C, RegisterType::E),
        0x4C => fetch_execute_ld_r_r_post(pre, post, RegisterType::C, RegisterType::H),
        0x4D => fetch_execute_ld_r_r_post(pre, post, RegisterType::C, RegisterType::L),
        0x4E => fetch_execute_ld_r_mr_post(pre, post, RegisterType::C, RegisterType::HL),
        0x4F => fetch_execute_ld_r_r_post(pre, post, RegisterType::C, RegisterType::A),
        _ => false,
    }
}

/// What the opcodes 0x50 to 0x5F do.
pub open spec fn row_0x5_post(op: u8, pre: Cpu, post: Cpu) -> bool {
    match op {
        0x50 => fetch_execute_ld_r_r_post(pre, post, RegisterType::D, RegisterType::B),
        0x51 => fetch_execute_ld_r_r_post(pre, post, RegisterType::D, RegisterType::C),
        0x52 => fetch_execute_ld_r_r_post(pre, post, RegisterType::D, RegisterType::D),
        0x53 => fetch_execute_ld_r_r_post(pre, post, RegisterType::D, RegisterType::E),
        0x54 => fetch_execute_ld_r_r_post(pre, post, RegisterType::D, RegisterType::H),
        0x55 => fetch_execute_ld_r_r_post(pre, post, RegisterType::D, RegisterType::L),
        0x56 => fetch_execute_ld_r_mr_post(pre, post, RegisterType::D, RegisterType::HL),
        0x57 => fetch_execute_ld_r_r_post(pre, post, RegisterType::D, RegisterType::A),
        0x58 => fetch_execute_ld_r_r_post(pre, post, RegisterType::E, RegisterType::B),
        0x59 => fetch_execute_ld_r_r_post(pre, post, RegisterType::E, RegisterType::C),
        0x5A => fetch_execute_ld_r_r_post(pre, post, RegisterType::E, RegisterType::D),
        0x5B => fetch_execute_ld_r_r_post(pre, post, RegisterType::E, RegisterType::E),
        0x5C => fetch_execute_ld_r_r_post(pre, post, RegisterType::E, RegisterType::H),
        0x5D => fetch_execute_ld_r_r_post(pre, post, RegisterType::E, RegisterType::L),
        0x5E => fetch_execute_ld_r_mr_post(pre, post, RegisterType::E, RegisterType::HL),
        0x5F => fetch_execute_ld_r_r_post(pre, post, RegisterType::E, RegisterType::A),
        _ => false,
    }
}

/// What the opcodes 0x60 to 0x6F do.
pub open spec fn row_0x6_post(op: u8, pre: Cpu, post: Cpu) -> bool {
    match op {
        0x60 => fetch_execute_ld_r_r_post(pre, post, RegisterType::H, RegisterType::B),
        0x61 => fetch_execute_ld_r_r_post(pre, post, RegisterType::H, RegisterType::C),
        0x62 => fetch_execute_ld_r_r_post(pre, post, RegisterType::H, RegisterType::D),
        0x63 => fetch_execute_ld_r_r_post(pre, post, RegisterType::H, RegisterType::E),
        0x64 => fetch_execute_ld_r_r_post(pre, post, RegisterType::H, RegisterType::H),
        0x65 => fetch_execute_ld_r_r_post(pre, post, RegisterType::H, RegisterType::L),
        0x66 => fetch_execute_ld_r_mr_post(pre, post, RegisterType::H, RegisterType::HL),
        0x67 => fetch_execute_ld_r_r_post(pre, post, RegisterType::H, RegisterType::A),
        0x68 => fetch_execute_ld_r_r_post(pre, post, RegisterType::L, RegisterType::B),
        0x69 => fetch_execute_ld_r_r_post(pre, post, RegisterType::L, RegisterType::C),
        0x6A => fetch_execute_ld_r_r_post(pre, post, RegisterType::L, RegisterType::D),
        0x6B => fetch_execute_ld_r_r_post(pre, post, RegisterType::L, RegisterType::E),
        0x6C => fetch_execute_ld_r_r_post(pre, post, RegisterType::L, RegisterType::H),
        0x6D => fetch_execute_ld_r_r_post(pre, post, RegisterType::L, RegisterType::L),
        0x6E => fetch_execute_ld_r_mr_post(pre, post, RegisterType::L, RegisterType::HL),
        0x6F => fetch_execute_ld_r_r_post(pre, post, RegisterType::L, RegisterType::A),
        _ => false,
    }
}

/// What the opcodes 0x70 to 0x7F do.
pub open spec fn row_0x7_post(op: u8, pre: Cpu, post: Cpu) -> bool {
    match op {
        0x70 => fetch_execute_ld_mr_r_post(pre, post, RegisterType::HL, RegisterType::B),
        0x71 => fetch_execute_ld_mr_r_post(pre, post, RegisterType::HL, RegisterType::C),
        0x72 => fetch_execute_ld_mr_r_post(pre, post, RegisterType::HL, RegisterType::D),
        0x73 => fetch_execute_ld_mr_r_post(pre, post, RegisterType::HL, RegisterType::E),
        0x74 => fetch_execute_ld_mr_r_post(pre, post, RegisterType::HL, RegisterType::H),
        0x75 => fetch_execute_ld_mr_r_post(pre, post, RegisterType::HL, RegisterType::L),
        0x76 => execute_halt_post(pre, post),
        0x77 => fetch_execute_ld_mr_r_post(pre, post, RegisterType::HL, RegisterType::A),
        0x78 => fetch_execute_ld_r_r_post(pre, post, RegisterType::A, RegisterType::B),
        0x79 => fetch_execute_ld_r_r_post(pre, post, RegisterType::A, RegisterType::C),
        0x7A => fetch_execute_ld_r_r_post(pre, post, RegisterType::A, RegisterType::D),
        0x7B => fetch_execute_ld_r_r_post(pre, post, RegisterType::A, RegisterType::E),
        0x7C => fetch_execute_ld_r_r_post(pre, post, RegisterType::A, RegisterType::H),
        0x7D => fetch_execute_ld_r_r_post(pre, post, RegisterType::A, RegisterType::L),
        0x7E => fetch_execute_ld_r_mr_post(pre, post, RegisterType::A, RegisterType::HL),
        0x7F => fetch_execute_ld_r_r_post(pre, post, RegisterType::A, RegisterType::A),
        _ => false,
    }
}

/// What the opcodes 0x80 to 0x8F do.
pub open spec fn row_0x8_post(op: u8, pre: Cpu, post: Cpu) -> bool {
    match op {
        0x80 => fetch_execute_add_r_r_post(pre, post, RegisterType::A, RegisterType::B),
        0x81 => fetch_execute_add_r_r_post(pre, post, RegisterType::A, RegisterType::C),
        0x82 => fetch_execute_add_r_r_post(pre, post, RegisterType::A, RegisterType::D),
        0x83 => fetch_execute_add_r_r_post(pre, post, RegisterType::A, RegisterType::E),
        0x84 => fetch_execute_add_r_r_post(pre, post, RegisterType::A, RegisterType::H),
        0x85 => fetch_execute_add_r_r_post(pre, post, RegisterType::A, RegisterType::L),
        0x86 => fetch_execute_add_r_mr_post(pre, post, RegisterType::A, RegisterType::HL),
        0x87 => fetch_execute_add_r_r_post(pre, post, RegisterType::A, RegisterType::A),
        0x88 => fetch_execute_adc_r_r_post(pre, post, RegisterType::B),
        0x89 => fetch_execute_adc_r_r_post(pre, post, RegisterType::C),
        0x8A => fetch_execute_adc_r_r_post(pre, post, RegisterType::D),
        0x8B => fetch_execute_adc_r_r_post(pre, post, RegisterType::E),
        0x8C => fetch_execute_adc_r_r_post(pre, post, RegisterType::H),
        0x8D => fetch_execute_adc_r_r_post(pre, post, RegisterType::L),
        0x8E => fetch_execute_adc_r_mr_post(pre, post),
        0x8F => fetch_execute_adc_r_r_post(pre, post, RegisterType::A),
        _ => false,
    }
}

/// What the opcodes 0x90 to 0x9F do.
pub open spec fn row_0x9_post(op: u8, pre: Cpu, post: Cpu) -> bool {
    match op {
        0x90 => fetch_execute_sub_r_r_post(pre, post, RegisterType::A, RegisterType::B),
        0x91 => fetch_execute_sub_r_r_post(pre, post, RegisterType::A, RegisterType::C),
        0x92 => fetch_execute_sub_r_r_post(pre, post, RegisterType::A, RegisterType::D),
        0x93 => fetch_execute_sub_r_r_post(pre, post, RegisterType::A, RegisterType::E),
        0x94 => fetch_execute_sub_r_r_post(pre, post, RegisterType::A, RegisterType::H),
        0x95 => fetch_execute_sub_r_r_post(pre, post, RegisterType::A, RegisterType::L),
        0x96 => fetch_execute_sub_r_mr_post(pre, post, RegisterType::A, RegisterType::HL),
        0x97 => fetch_execute_sub_r_r_post(pre, post, RegisterType::A, RegisterType::A),
        0x98 => fetch_execute_sbc_r_r_post(pre, post, RegisterType::A, RegisterType::B),
        0x99 => fetch_execute_sbc_r_r_post(pre, post, RegisterType::A, RegisterType::C),
        0x9A => fetch_execute_sbc_r_r_post(pre, post, RegisterType::A, RegisterType::D),
        0x9B => fetch_execute_sbc_r_r_post(pre, post, RegisterType::A, RegisterType::E),
        0x9C => fetch_execute_sbc_r_r_post(pre, post, RegisterType::A, RegisterType::H),
        0x9D => fetch_execute_sbc_r_r_post(pre, post, RegisterType::A, RegisterType::L),
        0x9E => fetch_execute_sbc_r_mr_post(pre, post, RegisterType::A, RegisterType::HL),
        0x9F => fetch_execute_sbc_r_r_post(pre, post, RegisterType::A, RegisterType::A),
        _ => false,
    }
}

/// What the opcodes 0xA0 to 0xAF do.
pub open spec fn row_0xa_post(op: u8, pre: Cpu, post: Cpu) -> bool {
    match op {
        0xA0 => fetch_execute_and_r_r_post(pre, post, RegisterType::A, RegisterType::B),
        0xA1 => fetch_execute_and_r_r_post(pre, post, RegisterType::A, RegisterType::C),
        0xA2 => fetch_execute_and_r_r_post(pre, post, RegisterType::A, RegisterType::D),
        0xA3 => fetch_execute_and_r_r_post(pre, post, RegisterType::A, RegisterType::E),
        0xA4 => fetch_execute_and_r_r_post(pre, post, RegisterType::A, RegisterType::H),
        0xA5 => fetch_execute_and_r_r_post(pre, post, RegisterType::A, RegisterType::L),
        0xA6 => fetch_execute_and_r_mr_post(pre, post, RegisterType::A, RegisterType::HL),
        0xA7 => fetch_execute_and_r_r_post(pre, post, RegisterType::A, RegisterType::A),
        0xA8 => fetch_execute_xor_r_r_post(pre, post, RegisterType::A, RegisterType::B),
        0xA9 => fetch_execute_xor_r_r_post(pre, post, RegisterType::A, RegisterType::C),
        0xAA => fetch_execute_xor_r_r_post(pre, post, RegisterType::A, RegisterType::D),
        0xAB => fetch_execute_xor_r_r_post(pre, post, RegisterType::A, RegisterType::E),
        0xAC => fetch_execute_xor_r_r_post(pre, post, RegisterType::A, RegisterType::H),
        0xAD => fetch_execute_xor_r_r_post(pre, post, RegisterType::A, RegisterType::L),
        0xAE => fetch_execute_xor_r_mr_post(pre, post, RegisterType::A, RegisterType::HL),
        0xAF => fetch_execute_xor_r_r_post(pre, post, RegisterType::A, RegisterType::A),
        _ => false,
    }
}

/// What the opcodes 0xB0 to 0xBF do.
pub open spec fn row_0xb_post(op: u8, pre: Cpu, post: Cpu) -> bool {
    match op {
        0xB0 => fetch_execute_or_r_r_post(pre, post, RegisterType::A, RegisterType::B),
        0xB1 => fetch_execute_or_r_r_post(pre, post, RegisterType::A, RegisterType::C),
        0xB2 => fetch_execute_or_r_r_post(pre, post, RegisterType::A, RegisterType::D),
        0xB3 => fetch_execute_or_r_r_post(pre, post, RegisterType::A, RegisterType::E),
        0xB4 => fetch_execute_or_r_r_post(pre, post, RegisterType::A, RegisterType::H),
        0xB5 => fetch_execute_or_r_r_post(pre, post, RegisterType::A, RegisterType::L),
        0xB6 => fetch_execute_or_r_mr_post(pre, post, RegisterType::A, RegisterType::HL),
        0xB7 => fetch_execute_or_r_r_post(pre, post, RegisterType::A, RegisterType::A),
        0xB8 => fetch_execute_cp_r_r_post(pre, post, RegisterType::A, RegisterType::B),
        0xB9 => fetch_execute_cp_r_r_post(pre, post, RegisterType::A, RegisterType::C),
        0xBA => fetch_execute_cp_r_r_post(pre, post, RegisterType::A, RegisterType::D),
        0xBB => fetch_execute_cp_r_r_post(pre, post, RegisterType::A, RegisterType::E),
        0xBC => fetch_execute_cp_r_r_post(pre, post, RegisterType::A, RegisterType::H),
        0xBD => fetch_execute_cp_r_r_post(pre, post, RegisterType::A, RegisterType::L),
        0xBE => fetch_execute_cp_r_mr_post(pre, post, RegisterType::A, RegisterType::HL),
        0xBF => fetch_execute_cp_r_r_post(pre, post, RegisterType::A, RegisterType::A),
        _ => false,
    }
}

/// What the opcodes 0xC0 to 0xCF do.
pub open spec fn row_0xc_post(op: u8, pre: Cpu, post: Cpu) -> bool {
    match op {
        0xC0 => ret_post(pre, post, ConditionType::NZ),
        0xC1 => pop_post(pre, post, RegisterType::BC),
        0xC2 => fetch_execute_jp_d16_post(pre, post, ConditionType::NZ),
        0xC3 => fetch_execute_jp_d16_post(pre, post, ConditionType::Always),
        0xC4 => fetch_execute_call_d16_post(pre, post, ConditionType::NZ),
        0xC5 => push_post(pre, post, RegisterType::BC),
        0xC6 => fetch_execute_add_r_d8_post(pre, post, RegisterType::A),
        0xC7 => execute_rst_0x00_post(pre, post, FetchedData::spec_empty()),
        0xC8 => ret_post(pre, post, ConditionType::Z),
        0xC9 => ret_post(pre, post, ConditionType::Always),
        0xCA => fetch_execute_jp_d16_post(pre, post, ConditionType::Z),
        0xCB => fetch_execute_prefix_post(pre, post),
        0xCC => fetch_execute_call_d16_post(pre, post, ConditionType::Z),
        0xCD => fetch_execute_call_d16_post(pre, post, ConditionType::Always),
        0xCE => fetch_execute_adc_r_d8_post(pre, post),
        0xCF => execute_rst_0x08_post(pre, post, FetchedData::spec_empty()),
        _ => false,
    }
}

/// What the opcodes 0xD0 to 0xDF do.
pub open spec fn row_0xd_post(op: u8, pre: Cpu, post: Cpu) -> bool {
    match op {
        0xD0 => ret_post(pre, post, ConditionType::NC),
        0xD1 => pop_post(pre, post, RegisterType::DE),
        0xD2 => fetch_execute_jp_d16_post(pre, post, ConditionType::NC),
        0xD4 => fetch_execute_call_d16_post(pre, post, ConditionType::NC),
        0xD5 => push_post(pre, post, RegisterType::DE),
        0xD6 => fetch_execute_sub_r_d8_post(pre, post, RegisterType::A),
        0xD7 => execute_rst_0x10_post(pre, post, FetchedData::spec_empty()),
        0xD8 => ret_post(pre, post, ConditionType::C),
        0xD9 => execute_reti_post(pre, post),
        0xDA => fetch_execute_jp_d16_post(pre, post, ConditionType::C),
        0xDC => fetch_execute_call_d16_post(pre, post, ConditionType::C),
        0xDE => fetch_execute_sbc_r_d8_post(pre, post, RegisterType::A),
        0xDF => execute_rst_0x18_post(pre, post, FetchedData::spec_empty()),
        _ => false,
    }
}

/// What the opcodes 0xE0 to 0xEF do.
pub open spec fn row_0xe_post(op: u8, pre: Cpu, post: Cpu) -> bool {
    match op {
        0xE0 => fetch_execute_ldh_a8_r_post(pre, post, RegisterType::A),
        0xE1 => pop_post(pre, post, RegisterType::HL),
        0xE2 => fetch_execute_ldh_mr_r_post(pre, post, RegisterType::C, RegisterType::A),
        0xE5 => push_post(pre, post, RegisterType::HL),
        0xE6 => fetch_execute_and_r_d8_post(pre, post, RegisterType::A),
        0xE7 => execute_rst_0x20_post(pre, post, FetchedData::spec_empty()),
        0xE8 => fetch_execute_add_sp_e8_post(pre, post),
        0xE9 => execute_jp_no_hl_post(pre, post),
        0xEA => fetch_execute_ld_a16_r_post(pre, post, RegisterType::A),
        0xEE => fetch_execute_xor_r_d8_post(pre, post, RegisterType::A),
        0xEF => execute_rst_0x28_post(pre, post, FetchedData::spec_empty()),
        _ => false,
    }
}

/// What the opcodes 0xF0 to 0xFF do.
pub open spec fn row_0xf_post(op: u8, pre: Cpu, post: Cpu) -> bool {
    match op {
        0xF0 => fetch_execute_ldh_r_ha8_post(pre, post, RegisterType::A),
        0xF1 => pop_post(pre, post, RegisterType::AF),
        0xF2 => fetch_execute_ldh_r_hmr_post(pre, post, RegisterType::A, RegisterType::C),
        0xF3 => execute_di_post(pre, post),
        0xF5 => push_post(pre, post, RegisterType::AF),
        0xF6 => fetch_execute_or_r_d8_post(pre, post, RegisterType::A),
        0xF7 => execute_rst_0x30_post(pre, post, FetchedData::spec_empty()),
        0xF8 => fetch_execute_ld_lh_spi8_post(pre, post),
        0xF9 => fetch_execute_ld_r_r_post(pre, post, RegisterType::SP, RegisterType::HL),
        0xFA => fetch_execute_ld_r_a16_post(pre, post, RegisterType::A),
        0xFB => execute_ei_post(pre, post),
        0xFE => fetch_execute_cp_r_d8_post(pre, post, RegisterType::A),
        0xFF => execute_rst_0x38_post(pre, post, FetchedData::spec_empty()),
        _ => false,
    }
}

impl Cpu {
    /// Executes the opcode of the current step. The memory covers the whole
    /// address space; an opcode with no instruction behind it is refused, and
    /// so is LD (a16),SP whose second byte would fall past the address space.
    pub fn execute_opcode(&mut self)
        requires
            old(self).wf(),
            old(self).mem_ok(),
            opcode_defined(old(self).step_ctx.opcode),
            old(self).step_ctx.opcode == 0x08 ==> old(self).imm16() != 0xFFFF,
        ensures
            opcode_post(old(self).step_ctx.opcode, *old(self), *final(self)),
            final(self).mem_ok(),
    {
        let op = self.step_ctx.opcode;
        let row = op / 16;
        if row == 0 {
            self.execute_row_0x0(op);
        } else if row == 1 {
            self.execute_row_0x1(op);
        } else if row == 2 {
            self.execute_row_0x2(op);
        } else if row == 3 {
            self.execute_row_0x3(op);
        } else if row == 4 {
            self.execute_row_0x4(op);
        } else if row == 5 {
            self.execute_row_0x5(op);
        } else if row == 6 {
            self.execute_row_0x6(op);
        } else if row == 7 {
            self.execute_row_0x7(op);
        } else if row == 8 {
            self.execute_row_0x8(op);
        } else if row == 9 {
            self.execute_row_0x9(op);
        } else if row == 10 {
            self.execute_row_0xa(op);
        } else if row == 11 {
            self.execute_row_0xb(op);
        } else if row == 12 {
            self.execute_row_0xc(op);
        } else if row == 13 {
            self.execute_row_0xd(op);
        } else if row == 14 {
            self.execute_row_0xe(op);
        } else {
            self.execute_row_0xf(op);
        }
    }

    /// Executes one of the opcodes 0x00 to 0x0F.
    fn execute_row_0x0(&mut self, op: u8)
        requires
            old(self).wf(),
            old(self).mem_ok(),
            0x00 <= op <= 0x0F,
            opcode_defined(op),
            op == 0x08 ==> old(self).imm16() != 0xFFFF,
        ensures
            row_0x0_post(op, *old(self), *final(self)),
            final(self).mem_ok(),
    {
        proof {
            reveal(fetch_readable);
        }
        match op {
            0x00 => self.execute_nop(FetchedData::empty()),
            0x01 => self.fetch_execute_ld_r_d16(RegisterType::BC),
            0x02 => self.fetch_execute_ld_mr_r(RegisterType::BC, RegisterType::A),
            0x03 => self.fetch_execute_inc_r(RegisterType::BC),
            0x04 => self.fetch_execute_inc_r(RegisterType::B),
            0x05 => self.fetch_execute_dec_r(RegisterType::B),
            0x06 => self.fetch_execute_ld_r_d8(RegisterType::B),
            0x07 => self.execute_rlca(),
            0x08 => self.fetch_execute_ld_a16_r(RegisterType::SP),
            0x09 => self.fetch_execute_add_r_r(RegisterType::HL, RegisterType::BC),
            0x0A => self.fetch_execute_ld_r_mr(RegisterType::A, RegisterType::BC),
            0x0B => self.fetch_execute_dec_r(RegisterType::BC),
            0x0C => self.fetch_execute_inc_r(RegisterType::C),
            0x0D => self.fetch_execute_dec_r(RegisterType::C),
            0x0E => self.fetch_execute_ld_r_d8(RegisterType::C),
            0x0F => self.execute_rrca(),
            _ => {},
        }
    }

    /// Executes one of the opcodes 0x10 to 0x1F.
    fn execute_row_0x1(&mut self, op: u8)
        requires
            old(self).wf(),
            old(self).mem_ok(),
            0x10 <= op <= 0x1F,
            opcode_defined(op),
        ensures
            row_0x1_post(op, *old(self), *final(self)),
            final(self).mem_ok(),
    {
        proof {
            reveal(fetch_readable);
        }
        match op {
            0x10 => self.execute_stop(FetchedData::empty()),
            0x11 => self.fetch_execute_ld_r_d16(RegisterType::DE),
            0x12 => self.fetch_execute_ld_mr_r(RegisterType::DE, RegisterType::A),
            0x13 => self.fetch_execute_inc_r(RegisterType::DE),
            0x14 => self.fetch_execute_inc_r(RegisterType::D),
            0x15 => self.fetch_execute_dec_r(RegisterType::D),
            0x16 => self.fetch_execute_ld_r_d8(RegisterType::D),
            0x17 => self.execute_rla(),
            0x18 => self.fetch_execute_jr_d8(ConditionType::Always),
            0x19 => self.fetch_execute_add_r_r(RegisterType::HL, RegisterType::DE),
            0x1A => self.fetch_execute_ld_r_mr(RegisterType::A, RegisterType::DE),
            0x1B => self.fetch_execute_dec_r(RegisterType::DE),
            0x1C => self.fetch_execute_inc_r(RegisterType::E),
            0x1D => self.fetch_execute_dec_r(RegisterType::E),
            0x1E => self.fetch_execute_ld_r_d8(RegisterType::E),
            0x1F => self.execute_rra(),
            _ => {},
        }
    }

    /// Executes one of the opcodes 0x20 to 0x2F.
    fn execute_row_0x2(&mut self, op: u8)
        requires
            old(self).wf(),
            old(self).mem_ok(),
            0x20 <= op <= 0x2F,
            opcode_defined(op),
        ensures
            row_0x2_post(op, *old(self), *final(self)),
            final(self).mem_ok(),
    {
        proof {
            reveal(fetch_readable);
        }
        match op {
            0x20 => self.fetch_execute_jr_d8(ConditionType::NZ),
            0x21 => self.fetch_execute_ld_r_d16(RegisterType::HL),
            0x22 => self.fetch_execute_ld_mri_r(RegisterType::HL, RegisterType::A),
            0x23 => self.fetch_execute_inc_r(RegisterType::HL),
            0x24 => self.fetch_execute_inc_r(RegisterType::H),
            0x25 => self.fetch_execute_dec_r(RegisterType::H),
            0x26 => self.fetch_execute_ld_r_d8(RegisterType::H),
            0x27 => self.execute_daa(),
            0x28 => self.fetch_execute_jr_d8(ConditionType::Z),
            0x29 => self.fetch_execute_add_r_r(RegisterType::HL, RegisterType::HL),
            0x2A => self.fetch_execute_ld_r_mri(RegisterType::A, RegisterType::HL),
            0x2B => self.fetch_execute_dec_r(RegisterType::HL),
            0x2C => self.fetch_execute_inc_r(RegisterType::L),
            0x2D => self.fetch_execute_dec_r(RegisterType::L),
            0x2E => self.fetch_execute_ld_r_d8(RegisterType::L),
            0x2F => self.execute_cpl(),
            _ => {},
        }
    }

    /// Executes one of the opcodes 0x30 to 0x3F.
    fn execute_row_0x3(&mut self, op: u8)
        requires
            old(self).wf(),
            old(self).mem_ok(),
            0x30 <= op <= 0x3F,
            opcode_defined(op),
        ensures
            row_0x3_post(op, *old(self), *final(self)),
            final(self).mem_ok(),
    {
        proof {
            reveal(fetch_readable);
        }
        match op {
            0x30 => self.fetch_execute_jr_d8(ConditionType::NC),
            0x31 => self.fetch_execute_ld_r_d16(RegisterType::SP),
            0x32 => self.fetch_execute_ld_mrd_r(RegisterType::HL, RegisterType::A),
            0x33 => self.fetch_execute_inc_r(RegisterType::SP),
            0x34 => self.fetch_execute_inc_mr(RegisterType::HL),
            0x35 => self.fetch_execute_dec_mr(RegisterType::HL),
            0x36 => self.fetch_execute_ld_mr_d8(RegisterType::HL),
            0x37 => self.execute_scf(),
            0x38 => self.fetch_execute_jr_d8(ConditionType::C),
            0x39 => self.fetch_execute_add_r_r(RegisterType::HL, RegisterType::SP),
            0x3A => self.fetch_execute_ld_r_mrd(RegisterType::A, RegisterType::HL),
            0x3B => self.fetch_execute_dec_r(RegisterType::SP),
            0x3C => self.fetch_execute_inc_r(RegisterType::A),
            0x3D => self.fetch_execute_dec_r(RegisterType::A),
            0x3E => self.fetch_execute_ld_r_d8(RegisterType::A),
            0x3F => self.execute_ccf(),
            _ => {},
        }
    }

    /// Executes one of the opcodes 0x40 to 0x4F.
    fn execute_row_0x4(&mut self, op: u8)
        requires
            old(self).wf(),
            old(self).mem_ok(),
            0x40 <= op <= 0x4F,
            opcode_defined(op),
        ensures
            row_0x4_post(op, *old(self), *final(self)),
            final(self).mem_ok(),
    {
        proof {
            reveal(fetch_readable);
        }
        match op {
            0x40 => self.fetch_execute_ld_r_r(RegisterType::B, RegisterType::B),
            0x41 => self.fetch_execute_ld_r_r(RegisterType::B, RegisterType::C),
            0x42 => self.fetch_execute_ld_r_r(RegisterType::B, RegisterType::D),
            0x43 => self.fetch_execute_ld_r_r(RegisterType::B, RegisterType::E),
            0x44 => self.fetch_execute_ld_r_r(RegisterType::B, RegisterType::H),
            0x45 => self.fetch_execute_ld_r_r(RegisterType::B, RegisterType::L),
            0x46 => self.fetch_execute_ld_r_mr(RegisterType::B, RegisterType::HL),
            0x47 => self.fetch_execute_ld_r_r(RegisterType::B, RegisterType::A),
            0x48 => self.fetch_execute_ld_r_r(RegisterType::C, RegisterType::B),
            0x49 => self.fetch_execute_ld_r_r(RegisterType::C, RegisterType::C),
            0x4A => self.fetch_execute_ld_r_r(RegisterType::C, RegisterType::D),
            0x4B => self.fetch_execute_ld_r_r(RegisterType::C, RegisterType::E),
            0x4C => self.fetch_execute_ld_r_r(RegisterType::C, RegisterType::H),
            0x4D => self.fetch_execute_ld_r_r(RegisterType::C, RegisterType::L),
            0x4E => self.fetch_execute_ld_r_mr(RegisterType::C, RegisterType::HL),
            0x4F => self.fetch_execute_ld_r_r(RegisterType::C, RegisterType::A),
            _ => {},
        }
    }

    /// Executes one of the opcodes 0x50 to 0x5F.
    fn execute_row_0x5(&mut self, op: u8)
        requires
            old(self).wf(),
            old(self).mem_ok(),
            0x50 <= op <= 0x5F,
            opcode_defined(op),
        ensures
            row_0x5_post(op, *old(self), *final(self)),
            final(self).mem_ok(),
    {
        proof {
            reveal(fetch_readable);
        }
        match op {
            0x50 => self.fetch_execute_ld_r_r(RegisterType::D, RegisterType::B),
            0x51 => self.fetch_execute_ld_r_r(RegisterType::D, RegisterType::C),
            0x52 => self.fetch_execute_ld_r_r(RegisterType::D, RegisterType::D),
            0x53 => self.fetch_execute_ld_r_r(RegisterType::D, RegisterType::E),
            0x54 => self.fetch_execute_ld_r_r(RegisterType::D, RegisterType::H),
            0x55 => self.fetch_execute_ld_r_r(RegisterType::D, RegisterType::L),
            0x56 => self.fetch_execute_ld_r_mr(RegisterType::D, RegisterType::HL),
            0x57 => self.fetch_execute_ld_r_r(RegisterType::D, RegisterType::A),
            0x58 => self.fetch_execute_ld_r_r(RegisterType::E, RegisterType::B),
            0x59 => self.fetch_execute_ld_r_r(RegisterType::E, RegisterType::C),
            0x5A => self.fetch_execute_ld_r_r(RegisterType::E, RegisterType::D),
            0x5B => self.fetch_execute_ld_r_r(RegisterType::E, RegisterType::E),
            0x5C => self.fetch_execute_ld_r_r(RegisterType::E, RegisterType::H),
            0x5D => self.fetch_execute_ld_r_r(RegisterType::E, RegisterType::L),
            0x5E => self.fetch_execute_ld_r_mr(RegisterType::E, RegisterType::HL),
            0x5F => self.fetch_execute_ld_r_r(RegisterType::E, RegisterType::A),
            _ => {},
        }
    }

    /// Executes one of the opcodes 0x60 to 0x6F.
    fn execute_row_0x6(&mut self, op: u8)
        requires
            old(self).wf(),
            old(self).mem_ok(),
            0x60 <= op <= 0x6F,
            opcode_defined(op),
        ensures
            row_0x6_post(op, *old(self), *final(self)),
            final(self).mem_ok(),
    {
        proof {
            reveal(fetch_readable);
        }
        match op {
            0x60 => self.fetch_execute_ld_r_r(RegisterType::H, RegisterType::B),
            0x61 => self.fetch_execute_ld_r_r(RegisterType::H, RegisterType::C),
            0x62 => self.fetch_execute_ld_r_r(RegisterType::H, RegisterType::D),
            0x63 => self.fetch_execute_ld_r_r(RegisterType::H, RegisterType::E),
            0x64 => self.fetch_execute_ld_r_r(RegisterType::H, RegisterType::H),
            0x65 => self.fetch_execute_ld_r_r(RegisterType::H, RegisterType::L),
            0x66 => self.fetch_execute_ld_r_mr(RegisterType::H, RegisterType::HL),
            0x67 => self.fetch_execute_ld_r_r(RegisterType::H, RegisterType::A),
            0x68 => self.fetch_execute_ld_r_r(RegisterType::L, RegisterType::B),
            0x69 => self.fetch_execute_ld_r_r(RegisterType::L, RegisterType::C),
            0x6A => self.fetch_execute_ld_r_r(RegisterType::L, RegisterType::D),
            0x6B => self.fetch_execute_ld_r_r(RegisterType::L, RegisterType::E),
            0x6C => self.fetch_execute_ld_r_r(RegisterType::L, RegisterType::H),
            0x6D => self.fetch_execute_ld_r_r(RegisterType::L, RegisterType::L),
            0x6E => self.fetch_execute_ld_r_mr(RegisterType::L, RegisterType::HL),
            0x6F => self.fetch_execute_ld_r_r(RegisterType::L, RegisterType::A),
            _ => {},
        }
    }

    /// Executes one of the opcodes 0x70 to 0x7F.
    fn execute_row_0x7(&mut self, op: u8)
        requires
            old(self).wf(),
            old(self).mem_ok(),
            0x70 <= op <= 0x7F,
            opcode_defined(op),
        ensures
            row_0x7_post(op, *old(self), *final(self)),
            final(self).mem_ok(),
    {
        proof {
            reveal(fetch_readable);
        }
        match op {
            0x70 => self.fetch_execute_ld_mr_r(RegisterType::HL, RegisterType::B),
            0x71 => self.fetch_execute_ld_mr_r(RegisterType::HL, RegisterType::C),
            0x72 => self.fetch_execute_ld_mr_r(RegisterType::HL, RegisterType::D),
            0x73 => self.fetch_execute_ld_mr_r(RegisterType::HL, RegisterType::E),
            0x74 => self.fetch_execute_ld_mr_r(RegisterType::HL, RegisterType::H),
            0x75 => self.fetch_execute_ld_mr_r(RegisterType::HL, RegisterType::L),
            0x76 => self.execute_halt(),
            0x77 => self.fetch_execute_ld_mr_r(RegisterType::HL, RegisterType::A),
            0x78 => self.fetch_execute_ld_r_r(RegisterType::A, RegisterType::B),
            0x79 => self.fetch_execute_ld_r_r(RegisterType::A, RegisterType::C),
            0x7A => self.fetch_execute_ld_r_r(RegisterType::A, RegisterType::D),
            0x7B => self.fetch_execute_ld_r_r(RegisterType::A, RegisterType::E),
            0x7C => self.fetch_execute_ld_r_r(RegisterType::A, RegisterType::H),
            0x7D => self.fetch_execute_ld_r_r(RegisterType::A, RegisterType::L),
            0x7E => self.fetch_execute_ld_r_mr(RegisterType::A, RegisterType::HL),
            0x7F => self.fetch_execute_ld_r_r(RegisterType::A, RegisterType::A),
            _ => {},
        }
    }

    /// Executes one of the opcodes 0x80 to 0x8F.
    fn execute_row_0x8(&mut self, op: u8)
        requires
            old(self).wf(),
            old(self).mem_ok(),
            0x80 <= op <= 0x8F,
            opcode_defined(op),
        ensures
            row_0x8_post(op, *old(self), *final(self)),
            final(self).mem_ok(),
    {
        proof {
            reveal(fetch_readable);
        }
        match op {
            0x80 => self.fetch_execute_add_r_r(RegisterType::A, RegisterType::B),
            0x81 => self.fetch_execute_add_r_r(RegisterType::A, RegisterType::C),
            0x82 => self.fetch_execute_add_r_r(RegisterType::A, RegisterType::D),
            0x83 => self.fetch_execute_add_r_r(RegisterType::A, RegisterType::E),
            0x84 => self.fetch_execute_add_r_r(RegisterType::A, RegisterType::H),
            0x85 => self.fetch_execute_add_r_r(RegisterType::A, RegisterType::L),
            0x86 => self.fetch_execute_add_r_mr(RegisterType::A, RegisterType::HL),
            0x87 => self.fetch_execute_add_r_r(RegisterType::A, RegisterType::A),
            0x88 => self.fetch_execute_adc_r_r(RegisterType::B),
            0x89 => self.fetch_execute_adc_r_r(RegisterType::C),
            0x8A => self.fetch_execute_adc_r_r(RegisterType::D),
            0x8B => self.fetch_execute_adc_r_r(RegisterType::E),
            0x8C => self.fetch_execute_adc_r_r(RegisterType::H),
            0x8D => self.fetch_execute_adc_r_r(RegisterType::L),
            0x8E => self.fetch_execute_adc_r_mr(),
            0x8F => self.fetch_execute_adc_r_r(RegisterType::A),
            _ => {},
        }
    }

    /// Executes one of the opcodes 0x90 to 0x9F.
    fn execute_row_0x9(&mut self, op: u8)
        requires
            old(self).wf(),
            old(self).mem_ok(),
            0x90 <= op <= 0x9F,
            opcode_defined(op),
        ensures
            row_0x9_post(op, *old(self), *final(self)),
            final(self).mem_ok(),
    {
        proof {
            reveal(fetch_readable);
        }
        match op {
            0x90 => self.fetch_execute_sub_r_r(RegisterType::A, RegisterType::B),
            0x91 => self.fetch_execute_sub_r_r(RegisterType::A, RegisterType::C),
            0x92 => self.fetch_execute_sub_r_r(RegisterType::A, RegisterType::D),
            0x93 => self.fetch_execute_sub_r_r(RegisterType::A, RegisterType::E),
            0x94 => self.fetch_execute_sub_r_r(RegisterType::A, RegisterType::H),
            0x95 => self.fetch_execute_sub_r_r(RegisterType::A, RegisterType::L),
            0x96 => self.fetch_execute_sub_r_mr(RegisterType::A, RegisterType::HL),
            0x97 => self.fetch_execute_sub_r_r(RegisterType::A, RegisterType::A),
            0x98 => self.fetch_execute_sbc_r_r(RegisterType::A, RegisterType::B),
            0x99 => self.fetch_execute_sbc_r_r(RegisterType::A, RegisterType::C),
            0x9A => self.fetch_execute_sbc_r_r(RegisterType::A, RegisterType::D),
            0x9B => self.fetch_execute_sbc_r_r(RegisterType::A, RegisterType::E),
            0x9C => self.fetch_execute_sbc_r_r(RegisterType::A, RegisterType::H),
            0x9D => self.fetch_execute_sbc_r_r(RegisterType::A, RegisterType::L),
            0x9E => self.fetch_execute_sbc_r_mr(RegisterType::A, RegisterType::HL),
            0x9F => self.fetch_execute_sbc_r_r(RegisterType::A, RegisterType::A),
            _ => {},
        }
    }

    /// Executes one of the opcodes 0xA0 to 0xAF.
    fn execute_row_0xa(&mut self, op: u8)
        requires
            old(self).wf(),
            old(self).mem_ok(),
            0xA0 <= op <= 0xAF,
            opcode_defined(op),
        ensures
            row_0xa_post(op, *old(self), *final(self)),
            final(self).mem_ok(),
    {
        proof {
            reveal(fetch_readable);
        }
        match op {
            0xA0 => self.fetch_execute_and_r_r(RegisterType::A, RegisterType::B),
            0xA1 => self.fetch_execute_and_r_r(RegisterType::A, RegisterType::C),
            0xA2 => self.fetch_execute_and_r_r(RegisterType::A, RegisterType::D),
            0xA3 => self.fetch_execute_and_r_r(RegisterType::A, RegisterType::E),
            0xA4 => self.fetch_execute_and_r_r(RegisterType::A, RegisterType::H),
            0xA5 => self.fetch_execute_and_r_r(RegisterType::A, RegisterType::L),
            0xA6 => self.fetch_execute_and_r_mr(RegisterType::A, RegisterType::HL),
            0xA7 => self.fetch_execute_and_r_r(RegisterType::A, RegisterType::A),
            0xA8 => self.fetch_execute_xor_r_r(RegisterType::A, RegisterType::B),
            0xA9 => self.fetch_execute_xor_r_r(RegisterType::A, RegisterType::C),
            0xAA => self.fetch_execute_xor_r_r(RegisterType::A, RegisterType::D),
            0xAB => self.fetch_execute_xor_r_r(RegisterType::A, RegisterType::E),
            0xAC => self.fetch_execute_xor_r_r(RegisterType::A, RegisterType::H),
            0xAD => self.fetch_execute_xor_r_r(RegisterType::A, RegisterType::L),
            0xAE => self.fetch_execute_xor_r_mr(RegisterType::A, RegisterType::HL),
            0xAF => self.fetch_execute_xor_r_r(RegisterType::A, RegisterType::A),
            _ => {},
        }
    }

    /// Executes one of the opcodes 0xB0 to 0xBF.
    fn execute_row_0xb(&mut self, op: u8)
        requires
            old(self).wf(),
            old(self).mem_ok(),
            0xB0 <= op <= 0xBF,
            opcode_defined(op),
        ensures
            row_0xb_post(op, *old(self), *final(self)),
            final(self).mem_ok(),
    {
        proof {
            reveal(fetch_readable);
        }
        match op {
            0xB0 => self.fetch_execute_or_r_r(RegisterType::A, RegisterType::B),
            0xB1 => self.fetch_execute_or_r_r(RegisterType::A, RegisterType::C),
            0xB2 => self.fetch_execute_or_r_r(RegisterType::A, RegisterType::D),
            0xB3 => self.fetch_execute_or_r_r(RegisterType::A, RegisterType::E),
            0xB4 => self.fetch_execute_or_r_r(RegisterType::A, RegisterType::H),
            0xB5 => self.fetch_execute_or_r_r(RegisterType::A, RegisterType::L),
            0xB6 => self.fetch_execute_or_r_mr(RegisterType::A, RegisterType::HL),
            0xB7 => self.fetch_execute_or_r_r(RegisterType::A, RegisterType::A),
            0xB8 => self.fetch_execute_cp_r_r(RegisterType::A, RegisterType::B),
            0xB9 => self.fetch_execute_cp_r_r(RegisterType::A, RegisterType::C),
            0xBA => self.fetch_execute_cp_r_r(RegisterType::A, RegisterType::D),
            0xBB => self.fetch_execute_cp_r_r(RegisterType::A, RegisterType::E),
            0xBC => self.fetch_execute_cp_r_r(RegisterType::A, RegisterType::H),
            0xBD => self.fetch_execute_cp_r_r(RegisterType::A, RegisterType::L),
            0xBE => self.fetch_execute_cp_r_mr(RegisterType::A, RegisterType::HL),
            0xBF => self.fetch_execute_cp_r_r(RegisterType::A, RegisterType::A),
            _ => {},
        }
    }

    /// Executes one of the opcodes 0xC0 to 0xCF.
    fn execute_row_0xc(&mut self, op: u8)
        requires
            old(self).wf(),
            old(self).mem_ok(),
            0xC0 <= op <= 0xCF,
            opcode_defined(op),
        ensures
            row_0xc_post(op, *old(self), *final(self)),
            final(self).mem_ok(),
    {
        proof {
            reveal(fetch_readable);
        }
        match op {
            0xC0 => self.execute_ret(ConditionType::NZ),
            0xC1 => self.execute_pop(FetchedData { dest: DataDestination::Register(RegisterType::BC), source: DataSource::Immediate, value: 0 }),
            0xC2 => self.fetch_execute_jp_d16(ConditionType::NZ),
            0xC3 => self.fetch_execute_jp_d16(ConditionType::Always),
            0xC4 => self.fetch_execute_call_d16(ConditionType::NZ),
            0xC5 => self.fetch_execute_push(RegisterType::BC),
            0xC6 => self.fetch_execute_add_r_d8(RegisterType::A),
            0xC7 => self.execute_rst_0x00(FetchedData::empty()),
            0xC8 => self.execute_ret(ConditionType::Z),
            0xC9 => self.execute_ret(ConditionType::Always),
            0xCA => self.fetch_execute_jp_d16(ConditionType::Z),
            0xCB => self.fetch_execute_prefix(),
            0xCC => self.fetch_execute_call_d16(ConditionType::Z),
            0xCD => self.fetch_execute_call_d16(ConditionType::Always),
            0xCE => self.fetch_execute_adc_r_d8(),
            0xCF => self.execute_rst_0x08(FetchedData::empty()),
            _ => {},
        }
    }

    /// Executes one of the opcodes 0xD0 to 0xDF.
    fn execute_row_0xd(&mut self, op: u8)
        requires
            old(self).wf(),
            old(self).mem_ok(),
            0xD0 <= op <= 0xDF,
            opcode_defined(op),
        ensures
            row_0xd_post(op, *old(self), *final(self)),
            final(self).mem_ok(),
    {
        proof {
            reveal(fetch_readable);
        }
        match op {
            0xD0 => self.execute_ret(ConditionType::NC),
            0xD1 => self.execute_pop(FetchedData { dest: DataDestination::Register(RegisterType::DE), source: DataSource::Immediate, value: 0 }),
            0xD2 => self.fetch_execute_jp_d16(ConditionType::NC),
            0xD4 => self.fetch_execute_call_d16(ConditionType::NC),
            0xD5 => self.fetch_execute_push(RegisterType::DE),
            0xD6 => self.fetch_execute_sub_r_d8(RegisterType::A),
            0xD7 => self.execute_rst_0x10(FetchedData::empty()),
            0xD8 => self.execute_ret(ConditionType::C),
            0xD9 => self.execute_reti(),
            0xDA => self.fetch_execute_jp_d16(ConditionType::C),
            0xDC => self.fetch_execute_call_d16(ConditionType::C),
            0xDE => self.fetch_execute_sbc_r_d8(RegisterType::A),
            0xDF => self.execute_rst_0x18(FetchedData::empty()),
            _ => {},
        }
    }

    /// Executes one of the opcodes 0xE0 to 0xEF.
    fn execute_row_0xe(&mut self, op: u8)
        requires
            old(self).wf(),
            old(self).mem_ok(),
            0xE0 <= op <= 0xEF,
            opcode_defined(op),
        ensures
            row_0xe_post(op, *old(self), *final(self)),
            final(self).mem_ok(),
    {
        proof {
            reveal(fetch_readable);
        }
        match op {
            0xE0 => self.fetch_execute_ldh_a8_r(RegisterType::A),
            0xE1 => self.execute_pop(FetchedData { dest: DataDestination::Register(RegisterType::HL), source: DataSource::Immediate, value: 0 }),
            0xE2 => self.fetch_execute_ldh_mr_r(RegisterType::C, RegisterType::A),
            0xE5 => self.fetch_execute_push(RegisterType::HL),
            0xE6 => self.fetch_execute_and_r_d8(RegisterType::A),
            0xE7 => self.execute_rst_0x20(FetchedData::empty()),
            0xE8 => self.fetch_execute_add_sp_e8(),
            0xE9 => self.execute_jp_no_hl(),
            0xEA => self.fetch_execute_ld_a16_r(RegisterType::A),
            0xEE => self.fetch_execute_xor_r_d8(RegisterType::A),
            0xEF => self.execute_rst_0x28(FetchedData::empty()),
            _ => {},
        }
    }

    /// Executes one of the opcodes 0xF0 to 0xFF.
    fn execute_row_0xf(&mut self, op: u8)
        requires
            old(self).wf(),
            old(self).mem_ok(),
            0xF0 <= op <= 0xFF,
            opcode_defined(op),
        ensures
            row_0xf_post(op, *old(self), *final(self)),
            final(self).mem_ok(),
    {
        proof {
            reveal(fetch_readable);
        }
        match op {
            0xF0 => self.fetch_execute_ldh_r_ha8(RegisterType::A),
            0xF1 => self.execute_pop(FetchedData { dest: DataDestination::Register(RegisterType::AF), source: DataSource::Immediate, value: 0 }),
            0xF2 => self.fetch_execute_ldh_r_hmr(RegisterType::A, RegisterType::C),
            0xF3 => self.execute_di(),
            0xF5 => self.fetch_execute_push(RegisterType::AF),
            0xF6 => self.fetch_execute_or_r_d8(RegisterType::A),
            0xF7 => self.execute_rst_0x30(FetchedData::empty()),
            0xF8 => self.fetch_execute_ld_lh_spi8(),
            0xF9 => self.fetch_execute_ld_r_r(RegisterType::SP, RegisterType::HL),
            0xFA => self.fetch_execute_ld_r_a16(RegisterType::A),
            0xFB => self.execute_ei(),
            0xFE => self.fetch_execute_cp_r_d8(RegisterType::A),
            0xFF => self.execute_rst_0x38(FetchedData::empty()),
            _ => {},
        }
    }
}

} // verus!
