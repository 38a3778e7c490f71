use vk_rs::define::{SPV_MAGIC_NUMBER_LE, VK_SHADER_STAGE_FRAGMENT_BIT};
use vk_rs::handle::ShaderModule;
use vk_rs::shader::{check_spirv, shader_stage_create_info, spirv_from_bytes, SpirvError};

#[test]
fn little_endian_module_is_read_in_order() {
    let bytes = [0x03, 0x02, 0x23, 0x07, 0x78, 0x56, 0x34, 0x12];
    assert_eq!(check_spirv(&bytes), Ok(()));
    assert_eq!(spirv_from_bytes(&bytes), vec![SPV_MAGIC_NUMBER_LE, 0x1234_5678]);
}

#[test]
fn big_endian_module_is_swapped() {
    let bytes = [0x07, 0x23, 0x02, 0x03, 0x12, 0x34, 0x56, 0x78];
    assert_eq!(check_spirv(&bytes), Ok(()));
    assert_eq!(spirv_from_bytes(&bytes), vec![SPV_MAGIC_NUMBER_LE, 0x1234_5678]);
}

#[test]
fn byte_order_is_immaterial() {
    let words: Vec<u32> = vec![SPV_MAGIC_NUMBER_LE, 0, 1, 0xffff_ffff, 0x8000_0001];
    let little: Vec<u8> = words.iter().flat_map(|w| w.to_le_bytes()).collect();
    let big: Vec<u8> = words.iter().flat_map(|w| w.to_be_bytes()).collect();
    assert_eq!(spirv_from_bytes(&little), words);
    assert_eq!(spirv_from_bytes(&big), words);
}

#[test]
fn a_lone_magic_number_is_a_module() {
    assert_eq!(spirv_from_bytes(&[3, 2, 0x23, 7]), vec![0x0723_0203]);
}

#[test]
fn what_is_no_module_is_refused() {
    assert_eq!(check_spirv(&[3, 2, 0x23, 7, 0]), Err(SpirvError::Length));
    assert_eq!(check_spirv(&[3, 2, 0x23]), Err(SpirvError::Length));
    assert_eq!(check_spirv(&[]), Err(SpirvError::Empty));
    assert_eq!(check_spirv(&[0, 0, 0, 0]), Err(SpirvError::Magic));
    assert_eq!(check_spirv(&[2, 3, 7, 0x23]), Err(SpirvError::Magic));
}

#[test]
fn a_stage_starts_at_main() {
    let info = shader_stage_create_info(VK_SHADER_STAGE_FRAGMENT_BIT, ShaderModule { raw: 9 });
    assert_eq!(info.stage, 0x10);
    assert_eq!(info.module, ShaderModule { raw: 9 });
    assert_eq!(info.name, "main");
}
