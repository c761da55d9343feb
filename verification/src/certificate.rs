//! The certificate that 7 generates the field's multiplicative group: the
//! residues of the powers of 7 at `p - 1` and at `(p - 1) / q` for each
//! prime `q` that divides `p - 1 = 2^32 * 3 * 5 * 17 * 257 * 65537`.
//!
//! Each power is reached by a chain of squarings and products; every step
//! of a chain is one call of a lemma.

use vstd::prelude::*;
use crate::primitive_root::power_residue;
use crate::primitive_root::lemma_power_residue_first;
use crate::primitive_root::lemma_power_residue_squared;
use crate::primitive_root::lemma_power_residue_times;

verus! {

/// The first 31 squarings of 7: its power 2^31.
proof fn lemma_squarings_of_seven_low()
    ensures
        power_residue(7, 0x0000_0000_8000_0000, 0xffff_ffff_0000_0001) == 0xf132_3b7a_cab0_9084,
{
    lemma_power_residue_first(7, 0xffff_ffff_0000_0001);
    lemma_power_residue_squared(7, 0xffff_ffff_0000_0001, 0x0000_0000_0000_0001, 0x0000_0000_0000_0007);
    lemma_power_residue_squared(7, 0xffff_ffff_0000_0001, 0x0000_0000_0000_0002, 0x0000_0000_0000_0031);
    lemma_power_residue_squared(7, 0xffff_ffff_0000_0001, 0x0000_0000_0000_0004, 0x0000_0000_0000_0961);
    lemma_power_residue_squared(7, 0xffff_ffff_0000_0001, 0x0000_0000_0000_0008, 0x0000_0000_0057_f6c1);
    lemma_power_residue_squared(7, 0xffff_ffff_0000_0001, 0x0000_0000_0000_0010, 0x0000_1e39_a505_7d81);
    lemma_power_residue_squared(7, 0xffff_ffff_0000_0001, 0x0000_0000_0000_0020, 0x33cd_c300_6aff_ab59);
    lemma_power_residue_squared(7, 0xffff_ffff_0000_0001, 0x0000_0000_0000_0040, 0x9c23_2dfb_69ab_851e);
    lemma_power_residue_squared(7, 0xffff_ffff_0000_0001, 0x0000_0000_0000_0080, 0xa8c0_0422_5447_0173);
    lemma_power_residue_squared(7, 0xffff_ffff_0000_0001, 0x0000_0000_0000_0100, 0x1553_5ad6_9462_d090);
    lemma_power_residue_squared(7, 0xffff_ffff_0000_0001, 0x0000_0000_0000_0200, 0xfef4_5a86_9aab_8679);
    lemma_power_residue_squared(7, 0xffff_ffff_0000_0001, 0x0000_0000_0000_0400, 0x21be_ccb8_b6d8_f6fa);
    lemma_power_residue_squared(7, 0xffff_ffff_0000_0001, 0x0000_0000_0000_0800, 0x583c_f0d9_02a8_6abc);
    lemma_power_residue_squared(7, 0xffff_ffff_0000_0001, 0x0000_0000_0000_1000, 0x8bf1_2873_1ab1_a0b5);
    lemma_power_residue_squared(7, 0xffff_ffff_0000_0001, 0x0000_0000_0000_2000, 0xd17a_d58e_e893_a7d2);
    lemma_power_residue_squared(7, 0xffff_ffff_0000_0001, 0x0000_0000_0000_4000, 0xfaa3_79da_87a7_f914);
    lemma_power_residue_squared(7, 0xffff_ffff_0000_0001, 0x0000_0000_0000_8000, 0x9220_d622_d5cf_1603);
    lemma_power_residue_squared(7, 0xffff_ffff_0000_0001, 0x0000_0000_0001_0000, 0x9ad5_0a05_4da1_207f);
    lemma_power_residue_squared(7, 0xffff_ffff_0000_0001, 0x0000_0000_0002_0000, 0xa452_f750_dd9b_8a44);
    lemma_power_residue_squared(7, 0xffff_ffff_0000_0001, 0x0000_0000_0004_0000, 0x1415_f3b2_bce0_9454);
    lemma_power_residue_squared(7, 0xffff_ffff_0000_0001, 0x0000_0000_0008_0000, 0xd3db_3f11_768a_e838);
    lemma_power_residue_squared(7, 0xffff_ffff_0000_0001, 0x0000_0000_0010_0000, 0xb446_26e0_5edf_0086);
    lemma_power_residue_squared(7, 0xffff_ffff_0000_0001, 0x0000_0000_0020_0000, 0xe4de_14a4_047c_b0bf);
    lemma_power_residue_squared(7, 0xffff_ffff_0000_0001, 0x0000_0000_0040_0000, 0xf4d8_5bd7_e852_ec36);
    lemma_power_residue_squared(7, 0xffff_ffff_0000_0001, 0x0000_0000_0080_0000, 0x3d56_e129_7235_21fd);
    lemma_power_residue_squared(7, 0xffff_ffff_0000_0001, 0x0000_0000_0100_0000, 0x6402_e9b2_8e42_bfe3);
    lemma_power_residue_squared(7, 0xffff_ffff_0000_0001, 0x0000_0000_0200_0000, 0xf7fd_0e66_3289_5a3a);
    lemma_power_residue_squared(7, 0xffff_ffff_0000_0001, 0x0000_0000_0400_0000, 0x4444_7512_bd52_434a);
    lemma_power_residue_squared(7, 0xffff_ffff_0000_0001, 0x0000_0000_0800_0000, 0xc878_1611_02d0_f705);
    lemma_power_residue_squared(7, 0xffff_ffff_0000_0001, 0x0000_0000_1000_0000, 0xf52d_ac93_873e_b7ce);
    lemma_power_residue_squared(7, 0xffff_ffff_0000_0001, 0x0000_0000_2000_0000, 0x4bf5_4669_63dd_8aae);
    lemma_power_residue_squared(7, 0xffff_ffff_0000_0001, 0x0000_0000_4000_0000, 0x392e_c704_9f67_a8b5);
}

/// The next 16 squarings of 7: its powers 2^31 to 2^47.
proof fn lemma_squarings_of_seven_middle()
    ensures
        power_residue(7, 0x0000_0000_8000_0000, 0xffff_ffff_0000_0001) == 0xf132_3b7a_cab0_9084,
        power_residue(7, 0x0000_0001_0000_0000, 0xffff_ffff_0000_0001) == 0xaa5b_2509_f86b_b4d4,
        power_residue(7, 0x0000_0002_0000_0000, 0xffff_ffff_0000_0001) == 0x4202_6581_5f34_16fd,
        power_residue(7, 0x0000_0004_0000_0000, 0xffff_ffff_0000_0001) == 0x735a_2fcd_9a77_8a82,
        power_residue(7, 0x0000_0008_0000_0000, 0xffff_ffff_0000_0001) == 0x3330_c100_e58d_1cf5,
        power_residue(7, 0x0000_0010_0000_0000, 0xffff_ffff_0000_0001) == 0x5aad_d62a_e39d_63b6,
        power_residue(7, 0x0000_0020_0000_0000, 0xffff_ffff_0000_0001) == 0xa9e3_87de_c6c5_8c34,
        power_residue(7, 0x0000_0040_0000_0000, 0xffff_ffff_0000_0001) == 0x5eae_3c75_b470_a9fd,
        power_residue(7, 0x0000_0080_0000_0000, 0xffff_ffff_0000_0001) == 0xcc90_0292_2470_305d,
        power_residue(7, 0x0000_0100_0000_0000, 0xffff_ffff_0000_0001) == 0xc50a_c421_108a_c564,
        power_residue(7, 0x0000_0200_0000_0000, 0xffff_ffff_0000_0001) == 0xe337_2be9_840b_f885,
        power_residue(7, 0x0000_0400_0000_0000, 0xffff_ffff_0000_0001) == 0x5495_a82f_a4f8_d217,
        power_residue(7, 0x0000_0800_0000_0000, 0xffff_ffff_0000_0001) == 0xb268_f85e_9acf_4b4d,
        power_residue(7, 0x0000_1000_0000_0000, 0xffff_ffff_0000_0001) == 0x3f6c_070a_b738_94af,
        power_residue(7, 0x0000_2000_0000_0000, 0xffff_ffff_0000_0001) == 0xb8c1_2822_4dca_6f31,
        power_residue(7, 0x0000_4000_0000_0000, 0xffff_ffff_0000_0001) == 0xf5e1_47f3_c472_43f9,
        power_residue(7, 0x0000_8000_0000_0000, 0xffff_ffff_0000_0001) == 0x23cd_79d6_d2ec_282d,
{
    lemma_squarings_of_seven_low();
    lemma_power_residue_squared(7, 0xffff_ffff_0000_0001, 0x0000_0000_8000_0000, 0xf132_3b7a_cab0_9084);
    lemma_power_residue_squared(7, 0xffff_ffff_0000_0001, 0x0000_0001_0000_0000, 0xaa5b_2509_f86b_b4d4);
    lemma_power_residue_squared(7, 0xffff_ffff_0000_0001, 0x0000_0002_0000_0000, 0x4202_6581_5f34_16fd);
    lemma_power_residue_squared(7, 0xffff_ffff_0000_0001, 0x0000_0004_0000_0000, 0x735a_2fcd_9a77_8a82);
    lemma_power_residue_squared(7, 0xffff_ffff_0000_0001, 0x0000_0008_0000_0000, 0x3330_c100_e58d_1cf5);
    lemma_power_residue_squared(7, 0xffff_ffff_0000_0001, 0x0000_0010_0000_0000, 0x5aad_d62a_e39d_63b6);
    lemma_power_residue_squared(7, 0xffff_ffff_0000_0001, 0x0000_0020_0000_0000, 0xa9e3_87de_c6c5_8c34);
    lemma_power_residue_squared(7, 0xffff_ffff_0000_0001, 0x0000_0040_0000_0000, 0x5eae_3c75_b470_a9fd);
    lemma_power_residue_squared(7, 0xffff_ffff_0000_0001, 0x0000_0080_0000_0000, 0xcc90_0292_2470_305d);
    lemma_power_residue_squared(7, 0xffff_ffff_0000_0001, 0x0000_0100_0000_0000, 0xc50a_c421_108a_c564);
    lemma_power_residue_squared(7, 0xffff_ffff_0000_0001, 0x0000_0200_0000_0000, 0xe337_2be9_840b_f885);
    lemma_power_residue_squared(7, 0xffff_ffff_0000_0001, 0x0000_0400_0000_0000, 0x5495_a82f_a4f8_d217);
    lemma_power_residue_squared(7, 0xffff_ffff_0000_0001, 0x0000_0800_0000_0000, 0xb268_f85e_9acf_4b4d);
    lemma_power_residue_squared(7, 0xffff_ffff_0000_0001, 0x0000_1000_0000_0000, 0x3f6c_070a_b738_94af);
    lemma_power_residue_squared(7, 0xffff_ffff_0000_0001, 0x0000_2000_0000_0000, 0xb8c1_2822_4dca_6f31);
    lemma_power_residue_squared(7, 0xffff_ffff_0000_0001, 0x0000_4000_0000_0000, 0xf5e1_47f3_c472_43f9);
}

/// The last squarings of 7: its powers 2^47 to 2^62.
proof fn lemma_squarings_of_seven_high()
    ensures
        power_residue(7, 0x0000_8000_0000_0000, 0xffff_ffff_0000_0001) == 0x23cd_79d6_d2ec_282d,
        power_residue(7, 0x0001_0000_0000_0000, 0xffff_ffff_0000_0001) == 0x4e5f_29dc_ce8d_1acf,
        power_residue(7, 0x0002_0000_0000_0000, 0xffff_ffff_0000_0001) == 0x8bfd_885f_f03e_d0d2,
        power_residue(7, 0x0004_0000_0000_0000, 0xffff_ffff_0000_0001) == 0xbe33_18f2_3e55_78f2,
        power_residue(7, 0x0008_0000_0000_0000, 0xffff_ffff_0000_0001) == 0xdf59_9324_ad0d_db0b,
        power_residue(7, 0x0010_0000_0000_0000, 0xffff_ffff_0000_0001) == 0x0ba7_9322_8c1b_0989,
        power_residue(7, 0x0020_0000_0000_0000, 0xffff_ffff_0000_0001) == 0x0b3b_4355_970b_4752,
        power_residue(7, 0x0040_0000_0000_0000, 0xffff_ffff_0000_0001) == 0xefe1_1816_7a47_efc2,
        power_residue(7, 0x0080_0000_0000_0000, 0xffff_ffff_0000_0001) == 0xbcd7_b718_9348_4119,
        power_residue(7, 0x0100_0000_0000_0000, 0xffff_ffff_0000_0001) == 0x75e5_a9bd_b2c2_81d9,
        power_residue(7, 0x0200_0000_0000_0000, 0xffff_ffff_0000_0001) == 0x6b04_ea07_1921_117e,
        power_residue(7, 0x0400_0000_0000_0000, 0xffff_ffff_0000_0001) == 0xcb5c_2e5d_ddc5_7680,
        power_residue(7, 0x0800_0000_0000_0000, 0xffff_ffff_0000_0001) == 0x3dc1_0de1_bcba_7f4c,
        power_residue(7, 0x1000_0000_0000_0000, 0xffff_ffff_0000_0001) == 0xe78c_1482_47c6_c647,
        power_residue(7, 0x2000_0000_0000_0000, 0xffff_ffff_0000_0001) == 0x9650_2d2e_524b_f547,
        power_residue(7, 0x4000_0000_0000_0000, 0xffff_ffff_0000_0001) == 0x6fb9_9f67_38fb_276a,
{
    lemma_squarings_of_seven_middle();
    lemma_power_residue_squared(7, 0xffff_ffff_0000_0001, 0x0000_8000_0000_0000, 0x23cd_79d6_d2ec_282d);
    lemma_power_residue_squared(7, 0xffff_ffff_0000_0001, 0x0001_0000_0000_0000, 0x4e5f_29dc_ce8d_1acf);
    lemma_power_residue_squared(7, 0xffff_ffff_0000_0001, 0x0002_0000_0000_0000, 0x8bfd_885f_f03e_d0d2);
    lemma_power_residue_squared(7, 0xffff_ffff_0000_0001, 0x0004_0000_0000_0000, 0xbe33_18f2_3e55_78f2);
    lemma_power_residue_squared(7, 0xffff_ffff_0000_0001, 0x0008_0000_0000_0000, 0xdf59_9324_ad0d_db0b);
    lemma_power_residue_squared(7, 0xffff_ffff_0000_0001, 0x0010_0000_0000_0000, 0x0ba7_9322_8c1b_0989);
    lemma_power_residue_squared(7, 0xffff_ffff_0000_0001, 0x0020_0000_0000_0000, 0x0b3b_4355_970b_4752);
    lemma_power_residue_squared(7, 0xffff_ffff_0000_0001, 0x0040_0000_0000_0000, 0xefe1_1816_7a47_efc2);
    lemma_power_residue_squared(7, 0xffff_ffff_0000_0001, 0x0080_0000_0000_0000, 0xbcd7_b718_9348_4119);
    lemma_power_residue_squared(7, 0xffff_ffff_0000_0001, 0x0100_0000_0000_0000, 0x75e5_a9bd_b2c2_81d9);
    lemma_power_residue_squared(7, 0xffff_ffff_0000_0001, 0x0200_0000_0000_0000, 0x6b04_ea07_1921_117e);
    lemma_power_residue_squared(7, 0xffff_ffff_0000_0001, 0x0400_0000_0000_0000, 0xcb5c_2e5d_ddc5_7680);
    lemma_power_residue_squared(7, 0xffff_ffff_0000_0001, 0x0800_0000_0000_0000, 0x3dc1_0de1_bcba_7f4c);
    lemma_power_residue_squared(7, 0xffff_ffff_0000_0001, 0x1000_0000_0000_0000, 0xe78c_1482_47c6_c647);
    lemma_power_residue_squared(7, 0xffff_ffff_0000_0001, 0x2000_0000_0000_0000, 0x9650_2d2e_524b_f547);
}

/// The residues of 7 to the powers 2^31, 2^32, ..., 2^62.
pub proof fn lemma_squarings_of_seven()
    ensures
        power_residue(7, 0x0000_0000_8000_0000, 0xffff_ffff_0000_0001) == 0xf132_3b7a_cab0_9084,
        power_residue(7, 0x0000_0001_0000_0000, 0xffff_ffff_0000_0001) == 0xaa5b_2509_f86b_b4d4,
        power_residue(7, 0x0000_0002_0000_0000, 0xffff_ffff_0000_0001) == 0x4202_6581_5f34_16fd,
        power_residue(7, 0x0000_0004_0000_0000, 0xffff_ffff_0000_0001) == 0x735a_2fcd_9a77_8a82,
        power_residue(7, 0x0000_0008_0000_0000, 0xffff_ffff_0000_0001) == 0x3330_c100_e58d_1cf5,
        power_residue(7, 0x0000_0010_0000_0000, 0xffff_ffff_0000_0001) == 0x5aad_d62a_e39d_63b6,
        power_residue(7, 0x0000_0020_0000_0000, 0xffff_ffff_0000_0001) == 0xa9e3_87de_c6c5_8c34,
        power_residue(7, 0x0000_0040_0000_0000, 0xffff_ffff_0000_0001) == 0x5eae_3c75_b470_a9fd,
        power_residue(7, 0x0000_0080_0000_0000, 0xffff_ffff_0000_0001) == 0xcc90_0292_2470_305d,
        power_residue(7, 0x0000_0100_0000_0000, 0xffff_ffff_0000_0001) == 0xc50a_c421_108a_c564,
        power_residue(7, 0x0000_0200_0000_0000, 0xffff_ffff_0000_0001) == 0xe337_2be9_840b_f885,
        power_residue(7, 0x0000_0400_0000_0000, 0xffff_ffff_0000_0001) == 0x5495_a82f_a4f8_d217,
        power_residue(7, 0x0000_0800_0000_0000, 0xffff_ffff_0000_0001) == 0xb268_f85e_9acf_4b4d,
        power_residue(7, 0x0000_1000_0000_0000, 0xffff_ffff_0000_0001) == 0x3f6c_070a_b738_94af,
        power_residue(7, 0x0000_2000_0000_0000, 0xffff_ffff_0000_0001) == 0xb8c1_2822_4dca_6f31,
        power_residue(7, 0x0000_4000_0000_0000, 0xffff_ffff_0000_0001) == 0xf5e1_47f3_c472_43f9,
        power_residue(7, 0x0000_8000_0000_0000, 0xffff_ffff_0000_0001) == 0x23cd_79d6_d2ec_282d,
        power_residue(7, 0x0001_0000_0000_0000, 0xffff_ffff_0000_0001) == 0x4e5f_29dc_ce8d_1acf,
        power_residue(7, 0x0002_0000_0000_0000, 0xffff_ffff_0000_0001) == 0x8bfd_885f_f03e_d0d2,
        power_residue(7, 0x0004_0000_0000_0000, 0xffff_ffff_0000_0001) == 0xbe33_18f2_3e55_78f2,
        power_residue(7, 0x0008_0000_0000_0000, 0xffff_ffff_0000_0001) == 0xdf59_9324_ad0d_db0b,
        power_residue(7, 0x0010_0000_0000_0000, 0xffff_ffff_0000_0001) == 0x0ba7_9322_8c1b_0989,
        power_residue(7, 0x0020_0000_0000_0000, 0xffff_ffff_0000_0001) == 0x0b3b_4355_970b_4752,
        power_residue(7, 0x0040_0000_0000_0000, 0xffff_ffff_0000_0001) == 0xefe1_1816_7a47_efc2,
        power_residue(7, 0x0080_0000_0000_0000, 0xffff_ffff_0000_0001) == 0xbcd7_b718_9348_4119,
        power_residue(7, 0x0100_0000_0000_0000, 0xffff_ffff_0000_0001) == 0x75e5_a9bd_b2c2_81d9,
        power_residue(7, 0x0200_0000_0000_0000, 0xffff_ffff_0000_0001) == 0x6b04_ea07_1921_117e,
        power_residue(7, 0x0400_0000_0000_0000, 0xffff_ffff_0000_0001) == 0xcb5c_2e5d_ddc5_7680,
        power_residue(7, 0x0800_0000_0000_0000, 0xffff_ffff_0000_0001) == 0x3dc1_0de1_bcba_7f4c,
        power_residue(7, 0x1000_0000_0000_0000, 0xffff_ffff_0000_0001) == 0xe78c_1482_47c6_c647,
        power_residue(7, 0x2000_0000_0000_0000, 0xffff_ffff_0000_0001) == 0x9650_2d2e_524b_f547,
        power_residue(7, 0x4000_0000_0000_0000, 0xffff_ffff_0000_0001) == 0x6fb9_9f67_38fb_276a,
{
    lemma_squarings_of_seven_middle();
    lemma_squarings_of_seven_high();
}

/// The residue of 7 to the power `(p - 1) / 2`, which is not one.
pub proof fn lemma_power_at_half()
    ensures
        power_residue(7, 0x7fff_ffff_8000_0000, 0xffff_ffff_0000_0001) == 0xffff_ffff_0000_0000,
{
    lemma_squarings_of_seven();
    lemma_power_residue_times(7, 0xffff_ffff_0000_0001, 0x0000_0000_8000_0000, 0xf132_3b7a_cab0_9084, 0x0000_0001_0000_0000, 0xaa5b_2509_f86b_b4d4);
    lemma_power_residue_times(7, 0xffff_ffff_0000_0001, 0x0000_0001_8000_0000, 0xe2c7_cbf7_4fd4_fabc, 0x0000_0002_0000_0000, 0x4202_6581_5f34_16fd);
    lemma_power_residue_times(7, 0xffff_ffff_0000_0001, 0x0000_0003_8000_0000, 0xf78e_c55f_e1be_25ac, 0x0000_0004_0000_0000, 0x735a_2fcd_9a77_8a82);
    lemma_power_residue_times(7, 0xffff_ffff_0000_0001, 0x0000_0007_8000_0000, 0xc9f8_e732_2f37_943a, 0x0000_0008_0000_0000, 0x3330_c100_e58d_1cf5);
    lemma_power_residue_times(7, 0xffff_ffff_0000_0001, 0x0000_000f_8000_0000, 0xb337_f1b0_edbd_6837, 0x0000_0010_0000_0000, 0x5aad_d62a_e39d_63b6);
    lemma_power_residue_times(7, 0xffff_ffff_0000_0001, 0x0000_001f_8000_0000, 0x949f_ab23_607f_6692, 0x0000_0020_0000_0000, 0xa9e3_87de_c6c5_8c34);
    lemma_power_residue_times(7, 0xffff_ffff_0000_0001, 0x0000_003f_8000_0000, 0x6818_c2d0_1982_4257, 0x0000_0040_0000_0000, 0x5eae_3c75_b470_a9fd);
    lemma_power_residue_times(7, 0xffff_ffff_0000_0001, 0x0000_007f_8000_0000, 0x7c6d_90ce_c1ee_db1f, 0x0000_0080_0000_0000, 0xcc90_0292_2470_305d);
    lemma_power_residue_times(7, 0xffff_ffff_0000_0001, 0x0000_00ff_8000_0000, 0xb439_94aa_f8d2_8bc9, 0x0000_0100_0000_0000, 0xc50a_c421_108a_c564);
    lemma_power_residue_times(7, 0xffff_ffff_0000_0001, 0x0000_01ff_8000_0000, 0xafac_f108_da66_4a28, 0x0000_0200_0000_0000, 0xe337_2be9_840b_f885);
    lemma_power_residue_times(7, 0xffff_ffff_0000_0001, 0x0000_03ff_8000_0000, 0x048f_04f0_d4b6_3008, 0x0000_0400_0000_0000, 0x5495_a82f_a4f8_d217);
    lemma_power_residue_times(7, 0xffff_ffff_0000_0001, 0x0000_07ff_8000_0000, 0x9881_6feb_9b9b_b1cd, 0x0000_0800_0000_0000, 0xb268_f85e_9acf_4b4d);
    lemma_power_residue_times(7, 0xffff_ffff_0000_0001, 0x0000_0fff_8000_0000, 0xcc9f_388f_0d4f_d651, 0x0000_1000_0000_0000, 0x3f6c_070a_b738_94af);
    lemma_power_residue_times(7, 0xffff_ffff_0000_0001, 0x0000_1fff_8000_0000, 0x9857_5cca_dba9_602d, 0x0000_2000_0000_0000, 0xb8c1_2822_4dca_6f31);
    lemma_power_residue_times(7, 0xffff_ffff_0000_0001, 0x0000_3fff_8000_0000, 0x96c0_e6b7_a779_1414, 0x0000_4000_0000_0000, 0xf5e1_47f3_c472_43f9);
    lemma_power_residue_times(7, 0xffff_ffff_0000_0001, 0x0000_7fff_8000_0000, 0x658f_57b6_adaa_80c2, 0x0000_8000_0000_0000, 0x23cd_79d6_d2ec_282d);
    lemma_power_residue_times(7, 0xffff_ffff_0000_0001, 0x0000_ffff_8000_0000, 0x8c7f_932f_c2bd_8306, 0x0001_0000_0000_0000, 0x4e5f_29dc_ce8d_1acf);
    lemma_power_residue_times(7, 0xffff_ffff_0000_0001, 0x0001_ffff_8000_0000, 0x01d0_6d43_c036_35ca, 0x0002_0000_0000_0000, 0x8bfd_885f_f03e_d0d2);
    lemma_power_residue_times(7, 0xffff_ffff_0000_0001, 0x0003_ffff_8000_0000, 0xf51a_1ab0_f0af_8100, 0x0004_0000_0000_0000, 0xbe33_18f2_3e55_78f2);
    lemma_power_residue_times(7, 0xffff_ffff_0000_0001, 0x0007_ffff_8000_0000, 0x57f8_b80e_e487_77a5, 0x0008_0000_0000_0000, 0xdf59_9324_ad0d_db0b);
    lemma_power_residue_times(7, 0xffff_ffff_0000_0001, 0x000f_ffff_8000_0000, 0x98d5_19fe_9a6b_1fce, 0x0010_0000_0000_0000, 0x0ba7_9322_8c1b_0989);
    lemma_power_residue_times(7, 0xffff_ffff_0000_0001, 0x001f_ffff_8000_0000, 0xc4b9_e9d8_7f9e_6528, 0x0020_0000_0000_0000, 0x0b3b_4355_970b_4752);
    lemma_power_residue_times(7, 0xffff_ffff_0000_0001, 0x003f_ffff_8000_0000, 0xcfa6_c45b_167f_1d50, 0x0040_0000_0000_0000, 0xefe1_1816_7a47_efc2);
    lemma_power_residue_times(7, 0xffff_ffff_0000_0001, 0x007f_ffff_8000_0000, 0xb4a6_5c73_bb51_f0df, 0x0080_0000_0000_0000, 0xbcd7_b718_9348_4119);
    lemma_power_residue_times(7, 0xffff_ffff_0000_0001, 0x00ff_ffff_8000_0000, 0x6f5c_8c66_793e_57b0, 0x0100_0000_0000_0000, 0x75e5_a9bd_b2c2_81d9);
    lemma_power_residue_times(7, 0xffff_ffff_0000_0001, 0x01ff_ffff_8000_0000, 0x445c_03e2_c544_999e, 0x0200_0000_0000_0000, 0x6b04_ea07_1921_117e);
    lemma_power_residue_times(7, 0xffff_ffff_0000_0001, 0x03ff_ffff_8000_0000, 0xc993_ae94_ebfb_5e82, 0x0400_0000_0000_0000, 0xcb5c_2e5d_ddc5_7680);
    lemma_power_residue_times(7, 0xffff_ffff_0000_0001, 0x07ff_ffff_8000_0000, 0xfdf0_83ec_e7de_3189, 0x0800_0000_0000_0000, 0x3dc1_0de1_bcba_7f4c);
    lemma_power_residue_times(7, 0xffff_ffff_0000_0001, 0x0fff_ffff_8000_0000, 0xa47f_2ecb_61aa_80ee, 0x1000_0000_0000_0000, 0xe78c_1482_47c6_c647);
    lemma_power_residue_times(7, 0xffff_ffff_0000_0001, 0x1fff_ffff_8000_0000, 0x8862_16ad_5896_25cf, 0x2000_0000_0000_0000, 0x9650_2d2e_524b_f547);
    lemma_power_residue_times(7, 0xffff_ffff_0000_0001, 0x3fff_ffff_8000_0000, 0xdbe9_819c_c1dc_4ff0, 0x4000_0000_0000_0000, 0x6fb9_9f67_38fb_276a);
}

/// The residue of 7 to the power `(p - 1) / 3`, which is not one.
pub proof fn lemma_power_at_third()
    ensures
        power_residue(7, 0x5555_5555_0000_0000, 0xffff_ffff_0000_0001) == 0xffff_fffe_0000_0001,
{
    lemma_squarings_of_seven();
    lemma_power_residue_times(7, 0xffff_ffff_0000_0001, 0x0000_0001_0000_0000, 0xaa5b_2509_f86b_b4d4, 0x0000_0004_0000_0000, 0x735a_2fcd_9a77_8a82);
    lemma_power_residue_times(7, 0xffff_ffff_0000_0001, 0x0000_0005_0000_0000, 0x6bfb_c418_7247_8fa8, 0x0000_0010_0000_0000, 0x5aad_d62a_e39d_63b6);
    lemma_power_residue_times(7, 0xffff_ffff_0000_0001, 0x0000_0015_0000_0000, 0x7272_0a27_2d46_a246, 0x0000_0040_0000_0000, 0x5eae_3c75_b470_a9fd);
    lemma_power_residue_times(7, 0xffff_ffff_0000_0001, 0x0000_0055_0000_0000, 0x41b1_05bb_c9cf_bbc7, 0x0000_0100_0000_0000, 0xc50a_c421_108a_c564);
    lemma_power_residue_times(7, 0xffff_ffff_0000_0001, 0x0000_0155_0000_0000, 0xfed0_03ca_6744_9250, 0x0000_0400_0000_0000, 0x5495_a82f_a4f8_d217);
    lemma_power_residue_times(7, 0xffff_ffff_0000_0001, 0x0000_0555_0000_0000, 0xc9c6_c2a5_a2ea_7f90, 0x0000_1000_0000_0000, 0x3f6c_070a_b738_94af);
    lemma_power_residue_times(7, 0xffff_ffff_0000_0001, 0x0000_1555_0000_0000, 0x9cf6_4193_d317_2414, 0x0000_4000_0000_0000, 0xf5e1_47f3_c472_43f9);
    lemma_power_residue_times(7, 0xffff_ffff_0000_0001, 0x0000_5555_0000_0000, 0x0202_8136_4bc5_00de, 0x0001_0000_0000_0000, 0x4e5f_29dc_ce8d_1acf);
    lemma_power_residue_times(7, 0xffff_ffff_0000_0001, 0x0001_5555_0000_0000, 0xfe8c_8e4f_c356_bc27, 0x0004_0000_0000_0000, 0xbe33_18f2_3e55_78f2);
    lemma_power_residue_times(7, 0xffff_ffff_0000_0001, 0x0005_5555_0000_0000, 0xe5d4_a039_e4f4_b169, 0x0010_0000_0000_0000, 0x0ba7_9322_8c1b_0989);
    lemma_power_residue_times(7, 0xffff_ffff_0000_0001, 0x0015_5555_0000_0000, 0x4f3c_8cd2_1a2a_1a7e, 0x0040_0000_0000_0000, 0xefe1_1816_7a47_efc2);
    lemma_power_residue_times(7, 0xffff_ffff_0000_0001, 0x0055_5555_0000_0000, 0x6c47_8021_afff_48fc, 0x0100_0000_0000_0000, 0x75e5_a9bd_b2c2_81d9);
    lemma_power_residue_times(7, 0xffff_ffff_0000_0001, 0x0155_5555_0000_0000, 0xb5b4_a275_b4b8_1a54, 0x0400_0000_0000_0000, 0xcb5c_2e5d_ddc5_7680);
    lemma_power_residue_times(7, 0xffff_ffff_0000_0001, 0x0555_5555_0000_0000, 0x5a6b_57b3_a0a8_04b7, 0x1000_0000_0000_0000, 0xe78c_1482_47c6_c647);
    lemma_power_residue_times(7, 0xffff_ffff_0000_0001, 0x1555_5555_0000_0000, 0x9dc5_d18c_2416_7e63, 0x4000_0000_0000_0000, 0x6fb9_9f67_38fb_276a);
}

/// The residue of 7 to the power `(p - 1) / 5`, which is not one.
pub proof fn lemma_power_at_fifth()
    ensures
        power_residue(7, 0x3333_3333_0000_0000, 0xffff_ffff_0000_0001) == 0x130e_0794_8a9d_41d6,
{
    lemma_squarings_of_seven();
    lemma_power_residue_times(7, 0xffff_ffff_0000_0001, 0x0000_0001_0000_0000, 0xaa5b_2509_f86b_b4d4, 0x0000_0002_0000_0000, 0x4202_6581_5f34_16fd);
    lemma_power_residue_times(7, 0xffff_ffff_0000_0001, 0x0000_0003_0000_0000, 0x11c3_7210_161a_0aa8, 0x0000_0010_0000_0000, 0x5aad_d62a_e39d_63b6);
    lemma_power_residue_times(7, 0xffff_ffff_0000_0001, 0x0000_0013_0000_0000, 0x2e15_9f59_2b86_4b04, 0x0000_0020_0000_0000, 0xa9e3_87de_c6c5_8c34);
    lemma_power_residue_times(7, 0xffff_ffff_0000_0001, 0x0000_0033_0000_0000, 0x2abf_65c0_506e_72fb, 0x0000_0100_0000_0000, 0xc50a_c421_108a_c564);
    lemma_power_residue_times(7, 0xffff_ffff_0000_0001, 0x0000_0133_0000_0000, 0x7494_9ec1_ed48_5adc, 0x0000_0200_0000_0000, 0xe337_2be9_840b_f885);
    lemma_power_residue_times(7, 0xffff_ffff_0000_0001, 0x0000_0333_0000_0000, 0x7234_c9b2_ef75_21b5, 0x0000_1000_0000_0000, 0x3f6c_070a_b738_94af);
    lemma_power_residue_times(7, 0xffff_ffff_0000_0001, 0x0000_1333_0000_0000, 0x4a99_4cd9_b51f_e760, 0x0000_2000_0000_0000, 0xb8c1_2822_4dca_6f31);
    lemma_power_residue_times(7, 0xffff_ffff_0000_0001, 0x0000_3333_0000_0000, 0xb60b_27c4_5efd_a2d3, 0x0001_0000_0000_0000, 0x4e5f_29dc_ce8d_1acf);
    lemma_power_residue_times(7, 0xffff_ffff_0000_0001, 0x0001_3333_0000_0000, 0x9ca6_b563_6d75_8bae, 0x0002_0000_0000_0000, 0x8bfd_885f_f03e_d0d2);
    lemma_power_residue_times(7, 0xffff_ffff_0000_0001, 0x0003_3333_0000_0000, 0x338c_6bbf_6575_6fc7, 0x0010_0000_0000_0000, 0x0ba7_9322_8c1b_0989);
    lemma_power_residue_times(7, 0xffff_ffff_0000_0001, 0x0013_3333_0000_0000, 0x0927_1cae_ee78_5ae4, 0x0020_0000_0000_0000, 0x0b3b_4355_970b_4752);
    lemma_power_residue_times(7, 0xffff_ffff_0000_0001, 0x0033_3333_0000_0000, 0x0a69_b3f1_bab2_a317, 0x0100_0000_0000_0000, 0x75e5_a9bd_b2c2_81d9);
    lemma_power_residue_times(7, 0xffff_ffff_0000_0001, 0x0133_3333_0000_0000, 0xa30f_1b47_e593_b240, 0x0200_0000_0000_0000, 0x6b04_ea07_1921_117e);
    lemma_power_residue_times(7, 0xffff_ffff_0000_0001, 0x0333_3333_0000_0000, 0x6b56_ea33_f52e_376c, 0x1000_0000_0000_0000, 0xe78c_1482_47c6_c647);
    lemma_power_residue_times(7, 0xffff_ffff_0000_0001, 0x1333_3333_0000_0000, 0xcd79_6622_cdf2_835b, 0x2000_0000_0000_0000, 0x9650_2d2e_524b_f547);
}

/// The residue of 7 to the power `(p - 1) / 17`, which is not one.
pub proof fn lemma_power_at_seventeenth()
    ensures
        power_residue(7, 0x0f0f_0f0f_0000_0000, 0xffff_ffff_0000_0001) == 0xe23a_e4f9_49f9_787a,
{
    lemma_squarings_of_seven();
    lemma_power_residue_times(7, 0xffff_ffff_0000_0001, 0x0000_0001_0000_0000, 0xaa5b_2509_f86b_b4d4, 0x0000_0002_0000_0000, 0x4202_6581_5f34_16fd);
    lemma_power_residue_times(7, 0xffff_ffff_0000_0001, 0x0000_0003_0000_0000, 0x11c3_7210_161a_0aa8, 0x0000_0004_0000_0000, 0x735a_2fcd_9a77_8a82);
    lemma_power_residue_times(7, 0xffff_ffff_0000_0001, 0x0000_0007_0000_0000, 0x3f22_8a16_c54e_4a16, 0x0000_0008_0000_0000, 0x3330_c100_e58d_1cf5);
    lemma_power_residue_times(7, 0xffff_ffff_0000_0001, 0x0000_000f_0000_0000, 0x9c78_64a4_2339_f298, 0x0000_0100_0000_0000, 0xc50a_c421_108a_c564);
    lemma_power_residue_times(7, 0xffff_ffff_0000_0001, 0x0000_010f_0000_0000, 0x4180_d520_879e_8d70, 0x0000_0200_0000_0000, 0xe337_2be9_840b_f885);
    lemma_power_residue_times(7, 0xffff_ffff_0000_0001, 0x0000_030f_0000_0000, 0x8ef1_06d7_a1f9_f668, 0x0000_0400_0000_0000, 0x5495_a82f_a4f8_d217);
    lemma_power_residue_times(7, 0xffff_ffff_0000_0001, 0x0000_070f_0000_0000, 0x2890_6fc0_3b99_667f, 0x0000_0800_0000_0000, 0xb268_f85e_9acf_4b4d);
    lemma_power_residue_times(7, 0xffff_ffff_0000_0001, 0x0000_0f0f_0000_0000, 0xed0b_ef76_0f3b_1b9d, 0x0001_0000_0000_0000, 0x4e5f_29dc_ce8d_1acf);
    lemma_power_residue_times(7, 0xffff_ffff_0000_0001, 0x0001_0f0f_0000_0000, 0x9f0d_1009_602e_e677, 0x0002_0000_0000_0000, 0x8bfd_885f_f03e_d0d2);
    lemma_power_residue_times(7, 0xffff_ffff_0000_0001, 0x0003_0f0f_0000_0000, 0x3ac0_816a_8f73_6746, 0x0004_0000_0000_0000, 0xbe33_18f2_3e55_78f2);
    lemma_power_residue_times(7, 0xffff_ffff_0000_0001, 0x0007_0f0f_0000_0000, 0x0498_da50_42fb_0a35, 0x0008_0000_0000_0000, 0xdf59_9324_ad0d_db0b);
    lemma_power_residue_times(7, 0xffff_ffff_0000_0001, 0x000f_0f0f_0000_0000, 0xd078_41fc_b5fc_b92f, 0x0100_0000_0000_0000, 0x75e5_a9bd_b2c2_81d9);
    lemma_power_residue_times(7, 0xffff_ffff_0000_0001, 0x010f_0f0f_0000_0000, 0xbf41_820e_dbff_d1b7, 0x0200_0000_0000_0000, 0x6b04_ea07_1921_117e);
    lemma_power_residue_times(7, 0xffff_ffff_0000_0001, 0x030f_0f0f_0000_0000, 0xbd74_f3be_6fd7_b77c, 0x0400_0000_0000_0000, 0xcb5c_2e5d_ddc5_7680);
    lemma_power_residue_times(7, 0xffff_ffff_0000_0001, 0x070f_0f0f_0000_0000, 0x5a5b_fea0_ebd1_d2f6, 0x0800_0000_0000_0000, 0x3dc1_0de1_bcba_7f4c);
}

/// The residue of 7 to the power `(p - 1) / 257`, which is not one.
pub proof fn lemma_power_at_part_257()
    ensures
        power_residue(7, 0x00ff_00ff_0000_0000, 0xffff_ffff_0000_0001) == 0x0dcf_40d2_9487_36a7,
{
    lemma_squarings_of_seven();
    lemma_power_residue_times(7, 0xffff_ffff_0000_0001, 0x0000_0001_0000_0000, 0xaa5b_2509_f86b_b4d4, 0x0000_0002_0000_0000, 0x4202_6581_5f34_16fd);
    lemma_power_residue_times(7, 0xffff_ffff_0000_0001, 0x0000_0003_0000_0000, 0x11c3_7210_161a_0aa8, 0x0000_0004_0000_0000, 0x735a_2fcd_9a77_8a82);
    lemma_power_residue_times(7, 0xffff_ffff_0000_0001, 0x0000_0007_0000_0000, 0x3f22_8a16_c54e_4a16, 0x0000_0008_0000_0000, 0x3330_c100_e58d_1cf5);
    lemma_power_residue_times(7, 0xffff_ffff_0000_0001, 0x0000_000f_0000_0000, 0x9c78_64a4_2339_f298, 0x0000_0010_0000_0000, 0x5aad_d62a_e39d_63b6);
    lemma_power_residue_times(7, 0xffff_ffff_0000_0001, 0x0000_001f_0000_0000, 0x3bbc_b9be_397f_d294, 0x0000_0020_0000_0000, 0xa9e3_87de_c6c5_8c34);
    lemma_power_residue_times(7, 0xffff_ffff_0000_0001, 0x0000_003f_0000_0000, 0xe386_58e7_27be_3526, 0x0000_0040_0000_0000, 0x5eae_3c75_b470_a9fd);
    lemma_power_residue_times(7, 0xffff_ffff_0000_0001, 0x0000_007f_0000_0000, 0x3311_0ac2_153a_2abd, 0x0000_0080_0000_0000, 0xcc90_0292_2470_305d);
    lemma_power_residue_times(7, 0xffff_ffff_0000_0001, 0x0000_00ff_0000_0000, 0xf415_55f9_bcdd_efbf, 0x0001_0000_0000_0000, 0x4e5f_29dc_ce8d_1acf);
    lemma_power_residue_times(7, 0xffff_ffff_0000_0001, 0x0001_00ff_0000_0000, 0xcdc7_6a2e_c404_b9a6, 0x0002_0000_0000_0000, 0x8bfd_885f_f03e_d0d2);
    lemma_power_residue_times(7, 0xffff_ffff_0000_0001, 0x0003_00ff_0000_0000, 0xa18f_1012_6537_1d2a, 0x0004_0000_0000_0000, 0xbe33_18f2_3e55_78f2);
    lemma_power_residue_times(7, 0xffff_ffff_0000_0001, 0x0007_00ff_0000_0000, 0x8c76_da1e_c1d0_414f, 0x0008_0000_0000_0000, 0xdf59_9324_ad0d_db0b);
    lemma_power_residue_times(7, 0xffff_ffff_0000_0001, 0x000f_00ff_0000_0000, 0xeced_da77_b6d7_a9cf, 0x0010_0000_0000_0000, 0x0ba7_9322_8c1b_0989);
    lemma_power_residue_times(7, 0xffff_ffff_0000_0001, 0x001f_00ff_0000_0000, 0xab6e_29da_49c5_70cc, 0x0020_0000_0000_0000, 0x0b3b_4355_970b_4752);
    lemma_power_residue_times(7, 0xffff_ffff_0000_0001, 0x003f_00ff_0000_0000, 0x1f09_7672_5c9d_3ec0, 0x0040_0000_0000_0000, 0xefe1_1816_7a47_efc2);
    lemma_power_residue_times(7, 0xffff_ffff_0000_0001, 0x007f_00ff_0000_0000, 0x4a78_e094_4b31_583f, 0x0080_0000_0000_0000, 0xbcd7_b718_9348_4119);
}

/// The residue of 7 to the power `(p - 1) / 65537`, which is not one.
pub proof fn lemma_power_at_part_65537()
    ensures
        power_residue(7, 0x0000_ffff_0000_0000, 0xffff_ffff_0000_0001) == 0x75ab_0de7_0cf3_ed11,
{
    lemma_squarings_of_seven();
    lemma_power_residue_times(7, 0xffff_ffff_0000_0001, 0x0000_0001_0000_0000, 0xaa5b_2509_f86b_b4d4, 0x0000_0002_0000_0000, 0x4202_6581_5f34_16fd);
    lemma_power_residue_times(7, 0xffff_ffff_0000_0001, 0x0000_0003_0000_0000, 0x11c3_7210_161a_0aa8, 0x0000_0004_0000_0000, 0x735a_2fcd_9a77_8a82);
    lemma_power_residue_times(7, 0xffff_ffff_0000_0001, 0x0000_0007_0000_0000, 0x3f22_8a16_c54e_4a16, 0x0000_0008_0000_0000, 0x3330_c100_e58d_1cf5);
    lemma_power_residue_times(7, 0xffff_ffff_0000_0001, 0x0000_000f_0000_0000, 0x9c78_64a4_2339_f298, 0x0000_0010_0000_0000, 0x5aad_d62a_e39d_63b6);
    lemma_power_residue_times(7, 0xffff_ffff_0000_0001, 0x0000_001f_0000_0000, 0x3bbc_b9be_397f_d294, 0x0000_0020_0000_0000, 0xa9e3_87de_c6c5_8c34);
    lemma_power_residue_times(7, 0xffff_ffff_0000_0001, 0x0000_003f_0000_0000, 0xe386_58e7_27be_3526, 0x0000_0040_0000_0000, 0x5eae_3c75_b470_a9fd);
    lemma_power_residue_times(7, 0xffff_ffff_0000_0001, 0x0000_007f_0000_0000, 0x3311_0ac2_153a_2abd, 0x0000_0080_0000_0000, 0xcc90_0292_2470_305d);
    lemma_power_residue_times(7, 0xffff_ffff_0000_0001, 0x0000_00ff_0000_0000, 0xf415_55f9_bcdd_efbf, 0x0000_0100_0000_0000, 0xc50a_c421_108a_c564);
    lemma_power_residue_times(7, 0xffff_ffff_0000_0001, 0x0000_01ff_0000_0000, 0xbafd_af29_9ad5_d996, 0x0000_0200_0000_0000, 0xe337_2be9_840b_f885);
    lemma_power_residue_times(7, 0xffff_ffff_0000_0001, 0x0000_03ff_0000_0000, 0x2f85_5003_f35e_4188, 0x0000_0400_0000_0000, 0x5495_a82f_a4f8_d217);
    lemma_power_residue_times(7, 0xffff_ffff_0000_0001, 0x0000_07ff_0000_0000, 0x2c94_4e74_8882_79f3, 0x0000_0800_0000_0000, 0xb268_f85e_9acf_4b4d);
    lemma_power_residue_times(7, 0xffff_ffff_0000_0001, 0x0000_0fff_0000_0000, 0x7861_fc30_e7b7_47fb, 0x0000_1000_0000_0000, 0x3f6c_070a_b738_94af);
    lemma_power_residue_times(7, 0xffff_ffff_0000_0001, 0x0000_1fff_0000_0000, 0x69ac_bfa7_4472_b3f6, 0x0000_2000_0000_0000, 0xb8c1_2822_4dca_6f31);
    lemma_power_residue_times(7, 0xffff_ffff_0000_0001, 0x0000_3fff_0000_0000, 0x07da_3796_aa87_0df2, 0x0000_4000_0000_0000, 0xf5e1_47f3_c472_43f9);
    lemma_power_residue_times(7, 0xffff_ffff_0000_0001, 0x0000_7fff_0000_0000, 0x1669_73e1_a008_e402, 0x0000_8000_0000_0000, 0x23cd_79d6_d2ec_282d);
}

/// The residue of 7 to the power `p - 1`, which is one.
pub proof fn lemma_power_at_whole()
    ensures
        power_residue(7, 0xffff_ffff_0000_0000, 0xffff_ffff_0000_0001) == 1,
{
    lemma_power_at_half();
    lemma_power_residue_squared(7, 0xffff_ffff_0000_0001, 0x7fff_ffff_8000_0000, 0xffff_ffff_0000_0000);
}

} // verus!
