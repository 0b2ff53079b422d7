//! A rhythm machine playing the drum patterns of Mutable Instruments' Grids.
use crate::machine::Machine;
use crate::machine_resources::MachineResources;
use crate::param::{params_of, Param, ParamList, ParamValue};
use crate::part::StepMask;
use crate::storage::{mask_as_slice, mask_contents, mask_new, mask_push, param_list_get, param_list_new, param_list_push};
use crate::{masked_steps, Sequence, Step};
use vstd::prelude::*;
use vstd::std_specs::convert::TryFromSpecImpl;

verus! {

pub const GRIDS_PATTERN_LUT_0: [u8; 96] = [
    255,   0,   0,   0,   0,   0, 145,   0,
      0,   0,   0,   0, 218,   0,   0,   0,
     72,   0,  36,   0, 182,   0,   0,   0,
    109,   0,   0,   0,  72,   0,   0,   0,
     36,   0, 109,   0,   0,   0,   8,   0,
    255,   0,   0,   0,   0,   0,  72,   0,
      0,   0, 182,   0,   0,   0,  36,   0,
    218,   0,   0,   0, 145,   0,   0,   0,
    170,   0, 113,   0, 255,   0,  56,   0,
    170,   0, 141,   0, 198,   0,  56,   0,
    170,   0, 113,   0, 226,   0,  28,   0,
    170,   0, 113,   0, 198,   0,  85,   0,
];

pub const GRIDS_PATTERN_LUT_1: [u8; 96] = [
    229,   0,  25,   0, 102,   0,  25,   0,
    204,   0,  25,   0,  76,   0,   8,   0,
    255,   0,   8,   0,  51,   0,  25,   0,
    178,   0,  25,   0, 153,   0, 127,   0,
     28,   0, 198,   0,  56,   0,  56,   0,
    226,   0,  28,   0, 141,   0,  28,   0,
     28,   0, 170,   0,  28,   0,  28,   0,
    255,   0, 113,   0,  85,   0,  85,   0,
    159,   0, 159,   0, 255,   0,  63,   0,
    159,   0, 159,   0, 191,   0,  31,   0,
    159,   0, 127,   0, 255,   0,  31,   0,
    159,   0, 127,   0, 223,   0,  95,   0,
];

pub const GRIDS_PATTERN_LUT_2: [u8; 96] = [
    255,   0,   0,   0, 127,   0,   0,   0,
      0,   0, 102,   0,   0,   0, 229,   0,
      0,   0, 178,   0, 204,   0,   0,   0,
     76,   0,  51,   0, 153,   0,  25,   0,
      0,   0, 127,   0,   0,   0,   0,   0,
    255,   0, 191,   0,  31,   0,  63,   0,
      0,   0,  95,   0,   0,   0,   0,   0,
    223,   0,   0,   0,  31,   0, 159,   0,
    255,   0,  85,   0, 148,   0,  85,   0,
    127,   0,  85,   0, 106,   0,  63,   0,
    212,   0, 170,   0, 191,   0, 170,   0,
     85,   0,  42,   0, 233,   0,  21,   0,
];

pub const GRIDS_PATTERN_LUT_3: [u8; 96] = [
    255,   0, 212,   0,  63,   0,   0,   0,
    106,   0, 148,   0,  85,   0, 127,   0,
    191,   0,  21,   0, 233,   0,   0,   0,
     21,   0, 170,   0,   0,   0,  42,   0,
      0,   0,   0,   0, 141,   0, 113,   0,
    255,   0, 198,   0,   0,   0,  56,   0,
      0,   0,  85,   0,  56,   0,  28,   0,
    226,   0,  28,   0, 170,   0,  56,   0,
    255,   0, 231,   0, 255,   0, 208,   0,
    139,   0,  92,   0, 115,   0,  92,   0,
    185,   0,  69,   0,  46,   0,  46,   0,
    162,   0,  23,   0, 208,   0,  46,   0,
];

pub const GRIDS_PATTERN_LUT_4: [u8; 96] = [
    255,   0,  31,   0,  63,   0,  63,   0,
    127,   0,  95,   0, 191,   0,  63,   0,
    223,   0,  31,   0, 159,   0,  63,   0,
     31,   0,  63,   0,  95,   0,  31,   0,
      8,   0,   0,   0,  95,   0,  63,   0,
    255,   0,   0,   0, 127,   0,   0,   0,
      8,   0,   0,   0, 159,   0,  63,   0,
    255,   0, 223,   0, 191,   0,  31,   0,
     76,   0,  25,   0, 255,   0, 127,   0,
    153,   0,  51,   0, 204,   0, 102,   0,
     76,   0,  51,   0, 229,   0, 127,   0,
    153,   0,  51,   0, 178,   0, 102,   0,
];

pub const GRIDS_PATTERN_LUT_5: [u8; 96] = [
    255,   0,  51,   0,  25,   0,  76,   0,
      0,   0,   0,   0, 102,   0,   0,   0,
    204,   0, 229,   0,   0,   0, 178,   0,
      0,   0, 153,   0, 127,   0,   8,   0,
    178,   0, 127,   0, 153,   0, 204,   0,
    255,   0,   0,   0,  25,   0,  76,   0,
    102,   0,  51,   0,   0,   0,   0,   0,
    229,   0,  25,   0,  25,   0, 204,   0,
    178,   0, 102,   0, 255,   0,  76,   0,
    127,   0,  76,   0, 229,   0,  76,   0,
    153,   0, 102,   0, 255,   0,  25,   0,
    127,   0,  51,   0, 204,   0,  51,   0,
];

pub const GRIDS_PATTERN_LUT_6: [u8; 96] = [
    255,   0,   0,   0, 223,   0,   0,   0,
     31,   0,   8,   0, 127,   0,   0,   0,
     95,   0,   0,   0, 159,   0,   0,   0,
     95,   0,  63,   0, 191,   0,   0,   0,
     51,   0, 204,   0,   0,   0, 102,   0,
    255,   0, 127,   0,   8,   0, 178,   0,
     25,   0, 229,   0,   0,   0,  76,   0,
    204,   0, 153,   0,  51,   0,  25,   0,
    255,   0, 226,   0, 255,   0, 255,   0,
    198,   0,  28,   0, 141,   0,  56,   0,
    170,   0,  56,   0,  85,   0,  28,   0,
    170,   0,  28,   0, 113,   0,  56,   0,
];

pub const GRIDS_PATTERN_LUT_7: [u8; 96] = [
    223,   0,   0,   0,  63,   0,   0,   0,
     95,   0,   0,   0, 223,   0,  31,   0,
    255,   0,   0,   0, 159,   0,   0,   0,
    127,   0,  31,   0, 191,   0,  31,   0,
      0,   0,   0,   0, 109,   0,   0,   0,
    218,   0,   0,   0, 182,   0,  72,   0,
      8,   0,  36,   0, 145,   0,  36,   0,
    255,   0,   8,   0, 182,   0,  72,   0,
    255,   0,  72,   0, 218,   0,  36,   0,
    218,   0,   0,   0, 145,   0,   0,   0,
    255,   0,  36,   0, 182,   0,  36,   0,
    182,   0,   0,   0, 109,   0,   0,   0,
];

pub const GRIDS_PATTERN_LUT_8: [u8; 96] = [
    255,   0,   0,   0, 218,   0,   0,   0,
     36,   0,   0,   0, 218,   0,   0,   0,
    182,   0, 109,   0, 255,   0,   0,   0,
      0,   0,   0,   0, 145,   0,  72,   0,
    159,   0,   0,   0,  31,   0, 127,   0,
    255,   0,  31,   0,   0,   0,  95,   0,
      8,   0,   0,   0, 191,   0,  31,   0,
    255,   0,  31,   0, 223,   0,  63,   0,
    255,   0,  31,   0,  63,   0,  31,   0,
     95,   0,  31,   0,  63,   0, 127,   0,
    159,   0,  31,   0,  63,   0,  31,   0,
    223,   0, 223,   0, 191,   0, 191,   0,
];

pub const GRIDS_PATTERN_LUT_9: [u8; 96] = [
    226,   0,  28,   0,  28,   0, 141,   0,
      8,   0,   8,   0, 255,   0,   8,   0,
    113,   0,  28,   0, 198,   0,  85,   0,
     56,   0, 198,   0, 170,   0,  28,   0,
      8,   0,  95,   0,   8,   0,   8,   0,
    255,   0,  63,   0,  31,   0, 223,   0,
      8,   0,  31,   0, 191,   0,   8,   0,
    255,   0, 127,   0, 127,   0, 159,   0,
    115,   0,  46,   0, 255,   0, 185,   0,
    139,   0,  23,   0, 208,   0, 115,   0,
    231,   0,  69,   0, 255,   0, 162,   0,
    139,   0, 115,   0, 231,   0,  92,   0,
];

pub const GRIDS_PATTERN_LUT_10: [u8; 96] = [
    145,   0,   0,   0,   0,   0, 109,   0,
      0,   0,   0,   0, 255,   0, 109,   0,
     72,   0, 218,   0,   0,   0,   0,   0,
     36,   0,   0,   0, 182,   0,   0,   0,
      0,   0, 127,   0, 159,   0, 127,   0,
    159,   0, 191,   0, 223,   0,  63,   0,
    255,   0,  95,   0,  31,   0,  95,   0,
     31,   0,   8,   0,  63,   0,   8,   0,
    255,   0,   0,   0, 145,   0,   0,   0,
    182,   0, 109,   0, 109,   0, 109,   0,
    218,   0,   0,   0,  72,   0,   0,   0,
    182,   0,  72,   0, 182,   0,  36,   0,
];

pub const GRIDS_PATTERN_LUT_11: [u8; 96] = [
    255,   0,   0,   0,   0,   0,   0,   0,
      0,   0,   0,   0,   0,   0,   0,   0,
    255,   0,   0,   0, 218,   0,  72,  36,
      0,   0, 182,   0,   0,   0, 145, 109,
      0,   0, 127,   0,   0,   0,  42,   0,
    212,   0,   0, 212,   0,   0, 212,   0,
      0,   0,   0,   0,  42,   0,   0,   0,
    255,   0,   0,   0, 170, 170, 127,  85,
    145,   0, 109, 109, 218, 109,  72,   0,
    145,   0,  72,   0, 218,   0, 109,   0,
    182,   0, 109,   0, 255,   0,  72,   0,
    182, 109,  36, 109, 255, 109, 109,   0,
];

pub const GRIDS_PATTERN_LUT_12: [u8; 96] = [
    255,   0,   0,   0, 255,   0, 191,   0,
      0,   0,   0,   0,  95,   0,  63,   0,
     31,   0,   0,   0, 223,   0, 223,   0,
      0,   0,   8,   0, 159,   0, 127,   0,
      0,   0,  85,   0,  56,   0,  28,   0,
    255,   0,  28,   0,   0,   0, 226,   0,
      0,   0, 170,   0,  56,   0, 113,   0,
    198,   0,   0,   0, 113,   0, 141,   0,
    255,   0,  42,   0, 233,   0,  63,   0,
    212,   0,  85,   0, 191,   0, 106,   0,
    191,   0,  21,   0, 170,   0,   8,   0,
    170,   0, 127,   0, 148,   0, 148,   0,
];

pub const GRIDS_PATTERN_LUT_13: [u8; 96] = [
    255,   0,   0,   0,   0,   0,  63,   0,
    191,   0,  95,   0,  31,   0, 223,   0,
    255,   0,  63,   0,  95,   0,  63,   0,
    159,   0,   0,   0,   0,   0, 127,   0,
     72,   0,   0,   0,   0,   0,   0,   0,
    255,   0,   0,   0,   0,   0,   0,   0,
     72,   0,  72,   0,  36,   0,   8,   0,
    218,   0, 182,   0, 145,   0, 109,   0,
    255,   0, 162,   0, 231,   0, 162,   0,
    231,   0, 115,   0, 208,   0, 139,   0,
    185,   0,  92,   0, 185,   0,  46,   0,
    162,   0,  69,   0, 162,   0,  23,   0,
];

pub const GRIDS_PATTERN_LUT_14: [u8; 96] = [
    255,   0,   0,   0,  51,   0,   0,   0,
      0,   0,   0,   0, 102,   0,   0,   0,
    204,   0,   0,   0, 153,   0,   0,   0,
      0,   0,   0,   0,  51,   0,   0,   0,
      0,   0,   0,   0,   8,   0,  36,   0,
    255,   0,   0,   0, 182,   0,   8,   0,
      0,   0,   0,   0,  72,   0, 109,   0,
    145,   0,   0,   0, 255,   0, 218,   0,
    212,   0,   8,   0, 170,   0,   0,   0,
    127,   0,   0,   0,  85,   0,   8,   0,
    255,   0,   8,   0, 170,   0,   0,   0,
    127,   0,   0,   0,  42,   0,   8,   0,
];

pub const GRIDS_PATTERN_LUT_15: [u8; 96] = [
    255,   0,   0,   0,   0,   0,   0,   0,
     36,   0,   0,   0, 182,   0,   0,   0,
    218,   0,   0,   0,   0,   0,   0,   0,
     72,   0,   0,   0, 145,   0, 109,   0,
     36,   0,  36,   0,   0,   0,   0,   0,
    255,   0,   0,   0, 182,   0,   0,   0,
      0,   0,   0,   0,   0,   0,   0, 109,
    218,   0,   0,   0, 145,   0,  72,  72,
    255,   0,  28,   0, 226,   0,  56,   0,
    198,   0,   0,   0,   0,   0,  28,  28,
    170,   0,   0,   0, 141,   0,   0,   0,
    113,   0,   0,   0,  85,  85,  85,  85,
];

pub const GRIDS_PATTERN_LUT_16: [u8; 96] = [
    255,   0,   0,   0,   0,   0,  95,   0,
      0,   0, 127,   0,   0,   0,   0,   0,
    223,   0,  95,   0,  63,   0,  31,   0,
    191,   0,   0,   0, 159,   0,   0,   0,
      0,   0,  31,   0, 255,   0,   0,   0,
      0,   0,  95,   0, 223,   0,   0,   0,
      0,   0,  63,   0, 191,   0,   0,   0,
      0,   0,   0,   0, 159,   0, 127,   0,
    141,   0,  28,   0,  28,   0,  28,   0,
    113,   0,   8,   0,   8,   0,   8,   0,
    255,   0,   0,   0, 226,   0,   0,   0,
    198,   0,  56,   0, 170,   0,  85,   0,
];

pub const GRIDS_PATTERN_LUT_17: [u8; 96] = [
    255,   0,   0,   0,   8,   0,   0,   0,
    182,   0,   0,   0,  72,   0,   0,   0,
    218,   0,   0,   0,  36,   0,   0,   0,
    145,   0,   0,   0, 109,   0,   0,   0,
      0,   0,  51,  25,  76,  25,  25,   0,
    153,   0,   0,   0, 127, 102, 178,   0,
    204,   0,   0,   0,   0,   0, 255,   0,
      0,   0, 102,   0, 229,   0,  76,   0,
    113,   0,   0,   0, 141,   0,  85,   0,
      0,   0,   0,   0, 170,   0,   0,   0,
     56,  28, 255,   0,   0,   0,   0,   0,
    198,   0,   0,   0, 226,   0,   0,   0,
];

pub const GRIDS_PATTERN_LUT_18: [u8; 96] = [
    255,   0,   8,   0,  28,   0,  28,   0,
    198,   0,  56,   0,  56,   0,  85,   0,
    255,   0,  85,   0, 113,   0, 113,   0,
    226,   0, 141,   0, 170,   0, 141,   0,
      0,   0,   0,   0,   0,   0,   0,   0,
    255,   0,   0,   0, 127,   0,   0,   0,
      0,   0,   0,   0,   0,   0,   0,   0,
     63,   0,   0,   0, 191,   0,   0,   0,
    255,   0,   0,   0, 255,   0, 127,   0,
      0,   0,  85,   0,   0,   0, 212,   0,
      0,   0, 212,   0,  42,   0, 170,   0,
      0,   0, 127,   0,   0,   0,   0,   0,
];

pub const GRIDS_PATTERN_LUT_19: [u8; 96] = [
    255,   0,   0,   0,   0,   0, 218,   0,
    182,   0,   0,   0,   0,   0, 145,   0,
    145,   0,  36,   0,   0,   0, 109,   0,
    109,   0,   0,   0,  72,   0,  36,   0,
      0,   0,   0,   0, 109,   0,   8,   0,
     72,   0,   0,   0, 255,   0, 182,   0,
      0,   0,   0,   0, 145,   0,   8,   0,
     36,   0,   8,   0, 218,   0, 182,   0,
    255,   0,   0,   0,   0,   0, 226,   0,
     85,   0,   0,   0, 141,   0,   0,   0,
      0,   0,   0,   0, 170,   0,  56,   0,
    198,   0,   0,   0, 113,   0,  28,   0,
];

pub const GRIDS_PATTERN_LUT_20: [u8; 96] = [
    255,   0,   0,   0, 113,   0,   0,   0,
    198,   0,  56,   0,  85,   0,  28,   0,
    255,   0,   0,   0, 226,   0,   0,   0,
    170,   0,   0,   0, 141,   0,   0,   0,
      0,   0,   0,   0,   0,   0,   0,   0,
    255,   0, 145,   0, 109,   0, 218,   0,
     36,   0, 182,   0,  72,   0,  72,   0,
    255,   0,   0,   0,   0,   0, 109,   0,
     36,   0,  36,   0, 145,   0,   0,   0,
     72,   0,  72,   0, 182,   0,   0,   0,
     72,   0,  72,   0, 218,   0,   0,   0,
    109,   0, 109,   0, 255,   0,   0,   0,
];

pub const GRIDS_PATTERN_LUT_21: [u8; 96] = [
    255,   0,   0,   0, 218,   0,   0,   0,
    145,   0,   0,   0,  36,   0,   0,   0,
    218,   0,   0,   0,  36,   0,   0,   0,
    182,   0,  72,   0,   0,   0, 109,   0,
      0,   0,   0,   0,   8,   0,   0,   0,
    255,   0,  85,   0, 212,   0,  42,   0,
      0,   0,   0,   0,   8,   0,   0,   0,
     85,   0, 170,   0, 127,   0,  42,   0,
    109,   0, 109,   0, 255,   0,   0,   0,
     72,   0,  72,   0, 218,   0,   0,   0,
    145,   0, 182,   0, 255,   0,   0,   0,
     36,   0,  36,   0, 218,   0,   8,   0,
];

pub const GRIDS_PATTERN_LUT_22: [u8; 96] = [
    255,   0,   0,   0,  42,   0,   0,   0,
    212,   0,   0,   0,   8,   0, 212,   0,
    170,   0,   0,   0,  85,   0,   0,   0,
    212,   0,   8,   0, 127,   0,   8,   0,
    255,   0,  85,   0,   0,   0,   0,   0,
    226,   0,  85,   0,   0,   0, 198,   0,
      0,   0, 141,   0,  56,   0,   0,   0,
    170,   0,  28,   0,   0,   0, 113,   0,
    113,   0,  56,   0, 255,   0,   0,   0,
     85,   0,  56,   0, 226,   0,   0,   0,
      0,   0, 170,   0,   0,   0, 141,   0,
     28,   0,  28,   0, 198,   0,  28,   0,
];

pub const GRIDS_PATTERN_LUT_23: [u8; 96] = [
    255,   0,   0,   0, 229,   0,   0,   0,
    204,   0, 204,   0,   0,   0,  76,   0,
    178,   0, 153,   0,  51,   0, 178,   0,
    178,   0, 127,   0, 102,  51,  51,  25,
      0,   0,   0,   0,   0,   0,   0,  31,
      0,   0,   0,   0, 255,   0,   0,  31,
      0,   0,   8,   0,   0,   0, 191, 159,
    127,  95,  95,   0, 223,   0,  63,   0,
    255,   0, 255,   0, 204, 204, 204, 204,
      0,   0,  51,  51,  51,  51,   0,   0,
    204,   0, 204,   0, 153, 153, 153, 153,
    153,   0,   0,   0, 102, 102, 102, 102,
];

pub const GRIDS_PATTERN_LUT_24: [u8; 96] = [
    170,   0,   0,   0,   0, 255,   0,   0,
    198,   0,   0,   0,   0,  28,   0,   0,
    141,   0,   0,   0,   0, 226,   0,   0,
     56,   0,   0, 113,   0,  85,   0,   0,
    255,   0,   0,   0,   0, 113,   0,   0,
     85,   0,   0,   0,   0, 226,   0,   0,
    141,   0,   0,   8,   0, 170,  56,  56,
    198,   0,   0,  56,   0, 141,  28,   0,
    255,   0,   0,   0,   0, 191,   0,   0,
    159,   0,   0,   0,   0, 223,   0,   0,
     95,   0,   0,   0,   0,  63,   0,   0,
    127,   0,   0,   0,   0,  31,   0,   0,
];

/// The 25 drum patterns. Each holds 32 step levels for each instrument: bass drum, snare
/// drum and hi-hat, in that order.
pub const GRIDS_PATTERNS: [[u8; 96]; 25] = [
    GRIDS_PATTERN_LUT_0,
    GRIDS_PATTERN_LUT_1,
    GRIDS_PATTERN_LUT_2,
    GRIDS_PATTERN_LUT_3,
    GRIDS_PATTERN_LUT_4,
    GRIDS_PATTERN_LUT_5,
    GRIDS_PATTERN_LUT_6,
    GRIDS_PATTERN_LUT_7,
    GRIDS_PATTERN_LUT_8,
    GRIDS_PATTERN_LUT_9,
    GRIDS_PATTERN_LUT_10,
    GRIDS_PATTERN_LUT_11,
    GRIDS_PATTERN_LUT_12,
    GRIDS_PATTERN_LUT_13,
    GRIDS_PATTERN_LUT_14,
    GRIDS_PATTERN_LUT_15,
    GRIDS_PATTERN_LUT_16,
    GRIDS_PATTERN_LUT_17,
    GRIDS_PATTERN_LUT_18,
    GRIDS_PATTERN_LUT_19,
    GRIDS_PATTERN_LUT_20,
    GRIDS_PATTERN_LUT_21,
    GRIDS_PATTERN_LUT_22,
    GRIDS_PATTERN_LUT_23,
    GRIDS_PATTERN_LUT_24,
];

/// The drum whose pattern a Grids machine plays.
#[derive(Clone, Copy, Debug, PartialEq, Eq, Structural)]
pub enum Instrument {
    /// Bass drum.
    BD,
    /// Snare drum.
    SD,
    /// Hi-hat.
    HH,
}

impl Instrument {
    /// The instrument's position in the patterns: 0 for bass drum, 1 for snare, 2 for hi-hat.
    pub open spec fn index(self) -> u8 {
        match self {
            Instrument::BD => 0,
            Instrument::SD => 1,
            Instrument::HH => 2,
        }
    }

    /// The instrument at position `value`.
    pub open spec fn from_index(value: u8) -> Option<Instrument> {
        if value == 0 {
            Some(Instrument::BD)
        } else if value == 1 {
            Some(Instrument::SD)
        } else if value == 2 {
            Some(Instrument::HH)
        } else {
            None
        }
    }

    /// The instrument's position in the patterns.
    pub fn to_u8(self) -> (r: u8)
        ensures
            r == self.index(),
            r < 3,
    {
        match self {
            Instrument::BD => 0,
            Instrument::SD => 1,
            Instrument::HH => 2,
        }
    }

    /// Name of the instrument, as shown on the display.
    pub open spec fn display_name(self) -> Seq<char> {
        match self {
            Instrument::BD => "BD"@,
            Instrument::SD => "SD"@,
            Instrument::HH => "HH"@,
        }
    }

    /// The name is short ASCII text: at most six characters.
    pub proof fn lemma_display_name_short(self)
        ensures
            self.display_name().len() <= 6,
            vstd::utf8::is_ascii_chars(self.display_name()),
    {
        match self {
            Instrument::BD => reveal_strlit("BD"),
            Instrument::SD => reveal_strlit("SD"),
            Instrument::HH => reveal_strlit("HH"),
        }
    }

    /// Name of the instrument, as shown on the display.
    pub fn name(&self) -> (r: &'static str)
        ensures
            r@ == self.display_name(),
    {
        match self {
            Instrument::BD => "BD",
            Instrument::SD => "SD",
            Instrument::HH => "HH",
        }
    }
}

impl Default for Instrument {
    fn default() -> (r: Instrument)
        ensures
            r == Instrument::BD,
    {
        Instrument::BD
    }
}

impl TryFrom<u8> for Instrument {
    type Error = ();

    /// The instrument at position `value`; fails past the hi-hat.
    fn try_from(value: u8) -> (r: Result<Instrument, ()>) {
        if value == 0 {
            Ok(Instrument::BD)
        } else if value == 1 {
            Ok(Instrument::SD)
        } else if value == 2 {
            Ok(Instrument::HH)
        } else {
            Err(())
        }
    }
}

impl TryFromSpecImpl<u8> for Instrument {
    open spec fn obeys_try_from_spec() -> bool {
        true
    }

    open spec fn try_from_spec(v: u8) -> Result<Instrument, ()> {
        match Instrument::from_index(v) {
            Some(i) => Ok(i),
            None => Err(()),
        }
    }
}


/// Steps play when their level is above this threshold; each step of `fill` lowers it by 32.
pub open spec fn grids_threshold(fill: u8) -> int {
    255 - fill * 32
}

/// What a random byte `r` adds to a step's level: `r * perturbation / 32`, truncated to a byte.
pub open spec fn grids_perturbation(r: u64, perturbation: u8) -> u8 {
    ((r * perturbation) as u64 >> 5u64) as u8
}

/// Whether a step of level `level` plays, with random byte `r`: its level, raised by the
/// perturbation (capped at 255), must be above the threshold of `fill`.
pub open spec fn grids_step_active(level: u8, r: u64, perturbation: u8, fill: u8) -> bool {
    let raised = level + grids_perturbation(r, perturbation);
    let capped = if raised > 255 {
        255
    } else {
        raised
    };
    capped > grids_threshold(fill)
}

/// The level of step `i` of `instrument`'s pattern in table `table`.
pub open spec fn grids_level(table: int, instrument: Instrument, i: int) -> u8 {
    GRIDS_PATTERNS@[table]@[32 * instrument.index() + i]
}

/// The mask of a Grids rhythm: step `i` plays when `grids_step_active` holds of its level and
/// the random byte `rands[i]`.
pub open spec fn grids_mask(
    table: int,
    instrument: Instrument,
    fill: u8,
    perturbation: u8,
    rands: Seq<u64>,
) -> Seq<bool> {
    Seq::new(
        rands.len(),
        |i: int| grids_step_active(grids_level(table, instrument, i), rands[i], perturbation, fill),
    )
}

/// Each instrument plays its own part of a Grids table: the bass drum the first 32 levels,
/// the snare drum the next 32 and the hi-hat the last 32. Step `i` of an instrument's mask
/// plays exactly when the level at step `i` of its part, raised by the perturbation of the
/// step's random byte, passes the fill's threshold.
pub proof fn lemma_grids_instrument_parts(table: int, fill: u8, perturbation: u8, rands: Seq<u64>, i: int)
    requires
        0 <= table < 25,
        0 <= i < rands.len() <= 32,
    ensures
        grids_mask(table, Instrument::BD, fill, perturbation, rands).len() == rands.len(),
        grids_mask(table, Instrument::BD, fill, perturbation, rands)[i] == grids_step_active(
            GRIDS_PATTERNS@[table]@[i],
            rands[i],
            perturbation,
            fill,
        ),
        grids_mask(table, Instrument::SD, fill, perturbation, rands)[i] == grids_step_active(
            GRIDS_PATTERNS@[table]@[32 + i],
            rands[i],
            perturbation,
            fill,
        ),
        grids_mask(table, Instrument::HH, fill, perturbation, rands)[i] == grids_step_active(
            GRIDS_PATTERNS@[table]@[64 + i],
            rands[i],
            perturbation,
            fill,
        ),
{
}

/// `from_index` undoes `index` for instruments: each instrument is found again at its
/// position, and positions 0, 1 and 2 hold the bass drum, the snare and the hi-hat.
pub proof fn lemma_instrument_positions(k: Instrument)
    ensures
        Instrument::from_index(k.index()) == Some(k),
        Instrument::from_index(0) == Some(Instrument::BD),
        Instrument::from_index(1) == Some(Instrument::SD),
        Instrument::from_index(2) == Some(Instrument::HH),
{
}

/// `output` is what the Grids rhythm makes of `input` for some random bytes, one per step:
/// the steps that the mask of those bytes leaves out become rests.
pub open spec fn grids_rhythm(
    input: Seq<Option<Step>>,
    table: u8,
    instrument: Instrument,
    fill: u8,
    perturbation: u8,
    output: Seq<Option<Step>>,
) -> bool {
    exists|rands: Seq<u64>|
        #![trigger grids_mask(table as int, instrument, fill, perturbation, rands)]
        rands.len() == input.len() && (forall|i: int| 0 <= i < rands.len() ==> #[trigger] rands[i] < 256)
            && output == masked_steps(input, grids_mask(table as int, instrument, fill, perturbation, rands))
}

/// Without perturbation the random bytes don't matter: a step plays exactly when its level is
/// above the threshold.
pub proof fn lemma_grids_unperturbed(level: u8, r: u64, fill: u8)
    requires
        r < 256,
    ensures
        grids_step_active(level, r, 0, fill) == (level > grids_threshold(fill)),
{
    assert(((r * 0u8) as u64 >> 5u64) as u8 == 0u8) by (bit_vector);
}

/// Perturbation only adds steps: a step whose level is above the threshold always plays.
pub proof fn lemma_grids_perturbation_only_adds(level: u8, r: u64, perturbation: u8, fill: u8)
    requires
        level > grids_threshold(fill),
    ensures
        grids_step_active(level, r, perturbation, fill),
{
}

/// More fill never silences a step: a step that plays with `fill` also plays with a larger
/// fill, for the same random byte.
pub proof fn lemma_grids_fill_monotonic(level: u8, r: u64, perturbation: u8, fill: u8, more: u8)
    requires
        fill <= more,
        grids_step_active(level, r, perturbation, fill),
    ensures
        grids_step_active(level, r, perturbation, more),
{
}

/// Machine which generates rhythms from the patterns of Mutable Instruments Grids. Its
/// parameters are the instrument (`INST`), the pattern table (`TABLE`, 0 to 24), the fill
/// (`FILL`, 0 to 7: more steps play as it rises) and the perturbation (`PERT`, 0 to 7: random
/// extra steps).
#[derive(Debug)]
pub struct GridsRhythmMachine {
    params: ParamList,
}

/// The instrument, table, fill and perturbation held by a Grids machine's parameters, when they
/// hold values of the right kinds.
pub open spec fn grids_settings(params: Seq<Param>) -> Option<(Instrument, u8, u8, u8)> {
    if params.len() >= 4 {
        match (
            params[0].spec_value(),
            params[1].spec_value(),
            params[2].spec_value(),
            params[3].spec_value(),
        ) {
            (
                ParamValue::Instrument(i),
                ParamValue::Number(t),
                ParamValue::Number(f),
                ParamValue::Number(p),
            ) => Some((i, t, f, p)),
            _ => None,
        }
    } else {
        None
    }
}

impl GridsRhythmMachine {
    /// A machine playing the bass drum of the first table, with fill 4 and no perturbation.
    #[verifier::rlimit(40)]
    pub fn new() -> (r: GridsRhythmMachine)
        ensures
            params_of(r.spec_params()).len() == 4,
            params_of(r.spec_params())[0].spec_name() == "INST"@,
            params_of(r.spec_params())[1].spec_name() == "TABLE"@,
            params_of(r.spec_params())[2].spec_name() == "FILL"@,
            params_of(r.spec_params())[3].spec_name() == "PERT"@,
            grids_settings(params_of(r.spec_params())) == Some((Instrument::BD, 0u8, 4u8, 0u8)),
            params_of(r.spec_params())[1].spec_max() == ParamValue::Number(24),
            params_of(r.spec_params())[2].spec_max() == ParamValue::Number(7),
            params_of(r.spec_params())[3].spec_max() == ParamValue::Number(7),
    {
        let mut params = param_list_new();
        proof {
            reveal_strlit("INST");
            reveal_strlit("TABLE");
            reveal_strlit("FILL");
            reveal_strlit("PERT");
            crate::text::lemma_ascii_len("INST");
            crate::text::lemma_ascii_len("TABLE");
            crate::text::lemma_ascii_len("FILL");
            crate::text::lemma_ascii_len("PERT");
        }
        param_list_push(&mut params, Param::new_instrument_param("INST"));
        param_list_push(&mut params, Param::new_number_param("TABLE", 0, 24, 0));
        param_list_push(&mut params, Param::new_number_param("FILL", 0, 7, 4));
        param_list_push(&mut params, Param::new_number_param("PERT", 0, 7, 0));
        GridsRhythmMachine { params }
    }

    /// The mask of a Grids rhythm for the random bytes `rands`: step `i` plays when its level
    /// in the pattern, raised by the perturbation of `rands[i]`, is above the fill's threshold.
    #[verifier::spinoff_prover]
    pub fn step_mask(table: u8, instrument: Instrument, fill: u8, perturbation: u8, rands: &[u64]) -> (r:
        StepMask)
        requires
            table < 25,
            fill <= 7,
            rands@.len() <= 32,
            forall|i: int| 0 <= i < rands@.len() ==> #[trigger] rands@[i] < 256,
        ensures
            mask_contents(r) == grids_mask(table as int, instrument, fill, perturbation, rands@),
    {
        let pattern_start: usize = 32 * (instrument.to_u8() as usize);
        let threshold: u8 = 255 - fill * 32;
        let mut mask = mask_new();
        let n = rands.len();
        let mut i: usize = 0;
        while i < n
            invariant
                n == rands@.len(),
                n <= 32,
                0 <= i <= n,
                table < 25,
                fill <= 7,
                threshold == grids_threshold(fill),
                pattern_start == 32 * instrument.index(),
                instrument.index() < 3,
                forall|j: int| 0 <= j < rands@.len() ==> #[trigger] rands@[j] < 256,
                mask_contents(mask) == grids_mask(table as int, instrument, fill, perturbation, rands@).take(
                    i as int,
                ),
            decreases n - i,
        {
            let some_rand: u64 = rands[i];
            assert(some_rand * perturbation < 65536) by (nonlinear_arith)
                requires some_rand < 256, perturbation < 256;
            let perturb_delta: u8 = (some_rand * perturbation as u64 >> 5) as u8;
            let level: u8 = GRIDS_PATTERNS[table as usize][pattern_start + i];
            let raised: u8 = level.saturating_add(perturb_delta);
            mask_push(&mut mask, raised > threshold);
            assert(grids_mask(table as int, instrument, fill, perturbation, rands@).take(i + 1)
                =~= grids_mask(table as int, instrument, fill, perturbation, rands@).take(
                i as int,
            ).push(raised > threshold));
            i = i + 1;
        }
        assert(grids_mask(table as int, instrument, fill, perturbation, rands@).take(n as int)
            =~= grids_mask(table as int, instrument, fill, perturbation, rands@));
        mask
    }

    /// Silence the steps of `sequence` that the Grids rhythm leaves out, drawing one random
    /// byte per step from `machine_resources`.
    pub fn process(
        sequence: Sequence,
        machine_resources: &mut MachineResources,
        table: u8,
        instrument: Instrument,
        fill: u8,
        perturbation: u8,
    ) -> (r: Sequence)
        requires
            table < 25,
            fill <= 7,
        ensures
            grids_rhythm(sequence@, table, instrument, fill, perturbation, r@),
    {
        let n = sequence.len();
        let mut rands: Vec<u64> = Vec::new();
        let mut i: usize = 0;
        while i < n
            invariant
                n <= 32,
                0 <= i <= n,
                rands@.len() == i,
                forall|j: int| 0 <= j < rands@.len() ==> #[trigger] rands@[j] < 256,
            decreases n - i,
        {
            let drawn = machine_resources.random_u64();
            let some_rand: u64 = drawn >> 56;
            assert(some_rand < 256) by (bit_vector)
                requires some_rand == drawn >> 56;
            rands.push(some_rand);
            i = i + 1;
        }
        let mask = Self::step_mask(table, instrument, fill, perturbation, rands.as_slice());
        let ghost input = sequence@;
        let r = sequence.mask_steps(mask_as_slice(&mask));
        assert(rands@.len() == input.len() && (forall|i: int| 0 <= i < rands@.len() ==> #[trigger] rands@[i] < 256)
            && r@ == masked_steps(input, grids_mask(table as int, instrument, fill, perturbation, rands@)));
        r
    }
}

impl GridsRhythmMachine {
    /// Whether the parameters hold an instrument, a table below 25, a fill up to 7 and a
    /// perturbation.
    pub fn is_ready(&self) -> (r: bool)
        ensures
            r == self.ready(),
    {
        if crate::storage::param_list_len(&self.params) < 4 {
            return false;
        }
        let instrument_ok = match param_list_get(&self.params, 0).value() {
            ParamValue::Instrument(_) => true,
            _ => false,
        };
        let table = match param_list_get(&self.params, 1).value() {
            ParamValue::Number(n) => n,
            _ => return false,
        };
        let fill = match param_list_get(&self.params, 2).value() {
            ParamValue::Number(n) => n,
            _ => return false,
        };
        let perturbation_ok = match param_list_get(&self.params, 3).value() {
            ParamValue::Number(_) => true,
            _ => false,
        };
        instrument_ok && perturbation_ok && table < 25 && fill <= 7
    }
}

impl Machine for GridsRhythmMachine {
    closed spec fn spec_params(&self) -> ParamList {
        self.params
    }

    open spec fn ready(&self) -> bool {
        match grids_settings(params_of(self.spec_params())) {
            Some((_, table, fill, _)) => table < 25 && fill <= 7,
            None => false,
        }
    }

    fn name(&self) -> (r: &str)
        ensures
            r@ == "GRIDS"@,
    {
        "GRIDS"
    }

    fn params(&self) -> (r: &ParamList) {
        &self.params
    }

    fn params_mut(&mut self) -> (r: &mut ParamList) {
        &mut self.params
    }

    fn apply(&self, sequence: Sequence, machine_resources: &mut MachineResources) -> (r: Sequence)
        ensures
            match grids_settings(params_of(self.spec_params())) {
                Some((instrument, table, fill, perturbation)) => grids_rhythm(
                    sequence@,
                    table,
                    instrument,
                    fill,
                    perturbation,
                    r@,
                ),
                None => false,
            },
    {
        let instrument = match param_list_get(&self.params, 0).value() {
            ParamValue::Instrument(i) => i,
            _ => {
                assert(false);
                Instrument::BD
            },
        };
        let table = match param_list_get(&self.params, 1).value() {
            ParamValue::Number(n) => n,
            _ => {
                assert(false);
                0
            },
        };
        let fill = match param_list_get(&self.params, 2).value() {
            ParamValue::Number(n) => n,
            _ => {
                assert(false);
                0
            },
        };
        let perturbation = match param_list_get(&self.params, 3).value() {
            ParamValue::Number(n) => n,
            _ => {
                assert(false);
                0
            },
        };
        assert(grids_settings(params_of(self.spec_params())) == Some((instrument, table, fill, perturbation)));
        Self::process(sequence, machine_resources, table, instrument, fill, perturbation)
    }
}

} // verus!
