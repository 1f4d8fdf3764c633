//! The lookup tables that the cipher reads, and what each of them holds.
use vstd::prelude::*;
use crate::gf::{affine, gf_inv, gf_mul, inv_affine, inv_sbox, rcon, sbox, xtime};

verus! {

/// Forward S-box.
pub const FSBOX: [u8; 256] = [
    0x63, 0x7c, 0x77, 0x7b, 0xf2, 0x6b, 0x6f, 0xc5, 0x30, 0x01, 0x67, 0x2b, 0xfe, 0xd7, 0xab, 0x76,
    0xca, 0x82, 0xc9, 0x7d, 0xfa, 0x59, 0x47, 0xf0, 0xad, 0xd4, 0xa2, 0xaf, 0x9c, 0xa4, 0x72, 0xc0,
    0xb7, 0xfd, 0x93, 0x26, 0x36, 0x3f, 0xf7, 0xcc, 0x34, 0xa5, 0xe5, 0xf1, 0x71, 0xd8, 0x31, 0x15,
    0x04, 0xc7, 0x23, 0xc3, 0x18, 0x96, 0x05, 0x9a, 0x07, 0x12, 0x80, 0xe2, 0xeb, 0x27, 0xb2, 0x75,
    0x09, 0x83, 0x2c, 0x1a, 0x1b, 0x6e, 0x5a, 0xa0, 0x52, 0x3b, 0xd6, 0xb3, 0x29, 0xe3, 0x2f, 0x84,
    0x53, 0xd1, 0x00, 0xed, 0x20, 0xfc, 0xb1, 0x5b, 0x6a, 0xcb, 0xbe, 0x39, 0x4a, 0x4c, 0x58, 0xcf,
    0xd0, 0xef, 0xaa, 0xfb, 0x43, 0x4d, 0x33, 0x85, 0x45, 0xf9, 0x02, 0x7f, 0x50, 0x3c, 0x9f, 0xa8,
    0x51, 0xa3, 0x40, 0x8f, 0x92, 0x9d, 0x38, 0xf5, 0xbc, 0xb6, 0xda, 0x21, 0x10, 0xff, 0xf3, 0xd2,
    0xcd, 0x0c, 0x13, 0xec, 0x5f, 0x97, 0x44, 0x17, 0xc4, 0xa7, 0x7e, 0x3d, 0x64, 0x5d, 0x19, 0x73,
    0x60, 0x81, 0x4f, 0xdc, 0x22, 0x2a, 0x90, 0x88, 0x46, 0xee, 0xb8, 0x14, 0xde, 0x5e, 0x0b, 0xdb,
    0xe0, 0x32, 0x3a, 0x0a, 0x49, 0x06, 0x24, 0x5c, 0xc2, 0xd3, 0xac, 0x62, 0x91, 0x95, 0xe4, 0x79,
    0xe7, 0xc8, 0x37, 0x6d, 0x8d, 0xd5, 0x4e, 0xa9, 0x6c, 0x56, 0xf4, 0xea, 0x65, 0x7a, 0xae, 0x08,
    0xba, 0x78, 0x25, 0x2e, 0x1c, 0xa6, 0xb4, 0xc6, 0xe8, 0xdd, 0x74, 0x1f, 0x4b, 0xbd, 0x8b, 0x8a,
    0x70, 0x3e, 0xb5, 0x66, 0x48, 0x03, 0xf6, 0x0e, 0x61, 0x35, 0x57, 0xb9, 0x86, 0xc1, 0x1d, 0x9e,
    0xe1, 0xf8, 0x98, 0x11, 0x69, 0xd9, 0x8e, 0x94, 0x9b, 0x1e, 0x87, 0xe9, 0xce, 0x55, 0x28, 0xdf,
    0x8c, 0xa1, 0x89, 0x0d, 0xbf, 0xe6, 0x42, 0x68, 0x41, 0x99, 0x2d, 0x0f, 0xb0, 0x54, 0xbb, 0x16,
];

/// Reverse S-box.
pub const RSBOX: [u8; 256] = [
    0x52, 0x09, 0x6a, 0xd5, 0x30, 0x36, 0xa5, 0x38, 0xbf, 0x40, 0xa3, 0x9e, 0x81, 0xf3, 0xd7, 0xfb,
    0x7c, 0xe3, 0x39, 0x82, 0x9b, 0x2f, 0xff, 0x87, 0x34, 0x8e, 0x43, 0x44, 0xc4, 0xde, 0xe9, 0xcb,
    0x54, 0x7b, 0x94, 0x32, 0xa6, 0xc2, 0x23, 0x3d, 0xee, 0x4c, 0x95, 0x0b, 0x42, 0xfa, 0xc3, 0x4e,
    0x08, 0x2e, 0xa1, 0x66, 0x28, 0xd9, 0x24, 0xb2, 0x76, 0x5b, 0xa2, 0x49, 0x6d, 0x8b, 0xd1, 0x25,
    0x72, 0xf8, 0xf6, 0x64, 0x86, 0x68, 0x98, 0x16, 0xd4, 0xa4, 0x5c, 0xcc, 0x5d, 0x65, 0xb6, 0x92,
    0x6c, 0x70, 0x48, 0x50, 0xfd, 0xed, 0xb9, 0xda, 0x5e, 0x15, 0x46, 0x57, 0xa7, 0x8d, 0x9d, 0x84,
    0x90, 0xd8, 0xab, 0x00, 0x8c, 0xbc, 0xd3, 0x0a, 0xf7, 0xe4, 0x58, 0x05, 0xb8, 0xb3, 0x45, 0x06,
    0xd0, 0x2c, 0x1e, 0x8f, 0xca, 0x3f, 0x0f, 0x02, 0xc1, 0xaf, 0xbd, 0x03, 0x01, 0x13, 0x8a, 0x6b,
    0x3a, 0x91, 0x11, 0x41, 0x4f, 0x67, 0xdc, 0xea, 0x97, 0xf2, 0xcf, 0xce, 0xf0, 0xb4, 0xe6, 0x73,
    0x96, 0xac, 0x74, 0x22, 0xe7, 0xad, 0x35, 0x85, 0xe2, 0xf9, 0x37, 0xe8, 0x1c, 0x75, 0xdf, 0x6e,
    0x47, 0xf1, 0x1a, 0x71, 0x1d, 0x29, 0xc5, 0x89, 0x6f, 0xb7, 0x62, 0x0e, 0xaa, 0x18, 0xbe, 0x1b,
    0xfc, 0x56, 0x3e, 0x4b, 0xc6, 0xd2, 0x79, 0x20, 0x9a, 0xdb, 0xc0, 0xfe, 0x78, 0xcd, 0x5a, 0xf4,
    0x1f, 0xdd, 0xa8, 0x33, 0x88, 0x07, 0xc7, 0x31, 0xb1, 0x12, 0x10, 0x59, 0x27, 0x80, 0xec, 0x5f,
    0x60, 0x51, 0x7f, 0xa9, 0x19, 0xb5, 0x4a, 0x0d, 0x2d, 0xe5, 0x7a, 0x9f, 0x93, 0xc9, 0x9c, 0xef,
    0xa0, 0xe0, 0x3b, 0x4d, 0xae, 0x2a, 0xf5, 0xb0, 0xc8, 0xeb, 0xbb, 0x3c, 0x83, 0x53, 0x99, 0x61,
    0x17, 0x2b, 0x04, 0x7e, 0xba, 0x77, 0xd6, 0x26, 0xe1, 0x69, 0x14, 0x63, 0x55, 0x21, 0x0c, 0x7d,
];

/// Multiplication by 2 in GF(2^8).
pub const MUL2: [u8; 256] = [
    0x00, 0x02, 0x04, 0x06, 0x08, 0x0a, 0x0c, 0x0e, 0x10, 0x12, 0x14, 0x16, 0x18, 0x1a, 0x1c, 0x1e,
    0x20, 0x22, 0x24, 0x26, 0x28, 0x2a, 0x2c, 0x2e, 0x30, 0x32, 0x34, 0x36, 0x38, 0x3a, 0x3c, 0x3e,
    0x40, 0x42, 0x44, 0x46, 0x48, 0x4a, 0x4c, 0x4e, 0x50, 0x52, 0x54, 0x56, 0x58, 0x5a, 0x5c, 0x5e,
    0x60, 0x62, 0x64, 0x66, 0x68, 0x6a, 0x6c, 0x6e, 0x70, 0x72, 0x74, 0x76, 0x78, 0x7a, 0x7c, 0x7e,
    0x80, 0x82, 0x84, 0x86, 0x88, 0x8a, 0x8c, 0x8e, 0x90, 0x92, 0x94, 0x96, 0x98, 0x9a, 0x9c, 0x9e,
    0xa0, 0xa2, 0xa4, 0xa6, 0xa8, 0xaa, 0xac, 0xae, 0xb0, 0xb2, 0xb4, 0xb6, 0xb8, 0xba, 0xbc, 0xbe,
    0xc0, 0xc2, 0xc4, 0xc6, 0xc8, 0xca, 0xcc, 0xce, 0xd0, 0xd2, 0xd4, 0xd6, 0xd8, 0xda, 0xdc, 0xde,
    0xe0, 0xe2, 0xe4, 0xe6, 0xe8, 0xea, 0xec, 0xee, 0xf0, 0xf2, 0xf4, 0xf6, 0xf8, 0xfa, 0xfc, 0xfe,
    0x1b, 0x19, 0x1f, 0x1d, 0x13, 0x11, 0x17, 0x15, 0x0b, 0x09, 0x0f, 0x0d, 0x03, 0x01, 0x07, 0x05,
    0x3b, 0x39, 0x3f, 0x3d, 0x33, 0x31, 0x37, 0x35, 0x2b, 0x29, 0x2f, 0x2d, 0x23, 0x21, 0x27, 0x25,
    0x5b, 0x59, 0x5f, 0x5d, 0x53, 0x51, 0x57, 0x55, 0x4b, 0x49, 0x4f, 0x4d, 0x43, 0x41, 0x47, 0x45,
    0x7b, 0x79, 0x7f, 0x7d, 0x73, 0x71, 0x77, 0x75, 0x6b, 0x69, 0x6f, 0x6d, 0x63, 0x61, 0x67, 0x65,
    0x9b, 0x99, 0x9f, 0x9d, 0x93, 0x91, 0x97, 0x95, 0x8b, 0x89, 0x8f, 0x8d, 0x83, 0x81, 0x87, 0x85,
    0xbb, 0xb9, 0xbf, 0xbd, 0xb3, 0xb1, 0xb7, 0xb5, 0xab, 0xa9, 0xaf, 0xad, 0xa3, 0xa1, 0xa7, 0xa5,
    0xdb, 0xd9, 0xdf, 0xdd, 0xd3, 0xd1, 0xd7, 0xd5, 0xcb, 0xc9, 0xcf, 0xcd, 0xc3, 0xc1, 0xc7, 0xc5,
    0xfb, 0xf9, 0xff, 0xfd, 0xf3, 0xf1, 0xf7, 0xf5, 0xeb, 0xe9, 0xef, 0xed, 0xe3, 0xe1, 0xe7, 0xe5,
];

/// Multiplication by 3 in GF(2^8).
pub const MUL3: [u8; 256] = [
    0x00, 0x03, 0x06, 0x05, 0x0c, 0x0f, 0x0a, 0x09, 0x18, 0x1b, 0x1e, 0x1d, 0x14, 0x17, 0x12, 0x11,
    0x30, 0x33, 0x36, 0x35, 0x3c, 0x3f, 0x3a, 0x39, 0x28, 0x2b, 0x2e, 0x2d, 0x24, 0x27, 0x22, 0x21,
    0x60, 0x63, 0x66, 0x65, 0x6c, 0x6f, 0x6a, 0x69, 0x78, 0x7b, 0x7e, 0x7d, 0x74, 0x77, 0x72, 0x71,
    0x50, 0x53, 0x56, 0x55, 0x5c, 0x5f, 0x5a, 0x59, 0x48, 0x4b, 0x4e, 0x4d, 0x44, 0x47, 0x42, 0x41,
    0xc0, 0xc3, 0xc6, 0xc5, 0xcc, 0xcf, 0xca, 0xc9, 0xd8, 0xdb, 0xde, 0xdd, 0xd4, 0xd7, 0xd2, 0xd1,
    0xf0, 0xf3, 0xf6, 0xf5, 0xfc, 0xff, 0xfa, 0xf9, 0xe8, 0xeb, 0xee, 0xed, 0xe4, 0xe7, 0xe2, 0xe1,
    0xa0, 0xa3, 0xa6, 0xa5, 0xac, 0xaf, 0xaa, 0xa9, 0xb8, 0xbb, 0xbe, 0xbd, 0xb4, 0xb7, 0xb2, 0xb1,
    0x90, 0x93, 0x96, 0x95, 0x9c, 0x9f, 0x9a, 0x99, 0x88, 0x8b, 0x8e, 0x8d, 0x84, 0x87, 0x82, 0x81,
    0x9b, 0x98, 0x9d, 0x9e, 0x97, 0x94, 0x91, 0x92, 0x83, 0x80, 0x85, 0x86, 0x8f, 0x8c, 0x89, 0x8a,
    0xab, 0xa8, 0xad, 0xae, 0xa7, 0xa4, 0xa1, 0xa2, 0xb3, 0xb0, 0xb5, 0xb6, 0xbf, 0xbc, 0xb9, 0xba,
    0xfb, 0xf8, 0xfd, 0xfe, 0xf7, 0xf4, 0xf1, 0xf2, 0xe3, 0xe0, 0xe5, 0xe6, 0xef, 0xec, 0xe9, 0xea,
    0xcb, 0xc8, 0xcd, 0xce, 0xc7, 0xc4, 0xc1, 0xc2, 0xd3, 0xd0, 0xd5, 0xd6, 0xdf, 0xdc, 0xd9, 0xda,
    0x5b, 0x58, 0x5d, 0x5e, 0x57, 0x54, 0x51, 0x52, 0x43, 0x40, 0x45, 0x46, 0x4f, 0x4c, 0x49, 0x4a,
    0x6b, 0x68, 0x6d, 0x6e, 0x67, 0x64, 0x61, 0x62, 0x73, 0x70, 0x75, 0x76, 0x7f, 0x7c, 0x79, 0x7a,
    0x3b, 0x38, 0x3d, 0x3e, 0x37, 0x34, 0x31, 0x32, 0x23, 0x20, 0x25, 0x26, 0x2f, 0x2c, 0x29, 0x2a,
    0x0b, 0x08, 0x0d, 0x0e, 0x07, 0x04, 0x01, 0x02, 0x13, 0x10, 0x15, 0x16, 0x1f, 0x1c, 0x19, 0x1a,
];

/// Multiplication by 9 in GF(2^8).
pub const MUL9: [u8; 256] = [
    0x00, 0x09, 0x12, 0x1b, 0x24, 0x2d, 0x36, 0x3f, 0x48, 0x41, 0x5a, 0x53, 0x6c, 0x65, 0x7e, 0x77,
    0x90, 0x99, 0x82, 0x8b, 0xb4, 0xbd, 0xa6, 0xaf, 0xd8, 0xd1, 0xca, 0xc3, 0xfc, 0xf5, 0xee, 0xe7,
    0x3b, 0x32, 0x29, 0x20, 0x1f, 0x16, 0x0d, 0x04, 0x73, 0x7a, 0x61, 0x68, 0x57, 0x5e, 0x45, 0x4c,
    0xab, 0xa2, 0xb9, 0xb0, 0x8f, 0x86, 0x9d, 0x94, 0xe3, 0xea, 0xf1, 0xf8, 0xc7, 0xce, 0xd5, 0xdc,
    0x76, 0x7f, 0x64, 0x6d, 0x52, 0x5b, 0x40, 0x49, 0x3e, 0x37, 0x2c, 0x25, 0x1a, 0x13, 0x08, 0x01,
    0xe6, 0xef, 0xf4, 0xfd, 0xc2, 0xcb, 0xd0, 0xd9, 0xae, 0xa7, 0xbc, 0xb5, 0x8a, 0x83, 0x98, 0x91,
    0x4d, 0x44, 0x5f, 0x56, 0x69, 0x60, 0x7b, 0x72, 0x05, 0x0c, 0x17, 0x1e, 0x21, 0x28, 0x33, 0x3a,
    0xdd, 0xd4, 0xcf, 0xc6, 0xf9, 0xf0, 0xeb, 0xe2, 0x95, 0x9c, 0x87, 0x8e, 0xb1, 0xb8, 0xa3, 0xaa,
    0xec, 0xe5, 0xfe, 0xf7, 0xc8, 0xc1, 0xda, 0xd3, 0xa4, 0xad, 0xb6, 0xbf, 0x80, 0x89, 0x92, 0x9b,
    0x7c, 0x75, 0x6e, 0x67, 0x58, 0x51, 0x4a, 0x43, 0x34, 0x3d, 0x26, 0x2f, 0x10, 0x19, 0x02, 0x0b,
    0xd7, 0xde, 0xc5, 0xcc, 0xf3, 0xfa, 0xe1, 0xe8, 0x9f, 0x96, 0x8d, 0x84, 0xbb, 0xb2, 0xa9, 0xa0,
    0x47, 0x4e, 0x55, 0x5c, 0x63, 0x6a, 0x71, 0x78, 0x0f, 0x06, 0x1d, 0x14, 0x2b, 0x22, 0x39, 0x30,
    0x9a, 0x93, 0x88, 0x81, 0xbe, 0xb7, 0xac, 0xa5, 0xd2, 0xdb, 0xc0, 0xc9, 0xf6, 0xff, 0xe4, 0xed,
    0x0a, 0x03, 0x18, 0x11, 0x2e, 0x27, 0x3c, 0x35, 0x42, 0x4b, 0x50, 0x59, 0x66, 0x6f, 0x74, 0x7d,
    0xa1, 0xa8, 0xb3, 0xba, 0x85, 0x8c, 0x97, 0x9e, 0xe9, 0xe0, 0xfb, 0xf2, 0xcd, 0xc4, 0xdf, 0xd6,
    0x31, 0x38, 0x23, 0x2a, 0x15, 0x1c, 0x07, 0x0e, 0x79, 0x70, 0x6b, 0x62, 0x5d, 0x54, 0x4f, 0x46,
];

/// Multiplication by 11 in GF(2^8).
pub const MUL11: [u8; 256] = [
    0x00, 0x0b, 0x16, 0x1d, 0x2c, 0x27, 0x3a, 0x31, 0x58, 0x53, 0x4e, 0x45, 0x74, 0x7f, 0x62, 0x69,
    0xb0, 0xbb, 0xa6, 0xad, 0x9c, 0x97, 0x8a, 0x81, 0xe8, 0xe3, 0xfe, 0xf5, 0xc4, 0xcf, 0xd2, 0xd9,
    0x7b, 0x70, 0x6d, 0x66, 0x57, 0x5c, 0x41, 0x4a, 0x23, 0x28, 0x35, 0x3e, 0x0f, 0x04, 0x19, 0x12,
    0xcb, 0xc0, 0xdd, 0xd6, 0xe7, 0xec, 0xf1, 0xfa, 0x93, 0x98, 0x85, 0x8e, 0xbf, 0xb4, 0xa9, 0xa2,
    0xf6, 0xfd, 0xe0, 0xeb, 0xda, 0xd1, 0xcc, 0xc7, 0xae, 0xa5, 0xb8, 0xb3, 0x82, 0x89, 0x94, 0x9f,
    0x46, 0x4d, 0x50, 0x5b, 0x6a, 0x61, 0x7c, 0x77, 0x1e, 0x15, 0x08, 0x03, 0x32, 0x39, 0x24, 0x2f,
    0x8d, 0x86, 0x9b, 0x90, 0xa1, 0xaa, 0xb7, 0xbc, 0xd5, 0xde, 0xc3, 0xc8, 0xf9, 0xf2, 0xef, 0xe4,
    0x3d, 0x36, 0x2b, 0x20, 0x11, 0x1a, 0x07, 0x0c, 0x65, 0x6e, 0x73, 0x78, 0x49, 0x42, 0x5f, 0x54,
    0xf7, 0xfc, 0xe1, 0xea, 0xdb, 0xd0, 0xcd, 0xc6, 0xaf, 0xa4, 0xb9, 0xb2, 0x83, 0x88, 0x95, 0x9e,
    0x47, 0x4c, 0x51, 0x5a, 0x6b, 0x60, 0x7d, 0x76, 0x1f, 0x14, 0x09, 0x02, 0x33, 0x38, 0x25, 0x2e,
    0x8c, 0x87, 0x9a, 0x91, 0xa0, 0xab, 0xb6, 0xbd, 0xd4, 0xdf, 0xc2, 0xc9, 0xf8, 0xf3, 0xee, 0xe5,
    0x3c, 0x37, 0x2a, 0x21, 0x10, 0x1b, 0x06, 0x0d, 0x64, 0x6f, 0x72, 0x79, 0x48, 0x43, 0x5e, 0x55,
    0x01, 0x0a, 0x17, 0x1c, 0x2d, 0x26, 0x3b, 0x30, 0x59, 0x52, 0x4f, 0x44, 0x75, 0x7e, 0x63, 0x68,
    0xb1, 0xba, 0xa7, 0xac, 0x9d, 0x96, 0x8b, 0x80, 0xe9, 0xe2, 0xff, 0xf4, 0xc5, 0xce, 0xd3, 0xd8,
    0x7a, 0x71, 0x6c, 0x67, 0x56, 0x5d, 0x40, 0x4b, 0x22, 0x29, 0x34, 0x3f, 0x0e, 0x05, 0x18, 0x13,
    0xca, 0xc1, 0xdc, 0xd7, 0xe6, 0xed, 0xf0, 0xfb, 0x92, 0x99, 0x84, 0x8f, 0xbe, 0xb5, 0xa8, 0xa3,
];

/// Multiplication by 13 in GF(2^8).
pub const MUL13: [u8; 256] = [
    0x00, 0x0d, 0x1a, 0x17, 0x34, 0x39, 0x2e, 0x23, 0x68, 0x65, 0x72, 0x7f, 0x5c, 0x51, 0x46, 0x4b,
    0xd0, 0xdd, 0xca, 0xc7, 0xe4, 0xe9, 0xfe, 0xf3, 0xb8, 0xb5, 0xa2, 0xaf, 0x8c, 0x81, 0x96, 0x9b,
    0xbb, 0xb6, 0xa1, 0xac, 0x8f, 0x82, 0x95, 0x98, 0xd3, 0xde, 0xc9, 0xc4, 0xe7, 0xea, 0xfd, 0xf0,
    0x6b, 0x66, 0x71, 0x7c, 0x5f, 0x52, 0x45, 0x48, 0x03, 0x0e, 0x19, 0x14, 0x37, 0x3a, 0x2d, 0x20,
    0x6d, 0x60, 0x77, 0x7a, 0x59, 0x54, 0x43, 0x4e, 0x05, 0x08, 0x1f, 0x12, 0x31, 0x3c, 0x2b, 0x26,
    0xbd, 0xb0, 0xa7, 0xaa, 0x89, 0x84, 0x93, 0x9e, 0xd5, 0xd8, 0xcf, 0xc2, 0xe1, 0xec, 0xfb, 0xf6,
    0xd6, 0xdb, 0xcc, 0xc1, 0xe2, 0xef, 0xf8, 0xf5, 0xbe, 0xb3, 0xa4, 0xa9, 0x8a, 0x87, 0x90, 0x9d,
    0x06, 0x0b, 0x1c, 0x11, 0x32, 0x3f, 0x28, 0x25, 0x6e, 0x63, 0x74, 0x79, 0x5a, 0x57, 0x40, 0x4d,
    0xda, 0xd7, 0xc0, 0xcd, 0xee, 0xe3, 0xf4, 0xf9, 0xb2, 0xbf, 0xa8, 0xa5, 0x86, 0x8b, 0x9c, 0x91,
    0x0a, 0x07, 0x10, 0x1d, 0x3e, 0x33, 0x24, 0x29, 0x62, 0x6f, 0x78, 0x75, 0x56, 0x5b, 0x4c, 0x41,
    0x61, 0x6c, 0x7b, 0x76, 0x55, 0x58, 0x4f, 0x42, 0x09, 0x04, 0x13, 0x1e, 0x3d, 0x30, 0x27, 0x2a,
    0xb1, 0xbc, 0xab, 0xa6, 0x85, 0x88, 0x9f, 0x92, 0xd9, 0xd4, 0xc3, 0xce, 0xed, 0xe0, 0xf7, 0xfa,
    0xb7, 0xba, 0xad, 0xa0, 0x83, 0x8e, 0x99, 0x94, 0xdf, 0xd2, 0xc5, 0xc8, 0xeb, 0xe6, 0xf1, 0xfc,
    0x67, 0x6a, 0x7d, 0x70, 0x53, 0x5e, 0x49, 0x44, 0x0f, 0x02, 0x15, 0x18, 0x3b, 0x36, 0x21, 0x2c,
    0x0c, 0x01, 0x16, 0x1b, 0x38, 0x35, 0x22, 0x2f, 0x64, 0x69, 0x7e, 0x73, 0x50, 0x5d, 0x4a, 0x47,
    0xdc, 0xd1, 0xc6, 0xcb, 0xe8, 0xe5, 0xf2, 0xff, 0xb4, 0xb9, 0xae, 0xa3, 0x80, 0x8d, 0x9a, 0x97,
];

/// Multiplication by 14 in GF(2^8).
pub const MUL14: [u8; 256] = [
    0x00, 0x0e, 0x1c, 0x12, 0x38, 0x36, 0x24, 0x2a, 0x70, 0x7e, 0x6c, 0x62, 0x48, 0x46, 0x54, 0x5a,
    0xe0, 0xee, 0xfc, 0xf2, 0xd8, 0xd6, 0xc4, 0xca, 0x90, 0x9e, 0x8c, 0x82, 0xa8, 0xa6, 0xb4, 0xba,
    0xdb, 0xd5, 0xc7, 0xc9, 0xe3, 0xed, 0xff, 0xf1, 0xab, 0xa5, 0xb7, 0xb9, 0x93, 0x9d, 0x8f, 0x81,
    0x3b, 0x35, 0x27, 0x29, 0x03, 0x0d, 0x1f, 0x11, 0x4b, 0x45, 0x57, 0x59, 0x73, 0x7d, 0x6f, 0x61,
    0xad, 0xa3, 0xb1, 0xbf, 0x95, 0x9b, 0x89, 0x87, 0xdd, 0xd3, 0xc1, 0xcf, 0xe5, 0xeb, 0xf9, 0xf7,
    0x4d, 0x43, 0x51, 0x5f, 0x75, 0x7b, 0x69, 0x67, 0x3d, 0x33, 0x21, 0x2f, 0x05, 0x0b, 0x19, 0x17,
    0x76, 0x78, 0x6a, 0x64, 0x4e, 0x40, 0x52, 0x5c, 0x06, 0x08, 0x1a, 0x14, 0x3e, 0x30, 0x22, 0x2c,
    0x96, 0x98, 0x8a, 0x84, 0xae, 0xa0, 0xb2, 0xbc, 0xe6, 0xe8, 0xfa, 0xf4, 0xde, 0xd0, 0xc2, 0xcc,
    0x41, 0x4f, 0x5d, 0x53, 0x79, 0x77, 0x65, 0x6b, 0x31, 0x3f, 0x2d, 0x23, 0x09, 0x07, 0x15, 0x1b,
    0xa1, 0xaf, 0xbd, 0xb3, 0x99, 0x97, 0x85, 0x8b, 0xd1, 0xdf, 0xcd, 0xc3, 0xe9, 0xe7, 0xf5, 0xfb,
    0x9a, 0x94, 0x86, 0x88, 0xa2, 0xac, 0xbe, 0xb0, 0xea, 0xe4, 0xf6, 0xf8, 0xd2, 0xdc, 0xce, 0xc0,
    0x7a, 0x74, 0x66, 0x68, 0x42, 0x4c, 0x5e, 0x50, 0x0a, 0x04, 0x16, 0x18, 0x32, 0x3c, 0x2e, 0x20,
    0xec, 0xe2, 0xf0, 0xfe, 0xd4, 0xda, 0xc8, 0xc6, 0x9c, 0x92, 0x80, 0x8e, 0xa4, 0xaa, 0xb8, 0xb6,
    0x0c, 0x02, 0x10, 0x1e, 0x34, 0x3a, 0x28, 0x26, 0x7c, 0x72, 0x60, 0x6e, 0x44, 0x4a, 0x58, 0x56,
    0x37, 0x39, 0x2b, 0x25, 0x0f, 0x01, 0x13, 0x1d, 0x47, 0x49, 0x5b, 0x55, 0x7f, 0x71, 0x63, 0x6d,
    0xd7, 0xd9, 0xcb, 0xc5, 0xef, 0xe1, 0xf3, 0xfd, 0xa7, 0xa9, 0xbb, 0xb5, 0x9f, 0x91, 0x83, 0x8d,
];

/// Round constants of the key schedule (entries 1 to 10 are used).
pub const RCON: [u8; 256] = [
    0x8d, 0x01, 0x02, 0x04, 0x08, 0x10, 0x20, 0x40, 0x80, 0x1b, 0x36, 0x6c, 0xd8, 0xab, 0x4d, 0x9a,
    0x2f, 0x5e, 0xbc, 0x63, 0xc6, 0x97, 0x35, 0x6a, 0xd4, 0xb3, 0x7d, 0xfa, 0xef, 0xc5, 0x91, 0x39,
    0x72, 0xe4, 0xd3, 0xbd, 0x61, 0xc2, 0x9f, 0x25, 0x4a, 0x94, 0x33, 0x66, 0xcc, 0x83, 0x1d, 0x3a,
    0x74, 0xe8, 0xcb, 0x8d, 0x01, 0x02, 0x04, 0x08, 0x10, 0x20, 0x40, 0x80, 0x1b, 0x36, 0x6c, 0xd8,
    0xab, 0x4d, 0x9a, 0x2f, 0x5e, 0xbc, 0x63, 0xc6, 0x97, 0x35, 0x6a, 0xd4, 0xb3, 0x7d, 0xfa, 0xef,
    0xc5, 0x91, 0x39, 0x72, 0xe4, 0xd3, 0xbd, 0x61, 0xc2, 0x9f, 0x25, 0x4a, 0x94, 0x33, 0x66, 0xcc,
    0x83, 0x1d, 0x3a, 0x74, 0xe8, 0xcb, 0x8d, 0x01, 0x02, 0x04, 0x08, 0x10, 0x20, 0x40, 0x80, 0x1b,
    0x36, 0x6c, 0xd8, 0xab, 0x4d, 0x9a, 0x2f, 0x5e, 0xbc, 0x63, 0xc6, 0x97, 0x35, 0x6a, 0xd4, 0xb3,
    0x7d, 0xfa, 0xef, 0xc5, 0x91, 0x39, 0x72, 0xe4, 0xd3, 0xbd, 0x61, 0xc2, 0x9f, 0x25, 0x4a, 0x94,
    0x33, 0x66, 0xcc, 0x83, 0x1d, 0x3a, 0x74, 0xe8, 0xcb, 0x8d, 0x01, 0x02, 0x04, 0x08, 0x10, 0x20,
    0x40, 0x80, 0x1b, 0x36, 0x6c, 0xd8, 0xab, 0x4d, 0x9a, 0x2f, 0x5e, 0xbc, 0x63, 0xc6, 0x97, 0x35,
    0x6a, 0xd4, 0xb3, 0x7d, 0xfa, 0xef, 0xc5, 0x91, 0x39, 0x72, 0xe4, 0xd3, 0xbd, 0x61, 0xc2, 0x9f,
    0x25, 0x4a, 0x94, 0x33, 0x66, 0xcc, 0x83, 0x1d, 0x3a, 0x74, 0xe8, 0xcb, 0x8d, 0x01, 0x02, 0x04,
    0x08, 0x10, 0x20, 0x40, 0x80, 0x1b, 0x36, 0x6c, 0xd8, 0xab, 0x4d, 0x9a, 0x2f, 0x5e, 0xbc, 0x63,
    0xc6, 0x97, 0x35, 0x6a, 0xd4, 0xb3, 0x7d, 0xfa, 0xef, 0xc5, 0x91, 0x39, 0x72, 0xe4, 0xd3, 0xbd,
    0x61, 0xc2, 0x9f, 0x25, 0x4a, 0x94, 0x33, 0x66, 0xcc, 0x83, 0x1d, 0x3a, 0x74, 0xe8, 0xcb, 0x8d,
];

/// The entries of `FSBOX`, read as a search over `x`.
pub closed spec fn fsbox_entry(x: u8) -> u8 {
    if x < 128 {
        if x < 64 {
            if x < 32 {
                if x < 16 {
                    if x < 8 { if x < 4 { if x < 2 { if x < 1 { 0x63 } else { 0x7c } } else { if x < 3 { 0x77 } else { 0x7b } } } else { if x < 6 { if x < 5 { 0xf2 } else { 0x6b } } else { if x < 7 { 0x6f } else { 0xc5 } } } } else { if x < 12 { if x < 10 { if x < 9 { 0x30 } else { 0x01 } } else { if x < 11 { 0x67 } else { 0x2b } } } else { if x < 14 { if x < 13 { 0xfe } else { 0xd7 } } else { if x < 15 { 0xab } else { 0x76 } } } }
                } else {
                    if x < 24 { if x < 20 { if x < 18 { if x < 17 { 0xca } else { 0x82 } } else { if x < 19 { 0xc9 } else { 0x7d } } } else { if x < 22 { if x < 21 { 0xfa } else { 0x59 } } else { if x < 23 { 0x47 } else { 0xf0 } } } } else { if x < 28 { if x < 26 { if x < 25 { 0xad } else { 0xd4 } } else { if x < 27 { 0xa2 } else { 0xaf } } } else { if x < 30 { if x < 29 { 0x9c } else { 0xa4 } } else { if x < 31 { 0x72 } else { 0xc0 } } } }
                }
            } else {
                if x < 48 {
                    if x < 40 { if x < 36 { if x < 34 { if x < 33 { 0xb7 } else { 0xfd } } else { if x < 35 { 0x93 } else { 0x26 } } } else { if x < 38 { if x < 37 { 0x36 } else { 0x3f } } else { if x < 39 { 0xf7 } else { 0xcc } } } } else { if x < 44 { if x < 42 { if x < 41 { 0x34 } else { 0xa5 } } else { if x < 43 { 0xe5 } else { 0xf1 } } } else { if x < 46 { if x < 45 { 0x71 } else { 0xd8 } } else { if x < 47 { 0x31 } else { 0x15 } } } }
                } else {
                    if x < 56 { if x < 52 { if x < 50 { if x < 49 { 0x04 } else { 0xc7 } } else { if x < 51 { 0x23 } else { 0xc3 } } } else { if x < 54 { if x < 53 { 0x18 } else { 0x96 } } else { if x < 55 { 0x05 } else { 0x9a } } } } else { if x < 60 { if x < 58 { if x < 57 { 0x07 } else { 0x12 } } else { if x < 59 { 0x80 } else { 0xe2 } } } else { if x < 62 { if x < 61 { 0xeb } else { 0x27 } } else { if x < 63 { 0xb2 } else { 0x75 } } } }
                }
            }
        } else {
            if x < 96 {
                if x < 80 {
                    if x < 72 { if x < 68 { if x < 66 { if x < 65 { 0x09 } else { 0x83 } } else { if x < 67 { 0x2c } else { 0x1a } } } else { if x < 70 { if x < 69 { 0x1b } else { 0x6e } } else { if x < 71 { 0x5a } else { 0xa0 } } } } else { if x < 76 { if x < 74 { if x < 73 { 0x52 } else { 0x3b } } else { if x < 75 { 0xd6 } else { 0xb3 } } } else { if x < 78 { if x < 77 { 0x29 } else { 0xe3 } } else { if x < 79 { 0x2f } else { 0x84 } } } }
                } else {
                    if x < 88 { if x < 84 { if x < 82 { if x < 81 { 0x53 } else { 0xd1 } } else { if x < 83 { 0x00 } else { 0xed } } } else { if x < 86 { if x < 85 { 0x20 } else { 0xfc } } else { if x < 87 { 0xb1 } else { 0x5b } } } } else { if x < 92 { if x < 90 { if x < 89 { 0x6a } else { 0xcb } } else { if x < 91 { 0xbe } else { 0x39 } } } else { if x < 94 { if x < 93 { 0x4a } else { 0x4c } } else { if x < 95 { 0x58 } else { 0xcf } } } }
                }
            } else {
                if x < 112 {
                    if x < 104 { if x < 100 { if x < 98 { if x < 97 { 0xd0 } else { 0xef } } else { if x < 99 { 0xaa } else { 0xfb } } } else { if x < 102 { if x < 101 { 0x43 } else { 0x4d } } else { if x < 103 { 0x33 } else { 0x85 } } } } else { if x < 108 { if x < 106 { if x < 105 { 0x45 } else { 0xf9 } } else { if x < 107 { 0x02 } else { 0x7f } } } else { if x < 110 { if x < 109 { 0x50 } else { 0x3c } } else { if x < 111 { 0x9f } else { 0xa8 } } } }
                } else {
                    if x < 120 { if x < 116 { if x < 114 { if x < 113 { 0x51 } else { 0xa3 } } else { if x < 115 { 0x40 } else { 0x8f } } } else { if x < 118 { if x < 117 { 0x92 } else { 0x9d } } else { if x < 119 { 0x38 } else { 0xf5 } } } } else { if x < 124 { if x < 122 { if x < 121 { 0xbc } else { 0xb6 } } else { if x < 123 { 0xda } else { 0x21 } } } else { if x < 126 { if x < 125 { 0x10 } else { 0xff } } else { if x < 127 { 0xf3 } else { 0xd2 } } } }
                }
            }
        }
    } else {
        if x < 192 {
            if x < 160 {
                if x < 144 {
                    if x < 136 { if x < 132 { if x < 130 { if x < 129 { 0xcd } else { 0x0c } } else { if x < 131 { 0x13 } else { 0xec } } } else { if x < 134 { if x < 133 { 0x5f } else { 0x97 } } else { if x < 135 { 0x44 } else { 0x17 } } } } else { if x < 140 { if x < 138 { if x < 137 { 0xc4 } else { 0xa7 } } else { if x < 139 { 0x7e } else { 0x3d } } } else { if x < 142 { if x < 141 { 0x64 } else { 0x5d } } else { if x < 143 { 0x19 } else { 0x73 } } } }
                } else {
                    if x < 152 { if x < 148 { if x < 146 { if x < 145 { 0x60 } else { 0x81 } } else { if x < 147 { 0x4f } else { 0xdc } } } else { if x < 150 { if x < 149 { 0x22 } else { 0x2a } } else { if x < 151 { 0x90 } else { 0x88 } } } } else { if x < 156 { if x < 154 { if x < 153 { 0x46 } else { 0xee } } else { if x < 155 { 0xb8 } else { 0x14 } } } else { if x < 158 { if x < 157 { 0xde } else { 0x5e } } else { if x < 159 { 0x0b } else { 0xdb } } } }
                }
            } else {
                if x < 176 {
                    if x < 168 { if x < 164 { if x < 162 { if x < 161 { 0xe0 } else { 0x32 } } else { if x < 163 { 0x3a } else { 0x0a } } } else { if x < 166 { if x < 165 { 0x49 } else { 0x06 } } else { if x < 167 { 0x24 } else { 0x5c } } } } else { if x < 172 { if x < 170 { if x < 169 { 0xc2 } else { 0xd3 } } else { if x < 171 { 0xac } else { 0x62 } } } else { if x < 174 { if x < 173 { 0x91 } else { 0x95 } } else { if x < 175 { 0xe4 } else { 0x79 } } } }
                } else {
                    if x < 184 { if x < 180 { if x < 178 { if x < 177 { 0xe7 } else { 0xc8 } } else { if x < 179 { 0x37 } else { 0x6d } } } else { if x < 182 { if x < 181 { 0x8d } else { 0xd5 } } else { if x < 183 { 0x4e } else { 0xa9 } } } } else { if x < 188 { if x < 186 { if x < 185 { 0x6c } else { 0x56 } } else { if x < 187 { 0xf4 } else { 0xea } } } else { if x < 190 { if x < 189 { 0x65 } else { 0x7a } } else { if x < 191 { 0xae } else { 0x08 } } } }
                }
            }
        } else {
            if x < 224 {
                if x < 208 {
                    if x < 200 { if x < 196 { if x < 194 { if x < 193 { 0xba } else { 0x78 } } else { if x < 195 { 0x25 } else { 0x2e } } } else { if x < 198 { if x < 197 { 0x1c } else { 0xa6 } } else { if x < 199 { 0xb4 } else { 0xc6 } } } } else { if x < 204 { if x < 202 { if x < 201 { 0xe8 } else { 0xdd } } else { if x < 203 { 0x74 } else { 0x1f } } } else { if x < 206 { if x < 205 { 0x4b } else { 0xbd } } else { if x < 207 { 0x8b } else { 0x8a } } } }
                } else {
                    if x < 216 { if x < 212 { if x < 210 { if x < 209 { 0x70 } else { 0x3e } } else { if x < 211 { 0xb5 } else { 0x66 } } } else { if x < 214 { if x < 213 { 0x48 } else { 0x03 } } else { if x < 215 { 0xf6 } else { 0x0e } } } } else { if x < 220 { if x < 218 { if x < 217 { 0x61 } else { 0x35 } } else { if x < 219 { 0x57 } else { 0xb9 } } } else { if x < 222 { if x < 221 { 0x86 } else { 0xc1 } } else { if x < 223 { 0x1d } else { 0x9e } } } }
                }
            } else {
                if x < 240 {
                    if x < 232 { if x < 228 { if x < 226 { if x < 225 { 0xe1 } else { 0xf8 } } else { if x < 227 { 0x98 } else { 0x11 } } } else { if x < 230 { if x < 229 { 0x69 } else { 0xd9 } } else { if x < 231 { 0x8e } else { 0x94 } } } } else { if x < 236 { if x < 234 { if x < 233 { 0x9b } else { 0x1e } } else { if x < 235 { 0x87 } else { 0xe9 } } } else { if x < 238 { if x < 237 { 0xce } else { 0x55 } } else { if x < 239 { 0x28 } else { 0xdf } } } }
                } else {
                    if x < 248 { if x < 244 { if x < 242 { if x < 241 { 0x8c } else { 0xa1 } } else { if x < 243 { 0x89 } else { 0x0d } } } else { if x < 246 { if x < 245 { 0xbf } else { 0xe6 } } else { if x < 247 { 0x42 } else { 0x68 } } } } else { if x < 252 { if x < 250 { if x < 249 { 0x41 } else { 0x99 } } else { if x < 251 { 0x2d } else { 0x0f } } } else { if x < 254 { if x < 253 { 0xb0 } else { 0x54 } } else { if x < 255 { 0xbb } else { 0x16 } } } }
                }
            }
        }
    }
}

/// The entries of `RSBOX`, read as a search over `x`.
pub closed spec fn rsbox_entry(x: u8) -> u8 {
    if x < 128 {
        if x < 64 {
            if x < 32 {
                if x < 16 {
                    if x < 8 { if x < 4 { if x < 2 { if x < 1 { 0x52 } else { 0x09 } } else { if x < 3 { 0x6a } else { 0xd5 } } } else { if x < 6 { if x < 5 { 0x30 } else { 0x36 } } else { if x < 7 { 0xa5 } else { 0x38 } } } } else { if x < 12 { if x < 10 { if x < 9 { 0xbf } else { 0x40 } } else { if x < 11 { 0xa3 } else { 0x9e } } } else { if x < 14 { if x < 13 { 0x81 } else { 0xf3 } } else { if x < 15 { 0xd7 } else { 0xfb } } } }
                } else {
                    if x < 24 { if x < 20 { if x < 18 { if x < 17 { 0x7c } else { 0xe3 } } else { if x < 19 { 0x39 } else { 0x82 } } } else { if x < 22 { if x < 21 { 0x9b } else { 0x2f } } else { if x < 23 { 0xff } else { 0x87 } } } } else { if x < 28 { if x < 26 { if x < 25 { 0x34 } else { 0x8e } } else { if x < 27 { 0x43 } else { 0x44 } } } else { if x < 30 { if x < 29 { 0xc4 } else { 0xde } } else { if x < 31 { 0xe9 } else { 0xcb } } } }
                }
            } else {
                if x < 48 {
                    if x < 40 { if x < 36 { if x < 34 { if x < 33 { 0x54 } else { 0x7b } } else { if x < 35 { 0x94 } else { 0x32 } } } else { if x < 38 { if x < 37 { 0xa6 } else { 0xc2 } } else { if x < 39 { 0x23 } else { 0x3d } } } } else { if x < 44 { if x < 42 { if x < 41 { 0xee } else { 0x4c } } else { if x < 43 { 0x95 } else { 0x0b } } } else { if x < 46 { if x < 45 { 0x42 } else { 0xfa } } else { if x < 47 { 0xc3 } else { 0x4e } } } }
                } else {
                    if x < 56 { if x < 52 { if x < 50 { if x < 49 { 0x08 } else { 0x2e } } else { if x < 51 { 0xa1 } else { 0x66 } } } else { if x < 54 { if x < 53 { 0x28 } else { 0xd9 } } else { if x < 55 { 0x24 } else { 0xb2 } } } } else { if x < 60 { if x < 58 { if x < 57 { 0x76 } else { 0x5b } } else { if x < 59 { 0xa2 } else { 0x49 } } } else { if x < 62 { if x < 61 { 0x6d } else { 0x8b } } else { if x < 63 { 0xd1 } else { 0x25 } } } }
                }
            }
        } else {
            if x < 96 {
                if x < 80 {
                    if x < 72 { if x < 68 { if x < 66 { if x < 65 { 0x72 } else { 0xf8 } } else { if x < 67 { 0xf6 } else { 0x64 } } } else { if x < 70 { if x < 69 { 0x86 } else { 0x68 } } else { if x < 71 { 0x98 } else { 0x16 } } } } else { if x < 76 { if x < 74 { if x < 73 { 0xd4 } else { 0xa4 } } else { if x < 75 { 0x5c } else { 0xcc } } } else { if x < 78 { if x < 77 { 0x5d } else { 0x65 } } else { if x < 79 { 0xb6 } else { 0x92 } } } }
                } else {
                    if x < 88 { if x < 84 { if x < 82 { if x < 81 { 0x6c } else { 0x70 } } else { if x < 83 { 0x48 } else { 0x50 } } } else { if x < 86 { if x < 85 { 0xfd } else { 0xed } } else { if x < 87 { 0xb9 } else { 0xda } } } } else { if x < 92 { if x < 90 { if x < 89 { 0x5e } else { 0x15 } } else { if x < 91 { 0x46 } else { 0x57 } } } else { if x < 94 { if x < 93 { 0xa7 } else { 0x8d } } else { if x < 95 { 0x9d } else { 0x84 } } } }
                }
            } else {
                if x < 112 {
                    if x < 104 { if x < 100 { if x < 98 { if x < 97 { 0x90 } else { 0xd8 } } else { if x < 99 { 0xab } else { 0x00 } } } else { if x < 102 { if x < 101 { 0x8c } else { 0xbc } } else { if x < 103 { 0xd3 } else { 0x0a } } } } else { if x < 108 { if x < 106 { if x < 105 { 0xf7 } else { 0xe4 } } else { if x < 107 { 0x58 } else { 0x05 } } } else { if x < 110 { if x < 109 { 0xb8 } else { 0xb3 } } else { if x < 111 { 0x45 } else { 0x06 } } } }
                } else {
                    if x < 120 { if x < 116 { if x < 114 { if x < 113 { 0xd0 } else { 0x2c } } else { if x < 115 { 0x1e } else { 0x8f } } } else { if x < 118 { if x < 117 { 0xca } else { 0x3f } } else { if x < 119 { 0x0f } else { 0x02 } } } } else { if x < 124 { if x < 122 { if x < 121 { 0xc1 } else { 0xaf } } else { if x < 123 { 0xbd } else { 0x03 } } } else { if x < 126 { if x < 125 { 0x01 } else { 0x13 } } else { if x < 127 { 0x8a } else { 0x6b } } } }
                }
            }
        }
    } else {
        if x < 192 {
            if x < 160 {
                if x < 144 {
                    if x < 136 { if x < 132 { if x < 130 { if x < 129 { 0x3a } else { 0x91 } } else { if x < 131 { 0x11 } else { 0x41 } } } else { if x < 134 { if x < 133 { 0x4f } else { 0x67 } } else { if x < 135 { 0xdc } else { 0xea } } } } else { if x < 140 { if x < 138 { if x < 137 { 0x97 } else { 0xf2 } } else { if x < 139 { 0xcf } else { 0xce } } } else { if x < 142 { if x < 141 { 0xf0 } else { 0xb4 } } else { if x < 143 { 0xe6 } else { 0x73 } } } }
                } else {
                    if x < 152 { if x < 148 { if x < 146 { if x < 145 { 0x96 } else { 0xac } } else { if x < 147 { 0x74 } else { 0x22 } } } else { if x < 150 { if x < 149 { 0xe7 } else { 0xad } } else { if x < 151 { 0x35 } else { 0x85 } } } } else { if x < 156 { if x < 154 { if x < 153 { 0xe2 } else { 0xf9 } } else { if x < 155 { 0x37 } else { 0xe8 } } } else { if x < 158 { if x < 157 { 0x1c } else { 0x75 } } else { if x < 159 { 0xdf } else { 0x6e } } } }
                }
            } else {
                if x < 176 {
                    if x < 168 { if x < 164 { if x < 162 { if x < 161 { 0x47 } else { 0xf1 } } else { if x < 163 { 0x1a } else { 0x71 } } } else { if x < 166 { if x < 165 { 0x1d } else { 0x29 } } else { if x < 167 { 0xc5 } else { 0x89 } } } } else { if x < 172 { if x < 170 { if x < 169 { 0x6f } else { 0xb7 } } else { if x < 171 { 0x62 } else { 0x0e } } } else { if x < 174 { if x < 173 { 0xaa } else { 0x18 } } else { if x < 175 { 0xbe } else { 0x1b } } } }
                } else {
                    if x < 184 { if x < 180 { if x < 178 { if x < 177 { 0xfc } else { 0x56 } } else { if x < 179 { 0x3e } else { 0x4b } } } else { if x < 182 { if x < 181 { 0xc6 } else { 0xd2 } } else { if x < 183 { 0x79 } else { 0x20 } } } } else { if x < 188 { if x < 186 { if x < 185 { 0x9a } else { 0xdb } } else { if x < 187 { 0xc0 } else { 0xfe } } } else { if x < 190 { if x < 189 { 0x78 } else { 0xcd } } else { if x < 191 { 0x5a } else { 0xf4 } } } }
                }
            }
        } else {
            if x < 224 {
                if x < 208 {
                    if x < 200 { if x < 196 { if x < 194 { if x < 193 { 0x1f } else { 0xdd } } else { if x < 195 { 0xa8 } else { 0x33 } } } else { if x < 198 { if x < 197 { 0x88 } else { 0x07 } } else { if x < 199 { 0xc7 } else { 0x31 } } } } else { if x < 204 { if x < 202 { if x < 201 { 0xb1 } else { 0x12 } } else { if x < 203 { 0x10 } else { 0x59 } } } else { if x < 206 { if x < 205 { 0x27 } else { 0x80 } } else { if x < 207 { 0xec } else { 0x5f } } } }
                } else {
                    if x < 216 { if x < 212 { if x < 210 { if x < 209 { 0x60 } else { 0x51 } } else { if x < 211 { 0x7f } else { 0xa9 } } } else { if x < 214 { if x < 213 { 0x19 } else { 0xb5 } } else { if x < 215 { 0x4a } else { 0x0d } } } } else { if x < 220 { if x < 218 { if x < 217 { 0x2d } else { 0xe5 } } else { if x < 219 { 0x7a } else { 0x9f } } } else { if x < 222 { if x < 221 { 0x93 } else { 0xc9 } } else { if x < 223 { 0x9c } else { 0xef } } } }
                }
            } else {
                if x < 240 {
                    if x < 232 { if x < 228 { if x < 226 { if x < 225 { 0xa0 } else { 0xe0 } } else { if x < 227 { 0x3b } else { 0x4d } } } else { if x < 230 { if x < 229 { 0xae } else { 0x2a } } else { if x < 231 { 0xf5 } else { 0xb0 } } } } else { if x < 236 { if x < 234 { if x < 233 { 0xc8 } else { 0xeb } } else { if x < 235 { 0xbb } else { 0x3c } } } else { if x < 238 { if x < 237 { 0x83 } else { 0x53 } } else { if x < 239 { 0x99 } else { 0x61 } } } }
                } else {
                    if x < 248 { if x < 244 { if x < 242 { if x < 241 { 0x17 } else { 0x2b } } else { if x < 243 { 0x04 } else { 0x7e } } } else { if x < 246 { if x < 245 { 0xba } else { 0x77 } } else { if x < 247 { 0xd6 } else { 0x26 } } } } else { if x < 252 { if x < 250 { if x < 249 { 0xe1 } else { 0x69 } } else { if x < 251 { 0x14 } else { 0x63 } } } else { if x < 254 { if x < 253 { 0x55 } else { 0x21 } } else { if x < 255 { 0x0c } else { 0x7d } } } }
                }
            }
        }
    }
}

/// The entries of `MUL2`, read as a search over `x`.
pub closed spec fn mul2_entry(x: u8) -> u8 {
    if x < 128 {
        if x < 64 {
            if x < 32 {
                if x < 16 {
                    if x < 8 { if x < 4 { if x < 2 { if x < 1 { 0x00 } else { 0x02 } } else { if x < 3 { 0x04 } else { 0x06 } } } else { if x < 6 { if x < 5 { 0x08 } else { 0x0a } } else { if x < 7 { 0x0c } else { 0x0e } } } } else { if x < 12 { if x < 10 { if x < 9 { 0x10 } else { 0x12 } } else { if x < 11 { 0x14 } else { 0x16 } } } else { if x < 14 { if x < 13 { 0x18 } else { 0x1a } } else { if x < 15 { 0x1c } else { 0x1e } } } }
                } else {
                    if x < 24 { if x < 20 { if x < 18 { if x < 17 { 0x20 } else { 0x22 } } else { if x < 19 { 0x24 } else { 0x26 } } } else { if x < 22 { if x < 21 { 0x28 } else { 0x2a } } else { if x < 23 { 0x2c } else { 0x2e } } } } else { if x < 28 { if x < 26 { if x < 25 { 0x30 } else { 0x32 } } else { if x < 27 { 0x34 } else { 0x36 } } } else { if x < 30 { if x < 29 { 0x38 } else { 0x3a } } else { if x < 31 { 0x3c } else { 0x3e } } } }
                }
            } else {
                if x < 48 {
                    if x < 40 { if x < 36 { if x < 34 { if x < 33 { 0x40 } else { 0x42 } } else { if x < 35 { 0x44 } else { 0x46 } } } else { if x < 38 { if x < 37 { 0x48 } else { 0x4a } } else { if x < 39 { 0x4c } else { 0x4e } } } } else { if x < 44 { if x < 42 { if x < 41 { 0x50 } else { 0x52 } } else { if x < 43 { 0x54 } else { 0x56 } } } else { if x < 46 { if x < 45 { 0x58 } else { 0x5a } } else { if x < 47 { 0x5c } else { 0x5e } } } }
                } else {
                    if x < 56 { if x < 52 { if x < 50 { if x < 49 { 0x60 } else { 0x62 } } else { if x < 51 { 0x64 } else { 0x66 } } } else { if x < 54 { if x < 53 { 0x68 } else { 0x6a } } else { if x < 55 { 0x6c } else { 0x6e } } } } else { if x < 60 { if x < 58 { if x < 57 { 0x70 } else { 0x72 } } else { if x < 59 { 0x74 } else { 0x76 } } } else { if x < 62 { if x < 61 { 0x78 } else { 0x7a } } else { if x < 63 { 0x7c } else { 0x7e } } } }
                }
            }
        } else {
            if x < 96 {
                if x < 80 {
                    if x < 72 { if x < 68 { if x < 66 { if x < 65 { 0x80 } else { 0x82 } } else { if x < 67 { 0x84 } else { 0x86 } } } else { if x < 70 { if x < 69 { 0x88 } else { 0x8a } } else { if x < 71 { 0x8c } else { 0x8e } } } } else { if x < 76 { if x < 74 { if x < 73 { 0x90 } else { 0x92 } } else { if x < 75 { 0x94 } else { 0x96 } } } else { if x < 78 { if x < 77 { 0x98 } else { 0x9a } } else { if x < 79 { 0x9c } else { 0x9e } } } }
                } else {
                    if x < 88 { if x < 84 { if x < 82 { if x < 81 { 0xa0 } else { 0xa2 } } else { if x < 83 { 0xa4 } else { 0xa6 } } } else { if x < 86 { if x < 85 { 0xa8 } else { 0xaa } } else { if x < 87 { 0xac } else { 0xae } } } } else { if x < 92 { if x < 90 { if x < 89 { 0xb0 } else { 0xb2 } } else { if x < 91 { 0xb4 } else { 0xb6 } } } else { if x < 94 { if x < 93 { 0xb8 } else { 0xba } } else { if x < 95 { 0xbc } else { 0xbe } } } }
                }
            } else {
                if x < 112 {
                    if x < 104 { if x < 100 { if x < 98 { if x < 97 { 0xc0 } else { 0xc2 } } else { if x < 99 { 0xc4 } else { 0xc6 } } } else { if x < 102 { if x < 101 { 0xc8 } else { 0xca } } else { if x < 103 { 0xcc } else { 0xce } } } } else { if x < 108 { if x < 106 { if x < 105 { 0xd0 } else { 0xd2 } } else { if x < 107 { 0xd4 } else { 0xd6 } } } else { if x < 110 { if x < 109 { 0xd8 } else { 0xda } } else { if x < 111 { 0xdc } else { 0xde } } } }
                } else {
                    if x < 120 { if x < 116 { if x < 114 { if x < 113 { 0xe0 } else { 0xe2 } } else { if x < 115 { 0xe4 } else { 0xe6 } } } else { if x < 118 { if x < 117 { 0xe8 } else { 0xea } } else { if x < 119 { 0xec } else { 0xee } } } } else { if x < 124 { if x < 122 { if x < 121 { 0xf0 } else { 0xf2 } } else { if x < 123 { 0xf4 } else { 0xf6 } } } else { if x < 126 { if x < 125 { 0xf8 } else { 0xfa } } else { if x < 127 { 0xfc } else { 0xfe } } } }
                }
            }
        }
    } else {
        if x < 192 {
            if x < 160 {
                if x < 144 {
                    if x < 136 { if x < 132 { if x < 130 { if x < 129 { 0x1b } else { 0x19 } } else { if x < 131 { 0x1f } else { 0x1d } } } else { if x < 134 { if x < 133 { 0x13 } else { 0x11 } } else { if x < 135 { 0x17 } else { 0x15 } } } } else { if x < 140 { if x < 138 { if x < 137 { 0x0b } else { 0x09 } } else { if x < 139 { 0x0f } else { 0x0d } } } else { if x < 142 { if x < 141 { 0x03 } else { 0x01 } } else { if x < 143 { 0x07 } else { 0x05 } } } }
                } else {
                    if x < 152 { if x < 148 { if x < 146 { if x < 145 { 0x3b } else { 0x39 } } else { if x < 147 { 0x3f } else { 0x3d } } } else { if x < 150 { if x < 149 { 0x33 } else { 0x31 } } else { if x < 151 { 0x37 } else { 0x35 } } } } else { if x < 156 { if x < 154 { if x < 153 { 0x2b } else { 0x29 } } else { if x < 155 { 0x2f } else { 0x2d } } } else { if x < 158 { if x < 157 { 0x23 } else { 0x21 } } else { if x < 159 { 0x27 } else { 0x25 } } } }
                }
            } else {
                if x < 176 {
                    if x < 168 { if x < 164 { if x < 162 { if x < 161 { 0x5b } else { 0x59 } } else { if x < 163 { 0x5f } else { 0x5d } } } else { if x < 166 { if x < 165 { 0x53 } else { 0x51 } } else { if x < 167 { 0x57 } else { 0x55 } } } } else { if x < 172 { if x < 170 { if x < 169 { 0x4b } else { 0x49 } } else { if x < 171 { 0x4f } else { 0x4d } } } else { if x < 174 { if x < 173 { 0x43 } else { 0x41 } } else { if x < 175 { 0x47 } else { 0x45 } } } }
                } else {
                    if x < 184 { if x < 180 { if x < 178 { if x < 177 { 0x7b } else { 0x79 } } else { if x < 179 { 0x7f } else { 0x7d } } } else { if x < 182 { if x < 181 { 0x73 } else { 0x71 } } else { if x < 183 { 0x77 } else { 0x75 } } } } else { if x < 188 { if x < 186 { if x < 185 { 0x6b } else { 0x69 } } else { if x < 187 { 0x6f } else { 0x6d } } } else { if x < 190 { if x < 189 { 0x63 } else { 0x61 } } else { if x < 191 { 0x67 } else { 0x65 } } } }
                }
            }
        } else {
            if x < 224 {
                if x < 208 {
                    if x < 200 { if x < 196 { if x < 194 { if x < 193 { 0x9b } else { 0x99 } } else { if x < 195 { 0x9f } else { 0x9d } } } else { if x < 198 { if x < 197 { 0x93 } else { 0x91 } } else { if x < 199 { 0x97 } else { 0x95 } } } } else { if x < 204 { if x < 202 { if x < 201 { 0x8b } else { 0x89 } } else { if x < 203 { 0x8f } else { 0x8d } } } else { if x < 206 { if x < 205 { 0x83 } else { 0x81 } } else { if x < 207 { 0x87 } else { 0x85 } } } }
                } else {
                    if x < 216 { if x < 212 { if x < 210 { if x < 209 { 0xbb } else { 0xb9 } } else { if x < 211 { 0xbf } else { 0xbd } } } else { if x < 214 { if x < 213 { 0xb3 } else { 0xb1 } } else { if x < 215 { 0xb7 } else { 0xb5 } } } } else { if x < 220 { if x < 218 { if x < 217 { 0xab } else { 0xa9 } } else { if x < 219 { 0xaf } else { 0xad } } } else { if x < 222 { if x < 221 { 0xa3 } else { 0xa1 } } else { if x < 223 { 0xa7 } else { 0xa5 } } } }
                }
            } else {
                if x < 240 {
                    if x < 232 { if x < 228 { if x < 226 { if x < 225 { 0xdb } else { 0xd9 } } else { if x < 227 { 0xdf } else { 0xdd } } } else { if x < 230 { if x < 229 { 0xd3 } else { 0xd1 } } else { if x < 231 { 0xd7 } else { 0xd5 } } } } else { if x < 236 { if x < 234 { if x < 233 { 0xcb } else { 0xc9 } } else { if x < 235 { 0xcf } else { 0xcd } } } else { if x < 238 { if x < 237 { 0xc3 } else { 0xc1 } } else { if x < 239 { 0xc7 } else { 0xc5 } } } }
                } else {
                    if x < 248 { if x < 244 { if x < 242 { if x < 241 { 0xfb } else { 0xf9 } } else { if x < 243 { 0xff } else { 0xfd } } } else { if x < 246 { if x < 245 { 0xf3 } else { 0xf1 } } else { if x < 247 { 0xf7 } else { 0xf5 } } } } else { if x < 252 { if x < 250 { if x < 249 { 0xeb } else { 0xe9 } } else { if x < 251 { 0xef } else { 0xed } } } else { if x < 254 { if x < 253 { 0xe3 } else { 0xe1 } } else { if x < 255 { 0xe7 } else { 0xe5 } } } }
                }
            }
        }
    }
}

/// The entries of `MUL3`, read as a search over `x`.
pub closed spec fn mul3_entry(x: u8) -> u8 {
    if x < 128 {
        if x < 64 {
            if x < 32 {
                if x < 16 {
                    if x < 8 { if x < 4 { if x < 2 { if x < 1 { 0x00 } else { 0x03 } } else { if x < 3 { 0x06 } else { 0x05 } } } else { if x < 6 { if x < 5 { 0x0c } else { 0x0f } } else { if x < 7 { 0x0a } else { 0x09 } } } } else { if x < 12 { if x < 10 { if x < 9 { 0x18 } else { 0x1b } } else { if x < 11 { 0x1e } else { 0x1d } } } else { if x < 14 { if x < 13 { 0x14 } else { 0x17 } } else { if x < 15 { 0x12 } else { 0x11 } } } }
                } else {
                    if x < 24 { if x < 20 { if x < 18 { if x < 17 { 0x30 } else { 0x33 } } else { if x < 19 { 0x36 } else { 0x35 } } } else { if x < 22 { if x < 21 { 0x3c } else { 0x3f } } else { if x < 23 { 0x3a } else { 0x39 } } } } else { if x < 28 { if x < 26 { if x < 25 { 0x28 } else { 0x2b } } else { if x < 27 { 0x2e } else { 0x2d } } } else { if x < 30 { if x < 29 { 0x24 } else { 0x27 } } else { if x < 31 { 0x22 } else { 0x21 } } } }
                }
            } else {
                if x < 48 {
                    if x < 40 { if x < 36 { if x < 34 { if x < 33 { 0x60 } else { 0x63 } } else { if x < 35 { 0x66 } else { 0x65 } } } else { if x < 38 { if x < 37 { 0x6c } else { 0x6f } } else { if x < 39 { 0x6a } else { 0x69 } } } } else { if x < 44 { if x < 42 { if x < 41 { 0x78 } else { 0x7b } } else { if x < 43 { 0x7e } else { 0x7d } } } else { if x < 46 { if x < 45 { 0x74 } else { 0x77 } } else { if x < 47 { 0x72 } else { 0x71 } } } }
                } else {
                    if x < 56 { if x < 52 { if x < 50 { if x < 49 { 0x50 } else { 0x53 } } else { if x < 51 { 0x56 } else { 0x55 } } } else { if x < 54 { if x < 53 { 0x5c } else { 0x5f } } else { if x < 55 { 0x5a } else { 0x59 } } } } else { if x < 60 { if x < 58 { if x < 57 { 0x48 } else { 0x4b } } else { if x < 59 { 0x4e } else { 0x4d } } } else { if x < 62 { if x < 61 { 0x44 } else { 0x47 } } else { if x < 63 { 0x42 } else { 0x41 } } } }
                }
            }
        } else {
            if x < 96 {
                if x < 80 {
                    if x < 72 { if x < 68 { if x < 66 { if x < 65 { 0xc0 } else { 0xc3 } } else { if x < 67 { 0xc6 } else { 0xc5 } } } else { if x < 70 { if x < 69 { 0xcc } else { 0xcf } } else { if x < 71 { 0xca } else { 0xc9 } } } } else { if x < 76 { if x < 74 { if x < 73 { 0xd8 } else { 0xdb } } else { if x < 75 { 0xde } else { 0xdd } } } else { if x < 78 { if x < 77 { 0xd4 } else { 0xd7 } } else { if x < 79 { 0xd2 } else { 0xd1 } } } }
                } else {
                    if x < 88 { if x < 84 { if x < 82 { if x < 81 { 0xf0 } else { 0xf3 } } else { if x < 83 { 0xf6 } else { 0xf5 } } } else { if x < 86 { if x < 85 { 0xfc } else { 0xff } } else { if x < 87 { 0xfa } else { 0xf9 } } } } else { if x < 92 { if x < 90 { if x < 89 { 0xe8 } else { 0xeb } } else { if x < 91 { 0xee } else { 0xed } } } else { if x < 94 { if x < 93 { 0xe4 } else { 0xe7 } } else { if x < 95 { 0xe2 } else { 0xe1 } } } }
                }
            } else {
                if x < 112 {
                    if x < 104 { if x < 100 { if x < 98 { if x < 97 { 0xa0 } else { 0xa3 } } else { if x < 99 { 0xa6 } else { 0xa5 } } } else { if x < 102 { if x < 101 { 0xac } else { 0xaf } } else { if x < 103 { 0xaa } else { 0xa9 } } } } else { if x < 108 { if x < 106 { if x < 105 { 0xb8 } else { 0xbb } } else { if x < 107 { 0xbe } else { 0xbd } } } else { if x < 110 { if x < 109 { 0xb4 } else { 0xb7 } } else { if x < 111 { 0xb2 } else { 0xb1 } } } }
                } else {
                    if x < 120 { if x < 116 { if x < 114 { if x < 113 { 0x90 } else { 0x93 } } else { if x < 115 { 0x96 } else { 0x95 } } } else { if x < 118 { if x < 117 { 0x9c } else { 0x9f } } else { if x < 119 { 0x9a } else { 0x99 } } } } else { if x < 124 { if x < 122 { if x < 121 { 0x88 } else { 0x8b } } else { if x < 123 { 0x8e } else { 0x8d } } } else { if x < 126 { if x < 125 { 0x84 } else { 0x87 } } else { if x < 127 { 0x82 } else { 0x81 } } } }
                }
            }
        }
    } else {
        if x < 192 {
            if x < 160 {
                if x < 144 {
                    if x < 136 { if x < 132 { if x < 130 { if x < 129 { 0x9b } else { 0x98 } } else { if x < 131 { 0x9d } else { 0x9e } } } else { if x < 134 { if x < 133 { 0x97 } else { 0x94 } } else { if x < 135 { 0x91 } else { 0x92 } } } } else { if x < 140 { if x < 138 { if x < 137 { 0x83 } else { 0x80 } } else { if x < 139 { 0x85 } else { 0x86 } } } else { if x < 142 { if x < 141 { 0x8f } else { 0x8c } } else { if x < 143 { 0x89 } else { 0x8a } } } }
                } else {
                    if x < 152 { if x < 148 { if x < 146 { if x < 145 { 0xab } else { 0xa8 } } else { if x < 147 { 0xad } else { 0xae } } } else { if x < 150 { if x < 149 { 0xa7 } else { 0xa4 } } else { if x < 151 { 0xa1 } else { 0xa2 } } } } else { if x < 156 { if x < 154 { if x < 153 { 0xb3 } else { 0xb0 } } else { if x < 155 { 0xb5 } else { 0xb6 } } } else { if x < 158 { if x < 157 { 0xbf } else { 0xbc } } else { if x < 159 { 0xb9 } else { 0xba } } } }
                }
            } else {
                if x < 176 {
                    if x < 168 { if x < 164 { if x < 162 { if x < 161 { 0xfb } else { 0xf8 } } else { if x < 163 { 0xfd } else { 0xfe } } } else { if x < 166 { if x < 165 { 0xf7 } else { 0xf4 } } else { if x < 167 { 0xf1 } else { 0xf2 } } } } else { if x < 172 { if x < 170 { if x < 169 { 0xe3 } else { 0xe0 } } else { if x < 171 { 0xe5 } else { 0xe6 } } } else { if x < 174 { if x < 173 { 0xef } else { 0xec } } else { if x < 175 { 0xe9 } else { 0xea } } } }
                } else {
                    if x < 184 { if x < 180 { if x < 178 { if x < 177 { 0xcb } else { 0xc8 } } else { if x < 179 { 0xcd } else { 0xce } } } else { if x < 182 { if x < 181 { 0xc7 } else { 0xc4 } } else { if x < 183 { 0xc1 } else { 0xc2 } } } } else { if x < 188 { if x < 186 { if x < 185 { 0xd3 } else { 0xd0 } } else { if x < 187 { 0xd5 } else { 0xd6 } } } else { if x < 190 { if x < 189 { 0xdf } else { 0xdc } } else { if x < 191 { 0xd9 } else { 0xda } } } }
                }
            }
        } else {
            if x < 224 {
                if x < 208 {
                    if x < 200 { if x < 196 { if x < 194 { if x < 193 { 0x5b } else { 0x58 } } else { if x < 195 { 0x5d } else { 0x5e } } } else { if x < 198 { if x < 197 { 0x57 } else { 0x54 } } else { if x < 199 { 0x51 } else { 0x52 } } } } else { if x < 204 { if x < 202 { if x < 201 { 0x43 } else { 0x40 } } else { if x < 203 { 0x45 } else { 0x46 } } } else { if x < 206 { if x < 205 { 0x4f } else { 0x4c } } else { if x < 207 { 0x49 } else { 0x4a } } } }
                } else {
                    if x < 216 { if x < 212 { if x < 210 { if x < 209 { 0x6b } else { 0x68 } } else { if x < 211 { 0x6d } else { 0x6e } } } else { if x < 214 { if x < 213 { 0x67 } else { 0x64 } } else { if x < 215 { 0x61 } else { 0x62 } } } } else { if x < 220 { if x < 218 { if x < 217 { 0x73 } else { 0x70 } } else { if x < 219 { 0x75 } else { 0x76 } } } else { if x < 222 { if x < 221 { 0x7f } else { 0x7c } } else { if x < 223 { 0x79 } else { 0x7a } } } }
                }
            } else {
                if x < 240 {
                    if x < 232 { if x < 228 { if x < 226 { if x < 225 { 0x3b } else { 0x38 } } else { if x < 227 { 0x3d } else { 0x3e } } } else { if x < 230 { if x < 229 { 0x37 } else { 0x34 } } else { if x < 231 { 0x31 } else { 0x32 } } } } else { if x < 236 { if x < 234 { if x < 233 { 0x23 } else { 0x20 } } else { if x < 235 { 0x25 } else { 0x26 } } } else { if x < 238 { if x < 237 { 0x2f } else { 0x2c } } else { if x < 239 { 0x29 } else { 0x2a } } } }
                } else {
                    if x < 248 { if x < 244 { if x < 242 { if x < 241 { 0x0b } else { 0x08 } } else { if x < 243 { 0x0d } else { 0x0e } } } else { if x < 246 { if x < 245 { 0x07 } else { 0x04 } } else { if x < 247 { 0x01 } else { 0x02 } } } } else { if x < 252 { if x < 250 { if x < 249 { 0x13 } else { 0x10 } } else { if x < 251 { 0x15 } else { 0x16 } } } else { if x < 254 { if x < 253 { 0x1f } else { 0x1c } } else { if x < 255 { 0x19 } else { 0x1a } } } }
                }
            }
        }
    }
}

/// The entries of `MUL9`, read as a search over `x`.
pub closed spec fn mul9_entry(x: u8) -> u8 {
    if x < 128 {
        if x < 64 {
            if x < 32 {
                if x < 16 {
                    if x < 8 { if x < 4 { if x < 2 { if x < 1 { 0x00 } else { 0x09 } } else { if x < 3 { 0x12 } else { 0x1b } } } else { if x < 6 { if x < 5 { 0x24 } else { 0x2d } } else { if x < 7 { 0x36 } else { 0x3f } } } } else { if x < 12 { if x < 10 { if x < 9 { 0x48 } else { 0x41 } } else { if x < 11 { 0x5a } else { 0x53 } } } else { if x < 14 { if x < 13 { 0x6c } else { 0x65 } } else { if x < 15 { 0x7e } else { 0x77 } } } }
                } else {
                    if x < 24 { if x < 20 { if x < 18 { if x < 17 { 0x90 } else { 0x99 } } else { if x < 19 { 0x82 } else { 0x8b } } } else { if x < 22 { if x < 21 { 0xb4 } else { 0xbd } } else { if x < 23 { 0xa6 } else { 0xaf } } } } else { if x < 28 { if x < 26 { if x < 25 { 0xd8 } else { 0xd1 } } else { if x < 27 { 0xca } else { 0xc3 } } } else { if x < 30 { if x < 29 { 0xfc } else { 0xf5 } } else { if x < 31 { 0xee } else { 0xe7 } } } }
                }
            } else {
                if x < 48 {
                    if x < 40 { if x < 36 { if x < 34 { if x < 33 { 0x3b } else { 0x32 } } else { if x < 35 { 0x29 } else { 0x20 } } } else { if x < 38 { if x < 37 { 0x1f } else { 0x16 } } else { if x < 39 { 0x0d } else { 0x04 } } } } else { if x < 44 { if x < 42 { if x < 41 { 0x73 } else { 0x7a } } else { if x < 43 { 0x61 } else { 0x68 } } } else { if x < 46 { if x < 45 { 0x57 } else { 0x5e } } else { if x < 47 { 0x45 } else { 0x4c } } } }
                } else {
                    if x < 56 { if x < 52 { if x < 50 { if x < 49 { 0xab } else { 0xa2 } } else { if x < 51 { 0xb9 } else { 0xb0 } } } else { if x < 54 { if x < 53 { 0x8f } else { 0x86 } } else { if x < 55 { 0x9d } else { 0x94 } } } } else { if x < 60 { if x < 58 { if x < 57 { 0xe3 } else { 0xea } } else { if x < 59 { 0xf1 } else { 0xf8 } } } else { if x < 62 { if x < 61 { 0xc7 } else { 0xce } } else { if x < 63 { 0xd5 } else { 0xdc } } } }
                }
            }
        } else {
            if x < 96 {
                if x < 80 {
                    if x < 72 { if x < 68 { if x < 66 { if x < 65 { 0x76 } else { 0x7f } } else { if x < 67 { 0x64 } else { 0x6d } } } else { if x < 70 { if x < 69 { 0x52 } else { 0x5b } } else { if x < 71 { 0x40 } else { 0x49 } } } } else { if x < 76 { if x < 74 { if x < 73 { 0x3e } else { 0x37 } } else { if x < 75 { 0x2c } else { 0x25 } } } else { if x < 78 { if x < 77 { 0x1a } else { 0x13 } } else { if x < 79 { 0x08 } else { 0x01 } } } }
                } else {
                    if x < 88 { if x < 84 { if x < 82 { if x < 81 { 0xe6 } else { 0xef } } else { if x < 83 { 0xf4 } else { 0xfd } } } else { if x < 86 { if x < 85 { 0xc2 } else { 0xcb } } else { if x < 87 { 0xd0 } else { 0xd9 } } } } else { if x < 92 { if x < 90 { if x < 89 { 0xae } else { 0xa7 } } else { if x < 91 { 0xbc } else { 0xb5 } } } else { if x < 94 { if x < 93 { 0x8a } else { 0x83 } } else { if x < 95 { 0x98 } else { 0x91 } } } }
                }
            } else {
                if x < 112 {
                    if x < 104 { if x < 100 { if x < 98 { if x < 97 { 0x4d } else { 0x44 } } else { if x < 99 { 0x5f } else { 0x56 } } } else { if x < 102 { if x < 101 { 0x69 } else { 0x60 } } else { if x < 103 { 0x7b } else { 0x72 } } } } else { if x < 108 { if x < 106 { if x < 105 { 0x05 } else { 0x0c } } else { if x < 107 { 0x17 } else { 0x1e } } } else { if x < 110 { if x < 109 { 0x21 } else { 0x28 } } else { if x < 111 { 0x33 } else { 0x3a } } } }
                } else {
                    if x < 120 { if x < 116 { if x < 114 { if x < 113 { 0xdd } else { 0xd4 } } else { if x < 115 { 0xcf } else { 0xc6 } } } else { if x < 118 { if x < 117 { 0xf9 } else { 0xf0 } } else { if x < 119 { 0xeb } else { 0xe2 } } } } else { if x < 124 { if x < 122 { if x < 121 { 0x95 } else { 0x9c } } else { if x < 123 { 0x87 } else { 0x8e } } } else { if x < 126 { if x < 125 { 0xb1 } else { 0xb8 } } else { if x < 127 { 0xa3 } else { 0xaa } } } }
                }
            }
        }
    } else {
        if x < 192 {
            if x < 160 {
                if x < 144 {
                    if x < 136 { if x < 132 { if x < 130 { if x < 129 { 0xec } else { 0xe5 } } else { if x < 131 { 0xfe } else { 0xf7 } } } else { if x < 134 { if x < 133 { 0xc8 } else { 0xc1 } } else { if x < 135 { 0xda } else { 0xd3 } } } } else { if x < 140 { if x < 138 { if x < 137 { 0xa4 } else { 0xad } } else { if x < 139 { 0xb6 } else { 0xbf } } } else { if x < 142 { if x < 141 { 0x80 } else { 0x89 } } else { if x < 143 { 0x92 } else { 0x9b } } } }
                } else {
                    if x < 152 { if x < 148 { if x < 146 { if x < 145 { 0x7c } else { 0x75 } } else { if x < 147 { 0x6e } else { 0x67 } } } else { if x < 150 { if x < 149 { 0x58 } else { 0x51 } } else { if x < 151 { 0x4a } else { 0x43 } } } } else { if x < 156 { if x < 154 { if x < 153 { 0x34 } else { 0x3d } } else { if x < 155 { 0x26 } else { 0x2f } } } else { if x < 158 { if x < 157 { 0x10 } else { 0x19 } } else { if x < 159 { 0x02 } else { 0x0b } } } }
                }
            } else {
                if x < 176 {
                    if x < 168 { if x < 164 { if x < 162 { if x < 161 { 0xd7 } else { 0xde } } else { if x < 163 { 0xc5 } else { 0xcc } } } else { if x < 166 { if x < 165 { 0xf3 } else { 0xfa } } else { if x < 167 { 0xe1 } else { 0xe8 } } } } else { if x < 172 { if x < 170 { if x < 169 { 0x9f } else { 0x96 } } else { if x < 171 { 0x8d } else { 0x84 } } } else { if x < 174 { if x < 173 { 0xbb } else { 0xb2 } } else { if x < 175 { 0xa9 } else { 0xa0 } } } }
                } else {
                    if x < 184 { if x < 180 { if x < 178 { if x < 177 { 0x47 } else { 0x4e } } else { if x < 179 { 0x55 } else { 0x5c } } } else { if x < 182 { if x < 181 { 0x63 } else { 0x6a } } else { if x < 183 { 0x71 } else { 0x78 } } } } else { if x < 188 { if x < 186 { if x < 185 { 0x0f } else { 0x06 } } else { if x < 187 { 0x1d } else { 0x14 } } } else { if x < 190 { if x < 189 { 0x2b } else { 0x22 } } else { if x < 191 { 0x39 } else { 0x30 } } } }
                }
            }
        } else {
            if x < 224 {
                if x < 208 {
                    if x < 200 { if x < 196 { if x < 194 { if x < 193 { 0x9a } else { 0x93 } } else { if x < 195 { 0x88 } else { 0x81 } } } else { if x < 198 { if x < 197 { 0xbe } else { 0xb7 } } else { if x < 199 { 0xac } else { 0xa5 } } } } else { if x < 204 { if x < 202 { if x < 201 { 0xd2 } else { 0xdb } } else { if x < 203 { 0xc0 } else { 0xc9 } } } else { if x < 206 { if x < 205 { 0xf6 } else { 0xff } } else { if x < 207 { 0xe4 } else { 0xed } } } }
                } else {
                    if x < 216 { if x < 212 { if x < 210 { if x < 209 { 0x0a } else { 0x03 } } else { if x < 211 { 0x18 } else { 0x11 } } } else { if x < 214 { if x < 213 { 0x2e } else { 0x27 } } else { if x < 215 { 0x3c } else { 0x35 } } } } else { if x < 220 { if x < 218 { if x < 217 { 0x42 } else { 0x4b } } else { if x < 219 { 0x50 } else { 0x59 } } } else { if x < 222 { if x < 221 { 0x66 } else { 0x6f } } else { if x < 223 { 0x74 } else { 0x7d } } } }
                }
            } else {
                if x < 240 {
                    if x < 232 { if x < 228 { if x < 226 { if x < 225 { 0xa1 } else { 0xa8 } } else { if x < 227 { 0xb3 } else { 0xba } } } else { if x < 230 { if x < 229 { 0x85 } else { 0x8c } } else { if x < 231 { 0x97 } else { 0x9e } } } } else { if x < 236 { if x < 234 { if x < 233 { 0xe9 } else { 0xe0 } } else { if x < 235 { 0xfb } else { 0xf2 } } } else { if x < 238 { if x < 237 { 0xcd } else { 0xc4 } } else { if x < 239 { 0xdf } else { 0xd6 } } } }
                } else {
                    if x < 248 { if x < 244 { if x < 242 { if x < 241 { 0x31 } else { 0x38 } } else { if x < 243 { 0x23 } else { 0x2a } } } else { if x < 246 { if x < 245 { 0x15 } else { 0x1c } } else { if x < 247 { 0x07 } else { 0x0e } } } } else { if x < 252 { if x < 250 { if x < 249 { 0x79 } else { 0x70 } } else { if x < 251 { 0x6b } else { 0x62 } } } else { if x < 254 { if x < 253 { 0x5d } else { 0x54 } } else { if x < 255 { 0x4f } else { 0x46 } } } }
                }
            }
        }
    }
}

/// The entries of `MUL11`, read as a search over `x`.
pub closed spec fn mul11_entry(x: u8) -> u8 {
    if x < 128 {
        if x < 64 {
            if x < 32 {
                if x < 16 {
                    if x < 8 { if x < 4 { if x < 2 { if x < 1 { 0x00 } else { 0x0b } } else { if x < 3 { 0x16 } else { 0x1d } } } else { if x < 6 { if x < 5 { 0x2c } else { 0x27 } } else { if x < 7 { 0x3a } else { 0x31 } } } } else { if x < 12 { if x < 10 { if x < 9 { 0x58 } else { 0x53 } } else { if x < 11 { 0x4e } else { 0x45 } } } else { if x < 14 { if x < 13 { 0x74 } else { 0x7f } } else { if x < 15 { 0x62 } else { 0x69 } } } }
                } else {
                    if x < 24 { if x < 20 { if x < 18 { if x < 17 { 0xb0 } else { 0xbb } } else { if x < 19 { 0xa6 } else { 0xad } } } else { if x < 22 { if x < 21 { 0x9c } else { 0x97 } } else { if x < 23 { 0x8a } else { 0x81 } } } } else { if x < 28 { if x < 26 { if x < 25 { 0xe8 } else { 0xe3 } } else { if x < 27 { 0xfe } else { 0xf5 } } } else { if x < 30 { if x < 29 { 0xc4 } else { 0xcf } } else { if x < 31 { 0xd2 } else { 0xd9 } } } }
                }
            } else {
                if x < 48 {
                    if x < 40 { if x < 36 { if x < 34 { if x < 33 { 0x7b } else { 0x70 } } else { if x < 35 { 0x6d } else { 0x66 } } } else { if x < 38 { if x < 37 { 0x57 } else { 0x5c } } else { if x < 39 { 0x41 } else { 0x4a } } } } else { if x < 44 { if x < 42 { if x < 41 { 0x23 } else { 0x28 } } else { if x < 43 { 0x35 } else { 0x3e } } } else { if x < 46 { if x < 45 { 0x0f } else { 0x04 } } else { if x < 47 { 0x19 } else { 0x12 } } } }
                } else {
                    if x < 56 { if x < 52 { if x < 50 { if x < 49 { 0xcb } else { 0xc0 } } else { if x < 51 { 0xdd } else { 0xd6 } } } else { if x < 54 { if x < 53 { 0xe7 } else { 0xec } } else { if x < 55 { 0xf1 } else { 0xfa } } } } else { if x < 60 { if x < 58 { if x < 57 { 0x93 } else { 0x98 } } else { if x < 59 { 0x85 } else { 0x8e } } } else { if x < 62 { if x < 61 { 0xbf } else { 0xb4 } } else { if x < 63 { 0xa9 } else { 0xa2 } } } }
                }
            }
        } else {
            if x < 96 {
                if x < 80 {
                    if x < 72 { if x < 68 { if x < 66 { if x < 65 { 0xf6 } else { 0xfd } } else { if x < 67 { 0xe0 } else { 0xeb } } } else { if x < 70 { if x < 69 { 0xda } else { 0xd1 } } else { if x < 71 { 0xcc } else { 0xc7 } } } } else { if x < 76 { if x < 74 { if x < 73 { 0xae } else { 0xa5 } } else { if x < 75 { 0xb8 } else { 0xb3 } } } else { if x < 78 { if x < 77 { 0x82 } else { 0x89 } } else { if x < 79 { 0x94 } else { 0x9f } } } }
                } else {
                    if x < 88 { if x < 84 { if x < 82 { if x < 81 { 0x46 } else { 0x4d } } else { if x < 83 { 0x50 } else { 0x5b } } } else { if x < 86 { if x < 85 { 0x6a } else { 0x61 } } else { if x < 87 { 0x7c } else { 0x77 } } } } else { if x < 92 { if x < 90 { if x < 89 { 0x1e } else { 0x15 } } else { if x < 91 { 0x08 } else { 0x03 } } } else { if x < 94 { if x < 93 { 0x32 } else { 0x39 } } else { if x < 95 { 0x24 } else { 0x2f } } } }
                }
            } else {
                if x < 112 {
                    if x < 104 { if x < 100 { if x < 98 { if x < 97 { 0x8d } else { 0x86 } } else { if x < 99 { 0x9b } else { 0x90 } } } else { if x < 102 { if x < 101 { 0xa1 } else { 0xaa } } else { if x < 103 { 0xb7 } else { 0xbc } } } } else { if x < 108 { if x < 106 { if x < 105 { 0xd5 } else { 0xde } } else { if x < 107 { 0xc3 } else { 0xc8 } } } else { if x < 110 { if x < 109 { 0xf9 } else { 0xf2 } } else { if x < 111 { 0xef } else { 0xe4 } } } }
                } else {
                    if x < 120 { if x < 116 { if x < 114 { if x < 113 { 0x3d } else { 0x36 } } else { if x < 115 { 0x2b } else { 0x20 } } } else { if x < 118 { if x < 117 { 0x11 } else { 0x1a } } else { if x < 119 { 0x07 } else { 0x0c } } } } else { if x < 124 { if x < 122 { if x < 121 { 0x65 } else { 0x6e } } else { if x < 123 { 0x73 } else { 0x78 } } } else { if x < 126 { if x < 125 { 0x49 } else { 0x42 } } else { if x < 127 { 0x5f } else { 0x54 } } } }
                }
            }
        }
    } else {
        if x < 192 {
            if x < 160 {
                if x < 144 {
                    if x < 136 { if x < 132 { if x < 130 { if x < 129 { 0xf7 } else { 0xfc } } else { if x < 131 { 0xe1 } else { 0xea } } } else { if x < 134 { if x < 133 { 0xdb } else { 0xd0 } } else { if x < 135 { 0xcd } else { 0xc6 } } } } else { if x < 140 { if x < 138 { if x < 137 { 0xaf } else { 0xa4 } } else { if x < 139 { 0xb9 } else { 0xb2 } } } else { if x < 142 { if x < 141 { 0x83 } else { 0x88 } } else { if x < 143 { 0x95 } else { 0x9e } } } }
                } else {
                    if x < 152 { if x < 148 { if x < 146 { if x < 145 { 0x47 } else { 0x4c } } else { if x < 147 { 0x51 } else { 0x5a } } } else { if x < 150 { if x < 149 { 0x6b } else { 0x60 } } else { if x < 151 { 0x7d } else { 0x76 } } } } else { if x < 156 { if x < 154 { if x < 153 { 0x1f } else { 0x14 } } else { if x < 155 { 0x09 } else { 0x02 } } } else { if x < 158 { if x < 157 { 0x33 } else { 0x38 } } else { if x < 159 { 0x25 } else { 0x2e } } } }
                }
            } else {
                if x < 176 {
                    if x < 168 { if x < 164 { if x < 162 { if x < 161 { 0x8c } else { 0x87 } } else { if x < 163 { 0x9a } else { 0x91 } } } else { if x < 166 { if x < 165 { 0xa0 } else { 0xab } } else { if x < 167 { 0xb6 } else { 0xbd } } } } else { if x < 172 { if x < 170 { if x < 169 { 0xd4 } else { 0xdf } } else { if x < 171 { 0xc2 } else { 0xc9 } } } else { if x < 174 { if x < 173 { 0xf8 } else { 0xf3 } } else { if x < 175 { 0xee } else { 0xe5 } } } }
                } else {
                    if x < 184 { if x < 180 { if x < 178 { if x < 177 { 0x3c } else { 0x37 } } else { if x < 179 { 0x2a } else { 0x21 } } } else { if x < 182 { if x < 181 { 0x10 } else { 0x1b } } else { if x < 183 { 0x06 } else { 0x0d } } } } else { if x < 188 { if x < 186 { if x < 185 { 0x64 } else { 0x6f } } else { if x < 187 { 0x72 } else { 0x79 } } } else { if x < 190 { if x < 189 { 0x48 } else { 0x43 } } else { if x < 191 { 0x5e } else { 0x55 } } } }
                }
            }
        } else {
            if x < 224 {
                if x < 208 {
                    if x < 200 { if x < 196 { if x < 194 { if x < 193 { 0x01 } else { 0x0a } } else { if x < 195 { 0x17 } else { 0x1c } } } else { if x < 198 { if x < 197 { 0x2d } else { 0x26 } } else { if x < 199 { 0x3b } else { 0x30 } } } } else { if x < 204 { if x < 202 { if x < 201 { 0x59 } else { 0x52 } } else { if x < 203 { 0x4f } else { 0x44 } } } else { if x < 206 { if x < 205 { 0x75 } else { 0x7e } } else { if x < 207 { 0x63 } else { 0x68 } } } }
                } else {
                    if x < 216 { if x < 212 { if x < 210 { if x < 209 { 0xb1 } else { 0xba } } else { if x < 211 { 0xa7 } else { 0xac } } } else { if x < 214 { if x < 213 { 0x9d } else { 0x96 } } else { if x < 215 { 0x8b } else { 0x80 } } } } else { if x < 220 { if x < 218 { if x < 217 { 0xe9 } else { 0xe2 } } else { if x < 219 { 0xff } else { 0xf4 } } } else { if x < 222 { if x < 221 { 0xc5 } else { 0xce } } else { if x < 223 { 0xd3 } else { 0xd8 } } } }
                }
            } else {
                if x < 240 {
                    if x < 232 { if x < 228 { if x < 226 { if x < 225 { 0x7a } else { 0x71 } } else { if x < 227 { 0x6c } else { 0x67 } } } else { if x < 230 { if x < 229 { 0x56 } else { 0x5d } } else { if x < 231 { 0x40 } else { 0x4b } } } } else { if x < 236 { if x < 234 { if x < 233 { 0x22 } else { 0x29 } } else { if x < 235 { 0x34 } else { 0x3f } } } else { if x < 238 { if x < 237 { 0x0e } else { 0x05 } } else { if x < 239 { 0x18 } else { 0x13 } } } }
                } else {
                    if x < 248 { if x < 244 { if x < 242 { if x < 241 { 0xca } else { 0xc1 } } else { if x < 243 { 0xdc } else { 0xd7 } } } else { if x < 246 { if x < 245 { 0xe6 } else { 0xed } } else { if x < 247 { 0xf0 } else { 0xfb } } } } else { if x < 252 { if x < 250 { if x < 249 { 0x92 } else { 0x99 } } else { if x < 251 { 0x84 } else { 0x8f } } } else { if x < 254 { if x < 253 { 0xbe } else { 0xb5 } } else { if x < 255 { 0xa8 } else { 0xa3 } } } }
                }
            }
        }
    }
}

/// The entries of `MUL13`, read as a search over `x`.
pub closed spec fn mul13_entry(x: u8) -> u8 {
    if x < 128 {
        if x < 64 {
            if x < 32 {
                if x < 16 {
                    if x < 8 { if x < 4 { if x < 2 { if x < 1 { 0x00 } else { 0x0d } } else { if x < 3 { 0x1a } else { 0x17 } } } else { if x < 6 { if x < 5 { 0x34 } else { 0x39 } } else { if x < 7 { 0x2e } else { 0x23 } } } } else { if x < 12 { if x < 10 { if x < 9 { 0x68 } else { 0x65 } } else { if x < 11 { 0x72 } else { 0x7f } } } else { if x < 14 { if x < 13 { 0x5c } else { 0x51 } } else { if x < 15 { 0x46 } else { 0x4b } } } }
                } else {
                    if x < 24 { if x < 20 { if x < 18 { if x < 17 { 0xd0 } else { 0xdd } } else { if x < 19 { 0xca } else { 0xc7 } } } else { if x < 22 { if x < 21 { 0xe4 } else { 0xe9 } } else { if x < 23 { 0xfe } else { 0xf3 } } } } else { if x < 28 { if x < 26 { if x < 25 { 0xb8 } else { 0xb5 } } else { if x < 27 { 0xa2 } else { 0xaf } } } else { if x < 30 { if x < 29 { 0x8c } else { 0x81 } } else { if x < 31 { 0x96 } else { 0x9b } } } }
                }
            } else {
                if x < 48 {
                    if x < 40 { if x < 36 { if x < 34 { if x < 33 { 0xbb } else { 0xb6 } } else { if x < 35 { 0xa1 } else { 0xac } } } else { if x < 38 { if x < 37 { 0x8f } else { 0x82 } } else { if x < 39 { 0x95 } else { 0x98 } } } } else { if x < 44 { if x < 42 { if x < 41 { 0xd3 } else { 0xde } } else { if x < 43 { 0xc9 } else { 0xc4 } } } else { if x < 46 { if x < 45 { 0xe7 } else { 0xea } } else { if x < 47 { 0xfd } else { 0xf0 } } } }
                } else {
                    if x < 56 { if x < 52 { if x < 50 { if x < 49 { 0x6b } else { 0x66 } } else { if x < 51 { 0x71 } else { 0x7c } } } else { if x < 54 { if x < 53 { 0x5f } else { 0x52 } } else { if x < 55 { 0x45 } else { 0x48 } } } } else { if x < 60 { if x < 58 { if x < 57 { 0x03 } else { 0x0e } } else { if x < 59 { 0x19 } else { 0x14 } } } else { if x < 62 { if x < 61 { 0x37 } else { 0x3a } } else { if x < 63 { 0x2d } else { 0x20 } } } }
                }
            }
        } else {
            if x < 96 {
                if x < 80 {
                    if x < 72 { if x < 68 { if x < 66 { if x < 65 { 0x6d } else { 0x60 } } else { if x < 67 { 0x77 } else { 0x7a } } } else { if x < 70 { if x < 69 { 0x59 } else { 0x54 } } else { if x < 71 { 0x43 } else { 0x4e } } } } else { if x < 76 { if x < 74 { if x < 73 { 0x05 } else { 0x08 } } else { if x < 75 { 0x1f } else { 0x12 } } } else { if x < 78 { if x < 77 { 0x31 } else { 0x3c } } else { if x < 79 { 0x2b } else { 0x26 } } } }
                } else {
                    if x < 88 { if x < 84 { if x < 82 { if x < 81 { 0xbd } else { 0xb0 } } else { if x < 83 { 0xa7 } else { 0xaa } } } else { if x < 86 { if x < 85 { 0x89 } else { 0x84 } } else { if x < 87 { 0x93 } else { 0x9e } } } } else { if x < 92 { if x < 90 { if x < 89 { 0xd5 } else { 0xd8 } } else { if x < 91 { 0xcf } else { 0xc2 } } } else { if x < 94 { if x < 93 { 0xe1 } else { 0xec } } else { if x < 95 { 0xfb } else { 0xf6 } } } }
                }
            } else {
                if x < 112 {
                    if x < 104 { if x < 100 { if x < 98 { if x < 97 { 0xd6 } else { 0xdb } } else { if x < 99 { 0xcc } else { 0xc1 } } } else { if x < 102 { if x < 101 { 0xe2 } else { 0xef } } else { if x < 103 { 0xf8 } else { 0xf5 } } } } else { if x < 108 { if x < 106 { if x < 105 { 0xbe } else { 0xb3 } } else { if x < 107 { 0xa4 } else { 0xa9 } } } else { if x < 110 { if x < 109 { 0x8a } else { 0x87 } } else { if x < 111 { 0x90 } else { 0x9d } } } }
                } else {
                    if x < 120 { if x < 116 { if x < 114 { if x < 113 { 0x06 } else { 0x0b } } else { if x < 115 { 0x1c } else { 0x11 } } } else { if x < 118 { if x < 117 { 0x32 } else { 0x3f } } else { if x < 119 { 0x28 } else { 0x25 } } } } else { if x < 124 { if x < 122 { if x < 121 { 0x6e } else { 0x63 } } else { if x < 123 { 0x74 } else { 0x79 } } } else { if x < 126 { if x < 125 { 0x5a } else { 0x57 } } else { if x < 127 { 0x40 } else { 0x4d } } } }
                }
            }
        }
    } else {
        if x < 192 {
            if x < 160 {
                if x < 144 {
                    if x < 136 { if x < 132 { if x < 130 { if x < 129 { 0xda } else { 0xd7 } } else { if x < 131 { 0xc0 } else { 0xcd } } } else { if x < 134 { if x < 133 { 0xee } else { 0xe3 } } else { if x < 135 { 0xf4 } else { 0xf9 } } } } else { if x < 140 { if x < 138 { if x < 137 { 0xb2 } else { 0xbf } } else { if x < 139 { 0xa8 } else { 0xa5 } } } else { if x < 142 { if x < 141 { 0x86 } else { 0x8b } } else { if x < 143 { 0x9c } else { 0x91 } } } }
                } else {
                    if x < 152 { if x < 148 { if x < 146 { if x < 145 { 0x0a } else { 0x07 } } else { if x < 147 { 0x10 } else { 0x1d } } } else { if x < 150 { if x < 149 { 0x3e } else { 0x33 } } else { if x < 151 { 0x24 } else { 0x29 } } } } else { if x < 156 { if x < 154 { if x < 153 { 0x62 } else { 0x6f } } else { if x < 155 { 0x78 } else { 0x75 } } } else { if x < 158 { if x < 157 { 0x56 } else { 0x5b } } else { if x < 159 { 0x4c } else { 0x41 } } } }
                }
            } else {
                if x < 176 {
                    if x < 168 { if x < 164 { if x < 162 { if x < 161 { 0x61 } else { 0x6c } } else { if x < 163 { 0x7b } else { 0x76 } } } else { if x < 166 { if x < 165 { 0x55 } else { 0x58 } } else { if x < 167 { 0x4f } else { 0x42 } } } } else { if x < 172 { if x < 170 { if x < 169 { 0x09 } else { 0x04 } } else { if x < 171 { 0x13 } else { 0x1e } } } else { if x < 174 { if x < 173 { 0x3d } else { 0x30 } } else { if x < 175 { 0x27 } else { 0x2a } } } }
                } else {
                    if x < 184 { if x < 180 { if x < 178 { if x < 177 { 0xb1 } else { 0xbc } } else { if x < 179 { 0xab } else { 0xa6 } } } else { if x < 182 { if x < 181 { 0x85 } else { 0x88 } } else { if x < 183 { 0x9f } else { 0x92 } } } } else { if x < 188 { if x < 186 { if x < 185 { 0xd9 } else { 0xd4 } } else { if x < 187 { 0xc3 } else { 0xce } } } else { if x < 190 { if x < 189 { 0xed } else { 0xe0 } } else { if x < 191 { 0xf7 } else { 0xfa } } } }
                }
            }
        } else {
            if x < 224 {
                if x < 208 {
                    if x < 200 { if x < 196 { if x < 194 { if x < 193 { 0xb7 } else { 0xba } } else { if x < 195 { 0xad } else { 0xa0 } } } else { if x < 198 { if x < 197 { 0x83 } else { 0x8e } } else { if x < 199 { 0x99 } else { 0x94 } } } } else { if x < 204 { if x < 202 { if x < 201 { 0xdf } else { 0xd2 } } else { if x < 203 { 0xc5 } else { 0xc8 } } } else { if x < 206 { if x < 205 { 0xeb } else { 0xe6 } } else { if x < 207 { 0xf1 } else { 0xfc } } } }
                } else {
                    if x < 216 { if x < 212 { if x < 210 { if x < 209 { 0x67 } else { 0x6a } } else { if x < 211 { 0x7d } else { 0x70 } } } else { if x < 214 { if x < 213 { 0x53 } else { 0x5e } } else { if x < 215 { 0x49 } else { 0x44 } } } } else { if x < 220 { if x < 218 { if x < 217 { 0x0f } else { 0x02 } } else { if x < 219 { 0x15 } else { 0x18 } } } else { if x < 222 { if x < 221 { 0x3b } else { 0x36 } } else { if x < 223 { 0x21 } else { 0x2c } } } }
                }
            } else {
                if x < 240 {
                    if x < 232 { if x < 228 { if x < 226 { if x < 225 { 0x0c } else { 0x01 } } else { if x < 227 { 0x16 } else { 0x1b } } } else { if x < 230 { if x < 229 { 0x38 } else { 0x35 } } else { if x < 231 { 0x22 } else { 0x2f } } } } else { if x < 236 { if x < 234 { if x < 233 { 0x64 } else { 0x69 } } else { if x < 235 { 0x7e } else { 0x73 } } } else { if x < 238 { if x < 237 { 0x50 } else { 0x5d } } else { if x < 239 { 0x4a } else { 0x47 } } } }
                } else {
                    if x < 248 { if x < 244 { if x < 242 { if x < 241 { 0xdc } else { 0xd1 } } else { if x < 243 { 0xc6 } else { 0xcb } } } else { if x < 246 { if x < 245 { 0xe8 } else { 0xe5 } } else { if x < 247 { 0xf2 } else { 0xff } } } } else { if x < 252 { if x < 250 { if x < 249 { 0xb4 } else { 0xb9 } } else { if x < 251 { 0xae } else { 0xa3 } } } else { if x < 254 { if x < 253 { 0x80 } else { 0x8d } } else { if x < 255 { 0x9a } else { 0x97 } } } }
                }
            }
        }
    }
}

/// The entries of `MUL14`, read as a search over `x`.
pub closed spec fn mul14_entry(x: u8) -> u8 {
    if x < 128 {
        if x < 64 {
            if x < 32 {
                if x < 16 {
                    if x < 8 { if x < 4 { if x < 2 { if x < 1 { 0x00 } else { 0x0e } } else { if x < 3 { 0x1c } else { 0x12 } } } else { if x < 6 { if x < 5 { 0x38 } else { 0x36 } } else { if x < 7 { 0x24 } else { 0x2a } } } } else { if x < 12 { if x < 10 { if x < 9 { 0x70 } else { 0x7e } } else { if x < 11 { 0x6c } else { 0x62 } } } else { if x < 14 { if x < 13 { 0x48 } else { 0x46 } } else { if x < 15 { 0x54 } else { 0x5a } } } }
                } else {
                    if x < 24 { if x < 20 { if x < 18 { if x < 17 { 0xe0 } else { 0xee } } else { if x < 19 { 0xfc } else { 0xf2 } } } else { if x < 22 { if x < 21 { 0xd8 } else { 0xd6 } } else { if x < 23 { 0xc4 } else { 0xca } } } } else { if x < 28 { if x < 26 { if x < 25 { 0x90 } else { 0x9e } } else { if x < 27 { 0x8c } else { 0x82 } } } else { if x < 30 { if x < 29 { 0xa8 } else { 0xa6 } } else { if x < 31 { 0xb4 } else { 0xba } } } }
                }
            } else {
                if x < 48 {
                    if x < 40 { if x < 36 { if x < 34 { if x < 33 { 0xdb } else { 0xd5 } } else { if x < 35 { 0xc7 } else { 0xc9 } } } else { if x < 38 { if x < 37 { 0xe3 } else { 0xed } } else { if x < 39 { 0xff } else { 0xf1 } } } } else { if x < 44 { if x < 42 { if x < 41 { 0xab } else { 0xa5 } } else { if x < 43 { 0xb7 } else { 0xb9 } } } else { if x < 46 { if x < 45 { 0x93 } else { 0x9d } } else { if x < 47 { 0x8f } else { 0x81 } } } }
                } else {
                    if x < 56 { if x < 52 { if x < 50 { if x < 49 { 0x3b } else { 0x35 } } else { if x < 51 { 0x27 } else { 0x29 } } } else { if x < 54 { if x < 53 { 0x03 } else { 0x0d } } else { if x < 55 { 0x1f } else { 0x11 } } } } else { if x < 60 { if x < 58 { if x < 57 { 0x4b } else { 0x45 } } else { if x < 59 { 0x57 } else { 0x59 } } } else { if x < 62 { if x < 61 { 0x73 } else { 0x7d } } else { if x < 63 { 0x6f } else { 0x61 } } } }
                }
            }
        } else {
            if x < 96 {
                if x < 80 {
                    if x < 72 { if x < 68 { if x < 66 { if x < 65 { 0xad } else { 0xa3 } } else { if x < 67 { 0xb1 } else { 0xbf } } } else { if x < 70 { if x < 69 { 0x95 } else { 0x9b } } else { if x < 71 { 0x89 } else { 0x87 } } } } else { if x < 76 { if x < 74 { if x < 73 { 0xdd } else { 0xd3 } } else { if x < 75 { 0xc1 } else { 0xcf } } } else { if x < 78 { if x < 77 { 0xe5 } else { 0xeb } } else { if x < 79 { 0xf9 } else { 0xf7 } } } }
                } else {
                    if x < 88 { if x < 84 { if x < 82 { if x < 81 { 0x4d } else { 0x43 } } else { if x < 83 { 0x51 } else { 0x5f } } } else { if x < 86 { if x < 85 { 0x75 } else { 0x7b } } else { if x < 87 { 0x69 } else { 0x67 } } } } else { if x < 92 { if x < 90 { if x < 89 { 0x3d } else { 0x33 } } else { if x < 91 { 0x21 } else { 0x2f } } } else { if x < 94 { if x < 93 { 0x05 } else { 0x0b } } else { if x < 95 { 0x19 } else { 0x17 } } } }
                }
            } else {
                if x < 112 {
                    if x < 104 { if x < 100 { if x < 98 { if x < 97 { 0x76 } else { 0x78 } } else { if x < 99 { 0x6a } else { 0x64 } } } else { if x < 102 { if x < 101 { 0x4e } else { 0x40 } } else { if x < 103 { 0x52 } else { 0x5c } } } } else { if x < 108 { if x < 106 { if x < 105 { 0x06 } else { 0x08 } } else { if x < 107 { 0x1a } else { 0x14 } } } else { if x < 110 { if x < 109 { 0x3e } else { 0x30 } } else { if x < 111 { 0x22 } else { 0x2c } } } }
                } else {
                    if x < 120 { if x < 116 { if x < 114 { if x < 113 { 0x96 } else { 0x98 } } else { if x < 115 { 0x8a } else { 0x84 } } } else { if x < 118 { if x < 117 { 0xae } else { 0xa0 } } else { if x < 119 { 0xb2 } else { 0xbc } } } } else { if x < 124 { if x < 122 { if x < 121 { 0xe6 } else { 0xe8 } } else { if x < 123 { 0xfa } else { 0xf4 } } } else { if x < 126 { if x < 125 { 0xde } else { 0xd0 } } else { if x < 127 { 0xc2 } else { 0xcc } } } }
                }
            }
        }
    } else {
        if x < 192 {
            if x < 160 {
                if x < 144 {
                    if x < 136 { if x < 132 { if x < 130 { if x < 129 { 0x41 } else { 0x4f } } else { if x < 131 { 0x5d } else { 0x53 } } } else { if x < 134 { if x < 133 { 0x79 } else { 0x77 } } else { if x < 135 { 0x65 } else { 0x6b } } } } else { if x < 140 { if x < 138 { if x < 137 { 0x31 } else { 0x3f } } else { if x < 139 { 0x2d } else { 0x23 } } } else { if x < 142 { if x < 141 { 0x09 } else { 0x07 } } else { if x < 143 { 0x15 } else { 0x1b } } } }
                } else {
                    if x < 152 { if x < 148 { if x < 146 { if x < 145 { 0xa1 } else { 0xaf } } else { if x < 147 { 0xbd } else { 0xb3 } } } else { if x < 150 { if x < 149 { 0x99 } else { 0x97 } } else { if x < 151 { 0x85 } else { 0x8b } } } } else { if x < 156 { if x < 154 { if x < 153 { 0xd1 } else { 0xdf } } else { if x < 155 { 0xcd } else { 0xc3 } } } else { if x < 158 { if x < 157 { 0xe9 } else { 0xe7 } } else { if x < 159 { 0xf5 } else { 0xfb } } } }
                }
            } else {
                if x < 176 {
                    if x < 168 { if x < 164 { if x < 162 { if x < 161 { 0x9a } else { 0x94 } } else { if x < 163 { 0x86 } else { 0x88 } } } else { if x < 166 { if x < 165 { 0xa2 } else { 0xac } } else { if x < 167 { 0xbe } else { 0xb0 } } } } else { if x < 172 { if x < 170 { if x < 169 { 0xea } else { 0xe4 } } else { if x < 171 { 0xf6 } else { 0xf8 } } } else { if x < 174 { if x < 173 { 0xd2 } else { 0xdc } } else { if x < 175 { 0xce } else { 0xc0 } } } }
                } else {
                    if x < 184 { if x < 180 { if x < 178 { if x < 177 { 0x7a } else { 0x74 } } else { if x < 179 { 0x66 } else { 0x68 } } } else { if x < 182 { if x < 181 { 0x42 } else { 0x4c } } else { if x < 183 { 0x5e } else { 0x50 } } } } else { if x < 188 { if x < 186 { if x < 185 { 0x0a } else { 0x04 } } else { if x < 187 { 0x16 } else { 0x18 } } } else { if x < 190 { if x < 189 { 0x32 } else { 0x3c } } else { if x < 191 { 0x2e } else { 0x20 } } } }
                }
            }
        } else {
            if x < 224 {
                if x < 208 {
                    if x < 200 { if x < 196 { if x < 194 { if x < 193 { 0xec } else { 0xe2 } } else { if x < 195 { 0xf0 } else { 0xfe } } } else { if x < 198 { if x < 197 { 0xd4 } else { 0xda } } else { if x < 199 { 0xc8 } else { 0xc6 } } } } else { if x < 204 { if x < 202 { if x < 201 { 0x9c } else { 0x92 } } else { if x < 203 { 0x80 } else { 0x8e } } } else { if x < 206 { if x < 205 { 0xa4 } else { 0xaa } } else { if x < 207 { 0xb8 } else { 0xb6 } } } }
                } else {
                    if x < 216 { if x < 212 { if x < 210 { if x < 209 { 0x0c } else { 0x02 } } else { if x < 211 { 0x10 } else { 0x1e } } } else { if x < 214 { if x < 213 { 0x34 } else { 0x3a } } else { if x < 215 { 0x28 } else { 0x26 } } } } else { if x < 220 { if x < 218 { if x < 217 { 0x7c } else { 0x72 } } else { if x < 219 { 0x60 } else { 0x6e } } } else { if x < 222 { if x < 221 { 0x44 } else { 0x4a } } else { if x < 223 { 0x58 } else { 0x56 } } } }
                }
            } else {
                if x < 240 {
                    if x < 232 { if x < 228 { if x < 226 { if x < 225 { 0x37 } else { 0x39 } } else { if x < 227 { 0x2b } else { 0x25 } } } else { if x < 230 { if x < 229 { 0x0f } else { 0x01 } } else { if x < 231 { 0x13 } else { 0x1d } } } } else { if x < 236 { if x < 234 { if x < 233 { 0x47 } else { 0x49 } } else { if x < 235 { 0x5b } else { 0x55 } } } else { if x < 238 { if x < 237 { 0x7f } else { 0x71 } } else { if x < 239 { 0x63 } else { 0x6d } } } }
                } else {
                    if x < 248 { if x < 244 { if x < 242 { if x < 241 { 0xd7 } else { 0xd9 } } else { if x < 243 { 0xcb } else { 0xc5 } } } else { if x < 246 { if x < 245 { 0xef } else { 0xe1 } } else { if x < 247 { 0xf3 } else { 0xfd } } } } else { if x < 252 { if x < 250 { if x < 249 { 0xa7 } else { 0xa9 } } else { if x < 251 { 0xbb } else { 0xb5 } } } else { if x < 254 { if x < 253 { 0x9f } else { 0x91 } } else { if x < 255 { 0x83 } else { 0x8d } } } }
                }
            }
        }
    }
}

proof fn lemma_fsbox_entries()
    ensures
        forall|i: int| 0 <= i < 256 ==> #[trigger] FSBOX[i] == fsbox_entry(i as u8),
{
}

proof fn lemma_rsbox_entries()
    ensures
        forall|i: int| 0 <= i < 256 ==> #[trigger] RSBOX[i] == rsbox_entry(i as u8),
{
}

proof fn lemma_mul2_entries()
    ensures
        forall|i: int| 0 <= i < 256 ==> #[trigger] MUL2[i] == mul2_entry(i as u8),
{
}

proof fn lemma_mul3_entries()
    ensures
        forall|i: int| 0 <= i < 256 ==> #[trigger] MUL3[i] == mul3_entry(i as u8),
{
}

proof fn lemma_mul9_entries()
    ensures
        forall|i: int| 0 <= i < 256 ==> #[trigger] MUL9[i] == mul9_entry(i as u8),
{
}

proof fn lemma_mul11_entries()
    ensures
        forall|i: int| 0 <= i < 256 ==> #[trigger] MUL11[i] == mul11_entry(i as u8),
{
}

proof fn lemma_mul13_entries()
    ensures
        forall|i: int| 0 <= i < 256 ==> #[trigger] MUL13[i] == mul13_entry(i as u8),
{
}

proof fn lemma_mul14_entries()
    ensures
        forall|i: int| 0 <= i < 256 ==> #[trigger] MUL14[i] == mul14_entry(i as u8),
{
}

proof fn lemma_mul_entries(x: u8)
    by (bit_vector)
    ensures
        mul2_entry(x) == gf_mul(x, 2),
        mul3_entry(x) == gf_mul(x, 3),
        mul9_entry(x) == gf_mul(x, 9),
        mul11_entry(x) == gf_mul(x, 11),
        mul13_entry(x) == gf_mul(x, 13),
        mul14_entry(x) == gf_mul(x, 14),
{
}

/// What the forward table says of `x`: its entry, read back through the
/// inverse affine map, is an inverse of `x`.
proof fn lemma_fsbox_entry_inverts(x: u8)
    by (bit_vector)
    ensures
        x == 0 ==> fsbox_entry(x) == affine(0),
        x != 0 ==> gf_mul(x, inv_affine(fsbox_entry(x))) == 1,
        affine(inv_affine(fsbox_entry(x))) == fsbox_entry(x),
{
}

/// What the reverse table says of `y`: its entry is an inverse of `inv_affine(y)`.
proof fn lemma_rsbox_entry_inverts(y: u8)
    by (bit_vector)
    ensures
        inv_affine(y) == 0 ==> rsbox_entry(y) == 0,
        inv_affine(y) != 0 ==> gf_mul(inv_affine(y), rsbox_entry(y)) == 1,
{
}

/// Inverses in GF(2^8) are unique: every `b` with `a * b == 1` is the one that
/// the forward table names.
proof fn lemma_inverse_unique(a: u8, b: u8)
    by (bit_vector)
    requires
        gf_mul(a, b) == 1,
    ensures
        a != 0,
        b == inv_affine(fsbox_entry(a)),
{
}

#[verifier::rlimit(50)]
proof fn lemma_rsbox_entry_undoes(x: u8)
    by (bit_vector)
    ensures
        rsbox_entry(fsbox_entry(x)) == x,
{
}

#[verifier::rlimit(50)]
proof fn lemma_fsbox_entry_undoes(x: u8)
    by (bit_vector)
    ensures
        fsbox_entry(rsbox_entry(x)) == x,
{
}

/// The entry of `FSBOX` at `x` is the S-box of `x`.
pub proof fn lemma_fsbox(x: u8)
    ensures
        FSBOX[x as int] == sbox(x),
{
    lemma_fsbox_entries();
    lemma_fsbox_entry_inverts(x);
    if x != 0 {
        let w = inv_affine(fsbox_entry(x));
        assert(gf_mul(x, w) == 1);
        let c = choose|b: u8| gf_mul(x, b) == 1;
        lemma_inverse_unique(x, c);
    }
}

/// The entry of `RSBOX` at `y` is the inverse S-box of `y`.
pub proof fn lemma_rsbox(y: u8)
    ensures
        RSBOX[y as int] == inv_sbox(y),
{
    lemma_rsbox_entries();
    lemma_rsbox_entry_inverts(y);
    let a = inv_affine(y);
    if a != 0 {
        let w = rsbox_entry(y);
        assert(gf_mul(a, w) == 1);
        let c = choose|b: u8| gf_mul(a, b) == 1;
        lemma_inverse_unique(a, c);
        lemma_inverse_unique(a, w);
    }
}

/// The inverse S-box undoes the S-box, and the S-box undoes the inverse S-box.
pub proof fn lemma_sbox_inverse(x: u8)
    ensures
        inv_sbox(sbox(x)) == x,
        sbox(inv_sbox(x)) == x,
{
    lemma_fsbox_entries();
    lemma_rsbox_entries();
    lemma_fsbox(x);
    lemma_rsbox(x);
    lemma_fsbox(inv_sbox(x));
    lemma_rsbox(sbox(x));
    lemma_rsbox_entry_undoes(x);
    lemma_fsbox_entry_undoes(x);
}

proof fn lemma_affine_facts(y: u8)
    by (bit_vector)
    ensures
        inv_affine(affine(y)) == y,
        affine(0) == 0x63,
{
}

/// What the S-box is, in terms of the field: 0 goes to 0x63, and any other
/// byte `x` goes to a byte that the inverse affine map takes to an inverse of
/// `x`. Likewise the inverse S-box takes `y` to an inverse of
/// `inv_affine(y)`, or to 0 when that is 0.
pub proof fn lemma_sbox_field(x: u8)
    ensures
        x == 0 ==> sbox(x) == 0x63,
        x != 0 ==> gf_mul(x, inv_affine(sbox(x))) == 1,
        inv_affine(x) == 0 ==> inv_sbox(x) == 0,
        inv_affine(x) != 0 ==> gf_mul(inv_affine(x), inv_sbox(x)) == 1,
{
    lemma_affine_facts(gf_inv(x));
    lemma_affine_facts(0);
    lemma_fsbox_entries();
    lemma_fsbox_entry_inverts(x);
    if x != 0 {
        assert(gf_mul(x, inv_affine(fsbox_entry(x))) == 1);
        assert(gf_mul(x, gf_inv(x)) == 1);
    }
    lemma_rsbox_entries();
    lemma_rsbox_entry_inverts(x);
    let a = inv_affine(x);
    if a != 0 {
        assert(gf_mul(a, rsbox_entry(x)) == 1);
        assert(gf_mul(a, gf_inv(a)) == 1);
    }
}

/// Each multiplication table holds the product of its index and its constant.
pub proof fn lemma_mul_tables(x: u8)
    ensures
        MUL2[x as int] == gf_mul(x, 2),
        MUL3[x as int] == gf_mul(x, 3),
        MUL9[x as int] == gf_mul(x, 9),
        MUL11[x as int] == gf_mul(x, 11),
        MUL13[x as int] == gf_mul(x, 13),
        MUL14[x as int] == gf_mul(x, 14),
{
    lemma_mul2_entries();
    lemma_mul3_entries();
    lemma_mul9_entries();
    lemma_mul11_entries();
    lemma_mul13_entries();
    lemma_mul14_entries();
    lemma_mul_entries(x);
}

proof fn lemma_xtime_powers()
    by (bit_vector)
    ensures
        xtime(0x01) == 0x02,
        xtime(0x02) == 0x04,
        xtime(0x04) == 0x08,
        xtime(0x08) == 0x10,
        xtime(0x10) == 0x20,
        xtime(0x20) == 0x40,
        xtime(0x40) == 0x80,
        xtime(0x80) == 0x1b,
        xtime(0x1b) == 0x36,
{
}

/// Entries 1 to 10 of `RCON` are the round constants of the key schedule.
pub proof fn lemma_rcon_table(i: int)
    requires
        1 <= i <= 10,
    ensures
        RCON[i] == rcon(i as nat),
{
    lemma_xtime_powers();
    reveal_with_fuel(rcon, 11);
}

/// The S-box of `x`, read from `FSBOX`.
pub fn fsbox(x: u8) -> (r: u8)
    ensures
        r == sbox(x),
{
    proof {
        lemma_fsbox(x);
    }
    FSBOX[x as usize]
}

/// The inverse S-box of `x`, read from `RSBOX`.
pub fn rsbox(x: u8) -> (r: u8)
    ensures
        r == inv_sbox(x),
{
    proof {
        lemma_rsbox(x);
    }
    RSBOX[x as usize]
}

/// `x` times 2, read from `MUL2`.
pub fn mul2(x: u8) -> (r: u8)
    ensures
        r == gf_mul(x, 2),
{
    proof {
        lemma_mul_tables(x);
    }
    MUL2[x as usize]
}

/// `x` times 3, read from `MUL3`.
pub fn mul3(x: u8) -> (r: u8)
    ensures
        r == gf_mul(x, 3),
{
    proof {
        lemma_mul_tables(x);
    }
    MUL3[x as usize]
}

/// `x` times 9, read from `MUL9`.
pub fn mul9(x: u8) -> (r: u8)
    ensures
        r == gf_mul(x, 9),
{
    proof {
        lemma_mul_tables(x);
    }
    MUL9[x as usize]
}

/// `x` times 11, read from `MUL11`.
pub fn mul11(x: u8) -> (r: u8)
    ensures
        r == gf_mul(x, 11),
{
    proof {
        lemma_mul_tables(x);
    }
    MUL11[x as usize]
}

/// `x` times 13, read from `MUL13`.
pub fn mul13(x: u8) -> (r: u8)
    ensures
        r == gf_mul(x, 13),
{
    proof {
        lemma_mul_tables(x);
    }
    MUL13[x as usize]
}

/// `x` times 14, read from `MUL14`.
pub fn mul14(x: u8) -> (r: u8)
    ensures
        r == gf_mul(x, 14),
{
    proof {
        lemma_mul_tables(x);
    }
    MUL14[x as usize]
}

/// Round constant `i` of the key schedule, read from `RCON`.
pub fn rcon_entry(i: usize) -> (r: u8)
    requires
        1 <= i <= 10,
    ensures
        r == rcon(i as nat),
{
    proof {
        lemma_rcon_table(i as int);
    }
    RCON[i]
}

} // verus!
