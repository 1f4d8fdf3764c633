//! AES-128 after mbed TLS: the key schedule, the block cipher and its
//! inverse, and the ECB, CBC and OFB modes, each with a contract over the
//! mathematical definition of AES.
#![allow(non_snake_case, non_camel_case_types)]

pub mod aes;
pub mod gf;
pub mod laws;
pub mod spec;
pub mod tables;
