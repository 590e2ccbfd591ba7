//! The instruction-set features of the running core, as a flat record of
//! named booleans for each architecture family.

use vstd::prelude::*;

verus! {

/// Identity and instruction-set features of the running CPU.
#[derive(Clone, Debug)]
pub struct CpuFeatures {
    pub arch: String,
    pub brand: Option<String>,
    pub family: Option<u32>,
    pub model: Option<u32>,
    pub stepping_id: Option<u32>,
    pub flags: CpuFeaturesFlags,
}

/// The feature flags of the running CPU, for its architecture family.
#[derive(Clone, Copy, Debug, PartialEq, Eq)]
pub enum CpuFeaturesFlags {
    X86(X86FeaturesFlags),
    Arm(ArmFeaturesFlags),
    Aarch64(Aarch64FeaturesFlags),
}

/// Feature flags of an x86 or x86-64 CPU.
#[derive(Clone, Copy, Debug, PartialEq, Eq, Default)]
pub struct X86FeaturesFlags {
    pub fpu: bool,
    pub aes: bool,
    pub pclmulqdq: bool,
    pub rdrand: bool,
    pub rdseed: bool,
    pub tsc: bool,
    pub mmx: bool,
    pub sse: bool,
    pub sse2: bool,
    pub sse3: bool,
    pub ssse3: bool,
    pub sse4_1: bool,
    pub sse4_2: bool,
    pub sse4a: bool,
    pub sha: bool,
    pub avx: bool,
    pub avx2: bool,
    pub avx512f: bool,
    pub avx512cd: bool,
    pub avx512er: bool,
    pub avx512pf: bool,
    pub avx512bw: bool,
    pub avx512dq: bool,
    pub avx512vl: bool,
    pub avx512ifma: bool,
    pub avx512vbmi: bool,
    pub avx512vpopcntdq: bool,
    pub avx512vbmi2: bool,
    pub avx512gfni: bool,
    pub avx512vaes: bool,
    pub avx512vpclmulqdq: bool,
    pub avx512vnni: bool,
    pub avx512bitalg: bool,
    pub avx512bf16: bool,
    pub avx512vp2intersect: bool,
    pub f16c: bool,
    pub fma: bool,
    pub bmi1: bool,
    pub bmi2: bool,
    pub abm: bool,
    pub lzcnt: bool,
    pub tbm: bool,
    pub popcnt: bool,
    pub fxsr: bool,
    pub xsave: bool,
    pub xsaveopt: bool,
    pub xsaves: bool,
    pub xsavec: bool,
    pub cmpxchg16b: bool,
    pub adx: bool,
    pub rtm: bool,
}

/// Feature flags of a 32-bit ARM CPU.
#[derive(Clone, Copy, Debug, PartialEq, Eq, Default)]
pub struct ArmFeaturesFlags {
    pub neon: bool,
    pub pmull: bool,
    pub crc: bool,
    pub crypto: bool,
    pub aes: bool,
    pub sha2: bool,
    pub i8mm: bool,
    pub v7: bool,
    pub vfp2: bool,
    pub vfp3: bool,
    pub vfp4: bool,
}

/// Feature flags of an AArch64 CPU.
#[derive(Clone, Copy, Debug, PartialEq, Eq, Default)]
pub struct Aarch64FeaturesFlags {
    pub asimd: bool,
    pub pmull: bool,
    pub fp: bool,
    pub fp16: bool,
    pub sve: bool,
    pub crc: bool,
    pub lse: bool,
    pub lse2: bool,
    pub rdm: bool,
    pub rcpc: bool,
    pub rcpc2: bool,
    pub dotprod: bool,
    pub tme: bool,
    pub fhm: bool,
    pub dit: bool,
    pub flagm: bool,
    pub ssbs: bool,
    pub sb: bool,
    pub paca: bool,
    pub pacg: bool,
    pub dpb: bool,
    pub dpb2: bool,
    pub sve2: bool,
    pub sve2_aes: bool,
    pub sve2_sm4: bool,
    pub sve2_sha3: bool,
    pub sve2_bitperm: bool,
    pub frintts: bool,
    pub i8mm: bool,
    pub f32mm: bool,
    pub f64mm: bool,
    pub bf16: bool,
    pub rand: bool,
    pub bti: bool,
    pub mte: bool,
    pub jsconv: bool,
    pub fcma: bool,
    pub aes: bool,
    pub sha2: bool,
    pub sha3: bool,
    pub sm4: bool,
}

} // verus!
