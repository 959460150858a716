//! Vectors and rotation matrices.
//!
//! Each coordinate is a single-precision float held as its IEEE-754 bit pattern.
use crate::bytes::{lemma_empty_concat, ByteReader, ByteWriter, DecodeError, FromBytes, FromBytesExact, ToBytesExact, decode_at, decode_prefix};
use vstd::prelude::*;

verus! {

/// A point or direction in 3D space.
#[derive(Clone, Copy, Debug, PartialEq, Eq, Structural)]
pub struct Vec3 {
    pub x: u32,
    pub y: u32,
    pub z: u32,
}

impl Vec3 {
    pub fn new(x: u32, y: u32, z: u32) -> (r: Self)
        ensures
            r == (Vec3 { x, y, z }),
    {
        Vec3 { x, y, z }
    }
}

impl FromBytesExact for Vec3 {
    open spec fn spec_num_bytes() -> nat {
        12
    }

    open spec fn spec_from_bytes(b: Seq<u8>) -> Result<Vec3, DecodeError> {
        Ok(Vec3 {
            x: decode_at::<u32>(b, 0)->Ok_0,
            y: decode_at::<u32>(b, 4)->Ok_0,
            z: decode_at::<u32>(b, 8)->Ok_0,
        })
    }

    fn num_bytes() -> (n: usize) {
        12
    }

    fn from_exact_bytes(bytes: &[u8]) -> (r: Result<Vec3, DecodeError>) {
        let mut reader = ByteReader::new(bytes);
        let x = reader.read::<u32>()?;
        let y = reader.read::<u32>()?;
        let z = reader.read::<u32>()?;
        Ok(Vec3 { x, y, z })
    }
}

impl ToBytesExact for Vec3 {
    open spec fn spec_to_bytes(&self) -> Seq<u8> {
        self.x.spec_to_bytes() + self.y.spec_to_bytes() + self.z.spec_to_bytes()
    }

    proof fn lemma_round_trip(&self) {
        self.x.lemma_round_trip();
        self.y.lemma_round_trip();
        self.z.lemma_round_trip();
        let b = self.spec_to_bytes();
        assert(b.subrange(0, 4) =~= self.x.spec_to_bytes());
        assert(b.subrange(4, 8) =~= self.y.spec_to_bytes());
        assert(b.subrange(8, 12) =~= self.z.spec_to_bytes());
    }

    fn to_bytes(&self) -> (r: Vec<u8>) {
        let mut w = ByteWriter::new();
        w.write(&self.x);
        w.write(&self.y);
        w.write(&self.z);
        proof {
            lemma_empty_concat(self.x.spec_to_bytes());
        }
        w.inner()
    }
}

impl FromBytes for Vec3 {
    fn from_bytes(bytes: &[u8]) -> (r: Result<Vec3, DecodeError>)
        ensures
            r == decode_prefix::<Vec3>(bytes@),
    {
        let mut reader = ByteReader::new(bytes);
        reader.read::<Vec3>()
    }
}

/// An orientation, as three orthonormal basis vectors.
#[derive(Clone, Copy, Debug, PartialEq, Eq, Structural)]
pub struct RotMat {
    pub forward: Vec3,
    pub right: Vec3,
    pub up: Vec3,
}

impl RotMat {
    pub fn new(forward: Vec3, right: Vec3, up: Vec3) -> (r: Self)
        ensures
            r == (RotMat { forward, right, up }),
    {
        RotMat { forward, right, up }
    }
}

impl FromBytesExact for RotMat {
    open spec fn spec_num_bytes() -> nat {
        36
    }

    open spec fn spec_from_bytes(b: Seq<u8>) -> Result<RotMat, DecodeError> {
        Ok(RotMat {
            forward: decode_at::<Vec3>(b, 0)->Ok_0,
            right: decode_at::<Vec3>(b, 12)->Ok_0,
            up: decode_at::<Vec3>(b, 24)->Ok_0,
        })
    }

    fn num_bytes() -> (n: usize) {
        36
    }

    fn from_exact_bytes(bytes: &[u8]) -> (r: Result<RotMat, DecodeError>) {
        let mut reader = ByteReader::new(bytes);
        let forward = reader.read::<Vec3>()?;
        let right = reader.read::<Vec3>()?;
        let up = reader.read::<Vec3>()?;
        Ok(RotMat { forward, right, up })
    }
}

impl ToBytesExact for RotMat {
    open spec fn spec_to_bytes(&self) -> Seq<u8> {
        self.forward.spec_to_bytes() + self.right.spec_to_bytes() + self.up.spec_to_bytes()
    }

    proof fn lemma_round_trip(&self) {
        self.forward.lemma_round_trip();
        self.right.lemma_round_trip();
        self.up.lemma_round_trip();
        let b = self.spec_to_bytes();
        assert(b.subrange(0, 12) =~= self.forward.spec_to_bytes());
        assert(b.subrange(12, 24) =~= self.right.spec_to_bytes());
        assert(b.subrange(24, 36) =~= self.up.spec_to_bytes());
    }

    fn to_bytes(&self) -> (r: Vec<u8>) {
        let mut w = ByteWriter::new();
        w.write(&self.forward);
        w.write(&self.right);
        w.write(&self.up);
        proof {
            lemma_empty_concat(self.forward.spec_to_bytes());
        }
        w.inner()
    }
}

} // verus!
