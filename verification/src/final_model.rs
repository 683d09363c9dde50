//! The final model store.
//!
//! A committed model is a byte blob: a small fixed-format tag — format
//! version, algorithm code, and the structural sub-kind (distance or
//! kernel) where the variant has one — followed by the family-specific
//! serialized parameter payload. The tag fully determines how the
//! payload is to be deserialized: no external state is needed, decoding
//! is the exact inverse of encoding, and a blob whose tag bytes are
//! corrupted is rejected rather than reinterpreted.

use vstd::prelude::*;
use vstd::arithmetic::div_mod::lemma_fundamental_div_mod;
use crate::catalog::Algorithm;
use crate::error::Error;
use crate::settings::{Distance, Kernel, RealParam};

verus! {

/// Version byte of the stored format.
pub const FORMAT_VERSION: u8 = 1;

/// The identity of a committed model: the algorithm family, with the
/// structural sub-kind where the family has one. The sub-kind is part
/// of the tag because it changes the shape of the serialized
/// parameters.
#[derive(Clone, Copy, Debug, PartialEq, Eq, Structural)]
pub enum ModelTag {
    LogisticRegression,
    RandomForestClassifier,
    KNNClassifier(Distance),
    DecisionTreeClassifier,
    GaussianNaiveBayes,
    CategoricalNaiveBayes,
    SVC(Kernel),
    Linear,
    SVR(Kernel),
    Lasso,
    Ridge,
    ElasticNet,
    DecisionTreeRegressor,
    RandomForestRegressor,
    KNNRegressor(Distance),
}

/// The algorithm family a tag names.
pub open spec fn spec_tag_algorithm(t: ModelTag) -> Algorithm {
    match t {
        ModelTag::LogisticRegression => Algorithm::LogisticRegression,
        ModelTag::RandomForestClassifier => Algorithm::RandomForestClassifier,
        ModelTag::KNNClassifier(_) => Algorithm::KNNClassifier,
        ModelTag::DecisionTreeClassifier => Algorithm::DecisionTreeClassifier,
        ModelTag::GaussianNaiveBayes => Algorithm::GaussianNaiveBayes,
        ModelTag::CategoricalNaiveBayes => Algorithm::CategoricalNaiveBayes,
        ModelTag::SVC(_) => Algorithm::SVC,
        ModelTag::Linear => Algorithm::Linear,
        ModelTag::SVR(_) => Algorithm::SVR,
        ModelTag::Lasso => Algorithm::Lasso,
        ModelTag::Ridge => Algorithm::Ridge,
        ModelTag::ElasticNet => Algorithm::ElasticNet,
        ModelTag::DecisionTreeRegressor => Algorithm::DecisionTreeRegressor,
        ModelTag::RandomForestRegressor => Algorithm::RandomForestRegressor,
        ModelTag::KNNRegressor(_) => Algorithm::KNNRegressor,
    }
}

impl ModelTag {
    /// The algorithm family this tag names.
    pub fn algorithm(self) -> (r: Algorithm)
        ensures
            r == spec_tag_algorithm(self),
    {
        match self {
            ModelTag::LogisticRegression => Algorithm::LogisticRegression,
            ModelTag::RandomForestClassifier => Algorithm::RandomForestClassifier,
            ModelTag::KNNClassifier(_) => Algorithm::KNNClassifier,
            ModelTag::DecisionTreeClassifier => Algorithm::DecisionTreeClassifier,
            ModelTag::GaussianNaiveBayes => Algorithm::GaussianNaiveBayes,
            ModelTag::CategoricalNaiveBayes => Algorithm::CategoricalNaiveBayes,
            ModelTag::SVC(_) => Algorithm::SVC,
            ModelTag::Linear => Algorithm::Linear,
            ModelTag::SVR(_) => Algorithm::SVR,
            ModelTag::Lasso => Algorithm::Lasso,
            ModelTag::Ridge => Algorithm::Ridge,
            ModelTag::ElasticNet => Algorithm::ElasticNet,
            ModelTag::DecisionTreeRegressor => Algorithm::DecisionTreeRegressor,
            ModelTag::RandomForestRegressor => Algorithm::RandomForestRegressor,
            ModelTag::KNNRegressor(_) => Algorithm::KNNRegressor,
        }
    }
}

/// A 16-bit value, two bytes, least significant first.
pub open spec fn spec_u16_le(x: u16) -> Seq<u8> {
    seq![(x as int % 256) as u8, (x as int / 256) as u8]
}

/// A 32-bit value, four bytes, least significant first.
pub open spec fn spec_u32_le(x: u32) -> Seq<u8> {
    spec_u16_le((x as int % 65536) as u16) + spec_u16_le((x as int / 65536) as u16)
}

/// The 16-bit value two bytes hold, least significant first.
pub open spec fn spec_u16_from_le(b0: u8, b1: u8) -> u16 {
    (b0 as int + 256 * (b1 as int)) as u16
}

/// The 32-bit value four bytes hold, least significant first.
pub open spec fn spec_u32_from_le(b0: u8, b1: u8, b2: u8, b3: u8) -> u32 {
    (spec_u16_from_le(b0, b1) as int + 65536 * (spec_u16_from_le(b2, b3) as int)) as u32
}

/// The byte form of a distance sub-kind.
pub open spec fn spec_distance_bytes(d: Distance) -> Seq<u8> {
    match d {
        Distance::Euclidean => seq![0u8],
        Distance::Manhattan => seq![1u8],
        Distance::Minkowski(p) => seq![2u8] + spec_u16_le(p),
        Distance::Mahalanobis => seq![3u8],
        Distance::Hamming => seq![4u8],
    }
}

/// The byte form of a kernel sub-kind.
pub open spec fn spec_kernel_bytes(k: Kernel) -> Seq<u8> {
    match k {
        Kernel::Linear => seq![0u8],
        Kernel::Polynomial(degree, gamma, coef) => seq![1u8] + spec_u32_le(degree.bits)
            + spec_u32_le(gamma.bits) + spec_u32_le(coef.bits),
        Kernel::RBF(gamma) => seq![2u8] + spec_u32_le(gamma.bits),
        Kernel::Sigmoid(gamma, coef) => seq![3u8] + spec_u32_le(gamma.bits) + spec_u32_le(
            coef.bits,
        ),
    }
}

/// The code byte of a tag: the algorithm's catalog position.
pub open spec fn spec_tag_code(t: ModelTag) -> u8 {
    crate::catalog::spec_catalog_index(spec_tag_algorithm(t)) as u8
}

/// The byte form of a tag: version, code, then the sub-kind where the
/// family has one.
pub open spec fn spec_tag_bytes(t: ModelTag) -> Seq<u8> {
    seq![FORMAT_VERSION, spec_tag_code(t)] + (match t {
        ModelTag::KNNClassifier(d) => spec_distance_bytes(d),
        ModelTag::KNNRegressor(d) => spec_distance_bytes(d),
        ModelTag::SVC(k) => spec_kernel_bytes(k),
        ModelTag::SVR(k) => spec_kernel_bytes(k),
        _ => Seq::<u8>::empty(),
    })
}

/// Decode a distance sub-kind from the front of a byte sequence:
/// the sub-kind and the bytes that follow it, or nothing if no
/// sub-kind starts the sequence.
pub open spec fn spec_decode_distance(b: Seq<u8>) -> Option<(Distance, Seq<u8>)> {
    if b.len() < 1 {
        None
    } else if b[0] == 0 {
        Some((Distance::Euclidean, b.skip(1)))
    } else if b[0] == 1 {
        Some((Distance::Manhattan, b.skip(1)))
    } else if b[0] == 2 {
        if b.len() < 3 {
            None
        } else {
            Some((Distance::Minkowski(spec_u16_from_le(b[1], b[2])), b.skip(3)))
        }
    } else if b[0] == 3 {
        Some((Distance::Mahalanobis, b.skip(1)))
    } else if b[0] == 4 {
        Some((Distance::Hamming, b.skip(1)))
    } else {
        None
    }
}

/// The 32-bit value at the front of a byte sequence.
pub open spec fn spec_u32_at(b: Seq<u8>, i: int) -> u32 {
    spec_u32_from_le(b[i], b[i + 1], b[i + 2], b[i + 3])
}

/// Decode a kernel sub-kind from the front of a byte sequence.
pub open spec fn spec_decode_kernel(b: Seq<u8>) -> Option<(Kernel, Seq<u8>)> {
    if b.len() < 1 {
        None
    } else if b[0] == 0 {
        Some((Kernel::Linear, b.skip(1)))
    } else if b[0] == 1 {
        if b.len() < 13 {
            None
        } else {
            Some(
                (
                    Kernel::Polynomial(
                        RealParam { bits: spec_u32_at(b, 1) },
                        RealParam { bits: spec_u32_at(b, 5) },
                        RealParam { bits: spec_u32_at(b, 9) },
                    ),
                    b.skip(13),
                ),
            )
        }
    } else if b[0] == 2 {
        if b.len() < 5 {
            None
        } else {
            Some((Kernel::RBF(RealParam { bits: spec_u32_at(b, 1) }), b.skip(5)))
        }
    } else if b[0] == 3 {
        if b.len() < 9 {
            None
        } else {
            Some(
                (
                    Kernel::Sigmoid(
                        RealParam { bits: spec_u32_at(b, 1) },
                        RealParam { bits: spec_u32_at(b, 5) },
                    ),
                    b.skip(9),
                ),
            )
        }
    } else {
        None
    }
}

/// Decode a stored blob: the tag and the payload that follows it, or
/// nothing if the blob does not begin with a well-formed tag.
pub open spec fn spec_decode_tag(b: Seq<u8>) -> Option<(ModelTag, Seq<u8>)> {
    if b.len() < 2 || b[0] != FORMAT_VERSION {
        None
    } else {
        let rest = b.skip(2);
        if b[1] == 0 {
            Some((ModelTag::LogisticRegression, rest))
        } else if b[1] == 1 {
            Some((ModelTag::RandomForestClassifier, rest))
        } else if b[1] == 2 {
            match spec_decode_distance(rest) {
                Some((d, p)) => Some((ModelTag::KNNClassifier(d), p)),
                None => None,
            }
        } else if b[1] == 3 {
            Some((ModelTag::DecisionTreeClassifier, rest))
        } else if b[1] == 4 {
            Some((ModelTag::GaussianNaiveBayes, rest))
        } else if b[1] == 5 {
            Some((ModelTag::CategoricalNaiveBayes, rest))
        } else if b[1] == 6 {
            match spec_decode_kernel(rest) {
                Some((k, p)) => Some((ModelTag::SVC(k), p)),
                None => None,
            }
        } else if b[1] == 7 {
            Some((ModelTag::Linear, rest))
        } else if b[1] == 8 {
            match spec_decode_kernel(rest) {
                Some((k, p)) => Some((ModelTag::SVR(k), p)),
                None => None,
            }
        } else if b[1] == 9 {
            Some((ModelTag::Lasso, rest))
        } else if b[1] == 10 {
            Some((ModelTag::Ridge, rest))
        } else if b[1] == 11 {
            Some((ModelTag::ElasticNet, rest))
        } else if b[1] == 12 {
            Some((ModelTag::DecisionTreeRegressor, rest))
        } else if b[1] == 13 {
            Some((ModelTag::RandomForestRegressor, rest))
        } else if b[1] == 14 {
            match spec_decode_distance(rest) {
                Some((d, p)) => Some((ModelTag::KNNRegressor(d), p)),
                None => None,
            }
        } else {
            None
        }
    }
}

/// Two bytes hold back the 16-bit value they were cut from.
proof fn lemma_u16_round_trip(x: u16)
    ensures
        spec_u16_from_le(spec_u16_le(x)[0], spec_u16_le(x)[1]) == x,
{
    lemma_fundamental_div_mod(x as int, 256);
}

/// Four bytes hold back the 32-bit value they were cut from.
proof fn lemma_u32_round_trip(x: u32)
    ensures
        spec_u32_from_le(
            spec_u32_le(x)[0],
            spec_u32_le(x)[1],
            spec_u32_le(x)[2],
            spec_u32_le(x)[3],
        ) == x,
{
    lemma_fundamental_div_mod(x as int, 65536);
    lemma_u16_round_trip((x as int % 65536) as u16);
    lemma_u16_round_trip((x as int / 65536) as u16);
}

/// Decoding a distance's bytes, whatever follows them, yields the
/// distance and exactly what followed.
proof fn lemma_distance_round_trip(d: Distance, rest: Seq<u8>)
    ensures
        spec_decode_distance(spec_distance_bytes(d) + rest) == Some((d, rest)),
{
    let b = spec_distance_bytes(d) + rest;
    match d {
        Distance::Minkowski(p) => {
            assert(b.skip(3) =~= rest);
            lemma_u16_round_trip(p);
            assert(b[1] == spec_u16_le(p)[0] && b[2] == spec_u16_le(p)[1]);
        },
        _ => {
            assert(b.skip(1) =~= rest);
        },
    }
}

/// Decoding a kernel's bytes, whatever follows them, yields the kernel
/// and exactly what followed.
proof fn lemma_kernel_round_trip(k: Kernel, rest: Seq<u8>)
    ensures
        spec_decode_kernel(spec_kernel_bytes(k) + rest) == Some((k, rest)),
{
    let b = spec_kernel_bytes(k) + rest;
    match k {
        Kernel::Linear => {
            assert(b.skip(1) =~= rest);
        },
        Kernel::Polynomial(degree, gamma, coef) => {
            assert(b.skip(13) =~= rest);
            lemma_u32_round_trip(degree.bits);
            lemma_u32_round_trip(gamma.bits);
            lemma_u32_round_trip(coef.bits);
            assert(forall|i: int| 0 <= i < 4 ==> b[1 + i] == spec_u32_le(degree.bits)[i]);
            assert(forall|i: int| 0 <= i < 4 ==> b[5 + i] == spec_u32_le(gamma.bits)[i]);
            assert(forall|i: int| 0 <= i < 4 ==> b[9 + i] == spec_u32_le(coef.bits)[i]);
            assert(spec_u32_at(b, 1) == degree.bits);
            assert(spec_u32_at(b, 5) == gamma.bits);
            assert(spec_u32_at(b, 9) == coef.bits);
        },
        Kernel::RBF(gamma) => {
            assert(b.skip(5) =~= rest);
            lemma_u32_round_trip(gamma.bits);
            assert(forall|i: int| 0 <= i < 4 ==> b[1 + i] == spec_u32_le(gamma.bits)[i]);
            assert(spec_u32_at(b, 1) == gamma.bits);
        },
        Kernel::Sigmoid(gamma, coef) => {
            assert(b.skip(9) =~= rest);
            lemma_u32_round_trip(gamma.bits);
            lemma_u32_round_trip(coef.bits);
            assert(forall|i: int| 0 <= i < 4 ==> b[1 + i] == spec_u32_le(gamma.bits)[i]);
            assert(forall|i: int| 0 <= i < 4 ==> b[5 + i] == spec_u32_le(coef.bits)[i]);
            assert(spec_u32_at(b, 1) == gamma.bits);
            assert(spec_u32_at(b, 5) == coef.bits);
        },
    }
}

/// Round trip: decoding an encoded blob yields exactly the tag and the
/// payload that were encoded. Together with `lemma_decode_sound` this
/// says the tag alone determines how a stored model is read back.
pub proof fn lemma_tag_round_trip(t: ModelTag, payload: Seq<u8>)
    ensures
        spec_decode_tag(spec_tag_bytes(t) + payload) == Some((t, payload)),
{
    let b = spec_tag_bytes(t) + payload;
    match t {
        ModelTag::KNNClassifier(d) => {
            assert(b.skip(2) =~= spec_distance_bytes(d) + payload);
            lemma_distance_round_trip(d, payload);
        },
        ModelTag::KNNRegressor(d) => {
            assert(b.skip(2) =~= spec_distance_bytes(d) + payload);
            lemma_distance_round_trip(d, payload);
        },
        ModelTag::SVC(k) => {
            assert(b.skip(2) =~= spec_kernel_bytes(k) + payload);
            lemma_kernel_round_trip(k, payload);
        },
        ModelTag::SVR(k) => {
            assert(b.skip(2) =~= spec_kernel_bytes(k) + payload);
            lemma_kernel_round_trip(k, payload);
        },
        _ => {
            assert(b.skip(2) =~= payload);
        },
    }
}

/// Encodings are unambiguous: no blob reads back as two different
/// models. A blob whose tag bytes were altered therefore either fails
/// to decode or decodes to a visibly different tag — never silently to
/// the variant it was encoded from.
pub proof fn lemma_tag_unambiguous(t1: ModelTag, p1: Seq<u8>, t2: ModelTag, p2: Seq<u8>)
    requires
        spec_tag_bytes(t1) + p1 == spec_tag_bytes(t2) + p2,
    ensures
        t1 == t2,
        p1 == p2,
{
    lemma_tag_round_trip(t1, p1);
    lemma_tag_round_trip(t2, p2);
}

/// Persistence round trip: a committed model written with `to_bytes`
/// and read back with `from_bytes` yields exactly the tag and payload
/// that were stored, so the winner chosen at commit time is the
/// predictor reconstructed at prediction time.
pub proof fn lemma_store_round_trip(m: FinalModel, bytes: Seq<u8>, r: Result<FinalModel, Error>)
    requires
        bytes == spec_tag_bytes(m.tag) + m.payload@,
        from_bytes_post(bytes, r),
    ensures
        match r {
            Ok(m2) => m2.tag == m.tag && m2.payload@ == m.payload@,
            Err(_) => false,
        },
{
    lemma_tag_round_trip(m.tag, m.payload@);
}

/// Append a 16-bit value, least significant byte first.
fn push_u16_le(out: &mut Vec<u8>, x: u16)
    ensures
        final(out)@ == old(out)@ + spec_u16_le(x),
{
    out.push((x % 256) as u8);
    out.push((x / 256) as u8);
    proof {
        assert(out@ =~= old(out)@ + spec_u16_le(x));
    }
}

/// Append a 32-bit value, least significant byte first.
fn push_u32_le(out: &mut Vec<u8>, x: u32)
    ensures
        final(out)@ == old(out)@ + spec_u32_le(x),
{
    push_u16_le(out, (x % 65536) as u16);
    push_u16_le(out, (x / 65536) as u16);
    proof {
        assert(out@ =~= old(out)@ + spec_u32_le(x));
    }
}

/// Append a distance sub-kind's bytes.
fn push_distance(out: &mut Vec<u8>, d: Distance)
    ensures
        final(out)@ == old(out)@ + spec_distance_bytes(d),
{
    match d {
        Distance::Euclidean => out.push(0),
        Distance::Manhattan => out.push(1),
        Distance::Minkowski(p) => {
            out.push(2);
            push_u16_le(out, p);
        },
        Distance::Mahalanobis => out.push(3),
        Distance::Hamming => out.push(4),
    }
    proof {
        assert(out@ =~= old(out)@ + spec_distance_bytes(d));
    }
}

/// Append a kernel sub-kind's bytes.
fn push_kernel(out: &mut Vec<u8>, k: Kernel)
    ensures
        final(out)@ == old(out)@ + spec_kernel_bytes(k),
{
    match k {
        Kernel::Linear => out.push(0),
        Kernel::Polynomial(degree, gamma, coef) => {
            out.push(1);
            push_u32_le(out, degree.bits);
            push_u32_le(out, gamma.bits);
            push_u32_le(out, coef.bits);
        },
        Kernel::RBF(gamma) => {
            out.push(2);
            push_u32_le(out, gamma.bits);
        },
        Kernel::Sigmoid(gamma, coef) => {
            out.push(3);
            push_u32_le(out, gamma.bits);
            push_u32_le(out, coef.bits);
        },
    }
    proof {
        assert(out@ =~= old(out)@ + spec_kernel_bytes(k));
    }
}

/// What decoding owes the caller: the encoded tag and payload whenever
/// the blob begins with a well-formed tag, the unknown-tag error
/// otherwise.
pub open spec fn from_bytes_post(b: Seq<u8>, r: Result<FinalModel, Error>) -> bool {
    match spec_decode_tag(b) {
        Some((t, p)) => match r {
            Ok(m) => m.tag == t && m.payload@ == p,
            Err(_) => false,
        },
        None => r == Err::<FinalModel, Error>(Error::UnknownTag),
    }
}

/// Decode a distance sub-kind starting at `off`: the sub-kind and the
/// offset just past it.
fn parse_distance(bytes: &Vec<u8>, off: usize) -> (r: Option<(Distance, usize)>)
    requires
        off <= bytes@.len(),
    ensures
        match r {
            Some((d, off2)) => off <= off2 <= bytes@.len() && spec_decode_distance(
                bytes@.skip(off as int),
            ) == Some((d, bytes@.skip(off2 as int))),
            None => spec_decode_distance(bytes@.skip(off as int)) is None,
        },
{
    let ghost s = bytes@.skip(off as int);
    if bytes.len() - off < 1 {
        return None;
    }
    let c = bytes[off];
    proof {
        assert(s[0] == bytes@[off as int]);
    }
    if c == 0 {
        proof {
            assert(s.skip(1) =~= bytes@.skip(off as int + 1));
        }
        Some((Distance::Euclidean, off + 1))
    } else if c == 1 {
        proof {
            assert(s.skip(1) =~= bytes@.skip(off as int + 1));
        }
        Some((Distance::Manhattan, off + 1))
    } else if c == 2 {
        if bytes.len() - off < 3 {
            return None;
        }
        let b0 = bytes[off + 1];
        let b1 = bytes[off + 2];
        let p: u16 = (b0 as u16) + 256 * (b1 as u16);
        proof {
            assert(s[1] == bytes@[off as int + 1] && s[2] == bytes@[off as int + 2]);
            assert(p == spec_u16_from_le(s[1], s[2]));
            assert(s.skip(3) =~= bytes@.skip(off as int + 3));
        }
        Some((Distance::Minkowski(p), off + 3))
    } else if c == 3 {
        proof {
            assert(s.skip(1) =~= bytes@.skip(off as int + 1));
        }
        Some((Distance::Mahalanobis, off + 1))
    } else if c == 4 {
        proof {
            assert(s.skip(1) =~= bytes@.skip(off as int + 1));
        }
        Some((Distance::Hamming, off + 1))
    } else {
        None
    }
}

/// Read the 32-bit value at `off`.
fn read_u32_le(bytes: &Vec<u8>, off: usize) -> (r: u32)
    requires
        off + 4 <= bytes@.len() <= usize::MAX,
    ensures
        r == spec_u32_from_le(
            bytes@[off as int],
            bytes@[off as int + 1],
            bytes@[off as int + 2],
            bytes@[off as int + 3],
        ),
{
    (bytes[off] as u32) + 256 * (bytes[off + 1] as u32) + 65536 * (bytes[off + 2] as u32)
        + 16777216 * (bytes[off + 3] as u32)
}

/// Decode a kernel sub-kind starting at `off`: the sub-kind and the
/// offset just past it.
fn parse_kernel(bytes: &Vec<u8>, off: usize) -> (r: Option<(Kernel, usize)>)
    requires
        off <= bytes@.len(),
    ensures
        match r {
            Some((k, off2)) => off <= off2 <= bytes@.len() && spec_decode_kernel(
                bytes@.skip(off as int),
            ) == Some((k, bytes@.skip(off2 as int))),
            None => spec_decode_kernel(bytes@.skip(off as int)) is None,
        },
{
    let ghost s = bytes@.skip(off as int);
    proof {
        assert(forall|i: int| 0 <= i < s.len() ==> s[i] == bytes@[off + i]);
    }
    if bytes.len() - off < 1 {
        return None;
    }
    let c = bytes[off];
    if c == 0 {
        proof {
            assert(s.skip(1) =~= bytes@.skip(off as int + 1));
        }
        Some((Kernel::Linear, off + 1))
    } else if c == 1 {
        if bytes.len() - off < 13 {
            return None;
        }
        let degree = RealParam { bits: read_u32_le(bytes, off + 1) };
        let gamma = RealParam { bits: read_u32_le(bytes, off + 5) };
        let coef = RealParam { bits: read_u32_le(bytes, off + 9) };
        proof {
            assert(s.skip(13) =~= bytes@.skip(off as int + 13));
        }
        Some((Kernel::Polynomial(degree, gamma, coef), off + 13))
    } else if c == 2 {
        if bytes.len() - off < 5 {
            return None;
        }
        let gamma = RealParam { bits: read_u32_le(bytes, off + 1) };
        proof {
            assert(s.skip(5) =~= bytes@.skip(off as int + 5));
        }
        Some((Kernel::RBF(gamma), off + 5))
    } else if c == 3 {
        if bytes.len() - off < 9 {
            return None;
        }
        let gamma = RealParam { bits: read_u32_le(bytes, off + 1) };
        let coef = RealParam { bits: read_u32_le(bytes, off + 5) };
        proof {
            assert(s.skip(9) =~= bytes@.skip(off as int + 9));
        }
        Some((Kernel::Sigmoid(gamma, coef), off + 9))
    } else {
        None
    }
}

/// A committed final model: the tag that names the winning variant's
/// concrete shape, and its serialized trained parameters.
#[derive(Clone, Debug, PartialEq, Eq)]
pub struct FinalModel {
    pub tag: ModelTag,
    pub payload: Vec<u8>,
}

impl FinalModel {
    /// The stored byte form: the tag's bytes, then the payload.
    pub fn to_bytes(&self) -> (r: Vec<u8>)
        ensures
            r@ == spec_tag_bytes(self.tag) + self.payload@,
    {
        let mut out: Vec<u8> = Vec::new();
        out.push(FORMAT_VERSION);
        out.push(self.tag.algorithm().catalog_index() as u8);
        match &self.tag {
            ModelTag::KNNClassifier(d) => push_distance(&mut out, *d),
            ModelTag::KNNRegressor(d) => push_distance(&mut out, *d),
            ModelTag::SVC(k) => push_kernel(&mut out, *k),
            ModelTag::SVR(k) => push_kernel(&mut out, *k),
            _ => {},
        }
        proof {
            assert(out@ =~= spec_tag_bytes(self.tag));
        }
        let mut i: usize = 0;
        while i < self.payload.len()
            invariant
                i <= self.payload@.len(),
                out@ == spec_tag_bytes(self.tag) + self.payload@.subrange(0, i as int),
            decreases self.payload@.len() - i,
        {
            out.push(self.payload[i]);
            proof {
                assert(out@ =~= spec_tag_bytes(self.tag) + self.payload@.subrange(0, i + 1 as int));
            }
            i = i + 1;
        }
        proof {
            assert(self.payload@.subrange(0, self.payload@.len() as int) =~= self.payload@);
        }
        out
    }

    /// Read a stored blob back. A blob that does not begin with a
    /// well-formed tag — wrong version, unknown code, or a truncated
    /// sub-kind — is rejected with `UnknownTag`.
    pub fn from_bytes(bytes: &Vec<u8>) -> (r: Result<FinalModel, Error>)
        ensures
            from_bytes_post(bytes@, r),
    {
        if bytes.len() < 2 {
            return Err(Error::UnknownTag);
        }
        if bytes[0] != FORMAT_VERSION {
            return Err(Error::UnknownTag);
        }
        let ghost rest = bytes@.skip(2);
        proof {
            assert(forall|i: int| 0 <= i < rest.len() ==> rest[i] == bytes@[2 + i]);
        }
        let code = bytes[1];
        let parsed: Option<(ModelTag, usize)> = if code == 0 {
            Some((ModelTag::LogisticRegression, 2))
        } else if code == 1 {
            Some((ModelTag::RandomForestClassifier, 2))
        } else if code == 2 {
            match parse_distance(bytes, 2) {
                Some((d, off)) => Some((ModelTag::KNNClassifier(d), off)),
                None => None,
            }
        } else if code == 3 {
            Some((ModelTag::DecisionTreeClassifier, 2))
        } else if code == 4 {
            Some((ModelTag::GaussianNaiveBayes, 2))
        } else if code == 5 {
            Some((ModelTag::CategoricalNaiveBayes, 2))
        } else if code == 6 {
            match parse_kernel(bytes, 2) {
                Some((k, off)) => Some((ModelTag::SVC(k), off)),
                None => None,
            }
        } else if code == 7 {
            Some((ModelTag::Linear, 2))
        } else if code == 8 {
            match parse_kernel(bytes, 2) {
                Some((k, off)) => Some((ModelTag::SVR(k), off)),
                None => None,
            }
        } else if code == 9 {
            Some((ModelTag::Lasso, 2))
        } else if code == 10 {
            Some((ModelTag::Ridge, 2))
        } else if code == 11 {
            Some((ModelTag::ElasticNet, 2))
        } else if code == 12 {
            Some((ModelTag::DecisionTreeRegressor, 2))
        } else if code == 13 {
            Some((ModelTag::RandomForestRegressor, 2))
        } else if code == 14 {
            match parse_distance(bytes, 2) {
                Some((d, off)) => Some((ModelTag::KNNRegressor(d), off)),
                None => None,
            }
        } else {
            None
        };
        match parsed {
            None => Err(Error::UnknownTag),
            Some((tag, off)) => {
                let mut payload: Vec<u8> = Vec::new();
                let mut i = off;
                while i < bytes.len()
                    invariant
                        off <= i <= bytes@.len(),
                        payload@ == bytes@.subrange(off as int, i as int),
                    decreases bytes@.len() - i,
                {
                    payload.push(bytes[i]);
                    proof {
                        assert(payload@ =~= bytes@.subrange(off as int, i + 1 as int));
                    }
                    i = i + 1;
                }
                proof {
                    assert(payload@ =~= bytes@.skip(off as int));
                }
                Ok(FinalModel { tag, payload })
            },
        }
    }
}

} // verus!
