//! The commitment scheme: a move and a secret nonce are bound into an opaque
//! digest before the reveal stage, and a revealed pair is verified against the
//! stored digest.
//!
//! The bound bytes are the move's one-byte encoding followed by the nonce's
//! sixteen little-endian bytes; the digest is a 32-byte BLAKE2b hash of that
//! concatenation.

use vstd::prelude::*;
use crate::tipos::Jugada;

verus! {

/// The 32-byte BLAKE2b digest of a byte string. The digest is a function of
/// the input bytes alone; nothing further is assumed of it, in particular no
/// freedom from collisions.
pub uninterp spec fn blake2b_256_de(datos: Seq<u8>) -> Seq<u8>;

/// Relies on `blake2b_simd::Params::hash` with `hash_length(32)`: a pure
/// function of the input bytes, whose `as_bytes` view has the configured
/// length of 32.
#[verifier::external_body]
fn blake2b_256(datos: &Vec<u8>) -> (r: Vec<u8>)
    ensures
        r@ == blake2b_256_de(datos@),
        r@.len() == 32,
{
    let mut parametros = blake2b_simd::Params::new();
    parametros.hash_length(32);
    parametros.hash(datos.as_slice()).as_bytes().to_vec()
}

/// The one-byte encoding of a move.
pub open spec fn byte_de_jugada(j: Jugada) -> u8 {
    match j {
        Jugada::Piedra => 0,
        Jugada::Papel => 1,
        Jugada::Tijera => 2,
    }
}

/// The `cuantos` little-endian bytes of `n`.
pub open spec fn bytes_le(n: nat, cuantos: nat) -> Seq<u8>
    decreases cuantos,
{
    if cuantos == 0 {
        Seq::empty()
    } else {
        seq![(n % 256) as u8] + bytes_le(n / 256, (cuantos - 1) as nat)
    }
}

/// The byte string that a commitment binds: encoded move, then encoded nonce.
pub open spec fn datos_de(j: Jugada, nonce: u128) -> Seq<u8> {
    seq![byte_de_jugada(j)] + bytes_le(nonce as nat, 16)
}

/// The commitment digest of a move and a nonce.
pub open spec fn compromiso_de(j: Jugada, nonce: u128) -> Seq<u8> {
    blake2b_256_de(datos_de(j, nonce))
}

/// Encode a move as its single byte.
pub fn codifica_jugada(j: Jugada) -> (r: u8)
    ensures
        r == byte_de_jugada(j),
{
    match j {
        Jugada::Piedra => 0,
        Jugada::Papel => 1,
        Jugada::Tijera => 2,
    }
}

/// Build the byte string that a commitment binds.
fn codifica(j: Jugada, nonce: u128) -> (r: Vec<u8>)
    ensures
        r@ == datos_de(j, nonce),
{
    let mut v: Vec<u8> = Vec::new();
    v.push(codifica_jugada(j));
    let mut m: u128 = nonce;
    let mut k: usize = 0;
    while k < 16
        invariant
            k <= 16,
            v@.len() == 1 + k,
            datos_de(j, nonce) == v@ + bytes_le(m as nat, (16 - k) as nat),
        decreases 16 - k,
    {
        let byte: u8 = (m % 256) as u8;
        proof {
            assert(bytes_le(m as nat, (16 - k) as nat)
                == seq![byte] + bytes_le(m as nat / 256, (16 - k - 1) as nat));
            assert(v@ + bytes_le(m as nat, (16 - k) as nat)
                =~= v@.push(byte) + bytes_le(m as nat / 256, (16 - k - 1) as nat));
        }
        v.push(byte);
        m = m / 256;
        k += 1;
    }
    proof {
        assert(v@ + bytes_le(m as nat, 0) =~= v@);
    }
    v
}

/// Bind a move and a secret nonce into a commitment digest.
pub fn compromiso(j: Jugada, nonce: u128) -> (r: Vec<u8>)
    ensures
        r@ == compromiso_de(j, nonce),
        r@.len() == 32,
{
    let datos = codifica(j, nonce);
    blake2b_256(&datos)
}

/// Copy a byte string.
pub fn copia_bytes(v: &Vec<u8>) -> (r: Vec<u8>)
    ensures
        r@ == v@,
{
    let mut r: Vec<u8> = Vec::new();
    let mut i: usize = 0;
    while i < v.len()
        invariant
            i <= v@.len(),
            r@ == v@.subrange(0, i as int),
        decreases v@.len() - i,
    {
        r.push(v[i]);
        proof {
            assert(r@ =~= v@.subrange(0, i + 1));
        }
        i += 1;
    }
    proof {
        assert(v@.subrange(0, v@.len() as int) =~= v@);
    }
    r
}

/// Compare two byte strings for equality.
pub fn bytes_iguales(a: &Vec<u8>, b: &Vec<u8>) -> (r: bool)
    ensures
        r == (a@ == b@),
{
    if a.len() != b.len() {
        return false;
    }
    let mut i: usize = 0;
    while i < a.len()
        invariant
            i <= a@.len(),
            a@.len() == b@.len(),
            forall|k: int| 0 <= k < i ==> a@[k] == b@[k],
        decreases a@.len() - i,
    {
        if a[i] != b[i] {
            return false;
        }
        i += 1;
    }
    proof {
        assert(a@ =~= b@);
    }
    true
}

/// Recompute the commitment of a revealed move and nonce and compare it with
/// the stored digest.
pub fn verificar(j: Jugada, nonce: u128, esperado: &Vec<u8>) -> (r: bool)
    ensures
        r == (esperado@ == compromiso_de(j, nonce)),
{
    let calculado = compromiso(j, nonce);
    bytes_iguales(esperado, &calculado)
}

} // verus!
