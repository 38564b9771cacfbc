//! The sealed-buffer format used by the in-memory crypto handle for
//! client-scoped symmetric encryption. A sealed buffer is a self-framing
//! byte string: a header that records the master-key generation, the client
//! id, the optional passphrase, and the initialization vector, followed by
//! the plaintext masked with a keystream derived from that header. Opening
//! a buffer re-parses the frame, insists that every parameter matches the
//! one used at sealing time, and unmasks the body; a mismatch in any
//! parameter is rejected before any plaintext is produced.

use vstd::prelude::*;
use vstd::bytes::{
    lemma_auto_spec_u64_to_from_le_bytes, spec_u64_from_le_bytes, spec_u64_to_le_bytes,
    u64_from_le_bytes, u64_to_le_bytes,
};
use vstd::slice::{slice_subrange, slice_to_vec};

use crate::error::{Error, ErrorKind};
use crate::stream::{absorb_bytes, absorb_slice, bytes_eq, keystream, keystream_bytes,
    lemma_xor_involutive, xor_bytes, xor_with};

verus! {

/// Initial accumulator state for deriving a buffer's keystream.
pub const SEAL_SEED: u64 = 0x9E37_79B9_7F4A_7C15;

/// Number of framing bytes before the variable-length header fields.
pub const FIXED_HEADER_LEN: usize = 40;

/// View of an optional passphrase argument.
pub open spec fn opt_view(pass: Option<&[u8]>) -> Option<Seq<u8>> {
    match pass {
        Some(s) => Some(s@),
        None => None,
    }
}

/// Length of the passphrase material, zero when none was supplied.
pub open spec fn opt_len(pass: Option<Seq<u8>>) -> int {
    match pass {
        Some(p) => p.len() as int,
        None => 0,
    }
}

/// Header flag recording whether a passphrase was supplied.
pub open spec fn opt_flag(pass: Option<Seq<u8>>) -> u64 {
    match pass {
        Some(_) => 1,
        None => 0,
    }
}

/// The passphrase bytes themselves, empty when none was supplied.
pub open spec fn opt_bytes(pass: Option<Seq<u8>>) -> Seq<u8> {
    match pass {
        Some(p) => p,
        None => Seq::empty(),
    }
}

/// The frame header: five fixed-width fields (generation, client-id length,
/// passphrase flag, passphrase length, iv length) followed by the client id,
/// the passphrase bytes, and the iv.
pub open spec fn header(gen: u64, cid: Seq<u8>, pass: Option<Seq<u8>>, iv: Seq<u8>) -> Seq<u8> {
    spec_u64_to_le_bytes(gen) + spec_u64_to_le_bytes(cid.len() as u64) + spec_u64_to_le_bytes(
        opt_flag(pass),
    ) + spec_u64_to_le_bytes(opt_len(pass) as u64) + spec_u64_to_le_bytes(iv.len() as u64) + cid
        + opt_bytes(pass) + iv
}

/// Total header length for the given parameters.
pub open spec fn header_len(cid: Seq<u8>, pass: Option<Seq<u8>>, iv: Seq<u8>) -> int {
    40 + cid.len() + opt_len(pass) + iv.len()
}

/// A sealed buffer: the header followed by the plaintext masked with the
/// keystream derived from that header.
pub open spec fn seal(
    gen: u64,
    cid: Seq<u8>,
    pass: Option<Seq<u8>>,
    iv: Seq<u8>,
    p: Seq<u8>,
) -> Seq<u8> {
    let h = header(gen, cid, pass, iv);
    h + xor_bytes(p, keystream(absorb_bytes(SEAL_SEED, h), p.len()))
}

/// Generation recorded in a buffer's frame.
pub open spec fn frame_gen(c: Seq<u8>) -> u64 {
    spec_u64_from_le_bytes(c.subrange(0, 8))
}

/// Client-id length recorded in a buffer's frame.
pub open spec fn frame_cid_len(c: Seq<u8>) -> u64 {
    spec_u64_from_le_bytes(c.subrange(8, 16))
}

/// Passphrase flag recorded in a buffer's frame.
pub open spec fn frame_flag(c: Seq<u8>) -> u64 {
    spec_u64_from_le_bytes(c.subrange(16, 24))
}

/// Passphrase length recorded in a buffer's frame.
pub open spec fn frame_pass_len(c: Seq<u8>) -> u64 {
    spec_u64_from_le_bytes(c.subrange(24, 32))
}

/// Initialization-vector length recorded in a buffer's frame.
pub open spec fn frame_iv_len(c: Seq<u8>) -> u64 {
    spec_u64_from_le_bytes(c.subrange(32, 40))
}

/// Whether the byte string is a well-formed frame: long enough for the fixed
/// fields, a boolean passphrase flag consistent with the passphrase length,
/// and variable-length fields that fit inside the buffer.
pub open spec fn frame_ok(c: Seq<u8>) -> bool {
    &&& c.len() >= 40
    &&& (frame_flag(c) == 0 || frame_flag(c) == 1)
    &&& (frame_flag(c) == 0 ==> frame_pass_len(c) == 0)
    &&& 40 + frame_cid_len(c) + frame_pass_len(c) + frame_iv_len(c) <= c.len()
}

/// Header length recorded in a buffer's frame.
pub open spec fn frame_header_len(c: Seq<u8>) -> int {
    40 + frame_cid_len(c) + frame_pass_len(c) + frame_iv_len(c)
}

/// Client id recorded in a buffer's frame.
pub open spec fn frame_cid(c: Seq<u8>) -> Seq<u8> {
    c.subrange(40, 40 + frame_cid_len(c) as int)
}

/// Passphrase recorded in a buffer's frame, if the flag says one was used.
pub open spec fn frame_pass(c: Seq<u8>) -> Option<Seq<u8>> {
    if frame_flag(c) == 1 {
        Some(
            c.subrange(
                40 + frame_cid_len(c) as int,
                40 + frame_cid_len(c) + frame_pass_len(c),
            ),
        )
    } else {
        None
    }
}

/// Initialization vector recorded in a buffer's frame.
pub open spec fn frame_iv(c: Seq<u8>) -> Seq<u8> {
    c.subrange(40 + frame_cid_len(c) + frame_pass_len(c), frame_header_len(c))
}

/// Whether the buffer is a well-formed frame sealed under exactly these
/// parameters.
pub open spec fn is_sealed(
    gen: u64,
    cid: Seq<u8>,
    pass: Option<Seq<u8>>,
    iv: Seq<u8>,
    c: Seq<u8>,
) -> bool {
    &&& frame_ok(c)
    &&& frame_gen(c) == gen
    &&& frame_cid(c) == cid
    &&& frame_pass(c) == pass
    &&& frame_iv(c) == iv
}

/// The plaintext recovered from a buffer: the body unmasked with the
/// keystream derived from the buffer's own header. Meaningful when the
/// frame is well formed.
pub open spec fn unseal(c: Seq<u8>) -> Seq<u8>
    recommends
        frame_ok(c),
{
    let hl = frame_header_len(c);
    let body = c.subrange(hl, c.len() as int);
    xor_bytes(body, keystream(absorb_bytes(SEAL_SEED, c.subrange(0, hl)), body.len()))
}

/// Failure category reported when a buffer cannot be opened under the given
/// parameters: a malformed frame is invalid input, a generation from another
/// master key is a missing key, and any other parameter mismatch is a
/// cryptographic failure.
pub open spec fn open_err(gen: u64, c: Seq<u8>) -> ErrorKind {
    if !frame_ok(c) {
        ErrorKind::InvalidInput
    } else if frame_gen(c) != gen {
        ErrorKind::KeyNotFound
    } else {
        ErrorKind::CryptoFailure
    }
}

/// The header decomposes into its fields: each fixed-width field and each
/// variable-length part sits at its computed offset.
pub proof fn lemma_header_fields(gen: u64, cid: Seq<u8>, pass: Option<Seq<u8>>, iv: Seq<u8>)
    requires
        40 + cid.len() + opt_len(pass) + iv.len() <= u64::MAX,
    ensures
        header(gen, cid, pass, iv).len() == header_len(cid, pass, iv),
        header(gen, cid, pass, iv).subrange(0, 8) == spec_u64_to_le_bytes(gen),
        header(gen, cid, pass, iv).subrange(8, 16) == spec_u64_to_le_bytes(cid.len() as u64),
        header(gen, cid, pass, iv).subrange(16, 24) == spec_u64_to_le_bytes(opt_flag(pass)),
        header(gen, cid, pass, iv).subrange(24, 32) == spec_u64_to_le_bytes(opt_len(pass) as u64),
        header(gen, cid, pass, iv).subrange(32, 40) == spec_u64_to_le_bytes(iv.len() as u64),
        header(gen, cid, pass, iv).subrange(40, 40 + cid.len() as int) == cid,
        header(gen, cid, pass, iv).subrange(
            40 + cid.len() as int,
            40 + cid.len() + opt_len(pass),
        ) == opt_bytes(pass),
        header(gen, cid, pass, iv).subrange(
            40 + cid.len() + opt_len(pass),
            header_len(cid, pass, iv),
        ) == iv,
{
    lemma_auto_spec_u64_to_from_le_bytes();
    let h = header(gen, cid, pass, iv);
    assert(opt_bytes(pass).len() == opt_len(pass));
    assert(h.len() == header_len(cid, pass, iv));
    assert(h.subrange(0, 8) =~= spec_u64_to_le_bytes(gen));
    assert(h.subrange(8, 16) =~= spec_u64_to_le_bytes(cid.len() as u64));
    assert(h.subrange(16, 24) =~= spec_u64_to_le_bytes(opt_flag(pass)));
    assert(h.subrange(24, 32) =~= spec_u64_to_le_bytes(opt_len(pass) as u64));
    assert(h.subrange(32, 40) =~= spec_u64_to_le_bytes(iv.len() as u64));
    assert(h.subrange(40, 40 + cid.len() as int) =~= cid);
    assert(h.subrange(40 + cid.len() as int, 40 + cid.len() + opt_len(pass)) =~= opt_bytes(pass));
    assert(h.subrange(40 + cid.len() + opt_len(pass), header_len(cid, pass, iv)) =~= iv);
}

/// Round trip: a buffer sealed under given parameters is recognized as
/// sealed under exactly those parameters, and unsealing it yields the
/// original plaintext, for plaintext of any length.
pub proof fn lemma_seal_round_trip(
    gen: u64,
    cid: Seq<u8>,
    pass: Option<Seq<u8>>,
    iv: Seq<u8>,
    p: Seq<u8>,
)
    requires
        40 + cid.len() + opt_len(pass) + iv.len() <= u64::MAX,
    ensures
        is_sealed(gen, cid, pass, iv, seal(gen, cid, pass, iv, p)),
        unseal(seal(gen, cid, pass, iv, p)) == p,
        seal(gen, cid, pass, iv, p).len() == header_len(cid, pass, iv) + p.len(),
{
    lemma_auto_spec_u64_to_from_le_bytes();
    lemma_header_fields(gen, cid, pass, iv);
    let h = header(gen, cid, pass, iv);
    let hl = header_len(cid, pass, iv);
    let ks = keystream(absorb_bytes(SEAL_SEED, h), p.len());
    let c = seal(gen, cid, pass, iv, p);
    assert(xor_bytes(p, ks).len() == p.len());
    assert(c.len() == hl + p.len());
    assert(c.subrange(0, 8) =~= h.subrange(0, 8));
    assert(c.subrange(8, 16) =~= h.subrange(8, 16));
    assert(c.subrange(16, 24) =~= h.subrange(16, 24));
    assert(c.subrange(24, 32) =~= h.subrange(24, 32));
    assert(c.subrange(32, 40) =~= h.subrange(32, 40));
    assert(frame_gen(c) == gen);
    assert(frame_cid_len(c) == cid.len());
    assert(frame_flag(c) == opt_flag(pass));
    assert(frame_pass_len(c) == opt_len(pass));
    assert(frame_iv_len(c) == iv.len());
    assert(frame_ok(c));
    assert(frame_header_len(c) == hl);
    assert(c.subrange(40, 40 + cid.len() as int) =~= h.subrange(40, 40 + cid.len() as int));
    assert(frame_cid(c) == cid);
    assert(c.subrange(40 + cid.len() as int, 40 + cid.len() + opt_len(pass)) =~= h.subrange(
        40 + cid.len() as int,
        40 + cid.len() + opt_len(pass),
    ));
    assert(frame_pass(c) == pass);
    assert(c.subrange(40 + cid.len() + opt_len(pass), hl) =~= h.subrange(
        40 + cid.len() + opt_len(pass),
        hl,
    ));
    assert(frame_iv(c) == iv);
    assert(c.subrange(0, hl) =~= h);
    assert(c.subrange(hl, c.len() as int) =~= xor_bytes(p, ks));
    lemma_xor_involutive(p, ks);
    assert(unseal(c) == p);
}

/// The frame pins its parameters: whenever a buffer sealed under one set of
/// parameters is accepted as sealed under another, the two sets are equal.
pub proof fn lemma_seal_parameters_pinned(
    gen: u64,
    cid: Seq<u8>,
    pass: Option<Seq<u8>>,
    iv: Seq<u8>,
    p: Seq<u8>,
    gen2: u64,
    cid2: Seq<u8>,
    pass2: Option<Seq<u8>>,
    iv2: Seq<u8>,
)
    requires
        40 + cid.len() + opt_len(pass) + iv.len() <= u64::MAX,
        is_sealed(gen2, cid2, pass2, iv2, seal(gen, cid, pass, iv, p)),
    ensures
        gen2 == gen,
        cid2 == cid,
        pass2 == pass,
        iv2 == iv,
{
    lemma_seal_round_trip(gen, cid, pass, iv, p);
}

/// Mismatch rejection: a buffer sealed under one set of parameters is never
/// accepted under a different generation, client id, passphrase, or iv.
pub proof fn lemma_seal_mismatch_rejected(
    gen: u64,
    cid: Seq<u8>,
    pass: Option<Seq<u8>>,
    iv: Seq<u8>,
    p: Seq<u8>,
    gen2: u64,
    cid2: Seq<u8>,
    pass2: Option<Seq<u8>>,
    iv2: Seq<u8>,
)
    requires
        40 + cid.len() + opt_len(pass) + iv.len() <= u64::MAX,
        !(gen2 == gen && cid2 == cid && pass2 == pass && iv2 == iv),
    ensures
        !is_sealed(gen2, cid2, pass2, iv2, seal(gen, cid, pass, iv, p)),
{
    if is_sealed(gen2, cid2, pass2, iv2, seal(gen, cid, pass, iv, p)) {
        lemma_seal_parameters_pinned(gen, cid, pass, iv, p, gen2, cid2, pass2, iv2);
    }
}

/// Completeness of the frame check: any buffer accepted as sealed under
/// given parameters is exactly the seal of the plaintext it opens to, so
/// opening never accepts a buffer outside the image of sealing.
pub proof fn lemma_accepted_buffers_are_seals(
    gen: u64,
    cid: Seq<u8>,
    pass: Option<Seq<u8>>,
    iv: Seq<u8>,
    c: Seq<u8>,
)
    requires
        40 + cid.len() + opt_len(pass) + iv.len() <= u64::MAX,
        is_sealed(gen, cid, pass, iv, c),
    ensures
        c == seal(gen, cid, pass, iv, unseal(c)),
{
    lemma_auto_spec_u64_to_from_le_bytes();
    lemma_header_fields(gen, cid, pass, iv);
    let h = header(gen, cid, pass, iv);
    let hl = header_len(cid, pass, iv);
    assert(frame_cid_len(c) == cid.len());
    assert(frame_pass_len(c) == opt_len(pass));
    assert(frame_iv_len(c) == iv.len());
    assert(frame_header_len(c) == hl);
    assert(c.subrange(0, 8) == spec_u64_to_le_bytes(gen));
    assert(c.subrange(8, 16) == spec_u64_to_le_bytes(cid.len() as u64));
    assert(c.subrange(16, 24) == spec_u64_to_le_bytes(opt_flag(pass)));
    assert(c.subrange(24, 32) == spec_u64_to_le_bytes(opt_len(pass) as u64));
    assert(c.subrange(32, 40) == spec_u64_to_le_bytes(iv.len() as u64));
    assert(c.subrange(40, 40 + cid.len() as int) == cid);
    assert(c.subrange(40 + cid.len() as int, 40 + cid.len() + opt_len(pass)) == opt_bytes(pass));
    assert(c.subrange(40 + cid.len() + opt_len(pass), hl) == iv);
    assert forall|i: int| 0 <= i < hl implies c.subrange(0, hl)[i] == h[i] by {
        if i < 8 {
            assert(c.subrange(0, 8)[i] == h.subrange(0, 8)[i]);
        } else if i < 16 {
            assert(c.subrange(8, 16)[i - 8] == h.subrange(8, 16)[i - 8]);
        } else if i < 24 {
            assert(c.subrange(16, 24)[i - 16] == h.subrange(16, 24)[i - 16]);
        } else if i < 32 {
            assert(c.subrange(24, 32)[i - 24] == h.subrange(24, 32)[i - 24]);
        } else if i < 40 {
            assert(c.subrange(32, 40)[i - 32] == h.subrange(32, 40)[i - 32]);
        } else if i < 40 + cid.len() {
            assert(c.subrange(40, 40 + cid.len() as int)[i - 40] == h.subrange(
                40,
                40 + cid.len() as int,
            )[i - 40]);
        } else if i < 40 + cid.len() + opt_len(pass) {
            assert(c.subrange(40 + cid.len() as int, 40 + cid.len() + opt_len(pass))[i - 40
                - cid.len()] == h.subrange(40 + cid.len() as int, 40 + cid.len() + opt_len(pass))[
                i - 40 - cid.len()]);
        } else {
            assert(c.subrange(40 + cid.len() + opt_len(pass), hl)[i - 40 - cid.len() - opt_len(
                pass,
            )] == h.subrange(40 + cid.len() + opt_len(pass), hl)[i - 40 - cid.len() - opt_len(
                pass,
            )]);
        }
    }
    assert(c.subrange(0, hl) =~= h);
    let body = c.subrange(hl, c.len() as int);
    let seed = absorb_bytes(SEAL_SEED, h);
    let p = unseal(c);
    assert(p == xor_bytes(body, keystream(seed, body.len())));
    lemma_xor_involutive(body, keystream(seed, body.len()));
    assert(xor_bytes(p, keystream(seed, p.len())) == body);
    assert(seal(gen, cid, pass, iv, p) =~= c);
}

/// Build a sealed buffer from the parameters and the plaintext.
pub fn seal_bytes(gen: u64, cid: &[u8], pass: Option<&[u8]>, iv: &[u8], p: &[u8]) -> (out: Vec<
    u8,
>)
    requires
        40 + cid@.len() + opt_len(opt_view(pass)) + iv@.len() + p@.len() <= usize::MAX,
    ensures
        out@ == seal(gen, cid@, opt_view(pass), iv@, p@),
{
    let pass_view = Ghost(opt_view(pass));
    let mut out = u64_to_le_bytes(gen);
    let mut field = u64_to_le_bytes(cid.len() as u64);
    out.append(&mut field);
    let (flag, pass_len): (u64, u64) = match pass {
        Some(pb) => (1, pb.len() as u64),
        None => (0, 0),
    };
    let mut field = u64_to_le_bytes(flag);
    out.append(&mut field);
    let mut field = u64_to_le_bytes(pass_len);
    out.append(&mut field);
    let mut field = u64_to_le_bytes(iv.len() as u64);
    out.append(&mut field);
    let mut part = slice_to_vec(cid);
    out.append(&mut part);
    match pass {
        Some(pb) => {
            let mut part = slice_to_vec(pb);
            out.append(&mut part);
        },
        None => {},
    }
    let mut part = slice_to_vec(iv);
    out.append(&mut part);
    proof {
        assert(out@ =~= header(gen, cid@, pass_view@, iv@));
    }
    let seed = absorb_slice(SEAL_SEED, out.as_slice());
    let ks = keystream_bytes(seed, p.len());
    let mut body = xor_with(p, &ks);
    out.append(&mut body);
    out
}

/// Open a sealed buffer, insisting on the expected generation, client id,
/// passphrase, and iv; returns the recovered plaintext exactly when the
/// buffer was sealed under those parameters.
pub fn open_bytes(expected_gen: u64, cid: &[u8], pass: Option<&[u8]>, iv: &[u8], c: &[u8]) -> (r:
    Result<Vec<u8>, Error>)
    ensures
        r is Ok <==> is_sealed(expected_gen, cid@, opt_view(pass), iv@, c@),
        r matches Ok(p) ==> p@ == unseal(c@),
        r matches Err(e) ==> e.kind_spec() == open_err(expected_gen, c@),
{
    let n = c.len();
    if n < FIXED_HEADER_LEN {
        return Err(Error::new(ErrorKind::InvalidInput));
    }
    let gen = u64_from_le_bytes(slice_subrange(c, 0, 8));
    let cl = u64_from_le_bytes(slice_subrange(c, 8, 16));
    let pf = u64_from_le_bytes(slice_subrange(c, 16, 24));
    let pl = u64_from_le_bytes(slice_subrange(c, 24, 32));
    let il = u64_from_le_bytes(slice_subrange(c, 32, 40));
    if !(pf == 0 || pf == 1) || (pf == 0 && pl != 0) {
        return Err(Error::new(ErrorKind::InvalidInput));
    }
    let n64 = n as u64;
    if cl > n64 - 40 {
        return Err(Error::new(ErrorKind::InvalidInput));
    }
    if pl > n64 - 40 - cl {
        return Err(Error::new(ErrorKind::InvalidInput));
    }
    if il > n64 - 40 - cl - pl {
        return Err(Error::new(ErrorKind::InvalidInput));
    }
    assert(frame_ok(c@));
    let clu = cl as usize;
    let plu = pl as usize;
    let ilu = il as usize;
    let hl = FIXED_HEADER_LEN + clu + plu + ilu;
    assert(hl == frame_header_len(c@));
    if gen != expected_gen {
        return Err(Error::new(ErrorKind::KeyNotFound));
    }
    let cid_part = slice_subrange(c, FIXED_HEADER_LEN, FIXED_HEADER_LEN + clu);
    if !bytes_eq(cid_part, cid) {
        return Err(Error::new(ErrorKind::CryptoFailure));
    }
    let pass_part = slice_subrange(c, FIXED_HEADER_LEN + clu, FIXED_HEADER_LEN + clu + plu);
    match pass {
        Some(pb) => {
            if pf == 0 {
                return Err(Error::new(ErrorKind::CryptoFailure));
            }
            if !bytes_eq(pass_part, pb) {
                return Err(Error::new(ErrorKind::CryptoFailure));
            }
        },
        None => {
            if pf == 1 {
                return Err(Error::new(ErrorKind::CryptoFailure));
            }
        },
    }
    let iv_part = slice_subrange(c, FIXED_HEADER_LEN + clu + plu, hl);
    if !bytes_eq(iv_part, iv) {
        return Err(Error::new(ErrorKind::CryptoFailure));
    }
    assert(is_sealed(expected_gen, cid@, opt_view(pass), iv@, c@));
    let head = slice_subrange(c, 0, hl);
    let seed = absorb_slice(SEAL_SEED, head);
    let body = slice_subrange(c, hl, n);
    let ks = keystream_bytes(seed, n - hl);
    let p = xor_with(body, &ks);
    Ok(p)
}

} // verus!
