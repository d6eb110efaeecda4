//! The binary artifact format.
//!
//! A saved artifact is one little-endian byte stream, in this order:
//! the name as NUL-terminated UTF-8, one texture-count byte, four version
//! bytes, the fragment body as NUL-terminated UTF-8, and then one record
//! per texture: four width bytes, four height bytes, and exactly
//! `width * height * 4` pixel bytes (the payload length is derived, not
//! stored). [`spec_save`] is the authoritative encoder and [`spec_load`]
//! the authoritative decoder; the executable `save` and `load` are proved
//! against them, and [`lemma_save_load_round_trip`] ties the two together.

use crate::data::{ArtifactModel, WgsData};
use crate::meta::Meta;
use crate::texture::{Texture, TextureModel};
use vstd::bytes::{spec_u32_from_le_bytes, spec_u32_to_le_bytes, u32_from_le_bytes, u32_to_le_bytes};
use vstd::prelude::*;
use vstd::slice::{slice_subrange, slice_to_vec};
use vstd::utf8::{decode_utf8, encode_utf8, valid_utf8};

verus! {

/// Why a byte stream was rejected by [`WgsData::load`].
#[derive(Clone, Copy, Debug, PartialEq, Eq, Structural)]
pub enum FormatError {
    /// The stream ended before a field was complete: a string missing its
    /// NUL terminator, a header cut short, or a texture payload shorter
    /// than its dimensions demand.
    UnexpectedEnd,
    /// A name or fragment field did not hold valid UTF-8.
    InvalidUtf8,
    /// The version field holds a value greater than [`crate::VERSION`];
    /// only streams up to the current format version are read.
    UnsupportedVersion,
    /// Bytes remained after the last texture record.
    TrailingBytes,
}

/// The bytes of one texture record: width, height, then the raw pixels.
pub open spec fn spec_texture_bytes(t: TextureModel) -> Seq<u8> {
    spec_u32_to_le_bytes(t.width) + spec_u32_to_le_bytes(t.height) + t.data
}

/// The concatenated records of a texture list, in order.
pub open spec fn spec_textures_bytes(ts: Seq<TextureModel>) -> Seq<u8>
    decreases ts.len(),
{
    if ts.len() == 0 {
        Seq::empty()
    } else {
        spec_texture_bytes(ts[0]) + spec_textures_bytes(ts.drop_first())
    }
}

/// Everything before the texture records: NUL-terminated name, one count
/// byte, four version bytes, NUL-terminated fragment body.
pub open spec fn spec_header(m: ArtifactModel) -> Seq<u8> {
    encode_utf8(m.name) + seq![0u8] + seq![m.textures.len() as u8]
        + spec_u32_to_le_bytes(m.version) + encode_utf8(m.frag) + seq![0u8]
}

/// The full encoding of an artifact.
pub open spec fn spec_save(m: ArtifactModel) -> Seq<u8> {
    spec_header(m) + spec_textures_bytes(m.textures)
}

/// The decoder: reads the fields of [`spec_save`]'s layout strictly in
/// order, deriving each texture payload's length from the dimensions just
/// read, and rejects a stream that ends early, holds invalid UTF-8,
/// carries a version above the one this library writes, or carries bytes
/// beyond the last texture record.
pub open spec fn spec_load(bytes: Seq<u8>) -> Result<ArtifactModel, FormatError> {
    match bytes.index_of_first(0u8) {
        Option::None => Err(FormatError::UnexpectedEnd),
        Option::Some(i) => {
            let name_bytes = bytes.take(i);
            if !valid_utf8(name_bytes) {
                Err(FormatError::InvalidUtf8)
            } else {
                let rest = bytes.skip(i + 1);
                if rest.len() < 5 {
                    Err(FormatError::UnexpectedEnd)
                } else {
                    let count = rest[0];
                    let version = spec_u32_from_le_bytes(rest.subrange(1, 5));
                    if version > crate::VERSION {
                        Err(FormatError::UnsupportedVersion)
                    } else {
                    let body = rest.skip(5);
                    match body.index_of_first(0u8) {
                        Option::None => Err(FormatError::UnexpectedEnd),
                        Option::Some(j) => {
                            let frag_bytes = body.take(j);
                            if !valid_utf8(frag_bytes) {
                                Err(FormatError::InvalidUtf8)
                            } else {
                                match spec_load_textures(body.skip(j + 1), count as nat) {
                                    Err(e) => Err(e),
                                    Ok(ts) => Ok(ArtifactModel {
                                        name: decode_utf8(name_bytes),
                                        frag: decode_utf8(frag_bytes),
                                        version,
                                        textures: ts,
                                    }),
                                }
                            }
                        },
                    }
                    }
                }
            }
        },
    }
}

/// Decodes exactly `n` texture records and demands that they use up the
/// whole remaining stream.
pub open spec fn spec_load_textures(bytes: Seq<u8>, n: nat) -> Result<
    Seq<TextureModel>,
    FormatError,
>
    decreases n,
{
    if n == 0 {
        if bytes.len() == 0 {
            Ok(Seq::empty())
        } else {
            Err(FormatError::TrailingBytes)
        }
    } else if bytes.len() < 8 {
        Err(FormatError::UnexpectedEnd)
    } else {
        let w = spec_u32_from_le_bytes(bytes.subrange(0, 4));
        let h = spec_u32_from_le_bytes(bytes.subrange(4, 8));
        let need = w * h * 4;
        if bytes.len() < 8 + need {
            Err(FormatError::UnexpectedEnd)
        } else {
            match spec_load_textures(bytes.skip(8 + need), (n - 1) as nat) {
                Err(e) => Err(e),
                Ok(ts) => Ok(
                    seq![TextureModel { width: w, height: h, data: bytes.subrange(8, 8 + need) }]
                        + ts,
                ),
            }
        }
    }
}

/// The UTF-8 encoding of a single scalar contains a zero byte exactly
/// when the scalar is zero: a one-byte encoding is the scalar itself, and
/// every byte of a longer encoding has one of its top two bits set.
proof fn lemma_encode_scalar_nul(s: u32)
    requires
        vstd::utf8::is_scalar(s),
    ensures
        vstd::utf8::encode_scalar(s).contains(0u8) <==> s == 0,
{
    broadcast use vstd::seq_lib::lemma_seq_concat_contains_all_elements;

    let e = vstd::utf8::encode_scalar(s);
    if vstd::utf8::has_width_1_encoding(s) {
        assert(e =~= seq![vstd::utf8::leading_byte_width_1(s)]);
        assert(((s & 0x7F) as u8 == 0) <==> s == 0) by (bit_vector)
            requires
                s <= 0x7F,
        ;
        assert(e[0] == (s & 0x7F) as u8);
        if s == 0 {
            assert(e.contains(0u8));
        } else if e.contains(0u8) {
            let i = choose|i: int| 0 <= i < e.len() && e[i] == 0u8;
            assert(i == 0);
            assert(false);
        }
    } else {
        assert((0xC0u8 | (((s >> 6) & 0x1F) as u8)) != 0u8) by (bit_vector);
        assert((0xE0u8 | (((s >> 12) & 0x0F) as u8)) != 0u8) by (bit_vector);
        assert((0xF0u8 | (((s >> 18) & 0x7) as u8)) != 0u8) by (bit_vector);
        assert((0x80u8 | ((s & 0x3F) as u8)) != 0u8) by (bit_vector);
        assert((0x80u8 | (((s >> 6) & 0x3F) as u8)) != 0u8) by (bit_vector);
        assert((0x80u8 | (((s >> 12) & 0x3F) as u8)) != 0u8) by (bit_vector);
        if e.contains(0u8) {
            let i = choose|i: int| 0 <= i < e.len() && e[i] == 0u8;
            assert(false);
        }
    }
}

/// The UTF-8 encoding of a string contains a zero byte exactly when the
/// string contains the NUL character.
pub proof fn lemma_encode_utf8_nul(chars: Seq<char>)
    ensures
        encode_utf8(chars).contains(0u8) <==> chars.contains('\0'),
    decreases chars.len(),
{
    broadcast use vstd::seq_lib::lemma_seq_concat_contains_all_elements;

    if chars.len() == 0 {
        assert(!encode_utf8(chars).contains(0u8));
        assert(!chars.contains('\0'));
    } else {
        let c = chars[0];
        vstd::utf8::char_is_scalar(c);
        lemma_encode_scalar_nul(c as u32);
        lemma_encode_utf8_nul(chars.drop_first());
        vstd::utf8::char_u32_cast(c, c as u32);
        assert(c as u32 == 0 <==> c == '\0');
        assert(chars.contains('\0') <==> c == '\0' || chars.drop_first().contains('\0')) by {
            if chars.contains('\0') {
                let i = choose|i: int| 0 <= i < chars.len() && chars[i] == '\0';
                if i > 0 {
                    assert(chars.drop_first()[i - 1] == '\0');
                }
            }
            if chars.drop_first().contains('\0') {
                let i = choose|i: int|
                    0 <= i < chars.drop_first().len() && chars.drop_first()[i] == '\0';
                assert(chars[i + 1] == '\0');
            }
        }
    }
}

/// `index_of_first` is pinned down by exhibiting the first occurrence.
proof fn lemma_index_of_first_at(s: Seq<u8>, k: int)
    requires
        0 <= k < s.len(),
        s[k] == 0u8,
        forall|j: int| 0 <= j < k ==> s[j] != 0u8,
    ensures
        s.index_of_first(0u8) == Some(k),
{
    s.index_of_first_ensures(0u8);
    assert(s.contains(0u8));
    let i = s.index_of_first(0u8).unwrap();
    if i < k {
        assert(s[i] != 0u8);
    } else if i > k {
        assert(s[k] != 0u8);
    }
}

/// Appending one texture to a list appends its record to the list's bytes.
proof fn lemma_spec_textures_bytes_push(ts: Seq<TextureModel>, t: TextureModel)
    ensures
        spec_textures_bytes(ts.push(t)) == spec_textures_bytes(ts) + spec_texture_bytes(t),
    decreases ts.len(),
{
    if ts.len() == 0 {
        assert(ts.push(t)[0] == t);
        assert(ts =~= Seq::<TextureModel>::empty());
        assert(ts.push(t).drop_first() =~= Seq::<TextureModel>::empty());
        assert(spec_textures_bytes(Seq::<TextureModel>::empty()) == Seq::<u8>::empty());
        assert(spec_textures_bytes(ts.push(t)) =~= spec_textures_bytes(ts)
            + spec_texture_bytes(t));
    } else {
        assert(ts.push(t).drop_first() =~= ts.drop_first().push(t));
        lemma_spec_textures_bytes_push(ts.drop_first(), t);
        assert(ts.push(t)[0] == ts[0]);
        assert(spec_textures_bytes(ts.push(t)) =~= spec_textures_bytes(ts)
            + spec_texture_bytes(t));
    }
}

/// Decoding the concatenated records of a well-sized texture list yields
/// exactly that list.
proof fn lemma_load_textures_of_bytes(ts: Seq<TextureModel>)
    requires
        forall|i: int| 0 <= i < ts.len() ==> (#[trigger] ts[i]).valid(),
    ensures
        spec_load_textures(spec_textures_bytes(ts), ts.len()) == Ok::<
            Seq<TextureModel>,
            FormatError,
        >(ts),
    decreases ts.len(),
{
    vstd::bytes::lemma_auto_spec_u32_to_from_le_bytes();
    if ts.len() == 0 {
        assert(spec_textures_bytes(ts).len() == 0);
        assert(Seq::<TextureModel>::empty() =~= ts);
    } else {
        let t = ts[0];
        assert(t.valid());
        let bytes = spec_textures_bytes(ts);
        let rest = spec_textures_bytes(ts.drop_first());
        let need = t.width * t.height * 4;
        assert(bytes =~= spec_u32_to_le_bytes(t.width) + spec_u32_to_le_bytes(t.height) + t.data
            + rest);
        assert(bytes.subrange(0, 4) =~= spec_u32_to_le_bytes(t.width));
        assert(bytes.subrange(4, 8) =~= spec_u32_to_le_bytes(t.height));
        assert(bytes.len() == 8 + need + rest.len());
        assert(bytes.subrange(8, 8 + need) =~= t.data);
        assert(bytes.skip(8 + need) =~= rest);
        lemma_load_textures_of_bytes(ts.drop_first());
        assert(seq![
            TextureModel { width: t.width, height: t.height, data: bytes.subrange(8, 8 + need) },
        ] + ts.drop_first() =~= ts);
    }
}

/// The round-trip law: decoding the encoding of any valid artifact yields
/// the artifact itself — name, fragment body, version, and every texture's
/// width, height and pixel bytes, in order.
pub proof fn lemma_save_load_round_trip(m: ArtifactModel)
    requires
        m.valid(),
    ensures
        spec_load(spec_save(m)) == Ok::<ArtifactModel, FormatError>(m),
{
    broadcast use vstd::utf8::encode_utf8_valid_utf8;
    broadcast use vstd::utf8::encode_utf8_decode_utf8;

    vstd::bytes::lemma_auto_spec_u32_to_from_le_bytes();
    let bytes = spec_save(m);
    let nb = encode_utf8(m.name);
    let fb = encode_utf8(m.frag);
    let tb = spec_textures_bytes(m.textures);
    let cnt = m.textures.len() as u8;
    let vb = spec_u32_to_le_bytes(m.version);
    lemma_encode_utf8_nul(m.name);
    lemma_encode_utf8_nul(m.frag);
    assert(vb.len() == 4);
    assert(bytes =~= nb + seq![0u8] + seq![cnt] + vb + fb + seq![0u8] + tb);
    let nlen = nb.len() as int;
    assert forall|j: int| 0 <= j < nlen implies bytes[j] != 0u8 by {
        assert(bytes[j] == nb[j]);
        if nb[j] == 0u8 {
            assert(nb.contains(0u8));
        }
    }
    assert(bytes[nlen] == 0u8);
    lemma_index_of_first_at(bytes, nlen);
    assert(bytes.take(nlen) =~= nb);
    let rest = bytes.skip(nlen + 1);
    assert(rest =~= seq![cnt] + vb + fb + seq![0u8] + tb);
    assert(rest[0] == cnt);
    assert(rest.subrange(1, 5) =~= vb);
    let body = rest.skip(5);
    assert(body =~= fb + seq![0u8] + tb);
    let flen = fb.len() as int;
    assert forall|j: int| 0 <= j < flen implies body[j] != 0u8 by {
        assert(body[j] == fb[j]);
        if fb[j] == 0u8 {
            assert(fb.contains(0u8));
        }
    }
    assert(body[flen] == 0u8);
    lemma_index_of_first_at(body, flen);
    assert(body.take(flen) =~= fb);
    assert(body.skip(flen + 1) =~= tb);
    lemma_load_textures_of_bytes(m.textures);
    assert(cnt as nat == m.textures.len());
    assert(decode_utf8(nb) == m.name);
    assert(decode_utf8(fb) == m.frag);
    assert(spec_load(bytes) == Ok::<ArtifactModel, FormatError>(m));
}

/// Soundness of the texture-record decoder: a successful decode of `n`
/// records yields `n` well-sized textures whose re-encoding is exactly
/// the stream decoded.
proof fn lemma_load_textures_sound(bytes: Seq<u8>, n: nat)
    requires
        spec_load_textures(bytes, n) is Ok,
    ensures
        ({
            let ts = spec_load_textures(bytes, n).unwrap();
            &&& ts.len() == n
            &&& forall|i: int| 0 <= i < ts.len() ==> (#[trigger] ts[i]).valid()
            &&& spec_textures_bytes(ts) == bytes
        }),
    decreases n,
{
    vstd::bytes::lemma_auto_spec_u32_to_from_le_bytes();
    if n == 0 {
        assert(spec_textures_bytes(Seq::<TextureModel>::empty()) == Seq::<u8>::empty());
        assert(bytes =~= Seq::<u8>::empty());
    } else {
        let w = spec_u32_from_le_bytes(bytes.subrange(0, 4));
        let h = spec_u32_from_le_bytes(bytes.subrange(4, 8));
        let need = w * h * 4;
        let rest = bytes.skip(8 + need);
        lemma_load_textures_sound(rest, (n - 1) as nat);
        let ts0 = spec_load_textures(rest, (n - 1) as nat).unwrap();
        let t = TextureModel { width: w, height: h, data: bytes.subrange(8, 8 + need) };
        let ts = spec_load_textures(bytes, n).unwrap();
        assert(ts == seq![t] + ts0);
        assert forall|i: int| 0 <= i < ts.len() implies (#[trigger] ts[i]).valid() by {
            if i == 0 {
                assert(ts[i] == t);
            } else {
                assert(ts[i] == ts0[i - 1]);
            }
        }
        assert(ts[0] == t);
        assert(ts.drop_first() =~= ts0);
        assert(spec_u32_to_le_bytes(w) =~= bytes.subrange(0, 4));
        assert(spec_u32_to_le_bytes(h) =~= bytes.subrange(4, 8));
        assert(spec_textures_bytes(ts) =~= bytes);
    }
}

/// Soundness of the decoder: a successfully decoded artifact is valid,
/// and its encoding is exactly the stream it was decoded from. Together
/// with [`lemma_save_load_round_trip`] this makes valid artifacts and
/// accepted byte streams correspond one to one.
pub proof fn lemma_load_save_sound(bytes: Seq<u8>)
    requires
        spec_load(bytes) is Ok,
    ensures
        ({
            let m = spec_load(bytes).unwrap();
            &&& m.valid()
            &&& spec_save(m) == bytes
        }),
{
    broadcast use vstd::utf8::encode_utf8_valid_utf8;

    vstd::bytes::lemma_auto_spec_u32_to_from_le_bytes();
    bytes.index_of_first_ensures(0u8);
    let i = bytes.index_of_first(0u8).unwrap();
    let name_bytes = bytes.take(i);
    vstd::utf8::decode_utf8_encode_utf8(name_bytes);
    let rest = bytes.skip(i + 1);
    let count = rest[0];
    let body = rest.skip(5);
    body.index_of_first_ensures(0u8);
    let j = body.index_of_first(0u8).unwrap();
    let frag_bytes = body.take(j);
    vstd::utf8::decode_utf8_encode_utf8(frag_bytes);
    lemma_load_textures_sound(body.skip(j + 1), count as nat);
    let m = spec_load(bytes).unwrap();
    assert(encode_utf8(m.name) == name_bytes);
    assert(encode_utf8(m.frag) == frag_bytes);
    lemma_encode_utf8_nul(m.name);
    lemma_encode_utf8_nul(m.frag);
    assert(!name_bytes.contains(0u8)) by {
        if name_bytes.contains(0u8) {
            let k = choose|k: int| 0 <= k < name_bytes.len() && name_bytes[k] == 0u8;
            assert(bytes[k] == 0u8);
        }
    }
    assert(!frag_bytes.contains(0u8)) by {
        if frag_bytes.contains(0u8) {
            let k = choose|k: int| 0 <= k < frag_bytes.len() && frag_bytes[k] == 0u8;
            assert(body[k] == 0u8);
        }
    }
    assert(m.valid());
    assert(m.textures.len() as u8 == count);
    assert(spec_u32_to_le_bytes(m.version) =~= rest.subrange(1, 5));
    assert(spec_textures_bytes(m.textures) == body.skip(j + 1));
    assert(spec_save(m) =~= bytes);
}

/// Relies on `core::str::from_utf8`: it succeeds exactly when the bytes
/// are valid UTF-8, and the returned string slice views those same bytes.
#[verifier::external_body]
fn bytes_to_str(bytes: &[u8]) -> (r: Option<&str>)
    ensures
        match r {
            Some(s) => encode_utf8(s@) == bytes@,
            None => !valid_utf8(bytes@),
        },
{
    match core::str::from_utf8(bytes) {
        Ok(s) => Some(s),
        Err(_) => None,
    }
}

/// Returns the position of the first zero byte at or after `from`,
/// phrased against `index_of_first` on the stream's tail.
fn find_nul(bytes: &[u8], from: usize) -> (r: Option<usize>)
    requires
        from <= bytes@.len(),
    ensures
        match r {
            Some(k) => {
                &&& from <= k < bytes@.len()
                &&& bytes@[k as int] == 0u8
                &&& forall|j: int| from <= j < k ==> bytes@[j] != 0u8
                &&& bytes@.skip(from as int).index_of_first(0u8) == Some(k - from)
            },
            None => bytes@.skip(from as int).index_of_first(0u8) is None,
        },
{
    let n = bytes.len();
    let mut k = from;
    while k < n
        invariant
            from <= k <= n,
            n == bytes@.len(),
            forall|j: int| from <= j < k ==> bytes@[j] != 0u8,
        decreases n - k,
    {
        if bytes[k] == 0u8 {
            proof {
                let s = bytes@.skip(from as int);
                assert(s[k - from] == 0u8);
                assert(forall|j: int| 0 <= j < k - from ==> s[j] == bytes@[from + j] && s[j]
                    != 0u8);
                lemma_index_of_first_at(s, k - from);
            }
            return Some(k);
        }
        k = k + 1;
    }
    proof {
        let s = bytes@.skip(from as int);
        s.index_of_first_ensures(0u8);
        if s.contains(0u8) {
            let j = choose|j: int| 0 <= j < s.len() && s[j] == 0u8;
            assert(bytes@[from + j] == 0u8);
        }
    }
    None
}

impl WgsData {
    /// Serializes the artifact to its byte-stream form.
    pub fn save(&self) -> (r: Vec<u8>)
        requires
            self.well_formed(),
        ensures
            r@ == spec_save(self@),
    {
        let mut out: Vec<u8> = Vec::new();
        out.extend_from_slice(self.meta.name.as_str().as_bytes());
        out.push(0u8);
        out.push(self.meta.texture_count);
        let vbytes = u32_to_le_bytes(self.meta.version);
        out.extend_from_slice(vbytes.as_slice());
        out.extend_from_slice(self.frag.as_str().as_bytes());
        out.push(0u8);
        proof {
            assert(out@ =~= spec_header(self@));
        }
        let ghost header = out@;
        let n = self.textures.len();
        let mut i: usize = 0;
        while i < n
            invariant
                i <= n,
                n == self.textures@.len(),
                self.well_formed(),
                header == spec_header(self@),
                out@ == header + spec_textures_bytes(self@.textures.take(i as int)),
            decreases n - i,
        {
            let t = &self.textures[i];
            let wb = u32_to_le_bytes(t.width);
            out.extend_from_slice(wb.as_slice());
            let hb = u32_to_le_bytes(t.height);
            out.extend_from_slice(hb.as_slice());
            out.extend_from_slice(t.data.as_slice());
            proof {
                assert(t@ == self@.textures[i as int]);
                assert(self@.textures.take(i + 1) =~= self@.textures.take(i as int).push(
                    self@.textures[i as int],
                ));
                lemma_spec_textures_bytes_push(self@.textures.take(i as int), t@);
                assert(out@ =~= header + spec_textures_bytes(self@.textures.take(i + 1)));
            }
            i = i + 1;
        }
        proof {
            assert(self@.textures.take(n as int) =~= self@.textures);
        }
        out
    }

    /// Decodes an artifact from its byte-stream form. Fields are read
    /// strictly in the saved order; the stream is rejected if it ends
    /// before a derived texture payload is complete, if a string is not
    /// valid UTF-8 or is missing its terminator, or if bytes trail the
    /// last texture record.
    #[verifier::loop_isolation(false)]
    #[verifier::rlimit(60)]
    pub fn load(bytes: &[u8]) -> (r: Result<WgsData, FormatError>)
        ensures
            match r {
                Ok(d) => spec_load(bytes@) == Ok::<ArtifactModel, FormatError>(d@)
                    && d.well_formed(),
                Err(e) => spec_load(bytes@) == Err::<ArtifactModel, FormatError>(e),
            },
    {
        broadcast use vstd::utf8::encode_utf8_valid_utf8;
        broadcast use vstd::utf8::encode_utf8_decode_utf8;

        let n = bytes.len();
        proof {
            assert(bytes@.skip(0) =~= bytes@);
        }
        let i = match find_nul(bytes, 0) {
            Some(i) => i,
            None => {
                return Err(FormatError::UnexpectedEnd);
            },
        };
        let name_slice = slice_subrange(bytes, 0, i);
        proof {
            assert(name_slice@ =~= bytes@.take(i as int));
        }
        let name = match bytes_to_str(name_slice) {
            Some(s) => s.to_owned(),
            None => {
                return Err(FormatError::InvalidUtf8);
            },
        };
        let ghost rest = bytes@.skip(i + 1);
        if n - (i + 1) < 5 {
            return Err(FormatError::UnexpectedEnd);
        }
        let count = bytes[i + 1];
        let version = u32_from_le_bytes(slice_subrange(bytes, i + 2, i + 6));
        proof {
            assert(rest[0] == bytes@[i + 1]);
            assert(rest.subrange(1, 5) =~= bytes@.subrange(i + 2, i + 6));
            assert(rest.skip(5) =~= bytes@.skip(i + 6));
        }
        if version > crate::VERSION {
            return Err(FormatError::UnsupportedVersion);
        }
        let ghost body = bytes@.skip(i + 6);
        let j = match find_nul(bytes, i + 6) {
            Some(j) => j,
            None => {
                return Err(FormatError::UnexpectedEnd);
            },
        };
        let frag_slice = slice_subrange(bytes, i + 6, j);
        proof {
            assert(frag_slice@ =~= body.take(j - (i + 6)));
        }
        let frag = match bytes_to_str(frag_slice) {
            Some(s) => s.to_owned(),
            None => {
                return Err(FormatError::InvalidUtf8);
            },
        };
        let ghost tex_start = j + 1;
        proof {
            assert(body.skip(j - (i + 6) + 1) =~= bytes@.skip(j + 1));
        }
        let mut textures: Vec<Texture> = Vec::new();
        let mut pos: usize = j + 1;
        let mut k: usize = 0;
        proof {
            assert(textures@.map_values(|t: Texture| t@) =~= Seq::<TextureModel>::empty());
        }
        while k < count as usize
            invariant
                k <= count as usize,
                pos <= n,
                n == bytes@.len(),
                textures@.len() == k,
                forall|x: int| 0 <= x < k ==> (#[trigger] textures@[x])@.valid(),
                spec_load_textures(bytes@.skip(tex_start), count as nat) == (
                match spec_load_textures(bytes@.skip(pos as int), (count as nat - k) as nat) {
                    Ok(ts) => Ok::<Seq<TextureModel>, FormatError>(
                        textures@.map_values(|t: Texture| t@) + ts,
                    ),
                    Err(e) => Err::<Seq<TextureModel>, FormatError>(e),
                }),
            decreases count as int - k,
        {
            let ghost tail = bytes@.skip(pos as int);
            if n - pos < 8 {
                return Err(FormatError::UnexpectedEnd);
            }
            let w = u32_from_le_bytes(slice_subrange(bytes, pos, pos + 4));
            let h = u32_from_le_bytes(slice_subrange(bytes, pos + 4, pos + 8));
            proof {
                assert(tail.subrange(0, 4) =~= bytes@.subrange(pos as int, pos + 4));
                assert(tail.subrange(4, 8) =~= bytes@.subrange(pos + 4, pos + 8));
                assert((w as u128) * (h as u128) * 4 == (w as int) * (h as int) * 4
                    && (w as u128) * (h as u128) * 4 < u128::MAX) by (nonlinear_arith)
                    requires
                        w <= u32::MAX,
                        h <= u32::MAX,
                ;
            }
            let need128: u128 = w as u128 * h as u128 * 4;
            if ((n - (pos + 8)) as u128) < need128 {
                return Err(FormatError::UnexpectedEnd);
            }
            let need = need128 as usize;
            let data = slice_to_vec(slice_subrange(bytes, pos + 8, pos + 8 + need));
            proof {
                assert(data@ =~= tail.subrange(8, 8 + need as int));
            }
            let ghost pre_map = textures@.map_values(|t: Texture| t@);
            textures.push(Texture::new(w, h, data));
            proof {
                let t = TextureModel {
                    width: w,
                    height: h,
                    data: tail.subrange(8, 8 + need as int),
                };
                assert(textures@.map_values(|t2: Texture| t2@) =~= pre_map.push(t));
                assert(tail.skip(8 + need as int) =~= bytes@.skip(pos + 8 + need as int));
                let inner = spec_load_textures(
                    bytes@.skip(pos + 8 + need as int),
                    (count as nat - k - 1) as nat,
                );
                if inner is Ok {
                    let ts2 = inner.unwrap();
                    assert(pre_map + (seq![t] + ts2) =~= pre_map.push(t) + ts2);
                }
            }
            pos = pos + 8 + need;
            k = k + 1;
        }
        if pos < n {
            return Err(FormatError::TrailingBytes);
        }
        let d = WgsData {
            meta: Meta { name, texture_count: count, version },
            frag,
            textures,
        };
        proof {
            assert(bytes@.skip(pos as int).len() == 0);
            assert(spec_load_textures(bytes@.skip(pos as int), 0) == Ok::<
                Seq<TextureModel>,
                FormatError,
            >(Seq::empty()));
            assert(textures@.map_values(|t: Texture| t@) + Seq::<TextureModel>::empty()
                =~= textures@.map_values(|t: Texture| t@));
            lemma_encode_utf8_nul(d@.name);
            lemma_encode_utf8_nul(d@.frag);
            assert(!name_slice@.contains(0u8)) by {
                if name_slice@.contains(0u8) {
                    let x = choose|x: int| 0 <= x < name_slice@.len() && name_slice@[x] == 0u8;
                    assert(bytes@[x] == 0u8);
                }
            }
            assert(!frag_slice@.contains(0u8)) by {
                if frag_slice@.contains(0u8) {
                    let x = choose|x: int| 0 <= x < frag_slice@.len() && frag_slice@[x] == 0u8;
                    assert(bytes@[i + 6 + x] == 0u8);
                }
            }
            assert(spec_load(bytes@) == Ok::<ArtifactModel, FormatError>(d@));
        }
        Ok(d)
    }
}

} // verus!
