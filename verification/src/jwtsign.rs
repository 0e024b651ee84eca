//! Decoding a signed token into a storage descriptor, and deriving the
//! local paths of an object and of its part files.
//!
//! A signed token carries, in a private claim named `download_path`, a
//! base64-wrapped msgpack encoding of `{proto, path, prefix}`. The
//! decode is a pure function of the token; the three outside decoding
//! steps stand behind trusted wrappers, and everything after them —
//! composition, path joining, part-file naming — is verified.

use vstd::prelude::*;
use vstd::string::*;
use vstd::utf8::encode_utf8;

use base64::Engine;

use crate::errors::EngineError;
use crate::text::{basename, basename_spec, dec_of, join_path, join_spec, push_dec};

verus! {

/// What the `download_path` private claim of a signed token holds, if
/// the token parses as a JWT and carries that claim as a string.
pub uninterp spec fn jwt_download_path(token: Seq<char>) -> Option<Seq<char>>;

/// The bytes a standard-alphabet base64 string decodes to, if it is
/// well formed.
pub uninterp spec fn base64_decoded(text: Seq<char>) -> Option<Seq<u8>>;

/// The three strings a msgpack-encoded triple of strings decodes to,
/// if the bytes are such an encoding.
pub uninterp spec fn msgpack_string_triple(bytes: Seq<u8>) -> Option<
    (Seq<char>, Seq<char>, Seq<char>),
>;

/// The 32-character lower-case hex rendering of the MD5 digest of a
/// byte sequence.
pub uninterp spec fn md5_hex(bytes: Seq<u8>) -> Seq<char>;

/// Relies on jwt::Token::parse_unverified, which base64url-decodes the
/// token's header and claims and deserializes the claims JSON; the
/// `download_path` private claim is then read as a JSON string.
#[verifier::external_body]
fn jwt_claim_download_path(token: &str) -> (r: Option<String>)
    ensures
        r.deep_view() == jwt_download_path(token@),
{
    let t = match jwt::Token::<jwt::Header, jwt::Claims, _>::parse_unverified(token) {
        Ok(t) => t,
        Err(_) => return None,
    };
    match t.claims().private.get("download_path") {
        Some(v) => v.as_str().map(|s| s.to_string()),
        None => None,
    }
}

/// Relies on base64's standard-alphabet engine: decode is the inverse
/// of encode and fails on malformed input.
#[verifier::external_body]
fn base64_decode_str(text: &str) -> (r: Option<Vec<u8>>)
    ensures
        r.deep_view() == base64_decoded(text@),
{
    base64::engine::general_purpose::STANDARD.decode(text).ok()
}

/// Relies on rmp_serde::from_slice deserializing a msgpack array of
/// three strings.
#[verifier::external_body]
fn msgpack_decode_triple(bytes: &[u8]) -> (r: Option<(String, String, String)>)
    ensures
        r.deep_view() == msgpack_string_triple(bytes@),
{
    rmp_serde::from_slice(bytes).ok()
}

/// Relies on md5::compute and the lower-hex rendering of its digest:
/// 32 hex digits for the 16-byte digest, a pure function of the bytes.
#[verifier::external_body]
fn md5_hex_str(s: &str) -> (r: String)
    ensures
        r@ == md5_hex(s.spec_bytes()),
        r@.len() == 32,
{
    format!("{:x}", md5::compute(s.as_bytes()))
}

/// Where one remote object lives locally: the storage protocol, the
/// object path and the dataset prefix, as decoded from its signed token.
#[derive(Debug)]
pub struct HttpdMetaReader {
    pub proto: String,
    pub path: String,
    pub prefix: String,
}

/// The descriptor a signed token decodes to: the `download_path` claim,
/// base64-decoded, read as a msgpack triple.
pub open spec fn spec_reader_parse(token: Seq<char>) -> Option<(Seq<char>, Seq<char>, Seq<char>)> {
    match jwt_download_path(token) {
        Some(claim) => match base64_decoded(claim) {
            Some(bytes) => msgpack_string_triple(bytes),
            None => None,
        },
        None => None,
    }
}

/// Decodes a signed token into its storage descriptor. Fails with a
/// decode error exactly when the token is not a JWT carrying a
/// `download_path` claim that base64- and msgpack-decodes to a triple.
pub fn reader_parse(token: String) -> (r: Result<HttpdMetaReader, EngineError>)
    ensures
        match r {
            Ok(d) => spec_reader_parse(token@) == Some((d.proto@, d.path@, d.prefix@)),
            Err(e) => spec_reader_parse(token@) is None && e == EngineError::Decode,
        },
{
    let claim = match jwt_claim_download_path(token.as_str()) {
        Some(c) => c,
        None => return Err(EngineError::Decode),
    };
    let bytes = match base64_decode_str(claim.as_str()) {
        Some(b) => b,
        None => return Err(EngineError::Decode),
    };
    proof {
        assert(bytes.deep_view() =~= bytes@);
    }
    match msgpack_decode_triple(bytes.as_slice()) {
        Some((proto, path, prefix)) => Ok(HttpdMetaReader { proto, path, prefix }),
        None => Err(EngineError::Decode),
    }
}

/// The part-file name of part `idx` of the object at absolute path
/// `abs`: `{idx}__{md5_hex(abs)}__{basename(abs)}.bin`.
pub open spec fn spec_part_name(idx: nat, abs: Seq<char>) -> Seq<char> {
    dec_of(idx) + "__"@ + md5_hex(encode_utf8(abs)) + "__"@ + basename_spec(abs) + ".bin"@
}

impl HttpdMetaReader {
    /// The object's path relative to the data directory: `prefix/path`.
    pub open spec fn spec_relative(&self) -> Seq<char> {
        join_spec(self.prefix@, self.path@)
    }

    /// Returns the object's path relative to the data directory.
    pub fn local_relative_path(&self) -> (r: String)
        ensures
            r@ == self.spec_relative(),
    {
        join_path(self.prefix.as_str(), self.path.as_str())
    }

    /// Returns the object's absolute path under `base_dir`.
    pub fn local_absolute_path(&self, base_dir: &str) -> (r: String)
        ensures
            r@ == join_spec(base_dir@, self.spec_relative()),
    {
        let rel = self.local_relative_path();
        join_path(base_dir, rel.as_str())
    }

    /// Returns the object's absolute path under `base_dir`.
    pub fn local_absolute_path_str(&self, base_dir: &str) -> (r: String)
        ensures
            r@ == join_spec(base_dir@, self.spec_relative()),
    {
        self.local_absolute_path(base_dir)
    }

    /// Returns the scratch path of part `part_index`, stable for a given
    /// `(absolute path, index)` pair so that a restart recognizes parts
    /// fetched by an earlier run.
    pub fn local_part_path(&self, base_dir: &str, part_index: u64, temp_dir: &str) -> (r: String)
        ensures
            r@ == join_spec(
                temp_dir@,
                spec_part_name(part_index as nat, join_spec(base_dir@, self.spec_relative())),
            ),
    {
        let abs = self.local_absolute_path(base_dir);
        let hash = md5_hex_str(abs.as_str());
        let base = basename(abs.as_str());
        let mut name = String::new();
        push_dec(part_index, &mut name);
        name.append("__");
        name.append(hash.as_str());
        name.append("__");
        name.append(base);
        name.append(".bin");
        proof {
            assert(name@ =~= spec_part_name(part_index as nat, abs@));
        }
        join_path(temp_dir, name.as_str())
    }
}

} // verus!
