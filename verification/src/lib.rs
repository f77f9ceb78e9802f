mod bytes;
mod canonical;
mod digest;
mod hexenc;
mod laws;
mod request;
mod signing;
mod timefmt;

pub use bytes::{all_ascii, ascii_chars_of};
pub use canonical::{ascii_lower, canonical_request, canonical_request_bytes, lower_byte};
pub use digest::{hmac_sha256_of, sha256_of};
pub use hexenc::{hex_digit, hex_of, hex_bytes, lemma_hex_of_props, HexBuf};
pub use laws::{
    lemma_build_request_deterministic, lemma_canonical_request_fixed_lines,
    lemma_canonical_request_hashed_payload, lemma_header_names_distinct,
};
pub use request::{
    authorization_chars, build_authorization, build_request, request_matches, Access, Action,
    BuildError, ResponseWrapper, Service, SignedRequest, Style,
};
pub use signing::{
    credential_scope, credential_scope_bytes, derive_signature, signature_hex_bytes,
    signing_key_bytes, string_to_sign, string_to_sign_bytes,
};
pub use timefmt::{date_chars_of, dec_chars, dec_digit, TS_MAX};
