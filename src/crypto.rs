use vstd::prelude::*;
use vstd::string::StringExecFns;

verus! {

/// The encryption flavour asked for: the multi-buffer AES implementation.
pub const CRYPTO_FLAVOUR: &'static str = "crypto_aesni_mb";

/// What the name of an encryption device starts with.
pub const CRYPTO_PREFIX: &'static str = "crypto-";

/// The name of the encryption device stacked on the device `base`.
pub open spec fn crypto_name(base: Seq<char>) -> Seq<char> {
    CRYPTO_PREFIX@ + base
}

/// A derived name never equals the name it was derived from.
pub proof fn lemma_crypto_name_differs(base: Seq<char>)
    ensures
        crypto_name(base) != base,
        crypto_name(base).len() > base.len(),
{
    reveal_strlit("crypto-");
}

/// Builds the name of the encryption device stacked on `base`.
pub fn crypto_bdev_name(base: &str) -> (r: String)
    ensures
        r@ == crypto_name(base@),
{
    String::from_str(CRYPTO_PREFIX).concat(base)
}

/// A request to create an encryption device `name` on top of the device
/// `base`, with the cipher `flavour` and the secret `key`.
#[derive(Clone, Debug, PartialEq, Eq)]
pub struct CryptoRequest {
    pub base: String,
    pub name: String,
    pub flavour: String,
    pub key: String,
}

} // verus!
