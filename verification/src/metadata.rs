//! What a token is called: its name, its symbol and its decimal places.

use vstd::prelude::*;
use vstd::slice::slice_to_vec;
use vstd::string::StringSliceAdditionalSpecFns;

verus! {

/// The name of a token that was given none.
pub open spec fn default_name() -> Seq<char> {
    "PidChat"@
}

/// The symbol of a token that was given none.
pub open spec fn default_symbol() -> Seq<char> {
    "PID"@
}

/// The name, the symbol and the number of decimal places of a token.
pub struct TokenMetadata {
    name: String,
    symbol: String,
    decimals: u8,
}

impl TokenMetadata {
    /// The name, as characters.
    pub closed spec fn spec_name(&self) -> Seq<char> {
        self.name@
    }

    /// The symbol, as characters.
    pub closed spec fn spec_symbol(&self) -> Seq<char> {
        self.symbol@
    }

    /// The number of decimal places.
    pub closed spec fn spec_decimals(&self) -> u8 {
        self.decimals
    }

    /// The metadata with the given name and symbol, or with the default one
    /// in place of each that is not given.
    pub fn new(name: Option<String>, symbol: Option<String>, decimals: u8) -> (metadata: Self)
        ensures
            metadata.spec_name() == match name {
                Some(given) => given@,
                None => default_name(),
            },
            metadata.spec_symbol() == match symbol {
                Some(given) => given@,
                None => default_symbol(),
            },
            metadata.spec_decimals() == decimals,
    {
        let name = match name {
            Some(given) => given,
            None => "PidChat".to_owned(),
        };
        let symbol = match symbol {
            Some(given) => given,
            None => "PID".to_owned(),
        };
        TokenMetadata { name, symbol, decimals }
    }

    /// The name.
    pub fn name(&self) -> (name: &str)
        ensures
            name@ == self.spec_name(),
    {
        self.name.as_str()
    }

    /// The symbol.
    pub fn symbol(&self) -> (symbol: &str)
        ensures
            symbol@ == self.spec_symbol(),
    {
        self.symbol.as_str()
    }

    /// The name, as the bytes of its UTF-8 encoding.
    pub fn name_bytes(&self) -> (bytes: Vec<u8>)
        ensures
            bytes@ == vstd::utf8::encode_utf8(self.spec_name()),
    {
        slice_to_vec(self.name.as_str().as_bytes())
    }

    /// The symbol, as the bytes of its UTF-8 encoding.
    pub fn symbol_bytes(&self) -> (bytes: Vec<u8>)
        ensures
            bytes@ == vstd::utf8::encode_utf8(self.spec_symbol()),
    {
        slice_to_vec(self.symbol.as_str().as_bytes())
    }

    /// The number of decimal places.
    pub fn decimals(&self) -> (decimals: u8)
        ensures
            decimals == self.spec_decimals(),
    {
        self.decimals
    }
}

} // verus!
