//! What a fungible token says of itself: name, symbol, icon, decimals.

use vstd::prelude::*;
use vstd::string::*;
use crate::text::{opt_text, same_text};

verus! {

/// The version of the metadata standard that this token follows.
pub const FT_METADATA_SPEC: &'static str = "ft-1.0.0";

/// The number of bytes of a reference hash.
pub const REFERENCE_HASH_LEN: usize = 32;

/// The icon of a token that was made without metadata of its own.
pub const DEFAULT_ICON: &'static str = "data:image/svg+xml,%3Csvg xmlns='http://www.w3.org/2000/svg' viewBox='0 0 80.03 80.04'%3E%3Cg%3E%3Cpath fill='currentColor' d='M74.88,27.45c-2.92-2.4-6.03-3.93-9.25-4.56l-.2-.04c-4.75-1.16-14.89-.18-18.7,3.51-1.56,1.51-1.63,3.06-1.42,4.08.22,1.11.93,2.22,2.31,3.62.74.73,1.53,1.46,2.37,2.23,2.43,2.23,4.95,4.53,6.25,7.19,2.01,3.9,2.12,8.74.29,12.94-1.73,3.99-4.99,6.92-8.96,8.05-8.38,2.62-16.62-1.73-20.5-10.82-2.33-5.7-2.43-12.15-.31-19.13,1.9-5.75,6.05-9.84,13.05-12.88,10.31-4.48,20.92-5.46,29.12-2.68.81.27,1.5.6,2.05.86.89.42,1.66.79,2.36.17.15-.13.63-.64.35-1.48l-.09-.21c-2.62-4.71-9.73-11.23-14.85-13.65-11.5-6.29-25.54-6.22-37.56.2C9.23,11.26,1.39,22.81.23,35.76c-.65,6,.08,12.14,2.09,17.73.84,2.39,1.85,4.7,3.4,5.33.64.3,1.33.33,1.96.07.76-.31,1.38-1,1.71-1.89.79-2.05.52-4.14.26-6.16-.19-1.43-.36-2.78-.13-4.1.16-1.64,1.38-3.19,3.04-3.84,1.41-.56,2.82-.35,3.89.59,1.7,1.44,2.02,4.62,2.1,7.25.04.82.07,1.64.11,2.47.29,7.45.6,15.16,6.42,21.11,4.1,3.79,9.41,5.72,15.55,5.72,1.84,0,3.76-.17,5.75-.52,18.66-2.88,32.8-18.67,33.61-37.58v-1c.1-5.12.17-9.54-5.12-13.49ZM22.49,26.96c-.17,3.92-3.22,5.95-6.16,5.95-.02,0-.04,0-.07,0-2.94-.03-5.97-2.13-6.06-6.07.08-3.99,3.11-6.09,6.06-6.12,2.98-.02,6.06,2,6.23,5.95v.27s0,.03,0,.03Z'/%3E%3C/g%3E%3C/svg%3E";

/// The icon of the SPOT token.
pub const ICON: &'static str = "data:image/svg+xml,%3Csvg xmlns='http://www.w3.org/2000/svg' style='background:%23f5f5f5' viewBox='0 0 80.03 80.04'%3E%3Cg%3E%3Cpath fill='%23000' d='M74.88,27.45c-2.92-2.4-6.03-3.93-9.25-4.56l-.2-.04c-4.75-1.16-14.89-.18-18.7,3.51-1.56,1.51-1.63,3.06-1.42,4.08.22,1.11.93,2.22,2.31,3.62.74.73,1.53,1.46,2.37,2.23,2.43,2.23,4.95,4.53,6.25,7.19,2.01,3.9,2.12,8.74.29,12.94-1.73,3.99-4.99,6.92-8.96,8.05-8.38,2.62-16.62-1.73-20.5-10.82-2.33-5.7-2.43-12.15-.31-19.13,1.9-5.75,6.05-9.84,13.05-12.88,10.31-4.48,20.92-5.46,29.12-2.68.81.27,1.5.6,2.05.86.89.42,1.66.79,2.36.17.15-.13.63-.64.35-1.48l-.09-.21c-2.62-4.71-9.73-11.23-14.85-13.65-11.5-6.29-25.54-6.22-37.56.2C9.23,11.26,1.39,22.81.23,35.76c-.65,6,.08,12.14,2.09,17.73.84,2.39,1.85,4.7,3.4,5.33.64.3,1.33.33,1.96.07.76-.31,1.38-1,1.71-1.89.79-2.05.52-4.14.26-6.16-.19-1.43-.36-2.78-.13-4.1.16-1.64,1.38-3.19,3.04-3.84,1.41-.56,2.82-.35,3.89.59,1.7,1.44,2.02,4.62,2.1,7.25.04.82.07,1.64.11,2.47.29,7.45.6,15.16,6.42,21.11,4.1,3.79,9.41,5.72,15.55,5.72,1.84,0,3.76-.17,5.75-.52,18.66-2.88,32.8-18.67,33.61-37.58v-1c.1-5.12.17-9.54-5.12-13.49ZM22.49,26.96c-.17,3.92-3.22,5.95-6.16,5.95-.02,0-.04,0-.07,0-2.94-.03-5.97-2.13-6.06-6.07.08-3.99,3.11-6.09,6.06-6.12,2.98-.02,6.06,2,6.23,5.95v.27s0,.03,0,.03Z'/%3E%3C/g%3E%3C/svg%3E";

/// The metadata of a fungible token.
#[derive(Debug)]
pub struct FungibleTokenMetadata {
    pub spec: String,
    pub name: String,
    pub symbol: String,
    pub icon: Option<String>,
    pub reference: Option<String>,
    pub reference_hash: Option<Vec<u8>>,
    pub decimals: u8,
}

/// The metadata of a fungible token, as text, bytes and numbers.
pub struct MetadataView {
    pub spec: Seq<char>,
    pub name: Seq<char>,
    pub symbol: Seq<char>,
    pub icon: Option<Seq<char>>,
    pub reference: Option<Seq<char>>,
    pub reference_hash: Option<Seq<u8>>,
    pub decimals: u8,
}

/// The bytes of an optional vector.
pub open spec fn bytes_of(v: Option<Vec<u8>>) -> Option<Seq<u8>> {
    match v {
        Some(v) => Some(v@),
        None => None,
    }
}

/// The view of optional metadata.
pub open spec fn view_of(m: Option<FungibleTokenMetadata>) -> Option<MetadataView> {
    match m {
        Some(m) => Some(m@),
        None => None,
    }
}

impl MetadataView {
    /// The standard is the one this library follows, a reference comes
    /// with its hash and a hash with its reference, and a hash has 32 bytes.
    pub open spec fn is_valid(self) -> bool {
        &&& self.spec == FT_METADATA_SPEC@
        &&& (self.reference is Some <==> self.reference_hash is Some)
        &&& (self.reference_hash is Some ==> self.reference_hash->0.len() == REFERENCE_HASH_LEN)
    }

    /// The metadata of the SPOT token with the given icon.
    pub open spec fn spot(icon: Seq<char>) -> MetadataView {
        MetadataView {
            spec: FT_METADATA_SPEC@,
            name: "ArtSpot Token"@,
            symbol: "SPOT"@,
            icon: Some(icon),
            reference: None,
            reference_hash: None,
            decimals: 18,
        }
    }

    /// These metadata with a new icon and a new reference, each only where
    /// one is given.
    pub open spec fn updated(self, icon: Option<Seq<char>>, reference: Option<Seq<char>>) -> MetadataView {
        MetadataView {
            icon: if icon is Some {
                icon
            } else {
                self.icon
            },
            reference: if reference is Some {
                reference
            } else {
                self.reference
            },
            ..self
        }
    }
}

impl View for FungibleTokenMetadata {
    type V = MetadataView;

    open spec fn view(&self) -> MetadataView {
        MetadataView {
            spec: self.spec@,
            name: self.name@,
            symbol: self.symbol@,
            icon: opt_text(self.icon),
            reference: opt_text(self.reference),
            reference_hash: bytes_of(self.reference_hash),
            decimals: self.decimals,
        }
    }
}

impl Clone for FungibleTokenMetadata {
    fn clone(&self) -> (r: Self)
        ensures
            r@ == self@,
    {
        let reference_hash: Option<Vec<u8>> = match &self.reference_hash {
            Some(hash) => Some(hash.clone()),
            None => None,
        };
        FungibleTokenMetadata {
            spec: self.spec.clone(),
            name: self.name.clone(),
            symbol: self.symbol.clone(),
            icon: self.icon.clone(),
            reference: self.reference.clone(),
            reference_hash,
            decimals: self.decimals,
        }
    }
}

impl FungibleTokenMetadata {
    /// Whether the metadata are well formed.
    pub fn is_valid(&self) -> (r: bool)
        ensures
            r == self@.is_valid(),
    {
        if !same_text(self.spec.as_str(), FT_METADATA_SPEC) {
            return false;
        }
        if self.reference.is_some() != self.reference_hash.is_some() {
            return false;
        }
        match &self.reference_hash {
            Some(hash) => hash.len() == REFERENCE_HASH_LEN,
            None => true,
        }
    }
}

/// The metadata of a token that was made without metadata of its own.
pub fn default_ft_metadata() -> (r: FungibleTokenMetadata)
    ensures
        r@ == MetadataView::spot(DEFAULT_ICON@),
        r@.is_valid(),
{
    FungibleTokenMetadata {
        spec: FT_METADATA_SPEC.to_owned(),
        name: "ArtSpot Token".to_owned(),
        symbol: "SPOT".to_owned(),
        icon: Some(DEFAULT_ICON.to_owned()),
        reference: None,
        reference_hash: None,
        decimals: 18,
    }
}

/// The metadata of the SPOT token.
pub fn spot_metadata() -> (r: FungibleTokenMetadata)
    ensures
        r@ == MetadataView::spot(ICON@),
        r@.is_valid(),
{
    FungibleTokenMetadata {
        spec: FT_METADATA_SPEC.to_owned(),
        name: "ArtSpot Token".to_owned(),
        symbol: "SPOT".to_owned(),
        icon: Some(ICON.to_owned()),
        reference: None,
        reference_hash: None,
        decimals: 18,
    }
}

} // verus!
