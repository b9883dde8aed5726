//! The CW721 token messages and the on-chain metadata of the liquidation NFTs.
use vstd::prelude::*;

verus! {

/// One attribute of an NFT.
#[derive(Clone, Debug, PartialEq)]
pub struct Trait {
    pub display_type: Option<String>,
    pub trait_type: String,
    pub value: String,
}

/// The on-chain metadata of an NFT.
#[derive(Clone, Debug, PartialEq)]
pub struct Metadata {
    pub image: Option<String>,
    pub image_data: Option<String>,
    pub external_url: Option<String>,
    pub description: Option<String>,
    pub name: Option<String>,
    pub attributes: Option<Vec<Trait>>,
    pub background_color: Option<String>,
    pub animation_url: Option<String>,
    pub youtube_url: Option<String>,
}

/// A copy of an optional string.
pub fn copy_opt_string(o: &Option<String>) -> (r: Option<String>)
    ensures
        r == *o,
{
    match o {
        Some(x) => Some(x.clone()),
        None => None,
    }
}

impl Trait {
    pub fn duplicate(&self) -> (r: Trait)
        ensures
            r == *self,
    {
        Trait {
            display_type: copy_opt_string(&self.display_type),
            trait_type: self.trait_type.clone(),
            value: self.value.clone(),
        }
    }
}

/// A copy of a list of attributes.
pub fn copy_traits(traits: &Vec<Trait>) -> (r: Vec<Trait>)
    ensures
        r@ == traits@,
{
    let mut out: Vec<Trait> = Vec::new();
    let mut i: usize = 0;
    while i < traits.len()
        invariant
            i <= traits@.len(),
            out@ == traits@.subrange(0, i as int),
        decreases traits@.len() - i,
    {
        out.push(traits[i].duplicate());
        i = i + 1;
        assert(out@ =~= traits@.subrange(0, i as int));
    }
    assert(traits@.subrange(0, traits@.len() as int) =~= traits@);
    out
}

/// Two metadata records hold the same values; lists of attributes are compared by their
/// elements.
pub open spec fn same_metadata(a: Metadata, b: Metadata) -> bool {
    &&& a.image == b.image
    &&& a.image_data == b.image_data
    &&& a.external_url == b.external_url
    &&& a.description == b.description
    &&& a.name == b.name
    &&& (a.attributes is Some <==> b.attributes is Some)
    &&& (a.attributes is Some ==> a.attributes->0@ == b.attributes->0@)
    &&& a.background_color == b.background_color
    &&& a.animation_url == b.animation_url
    &&& a.youtube_url == b.youtube_url
}

impl Metadata {
    pub fn duplicate(&self) -> (r: Metadata)
        ensures
            same_metadata(r, *self),
    {
        Metadata {
            image: copy_opt_string(&self.image),
            image_data: copy_opt_string(&self.image_data),
            external_url: copy_opt_string(&self.external_url),
            description: copy_opt_string(&self.description),
            name: copy_opt_string(&self.name),
            attributes: match &self.attributes {
                Some(a) => Some(copy_traits(a)),
                None => None,
            },
            background_color: copy_opt_string(&self.background_color),
            animation_url: copy_opt_string(&self.animation_url),
            youtube_url: copy_opt_string(&self.youtube_url),
        }
    }
}

/// Creates a CW721 collection.
#[derive(Clone, Debug, PartialEq)]
pub struct Cw721InstantiateMsg {
    pub name: String,
    pub symbol: String,
    pub minter: String,
}

/// Mints one token.
#[derive(Clone, Debug, PartialEq)]
pub struct MintMsg {
    pub token_id: String,
    pub owner: String,
    pub name: String,
    pub description: Option<String>,
    pub image: Option<String>,
    pub extension: Metadata,
}

#[derive(Clone, Debug, PartialEq)]
pub enum Cw721ExecuteMsg {
    Mint(MintMsg),
}

} // verus!
