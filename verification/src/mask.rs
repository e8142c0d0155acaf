//! Kind masks: small sets of item kinds, one bit per kind.
//!
//! Items of a module and members of a trait or an impl share one numbering,
//! so that a single mask type serves selectors, items and members alike.

use vstd::prelude::*;

verus! {

// One bit for each kind, in the order of the selector keywords.

pub const ITEM_NONE: u16 = 0x0000;

pub const ITEM_EXT_CRATE: u16 = 0x0001;

pub const ITEM_USE: u16 = 0x0002;

pub const ITEM_STATIC: u16 = 0x0004;

pub const ITEM_CONST: u16 = 0x0008;

pub const ITEM_FN: u16 = 0x0010;

pub const ITEM_MOD: u16 = 0x0020;

pub const ITEM_FGN_MOD: u16 = 0x0040;

pub const ITEM_TY: u16 = 0x0080;

pub const ITEM_ENUM: u16 = 0x0100;

pub const ITEM_STRUCT: u16 = 0x0200;

pub const ITEM_UNION: u16 = 0x0400;

pub const ITEM_TRAIT: u16 = 0x0800;

pub const ITEM_DEF_IMPL: u16 = 0x1000;

pub const ITEM_IMPL: u16 = 0x2000;

pub const ITEM_MAC: u16 = 0x4000;

/// Every kind at once.
pub const ITEM_ALL: u16 = 0x7fff;

/// The kinds that members of traits and impls can be of.
pub const ITEM_MEMBERS: u16 = 0x4098;

/// A set of item kinds. The empty set is the identity of `union` and
/// intersects nothing.
#[derive(Clone, Copy, Debug, PartialEq, Eq, Structural)]
pub struct ItemMask {
    pub bits: u16,
}

impl ItemMask {
    pub open spec fn spec_none() -> ItemMask {
        ItemMask { bits: ITEM_NONE }
    }

    pub open spec fn spec_union(self, other: ItemMask) -> ItemMask {
        ItemMask { bits: self.bits | other.bits }
    }

    pub open spec fn spec_intersects(self, other: ItemMask) -> bool {
        self.bits & other.bits != 0
    }

    pub open spec fn spec_is_none(self) -> bool {
        self.bits == 0
    }

    /// Exactly one kind.
    pub open spec fn is_single(self) -> bool {
        exists|i: u16| 0 <= i < 15 && self.bits == #[trigger] (1u16 << i)
    }

    /// The mask of the given bits.
    #[verifier::when_used_as_spec(spec_from_bits)]
    pub fn from_bits(bits: u16) -> (mask: ItemMask)
        ensures
            mask.bits == bits,
    {
        ItemMask { bits }
    }

    pub open spec fn spec_from_bits(bits: u16) -> ItemMask {
        ItemMask { bits }
    }

    /// The empty mask.
    #[verifier::when_used_as_spec(spec_none)]
    pub fn none() -> (mask: ItemMask)
        ensures
            mask == Self::spec_none(),
    {
        ItemMask { bits: ITEM_NONE }
    }

    /// The kinds of either mask.
    #[verifier::when_used_as_spec(spec_union)]
    pub fn union(self, other: ItemMask) -> (mask: ItemMask)
        ensures
            mask == self.spec_union(other),
    {
        ItemMask { bits: self.bits | other.bits }
    }

    /// Whether the two masks have a kind in common.
    #[verifier::when_used_as_spec(spec_intersects)]
    pub fn intersects(self, other: ItemMask) -> (hit: bool)
        ensures
            hit == self.spec_intersects(other),
    {
        (self.bits & other.bits) != 0
    }

    /// Whether the mask holds no kind.
    #[verifier::when_used_as_spec(spec_is_none)]
    pub fn is_none(self) -> (empty: bool)
        ensures
            empty == self.spec_is_none(),
    {
        self.bits == 0
    }
}

/// The kind that a selector keyword names; the empty mask for any other word.
pub open spec fn keyword_mask(name: Seq<char>) -> ItemMask {
    ItemMask {
        bits: if name == "crates"@ {
            ITEM_EXT_CRATE
        } else if name == "uses"@ {
            ITEM_USE
        } else if name == "statics"@ {
            ITEM_STATIC
        } else if name == "consts"@ {
            ITEM_CONST
        } else if name == "fns"@ {
            ITEM_FN
        } else if name == "mods"@ {
            ITEM_MOD
        } else if name == "fgn_mods"@ {
            ITEM_FGN_MOD
        } else if name == "types"@ {
            ITEM_TY
        } else if name == "enums"@ {
            ITEM_ENUM
        } else if name == "structs"@ {
            ITEM_STRUCT
        } else if name == "unions"@ {
            ITEM_UNION
        } else if name == "traits"@ {
            ITEM_TRAIT
        } else if name == "def_impls"@ {
            ITEM_DEF_IMPL
        } else if name == "impls"@ {
            ITEM_IMPL
        } else if name == "macros"@ {
            ITEM_MAC
        } else {
            ITEM_NONE
        },
    }
}

/// The words that select a kind.
pub open spec fn is_keyword(name: Seq<char>) -> bool {
    ||| name == "crates"@
    ||| name == "uses"@
    ||| name == "statics"@
    ||| name == "consts"@
    ||| name == "fns"@
    ||| name == "mods"@
    ||| name == "fgn_mods"@
    ||| name == "types"@
    ||| name == "enums"@
    ||| name == "structs"@
    ||| name == "unions"@
    ||| name == "traits"@
    ||| name == "def_impls"@
    ||| name == "impls"@
    ||| name == "macros"@
}

/// The keywords that may carry a nested selector list: those of the kinds
/// that have members.
pub open spec fn is_nesting_keyword(name: Seq<char>) -> bool {
    ||| name == "mods"@
    ||| name == "traits"@
    ||| name == "impls"@
}

/// Whether two texts are the same, character by character.
pub fn same_text(a: &str, b: &str) -> (same: bool)
    ensures
        same == (a@ == b@),
{
    let left = String::from_str(a);
    let right = String::from_str(b);
    left == right
}

/// Maps a selector keyword to the mask of the kind it names. A word outside
/// the vocabulary gives the empty mask.
pub fn map_selector_to_mask(selector: &str) -> (mask: ItemMask)
    ensures
        mask == keyword_mask(selector@),
{
    let bits: u16 = if same_text(selector, "crates") {
        ITEM_EXT_CRATE
    } else if same_text(selector, "uses") {
        ITEM_USE
    } else if same_text(selector, "statics") {
        ITEM_STATIC
    } else if same_text(selector, "consts") {
        ITEM_CONST
    } else if same_text(selector, "fns") {
        ITEM_FN
    } else if same_text(selector, "mods") {
        ITEM_MOD
    } else if same_text(selector, "fgn_mods") {
        ITEM_FGN_MOD
    } else if same_text(selector, "types") {
        ITEM_TY
    } else if same_text(selector, "enums") {
        ITEM_ENUM
    } else if same_text(selector, "structs") {
        ITEM_STRUCT
    } else if same_text(selector, "unions") {
        ITEM_UNION
    } else if same_text(selector, "traits") {
        ITEM_TRAIT
    } else if same_text(selector, "def_impls") {
        ITEM_DEF_IMPL
    } else if same_text(selector, "impls") {
        ITEM_IMPL
    } else if same_text(selector, "macros") {
        ITEM_MAC
    } else {
        ITEM_NONE
    };
    ItemMask { bits }
}

/// Whether the word is in the selector vocabulary.
pub fn is_selector_keyword(selector: &str) -> (known: bool)
    ensures
        known == is_keyword(selector@),
        known == !keyword_mask(selector@).spec_is_none(),
{
    proof {
        lemma_keyword_mask_single(selector@);
    }
    !map_selector_to_mask(selector).is_none()
}

/// Whether the word may carry a nested selector list.
pub fn is_nesting_selector_keyword(selector: &str) -> (nesting: bool)
    ensures
        nesting == is_nesting_keyword(selector@),
{
    same_text(selector, "mods") || same_text(selector, "traits") || same_text(selector, "impls")
}

/// The fifteen keywords are fifteen different words.
pub proof fn lemma_keywords_differ()
    ensures
        "crates"@.len() == 6 && "crates"@[0] == 'c' && "crates"@[2] == 'a',
        "uses"@.len() == 4 && "uses"@[0] == 'u',
        "statics"@.len() == 7 && "statics"@[0] == 's' && "statics"@[1] == 't' && "statics"@[2] == 'a',
        "consts"@.len() == 6 && "consts"@[2] == 'n',
        "fns"@.len() == 3,
        "mods"@.len() == 4 && "mods"@[0] == 'm',
        "fgn_mods"@.len() == 8,
        "types"@.len() == 5 && "types"@[0] == 't',
        "enums"@.len() == 5 && "enums"@[0] == 'e',
        "structs"@.len() == 7 && "structs"@[2] == 'r',
        "unions"@.len() == 6 && "unions"@[2] == 'i',
        "traits"@.len() == 6 && "traits"@[2] == 'a' && "traits"@[0] == 't',
        "def_impls"@.len() == 9,
        "impls"@.len() == 5 && "impls"@[0] == 'i',
        "macros"@.len() == 6 && "macros"@[2] == 'c',
{
    reveal_strlit("crates");
    reveal_strlit("uses");
    reveal_strlit("statics");
    reveal_strlit("consts");
    reveal_strlit("fns");
    reveal_strlit("mods");
    reveal_strlit("fgn_mods");
    reveal_strlit("types");
    reveal_strlit("enums");
    reveal_strlit("structs");
    reveal_strlit("unions");
    reveal_strlit("traits");
    reveal_strlit("def_impls");
    reveal_strlit("impls");
    reveal_strlit("macros");
}

/// A word is a keyword exactly when its mask is not empty, and the mask of
/// a keyword holds exactly one kind.
pub proof fn lemma_keyword_mask_single(name: Seq<char>)
    ensures
        is_keyword(name) <==> !keyword_mask(name).spec_is_none(),
        is_keyword(name) ==> keyword_mask(name).is_single(),
        keyword_mask(name).bits & ITEM_ALL == keyword_mask(name).bits,
{
    let bits = keyword_mask(name).bits;
    assert(1u16 << 0u16 == 0x0001 && 1u16 << 1u16 == 0x0002 && 1u16 << 2u16 == 0x0004 && 1u16
        << 3u16 == 0x0008 && 1u16 << 4u16 == 0x0010 && 1u16 << 5u16 == 0x0020 && 1u16 << 6u16
        == 0x0040 && 1u16 << 7u16 == 0x0080 && 1u16 << 8u16 == 0x0100 && 1u16 << 9u16 == 0x0200
        && 1u16 << 10u16 == 0x0400 && 1u16 << 11u16 == 0x0800 && 1u16 << 12u16 == 0x1000 && 1u16
        << 13u16 == 0x2000 && 1u16 << 14u16 == 0x4000) by (bit_vector);
    assert(0x0001u16 & 0x7fff == 0x0001 && 0x0002u16 & 0x7fff == 0x0002 && 0x0004u16 & 0x7fff
        == 0x0004 && 0x0008u16 & 0x7fff == 0x0008 && 0x0010u16 & 0x7fff == 0x0010 && 0x0020u16
        & 0x7fff == 0x0020 && 0x0040u16 & 0x7fff == 0x0040 && 0x0080u16 & 0x7fff == 0x0080
        && 0x0100u16 & 0x7fff == 0x0100 && 0x0200u16 & 0x7fff == 0x0200 && 0x0400u16 & 0x7fff
        == 0x0400 && 0x0800u16 & 0x7fff == 0x0800 && 0x1000u16 & 0x7fff == 0x1000 && 0x2000u16
        & 0x7fff == 0x2000 && 0x4000u16 & 0x7fff == 0x4000 && 0u16 & 0x7fff == 0)
        by (bit_vector);
}

/// Two different keywords name two different kinds: their masks share no
/// bit.
pub proof fn lemma_keyword_masks_disjoint(a: Seq<char>, b: Seq<char>)
    requires
        is_keyword(a),
        is_keyword(b),
        a != b,
    ensures
        keyword_mask(a) != keyword_mask(b),
        !keyword_mask(a).spec_intersects(keyword_mask(b)),
{
    lemma_keywords_differ();
    let x = keyword_mask(a).bits;
    let y = keyword_mask(b).bits;
    assert(x != y);
    assert((x == 0x0001 || x == 0x0002 || x == 0x0004 || x == 0x0008 || x == 0x0010 || x == 0x0020
        || x == 0x0040 || x == 0x0080 || x == 0x0100 || x == 0x0200 || x == 0x0400 || x == 0x0800
        || x == 0x1000 || x == 0x2000 || x == 0x4000) && (y == 0x0001 || y == 0x0002 || y
        == 0x0004 || y == 0x0008 || y == 0x0010 || y == 0x0020 || y == 0x0040 || y == 0x0080 || y
        == 0x0100 || y == 0x0200 || y == 0x0400 || y == 0x0800 || y == 0x1000 || y == 0x2000 || y
        == 0x4000) && x != y ==> x & y == 0) by (bit_vector);
}

/// Together the keywords name every kind.
pub proof fn lemma_keyword_masks_cover()
    ensures
        keyword_mask("crates"@).spec_union(keyword_mask("uses"@)).spec_union(
            keyword_mask("statics"@),
        ).spec_union(keyword_mask("consts"@)).spec_union(keyword_mask("fns"@)).spec_union(
            keyword_mask("mods"@),
        ).spec_union(keyword_mask("fgn_mods"@)).spec_union(keyword_mask("types"@)).spec_union(
            keyword_mask("enums"@),
        ).spec_union(keyword_mask("structs"@)).spec_union(keyword_mask("unions"@)).spec_union(
            keyword_mask("traits"@),
        ).spec_union(keyword_mask("def_impls"@)).spec_union(keyword_mask("impls"@)).spec_union(
            keyword_mask("macros"@),
        ) == ItemMask::spec_from_bits(ITEM_ALL),
{
    lemma_keywords_differ();
    assert(0x0001u16 | 0x0002 | 0x0004 | 0x0008 | 0x0010 | 0x0020 | 0x0040 | 0x0080 | 0x0100
        | 0x0200 | 0x0400 | 0x0800 | 0x1000 | 0x2000 | 0x4000 == 0x7fff) by (bit_vector);
}

} // verus!
