//! God records as the API describes them, and the argument of the god
//! listing call.

use vstd::prelude::*;

use crate::text::dec_digits;

verus! {

/// One menu line of an ability description: a label and its value.
pub struct Menuitem {
    pub description: String,
    pub value: String,
}

/// One per-rank line of an ability description: a label and its value.
pub struct Rankitem {
    pub description: String,
    pub value: String,
}

/// The body of an ability description: costs, text, and its line items.
pub struct AbilityDescription {
    pub cooldown: Option<String>,
    pub cost: Option<String>,
    pub description: Option<String>,
    pub menuitems: Vec<Menuitem>,
    pub rankitems: Vec<Rankitem>,
}

/// The body of an item description: the same shape the abilities use.
pub struct ItemDescription {
    pub cooldown: Option<String>,
    pub cost: Option<String>,
    pub description: Option<String>,
    pub menuitems: Vec<Menuitem>,
    pub rankitems: Vec<Rankitem>,
}

/// The description wrapper of a basic attack.
pub struct BasicAttack {
    pub item_description: ItemDescription,
}

/// One ability of a god: its description, id, summary, and icon address.
pub struct Ability {
    pub description: BasicAttack,
    pub id: u32,
    pub summary: String,
    pub url: String,
}

/// The language code the god listing falls back to when the caller names
/// none: English.
pub const DEFAULT_LANGUAGE_CODE: u32 = 1;

/// The single positional argument of a god listing call: the language code
/// in decimal, English when the caller names none.
pub fn gods_args(language_code: Option<u32>) -> (r: Vec<String>)
    ensures
        r.deep_view() == seq![
            dec_digits(
                match language_code {
                    Some(code) => code as nat,
                    None => DEFAULT_LANGUAGE_CODE as nat,
                },
            ),
        ],
{
    let code = match language_code {
        Some(code) => code,
        None => DEFAULT_LANGUAGE_CODE,
    };
    let mut args: Vec<String> = Vec::new();
    args.push(crate::text::u64_to_string(code as u64));
    proof {
        assert(args.deep_view() =~= seq![dec_digits(code as nat)]);
    }
    args
}

} // verus!
