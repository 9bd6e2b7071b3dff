//! Messages with numbers and names in them, written as `Display` and
//! `Debug` would write them.
use vstd::prelude::*;
use crate::enums::ItemType;

verus! {

/// The character of decimal digit `d`.
pub open spec fn digit_char(d: nat) -> char {
    (48 + d) as char
}

/// The decimal digits of `n`, as `Display` writes an unsigned integer.
pub open spec fn decimal(n: nat) -> Seq<char>
    decreases n,
{
    if n < 10 {
        seq![digit_char(n)]
    } else {
        decimal(n / 10).push(digit_char(n % 10))
    }
}

/// The one-character text of decimal digit `d`.
fn digit_text(d: u64) -> (r: &'static str)
    requires
        d < 10,
    ensures
        r@ == seq![digit_char(d as nat)],
{
    proof {
        reveal_strlit("0");
        reveal_strlit("1");
        reveal_strlit("2");
        reveal_strlit("3");
        reveal_strlit("4");
        reveal_strlit("5");
        reveal_strlit("6");
        reveal_strlit("7");
        reveal_strlit("8");
        reveal_strlit("9");
    }
    let r = match d {
        0 => "0",
        1 => "1",
        2 => "2",
        3 => "3",
        4 => "4",
        5 => "5",
        6 => "6",
        7 => "7",
        8 => "8",
        _ => "9",
    };
    assert(r@ =~= seq![digit_char(d as nat)]);
    r
}

/// Appends the decimal digits of `n` to `s`, as `Display` writes them.
fn push_decimal(s: &mut String, n: u64)
    ensures
        final(s)@ == old(s)@ + decimal(n as nat),
    decreases n,
{
    if n >= 10 {
        push_decimal(s, n / 10);
    }
    s.append(digit_text(n % 10));
    proof {
        if n >= 10 {
            assert(decimal(n as nat) == decimal((n / 10) as nat).push(digit_char((n % 10) as nat)));
        }
    }
    assert(s@ =~= old(s)@ + decimal(n as nat));
}

/// `text` followed by the decimal digits of `n` and then `tail`.
fn text_with_number(text: &str, n: u64, tail: &str) -> (r: String)
    ensures
        r@ == text@ + decimal(n as nat) + tail@,
{
    let mut s = String::from_str(text);
    push_decimal(&mut s, n);
    s.append(tail);
    assert(s@ =~= text@ + decimal(n as nat) + tail@);
    s
}

/// What `Debug` writes for an item type: a derived `Debug` on a variant
/// without fields writes the variant's name.
pub open spec fn item_type_debug(t: ItemType) -> Seq<char> {
    match t {
        ItemType::Nothing => "Nothing"@,
        ItemType::Weapon => "Weapon"@,
        ItemType::Armour => "Armour"@,
        ItemType::Helmet => "Helmet"@,
        ItemType::Necklace => "Necklace"@,
        ItemType::Bracelet => "Bracelet"@,
        ItemType::Ring => "Ring"@,
        ItemType::Amulet => "Amulet"@,
        ItemType::Belt => "Belt"@,
        ItemType::Boots => "Boots"@,
        ItemType::Stone => "Stone"@,
        ItemType::Torch => "Torch"@,
        ItemType::Potion => "Potion"@,
        ItemType::Ore => "Ore"@,
        ItemType::Meat => "Meat"@,
        ItemType::CraftingMaterial => "CraftingMaterial"@,
        ItemType::Scroll => "Scroll"@,
        ItemType::Gem => "Gem"@,
        ItemType::Mount => "Mount"@,
        ItemType::Book => "Book"@,
        ItemType::Script => "Script"@,
        ItemType::Reins => "Reins"@,
        ItemType::Bells => "Bells"@,
        ItemType::Saddle => "Saddle"@,
        ItemType::Ribbon => "Ribbon"@,
        ItemType::Mask => "Mask"@,
        ItemType::Food => "Food"@,
        ItemType::Hook => "Hook"@,
        ItemType::Float => "Float"@,
        ItemType::Bait => "Bait"@,
        ItemType::Finder => "Finder"@,
        ItemType::Reel => "Reel"@,
        ItemType::Fish => "Fish"@,
        ItemType::Quest => "Quest"@,
        ItemType::Awakening => "Awakening"@,
        ItemType::Pets => "Pets"@,
        ItemType::Transform => "Transform"@,
        ItemType::Deco => "Deco"@,
        ItemType::Socket => "Socket"@,
        ItemType::MonsterSpawn => "MonsterSpawn"@,
        ItemType::SiegeAmmo => "SiegeAmmo"@,
        ItemType::SealedHero => "SealedHero"@,
    }
}

/// The name of an item type, as `Debug` writes it.
fn item_type_name(t: ItemType) -> (r: &'static str)
    ensures
        r@ == item_type_debug(t),
{
    match t {
        ItemType::Nothing => "Nothing",
        ItemType::Weapon => "Weapon",
        ItemType::Armour => "Armour",
        ItemType::Helmet => "Helmet",
        ItemType::Necklace => "Necklace",
        ItemType::Bracelet => "Bracelet",
        ItemType::Ring => "Ring",
        ItemType::Amulet => "Amulet",
        ItemType::Belt => "Belt",
        ItemType::Boots => "Boots",
        ItemType::Stone => "Stone",
        ItemType::Torch => "Torch",
        ItemType::Potion => "Potion",
        ItemType::Ore => "Ore",
        ItemType::Meat => "Meat",
        ItemType::CraftingMaterial => "CraftingMaterial",
        ItemType::Scroll => "Scroll",
        ItemType::Gem => "Gem",
        ItemType::Mount => "Mount",
        ItemType::Book => "Book",
        ItemType::Script => "Script",
        ItemType::Reins => "Reins",
        ItemType::Bells => "Bells",
        ItemType::Saddle => "Saddle",
        ItemType::Ribbon => "Ribbon",
        ItemType::Mask => "Mask",
        ItemType::Food => "Food",
        ItemType::Hook => "Hook",
        ItemType::Float => "Float",
        ItemType::Bait => "Bait",
        ItemType::Finder => "Finder",
        ItemType::Reel => "Reel",
        ItemType::Fish => "Fish",
        ItemType::Quest => "Quest",
        ItemType::Awakening => "Awakening",
        ItemType::Pets => "Pets",
        ItemType::Transform => "Transform",
        ItemType::Deco => "Deco",
        ItemType::Socket => "Socket",
        ItemType::MonsterSpawn => "MonsterSpawn",
        ItemType::SiegeAmmo => "SiegeAmmo",
        ItemType::SealedHero => "SealedHero",
    }
}

/// "Item type {t} cannot be equipped", with the type's name.
pub(crate) fn unequippable_type(t: ItemType) -> (r: String)
    ensures
        r@ == "Item type "@ + item_type_debug(t) + " cannot be equipped"@,
{
    let mut s = String::from_str("Item type ");
    s.append(item_type_name(t));
    s.append(" cannot be equipped");
    s
}

/// "Inventory slot {} is empty", with the number written in decimal.
pub(crate) fn empty_inventory_slot(n: usize) -> (r: String)
    ensures
        r@ == "Inventory slot "@ + decimal(n as nat) + " is empty"@,
{
    text_with_number("Inventory slot ", n as u64, " is empty")
}

/// "Slot {} is not equipped", with the number written in decimal.
pub(crate) fn slot_not_equipped(n: u8) -> (r: String)
    ensures
        r@ == "Slot "@ + decimal(n as nat) + " is not equipped"@,
{
    text_with_number("Slot ", n as u64, " is not equipped")
}

/// "Skill {} is already learned", with the number written in decimal.
pub(crate) fn skill_already_learned(n: u16) -> (r: String)
    ensures
        r@ == "Skill "@ + decimal(n as nat) + " is already learned"@,
{
    text_with_number("Skill ", n as u64, " is already learned")
}

/// "Skill {} not learned", with the number written in decimal.
pub(crate) fn skill_not_learned(n: u16) -> (r: String)
    ensures
        r@ == "Skill "@ + decimal(n as nat) + " not learned"@,
{
    text_with_number("Skill ", n as u64, " not learned")
}

/// "Map {}", with the number written in decimal.
pub(crate) fn default_map_title(n: u16) -> (r: String)
    ensures
        r@ == "Map "@ + decimal(n as nat),
{
    let r = text_with_number("Map ", n as u64, "");
    proof {
        reveal_strlit("");
        assert(r@ =~= "Map "@ + decimal(n as nat));
    }
    r
}

/// "Player {}", with the number written in decimal.
pub(crate) fn spaced_player_name(n: u32) -> (r: String)
    ensures
        r@ == "Player "@ + decimal(n as nat),
{
    let r = text_with_number("Player ", n as u64, "");
    proof {
        reveal_strlit("");
        assert(r@ =~= "Player "@ + decimal(n as nat));
    }
    r
}

/// "Player{}", with the number written in decimal.
pub(crate) fn numbered_player_name(n: u32) -> (r: String)
    ensures
        r@ == "Player"@ + decimal(n as nat),
{
    let r = text_with_number("Player", n as u64, "");
    proof {
        reveal_strlit("");
        assert(r@ =~= "Player"@ + decimal(n as nat));
    }
    r
}

} // verus!
