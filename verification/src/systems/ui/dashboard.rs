use crate::resources::reinforcement_learning::action_space::{ActionSpace, CompanyActionEnum};
use std::collections::HashMap;
use vstd::prelude::*;

verus! {

/// Keeps the rolling action log from growing without bound.
pub const ACTION_HISTORY_CAP: usize = 200;

/// The decimal digit `d` (0 to 9) as a character.
pub open spec fn spec_digit(d: nat) -> char {
    if d == 0 {
        '0'
    } else if d == 1 {
        '1'
    } else if d == 2 {
        '2'
    } else if d == 3 {
        '3'
    } else if d == 4 {
        '4'
    } else if d == 5 {
        '5'
    } else if d == 6 {
        '6'
    } else if d == 7 {
        '7'
    } else if d == 8 {
        '8'
    } else {
        '9'
    }
}

/// Decimal notation of `n`, without leading zeros.
pub open spec fn spec_decimal(n: nat) -> Seq<char>
    decreases n,
{
    if n < 10 {
        seq![spec_digit(n)]
    } else {
        spec_decimal(n / 10).push(spec_digit(n % 10))
    }
}

/// The name stored under `id`, or "?" when there is none.
pub open spec fn name_or_unknown(names: Map<usize, String>, id: usize) -> Seq<char> {
    if names.contains_key(id) {
        names[id]@
    } else {
        "?"@
    }
}

/// A known id is shown by its name, an unknown one as "?".
pub proof fn lemma_name_or_unknown(names: Map<usize, String>, id: usize)
    ensures
        names.contains_key(id) ==> name_or_unknown(names, id) == names[id]@,
        !names.contains_key(id) ==> name_or_unknown(names, id) == "?"@,
{
}

/// Human-readable label of the action at position `idx`.
pub open spec fn spec_action_label(
    actions: Seq<CompanyActionEnum>,
    idx: int,
    resource_names: Map<usize, String>,
    recipe_names: Map<usize, String>,
) -> Seq<char> {
    if idx < 0 || idx >= actions.len() {
        "?"@
    } else {
        match actions[idx] {
            CompanyActionEnum::Nothing => "Idle"@,
            CompanyActionEnum::BuyProcessor(r) => "+Proc("@ + name_or_unknown(recipe_names, r) + ")"@,
            CompanyActionEnum::SellProcessor(r) => "-Proc("@ + name_or_unknown(recipe_names, r) + ")"@,
            CompanyActionEnum::BuyResource(r, a) => "Buy "@ + spec_decimal(a as nat) + "×"@
                + name_or_unknown(resource_names, r),
            CompanyActionEnum::SellResource(r, a) => "Sell "@ + spec_decimal(a as nat) + "×"@
                + name_or_unknown(resource_names, r),
        }
    }
}

/// Numeric value of a decimal digit character (0 for any other character).
pub open spec fn spec_digit_value(c: char) -> nat {
    if c == '1' {
        1
    } else if c == '2' {
        2
    } else if c == '3' {
        3
    } else if c == '4' {
        4
    } else if c == '5' {
        5
    } else if c == '6' {
        6
    } else if c == '7' {
        7
    } else if c == '8' {
        8
    } else if c == '9' {
        9
    } else {
        0
    }
}

/// Whether `c` is one of the characters '0' to '9'.
pub open spec fn is_digit(c: char) -> bool {
    c == '0' || c == '1' || c == '2' || c == '3' || c == '4' || c == '5' || c == '6' || c == '7'
        || c == '8' || c == '9'
}

/// Value of a string of decimal digits, most significant first.
pub open spec fn spec_digits_value(digits: Seq<char>) -> nat
    decreases digits.len(),
{
    if digits.len() == 0 {
        0
    } else {
        spec_digits_value(digits.drop_last()) * 10 + spec_digit_value(digits.last())
    }
}

/// The decimal notation of `n` is a non-empty string of digits whose value is
/// `n`, and it has no leading zero unless it is "0".
pub proof fn lemma_decimal_value(n: nat)
    ensures
        spec_digits_value(spec_decimal(n)) == n,
        spec_decimal(n).len() >= 1,
        forall|i: int| 0 <= i < spec_decimal(n).len() ==> is_digit(#[trigger] spec_decimal(n)[i]),
        n >= 10 ==> spec_decimal(n)[0] != '0',
        n < 10 ==> spec_decimal(n).len() == 1,
    decreases n,
{
    if n < 10 {
        lemma_digit_roundtrip(n);
        assert(spec_decimal(n).drop_last() =~= Seq::<char>::empty());
        assert(spec_digits_value(Seq::<char>::empty()) == 0);
        assert(spec_decimal(n).last() == spec_digit(n));
        assert(spec_digits_value(spec_decimal(n)) == spec_digits_value(spec_decimal(n).drop_last()) * 10
            + spec_digit_value(spec_decimal(n).last()));
    } else {
        lemma_digit_roundtrip(n % 10);
        lemma_decimal_value(n / 10);
        let prefix = spec_decimal(n / 10);
        assert(spec_decimal(n).drop_last() =~= prefix);
        assert(spec_decimal(n)[0] == prefix[0]);
        assert forall|i: int| 0 <= i < spec_decimal(n).len() implies is_digit(#[trigger] spec_decimal(n)[i]) by {
            if i < prefix.len() {
                assert(spec_decimal(n)[i] == prefix[i]);
            }
        }
        assert(spec_decimal(n).last() == spec_digit(n % 10));
        assert(spec_digits_value(spec_decimal(n)) == spec_digits_value(prefix) * 10 + n % 10);
        assert(n == (n / 10) * 10 + n % 10);
    }
}

proof fn lemma_digit_roundtrip(d: nat)
    requires
        d < 10,
    ensures
        spec_digit_value(spec_digit(d)) == d,
        is_digit(spec_digit(d)),
{
}

/// Different numbers have different decimal notations.
pub proof fn lemma_decimal_injective(a: nat, b: nat)
    requires
        spec_decimal(a) == spec_decimal(b),
    ensures
        a == b,
{
    lemma_decimal_value(a);
    lemma_decimal_value(b);
}

/// What a label says: "?" outside the action space, "Idle" for doing
/// nothing, "+Proc(name)" / "-Proc(name)" for buying / selling a processor of
/// a recipe, and "Buy " / "Sell " followed by the amount in decimal, "×" and the
/// resource name for a trade.
pub proof fn lemma_action_label(
    actions: Seq<CompanyActionEnum>,
    idx: int,
    resource_names: Map<usize, String>,
    recipe_names: Map<usize, String>,
)
    ensures
        !(0 <= idx < actions.len()) ==> spec_action_label(actions, idx, resource_names, recipe_names)
            == "?"@,
        0 <= idx < actions.len() && actions[idx] == CompanyActionEnum::Nothing ==> spec_action_label(
            actions,
            idx,
            resource_names,
            recipe_names,
        ) == "Idle"@,
        forall|r: usize|
            0 <= idx < actions.len() && actions[idx] == CompanyActionEnum::BuyProcessor(r)
                ==> spec_action_label(actions, idx, resource_names, recipe_names) == "+Proc("@
                + name_or_unknown(recipe_names, r) + ")"@,
        forall|r: usize|
            0 <= idx < actions.len() && actions[idx] == CompanyActionEnum::SellProcessor(r)
                ==> spec_action_label(actions, idx, resource_names, recipe_names) == "-Proc("@
                + name_or_unknown(recipe_names, r) + ")"@,
        forall|r: usize, a: usize|
            0 <= idx < actions.len() && actions[idx] == CompanyActionEnum::BuyResource(r, a) ==> spec_action_label(
                actions,
                idx,
                resource_names,
                recipe_names,
            ) == "Buy "@ + spec_decimal(a as nat) + "×"@ + name_or_unknown(resource_names, r),
        forall|r: usize, a: usize|
            0 <= idx < actions.len() && actions[idx] == CompanyActionEnum::SellResource(r, a) ==> spec_action_label(
                actions,
                idx,
                resource_names,
                recipe_names,
            ) == "Sell "@ + spec_decimal(a as nat) + "×"@ + name_or_unknown(resource_names, r),
{
}

/// Two buy (or two sell) actions on the same resource with different amounts
/// get different labels: with the same text before the amount and the same
/// name after "×", the labels differ as soon as the amounts do.
pub proof fn lemma_trade_labels_distinguish_amounts(
    name: Seq<char>,
    prefix: Seq<char>,
    a: nat,
    b: nat,
)
    requires
        a != b,
    ensures
        prefix + spec_decimal(a) + "×"@ + name != prefix + spec_decimal(b) + "×"@ + name,
{
    let la = prefix + spec_decimal(a) + "×"@ + name;
    let lb = prefix + spec_decimal(b) + "×"@ + name;
    lemma_decimal_value(a);
    lemma_decimal_value(b);
    reveal_strlit("×");
    assert("×"@.len() == 1);
    if la == lb {
        assert(la.len() == lb.len());
        let da = spec_decimal(a);
        let db = spec_decimal(b);
        assert(da.len() == db.len());
        assert(da =~= la.subrange(prefix.len() as int, (prefix.len() + da.len()) as int));
        assert(db =~= lb.subrange(prefix.len() as int, (prefix.len() + db.len()) as int));
        lemma_decimal_injective(a, b);
    }
}

fn digit_str(d: usize) -> (s: &'static str)
    requires
        d < 10,
    ensures
        s@ == seq![spec_digit(d as nat)],
{
    if d == 0 {
        proof {
            reveal_strlit("0");
        }
        "0"
    } else if d == 1 {
        proof {
            reveal_strlit("1");
        }
        "1"
    } else if d == 2 {
        proof {
            reveal_strlit("2");
        }
        "2"
    } else if d == 3 {
        proof {
            reveal_strlit("3");
        }
        "3"
    } else if d == 4 {
        proof {
            reveal_strlit("4");
        }
        "4"
    } else if d == 5 {
        proof {
            reveal_strlit("5");
        }
        "5"
    } else if d == 6 {
        proof {
            reveal_strlit("6");
        }
        "6"
    } else if d == 7 {
        proof {
            reveal_strlit("7");
        }
        "7"
    } else if d == 8 {
        proof {
            reveal_strlit("8");
        }
        "8"
    } else {
        proof {
            reveal_strlit("9");
        }
        "9"
    }
}

/// Decimal notation of `n`.
pub fn decimal(n: usize) -> (s: String)
    ensures
        s@ == spec_decimal(n as nat),
    decreases n,
{
    if n < 10 {
        String::from_str(digit_str(n))
    } else {
        let mut s = decimal(n / 10);
        s.append(digit_str(n % 10));
        s
    }
}

fn name_of(names: &HashMap<usize, String>, id: usize) -> (name: String)
    ensures
        name@ == name_or_unknown(names@, id),
{
    broadcast use vstd::std_specs::hash::group_hash_axioms;
    match names.get(&id) {
        Some(name) => name.clone(),
        None => String::from_str("?"),
    }
}

/// Human-readable label of the action at position `idx` of the action space,
/// naming recipes and resources by the given name tables.
pub fn action_label(
    idx: usize,
    action_space: &ActionSpace,
    resource_names: &HashMap<usize, String>,
    recipe_names: &HashMap<usize, String>,
) -> (label: String)
    ensures
        label@ == spec_action_label(action_space.actions@, idx as int, resource_names@, recipe_names@),
{
    if idx >= action_space.actions.len() {
        return String::from_str("?");
    }
    match action_space.actions[idx] {
        CompanyActionEnum::Nothing => String::from_str("Idle"),
        CompanyActionEnum::BuyProcessor(r) => {
            let mut label = String::from_str("+Proc(");
            label.append(name_of(recipe_names, r).as_str());
            label.append(")");
            label
        },
        CompanyActionEnum::SellProcessor(r) => {
            let mut label = String::from_str("-Proc(");
            label.append(name_of(recipe_names, r).as_str());
            label.append(")");
            label
        },
        CompanyActionEnum::BuyResource(r, a) => {
            let mut label = String::from_str("Buy ");
            label.append(decimal(a).as_str());
            label.append("×");
            label.append(name_of(resource_names, r).as_str());
            label
        },
        CompanyActionEnum::SellResource(r, a) => {
            let mut label = String::from_str("Sell ");
            label.append(decimal(a).as_str());
            label.append("×");
            label.append(name_of(resource_names, r).as_str());
            label
        },
    }
}

} // verus!
