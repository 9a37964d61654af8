use vstd::prelude::*;

use crate::errors::RcliError;

verus! {

// The password alphabet, with the easily confused characters left out:
// uppercase without I, lowercase without l and o, digits without 0, and a
// small set of symbols.

/// An uppercase password letter: A through Z without I.
pub open spec fn is_upper_pw(b: u8) -> bool {
    65 <= b && b <= 90 && b != 73
}

/// A lowercase password letter: a through z without l and o.
pub open spec fn is_lower_pw(b: u8) -> bool {
    97 <= b && b <= 122 && b != 108 && b != 111
}

/// A password digit: 1 through 9.
pub open spec fn is_number_pw(b: u8) -> bool {
    49 <= b && b <= 57
}

/// A password symbol: one of ! @ # $ % ^ & * - _
pub open spec fn is_symbol_pw(b: u8) -> bool {
    b == 33 || b == 64 || b == 35 || b == 36 || b == 37 || b == 94 || b == 38 || b == 42 || b == 45
        || b == 95
}

/// A byte the requested classes allow.
pub open spec fn pw_allowed(upper: bool, lower: bool, number: bool, symbol: bool, b: u8) -> bool {
    ||| (upper && is_upper_pw(b))
    ||| (lower && is_lower_pw(b))
    ||| (number && is_number_pw(b))
    ||| (symbol && is_symbol_pw(b))
}

/// The password holds at least one uppercase letter.
pub open spec fn has_upper(p: Seq<char>) -> bool {
    exists|k: int| 0 <= k < p.len() && is_upper_pw(p[k] as u8)
}

/// The password holds at least one lowercase letter.
pub open spec fn has_lower(p: Seq<char>) -> bool {
    exists|k: int| 0 <= k < p.len() && is_lower_pw(p[k] as u8)
}

/// The password holds at least one digit.
pub open spec fn has_number(p: Seq<char>) -> bool {
    exists|k: int| 0 <= k < p.len() && is_number_pw(p[k] as u8)
}

/// The password holds at least one symbol.
pub open spec fn has_symbol(p: Seq<char>) -> bool {
    exists|k: int| 0 <= k < p.len() && is_symbol_pw(p[k] as u8)
}

/// How many character classes are enabled.
pub open spec fn enabled_classes(upper: bool, lower: bool, number: bool, symbol: bool) -> int {
    (if upper {
        1int
    } else {
        0
    }) + (if lower {
        1int
    } else {
        0
    }) + (if number {
        1int
    } else {
        0
    }) + (if symbol {
        1int
    } else {
        0
    })
}

fn upper_chars() -> (r: Vec<u8>)
    ensures
        r@.len() > 0,
        forall|k: int| 0 <= k < r@.len() ==> is_upper_pw(r@[k]),
{
    let mut v: Vec<u8> = Vec::new();
    let mut b: u8 = 65;
    while b <= 90
        invariant
            65 <= b <= 91,
            forall|k: int| 0 <= k < v@.len() ==> is_upper_pw(v@[k]),
            b > 65 ==> v@.len() > 0,
        decreases 91 - b,
    {
        if b != 73 {
            v.push(b);
        }
        b = b + 1;
    }
    v
}

fn lower_chars() -> (r: Vec<u8>)
    ensures
        r@.len() > 0,
        forall|k: int| 0 <= k < r@.len() ==> is_lower_pw(r@[k]),
{
    let mut v: Vec<u8> = Vec::new();
    let mut b: u8 = 97;
    while b <= 122
        invariant
            97 <= b <= 123,
            forall|k: int| 0 <= k < v@.len() ==> is_lower_pw(v@[k]),
            b > 98 ==> v@.len() > 0,
        decreases 123 - b,
    {
        if b != 108 && b != 111 {
            v.push(b);
        }
        b = b + 1;
    }
    v
}

fn number_chars() -> (r: Vec<u8>)
    ensures
        r@.len() > 0,
        forall|k: int| 0 <= k < r@.len() ==> is_number_pw(r@[k]),
{
    let mut v: Vec<u8> = Vec::new();
    let mut b: u8 = 49;
    while b <= 57
        invariant
            49 <= b <= 58,
            forall|k: int| 0 <= k < v@.len() ==> is_number_pw(v@[k]),
            b > 49 ==> v@.len() > 0,
        decreases 58 - b,
    {
        v.push(b);
        b = b + 1;
    }
    v
}

fn symbol_chars() -> (r: Vec<u8>)
    ensures
        r@.len() > 0,
        forall|k: int| 0 <= k < r@.len() ==> is_symbol_pw(r@[k]),
{
    let mut v: Vec<u8> = Vec::new();
    v.push(33);
    v.push(64);
    v.push(35);
    v.push(36);
    v.push(37);
    v.push(94);
    v.push(38);
    v.push(42);
    v.push(45);
    v.push(95);
    v
}

/// Relies on rand's `SliceRandom::choose` with `thread_rng`: some element of
/// a non-empty slice; which one depends on the generator's state, so nothing
/// more is assumed of it.
#[verifier::external_body]
fn choose_byte(options: &[u8]) -> (r: u8)
    requires
        options@.len() > 0,
    ensures
        options@.contains(r),
{
    let mut rng = rand::thread_rng();
    *rand::seq::SliceRandom::choose(options, &mut rng).unwrap()
}

/// Relies on rand's `SliceRandom::shuffle` with `thread_rng`: an in-place
/// permutation, so the multiset of bytes is unchanged.
#[verifier::external_body]
fn shuffle_bytes(v: &mut Vec<u8>)
    ensures
        final(v)@.to_multiset() == old(v)@.to_multiset(),
        final(v)@.len() == old(v)@.len(),
{
    let mut rng = rand::thread_rng();
    rand::seq::SliceRandom::shuffle(v.as_mut_slice(), &mut rng);
}

/// Relies on `String::from_utf8`: bytes below 128 are valid UTF-8 and decode
/// one character per byte, each character being the byte's code point.
#[verifier::external_body]
fn ascii_to_string(bytes: Vec<u8>) -> (r: String)
    requires
        forall|k: int| 0 <= k < bytes@.len() ==> bytes@[k] < 128,
    ensures
        r@.len() == bytes@.len(),
        forall|k: int| 0 <= k < bytes@.len() ==> r@[k] as u8 == bytes@[k],
{
    String::from_utf8(bytes).unwrap()
}

/// A permutation keeps every byte inside the allowed classes.
proof fn lemma_permutation_allowed(
    upper: bool,
    lower: bool,
    number: bool,
    symbol: bool,
    before: Seq<u8>,
    after: Seq<u8>,
)
    requires
        after.to_multiset() == before.to_multiset(),
        forall|k: int| 0 <= k < before.len() ==> pw_allowed(upper, lower, number, symbol, before[k]),
    ensures
        forall|k: int| 0 <= k < after.len() ==> pw_allowed(upper, lower, number, symbol, after[k]),
{
    broadcast use vstd::seq_lib::group_to_multiset_ensures;

    assert forall|k: int| 0 <= k < after.len() implies pw_allowed(
        upper,
        lower,
        number,
        symbol,
        after[k],
    ) by {
        assert(after.contains(after[k]));
        assert(after.to_multiset().count(after[k]) > 0);
        assert(before.contains(after[k]));
        let j = choose|j: int| 0 <= j < before.len() && before[j] == after[k];
        assert(pw_allowed(upper, lower, number, symbol, before[j]));
    }
}

/// A byte present before a permutation is present after it.
proof fn lemma_permutation_witness(before: Seq<u8>, after: Seq<u8>, i: int)
    requires
        after.to_multiset() == before.to_multiset(),
        0 <= i < before.len(),
    ensures
        exists|j: int| 0 <= j < after.len() && after[j] == before[i],
{
    broadcast use vstd::seq_lib::group_to_multiset_ensures;

    assert(before.contains(before[i]));
    assert(before.to_multiset().count(before[i]) > 0);
    assert(after.contains(before[i]));
}

/// Draws the password bytes: exactly `length` of them, all from the
/// enabled classes, with at least one byte of each enabled class.
#[verifier::rlimit(50)]
fn genpass_bytes(length: u8, upper: bool, lower: bool, number: bool, symbol: bool) -> (r: Vec<u8>)
    requires
        upper || lower || number || symbol,
        enabled_classes(upper, lower, number, symbol) <= length as int,
    ensures
        r@.len() == length as nat,
        forall|k: int| 0 <= k < r@.len() ==> pw_allowed(upper, lower, number, symbol, r@[k]),
        upper ==> exists|k: int| 0 <= k < r@.len() && is_upper_pw(r@[k]),
        lower ==> exists|k: int| 0 <= k < r@.len() && is_lower_pw(r@[k]),
        number ==> exists|k: int| 0 <= k < r@.len() && is_number_pw(r@[k]),
        symbol ==> exists|k: int| 0 <= k < r@.len() && is_symbol_pw(r@[k]),
{
    let mut password: Vec<u8> = Vec::new();
    let mut chars: Vec<u8> = Vec::new();
    let ghost mut iu: int = 0;
    let ghost mut il: int = 0;
    let ghost mut inum: int = 0;
    let ghost mut isym: int = 0;

    if upper {
        let mut cs = upper_chars();
        let pick = choose_byte(cs.as_slice());
        password.push(pick);
        proof {
            let j = choose|j: int| 0 <= j < cs@.len() && cs@[j] == pick;
            iu = password@.len() - 1;
            assert(is_upper_pw(password@[iu]));
        }
        chars.append(&mut cs);
    }
    if lower {
        let mut cs = lower_chars();
        let pick = choose_byte(cs.as_slice());
        password.push(pick);
        proof {
            let j = choose|j: int| 0 <= j < cs@.len() && cs@[j] == pick;
            il = password@.len() - 1;
            assert(is_lower_pw(password@[il]));
        }
        chars.append(&mut cs);
    }
    if number {
        let mut cs = number_chars();
        let pick = choose_byte(cs.as_slice());
        password.push(pick);
        proof {
            let j = choose|j: int| 0 <= j < cs@.len() && cs@[j] == pick;
            inum = password@.len() - 1;
            assert(is_number_pw(password@[inum]));
        }
        chars.append(&mut cs);
    }
    if symbol {
        let mut cs = symbol_chars();
        let pick = choose_byte(cs.as_slice());
        password.push(pick);
        proof {
            let j = choose|j: int| 0 <= j < cs@.len() && cs@[j] == pick;
            isym = password@.len() - 1;
            assert(is_symbol_pw(password@[isym]));
        }
        chars.append(&mut cs);
    }

    assert(password@.len() == enabled_classes(upper, lower, number, symbol));
    while password.len() < length as usize
        invariant
            chars@.len() > 0,
            password@.len() <= length as nat,
            forall|k: int|
                0 <= k < chars@.len() ==> pw_allowed(upper, lower, number, symbol, chars@[k]),
            forall|k: int|
                0 <= k < password@.len() ==> pw_allowed(upper, lower, number, symbol, password@[k]),
            upper ==> 0 <= iu < password@.len() && is_upper_pw(password@[iu]),
            lower ==> 0 <= il < password@.len() && is_lower_pw(password@[il]),
            number ==> 0 <= inum < password@.len() && is_number_pw(password@[inum]),
            symbol ==> 0 <= isym < password@.len() && is_symbol_pw(password@[isym]),
        decreases length as int - password@.len(),
    {
        let c = choose_byte(chars.as_slice());
        proof {
            let j = choose|j: int| 0 <= j < chars@.len() && chars@[j] == c;
            assert(pw_allowed(upper, lower, number, symbol, c));
        }
        password.push(c);
    }

    let ghost before = password@;
    shuffle_bytes(&mut password);
    proof {
        lemma_permutation_allowed(upper, lower, number, symbol, before, password@);
        if upper {
            lemma_permutation_witness(before, password@, iu);
        }
        if lower {
            lemma_permutation_witness(before, password@, il);
        }
        if number {
            lemma_permutation_witness(before, password@, inum);
        }
        if symbol {
            lemma_permutation_witness(before, password@, isym);
        }
    }
    password
}

/// Generates a random password of exactly `length` characters, drawn from
/// the enabled character classes, with at least one character of each
/// enabled class. At least one class must be enabled, and the length must
/// leave room for the mandatory character of each enabled class.
pub fn process_genpass(length: u8, upper: bool, lower: bool, number: bool, symbol: bool) -> (r:
    Result<String, RcliError>)
    requires
        upper || lower || number || symbol,
        enabled_classes(upper, lower, number, symbol) <= length as int,
    ensures
        r.is_ok(),
        r matches Ok(p) ==> p@.len() == length as nat,
        r matches Ok(p) ==> forall|k: int|
            0 <= k < p@.len() ==> pw_allowed(upper, lower, number, symbol, p@[k] as u8),
        r matches Ok(p) ==> upper ==> has_upper(p@),
        r matches Ok(p) ==> lower ==> has_lower(p@),
        r matches Ok(p) ==> number ==> has_number(p@),
        r matches Ok(p) ==> symbol ==> has_symbol(p@),
{
    let bytes = genpass_bytes(length, upper, lower, number, symbol);
    let ghost pb = bytes@;
    let p = ascii_to_string(bytes);
    proof {
        assert forall|k: int| 0 <= k < p@.len() implies pw_allowed(
            upper,
            lower,
            number,
            symbol,
            p@[k] as u8,
        ) by {
            assert(p@[k] as u8 == pb[k]);
        }
        if upper {
            let j = choose|j: int| 0 <= j < pb.len() && is_upper_pw(pb[j]);
            assert(has_upper(p@)) by {
                assert(p@[j] as u8 == pb[j]);
                assert(0 <= j < p@.len() && is_upper_pw(p@[j] as u8));
            }
        }
        if lower {
            let j = choose|j: int| 0 <= j < pb.len() && is_lower_pw(pb[j]);
            assert(has_lower(p@)) by {
                assert(p@[j] as u8 == pb[j]);
                assert(0 <= j < p@.len() && is_lower_pw(p@[j] as u8));
            }
        }
        if number {
            let j = choose|j: int| 0 <= j < pb.len() && is_number_pw(pb[j]);
            assert(has_number(p@)) by {
                assert(p@[j] as u8 == pb[j]);
                assert(0 <= j < p@.len() && is_number_pw(p@[j] as u8));
            }
        }
        if symbol {
            let j = choose|j: int| 0 <= j < pb.len() && is_symbol_pw(pb[j]);
            assert(has_symbol(p@)) by {
                assert(p@[j] as u8 == pb[j]);
                assert(0 <= j < p@.len() && is_symbol_pw(p@[j] as u8));
            }
        }
    }
    Ok(p)
}

} // verus!
