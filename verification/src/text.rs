//! Pieces of source text that both generators write.

use vstd::prelude::*;

verus! {

/// The character that stands for the digit `d`.
pub open spec fn digit_char(d: nat) -> char
    recommends
        d < 10,
{
    seq!['0', '1', '2', '3', '4', '5', '6', '7', '8', '9'][d as int]
}

/// The decimal numeral of `n`: its digits, the most significant first, with
/// no leading zero but for `0` itself.
pub open spec fn decimal_text(n: nat) -> Seq<char>
    decreases n,
{
    if n < 10 {
        seq![digit_char(n)]
    } else {
        decimal_text(n / 10).push(digit_char(n % 10))
    }
}

/// Different digits have different characters.
pub proof fn lemma_digit_char_injective(x: nat, y: nat)
    requires
        x < 10,
        y < 10,
        digit_char(x) == digit_char(y),
    ensures
        x == y,
{
    assert(digit_char(0) == '0');
    assert(digit_char(1) == '1');
    assert(digit_char(2) == '2');
    assert(digit_char(3) == '3');
    assert(digit_char(4) == '4');
    assert(digit_char(5) == '5');
    assert(digit_char(6) == '6');
    assert(digit_char(7) == '7');
    assert(digit_char(8) == '8');
    assert(digit_char(9) == '9');
}

/// A numeral has at least one digit.
pub proof fn lemma_decimal_text_len(n: nat)
    ensures
        decimal_text(n).len() >= 1,
        n >= 10 ==> decimal_text(n).len() >= 2,
    decreases n,
{
    if n >= 10 {
        lemma_decimal_text_len(n / 10);
    }
}

/// Different numbers have different numerals: a position written as a
/// numeral still tells which field is meant.
pub proof fn lemma_decimal_text_injective(a: nat, b: nat)
    requires
        decimal_text(a) == decimal_text(b),
    ensures
        a == b,
    decreases a,
{
    lemma_decimal_text_len(a);
    lemma_decimal_text_len(b);
    if a < 10 || b < 10 {
        if a < 10 {
            assert(decimal_text(a).len() == 1);
        }
        if b < 10 {
            assert(decimal_text(b).len() == 1);
        }
        assert(decimal_text(a)[0] == digit_char(a));
        assert(decimal_text(b)[0] == digit_char(b));
        lemma_digit_char_injective(a, b);
    } else {
        let x = decimal_text(a / 10);
        let y = decimal_text(b / 10);
        assert(x.push(digit_char(a % 10)).drop_last() == x);
        assert(y.push(digit_char(b % 10)).drop_last() == y);
        assert(x.push(digit_char(a % 10)).last() == digit_char(a % 10));
        assert(y.push(digit_char(b % 10)).last() == digit_char(b % 10));
        lemma_decimal_text_injective(a / 10, b / 10);
        lemma_digit_char_injective(a % 10, b % 10);
    }
}

fn digit_str(d: usize) -> (s: &'static str)
    requires
        d < 10,
    ensures
        s@ == seq![digit_char(d as nat)],
{
    proof {
        reveal_strlit("0");
        reveal_strlit("1");
        reveal_strlit("2");
        reveal_strlit("3");
        reveal_strlit("4");
        reveal_strlit("5");
        reveal_strlit("6");
        reveal_strlit("7");
        reveal_strlit("8");
        reveal_strlit("9");
    }
    let s = match d {
        0 => "0",
        1 => "1",
        2 => "2",
        3 => "3",
        4 => "4",
        5 => "5",
        6 => "6",
        7 => "7",
        8 => "8",
        _ => "9",
    };
    assert(s@ =~= seq![digit_char(d as nat)]);
    s
}

/// Writes `n` as a decimal numeral, the way a tuple field is referred to by
/// its position.
pub fn index_text(n: usize) -> (s: String)
    ensures
        s@ == decimal_text(n as nat),
    decreases n,
{
    if n < 10 {
        String::from_str(digit_str(n))
    } else {
        let mut s = index_text(n / 10);
        s.append(digit_str(n % 10));
        assert(s@ =~= decimal_text(n as nat));
        s
    }
}

/// The expression that forwards one polling call to the field `field_id`: the
/// pinned struct is projected to that field in place, and `call` is made on
/// the pinned field.
///
/// This is the one place where the generated code steps outside what the
/// compiler checks. It is sound because the struct is neither moved nor
/// dropped while the field is borrowed, so the field stays where it was
/// pinned.
pub open spec fn forward_text(field_id: Seq<char>, call: Seq<char>) -> Seq<char> {
    "unsafe { ::std::pin::Pin::new_unchecked(&mut self.get_unchecked_mut() . "@ + field_id
        + " ) . "@ + call + " }"@
}

/// Writes the expression that forwards `call` to the field `field_id`.
pub fn forward(field_id: &str, call: &str) -> (s: String)
    ensures
        s@ == forward_text(field_id@, call@),
{
    let mut s = String::from_str(
        "unsafe { ::std::pin::Pin::new_unchecked(&mut self.get_unchecked_mut() . ",
    );
    s.append(field_id);
    s.append(" ) . ");
    s.append(call);
    s.append(" }");
    s
}

/// An implementation of the trait `trait_path` for the type `ident`, with the
/// items `methods`. The generic parameters stand twice, as they were given:
/// after `impl` and after the type's name. The one bound asks that the type
/// of the chosen field implements the trait itself.
pub open spec fn impl_block_text(
    generics: Seq<char>,
    ident: Seq<char>,
    field_ty: Seq<char>,
    trait_path: Seq<char>,
    methods: Seq<char>,
) -> Seq<char> {
    "#[automatically_derived] impl "@ + generics + " "@ + trait_path + " for "@ + ident + " "@
        + generics + " where "@ + field_ty + " : "@ + trait_path + ", { "@ + methods + " }"@
}

/// Writes the implementation of `trait_path` for `ident`.
pub fn impl_block(
    generics: &str,
    ident: &str,
    field_ty: &str,
    trait_path: &str,
    methods: &str,
) -> (s: String)
    ensures
        s@ == impl_block_text(generics@, ident@, field_ty@, trait_path@, methods@),
{
    let mut s = String::from_str("#[automatically_derived] impl ");
    s.append(generics);
    s.append(" ");
    s.append(trait_path);
    s.append(" for ");
    s.append(ident);
    s.append(" ");
    s.append(generics);
    s.append(" where ");
    s.append(field_ty);
    s.append(" : ");
    s.append(trait_path);
    s.append(", { ");
    s.append(methods);
    s.append(" }");
    s
}

} // verus!
