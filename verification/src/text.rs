//! Text of numbers, options and sets, as it appears in messages and file names.

use std::collections::BTreeSet;
use vstd::prelude::*;
use vstd::std_specs::btree::spec_btree_keys_iter;
use vstd::std_specs::cmp::OrdSpec;
use vstd::std_specs::iter::IteratorSpec;
use vstd::string::*;

verus! {

/// The decimal digit `d`.
pub open spec fn digit(d: nat) -> char {
    (48 + d) as char
}

/// `n` in decimal, without sign or leading zeros.
pub open spec fn decimal(n: nat) -> Seq<char>
    decreases n,
{
    if n < 10 {
        seq![digit(n)]
    } else {
        decimal(n / 10).push(digit(n % 10))
    }
}

/// Different numbers have different decimal texts.
pub proof fn lemma_decimal_is_injective(a: nat, b: nat)
    requires
        decimal(a) == decimal(b),
    ensures
        a == b,
    decreases a,
{
    assert(decimal(a).last() == digit(a % 10));
    assert(decimal(b).last() == digit(b % 10));
    assert(a % 10 == b % 10);
    lemma_decimal_len(a);
    lemma_decimal_len(b);
    if a >= 10 && b >= 10 {
        assert(decimal(a).drop_last() =~= decimal(a / 10));
        assert(decimal(b).drop_last() =~= decimal(b / 10));
        lemma_decimal_is_injective(a / 10, b / 10);
    }
}

proof fn lemma_decimal_len(n: nat)
    ensures
        decimal(n).len() >= 1,
        n >= 10 ==> decimal(n).len() >= 2,
    decreases n,
{
    if n >= 10 {
        lemma_decimal_len(n / 10);
    }
}

/// `n` in decimal, with a minus sign where it is negative.
pub open spec fn signed_decimal(n: int) -> Seq<char> {
    if n < 0 {
        seq!['-'] + decimal((-n) as nat)
    } else {
        decimal(n as nat)
    }
}

/// `true` or `false`.
pub open spec fn bool_text(b: bool) -> Seq<char> {
    if b {
        "true"@
    } else {
        "false"@
    }
}

/// `Some(n)` or `None`.
pub open spec fn option_text(n: Option<u64>) -> Seq<char> {
    match n {
        Some(n) => "Some("@ + decimal(n as nat) + ")"@,
        None => "None"@,
    }
}

/// The numbers of `s`, separated by `sep`.
pub open spec fn joined(s: Seq<u64>, sep: Seq<char>) -> Seq<char>
    decreases s.len(),
{
    if s.len() == 0 {
        Seq::empty()
    } else if s.len() == 1 {
        decimal(s[0] as nat)
    } else {
        joined(s.drop_last(), sep) + sep + decimal(s.last() as nat)
    }
}

/// `q` lists the members of `s`, each once, from the smallest to the largest.
pub open spec fn lists_ascending(q: Seq<u64>, s: Set<u64>) -> bool {
    &&& forall|i: int, j: int| 0 <= i < j < q.len() ==> q[i] < q[j]
    &&& q.to_set() =~= s
}

/// The members of `s` from the smallest to the largest.
pub open spec fn ascending(s: Set<u64>) -> Seq<u64> {
    choose|q: Seq<u64>| lists_ascending(q, s)
}

/// A set of numbers in braces: `{1, 2, 3}`.
pub open spec fn set_text(s: Set<u64>) -> Seq<char> {
    "{"@ + joined(ascending(s), ", "@) + "}"@
}

/// A set has one ascending enumeration.
pub proof fn lemma_ascending_unique(a: Seq<u64>, b: Seq<u64>, s: Set<u64>)
    requires
        lists_ascending(a, s),
        lists_ascending(b, s),
    ensures
        a == b,
    decreases a.len(),
{
    if a.len() == 0 {
        if b.len() > 0 {
            assert(b.to_set().contains(b[0]));
            assert(a.to_set().contains(b[0]));
        }
        assert(a =~= b);
    } else {
        assert(a.to_set().contains(a.last()));
        assert(b.to_set().contains(a.last()));
        assert(b.len() > 0);
        assert(b.to_set().contains(b.last()));
        assert(a.to_set().contains(b.last()));
        let i = choose|i: int| 0 <= i < b.len() && b[i] == a.last();
        let j = choose|j: int| 0 <= j < a.len() && a[j] == b.last();
        assert(b[i] <= b.last());
        assert(a[j] <= a.last());
        assert(a.last() == b.last());
        let t = s.remove(a.last());
        assert(lists_ascending(a.drop_last(), t)) by {
            lemma_drop_last_lists(a, s);
        }
        assert(lists_ascending(b.drop_last(), t)) by {
            lemma_drop_last_lists(b, s);
        }
        lemma_ascending_unique(a.drop_last(), b.drop_last(), t);
        assert(a =~= a.drop_last().push(a.last()));
        assert(b =~= b.drop_last().push(b.last()));
    }
}

proof fn lemma_drop_last_lists(a: Seq<u64>, s: Set<u64>)
    requires
        lists_ascending(a, s),
        a.len() > 0,
    ensures
        lists_ascending(a.drop_last(), s.remove(a.last())),
{
    let d = a.drop_last();
    assert forall|x: u64| d.to_set().contains(x) == s.remove(a.last()).contains(x) by {
        if d.to_set().contains(x) {
            let i = choose|i: int| 0 <= i < d.len() && d[i] == x;
            assert(a[i] == x);
            assert(a.to_set().contains(x));
            assert(a[i] < a[a.len() - 1]);
        }
        if s.remove(a.last()).contains(x) {
            assert(a.to_set().contains(x));
            let i = choose|i: int| 0 <= i < a.len() && a[i] == x;
            assert(i < a.len() - 1);
            assert(d[i] == x);
        }
    }
    assert(d.to_set() =~= s.remove(a.last()));
}

fn digit_text(d: u64) -> (text: &'static str)
    requires
        d < 10,
    ensures
        text@ == seq![digit(d as nat)],
{
    proof {
        reveal_strlit("0");
        reveal_strlit("1");
        reveal_strlit("2");
        reveal_strlit("3");
        reveal_strlit("4");
        reveal_strlit("5");
        reveal_strlit("6");
        reveal_strlit("7");
        reveal_strlit("8");
        reveal_strlit("9");
    }
    let text = match d {
        0 => "0",
        1 => "1",
        2 => "2",
        3 => "3",
        4 => "4",
        5 => "5",
        6 => "6",
        7 => "7",
        8 => "8",
        _ => "9",
    };
    assert(text@ =~= seq![digit(d as nat)]);
    text
}

/// Appends `n` in decimal.
pub fn append_u64(out: &mut String, n: u64)
    ensures
        final(out)@ == old(out)@ + decimal(n as nat),
    decreases n,
{
    if n < 10 {
        out.append(digit_text(n));
    } else {
        append_u64(out, n / 10);
        out.append(digit_text(n % 10));
        assert(out@ =~= old(out)@ + decimal(n as nat));
    }
}

/// `n` in decimal.
pub fn u64_text(n: u64) -> (text: String)
    ensures
        text@ == decimal(n as nat),
{
    let mut text = String::new();
    append_u64(&mut text, n);
    assert(text@ =~= decimal(n as nat));
    text
}

/// Appends `true` or `false`.
pub fn append_bool(out: &mut String, b: bool)
    ensures
        final(out)@ == old(out)@ + bool_text(b),
{
    if b {
        out.append("true");
    } else {
        out.append("false");
    }
}

/// Appends `Some(n)` or `None`.
pub fn append_option(out: &mut String, n: Option<u64>)
    ensures
        final(out)@ == old(out)@ + option_text(n),
{
    match n {
        Some(n) => {
            out.append("Some(");
            append_u64(out, n);
            out.append(")");
        },
        None => {
            out.append("None");
        },
    }
    assert(out@ =~= old(out)@ + option_text(n));
}

proof fn lemma_references_are_ordered()
    ensures
        vstd::laws_cmp::obeys_cmp::<&u64>(),
{
    reveal(vstd::laws_eq::obeys_eq);
    reveal(vstd::laws_cmp::obeys_cmp_partial_ord);
    reveal(vstd::laws_cmp::obeys_cmp_ord);
}

/// The members of `set` from the smallest to the largest.
pub fn ascending_members(set: &BTreeSet<u64>) -> (members: Vec<u64>)
    ensures
        lists_ascending(members@, set@),
        members@ == ascending(set@),
{
    let mut members: Vec<u64> = Vec::new();
    for x in it: set.iter()
        invariant
            it.seq() == spec_btree_keys_iter(set).remaining(),
            members@ == it.seq().unref().take(it.index()),
    {
        members.push(*x);
        assert(members@ =~= it.seq().unref().take(it.index() + 1));
    }
    proof {
        assert(members@ == spec_btree_keys_iter(set).remaining().unref());
        lemma_references_are_ordered();
        let refs = spec_btree_keys_iter(set).remaining();
        assert(members@.len() == refs.len());
        assert forall|i: int, j: int| 0 <= i < j < members@.len() implies members@[i] < members@[j] by {
            assert(vstd::std_specs::btree::increasing_seq(refs));
            let a: &u64 = refs[i];
            let b: &u64 = refs[j];
            assert(OrdSpec::cmp_spec(&a, &b) is Less);
        }
        assert(lists_ascending(members@, set@));
        lemma_ascending_unique(members@, ascending(set@), set@);
    }
    members
}

/// Appends a set of numbers in braces, smallest first.
pub fn append_set(out: &mut String, set: &BTreeSet<u64>)
    ensures
        final(out)@ == old(out)@ + set_text(set@),
{
    out.append("{");
    let members = ascending_members(set);
    let ghost start = out@;
    let mut i: usize = 0;
    while i < members.len()
        invariant
            i <= members.len(),
            out@ == start + joined(members@.take(i as int), ", "@),
        decreases members.len() - i,
    {
        if i > 0 {
            out.append(", ");
        }
        append_u64(out, members[i]);
        proof {
            let next = members@.take(i + 1);
            assert(next.drop_last() =~= members@.take(i as int));
            assert(out@ =~= start + joined(next, ", "@));
        }
        i += 1;
    }
    assert(members@.take(members.len() as int) =~= members@);
    out.append("}");
    assert(out@ =~= old(out)@ + set_text(set@));
}

/// The number that a text of decimal digits stands for.
pub open spec fn decimal_value(text: Seq<char>) -> int
    decreases text.len(),
{
    if text.len() == 0 {
        0
    } else {
        10 * decimal_value(text.drop_last()) + (text.last() as int - '0' as int)
    }
}

/// A number is what its decimal text says, in digits and without a leading zero.
pub proof fn law_decimal_texts_say_their_number(n: nat)
    ensures
        decimal_value(decimal(n)) == n,
        forall|i: int| 0 <= i < decimal(n).len() ==> '0' <= #[trigger] decimal(n)[i] <= '9',
        n > 0 ==> decimal(n)[0] != '0',
        decimal(n).len() >= 1,
    decreases n,
{
    if n < 10 {
        assert(decimal(n).drop_last() =~= Seq::empty());
        assert(decimal_value(Seq::<char>::empty()) == 0);
    } else {
        law_decimal_texts_say_their_number(n / 10);
        assert(decimal(n).drop_last() =~= decimal(n / 10));
        assert(decimal(n)[0] == decimal(n / 10)[0]);
    }
}

/// A negative number has the text of its size behind a minus sign, and no other has one.
pub proof fn law_signs_are_shown(n: int)
    ensures
        n < 0 ==> signed_decimal(n)[0] == '-' && signed_decimal(n).skip(1) == decimal((-n) as nat),
        n >= 0 ==> signed_decimal(n) == decimal(n as nat) && signed_decimal(n)[0] != '-',
{
    if n < 0 {
        assert(signed_decimal(n).skip(1) =~= decimal((-n) as nat));
    } else {
        law_decimal_texts_say_their_number(n as nat);
    }
}

/// An ascending list holds every member once, smaller ones before larger ones, and nothing else.
pub proof fn law_ascending_lists_are_complete(set: BTreeSet<u64>, members: Vec<u64>, x: u64)
    requires
        call_ensures(ascending_members, (&set,), members),
    ensures
        members@ == ascending(set@),
        set@.contains(x) <==> members@.contains(x),
        forall|i: int, j: int|
            0 <= i < j < members@.len() ==> #[trigger] members@[i] < #[trigger] members@[j],
        members@.len() == set@.len(),
{
    assert(members@.to_set().contains(x) <==> members@.contains(x));
    assert(members@.no_duplicates());
    members@.unique_seq_to_set();
}

/// A number's digits end where something else than a digit follows.
proof fn lemma_digits_end(a: nat, r: Seq<char>, b: nat, s: Seq<char>)
    requires
        decimal(a) + r == decimal(b) + s,
        r.len() > 0 ==> !('0' <= r[0] <= '9'),
        s.len() > 0 ==> !('0' <= s[0] <= '9'),
    ensures
        a == b,
        r == s,
{
    let x = decimal(a);
    let y = decimal(b);
    law_decimal_texts_say_their_number(a);
    law_decimal_texts_say_their_number(b);
    assert((x + r).len() == (y + s).len());
    if x.len() < y.len() {
        assert((x + r)[x.len() as int] == r[0]);
        assert((y + s)[x.len() as int] == y[x.len() as int]);
    }
    if y.len() < x.len() {
        assert((y + s)[y.len() as int] == s[0]);
        assert((x + r)[y.len() as int] == x[y.len() as int]);
    }
    assert(x.len() == y.len());
    assert forall|i: int| 0 <= i < x.len() implies x[i] == y[i] by {
        assert((x + r)[i] == x[i]);
        assert((y + s)[i] == y[i]);
    }
    assert(x =~= y);
    lemma_decimal_is_injective(a, b);
    assert forall|i: int| 0 <= i < r.len() implies r[i] == s[i] by {
        assert((x + r)[x.len() + i] == r[i]);
        assert((y + s)[y.len() + i] == s[i]);
    }
    assert(r =~= s);
}

/// Behind the same text, a number and what follows it can be read off.
pub proof fn lemma_number_follows(p: Seq<char>, a: nat, r: Seq<char>, b: nat, s: Seq<char>)
    requires
        p + (decimal(a) + r) == p + (decimal(b) + s),
        r.len() > 0 ==> !('0' <= r[0] <= '9'),
        s.len() > 0 ==> !('0' <= s[0] <= '9'),
    ensures
        a == b,
        r == s,
{
    let x = decimal(a) + r;
    let y = decimal(b) + s;
    assert((p + x).skip(p.len() as int) =~= x);
    assert((p + y).skip(p.len() as int) =~= y);
    lemma_digits_end(a, r, b, s);
}

/// Joined numbers stand one after the other, each behind the separator but for the first; a set is
/// shown in braces, with its members in ascending order and separated by commas.
pub proof fn law_sets_are_shown_in_order(
    s: Seq<u64>,
    x: u64,
    sep: Seq<char>,
    out: &mut String,
    set: BTreeSet<u64>,
)
    requires
        call_ensures(append_set, (out, &set), ()),
    ensures
        joined(Seq::empty(), sep) == Seq::<char>::empty(),
        joined(seq![x], sep) == decimal(x as nat),
        s.len() > 0 ==> joined(s.push(x), sep) == joined(s, sep) + sep + decimal(x as nat),
        final(out)@ == old(out)@ + ("{"@ + joined(ascending(set@), ", "@) + "}"@),
{
    assert(s.push(x).drop_last() =~= s);
}

/// Options and truth values are shown as they are.
pub proof fn law_options_are_shown_as_they_are(
    out: &mut String,
    n: Option<u64>,
    other: &mut String,
    b: bool,
    number: u64,
    shown: String,
)
    requires
        call_ensures(append_option, (out, n), ()),
        call_ensures(append_bool, (other, b), ()),
        call_ensures(u64_text, (number,), shown),
    ensures
        n is None ==> final(out)@ == old(out)@ + "None"@,
        n is Some ==> final(out)@ == old(out)@ + ("Some("@ + decimal(n->0 as nat) + ")"@),
        b ==> final(other)@ == old(other)@ + "true"@,
        !b ==> final(other)@ == old(other)@ + "false"@,
        decimal_value(shown@) == number,
{
    law_decimal_texts_say_their_number(number as nat);
}

} // verus!
