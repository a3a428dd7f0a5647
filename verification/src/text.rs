//! Text helpers: the last component of a slash-separated name, and decimal numbers.
use vstd::prelude::*;

verus! {

/// The part of `s` after its last `'/'`, or all of `s` when it holds none
/// (what `s.split('/').last()` yields).
pub open spec fn after_last_slash(s: Seq<char>) -> Seq<char>
    decreases s.len(),
{
    if s.len() == 0 {
        s
    } else if s.last() == '/' {
        Seq::empty()
    } else {
        after_last_slash(s.drop_last()).push(s.last())
    }
}

proof fn lemma_after_last_slash_step(s: Seq<char>, i: int, start: int)
    requires
        0 <= start <= i < s.len(),
        after_last_slash(s.take(i)) == s.subrange(start, i),
    ensures
        s[i] == '/' ==> after_last_slash(s.take(i + 1)) == s.subrange(i + 1, i + 1),
        s[i] != '/' ==> after_last_slash(s.take(i + 1)) == s.subrange(start, i + 1),
{
    assert(s.take(i + 1).drop_last() =~= s.take(i));
    assert(s.take(i + 1).last() == s[i]);
    assert(s.subrange(start, i).push(s[i]) =~= s.subrange(start, i + 1));
    assert(Seq::<char>::empty() =~= s.subrange(i + 1, i + 1));
}

/// The last `/`-separated component of a name: `"dir/sub/file.txt"` gives `"file.txt"`,
/// `"file.txt"` stays as it is and `"dir/"` gives the empty text.
pub fn short_filename(name: &str) -> (short: String)
    ensures
        short@ == after_last_slash(name@),
{
    let n: usize = name.unicode_len();
    let mut start: usize = 0;
    let mut i: usize = 0;
    assert(name@.take(0) =~= Seq::<char>::empty());
    assert(name@.subrange(0, 0) =~= Seq::<char>::empty());
    while i < n
        invariant
            n == name@.len(),
            start <= i <= n,
            after_last_slash(name@.take(i as int)) == name@.subrange(start as int, i as int),
        decreases n - i,
    {
        let c = name.get_char(i);
        proof {
            lemma_after_last_slash_step(name@, i as int, start as int);
        }
        if c == '/' {
            start = i + 1;
        }
        i = i + 1;
    }
    assert(name@.take(n as int) =~= name@);
    let part = name.substring_char(start, n);
    part.to_string()
}

/// The decimal digit character for a value in `0..10`.
pub open spec fn digit_char(d: nat) -> char {
    (48 + d) as char
}

/// The decimal text of a natural number, without sign or leading zeros.
pub open spec fn decimal(n: nat) -> Seq<char>
    decreases n,
{
    if n < 10 {
        seq![digit_char(n)]
    } else {
        decimal(n / 10).push(digit_char(n % 10))
    }
}

fn digit_text(d: u64) -> (text: &'static str)
    requires
        d < 10,
    ensures
        text@ == seq![digit_char(d as nat)],
{
    if d == 0 {
        proof { reveal_strlit("0"); }
        "0"
    } else if d == 1 {
        proof { reveal_strlit("1"); }
        "1"
    } else if d == 2 {
        proof { reveal_strlit("2"); }
        "2"
    } else if d == 3 {
        proof { reveal_strlit("3"); }
        "3"
    } else if d == 4 {
        proof { reveal_strlit("4"); }
        "4"
    } else if d == 5 {
        proof { reveal_strlit("5"); }
        "5"
    } else if d == 6 {
        proof { reveal_strlit("6"); }
        "6"
    } else if d == 7 {
        proof { reveal_strlit("7"); }
        "7"
    } else if d == 8 {
        proof { reveal_strlit("8"); }
        "8"
    } else {
        proof { reveal_strlit("9"); }
        "9"
    }
}

/// The decimal text of `n`, as `{}` and `{:?}` print an unsigned integer.
pub fn decimal_text(n: u64) -> (text: String)
    ensures
        text@ == decimal(n as nat),
    decreases n,
{
    if n < 10 {
        String::from_str(digit_text(n))
    } else {
        let mut text = decimal_text(n / 10);
        text.append(digit_text(n % 10));
        text
    }
}

/// Whether two texts hold the same characters.
pub fn same_text(a: &str, b: &str) -> (same: bool)
    ensures
        same == (a@ == b@),
{
    let n: usize = a.unicode_len();
    let m: usize = b.unicode_len();
    if n != m {
        return false;
    }
    let mut i: usize = 0;
    while i < n
        invariant
            n == a@.len(),
            n == b@.len(),
            i <= n,
            forall|j: int| 0 <= j < i ==> a@[j] == b@[j],
        decreases n - i,
    {
        if a.get_char(i) != b.get_char(i) {
            return false;
        }
        i = i + 1;
    }
    assert(a@ =~= b@);
    true
}

/// The concatenation of two texts.
pub fn joined(a: &str, b: &str) -> (text: String)
    ensures
        text@ == a@ + b@,
{
    let mut text = String::from_str(a);
    text.append(b);
    text
}

/// The last component of a name holds no `'/'`.
pub proof fn law_short_name_has_no_slash(name: Seq<char>)
    ensures
        !after_last_slash(name).contains('/'),
    decreases name.len(),
{
    if name.len() > 0 && name.last() != '/' {
        law_short_name_has_no_slash(name.drop_last());
        let rest = after_last_slash(name.drop_last());
        assert forall|i: int| 0 <= i < rest.push(name.last()).len() implies rest.push(name.last())[i]
            != '/' by {
            if i < rest.len() {
                assert(rest.push(name.last())[i] == rest[i]);
            }
        }
    }
}

/// The last component of a name is a suffix of it.
pub proof fn law_short_name_is_suffix(name: Seq<char>)
    ensures
        after_last_slash(name).len() <= name.len(),
        after_last_slash(name) == name.subrange(
            name.len() - after_last_slash(name).len(),
            name.len() as int,
        ),
    decreases name.len(),
{
    if name.len() > 0 {
        law_short_name_is_suffix(name.drop_last());
        let rest = after_last_slash(name.drop_last());
        if name.last() == '/' {
            assert(name.subrange(name.len() as int, name.len() as int) =~= Seq::<char>::empty());
        } else {
            let k: int = name.len() - 1 - rest.len();
            assert(rest.push(name.last()) =~= name.subrange(k, name.len() as int));
        }
    }
}

/// A name without `'/'` is its own last component.
pub proof fn law_plain_name_is_kept(name: Seq<char>)
    requires
        !name.contains('/'),
    ensures
        after_last_slash(name) == name,
    decreases name.len(),
{
    if name.len() > 0 {
        assert(name.last() == name[name.len() - 1]);
        assert(!name.drop_last().contains('/')) by {
            assert forall|i: int| 0 <= i < name.drop_last().len() implies name.drop_last()[i] != '/' by {
                assert(name.drop_last()[i] == name[i]);
            }
        }
        law_plain_name_is_kept(name.drop_last());
        assert(name.drop_last().push(name.last()) =~= name);
    }
}

/// Taking the last component twice gives the same as taking it once.
pub proof fn law_short_name_idempotent(name: Seq<char>)
    ensures
        after_last_slash(after_last_slash(name)) == after_last_slash(name),
{
    law_short_name_has_no_slash(name);
    law_plain_name_is_kept(after_last_slash(name));
}

/// Whatever precedes the last `'/'` does not matter: the last component of
/// `prefix + "/" + tail`, for a `tail` without `'/'`, is `tail`.
pub proof fn law_short_name_after_separator(prefix: Seq<char>, tail: Seq<char>)
    requires
        !tail.contains('/'),
    ensures
        after_last_slash(prefix.push('/') + tail) == tail,
    decreases tail.len(),
{
    if tail.len() == 0 {
        assert(prefix.push('/') + tail =~= prefix.push('/'));
    } else {
        let whole = prefix.push('/') + tail;
        assert(whole.drop_last() =~= prefix.push('/') + tail.drop_last());
        assert(!tail.drop_last().contains('/')) by {
            assert forall|i: int| 0 <= i < tail.drop_last().len() implies tail.drop_last()[i] != '/' by {
                assert(tail.drop_last()[i] == tail[i]);
            }
        }
        assert(tail[tail.len() - 1] != '/');
        law_short_name_after_separator(prefix, tail.drop_last());
        assert(tail.drop_last().push(tail.last()) =~= tail);
    }
}

/// The number a text of decimal digits stands for.
pub open spec fn decimal_value(digits: Seq<char>) -> nat
    decreases digits.len(),
{
    if digits.len() == 0 {
        0
    } else {
        decimal_value(digits.drop_last()) * 10 + ((digits.last() as int - 48) as nat)
    }
}

/// The decimal text of a number consists of digits only, does not start with `'0'`
/// unless it is `"0"`, and reads back as that same number.
pub proof fn law_decimal_reads_back(n: nat)
    ensures
        decimal(n).len() >= 1,
        forall|i: int| 0 <= i < decimal(n).len() ==> '0' <= #[trigger] decimal(n)[i] <= '9',
        decimal(n)[0] == '0' ==> n == 0,
        decimal_value(decimal(n)) == n,
    decreases n,
{
    if n < 10 {
        assert(((48 + n) as char) as int == 48 + n);
        assert(decimal(n).drop_last() =~= Seq::<char>::empty());
        assert(decimal(n).last() == digit_char(n));
        assert(decimal_value(decimal(n)) == decimal_value(Seq::<char>::empty()) * 10 + n);
    } else {
        law_decimal_reads_back(n / 10);
        let d = n % 10;
        assert(((48 + d) as char) as int == 48 + d);
        let s = decimal(n / 10).push(digit_char(d));
        assert(s.drop_last() =~= decimal(n / 10));
        assert forall|i: int| 0 <= i < s.len() implies '0' <= #[trigger] s[i] <= '9' by {
            if i < s.len() - 1 {
                assert(s[i] == decimal(n / 10)[i]);
            }
        }
        assert(s[0] == decimal(n / 10)[0]);
        assert(s.last() == digit_char(d));
        assert((n / 10) * 10 + n % 10 == n) by (nonlinear_arith);
        assert(decimal_value(s) == decimal_value(decimal(n / 10)) * 10 + d);
    }
}

} // verus!
