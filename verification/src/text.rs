//! Small string-building helpers shared by the tokenizer, the builtins and
//! the history formatter.

use vstd::prelude::*;

verus! {

/// Relies on `String::push`: appends exactly one character to the string.
#[verifier::external_body]
pub(crate) fn push_char(s: &mut String, c: char)
    ensures
        final(s)@ == old(s)@.push(c),
{
    s.push(c)
}

/// The words joined by single spaces: `a b c` for `[a, b, c]`, the empty
/// string for no words.
pub open spec fn spec_join_spaces(words: Seq<Seq<char>>) -> Seq<char>
    decreases words.len(),
{
    if words.len() == 0 {
        Seq::empty()
    } else if words.len() == 1 {
        words[0]
    } else {
        spec_join_spaces(words.drop_last()) + seq![' '] + words.last()
    }
}

/// Joins the words with single spaces, as `echo` prints its arguments.
pub fn join_spaces(words: &Vec<String>) -> (r: String)
    ensures
        r@ == spec_join_spaces(words.deep_view()),
{
    let mut out = String::new();
    let mut i: usize = 0;
    while i < words.len()
        invariant
            i <= words.len(),
            out@ == spec_join_spaces(words.deep_view().take(i as int)),
        decreases words.len() - i,
    {
        if i > 0 {
            push_char(&mut out, ' ');
        }
        out.append(words[i].as_str());
        i = i + 1;
        proof {
            let w = words.deep_view();
            assert(w.take(i as int).drop_last() =~= w.take(i - 1));
            assert(w.take(i as int).last() == w[i - 1]);
        }
    }
    proof {
        assert(words.deep_view().take(words.len() as int) =~= words.deep_view());
    }
    out
}

/// The character is a decimal digit.
pub open spec fn spec_is_digit(c: char) -> bool {
    48 <= c as u32 <= 57
}

/// The value of a decimal digit character.
pub open spec fn spec_digit_val(c: char) -> int {
    c as u32 as int - 48
}

/// Every character of the sequence is a decimal digit.
pub open spec fn spec_all_digits(s: Seq<char>) -> bool {
    forall|i: int| 0 <= i < s.len() ==> spec_is_digit(#[trigger] s[i])
}

/// The value of a digit sequence read in base ten.
pub open spec fn spec_digits_val(s: Seq<char>) -> int
    decreases s.len(),
{
    if s.len() == 0 {
        0
    } else {
        spec_digits_val(s.drop_last()) * 10 + spec_digit_val(s.last())
    }
}

/// What `str::parse::<usize>` accepts: an optional leading `+`, then one or
/// more digits, valuing no more than the machine word holds.
pub open spec fn spec_parse_usize(s: Seq<char>) -> Option<int> {
    let body = if s.len() > 0 && s[0] == '+' {
        s.skip(1)
    } else {
        s
    };
    if body.len() > 0 && spec_all_digits(body) && spec_digits_val(body) <= usize::MAX {
        Some(spec_digits_val(body))
    } else {
        None
    }
}

/// A digit sequence has a non-negative value.
proof fn lemma_digits_val_nonneg(s: Seq<char>)
    requires
        spec_all_digits(s),
    ensures
        spec_digits_val(s) >= 0,
    decreases s.len(),
{
    if s.len() > 0 {
        assert(spec_all_digits(s.drop_last()));
        lemma_digits_val_nonneg(s.drop_last());
    }
}

/// Reading more digits never shrinks the value.
proof fn lemma_digits_val_grows(s: Seq<char>, m: int)
    requires
        0 <= m <= s.len(),
        spec_all_digits(s),
    ensures
        spec_digits_val(s.take(m)) <= spec_digits_val(s),
    decreases s.len() - m,
{
    if m < s.len() {
        assert(s.take(m + 1).drop_last() =~= s.take(m));
        assert(spec_all_digits(s.take(m)));
        lemma_digits_val_nonneg(s.take(m));
        assert(spec_digits_val(s.take(m + 1)) == spec_digits_val(s.take(m)) * 10
            + spec_digit_val(s.take(m + 1).last()));
        lemma_digits_val_grows(s, m + 1);
    } else {
        assert(s.take(m) =~= s);
    }
}

/// Parses an optionally `+`-prefixed decimal number, failing on anything
/// else and on overflow, as `str::parse::<usize>` does.
pub fn parse_usize(s: &String) -> (r: Option<usize>)
    ensures
        match r {
            Some(v) => spec_parse_usize(s@) == Some(v as int),
            None => spec_parse_usize(s@) is None,
        },
{
    let n = s.as_str().unicode_len();
    let plus = n > 0 && s.as_str().get_char(0) == '+';
    let start: usize = if plus {
        1
    } else {
        0
    };
    let ghost body = s@.skip(start as int);
    proof {
        assert(s@.skip(0) =~= s@);
        assert(body == (if s@.len() > 0 && s@[0] == '+' {
            s@.skip(1)
        } else {
            s@
        }));
    }
    if n == start {
        proof {
            assert(body =~= Seq::<char>::empty());
        }
        return None;
    }
    let mut acc: usize = 0;
    let mut i: usize = start;
    proof {
        assert(body.take(0) =~= Seq::<char>::empty());
    }
    while i < n
        invariant
            start <= i <= n,
            n == s@.len(),
            start < n,
            body == s@.skip(start as int),
            body == (if s@.len() > 0 && s@[0] == '+' {
                s@.skip(1)
            } else {
                s@
            }),
            spec_all_digits(body.take(i - start)),
            acc == spec_digits_val(body.take(i - start)),
        decreases n - i,
    {
        let c = s.as_str().get_char(i);
        let u = c as u32;
        proof {
            assert(body[i - start] == s@[i as int]);
        }
        if u < 48 || u > 57 {
            proof {
                assert(!spec_is_digit(body[i - start]));
                assert(!spec_all_digits(body));
            }
            return None;
        }
        let d: usize = (u - 48) as usize;
        proof {
            vstd::arithmetic::div_mod::lemma_fundamental_div_mod(
                (usize::MAX - d) as int,
                10int,
            );
        }
        if acc > (usize::MAX - d) / 10 {
            proof {
                assert(body.take(i - start + 1).drop_last() =~= body.take(i - start));
                assert(body.take(i - start + 1).last() == body[i - start]);
                assert(spec_digits_val(body.take(i - start + 1)) == acc * 10 + d);
                assert(acc * 10 + d > usize::MAX);
                if spec_all_digits(body) {
                    assert(spec_all_digits(body.take(i - start + 1)));
                    lemma_digits_val_grows(body, i - start + 1);
                    assert(spec_digits_val(body) > usize::MAX);
                }
            }
            return None;
        }
        proof {
            assert(acc * 10 + d <= usize::MAX);
        }
        acc = acc * 10 + d;
        i = i + 1;
        proof {
            assert(body.take(i - start).drop_last() =~= body.take(i - 1 - start));
            assert(body.take(i - start).last() == body[i - 1 - start]);
            assert(spec_is_digit(body[i - 1 - start]));
            assert(spec_all_digits(body.take(i - start)));
        }
    }
    proof {
        assert(body.take(n - start) =~= body);
        assert(body.len() > 0);
    }
    Some(acc)
}

} // verus!
