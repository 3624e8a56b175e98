//! URI templates: text in which each `{}` stands for one positional argument.

use vstd::prelude::*;
use vstd::string::*;
use crate::text::{chars_of, texts};

verus! {

/// Whether a placeholder `{}` starts at position `i` of `t`.
pub open spec fn placeholder_at(t: Seq<char>, i: int) -> bool {
    0 <= i && i + 1 < t.len() && t[i] == '{' && t[i + 1] == '}'
}

/// The number of placeholders in `t` from position `i` on, read from left
/// to right.
pub open spec fn count_from(t: Seq<char>, i: int) -> nat
    decreases t.len() - i,
{
    if i < 0 || i >= t.len() {
        0
    } else if placeholder_at(t, i) {
        1 + count_from(t, i + 2)
    } else {
        count_from(t, i + 1)
    }
}

/// The number of placeholders in `t`.
pub open spec fn placeholder_count(t: Seq<char>) -> nat {
    count_from(t, 0)
}

/// `t` from position `i` on, with its placeholders replaced, from left to
/// right, by `args` from position `k` on. Once `args` is used up, the
/// remaining placeholders stay as they are.
pub open spec fn filled_from(t: Seq<char>, args: Seq<Seq<char>>, i: int, k: int) -> Seq<char>
    decreases t.len() - i,
{
    if i < 0 || i >= t.len() {
        Seq::empty()
    } else if placeholder_at(t, i) {
        if 0 <= k < args.len() {
            args[k] + filled_from(t, args, i + 2, k + 1)
        } else {
            t.subrange(i, i + 2) + filled_from(t, args, i + 2, k + 1)
        }
    } else {
        t.subrange(i, i + 1) + filled_from(t, args, i + 1, k)
    }
}

/// `t` with its placeholders replaced, from left to right, by `args` in
/// order.
pub open spec fn filled(t: Seq<char>, args: Seq<Seq<char>>) -> Seq<char> {
    filled_from(t, args, 0, 0)
}

/// Reading a text from position `d` on is reading what is left of it after
/// its first `d` characters, and likewise for the arguments.
pub proof fn lemma_shift(t: Seq<char>, args: Seq<Seq<char>>, d: int, e: int, i: int, k: int)
    requires
        0 <= d <= t.len(),
        0 <= e <= args.len(),
        0 <= i,
        0 <= k,
    ensures
        count_from(t, d + i) == count_from(t.skip(d), i),
        filled_from(t, args, d + i, e + k) == filled_from(t.skip(d), args.skip(e), i, k),
    decreases t.len() - d - i,
{
    let rest = t.skip(d);
    let left = args.skip(e);
    if d + i < t.len() {
        assert(placeholder_at(rest, i) == placeholder_at(t, d + i));
        if placeholder_at(t, d + i) {
            lemma_shift(t, args, d, e, i + 2, k + 1);
            assert(rest.subrange(i, i + 2) =~= t.subrange(d + i, d + i + 2));
        } else {
            lemma_shift(t, args, d, e, i + 1, k);
            assert(rest.subrange(i, i + 1) =~= t.subrange(d + i, d + i + 1));
        }
    }
}

/// A text without placeholders is filled by itself.
pub proof fn lemma_filled_plain(t: Seq<char>, args: Seq<Seq<char>>, i: int, k: int)
    requires
        0 <= i <= t.len(),
        count_from(t, i) == 0,
    ensures
        filled_from(t, args, i, k) == t.skip(i),
    decreases t.len() - i,
{
    if i < t.len() {
        lemma_filled_plain(t, args, i + 1, k);
        assert(t.subrange(i, i + 1) + t.skip(i + 1) =~= t.skip(i));
    } else {
        assert(t.skip(i) =~= Seq::<char>::empty());
    }
}

/// A placeholder at the start of a text is replaced by the first argument,
/// and the rest of the text is filled with the other arguments.
pub proof fn lemma_filled_placeholder(t: Seq<char>, args: Seq<Seq<char>>)
    requires
        placeholder_at(t, 0),
        args.len() > 0,
    ensures
        placeholder_count(t) == 1 + placeholder_count(t.skip(2)),
        filled(t, args) == args[0] + filled(t.skip(2), args.skip(1)),
{
    lemma_shift(t, args, 2, 1, 0, 0);
}

/// A character that starts no placeholder is kept, and the rest of the text
/// is filled with the same arguments.
pub proof fn lemma_filled_literal(t: Seq<char>, args: Seq<Seq<char>>)
    requires
        t.len() > 0,
        !placeholder_at(t, 0),
    ensures
        placeholder_count(t) == placeholder_count(t.skip(1)),
        filled(t, args) == t.take(1) + filled(t.skip(1), args),
{
    lemma_shift(t, args, 1, 0, 0, 0);
    assert(args.skip(0) =~= args);
}

/// The number of placeholders in `template`.
pub fn count_placeholders(template: &str) -> (count: usize)
    ensures
        count == placeholder_count(template@),
{
    let chars = chars_of(template);
    let n = chars.len();
    let ghost t = template@;
    let mut count: usize = 0;
    let mut i: usize = 0;
    while i < n
        invariant
            chars@ == t,
            n == t.len(),
            i <= n,
            count <= i,
            count + count_from(t, i as int) == placeholder_count(t),
        decreases n - i,
    {
        if i + 1 < n && chars[i] == '{' && chars[i + 1] == '}' {
            count = count + 1;
            i = i + 2;
        } else {
            i = i + 1;
        }
    }
    count
}

/// Replaces the placeholders of `template`, from left to right, by `args` in
/// order. There is a result exactly when there are as many arguments as
/// placeholders.
pub fn fill(template: &str, args: &Vec<String>) -> (out: Option<String>)
    ensures
        out is Some <==> placeholder_count(template@) == args@.len(),
        out matches Some(s) ==> s@ == filled(template@, texts(args@)),
{
    let chars = chars_of(template);
    let n = chars.len();
    let ghost t = template@;
    let ghost a = texts(args@);
    let mut out = String::new();
    let mut start: usize = 0;
    let mut i: usize = 0;
    let mut k: usize = 0;
    assert(t.subrange(0, 0) =~= Seq::<char>::empty());
    while i < n
        invariant
            chars@ == t,
            t == template@,
            a == texts(args@),
            n == t.len(),
            start <= i <= n,
            k <= args@.len(),
            k + count_from(t, i as int) == placeholder_count(t),
            filled(t, a) == out@ + t.subrange(start as int, i as int) + filled_from(
                t,
                a,
                i as int,
                k as int,
            ),
        decreases n - i,
    {
        if i + 1 < n && chars[i] == '{' && chars[i + 1] == '}' {
            if k >= args.len() {
                return None;
            }
            out.append(template.substring_char(start, i));
            out.append(args[k].as_str());
            k = k + 1;
            i = i + 2;
            start = i;
            assert(t.subrange(start as int, i as int) =~= Seq::<char>::empty());
        } else {
            assert(t.subrange(start as int, i as int) + t.subrange(i as int, i + 1)
                =~= t.subrange(start as int, i + 1));
            i = i + 1;
        }
    }
    out.append(template.substring_char(start, n));
    if k == args.len() {
        Some(out)
    } else {
        None
    }
}

} // verus!
